use haunt::presence::{
    decode_presences, find_player, get_match_info, GameMap, MatchInfo, Player, Private,
    RawPresence,
};

fn raw(puuid: &str, product: &str, private: Option<&str>) -> RawPresence {
    RawPresence {
        puuid: puuid.to_string(),
        game_name: format!("{}-name", puuid),
        game_tag: "TAG".to_string(),
        product: product.to_string(),
        private: private.map(|s| s.to_string()),
    }
}

#[test]
fn decodes_valorant_presences_only() {
    // "eyJhIjoxfQ==" is the standard base64 encoding of {"a":1}
    let entries = vec![
        raw("p1", "valorant", Some("eyJhIjoxfQ==")),
        raw("p2", "league_of_legends", Some("eyJhIjoxfQ==")),
        raw("p3", "valorant", None),
        raw("p4", "valorant", Some("!!not-base64!!")),
    ];
    let decoded = decode_presences(&entries);
    assert_eq!(decoded.len(), 1);
    assert_eq!(decoded[0].puuid, "p1");
    assert_eq!(decoded[0].game_name, "p1-name");
    assert_eq!(decoded[0].private_json, "{\"a\":1}");
}

fn private(map: &str, party: &str, queue: &str, level: u32, tier: u32) -> Private {
    Private {
        is_valid: true,
        match_map: map.to_string(),
        party_id: party.to_string(),
        player_card_id: "card".to_string(),
        player_title_id: "title".to_string(),
        preferred_level_border_id: "border".to_string(),
        account_level: level,
        competitive_tier: tier,
        queue_id: queue.to_string(),
    }
}

fn player(puuid: &str, map: &str, queue: &str) -> Player {
    Player {
        puuid: puuid.to_string(),
        game_name: format!("{}-name", puuid),
        game_tag: "TAG".to_string(),
        private: private(map, "party-1", queue, 100, 20),
    }
}

#[test]
fn map_decodes_from_asset_path() {
    assert_eq!(GameMap::from("/Game/Maps/Ascent/Ascent"), GameMap::Ascent);
    assert_eq!(GameMap::from("/Game/Maps/Bonsai/Split"), GameMap::Split);
    assert_eq!(GameMap::from("/Game/Maps/Poveglia/Range"), GameMap::TheRange);
    assert_eq!(GameMap::from("Bind"), GameMap::Bind);
    assert_eq!(GameMap::from("/Game/Maps/Somewhere/New"), GameMap::Unknown);
    assert_eq!(GameMap::from(""), GameMap::Unknown);
}

#[test]
fn gamemode_names_for_known_queues() {
    let mi = MatchInfo::from(&player("p1", "/Game/Maps/Ascent/Ascent", "competitive"));
    assert_eq!(mi.gamemode, "Competitive");
    assert_eq!(mi.map, GameMap::Ascent);

    let mi = MatchInfo::from(&player("p1", "/Game/Maps/Ascent/Ascent", "unrated"));
    assert_eq!(mi.gamemode, "Unrated");

    let mi = MatchInfo::from(&player("p1", "/Game/Maps/Ascent/Ascent", "newmap"));
    assert_eq!(mi.gamemode, "New Map");
}

#[test]
fn the_range_wins_over_queue_name() {
    let mi = MatchInfo::from(&player("p1", "/Game/Maps/Poveglia/Range", "competitive"));
    assert_eq!(mi.gamemode, "The Range");
    assert_eq!(mi.map, GameMap::TheRange);
}

#[test]
fn unknown_queue_is_title_cased() {
    let mi = MatchInfo::from(&player("p1", "/Game/Maps/Ascent/Ascent", "swiftplay"));
    assert_eq!(mi.gamemode, "Swiftplay");
}

#[test]
fn finds_presence_by_id() {
    let players = vec![player("p1", "/x/Ascent", "unrated"), player("p2", "/x/Bind", "unrated")];
    let found = find_player(&players, "p2").unwrap();
    assert_eq!(found.game_name, "p2-name");
    assert!(find_player(&players, "p9").is_none());
}

#[test]
fn match_info_for_present_player_only() {
    let players = vec![player("p1", "/x/Haven", "competitive")];
    let mi = get_match_info("p1", &players).unwrap();
    assert_eq!(mi.map, GameMap::Haven);
    assert!(get_match_info("p2", &players).is_none());
}
