use haunt::agents::Agent;
use haunt::matchdata::{
    apply_names, apply_party_ids, get_character, normalize, Character, CharacterSelectionState,
    IngameMatchInfo, IngamePlayer, MatchData, Player, PlayerIdentity, PregameMatchInfo,
    PregamePlayer, PregameTeam, RawMatch, Team,
};
use haunt::names::NameEntry;
use haunt::presence;

fn identity(level: u32, incognito: bool, hide_level: bool) -> PlayerIdentity {
    PlayerIdentity {
        card_id: "card".to_string(),
        title_id: "title".to_string(),
        account_level: level,
        border_id: "border".to_string(),
        incognito,
        hide_account_level: hide_level,
    }
}

fn ingame_player(puuid: &str, character: &str, coach: bool) -> IngamePlayer {
    IngamePlayer {
        puuid: puuid.to_string(),
        team: Team::Blue,
        character_id: character.to_string(),
        player_identity: identity(30, false, false),
        is_coach: coach,
    }
}

fn agent(uuid: &str, name: &str) -> Agent {
    Agent {
        uuid: uuid.to_string(),
        display_name: name.to_string(),
        display_icon: "icon".to_string(),
    }
}

#[test]
fn normalize_ingame_drops_coaches_and_locks_characters() {
    let raw = RawMatch::Ingame(IngameMatchInfo {
        map_id: "/x/Ascent".to_string(),
        mode_id: "bomb".to_string(),
        players: vec![
            ingame_player("p1", "jett", false),
            ingame_player("coach", "", true),
            ingame_player("p2", "sova", false),
        ],
    });
    let md = normalize(raw);
    assert!(md.ingame);
    assert_eq!(md.map, "/x/Ascent");
    assert_eq!(md.mode, "bomb");
    assert_eq!(md.players.len(), 2);
    assert_eq!(md.players[0].puuid, "p1");
    assert_eq!(md.players[0].character, Character::Locked("jett".to_string()));
    assert_eq!(md.players[0].name, "");
    assert_eq!(md.players[1].puuid, "p2");
}

fn pregame_player(puuid: &str, state: CharacterSelectionState, captain: bool) -> PregamePlayer {
    PregamePlayer {
        puuid: puuid.to_string(),
        character_selection_state: state,
        character_id: "neon".to_string(),
        competitive_tier: 12,
        player_identity: identity(44, false, false),
        is_captain: captain,
    }
}

#[test]
fn normalize_pregame_drops_captains_and_maps_selection_states() {
    let raw = RawMatch::Pregame(PregameMatchInfo {
        map_id: "/x/Bind".to_string(),
        mode: "spike".to_string(),
        teams: vec![
            PregameTeam {
                team_id: Team::Blue,
                players: vec![
                    pregame_player("p1", CharacterSelectionState::Locked, false),
                    pregame_player("cap", CharacterSelectionState::Locked, true),
                ],
            },
            PregameTeam {
                team_id: Team::Red,
                players: vec![
                    pregame_player("p2", CharacterSelectionState::Selected, false),
                    pregame_player("p3", CharacterSelectionState::Unselected, false),
                ],
            },
        ],
    });
    let md = normalize(raw);
    assert!(!md.ingame);
    assert_eq!(md.players.len(), 3);
    assert_eq!(md.players[0].puuid, "p1");
    assert_eq!(md.players[0].character, Character::Locked("neon".to_string()));
    assert_eq!(md.players[1].puuid, "p2");
    assert_eq!(md.players[1].character, Character::Hovered("neon".to_string()));
    assert_eq!(md.players[1].team, Team::Red);
    assert_eq!(md.players[2].character, Character::Unselected);
}

#[test]
fn selection_state_mapping() {
    assert_eq!(
        get_character(CharacterSelectionState::Locked, "a".to_string()),
        Character::Locked("a".to_string())
    );
    assert_eq!(
        get_character(CharacterSelectionState::Selected, "a".to_string()),
        Character::Hovered("a".to_string())
    );
    assert_eq!(
        get_character(CharacterSelectionState::Unselected, "a".to_string()),
        Character::Unselected
    );
}

fn presence_player(puuid: &str, party: &str) -> presence::Player {
    presence::Player {
        puuid: puuid.to_string(),
        game_name: "gn".to_string(),
        game_tag: "tg".to_string(),
        private: presence::Private {
            is_valid: true,
            match_map: "/x/Ascent".to_string(),
            party_id: party.to_string(),
            player_card_id: "c".to_string(),
            player_title_id: "t".to_string(),
            preferred_level_border_id: "b".to_string(),
            account_level: 10,
            competitive_tier: 5,
            queue_id: "unrated".to_string(),
        },
    }
}

fn bare_match(players: Vec<Player>) -> MatchData {
    MatchData { ingame: true, map: "m".to_string(), mode: "md".to_string(), players }
}

fn bare_player(puuid: &str) -> Player {
    Player {
        puuid: puuid.to_string(),
        name: String::new(),
        team: Team::Blue,
        character: Character::Unselected,
        card: "c".to_string(),
        title: "t".to_string(),
        account_level: 7,
        border: "b".to_string(),
        incognito: false,
        hide_account_level: false,
        competitive_history: Vec::new(),
        party_id: String::new(),
    }
}

#[test]
fn party_ids_copied_from_presences() {
    let md = bare_match(vec![bare_player("p1"), bare_player("p2")]);
    let presences = vec![presence_player("p1", "party-blue")];
    let md = apply_party_ids(md, &presences);
    assert_eq!(md.players[0].party_id, "party-blue");
    assert_eq!(md.players[1].party_id, "");
}

#[test]
fn names_fanned_back_in_by_id() {
    let md = bare_match(vec![bare_player("p1"), bare_player("p2")]);
    let entries = vec![NameEntry {
        subject: "p1".to_string(),
        game_name: "Alice".to_string(),
        tag_line: "NA1".to_string(),
    }];
    let md = apply_names(md, &entries);
    assert_eq!(md.players[0].name, "Alice #NA1");
    assert_eq!(md.players[1].name, "");
}

#[test]
fn incognito_name_resolution() {
    let agents = vec![agent("jett", "Jett")];
    let mut p = bare_player("p1");
    p.name = "RealName #TAG".to_string();

    // not incognito: the resolved name is shown
    assert_eq!(p.get_name(&agents), "RealName #TAG");

    // incognito without a pick: the generic placeholder
    p.incognito = true;
    p.character = Character::Unselected;
    assert_eq!(p.get_name(&agents), "Player");

    // incognito with a locked, known character: the catalog name
    p.character = Character::Locked("jett".to_string());
    assert_eq!(p.get_name(&agents), "Jett");

    // incognito with an unknown character id: the placeholder again
    p.character = Character::Locked("nobody".to_string());
    assert_eq!(p.get_name(&agents), "Player");
}

#[test]
fn account_level_hidden_when_flagged() {
    let mut p = bare_player("p1");
    p.account_level = 88;
    assert_eq!(p.get_account_level(), Some(88));
    p.hide_account_level = true;
    assert_eq!(p.get_account_level(), None);
}

#[test]
fn selected_agent_resolution() {
    let agents = vec![agent("jett", "Jett")];
    let mut p = bare_player("p1");
    assert!(p.get_agent(&agents).is_none());
    p.character = Character::Hovered("jett".to_string());
    assert_eq!(p.get_agent(&agents).unwrap().display_name, "Jett");
    p.character = Character::Locked("unknown".to_string());
    assert!(p.get_agent(&agents).is_none());
}

#[test]
fn team_labels() {
    assert_eq!(Team::Blue.to_string(), "blue");
    assert_eq!(Team::Red.to_string(), "red");
    assert_eq!(Team::Other("x".to_string()).to_string(), "unknown");
}
