use haunt::agents::Agent;
use haunt::entitlements;
use haunt::lockfile;
use haunt::matchdata::{
    normalize, Character, IngameMatchInfo, IngamePlayer, PlayerIdentity, RawMatch, Team,
};
use haunt::mmr::SeasonEntry;
use haunt::names::NameEntry;
use haunt::pipeline::{
    aggregate, build_login_info, find_match_id, needs_fallback, require_match,
    resolve_match_source, AggregationFailure, LoginFail, MatchLookup, SessionState,
};
use haunt::presence;
use haunt::seasons::{CompetitiveTier, Season};
use haunt::sessions;

fn lock_config() -> lockfile::Config {
    lockfile::Config::from_str("Riot Client:1:2:pw:https").unwrap()
}

fn ent_config() -> entitlements::Config {
    entitlements::Config { token: "tok".to_string(), jwt: "jwt".to_string() }
}

fn session_config() -> sessions::Config {
    sessions::Config {
        puuid: "me".to_string(),
        region: sessions::Region::Eu,
        shard: sessions::Shard::Eu,
        version: "v1".to_string(),
    }
}

#[test]
fn entitlements_failure_keeps_lockfile_for_retry() {
    let mut state = SessionState::new();
    assert!(state.apply_lockfile(Some(lock_config())).is_ok());
    let r = state.apply_entitlements(None);
    assert_eq!(r.unwrap_err(), LoginFail::Entitlements);
    assert!(state.lockfile.is_some());
    assert!(state.entitlements.is_none());
    // retrying the later stage alone now succeeds
    assert!(state.apply_entitlements(Some(ent_config())).is_ok());
}

#[test]
fn lockfile_failure_reports_first_stage() {
    let mut state = SessionState::new();
    let r = state.apply_lockfile(None);
    assert_eq!(r.unwrap_err(), LoginFail::Lockfile);
    assert!(state.lockfile.is_none());
}

#[test]
fn session_failure_reports_third_stage() {
    let mut state = SessionState::new();
    state.apply_lockfile(Some(lock_config())).unwrap();
    state.apply_entitlements(Some(ent_config())).unwrap();
    let r = state.apply_session(None);
    assert_eq!(r.unwrap_err(), LoginFail::Session);
    assert!(state.lockfile.is_some());
    assert!(state.entitlements.is_some());
}

#[test]
fn configs_need_all_three_stages() {
    let mut state = SessionState::new();
    assert!(state.configs().is_none());
    state.apply_lockfile(Some(lock_config())).unwrap();
    assert!(state.configs().is_none());
    state.apply_entitlements(Some(ent_config())).unwrap();
    state.apply_session(Some(session_config())).unwrap();
    let (l, e, s) = state.configs().unwrap();
    assert_eq!(l.password, "pw");
    assert_eq!(e.token, "tok");
    assert_eq!(s.puuid, "me");
}

#[test]
fn login_fail_codes_and_messages() {
    assert_eq!(LoginFail::Lockfile.code(), 0);
    assert_eq!(LoginFail::Entitlements.code(), 1);
    assert_eq!(LoginFail::Session.code(), 2);
    assert_eq!(LoginFail::Session.message(), "Unable to load session.");
}

#[test]
fn login_info_renders_rank_in_decimal() {
    let user = presence::Player {
        puuid: "me".to_string(),
        game_name: "Me".to_string(),
        game_tag: "EU1".to_string(),
        private: presence::Private {
            is_valid: true,
            match_map: String::new(),
            party_id: String::new(),
            player_card_id: String::new(),
            player_title_id: String::new(),
            preferred_level_border_id: String::new(),
            account_level: 77,
            competitive_tier: 20,
            queue_id: String::new(),
        },
    };
    let info = build_login_info(&user);
    assert_eq!(info.username, "Me");
    assert_eq!(info.tag, "EU1");
    assert_eq!(info.uuid, "me");
    assert_eq!(info.account_level, 77);
    assert_eq!(info.rank, "20");
}

#[test]
fn ingame_lookup_wins_outright() {
    let r = find_match_id(
        &MatchLookup::Found("live-1".to_string()),
        &MatchLookup::Found("pre-1".to_string()),
    );
    assert_eq!(r, Some("live-1".to_string()));
    assert!(!needs_fallback(&MatchLookup::Found("live-1".to_string())));
}

#[test]
fn pregame_id_after_failed_ingame_lookup() {
    // the live endpoint answered with an error, the pre-game one has a match
    let r = find_match_id(&MatchLookup::Failure, &MatchLookup::Found("pre-1".to_string()));
    assert_eq!(r, Some("pre-1".to_string()));
    assert!(needs_fallback(&MatchLookup::Failure));
    assert!(needs_fallback(&MatchLookup::NoMatch));
}

#[test]
fn no_source_has_a_match() {
    assert_eq!(find_match_id(&MatchLookup::NoMatch, &MatchLookup::Failure), None);
    let r = require_match(None);
    assert_eq!(r.unwrap_err(), AggregationFailure::MatchNotFound);
    assert_eq!(require_match(Some("m".to_string())).unwrap(), "m");
}

#[test]
fn match_source_prefers_live_data() {
    let r = resolve_match_source(None, None);
    assert_eq!(r.unwrap_err(), AggregationFailure::MatchDataFailure);
}

fn identity(level: u32, incognito: bool, hide_level: bool) -> PlayerIdentity {
    PlayerIdentity {
        card_id: "card".to_string(),
        title_id: "title".to_string(),
        account_level: level,
        border_id: "border".to_string(),
        incognito,
        hide_account_level: hide_level,
    }
}

fn raw_fixture() -> RawMatch {
    RawMatch::Ingame(IngameMatchInfo {
        map_id: "/x/Ascent".to_string(),
        mode_id: "bomb".to_string(),
        players: vec![
            IngamePlayer {
                puuid: "p1".to_string(),
                team: Team::Blue,
                character_id: "jett".to_string(),
                player_identity: identity(10, false, false),
                is_coach: false,
            },
            IngamePlayer {
                puuid: "p2".to_string(),
                team: Team::Blue,
                character_id: "sova".to_string(),
                player_identity: identity(20, false, true),
                is_coach: false,
            },
            IngamePlayer {
                puuid: "p3".to_string(),
                team: Team::Red,
                character_id: "jett".to_string(),
                player_identity: identity(30, true, false),
                is_coach: false,
            },
        ],
    })
}

fn presences_fixture() -> Vec<presence::Player> {
    vec![presence::Player {
        puuid: "p1".to_string(),
        game_name: "One".to_string(),
        game_tag: "T1".to_string(),
        private: presence::Private {
            is_valid: true,
            match_map: String::new(),
            party_id: "party-9".to_string(),
            player_card_id: String::new(),
            player_title_id: String::new(),
            preferred_level_border_id: String::new(),
            account_level: 10,
            competitive_tier: 5,
            queue_id: String::new(),
        },
    }]
}

fn names_fixture() -> Vec<NameEntry> {
    vec![
        NameEntry {
            subject: "p1".to_string(),
            game_name: "One".to_string(),
            tag_line: "T1".to_string(),
        },
        NameEntry {
            subject: "p2".to_string(),
            game_name: "Two".to_string(),
            tag_line: "T2".to_string(),
        },
        NameEntry {
            subject: "p3".to_string(),
            game_name: "Three".to_string(),
            tag_line: "T3".to_string(),
        },
    ]
}

fn acts_fixture() -> Vec<Season> {
    vec![Season {
        season_uuid: "act-1".to_string(),
        competitive_tiers_uuid: "e1".to_string(),
        asset_path: "/x/Act1".to_string(),
        start_time: 100,
    }]
}

fn agents_fixture() -> Vec<Agent> {
    vec![
        Agent {
            uuid: "jett".to_string(),
            display_name: "Jett".to_string(),
            display_icon: "i".to_string(),
        },
        Agent {
            uuid: "sova".to_string(),
            display_name: "Sova".to_string(),
            display_icon: "i".to_string(),
        },
    ]
}

fn tiers_fixture() -> Vec<CompetitiveTier> {
    vec![CompetitiveTier {
        episode: "e1".to_string(),
        tier: 15,
        tier_name: "Platinum 1".to_string(),
        icon: None,
    }]
}

fn mmr_fixture() -> Vec<Option<Vec<SeasonEntry>>> {
    vec![
        Some(vec![SeasonEntry { season_id: "act-1".to_string(), competitive_tier: 15 }]),
        None,
        Some(vec![SeasonEntry { season_id: "act-1".to_string(), competitive_tier: 15 }]),
    ]
}

#[test]
fn aggregation_merges_all_sources() {
    let r = aggregate(
        raw_fixture(),
        &presences_fixture(),
        Some(names_fixture()),
        &mmr_fixture(),
        &acts_fixture(),
        &agents_fixture(),
        &tiers_fixture(),
    )
    .unwrap();
    assert!(r.ingame);
    assert_eq!(r.map, "/x/Ascent");
    assert_eq!(r.players.len(), 3);

    // p1: named, in a party, one resolved rank row
    assert_eq!(r.players[0].uuid, "p1");
    assert_eq!(r.players[0].name, "One #T1");
    assert_eq!(r.players[0].party_id, "party-9");
    assert_eq!(r.players[0].rank_history.len(), 1);
    assert_eq!(r.players[0].rank_history[0].tier_name, "Platinum 1");
    assert_eq!(r.players[0].character.as_ref().unwrap().display_name, "Jett");
    assert_eq!(r.players[0].account_level, Some(10));

    // p2: failed rank fetch degrades to an empty history; hidden level
    assert_eq!(r.players[1].name, "Two #T2");
    assert_eq!(r.players[1].rank_history.len(), 0);
    assert_eq!(r.players[1].account_level, None);
    assert_eq!(r.players[1].party_id, "");

    // p3: incognito resolves to the locked character's catalog name
    assert_eq!(r.players[2].name, "Jett");
    assert_eq!(r.players[2].rank_history.len(), 1);
}

#[test]
fn aggregation_is_idempotent_on_identical_fixtures() {
    let run = || {
        aggregate(
            raw_fixture(),
            &presences_fixture(),
            Some(names_fixture()),
            &mmr_fixture(),
            &acts_fixture(),
            &agents_fixture(),
            &tiers_fixture(),
        )
        .unwrap()
    };
    assert_eq!(run(), run());
}

#[test]
fn total_name_failure_aborts_aggregation() {
    let r = aggregate(
        raw_fixture(),
        &presences_fixture(),
        None,
        &mmr_fixture(),
        &acts_fixture(),
        &agents_fixture(),
        &tiers_fixture(),
    );
    assert_eq!(r.unwrap_err(), AggregationFailure::NameResolutionFailure);
}

#[test]
fn refresh_without_cache_demands_full_load() {
    let mut state = SessionState::new();
    let fresh = normalize(raw_fixture());
    let r = state.quick_refresh(fresh, &agents_fixture());
    assert_eq!(r.unwrap_err(), AggregationFailure::NoCachedMatch);
}

#[test]
fn quick_refresh_touches_only_character_and_party() {
    let mut state = SessionState::new();
    let full = aggregate(
        raw_fixture(),
        &presences_fixture(),
        Some(names_fixture()),
        &mmr_fixture(),
        &acts_fixture(),
        &agents_fixture(),
        &tiers_fixture(),
    )
    .unwrap();
    state.commit_match_cache(full.clone());

    // fresh data: p1 switched to sova and a new party; p2 and p3 left the
    // fresh payload; a new p4 appeared
    let fresh_raw = RawMatch::Ingame(IngameMatchInfo {
        map_id: "/x/Ascent".to_string(),
        mode_id: "bomb".to_string(),
        players: vec![
            IngamePlayer {
                puuid: "p1".to_string(),
                team: Team::Blue,
                character_id: "sova".to_string(),
                player_identity: identity(10, false, false),
                is_coach: false,
            },
            IngamePlayer {
                puuid: "p4".to_string(),
                team: Team::Red,
                character_id: "jett".to_string(),
                player_identity: identity(44, false, false),
                is_coach: false,
            },
        ],
    });
    let mut fresh = normalize(fresh_raw);
    fresh.players[0].party_id = "party-new".to_string();

    let updated = state.quick_refresh(fresh, &agents_fixture()).unwrap();

    // same participant set: the new p4 is ignored
    assert_eq!(updated.players.len(), 3);

    // p1: character and party follow the fresh data, everything else is
    // byte-identical
    assert_eq!(updated.players[0].character.as_ref().unwrap().display_name, "Sova");
    assert_eq!(updated.players[0].party_id, "party-new");
    assert_eq!(updated.players[0].name, full.players[0].name);
    assert_eq!(updated.players[0].rank_history, full.players[0].rank_history);
    assert_eq!(updated.players[0].account_level, full.players[0].account_level);
    assert_eq!(updated.players[0].team, full.players[0].team);

    // p2 and p3 are absent from the fresh data and stay exactly as cached
    assert_eq!(updated.players[1], full.players[1]);
    assert_eq!(updated.players[2], full.players[2]);
}

#[test]
fn session_config_from_launch_arguments() {
    let entries = vec![
        sessions::SessionEntry {
            product_id: "riot_client".to_string(),
            arguments: vec![],
        },
        sessions::SessionEntry {
            product_id: "valorant".to_string(),
            arguments: vec![
                "-ares-deployment=eu".to_string(),
                "-subject=me-uuid".to_string(),
            ],
        },
    ];
    let c = sessions::load_config(&entries, Some("v7".to_string())).unwrap();
    assert_eq!(c.puuid, "me-uuid");
    assert_eq!(c.region, sessions::Region::Eu);
    assert_eq!(c.shard, sessions::Shard::Eu);
    assert_eq!(c.version, "v7");
}

#[test]
fn session_version_lookup_failure_leaves_version_empty() {
    let entries = vec![sessions::SessionEntry {
        product_id: "valorant".to_string(),
        arguments: vec!["-ares-deployment=na".to_string(), "-subject=me".to_string()],
    }];
    let c = sessions::load_config(&entries, None).unwrap();
    assert_eq!(c.version, "");
    assert_eq!(c.region, sessions::Region::Na);
}

#[test]
fn session_config_missing_when_no_valorant_entry() {
    let entries = vec![sessions::SessionEntry {
        product_id: "riot_client".to_string(),
        arguments: vec!["-subject=me".to_string()],
    }];
    assert!(sessions::load_config(&entries, None).is_none());
}

#[test]
fn get_arg_reads_values_up_to_separators() {
    let args = vec![
        "--other".to_string(),
        "-ares-deployment=eu&alt".to_string(),
        "-subject=me".to_string(),
    ];
    assert_eq!(sessions::get_arg(&args, "-ares-deployment="), Some("eu".to_string()));
    assert_eq!(sessions::get_arg(&args, "-subject="), Some("me".to_string()));
    assert_eq!(sessions::get_arg(&args, "-missing="), None);
    assert_eq!(sessions::get_arg(&args, "--other"), None);
}

#[test]
fn history_rows_follow_act_window_order() {
    let acts = vec![
        Season {
            season_uuid: "a2".to_string(),
            competitive_tiers_uuid: "e2".to_string(),
            asset_path: "/x/Act2".to_string(),
            start_time: 200,
        },
        Season {
            season_uuid: "a1".to_string(),
            competitive_tiers_uuid: "e1".to_string(),
            asset_path: "/x/Act1".to_string(),
            start_time: 100,
        },
    ];
    let entries = vec![
        SeasonEntry { season_id: "a1".to_string(), competitive_tier: 9 },
        SeasonEntry { season_id: "other".to_string(), competitive_tier: 3 },
    ];
    let h = haunt::mmr::filter_history(&entries, &acts);
    // only the act with a recorded entry appears, tagged with its episode
    assert_eq!(h.len(), 1);
    assert_eq!(h[0].season_id, "a1");
    assert_eq!(h[0].episode_id, "e1");
    assert_eq!(h[0].competitive_tier, 9);
}
