use haunt::seasons::{
    flatten_tiers, get_prev_3_seasons, recent_acts_window, sorted_past_acts, CompetitiveTier,
    EpisodeTiers, Season, TierEntry,
};

fn season(uuid: &str, episode: &str, path: &str, ts: i64) -> Season {
    Season {
        season_uuid: uuid.to_string(),
        competitive_tiers_uuid: episode.to_string(),
        asset_path: path.to_string(),
        start_time: ts,
    }
}

#[test]
fn keeps_only_past_acts_sorted_descending() {
    let seasons = vec![
        season("a1", "e1", "/Seasons/Act1", 100),
        season("ep", "e1", "/Seasons/Episode1", 150),
        season("a3", "e2", "/Seasons/Act3", 300),
        season("a2", "e1", "/Seasons/Act2", 200),
        season("future", "e3", "/Seasons/Act9", 5000),
        season("a4", "e2", "/Seasons/Act4", 400),
    ];
    let r = sorted_past_acts(&seasons, 1000);
    let ids: Vec<&str> = r.iter().map(|s| s.season_uuid.as_str()).collect();
    assert_eq!(ids, vec!["a4", "a3", "a2", "a1"]);
}

#[test]
fn top_three_past_seasons_of_five() {
    let seasons = vec![
        season("s1", "e", "/x/Act1", 10),
        season("s2", "e", "/x/Act2", 20),
        season("s3", "e", "/x/Act3", 30),
        season("s4", "e", "/x/Act4", 40),
        season("s5", "e", "/x/Act5", 50),
    ];
    let r = sorted_past_acts(&seasons, 45);
    let top: Vec<&str> = r.iter().take(3).map(|s| s.season_uuid.as_str()).collect();
    assert_eq!(top, vec!["s4", "s3", "s2"]);
}

#[test]
fn window_is_current_act_plus_three() {
    let sorted = vec![
        season("c", "e", "/x/Act6", 600),
        season("p1", "e", "/x/Act5", 500),
        season("p2", "e", "/x/Act4", 400),
        season("p3", "e", "/x/Act3", 300),
        season("p4", "e", "/x/Act2", 200),
    ];
    let w = recent_acts_window(&sorted);
    assert_eq!(w.len(), 4);
    assert_eq!(w[0].season_uuid, "c");
    assert_eq!(w[3].season_uuid, "p3");
}

#[test]
fn window_of_short_list_is_whole_list() {
    let sorted = vec![season("c", "e", "/x/Act2", 200), season("p", "e", "/x/Act1", 100)];
    let w = recent_acts_window(&sorted);
    assert_eq!(w.len(), 2);
}

#[test]
fn clock_backed_selection_separates_past_from_future() {
    let seasons = vec![
        season("past", "e", "/x/Act1", 1000),
        season("far_future", "e", "/x/Act2", i64::MAX),
    ];
    let r = get_prev_3_seasons(&seasons);
    assert_eq!(r.len(), 1);
    assert_eq!(r[0].season_uuid, "past");
}

fn tier(episode: &str, idx: u32, name: &str) -> CompetitiveTier {
    CompetitiveTier {
        episode: episode.to_string(),
        tier: idx,
        tier_name: name.to_string(),
        icon: None,
    }
}

#[test]
fn resolves_known_act_tier() {
    let tiers = vec![tier("e1", 20, "Diamond 1"), tier("e2", 20, "Ascendant 1")];
    let r = CompetitiveTier::from_act_tier(&tiers, "e2", 20);
    assert_eq!(r.tier_name, "Ascendant 1");
    assert_eq!(r.episode, "e2");
}

#[test]
fn unknown_act_tier_is_unranked() {
    let tiers = vec![tier("e1", 20, "Diamond 1")];
    let r = CompetitiveTier::from_act_tier(&tiers, "e9", 3);
    assert_eq!(r.tier, 0);
    assert_eq!(r.tier_name, "UNRANKED");
    assert_eq!(r.episode, "");
    assert!(r.icon.is_none());
}

#[test]
fn flattens_tier_catalog_in_order() {
    let data = vec![
        EpisodeTiers {
            uuid: "e1".to_string(),
            tiers: vec![
                TierEntry { tier: 0, tier_name: "Unranked".to_string(), small_icon: None },
                TierEntry {
                    tier: 3,
                    tier_name: "Iron 1".to_string(),
                    small_icon: Some("icon3".to_string()),
                },
            ],
        },
        EpisodeTiers {
            uuid: "e2".to_string(),
            tiers: vec![TierEntry {
                tier: 24,
                tier_name: "Immortal 1".to_string(),
                small_icon: None,
            }],
        },
    ];
    let flat = flatten_tiers(&data);
    assert_eq!(flat.len(), 3);
    assert_eq!(flat[0].episode, "e1");
    assert_eq!(flat[0].tier, 0);
    assert_eq!(flat[1].episode, "e1");
    assert_eq!(flat[1].tier_name, "Iron 1");
    assert_eq!(flat[1].icon, Some("icon3".to_string()));
    assert_eq!(flat[2].episode, "e2");
    assert_eq!(flat[2].tier, 24);
}
