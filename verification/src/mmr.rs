//! Per-player competitive history, filtered to a bounded act window.
//!
//! The remote MMR endpoint reports one skill entry per season; only the
//! seasons inside the provided act window make it into a player's rank
//! history, and an act without a recorded entry is simply absent from the
//! result, never zero-filled.

use crate::seasons::{Season, SeasonView};
use crate::text;
use vstd::prelude::*;
use vstd::string::*;

verus! {

/// One resolved history row: the act's episode, the season and the tier
/// index recorded for it.
#[derive(Debug, PartialEq)]
pub struct SeasonalInfo {
    pub episode_id: String,
    pub season_id: String,
    pub competitive_tier: u32,
}

/// Mathematical view of a history row.
pub ghost struct SeasonalInfoView {
    pub episode_id: Seq<char>,
    pub season_id: Seq<char>,
    pub competitive_tier: u32,
}

impl View for SeasonalInfo {
    type V = SeasonalInfoView;

    open spec fn view(&self) -> SeasonalInfoView {
        SeasonalInfoView {
            episode_id: self.episode_id@,
            season_id: self.season_id@,
            competitive_tier: self.competitive_tier,
        }
    }
}

impl DeepView for SeasonalInfo {
    type V = SeasonalInfoView;

    open spec fn deep_view(&self) -> SeasonalInfoView {
        self.view()
    }
}

impl Clone for SeasonalInfo {
    fn clone(&self) -> (r: Self)
        ensures
            r == *self,
    {
        SeasonalInfo {
            episode_id: self.episode_id.clone(),
            season_id: self.season_id.clone(),
            competitive_tier: self.competitive_tier,
        }
    }
}

/// A player's resolved history, most recent act first.
pub type History = Vec<SeasonalInfo>;

/// One raw skill entry of the MMR response's competitive queue.
#[derive(Debug, PartialEq)]
pub struct SeasonEntry {
    pub season_id: String,
    pub competitive_tier: u32,
}

/// Mathematical view of a raw skill entry.
pub ghost struct SeasonEntryView {
    pub season_id: Seq<char>,
    pub competitive_tier: u32,
}

impl View for SeasonEntry {
    type V = SeasonEntryView;

    open spec fn view(&self) -> SeasonEntryView {
        SeasonEntryView { season_id: self.season_id@, competitive_tier: self.competitive_tier }
    }
}

impl DeepView for SeasonEntry {
    type V = SeasonEntryView;

    open spec fn deep_view(&self) -> SeasonEntryView {
        self.view()
    }
}

impl Clone for SeasonEntry {
    fn clone(&self) -> (r: Self)
        ensures
            r == *self,
    {
        SeasonEntry {
            season_id: self.season_id.clone(),
            competitive_tier: self.competitive_tier,
        }
    }
}

/// The first raw entry recorded for a season, if any.
pub open spec fn spec_find_entry(
    entries: Seq<SeasonEntryView>,
    season_id: Seq<char>,
) -> Option<SeasonEntryView>
    decreases entries.len(),
{
    if entries.len() == 0 {
        None
    } else if entries[0].season_id == season_id {
        Some(entries[0])
    } else {
        spec_find_entry(entries.drop_first(), season_id)
    }
}

/// The history a raw entry list yields over an act window, in window
/// order: one row per act that has a recorded entry.
pub open spec fn spec_history(
    entries: Seq<SeasonEntryView>,
    acts: Seq<SeasonView>,
) -> Seq<SeasonalInfoView>
    decreases acts.len(),
{
    if acts.len() == 0 {
        Seq::empty()
    } else {
        let prefix = spec_history(entries, acts.drop_last());
        let a = acts.last();
        match spec_find_entry(entries, a.season_uuid) {
            Some(e) => prefix.push(
                SeasonalInfoView {
                    episode_id: a.competitive_tiers_uuid,
                    season_id: e.season_id,
                    competitive_tier: e.competitive_tier,
                },
            ),
            None => prefix,
        }
    }
}

fn find_entry(entries: &Vec<SeasonEntry>, season_id: &str) -> (r: Option<SeasonEntry>)
    ensures
        r.deep_view() == spec_find_entry(entries.deep_view(), season_id@),
{
    let ghost ev = entries.deep_view();
    let mut i: usize = 0;
    proof {
        assert(ev.skip(0) =~= ev);
    }
    while i < entries.len()
        invariant
            ev == entries.deep_view(),
            0 <= i <= ev.len(),
            ev.len() == entries@.len(),
            spec_find_entry(ev, season_id@) == spec_find_entry(ev.skip(i as int), season_id@),
        decreases ev.len() - i,
    {
        proof {
            assert(ev.skip(i as int)[0] == ev[i as int]);
        }
        let e = &entries[i];
        if text::str_eq(e.season_id.as_str(), season_id) {
            let found = e.clone();
            proof {
                assert(found@ == ev[i as int]);
            }
            return Some(found);
        }
        proof {
            assert(ev.skip(i as int).drop_first() =~= ev.skip(i + 1));
        }
        i += 1;
    }
    proof {
        assert(ev.skip(i as int).len() == 0);
    }
    None
}

/// Project the raw competitive entries onto the act window: acts keep
/// their window order, acts without a recorded entry are skipped.
pub fn filter_history(entries: &Vec<SeasonEntry>, acts: &Vec<Season>) -> (r: History)
    ensures
        r.deep_view() == spec_history(entries.deep_view(), acts.deep_view()),
{
    let ghost ev = entries.deep_view();
    let ghost av = acts.deep_view();
    let mut r: History = Vec::new();
    let mut i: usize = 0;
    proof {
        assert(r.deep_view() =~= spec_history(ev, av.subrange(0, 0)));
    }
    while i < acts.len()
        invariant
            ev == entries.deep_view(),
            av == acts.deep_view(),
            0 <= i <= av.len(),
            av.len() == acts@.len(),
            r.deep_view() == spec_history(ev, av.subrange(0, i as int)),
        decreases av.len() - i,
    {
        let a = &acts[i];
        proof {
            assert(av.subrange(0, i + 1).drop_last() =~= av.subrange(0, i as int));
            assert(av.subrange(0, i + 1).last() == av[i as int]);
            assert(a@ == av[i as int]);
        }
        let ghost before = r.deep_view();
        match find_entry(entries, a.season_uuid.as_str()) {
            Some(e) => {
                let ghost eview = e@;
                proof {
                    assert(spec_find_entry(ev, av[i as int].season_uuid) == Some(eview));
                }
                let row = SeasonalInfo {
                    episode_id: a.competitive_tiers_uuid.clone(),
                    season_id: e.season_id,
                    competitive_tier: e.competitive_tier,
                };
                r.push(row);
                proof {
                    assert(r.deep_view() =~= before.push(
                        SeasonalInfoView {
                            episode_id: av[i as int].competitive_tiers_uuid,
                            season_id: eview.season_id,
                            competitive_tier: eview.competitive_tier,
                        },
                    ));
                }
            },
            None => {
            },
        }
        i += 1;
    }
    proof {
        assert(av.subrange(0, av.len() as int) =~= av);
    }
    r
}

} // verus!
