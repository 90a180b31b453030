//! The season and competitive-tier catalogs.
//!
//! Seasons arrive mixed (episodes and acts, past and future); the pipeline
//! keeps only the acts that have already started, ordered by start time
//! descending, and reads rank names out of the flattened tier catalog.

use crate::text;
use vstd::multiset::Multiset;
use vstd::prelude::*;
use vstd::seq_lib::*;
use vstd::string::*;

verus! {

/// One competitive season as the reference catalog lists it.  The start
/// time is kept as a Unix timestamp in milliseconds.
#[derive(Debug, PartialEq)]
pub struct Season {
    pub season_uuid: String,
    pub competitive_tiers_uuid: String,
    pub asset_path: String,
    pub start_time: i64,
}

/// Mathematical view of a season.
pub ghost struct SeasonView {
    pub season_uuid: Seq<char>,
    pub competitive_tiers_uuid: Seq<char>,
    pub asset_path: Seq<char>,
    pub start_time: i64,
}

impl View for Season {
    type V = SeasonView;

    open spec fn view(&self) -> SeasonView {
        SeasonView {
            season_uuid: self.season_uuid@,
            competitive_tiers_uuid: self.competitive_tiers_uuid@,
            asset_path: self.asset_path@,
            start_time: self.start_time,
        }
    }
}

impl DeepView for Season {
    type V = SeasonView;

    open spec fn deep_view(&self) -> SeasonView {
        self.view()
    }
}

impl Clone for Season {
    fn clone(&self) -> (r: Self)
        ensures
            r == *self,
    {
        Season {
            season_uuid: self.season_uuid.clone(),
            competitive_tiers_uuid: self.competitive_tiers_uuid.clone(),
            asset_path: self.asset_path.clone(),
            start_time: self.start_time,
        }
    }
}

/// A level border, as the season catalog carries it.
#[derive(Debug, PartialEq)]
pub struct Border {
    pub uuid: String,
    pub level: i32,
    pub wins_required: i32,
    pub display_icon: String,
    pub small_icon: Option<String>,
}

/// A season counts for rank history when its asset path marks it as an
/// act and it has already started.
pub open spec fn spec_is_past_act(s: Season, now: i64) -> bool {
    text::spec_contains(s.asset_path@, "Act"@) && s.start_time < now
}

/// Start times weakly decreasing: most recent first.
pub open spec fn spec_sorted_desc(s: Seq<Season>) -> bool {
    forall|i: int, j: int| 0 <= i < j < s.len() ==> s[i].start_time >= s[j].start_time
}

/// Keep, in their original order, the seasons that are past acts.
fn filter_past_acts(seasons: &Vec<Season>, now: i64) -> (r: Vec<Season>)
    ensures
        r@ == seasons@.filter(|s: Season| spec_is_past_act(s, now)),
{
    let ghost pred = |s: Season| spec_is_past_act(s, now);
    let mut r: Vec<Season> = Vec::new();
    let mut i: usize = 0;
    proof {
        reveal(Seq::filter);
        assert(seasons@.subrange(0, 0).filter(pred) =~= Seq::<Season>::empty());
    }
    while i < seasons.len()
        invariant
            0 <= i <= seasons@.len(),
            r@ == seasons@.subrange(0, i as int).filter(
                |s: Season| spec_is_past_act(s, now),
            ),
        decreases seasons@.len() - i,
    {
        let s = &seasons[i];
        proof {
            assert(seasons@.subrange(0, i + 1).drop_last() =~= seasons@.subrange(0, i as int));
            crate::seqs::lemma_filter_push(
                seasons@.subrange(0, i as int),
                seasons@[i as int],
                |s: Season| spec_is_past_act(s, now),
            );
            assert(seasons@.subrange(0, i + 1) =~= seasons@.subrange(0, i as int).push(
                seasons@[i as int],
            ));
        }
        if text::contains_str(s.asset_path.as_str(), "Act") && s.start_time < now {
            r.push(s.clone());
        }
        i += 1;
    }
    proof {
        assert(seasons@.subrange(0, seasons@.len() as int) =~= seasons@);
    }
    r
}

/// Sort by start time descending with straight insertion.
fn sort_seasons_desc(v: &mut Vec<Season>)
    ensures
        final(v)@.to_multiset() == old(v)@.to_multiset(),
        spec_sorted_desc(final(v)@),
{
    if v.len() <= 1 {
        return;
    }
    let mut i: usize = 1;
    while i < v.len()
        invariant
            1 <= i <= v@.len(),
            v@.len() == old(v)@.len(),
            v@.to_multiset() == old(v)@.to_multiset(),
            spec_sorted_desc(v@.subrange(0, i as int)),
        decreases v@.len() - i,
    {
        let mut k: usize = 0;
        while k < i && v[k].start_time >= v[i].start_time
            invariant
                0 <= k <= i < v@.len(),
                forall|a: int| 0 <= a < k ==> v@[a].start_time >= v@[i as int].start_time,
            decreases i - k,
        {
            k += 1;
        }
        let ghost prev = v@;
        let x = v.remove(i);
        v.insert(k, x);
        proof {
            let n = prev.len() as int;
            let mid = prev.remove(i as int);
            prev.remove_ensures(i as int);
            mid.insert_ensures(k as int, x);
            assert(v@ == mid.insert(k as int, x));
            // the multiset is unchanged: one removal, one insertion of the
            // same element
            vstd::seq_lib::to_multiset_remove(prev, i as int);
            vstd::seq_lib::to_multiset_insert(mid, k as int, x);
            assert(prev[i as int] == x);
            assert(prev.contains(x));
            vstd::seq_lib::to_multiset_contains(prev, x);
            assert(prev.to_multiset().count(x) > 0);
            assert(v@.to_multiset() =~= prev.to_multiset()) by {
                broadcast use vstd::multiset::group_multiset_axioms;
            }
            // the widened prefix is sorted: elements before the insertion
            // point are at least x, elements after it were below x or are
            // carried over in their old order
            let pre = prev.subrange(0, i as int);
            assert(spec_sorted_desc(pre));
            assert(forall|t: int| 0 <= t < i ==> #[trigger] pre[t] == prev[t]);
            assert(forall|t: int| 0 <= t < k ==> #[trigger] v@[t] == prev[t]);
            assert(v@[k as int] == x);
            assert(forall|t: int| k < t <= i ==> #[trigger] v@[t] == prev[t - 1]);
            assert forall|a: int, b: int| 0 <= a < b < i + 1 implies v@[a].start_time
                >= v@[b].start_time by {
                if b < k {
                    assert(pre[a].start_time >= pre[b].start_time);
                } else if b == k {
                    assert(prev[a].start_time >= x.start_time);
                } else if a < k {
                    assert(pre[a].start_time >= pre[b - 1].start_time);
                } else if a == k {
                    assert(k < i);
                    assert(prev[k as int].start_time < x.start_time);
                    if b - 1 > k {
                        assert(pre[k as int].start_time >= pre[b - 1].start_time);
                    }
                } else {
                    assert(pre[a - 1].start_time >= pre[b - 1].start_time);
                }
            }
        }
        i += 1;
    }
    proof {
        assert(v@.subrange(0, v@.len() as int) =~= v@);
    }
}

/// The multiset of seasons that count as past acts at `now`.
pub open spec fn spec_past_acts_multiset(seasons: Seq<Season>, now: i64) -> Multiset<Season> {
    seasons.filter(|s: Season| spec_is_past_act(s, now)).to_multiset()
}

/// The past acts relative to `now`, most recent first.
pub fn sorted_past_acts(seasons: &Vec<Season>, now: i64) -> (r: Vec<Season>)
    ensures
        r@.to_multiset() == spec_past_acts_multiset(seasons@, now),
        spec_sorted_desc(r@),
{
    let mut r = filter_past_acts(seasons, now);
    sort_seasons_desc(&mut r);
    r
}

/// Relies on chrono's `Utc::now`: the current wall-clock instant as Unix
/// milliseconds.  Nothing is promised of a clock reading.
#[verifier::external_body]
fn current_time_millis() -> i64 {
    chrono::Utc::now().timestamp_millis()
}

/// The catalog's past acts at the moment of the call, most recent first.
/// The instant used as "now" is whatever the clock reported.
pub fn get_prev_3_seasons(seasons: &Vec<Season>) -> (r: Vec<Season>)
    ensures
        spec_sorted_desc(r@),
        exists|now: i64| r@.to_multiset() == #[trigger] spec_past_acts_multiset(seasons@, now),
{
    let now = current_time_millis();
    let r = sorted_past_acts(seasons, now);
    proof {
        assert(r@.to_multiset() == spec_past_acts_multiset(seasons@, now));
    }
    r
}

/// The aggregation window over a most-recent-first act list: the current
/// act plus the three before it, or everything when fewer exist.
pub fn recent_acts_window(sorted: &Vec<Season>) -> (r: Vec<Season>)
    ensures
        r@ == if sorted@.len() <= 4 {
            sorted@
        } else {
            sorted@.subrange(0, 4)
        },
{
    let n = if sorted.len() <= 4 {
        sorted.len()
    } else {
        4
    };
    let mut r: Vec<Season> = Vec::new();
    let mut i: usize = 0;
    while i < n
        invariant
            0 <= i <= n <= sorted@.len(),
            r@ == sorted@.subrange(0, i as int),
        decreases n - i,
    {
        r.push(sorted[i].clone());
        proof {
            assert(sorted@.subrange(0, i + 1) =~= sorted@.subrange(0, i as int).push(
                sorted@[i as int],
            ));
        }
        i += 1;
    }
    proof {
        if sorted@.len() <= 4 {
            assert(sorted@.subrange(0, sorted@.len() as int) =~= sorted@);
        }
    }
    r
}

/// One resolved rank: an episode, a tier index and its display name.
#[derive(Debug, PartialEq)]
pub struct CompetitiveTier {
    pub episode: String,
    pub tier: u32,
    pub tier_name: String,
    pub icon: Option<String>,
}

/// Mathematical view of a resolved rank.
pub ghost struct CompetitiveTierView {
    pub episode: Seq<char>,
    pub tier: u32,
    pub tier_name: Seq<char>,
    pub icon: Option<Seq<char>>,
}

impl View for CompetitiveTier {
    type V = CompetitiveTierView;

    open spec fn view(&self) -> CompetitiveTierView {
        CompetitiveTierView {
            episode: self.episode@,
            tier: self.tier,
            tier_name: self.tier_name@,
            icon: match self.icon {
                Some(s) => Some(s@),
                None => None,
            },
        }
    }
}

impl DeepView for CompetitiveTier {
    type V = CompetitiveTierView;

    open spec fn deep_view(&self) -> CompetitiveTierView {
        self.view()
    }
}

impl Clone for CompetitiveTier {
    fn clone(&self) -> (r: Self)
        ensures
            r == *self,
    {
        CompetitiveTier {
            episode: self.episode.clone(),
            tier: self.tier,
            tier_name: self.tier_name.clone(),
            icon: match &self.icon {
                Some(s) => Some(s.clone()),
                None => None,
            },
        }
    }
}

/// The rank shown when a player has no recorded tier: tier index zero,
/// named UNRANKED, with no episode and no icon.
pub open spec fn spec_unranked() -> CompetitiveTierView {
    CompetitiveTierView { episode: Seq::empty(), tier: 0, tier_name: "UNRANKED"@, icon: None }
}

impl Default for CompetitiveTier {
    fn default() -> (r: Self)
        ensures
            r@ == spec_unranked(),
    {
        CompetitiveTier {
            episode: String::new(),
            tier: 0,
            tier_name: String::from_str("UNRANKED"),
            icon: None,
        }
    }
}

/// The first catalog entry for the given episode and tier index.
pub open spec fn spec_find_tier(
    tiers: Seq<CompetitiveTierView>,
    episode: Seq<char>,
    tier: u32,
) -> Option<CompetitiveTierView>
    decreases tiers.len(),
{
    if tiers.len() == 0 {
        None
    } else if tiers[0].episode == episode && tiers[0].tier == tier {
        Some(tiers[0])
    } else {
        spec_find_tier(tiers.drop_first(), episode, tier)
    }
}

/// The display-ready rank for an episode and tier index: the catalog
/// entry when one exists, the UNRANKED rank otherwise.
pub open spec fn spec_resolve_tier(
    tiers: Seq<CompetitiveTierView>,
    episode: Seq<char>,
    tier: u32,
) -> CompetitiveTierView {
    match spec_find_tier(tiers, episode, tier) {
        Some(t) => t,
        None => spec_unranked(),
    }
}

impl CompetitiveTier {
    /// Resolve an episode and tier index against the catalog; an
    /// unresolved pair yields the UNRANKED entry rather than an error.
    pub fn from_act_tier(tiers: &Vec<CompetitiveTier>, episode: &str, tier: u32) -> (r: Self)
        ensures
            r@ == spec_resolve_tier(tiers.deep_view(), episode@, tier),
    {
        let ghost tv = tiers.deep_view();
        let mut i: usize = 0;
        proof {
            assert(tv.skip(0) =~= tv);
        }
        while i < tiers.len()
            invariant
                tv == tiers.deep_view(),
                0 <= i <= tv.len(),
                tv.len() == tiers@.len(),
                spec_find_tier(tv, episode@, tier) == spec_find_tier(
                    tv.skip(i as int),
                    episode@,
                    tier,
                ),
            decreases tv.len() - i,
        {
            proof {
                assert(tv.skip(i as int)[0] == tv[i as int]);
            }
            let t = &tiers[i];
            if t.tier == tier && crate::text::str_eq(t.episode.as_str(), episode) {
                let found = t.clone();
                proof {
                    assert(found@ == tv[i as int]);
                }
                return found;
            }
            proof {
                assert(tv.skip(i as int).drop_first() =~= tv.skip(i + 1));
            }
            i += 1;
        }
        proof {
            assert(tv.skip(i as int).len() == 0);
        }
        CompetitiveTier::default()
    }
}

/// One tier row of the raw catalog payload.
#[derive(Debug, PartialEq)]
pub struct TierEntry {
    pub tier: u32,
    pub tier_name: String,
    pub small_icon: Option<String>,
}

/// One episode of the raw catalog payload, with its tier rows.
#[derive(Debug, PartialEq)]
pub struct EpisodeTiers {
    pub uuid: String,
    pub tiers: Vec<TierEntry>,
}

/// The catalog entry an episode row denotes.
pub open spec fn spec_tier_of(episode: String, t: TierEntry) -> CompetitiveTier {
    CompetitiveTier { episode: episode, tier: t.tier, tier_name: t.tier_name, icon: t.small_icon }
}

pub open spec fn spec_episode_tiers(e: EpisodeTiers) -> Seq<CompetitiveTier> {
    e.tiers@.map_values(|t: TierEntry| spec_tier_of(e.uuid, t))
}

/// The flattened tier catalog: every episode's rows, tagged with the
/// episode id, in catalog order.
pub open spec fn spec_flatten_tiers(data: Seq<EpisodeTiers>) -> Seq<CompetitiveTier>
    decreases data.len(),
{
    if data.len() == 0 {
        Seq::empty()
    } else {
        spec_flatten_tiers(data.drop_last()) + spec_episode_tiers(data.last())
    }
}

/// Flatten the raw per-episode catalog into one lookup list.
pub fn flatten_tiers(data: &Vec<EpisodeTiers>) -> (r: Vec<CompetitiveTier>)
    ensures
        r@ == spec_flatten_tiers(data@),
{
    let mut r: Vec<CompetitiveTier> = Vec::new();
    let mut i: usize = 0;
    proof {
        assert(r@ =~= spec_flatten_tiers(data@.subrange(0, 0)));
    }
    while i < data.len()
        invariant
            0 <= i <= data@.len(),
            r@ == spec_flatten_tiers(data@.subrange(0, i as int)),
        decreases data@.len() - i,
    {
        let e = &data[i];
        let m = e.tiers.len();
        let mut j: usize = 0;
        while j < m
            invariant
                0 <= j <= m,
                m == e.tiers@.len(),
                e == &data@[i as int],
                0 <= i < data@.len(),
                r@ == spec_flatten_tiers(data@.subrange(0, i as int)) + spec_episode_tiers(
                    data@[i as int],
                ).subrange(0, j as int),
            decreases m - j,
        {
            let t = &e.tiers[j];
            let entry = CompetitiveTier {
                episode: e.uuid.clone(),
                tier: t.tier,
                tier_name: t.tier_name.clone(),
                icon: match &t.small_icon {
                    Some(s) => Some(s.clone()),
                    None => None,
                },
            };
            proof {
                assert(spec_episode_tiers(data@[i as int])[j as int] == spec_tier_of(
                    e.uuid,
                    e.tiers@[j as int],
                ));
                assert(entry == spec_tier_of(e.uuid, e.tiers@[j as int]));
                assert(spec_episode_tiers(data@[i as int]).subrange(0, j + 1)
                    =~= spec_episode_tiers(data@[i as int]).subrange(0, j as int).push(entry));
            }
            r.push(entry);
            j += 1;
        }
        proof {
            assert(spec_episode_tiers(data@[i as int]).subrange(
                0,
                spec_episode_tiers(data@[i as int]).len() as int,
            ) =~= spec_episode_tiers(data@[i as int]));
            assert(data@.subrange(0, i + 1).drop_last() =~= data@.subrange(0, i as int));
            assert(data@.subrange(0, i + 1).last() == data@[i as int]);
        }
        i += 1;
    }
    proof {
        assert(data@.subrange(0, data@.len() as int) =~= data@);
    }
    r
}

} // verus!

