//! The session bootstrap and match aggregation pipeline.
//!
//! Bootstrap runs as three strictly ordered steps — lockfile,
//! entitlements, session — each committing one field of the shared
//! session state on success and returning its own failure kind on
//! error, without touching earlier fields.  The locator prefers the
//! live source and falls back to pre-game.  Aggregation merges the raw
//! match, presences, names and per-player rank histories into one
//! projection; the quick refresh re-runs only the volatile part against
//! the cached projection.

use crate::agents::{Agent, AgentView};
use crate::entitlements;
use crate::lockfile;
use crate::matchdata::{
    spec_apply_names, spec_apply_party, spec_normalize, spec_with_history, IngameMatchInfo,
    IngameMatchInfoView, MatchData, MatchDataView, PregameMatchInfo, PregameMatchInfoView,
    RawMatch, RawMatchView,
};
use crate::mmr::{SeasonEntry, SeasonEntryView};
use crate::names::{NameEntry, NameEntryView};
use crate::presence;
use crate::projection::{ShortMatchData, ShortMatchDataView};
use crate::seasons::{CompetitiveTier, CompetitiveTierView, Season, SeasonView};
use crate::sessions;
use crate::text;
use vstd::prelude::*;
use vstd::string::*;

verus! {

/// The bootstrap stage that failed.
#[derive(Clone, Copy, Debug, PartialEq, Eq, Structural)]
pub enum LoginFail {
    Lockfile,
    Entitlements,
    Session,
}

impl LoginFail {
    /// The wire code of the failure, in stage order.
    pub fn code(&self) -> (r: u8)
        ensures
            *self is Lockfile ==> r == 0,
            *self is Entitlements ==> r == 1,
            *self is Session ==> r == 2,
    {
        match self {
            LoginFail::Lockfile => 0,
            LoginFail::Entitlements => 1,
            LoginFail::Session => 2,
        }
    }

    /// A human-readable account of the failure.
    pub fn message(&self) -> (r: String)
        ensures
            *self is Lockfile ==> r@ == "Unable to load lockfile config."@,
            *self is Entitlements ==> r@ == "Unable to load entitlements config."@,
            *self is Session ==> r@ == "Unable to load session."@,
    {
        match self {
            LoginFail::Lockfile => String::from_str("Unable to load lockfile config."),
            LoginFail::Entitlements => String::from_str("Unable to load entitlements config."),
            LoginFail::Session => String::from_str("Unable to load session."),
        }
    }
}

/// Why an aggregation or refresh could not produce a projection.
/// `MatchNotFound` is the normal not-in-a-match outcome, not a fault;
/// `NoCachedMatch` tells the caller to fall back to a full load.
#[derive(Clone, Copy, Debug, PartialEq, Eq, Structural)]
pub enum AggregationFailure {
    MatchNotFound,
    MatchDataFailure,
    NameResolutionFailure,
    NoCachedMatch,
}

/// The signed-in player's summary shown after login.
#[derive(Debug, PartialEq)]
pub struct LoginInfo {
    pub username: String,
    pub tag: String,
    pub uuid: String,
    pub account_level: u32,
    pub rank: String,
}

/// Mathematical view of the login summary.
pub ghost struct LoginInfoView {
    pub username: Seq<char>,
    pub tag: Seq<char>,
    pub uuid: Seq<char>,
    pub account_level: u32,
    pub rank: Seq<char>,
}

impl View for LoginInfo {
    type V = LoginInfoView;

    open spec fn view(&self) -> LoginInfoView {
        LoginInfoView {
            username: self.username@,
            tag: self.tag@,
            uuid: self.uuid@,
            account_level: self.account_level,
            rank: self.rank@,
        }
    }
}

/// The login summary a presence record denotes: name, tag and id as
/// reported, the account level, and the current tier index rendered in
/// decimal.
pub open spec fn spec_login_info(user: presence::PlayerView) -> LoginInfoView {
    LoginInfoView {
        username: user.game_name,
        tag: user.game_tag,
        uuid: user.puuid,
        account_level: user.private.account_level,
        rank: text::spec_decimal(user.private.competitive_tier as int),
    }
}

/// Build the login summary from the signed-in player's presence.
pub fn build_login_info(user: &presence::Player) -> (r: LoginInfo)
    ensures
        r@ == spec_login_info(user@),
{
    LoginInfo {
        username: user.game_name.clone(),
        tag: user.game_tag.clone(),
        uuid: user.puuid.clone(),
        account_level: user.private.account_level,
        rank: text::u32_to_string(user.private.competitive_tier),
    }
}

/// One source's answer to the current-match lookup.
#[derive(Debug, PartialEq)]
pub enum MatchLookup {
    Failure,
    NoMatch,
    Found(String),
}

/// Mathematical view of a lookup answer.
pub ghost enum MatchLookupView {
    Failure,
    NoMatch,
    Found(Seq<char>),
}

impl View for MatchLookup {
    type V = MatchLookupView;

    open spec fn view(&self) -> MatchLookupView {
        match self {
            MatchLookup::Failure => MatchLookupView::Failure,
            MatchLookup::NoMatch => MatchLookupView::NoMatch,
            MatchLookup::Found(id) => MatchLookupView::Found(id@),
        }
    }
}

impl DeepView for MatchLookup {
    type V = MatchLookupView;

    open spec fn deep_view(&self) -> MatchLookupView {
        self.view()
    }
}

/// The locator's decision: a live match id wins outright; otherwise a
/// pre-game id; otherwise the player is not in a match, which is a
/// normal outcome.
pub open spec fn spec_locate(
    ingame: MatchLookupView,
    pregame: MatchLookupView,
) -> Option<Seq<char>> {
    match ingame {
        MatchLookupView::Found(id) => Some(id),
        _ => match pregame {
            MatchLookupView::Found(id) => Some(id),
            _ => None,
        },
    }
}

/// Decide the current match id from the two sources' answers.  The
/// live source short-circuits: when it found an id, the pre-game answer
/// is never consulted.
pub fn find_match_id(ingame: &MatchLookup, pregame: &MatchLookup) -> (r: Option<String>)
    ensures
        r.deep_view() == spec_locate(ingame@, pregame@),
{
    match ingame {
        MatchLookup::Found(id) => Some(id.clone()),
        _ => match pregame {
            MatchLookup::Found(id) => Some(id.clone()),
            _ => None,
        },
    }
}

/// Whether the pre-game source still has to be asked: only when the
/// live lookup did not come back with an id.
pub fn needs_fallback(ingame: &MatchLookup) -> (r: bool)
    ensures
        r == !(ingame@ is Found),
{
    match ingame {
        MatchLookup::Found(_) => false,
        _ => true,
    }
}

/// Turn the locator's decision into the full-load outcome: without a
/// match id the load ends in the normal not-in-a-match report.
pub fn require_match(located: Option<String>) -> (r: Result<String, AggregationFailure>)
    ensures
        located matches Some(id) ==> (r matches Ok(rid) && rid@ == id@),
        located is None ==> (r matches Err(e) && e == AggregationFailure::MatchNotFound),
{
    match located {
        Some(id) => Ok(id),
        None => Err(AggregationFailure::MatchNotFound),
    }
}

/// Which raw payload feeds the aggregation: the live one when it could
/// be fetched, else the pre-game one, else the match data failure.
pub open spec fn spec_resolve_source(
    ingame: Option<IngameMatchInfoView>,
    pregame: Option<PregameMatchInfoView>,
) -> Result<RawMatchView, AggregationFailure> {
    match ingame {
        Some(m) => Ok(RawMatchView::Ingame(m)),
        None => match pregame {
            Some(m) => Ok(RawMatchView::Pregame(m)),
            None => Err(AggregationFailure::MatchDataFailure),
        },
    }
}

/// Pick the raw payload for aggregation, live source first.
pub fn resolve_match_source(
    ingame: Option<IngameMatchInfo>,
    pregame: Option<PregameMatchInfo>,
) -> (r: Result<RawMatch, AggregationFailure>)
    ensures
        spec_resolve_source(ingame.deep_view(), pregame.deep_view()) matches Ok(v) ==> (
        r matches Ok(raw) && raw@ == v),
        spec_resolve_source(ingame.deep_view(), pregame.deep_view()) matches Err(e) ==> (
        r matches Err(e2) && e2 == e),
{
    match ingame {
        Some(m) => Ok(RawMatch::Ingame(m)),
        None => match pregame {
            Some(m) => Ok(RawMatch::Pregame(m)),
            None => Err(AggregationFailure::MatchDataFailure),
        },
    }
}

/// The projection a full aggregation produces from the raw payload and
/// the outcomes of every remote step: normalise, copy party ids from
/// the presences, fan the resolved names in, fill each participant's
/// rank history over the act window, and project against the catalogs.
pub open spec fn spec_aggregate(
    raw: RawMatchView,
    presences: Seq<presence::PlayerView>,
    entries: Seq<NameEntryView>,
    hs: Seq<Option<Seq<SeasonEntryView>>>,
    acts: Seq<SeasonView>,
    agents: Seq<AgentView>,
    tiers: Seq<CompetitiveTierView>,
) -> ShortMatchDataView {
    let md = spec_normalize(raw);
    let p1 = spec_apply_party(md.players, presences);
    let p2 = spec_apply_names(p1, entries);
    let p3 = Seq::new(p2.len(), |t: int| spec_with_history(p2[t], hs[t], acts));
    crate::projection::spec_projection(
        MatchDataView { players: p3, ..md },
        agents,
        tiers,
    )
}

/// Run a full aggregation over the gathered outcomes.  A total name
/// failure aborts with `NameResolutionFailure`; a failed per-player
/// rank fetch only empties that player's history.
pub fn aggregate(
    raw: RawMatch,
    presences: &Vec<presence::Player>,
    names: Option<Vec<NameEntry>>,
    mmr: &Vec<Option<Vec<SeasonEntry>>>,
    acts: &Vec<Season>,
    agents: &Vec<Agent>,
    tiers: &Vec<CompetitiveTier>,
) -> (r: Result<ShortMatchData, AggregationFailure>)
    requires
        mmr@.len() == spec_normalize(raw@).players.len(),
    ensures
        names is None ==> (r matches Err(e) && e == AggregationFailure::NameResolutionFailure),
        names matches Some(es) ==> (r matches Ok(smd) && smd@ == spec_aggregate(
            raw@,
            presences.deep_view(),
            es.deep_view(),
            mmr.deep_view(),
            acts.deep_view(),
            agents.deep_view(),
            tiers.deep_view(),
        )),
{
    let ghost rawv = raw@;
    let md = crate::matchdata::normalize(raw);
    let md = crate::matchdata::apply_party_ids(md, presences);
    let entries = match names {
        Some(es) => es,
        None => {
            return Err(AggregationFailure::NameResolutionFailure);
        },
    };
    let md = crate::matchdata::apply_names(md, &entries);
    proof {
        assert(md@.players == spec_apply_names(
            spec_apply_party(spec_normalize(rawv).players, presences.deep_view()),
            entries.deep_view(),
        ));
        assert(md@.players.len() == spec_normalize(rawv).players.len());
        assert(md.players@.len() == md@.players.len());
    }
    let md = crate::matchdata::apply_histories(md, mmr, acts);
    let ghost p2 = spec_apply_names(
        spec_apply_party(spec_normalize(rawv).players, presences.deep_view()),
        entries.deep_view(),
    );
    proof {
        assert(md@.players =~= Seq::new(
            p2.len(),
            |t: int| spec_with_history(p2[t], mmr.deep_view()[t], acts.deep_view()),
        ));
    }
    let smd = ShortMatchData::from_match_data(md, agents, tiers);
    proof {
        assert(smd@ == spec_aggregate(
            rawv,
            presences.deep_view(),
            entries.deep_view(),
            mmr.deep_view(),
            acts.deep_view(),
            agents.deep_view(),
            tiers.deep_view(),
        ));
    }
    Ok(smd)
}

/// Aggregation is deterministic, hence idempotent: two aggregations
/// over identical raw fixture responses, presences, name records, rank
/// outcomes and catalogs produce identical projections.
pub proof fn lemma_aggregate_idempotent(
    raw1: RawMatchView,
    presences1: Seq<presence::PlayerView>,
    entries1: Seq<NameEntryView>,
    hs1: Seq<Option<Seq<SeasonEntryView>>>,
    acts1: Seq<SeasonView>,
    agents1: Seq<AgentView>,
    tiers1: Seq<CompetitiveTierView>,
    raw2: RawMatchView,
    presences2: Seq<presence::PlayerView>,
    entries2: Seq<NameEntryView>,
    hs2: Seq<Option<Seq<SeasonEntryView>>>,
    acts2: Seq<SeasonView>,
    agents2: Seq<AgentView>,
    tiers2: Seq<CompetitiveTierView>,
)
    requires
        raw1 == raw2,
        presences1 == presences2,
        entries1 == entries2,
        hs1 == hs2,
        acts1 == acts2,
        agents1 == agents2,
        tiers1 == tiers2,
    ensures
        spec_aggregate(raw1, presences1, entries1, hs1, acts1, agents1, tiers1)
            == spec_aggregate(raw2, presences2, entries2, hs2, acts2, agents2, tiers2),
{
}

/// The shared session state: one independently committed field per
/// bootstrap stage, plus the cached projection.  Entitlements and
/// session are only ever valid on top of a loaded lockfile.
#[derive(Debug, PartialEq)]
pub struct SessionState {
    pub lockfile: Option<lockfile::Config>,
    pub entitlements: Option<entitlements::Config>,
    pub session: Option<sessions::Config>,
    pub match_cache: Option<ShortMatchData>,
}

/// Mathematical view of the session state.
pub ghost struct SessionStateView {
    pub lockfile: Option<lockfile::ConfigView>,
    pub entitlements: Option<entitlements::ConfigView>,
    pub session: Option<sessions::ConfigView>,
    pub match_cache: Option<ShortMatchDataView>,
}

impl View for SessionState {
    type V = SessionStateView;

    open spec fn view(&self) -> SessionStateView {
        SessionStateView {
            lockfile: self.lockfile.deep_view(),
            entitlements: self.entitlements.deep_view(),
            session: self.session.deep_view(),
            match_cache: self.match_cache.deep_view(),
        }
    }
}

impl SessionState {
    /// The stage-gating invariant: a later stage's field is only ever
    /// set while the lockfile is.
    pub open spec fn wf(&self) -> bool {
        (self@.entitlements is Some ==> self@.lockfile is Some) && (self@.session is Some
            ==> self@.lockfile is Some)
    }

    /// A fresh state with nothing loaded.
    pub fn new() -> (r: SessionState)
        ensures
            r@.lockfile is None,
            r@.entitlements is None,
            r@.session is None,
            r@.match_cache is None,
            r.wf(),
    {
        SessionState { lockfile: None, entitlements: None, session: None, match_cache: None }
    }

    /// Commit the lockfile stage.  On a parse failure nothing changes
    /// and the lockfile failure is reported; on success only the
    /// lockfile field is overwritten.
    pub fn apply_lockfile(&mut self, parsed: Option<lockfile::Config>) -> (r: Result<
        (),
        LoginFail,
    >)
        requires
            old(self).wf(),
        ensures
            final(self).wf(),
            parsed matches Some(c) ==> (r is Ok && final(self)@ == (SessionStateView {
                lockfile: Some(c@),
                ..old(self)@
            })),
            parsed is None ==> (r matches Err(e) && e == LoginFail::Lockfile && final(self)@
                == old(self)@),
    {
        match parsed {
            Some(c) => {
                self.lockfile = Some(c);
                Ok(())
            },
            None => Err(LoginFail::Lockfile),
        }
    }

    /// Commit the entitlements stage, which runs only on top of a
    /// loaded lockfile.  On failure nothing changes — in particular the
    /// lockfile stays loaded for a later retry — and the entitlements
    /// failure is reported.
    pub fn apply_entitlements(&mut self, fetched: Option<entitlements::Config>) -> (r: Result<
        (),
        LoginFail,
    >)
        requires
            old(self).wf(),
            old(self)@.lockfile is Some,
        ensures
            final(self).wf(),
            final(self)@.lockfile == old(self)@.lockfile,
            fetched matches Some(c) ==> (r is Ok && final(self)@ == (SessionStateView {
                entitlements: Some(c@),
                ..old(self)@
            })),
            fetched is None ==> (r matches Err(e) && e == LoginFail::Entitlements
                && final(self)@ == old(self)@),
    {
        match fetched {
            Some(c) => {
                self.entitlements = Some(c);
                Ok(())
            },
            None => Err(LoginFail::Entitlements),
        }
    }

    /// Commit the session stage, which runs only on top of a loaded
    /// lockfile.  On failure nothing changes and the session failure is
    /// reported.
    pub fn apply_session(&mut self, derived: Option<sessions::Config>) -> (r: Result<
        (),
        LoginFail,
    >)
        requires
            old(self).wf(),
            old(self)@.lockfile is Some,
        ensures
            final(self).wf(),
            final(self)@.lockfile == old(self)@.lockfile,
            derived matches Some(c) ==> (r is Ok && final(self)@ == (SessionStateView {
                session: Some(c@),
                ..old(self)@
            })),
            derived is None ==> (r matches Err(e) && e == LoginFail::Session && final(self)@
                == old(self)@),
    {
        match derived {
            Some(c) => {
                self.session = Some(c);
                Ok(())
            },
            None => Err(LoginFail::Session),
        }
    }

    /// The three bootstrap configurations together, or nothing while
    /// any stage is still missing.
    pub fn configs(&self) -> (r: Option<
        (lockfile::Config, entitlements::Config, sessions::Config),
    >)
        ensures
            (self@.lockfile is Some && self@.entitlements is Some && self@.session is Some)
                ==> (r matches Some(t) && Some(t.0@) == self@.lockfile && Some(t.1@)
                == self@.entitlements && Some(t.2@) == self@.session),
            !(self@.lockfile is Some && self@.entitlements is Some && self@.session is Some)
                ==> r is None,
    {
        match (&self.lockfile, &self.entitlements, &self.session) {
            (Some(l), Some(e), Some(s)) => Some((l.clone(), e.clone(), s.clone())),
            _ => None,
        }
    }

    /// Store a completely aggregated projection as the match cache.
    pub fn commit_match_cache(&mut self, m: ShortMatchData)
        requires
            old(self).wf(),
        ensures
            final(self).wf(),
            final(self)@ == (SessionStateView { match_cache: Some(m@), ..old(self)@ }),
    {
        self.match_cache = Some(m);
    }

    /// Refresh the cached projection in place from fresh match data.
    /// Without a cached projection nothing changes and `NoCachedMatch`
    /// reports that a full load is needed instead.
    pub fn quick_refresh(&mut self, value: MatchData, agents: &Vec<Agent>) -> (r: Result<
        ShortMatchData,
        AggregationFailure,
    >)
        requires
            old(self).wf(),
        ensures
            final(self).wf(),
            old(self)@.match_cache is None ==> (r matches Err(e) && e
                == AggregationFailure::NoCachedMatch && final(self)@ == old(self)@),
            old(self)@.match_cache matches Some(c) ==> (r matches Ok(m) && m@
                == ShortMatchData::spec_refresh_projection(c, value@, agents.deep_view())
                && final(self)@ == (SessionStateView {
                match_cache: Some(
                    ShortMatchData::spec_refresh_projection(c, value@, agents.deep_view()),
                ),
                ..old(self)@
            })),
    {
        let mut tmp: Option<ShortMatchData> = None;
        std::mem::swap(&mut self.match_cache, &mut tmp);
        match tmp {
            Some(mut c) => {
                c.update_with_match_data(value, agents);
                let out = c.clone();
                self.match_cache = Some(c);
                Ok(out)
            },
            None => Err(AggregationFailure::NoCachedMatch),
        }
    }
}

} // verus!
