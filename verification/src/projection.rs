//! The display-ready match projection.
//!
//! A projection is created fresh on a full load and mutated in place on a
//! quick refresh, which touches only each participant's character pick
//! and party id.

use crate::agents::{Agent, AgentView};
use crate::matchdata::{
    spec_display_name, spec_find_match_player, spec_selected_agent, spec_team_label, MatchData,
    Player, PlayerView,
};
use crate::seasons::{spec_resolve_tier, CompetitiveTier, CompetitiveTierView};
use vstd::prelude::*;
use vstd::string::*;

verus! {

/// One projected participant.
#[derive(Debug, PartialEq)]
pub struct ShortPlayer {
    pub uuid: String,
    pub name: String,
    pub team: String,
    pub character: Option<Agent>,
    pub title: String,
    pub account_level: Option<u32>,
    pub rank_history: Vec<CompetitiveTier>,
    pub party_id: String,
}

/// Mathematical view of a projected participant.
pub ghost struct ShortPlayerView {
    pub uuid: Seq<char>,
    pub name: Seq<char>,
    pub team: Seq<char>,
    pub character: Option<AgentView>,
    pub title: Seq<char>,
    pub account_level: Option<u32>,
    pub rank_history: Seq<CompetitiveTierView>,
    pub party_id: Seq<char>,
}

impl View for ShortPlayer {
    type V = ShortPlayerView;

    open spec fn view(&self) -> ShortPlayerView {
        ShortPlayerView {
            uuid: self.uuid@,
            name: self.name@,
            team: self.team@,
            character: self.character.deep_view(),
            title: self.title@,
            account_level: self.account_level,
            rank_history: self.rank_history.deep_view(),
            party_id: self.party_id@,
        }
    }
}

impl DeepView for ShortPlayer {
    type V = ShortPlayerView;

    open spec fn deep_view(&self) -> ShortPlayerView {
        self.view()
    }
}

impl Clone for ShortPlayer {
    fn clone(&self) -> (r: Self)
        ensures
            r@ == self@,
    {
        let rh = self.rank_history.clone();
        proof {
            assert(rh.deep_view() =~= self.rank_history.deep_view());
        }
        let ch = match &self.character {
            Some(a) => Some(a.clone()),
            None => None,
        };
        ShortPlayer {
            uuid: self.uuid.clone(),
            name: self.name.clone(),
            team: self.team.clone(),
            character: ch,
            title: self.title.clone(),
            account_level: self.account_level,
            rank_history: rh,
            party_id: self.party_id.clone(),
        }
    }
}

/// The projected match.
#[derive(Debug, PartialEq)]
pub struct ShortMatchData {
    pub ingame: bool,
    pub map: String,
    pub mode: String,
    pub players: Vec<ShortPlayer>,
}

/// Mathematical view of the projected match.
pub ghost struct ShortMatchDataView {
    pub ingame: bool,
    pub map: Seq<char>,
    pub mode: Seq<char>,
    pub players: Seq<ShortPlayerView>,
}

impl View for ShortMatchData {
    type V = ShortMatchDataView;

    open spec fn view(&self) -> ShortMatchDataView {
        ShortMatchDataView {
            ingame: self.ingame,
            map: self.map@,
            mode: self.mode@,
            players: self.players.deep_view(),
        }
    }
}

impl DeepView for ShortMatchData {
    type V = ShortMatchDataView;

    open spec fn deep_view(&self) -> ShortMatchDataView {
        self.view()
    }
}

impl Clone for ShortMatchData {
    fn clone(&self) -> (r: Self)
        ensures
            r@ == self@,
    {
        let ps = self.players.clone();
        proof {
            assert(ps.deep_view() =~= self.players.deep_view());
        }
        ShortMatchData {
            ingame: self.ingame,
            map: self.map.clone(),
            mode: self.mode.clone(),
            players: ps,
        }
    }
}

/// The projection of one participant: names and hidden fields already
/// resolved, every rank row looked up in the tier catalog.
pub open spec fn spec_from_player(
    p: PlayerView,
    agents: Seq<AgentView>,
    tiers: Seq<CompetitiveTierView>,
) -> ShortPlayerView {
    ShortPlayerView {
        uuid: p.puuid,
        name: spec_display_name(p, agents),
        team: spec_team_label(p.team),
        character: spec_selected_agent(p, agents),
        title: p.title,
        account_level: if p.hide_account_level {
            None
        } else {
            Some(p.account_level)
        },
        rank_history: p.competitive_history.map_values(
            |a: crate::mmr::SeasonalInfoView|
                spec_resolve_tier(tiers, a.episode_id, a.competitive_tier),
        ),
        party_id: p.party_id,
    }
}

/// The projection of a whole normalised match.
pub open spec fn spec_projection(
    md: crate::matchdata::MatchDataView,
    agents: Seq<AgentView>,
    tiers: Seq<CompetitiveTierView>,
) -> ShortMatchDataView {
    ShortMatchDataView {
        ingame: md.ingame,
        map: md.map,
        mode: md.mode,
        players: md.players.map_values(|p: PlayerView| spec_from_player(p, agents, tiers)),
    }
}

impl ShortPlayer {
    /// Project one participant against the two catalogs.
    pub fn from_player(value: &Player, agents: &Vec<Agent>, tiers: &Vec<CompetitiveTier>) -> (r:
        Self)
        ensures
            r@ == spec_from_player(value@, agents.deep_view(), tiers.deep_view()),
    {
        let ghost tv = tiers.deep_view();
        let ghost hv = value.competitive_history.deep_view();
        let mut rank_history: Vec<CompetitiveTier> = Vec::new();
        let mut i: usize = 0;
        while i < value.competitive_history.len()
            invariant
                hv == value.competitive_history.deep_view(),
                tv == tiers.deep_view(),
                0 <= i <= hv.len(),
                hv.len() == value.competitive_history@.len(),
                rank_history.deep_view().len() == i,
                forall|t: int|
                    0 <= t < i ==> #[trigger] rank_history.deep_view()[t] == spec_resolve_tier(
                        tv,
                        hv[t].episode_id,
                        hv[t].competitive_tier,
                    ),
            decreases hv.len() - i,
        {
            let a = &value.competitive_history[i];
            proof {
                assert(a@ == hv[i as int]);
            }
            let tier = CompetitiveTier::from_act_tier(tiers, a.episode_id.as_str(), a.competitive_tier);
            let ghost tview = tier@;
            let ghost before = rank_history.deep_view();
            rank_history.push(tier);
            proof {
                assert(rank_history.deep_view() =~= before.push(tview));
            }
            i += 1;
        }
        let r = ShortPlayer {
            uuid: value.puuid.clone(),
            name: value.get_name(agents),
            team: value.team.to_string(),
            character: value.get_agent(agents),
            title: value.title.clone(),
            account_level: value.get_account_level(),
            rank_history,
            party_id: value.party_id.clone(),
        };
        proof {
            assert(r@.rank_history =~= value@.competitive_history.map_values(
                |a: crate::mmr::SeasonalInfoView|
                    spec_resolve_tier(tv, a.episode_id, a.competitive_tier),
            ));
            assert(r@ == spec_from_player(value@, agents.deep_view(), tv));
        }
        r
    }
}

impl ShortMatchData {
    /// Project a whole normalised match against the two catalogs.
    pub fn from_match_data(
        value: MatchData,
        agents: &Vec<Agent>,
        tiers: &Vec<CompetitiveTier>,
    ) -> (r: Self)
        ensures
            r@ == spec_projection(value@, agents.deep_view(), tiers.deep_view()),
    {
        let ghost pv = value.players.deep_view();
        let ghost av = agents.deep_view();
        let ghost tv = tiers.deep_view();
        let mut players: Vec<ShortPlayer> = Vec::new();
        let mut i: usize = 0;
        while i < value.players.len()
            invariant
                pv == value.players.deep_view(),
                av == agents.deep_view(),
                tv == tiers.deep_view(),
                0 <= i <= pv.len(),
                pv.len() == value.players@.len(),
                players.deep_view().len() == i,
                forall|t: int|
                    0 <= t < i ==> #[trigger] players.deep_view()[t] == spec_from_player(
                        pv[t],
                        av,
                        tv,
                    ),
            decreases pv.len() - i,
        {
            let p = &value.players[i];
            proof {
                assert(p@ == pv[i as int]);
            }
            let sp = ShortPlayer::from_player(p, agents, tiers);
            let ghost spv = sp@;
            let ghost before = players.deep_view();
            players.push(sp);
            proof {
                assert(players.deep_view() =~= before.push(spv));
            }
            i += 1;
        }
        let r = ShortMatchData {
            ingame: value.ingame,
            map: value.map,
            mode: value.mode,
            players,
        };
        proof {
            assert(r@.players =~= pv.map_values(|p: PlayerView| spec_from_player(p, av, tv)));
            assert(r@ == spec_projection(value@, av, tv));
        }
        r
    }

    /// The refreshed form of one cached participant: the character pick
    /// and the party id follow the fresh data, every other field is kept
    /// exactly; a participant absent from the fresh data is left as-is.
    pub open spec fn spec_refresh_player(
        sp: ShortPlayerView,
        fresh: Seq<PlayerView>,
        agents: Seq<AgentView>,
    ) -> ShortPlayerView {
        match spec_find_match_player(fresh, sp.uuid) {
            Some(p) => ShortPlayerView {
                character: spec_selected_agent(p, agents),
                party_id: p.party_id,
                ..sp
            },
            None => sp,
        }
    }

    /// The whole refreshed projection: the live flag follows the fresh
    /// data, map and mode are kept, each cached participant is refreshed
    /// in place, and fresh participants unknown to the cache are
    /// ignored.
    pub open spec fn spec_refresh_projection(
        c: ShortMatchDataView,
        fresh: crate::matchdata::MatchDataView,
        agents: Seq<AgentView>,
    ) -> ShortMatchDataView {
        ShortMatchDataView {
            ingame: fresh.ingame,
            map: c.map,
            mode: c.mode,
            players: Seq::new(
                c.players.len(),
                |t: int| Self::spec_refresh_player(c.players[t], fresh.players, agents),
            ),
        }
    }

    /// Refresh the cached projection in place from fresh match data:
    /// only `character` and `party_id` of existing participants change,
    /// besides the live flag; names, ranks and identity stay untouched,
    /// and fresh participants unknown to the cache are ignored.
    pub fn update_with_match_data(&mut self, value: MatchData, agents: &Vec<Agent>)
        ensures
            final(self)@.map == old(self)@.map,
            final(self)@.mode == old(self)@.mode,
            final(self)@.ingame == value@.ingame,
            final(self)@.players.len() == old(self)@.players.len(),
            forall|t: int|
                0 <= t < old(self)@.players.len() ==> #[trigger] final(self)@.players[t]
                    == Self::spec_refresh_player(
                    old(self)@.players[t],
                    value@.players,
                    agents.deep_view(),
                ),
            final(self)@ == Self::spec_refresh_projection(
                old(self)@,
                value@,
                agents.deep_view(),
            ),
    {
        let ghost cached = self.players.deep_view();
        let ghost fv = value.players.deep_view();
        let ghost av = agents.deep_view();
        let mut out: Vec<ShortPlayer> = Vec::new();
        let mut i: usize = 0;
        while i < self.players.len()
            invariant
                cached == self.players.deep_view(),
                fv == value.players.deep_view(),
                av == agents.deep_view(),
                0 <= i <= cached.len(),
                cached.len() == self.players@.len(),
                out.deep_view().len() == i,
                forall|t: int|
                    0 <= t < i ==> #[trigger] out.deep_view()[t] == Self::spec_refresh_player(
                        cached[t],
                        fv,
                        av,
                    ),
            decreases cached.len() - i,
        {
            let sp = &self.players[i];
            proof {
                assert(sp@ == cached[i as int]);
            }
            let mut q = sp.clone();
            match crate::matchdata::find_match_player(&value.players, sp.uuid.as_str()) {
                Some(p) => {
                    q.character = p.get_agent(agents);
                    q.party_id = p.party_id;
                    proof {
                        assert(q@ == Self::spec_refresh_player(cached[i as int], fv, av));
                    }
                },
                None => {
                    proof {
                        assert(q@ == Self::spec_refresh_player(cached[i as int], fv, av));
                    }
                },
            }
            let ghost qv = q@;
            let ghost before = out.deep_view();
            out.push(q);
            proof {
                assert(out.deep_view() =~= before.push(qv));
            }
            i += 1;
        }
        self.ingame = value.ingame;
        self.players = out;
        proof {
            assert(self@.players =~= Seq::new(
                cached.len(),
                |t: int| Self::spec_refresh_player(cached[t], fv, av),
            ));
            assert(self@ == Self::spec_refresh_projection(old(self)@, value@, av));
        }
    }
}

} // verus!
