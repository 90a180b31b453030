//! Raw match payloads and their normalisation into one common shape.
//!
//! The live and the pre-game endpoints answer with different schemas: the
//! live one lists players flatly with a locked character each, the
//! pre-game one groups players by team with a selection state.  Both
//! collapse through one normalisation into `MatchData`, with coaches and
//! captains dropped as non-playing entries.

use crate::agents::{spec_find_agent, Agent, AgentView};
use crate::mmr::{SeasonalInfo, SeasonalInfoView};
use crate::presence;
use vstd::prelude::*;
use vstd::string::*;

verus! {

/// The side a participant plays on.
#[derive(Debug, PartialEq)]
pub enum Team {
    Blue,
    Red,
    Other(String),
}

/// Mathematical view of a team.
pub ghost enum TeamView {
    Blue,
    Red,
    Other(Seq<char>),
}

impl View for Team {
    type V = TeamView;

    open spec fn view(&self) -> TeamView {
        match self {
            Team::Blue => TeamView::Blue,
            Team::Red => TeamView::Red,
            Team::Other(s) => TeamView::Other(s@),
        }
    }
}

impl DeepView for Team {
    type V = TeamView;

    open spec fn deep_view(&self) -> TeamView {
        self.view()
    }
}

impl Clone for Team {
    fn clone(&self) -> (r: Self)
        ensures
            r == *self,
    {
        match self {
            Team::Blue => Team::Blue,
            Team::Red => Team::Red,
            Team::Other(s) => Team::Other(s.clone()),
        }
    }
}

/// The label a team is displayed under.
pub open spec fn spec_team_label(t: TeamView) -> Seq<char> {
    match t {
        TeamView::Blue => "blue"@,
        TeamView::Red => "red"@,
        TeamView::Other(_) => "unknown"@,
    }
}

impl Team {
    /// The display label of the team.
    pub fn to_string(&self) -> (r: String)
        ensures
            r@ == spec_team_label(self@),
    {
        match self {
            Team::Blue => String::from_str("blue"),
            Team::Red => String::from_str("red"),
            Team::Other(_) => String::from_str("unknown"),
        }
    }
}

/// A participant's character pick: none yet, hovered, or locked in.
#[derive(Debug, PartialEq)]
pub enum Character {
    Unselected,
    Hovered(String),
    Locked(String),
}

/// Mathematical view of a character pick.
pub ghost enum CharacterView {
    Unselected,
    Hovered(Seq<char>),
    Locked(Seq<char>),
}

impl View for Character {
    type V = CharacterView;

    open spec fn view(&self) -> CharacterView {
        match self {
            Character::Unselected => CharacterView::Unselected,
            Character::Hovered(s) => CharacterView::Hovered(s@),
            Character::Locked(s) => CharacterView::Locked(s@),
        }
    }
}

impl DeepView for Character {
    type V = CharacterView;

    open spec fn deep_view(&self) -> CharacterView {
        self.view()
    }
}

impl Clone for Character {
    fn clone(&self) -> (r: Self)
        ensures
            r == *self,
    {
        match self {
            Character::Unselected => Character::Unselected,
            Character::Hovered(s) => Character::Hovered(s.clone()),
            Character::Locked(s) => Character::Locked(s.clone()),
        }
    }
}

/// The identity block both raw schemas carry per player.
#[derive(Debug, PartialEq)]
pub struct PlayerIdentity {
    pub card_id: String,
    pub title_id: String,
    pub account_level: u32,
    pub border_id: String,
    pub incognito: bool,
    pub hide_account_level: bool,
}

/// Mathematical view of an identity block.
pub ghost struct PlayerIdentityView {
    pub card_id: Seq<char>,
    pub title_id: Seq<char>,
    pub account_level: u32,
    pub border_id: Seq<char>,
    pub incognito: bool,
    pub hide_account_level: bool,
}

impl View for PlayerIdentity {
    type V = PlayerIdentityView;

    open spec fn view(&self) -> PlayerIdentityView {
        PlayerIdentityView {
            card_id: self.card_id@,
            title_id: self.title_id@,
            account_level: self.account_level,
            border_id: self.border_id@,
            incognito: self.incognito,
            hide_account_level: self.hide_account_level,
        }
    }
}

impl DeepView for PlayerIdentity {
    type V = PlayerIdentityView;

    open spec fn deep_view(&self) -> PlayerIdentityView {
        self.view()
    }
}

impl Clone for PlayerIdentity {
    fn clone(&self) -> (r: Self)
        ensures
            r == *self,
    {
        PlayerIdentity {
            card_id: self.card_id.clone(),
            title_id: self.title_id.clone(),
            account_level: self.account_level,
            border_id: self.border_id.clone(),
            incognito: self.incognito,
            hide_account_level: self.hide_account_level,
        }
    }
}

/// One normalised participant.
#[derive(Debug, PartialEq)]
pub struct Player {
    pub puuid: String,
    pub name: String,
    pub team: Team,
    pub character: Character,
    pub card: String,
    pub title: String,
    pub account_level: u32,
    pub border: String,
    pub incognito: bool,
    pub hide_account_level: bool,
    pub competitive_history: Vec<SeasonalInfo>,
    pub party_id: String,
}

/// Mathematical view of a participant.
pub ghost struct PlayerView {
    pub puuid: Seq<char>,
    pub name: Seq<char>,
    pub team: TeamView,
    pub character: CharacterView,
    pub card: Seq<char>,
    pub title: Seq<char>,
    pub account_level: u32,
    pub border: Seq<char>,
    pub incognito: bool,
    pub hide_account_level: bool,
    pub competitive_history: Seq<SeasonalInfoView>,
    pub party_id: Seq<char>,
}

impl View for Player {
    type V = PlayerView;

    open spec fn view(&self) -> PlayerView {
        PlayerView {
            puuid: self.puuid@,
            name: self.name@,
            team: self.team@,
            character: self.character@,
            card: self.card@,
            title: self.title@,
            account_level: self.account_level,
            border: self.border@,
            incognito: self.incognito,
            hide_account_level: self.hide_account_level,
            competitive_history: self.competitive_history.deep_view(),
            party_id: self.party_id@,
        }
    }
}

impl DeepView for Player {
    type V = PlayerView;

    open spec fn deep_view(&self) -> PlayerView {
        self.view()
    }
}

/// The normalised match: which source answered, the map and mode, and
/// the playing participants.
#[derive(Debug, PartialEq)]
pub struct MatchData {
    pub ingame: bool,
    pub map: String,
    pub mode: String,
    pub players: Vec<Player>,
}

/// Mathematical view of the normalised match.
pub ghost struct MatchDataView {
    pub ingame: bool,
    pub map: Seq<char>,
    pub mode: Seq<char>,
    pub players: Seq<PlayerView>,
}

impl View for MatchData {
    type V = MatchDataView;

    open spec fn view(&self) -> MatchDataView {
        MatchDataView {
            ingame: self.ingame,
            map: self.map@,
            mode: self.mode@,
            players: self.players.deep_view(),
        }
    }
}

impl DeepView for MatchData {
    type V = MatchDataView;

    open spec fn deep_view(&self) -> MatchDataView {
        self.view()
    }
}

/// The displayed name of a participant: the resolved name, or, for an
/// incognito player, the picked character's catalog name with a generic
/// placeholder fallback.
pub open spec fn spec_incognito_name(p: PlayerView, agents: Seq<AgentView>) -> Seq<char> {
    match p.character {
        CharacterView::Unselected => "Player"@,
        CharacterView::Hovered(c) => match spec_find_agent(agents, c) {
            Some(a) => a.display_name,
            None => "Player"@,
        },
        CharacterView::Locked(c) => match spec_find_agent(agents, c) {
            Some(a) => a.display_name,
            None => "Player"@,
        },
    }
}

pub open spec fn spec_display_name(p: PlayerView, agents: Seq<AgentView>) -> Seq<char> {
    if p.incognito {
        spec_incognito_name(p, agents)
    } else {
        p.name
    }
}

/// The agent a participant's pick resolves to, if any.
pub open spec fn spec_selected_agent(p: PlayerView, agents: Seq<AgentView>) -> Option<AgentView> {
    match p.character {
        CharacterView::Unselected => None,
        CharacterView::Hovered(c) => spec_find_agent(agents, c),
        CharacterView::Locked(c) => spec_find_agent(agents, c),
    }
}

impl Player {
    /// Fill the resolved name in, leaving every other field alone.
    pub fn set_name(&mut self, name: String)
        ensures
            final(self)@ == (PlayerView { name: name@, ..old(self)@ }),
    {
        self.name = name;
    }

    /// The displayed name, anonymised for incognito players.
    pub fn get_name(&self, agents: &Vec<Agent>) -> (r: String)
        ensures
            r@ == spec_display_name(self@, agents.deep_view()),
    {
        if self.incognito {
            self.get_incognito_name(agents)
        } else {
            self.name.clone()
        }
    }

    fn get_incognito_name(&self, agents: &Vec<Agent>) -> (r: String)
        ensures
            r@ == spec_incognito_name(self@, agents.deep_view()),
    {
        match &self.character {
            Character::Unselected => String::from_str("Player"),
            Character::Hovered(c) => match crate::agents::agent_from_uuid(agents, c.as_str()) {
                Some(agent) => agent.display_name,
                None => String::from_str("Player"),
            },
            Character::Locked(c) => match crate::agents::agent_from_uuid(agents, c.as_str()) {
                Some(agent) => agent.display_name,
                None => String::from_str("Player"),
            },
        }
    }

    /// The account level, absent when the player hides it.
    pub fn get_account_level(&self) -> (r: Option<u32>)
        ensures
            r == if self.hide_account_level {
                None
            } else {
                Some(self.account_level)
            },
    {
        if self.hide_account_level {
            None
        } else {
            Some(self.account_level)
        }
    }

    /// The picked agent, or nothing when none is picked or the id is
    /// unknown to the catalog.
    pub fn get_agent(&self, agents: &Vec<Agent>) -> (r: Option<Agent>)
        ensures
            r.deep_view() == spec_selected_agent(self@, agents.deep_view()),
    {
        match &self.character {
            Character::Unselected => None,
            Character::Hovered(c) => crate::agents::agent_from_uuid(agents, c.as_str()),
            Character::Locked(c) => crate::agents::agent_from_uuid(agents, c.as_str()),
        }
    }
}

/// A pre-game participant's pick state.
#[derive(Clone, Copy, Debug, PartialEq, Eq, Structural)]
pub enum CharacterSelectionState {
    Selected,
    Locked,
    Unselected,
}

/// The character pick a pre-game selection state denotes.
pub open spec fn spec_character(state: CharacterSelectionState, id: Seq<char>) -> CharacterView {
    match state {
        CharacterSelectionState::Locked => CharacterView::Locked(id),
        CharacterSelectionState::Selected => CharacterView::Hovered(id),
        CharacterSelectionState::Unselected => CharacterView::Unselected,
    }
}

/// Turn a selection state and character id into the common pick shape.
pub fn get_character(state: CharacterSelectionState, character: String) -> (r: Character)
    ensures
        r@ == spec_character(state, character@),
{
    match state {
        CharacterSelectionState::Locked => Character::Locked(character),
        CharacterSelectionState::Selected => Character::Hovered(character),
        CharacterSelectionState::Unselected => Character::Unselected,
    }
}

/// One player row of the live-match payload.
#[derive(Debug, PartialEq)]
pub struct IngamePlayer {
    pub puuid: String,
    pub team: Team,
    pub character_id: String,
    pub player_identity: PlayerIdentity,
    pub is_coach: bool,
}

/// Mathematical view of a live-match player row.
pub ghost struct IngamePlayerView {
    pub puuid: Seq<char>,
    pub team: TeamView,
    pub character_id: Seq<char>,
    pub player_identity: PlayerIdentityView,
    pub is_coach: bool,
}

impl View for IngamePlayer {
    type V = IngamePlayerView;

    open spec fn view(&self) -> IngamePlayerView {
        IngamePlayerView {
            puuid: self.puuid@,
            team: self.team@,
            character_id: self.character_id@,
            player_identity: self.player_identity@,
            is_coach: self.is_coach,
        }
    }
}

impl DeepView for IngamePlayer {
    type V = IngamePlayerView;

    open spec fn deep_view(&self) -> IngamePlayerView {
        self.view()
    }
}

/// The live-match payload.
#[derive(Debug, PartialEq)]
pub struct IngameMatchInfo {
    pub map_id: String,
    pub mode_id: String,
    pub players: Vec<IngamePlayer>,
}

/// Mathematical view of the live-match payload.
pub ghost struct IngameMatchInfoView {
    pub map_id: Seq<char>,
    pub mode_id: Seq<char>,
    pub players: Seq<IngamePlayerView>,
}

impl View for IngameMatchInfo {
    type V = IngameMatchInfoView;

    open spec fn view(&self) -> IngameMatchInfoView {
        IngameMatchInfoView {
            map_id: self.map_id@,
            mode_id: self.mode_id@,
            players: self.players.deep_view(),
        }
    }
}

impl DeepView for IngameMatchInfo {
    type V = IngameMatchInfoView;

    open spec fn deep_view(&self) -> IngameMatchInfoView {
        self.view()
    }
}

/// One player row of the pre-game payload.
#[derive(Debug, PartialEq)]
pub struct PregamePlayer {
    pub puuid: String,
    pub character_selection_state: CharacterSelectionState,
    pub character_id: String,
    pub competitive_tier: u32,
    pub player_identity: PlayerIdentity,
    pub is_captain: bool,
}

/// Mathematical view of a pre-game player row.
pub ghost struct PregamePlayerView {
    pub puuid: Seq<char>,
    pub character_selection_state: CharacterSelectionState,
    pub character_id: Seq<char>,
    pub competitive_tier: u32,
    pub player_identity: PlayerIdentityView,
    pub is_captain: bool,
}

impl View for PregamePlayer {
    type V = PregamePlayerView;

    open spec fn view(&self) -> PregamePlayerView {
        PregamePlayerView {
            puuid: self.puuid@,
            character_selection_state: self.character_selection_state,
            character_id: self.character_id@,
            competitive_tier: self.competitive_tier,
            player_identity: self.player_identity@,
            is_captain: self.is_captain,
        }
    }
}

impl DeepView for PregamePlayer {
    type V = PregamePlayerView;

    open spec fn deep_view(&self) -> PregamePlayerView {
        self.view()
    }
}

/// One team block of the pre-game payload.
#[derive(Debug, PartialEq)]
pub struct PregameTeam {
    pub team_id: Team,
    pub players: Vec<PregamePlayer>,
}

/// Mathematical view of a pre-game team block.
pub ghost struct PregameTeamView {
    pub team_id: TeamView,
    pub players: Seq<PregamePlayerView>,
}

impl View for PregameTeam {
    type V = PregameTeamView;

    open spec fn view(&self) -> PregameTeamView {
        PregameTeamView { team_id: self.team_id@, players: self.players.deep_view() }
    }
}

impl DeepView for PregameTeam {
    type V = PregameTeamView;

    open spec fn deep_view(&self) -> PregameTeamView {
        self.view()
    }
}

/// The pre-game payload.
#[derive(Debug, PartialEq)]
pub struct PregameMatchInfo {
    pub map_id: String,
    pub mode: String,
    pub teams: Vec<PregameTeam>,
}

/// Mathematical view of the pre-game payload.
pub ghost struct PregameMatchInfoView {
    pub map_id: Seq<char>,
    pub mode: Seq<char>,
    pub teams: Seq<PregameTeamView>,
}

impl View for PregameMatchInfo {
    type V = PregameMatchInfoView;

    open spec fn view(&self) -> PregameMatchInfoView {
        PregameMatchInfoView {
            map_id: self.map_id@,
            mode: self.mode@,
            teams: self.teams.deep_view(),
        }
    }
}

impl DeepView for PregameMatchInfo {
    type V = PregameMatchInfoView;

    open spec fn deep_view(&self) -> PregameMatchInfoView {
        self.view()
    }
}

/// The raw match data, tagged with the source that answered.
#[derive(Debug, PartialEq)]
pub enum RawMatch {
    Ingame(IngameMatchInfo),
    Pregame(PregameMatchInfo),
}

/// Mathematical view of the raw match data.
pub ghost enum RawMatchView {
    Ingame(IngameMatchInfoView),
    Pregame(PregameMatchInfoView),
}

impl View for RawMatch {
    type V = RawMatchView;

    open spec fn view(&self) -> RawMatchView {
        match self {
            RawMatch::Ingame(m) => RawMatchView::Ingame(m@),
            RawMatch::Pregame(m) => RawMatchView::Pregame(m@),
        }
    }
}

impl DeepView for RawMatch {
    type V = RawMatchView;

    open spec fn deep_view(&self) -> RawMatchView {
        self.view()
    }
}

/// The participant a live-match row normalises to: the character is
/// always locked, the name, history and party are filled later.
pub open spec fn spec_player_from_ingame(p: IngamePlayerView) -> PlayerView {
    PlayerView {
        puuid: p.puuid,
        name: Seq::empty(),
        team: p.team,
        character: CharacterView::Locked(p.character_id),
        card: p.player_identity.card_id,
        title: p.player_identity.title_id,
        account_level: p.player_identity.account_level,
        border: p.player_identity.border_id,
        incognito: p.player_identity.incognito,
        hide_account_level: p.player_identity.hide_account_level,
        competitive_history: Seq::empty(),
        party_id: Seq::empty(),
    }
}

/// The participants of the live payload: everyone but the coaches.
pub open spec fn spec_ingame_players(ps: Seq<IngamePlayerView>) -> Seq<PlayerView> {
    ps.filter(|p: IngamePlayerView| !p.is_coach).map_values(
        |p: IngamePlayerView| spec_player_from_ingame(p),
    )
}

/// The participant a pre-game row normalises to, on its team.
pub open spec fn spec_player_from_pregame(team: TeamView, p: PregamePlayerView) -> PlayerView {
    PlayerView {
        puuid: p.puuid,
        name: Seq::empty(),
        team: team,
        character: spec_character(p.character_selection_state, p.character_id),
        card: p.player_identity.card_id,
        title: p.player_identity.title_id,
        account_level: p.player_identity.account_level,
        border: p.player_identity.border_id,
        incognito: p.player_identity.incognito,
        hide_account_level: p.player_identity.hide_account_level,
        competitive_history: Seq::empty(),
        party_id: Seq::empty(),
    }
}

/// The participants of one pre-game team: everyone but the captain.
pub open spec fn spec_team_players(t: PregameTeamView) -> Seq<PlayerView> {
    t.players.filter(|p: PregamePlayerView| !p.is_captain).map_values(
        |p: PregamePlayerView| spec_player_from_pregame(t.team_id, p),
    )
}

/// The participants of the pre-game payload, team by team.
pub open spec fn spec_pregame_players(teams: Seq<PregameTeamView>) -> Seq<PlayerView>
    decreases teams.len(),
{
    if teams.len() == 0 {
        Seq::empty()
    } else {
        spec_pregame_players(teams.drop_last()) + spec_team_players(teams.last())
    }
}

/// The common shape either raw payload normalises to.
pub open spec fn spec_normalize(raw: RawMatchView) -> MatchDataView {
    match raw {
        RawMatchView::Ingame(m) => MatchDataView {
            ingame: true,
            map: m.map_id,
            mode: m.mode_id,
            players: spec_ingame_players(m.players),
        },
        RawMatchView::Pregame(m) => MatchDataView {
            ingame: false,
            map: m.map_id,
            mode: m.mode,
            players: spec_pregame_players(m.teams),
        },
    }
}

fn normalize_ingame_players(players: &Vec<IngamePlayer>) -> (r: Vec<Player>)
    ensures
        r.deep_view() == spec_ingame_players(players.deep_view()),
{
    let ghost pv = players.deep_view();
    let mut r: Vec<Player> = Vec::new();
    let mut i: usize = 0;
    proof {
        reveal(Seq::filter);
        assert(r.deep_view() =~= pv.subrange(0, 0).filter(|p: IngamePlayerView| !p.is_coach).map_values(|p: IngamePlayerView| spec_player_from_ingame(p)));
    }
    while i < players.len()
        invariant
            pv == players.deep_view(),
            0 <= i <= pv.len(),
            pv.len() == players@.len(),
            r.deep_view() == pv.subrange(0, i as int).filter(|p: IngamePlayerView| !p.is_coach).map_values(|p: IngamePlayerView| spec_player_from_ingame(p)),
        decreases pv.len() - i,
    {
        let p = &players[i];
        proof {
            assert(p@ == pv[i as int]);
            assert(pv.subrange(0, i + 1) =~= pv.subrange(0, i as int).push(pv[i as int]));
            crate::seqs::lemma_filter_push(pv.subrange(0, i as int), pv[i as int], |p: IngamePlayerView| !p.is_coach);
        }
        if !p.is_coach {
            let out = Player {
                puuid: p.puuid.clone(),
                name: String::new(),
                team: p.team.clone(),
                character: Character::Locked(p.character_id.clone()),
                card: p.player_identity.card_id.clone(),
                title: p.player_identity.title_id.clone(),
                account_level: p.player_identity.account_level,
                border: p.player_identity.border_id.clone(),
                incognito: p.player_identity.incognito,
                hide_account_level: p.player_identity.hide_account_level,
                competitive_history: Vec::new(),
                party_id: String::new(),
            };
            proof {
                assert(out.competitive_history.deep_view() =~= Seq::<SeasonalInfoView>::empty());
                assert(out@ == spec_player_from_ingame(pv[i as int]));
                crate::seqs::lemma_map_values_push(
                    pv.subrange(0, i as int).filter(|p: IngamePlayerView| !p.is_coach),
                    pv[i as int],
                    |p: IngamePlayerView| spec_player_from_ingame(p),
                );
            }
            let ghost outv = out@;
            let ghost before = r.deep_view();
            r.push(out);
            proof {
                assert(r.deep_view() =~= before.push(outv));
                assert(pv.subrange(0, i + 1).filter(|p: IngamePlayerView| !p.is_coach)
                    == pv.subrange(0, i as int).filter(|p: IngamePlayerView| !p.is_coach).push(
                    pv[i as int],
                ));
                assert(r.deep_view() =~= pv.subrange(0, i + 1).filter(
                    |p: IngamePlayerView| !p.is_coach,
                ).map_values(|p: IngamePlayerView| spec_player_from_ingame(p)));
            }
        }
        i += 1;
    }
    proof {
        assert(pv.subrange(0, i as int) =~= pv);
    }
    r
}

fn normalize_pregame_players(teams: &Vec<PregameTeam>) -> (r: Vec<Player>)
    ensures
        r.deep_view() == spec_pregame_players(teams.deep_view()),
{
    let ghost tv = teams.deep_view();
    let mut r: Vec<Player> = Vec::new();
    let mut i: usize = 0;
    proof {
        assert(r.deep_view() =~= spec_pregame_players(tv.subrange(0, 0)));
    }
    while i < teams.len()
        invariant
            tv == teams.deep_view(),
            0 <= i <= tv.len(),
            tv.len() == teams@.len(),
            r.deep_view() == spec_pregame_players(tv.subrange(0, i as int)),
        decreases tv.len() - i,
    {
        let team = &teams[i];
        proof {
            assert(team@ == tv[i as int]);
        }
        let ghost wv = tv[i as int].players;
        let ghost base = r.deep_view();
        let m = team.players.len();
        let mut j: usize = 0;
        proof {
            reveal(Seq::filter);
            assert(base + wv.subrange(0, 0).filter(|p: PregamePlayerView| !p.is_captain).map_values((|p: PregamePlayerView| spec_player_from_pregame(tv[i as int].team_id, p))) =~= base);
        }
        while j < m
            invariant
                tv == teams.deep_view(),
                0 <= i < tv.len(),
                tv.len() == teams@.len(),
                team == &teams@[i as int],
                0 <= j <= m,
                m == wv.len(),
                wv == tv[i as int].players,
                r.deep_view() == base + wv.subrange(0, j as int).filter(|p: PregamePlayerView| !p.is_captain).map_values((|p: PregamePlayerView| spec_player_from_pregame(tv[i as int].team_id, p))),
            decreases m - j,
        {
            let p = &team.players[j];
            proof {
                assert(p@ == wv[j as int]);
                assert(wv.subrange(0, j + 1) =~= wv.subrange(0, j as int).push(wv[j as int]));
                crate::seqs::lemma_filter_push(wv.subrange(0, j as int), wv[j as int], (|p: PregamePlayerView| !p.is_captain));
            }
            if !p.is_captain {
                let out = Player {
                    puuid: p.puuid.clone(),
                    name: String::new(),
                    team: team.team_id.clone(),
                    character: get_character(
                        p.character_selection_state,
                        p.character_id.clone(),
                    ),
                    card: p.player_identity.card_id.clone(),
                    title: p.player_identity.title_id.clone(),
                    account_level: p.player_identity.account_level,
                    border: p.player_identity.border_id.clone(),
                    incognito: p.player_identity.incognito,
                    hide_account_level: p.player_identity.hide_account_level,
                    competitive_history: Vec::new(),
                    party_id: String::new(),
                };
                proof {
                    assert(out.competitive_history.deep_view() =~= Seq::<
                        SeasonalInfoView,
                    >::empty());
                    assert(out@ == spec_player_from_pregame(tv[i as int].team_id, wv[j as int]));
                    crate::seqs::lemma_map_values_push(
                        wv.subrange(0, j as int).filter(|p: PregamePlayerView| !p.is_captain),
                        wv[j as int],
                        (|p: PregamePlayerView| spec_player_from_pregame(tv[i as int].team_id, p)),
                    );
                }
                let ghost outv = out@;
                let ghost before = r.deep_view();
                r.push(out);
                proof {
                    assert(r.deep_view() =~= before.push(outv));
                    assert(wv.subrange(0, j + 1).filter(|p: PregamePlayerView| !p.is_captain) == wv.subrange(
                        0,
                        j as int,
                    ).filter(|p: PregamePlayerView| !p.is_captain).push(wv[j as int]));
                    assert(r.deep_view() =~= base + wv.subrange(0, j + 1).filter(|p: PregamePlayerView| !p.is_captain).map_values(
                        (|p: PregamePlayerView| spec_player_from_pregame(tv[i as int].team_id, p)),
                    ));
                }
            }
            j += 1;
        }
        proof {
            assert(wv.subrange(0, j as int) =~= wv);
            assert(base + wv.filter(|p: PregamePlayerView| !p.is_captain).map_values((|p: PregamePlayerView| spec_player_from_pregame(tv[i as int].team_id, p))) =~= base + spec_team_players(
                tv[i as int],
            ));
            assert(tv.subrange(0, i + 1).drop_last() =~= tv.subrange(0, i as int));
            assert(tv.subrange(0, i + 1).last() == tv[i as int]);
            assert(r.deep_view() =~= spec_pregame_players(tv.subrange(0, i + 1)));
        }
        i += 1;
    }
    proof {
        assert(tv.subrange(0, i as int) =~= tv);
    }
    r
}

/// Collapse either raw payload into the common match shape.
pub fn normalize(raw: RawMatch) -> (r: MatchData)
    ensures
        r@ == spec_normalize(raw@),
{
    match raw {
        RawMatch::Ingame(m) => {
            let ghost mv = m@;
            let players = normalize_ingame_players(&m.players);
            let r = MatchData { ingame: true, map: m.map_id, mode: m.mode_id, players };
            proof {
                assert(r@ == spec_normalize(RawMatchView::Ingame(mv)));
            }
            r
        },
        RawMatch::Pregame(m) => {
            let ghost mv = m@;
            let players = normalize_pregame_players(&m.teams);
            let r = MatchData { ingame: false, map: m.map_id, mode: m.mode, players };
            proof {
                assert(r@ == spec_normalize(RawMatchView::Pregame(mv)));
            }
            r
        },
    }
}

impl Clone for Player {
    fn clone(&self) -> (r: Self)
        ensures
            r@ == self@,
    {
        let ch = self.competitive_history.clone();
        proof {
            assert(ch.deep_view() =~= self.competitive_history.deep_view());
        }
        Player {
            puuid: self.puuid.clone(),
            name: self.name.clone(),
            team: self.team.clone(),
            character: self.character.clone(),
            card: self.card.clone(),
            title: self.title.clone(),
            account_level: self.account_level,
            border: self.border.clone(),
            incognito: self.incognito,
            hide_account_level: self.hide_account_level,
            competitive_history: ch,
            party_id: self.party_id.clone(),
        }
    }
}

/// A participant with the party id its presence record carries; one
/// without a presence record keeps its default party id.
pub open spec fn spec_with_presence(
    p: PlayerView,
    presences: Seq<presence::PlayerView>,
) -> PlayerView {
    match presence::spec_find_player(presences, p.puuid) {
        Some(pr) => PlayerView { party_id: pr.private.party_id, ..p },
        None => p,
    }
}

pub open spec fn spec_apply_party(
    players: Seq<PlayerView>,
    presences: Seq<presence::PlayerView>,
) -> Seq<PlayerView> {
    players.map_values(|p: PlayerView| spec_with_presence(p, presences))
}

/// Copy each participant's party id out of the local presences; a
/// missing presence record is not a fault and leaves the default.
pub fn apply_party_ids(md: MatchData, presences: &Vec<presence::Player>) -> (r: MatchData)
    ensures
        r@ == (MatchDataView {
            players: spec_apply_party(md@.players, presences.deep_view()),
            ..md@
        }),
{
    let ghost pv = md.players.deep_view();
    let ghost prv = presences.deep_view();
    let mut out: Vec<Player> = Vec::new();
    let mut i: usize = 0;
    proof {
        assert(out.deep_view() =~= pv.subrange(0, 0).map_values(
            |p: PlayerView| spec_with_presence(p, prv),
        ));
    }
    while i < md.players.len()
        invariant
            pv == md.players.deep_view(),
            prv == presences.deep_view(),
            0 <= i <= pv.len(),
            pv.len() == md.players@.len(),
            out.deep_view() == pv.subrange(0, i as int).map_values(
                |p: PlayerView| spec_with_presence(p, prv),
            ),
        decreases pv.len() - i,
    {
        let p = &md.players[i];
        proof {
            assert(p@ == pv[i as int]);
            assert(pv.subrange(0, i + 1) =~= pv.subrange(0, i as int).push(pv[i as int]));
            crate::seqs::lemma_map_values_push(
                pv.subrange(0, i as int),
                pv[i as int],
                |p: PlayerView| spec_with_presence(p, prv),
            );
        }
        let mut q = p.clone();
        match presence::find_player(presences, p.puuid.as_str()) {
            Some(pr) => {
                q.party_id = pr.private.party_id;
            },
            None => {
            },
        }
        proof {
            assert(q@ == spec_with_presence(pv[i as int], prv));
        }
        let ghost qv = q@;
        let ghost before = out.deep_view();
        out.push(q);
        proof {
            assert(out.deep_view() =~= before.push(qv));
            assert(out.deep_view() =~= pv.subrange(0, i + 1).map_values(
                |p: PlayerView| spec_with_presence(p, prv),
            ));
        }
        i += 1;
    }
    proof {
        assert(pv.subrange(0, i as int) =~= pv);
    }
    MatchData { ingame: md.ingame, map: md.map, mode: md.mode, players: out }
}

/// A participant renamed by the deciding name record for its id; one
/// without a record keeps its current name.
pub open spec fn spec_named(
    p: PlayerView,
    entries: Seq<crate::names::NameEntryView>,
) -> PlayerView {
    match crate::names::spec_find_name(entries, p.puuid) {
        Some(e) => PlayerView { name: crate::names::spec_full_name(e), ..p },
        None => p,
    }
}

pub open spec fn spec_apply_names(
    players: Seq<PlayerView>,
    entries: Seq<crate::names::NameEntryView>,
) -> Seq<PlayerView> {
    players.map_values(|p: PlayerView| spec_named(p, entries))
}

/// Fan the name-service records back into the participants by id.
pub fn apply_names(md: MatchData, entries: &Vec<crate::names::NameEntry>) -> (r: MatchData)
    ensures
        r@ == (MatchDataView {
            players: spec_apply_names(md@.players, entries.deep_view()),
            ..md@
        }),
{
    let ghost pv = md.players.deep_view();
    let ghost ev = entries.deep_view();
    let mut out: Vec<Player> = Vec::new();
    let mut i: usize = 0;
    proof {
        assert(out.deep_view() =~= pv.subrange(0, 0).map_values(
            |p: PlayerView| spec_named(p, ev),
        ));
    }
    while i < md.players.len()
        invariant
            pv == md.players.deep_view(),
            ev == entries.deep_view(),
            0 <= i <= pv.len(),
            pv.len() == md.players@.len(),
            out.deep_view() == pv.subrange(0, i as int).map_values(
                |p: PlayerView| spec_named(p, ev),
            ),
        decreases pv.len() - i,
    {
        let p = &md.players[i];
        proof {
            assert(p@ == pv[i as int]);
            assert(pv.subrange(0, i + 1) =~= pv.subrange(0, i as int).push(pv[i as int]));
            crate::seqs::lemma_map_values_push(
                pv.subrange(0, i as int),
                pv[i as int],
                |p: PlayerView| spec_named(p, ev),
            );
        }
        let mut q = p.clone();
        match crate::names::find_name(entries, p.puuid.as_str()) {
            Some(e) => {
                q.set_name(crate::names::full_name(&e));
            },
            None => {
            },
        }
        proof {
            assert(q@ == spec_named(pv[i as int], ev));
        }
        let ghost qv = q@;
        let ghost before = out.deep_view();
        out.push(q);
        proof {
            assert(out.deep_view() =~= before.push(qv));
            assert(out.deep_view() =~= pv.subrange(0, i + 1).map_values(
                |p: PlayerView| spec_named(p, ev),
            ));
        }
        i += 1;
    }
    proof {
        assert(pv.subrange(0, i as int) =~= pv);
    }
    MatchData { ingame: md.ingame, map: md.map, mode: md.mode, players: out }
}

/// The first fresh record for a participant id, if any.
pub open spec fn spec_find_match_player(
    players: Seq<PlayerView>,
    puuid: Seq<char>,
) -> Option<PlayerView>
    decreases players.len(),
{
    if players.len() == 0 {
        None
    } else if players[0].puuid == puuid {
        Some(players[0])
    } else {
        spec_find_match_player(players.drop_first(), puuid)
    }
}

/// Look a participant up by id in a normalised match.
pub fn find_match_player(players: &Vec<Player>, puuid: &str) -> (r: Option<Player>)
    ensures
        r.deep_view() == spec_find_match_player(players.deep_view(), puuid@),
{
    let ghost pv = players.deep_view();
    let mut i: usize = 0;
    proof {
        assert(pv.skip(0) =~= pv);
    }
    while i < players.len()
        invariant
            pv == players.deep_view(),
            0 <= i <= pv.len(),
            pv.len() == players@.len(),
            spec_find_match_player(pv, puuid@) == spec_find_match_player(
                pv.skip(i as int),
                puuid@,
            ),
        decreases pv.len() - i,
    {
        proof {
            assert(pv.skip(i as int)[0] == pv[i as int]);
        }
        let p = &players[i];
        if crate::text::str_eq(p.puuid.as_str(), puuid) {
            let found = p.clone();
            proof {
                assert(found@ == pv[i as int]);
            }
            return Some(found);
        }
        proof {
            assert(pv.skip(i as int).drop_first() =~= pv.skip(i + 1));
        }
        i += 1;
    }
    proof {
        assert(pv.skip(i as int).len() == 0);
    }
    None
}

/// A participant with its rank history filled in: the act-window
/// projection of its raw entries, or empty when the per-player fetch
/// failed or found no competitive queue.
pub open spec fn spec_with_history(
    p: PlayerView,
    h: Option<Seq<crate::mmr::SeasonEntryView>>,
    acts: Seq<crate::seasons::SeasonView>,
) -> PlayerView {
    PlayerView {
        competitive_history: match h {
            Some(entries) => crate::mmr::spec_history(entries, acts),
            None => Seq::empty(),
        },
        ..p
    }
}

/// Fill every participant's rank history from the per-player outcomes,
/// aligned by position; a failed fetch degrades to an empty history.
pub fn apply_histories(
    md: MatchData,
    mmr: &Vec<Option<Vec<crate::mmr::SeasonEntry>>>,
    acts: &Vec<crate::seasons::Season>,
) -> (r: MatchData)
    requires
        mmr@.len() == md.players@.len(),
    ensures
        r@.ingame == md@.ingame,
        r@.map == md@.map,
        r@.mode == md@.mode,
        r@.players.len() == md@.players.len(),
        forall|t: int|
            0 <= t < md@.players.len() ==> #[trigger] r@.players[t] == spec_with_history(
                md@.players[t],
                mmr.deep_view()[t],
                acts.deep_view(),
            ),
{
    let ghost pv = md.players.deep_view();
    let ghost hv = mmr.deep_view();
    let ghost av = acts.deep_view();
    let mut out: Vec<Player> = Vec::new();
    let mut i: usize = 0;
    while i < md.players.len()
        invariant
            pv == md.players.deep_view(),
            hv == mmr.deep_view(),
            av == acts.deep_view(),
            0 <= i <= pv.len(),
            pv.len() == md.players@.len(),
            hv.len() == pv.len(),
            out.deep_view().len() == i,
            forall|t: int|
                0 <= t < i ==> #[trigger] out.deep_view()[t] == spec_with_history(
                    pv[t],
                    hv[t],
                    av,
                ),
        decreases pv.len() - i,
    {
        let p = &md.players[i];
        proof {
            assert(p@ == pv[i as int]);
        }
        let mut q = p.clone();
        let history = match &mmr[i] {
            Some(entries) => crate::mmr::filter_history(entries, acts),
            None => Vec::new(),
        };
        proof {
            assert(history.deep_view() == (match hv[i as int] {
                Some(entries) => crate::mmr::spec_history(entries, av),
                None => Seq::<crate::mmr::SeasonalInfoView>::empty(),
            }));
        }
        q.competitive_history = history;
        proof {
            assert(q@ == spec_with_history(pv[i as int], hv[i as int], av));
        }
        let ghost qv = q@;
        let ghost before = out.deep_view();
        out.push(q);
        proof {
            assert(out.deep_view() =~= before.push(qv));
        }
        i += 1;
    }
    MatchData { ingame: md.ingame, map: md.map, mode: md.mode, players: out }
}

} // verus!
