//! Locally observed player presences.
//!
//! The local chat endpoint reports one entry per logged-in player; only
//! entries for this game that carry a private blob count.  The blob is
//! base64-encoded JSON and yields party grouping, account level, map and
//! queue data.  Decoding the base64 and checking the UTF-8 happens here;
//! turning the decoded JSON text into field values is the transport
//! layer's job.

use crate::text;
use vstd::prelude::*;
use vstd::string::*;
use vstd::utf8::{decode_utf8, valid_utf8};

verus! {

/// One raw presence entry as the chat endpoint reports it.
#[derive(Debug, PartialEq)]
pub struct RawPresence {
    pub puuid: String,
    pub game_name: String,
    pub game_tag: String,
    pub product: String,
    pub private: Option<String>,
}

/// Mathematical view of a raw presence entry.
pub ghost struct RawPresenceView {
    pub puuid: Seq<char>,
    pub game_name: Seq<char>,
    pub game_tag: Seq<char>,
    pub product: Seq<char>,
    pub private: Option<Seq<char>>,
}

impl View for RawPresence {
    type V = RawPresenceView;

    open spec fn view(&self) -> RawPresenceView {
        RawPresenceView {
            puuid: self.puuid@,
            game_name: self.game_name@,
            game_tag: self.game_tag@,
            product: self.product@,
            private: match self.private {
                Some(s) => Some(s@),
                None => None,
            },
        }
    }
}

impl DeepView for RawPresence {
    type V = RawPresenceView;

    open spec fn deep_view(&self) -> RawPresenceView {
        self.view()
    }
}

/// A presence entry that passed the filter, with its private blob
/// decoded to JSON text.
#[derive(Debug, PartialEq)]
pub struct DecodedPresence {
    pub puuid: String,
    pub game_name: String,
    pub game_tag: String,
    pub private_json: String,
}

/// Mathematical view of a decoded presence entry.
pub ghost struct DecodedPresenceView {
    pub puuid: Seq<char>,
    pub game_name: Seq<char>,
    pub game_tag: Seq<char>,
    pub private_json: Seq<char>,
}

impl View for DecodedPresence {
    type V = DecodedPresenceView;

    open spec fn view(&self) -> DecodedPresenceView {
        DecodedPresenceView {
            puuid: self.puuid@,
            game_name: self.game_name@,
            game_tag: self.game_tag@,
            private_json: self.private_json@,
        }
    }
}

impl DeepView for DecodedPresence {
    type V = DecodedPresenceView;

    open spec fn deep_view(&self) -> DecodedPresenceView {
        self.view()
    }
}

/// What the standard-alphabet base64 decoding of a string yields; the
/// result depends on the input characters alone.
pub uninterp spec fn b64_decode_of(s: Seq<char>) -> Option<Seq<u8>>;

/// Relies on base64's `Engine::decode` with the standard engine: a pure
/// decoding of the input characters, `None` exactly on its `DecodeError`.
#[verifier::external_body]
fn b64_decode(s: &str) -> (r: Option<Vec<u8>>)
    ensures
        r matches Some(v) ==> b64_decode_of(s@) == Some(v@),
        r is None ==> b64_decode_of(s@) is None,
{
    base64::Engine::decode(&base64::engine::general_purpose::STANDARD, s).ok()
}

/// Relies on `String::from_utf8`: the UTF-8 decoding of the bytes,
/// succeeding exactly on valid UTF-8.
#[verifier::external_body]
fn utf8_to_string(bytes: Vec<u8>) -> (r: Option<String>)
    ensures
        r matches Some(s) ==> valid_utf8(bytes@) && s@ == decode_utf8(bytes@),
        r is None ==> !valid_utf8(bytes@),
{
    String::from_utf8(bytes).ok()
}

/// The decoded presence a raw entry yields: entries must belong to this
/// game, carry a private blob, and that blob must decode to UTF-8 text.
pub open spec fn spec_decode_one(p: RawPresenceView) -> Option<DecodedPresenceView> {
    if p.product == "valorant"@ {
        match p.private {
            Some(blob) => match b64_decode_of(blob) {
                Some(bytes) => if valid_utf8(bytes) {
                    Some(
                        DecodedPresenceView {
                            puuid: p.puuid,
                            game_name: p.game_name,
                            game_tag: p.game_tag,
                            private_json: decode_utf8(bytes),
                        },
                    )
                } else {
                    None
                },
                None => None,
            },
            None => None,
        }
    } else {
        None
    }
}

/// The decoded entries of a raw presence list, in their arrival order.
pub open spec fn spec_decoded(raw: Seq<RawPresenceView>) -> Seq<DecodedPresenceView>
    decreases raw.len(),
{
    if raw.len() == 0 {
        Seq::empty()
    } else {
        let prefix = spec_decoded(raw.drop_last());
        match spec_decode_one(raw.last()) {
            Some(d) => prefix.push(d),
            None => prefix,
        }
    }
}

/// Filter a raw presence list down to this game's entries and decode
/// their private blobs; an entry that fails to decode is dropped.
pub fn decode_presences(raw: &Vec<RawPresence>) -> (r: Vec<DecodedPresence>)
    ensures
        r.deep_view() == spec_decoded(raw.deep_view()),
{
    let ghost rv = raw.deep_view();
    let mut r: Vec<DecodedPresence> = Vec::new();
    let mut i: usize = 0;
    proof {
        assert(r.deep_view() =~= spec_decoded(rv.subrange(0, 0)));
    }
    while i < raw.len()
        invariant
            rv == raw.deep_view(),
            0 <= i <= rv.len(),
            rv.len() == raw@.len(),
            r.deep_view() == spec_decoded(rv.subrange(0, i as int)),
        decreases rv.len() - i,
    {
        let p = &raw[i];
        proof {
            assert(rv.subrange(0, i + 1).drop_last() =~= rv.subrange(0, i as int));
            assert(rv.subrange(0, i + 1).last() == rv[i as int]);
            assert(p@ == rv[i as int]);
        }
        let ghost before = r.deep_view();
        if text::str_eq(p.product.as_str(), "valorant") {
            match &p.private {
                Some(blob) => {
                    match b64_decode(blob.as_str()) {
                        Some(bytes) => {
                            let ghost bytes_v = bytes@;
                            match utf8_to_string(bytes) {
                                Some(json) => {
                                    let d = DecodedPresence {
                                        puuid: p.puuid.clone(),
                                        game_name: p.game_name.clone(),
                                        game_tag: p.game_tag.clone(),
                                        private_json: json,
                                    };
                                    proof {
                                        assert(spec_decode_one(rv[i as int]) == Some(d@));
                                    }
                                    r.push(d);
                                    proof {
                                        assert(r.deep_view() =~= before.push(
                                            spec_decoded(rv.subrange(0, i + 1)).last(),
                                        ));
                                    }
                                },
                                None => {
                                    proof {
                                        assert(spec_decode_one(rv[i as int]) is None);
                                    }
                                },
                            }
                        },
                        None => {
                            proof {
                                assert(spec_decode_one(rv[i as int]) is None);
                            }
                        },
                    }
                },
                None => {
                    proof {
                        assert(spec_decode_one(rv[i as int]) is None);
                    }
                },
            }
        } else {
            proof {
                assert(spec_decode_one(rv[i as int]) is None);
            }
        }
        i += 1;
    }
    proof {
        assert(rv.subrange(0, rv.len() as int) =~= rv);
    }
    r
}

/// The private payload of a presence, decoded from its JSON text by the
/// transport layer.
#[derive(Debug, PartialEq)]
pub struct Private {
    pub is_valid: bool,
    pub match_map: String,
    pub party_id: String,
    pub player_card_id: String,
    pub player_title_id: String,
    pub preferred_level_border_id: String,
    pub account_level: u32,
    pub competitive_tier: u32,
    pub queue_id: String,
}

/// Mathematical view of a private payload.
pub ghost struct PrivateView {
    pub is_valid: bool,
    pub match_map: Seq<char>,
    pub party_id: Seq<char>,
    pub player_card_id: Seq<char>,
    pub player_title_id: Seq<char>,
    pub preferred_level_border_id: Seq<char>,
    pub account_level: u32,
    pub competitive_tier: u32,
    pub queue_id: Seq<char>,
}

impl View for Private {
    type V = PrivateView;

    open spec fn view(&self) -> PrivateView {
        PrivateView {
            is_valid: self.is_valid,
            match_map: self.match_map@,
            party_id: self.party_id@,
            player_card_id: self.player_card_id@,
            player_title_id: self.player_title_id@,
            preferred_level_border_id: self.preferred_level_border_id@,
            account_level: self.account_level,
            competitive_tier: self.competitive_tier,
            queue_id: self.queue_id@,
        }
    }
}

impl DeepView for Private {
    type V = PrivateView;

    open spec fn deep_view(&self) -> PrivateView {
        self.view()
    }
}

impl Clone for Private {
    fn clone(&self) -> (r: Self)
        ensures
            r == *self,
    {
        Private {
            is_valid: self.is_valid,
            match_map: self.match_map.clone(),
            party_id: self.party_id.clone(),
            player_card_id: self.player_card_id.clone(),
            player_title_id: self.player_title_id.clone(),
            preferred_level_border_id: self.preferred_level_border_id.clone(),
            account_level: self.account_level,
            competitive_tier: self.competitive_tier,
            queue_id: self.queue_id.clone(),
        }
    }
}

/// A logged-in player as presence reports it, with the decoded private
/// payload.
#[derive(Debug, PartialEq)]
pub struct Player {
    pub puuid: String,
    pub game_name: String,
    pub game_tag: String,
    pub private: Private,
}

/// Mathematical view of a presence player.
pub ghost struct PlayerView {
    pub puuid: Seq<char>,
    pub game_name: Seq<char>,
    pub game_tag: Seq<char>,
    pub private: PrivateView,
}

impl View for Player {
    type V = PlayerView;

    open spec fn view(&self) -> PlayerView {
        PlayerView {
            puuid: self.puuid@,
            game_name: self.game_name@,
            game_tag: self.game_tag@,
            private: self.private@,
        }
    }
}

impl DeepView for Player {
    type V = PlayerView;

    open spec fn deep_view(&self) -> PlayerView {
        self.view()
    }
}

impl Clone for Player {
    fn clone(&self) -> (r: Self)
        ensures
            r == *self,
    {
        Player {
            puuid: self.puuid.clone(),
            game_name: self.game_name.clone(),
            game_tag: self.game_tag.clone(),
            private: self.private.clone(),
        }
    }
}

/// The first presence entry for a player id, if any.
pub open spec fn spec_find_player(players: Seq<PlayerView>, puuid: Seq<char>) -> Option<PlayerView>
    decreases players.len(),
{
    if players.len() == 0 {
        None
    } else if players[0].puuid == puuid {
        Some(players[0])
    } else {
        spec_find_player(players.drop_first(), puuid)
    }
}

/// Look a presence up by player id.
pub fn find_player(players: &Vec<Player>, puuid: &str) -> (r: Option<Player>)
    ensures
        r.deep_view() == spec_find_player(players.deep_view(), puuid@),
{
    let ghost pv = players.deep_view();
    let mut i: usize = 0;
    proof {
        assert(pv.skip(0) =~= pv);
    }
    while i < players.len()
        invariant
            pv == players.deep_view(),
            0 <= i <= pv.len(),
            pv.len() == players@.len(),
            spec_find_player(pv, puuid@) == spec_find_player(pv.skip(i as int), puuid@),
        decreases pv.len() - i,
    {
        proof {
            assert(pv.skip(i as int)[0] == pv[i as int]);
        }
        let p = &players[i];
        if text::str_eq(p.puuid.as_str(), puuid) {
            let found = p.clone();
            proof {
                assert(found@ == pv[i as int]);
            }
            return Some(found);
        }
        proof {
            assert(pv.skip(i as int).drop_first() =~= pv.skip(i + 1));
        }
        i += 1;
    }
    proof {
        assert(pv.skip(i as int).len() == 0);
    }
    None
}

/// The maps the client can report, decoded from the asset path's last
/// segment.
#[derive(Clone, Copy, Debug, PartialEq, Eq, Structural)]
pub enum GameMap {
    Bind,
    Haven,
    Split,
    Ascent,
    Icebox,
    Breeze,
    Fracture,
    TheRange,
    Unknown,
}

/// The map denoted by an asset path.
pub open spec fn spec_map_code(s: Seq<char>) -> GameMap {
    let seg = text::spec_last_segment(s, '/');
    if seg == "Bind"@ {
        GameMap::Bind
    } else if seg == "Haven"@ {
        GameMap::Haven
    } else if seg == "Split"@ {
        GameMap::Split
    } else if seg == "Ascent"@ {
        GameMap::Ascent
    } else if seg == "Icebox"@ {
        GameMap::Icebox
    } else if seg == "Breeze"@ {
        GameMap::Breeze
    } else if seg == "Fracture"@ {
        GameMap::Fracture
    } else if seg == "Range"@ {
        GameMap::TheRange
    } else {
        GameMap::Unknown
    }
}

impl GameMap {
    /// Decode a map from its asset path.
    pub fn from(value: &str) -> (r: GameMap)
        ensures
            r == spec_map_code(value@),
    {
        let seg = text::last_segment(value, '/');
        let s = seg.as_str();
        if text::str_eq(s, "Bind") {
            GameMap::Bind
        } else if text::str_eq(s, "Haven") {
            GameMap::Haven
        } else if text::str_eq(s, "Split") {
            GameMap::Split
        } else if text::str_eq(s, "Ascent") {
            GameMap::Ascent
        } else if text::str_eq(s, "Icebox") {
            GameMap::Icebox
        } else if text::str_eq(s, "Breeze") {
            GameMap::Breeze
        } else if text::str_eq(s, "Fracture") {
            GameMap::Fracture
        } else if text::str_eq(s, "Range") {
            GameMap::TheRange
        } else {
            GameMap::Unknown
        }
    }
}

/// What heck's title-casing of a string yields; the result depends on
/// the input characters alone.
pub uninterp spec fn title_case_of(s: Seq<char>) -> Seq<char>;

/// Relies on heck's `to_title_case`: a pure function of the characters.
#[verifier::external_body]
fn to_title_case(s: &str) -> (r: String)
    ensures
        r@ == title_case_of(s@),
{
    heck::ToTitleCase::to_title_case(s)
}

/// The map and displayed game-mode name a presence denotes.
#[derive(Debug, PartialEq)]
pub struct MatchInfo {
    pub gamemode: String,
    pub map: GameMap,
}

/// Mathematical view of the presence match info.
pub ghost struct MatchInfoView {
    pub gamemode: Seq<char>,
    pub map: GameMap,
}

impl View for MatchInfo {
    type V = MatchInfoView;

    open spec fn view(&self) -> MatchInfoView {
        MatchInfoView { gamemode: self.gamemode@, map: self.map }
    }
}

impl DeepView for MatchInfo {
    type V = MatchInfoView;

    open spec fn deep_view(&self) -> MatchInfoView {
        self.view()
    }
}

/// The displayed mode name: the range and a few queues have fixed
/// names, anything else is the title-cased queue id.
pub open spec fn spec_gamemode_name(p: PlayerView) -> Seq<char> {
    if spec_map_code(p.private.match_map) is TheRange {
        "The Range"@
    } else if p.private.queue_id == "competitive"@ {
        "Competitive"@
    } else if p.private.queue_id == "unrated"@ {
        "Unrated"@
    } else if p.private.queue_id == "newmap"@ {
        "New Map"@
    } else {
        title_case_of(p.private.queue_id)
    }
}

pub open spec fn spec_match_info(p: PlayerView) -> MatchInfoView {
    MatchInfoView { gamemode: spec_gamemode_name(p), map: spec_map_code(p.private.match_map) }
}

impl MatchInfo {
    /// The match info a presence denotes.
    pub fn from(player: &Player) -> (r: MatchInfo)
        ensures
            r@ == spec_match_info(player@),
    {
        let map = GameMap::from(player.private.match_map.as_str());
        let q = player.private.queue_id.as_str();
        let gamemode = if map == GameMap::TheRange {
            String::from_str("The Range")
        } else if text::str_eq(q, "competitive") {
            String::from_str("Competitive")
        } else if text::str_eq(q, "unrated") {
            String::from_str("Unrated")
        } else if text::str_eq(q, "newmap") {
            String::from_str("New Map")
        } else {
            to_title_case(q)
        };
        MatchInfo { gamemode, map }
    }
}

/// The match info for one player id out of the presence list, when that
/// player has a presence entry.
pub fn get_match_info(puuid: &str, players: &Vec<Player>) -> (r: Option<MatchInfo>)
    ensures
        match spec_find_player(players.deep_view(), puuid@) {
            Some(p) => r matches Some(mi) && mi@ == spec_match_info(p),
            None => r is None,
        },
{
    match find_player(players, puuid) {
        Some(p) => Some(MatchInfo::from(&p)),
        None => None,
    }
}

} // verus!
