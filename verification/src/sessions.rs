//! The active play session: region, shard and player id, derived from
//! the local client's launch arguments.
//!
//! The external-sessions endpoint reports one entry per running product;
//! the one whose product id is `valorant` carries launch arguments of the
//! form `-ares-deployment=<deployment>` and `-subject=<puuid>`, from
//! which the session configuration is read.

use crate::text;
use vstd::prelude::*;
use vstd::string::*;

verus! {

/// The regions the deployment argument can name.
#[derive(Clone, Copy, Debug, PartialEq, Eq, Structural)]
pub enum Region {
    Na,
    Latam,
    Br,
    Eu,
    Ap,
    Kr,
}

/// The region a deployment code denotes; anything unknown falls back to
/// NA, as the client itself does.
pub open spec fn spec_region_code(s: Seq<char>) -> Region {
    if s == "latam"@ {
        Region::Latam
    } else if s == "br"@ {
        Region::Br
    } else if s == "eu"@ {
        Region::Eu
    } else if s == "ap"@ {
        Region::Ap
    } else if s == "kr"@ {
        Region::Kr
    } else {
        Region::Na
    }
}

pub open spec fn spec_region_label(r: Region) -> Seq<char> {
    match r {
        Region::Na => "na"@,
        Region::Latam => "latam"@,
        Region::Br => "br"@,
        Region::Eu => "eu"@,
        Region::Ap => "ap"@,
        Region::Kr => "kr"@,
    }
}

impl Region {
    /// Decode a deployment code.
    pub fn from(value: &str) -> (r: Region)
        ensures
            r == spec_region_code(value@),
    {
        if text::str_eq(value, "latam") {
            Region::Latam
        } else if text::str_eq(value, "br") {
            Region::Br
        } else if text::str_eq(value, "eu") {
            Region::Eu
        } else if text::str_eq(value, "ap") {
            Region::Ap
        } else if text::str_eq(value, "kr") {
            Region::Kr
        } else {
            Region::Na
        }
    }

    /// The code used in endpoint host names.
    pub fn to_string(&self) -> (r: String)
        ensures
            r@ == spec_region_label(*self),
    {
        match self {
            Region::Na => String::from_str("na"),
            Region::Latam => String::from_str("latam"),
            Region::Br => String::from_str("br"),
            Region::Eu => String::from_str("eu"),
            Region::Ap => String::from_str("ap"),
            Region::Kr => String::from_str("kr"),
        }
    }
}

/// The shards the deployment argument can name.
#[derive(Clone, Copy, Debug, PartialEq, Eq, Structural)]
pub enum Shard {
    Na,
    Pbe,
    Eu,
    Ap,
    Kr,
}

/// The shard a deployment code denotes; anything unknown falls back to
/// NA.
pub open spec fn spec_shard_code(s: Seq<char>) -> Shard {
    if s == "pbe"@ {
        Shard::Pbe
    } else if s == "eu"@ {
        Shard::Eu
    } else if s == "ap"@ {
        Shard::Ap
    } else if s == "kr"@ {
        Shard::Kr
    } else {
        Shard::Na
    }
}

pub open spec fn spec_shard_label(s: Shard) -> Seq<char> {
    match s {
        Shard::Na => "na"@,
        Shard::Pbe => "pbe"@,
        Shard::Eu => "eu"@,
        Shard::Ap => "ap"@,
        Shard::Kr => "kr"@,
    }
}

impl Shard {
    /// Decode a deployment code.
    pub fn from(value: &str) -> (r: Shard)
        ensures
            r == spec_shard_code(value@),
    {
        if text::str_eq(value, "pbe") {
            Shard::Pbe
        } else if text::str_eq(value, "eu") {
            Shard::Eu
        } else if text::str_eq(value, "ap") {
            Shard::Ap
        } else if text::str_eq(value, "kr") {
            Shard::Kr
        } else {
            Shard::Na
        }
    }

    /// The code used in endpoint host names.
    pub fn to_string(&self) -> (r: String)
        ensures
            r@ == spec_shard_label(*self),
    {
        match self {
            Shard::Na => String::from_str("na"),
            Shard::Pbe => String::from_str("pbe"),
            Shard::Eu => String::from_str("eu"),
            Shard::Ap => String::from_str("ap"),
            Shard::Kr => String::from_str("kr"),
        }
    }
}

/// A launch-argument separator: values end at `=` or `&`.
pub open spec fn spec_is_argsep(c: char) -> bool {
    c == '=' || c == '&'
}

/// The index of the first separator, or the length when none occurs.
pub open spec fn spec_first_argsep(s: Seq<char>) -> int
    decreases s.len(),
{
    if s.len() == 0 {
        0
    } else if spec_is_argsep(s[0]) {
        0
    } else {
        1 + spec_first_argsep(s.drop_first())
    }
}

proof fn lemma_first_argsep_is(s: Seq<char>, k: int)
    requires
        0 <= k <= s.len(),
        forall|j: int| 0 <= j < k ==> !spec_is_argsep(s[j]),
        k < s.len() ==> spec_is_argsep(s[k]),
    ensures
        spec_first_argsep(s) == k,
    decreases s.len(),
{
    if s.len() > 0 && k > 0 {
        lemma_first_argsep_is(s.drop_first(), k - 1);
    }
}

/// The value of an argument: what stands between the first separator
/// and the one after it (or the end); nothing when the argument has no
/// separator at all.
pub open spec fn spec_second_field(s: Seq<char>) -> Option<Seq<char>> {
    let k = spec_first_argsep(s);
    if k == s.len() {
        None
    } else {
        let rest = s.subrange(k + 1, s.len() as int);
        Some(rest.subrange(0, spec_first_argsep(rest)))
    }
}

/// The first argument carrying the given prefix, if any.
pub open spec fn spec_find_arg(args: Seq<Seq<char>>, prefix: Seq<char>) -> Option<Seq<char>>
    decreases args.len(),
{
    if args.len() == 0 {
        None
    } else if text::spec_starts_with(args[0], prefix) {
        Some(args[0])
    } else {
        spec_find_arg(args.drop_first(), prefix)
    }
}

/// What reading a launch argument yields: the value of the first
/// argument with the prefix.
pub open spec fn spec_get_arg(args: Seq<Seq<char>>, prefix: Seq<char>) -> Option<Seq<char>> {
    match spec_find_arg(args, prefix) {
        Some(a) => spec_second_field(a),
        None => None,
    }
}

fn second_field(s: &str) -> (r: Option<String>)
    ensures
        r.deep_view() == spec_second_field(s@),
{
    let n = s.unicode_len();
    let mut k: usize = 0;
    while k < n && !(s.get_char(k) == '=' || s.get_char(k) == '&')
        invariant
            n == s@.len(),
            0 <= k <= n,
            forall|j: int| 0 <= j < k ==> !spec_is_argsep(s@[j]),
        decreases n - k,
    {
        k += 1;
    }
    proof {
        lemma_first_argsep_is(s@, k as int);
    }
    if k == n {
        return None;
    }
    let ghost rest = s@.subrange(k + 1, n as int);
    let mut e: usize = k + 1;
    while e < n && !(s.get_char(e) == '=' || s.get_char(e) == '&')
        invariant
            n == s@.len(),
            k < n,
            rest == s@.subrange(k + 1, n as int),
            k + 1 <= e <= n,
            forall|j: int| k + 1 <= j < e ==> !spec_is_argsep(s@[j]),
        decreases n - e,
    {
        e += 1;
    }
    proof {
        assert(forall|j: int| 0 <= j < e - k - 1 ==> rest[j] == s@[k + 1 + j]);
        assert(e < n ==> spec_is_argsep(rest[e - k - 1]));
        lemma_first_argsep_is(rest, e - k - 1);
        assert(rest.subrange(0, e - k - 1) =~= s@.subrange(k + 1, e as int));
    }
    Some(String::from_str(s.substring_char(k + 1, e)))
}

/// Read the value of the first launch argument with the given prefix.
pub fn get_arg(arguments: &Vec<String>, prefix: &str) -> (r: Option<String>)
    ensures
        r.deep_view() == spec_get_arg(arguments.deep_view(), prefix@),
{
    let ghost av = arguments.deep_view();
    let mut i: usize = 0;
    proof {
        assert(av.skip(0) =~= av);
    }
    while i < arguments.len()
        invariant
            av == arguments.deep_view(),
            0 <= i <= av.len(),
            av.len() == arguments@.len(),
            spec_find_arg(av, prefix@) == spec_find_arg(av.skip(i as int), prefix@),
        decreases av.len() - i,
    {
        proof {
            assert(av.skip(i as int)[0] == av[i as int]);
        }
        let a = &arguments[i];
        if text::starts_with(a.as_str(), prefix) {
            return second_field(a.as_str());
        }
        proof {
            assert(av.skip(i as int).drop_first() =~= av.skip(i + 1));
        }
        i += 1;
    }
    proof {
        assert(av.skip(i as int).len() == 0);
    }
    None
}

/// One entry of the external-sessions response.
#[derive(Debug, PartialEq)]
pub struct SessionEntry {
    pub product_id: String,
    pub arguments: Vec<String>,
}

/// Mathematical view of a sessions entry.
pub ghost struct SessionEntryView {
    pub product_id: Seq<char>,
    pub arguments: Seq<Seq<char>>,
}

impl View for SessionEntry {
    type V = SessionEntryView;

    open spec fn view(&self) -> SessionEntryView {
        SessionEntryView { product_id: self.product_id@, arguments: self.arguments.deep_view() }
    }
}

impl DeepView for SessionEntry {
    type V = SessionEntryView;

    open spec fn deep_view(&self) -> SessionEntryView {
        self.view()
    }
}

/// The play-session configuration.
#[derive(Debug, PartialEq)]
pub struct Config {
    pub puuid: String,
    pub region: Region,
    pub shard: Shard,
    pub version: String,
}

/// Mathematical view of the play-session configuration.
pub ghost struct ConfigView {
    pub puuid: Seq<char>,
    pub region: Region,
    pub shard: Shard,
    pub version: Seq<char>,
}

impl View for Config {
    type V = ConfigView;

    open spec fn view(&self) -> ConfigView {
        ConfigView {
            puuid: self.puuid@,
            region: self.region,
            shard: self.shard,
            version: self.version@,
        }
    }
}

impl DeepView for Config {
    type V = ConfigView;

    open spec fn deep_view(&self) -> ConfigView {
        self.view()
    }
}

impl Clone for Config {
    fn clone(&self) -> (r: Self)
        ensures
            r@ == self@,
    {
        Config {
            puuid: self.puuid.clone(),
            region: self.region,
            shard: self.shard,
            version: self.version.clone(),
        }
    }
}

/// The first sessions entry that belongs to this game.
pub open spec fn spec_find_session(entries: Seq<SessionEntryView>) -> Option<SessionEntryView>
    decreases entries.len(),
{
    if entries.len() == 0 {
        None
    } else if entries[0].product_id == "valorant"@ {
        Some(entries[0])
    } else {
        spec_find_session(entries.drop_first(), )
    }
}

/// The configuration the launch arguments denote: deployment decides
/// region and shard, the subject is the player id.  The client version
/// comes from the separate version lookup and stays empty when that
/// lookup failed.
pub open spec fn spec_session_config(
    entries: Seq<SessionEntryView>,
    version: Option<Seq<char>>,
) -> Option<ConfigView> {
    match spec_find_session(entries) {
        Some(e) => match spec_get_arg(e.arguments, "-ares-deployment="@) {
            Some(deployment) => match spec_get_arg(e.arguments, "-subject="@) {
                Some(puuid) => Some(
                    ConfigView {
                        puuid: puuid,
                        region: spec_region_code(deployment),
                        shard: spec_shard_code(deployment),
                        version: match version {
                            Some(v) => v,
                            None => Seq::empty(),
                        },
                    },
                ),
                None => None,
            },
            None => None,
        },
        None => None,
    }
}

/// Derive the session configuration from the sessions response and the
/// optional version lookup; `None` when no entry belongs to this game
/// or the expected arguments are missing.
pub fn load_config(entries: &Vec<SessionEntry>, version: Option<String>) -> (r: Option<Config>)
    ensures
        match spec_session_config(entries.deep_view(), version.deep_view()) {
            Some(c) => r matches Some(cc) && cc@ == c,
            None => r is None,
        },
{
    let ghost ev = entries.deep_view();
    let mut i: usize = 0;
    proof {
        assert(ev.skip(0) =~= ev);
    }
    while i < entries.len()
        invariant
            ev == entries.deep_view(),
            0 <= i <= ev.len(),
            ev.len() == entries@.len(),
            spec_find_session(ev) == spec_find_session(ev.skip(i as int)),
        decreases ev.len() - i,
    {
        proof {
            assert(ev.skip(i as int)[0] == ev[i as int]);
        }
        let e = &entries[i];
        if text::str_eq(e.product_id.as_str(), "valorant") {
            let deployment = match get_arg(&e.arguments, "-ares-deployment=") {
                Some(d) => d,
                None => {
                    return None;
                },
            };
            let puuid = match get_arg(&e.arguments, "-subject=") {
                Some(p) => p,
                None => {
                    return None;
                },
            };
            let region = Region::from(deployment.as_str());
            let shard = Shard::from(deployment.as_str());
            let version_value = match version {
                Some(v) => v,
                None => String::new(),
            };
            return Some(Config { puuid, region, shard, version: version_value });
        }
        proof {
            assert(ev.skip(i as int).drop_first() =~= ev.skip(i + 1));
        }
        i += 1;
    }
    proof {
        assert(ev.skip(i as int).len() == 0);
    }
    None
}

} // verus!
