//! Resolved player names.
//!
//! The name service answers one record per requested player id; a
//! participant's displayed name is `gameName #tagLine`.

use vstd::prelude::*;
use vstd::string::*;

verus! {

/// One record of the name-service response.
#[derive(Debug, PartialEq)]
pub struct NameEntry {
    pub subject: String,
    pub game_name: String,
    pub tag_line: String,
}

/// Mathematical view of a name record.
pub ghost struct NameEntryView {
    pub subject: Seq<char>,
    pub game_name: Seq<char>,
    pub tag_line: Seq<char>,
}

impl View for NameEntry {
    type V = NameEntryView;

    open spec fn view(&self) -> NameEntryView {
        NameEntryView {
            subject: self.subject@,
            game_name: self.game_name@,
            tag_line: self.tag_line@,
        }
    }
}

impl DeepView for NameEntry {
    type V = NameEntryView;

    open spec fn deep_view(&self) -> NameEntryView {
        self.view()
    }
}

impl Clone for NameEntry {
    fn clone(&self) -> (r: Self)
        ensures
            r == *self,
    {
        NameEntry {
            subject: self.subject.clone(),
            game_name: self.game_name.clone(),
            tag_line: self.tag_line.clone(),
        }
    }
}

/// The displayed form of a name record: `gameName #tagLine`.
pub open spec fn spec_full_name(e: NameEntryView) -> Seq<char> {
    e.game_name + " #"@ + e.tag_line
}

/// Format a record for display.
pub fn full_name(e: &NameEntry) -> (r: String)
    ensures
        r@ == spec_full_name(e@),
{
    let mut s = e.game_name.clone();
    s.append(" #");
    s.append(e.tag_line.as_str());
    s
}

/// The record that decides a player's name: the latest one for that id,
/// since a later record overwrites an earlier one.
pub open spec fn spec_find_name(
    entries: Seq<NameEntryView>,
    puuid: Seq<char>,
) -> Option<NameEntryView>
    decreases entries.len(),
{
    if entries.len() == 0 {
        None
    } else if entries.last().subject == puuid {
        Some(entries.last())
    } else {
        spec_find_name(entries.drop_last(), puuid)
    }
}

/// Look the deciding record for a player id up.
pub fn find_name(entries: &Vec<NameEntry>, puuid: &str) -> (r: Option<NameEntry>)
    ensures
        r.deep_view() == spec_find_name(entries.deep_view(), puuid@),
{
    let ghost ev = entries.deep_view();
    let mut i: usize = entries.len();
    proof {
        assert(ev.subrange(0, ev.len() as int) =~= ev);
    }
    while i > 0
        invariant
            ev == entries.deep_view(),
            0 <= i <= ev.len(),
            ev.len() == entries@.len(),
            spec_find_name(ev, puuid@) == spec_find_name(ev.subrange(0, i as int), puuid@),
        decreases i,
    {
        proof {
            assert(ev.subrange(0, i as int).last() == ev[i - 1]);
        }
        let e = &entries[i - 1];
        if crate::text::str_eq(e.subject.as_str(), puuid) {
            let found = e.clone();
            proof {
                assert(found@ == ev[i - 1]);
            }
            return Some(found);
        }
        proof {
            assert(ev.subrange(0, i as int).drop_last() =~= ev.subrange(0, i - 1));
        }
        i -= 1;
    }
    proof {
        assert(ev.subrange(0, 0).len() == 0);
    }
    None
}

} // verus!
