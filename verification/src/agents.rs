//! The agent catalog: a read-only lookup table from agent id to display
//! data, loaded once at startup and injected into the aggregator.

use crate::text;
use vstd::prelude::*;
use vstd::string::*;

verus! {

/// One entry of the agent catalog.
#[derive(Debug, PartialEq)]
pub struct Agent {
    pub uuid: String,
    pub display_name: String,
    pub display_icon: String,
}

/// Mathematical view of a catalog entry.
pub ghost struct AgentView {
    pub uuid: Seq<char>,
    pub display_name: Seq<char>,
    pub display_icon: Seq<char>,
}

impl View for Agent {
    type V = AgentView;

    open spec fn view(&self) -> AgentView {
        AgentView {
            uuid: self.uuid@,
            display_name: self.display_name@,
            display_icon: self.display_icon@,
        }
    }
}

impl DeepView for Agent {
    type V = AgentView;

    open spec fn deep_view(&self) -> AgentView {
        self.view()
    }
}

impl Clone for Agent {
    fn clone(&self) -> (r: Self)
        ensures
            r == *self,
    {
        Agent {
            uuid: self.uuid.clone(),
            display_name: self.display_name.clone(),
            display_icon: self.display_icon.clone(),
        }
    }
}

/// The first catalog entry with the given id, if any.
pub open spec fn spec_find_agent(agents: Seq<AgentView>, uuid: Seq<char>) -> Option<AgentView>
    decreases agents.len(),
{
    if agents.len() == 0 {
        None
    } else if agents[0].uuid == uuid {
        Some(agents[0])
    } else {
        spec_find_agent(agents.drop_first(), uuid)
    }
}

/// Look an agent up by id; an unknown id resolves to nothing rather
/// than an error.
pub fn agent_from_uuid(agents: &Vec<Agent>, uuid: &str) -> (r: Option<Agent>)
    ensures
        r.deep_view() == spec_find_agent(agents.deep_view(), uuid@),
{
    let ghost av = agents.deep_view();
    let mut i: usize = 0;
    proof {
        assert(av.skip(0) =~= av);
    }
    while i < agents.len()
        invariant
            av == agents.deep_view(),
            0 <= i <= av.len(),
            av.len() == agents@.len(),
            spec_find_agent(av, uuid@) == spec_find_agent(av.skip(i as int), uuid@),
        decreases av.len() - i,
    {
        proof {
            assert(av.skip(i as int)[0] == av[i as int]);
        }
        let a = &agents[i];
        if text::str_eq(a.uuid.as_str(), uuid) {
            let found = a.clone();
            proof {
                assert(found@ == av[i as int]);
            }
            return Some(found);
        }
        proof {
            assert(av.skip(i as int).drop_first() =~= av.skip(i + 1));
        }
        i += 1;
    }
    proof {
        assert(av.skip(i as int).len() == 0);
    }
    None
}

} // verus!
