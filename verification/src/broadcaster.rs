//! The broadcaster: what everybody perceives once somebody has spoken.

use vstd::prelude::*;

use crate::model::{Agent, AgentView, Event, EventView, RunState};

verus! {

/// What an agent perceives when `speaker` says `message`: its own words if
/// it is the speaker, the words of another if it is not.
pub open spec fn perception(agent: AgentView, speaker: Seq<char>, message: Seq<char>) -> EventView {
    if agent.name == speaker {
        EventView::Spoke { message }
    } else {
        EventView::Heard { speaker, message }
    }
}

/// An agent after `speaker` has said `message`.
pub open spec fn informed_agent(
    agent: AgentView,
    speaker: Seq<char>,
    message: Seq<char>,
) -> AgentView {
    AgentView { events: agent.events.push(perception(agent, speaker, message)), ..agent }
}

/// The agents after `speaker` has said `message`.
pub open spec fn informed(agents: Seq<AgentView>, speaker: Seq<char>, message: Seq<char>) -> Seq<
    AgentView,
> {
    agents.map_values(|agent: AgentView| informed_agent(agent, speaker, message))
}

/// Commits what `speaker` said: the speaker's own log gains the message as
/// spoken, every other log gains it as heard from `speaker`, and `speaker`
/// becomes the one who spoke last.
pub fn broadcast(agents: &mut Vec<Agent>, state: &mut RunState, speaker: &String, message: &String)
    ensures
        final(agents).deep_view() == informed(old(agents).deep_view(), speaker@, message@),
        final(state).deep_view() == Some(speaker@),
{
    let ghost before = agents.deep_view();
    let mut k: usize = 0;
    while k < agents.len()
        invariant
            k <= agents.len(),
            agents.len() == before.len(),
            forall|j: int|
                0 <= j < k ==> (#[trigger] agents.deep_view()[j]) == informed_agent(
                    before[j],
                    speaker@,
                    message@,
                ),
            forall|j: int|
                k <= j < agents.len() ==> (#[trigger] agents.deep_view()[j]) == before[j],
        decreases agents.len() - k,
    {
        let ghost agent_before = agents[k as int];
        let ghost all_before = agents.deep_view();
        assert(all_before[k as int] == before[k as int]);
        let event = if agents[k].name == *speaker {
            Event::Spoke { message: message.clone() }
        } else {
            Event::Heard { speaker: speaker.clone(), message: message.clone() }
        };
        agents[k].events.push(event);
        proof {
            assert(agents[k as int].events.deep_view() =~= agent_before.events.deep_view().push(
                event.deep_view(),
            ));
            assert forall|j: int| 0 <= j < agents.len() && j != k implies (
            #[trigger] agents.deep_view()[j]) == all_before[j] by {}
        }
        k += 1;
    }
    state.latest_speaker = Some(speaker.clone());
}

} // verus!
