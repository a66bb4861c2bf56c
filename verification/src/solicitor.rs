//! The reaction solicitor: whom a round asks, what comes of the answers, and
//! what the agents remember of it.

use vstd::prelude::*;

use crate::agent_act::{ReactionFunctionArgs, ReactionFunctionArgsView};
use crate::model::{eligible, Agent, AgentView, Event, EventView, RunState};
use crate::openai::Reply;
use crate::order::{is_order, lemma_order_names_every_place};
use crate::signal::{
    distinct_names, has_signal, lemma_with_signal, signal_map, with_signal, RoundSignal, SignalView,
};

verus! {

/// The places of `order` at which an eligible agent stands, in the order of
/// `order`.
pub open spec fn dispatch(
    agents: Seq<AgentView>,
    latest_speaker: Option<Seq<char>>,
    order: Seq<usize>,
) -> Seq<usize> {
    order.filter(
        |place: usize| place < agents.len() && eligible(agents[place as int], latest_speaker),
    )
}

/// Picking items out of a sequence without duplicates leaves no duplicates.
pub proof fn lemma_filter_keeps_distinct(items: Seq<usize>, wanted: spec_fn(usize) -> bool)
    requires
        items.no_duplicates(),
    ensures
        items.filter(wanted).no_duplicates(),
    decreases items.len(),
{
    reveal(Seq::filter);
    if items.len() > 0 {
        let front = items.drop_last();
        lemma_filter_keeps_distinct(front, wanted);
        if wanted(items.last()) {
            let picked = front.filter(wanted);
            if picked.contains(items.last()) {
                front.lemma_filter_contains_rev(wanted, items.last());
                let i = choose|i: int| 0 <= i < front.len() && front[i] == items.last();
                assert(items[i] == items[items.len() - 1]);
            }
        }
    }
}

/// Where `order` names every place of the roster once, a round asks every
/// eligible agent exactly once, and nobody else.
pub proof fn lemma_dispatch_asks_the_eligible_once(
    agents: Seq<AgentView>,
    latest_speaker: Option<Seq<char>>,
    order: Seq<usize>,
)
    requires
        is_order(order, agents.len()),
    ensures
        dispatch(agents, latest_speaker, order).no_duplicates(),
        forall|place: usize|
            dispatch(agents, latest_speaker, order).contains(place) <==> place < agents.len()
                && eligible(agents[place as int], latest_speaker),
{
    let wanted = |place: usize|
        place < agents.len() && eligible(agents[place as int], latest_speaker);
    let asked = order.filter(wanted);
    lemma_filter_keeps_distinct(order, wanted);
    assert forall|place: usize| asked.contains(place) <==> wanted(place) by {
        if asked.contains(place) {
            let i = choose|i: int| 0 <= i < asked.len() && asked[i] == place;
            order.lemma_filter_pred(wanted, i);
        }
        if wanted(place) {
            lemma_order_names_every_place(order, agents.len(), place);
            let i = choose|i: int| 0 <= i < order.len() && order[i] == place;
            order.lemma_filter_contains(wanted, i);
        }
    }
}

/// Computes whom a round asks: of the places in `order`, those at which an
/// agent stands that did not speak last.
pub fn eligible_places(agents: &Vec<Agent>, state: &RunState, order: &Vec<usize>) -> (places:
    Vec<usize>)
    ensures
        places@ == dispatch(agents.deep_view(), state.deep_view(), order@),
{
    let ghost wanted = |place: usize|
        place < agents.deep_view().len() && eligible(
            agents.deep_view()[place as int],
            state.deep_view(),
        );
    let mut places: Vec<usize> = Vec::new();
    let mut i: usize = 0;
    proof {
        reveal(Seq::filter);
    }
    while i < order.len()
        invariant
            i <= order.len(),
            wanted == |place: usize|
                place < agents.deep_view().len() && eligible(
                    agents.deep_view()[place as int],
                    state.deep_view(),
                ),
            places@ == order@.take(i as int).filter(wanted),
        decreases order.len() - i,
    {
        let place = order[i];
        proof {
            order@.take(i as int).lemma_filter_push(place, wanted);
            assert(order@.take(i as int).push(place) =~= order@.take(i + 1));
        }
        if place < agents.len() && agents[place].is_eligible(state) {
            places.push(place);
        }
        i += 1;
    }
    assert(order@.take(i as int) =~= order@);
    places
}

/// What an answer holds: the reaction, where the call succeeded and the
/// service did answer.
pub open spec fn answer_of(reply: Reply<ReactionFunctionArgs>) -> Option<ReactionFunctionArgsView> {
    match reply {
        Ok(Some(reaction)) => Some(reaction.deep_view()),
        _ => None,
    }
}

/// What each of `replies` holds.
pub open spec fn answers(replies: Seq<Reply<ReactionFunctionArgs>>) -> Seq<
    Option<ReactionFunctionArgsView>,
> {
    Seq::new(replies.len(), |i: int| answer_of(replies[i]))
}

/// The signals of the first `count` agents asked. The answer at a place
/// belongs to the agent asked at that place; a call that failed, was declined
/// or was never answered leaves no signal.
pub open spec fn collected(
    agents: Seq<AgentView>,
    asked: Seq<usize>,
    answers: Seq<Option<ReactionFunctionArgsView>>,
    count: nat,
) -> Seq<SignalView>
    decreases count,
{
    if count == 0 {
        Seq::empty()
    } else {
        let i = count - 1;
        let earlier = collected(agents, asked, answers, i as nat);
        if i < asked.len() && i < answers.len() && asked[i] < agents.len() && answers[i] is Some {
            with_signal(earlier, agents[asked[i] as int].name, answers[i]->0)
        } else {
            earlier
        }
    }
}

/// The request at place `i` went to the agent called `name`, and was
/// answered.
pub open spec fn answered_at(
    agents: Seq<AgentView>,
    asked: Seq<usize>,
    answers: Seq<Option<ReactionFunctionArgsView>>,
    i: int,
    name: Seq<char>,
) -> bool {
    &&& 0 <= i < asked.len()
    &&& i < answers.len()
    &&& asked[i] < agents.len()
    &&& answers[i] is Some
    &&& agents[asked[i] as int].name == name
}

/// A name has a signal exactly if a request to an agent of that name was
/// answered, and no name has two.
pub proof fn lemma_collected_names(
    agents: Seq<AgentView>,
    asked: Seq<usize>,
    answers: Seq<Option<ReactionFunctionArgsView>>,
    count: nat,
)
    ensures
        distinct_names(collected(agents, asked, answers, count)),
        forall|name: Seq<char>|
            has_signal(collected(agents, asked, answers, count), name) <==> exists|i: int|
                i < count && #[trigger] answered_at(agents, asked, answers, i, name),
    decreases count,
{
    if count > 0 {
        let i = count - 1;
        let now = collected(agents, asked, answers, count);
        let earlier = collected(agents, asked, answers, i as nat);
        lemma_collected_names(agents, asked, answers, i as nat);
        if i < asked.len() && i < answers.len() && asked[i] < agents.len() && answers[i] is Some {
            let new_name = agents[asked[i] as int].name;
            lemma_with_signal(earlier, new_name, answers[i]->0);
            assert forall|name: Seq<char>| has_signal(now, name) <==> exists|k: int|
                k < count && #[trigger] answered_at(agents, asked, answers, k, name) by {
                assert(signal_map(now).contains_key(name) <==> has_signal(now, name));
                if name == new_name {
                    assert(answered_at(agents, asked, answers, i, name));
                }
            }
        }
    }
}

/// Gathers the signals of a round from the answers of the agents asked.
/// Failed and declined calls are passed over.
pub fn collect_signal(
    agents: &Vec<Agent>,
    asked: &Vec<usize>,
    replies: &Vec<Reply<ReactionFunctionArgs>>,
) -> (signal: RoundSignal)
    ensures
        signal.deep_view() == collected(
            agents.deep_view(),
            asked@,
            answers(replies@),
            asked@.len(),
        ),
{
    let mut signal = RoundSignal::new();
    let mut i: usize = 0;
    while i < asked.len()
        invariant
            i <= asked.len(),
            signal.deep_view() == collected(
                agents.deep_view(),
                asked@,
                answers(replies@),
                i as nat,
            ),
        decreases asked.len() - i,
    {
        if i < replies.len() && asked[i] < agents.len() {
            match &replies[i] {
                Ok(Some(reaction)) => {
                    signal.insert(agents[asked[i]].name.clone(), reaction.clone());
                },
                _ => {},
            }
        }
        i += 1;
    }
    signal
}

/// The reflection that `reaction` leaves in the log of the agent it came
/// from.
pub open spec fn reaction_event(reaction: ReactionFunctionArgsView) -> EventView {
    EventView::Reaction { thinking: reaction.thinking, urgency: reaction.aggressiveness }
}

/// An agent after the signals of a round are committed: one that signalled
/// has its own reaction at the end of its log, any other is as before.
pub open spec fn reacted_agent(agent: AgentView, signals: Seq<SignalView>) -> AgentView {
    if has_signal(signals, agent.name) {
        AgentView {
            events: agent.events.push(reaction_event(signal_map(signals)[agent.name])),
            ..agent
        }
    } else {
        agent
    }
}

/// The agents after the signals of a round are committed.
pub open spec fn committed(agents: Seq<AgentView>, signals: Seq<SignalView>) -> Seq<AgentView> {
    agents.map_values(|agent: AgentView| reacted_agent(agent, signals))
}

/// Commits the signals of a round: every agent that signalled gets its own
/// reaction appended to its log, whether or not it goes on to speak.
pub fn commit_reactions(agents: &mut Vec<Agent>, signal: &RoundSignal)
    ensures
        final(agents).deep_view() == committed(old(agents).deep_view(), signal.deep_view()),
{
    let ghost before = agents.deep_view();
    let mut k: usize = 0;
    while k < agents.len()
        invariant
            k <= agents.len(),
            agents.len() == before.len(),
            forall|j: int|
                0 <= j < k ==> (#[trigger] agents.deep_view()[j]) == reacted_agent(
                    before[j],
                    signal.deep_view(),
                ),
            forall|j: int|
                k <= j < agents.len() ==> (#[trigger] agents.deep_view()[j]) == before[j],
        decreases agents.len() - k,
    {
        let ghost agent_before = agents[k as int];
        let ghost all_before = agents.deep_view();
        assert(all_before[k as int] == before[k as int]);
        match signal.get(&agents[k].name) {
            Some(reaction) => {
                let event = Event::Reaction {
                    thinking: reaction.thinking.clone(),
                    urgency: reaction.aggressiveness,
                };
                agents[k].events.push(event);
                proof {
                    assert(agents[k as int].events.deep_view()
                        =~= agent_before.events.deep_view().push(event.deep_view()));
                    assert forall|j: int| 0 <= j < agents.len() && j != k implies (
                    #[trigger] agents.deep_view()[j]) == all_before[j] by {}
                }
            },
            None => {},
        }
        k += 1;
    }
}

} // verus!
