//! The rounds of a conversation as a state machine: where a round stands,
//! and what each step does to the conversation.

use vstd::prelude::*;

use crate::agent_act::{agent_request, ChatFunctionArgs, ReactionFunctionArgsView};
use crate::broadcaster::informed;
use crate::model::{eligible, AgentView};
use crate::openai::{ChatCompletionBody, ChatCompletionBodyView, Reply, Shape};
use crate::order::is_order;
use crate::signal::{chosen_speaker, distinct_names, has_signal, lemma_leader_exists, SignalView};
use crate::solicitor::{answered_at, collected, committed, dispatch, lemma_collected_names};

verus! {

/// Where a round stands.
#[derive(Clone, Copy, Debug, PartialEq, Eq, Structural)]
pub enum Phase {
    /// Between two rounds: waiting to be told to go on.
    Idle,
    /// The eligible agents have been asked; their answers are awaited.
    ReactionPhase,
    /// All answers have settled; the speaker is to be picked.
    SelectionPhase,
    /// The speaker has been asked to speak; its words are awaited.
    SpeechPhase,
    /// The speaker has spoken; its words are to be told to everybody.
    BroadcastPhase,
}

/// A request to the generation service on behalf of the agent `name`.
#[derive(Debug, PartialEq, Eq)]
pub struct Solicitation {
    pub name: String,
    pub body: ChatCompletionBody,
}

/// Mathematical model of a [`Solicitation`].
pub struct SolicitationView {
    pub name: Seq<char>,
    pub body: ChatCompletionBodyView,
}

impl DeepView for Solicitation {
    type V = SolicitationView;

    open spec fn deep_view(&self) -> SolicitationView {
        SolicitationView { name: self.name@, body: self.body.deep_view() }
    }
}

/// The view of an optional solicitation.
pub open spec fn solicitation_of(request: Option<Solicitation>) -> Option<SolicitationView> {
    match request {
        Some(r) => Some(r.deep_view()),
        None => None,
    }
}

/// The view of an optional list of solicitations.
pub open spec fn solicitations_of(requests: Option<Vec<Solicitation>>) -> Option<
    Seq<SolicitationView>,
> {
    match requests {
        Some(r) => Some(r.deep_view()),
        None => None,
    }
}

/// The request that asks `agent` for an answer of `shape`. It is built from
/// the agent's own persona and log, and from nobody else's.
pub open spec fn solicitation(
    agent: AgentView,
    common_prompts: Seq<Seq<char>>,
    shape: Shape,
) -> SolicitationView {
    SolicitationView { name: agent.name, body: agent_request(agent, common_prompts, shape) }
}

/// The requests for a reaction to the agents at the places `asked`, one for
/// each place and in the same order.
pub open spec fn reaction_requests(
    agents: Seq<AgentView>,
    common_prompts: Seq<Seq<char>>,
    asked: Seq<usize>,
) -> Seq<SolicitationView> {
    Seq::new(
        asked.len(),
        |i: int| solicitation(agents[asked[i] as int], common_prompts, Shape::Reaction),
    )
}

/// Mathematical model of a [`Conversation`].
pub struct ConversationView {
    /// The participants, in the order of the roster.
    pub agents: Seq<AgentView>,
    /// What every request starts with.
    pub common_prompts: Seq<Seq<char>>,
    /// Who spoke last.
    pub latest_speaker: Option<Seq<char>>,
    pub phase: Phase,
    /// In the reaction phase: the places of the agents asked, as asked.
    pub asked: Seq<usize>,
    /// In the selection phase: the signals of the round.
    pub signals: Seq<SignalView>,
    /// In the speech and broadcast phases: the place of the speaker.
    pub speaker: int,
    /// In the broadcast phase: what the speaker said.
    pub message: Seq<char>,
}

/// No two agents have the same name.
pub open spec fn distinct_agents(agents: Seq<AgentView>) -> bool {
    forall|i: int, j: int|
        0 <= i < j < agents.len() ==> (#[trigger] agents[i]).name != (#[trigger] agents[j]).name
}

/// Some agent is called `name`.
pub open spec fn is_agent(agents: Seq<AgentView>, name: Seq<char>) -> bool {
    exists|k: int| 0 <= k < agents.len() && (#[trigger] agents[k]).name == name
}

/// The place of the agent called `name`.
pub open spec fn place_of(agents: Seq<AgentView>, name: Seq<char>) -> int {
    choose|k: int| 0 <= k < agents.len() && (#[trigger] agents[k]).name == name
}

/// What holds of a conversation at all times: the names are unique, nobody
/// who sits out the round is asked, signals or speaks, and nothing of an
/// earlier phase is left over.
pub open spec fn valid(run: ConversationView) -> bool {
    &&& distinct_agents(run.agents)
    &&& run.phase is ReactionPhase || run.asked.len() == 0
    &&& run.phase is SelectionPhase || run.signals.len() == 0
    &&& run.phase is SpeechPhase || run.phase is BroadcastPhase || run.speaker == 0
    &&& run.phase is BroadcastPhase || run.message.len() == 0
    &&& forall|i: int|
        0 <= i < run.asked.len() ==> (#[trigger] run.asked[i]) < run.agents.len() && eligible(
            run.agents[run.asked[i] as int],
            run.latest_speaker,
        )
    &&& distinct_names(run.signals)
    &&& forall|j: int|
        0 <= j < run.signals.len() ==> is_agent(run.agents, (#[trigger] run.signals[j]).name)
            && run.latest_speaker != Some(run.signals[j].name)
    &&& run.phase is SpeechPhase || run.phase is BroadcastPhase ==> 0 <= run.speaker
        < run.agents.len() && eligible(run.agents[run.speaker], run.latest_speaker)
}

/// A conversation before its first round: nobody has perceived anything
/// beyond what `agents` brings along, and nobody has spoken.
pub open spec fn fresh(agents: Seq<AgentView>, common_prompts: Seq<Seq<char>>) -> ConversationView {
    ConversationView {
        agents,
        common_prompts,
        latest_speaker: None,
        phase: Phase::Idle,
        asked: Seq::empty(),
        signals: Seq::empty(),
        speaker: 0,
        message: Seq::empty(),
    }
}

/// A round can begin: the conversation is idle and `order` names every place
/// of the roster once.
pub open spec fn can_begin(run: ConversationView, order: Seq<usize>) -> bool {
    run.phase is Idle && is_order(order, run.agents.len())
}

/// Idle to reaction phase: the eligible agents are asked, in the order in
/// which `order` names them.
pub open spec fn begun(run: ConversationView, order: Seq<usize>) -> ConversationView {
    if can_begin(run, order) {
        ConversationView {
            phase: Phase::ReactionPhase,
            asked: dispatch(run.agents, run.latest_speaker, order),
            ..run
        }
    } else {
        run
    }
}

/// Reaction to selection phase: the answers become the signals of the round,
/// and each agent that signalled remembers its own reaction.
pub open spec fn reacted(
    run: ConversationView,
    answers: Seq<Option<ReactionFunctionArgsView>>,
) -> ConversationView {
    if run.phase is ReactionPhase {
        let signals = collected(run.agents, run.asked, answers, run.asked.len());
        ConversationView {
            phase: Phase::SelectionPhase,
            agents: committed(run.agents, signals),
            asked: Seq::empty(),
            signals,
            ..run
        }
    } else {
        run
    }
}

/// Selection phase to speech phase, or back to idle where nobody signalled.
pub open spec fn selected(run: ConversationView) -> ConversationView {
    if run.phase is SelectionPhase {
        match chosen_speaker(run.signals) {
            Some(name) => ConversationView {
                phase: Phase::SpeechPhase,
                signals: Seq::empty(),
                speaker: place_of(run.agents, name),
                ..run
            },
            None => ConversationView { phase: Phase::Idle, signals: Seq::empty(), ..run },
        }
    } else {
        run
    }
}

/// Speech phase to broadcast phase, or back to idle where the speaker
/// brought nothing forth.
pub open spec fn spoken(run: ConversationView, speech: Option<Seq<char>>) -> ConversationView {
    if run.phase is SpeechPhase {
        match speech {
            Some(message) => ConversationView { phase: Phase::BroadcastPhase, message, ..run },
            None => ConversationView { phase: Phase::Idle, speaker: 0, ..run },
        }
    } else {
        run
    }
}

/// Broadcast phase to idle: everybody perceives what was said, and the
/// speaker becomes the one who spoke last.
pub open spec fn aired(run: ConversationView) -> ConversationView {
    if run.phase is BroadcastPhase {
        let name = run.agents[run.speaker].name;
        ConversationView {
            phase: Phase::Idle,
            agents: informed(run.agents, name, run.message),
            latest_speaker: Some(name),
            speaker: 0,
            message: Seq::empty(),
            ..run
        }
    } else {
        run
    }
}

/// What a reply to the speaker holds: the message, where the call succeeded
/// and the service did answer.
pub open spec fn speech_of(reply: Reply<ChatFunctionArgs>) -> Option<Seq<char>> {
    match reply {
        Ok(Some(said)) => Some(said.message@),
        _ => None,
    }
}

/// The logs of `after` continue those of `before`: the same agents stand at
/// the same places, and each log starts with all it held before, unchanged.
pub open spec fn logs_extend(before: Seq<AgentView>, after: Seq<AgentView>) -> bool {
    &&& after.len() == before.len()
    &&& forall|k: int|
        0 <= k < before.len() ==> {
            &&& (#[trigger] after[k]).name == before[k].name
            &&& after[k].prompt == before[k].prompt
            &&& before[k].events.is_prefix_of(after[k].events)
        }
}

/// Beginning a round keeps the conversation valid and touches no log.
pub proof fn lemma_begun(run: ConversationView, order: Seq<usize>)
    requires
        valid(run),
    ensures
        valid(begun(run, order)),
        begun(run, order).agents == run.agents,
        begun(run, order).latest_speaker == run.latest_speaker,
{
}

/// Settling the reactions keeps the conversation valid; the logs only grow,
/// and who spoke last stays.
pub proof fn lemma_reacted(run: ConversationView, answers: Seq<Option<ReactionFunctionArgsView>>)
    requires
        valid(run),
    ensures
        valid(reacted(run, answers)),
        logs_extend(run.agents, reacted(run, answers).agents),
        reacted(run, answers).latest_speaker == run.latest_speaker,
{
    if run.phase is ReactionPhase {
        let after = reacted(run, answers);
        let signals = after.signals;
        lemma_collected_names(run.agents, run.asked, answers, run.asked.len());
        assert forall|j: int| 0 <= j < signals.len() implies is_agent(
            after.agents,
            (#[trigger] signals[j]).name,
        ) && run.latest_speaker != Some(signals[j].name) by {
            let name = signals[j].name;
            assert(has_signal(signals, name));
            let i = choose|i: int|
                i < run.asked.len() && #[trigger] answered_at(
                    run.agents,
                    run.asked,
                    answers,
                    i,
                    name,
                );
            assert(after.agents[run.asked[i] as int].name == name);
        }
    }
}

/// Picking the speaker keeps the conversation valid and touches no log.
pub proof fn lemma_selected(run: ConversationView)
    requires
        valid(run),
    ensures
        valid(selected(run)),
        selected(run).agents == run.agents,
        selected(run).latest_speaker == run.latest_speaker,
        run.phase is SelectionPhase && run.signals.len() > 0 ==> selected(run).phase is SpeechPhase
            && chosen_speaker(run.signals) == Some(
            run.agents[selected(run).speaker].name,
        ),
{
    if run.phase is SelectionPhase && run.signals.len() > 0 {
        lemma_leader_exists(run.signals);
    }
}

/// Settling the speech keeps the conversation valid and touches no log.
pub proof fn lemma_spoken(run: ConversationView, speech: Option<Seq<char>>)
    requires
        valid(run),
    ensures
        valid(spoken(run, speech)),
        spoken(run, speech).agents == run.agents,
        spoken(run, speech).latest_speaker == run.latest_speaker,
{
}

/// Broadcasting keeps the conversation valid; the logs only grow.
pub proof fn lemma_aired(run: ConversationView)
    requires
        valid(run),
    ensures
        valid(aired(run)),
        logs_extend(run.agents, aired(run).agents),
{
}

} // verus!
