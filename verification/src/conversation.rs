//! A conversation in progress: the roster with its logs, and the steps that
//! carry it through one round after another.

use vstd::prelude::*;

use crate::agent_act::{agent_act, ChatFunctionArgs, ReactionFunctionArgs};
use crate::broadcaster::broadcast;
use crate::model::{Agent, AgentView, RunState};
use crate::openai::{Reply, Shape};
use crate::order::{is_order, is_roster_order, shuffled_order};
use crate::round::{
    aired, begun, can_begin, distinct_agents, fresh, is_agent, lemma_aired, lemma_begun,
    lemma_reacted, lemma_selected, lemma_spoken, logs_extend, place_of, reacted,
    reaction_requests, selected, solicitation, solicitation_of, solicitations_of, speech_of,
    spoken, valid, ConversationView, Phase, Solicitation,
};
use crate::signal::RoundSignal;
use crate::solicitor::{answers, collect_signal, commit_reactions, eligible_places};

verus! {

/// A conversation among agents: the roster with every agent's private log,
/// who spoke last, and where the current round stands.
pub struct Conversation {
    agents: Vec<Agent>,
    common_prompts: Vec<String>,
    state: RunState,
    phase: Phase,
    asked: Vec<usize>,
    signal: RoundSignal,
    speaker: usize,
    message: String,
}

impl DeepView for Conversation {
    type V = ConversationView;

    closed spec fn deep_view(&self) -> ConversationView {
        ConversationView {
            agents: self.agents.deep_view(),
            common_prompts: self.common_prompts.deep_view(),
            latest_speaker: self.state.deep_view(),
            phase: self.phase,
            asked: self.asked@,
            signals: self.signal.deep_view(),
            speaker: self.speaker as int,
            message: self.message@,
        }
    }
}

/// Tells whether no two of `agents` have the same name.
pub fn has_distinct_names(agents: &Vec<Agent>) -> (yes: bool)
    ensures
        yes == distinct_agents(agents.deep_view()),
{
    let mut j: usize = 0;
    while j < agents.len()
        invariant
            j <= agents.len(),
            forall|a: int, b: int|
                0 <= a < b < j ==> (#[trigger] agents.deep_view()[a]).name != (
                #[trigger] agents.deep_view()[b]).name,
        decreases agents.len() - j,
    {
        let mut i: usize = 0;
        while i < j
            invariant
                i <= j < agents.len(),
                forall|a: int|
                    0 <= a < i ==> (#[trigger] agents.deep_view()[a]).name
                        != agents.deep_view()[j as int].name,
            decreases j - i,
        {
            if agents[i].name == agents[j].name {
                assert(agents.deep_view()[i as int].name == agents.deep_view()[j as int].name);
                return false;
            }
            i += 1;
        }
        j += 1;
    }
    true
}

/// Finds the agent called `name`.
fn find_agent(agents: &Vec<Agent>, name: &String) -> (place: Option<usize>)
    requires
        distinct_agents(agents.deep_view()),
    ensures
        place is Some <==> is_agent(agents.deep_view(), name@),
        place matches Some(k) ==> k < agents.len() && k == place_of(agents.deep_view(), name@)
            && agents.deep_view()[k as int].name == name@,
{
    let mut k: usize = 0;
    while k < agents.len()
        invariant
            k <= agents.len(),
            distinct_agents(agents.deep_view()),
            forall|j: int| 0 <= j < k ==> (#[trigger] agents.deep_view()[j]).name != name@,
        decreases agents.len() - k,
    {
        if agents[k].name == *name {
            proof {
                let all = agents.deep_view();
                assert(all[k as int].name == name@);
            }
            return Some(k);
        }
        k += 1;
    }
    None
}

/// Builds the requests for a reaction to the agents at the places `asked`.
fn requests_for(agents: &Vec<Agent>, common_prompts: &Vec<String>, asked: &Vec<usize>) -> (requests:
    Vec<Solicitation>)
    requires
        forall|i: int| 0 <= i < asked.len() ==> asked[i] < agents.len(),
    ensures
        requests.deep_view() == reaction_requests(
            agents.deep_view(),
            common_prompts.deep_view(),
            asked@,
        ),
{
    let mut requests: Vec<Solicitation> = Vec::new();
    let mut i: usize = 0;
    while i < asked.len()
        invariant
            i <= asked.len(),
            requests.len() == i,
            forall|j: int| 0 <= j < asked.len() ==> asked[j] < agents.len(),
            forall|j: int|
                0 <= j < i ==> (#[trigger] requests[j]).deep_view() == solicitation(
                    agents.deep_view()[asked[j] as int],
                    common_prompts.deep_view(),
                    Shape::Reaction,
                ),
        decreases asked.len() - i,
    {
        let agent = &agents[asked[i]];
        requests.push(
            Solicitation {
                name: agent.name.clone(),
                body: agent_act::<ReactionFunctionArgs>(agent, common_prompts),
            },
        );
        i += 1;
    }
    requests
}

impl Conversation {
    #[verifier::type_invariant]
    spec fn well_formed(self) -> bool {
        valid(self.deep_view())
    }

    /// A conversation that holds nothing.
    fn hollow() -> (run: Self)
        ensures
            run.deep_view() == fresh(Seq::empty(), Seq::empty()),
    {
        let run = Conversation {
            agents: Vec::new(),
            common_prompts: Vec::new(),
            state: RunState::new(),
            phase: Phase::Idle,
            asked: Vec::new(),
            signal: RoundSignal::new(),
            speaker: 0,
            message: String::new(),
        };
        assert(run.deep_view() =~= fresh(Seq::empty(), Seq::empty())) by {
            assert(run.agents.deep_view() =~= Seq::<AgentView>::empty());
            assert(run.common_prompts.deep_view() =~= Seq::<Seq<char>>::empty());
        }
        run
    }

    /// Opens a conversation among `agents`, each request of which starts with
    /// `common_prompts`. The names of the agents have to be unique: with a
    /// name that occurs twice there is no conversation.
    pub fn new(agents: Vec<Agent>, common_prompts: Vec<String>) -> (run: Option<Self>)
        ensures
            run is Some <==> distinct_agents(agents.deep_view()),
            run matches Some(r) ==> r.deep_view() == fresh(
                agents.deep_view(),
                common_prompts.deep_view(),
            ),
    {
        if !has_distinct_names(&agents) {
            return None;
        }
        Some(
            Conversation {
                agents,
                common_prompts,
                state: RunState::new(),
                phase: Phase::Idle,
                asked: Vec::new(),
                signal: RoundSignal::new(),
                speaker: 0,
                message: String::new(),
            },
        )
    }

    /// Begins a round in the given order. Where the conversation is idle
    /// and `order` names every place of the roster once, the eligible agents
    /// are asked for their reactions, in that order, and the requests to send
    /// are handed out. Otherwise nothing happens.
    pub fn begin_round_with(&mut self, order: &Vec<usize>) -> (requests: Option<Vec<Solicitation>>)
        ensures
            valid(old(self).deep_view()),
            valid(final(self).deep_view()),
            final(self).deep_view() == begun(old(self).deep_view(), order@),
            solicitations_of(requests) == (if can_begin(old(self).deep_view(), order@) {
                Some(
                    reaction_requests(
                        old(self).deep_view().agents,
                        old(self).deep_view().common_prompts,
                        final(self).deep_view().asked,
                    ),
                )
            } else {
                None
            }),
    {
        proof {
            use_type_invariant(&*self);
            lemma_begun(self.deep_view(), order@);
        }
        if self.phase != Phase::Idle || !is_roster_order(order, self.agents.len()) {
            return None;
        }
        let places = eligible_places(&self.agents, &self.state, order);
        let requests = requests_for(&self.agents, &self.common_prompts, &places);
        let mut run = Conversation::hollow();
        core::mem::swap(self, &mut run);
        let Conversation { agents, common_prompts, state, phase, asked, signal, speaker, message } =
            run;
        *self = Conversation {
            agents,
            common_prompts,
            state,
            phase: Phase::ReactionPhase,
            asked: places,
            signal,
            speaker,
            message,
        };
        Some(requests)
    }

    /// Begins a round in an order left to chance. Where the conversation is
    /// idle, the eligible agents are asked for their reactions and the
    /// requests to send are handed out; otherwise nothing happens.
    pub fn begin_round(&mut self) -> (requests: Option<Vec<Solicitation>>)
        ensures
            valid(old(self).deep_view()),
            valid(final(self).deep_view()),
            requests is Some <==> old(self).deep_view().phase is Idle,
            exists|order: Seq<usize>|
                is_order(order, old(self).deep_view().agents.len()) && final(self).deep_view()
                    == #[trigger] begun(old(self).deep_view(), order),
            requests matches Some(r) ==> r.deep_view() == reaction_requests(
                old(self).deep_view().agents,
                old(self).deep_view().common_prompts,
                final(self).deep_view().asked,
            ),
    {
        let order = shuffled_order(self.agents.len());
        self.begin_round_with(&order)
    }

    /// Settles the reactions of the agents asked: the reply at a place
    /// answers the request at that place. Each agent that answered gets its
    /// own reaction appended to its log, and the round moves on to the
    /// selection. Outside the reaction phase nothing happens.
    pub fn settle_reactions(&mut self, replies: &Vec<Reply<ReactionFunctionArgs>>)
        ensures
            valid(old(self).deep_view()),
            valid(final(self).deep_view()),
            final(self).deep_view() == reacted(old(self).deep_view(), answers(replies@)),
            logs_extend(old(self).deep_view().agents, final(self).deep_view().agents),
    {
        proof {
            use_type_invariant(&*self);
            lemma_reacted(self.deep_view(), answers(replies@));
        }
        if self.phase != Phase::ReactionPhase {
            return ;
        }
        let mut run = Conversation::hollow();
        core::mem::swap(self, &mut run);
        let Conversation {
            mut agents,
            common_prompts,
            state,
            phase,
            asked,
            signal,
            speaker,
            message,
        } = run;
        let collected = collect_signal(&agents, &asked, replies);
        commit_reactions(&mut agents, &collected);
        *self = Conversation {
            agents,
            common_prompts,
            state,
            phase: Phase::SelectionPhase,
            asked: Vec::new(),
            signal: collected,
            speaker,
            message,
        };
    }

    /// Picks the speaker of the round among the signals. Where somebody
    /// signalled, the round moves on to the speech and the request to send to
    /// the speaker is handed out; where nobody did, the round is over.
    /// Outside the selection phase nothing happens.
    pub fn select(&mut self) -> (request: Option<Solicitation>)
        ensures
            valid(old(self).deep_view()),
            valid(final(self).deep_view()),
            final(self).deep_view() == selected(old(self).deep_view()),
            solicitation_of(request) == (if old(self).deep_view().phase is SelectionPhase
                && final(self).deep_view().phase is SpeechPhase {
                Some(
                    solicitation(
                        old(self).deep_view().agents[final(self).deep_view().speaker],
                        old(self).deep_view().common_prompts,
                        Shape::Chat,
                    ),
                )
            } else {
                None
            }),
            request matches Some(r) ==> Some(r.name@) != old(self).deep_view().latest_speaker,
    {
        proof {
            use_type_invariant(&*self);
            lemma_selected(self.deep_view());
        }
        if self.phase != Phase::SelectionPhase {
            return None;
        }
        let chosen = self.signal.select_speaker();
        let mut run = Conversation::hollow();
        core::mem::swap(self, &mut run);
        let Conversation { agents, common_prompts, state, phase, asked, signal, speaker, message } =
            run;
        match chosen {
            Some(name) => {
                let place = find_agent(&agents, &name).unwrap();
                let request = Solicitation {
                    name,
                    body: agent_act::<ChatFunctionArgs>(&agents[place], &common_prompts),
                };
                *self = Conversation {
                    agents,
                    common_prompts,
                    state,
                    phase: Phase::SpeechPhase,
                    asked,
                    signal: RoundSignal::new(),
                    speaker: place,
                    message,
                };
                Some(request)
            },
            None => {
                *self = Conversation {
                    agents,
                    common_prompts,
                    state,
                    phase: Phase::Idle,
                    asked,
                    signal: RoundSignal::new(),
                    speaker,
                    message,
                };
                None
            },
        }
    }

    /// Settles the speech of the speaker. Where the speaker brought forth a
    /// message, the round moves on to the broadcast. Where the call failed
    /// or was declined, the round is over: no log changes, and who spoke last
    /// stays as it was. Outside the speech phase nothing happens.
    pub fn settle_speech(&mut self, reply: Reply<ChatFunctionArgs>)
        ensures
            valid(old(self).deep_view()),
            valid(final(self).deep_view()),
            final(self).deep_view() == spoken(old(self).deep_view(), speech_of(reply)),
            final(self).deep_view().agents == old(self).deep_view().agents,
            final(self).deep_view().latest_speaker == old(self).deep_view().latest_speaker,
    {
        proof {
            use_type_invariant(&*self);
            lemma_spoken(self.deep_view(), speech_of(reply));
        }
        if self.phase != Phase::SpeechPhase {
            return ;
        }
        let mut run = Conversation::hollow();
        core::mem::swap(self, &mut run);
        let Conversation { agents, common_prompts, state, phase, asked, signal, speaker, message } =
            run;
        match reply {
            Ok(Some(said)) => {
                *self = Conversation {
                    agents,
                    common_prompts,
                    state,
                    phase: Phase::BroadcastPhase,
                    asked,
                    signal,
                    speaker,
                    message: said.message,
                };
            },
            _ => {
                *self = Conversation {
                    agents,
                    common_prompts,
                    state,
                    phase: Phase::Idle,
                    asked,
                    signal,
                    speaker: 0,
                    message,
                };
            },
        }
    }

    /// Broadcasts what the speaker said: its own log gains the message as
    /// spoken, every other log gains it as heard, the speaker becomes the
    /// one who spoke last, and the round is over. Outside the broadcast phase
    /// nothing happens.
    pub fn broadcast(&mut self)
        ensures
            valid(old(self).deep_view()),
            valid(final(self).deep_view()),
            final(self).deep_view() == aired(old(self).deep_view()),
            logs_extend(old(self).deep_view().agents, final(self).deep_view().agents),
    {
        proof {
            use_type_invariant(&*self);
            lemma_aired(self.deep_view());
        }
        if self.phase != Phase::BroadcastPhase {
            return ;
        }
        let mut run = Conversation::hollow();
        core::mem::swap(self, &mut run);
        let Conversation {
            mut agents,
            common_prompts,
            mut state,
            phase,
            asked,
            signal,
            speaker,
            message,
        } = run;
        let name = agents[speaker].name.clone();
        broadcast(&mut agents, &mut state, &name, &message);
        *self = Conversation {
            agents,
            common_prompts,
            state,
            phase: Phase::Idle,
            asked,
            signal,
            speaker: 0,
            message: String::new(),
        };
    }

    /// The agents, in the order of the roster.
    pub fn agents(&self) -> (agents: &Vec<Agent>)
        ensures
            agents.deep_view() == self.deep_view().agents,
            valid(self.deep_view()),
    {
        proof {
            use_type_invariant(self);
        }
        &self.agents
    }

    /// What the run remembers: who spoke last.
    pub fn state(&self) -> (state: &RunState)
        ensures
            state.deep_view() == self.deep_view().latest_speaker,
    {
        &self.state
    }

    /// Where the current round stands.
    pub fn phase(&self) -> (phase: Phase)
        ensures
            phase == self.deep_view().phase,
    {
        self.phase
    }
}

} // verus!
