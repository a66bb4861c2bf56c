//! Agents and the events they perceive.

use vstd::prelude::*;

use crate::openai::text_of;

verus! {

/// One entry of an agent's perception stream.
#[derive(Debug, PartialEq, Eq)]
pub enum Event {
    /// The agent's own private reflection; never shown to anybody else.
    Reaction { thinking: String, urgency: usize },
    /// What the agent itself said aloud.
    Spoke { message: String },
    /// What the agent heard another participant say.
    Heard { speaker: String, message: String },
}

/// Mathematical model of an [`Event`].
pub enum EventView {
    Reaction { thinking: Seq<char>, urgency: nat },
    Spoke { message: Seq<char> },
    Heard { speaker: Seq<char>, message: Seq<char> },
}

impl DeepView for Event {
    type V = EventView;

    open spec fn deep_view(&self) -> EventView {
        match *self {
            Event::Reaction { thinking, urgency } => EventView::Reaction {
                thinking: thinking@,
                urgency: urgency as nat,
            },
            Event::Spoke { message } => EventView::Spoke { message: message@ },
            Event::Heard { speaker, message } => EventView::Heard {
                speaker: speaker@,
                message: message@,
            },
        }
    }
}

impl Clone for Event {
    fn clone(&self) -> (copy: Self)
        ensures
            copy.deep_view() == self.deep_view(),
    {
        match self {
            Event::Reaction { thinking, urgency } => Event::Reaction {
                thinking: thinking.clone(),
                urgency: *urgency,
            },
            Event::Spoke { message } => Event::Spoke { message: message.clone() },
            Event::Heard { speaker, message } => Event::Heard {
                speaker: speaker.clone(),
                message: message.clone(),
            },
        }
    }
}

/// A conversation participant: a unique display name, a persona text and the
/// private log of everything the participant has perceived so far.
#[derive(Debug, PartialEq, Eq)]
pub struct Agent {
    pub name: String,
    pub prompt: String,
    pub events: Vec<Event>,
}

/// Mathematical model of an [`Agent`].
pub struct AgentView {
    pub name: Seq<char>,
    pub prompt: Seq<char>,
    pub events: Seq<EventView>,
}

impl DeepView for Agent {
    type V = AgentView;

    open spec fn deep_view(&self) -> AgentView {
        AgentView {
            name: self.name@,
            prompt: self.prompt@,
            events: self.events.deep_view(),
        }
    }
}

impl Clone for Agent {
    fn clone(&self) -> (copy: Self)
        ensures
            copy.deep_view() == self.deep_view(),
    {
        let mut events: Vec<Event> = Vec::new();
        let mut k: usize = 0;
        while k < self.events.len()
            invariant
                k <= self.events.len(),
                events.len() == k,
                forall|j: int|
                    0 <= j < k ==> (#[trigger] events[j]).deep_view() == self.events[j].deep_view(),
            decreases self.events.len() - k,
        {
            events.push(self.events[k].clone());
            k += 1;
        }
        assert(events.deep_view() =~= self.events.deep_view());
        Agent { name: self.name.clone(), prompt: self.prompt.clone(), events }
    }
}

impl Agent {
    /// A participant that has not perceived anything yet.
    pub fn new(name: String, prompt: String) -> (agent: Self)
        ensures
            agent.deep_view() == (AgentView {
                name: name@,
                prompt: prompt@,
                events: Seq::empty(),
            }),
    {
        let agent = Self { name, prompt, events: Vec::new() };
        assert(agent.events.deep_view() =~= Seq::<EventView>::empty());
        agent
    }
}

/// What a run remembers from one round to the next: who spoke last. That
/// agent sits out the next round.
#[derive(Debug, PartialEq, Eq)]
pub struct RunState {
    pub latest_speaker: Option<String>,
}

impl DeepView for RunState {
    type V = Option<Seq<char>>;

    open spec fn deep_view(&self) -> Option<Seq<char>> {
        text_of(self.latest_speaker)
    }
}

impl RunState {
    /// The state of a run in which nobody has spoken yet.
    pub fn new() -> (state: Self)
        ensures
            state.deep_view() == None::<Seq<char>>,
    {
        RunState { latest_speaker: None }
    }
}

/// An agent may be asked in a round unless it was the last to speak.
pub open spec fn eligible(agent: AgentView, latest_speaker: Option<Seq<char>>) -> bool {
    latest_speaker != Some(agent.name)
}

impl Agent {
    /// Tells whether this agent may be asked in the round that follows
    /// `state`.
    pub fn is_eligible(&self, state: &RunState) -> (yes: bool)
        ensures
            yes == eligible(self.deep_view(), state.deep_view()),
    {
        match &state.latest_speaker {
            Some(speaker) => self.name != *speaker,
            None => true,
        }
    }
}

} // verus!
