//! Asking an agent for its thoughts on its own: one function, left to the
//! service's choice, with the agent's log handed over as plain lines.

use vstd::prelude::*;

use crate::agent_act::{function_of, heard_line, line_heard, model_name};
use crate::model::{Agent, Event, EventView};
use crate::openai::{
    system_message, user_message, ChatCompletionBody, ChatCompletionBodyView, Function,
    FunctionCallName, FunctionCallNameView, RequestMessage, Shape,
};

verus! {

/// The values offered to the service as examples of a positivity.
pub fn positivity_examples() -> (examples: Vec<String>)
    ensures
        examples.deep_view() == seq!["1"@, "2"@, "3"@, "4"@, "5"@],
{
    let examples = vec![
        "1".to_string(),
        "2".to_string(),
        "3".to_string(),
        "4".to_string(),
        "5".to_string(),
    ];
    examples
}

/// A private reflection: how eager the agent is to speak, and what it thinks.
#[derive(Debug, PartialEq, Eq)]
pub struct FunctionArgs {
    pub positivity: usize,
    pub thinking: String,
}

/// Mathematical model of [`FunctionArgs`].
pub struct FunctionArgsView {
    pub positivity: nat,
    pub thinking: Seq<char>,
}

impl DeepView for FunctionArgs {
    type V = FunctionArgsView;

    open spec fn deep_view(&self) -> FunctionArgsView {
        FunctionArgsView { positivity: self.positivity as nat, thinking: self.thinking@ }
    }
}

impl Clone for FunctionArgs {
    fn clone(&self) -> (copy: Self)
        ensures
            copy.deep_view() == self.deep_view(),
    {
        FunctionArgs { positivity: self.positivity, thinking: self.thinking.clone() }
    }
}

impl crate::agent_act::FunctionArgs for FunctionArgs {
    open spec fn shape() -> Shape {
        Shape::Thinking
    }

    fn get_name() -> (name: String) {
        "thinking".to_string()
    }

    fn get_description() -> (description: String) {
        "Output what you are thinking.".to_string()
    }

    fn get_shape() -> (shape: Shape) {
        Shape::Thinking
    }
}

/// A logged event as one line of text: a reflection by its thought, an
/// utterance by its words, and what was heard with the speaker before it.
pub open spec fn event_line(event: EventView) -> Seq<char> {
    match event {
        EventView::Reaction { thinking, urgency } => thinking,
        EventView::Spoke { message } => message,
        EventView::Heard { speaker, message } => heard_line(speaker, message),
    }
}

/// A request that opens with two instructions, goes on with the log as plain
/// lines, and offers the one function of `shape`.
pub open spec fn plain_request(
    first: Seq<char>,
    second: Seq<char>,
    events: Seq<EventView>,
    shape: Shape,
) -> ChatCompletionBodyView {
    ChatCompletionBodyView {
        model: model_name(),
        messages: seq![system_message(first), system_message(second)] + events.map_values(
            |event: EventView| user_message(event_line(event)),
        ),
        temperature_percent: 70,
        max_tokens: 4000,
        function_call: FunctionCallNameView::Auto,
        functions: seq![function_of(shape)],
    }
}

/// Writes a logged event as one line of text.
pub fn line_of_event(event: &Event) -> (line: String)
    ensures
        line@ == event_line(event.deep_view()),
{
    match event {
        Event::Reaction { thinking, urgency } => thinking.clone(),
        Event::Spoke { message } => message.clone(),
        Event::Heard { speaker, message } => line_heard(speaker, message),
    }
}

/// Builds a request that opens with two instructions, goes on with `events`
/// as plain lines, and offers `function` alone.
pub fn build_plain_request(
    first: &str,
    second: &str,
    events: &Vec<Event>,
    function: Function,
) -> (body: ChatCompletionBody)
    ensures
        body.deep_view() == (ChatCompletionBodyView {
            functions: seq![function.deep_view()],
            ..plain_request(first@, second@, events.deep_view(), function.parameters)
        }),
{
    let mut messages: Vec<RequestMessage> = Vec::new();
    messages.push(RequestMessage::system(first.to_string()));
    messages.push(RequestMessage::system(second.to_string()));
    let mut k: usize = 0;
    while k < events.len()
        invariant
            k <= events.len(),
            messages.len() == 2 + k,
            messages[0].deep_view() == system_message(first@),
            messages[1].deep_view() == system_message(second@),
            forall|j: int|
                0 <= j < k ==> (#[trigger] messages[2 + j]).deep_view() == user_message(
                    event_line(events[j].deep_view()),
                ),
        decreases events.len() - k,
    {
        messages.push(RequestMessage::user(line_of_event(&events[k])));
        k += 1;
    }
    proof {
        let opening = seq![system_message(first@), system_message(second@)];
        let lines = events.deep_view().map_values(
            |event: EventView| user_message(event_line(event)),
        );
        let built = messages.deep_view();
        assert forall|j: int| 0 <= j < built.len() implies built[j] == (opening + lines)[j] by {
            if j >= 2 {
                assert(built[j] == messages[2 + (j - 2)].deep_view());
            }
        }
        assert(built =~= opening + lines);
    }
    let functions = vec![function];
    assert(functions.deep_view() =~= seq![function.deep_view()]);
    ChatCompletionBody {
        model: "gpt-4-0613".to_string(),
        messages,
        temperature_percent: 70,
        max_tokens: 4000,
        function_call: FunctionCallName::Auto,
        functions,
    }
}

/// Builds the request that asks `agent` what it thinks: its persona, the
/// instruction `system_prompt`, then its log, with the thinking function on
/// offer.
pub fn thinking(agent: &Agent, system_prompt: &str) -> (body: ChatCompletionBody)
    ensures
        body.deep_view() == plain_request(
            agent.prompt@,
            system_prompt@,
            agent.events.deep_view(),
            Shape::Thinking,
        ),
{
    build_plain_request(
        agent.prompt.as_str(),
        system_prompt,
        &agent.events,
        <FunctionArgs as crate::agent_act::FunctionArgs>::get_function(),
    )
}

} // verus!
