//! What is put to the generation service on behalf of one agent.

use vstd::prelude::*;
use vstd::string::StringExecFns;

use crate::json::{chat_arguments, chat_arguments_text, reaction_arguments, reaction_arguments_text};
use crate::model::{Agent, AgentView, Event, EventView};
use crate::openai::{
    function_message, system_message, ChatCompletionBody, ChatCompletionBodyView, Function,
    FunctionCallName, FunctionCallNameView, FunctionView, RequestMessage, RequestMessageView,
    Shape,
};

verus! {

/// The model the requests are put to.
pub open spec fn model_name() -> Seq<char> {
    "gpt-4-0613"@
}

/// The name under which the service calls the function of `shape`.
pub open spec fn function_name(shape: Shape) -> Seq<char> {
    match shape {
        Shape::Reaction | Shape::Thinking => "thinking"@,
        Shape::Chat | Shape::Speech => "chat"@,
    }
}

/// What the service is told the function of `shape` is for.
pub open spec fn function_description(shape: Shape) -> Seq<char> {
    match shape {
        Shape::Reaction | Shape::Thinking => "Output what you are thinking."@,
        Shape::Chat | Shape::Speech => "Speaks out against other players."@,
    }
}

/// The description of the function of `shape`.
pub open spec fn function_of(shape: Shape) -> FunctionView {
    FunctionView {
        name: function_name(shape),
        description: function_description(shape),
        parameters: shape,
    }
}

/// The values offered to the service as examples of an urgency.
pub fn aggressiveness_examples() -> (examples: Vec<String>)
    ensures
        examples.deep_view() == seq!["1"@, "2"@, "3"@, "4"@, "5"@],
{
    let examples = vec![
        "1".to_string(),
        "2".to_string(),
        "3".to_string(),
        "4".to_string(),
        "5".to_string(),
    ];
    examples
}

/// A structured answer the service can be asked for.
pub trait FunctionArgs {
    /// Which shape the answer has.
    spec fn shape() -> Shape;

    /// The name of the function that yields this answer.
    fn get_name() -> (name: String)
        ensures
            name@ == function_name(Self::shape()),
    ;

    /// What the function is for.
    fn get_description() -> (description: String)
        ensures
            description@ == function_description(Self::shape()),
    ;

    /// The shape as a value.
    fn get_shape() -> (shape: Shape)
        ensures
            shape == Self::shape(),
    ;

    /// The function as it is described to the service.
    fn get_function() -> (function: Function)
        ensures
            function.deep_view() == function_of(Self::shape()),
    {
        Function {
            name: Self::get_name(),
            description: Self::get_description(),
            parameters: Self::get_shape(),
        }
    }
}

/// A private reflection: how eager the agent is to speak, and what it thinks.
#[derive(Debug, PartialEq, Eq)]
pub struct ReactionFunctionArgs {
    pub aggressiveness: usize,
    pub thinking: String,
}

/// Mathematical model of [`ReactionFunctionArgs`].
pub struct ReactionFunctionArgsView {
    pub aggressiveness: nat,
    pub thinking: Seq<char>,
}

impl DeepView for ReactionFunctionArgs {
    type V = ReactionFunctionArgsView;

    open spec fn deep_view(&self) -> ReactionFunctionArgsView {
        ReactionFunctionArgsView {
            aggressiveness: self.aggressiveness as nat,
            thinking: self.thinking@,
        }
    }
}

impl Clone for ReactionFunctionArgs {
    fn clone(&self) -> (copy: Self)
        ensures
            copy.deep_view() == self.deep_view(),
    {
        ReactionFunctionArgs {
            aggressiveness: self.aggressiveness,
            thinking: self.thinking.clone(),
        }
    }
}

impl FunctionArgs for ReactionFunctionArgs {
    open spec fn shape() -> Shape {
        Shape::Reaction
    }

    fn get_name() -> (name: String) {
        "thinking".to_string()
    }

    fn get_description() -> (description: String) {
        "Output what you are thinking.".to_string()
    }

    fn get_shape() -> (shape: Shape) {
        Shape::Reaction
    }
}

/// A spoken message.
#[derive(Debug, PartialEq, Eq)]
pub struct ChatFunctionArgs {
    pub message: String,
}

/// Mathematical model of [`ChatFunctionArgs`].
pub struct ChatFunctionArgsView {
    pub message: Seq<char>,
}

impl DeepView for ChatFunctionArgs {
    type V = ChatFunctionArgsView;

    open spec fn deep_view(&self) -> ChatFunctionArgsView {
        ChatFunctionArgsView { message: self.message@ }
    }
}

impl Clone for ChatFunctionArgs {
    fn clone(&self) -> (copy: Self)
        ensures
            copy.deep_view() == self.deep_view(),
    {
        ChatFunctionArgs { message: self.message.clone() }
    }
}

impl FunctionArgs for ChatFunctionArgs {
    open spec fn shape() -> Shape {
        Shape::Chat
    }

    fn get_name() -> (name: String) {
        "chat".to_string()
    }

    fn get_description() -> (description: String) {
        "Speaks out against other players.".to_string()
    }

    fn get_shape() -> (shape: Shape) {
        Shape::Chat
    }
}

/// The sentence that tells an agent its own name.
pub open spec fn name_prompt(name: Seq<char>) -> Seq<char> {
    "あなたの名前は「"@ + name + "」です。"@
}

/// What an agent heard, as one line of text.
pub open spec fn heard_line(speaker: Seq<char>, message: Seq<char>) -> Seq<char> {
    speaker + ": "@ + message
}

/// The message that puts one logged event back before its agent. What the
/// agent thought or said itself returns as the record of the function call
/// that produced it; what it heard returns as a line of the conversation.
pub open spec fn event_message(event: EventView) -> RequestMessageView {
    match event {
        EventView::Reaction { thinking, urgency } => function_message(
            function_name(Shape::Reaction),
            reaction_arguments_text(urgency, thinking),
        ),
        EventView::Spoke { message } => function_message(
            function_name(Shape::Chat),
            chat_arguments_text(message),
        ),
        EventView::Heard { speaker, message } => system_message(heard_line(speaker, message)),
    }
}

/// The context of a request on behalf of `agent`: the shared prompts, the
/// agent's name, its persona, then its own log from the oldest event to the
/// newest. No other agent's log takes part.
pub open spec fn agent_messages(agent: AgentView, common_prompts: Seq<Seq<char>>) -> Seq<
    RequestMessageView,
> {
    common_prompts.map_values(|prompt: Seq<char>| system_message(prompt)) + seq![
        system_message(name_prompt(agent.name)),
        system_message(agent.prompt),
    ] + agent.events.map_values(|event: EventView| event_message(event))
}

/// The request that asks `agent` for an answer of `shape`.
pub open spec fn agent_request(
    agent: AgentView,
    common_prompts: Seq<Seq<char>>,
    shape: Shape,
) -> ChatCompletionBodyView {
    ChatCompletionBodyView {
        model: model_name(),
        messages: agent_messages(agent, common_prompts),
        temperature_percent: 70,
        max_tokens: 500,
        function_call: FunctionCallNameView::Name { name: function_name(shape) },
        functions: seq![function_of(Shape::Reaction), function_of(Shape::Chat)],
    }
}

/// Writes what was heard as one line of text: the speaker, a colon, the
/// message.
pub fn line_heard(speaker: &String, message: &String) -> (line: String)
    ensures
        line@ == heard_line(speaker@, message@),
{
    let mut line = speaker.clone();
    line.append(": ");
    line.append(message.as_str());
    line
}

/// Puts one logged event back before its agent.
pub fn message_of_event(event: &Event) -> (message: RequestMessage)
    ensures
        message.deep_view() == event_message(event.deep_view()),
{
    match event {
        Event::Reaction { thinking, urgency } => RequestMessage::function(
            ReactionFunctionArgs::get_name(),
            reaction_arguments(*urgency, thinking.as_str()),
        ),
        Event::Spoke { message } => RequestMessage::function(
            ChatFunctionArgs::get_name(),
            chat_arguments(message.as_str()),
        ),
        Event::Heard { speaker, message } => RequestMessage::system(line_heard(speaker, message)),
    }
}

/// Builds the request that asks `agent` for an answer of the shape `F`. The
/// request forces the function of `F` and describes both the reaction and the
/// chat function.
pub fn agent_act<F: FunctionArgs>(agent: &Agent, common_prompts: &Vec<String>) -> (body:
    ChatCompletionBody)
    ensures
        body.deep_view() == agent_request(
            agent.deep_view(),
            common_prompts.deep_view(),
            F::shape(),
        ),
{
    let mut messages: Vec<RequestMessage> = Vec::new();
    let mut i: usize = 0;
    while i < common_prompts.len()
        invariant
            i <= common_prompts.len(),
            messages.len() == i,
            forall|j: int|
                0 <= j < i ==> (#[trigger] messages[j]).deep_view() == system_message(
                    common_prompts[j]@,
                ),
        decreases common_prompts.len() - i,
    {
        messages.push(RequestMessage::system(common_prompts[i].clone()));
        i += 1;
    }
    let mut introduction = String::from_str("あなたの名前は「");
    introduction.append(agent.name.as_str());
    introduction.append("」です。");
    messages.push(RequestMessage::system(introduction));
    messages.push(RequestMessage::system(agent.prompt.clone()));
    let head: usize = common_prompts.len();
    let mut k: usize = 0;
    while k < agent.events.len()
        invariant
            head == common_prompts.len(),
            k <= agent.events.len(),
            messages.len() == head + 2 + k,
            forall|j: int|
                0 <= j < head ==> (#[trigger] messages[j]).deep_view() == system_message(
                    common_prompts[j]@,
                ),
            messages[head as int].deep_view() == system_message(name_prompt(agent.name@)),
            messages[head + 1].deep_view() == system_message(agent.prompt@),
            forall|j: int|
                0 <= j < k ==> (#[trigger] messages[head + 2 + j]).deep_view() == event_message(
                    agent.events[j].deep_view(),
                ),
        decreases agent.events.len() - k,
    {
        messages.push(message_of_event(&agent.events[k]));
        k += 1;
    }
    proof {
        let shared = common_prompts.deep_view().map_values(
            |prompt: Seq<char>| system_message(prompt),
        );
        let own = seq![
            system_message(name_prompt(agent.name@)),
            system_message(agent.prompt@),
        ];
        let log = agent.events.deep_view().map_values(|event: EventView| event_message(event));
        let built = messages.deep_view();
        assert forall|j: int| 0 <= j < built.len() implies built[j] == (shared + own + log)[j] by {
            if j >= head + 2 {
                assert(built[j] == messages[head + 2 + (j - head - 2)].deep_view());
            }
        }
        assert(built =~= agent_messages(agent.deep_view(), common_prompts.deep_view()));
    }
    let functions = vec![ReactionFunctionArgs::get_function(), ChatFunctionArgs::get_function()];
    assert(functions.deep_view() =~= seq![function_of(Shape::Reaction), function_of(Shape::Chat)]);
    ChatCompletionBody {
        model: "gpt-4-0613".to_string(),
        messages,
        temperature_percent: 70,
        max_tokens: 500,
        function_call: FunctionCallName::Name { name: F::get_name() },
        functions,
    }
}

} // verus!
