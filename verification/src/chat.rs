//! Asking an agent to speak on its own: one function, left to the service's
//! choice, with the agent's log handed over as plain lines.

use vstd::prelude::*;

use crate::model::Agent;
use crate::openai::{ChatCompletionBody, Shape};
use crate::thinking::{build_plain_request, plain_request};

verus! {

/// A spoken message.
#[derive(Debug, PartialEq, Eq)]
pub struct FunctionArgs {
    pub message: String,
}

/// Mathematical model of [`FunctionArgs`].
pub struct FunctionArgsView {
    pub message: Seq<char>,
}

impl DeepView for FunctionArgs {
    type V = FunctionArgsView;

    open spec fn deep_view(&self) -> FunctionArgsView {
        FunctionArgsView { message: self.message@ }
    }
}

impl Clone for FunctionArgs {
    fn clone(&self) -> (copy: Self)
        ensures
            copy.deep_view() == self.deep_view(),
    {
        FunctionArgs { message: self.message.clone() }
    }
}

impl crate::agent_act::FunctionArgs for FunctionArgs {
    open spec fn shape() -> Shape {
        Shape::Speech
    }

    fn get_name() -> (name: String) {
        "chat".to_string()
    }

    fn get_description() -> (description: String) {
        "Speaks out against other players.".to_string()
    }

    fn get_shape() -> (shape: Shape) {
        Shape::Speech
    }
}

/// Builds the request that asks `agent` to speak: the instruction
/// `system_prompt`, its persona, then its log, with the chat function on
/// offer.
pub fn chat(agent: &Agent, system_prompt: &str) -> (body: ChatCompletionBody)
    ensures
        body.deep_view() == plain_request(
            system_prompt@,
            agent.prompt@,
            agent.events.deep_view(),
            Shape::Speech,
        ),
{
    build_plain_request(
        system_prompt,
        agent.prompt.as_str(),
        &agent.events,
        <FunctionArgs as crate::agent_act::FunctionArgs>::get_function(),
    )
}

} // verus!
