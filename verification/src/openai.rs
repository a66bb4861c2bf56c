//! The plain shapes exchanged with the generation service: what a request
//! holds and what is read out of a response.

use vstd::prelude::*;

verus! {

/// The view of an optional text.
pub open spec fn text_of(text: Option<String>) -> Option<Seq<char>> {
    match text {
        Some(s) => Some(s@),
        None => None,
    }
}

/// A structured-output shape the service can be asked for. The set is closed:
/// every shape a request may name is one of these.
#[derive(Clone, Copy, Debug, PartialEq, Eq, Structural)]
pub enum Shape {
    /// A private reflection with the eagerness to speak, under the key
    /// `aggressiveness`.
    Reaction,
    /// A spoken message, requested once a speaker is chosen.
    Chat,
    /// A private reflection with the eagerness to speak, under the key
    /// `positivity`.
    Thinking,
    /// A spoken message, requested on its own.
    Speech,
}

/// A function call: the name of the function and its arguments as JSON text.
#[derive(Debug, PartialEq, Eq)]
pub struct FunctionCall {
    pub name: String,
    pub arguments: String,
}

/// Mathematical model of a [`FunctionCall`].
pub struct FunctionCallView {
    pub name: Seq<char>,
    pub arguments: Seq<char>,
}

impl DeepView for FunctionCall {
    type V = FunctionCallView;

    open spec fn deep_view(&self) -> FunctionCallView {
        FunctionCallView { name: self.name@, arguments: self.arguments@ }
    }
}

impl Clone for FunctionCall {
    fn clone(&self) -> (copy: Self)
        ensures
            copy.deep_view() == self.deep_view(),
    {
        FunctionCall { name: self.name.clone(), arguments: self.arguments.clone() }
    }
}

/// The view of an optional function call.
pub open spec fn call_of(call: Option<FunctionCall>) -> Option<FunctionCallView> {
    match call {
        Some(c) => Some(c.deep_view()),
        None => None,
    }
}

/// One message of the context handed to the service.
#[derive(Debug, PartialEq, Eq)]
pub struct RequestMessage {
    pub role: String,
    pub content: Option<String>,
    pub name: Option<String>,
    pub function_call: Option<FunctionCall>,
}

/// Mathematical model of a [`RequestMessage`].
pub struct RequestMessageView {
    pub role: Seq<char>,
    pub content: Option<Seq<char>>,
    pub name: Option<Seq<char>>,
    pub function_call: Option<FunctionCallView>,
}

impl DeepView for RequestMessage {
    type V = RequestMessageView;

    open spec fn deep_view(&self) -> RequestMessageView {
        RequestMessageView {
            role: self.role@,
            content: text_of(self.content),
            name: text_of(self.name),
            function_call: call_of(self.function_call),
        }
    }
}

/// The model of an instruction given in the service's own voice.
pub open spec fn system_message(content: Seq<char>) -> RequestMessageView {
    RequestMessageView {
        role: "system"@,
        content: Some(content),
        name: None,
        function_call: None,
    }
}

/// The model of something put to the service from outside.
pub open spec fn user_message(content: Seq<char>) -> RequestMessageView {
    RequestMessageView { role: "user"@, content: Some(content), name: None, function_call: None }
}

/// The model of the record of an earlier function call. It has no content.
pub open spec fn function_message(name: Seq<char>, arguments: Seq<char>) -> RequestMessageView {
    RequestMessageView {
        role: "function"@,
        content: None,
        name: Some(name),
        function_call: Some(FunctionCallView { name, arguments }),
    }
}

impl RequestMessage {
    /// An instruction given in the service's own voice.
    pub fn system(content: String) -> (message: Self)
        ensures
            message.deep_view() == system_message(content@),
    {
        RequestMessage {
            role: "system".to_string(),
            content: Some(content),
            name: None,
            function_call: None,
        }
    }

    /// Something put to the service from outside.
    pub fn user(content: String) -> (message: Self)
        ensures
            message.deep_view() == user_message(content@),
    {
        RequestMessage {
            role: "user".to_string(),
            content: Some(content),
            name: None,
            function_call: None,
        }
    }

    /// The record of an earlier call of the function `name` with `arguments`.
    pub fn function(name: String, arguments: String) -> (message: Self)
        ensures
            message.deep_view() == function_message(name@, arguments@),
    {
        let call = FunctionCall { name: name.clone(), arguments };
        RequestMessage {
            role: "function".to_string(),
            content: None,
            name: Some(name),
            function_call: Some(call),
        }
    }
}

/// The description of one function the service may call.
#[derive(Debug, PartialEq, Eq)]
pub struct Function {
    pub name: String,
    pub description: String,
    /// Which shape the arguments of the function have.
    pub parameters: Shape,
}

/// Mathematical model of a [`Function`].
pub struct FunctionView {
    pub name: Seq<char>,
    pub description: Seq<char>,
    pub parameters: Shape,
}

impl DeepView for Function {
    type V = FunctionView;

    open spec fn deep_view(&self) -> FunctionView {
        FunctionView {
            name: self.name@,
            description: self.description@,
            parameters: self.parameters,
        }
    }
}

/// Which function the service has to call.
#[derive(Debug, PartialEq, Eq)]
pub enum FunctionCallName {
    /// The service chooses by itself.
    Auto,
    /// The service must call the function of this name.
    Name { name: String },
}

/// Mathematical model of a [`FunctionCallName`].
pub enum FunctionCallNameView {
    Auto,
    Name { name: Seq<char> },
}

impl DeepView for FunctionCallName {
    type V = FunctionCallNameView;

    open spec fn deep_view(&self) -> FunctionCallNameView {
        match *self {
            FunctionCallName::Auto => FunctionCallNameView::Auto,
            FunctionCallName::Name { name } => FunctionCallNameView::Name { name: name@ },
        }
    }
}

/// A complete request to the service.
#[derive(Debug, PartialEq, Eq)]
pub struct ChatCompletionBody {
    pub model: String,
    pub messages: Vec<RequestMessage>,
    /// The sampling temperature in hundredths.
    pub temperature_percent: u32,
    pub max_tokens: u32,
    pub function_call: FunctionCallName,
    pub functions: Vec<Function>,
}

/// Mathematical model of a [`ChatCompletionBody`].
pub struct ChatCompletionBodyView {
    pub model: Seq<char>,
    pub messages: Seq<RequestMessageView>,
    pub temperature_percent: nat,
    pub max_tokens: nat,
    pub function_call: FunctionCallNameView,
    pub functions: Seq<FunctionView>,
}

impl DeepView for ChatCompletionBody {
    type V = ChatCompletionBodyView;

    open spec fn deep_view(&self) -> ChatCompletionBodyView {
        ChatCompletionBodyView {
            model: self.model@,
            messages: self.messages.deep_view(),
            temperature_percent: self.temperature_percent as nat,
            max_tokens: self.max_tokens as nat,
            function_call: self.function_call.deep_view(),
            functions: self.functions.deep_view(),
        }
    }
}

/// The message of one choice in a response.
#[derive(Debug, PartialEq, Eq)]
pub struct MessageResponse {
    pub role: String,
    pub content: Option<String>,
    pub function_call: Option<FunctionCall>,
}

/// Mathematical model of a [`MessageResponse`].
pub struct MessageResponseView {
    pub role: Seq<char>,
    pub content: Option<Seq<char>>,
    pub function_call: Option<FunctionCallView>,
}

impl DeepView for MessageResponse {
    type V = MessageResponseView;

    open spec fn deep_view(&self) -> MessageResponseView {
        MessageResponseView {
            role: self.role@,
            content: text_of(self.content),
            function_call: call_of(self.function_call),
        }
    }
}

impl Clone for MessageResponse {
    fn clone(&self) -> (copy: Self)
        ensures
            copy.deep_view() == self.deep_view(),
    {
        MessageResponse {
            role: self.role.clone(),
            content: match &self.content {
                Some(text) => Some(text.clone()),
                None => None,
            },
            function_call: match &self.function_call {
                Some(call) => Some(call.clone()),
                None => None,
            },
        }
    }
}

/// One of the alternatives a response offers.
#[derive(Debug, PartialEq, Eq)]
pub struct Choice {
    pub index: i32,
    pub message: MessageResponse,
}

/// Mathematical model of a [`Choice`].
pub struct ChoiceView {
    pub index: int,
    pub message: MessageResponseView,
}

impl DeepView for Choice {
    type V = ChoiceView;

    open spec fn deep_view(&self) -> ChoiceView {
        ChoiceView { index: self.index as int, message: self.message.deep_view() }
    }
}

impl Clone for Choice {
    fn clone(&self) -> (copy: Self)
        ensures
            copy.deep_view() == self.deep_view(),
    {
        Choice { index: self.index, message: self.message.clone() }
    }
}

/// What the service sent back.
#[derive(Debug, PartialEq, Eq)]
pub struct Response {
    pub id: String,
    pub object: String,
    pub created: i64,
    pub model: String,
    pub choices: Vec<Choice>,
}

/// Mathematical model of a [`Response`].
pub struct ResponseView {
    pub id: Seq<char>,
    pub object: Seq<char>,
    pub created: int,
    pub model: Seq<char>,
    pub choices: Seq<ChoiceView>,
}

impl DeepView for Response {
    type V = ResponseView;

    open spec fn deep_view(&self) -> ResponseView {
        ResponseView {
            id: self.id@,
            object: self.object@,
            created: self.created as int,
            model: self.model@,
            choices: self.choices.deep_view(),
        }
    }
}

impl Clone for Response {
    fn clone(&self) -> (copy: Self)
        ensures
            copy.deep_view() == self.deep_view(),
    {
        let mut choices: Vec<Choice> = Vec::new();
        let mut k: usize = 0;
        while k < self.choices.len()
            invariant
                k <= self.choices.len(),
                choices.len() == k,
                forall|j: int|
                    0 <= j < k ==> (#[trigger] choices[j]).deep_view()
                        == self.choices[j].deep_view(),
            decreases self.choices.len() - k,
        {
            choices.push(self.choices[k].clone());
            k += 1;
        }
        assert(choices.deep_view() =~= self.choices.deep_view());
        Response {
            id: self.id.clone(),
            object: self.object.clone(),
            created: self.created,
            model: self.model.clone(),
            choices,
        }
    }
}

/// The service could not be reached, or sent nothing that can be read as a
/// response.
#[derive(Debug, Clone, Copy, PartialEq, Eq)]
pub struct OpenAIClientError;

/// What one call of the service came to: an answer of type `T`, no answer
/// (`Ok(None)`), or a failure to get through to the service at all.
pub type Reply<T> = Result<Option<T>, OpenAIClientError>;

/// Why a call of the service brought no answer.
#[derive(Clone, Copy, Debug, PartialEq, Eq, Structural)]
pub enum Failure {
    /// The service could not be reached.
    TransportFailure,
    /// The service responded, but called no function.
    DeclinedAnswer,
    /// The service called a function with arguments of another shape than the
    /// one asked for.
    MalformedResult,
}

/// The reply that a call ends in when it fails. A failure of transport stays
/// apart as an error; a declined answer and a malformed one both count as no
/// answer. None of them holds an answer, so a round treats them all alike.
pub fn failed<T>(failure: Failure) -> (reply: Reply<T>)
    ensures
        reply is Err <==> failure is TransportFailure,
        reply matches Ok(answer) ==> answer is None,
{
    match failure {
        Failure::TransportFailure => Err(OpenAIClientError),
        Failure::DeclinedAnswer => Ok(None),
        Failure::MalformedResult => Ok(None),
    }
}

/// The function call that a response puts forward: that of its first choice,
/// if it has a choice and that choice calls a function.
pub open spec fn first_call(response: ResponseView) -> Option<FunctionCallView> {
    if response.choices.len() > 0 {
        response.choices[0].message.function_call
    } else {
        None
    }
}

/// Reads the function call out of a response. The service answers through its
/// first choice; a response without choices, or whose first choice calls no
/// function, is a declined answer.
pub fn recieve_function_call_args(response: &Response) -> (call: Option<FunctionCall>)
    ensures
        call_of(call) == first_call(response.deep_view()),
{
    if response.choices.len() == 0 {
        return None;
    }
    match &response.choices[0].message.function_call {
        Some(c) => Some(c.clone()),
        None => None,
    }
}

} // verus!
