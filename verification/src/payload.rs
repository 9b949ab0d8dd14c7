//! The request contract of the chat component: what a request may leave
//! out, what is sent on its behalf, and how the reply is read.
//!
//! Reading and writing JSON and talking to the network are the caller's
//! part. What is decided here works on the values in between.

use vstd::prelude::*;

verus! {

/// How many seconds the component waits for a connection.
pub const CONNECT_TIMEOUT_SECS: u64 = 30;

/// The endpoint a request is sent to when it names none.
pub fn default_endpoint() -> (endpoint: String)
    ensures
        endpoint@ == "https://api.openai.com/v1/chat/completions"@,
{
    "https://api.openai.com/v1/chat/completions".to_string()
}

/// The model a request asks for when it names none.
pub fn default_model() -> (model: String)
    ensures
        model@ == "gpt-3.5-turbo"@,
{
    "gpt-3.5-turbo".to_string()
}

/// The reply length a request allows when it names none.
pub fn default_max_tokens() -> (limit: u32)
    ensures
        limit == 150,
{
    150
}

/// One turn of a conversation.
#[derive(Clone, Debug, PartialEq, Eq)]
pub struct Message {
    pub role: String,
    pub content: String,
}

/// A message as a plain value.
pub struct MessageView {
    pub role: Seq<char>,
    pub content: Seq<char>,
}

impl View for Message {
    type V = MessageView;

    open spec fn view(&self) -> MessageView {
        MessageView { role: self.role@, content: self.content@ }
    }
}

/// The messages of a conversation as plain values.
pub open spec fn turns(messages: Seq<Message>) -> Seq<MessageView> {
    messages.map_values(|m: Message| m@)
}

/// What the component is asked: a prompt, and what goes with it.
#[derive(Clone, Debug, PartialEq, Eq)]
pub struct Input {
    pub prompt: String,
    pub history: Vec<Message>,
    pub openai_endpoint: String,
    pub model_name: String,
    pub max_tokens: u32,
}

/// What the component sends to the endpoint.
#[derive(Clone, Debug, PartialEq, Eq)]
pub struct OpenAIRequest {
    pub model: String,
    pub messages: Vec<Message>,
    pub max_tokens: u32,
}

/// One of the replies that the endpoint offers.
#[derive(Clone, Debug, PartialEq, Eq)]
pub struct Choice {
    pub message: Message,
}

/// What the endpoint answers.
#[derive(Clone, Debug, PartialEq, Eq)]
pub struct OpenAIResponse {
    pub choices: Vec<Choice>,
}

/// Why a payload is no request.
#[derive(Clone, Copy, Debug, PartialEq, Eq, Structural)]
pub enum PayloadError {
    /// The payload has no prompt.
    MissingPrompt,
}

impl Input {
    /// Makes a request of the fields that a payload held. The prompt must be
    /// there; every other field that is missing gets its default: an empty
    /// history, `default_endpoint`, `default_model`, `default_max_tokens`.
    pub fn from_fields(
        prompt: Option<String>,
        history: Option<Vec<Message>>,
        openai_endpoint: Option<String>,
        model_name: Option<String>,
        max_tokens: Option<u32>,
    ) -> (result: Result<Input, PayloadError>)
        ensures
            result is Ok <==> prompt is Some,
            result is Err ==> result->Err_0 == PayloadError::MissingPrompt,
            result is Ok ==> {
                let input = result->Ok_0;
                &&& input.prompt@ == prompt->0@
                &&& turns(input.history@) == match history {
                    Some(given) => turns(given@),
                    None => Seq::empty(),
                }
                &&& input.openai_endpoint@ == match openai_endpoint {
                    Some(given) => given@,
                    None => "https://api.openai.com/v1/chat/completions"@,
                }
                &&& input.model_name@ == match model_name {
                    Some(given) => given@,
                    None => "gpt-3.5-turbo"@,
                }
                &&& input.max_tokens == match max_tokens {
                    Some(given) => given,
                    None => 150u32,
                }
            },
    {
        let prompt = match prompt {
            Some(prompt) => prompt,
            None => {
                return Err(PayloadError::MissingPrompt);
            },
        };
        let history = match history {
            Some(history) => history,
            None => {
                let empty: Vec<Message> = Vec::new();
                assert(turns(empty@) =~= Seq::empty());
                empty
            },
        };
        let openai_endpoint = match openai_endpoint {
            Some(endpoint) => endpoint,
            None => default_endpoint(),
        };
        let model_name = match model_name {
            Some(model) => model,
            None => default_model(),
        };
        let max_tokens = match max_tokens {
            Some(limit) => limit,
            None => default_max_tokens(),
        };
        Ok(Input { prompt, history, openai_endpoint, model_name, max_tokens })
    }
}

/// The endpoint and the request for an input: the history, then the prompt
/// as a turn of the user, for the model and within the length that the
/// input names.
pub fn build_request(input: Input) -> (outgoing: (String, OpenAIRequest))
    ensures
        outgoing.0@ == input.openai_endpoint@,
        outgoing.1.model@ == input.model_name@,
        outgoing.1.max_tokens == input.max_tokens,
        turns(outgoing.1.messages@) == turns(input.history@).push(
            MessageView { role: "user"@, content: input.prompt@ },
        ),
{
    let Input { prompt, history, openai_endpoint, model_name, max_tokens } = input;
    let ghost earlier = turns(history@);
    let mut messages = history;
    messages.push(Message { role: "user".to_string(), content: prompt });
    assert(turns(messages@) =~= earlier.push(
        MessageView { role: "user"@, content: prompt@ },
    ));
    (openai_endpoint, OpenAIRequest { model: model_name, messages, max_tokens })
}

/// The value of the authorization header for an API key.
pub fn authorization_header(api_key: &str) -> (value: String)
    ensures
        value@ == "Bearer "@ + api_key@,
{
    "Bearer ".to_string().concat(api_key)
}

/// Whether a status is one of success: from 200 up to 299.
pub fn status_is_success(status: u16) -> (success: bool)
    ensures
        success == (200 <= status < 300),
{
    200 <= status && status < 300
}

/// The answer in a response: the content of its first choice, if it has any
/// choice.
pub fn first_answer(response: &OpenAIResponse) -> (answer: Option<&String>)
    ensures
        answer is Some <==> response.choices@.len() > 0,
        answer is Some ==> answer->0@ == response.choices@[0].message.content@,
{
    if response.choices.len() > 0 {
        Some(&response.choices[0].message.content)
    } else {
        None
    }
}

} // verus!
