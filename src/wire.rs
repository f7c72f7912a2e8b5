//! The values exchanged with a chat server, as the library reads and
//! builds them. Turning bytes into these values (and back) is left to the
//! caller's JSON codec.
use vstd::prelude::*;

use crate::endpoint::EndpointType;

verus! {

/// One entry of a compatible-family model listing, `{id}`.
#[derive(Debug, Clone)]
pub struct ModelData {
    pub id: String,
}

/// A compatible-family model listing, `{data:[{id}]}`.
#[derive(Debug, Clone)]
pub struct ModelsResponse {
    pub data: Vec<ModelData>,
}

/// One entry of a native-family model listing, `{name}`.
#[derive(Debug, Clone)]
pub struct ModelDetails {
    pub name: String,
}

/// A native-family model listing, `{models:[{name}]}`.
#[derive(Debug, Clone)]
pub struct OllamaModelsResponse {
    pub models: Vec<ModelDetails>,
}

/// One message of a conversation, `{role, content}`.
#[derive(Debug, Clone)]
pub struct ChatMessage {
    pub role: String,
    pub content: String,
}

/// `choices[i].delta` of a compatible-family stream frame.
#[derive(Debug, Clone)]
pub struct DeltaContent {
    pub content: Option<String>,
}

/// `choices[i]` of a compatible-family stream frame.
#[derive(Debug, Clone)]
pub struct Choice {
    pub delta: DeltaContent,
    pub finish_reason: Option<String>,
}

/// A compatible-family stream frame, `{choices:[{delta:{content}, finish_reason}]}`.
#[derive(Debug, Clone)]
pub struct ChatResponse {
    pub choices: Vec<Choice>,
}

/// A native-family stream frame, `{message:{content}, done}`: `content` is
/// present when `message.content` is a string, and `done` holds when the
/// frame's `done` is `true`.
#[derive(Debug, Clone)]
pub struct NativeChunk {
    pub content: Option<String>,
    pub done: bool,
}

/// The body of a chat request. The sampling temperature is kept in
/// hundredths (`70` stands for `0.7`).
#[derive(Debug, Clone)]
pub struct ChatRequest {
    pub model: String,
    pub messages: Vec<ChatMessage>,
    pub temperature_hundredths: Option<u32>,
    pub stream: bool,
}

/// The text of an optional string.
pub open spec fn text_of(o: Option<String>) -> Option<Seq<char>> {
    match o {
        Some(s) => Some(s@),
        None => None,
    }
}

/// The identifiers of a compatible-family listing, in order.
pub fn model_ids(resp: &ModelsResponse) -> (r: Vec<String>)
    ensures
        r@.len() == resp.data@.len(),
        forall|i: int| 0 <= i < r@.len() ==> #[trigger] r@[i]@ == resp.data@[i].id@,
{
    let mut out: Vec<String> = Vec::new();
    let mut i: usize = 0;
    while i < resp.data.len()
        invariant
            i <= resp.data@.len(),
            out@.len() == i,
            forall|k: int| 0 <= k < i ==> #[trigger] out@[k]@ == resp.data@[k].id@,
        decreases resp.data@.len() - i,
    {
        out.push(resp.data[i].id.clone());
        i = i + 1;
    }
    out
}

/// The names of a native-family listing, in order.
pub fn model_names(resp: &OllamaModelsResponse) -> (r: Vec<String>)
    ensures
        r@.len() == resp.models@.len(),
        forall|i: int| 0 <= i < r@.len() ==> #[trigger] r@[i]@ == resp.models@[i].name@,
{
    let mut out: Vec<String> = Vec::new();
    let mut i: usize = 0;
    while i < resp.models.len()
        invariant
            i <= resp.models@.len(),
            out@.len() == i,
            forall|k: int| 0 <= k < i ==> #[trigger] out@[k]@ == resp.models@[k].name@,
        decreases resp.models@.len() - i,
    {
        out.push(resp.models[i].name.clone());
        i = i + 1;
    }
    out
}

/// A copy of a message, field by field.
pub fn copy_message(m: &ChatMessage) -> (r: ChatMessage)
    ensures
        r == *m,
{
    ChatMessage { role: m.role.clone(), content: m.content.clone() }
}

/// A copy of a list of messages.
pub fn copy_messages(v: &Vec<ChatMessage>) -> (r: Vec<ChatMessage>)
    ensures
        r@ == v@,
{
    let mut out: Vec<ChatMessage> = Vec::new();
    let mut i: usize = 0;
    while i < v.len()
        invariant
            i <= v@.len(),
            out@ == v@.subrange(0, i as int),
        decreases v@.len() - i,
    {
        out.push(copy_message(&v[i]));
        i = i + 1;
        assert(out@ =~= v@.subrange(0, i as int));
    }
    assert(v@.subrange(0, i as int) =~= v@);
    out
}

/// The outgoing message array: `history` verbatim and in order, followed by
/// exactly one user message holding `prompt`.
pub fn build_messages(history: &Vec<ChatMessage>, prompt: &str) -> (r: Vec<ChatMessage>)
    ensures
        r@.len() == history@.len() + 1,
        r@.subrange(0, history@.len() as int) == history@,
        r@.last().role@ == "user"@,
        r@.last().content@ == prompt@,
{
    let mut out = copy_messages(history);
    out.push(ChatMessage { role: String::from_str("user"), content: String::from_str(prompt) });
    assert(out@.subrange(0, history@.len() as int) =~= history@);
    out
}

/// The sampling temperature that the compatible family is sent, in
/// hundredths.
pub const COMPATIBLE_TEMPERATURE_HUNDREDTHS: u32 = 70;

/// The body of a streaming chat request: the model, `history` followed by
/// one user message holding `prompt`, streaming on, and for the compatible
/// family a temperature of 0.7.
pub fn chat_request(family: EndpointType, history: &Vec<ChatMessage>, prompt: &str, model: &str) -> (r: ChatRequest)
    ensures
        r.model@ == model@,
        r.messages@.len() == history@.len() + 1,
        r.messages@.subrange(0, history@.len() as int) == history@,
        r.messages@.last().role@ == "user"@,
        r.messages@.last().content@ == prompt@,
        r.stream,
        family == EndpointType::LMStudio ==> r.temperature_hundredths == Some(70u32),
        family == EndpointType::Ollama ==> r.temperature_hundredths is None,
{
    let temperature_hundredths = match family {
        EndpointType::LMStudio => Some(COMPATIBLE_TEMPERATURE_HUNDREDTHS),
        EndpointType::Ollama => None,
    };
    ChatRequest {
        model: String::from_str(model),
        messages: build_messages(history, prompt),
        temperature_hundredths,
        stream: true,
    }
}

} // verus!
