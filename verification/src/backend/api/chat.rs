//! The assistant that answers questions about the digital twin: its system
//! instruction, the question it passes on, and the reply it shows.
use vstd::prelude::*;

verus! {

/// A question for the assistant.
#[derive(Debug)]
pub struct ChatRequest {
    /// The user's question.
    pub message: String,
}

/// The assistant's answer.
#[derive(Debug)]
pub struct ChatResponse {
    /// Text of the answer.
    pub reply: String,
}

/// Opening of the system instruction, up to the telemetry JSON.
pub open spec fn prompt_head() -> Seq<char> {
    "Your name is EcoTech. You are an expert AI in conservation technology and environmental monitoring.\nYou specialize in analyzing telemetry data for ecological studies.\nThe current real-time telemetry from all active hardware nodes is provided below in JSON format:\n"@
}

/// Rules of the system instruction, after the telemetry JSON.
pub open spec fn prompt_rules() -> Seq<char> {
    "\n\nRules:\n- Act as a conversational assistant. DO NOT analyze or list the telemetry data unless the user explicitly asks for it.\n- If the user asks who you are or what you can do, introduce yourself and mention that you can analyze real-time biosensor telemetry.\n- If they ask for telemetry data not present in the JSON, state clearly that the nodes are not providing that data right now.\n- Be professional, but maintain a slightly cyberpunk/hacker tone suitable for an Agent Terminal UI."@
}

/// The system instruction: the twin's JSON between the opening and the
/// rules.
pub open spec fn system_prompt_text(twin_json: Seq<char>) -> Seq<char> {
    prompt_head() + twin_json + prompt_rules()
}

/// Builds the system instruction sent to the model, apart from the user's
/// question.
pub fn system_prompt(twin_json: &str) -> (prompt: String)
    ensures
        prompt@ == system_prompt_text(twin_json@),
{
    let mut p = String::from_str("Your name is EcoTech. You are an expert AI in conservation technology and environmental monitoring.\nYou specialize in analyzing telemetry data for ecological studies.\nThe current real-time telemetry from all active hardware nodes is provided below in JSON format:\n");
    p.append(twin_json);
    p.append("\n\nRules:\n- Act as a conversational assistant. DO NOT analyze or list the telemetry data unless the user explicitly asks for it.\n- If the user asks who you are or what you can do, introduce yourself and mention that you can analyze real-time biosensor telemetry.\n- If they ask for telemetry data not present in the JSON, state clearly that the nodes are not providing that data right now.\n- Be professional, but maintain a slightly cyberpunk/hacker tone suitable for an Agent Terminal UI.");
    p
}

/// Longest question passed to the model, in chars.
pub const MAX_MESSAGE_CHARS: usize = 2000;

/// The question as passed to the model: its first `MAX_MESSAGE_CHARS`
/// chars.
pub open spec fn truncated_text(message: Seq<char>) -> Seq<char> {
    if message.len() <= MAX_MESSAGE_CHARS {
        message
    } else {
        message.subrange(0, MAX_MESSAGE_CHARS as int)
    }
}

/// Cuts the user's question to its first `MAX_MESSAGE_CHARS` chars.
pub fn truncate_message(message: &str) -> (m: String)
    ensures
        m@ == truncated_text(message@),
{
    let n = message.unicode_len();
    if n <= MAX_MESSAGE_CHARS {
        message.to_owned()
    } else {
        message.substring_char(0, MAX_MESSAGE_CHARS).to_owned()
    }
}

/// Why a question to the assistant got no answer.
#[derive(Debug, Clone, Copy, PartialEq, Eq, Structural)]
pub enum ChatFailure {
    /// The API key is missing or wrong.
    Unauthorized,
    /// The model's key is not configured on the server.
    NotConfigured,
    /// The HTTP client could not be built.
    ClientError,
    /// The request to the model failed.
    RequestFailed,
    /// The model answered with a non-success status.
    ApiError,
    /// The model's answer could not be read.
    ParseError,
}

/// Text of the reply for a failure.
pub open spec fn failure_text(f: ChatFailure) -> Seq<char> {
    match f {
        ChatFailure::Unauthorized => "No autorizado - API Key faltante o inválida"@,
        ChatFailure::NotConfigured => "AI not configured on server"@,
        ChatFailure::ClientError => "Client error"@,
        ChatFailure::RequestFailed => "AI request failed"@,
        ChatFailure::ApiError => "AI API returned an error"@,
        ChatFailure::ParseError => "AI Response parse error"@,
    }
}

impl ChatFailure {
    /// HTTP status of the reply: 401 for a missing or wrong API key, 500
    /// otherwise.
    pub fn status(self) -> (code: u16)
        ensures
            code == if self is Unauthorized {
                401u16
            } else {
                500u16
            },
    {
        match self {
            ChatFailure::Unauthorized => 401,
            _ => 500,
        }
    }

    /// Text of the reply.
    pub fn message(self) -> (m: String)
        ensures
            m@ == failure_text(self),
    {
        match self {
            ChatFailure::Unauthorized => String::from_str(
                "No autorizado - API Key faltante o inválida",
            ),
            ChatFailure::NotConfigured => String::from_str("AI not configured on server"),
            ChatFailure::ClientError => String::from_str("Client error"),
            ChatFailure::RequestFailed => String::from_str("AI request failed"),
            ChatFailure::ApiError => String::from_str("AI API returned an error"),
            ChatFailure::ParseError => String::from_str("AI Response parse error"),
        }
    }
}

/// Shown when the model returns no text.
pub open spec fn no_reply_text() -> Seq<char> {
    "No response generated by the AI."@
}

/// The reply shown for a model answer whose candidates hold these part
/// texts: the last part of the last candidate.
pub open spec fn reply_text(candidates: Option<Seq<Seq<Seq<char>>>>) -> Seq<char> {
    match candidates {
        Some(c) => if c.len() > 0 && c.last().len() > 0 {
            c.last().last()
        } else {
            no_reply_text()
        },
        None => no_reply_text(),
    }
}

/// Views of candidates given as lists of part texts.
pub open spec fn candidate_views(c: Seq<Vec<String>>) -> Seq<Seq<Seq<char>>> {
    c.map_values(|parts: Vec<String>| parts@.map_values(|t: String| t@))
}

/// Picks the reply out of the model's candidates (each given as the texts
/// of its parts).
pub fn extract_reply(candidates: Option<Vec<Vec<String>>>) -> (reply: String)
    ensures
        reply@ == reply_text(
            match candidates {
                Some(c) => Some(candidate_views(c@)),
                None => None,
            },
        ),
{
    match candidates {
        Some(mut c) => {
            match c.pop() {
                Some(mut parts) => match parts.pop() {
                    Some(text) => text,
                    None => String::from_str("No response generated by the AI."),
                },
                None => String::from_str("No response generated by the AI."),
            }
        },
        None => String::from_str("No response generated by the AI."),
    }
}

} // verus!
