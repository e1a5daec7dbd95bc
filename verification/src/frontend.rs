//! Decisions of the web dashboard: the telemetry stream address, the link
//! status, and the assistant's chat panel.
use crate::text::{has_visible, has_visible_char, str_eq};
use vstd::prelude::*;

verus! {

/// State of the dashboard's telemetry stream.
#[derive(Debug, Clone, Copy, PartialEq, Eq, Structural)]
pub enum ConnectionStatus {
    /// No link; a reconnection is scheduled.
    Disconnected,
    /// Opening the link.
    Connecting,
    /// Streaming.
    Connected,
}

/// Address of the telemetry stream for a page served over `protocol` from
/// `host`: secure pages use `wss:`.
pub open spec fn websocket_url_text(protocol: Seq<char>, host: Seq<char>) -> Seq<char> {
    (if protocol == "https:"@ {
        "wss:"@
    } else {
        "ws:"@
    }) + "//"@ + host + "/api/ws"@
}

/// Builds the address of the telemetry stream.
pub fn websocket_url(protocol: &str, host: &str) -> (url: String)
    ensures
        url@ == websocket_url_text(protocol@, host@),
{
    let mut url = if str_eq(protocol, "https:") {
        String::from_str("wss:")
    } else {
        String::from_str("ws:")
    };
    url.append("//");
    url.append(host);
    url.append("/api/ws");
    url
}

/// A line of the chat panel.
#[derive(Debug)]
pub struct ChatMessage {
    /// `User`, `AI` or `System`.
    pub sender: String,
    /// The text.
    pub text: String,
}

/// How a question to the assistant ended.
#[derive(Debug)]
pub enum ChatOutcome {
    /// The assistant answered with this text.
    Reply(String),
    /// The answer could not be read.
    MalformedReply,
    /// The service answered with this (non-success) status.
    ApiError(String),
    /// The request failed with this error.
    NetworkError(String),
}

/// The line shown for an outcome: (sender, text).
pub open spec fn outcome_line(o: ChatOutcome) -> (Seq<char>, Seq<char>) {
    match o {
        ChatOutcome::Reply(t) => ("AI"@, t@),
        ChatOutcome::MalformedReply => ("System"@, "Error parsing AI response."@),
        ChatOutcome::ApiError(s) => ("System"@, "API Error: "@ + s@),
        ChatOutcome::NetworkError(e) => ("System"@, "Network Error: "@ + e@),
    }
}

/// Lines of a transcript, as (sender, text).
pub open spec fn line_views(m: Seq<ChatMessage>) -> Seq<(Seq<char>, Seq<char>)> {
    m.map_values(|c: ChatMessage| (c.sender@, c.text@))
}

/// The assistant's chat panel.
#[derive(Debug)]
pub struct ChatPanel {
    /// Transcript, oldest first.
    pub messages: Vec<ChatMessage>,
    /// Text being typed.
    pub input: String,
    /// A question is in flight.
    pub is_loading: bool,
    /// The panel is shown.
    pub is_open: bool,
}

impl ChatPanel {
    /// A closed panel with an empty transcript.
    pub fn new() -> (p: ChatPanel)
        ensures
            p.messages@.len() == 0,
            p.input@.len() == 0,
            !p.is_loading,
            !p.is_open,
    {
        ChatPanel { messages: Vec::new(), input: String::new(), is_loading: false, is_open: false }
    }

    /// Shows or hides the panel.
    pub fn toggle(&mut self)
        ensures
            final(self).is_open == !old(self).is_open,
            final(self).messages@ == old(self).messages@,
            final(self).input@ == old(self).input@,
            final(self).is_loading == old(self).is_loading,
    {
        self.is_open = !self.is_open;
    }

    /// The typed text can be sent: it holds more than white space.
    pub fn can_send(&self) -> (ok: bool)
        ensures
            ok == has_visible_char(self.input@),
    {
        has_visible(self.input.as_str())
    }

    /// A question leaves: it joins the transcript as the user's line and the
    /// panel waits for the answer.
    pub fn begin_send(&mut self, question: String)
        ensures
            line_views(final(self).messages@) == line_views(old(self).messages@).push(
                ("User"@, question@),
            ),
            final(self).is_loading,
            final(self).input@ == old(self).input@,
            final(self).is_open == old(self).is_open,
    {
        self.is_loading = true;
        self.messages.push(ChatMessage { sender: String::from_str("User"), text: question });
        assert(line_views(self.messages@) =~= line_views(old(self).messages@).push(
            ("User"@, question@),
        ));
    }

    /// The answer arrives: its line joins the transcript, the panel stops
    /// waiting and the input is cleared.
    pub fn finish(&mut self, outcome: ChatOutcome)
        ensures
            line_views(final(self).messages@) == line_views(old(self).messages@).push(
                outcome_line(outcome),
            ),
            !final(self).is_loading,
            final(self).input@.len() == 0,
            final(self).is_open == old(self).is_open,
    {
        let ghost line = outcome_line(outcome);
        let message = match outcome {
            ChatOutcome::Reply(t) => ChatMessage { sender: String::from_str("AI"), text: t },
            ChatOutcome::MalformedReply => ChatMessage {
                sender: String::from_str("System"),
                text: String::from_str("Error parsing AI response."),
            },
            ChatOutcome::ApiError(s) => {
                let mut text = String::from_str("API Error: ");
                text.append(s.as_str());
                ChatMessage { sender: String::from_str("System"), text }
            },
            ChatOutcome::NetworkError(e) => {
                let mut text = String::from_str("Network Error: ");
                text.append(e.as_str());
                ChatMessage { sender: String::from_str("System"), text }
            },
        };
        assert((message.sender@, message.text@) == line);
        self.messages.push(message);
        self.is_loading = false;
        self.input = String::new();
        assert(line_views(self.messages@) =~= line_views(old(self).messages@).push(line));
    }
}

} // verus!
