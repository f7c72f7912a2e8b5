//! The consumer side of chat: the conversation history, the one job that
//! may be streaming, and what each redraw tick does with what arrived.
use vstd::prelude::*;

use crate::wire::{copy_messages, ChatMessage};

verus! {

/// The conversation as the UI thread owns it.
pub struct ChatSession {
    /// Turns in order; each role is `user`, `assistant` or `error`.
    pub history: Vec<ChatMessage>,
    /// The text streamed so far for the current job.
    pub current_response: String,
    /// Whether a job is streaming.
    pub streaming: bool,
}

/// A turn with `role` and `text`, as views.
pub open spec fn is_turn(m: ChatMessage, role: Seq<char>, text: Seq<char>) -> bool {
    m.role@ == role && m.content@ == text
}

/// What a tick commits to `history`, given the text accumulated and how the
/// job ended: the text as an assistant turn whenever there is any (even
/// after a failure), else an error turn for a failure, else nothing.
pub open spec fn committed(
    history: Seq<ChatMessage>,
    text: Seq<char>,
    outcome: Result<(), String>,
    m: Seq<ChatMessage>,
) -> bool {
    if text.len() > 0 {
        m.len() == history.len() + 1 && m.subrange(0, history.len() as int) == history
            && is_turn(m.last(), "assistant"@, text)
    } else {
        match outcome {
            Err(e) => m.len() == history.len() + 1 && m.subrange(0, history.len() as int) == history
                && is_turn(m.last(), "error"@, e@),
            Ok(()) => m == history,
        }
    }
}

impl ChatSession {
    pub fn new() -> (r: ChatSession)
        ensures
            r.history@.len() == 0,
            r.current_response@.len() == 0,
            !r.streaming,
    {
        ChatSession { history: Vec::new(), current_response: String::new(), streaming: false }
    }

    /// Starts a turn for `prompt`. Nothing happens while a job is streaming
    /// or when the prompt is empty. Otherwise the history as it stood is
    /// returned (the request appends the prompt to it once), the user turn
    /// joins the history, and the job is streaming.
    pub fn send(&mut self, prompt: &str) -> (r: Option<Vec<ChatMessage>>)
        ensures
            (old(self).streaming || prompt@.len() == 0) ==> (r is None && final(self).history@
                == old(self).history@ && final(self).current_response@
                == old(self).current_response@ && final(self).streaming == old(self).streaming),
            !(old(self).streaming || prompt@.len() == 0) ==> (r matches Some(h) && h@ == old(
                self,
            ).history@ && final(self).history@.len() == old(self).history@.len() + 1
                && final(self).history@.subrange(0, old(self).history@.len() as int) == old(
                self,
            ).history@ && is_turn(final(self).history@.last(), "user"@, prompt@)
                && final(self).streaming && final(self).current_response@.len() == 0),
    {
        if self.streaming || prompt.is_empty() {
            return None;
        }
        let messages = copy_messages(&self.history);
        self.history.push(
            ChatMessage { role: String::from_str("user"), content: String::from_str(prompt) },
        );
        assert(self.history@.subrange(0, self.history@.len() - 1) =~= old(self).history@);
        self.current_response = String::new();
        self.streaming = true;
        Some(messages)
    }

    /// One redraw tick. `delta` is what was taken from the queue this tick
    /// (at most one), `outcome` how the job ended, if it has. The delta is
    /// appended to the current response. When none arrived and the job
    /// ended, the response is committed (see [`committed`]), the buffer
    /// cleared and the job retired. A tick on which a delta arrived does not
    /// commit, so that no delta still queued is lost.
    pub fn tick(&mut self, delta: Option<String>, outcome: Option<Result<(), String>>)
        requires
            old(self).streaming,
        ensures
            delta matches Some(d) ==> (final(self).current_response@ == old(
                self,
            ).current_response@ + d@ && final(self).history@ == old(self).history@
                && final(self).streaming),
            delta is None && outcome is None ==> (final(self).current_response@ == old(
                self,
            ).current_response@ && final(self).history@ == old(self).history@
                && final(self).streaming),
            delta is None && outcome is Some ==> (committed(
                old(self).history@,
                old(self).current_response@,
                outcome->Some_0,
                final(self).history@,
            ) && final(self).current_response@.len() == 0 && !final(self).streaming),
    {
        match delta {
            Some(d) => {
                self.current_response.append(d.as_str());
                return ;
            },
            None => {},
        }
        let outcome = match outcome {
            None => return ,
            Some(o) => o,
        };
        let ghost start = self.history@;
        let mut text = String::new();
        std::mem::swap(&mut text, &mut self.current_response);
        if !text.as_str().is_empty() {
            self.history.push(ChatMessage { role: String::from_str("assistant"), content: text });
            assert(self.history@.subrange(0, start.len() as int) =~= start);
        } else {
            match outcome {
                Err(e) => {
                    self.history.push(ChatMessage { role: String::from_str("error"), content: e });
                    assert(self.history@.subrange(0, start.len() as int) =~= start);
                },
                Ok(()) => {},
            }
        }
        self.streaming = false;
    }

    /// Starts a new conversation: history, buffer and job are dropped.
    pub fn clear_chat(&mut self)
        ensures
            final(self).history@.len() == 0,
            final(self).current_response@.len() == 0,
            !final(self).streaming,
    {
        self.history = Vec::new();
        self.current_response = String::new();
        self.streaming = false;
    }
}

} // verus!
