//! The session loop's decisions: how a typed line is classified, what the
//! loop does next, and the single remembered turn.
use vstd::prelude::*;
use crate::completion::{build_request, is_request_for, ChatRequest};
use crate::text::{is_letter, matches_letter, trim_text, trimmed};

verus! {

/// What a typed line asks for.
#[derive(PartialEq, Eq, Structural, Clone, Copy, Debug)]
pub enum Command {
    /// `c`: copy the last response to the clipboard.
    Copy,
    /// `r`: send the last input again.
    Resend,
    /// Anything else: send the line as a new message.
    NewMessage,
}

/// What the loop does after one typed line.
#[derive(Debug)]
pub enum Action {
    /// Put `text` on the clipboard; no request is made.
    Copy { text: String },
    /// `c` before any response was produced: nothing is copied.
    NothingToCopy,
    /// Print `echo` when present, then send `prompt` to the completion client.
    Send { echo: Option<String>, prompt: String },
}

/// The one remembered turn: the last input line and the last response.
#[derive(Debug)]
pub struct Session {
    /// The last line typed as a new message, as it was typed.
    pub last_input: String,
    /// The last response received, if any.
    pub last_response: Option<String>,
}

/// The command a typed line stands for, after trimming, ignoring ASCII case.
pub open spec fn command_of(line: Seq<char>) -> Command {
    let t = trimmed(line);
    if is_letter(t, 'c', 'C') {
        Command::Copy
    } else if is_letter(t, 'r', 'R') {
        Command::Resend
    } else {
        Command::NewMessage
    }
}

/// The prompt template: a role label, the trimmed message, and the
/// assistant's label awaiting its reply.
pub open spec fn prompt_of(message: Seq<char>) -> Seq<char> {
    "User: "@ + trimmed(message) + "\nQuasar:"@
}

/// Classifies a typed line.
pub fn classify(line: &str) -> (r: Command)
    ensures
        r == command_of(line@),
{
    let t = trim_text(line);
    if matches_letter(t, 'c', 'C') {
        Command::Copy
    } else if matches_letter(t, 'r', 'R') {
        Command::Resend
    } else {
        Command::NewMessage
    }
}

/// Composes the outbound prompt for a message.
pub fn compose_prompt(message: &str) -> (r: String)
    ensures
        r@ == prompt_of(message@),
{
    let mut s = String::from_str("User: ");
    s.append(trim_text(message));
    s.append("\nQuasar:");
    s
}

/// The request sent for a typed message: the persona, then the message
/// wrapped in the prompt template.
pub fn request_for_message(message: &str) -> (r: ChatRequest)
    ensures
        is_request_for(r, prompt_of(message@)),
{
    let prompt = compose_prompt(message);
    build_request(prompt.as_str())
}

/// The remembered turn as plain text.
pub struct TurnView {
    pub last_input: Seq<char>,
    pub last_response: Option<Seq<char>>,
}

/// An action as plain text.
pub enum ActionView {
    Copy(Seq<char>),
    NothingToCopy,
    Send { echo: Option<Seq<char>>, prompt: Seq<char> },
}

impl View for Session {
    type V = TurnView;

    open spec fn view(&self) -> TurnView {
        TurnView {
            last_input: self.last_input@,
            last_response: match self.last_response {
                Some(r) => Some(r@),
                None => None,
            },
        }
    }
}

impl View for Action {
    type V = ActionView;

    open spec fn view(&self) -> ActionView {
        match self {
            Action::Copy { text } => ActionView::Copy(text@),
            Action::NothingToCopy => ActionView::NothingToCopy,
            Action::Send { echo, prompt } => ActionView::Send {
                echo: match echo {
                    Some(e) => Some(e@),
                    None => None,
                },
                prompt: prompt@,
            },
        }
    }
}

/// The previous input echoed before a new message is sent: its trimmed text,
/// when one was ever typed.
pub open spec fn echo_of(last_input: Seq<char>) -> Option<Seq<char>> {
    if last_input.len() > 0 {
        Some(trimmed(last_input))
    } else {
        None
    }
}

/// What the loop does with `line` in turn `t`.
pub open spec fn action_for(t: TurnView, line: Seq<char>) -> ActionView {
    match command_of(line) {
        Command::Copy => match t.last_response {
            Some(r) => ActionView::Copy(r),
            None => ActionView::NothingToCopy,
        },
        Command::Resend => ActionView::Send { echo: None, prompt: prompt_of(t.last_input) },
        Command::NewMessage => ActionView::Send { echo: echo_of(t.last_input), prompt: prompt_of(line) },
    }
}

/// The turn after `line`: only a new message replaces the remembered input.
pub open spec fn next_turn(t: TurnView, line: Seq<char>) -> TurnView {
    match command_of(line) {
        Command::NewMessage => TurnView { last_input: line, ..t },
        _ => t,
    }
}

/// The turn after a successful exchange produced `response`.
pub open spec fn with_response(t: TurnView, response: Seq<char>) -> TurnView {
    TurnView { last_response: Some(response), ..t }
}

impl Session {
    /// A session with nothing remembered yet.
    pub fn new() -> (r: Session)
        ensures
            r@ == (TurnView { last_input: Seq::empty(), last_response: None }),
    {
        Session { last_input: String::new(), last_response: None }
    }

    /// Decides what to do with one typed line and updates the remembered
    /// input: `c` copies the last response, `r` resends the last input
    /// whatever else was typed, and any other line echoes the previous input
    /// and is sent as the new one.
    pub fn step(&mut self, line: &str) -> (a: Action)
        ensures
            a@ == action_for(old(self)@, line@),
            final(self)@ == next_turn(old(self)@, line@),
    {
        match classify(line) {
            Command::Copy => {
                match &self.last_response {
                    Some(t) => Action::Copy { text: t.clone() },
                    None => Action::NothingToCopy,
                }
            },
            Command::Resend => {
                Action::Send { echo: None, prompt: compose_prompt(self.last_input.as_str()) }
            },
            Command::NewMessage => {
                let echo = if !self.last_input.as_str().is_empty() {
                    Some(String::from_str(trim_text(self.last_input.as_str())))
                } else {
                    None
                };
                self.last_input = String::from_str(line);
                Action::Send { echo, prompt: compose_prompt(line) }
            },
        }
    }

    /// Remembers the response of a successful exchange, replacing any
    /// earlier one.
    pub fn record_response(&mut self, response: String)
        ensures
            final(self)@ == with_response(old(self)@, response@),
    {
        self.last_response = Some(response);
    }
}

/// A resend after a new message sends that message again, whatever the
/// resend line held, and leaves it remembered.
pub proof fn resend_repeats_message(t: TurnView, message: Seq<char>, resend: Seq<char>)
    requires
        command_of(message) == Command::NewMessage,
        command_of(resend) == Command::Resend,
    ensures
        next_turn(t, message).last_input == message,
        action_for(next_turn(t, message), resend) == (ActionView::Send {
            echo: None,
            prompt: prompt_of(message),
        }),
        next_turn(next_turn(t, message), resend) == next_turn(t, message),
{
}

/// A copy after an exchange hands out exactly that exchange's response,
/// sends nothing and changes nothing.
pub proof fn copy_gives_recorded_response(t: TurnView, response: Seq<char>, copy: Seq<char>)
    requires
        command_of(copy) == Command::Copy,
    ensures
        action_for(with_response(t, response), copy) == ActionView::Copy(response),
        next_turn(with_response(t, response), copy) == with_response(t, response),
{
}

/// Of two messages in a row, the second echoes the first before it is
/// sent, and then replaces it as the remembered input.
pub proof fn second_message_echoes_first(t: TurnView, first: Seq<char>, second: Seq<char>)
    requires
        command_of(first) == Command::NewMessage,
        command_of(second) == Command::NewMessage,
        first.len() > 0,
    ensures
        action_for(next_turn(t, first), second) == (ActionView::Send {
            echo: Some(trimmed(first)),
            prompt: prompt_of(second),
        }),
        next_turn(next_turn(t, first), second).last_input == second,
{
}

} // verus!
