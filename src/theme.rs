//! The states of a prompt and how each part of its display is drawn.
use vstd::prelude::*;
use vstd::string::*;

verus! {

/// The mask character used when none is chosen.
pub const PASSWORD_MASK: char = '\u{25aa}';

/// Where an interaction stands after an event.
#[derive(Clone, Debug, PartialEq, Eq)]
pub enum State {
    /// Input goes on.
    Active,
    /// The text was refused with this message; input goes on.
    Error(String),
    /// The text was accepted; the interaction is over.
    Submit(String),
}

/// The mathematical value of a `State`.
pub ghost enum Outcome {
    Active,
    Error(Seq<char>),
    Submit(Seq<char>),
}

impl View for State {
    type V = Outcome;

    open spec fn view(&self) -> Outcome {
        match self {
            State::Active => Outcome::Active,
            State::Error(m) => Outcome::Error(m@),
            State::Submit(v) => Outcome::Submit(v@),
        }
    }
}

/// The symbol that opens the header in each state.
pub open spec fn symbol(state: Outcome) -> Seq<char> {
    match state {
        Outcome::Active => "\u{25c6}"@,
        Outcome::Error(_) => "\u{25b2}"@,
        Outcome::Submit(_) => "\u{25c7}"@,
    }
}

/// The header: the state's symbol and the prompt on one line, then the bar
/// that leads into the input line.
pub open spec fn header_text(state: Outcome, prompt: Seq<char>) -> Seq<char> {
    symbol(state) + "  "@ + prompt + "\n\u{2502}  "@
}

/// The footer: it ends the input line, and shows the message of a refusal.
pub open spec fn footer_text(state: Outcome) -> Seq<char> {
    match state {
        Outcome::Active => "\n\u{2514}\n"@,
        Outcome::Error(m) => "\n\u{2514}  "@ + m + "\n"@,
        Outcome::Submit(_) => "\n"@,
    }
}

fn symbol_str(state: &State) -> (r: &'static str)
    ensures
        r@ == symbol(state@),
{
    match state {
        State::Active => "\u{25c6}",
        State::Error(_) => "\u{25b2}",
        State::Submit(_) => "\u{25c7}",
    }
}

/// Draws the header for a state and a prompt.
pub fn format_header(state: &State, prompt: &str) -> (r: String)
    ensures
        r@ == header_text(state@, prompt@),
{
    let mut r = String::from_str(symbol_str(state));
    r.append("  ");
    r.append(prompt);
    r.append("\n\u{2502}  ");
    r
}

/// Draws the footer for a state.
pub fn format_footer(state: &State) -> (r: String)
    ensures
        r@ == footer_text(state@),
{
    match state {
        State::Active => String::from_str("\n\u{2514}\n"),
        State::Error(m) => {
            let mut r = String::from_str("\n\u{2514}  ");
            r.append(m.as_str());
            r.append("\n");
            r
        },
        State::Submit(_) => String::from_str("\n"),
    }
}

} // verus!
