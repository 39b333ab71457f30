//! Validation rules run on the text of a prompt when it is submitted.
use vstd::prelude::*;
use vstd::string::*;

verus! {

/// A rule that a submitted text must meet. `accepts` and `message` say what
/// the rule decides, as a function of the text alone, so that running it
/// twice on the same text gives the same answer.
pub trait Validate {
    /// Whether the rule accepts the text.
    spec fn accepts(&self, input: Seq<char>) -> bool;

    /// The message that the rule gives for a text that it refuses.
    spec fn message(&self, input: Seq<char>) -> Seq<char>;

    /// Runs the rule: `Ok` when it accepts the text, else its message.
    fn validate(&self, input: &String) -> (r: Result<(), String>)
        ensures
            r is Ok <==> self.accepts(input@),
            r is Err ==> r->Err_0@ == self.message(input@),
    ;
}

/// The rule that accepts every text.
#[derive(Clone, Copy, Debug)]
pub struct AcceptAll;

impl Validate for AcceptAll {
    open spec fn accepts(&self, input: Seq<char>) -> bool {
        true
    }

    open spec fn message(&self, input: Seq<char>) -> Seq<char> {
        Seq::empty()
    }

    fn validate(&self, input: &String) -> (r: Result<(), String>) {
        Ok(())
    }
}

/// The rule that a text holds at least `min` characters; a shorter one is
/// refused with a fixed message.
#[derive(Clone, Debug)]
pub struct MinLength {
    pub min: usize,
    pub message: String,
}

impl MinLength {
    pub fn new(min: usize, message: &str) -> (r: MinLength)
        ensures
            r.min == min,
            r.message@ == message@,
    {
        MinLength { min, message: String::from_str(message) }
    }
}

impl Validate for MinLength {
    open spec fn accepts(&self, input: Seq<char>) -> bool {
        input.len() >= self.min
    }

    open spec fn message(&self, input: Seq<char>) -> Seq<char> {
        self.message@
    }

    fn validate(&self, input: &String) -> (r: Result<(), String>) {
        if input.as_str().unicode_len() >= self.min {
            Ok(())
        } else {
            Err(self.message.clone())
        }
    }
}

} // verus!
