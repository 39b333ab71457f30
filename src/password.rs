//! The masked input prompt.
use vstd::prelude::*;
use vstd::string::*;

use crate::cursor::{edited, mask_hides_text, occurrences, repeated, Event, Key, StringCursor};
use crate::theme::{footer_text, format_footer, format_header, header_text, Outcome, State, PASSWORD_MASK};
use crate::validate::{AcceptAll, Validate};

verus! {

/// A prompt that reads a secret: it keeps the typed characters, shows each
/// of them as the mask character, and checks the text with an optional rule
/// when Enter is pressed.
#[derive(Debug)]
pub struct Password<V> {
    prompt: String,
    input: StringCursor,
    mask: char,
    validate: Option<V>,
}

impl<V> Password<V> {
    /// The buffer's insertion point stays within its text.
    pub closed spec fn wf(&self) -> bool {
        self.input.wf()
    }

    /// The question shown to the user.
    pub closed spec fn prompt_text(&self) -> Seq<char> {
        self.prompt@
    }

    /// The characters typed so far, unmasked.
    pub closed spec fn text(&self) -> Seq<char> {
        self.input.text()
    }

    /// The buffer's insertion point.
    pub closed spec fn position(&self) -> nat {
        self.input.position()
    }

    /// The character drawn in place of each typed one.
    pub closed spec fn mask_char(&self) -> char {
        self.mask
    }

    /// The rule checked on Enter, if any.
    pub closed spec fn validator(&self) -> Option<V> {
        self.validate
    }

    /// What the display shows in place of the text.
    pub open spec fn masked_body(&self) -> Seq<char> {
        repeated(self.mask_char(), self.text().len())
    }

    /// The whole display in a state: header, masked body, footer.
    pub open spec fn display(&self, state: Outcome) -> Seq<char> {
        header_text(state, self.prompt_text()) + self.masked_body() + footer_text(state)
    }
}

impl<V: Validate> Password<V> {
    /// Whether the current text would be accepted: always without a rule,
    /// else as the rule decides.
    pub open spec fn accepted(&self) -> bool {
        match self.validator() {
            None => true,
            Some(v) => v.accepts(self.text()),
        }
    }

    /// The state that an event leads to. Only Enter counts: it submits the
    /// unmasked text if it is accepted, and otherwise reports the rule's
    /// message. Every other key leaves the prompt active.
    pub open spec fn reaction(&self, event: Event) -> Outcome {
        match event {
            Event::Key(Key::Enter) => match self.validator() {
                Some(v) if !v.accepts(self.text()) => Outcome::Error(v.message(self.text())),
                _ => Outcome::Submit(self.text()),
            },
            _ => Outcome::Active,
        }
    }
}

impl Password<AcceptAll> {
    /// A prompt with an empty buffer, the default mask and no rule.
    pub fn new(prompt: &str) -> (r: Password<AcceptAll>)
        ensures
            r.wf(),
            r.prompt_text() == prompt@,
            r.text() == Seq::<char>::empty(),
            r.position() == 0,
            r.mask_char() == PASSWORD_MASK,
            r.validator() is None,
    {
        Password {
            prompt: String::from_str(prompt),
            input: StringCursor::new(),
            mask: PASSWORD_MASK,
            validate: None,
        }
    }
}

impl<V: Validate> Password<V> {
    /// The same prompt, drawn with `mask` in place of each character.
    pub fn mask(self, mask: char) -> (r: Password<V>)
        ensures
            r.wf() == self.wf(),
            r.prompt_text() == self.prompt_text(),
            r.text() == self.text(),
            r.position() == self.position(),
            r.mask_char() == mask,
            r.validator() == self.validator(),
    {
        let mut p = self;
        p.mask = mask;
        p
    }

    /// The same prompt with `validator` as its rule, in place of any earlier
    /// one.
    pub fn validate<W: Validate>(self, validator: W) -> (r: Password<W>)
        ensures
            r.wf() == self.wf(),
            r.prompt_text() == self.prompt_text(),
            r.text() == self.text(),
            r.position() == self.position(),
            r.mask_char() == self.mask_char(),
            r.validator() == Some(validator),
    {
        Password {
            prompt: self.prompt,
            input: self.input,
            mask: self.mask,
            validate: Some(validator),
        }
    }

    /// The editable buffer.
    pub fn input(&self) -> (r: &StringCursor)
        ensures
            r.wf() == self.wf(),
            r.text() == self.text(),
            r.position() == self.position(),
    {
        &self.input
    }

    /// The typed text, unmasked.
    pub fn value(&self) -> (r: String)
        ensures
            r@ == self.text(),
    {
        self.input.to_string()
    }

    /// Applies a line-editing key to the buffer.
    pub fn edit(&mut self, key: Key)
        requires
            old(self).wf(),
            key is Char ==> old(self).text().len() < usize::MAX,
        ensures
            final(self).wf(),
            (final(self).text(), final(self).position()) == edited(
                old(self).text(),
                old(self).position(),
                key,
            ),
            final(self).prompt_text() == old(self).prompt_text(),
            final(self).mask_char() == old(self).mask_char(),
            final(self).validator() == old(self).validator(),
    {
        self.input.apply_key(key);
    }

    /// Decides what an event means for the prompt, without changing it.
    pub fn on_event(&self, event: &Event) -> (r: State)
        ensures
            r@ == self.reaction(*event),
    {
        match event {
            Event::Key(Key::Enter) => {
                let text = self.input.to_string();
                match &self.validate {
                    Some(v) => match v.validate(&text) {
                        Ok(()) => State::Submit(text),
                        Err(message) => State::Error(message),
                    },
                    None => State::Submit(text),
                }
            },
            _ => State::Active,
        }
    }

    /// One turn of the interaction: the key edits the buffer, then the
    /// prompt decides what the event means.
    pub fn step(&mut self, event: &Event) -> (r: State)
        requires
            old(self).wf(),
            event.key() is Char ==> old(self).text().len() < usize::MAX,
        ensures
            final(self).wf(),
            (final(self).text(), final(self).position()) == edited(
                old(self).text(),
                old(self).position(),
                event.key(),
            ),
            final(self).prompt_text() == old(self).prompt_text(),
            final(self).mask_char() == old(self).mask_char(),
            final(self).validator() == old(self).validator(),
            r@ == final(self).reaction(*event),
    {
        let Event::Key(key) = event;
        self.edit(*key);
        self.on_event(event)
    }

    /// Draws the prompt in a state. The buffer is copied and every
    /// character of the copy is replaced by the mask, so the display never
    /// holds the typed text and the buffer itself is untouched.
    pub fn render(&self, state: &State) -> (r: String)
        requires
            self.wf(),
        ensures
            r@ == self.display(state@),
    {
        let masked = self.input.masked(self.mask);
        let header = format_header(state, self.prompt.as_str());
        let body = masked.to_string();
        let footer = format_footer(state);
        let r = header.concat(body.as_str()).concat(footer.as_str());
        r
    }
}

/// Rendering shows the header, then one mask character for each typed
/// character and none of the typed characters other than the mask, then the
/// footer. Rendering reads the prompt only, so the buffer stays as it was.
pub proof fn render_hides_text<V>(p: Password<V>, state: Outcome)
    ensures
        p.display(state) == header_text(state, p.prompt_text()) + p.masked_body() + footer_text(
            state,
        ),
        occurrences(p.masked_body(), p.mask_char()) == p.text().len(),
        forall|c: char|
            p.text().contains(c) && c != p.mask_char() ==> occurrences(p.masked_body(), c) == 0,
{
    mask_hides_text(p.text(), p.mask_char());
}

/// Without a rule, Enter submits the literal, unmasked text.
pub proof fn enter_submits_without_rule<V: Validate>(p: Password<V>)
    requires
        p.validator() is None,
    ensures
        p.reaction(Event::Key(Key::Enter)) == Outcome::Submit(p.text()),
{
}

/// With a rule, Enter submits the text exactly when the rule accepts it, and
/// otherwise reports the rule's message. Enter does not edit the buffer, so a
/// second Enter sees the same text and the same rule, and ends the same way.
pub proof fn enter_follows_rule<V: Validate>(p: Password<V>, v: V)
    requires
        p.validator() == Some(v),
    ensures
        (p.reaction(Event::Key(Key::Enter)) == Outcome::Submit(p.text())) <==> v.accepts(p.text()),
        !v.accepts(p.text()) ==> p.reaction(Event::Key(Key::Enter)) == Outcome::Error(
            v.message(p.text()),
        ),
        edited(p.text(), p.position(), Key::Enter) == (p.text(), p.position()),
{
}

/// Two prompts with the same text and the same rule react to Enter alike.
pub proof fn enter_depends_on_text_and_rule<V: Validate>(p: Password<V>, q: Password<V>)
    requires
        p.text() == q.text(),
        p.validator() == q.validator(),
    ensures
        p.reaction(Event::Key(Key::Enter)) == q.reaction(Event::Key(Key::Enter)),
{
}

/// Every key but Enter leaves the prompt active, and the prompt's own
/// decision does not touch the buffer: only line editing does.
pub proof fn other_keys_stay_active<V: Validate>(p: Password<V>, key: Key)
    requires
        key != Key::Enter,
    ensures
        p.reaction(Event::Key(key)) == Outcome::Active,
{
}

/// A prompt that differs from another only in its mask shows that mask in
/// place of the same text in every display.
pub proof fn new_mask_shows_in_render<V>(p: Password<V>, q: Password<V>, state: Outcome)
    requires
        q.prompt_text() == p.prompt_text(),
        q.text() == p.text(),
    ensures
        q.display(state) == header_text(state, p.prompt_text()) + repeated(
            q.mask_char(),
            p.text().len(),
        ) + footer_text(state),
{
}

} // verus!
