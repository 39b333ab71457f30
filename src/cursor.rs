//! Key events and the editable character buffer that they act on.
use vstd::prelude::*;

verus! {

/// A key press, as far as line editing and the prompt tell keys apart.
#[derive(Clone, Copy, Debug, PartialEq, Eq, Structural)]
pub enum Key {
    Char(char),
    Enter,
    Backspace,
    Del,
    ArrowLeft,
    ArrowRight,
    Home,
    End,
    Escape,
    Tab,
    Unknown,
}

/// An input event delivered to a prompt.
#[derive(Clone, Copy, Debug, PartialEq, Eq, Structural)]
pub enum Event {
    Key(Key),
}

impl Event {
    /// The key that the event carries.
    pub open spec fn key(self) -> Key {
        match self {
            Event::Key(k) => k,
        }
    }
}

/// Relies on `String::push`: appends one character at the end of the string.
#[verifier::external_body]
pub(crate) fn push_char(s: &mut String, c: char)
    ensures
        final(s)@ == old(s)@.push(c),
{
    s.push(c)
}

/// What a line-editing key does to a text and its insertion point; keys
/// that do not edit leave both as they are.
pub open spec fn edited(text: Seq<char>, pos: nat, key: Key) -> (Seq<char>, nat) {
    match key {
        Key::Char(c) => (text.insert(pos as int, c), pos + 1),
        Key::Backspace => if pos > 0 {
            (text.remove(pos - 1), (pos - 1) as nat)
        } else {
            (text, pos)
        },
        Key::Del => if pos < text.len() {
            (text.remove(pos as int), pos)
        } else {
            (text, pos)
        },
        Key::ArrowLeft => if pos > 0 {
            (text, (pos - 1) as nat)
        } else {
            (text, pos)
        },
        Key::ArrowRight => if pos < text.len() {
            (text, pos + 1)
        } else {
            (text, pos)
        },
        Key::Home => (text, 0),
        Key::End => (text, text.len()),
        _ => (text, pos),
    }
}

/// `n` copies of the character `m`.
pub open spec fn repeated(m: char, n: nat) -> Seq<char> {
    Seq::new(n, |i: int| m)
}

/// How many times `c` occurs in `s`.
pub open spec fn occurrences(s: Seq<char>, c: char) -> nat
    decreases s.len(),
{
    if s.len() == 0 {
        0
    } else {
        occurrences(s.drop_last(), c) + if s.last() == c {
            1nat
        } else {
            0nat
        }
    }
}

/// Masking a text yields exactly one mask character per character of the
/// text, and none of the text's characters other than the mask itself.
pub proof fn mask_hides_text(s: Seq<char>, m: char)
    ensures
        occurrences(repeated(m, s.len()), m) == s.len(),
        forall|c: char| s.contains(c) && c != m ==> occurrences(repeated(m, s.len()), c) == 0,
    decreases s.len(),
{
    if s.len() > 0 {
        mask_hides_text(s.drop_last(), m);
        assert(repeated(m, s.len()).drop_last() =~= repeated(m, s.drop_last().len()));
        assert forall|c: char| c != m implies occurrences(repeated(m, s.len()), c) == 0 by {
            repeated_holds_only_mask(s.len(), m, c);
        }
    }
}

proof fn repeated_holds_only_mask(n: nat, m: char, c: char)
    requires
        c != m,
    ensures
        occurrences(repeated(m, n), c) == 0,
    decreases n,
{
    if n > 0 {
        repeated_holds_only_mask((n - 1) as nat, m, c);
        assert(repeated(m, n).drop_last() =~= repeated(m, (n - 1) as nat));
    }
}

/// An editable sequence of characters with an insertion point.
#[derive(Debug)]
pub struct StringCursor {
    value: Vec<char>,
    cursor: usize,
}

impl StringCursor {
    /// The insertion point never passes the end of the text.
    pub closed spec fn wf(&self) -> bool {
        self.cursor <= self.value@.len()
    }

    pub closed spec fn text(&self) -> Seq<char> {
        self.value@
    }

    pub closed spec fn position(&self) -> nat {
        self.cursor as nat
    }

    /// An empty buffer with the insertion point at its start.
    pub fn new() -> (r: StringCursor)
        ensures
            r.wf(),
            r.text() == Seq::<char>::empty(),
            r.position() == 0,
    {
        StringCursor { value: Vec::new(), cursor: 0 }
    }

    /// The number of characters held.
    pub fn len(&self) -> (r: usize)
        ensures
            r == self.text().len(),
    {
        self.value.len()
    }

    /// The insertion point, counted in characters from the start.
    pub fn cursor(&self) -> (r: usize)
        ensures
            r == self.position(),
    {
        self.cursor
    }

    /// Applies a line-editing key: a character is inserted at the insertion
    /// point, Backspace and Del remove the character before or under it, the
    /// arrows, Home and End move it. Other keys change nothing.
    pub fn apply_key(&mut self, key: Key)
        requires
            old(self).wf(),
            key is Char ==> old(self).text().len() < usize::MAX,
        ensures
            final(self).wf(),
            (final(self).text(), final(self).position()) == edited(
                old(self).text(),
                old(self).position(),
                key,
            ),
    {
        match key {
            Key::Char(c) => {
                self.value.insert(self.cursor, c);
                self.cursor = self.cursor + 1;
            },
            Key::Backspace => {
                if self.cursor > 0 {
                    self.value.remove(self.cursor - 1);
                    self.cursor = self.cursor - 1;
                }
            },
            Key::Del => {
                if self.cursor < self.value.len() {
                    self.value.remove(self.cursor);
                }
            },
            Key::ArrowLeft => {
                if self.cursor > 0 {
                    self.cursor = self.cursor - 1;
                }
            },
            Key::ArrowRight => {
                if self.cursor < self.value.len() {
                    self.cursor = self.cursor + 1;
                }
            },
            Key::Home => {
                self.cursor = 0;
            },
            Key::End => {
                self.cursor = self.value.len();
            },
            _ => {},
        }
    }

    /// A separate buffer of the same length and insertion point in which
    /// every character is `m`; this buffer is left as it is.
    pub fn masked(&self, m: char) -> (r: StringCursor)
        requires
            self.wf(),
        ensures
            r.wf(),
            r.text() == repeated(m, self.text().len()),
            r.position() == self.position(),
    {
        let mut value: Vec<char> = Vec::new();
        let mut i: usize = 0;
        while i < self.value.len()
            invariant
                i <= self.value@.len(),
                value@ == repeated(m, i as nat),
            decreases self.value@.len() - i,
        {
            value.push(m);
            i = i + 1;
            assert(value@ =~= repeated(m, i as nat));
        }
        StringCursor { value, cursor: self.cursor }
    }

    /// The characters held, as a string.
    pub fn to_string(&self) -> (r: String)
        ensures
            r@ == self.text(),
    {
        let mut r = String::new();
        let mut i: usize = 0;
        while i < self.value.len()
            invariant
                i <= self.value@.len(),
                r@ == self.value@.subrange(0, i as int),
            decreases self.value@.len() - i,
        {
            push_char(&mut r, self.value[i]);
            i = i + 1;
            assert(r@ =~= self.value@.subrange(0, i as int));
        }
        assert(r@ =~= self.value@);
        r
    }
}

} // verus!
