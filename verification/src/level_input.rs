//! The level-string input buffer of the menu: which typed characters
//! it accepts, how long lines wrap, and what backspace removes. The
//! keyboard, the clipboard and the widgets stay with the engine, which
//! hands characters in one at a time.

use vstd::prelude::*;

verus! {

/// Characters per line before the buffer wraps with a newline.
pub const LINE_WRAP: usize = 89;

/// What char::is_alphanumeric returns: a function of the character
/// alone.
pub uninterp spec fn char_alphanumeric(c: char) -> bool;

/// Relies on char::is_alphanumeric: whether the character counts as
/// Unicode alphanumeric.
#[verifier::external_body]
fn is_alphanumeric_char(c: char) -> (r: bool)
    ensures
        r == char_alphanumeric(c),
{
    c.is_alphanumeric()
}

/// Whether the buffer accepts a typed character: the alphanumerics and
/// the rest of the base64 alphabet.
pub open spec fn spec_accepts(c: char) -> bool {
    char_alphanumeric(c) || c == '+' || c == '/' || c == '='
}

/// What the buffer holds after a typed character: an accepted one is
/// appended, behind a fresh newline whenever a full line was just
/// completed; any other character is ignored.
pub open spec fn spec_push_char(s: Seq<char>, c: char) -> Seq<char> {
    if spec_accepts(c) {
        if s.len() != 0 && s.len() % (LINE_WRAP as nat) == 0 {
            s.push('\n').push(c)
        } else {
            s.push(c)
        }
    } else {
        s
    }
}

/// What the buffer holds after a backspace: the last character goes,
/// and a line wrap thereby exposed goes with it.
pub open spec fn spec_backspace(s: Seq<char>) -> Seq<char> {
    let t = if s.len() > 0 {
        s.drop_last()
    } else {
        s
    };
    if t.len() > 0 && t.last() == '\n' {
        t.drop_last()
    } else {
        t
    }
}

/// The base64 level string being typed in the menu.
pub struct LevelString {
    chars: Vec<char>,
}

impl View for LevelString {
    type V = Seq<char>;

    closed spec fn view(&self) -> Seq<char> {
        self.chars@
    }
}

impl LevelString {
    /// An empty buffer.
    pub fn new() -> (r: LevelString)
        ensures
            r@ == Seq::<char>::empty(),
    {
        let r = LevelString { chars: Vec::new() };
        proof {
            assert(r@ =~= Seq::<char>::empty());
        }
        r
    }

    /// Takes one typed character.
    pub fn push_char(&mut self, c: char)
        requires
            old(self)@.len() + 2 <= usize::MAX,
        ensures
            final(self)@ == spec_push_char(old(self)@, c),
    {
        if is_alphanumeric_char(c) || c == '+' || c == '/' || c == '=' {
            if self.chars.len() != 0 && self.chars.len() % LINE_WRAP == 0 {
                self.chars.push('\n');
            }
            self.chars.push(c);
        }
    }

    /// Takes one backspace.
    pub fn backspace(&mut self)
        ensures
            final(self)@ == spec_backspace(old(self)@),
    {
        self.chars.pop();
        let n = self.chars.len();
        if n > 0 && self.chars[n - 1] == '\n' {
            self.chars.pop();
        }
    }

    /// The buffered characters, oldest first.
    pub fn chars(&self) -> (r: &Vec<char>)
        ensures
            r@ == self@,
    {
        &self.chars
    }

    /// How many characters are buffered, line wraps included.
    pub fn len(&self) -> (r: usize)
        ensures
            r == self@.len(),
    {
        self.chars.len()
    }
}

} // verus!
