use vstd::prelude::*;
use vstd::string::*;
use vstd::utf8::*;

verus! {

/// The text of a diagnostic that function `caller` reports.
pub open spec fn error_text(caller: Seq<char>, message: Seq<char>) -> Seq<char> {
    "RUSTSECP Error from function "@ + caller + ": "@ + message
}

/// Whether `t` can travel as a terminated string: it holds no NUL character.
pub open spec fn terminable(t: Seq<char>) -> bool {
    forall|i: int| 0 <= i < t.len() ==> t[i] != '\0'
}

/// A diagnostic whose ownership passes to the engine. The engine gets its
/// UTF-8 bytes with a terminator, and its length in bytes without one.
pub struct ErrorMessage {
    text: String,
}

impl View for ErrorMessage {
    type V = Seq<char>;

    closed spec fn view(&self) -> Seq<char> {
        self.text@
    }
}

impl ErrorMessage {
    /// Composes the diagnostic of function `caller`; `None` where the text
    /// holds a NUL character and so cannot be handed over.
    pub fn allocate(caller: &str, message: &str) -> (r: Option<ErrorMessage>)
        ensures
            r is Some <==> terminable(error_text(caller@, message@)),
            r matches Some(m) ==> m@ == error_text(caller@, message@),
    {
        let mut text = String::from_str("RUSTSECP Error from function ");
        text.append(caller);
        text.append(": ");
        text.append(message);
        assert(text@ == error_text(caller@, message@));
        let chars = text.as_str().unicode_len();
        let mut i: usize = 0;
        while i < chars
            invariant
                chars == text@.len(),
                text@ == error_text(caller@, message@),
                i <= chars,
                forall|j: int| 0 <= j < i ==> text@[j] != '\0',
            decreases chars - i,
        {
            if text.as_str().get_char(i) == '\0' {
                return None;
            }
            i = i + 1;
        }
        Some(ErrorMessage { text })
    }

    /// The text of the diagnostic.
    pub fn text(&self) -> (r: &str)
        ensures
            r@ == self@,
    {
        self.text.as_str()
    }

    /// The length in bytes that the engine is told, the terminator excluded.
    pub fn byte_len(&self) -> (r: usize)
        ensures
            r == encode_utf8(self@).len() as usize,
    {
        self.text.as_str().len()
    }

    /// Gives up the diagnostic as its text; the single way out of the handle.
    pub fn into_string(self) -> (r: String)
        ensures
            r@ == self@,
    {
        self.text
    }
}

} // verus!
