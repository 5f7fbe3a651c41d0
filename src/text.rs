use vstd::prelude::*;
use vstd::slice::slice_subrange;
use vstd::string::*;
use vstd::utf8::*;

verus! {

/// The longest prefix, among the first `j` bytes of `b`, that is valid UTF-8.
pub open spec fn longest_valid_prefix_within(b: Seq<u8>, j: nat) -> nat
    decreases j,
{
    if j == 0 {
        0
    } else if j <= b.len() && valid_utf8(b.subrange(0, j as int)) {
        j
    } else {
        longest_valid_prefix_within(b, (j - 1) as nat)
    }
}

/// The length of the longest prefix of `b` that is valid UTF-8.
pub open spec fn longest_valid_prefix(b: Seq<u8>) -> nat {
    longest_valid_prefix_within(b, b.len())
}

/// Relies on std::str::from_utf8: it accepts exactly the valid UTF-8 byte
/// sequences and decodes them; on failure `Utf8Error::valid_up_to` is the
/// largest index up to which the input is valid UTF-8.
#[verifier::external_body]
fn str_from_utf8(b: &[u8]) -> (r: Result<&str, usize>)
    ensures
        r is Ok <==> valid_utf8(b@),
        r matches Ok(s) ==> s@ == decode_utf8(b@),
        r matches Err(k) ==> k == longest_valid_prefix(b@),
{
    match std::str::from_utf8(b) {
        Ok(s) => Ok(s),
        Err(e) => Err(e.valid_up_to()),
    }
}

/// The case mapping that `str::to_uppercase` applies.
pub uninterp spec fn upper_of(s: Seq<char>) -> Seq<char>;

/// The case mapping that `str::to_lowercase` applies.
pub uninterp spec fn lower_of(s: Seq<char>) -> Seq<char>;

/// Relies on str::to_uppercase: the result depends on the characters alone.
#[verifier::external_body]
pub(crate) fn to_uppercase(s: &str) -> (r: String)
    ensures
        r@ == upper_of(s@),
{
    s.to_uppercase()
}

/// Relies on str::to_lowercase: the result depends on the characters alone.
#[verifier::external_body]
pub(crate) fn to_lowercase(s: &str) -> (r: String)
    ensures
        r@ == lower_of(s@),
{
    s.to_lowercase()
}

/// The decimal digit for `d`.
pub open spec fn digit_char(d: nat) -> char {
    if d == 0 { '0' }
    else if d == 1 { '1' }
    else if d == 2 { '2' }
    else if d == 3 { '3' }
    else if d == 4 { '4' }
    else if d == 5 { '5' }
    else if d == 6 { '6' }
    else if d == 7 { '7' }
    else if d == 8 { '8' }
    else { '9' }
}

/// The decimal notation of `n`, without sign or leading zeros.
pub open spec fn decimal(n: nat) -> Seq<char>
    decreases n,
{
    if n < 10 {
        seq![digit_char(n)]
    } else {
        decimal(n / 10) + seq![digit_char(n % 10)]
    }
}

/// The one-character text of decimal digit `d`.
fn digit_text(d: usize) -> (r: &'static str)
    requires
        d < 10,
    ensures
        r@ == seq![digit_char(d as nat)],
{
    proof {
        reveal_strlit("0");
        reveal_strlit("1");
        reveal_strlit("2");
        reveal_strlit("3");
        reveal_strlit("4");
        reveal_strlit("5");
        reveal_strlit("6");
        reveal_strlit("7");
        reveal_strlit("8");
        reveal_strlit("9");
    }
    if d == 0 {
        "0"
    } else if d == 1 {
        "1"
    } else if d == 2 {
        "2"
    } else if d == 3 {
        "3"
    } else if d == 4 {
        "4"
    } else if d == 5 {
        "5"
    } else if d == 6 {
        "6"
    } else if d == 7 {
        "7"
    } else if d == 8 {
        "8"
    } else {
        "9"
    }
}

/// The decimal notation of `n`.
pub fn decimal_text(n: usize) -> (r: String)
    ensures
        r@ == decimal(n as nat),
    decreases n,
{
    if n < 10 {
        String::from_str(digit_text(n))
    } else {
        let mut r = decimal_text(n / 10);
        r.append(digit_text(n % 10));
        r
    }
}

/// A text field as the engine hands it over: the bytes read from its
/// buffer, or nothing where the pointer was null, and the length that the
/// engine declared for the field. Only the first `declared_len` bytes belong
/// to the field (all of them where that length is negative).
pub struct TextField {
    pub bytes: Option<Vec<u8>>,
    pub declared_len: i32,
}

impl TextField {
    pub open spec fn spec_bytes(&self) -> Option<Seq<u8>> {
        match self.bytes {
            Some(v) => Some(v@),
            None => None,
        }
    }
}

/// How many leading bytes of an `n`-byte field a declared length keeps: a
/// negative length keeps all, as it does when taken as an unsigned size.
pub open spec fn kept_len(n: nat, declared: i32) -> nat {
    if declared < 0 || declared as nat >= n {
        n
    } else {
        declared as nat
    }
}

/// What a field decodes to: `Ok(None)` where it was not supplied (null, or
/// declared empty); else the text of the bytes that the declared length
/// keeps, or `Err(k)` where those bytes are not valid UTF-8, with `k` the
/// length of their longest valid prefix. Bytes past the declared length play
/// no part.
pub open spec fn field_text(bytes: Option<Seq<u8>>, declared: i32) -> Result<
    Option<Seq<char>>,
    nat,
> {
    match bytes {
        None => Ok(None),
        Some(b) => if declared == 0 {
            Ok(None)
        } else {
            let kept = b.subrange(0, kept_len(b.len(), declared) as int);
            if valid_utf8(kept) {
                Ok(Some(decode_utf8(kept)))
            } else {
                Err(longest_valid_prefix(kept))
            }
        },
    }
}

/// The view of a decoded field.
pub open spec fn text_result_view(r: Result<Option<String>, usize>) -> Result<
    Option<Seq<char>>,
    nat,
> {
    match r {
        Ok(Some(s)) => Ok(Some(s@)),
        Ok(None) => Ok(None),
        Err(k) => Err(k as nat),
    }
}

/// Decodes a text field: absent where not supplied, else the UTF-8 text
/// truncated to the declared length; `Err` with the offset up to which the
/// bytes were valid where they are not text.
pub fn convert_to_optional_string(field: &TextField) -> (r: Result<Option<String>, usize>)
    ensures
        text_result_view(r) == field_text(field.spec_bytes(), field.declared_len),
{
    match &field.bytes {
        None => Ok(None),
        Some(b) => {
            if field.declared_len == 0 {
                return Ok(None);
            }
            let n = b.len();
            let kept: usize = if field.declared_len < 0 || field.declared_len as usize >= n {
                n
            } else {
                field.declared_len as usize
            };
            let part = slice_subrange(b.as_slice(), 0, kept);
            match str_from_utf8(part) {
                Err(k) => Err(k),
                Ok(s) => Ok(Some(s.to_owned())),
            }
        },
    }
}

} // verus!
