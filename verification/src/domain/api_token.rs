//! The bearer token that guards the API.
use vstd::prelude::*;

verus! {

/// Bearer token used to authenticate API requests. It has no `Debug`
/// rendering of its contents; [`ApiToken::debug_text`] gives the redacted
/// form to log.
#[derive(Clone)]
pub struct ApiToken {
    value: String,
}

impl View for ApiToken {
    type V = Seq<char>;

    closed spec fn view(&self) -> Seq<char> {
        self.value@
    }
}

/// The characters that `char::is_whitespace` accepts: those with the Unicode
/// `White_Space` property.
pub open spec fn is_unicode_whitespace(c: char) -> bool {
    let u = c as u32;
    ||| 0x09 <= u <= 0x0d
    ||| u == 0x20
    ||| u == 0x85
    ||| u == 0xa0
    ||| u == 0x1680
    ||| 0x2000 <= u <= 0x200a
    ||| u == 0x2028
    ||| u == 0x2029
    ||| u == 0x202f
    ||| u == 0x205f
    ||| u == 0x3000
}

/// A token is blank when nothing is left after trimming white space.
pub open spec fn is_blank_text(text: Seq<char>) -> bool {
    forall|i: int| 0 <= i < text.len() ==> is_unicode_whitespace(#[trigger] text[i])
}

pub fn char_is_whitespace(c: char) -> (r: bool)
    ensures
        r == is_unicode_whitespace(c),
{
    let u = c as u32;
    (0x09 <= u && u <= 0x0d) || u == 0x20 || u == 0x85 || u == 0xa0 || u == 0x1680
        || (0x2000 <= u && u <= 0x200a) || u == 0x2028 || u == 0x2029 || u == 0x202f
        || u == 0x205f || u == 0x3000
}

/// Whether `s.trim()` would be empty: every character is white space.
pub fn is_blank_str(s: &str) -> (r: bool)
    ensures
        r == is_blank_text(s@),
{
    let mut all_white = true;
    for c in it: s.chars()
        invariant
            it.seq() == s@,
            all_white == (forall|j: int| 0 <= j < it.index() ==> is_unicode_whitespace(#[trigger] s@[j])),
    {
        if !char_is_whitespace(c) {
            all_white = false;
        }
    }
    all_white
}

impl ApiToken {
    pub fn new(value: &str) -> (t: ApiToken)
        ensures
            t@ == value@,
    {
        ApiToken { value: value.to_owned() }
    }

    /// The raw bytes, for constant-time comparison only.
    pub fn expose_bytes(&self) -> (r: &[u8])
        ensures
            r@ == vstd::utf8::encode_utf8(self@),
    {
        self.value.as_str().as_bytes()
    }

    pub fn is_blank(&self) -> (r: bool)
        ensures
            r == is_blank_text(self@),
    {
        is_blank_str(self.value.as_str())
    }

    /// The form under which a token may appear in logs.
    pub fn debug_text(&self) -> (r: String)
        ensures
            r@ == "ApiToken(<redacted>)"@,
    {
        "ApiToken(<redacted>)".to_owned()
    }
}

} // verus!
