//! Single validation rules of the configuration, each with the message it
//! refuses with.
use crate::text::{concat2, debug_quoted, quote};
use vstd::prelude::*;

verus! {

/// One millisecond in nanoseconds: the shortest interval or timeout accepted.
pub const MIN_DURATION: u128 = 1_000_000;

/// A character allowed in ids: ASCII letters and digits, `-`, `_`, `.`.
pub open spec fn is_id_char(c: char) -> bool {
    ('a' <= c && c <= 'z') || ('A' <= c && c <= 'Z') || ('0' <= c && c <= '9') || c == '-' || c == '_'
        || c == '.'
}

/// A valid host or group id: non-empty, of id characters only.
pub open spec fn is_valid_id(value: Seq<char>) -> bool {
    value.len() > 0 && forall|i: int| 0 <= i < value.len() ==> is_id_char(#[trigger] value[i])
}

/// The message refusing an id.
pub open spec fn invalid_id_message(kind: Seq<char>, value: Seq<char>) -> Seq<char> {
    kind + " "@ + debug_quoted(value) + " must contain only ASCII letters, digits, dash, underscore, or dot"@
}

/// The message refusing a too short duration.
pub open spec fn short_duration_message(name: Seq<char>) -> Seq<char> {
    name + " must be at least 1ms"@
}

fn is_id_char_exec(c: char) -> (r: bool)
    ensures
        r == is_id_char(c),
{
    ('a' <= c && c <= 'z') || ('A' <= c && c <= 'Z') || ('0' <= c && c <= '9') || c == '-' || c == '_'
        || c == '.'
}

/// Checks that `value` is a valid id of the given kind.
pub fn validate_id(kind: &str, value: &str) -> (r: Result<(), String>)
    ensures
        r is Ok <==> is_valid_id(value@),
        r matches Err(m) ==> m@ == invalid_id_message(kind@, value@),
{
    let mut ok = true;
    for c in it: value.chars()
        invariant
            it.seq() == value@,
            ok == (forall|j: int| 0 <= j < it.index() ==> is_id_char(#[trigger] value@[j])),
    {
        if !is_id_char_exec(c) {
            ok = false;
        }
    }
    if value.is_empty() || !ok {
        let mut m = kind.to_owned();
        m.append(" ");
        m.append(quote(value).as_str());
        m.append(" must contain only ASCII letters, digits, dash, underscore, or dot");
        Err(m)
    } else {
        Ok(())
    }
}

/// Checks that a duration (in nanoseconds) is at least one millisecond.
pub fn validate_duration(name: &str, duration: u128) -> (r: Result<(), String>)
    ensures
        r is Ok <==> duration >= MIN_DURATION,
        r matches Err(m) ==> m@ == short_duration_message(name@),
{
    if duration < MIN_DURATION {
        Err(concat2(name, " must be at least 1ms"))
    } else {
        Ok(())
    }
}

/// The ASCII codes of id characters: digits, upper- and lower-case letters,
/// `-`, `_` and `.`.
pub open spec fn id_code(n: int) -> bool {
    (48 <= n <= 57) || (65 <= n <= 90) || (97 <= n <= 122) || n == 45 || n == 95 || n == 46
}

/// Which ids are valid, by character code: exactly the non-empty texts whose
/// characters are ASCII letters, digits, `-`, `_` or `.`. So ids may be
/// joined with any of those separators, and a separator alone is an id.
pub proof fn lemma_valid_ids(s: Seq<char>, a: Seq<char>, b: Seq<char>)
    ensures
        is_valid_id(s) <==> (s.len() > 0 && forall|i: int| 0 <= i < s.len() ==> id_code(#[trigger] s[i] as int)),
        is_valid_id(seq!['_']) && is_valid_id(seq!['-']) && is_valid_id(seq!['.']),
        is_valid_id(a) && is_valid_id(b) ==> is_valid_id(a + seq!['_'] + b) && is_valid_id(a + seq!['-'] + b)
            && is_valid_id(a + seq!['.'] + b),
        !is_valid_id(seq![' ']) && !is_valid_id(seq!['/']) && !is_valid_id(Seq::<char>::empty()),
{
    assert forall|c: char| #[trigger] is_id_char(c) <==> id_code(c as int) by {
    }
    if is_valid_id(a) && is_valid_id(b) {
        let sep = seq!['_', '-', '.'];
        assert forall|k: int| 0 <= k < 3 implies is_valid_id(a + seq![#[trigger] sep[k]] + b) by {
            let t = a + seq![sep[k]] + b;
            assert forall|i: int| 0 <= i < t.len() implies is_id_char(#[trigger] t[i]) by {
                if i < a.len() {
                    assert(t[i] == a[i]);
                } else if i == a.len() {
                } else {
                    assert(t[i] == b[i - a.len() - 1]);
                }
            }
        }
        assert(sep[0] == '_' && sep[1] == '-' && sep[2] == '.');
    }
    assert(seq!['_'][0] == '_');
    assert(seq!['-'][0] == '-');
    assert(seq!['.'][0] == '.');
    assert(seq![' '][0] == ' ');
    assert(seq!['/'][0] == '/');
}

} // verus!
