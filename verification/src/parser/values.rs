//! Identifiers, numbers and string literals.

use crate::parser::scan::{
    alphanumeric1, char, digit1, in_class, is_a, is_not, lemma_span, span, tag, Class,
};
use crate::parser::token::{lemma_ws_shrinks, same_slices, spec_ws, ws, Match};
use vstd::prelude::*;
use vstd::string::StrSliceExecFns;

verus! {

/// The characters, besides the ASCII letters and digits, of which an
/// identifier may consist.
pub const ID_SYMBOLS: &'static str = "!#$%&\u{2032}\u{2217}+\u{2212}./:<=>?@\u{2216}^_`|~";

/// Whether an identifier may contain `c`.
pub open spec fn is_id_char(c: char) -> bool {
    in_class(Class::Alphanumeric, c) || in_class(Class::OneOf(ID_SYMBOLS@), c)
}

/// The length of the longest prefix of `s` that consists of identifier
/// characters.
pub open spec fn id_span(s: Seq<char>) -> nat
    decreases s.len(),
{
    if s.len() > 0 && is_id_char(s[0]) {
        1 + id_span(s.drop_first())
    } else {
        0
    }
}

/// An identifier: white space, `$` and at least one identifier character,
/// white space. The identifier includes the `$`.
pub open spec fn spec_id(s: Seq<char>) -> Match<Seq<char>> {
    let a = spec_ws(s);
    if a.len() > 0 && a[0] == '$' && id_span(a.skip(1)) > 0 {
        let n = 1 + id_span(a.skip(1));
        Some((spec_ws(a.skip(n as int)), a.take(n as int)))
    } else {
        None
    }
}

/// A prefix of identifier characters counts towards the span.
proof fn lemma_id_span_extend(s: Seq<char>, k: nat)
    requires
        k <= s.len(),
        forall|i: int| 0 <= i < k ==> is_id_char(#[trigger] s[i]),
    ensures
        id_span(s) == k + id_span(s.skip(k as int)),
    decreases k,
{
    if k == 0 {
        assert(s.skip(0) =~= s);
    } else {
        let rest = s.drop_first();
        assert forall|i: int| 0 <= i < k - 1 implies is_id_char(#[trigger] rest[i]) by {
            assert(rest[i] == s[i + 1]);
        }
        lemma_id_span_extend(rest, (k - 1) as nat);
        assert(rest.skip(k - 1) =~= s.skip(k as int));
    }
}

/// The identifier span never exceeds the text.
proof fn lemma_id_span_bound(s: Seq<char>)
    ensures
        id_span(s) <= s.len(),
    decreases s.len(),
{
    if s.len() > 0 && is_id_char(s[0]) {
        lemma_id_span_bound(s.drop_first());
    }
}

/// What is left behind an identifier is shorter than the text.
pub proof fn lemma_id_shrinks(s: Seq<char>)
    ensures
        spec_id(s) matches Some((rest, _)) ==> rest.len() < s.len(),
{
    let a = spec_ws(s);
    lemma_ws_shrinks(s);
    if a.len() > 0 {
        lemma_id_span_bound(a.skip(1));
        lemma_ws_shrinks(a.skip((1 + id_span(a.skip(1))) as int));
    }
}

/// Reads an identifier, with white space around it.
pub fn id<'a>(input: &'a str) -> (r: Option<(&'a str, &'a str)>)
    ensures
        same_slices(r, spec_id(input@)),
{
    let (start, _) = ws(input);
    let mut rest = match tag("$", start) {
        Some((rest, _)) => rest,
        None => {
            proof {
                reveal_strlit("$");
                assert("$"@.len() == 1);
                if start@.len() > 0 && start@[0] == '$' {
                    assert("$"@ =~= start@.subrange(0, 1));
                }
            }
            return None;
        },
    };
    proof {
        reveal_strlit("$");
        assert(start@.subrange(0, 1)[0] == "$"@[0]);
    }
    let ghost body = start@.skip(1);
    let total = start.unicode_len();
    let mut count: usize = 0;
    let mut more = true;
    assert(body.skip(0) =~= body);
    while more
        invariant
            body == start@.skip(1),
            total == start@.len(),
            total > 0,
            count <= body.len(),
            rest@ == body.skip(count as int),
            id_span(body) == count + id_span(rest@),
            !more ==> id_span(rest@) == 0,
        decreases rest@.len() + if more { 1nat } else { 0nat },
    {
        let found = match alphanumeric1(rest) {
            Some(found) => {
                proof {
                    lemma_span(rest@, Class::Alphanumeric);
                    lemma_id_span_extend(rest@, span(rest@, Class::Alphanumeric));
                }
                Some(found)
            },
            None => match is_a(ID_SYMBOLS, rest) {
                Some(found) => {
                    proof {
                        lemma_span(rest@, Class::OneOf(ID_SYMBOLS@));
                        lemma_id_span_extend(rest@, span(rest@, Class::OneOf(ID_SYMBOLS@)));
                    }
                    Some(found)
                },
                None => None,
            },
        };
        match found {
            Some((behind, piece)) => {
                let n = piece.unicode_len();
                assert(body.skip(count as int).skip(n as int) =~= body.skip(count + n));
                count = count + n;
                rest = behind;
            },
            None => {
                more = false;
            },
        }
    }
    if count == 0 {
        return None;
    }
    let name = start.substring_char(0, 1 + count);
    assert(start@.skip(1).skip(count as int) =~= start@.skip(1 + count));
    let (rest, _) = ws(rest);
    Some((rest, name))
}

/// The value of an ASCII digit.
pub open spec fn digit_value(c: char) -> nat {
    (c as u32 - '0' as u32) as nat
}

/// The number that a sequence of ASCII digits spells in base ten.
pub open spec fn decimal(digits: Seq<char>) -> nat
    decreases digits.len(),
{
    if digits.len() == 0 {
        0
    } else {
        10 * decimal(digits.drop_last()) + digit_value(digits.last())
    }
}

/// A number: at least one ASCII digit, and as many as follow; the number
/// must fit 32 bits.
pub open spec fn spec_u32(s: Seq<char>) -> Match<u32> {
    let n = span(s, Class::Digit);
    if n > 0 && decimal(s.take(n as int)) <= u32::MAX {
        Some((s.skip(n as int), decimal(s.take(n as int)) as u32))
    } else {
        None
    }
}

/// What is left behind a number is shorter than the text.
pub proof fn lemma_u32_shrinks(s: Seq<char>)
    ensures
        spec_u32(s) matches Some((rest, _)) ==> rest.len() < s.len(),
{
    lemma_span(s, Class::Digit);
}

/// A number does not get smaller when digits are appended to it.
proof fn lemma_decimal_grows(digits: Seq<char>, k: int)
    requires
        0 <= k <= digits.len(),
    ensures
        decimal(digits.take(k)) <= decimal(digits),
    decreases digits.len() - k,
{
    if k == digits.len() {
        assert(digits.take(k) =~= digits);
    } else {
        lemma_decimal_grows(digits, k + 1);
        assert(digits.take(k + 1).drop_last() =~= digits.take(k));
    }
}

/// The number that the ASCII digits `digits` spell, if it fits 32 bits.
fn digits_to_u32(digits: &str) -> (r: Option<u32>)
    requires
        forall|i: int| 0 <= i < digits@.len() ==> in_class(Class::Digit, #[trigger] digits@[i]),
    ensures
        match r {
            Some(v) => decimal(digits@) == v,
            None => decimal(digits@) > u32::MAX,
        },
{
    broadcast use vstd::string::is_ascii_spec_bytes;

    assert(vstd::string::is_ascii(digits));
    let bytes = digits.as_bytes();
    let n = bytes.len();
    let mut value: u64 = 0;
    let mut i: usize = 0;
    assert(digits@.take(0) =~= Seq::<char>::empty());
    while i < n
        invariant
            i <= n,
            n == digits@.len(),
            bytes@ == Seq::new(digits@.len(), |k: int| digits@[k] as u8),
            forall|k: int|
                0 <= k < digits@.len() ==> in_class(Class::Digit, #[trigger] digits@[k]),
            value == decimal(digits@.take(i as int)),
            value <= u32::MAX,
        decreases n - i,
    {
        let d = (bytes[i] - 48) as u64;
        assert(d == digit_value(digits@[i as int])) by {
            assert(in_class(Class::Digit, digits@[i as int]));
        }
        assert(digits@.take(i + 1).drop_last() =~= digits@.take(i as int));
        value = 10 * value + d;
        i = i + 1;
        if value > 0xffff_ffff {
            proof {
                lemma_decimal_grows(digits@, i as int);
            }
            return None;
        }
    }
    assert(digits@.take(n as int) =~= digits@);
    Some(value as u32)
}

/// Reads a number.
pub fn u32<'a>(input: &'a str) -> (r: Option<(&'a str, u32)>)
    ensures
        match spec_u32(input@) {
            Some((rest, value)) => r matches Some((left, v)) && left@ == rest && v == value,
            None => r is None,
        },
{
    match digit1(input) {
        Some((rest, digits)) => {
            proof {
                lemma_span(input@, Class::Digit);
            }
            match digits_to_u32(digits) {
                Some(value) => Some((rest, value)),
                None => None,
            }
        },
        None => None,
    }
}

/// A string literal: white space, a double quote, at least one character
/// that is no double quote and as many as follow, a double quote, white
/// space. The literal is what stands between the quotes.
pub open spec fn spec_literal(s: Seq<char>) -> Match<Seq<char>> {
    let a = spec_ws(s);
    if a.len() > 0 && a[0] == '"' {
        let n = span(a.skip(1), Class::NoneOf("\""@)) as int;
        if n > 0 && 1 + n < a.len() {
            Some((spec_ws(a.skip(n + 2)), a.subrange(1, 1 + n)))
        } else {
            None
        }
    } else {
        None
    }
}

/// What is left behind a string literal is shorter than the text.
pub proof fn lemma_literal_shrinks(s: Seq<char>)
    ensures
        spec_literal(s) matches Some((rest, _)) ==> rest.len() < s.len(),
{
    let a = spec_ws(s);
    lemma_ws_shrinks(s);
    if a.len() > 0 {
        let n = span(a.skip(1), Class::NoneOf("\""@)) as int;
        lemma_span(a.skip(1), Class::NoneOf("\""@));
        lemma_ws_shrinks(a.skip(n + 2));
    }
}

/// Reads a string literal, with white space around it.
pub fn literal<'a>(input: &'a str) -> (r: Option<(&'a str, String)>)
    ensures
        match spec_literal(input@) {
            Some((rest, text)) => r matches Some((left, t)) && left@ == rest && t@ == text,
            None => r is None,
        },
{
    let (start, _) = ws(input);
    let inner = match char('"', start) {
        Some((inner, _)) => inner,
        None => {
            return None;
        },
    };
    let (behind, text) = match is_not("\"", inner) {
        Some(found) => found,
        None => {
            return None;
        },
    };
    proof {
        reveal_strlit("\"");
        lemma_span(inner@, Class::NoneOf("\""@));
        let n = span(inner@, Class::NoneOf("\""@)) as int;
        assert(start@.skip(1).skip(n) =~= start@.skip(1 + n));
        assert(start@.skip(1).take(n) =~= start@.subrange(1, 1 + n));
        if 1 + n < start@.len() {
            assert(behind@[0] == inner@[n]);
            assert("\""@.contains(behind@[0]));
        }
    }
    let rest = match char('"', behind) {
        Some((rest, _)) => rest,
        None => {
            return None;
        },
    };
    let ghost n = span(inner@, Class::NoneOf("\""@)) as int;
    assert(behind@.skip(1) =~= start@.skip(n + 2));
    let (rest, _) = ws(rest);
    Some((rest, text.to_owned()))
}

} // verus!
