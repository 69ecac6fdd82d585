//! Scanning a text from its start: character classes, the longest prefix of
//! a class, and the recognizers of `nom` for them.

use vstd::prelude::*;

verus! {

/// A class of characters.
pub enum Class {
    /// Space, tab, carriage return and line feed.
    Space,
    /// The ASCII digits.
    Digit,
    /// The ASCII letters and digits.
    Alphanumeric,
    /// The characters of the given list.
    OneOf(Seq<char>),
    /// The characters that are not in the given list.
    NoneOf(Seq<char>),
}

/// Whether `c` belongs to `class`.
pub open spec fn in_class(class: Class, c: char) -> bool {
    match class {
        Class::Space => c == ' ' || c == '\t' || c == '\r' || c == '\n',
        Class::Digit => '0' <= c <= '9',
        Class::Alphanumeric => 'a' <= c <= 'z' || 'A' <= c <= 'Z' || '0' <= c <= '9',
        Class::OneOf(list) => list.contains(c),
        Class::NoneOf(list) => !list.contains(c),
    }
}

/// The length of the longest prefix of `s` whose characters all belong to
/// `class`.
pub open spec fn span(s: Seq<char>, class: Class) -> nat
    decreases s.len(),
{
    if s.len() > 0 && in_class(class, s[0]) {
        1 + span(s.drop_first(), class)
    } else {
        0
    }
}

/// The prefix that `span` measures lies within the text and consists of
/// characters of the class, and the character behind it, if there is one,
/// is not of the class.
pub proof fn lemma_span(s: Seq<char>, class: Class)
    ensures
        span(s, class) <= s.len(),
        forall|i: int| 0 <= i < span(s, class) ==> in_class(class, #[trigger] s[i]),
        span(s, class) < s.len() ==> !in_class(class, s[span(s, class) as int]),
    decreases s.len(),
{
    if s.len() > 0 && in_class(class, s[0]) {
        let rest = s.drop_first();
        lemma_span(rest, class);
        assert forall|i: int| 0 <= i < span(s, class) implies in_class(class, #[trigger] s[i]) by {
            if i > 0 {
                assert(s[i] == rest[i - 1]);
            }
        }
        if span(s, class) < s.len() {
            assert(s[span(s, class) as int] == rest[span(rest, class) as int]);
        }
    }
}

/// `matched` is the first `n` characters of `input` and `rest` is what
/// follows them.
pub open spec fn cut(input: Seq<char>, n: nat, rest: Seq<char>, matched: Seq<char>) -> bool {
    n <= input.len() && matched == input.take(n as int) && rest == input.skip(n as int)
}

/// `nom::character::complete::multispace0` on a string slice. It splits
/// the input behind its longest prefix of spaces, tabs, carriage returns
/// and line feeds, and returns what is left and the prefix. It does not
/// fail.
#[verifier::external_body]
pub(crate) fn multispace0<'a>(input: &'a str) -> (r: Option<(&'a str, &'a str)>)
    ensures
        r is Some,
        r matches Some((rest, matched)) ==> cut(
            input@,
            span(input@, Class::Space),
            rest@,
            matched@,
        ),
{
    match nom::character::complete::multispace0::<&str, nom::error::Error<&str>>(input) {
        Ok((rest, matched)) => Some((rest, matched)),
        Err(_) => None,
    }
}

/// `nom::character::complete::digit1` on a string slice. It splits the
/// input behind its longest prefix of ASCII digits and returns what is left
/// and the prefix. It fails exactly when that prefix is empty.
#[verifier::external_body]
pub(crate) fn digit1<'a>(input: &'a str) -> (r: Option<(&'a str, &'a str)>)
    ensures
        r is Some <==> span(input@, Class::Digit) > 0,
        r matches Some((rest, matched)) ==> cut(
            input@,
            span(input@, Class::Digit),
            rest@,
            matched@,
        ),
{
    match nom::character::complete::digit1::<&str, nom::error::Error<&str>>(input) {
        Ok((rest, matched)) => Some((rest, matched)),
        Err(_) => None,
    }
}

/// `nom::character::complete::alphanumeric1` on a string slice. It splits
/// the input behind its longest prefix of ASCII letters and digits and
/// returns what is left and the prefix. It fails exactly when that prefix
/// is empty.
#[verifier::external_body]
pub(crate) fn alphanumeric1<'a>(input: &'a str) -> (r: Option<(&'a str, &'a str)>)
    ensures
        r is Some <==> span(input@, Class::Alphanumeric) > 0,
        r matches Some((rest, matched)) ==> cut(
            input@,
            span(input@, Class::Alphanumeric),
            rest@,
            matched@,
        ),
{
    match nom::character::complete::alphanumeric1::<&str, nom::error::Error<&str>>(input) {
        Ok((rest, matched)) => Some((rest, matched)),
        Err(_) => None,
    }
}

/// `nom::bytes::complete::is_a` on a string slice, with a string slice as
/// the list of characters. It splits the input behind its longest prefix of
/// characters of `list` and returns what is left and the prefix. It fails
/// exactly when that prefix is empty.
#[verifier::external_body]
pub(crate) fn is_a<'a>(list: &str, input: &'a str) -> (r: Option<(&'a str, &'a str)>)
    ensures
        r is Some <==> span(input@, Class::OneOf(list@)) > 0,
        r matches Some((rest, matched)) ==> cut(
            input@,
            span(input@, Class::OneOf(list@)),
            rest@,
            matched@,
        ),
{
    match nom::bytes::complete::is_a::<&str, &str, nom::error::Error<&str>>(list)(input) {
        Ok((rest, matched)) => Some((rest, matched)),
        Err(_) => None,
    }
}

/// `nom::bytes::complete::is_not` on a string slice, with a string slice
/// as the list of characters. It splits the input behind its longest prefix
/// of characters that are not in `list` and returns what is left and the
/// prefix. It fails exactly when that prefix is empty.
#[verifier::external_body]
pub(crate) fn is_not<'a>(list: &str, input: &'a str) -> (r: Option<(&'a str, &'a str)>)
    ensures
        r is Some <==> span(input@, Class::NoneOf(list@)) > 0,
        r matches Some((rest, matched)) ==> cut(
            input@,
            span(input@, Class::NoneOf(list@)),
            rest@,
            matched@,
        ),
{
    match nom::bytes::complete::is_not::<&str, &str, nom::error::Error<&str>>(list)(input) {
        Ok((rest, matched)) => Some((rest, matched)),
        Err(_) => None,
    }
}

/// `nom::bytes::complete::tag` on a string slice. It succeeds exactly when
/// the input starts with `word`, and then returns what follows `word` and
/// the part of the input that is `word`.
#[verifier::external_body]
pub(crate) fn tag<'a>(word: &str, input: &'a str) -> (r: Option<(&'a str, &'a str)>)
    ensures
        r is Some <==> word@.is_prefix_of(input@),
        r matches Some((rest, matched)) ==> cut(input@, word@.len(), rest@, matched@),
{
    match nom::bytes::complete::tag::<&str, &str, nom::error::Error<&str>>(word)(input) {
        Ok((rest, matched)) => Some((rest, matched)),
        Err(_) => None,
    }
}

/// `nom::character::complete::char` on a string slice. It succeeds
/// exactly when the input starts with the character `c`, and then returns
/// what follows it and `c`.
#[verifier::external_body]
pub(crate) fn char<'a>(c: char, input: &'a str) -> (r: Option<(&'a str, char)>)
    ensures
        r is Some <==> (input@.len() > 0 && input@[0] == c),
        r matches Some((rest, found)) ==> (found == c && rest@ == input@.skip(1)),
{
    match nom::character::complete::char::<&str, nom::error::Error<&str>>(c)(input) {
        Ok((rest, found)) => Some((rest, found)),
        Err(_) => None,
    }
}

} // verus!
