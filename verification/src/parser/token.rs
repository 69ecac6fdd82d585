//! White space and keywords.

use crate::parser::scan::{char, cut, lemma_span, multispace0, span, tag, Class};
use vstd::prelude::*;

verus! {

/// What is left of a text and what was read from it, if the text was as
/// expected.
pub type Match<T> = Option<(Seq<char>, T)>;

/// What is left of `s` behind its leading white space.
pub open spec fn spec_ws(s: Seq<char>) -> Seq<char> {
    s.skip(span(s, Class::Space) as int)
}

/// White space, the keyword `word`, white space.
pub open spec fn spec_keyword(s: Seq<char>, word: Seq<char>) -> Match<Seq<char>> {
    if word.is_prefix_of(spec_ws(s)) {
        Some((spec_ws(spec_ws(s).skip(word.len() as int)), word))
    } else {
        None
    }
}

/// Skipping white space does not lengthen a text.
pub proof fn lemma_ws_shrinks(s: Seq<char>)
    ensures
        spec_ws(s).len() <= s.len(),
{
    lemma_span(s, Class::Space);
}

/// What is left behind a keyword is shorter than the text by at least the
/// keyword.
pub proof fn lemma_keyword_shrinks(s: Seq<char>, word: Seq<char>)
    ensures
        spec_keyword(s, word) matches Some((rest, _)) ==> rest.len() + word.len() <= s.len(),
{
    lemma_ws_shrinks(s);
    lemma_ws_shrinks(spec_ws(s).skip(word.len() as int));
}

/// The slices `got` have the views `expected`.
pub open spec fn same_slices(got: Option<(&str, &str)>, expected: Match<Seq<char>>) -> bool {
    match expected {
        Some((rest, matched)) => got matches Some((r, m)) && r@ == rest && m@ == matched,
        None => got is None,
    }
}

/// Splits `input` behind its leading white space: what is left, and the
/// white space.
pub fn ws<'a>(input: &'a str) -> (r: (&'a str, &'a str))
    ensures
        r.0@ == spec_ws(input@),
        cut(input@, span(input@, Class::Space), r.0@, r.1@),
{
    match multispace0(input) {
        Some(r) => r,
        None => unreached(),
    }
}

/// Reads white space, the keyword `word` and white space.
pub fn keyword<'a>(word: &str, input: &'a str) -> (r: Option<(&'a str, &'a str)>)
    ensures
        same_slices(r, spec_keyword(input@, word@)),
{
    let (input, _) = ws(input);
    match tag(word, input) {
        Some((rest, matched)) => {
            let (rest, _) = ws(rest);
            assert(matched@ =~= word@);
            Some((rest, matched))
        },
        None => None,
    }
}

/// The character `c`.
pub open spec fn spec_char(s: Seq<char>, c: char) -> Option<Seq<char>> {
    if s.len() > 0 && s[0] == c {
        Some(s.skip(1))
    } else {
        None
    }
}

/// Reads the character `c`.
pub fn symbol<'a>(c: char, input: &'a str) -> (r: Option<&'a str>)
    ensures
        match spec_char(input@, c) {
            Some(rest) => r matches Some(left) && left@ == rest,
            None => r is None,
        },
{
    match char(c, input) {
        Some((rest, _)) => Some(rest),
        None => None,
    }
}

/// Reads `(`, what `inner` reads, and `)`.
///
/// The result is what `inner` found behind the `(`, and what is left
/// behind the `)`. There is none if the `(` is missing, if `inner` finds
/// nothing behind it, or if the `)` is missing behind what `inner` read.
pub fn pt<'a, O, G>(inner: G, input: &'a str) -> (r: Option<(&'a str, O)>) where
    G: FnOnce(&'a str) -> Option<(&'a str, O)>,

    requires
        forall|text: &'a str| inner.requires((text,)),
    ensures
        match r {
            Some((rest, found)) => exists|a: &'a str, b: &'a str|
                {
                    &&& spec_char(input@, '(') == Some(a@)
                    &&& #[trigger] inner.ensures((a,), Some((b, found)))
                    &&& spec_char(b@, ')') == Some(rest@)
                },
            None => {
                ||| spec_char(input@, '(') is None
                ||| exists|a: &'a str|
                    {
                        &&& spec_char(input@, '(') == Some(a@)
                        &&& #[trigger] inner.ensures((a,), None)
                    }
                ||| exists|a: &'a str, b: &'a str, found: O|
                    {
                        &&& spec_char(input@, '(') == Some(a@)
                        &&& #[trigger] inner.ensures((a,), Some((b, found)))
                        &&& spec_char(b@, ')') is None
                    }
            },
        },
{
    let a = match symbol('(', input) {
        Some(rest) => rest,
        None => {
            return None;
        },
    };
    match inner(a) {
        Some((b, found)) => {
            assert(inner.ensures((a,), Some((b, found))));
            match symbol(')', b) {
                Some(rest) => {
                    let r = Some((rest, found));
                    assert(r matches Some((_, value)) && inner.ensures((a,), Some((b, value))));
                    r
                },
                None => None,
            }
        },
        None => {
            assert(inner.ensures((a,), None));
            None
        },
    }
}

/// Reads white space, what `inner` reads, and white space.
///
/// The result is what `inner` found behind the leading white space, and
/// what is left behind the white space that follows what `inner` read.
/// There is none if `inner` finds nothing.
pub fn bws<'a, O, G>(inner: G, input: &'a str) -> (r: Option<(&'a str, O)>) where
    G: FnOnce(&'a str) -> Option<(&'a str, O)>,

    requires
        forall|text: &'a str| inner.requires((text,)),
    ensures
        match r {
            Some((rest, found)) => exists|a: &'a str, b: &'a str|
                {
                    &&& a@ == spec_ws(input@)
                    &&& #[trigger] inner.ensures((a,), Some((b, found)))
                    &&& rest@ == spec_ws(b@)
                },
            None => exists|a: &'a str|
                a@ == spec_ws(input@) && #[trigger] inner.ensures((a,), None),
        },
{
    let (a, _) = ws(input);
    match inner(a) {
        Some((b, found)) => {
            let (rest, _) = ws(b);
            let r = Some((rest, found));
            assert(r matches Some((_, value)) && inner.ensures((a,), Some((b, value))));
            r
        },
        None => {
            assert(inner.ensures((a,), None));
            None
        },
    }
}

/// Reads the keyword `func`, with white space around it.
pub fn func<'a>(input: &'a str) -> (r: Option<(&'a str, &'a str)>)
    ensures
        same_slices(r, spec_keyword(input@, "func"@)),
{
    keyword("func", input)
}

/// Reads the keyword `param`, with white space around it.
pub fn param<'a>(input: &'a str) -> (r: Option<(&'a str, &'a str)>)
    ensures
        same_slices(r, spec_keyword(input@, "param"@)),
{
    keyword("param", input)
}

/// Reads the keyword `result`, with white space around it.
pub fn result<'a>(input: &'a str) -> (r: Option<(&'a str, &'a str)>)
    ensures
        same_slices(r, spec_keyword(input@, "result"@)),
{
    keyword("result", input)
}

/// Reads the keyword `export`, with white space around it.
pub fn export<'a>(input: &'a str) -> (r: Option<(&'a str, &'a str)>)
    ensures
        same_slices(r, spec_keyword(input@, "export"@)),
{
    keyword("export", input)
}

/// Reads the keyword `module`, with white space around it.
pub fn module<'a>(input: &'a str) -> (r: Option<(&'a str, &'a str)>)
    ensures
        same_slices(r, spec_keyword(input@, "module"@)),
{
    keyword("module", input)
}

} // verus!
