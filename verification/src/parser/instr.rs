//! Instructions in the text format.

use crate::ast::Instr;
use crate::parser::ctx::{Ctx, CtxView};
use crate::parser::token::{
    keyword, lemma_keyword_shrinks, lemma_ws_shrinks, spec_keyword, spec_ws, ws, Match,
};
use crate::parser::types::{index, lemma_index_shrinks, spec_index};
use vstd::prelude::*;

verus! {

/// `local.get`: the keyword, with white space around it, and the index of a
/// local of the context.
pub open spec fn spec_local_get(s: Seq<char>, ctx: CtxView) -> Match<Instr> {
    match spec_keyword(s, "local.get"@) {
        Some((a, _)) => match spec_index(a) {
            Some((b, idx)) => match ctx.local_idx(idx) {
                Some(i) => Some((b, Instr::LocalGet(i as usize))),
                None => None,
            },
            None => None,
        },
        None => None,
    }
}

/// `i32.add`: the keyword, with white space around it.
pub open spec fn spec_i32_add(s: Seq<char>) -> Match<Instr> {
    match spec_keyword(s, "i32.add"@) {
        Some((a, _)) => Some((a, Instr::I32Add)),
        None => None,
    }
}

/// An instruction: `local.get`, or else `i32.add`, with white space around
/// it.
pub open spec fn spec_instr(s: Seq<char>, ctx: CtxView) -> Match<Instr> {
    let found = match spec_local_get(spec_ws(s), ctx) {
        Some(found) => Some(found),
        None => spec_i32_add(spec_ws(s)),
    };
    match found {
        Some((rest, instr)) => Some((spec_ws(rest), instr)),
        None => None,
    }
}

/// As many instructions as follow one another, and what is left behind
/// them.
pub open spec fn spec_more_instrs(s: Seq<char>, ctx: CtxView) -> (Seq<char>, Seq<Instr>)
    decreases s.len(),
{
    match spec_instr(s, ctx) {
        Some((rest, instr)) => if rest.len() < s.len() {
            let (end, more) = spec_more_instrs(rest, ctx);
            (end, seq![instr] + more)
        } else {
            (s, Seq::empty())
        },
        None => (s, Seq::empty()),
    }
}

/// At least one instruction, and as many as follow.
pub open spec fn spec_instrs(s: Seq<char>, ctx: CtxView) -> Match<Seq<Instr>> {
    match spec_instr(s, ctx) {
        Some((rest, first)) => Some(
            (spec_more_instrs(rest, ctx).0, seq![first] + spec_more_instrs(rest, ctx).1),
        ),
        None => None,
    }
}

/// What is left behind an instruction is shorter than the text.
pub proof fn lemma_instr_shrinks(s: Seq<char>, ctx: CtxView)
    ensures
        spec_instr(s, ctx) matches Some((rest, _)) ==> rest.len() < s.len(),
{
    let a = spec_ws(s);
    lemma_ws_shrinks(s);
    lemma_keyword_shrinks(a, "local.get"@);
    lemma_keyword_shrinks(a, "i32.add"@);
    reveal_strlit("local.get");
    reveal_strlit("i32.add");
    match spec_keyword(a, "local.get"@) {
        Some((b, _)) => {
            lemma_index_shrinks(b);
            match spec_index(b) {
                Some((c, _)) => {
                    lemma_ws_shrinks(c);
                },
                None => {},
            }
        },
        None => {},
    }
    match spec_keyword(a, "i32.add"@) {
        Some((b, _)) => {
            lemma_ws_shrinks(b);
        },
        None => {},
    }
}

/// What is left behind instructions is not longer than the text.
pub proof fn lemma_more_instrs_shrink(s: Seq<char>, ctx: CtxView)
    ensures
        spec_more_instrs(s, ctx).0.len() <= s.len(),
    decreases s.len(),
{
    match spec_instr(s, ctx) {
        Some((rest, _)) => {
            if rest.len() < s.len() {
                lemma_more_instrs_shrink(rest, ctx);
            }
        },
        None => {},
    }
}

/// Reads `local.get` and resolves its index among the locals of `ctx`.
pub fn local_get<'a>(input: &'a str, ctx: &Ctx) -> (r: Option<(&'a str, Instr)>)
    ensures
        match spec_local_get(input@, ctx@) {
            Some((rest, instr)) => r matches Some((left, v)) && left@ == rest && v == instr,
            None => r is None,
        },
{
    let a = match keyword("local.get", input) {
        Some((rest, _)) => rest,
        None => {
            return None;
        },
    };
    let (b, idx) = match index(a) {
        Some(found) => found,
        None => {
            return None;
        },
    };
    match ctx.find_local_idx(&idx) {
        Some(i) => Some((b, Instr::LocalGet(i))),
        None => None,
    }
}

/// Reads `i32.add`.
pub fn i32_add<'a>(input: &'a str) -> (r: Option<(&'a str, Instr)>)
    ensures
        match spec_i32_add(input@) {
            Some((rest, instr)) => r matches Some((left, v)) && left@ == rest && v == instr,
            None => r is None,
        },
{
    match keyword("i32.add", input) {
        Some((rest, _)) => Some((rest, Instr::I32Add)),
        None => None,
    }
}

/// Reads an instruction, with white space around it.
fn instr<'a>(input: &'a str, ctx: &Ctx) -> (r: Option<(&'a str, Instr)>)
    ensures
        match spec_instr(input@, ctx@) {
            Some((rest, instr)) => r matches Some((left, v)) && left@ == rest && v == instr,
            None => r is None,
        },
{
    let (start, _) = ws(input);
    let found = match local_get(start, ctx) {
        Some(found) => Some(found),
        None => i32_add(start),
    };
    match found {
        Some((rest, instr)) => {
            let (rest, _) = ws(rest);
            Some((rest, instr))
        },
        None => None,
    }
}

/// Reads at least one instruction, and as many as follow.
pub fn instrs<'a>(input: &'a str, ctx: &Ctx) -> (r: Option<(&'a str, Vec<Instr>)>)
    ensures
        match spec_instrs(input@, ctx@) {
            Some((rest, body)) => r matches Some((left, v)) && left@ == rest && v@ == body,
            None => r is None,
        },
{
    let (mut rest, first) = match instr(input, ctx) {
        Some(found) => found,
        None => {
            return None;
        },
    };
    let ghost start = rest@;
    let mut body: Vec<Instr> = Vec::new();
    body.push(first);
    let ghost mut done: Seq<Instr> = Seq::empty();
    let mut more = true;
    assert(done + spec_more_instrs(start, ctx@).1 =~= spec_more_instrs(start, ctx@).1);
    while more
        invariant
            spec_more_instrs(start, ctx@) == (
                spec_more_instrs(rest@, ctx@).0,
                done + spec_more_instrs(rest@, ctx@).1,
            ),
            body@ == seq![first] + done,
            !more ==> spec_instr(rest@, ctx@) is None,
        decreases rest@.len() + if more { 1nat } else { 0nat },
    {
        proof {
            lemma_instr_shrinks(rest@, ctx@);
        }
        match instr(rest, ctx) {
            Some((behind, next)) => {
                proof {
                    assert(done + (seq![next] + spec_more_instrs(behind@, ctx@).1) =~= done.push(
                        next,
                    ) + spec_more_instrs(behind@, ctx@).1);
                    assert((seq![first] + done).push(next) =~= seq![first] + done.push(next));
                    done = done.push(next);
                }
                body.push(next);
                rest = behind;
            },
            None => {
                more = false;
            },
        }
    }
    assert(done + Seq::<Instr>::empty() =~= done);
    Some((rest, body))
}

} // verus!
