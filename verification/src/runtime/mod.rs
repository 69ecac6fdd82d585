//! The runtime: decoding a binary module and invoking its exports.

use crate::runtime::disassembler::parse_wasm;
use crate::runtime::error::RuntimeError;
use crate::runtime::grammar::spec_parse_wasm;
use crate::runtime::interpreter::spec_invoke;
use crate::runtime::reader::Reader;
use vstd::prelude::*;

pub mod disassembler;
pub mod error;
pub mod grammar;
pub mod interpreter;
pub mod processor;
pub mod reader;
pub mod stack;

verus! {

/// What invoking the export `name` of the module that `wasm` encodes
/// returns: the decoder's error if `wasm` encodes no module, else the
/// result of the invocation.
pub open spec fn spec_invoke_wasm(wasm: Seq<u8>, name: Seq<char>, params: Seq<i32>) -> Result<
    i32,
    RuntimeError,
> {
    match spec_parse_wasm(wasm, 0) {
        Ok((module, _)) => spec_invoke(module, name, params),
        Err(e) => Err(e),
    }
}

/// Decodes `wasm` and invokes the export `f_name` of the module with
/// `params` as its arguments.
pub fn invoke_function(wasm: Vec<u8>, f_name: &str, params: &[i32]) -> (r: Result<
    i32,
    RuntimeError,
>)
    ensures
        r == spec_invoke_wasm(wasm@, f_name@, params@),
{
    let mut reader = Reader::new(wasm);
    let ast = match parse_wasm(&mut reader) {
        Ok(ast) => ast,
        Err(e) => {
            return Err(e);
        },
    };
    interpreter::invoke_function(&ast, f_name, params)
}

} // verus!
