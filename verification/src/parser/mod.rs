//! The text parser: from the text format of a module to the module.

use crate::ast::Module;
use crate::parser::module::spec_module;
use vstd::prelude::*;

pub mod ctx;
pub mod instr;
pub mod module;
pub mod scan;
pub mod token;
pub mod types;
pub mod values;

verus! {

/// Reads a module from its text format, if `wat` holds one.
pub fn parse(wat: &str) -> (r: Option<Module>)
    ensures
        match spec_module(wat@) {
            Some(module) => r matches Some(v) && v@ == module,
            None => r is None,
        },
{
    match module::module(wat) {
        Some((_, ast)) => Some(ast),
        None => None,
    }
}

} // verus!
