//! Derives an overridable interface from the public methods of an
//! implementation block.
//!
//! The library works on a plain model of the macro's input: the argument
//! tokens of the generation attribute and the declarations of the
//! implementation block. It parses the options, classifies each method, and
//! builds the interface declaration and the optional forwarding
//! implementation as data for a code generator.
use vstd::prelude::*;

pub mod options;
pub mod classify;
pub mod assemble;
pub mod laws;

use crate::assemble::{expand, expand_spec, Expansion, ExpansionView, ExpandError, ImplBlock};
use crate::options::{parse_args, parse_args_spec, Token};

verus! {

/// The `skip` marker attribute: it hands the item back unchanged.
pub fn skip(_attr: Vec<Token>, item: Vec<Token>) -> (r: Vec<Token>)
    ensures
        r@ == item@,
{
    item
}

/// The `overwrite` marker attribute: it hands the item back unchanged.
pub fn overwrite(_attr: Vec<Token>, item: Vec<Token>) -> (r: Vec<Token>)
    ensures
        r@ == item@,
{
    item
}

/// What the generation attribute with argument list `args` produces for
/// `block`, ahead of the block itself.
pub open spec fn generate_spec(args: Seq<Token>, block: ImplBlock) -> Result<ExpansionView, ExpandError> {
    match parse_args_spec(args) {
        Err(e) => Err(ExpandError::Args(e)),
        Ok(cfg) => expand_spec(cfg, block),
    }
}

/// The generation attribute: parses its arguments, then builds the interface
/// from the qualifying methods of `block` and, with `passthrough`, the
/// implementation of that interface for the block's type. The block itself is
/// left to the caller to emit unchanged after the expansion.
pub fn generate_overwrites(args: &Vec<Token>, block: &ImplBlock) -> (r: Result<Expansion, ExpandError>)
    ensures
        match r {
            Ok(x) => generate_spec(args@, *block) == Ok::<ExpansionView, ExpandError>(x@),
            Err(e) => generate_spec(args@, *block) == Err::<ExpansionView, ExpandError>(e),
        },
{
    match parse_args(args) {
        Err(e) => Err(ExpandError::Args(e)),
        Ok(cfg) => expand(&cfg, block),
    }
}

} // verus!
