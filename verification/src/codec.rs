//! The tree's interchange form: JSON text as `serde_json` writes and reads
//! it for the host's tree type.

use vstd::prelude::*;

use crate::error::TransformError;
use swc_core::ecma::ast::Program;

verus! {

/// The host's syntax tree, `swc_core::ecma::ast::Program`. The library
/// carries trees through and never looks inside one.
#[verifier::external_type_specification]
#[verifier::external_body]
pub struct ExProgram(swc_core::ecma::ast::Program);

/// The error of `serde_json`.
#[verifier::external_type_specification]
#[verifier::external_body]
pub struct ExJsonError(serde_json::Error);

/// The JSON text that `serde_json` writes for `program`, or `None` where it
/// writes none. The text depends on the tree alone.
pub uninterp spec fn encoded_program(program: Program) -> Option<Seq<char>>;

/// The tree that `serde_json` reads from `text`, or `None` where it reads
/// none. The tree depends on the text alone.
pub uninterp spec fn decoded_program(text: Seq<char>) -> Option<Program>;

/// `serde_json::to_string` on a tree: the text is `encoded_program` of the
/// tree, and the call fails where that is `None`.
#[verifier::external_body]
fn program_to_json(program: &Program) -> (json: Result<String, serde_json::Error>)
    ensures
        match json {
            Ok(text) => encoded_program(*program) == Some(text@),
            Err(_) => encoded_program(*program) is None,
        },
{
    serde_json::to_string(program)
}

/// `serde_json::from_str` for a tree: the tree is `decoded_program` of the
/// text, and the call fails where that is `None`.
#[verifier::external_body]
fn program_from_json(text: &str) -> (program: Result<Program, serde_json::Error>)
    ensures
        match program {
            Ok(tree) => decoded_program(text@) == Some(tree),
            Err(_) => decoded_program(text@) is None,
        },
{
    serde_json::from_str(text)
}

/// The error of `serde_json` in its pretty debug form. Nothing is claimed
/// of the text.
#[verifier::external_body]
fn json_error_report(error: &serde_json::Error) -> (report: String) {
    format!("{:#?}", error)
}

/// What writing a tree gives for the answer of `serde_json`: the text, else
/// an `AstSerializeError` with the report.
pub open spec fn serialization_of(answer: Result<String, String>) -> Result<
    String,
    TransformError,
> {
    match answer {
        Ok(json) => Ok(json),
        Err(report) => Err(TransformError::AstSerializeError(report)),
    }
}

/// Turns the answer of `serde_json` to a tree into the result of the
/// serialization.
pub fn settle_serialization(answer: Result<String, String>) -> (json: Result<
    String,
    TransformError,
>)
    ensures
        json == serialization_of(answer),
{
    match answer {
        Ok(json) => Ok(json),
        Err(report) => Err(TransformError::AstSerializeError(report)),
    }
}

/// Writes `program` as JSON. It succeeds exactly on the trees for which
/// `serde_json` writes a text, and gives that text; a failure is an
/// `AstSerializeError` with the report of `serde_json`.
pub fn serialize(program: &Program) -> (json: Result<String, TransformError>)
    ensures
        json is Ok <==> encoded_program(*program) is Some,
        json matches Ok(text) ==> encoded_program(*program) == Some(text@),
        json matches Err(error) ==> error is AstSerializeError,
{
    let written = match program_to_json(program) {
        Ok(json) => Ok(json),
        Err(error) => Err(json_error_report(&error)),
    };
    settle_serialization(written)
}

/// Reads a tree from JSON. It succeeds exactly on the texts from which
/// `serde_json` reads a tree, and gives that tree; a failure is an
/// `AstDeserializeError` with the report of `serde_json`.
pub fn deserialize(text: &str) -> (program: Result<Program, TransformError>)
    ensures
        program is Ok <==> decoded_program(text@) is Some,
        program matches Ok(tree) ==> decoded_program(text@) == Some(tree),
        program matches Err(error) ==> error is AstDeserializeError,
{
    match program_from_json(text) {
        Ok(program) => Ok(program),
        Err(error) => Err(TransformError::AstDeserializeError(json_error_report(&error))),
    }
}

} // verus!
