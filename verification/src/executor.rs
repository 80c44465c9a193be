//! The transform from end to end. The stages run in order and the first
//! failure ends the run: the tree that came in is then handed back as it
//! was, with the failure that is to be reported.

use vstd::prelude::*;

use crate::assembler::{assemble, assembled_program};
use crate::codec::{decoded_program, deserialize, encoded_program, serialize};
use crate::config::{ContextModel, TransformContext};
use crate::error::{Failure, Stage, TransformError};
use crate::runtime::{Request, ScriptRuntime};
use swc_core::ecma::ast::Program;

verus! {

/// The global under which the program finds the tree's JSON.
pub const AST_GLOBAL: &'static str = "ast";

/// What a transform hands back to the host: a tree, and the failure to
/// report if the transform was not performed.
#[derive(Debug, PartialEq)]
pub struct TransformOutcome {
    /// The new tree, or the tree that came in when there is a diagnostic.
    pub program: Program,
    /// Why the transform was not performed, if it was not.
    pub diagnostic: Option<TransformError>,
}

/// What the host gets for a tree that came in and the result of its
/// transform: the new tree and no diagnostic, or the tree that came in and
/// the failure.
pub open spec fn outcome_of(incoming: Program, result: Result<Program, TransformError>)
    -> TransformOutcome {
    match result {
        Ok(program) => TransformOutcome { program, diagnostic: None },
        Err(error) => TransformOutcome { program: incoming, diagnostic: Some(error) },
    }
}

/// Whether a failure arises in the engine: while the tree's JSON is bound
/// or while the program runs.
pub open spec fn is_engine_failure(failure: Failure) -> bool {
    failure.stage() == Stage::PrepareRuntime || failure.stage() == Stage::AssembleAndRun
}

/// Whether a failure arises while a context is there, that is at any stage
/// after the configuration was resolved.
pub open spec fn is_run_failure(failure: Failure) -> bool {
    failure.stage() != Stage::ResolveConfig
}

/// Turns the result of a transform into what the host gets.
pub fn conclude(incoming: Program, result: Result<Program, TransformError>) -> (outcome:
    TransformOutcome)
    ensures
        outcome == outcome_of(incoming, result),
{
    match result {
        Ok(program) => TransformOutcome { program, diagnostic: None },
        Err(error) => TransformOutcome { program: incoming, diagnostic: Some(error) },
    }
}

/// What is asked of the engine for one transform: to bind the tree's JSON
/// to `AST_GLOBAL` and then, if `ran`, to run the assembled program.
pub open spec fn requests_for(
    ast_json: Seq<char>,
    context: ContextModel,
    framework: Seq<char>,
    ran: bool,
) -> Seq<Request> {
    let bind = Request::Bind { name: AST_GLOBAL@, value: ast_json };
    let run = Request::Run {
        code: assembled_program(
            framework,
            context.transform_impl,
            context.transform_visitor_class_name,
        ),
    };
    if ran {
        seq![bind, run]
    } else {
        seq![bind]
    }
}

/// Runs the visitor over a tree given as JSON, in the script environment
/// `runtime`: binds the JSON to `AST_GLOBAL`, assembles the program from
/// the framework, the transform and the visitor's class name, and runs it.
/// The result is what the program yields, as text.
///
/// The program is run unless the binding failed, and it is the assembled
/// program and no other.
pub fn transform_json(
    runtime: &mut ScriptRuntime,
    ast_json: &str,
    context: &TransformContext,
    framework: &str,
) -> (json: Result<String, TransformError>)
    ensures
        json matches Err(error) ==> is_engine_failure(error@),
        final(runtime).requests() == old(runtime).requests() + requests_for(
            ast_json@,
            context@,
            framework@,
            !(json matches Err(error) && error is RuntimeBindError),
        ),
{
    match runtime.bind_global(AST_GLOBAL, ast_json) {
        Ok(_) => {
            let code = assemble(
                framework,
                context.transform_impl.as_str(),
                context.transform_visitor_class_name.as_str(),
            );
            runtime.evaluate(code.as_str())
        },
        Err(error) => Err(error),
    }
}

/// Reads back what the script engine yielded. A failure of the engine
/// stays as it is, and nothing is read; a text is read as a tree, which
/// succeeds exactly where `serde_json` reads a tree from it, and gives
/// that tree.
pub fn read_back(yielded: Result<String, TransformError>) -> (tree: Result<
    Program,
    TransformError,
>)
    ensures
        match yielded {
            Ok(json) => {
                &&& tree is Ok <==> decoded_program(json@) is Some
                &&& tree matches Ok(read) ==> decoded_program(json@) == Some(read)
                &&& tree matches Err(error) ==> error is AstDeserializeError
            },
            Err(failure) => tree == Err::<Program, TransformError>(failure),
        },
{
    match yielded {
        Ok(json) => deserialize(json.as_str()),
        Err(failure) => Err(failure),
    }
}

/// Runs the visitor over `program`: writes the tree as JSON, transforms the
/// JSON in a script environment made for this one run, and reads the
/// result back as a tree with `read_back`.
///
/// Where the tree cannot be written, nothing is run, and that is the only
/// way to an `AstSerializeError`. A tree that comes back was read from a
/// text, namely the one that the script yielded.
pub fn transform_program(program: &Program, context: &TransformContext, framework: &str) -> (tree:
    Result<Program, TransformError>)
    ensures
        encoded_program(*program) is None <==> (tree matches Err(error)
            && error is AstSerializeError),
        tree matches Err(error) ==> is_run_failure(error@),
        tree matches Ok(read) ==> exists|text: Seq<char>| decoded_program(text) == Some(read),
{
    match serialize(program) {
        Ok(ast_json) => {
            let mut runtime = ScriptRuntime::new();
            let yielded = transform_json(&mut runtime, ast_json.as_str(), context, framework);
            let ghost text = if yielded is Ok {
                yielded->Ok_0@
            } else {
                Seq::<char>::empty()
            };
            let tree = read_back(yielded);
            proof {
                if tree is Ok {
                    assert(decoded_program(text) == Some(tree->Ok_0));
                }
            }
            tree
        },
        Err(error) => Err(error),
    }
}

/// Performs one transform for the host. `context` is what the configuration
/// resolved to, `framework` the text of the visitor framework.
///
/// Whatever fails, the host gets a tree: with a diagnostic it is the tree
/// that came in. A configuration that did not resolve is reported as it is,
/// and nothing is run. With a context, the failure is an
/// `AstSerializeError` exactly where the tree cannot be written, and a tree
/// that comes back without a diagnostic was read from a text. Nothing is
/// tried twice, and nothing limits the time that the transform's script
/// may take.
pub fn process(
    program: Program,
    context: Result<TransformContext, TransformError>,
    framework: &str,
) -> (outcome: TransformOutcome)
    ensures
        outcome.diagnostic is Some ==> outcome.program == program,
        match context {
            Ok(_) => {
                &&& encoded_program(program) is None <==> (outcome.diagnostic matches Some(error)
                    && error is AstSerializeError)
                &&& outcome.diagnostic matches Some(error) ==> is_run_failure(error@)
                &&& outcome.diagnostic is None ==> exists|text: Seq<char>|
                    decoded_program(text) == Some(outcome.program)
            },
            Err(failure) => outcome == outcome_of(program, Err(failure)),
        },
{
    match context {
        Ok(context) => {
            let result = transform_program(&program, &context, framework);
            conclude(program, result)
        },
        Err(error) => conclude(program, Err(error)),
    }
}

} // verus!
