//! The script engine: a fresh environment per transform, in which a text
//! can be bound to a global name and a program can be run.

use vstd::prelude::*;

use vstd::string::StringExecFns;

use crate::error::{Failure, TransformError};
use boa_engine::{Context, JsError, JsValue, Source};

verus! {

/// The report of a binding that the engine refused without throwing.
pub const BIND_REFUSED_TEXT: &'static str = "the global object refused the assignment";

/// The environment of the engine, `boa_engine::Context`.
#[verifier::external_type_specification]
#[verifier::external_body]
pub struct ExContext<'a>(boa_engine::Context<'a>);

/// What a script throws, `boa_engine::JsError`.
#[verifier::external_type_specification]
#[verifier::external_body]
pub struct ExJsError(boa_engine::JsError);

/// A value of a script, `boa_engine::JsValue`.
#[verifier::external_type_specification]
#[verifier::external_body]
pub struct ExJsValue(boa_engine::JsValue);

/// `Context::default`: a new environment with the engine's built-ins and
/// no other binding.
#[verifier::external_body]
fn fresh_context() -> (context: Context<'static>) {
    Context::default()
}

/// `JsObject::set` on the global object of `context`: assigns the string
/// `value` to the property `name`. With `throw`, an assignment that the
/// object refuses is an error, so a result that is no error says that the
/// value was assigned. Whether the object accepts is not claimed.
#[verifier::external_body]
fn set_global(context: &mut Context<'static>, name: &str, value: &str, throw: bool) -> (done:
    Result<bool, JsError>)
    ensures
        throw ==> (done matches Ok(assigned) ==> assigned),
{
    context.global_object().set(name, value, throw, context)
}

/// `Context::eval` on `code` as a script. Nothing is claimed of the result:
/// a script may read the clock or draw random numbers. The call returns
/// when the script has ended; a script that never ends never returns.
#[verifier::external_body]
fn eval_source(context: &mut Context<'static>, code: &str) -> (value: Result<JsValue, JsError>) {
    context.eval(Source::from_bytes(code))
}

/// `JsValue::to_string`, the conversion that `String(value)` makes in a
/// script, then `JsString::to_std_string_escaped`. The conversion may run
/// code of the script and fail with it.
#[verifier::external_body]
fn value_to_text(context: &mut Context<'static>, value: &JsValue) -> (text: Result<
    String,
    JsError,
>) {
    match value.to_string(context) {
        Ok(text) => Ok(text.to_std_string_escaped()),
        Err(error) => Err(error),
    }
}

/// What a script threw, as the engine displays it: for an error object its
/// name and message. Nothing is claimed of the text.
#[verifier::external_body]
fn js_error_report(error: &JsError) -> (report: String) {
    format!("{}", error)
}

/// What binding gives for the engine's answer: done where the engine made
/// the assignment, else a `RuntimeBindError`, with the engine's report
/// where it threw and with `BIND_REFUSED_TEXT` where it only refused.
pub open spec fn binding_of(answer: Result<bool, String>) -> Result<(), Failure> {
    match answer {
        Ok(assigned) => if assigned {
            Ok(())
        } else {
            Err(Failure::RuntimeBindError(BIND_REFUSED_TEXT@))
        },
        Err(report) => Err(Failure::RuntimeBindError(report@)),
    }
}

/// A result of a binding with its texts as sequences of characters.
pub open spec fn binding_model(done: Result<(), TransformError>) -> Result<(), Failure> {
    match done {
        Ok(_) => Ok(()),
        Err(error) => Err(error@),
    }
}

/// What running a program gives for the engine's answer: the text that the
/// program yielded, else a `RuntimeEvalError` with the engine's report.
pub open spec fn evaluation_of(answer: Result<String, String>) -> Result<String, TransformError> {
    match answer {
        Ok(text) => Ok(text),
        Err(report) => Err(TransformError::RuntimeEvalError(report)),
    }
}

/// The engine's answer with what it threw, if it threw, as a report.
fn answer_of<T>(answer: Result<T, JsError>) -> (plain: Result<T, String>)
    ensures
        match answer {
            Ok(value) => plain == Ok::<T, String>(value),
            Err(_) => plain is Err,
        },
{
    match answer {
        Ok(value) => Ok(value),
        Err(error) => Err(js_error_report(&error)),
    }
}

/// Turns the engine's answer to an assignment into the result of the
/// binding.
pub fn settle_binding(answer: Result<bool, String>) -> (done: Result<(), TransformError>)
    ensures
        binding_model(done) == binding_of(answer),
{
    match answer {
        Ok(assigned) => {
            if assigned {
                Ok(())
            } else {
                Err(TransformError::RuntimeBindError(String::from_str(BIND_REFUSED_TEXT)))
            }
        },
        Err(report) => Err(TransformError::RuntimeBindError(report)),
    }
}

/// Turns the engine's answer to a program into the result of the
/// evaluation.
pub fn settle_evaluation(answer: Result<String, String>) -> (text: Result<String, TransformError>)
    ensures
        text == evaluation_of(answer),
{
    match answer {
        Ok(text) => Ok(text),
        Err(report) => Err(TransformError::RuntimeEvalError(report)),
    }
}

/// What the library asks of the engine.
pub ghost enum Request {
    /// Bind the text `value` to the global `name`.
    Bind { name: Seq<char>, value: Seq<char> },
    /// Run the program `code`.
    Run { code: Seq<char> },
}

/// A script environment for one transform. Each one starts out empty, so
/// nothing that a transform binds or defines reaches the next.
///
/// The environment keeps a record of what was asked of its engine. The
/// record says which requests the library made and in which order; what
/// the engine did with them is the engine's.
pub struct ScriptRuntime {
    context: Context<'static>,
    asked: Ghost<Seq<Request>>,
}

impl ScriptRuntime {
    /// The requests that were made of the engine, in their order.
    pub closed spec fn requests(&self) -> Seq<Request> {
        self.asked@
    }

    /// A new, empty environment, of which nothing was asked yet.
    pub fn new() -> (runtime: Self)
        ensures
            runtime.requests() == Seq::<Request>::empty(),
    {
        ScriptRuntime { context: fresh_context(), asked: Ghost(Seq::empty()) }
    }

    /// Binds the text `value` to the global `name`, for the programs that
    /// are run afterwards: asks the engine for this one assignment. The
    /// engine decides whether it accepts; what is returned for its answer
    /// is `binding_of` that answer, so a failure is a `RuntimeBindError`
    /// with what the engine threw.
    pub fn bind_global(&mut self, name: &str, value: &str) -> (done: Result<(), TransformError>)
        ensures
            final(self).requests() == old(self).requests().push(
                Request::Bind { name: name@, value: value@ },
            ),
            done matches Err(error) ==> error is RuntimeBindError,
    {
        let answer = answer_of(set_global(&mut self.context, name, value, true));
        self.asked = Ghost(self.asked@.push(Request::Bind { name: name@, value: value@ }));
        settle_binding(answer)
    }

    /// Runs `program_text` to its end and gives the value of its last
    /// expression as text, converted as `String(value)` converts in a
    /// script: asks the engine to run this one program. The engine decides
    /// what the program yields; what is returned for its answer is
    /// `evaluation_of` that answer, so a failure is a `RuntimeEvalError`
    /// with what the program threw. There is no time limit: a program that
    /// never ends never returns.
    pub fn evaluate(&mut self, program_text: &str) -> (text: Result<String, TransformError>)
        ensures
            final(self).requests() == old(self).requests().push(
                Request::Run { code: program_text@ },
            ),
            text matches Err(error) ==> error is RuntimeEvalError,
    {
        let yielded = match answer_of(eval_source(&mut self.context, program_text)) {
            Ok(value) => answer_of(value_to_text(&mut self.context, &value)),
            Err(report) => Err(report),
        };
        self.asked = Ghost(self.asked@.push(Request::Run { code: program_text@ }));
        settle_evaluation(yielded)
    }
}

} // verus!
