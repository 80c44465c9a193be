//! The failures of a transform, the stage each belongs to, and the
//! diagnostic that reports it.

use vstd::prelude::*;
use vstd::string::StringExecFns;

verus! {

/// The text of the diagnostic for a missing configuration.
pub const CONFIG_MISSING_TEXT: &'static str =
    "Plugin config object is not supplied, skipping transform";

/// The start of the diagnostic for a configuration that cannot be decoded.
pub const CONFIG_MALFORMED_TEXT: &'static str =
    "Failed to deserialize plugin config object, skipping transform ";

/// The text of the diagnostic for a configuration without a transform path.
pub const IMPL_PATH_MISSING_TEXT: &'static str =
    "Transform impl path is not supplied, skipping transform";

/// The start of the diagnostic for a transform file that cannot be read.
pub const IMPL_READ_TEXT: &'static str =
    "Failed to read transform impl from path, skipping transform ";

/// The start of the diagnostic for a tree that cannot be written as JSON.
pub const AST_SERIALIZE_TEXT: &'static str =
    "Failed to serialize AST into JSON, cannot perform transform ";

/// The start of the diagnostic for a global that the engine refuses.
pub const RUNTIME_BIND_TEXT: &'static str =
    "Failed to set AST into JS context, cannot perform transform ";

/// The start of the diagnostic for a program that fails in the engine.
pub const RUNTIME_EVAL_TEXT: &'static str =
    "Failed to run transform, cannot perform transform ";

/// The start of the diagnostic for a result that is no tree.
pub const AST_DESERIALIZE_TEXT: &'static str =
    "Failed to deserialize transformed AST, cannot perform transform ";

/// The stages of a transform, in the order in which they run.
#[derive(Clone, Copy, Debug, PartialEq, Eq)]
pub enum Stage {
    /// The configuration is decoded and the transform's source is read.
    ResolveConfig,
    /// The tree is written as JSON.
    SerializeTree,
    /// A script engine is made and the JSON is bound in it.
    PrepareRuntime,
    /// The program is assembled and run.
    AssembleAndRun,
    /// The program's result is read back as a tree.
    DeserializeResult,
}

/// Why a transform was not performed. Where the failure came from outside,
/// the variant carries what the outside reported.
#[derive(Clone, Debug, PartialEq, Eq)]
pub enum TransformError {
    /// No configuration was supplied.
    ConfigMissing,
    /// The configuration could not be decoded.
    ConfigMalformed(String),
    /// The configuration names no transform file.
    ImplPathMissing,
    /// The transform file could not be read.
    ImplReadError(String),
    /// The tree could not be written as JSON.
    AstSerializeError(String),
    /// The engine refused the global.
    RuntimeBindError(String),
    /// The program failed in the engine.
    RuntimeEvalError(String),
    /// The program's result is not a tree.
    AstDeserializeError(String),
}

/// A `TransformError` with its texts as sequences of characters.
pub ghost enum Failure {
    ConfigMissing,
    ConfigMalformed(Seq<char>),
    ImplPathMissing,
    ImplReadError(Seq<char>),
    AstSerializeError(Seq<char>),
    RuntimeBindError(Seq<char>),
    RuntimeEvalError(Seq<char>),
    AstDeserializeError(Seq<char>),
}

impl View for TransformError {
    type V = Failure;

    open spec fn view(&self) -> Failure {
        match self {
            TransformError::ConfigMissing => Failure::ConfigMissing,
            TransformError::ConfigMalformed(detail) => Failure::ConfigMalformed(detail@),
            TransformError::ImplPathMissing => Failure::ImplPathMissing,
            TransformError::ImplReadError(detail) => Failure::ImplReadError(detail@),
            TransformError::AstSerializeError(detail) => Failure::AstSerializeError(detail@),
            TransformError::RuntimeBindError(detail) => Failure::RuntimeBindError(detail@),
            TransformError::RuntimeEvalError(detail) => Failure::RuntimeEvalError(detail@),
            TransformError::AstDeserializeError(detail) => Failure::AstDeserializeError(detail@),
        }
    }
}

impl Failure {
    /// The stage at which the failure arises.
    pub open spec fn stage(self) -> Stage {
        match self {
            Failure::ConfigMissing => Stage::ResolveConfig,
            Failure::ConfigMalformed(_) => Stage::ResolveConfig,
            Failure::ImplPathMissing => Stage::ResolveConfig,
            Failure::ImplReadError(_) => Stage::ResolveConfig,
            Failure::AstSerializeError(_) => Stage::SerializeTree,
            Failure::RuntimeBindError(_) => Stage::PrepareRuntime,
            Failure::RuntimeEvalError(_) => Stage::AssembleAndRun,
            Failure::AstDeserializeError(_) => Stage::DeserializeResult,
        }
    }

    /// The diagnostic that reports the failure: a fixed text for its kind,
    /// followed by what the outside reported, where there is such a report.
    pub open spec fn diagnostic(self) -> Seq<char> {
        match self {
            Failure::ConfigMissing => CONFIG_MISSING_TEXT@,
            Failure::ConfigMalformed(detail) => CONFIG_MALFORMED_TEXT@ + detail,
            Failure::ImplPathMissing => IMPL_PATH_MISSING_TEXT@,
            Failure::ImplReadError(detail) => IMPL_READ_TEXT@ + detail,
            Failure::AstSerializeError(detail) => AST_SERIALIZE_TEXT@ + detail,
            Failure::RuntimeBindError(detail) => RUNTIME_BIND_TEXT@ + detail,
            Failure::RuntimeEvalError(detail) => RUNTIME_EVAL_TEXT@ + detail,
            Failure::AstDeserializeError(detail) => AST_DESERIALIZE_TEXT@ + detail,
        }
    }
}

/// The fixed text followed by the report.
fn reported(fixed: &str, detail: &String) -> (text: String)
    ensures
        text@ == fixed@ + detail@,
{
    let mut text = String::from_str(fixed);
    text.append(detail.as_str());
    text
}

impl TransformError {
    /// The stage at which the failure arose.
    pub fn stage(&self) -> (stage: Stage)
        ensures
            stage == self@.stage(),
    {
        match self {
            TransformError::ConfigMissing => Stage::ResolveConfig,
            TransformError::ConfigMalformed(_) => Stage::ResolveConfig,
            TransformError::ImplPathMissing => Stage::ResolveConfig,
            TransformError::ImplReadError(_) => Stage::ResolveConfig,
            TransformError::AstSerializeError(_) => Stage::SerializeTree,
            TransformError::RuntimeBindError(_) => Stage::PrepareRuntime,
            TransformError::RuntimeEvalError(_) => Stage::AssembleAndRun,
            TransformError::AstDeserializeError(_) => Stage::DeserializeResult,
        }
    }

    /// The diagnostic that reports the failure.
    pub fn message(&self) -> (text: String)
        ensures
            text@ == self@.diagnostic(),
    {
        match self {
            TransformError::ConfigMissing => String::from_str(CONFIG_MISSING_TEXT),
            TransformError::ConfigMalformed(detail) => reported(CONFIG_MALFORMED_TEXT, detail),
            TransformError::ImplPathMissing => String::from_str(IMPL_PATH_MISSING_TEXT),
            TransformError::ImplReadError(detail) => reported(IMPL_READ_TEXT, detail),
            TransformError::AstSerializeError(detail) => reported(AST_SERIALIZE_TEXT, detail),
            TransformError::RuntimeBindError(detail) => reported(RUNTIME_BIND_TEXT, detail),
            TransformError::RuntimeEvalError(detail) => reported(RUNTIME_EVAL_TEXT, detail),
            TransformError::AstDeserializeError(detail) => reported(
                AST_DESERIALIZE_TEXT,
                detail,
            ),
        }
    }
}

} // verus!
