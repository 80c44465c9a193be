//! Configuration of a transform: what the host supplies, what has to be read
//! for it, and the context in which the transform then runs.

use vstd::prelude::*;
use vstd::string::StringExecFns;

use crate::error::{Failure, TransformError};

verus! {

/// The visitor class that is run when the configuration names none.
pub const DEFAULT_VISITOR_CLASS_NAME: &'static str = "TransformVisitor";

/// The directory against which the path of a transform file is resolved.
pub const TRANSFORM_ROOT: &'static str = "/cwd";

/// What the host supplies for one transform. Every field is optional.
#[derive(Clone, Debug, PartialEq)]
pub struct TransformPluginConfig {
    /// Path of the file that holds the transform, relative to
    /// `TRANSFORM_ROOT`.
    pub transform_impl_path: Option<String>,
    /// Name of the visitor class that the transform defines.
    pub visitor_class_name: Option<String>,
}

/// A `TransformPluginConfig` with its texts as sequences of characters.
pub ghost struct ConfigModel {
    pub transform_impl_path: Option<Seq<char>>,
    pub visitor_class_name: Option<Seq<char>>,
}

impl View for TransformPluginConfig {
    type V = ConfigModel;

    open spec fn view(&self) -> ConfigModel {
        ConfigModel {
            transform_impl_path: match self.transform_impl_path {
                Some(path) => Some(path@),
                None => None,
            },
            visitor_class_name: match self.visitor_class_name {
                Some(name) => Some(name@),
                None => None,
            },
        }
    }
}

impl Default for TransformPluginConfig {
    /// The configuration that sets nothing.
    fn default() -> (config: Self)
        ensures
            config@ == (ConfigModel { transform_impl_path: None, visitor_class_name: None }),
    {
        Self { transform_impl_path: None, visitor_class_name: None }
    }
}

/// The file that has to be read before the transform can run, and the
/// visitor class that will be run.
#[derive(Clone, Debug, PartialEq)]
pub struct SourceRequest {
    /// Path of the transform file, relative to `TRANSFORM_ROOT`.
    pub impl_path: String,
    /// Name of the visitor class.
    pub visitor_class_name: String,
}

/// A `SourceRequest` with its texts as sequences of characters.
pub ghost struct SourceRequestModel {
    pub impl_path: Seq<char>,
    pub visitor_class_name: Seq<char>,
}

impl View for SourceRequest {
    type V = SourceRequestModel;

    open spec fn view(&self) -> SourceRequestModel {
        SourceRequestModel {
            impl_path: self.impl_path@,
            visitor_class_name: self.visitor_class_name@,
        }
    }
}

/// What one transform runs with: the text of the transform and the name of
/// its visitor class.
#[derive(Clone, Debug, PartialEq)]
pub struct TransformContext {
    /// The text of the transform file.
    pub transform_impl: String,
    /// Name of the visitor class.
    pub transform_visitor_class_name: String,
}

/// A `TransformContext` with its texts as sequences of characters.
pub ghost struct ContextModel {
    pub transform_impl: Seq<char>,
    pub transform_visitor_class_name: Seq<char>,
}

impl View for TransformContext {
    type V = ContextModel;

    open spec fn view(&self) -> ContextModel {
        ContextModel {
            transform_impl: self.transform_impl@,
            transform_visitor_class_name: self.transform_visitor_class_name@,
        }
    }
}

/// The configuration as it reaches the library: absent, or present and
/// then either decoded or refused with the decoder's report.
pub open spec fn payload_model(
    payload: Option<Result<TransformPluginConfig, String>>,
) -> Option<Result<ConfigModel, Seq<char>>> {
    match payload {
        None => None,
        Some(Ok(config)) => Some(Ok(config@)),
        Some(Err(report)) => Some(Err(report@)),
    }
}

/// The outcome of reading the transform file: its text, or the report of
/// why it could not be read.
pub open spec fn read_model(read: Result<String, String>) -> Result<Seq<char>, Seq<char>> {
    match read {
        Ok(text) => Ok(text@),
        Err(report) => Err(report@),
    }
}

/// The visitor class that a configuration asks for.
pub open spec fn class_name_of(config: ConfigModel) -> Seq<char> {
    match config.visitor_class_name {
        Some(name) => name,
        None => DEFAULT_VISITOR_CLASS_NAME@,
    }
}

/// What has to be read for a configuration, or why there is no transform
/// to run: the configuration is absent, it could not be decoded, or it
/// names no transform file.
pub open spec fn resolved(payload: Option<Result<ConfigModel, Seq<char>>>) -> Result<
    SourceRequestModel,
    Failure,
> {
    match payload {
        None => Err(Failure::ConfigMissing),
        Some(Err(report)) => Err(Failure::ConfigMalformed(report)),
        Some(Ok(config)) => match config.transform_impl_path {
            None => Err(Failure::ImplPathMissing),
            Some(path) => Ok(
                SourceRequestModel { impl_path: path, visitor_class_name: class_name_of(config) },
            ),
        },
    }
}

/// The context for a request whose file was read, or the failure to read
/// it.
pub open spec fn context_of(request: SourceRequestModel, read: Result<Seq<char>, Seq<char>>)
    -> Result<ContextModel, Failure> {
    match read {
        Ok(text) => Ok(
            ContextModel {
                transform_impl: text,
                transform_visitor_class_name: request.visitor_class_name,
            },
        ),
        Err(report) => Err(Failure::ImplReadError(report)),
    }
}

/// What a configuration and the outcome of reading its file lead to: the
/// context of the transform, or the first failure on the way. Where the
/// configuration does not resolve, nothing is read and `read` plays no part.
pub open spec fn context_for(
    payload: Option<Result<ConfigModel, Seq<char>>>,
    read: Result<Seq<char>, Seq<char>>,
) -> Result<ContextModel, Failure> {
    match resolved(payload) {
        Ok(request) => context_of(request, read),
        Err(failure) => Err(failure),
    }
}

/// Without a configuration there is no context: the failure is
/// `ConfigMissing`, whatever a read would have given.
pub proof fn lemma_absent_config(read: Result<Seq<char>, Seq<char>>)
    ensures
        context_for(None, read) == Err::<ContextModel, Failure>(Failure::ConfigMissing),
{
}

/// A configuration that could not be decoded gives `ConfigMalformed` with
/// the decoder's report.
pub proof fn lemma_malformed_config(report: Seq<char>, read: Result<Seq<char>, Seq<char>>)
    ensures
        context_for(Some(Err(report)), read) == Err::<ContextModel, Failure>(
            Failure::ConfigMalformed(report),
        ),
{
}

/// A configuration that names no transform file gives `ImplPathMissing`,
/// whatever else it sets.
pub proof fn lemma_missing_impl_path(config: ConfigModel, read: Result<Seq<char>, Seq<char>>)
    requires
        config.transform_impl_path is None,
    ensures
        context_for(Some(Ok(config)), read) == Err::<ContextModel, Failure>(
            Failure::ImplPathMissing,
        ),
{
}

/// A configuration whose transform file cannot be read gives
/// `ImplReadError` with the report of the read.
pub proof fn lemma_unreadable_impl(config: ConfigModel, report: Seq<char>)
    requires
        config.transform_impl_path is Some,
    ensures
        context_for(Some(Ok(config)), Err(report)) == Err::<ContextModel, Failure>(
            Failure::ImplReadError(report),
        ),
{
}

/// A configuration that names a file which was read gives a context: the
/// text of the file, with the configured visitor class or the default one.
pub proof fn lemma_resolved_context(config: ConfigModel, text: Seq<char>)
    requires
        config.transform_impl_path is Some,
    ensures
        context_for(Some(Ok(config)), Ok(text)) == Ok::<ContextModel, Failure>(
            ContextModel {
                transform_impl: text,
                transform_visitor_class_name: class_name_of(config),
            },
        ),
        config.visitor_class_name is None ==> class_name_of(config)
            == DEFAULT_VISITOR_CLASS_NAME@,
        config.visitor_class_name matches Some(name) ==> class_name_of(config) == name,
{
}

/// There is a context exactly when a configuration was supplied, was
/// decoded, names a transform file, and that file was read.
pub proof fn lemma_context_iff(
    payload: Option<Result<ConfigModel, Seq<char>>>,
    read: Result<Seq<char>, Seq<char>>,
)
    ensures
        context_for(payload, read) is Ok <==> {
            &&& payload matches Some(Ok(config))
            &&& config.transform_impl_path is Some
            &&& read is Ok
        },
{
}

/// A result of `resolve_config` with its texts as sequences of characters.
pub open spec fn request_model(request: Result<SourceRequest, TransformError>) -> Result<
    SourceRequestModel,
    Failure,
> {
    match request {
        Ok(request) => Ok(request@),
        Err(error) => Err(error@),
    }
}

/// A result of `build_transform_context` with its texts as sequences of
/// characters.
pub open spec fn context_model(context: Result<TransformContext, TransformError>) -> Result<
    ContextModel,
    Failure,
> {
    match context {
        Ok(context) => Ok(context@),
        Err(error) => Err(error@),
    }
}

/// Decides what a configuration asks for. `payload` is `None` when the host
/// supplied no configuration, and holds the decoder's report when the
/// configuration could not be decoded.
pub fn resolve_config(payload: Option<Result<TransformPluginConfig, String>>) -> (request: Result<
    SourceRequest,
    TransformError,
>)
    ensures
        request_model(request) == resolved(payload_model(payload)),
{
    match payload {
        None => Err(TransformError::ConfigMissing),
        Some(Err(report)) => Err(TransformError::ConfigMalformed(report)),
        Some(Ok(config)) => match config.transform_impl_path {
            None => Err(TransformError::ImplPathMissing),
            Some(path) => {
                let visitor_class_name = match config.visitor_class_name {
                    Some(name) => name,
                    None => String::from_str(DEFAULT_VISITOR_CLASS_NAME),
                };
                Ok(SourceRequest { impl_path: path, visitor_class_name })
            },
        },
    }
}

/// Builds the context of a transform from the request and the outcome of
/// reading the requested file.
pub fn build_transform_context(request: SourceRequest, read: Result<String, String>) -> (context:
    Result<TransformContext, TransformError>)
    ensures
        context_model(context) == context_of(request@, read_model(read)),
{
    match read {
        Ok(text) => Ok(
            TransformContext {
                transform_impl: text,
                transform_visitor_class_name: request.visitor_class_name,
            },
        ),
        Err(report) => Err(TransformError::ImplReadError(report)),
    }
}

} // verus!
