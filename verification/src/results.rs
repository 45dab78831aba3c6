//! One-step conversion of a fallible YAML computation's result: the success
//! value passes through untouched, and a failure is replaced by the typed
//! error the converter builds for it.
//!
//! The three shapes mirror the three ways a caller may supply data: result
//! alone, result with a context, or result with a context and a message.

use vstd::prelude::*;

use crate::context::ContextMap;
use crate::errors::converted_to;
use crate::errors::rendered;
use crate::errors::text_model;
use crate::errors::YamlError;
use crate::errors::YamlErrorConverter;
use crate::value::ValueModel;

verus! {

/// Converts a result, with an empty context and no caller message.
pub fn convert_yaml_result<T>(result: Result<T, serde_yaml::Error>) -> (r: Result<T, YamlError>)
    ensures
        result is Ok <==> r is Ok,
        result is Ok ==> r == Ok::<T, YamlError>(result->Ok_0),
        result is Err ==> r->Err_0.wf(),
        result is Err ==> converted_to(
            rendered(result->Err_0),
            None,
            Map::<Seq<char>, ValueModel>::empty(),
            r->Err_0@,
        ),
{
    match result {
        Ok(v) => Ok(v),
        Err(e) => Err(YamlErrorConverter::convert_error(&e, None, ContextMap::new())),
    }
}

/// Converts a result, with the supplied context and no caller message.
pub fn convert_yaml_result_with_context<T>(
    result: Result<T, serde_yaml::Error>,
    context: ContextMap,
) -> (r: Result<T, YamlError>)
    requires
        context.wf(),
    ensures
        result is Ok <==> r is Ok,
        result is Ok ==> r == Ok::<T, YamlError>(result->Ok_0),
        result is Err ==> r->Err_0.wf(),
        result is Err ==> converted_to(rendered(result->Err_0), None, context@, r->Err_0@),
{
    match result {
        Ok(v) => Ok(v),
        Err(e) => Err(YamlErrorConverter::convert_error(&e, None, context)),
    }
}

/// Converts a result, with the supplied context and caller message.
pub fn convert_yaml_result_with_message<T>(
    result: Result<T, serde_yaml::Error>,
    context: ContextMap,
    text: String,
) -> (r: Result<T, YamlError>)
    requires
        context.wf(),
    ensures
        result is Ok <==> r is Ok,
        result is Ok ==> r == Ok::<T, YamlError>(result->Ok_0),
        result is Err ==> r->Err_0.wf(),
        result is Err ==> converted_to(
            rendered(result->Err_0),
            Some(text@),
            context@,
            r->Err_0@,
        ),
{
    match result {
        Ok(v) => Ok(v),
        Err(e) => Err(YamlErrorConverter::convert_error(&e, Some(text), context)),
    }
}

} // verus!
