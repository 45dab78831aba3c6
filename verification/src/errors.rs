//! Conversion of `serde_yaml::Error` values into structured, typed
//! application errors.
//!
//! Every failure is normalized to the one registered error kind: code
//! `YAML-00001`, HTTP status 400, description "Invalid YAML data". The
//! message is the caller's, or defaults to the raw failure's own textual
//! rendering; when a caller supplies a message, the raw rendering is kept
//! under an `origin` entry of the details.

use vstd::prelude::*;

use crate::context::ContextMap;
use crate::value::ContextValue;
use crate::value::ValueModel;

verus! {

/// The HTTP-style status of the one registered error kind.
pub const YAML_ERROR_STATUS: u16 = 400;

/// The stable string code of the one registered error kind.
pub open spec fn yaml_error_code() -> Seq<char> {
    "YAML-00001"@
}

/// The textual description of the one registered error kind.
pub open spec fn yaml_kind_description() -> Seq<char> {
    "Invalid YAML data"@
}

/// The details key under which the raw failure's rendering is kept when a
/// caller supplies its own message.
pub open spec fn origin_key() -> Seq<char> {
    "origin"@
}

/// Declares `serde_yaml::Error`, the raw failure the YAML engine raises, so
/// that it can stand in signatures; its value stays opaque here.
#[verifier::external_type_specification]
#[verifier::external_body]
pub struct ExSerdeYamlError(serde_yaml::Error);

/// The textual rendering of a raw YAML failure, a function of the failure
/// value alone.
pub uninterp spec fn rendered(e: serde_yaml::Error) -> Seq<char>;

/// Relies on the `Display` implementation of `serde_yaml::Error`: rendering
/// a failure to text depends on the failure value alone.
#[verifier::external_body]
fn render_error(e: &serde_yaml::Error) -> (r: String)
    ensures
        r@ == rendered(*e),
{
    e.to_string()
}

/// The mathematical reading of a typed error: its five attributes as plain
/// mathematical values.
pub struct YamlErrorModel {
    /// The stable string code.
    pub code: Seq<char>,
    /// The HTTP-style status.
    pub status: u16,
    /// The kind description.
    pub kind: Seq<char>,
    /// The human-readable message.
    pub message: Seq<char>,
    /// The structured context attached to the error.
    pub details: Map<Seq<char>, ValueModel>,
}

/// The typed application error: a stable code, an HTTP-style status, the
/// kind description, a message, and structured details.
#[derive(Debug)]
pub struct YamlError {
    code: String,
    status: u16,
    kind: String,
    message: String,
    details: ContextMap,
}

impl View for YamlError {
    type V = YamlErrorModel;

    closed spec fn view(&self) -> YamlErrorModel {
        YamlErrorModel {
            code: self.code@,
            status: self.status,
            kind: self.kind@,
            message: self.message@,
            details: self.details@,
        }
    }
}

impl YamlError {
    /// The details map is well formed.
    pub closed spec fn wf(self) -> bool {
        self.details.wf()
    }

    /// Returns the stable string code.
    pub fn code(&self) -> (r: &String)
        ensures
            r@ == self@.code,
    {
        &self.code
    }

    /// Returns the HTTP-style status.
    pub fn status(&self) -> (r: u16)
        ensures
            r == self@.status,
    {
        self.status
    }

    /// Returns the kind description.
    pub fn kind(&self) -> (r: &String)
        ensures
            r@ == self@.kind,
    {
        &self.kind
    }

    /// Returns the human-readable message.
    pub fn message(&self) -> (r: &String)
        ensures
            r@ == self@.message,
    {
        &self.message
    }

    /// Returns the structured details.
    pub fn details(&self) -> (r: &ContextMap)
        ensures
            r@ == self@.details,
            self.wf() ==> r.wf(),
    {
        &self.details
    }
}

/// The mathematical reading of an optional message.
pub open spec fn text_model(t: Option<String>) -> Option<Seq<char>> {
    match t {
        Some(s) => Some(s@),
        None => None,
    }
}

/// The message a conversion settles on: the caller's text when one is
/// supplied, the raw failure's rendering otherwise.
pub open spec fn converted_message(raw: Seq<char>, text: Option<Seq<char>>) -> Seq<char> {
    match text {
        Some(t) => t,
        None => raw,
    }
}

/// The details a conversion settles on: the caller's context, augmented with
/// an `origin` entry holding the raw rendering exactly when the caller
/// supplied its own message.
pub open spec fn converted_details(
    raw: Seq<char>,
    text: Option<Seq<char>>,
    ctx: Map<Seq<char>, ValueModel>,
) -> Map<Seq<char>, ValueModel> {
    match text {
        Some(_) => ctx.insert(origin_key(), ValueModel::Text(raw)),
        None => ctx,
    }
}

/// Says that a typed error is exactly the conversion of a raw failure with
/// the given rendering, optional message, and context.
pub open spec fn converted_to(
    raw: Seq<char>,
    text: Option<Seq<char>>,
    ctx: Map<Seq<char>, ValueModel>,
    e: YamlErrorModel,
) -> bool {
    &&& e.code == yaml_error_code()
    &&& e.status == YAML_ERROR_STATUS
    &&& e.kind == yaml_kind_description()
    &&& e.message == converted_message(raw, text)
    &&& e.details == converted_details(raw, text, ctx)
}

/// Helper functions converting a `serde_yaml::Error` into a typed
/// application error.
pub struct YamlErrorConverter;

impl YamlErrorConverter {
    /// Settles the message and enriches the context: with a caller message,
    /// the raw failure's rendering is recorded under `origin`; without one,
    /// the rendering becomes the message and the context is left alone.
    pub fn store_origin(err: &serde_yaml::Error, text: Option<String>, context: ContextMap) -> (r: (
        String,
        ContextMap,
    ))
        requires
            context.wf(),
        ensures
            r.0@ == converted_message(rendered(*err), text_model(text)),
            r.1@ == converted_details(rendered(*err), text_model(text), context@),
            r.1.wf(),
    {
        match text {
            Some(t) => {
                let mut ctx = context;
                ctx.insert("origin".to_owned(), ContextValue::Text(render_error(err)));
                (t, ctx)
            },
            None => (render_error(err), context),
        }
    }

    /// Builds the typed error for a raw failure, with the message and the
    /// details exactly as supplied; the kind attributes are fixed.
    pub fn convert(err: &serde_yaml::Error, text: String, context: ContextMap) -> (r: YamlError)
        requires
            context.wf(),
        ensures
            r.wf(),
            r@.code == yaml_error_code(),
            r@.status == YAML_ERROR_STATUS,
            r@.kind == yaml_kind_description(),
            r@.message == text@,
            r@.details == context@,
    {
        YamlError {
            code: "YAML-00001".to_owned(),
            status: YAML_ERROR_STATUS,
            kind: "Invalid YAML data".to_owned(),
            message: text,
            details: context,
        }
    }

    /// Converts a raw failure into the typed error, defaulting the message
    /// to the failure's rendering and recording the rendering under `origin`
    /// when a caller message is supplied.
    pub fn convert_error(err: &serde_yaml::Error, text: Option<String>, context: ContextMap) -> (r:
        YamlError)
        requires
            context.wf(),
        ensures
            r.wf(),
            converted_to(rendered(*err), text_model(text), context@, r@),
    {
        let (settled, ctx) = Self::store_origin(err, text, context);
        Self::convert(err, settled, ctx)
    }
}

} // verus!
