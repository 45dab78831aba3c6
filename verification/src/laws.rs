//! The laws the conversion obeys, stated over the mathematical reading of a
//! typed error and proved once for every raw failure, message and context.

use vstd::prelude::*;

use crate::errors::converted_to;
use crate::errors::origin_key;
use crate::errors::yaml_error_code;
use crate::errors::yaml_kind_description;
use crate::errors::YamlErrorModel;
use crate::value::ValueModel;

verus! {

/// Whatever the raw failure, the message and the context, a conversion
/// yields a typed error with status 400, kind "Invalid YAML data" and the
/// fixed string code.
pub proof fn lemma_kind_is_fixed(
    raw: Seq<char>,
    text: Option<Seq<char>>,
    ctx: Map<Seq<char>, ValueModel>,
    e: YamlErrorModel,
)
    requires
        converted_to(raw, text, ctx, e),
    ensures
        e.status == 400,
        e.kind == yaml_kind_description(),
        e.code == yaml_error_code(),
{
}

/// When a message is supplied, the typed error's message is exactly that
/// message.
pub proof fn lemma_supplied_message_is_kept(
    raw: Seq<char>,
    t: Seq<char>,
    ctx: Map<Seq<char>, ValueModel>,
    e: YamlErrorModel,
)
    requires
        converted_to(raw, Some(t), ctx, e),
    ensures
        e.message == t,
{
}

/// When no message is supplied, the typed error's message is the raw
/// failure's own textual rendering, and the details are exactly the caller's
/// context.
pub proof fn lemma_default_message(
    raw: Seq<char>,
    ctx: Map<Seq<char>, ValueModel>,
    e: YamlErrorModel,
)
    requires
        converted_to(raw, None, ctx, e),
    ensures
        e.message == raw,
        e.details == ctx,
{
}

/// When a message is supplied, the details are exactly the caller's context
/// augmented with an `origin` entry holding the raw failure's rendering; in
/// particular every caller entry is kept.
pub proof fn lemma_origin_is_recorded(
    raw: Seq<char>,
    t: Seq<char>,
    ctx: Map<Seq<char>, ValueModel>,
    e: YamlErrorModel,
)
    requires
        converted_to(raw, Some(t), ctx, e),
    ensures
        e.details == ctx.insert(origin_key(), ValueModel::Text(raw)),
        e.details.contains_key(origin_key()),
        forall|k: Seq<char>| ctx.contains_key(k) ==> e.details.contains_key(k),
{
}

/// Converting the same raw failure with the same message and context twice
/// yields typed errors with identical code, status, kind, message and
/// details.
pub proof fn lemma_conversion_is_idempotent(
    raw: Seq<char>,
    text: Option<Seq<char>>,
    ctx: Map<Seq<char>, ValueModel>,
    e1: YamlErrorModel,
    e2: YamlErrorModel,
)
    requires
        converted_to(raw, text, ctx, e1),
        converted_to(raw, text, ctx, e2),
    ensures
        e1.code == e2.code,
        e1.status == e2.status,
        e1.kind == e2.kind,
        e1.message == e2.message,
        e1.details == e2.details,
{
}

} // verus!
