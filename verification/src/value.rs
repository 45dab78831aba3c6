//! Structured context values: the tagged data a caller may attach to a typed
//! error (strings, integers, booleans, sequences, nested mappings, or null).

use vstd::prelude::*;

verus! {

broadcast use vstd::std_specs::vec::group_vec_axioms;

/// An executable structured metadata value, of arbitrary depth.
///
/// A nested mapping is kept as a vector of key/value pairs in insertion
/// order; its mathematical reading collapses it to a `Map` (see
/// [`ValueModel`]).
#[derive(Debug)]
pub enum ContextValue {
    /// The absence of a value.
    Null,
    /// A boolean.
    Bool(bool),
    /// A signed integer.
    Int(i64),
    /// An unsigned integer.
    UInt(u64),
    /// A text value.
    Text(String),
    /// A sequence of values.
    List(Vec<ContextValue>),
    /// A nested mapping from string keys to values.
    Mapping(Vec<(String, ContextValue)>),
}

/// The mathematical reading of a [`ContextValue`]: text becomes a character
/// sequence, vectors become sequences, and a nested mapping becomes a `Map`.
pub enum ValueModel {
    /// The absence of a value.
    Null,
    /// A boolean.
    Bool(bool),
    /// A signed integer.
    Int(i64),
    /// An unsigned integer.
    UInt(u64),
    /// A text value.
    Text(Seq<char>),
    /// A sequence of values.
    List(Seq<ValueModel>),
    /// A nested mapping from string keys to values.
    Mapping(Map<Seq<char>, ValueModel>),
}

/// The `Map` reading of a sequence of key/value pairs: a later pair with the
/// same key overrides an earlier one.
pub open spec fn map_of_pairs(pairs: Seq<(Seq<char>, ValueModel)>) -> Map<Seq<char>, ValueModel>
    decreases pairs.len(),
{
    if pairs.len() == 0 {
        Map::empty()
    } else {
        map_of_pairs(pairs.drop_last()).insert(pairs.last().0, pairs.last().1)
    }
}

/// The mathematical reading of one executable value.
pub open spec fn model_of(v: ContextValue) -> ValueModel
    decreases v,
{
    match v {
        ContextValue::Null => ValueModel::Null,
        ContextValue::Bool(b) => ValueModel::Bool(b),
        ContextValue::Int(i) => ValueModel::Int(i),
        ContextValue::UInt(u) => ValueModel::UInt(u),
        ContextValue::Text(s) => ValueModel::Text(s@),
        ContextValue::List(vs) => ValueModel::List(model_of_list(vs@)),
        ContextValue::Mapping(ps) => ValueModel::Mapping(map_of_pairs(model_of_pairs(ps@))),
    }
}

/// The element-wise mathematical reading of a sequence of values.
pub open spec fn model_of_list(s: Seq<ContextValue>) -> Seq<ValueModel>
    decreases s,
{
    if s.len() == 0 {
        Seq::empty()
    } else {
        model_of_list(s.drop_last()).push(model_of(s.last()))
    }
}

/// The pair-wise mathematical reading of a sequence of key/value pairs.
pub open spec fn model_of_pairs(s: Seq<(String, ContextValue)>) -> Seq<(Seq<char>, ValueModel)>
    decreases s,
{
    if s.len() == 0 {
        Seq::empty()
    } else {
        model_of_pairs(s.drop_last()).push((s.last().0@, model_of(s.last().1)))
    }
}

impl View for ContextValue {
    type V = ValueModel;

    open spec fn view(&self) -> ValueModel {
        model_of(*self)
    }
}

} // verus!
