//! The meaning of a generated predicate, modelled over constructed values.
//!
//! A generated method's body is a structural match whose positive arm names
//! one variant and wildcards its fields. A constructed value is therefore
//! modelled by the variant it was built from together with its field
//! contents, and a predicate holds of it exactly when the variants agree —
//! the field contents never enter.

use vstd::prelude::*;
use crate::synth::{GeneratedMethod, MethodModel};

verus! {

/// A constructed value of the enumerated type, as predicate evaluation sees
/// it: the variant it was built from, and its field contents (empty for a
/// fieldless variant).
#[derive(Debug)]
pub struct EnumValue {
    pub variant_ident: String,
    pub field_data: Vec<u64>,
}

/// Ghost model of an [`EnumValue`].
pub ghost struct ValueModel {
    pub variant_ident: Seq<char>,
    pub field_data: Seq<u64>,
}

impl View for EnumValue {
    type V = ValueModel;

    open spec fn view(&self) -> ValueModel {
        ValueModel { variant_ident: self.variant_ident@, field_data: self.field_data@ }
    }
}

/// What the generated match computes: the predicate holds of a value exactly
/// when the value was constructed from the method's own variant. Field
/// contents are wildcarded and never enter.
pub open spec fn predicate_holds(m: MethodModel, v: ValueModel) -> bool {
    v.variant_ident == m.variant_ident
}

/// Evaluates a generated predicate on a constructed value, mirroring the
/// generated match: true exactly on the method's own variant, false on every
/// other variant, regardless of field contents.
pub fn eval_predicate(m: &GeneratedMethod, v: &EnumValue) -> (b: bool)
    ensures
        b == predicate_holds(m@, v@),
{
    m.variant_ident == v.variant_ident
}

} // verus!
