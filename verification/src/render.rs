//! Rendering of the synthesized extension block as source text.
//!
//! Each predicate method is a structural match on the enclosing value: it
//! returns true exactly on this variant, with the fields (if any) wildcarded,
//! and false on every other variant. The negative arm is annotated so that a
//! single-variant type compiles without an unreachable-pattern diagnostic,
//! and each method carries a one-line documentation comment.

use vstd::prelude::*;
use vstd::string::StringExecFns;
use crate::model::{DeclModel, ErrModel, GenError, TypeDecl, VariantShape};
use crate::synth::{GeneratedImpl, GeneratedMethod, ImplModel, MethodModel, methods_model, synth_spec, synthesize};

verus! {

/// The pattern suffix that wildcards a variant's fields: nothing for a
/// fieldless variant, `(..)` for unnamed fields, `{ .. }` for named fields.
pub open spec fn shape_pattern_spec(s: VariantShape) -> Seq<char> {
    match s {
        VariantShape::Unit => Seq::<char>::empty(),
        VariantShape::Unnamed => "(..)"@,
        VariantShape::Named => " { .. }"@,
    }
}

/// Renders the field-wildcard pattern suffix for a variant shape.
pub fn shape_pattern(s: VariantShape) -> (r: &'static str)
    ensures
        r@ == shape_pattern_spec(s),
{
    match s {
        VariantShape::Unit => {
            let r = "";
            proof {
                reveal_strlit("");
                assert(r@ =~= Seq::<char>::empty());
            }
            r
        },
        VariantShape::Unnamed => "(..)",
        VariantShape::Named => " { .. }",
    }
}

/// The documentation line of one predicate method: it names the enclosing
/// type and the variant being tested.
pub open spec fn method_doc_text(ty: Seq<char>, m: MethodModel) -> Seq<char> {
    "    #[doc = \"Is this `"@ + ty + "` a `"@ + m.variant_ident + "`?\"]\n"@
}

/// The lint annotation that keeps the generated match's negative arm from
/// raising an unreachable-pattern diagnostic when the enumerated type has
/// exactly one variant.
pub open spec fn unreachable_guard() -> Seq<char> {
    "    #[allow(unreachable_patterns)]\n"@
}

/// The signature and body of one predicate method: a structural match that
/// returns true on exactly this variant, with its fields wildcarded, and
/// false on every other variant.
pub open spec fn method_fn_text(ty: Seq<char>, m: MethodModel) -> Seq<char> {
    "    #[allow(dead_code)]\n    pub fn "@ + m.name
        + "(&self) -> bool {\n        match *self {\n            "@ + ty + "::"@
        + m.variant_ident + shape_pattern_spec(m.shape)
        + " => true,\n            _ => false,\n        }\n    }\n"@
}

/// The source text of one predicate method on the type named `ty`: its
/// documentation line, the lint annotations that keep the generated match
/// warning-free, and the match itself.
pub open spec fn method_text_spec(ty: Seq<char>, m: MethodModel) -> Seq<char> {
    method_doc_text(ty, m) + "    #[inline]\n"@ + unreachable_guard() + method_fn_text(ty, m)
}

/// Renders one predicate method for the type named `ty`.
pub fn render_method(ty: &str, m: &GeneratedMethod) -> (r: String)
    ensures
        r@ == method_text_spec(ty@, m@),
{
    let r = String::from_str("    #[doc = \"Is this `")
        .concat(ty)
        .concat("` a `")
        .concat(m.variant_ident.as_str())
        .concat("`?\"]\n")
        .concat("    #[inline]\n")
        .concat("    #[allow(unreachable_patterns)]\n")
        .concat("    #[allow(dead_code)]\n    pub fn ")
        .concat(m.name.as_str())
        .concat("(&self) -> bool {\n        match *self {\n            ")
        .concat(ty)
        .concat("::")
        .concat(m.variant_ident.as_str())
        .concat(shape_pattern(m.shape))
        .concat(" => true,\n            _ => false,\n        }\n    }\n");
    assert(r@ =~= method_text_spec(ty@, m@));
    r
}

/// The concatenated source text of a method sequence, in order.
pub open spec fn methods_text_spec(ty: Seq<char>, ms: Seq<MethodModel>) -> Seq<char>
    decreases ms.len(),
{
    if ms.len() == 0 {
        Seq::<char>::empty()
    } else {
        method_text_spec(ty, ms[0]) + methods_text_spec(ty, ms.drop_first())
    }
}

/// Renders all predicate methods, in source-variant order.
#[verifier::loop_isolation(false)]
pub fn render_methods(ty: &str, ms: &Vec<GeneratedMethod>) -> (r: String)
    ensures
        r@ == methods_text_spec(ty@, methods_model(ms@)),
{
    let ghost ms_m = methods_model(ms@);
    let mut r = String::new();
    let mut i: usize = 0;
    assert(ms_m.subrange(0, ms_m.len() as int) =~= ms_m);
    while i < ms.len()
        invariant
            0 <= i <= ms.len(),
            ms_m.len() == ms.len(),
            methods_text_spec(ty@, ms_m) == r@ + methods_text_spec(
                ty@,
                ms_m.subrange(i as int, ms_m.len() as int),
            ),
        decreases ms.len() - i,
    {
        let ghost rest_i = ms_m.subrange(i as int, ms_m.len() as int);
        assert(rest_i[0] == ms_m[i as int]);
        assert(ms_m[i as int] == ms@[i as int]@);
        assert(rest_i.drop_first() =~= ms_m.subrange(i as int + 1, ms_m.len() as int));
        let ghost r_before = r@;
        let text = render_method(ty, &ms[i]);
        r.append(text.as_str());
        proof {
            let mt = method_text_spec(ty@, ms_m[i as int]);
            let rest2 = methods_text_spec(
                ty@,
                ms_m.subrange(i as int + 1, ms_m.len() as int),
            );
            assert((r_before + mt) + rest2 =~= r_before + (mt + rest2));
        }
        i = i + 1;
    }
    assert(ms_m.subrange(i as int, ms_m.len() as int) =~= Seq::<MethodModel>::empty());
    assert(r@ + Seq::<char>::empty() =~= r@);
    r
}

/// The head of the extension block: a documented `impl` for the type under
/// its own generic parameters and `where` clause.
pub open spec fn impl_header_text(g: ImplModel) -> Seq<char> {
    "/// # `enum` Variant Predicates\nimpl"@ + g.generics.impl_generics + " "@ + g.type_ident
        + g.generics.ty_generics + (if g.generics.where_clause.len() == 0 {
        Seq::<char>::empty()
    } else {
        " "@ + g.generics.where_clause
    }) + " {\n"@
}

/// The source text of the whole extension block: its head, the predicate
/// methods in source-variant order, and the closing brace.
pub open spec fn impl_text_spec(g: ImplModel) -> Seq<char> {
    impl_header_text(g) + methods_text_spec(g.type_ident, g.methods) + "}\n"@
}

/// Renders the whole synthesized extension block.
pub fn render_impl(g: &GeneratedImpl) -> (r: String)
    ensures
        r@ == impl_text_spec(g@),
{
    let mut r = String::from_str("/// # `enum` Variant Predicates\nimpl")
        .concat(g.generics.impl_generics.as_str())
        .concat(" ")
        .concat(g.type_ident.as_str())
        .concat(g.generics.ty_generics.as_str());
    if !g.generics.where_clause.as_str().is_empty() {
        r = r.concat(" ").concat(g.generics.where_clause.as_str());
    }
    r = r.concat(" {\n");
    let body = render_methods(g.type_ident.as_str(), &g.methods);
    r.append(body.as_str());
    let r = r.concat("}\n");
    assert(r@ =~= impl_text_spec(g@));
    r
}

/// Generation end to end: synthesis of the predicate methods for the
/// declaration, rendered as source text, or the first configuration error.
pub open spec fn expand_spec(d: DeclModel) -> Result<Seq<char>, ErrModel> {
    match synth_spec(d) {
        Ok(g) => Ok(impl_text_spec(g)),
        Err(e) => Err(e),
    }
}

/// Expands the annotated declaration into the generated extension block's
/// source text, or fails with the first configuration error, in which case
/// no code at all is generated for the type.
pub fn expand_derive_is_enum_variant(decl: &TypeDecl) -> (r: Result<String, GenError>)
    ensures
        match r {
            Ok(s) => expand_spec(decl@) == Ok::<Seq<char>, ErrModel>(s@),
            Err(e) => expand_spec(decl@) == Err::<Seq<char>, ErrModel>(e@),
        },
{
    match synthesize(decl) {
        Ok(g) => Ok(render_impl(&g)),
        Err(e) => Err(e),
    }
}

} // verus!
