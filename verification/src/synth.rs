//! The method synthesizer: one predicate method per non-skipped variant, in
//! source order, assembled into a single extension block for the annotated
//! type. The first configuration error aborts the whole synthesis.

use vstd::prelude::*;
use crate::model::{
    BodyModel, DeclModel, ErrModel, GenError, GenericsDecl, GenericsModel, TypeBody, TypeDecl,
    VariantModel, VariantShape, variants_model,
};
use crate::naming::{default_name_spec, default_predicate_name};
use crate::resolve::{ConfigModel, PredicateConfig, resolve_spec};

verus! {

/// One synthesized predicate method: its name, the variant it tests, and the
/// variant's shape, which fixes the wildcard form of the generated pattern.
#[derive(Debug)]
pub struct GeneratedMethod {
    pub name: String,
    pub variant_ident: String,
    pub shape: VariantShape,
}

/// Ghost model of a [`GeneratedMethod`].
pub ghost struct MethodModel {
    pub name: Seq<char>,
    pub variant_ident: Seq<char>,
    pub shape: VariantShape,
}

impl View for GeneratedMethod {
    type V = MethodModel;

    open spec fn view(&self) -> MethodModel {
        MethodModel {
            name: self.name@,
            variant_ident: self.variant_ident@,
            shape: self.shape,
        }
    }
}

/// The ghost models of a sequence of synthesized methods, element-wise.
pub open spec fn methods_model(ms: Seq<GeneratedMethod>) -> Seq<MethodModel> {
    ms.map_values(|m: GeneratedMethod| m@)
}

/// The whole synthesized extension block: the enclosing type's name and
/// generics, and the methods in source-variant order.
#[derive(Debug)]
pub struct GeneratedImpl {
    pub type_ident: String,
    pub generics: GenericsDecl,
    pub methods: Vec<GeneratedMethod>,
}

/// Ghost model of a [`GeneratedImpl`].
pub ghost struct ImplModel {
    pub type_ident: Seq<char>,
    pub generics: GenericsModel,
    pub methods: Seq<MethodModel>,
}

impl View for GeneratedImpl {
    type V = ImplModel;

    open spec fn view(&self) -> ImplModel {
        ImplModel {
            type_ident: self.type_ident@,
            generics: self.generics@,
            methods: methods_model(self.methods@),
        }
    }
}

/// The method synthesized for one variant under an emitting policy: named by
/// the custom name when one was given, else by default derivation from the
/// variant identifier, and testing exactly this variant.
pub open spec fn method_model_for(v: VariantModel, c: ConfigModel) -> MethodModel {
    MethodModel {
        name: match c {
            ConfigModel::Named(n) => n,
            _ => default_name_spec(v.ident),
        },
        variant_ident: v.ident,
        shape: v.shape,
    }
}

/// The methods one variant contributes: none when it is skipped, exactly one
/// otherwise.
pub open spec fn variant_methods(v: VariantModel, c: ConfigModel) -> Seq<MethodModel> {
    match c {
        ConfigModel::Skip => Seq::empty(),
        _ => seq![method_model_for(v, c)],
    }
}

/// Synthesis over a variant sequence: directives are resolved variant by
/// variant in source order; the first failure aborts the whole synthesis,
/// and otherwise each non-skipped variant contributes one method, in order.
pub open spec fn methods_spec(vs: Seq<VariantModel>) -> Result<Seq<MethodModel>, ErrModel>
    decreases vs.len(),
{
    if vs.len() == 0 {
        Ok(Seq::empty())
    } else {
        match resolve_spec(vs[0].attr) {
            Err(e) => Err(e),
            Ok(c) => match methods_spec(vs.drop_first()) {
                Err(e) => Err(e),
                Ok(rest) => Ok(variant_methods(vs[0], c) + rest),
            },
        }
    }
}

/// Synthesis over a whole declaration: defined only for enumerated types,
/// and otherwise the structural error.
pub open spec fn synth_spec(d: DeclModel) -> Result<ImplModel, ErrModel> {
    match d.body {
        BodyModel::NotEnum => Err(ErrModel::NotAnEnum),
        BodyModel::Enum(vs) => match methods_spec(vs) {
            Err(e) => Err(e),
            Ok(ms) => Ok(
                ImplModel { type_ident: d.ident, generics: d.generics, methods: ms },
            ),
        },
    }
}

/// Synthesizes the predicate methods for an annotated declaration: resolves
/// each variant's directives in source order, fails on the first
/// configuration error or on a non-enumerated type, and otherwise emits one
/// method per non-skipped variant, in source-variant order.
#[verifier::loop_isolation(false)]
pub fn synthesize(decl: &TypeDecl) -> (r: Result<GeneratedImpl, GenError>)
    ensures
        match r {
            Ok(g) => synth_spec(decl@) == Ok::<ImplModel, ErrModel>(g@),
            Err(e) => synth_spec(decl@) == Err::<ImplModel, ErrModel>(e@),
        },
{
    match &decl.body {
        TypeBody::NotEnum => Err(GenError::NotAnEnum),
        TypeBody::Enum(variants) => {
            let ghost vs_m = variants_model(variants@);
            let mut methods: Vec<GeneratedMethod> = Vec::new();
            let mut i: usize = 0;
            assert(vs_m.subrange(0, vs_m.len() as int) =~= vs_m);
            assert(methods_model(methods@) =~= Seq::<MethodModel>::empty());
            while i < variants.len()
                invariant
                    0 <= i <= variants.len(),
                    vs_m.len() == variants.len(),
                    methods_spec(vs_m) == (match methods_spec(
                        vs_m.subrange(i as int, vs_m.len() as int),
                    ) {
                        Ok(rest) => Ok::<Seq<MethodModel>, ErrModel>(
                            methods_model(methods@) + rest,
                        ),
                        Err(e) => Err::<Seq<MethodModel>, ErrModel>(e),
                    }),
                decreases variants.len() - i,
            {
                let ghost rest_i = vs_m.subrange(i as int, vs_m.len() as int);
                let ghost done_before = methods_model(methods@);
                assert(rest_i[0] == vs_m[i as int]);
                assert(vs_m[i as int] == variants@[i as int]@);
                assert(rest_i.drop_first() =~= vs_m.subrange(
                    i as int + 1,
                    vs_m.len() as int,
                ));
                let v = &variants[i];
                let config = match PredicateConfig::from_attr(&v.attr) {
                    Ok(c) => c,
                    Err(e) => {
                        return Err(e);
                    },
                };
                let ghost cm = config@;
                match config {
                    PredicateConfig::Skip => {},
                    PredicateConfig::Unspecified => {
                        let name = default_predicate_name(v.ident.as_str());
                        methods.push(
                            GeneratedMethod {
                                name,
                                variant_ident: v.ident.clone(),
                                shape: v.shape,
                            },
                        );
                    },
                    PredicateConfig::Named(n) => {
                        methods.push(
                            GeneratedMethod {
                                name: n,
                                variant_ident: v.ident.clone(),
                                shape: v.shape,
                            },
                        );
                    },
                }
                proof {
                    assert(methods_model(methods@) =~= done_before + variant_methods(
                        vs_m[i as int],
                        cm,
                    ));
                    match methods_spec(vs_m.subrange(i as int + 1, vs_m.len() as int)) {
                        Ok(r2) => {
                            assert((done_before + variant_methods(vs_m[i as int], cm)) + r2
                                =~= done_before + (variant_methods(vs_m[i as int], cm) + r2));
                        },
                        Err(_) => {},
                    }
                }
                i = i + 1;
            }
            assert(vs_m.subrange(i as int, vs_m.len() as int) =~= Seq::<VariantModel>::empty());
            assert(methods_model(methods@) + Seq::<MethodModel>::empty() =~= methods_model(
                methods@,
            ));
            let generics = GenericsDecl {
                impl_generics: decl.generics.impl_generics.clone(),
                ty_generics: decl.generics.ty_generics.clone(),
                where_clause: decl.generics.where_clause.clone(),
            };
            Ok(GeneratedImpl { type_ident: decl.ident.clone(), generics, methods })
        },
    }
}

} // verus!
