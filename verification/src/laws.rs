//! The library's stated laws: what directive resolution, default naming,
//! synthesis, and the generated predicates guarantee, proved once and for
//! all inputs.

use vstd::prelude::*;
use crate::model::{AttrModel, BodyModel, DeclModel, ErrModel, MetaModel, VariantModel};
use crate::naming::default_name_spec;
use crate::resolve::{fold_spec, join_spec, resolve_spec, valid_fragment, ConfigModel};
use crate::render::{
    expand_spec, impl_header_text, impl_text_spec, method_doc_text, method_text_spec,
    methods_text_spec, unreachable_guard,
};
use crate::semantics::{predicate_holds, ValueModel};
use crate::synth::{
    method_model_for, methods_spec, synth_spec, variant_methods, ImplModel, MethodModel,
};

verus! {

/// The variant identifiers of the sequence are pairwise distinct, as the
/// host language guarantees of an enumerated type's variants.
pub open spec fn distinct_idents(vs: Seq<VariantModel>) -> bool {
    forall|k1: int, k2: int|
        0 <= k1 < vs.len() && 0 <= k2 < vs.len() && k1 != k2 ==> vs[k1].ident != vs[k2].ident
}

/// Synthesis over variants that carry no directives: it succeeds, and yields
/// one method per variant, in source order, under the default-derived name.
pub proof fn lemma_methods_all_default(vs: Seq<VariantModel>)
    requires
        forall|k: int| 0 <= k < vs.len() ==> vs[k].attr is None,
    ensures
        ({
            match methods_spec(vs) {
                Ok(ms) => ms.len() == vs.len() && (forall|k: int|
                    0 <= k < vs.len() ==> ms[k] == method_model_for(
                        vs[k],
                        ConfigModel::Unspecified,
                    )),
                Err(_) => false,
            }
        }),
    decreases vs.len(),
{
    if vs.len() == 0 {
    } else {
        assert(resolve_spec(vs[0].attr) == Ok::<ConfigModel, ErrModel>(
            ConfigModel::Unspecified,
        ));
        assert forall|k: int| 0 <= k < vs.drop_first().len() implies vs.drop_first()[k].attr
            is None by {
            assert(vs.drop_first()[k] == vs[k + 1]);
        }
        lemma_methods_all_default(vs.drop_first());
        match methods_spec(vs.drop_first()) {
            Ok(rest) => {
                let vm = variant_methods(vs[0], ConfigModel::Unspecified);
                assert(vm.len() == 1);
                assert forall|k: int| 0 <= k < vs.len() implies (vm + rest)[k]
                    == method_model_for(vs[k], ConfigModel::Unspecified) by {
                    if k > 0 {
                        assert(vs.drop_first()[k - 1] == vs[k]);
                        assert((vm + rest)[k] == rest[k - 1]);
                    }
                }
            },
            Err(_) => {
                assert(false);
            },
        }
    }
}

/// For every variant of an enumerated type that carries no directives, a
/// predicate is generated under the default-derived name, in source order,
/// and it holds of a constructed value exactly when the value was built from
/// that same variant — whatever the variant shapes, and regardless of field
/// contents.
pub proof fn lemma_default_predicates_exact(vs: Seq<VariantModel>, i: int, j: int, w: ValueModel)
    requires
        forall|k: int| 0 <= k < vs.len() ==> vs[k].attr is None,
        distinct_idents(vs),
        0 <= i < vs.len(),
        0 <= j < vs.len(),
        w.variant_ident == vs[j].ident,
    ensures
        ({
            match methods_spec(vs) {
                Ok(ms) => {
                    &&& ms.len() == vs.len()
                    &&& ms[i].name == default_name_spec(vs[i].ident)
                    &&& ms[i].variant_ident == vs[i].ident
                    &&& ms[i].shape == vs[i].shape
                    &&& (predicate_holds(ms[i], w) <==> i == j)
                },
                Err(_) => false,
            }
        }),
{
    lemma_methods_all_default(vs);
}

/// Default-name derivation is a pure function of the variant's identifier
/// alone: deriving again from the same identifier yields the same name.
pub proof fn lemma_default_name_deterministic(a: Seq<char>, b: Seq<char>)
    requires
        a == b,
    ensures
        default_name_spec(a) == default_name_spec(b),
{
}

/// A variant annotated with a custom name directive resolves to exactly one
/// predicate, under exactly that name; and whenever the custom name differs
/// from the default-derived one, the variant's predicate does not stand
/// under the default name.
pub proof fn lemma_custom_name_exact(v: VariantModel, n: Seq<char>)
    requires
        v.attr == Option::Some(AttrModel::List(seq![MetaModel::NameStr("name"@, n)])),
        valid_fragment(n),
    ensures
        resolve_spec(v.attr) == Ok::<ConfigModel, ErrModel>(ConfigModel::Named(n)),
        variant_methods(v, ConfigModel::Named(n)).len() == 1,
        variant_methods(v, ConfigModel::Named(n))[0].name == n,
        variant_methods(v, ConfigModel::Named(n))[0].variant_ident == v.ident,
        n != default_name_spec(v.ident) ==> variant_methods(v, ConfigModel::Named(n))[0].name
            != default_name_spec(v.ident),
{
    let items = seq![MetaModel::NameStr("name"@, n)];
    assert(join_spec(ConfigModel::Unspecified, items[0]) == Ok::<ConfigModel, ErrModel>(
        ConfigModel::Named(n),
    ));
    assert(items.drop_first() =~= Seq::<MetaModel>::empty());
    assert(fold_spec(ConfigModel::Named(n), items.drop_first()) == Ok::<ConfigModel, ErrModel>(
        ConfigModel::Named(n),
    ));
    assert(fold_spec(ConfigModel::Unspecified, items) == Ok::<ConfigModel, ErrModel>(
        ConfigModel::Named(n),
    ));
}

/// Within a whole synthesis where one variant carries a custom name
/// directive and its siblings carry none, exactly one method stands for that
/// variant — under exactly the custom name — and the siblings' methods are
/// untouched; with distinct variant identifiers, no other method tests the
/// renamed variant.
pub proof fn lemma_custom_name_in_synthesis(vs: Seq<VariantModel>, k: int, n: Seq<char>)
    requires
        0 <= k < vs.len(),
        vs[k].attr == Option::Some(AttrModel::List(seq![MetaModel::NameStr("name"@, n)])),
        valid_fragment(n),
        forall|i: int| 0 <= i < vs.len() && i != k ==> vs[i].attr is None,
        distinct_idents(vs),
    ensures
        ({
            match methods_spec(vs) {
                Ok(ms) => {
                    &&& ms.len() == vs.len()
                    &&& ms[k].name == n
                    &&& ms[k].variant_ident == vs[k].ident
                    &&& (forall|i: int|
                        0 <= i < vs.len() && i != k ==> ms[i] == method_model_for(
                            vs[i],
                            ConfigModel::Unspecified,
                        ))
                    &&& (forall|i: int|
                        0 <= i < vs.len() && i != k ==> ms[i].variant_ident != vs[k].ident)
                },
                Err(_) => false,
            }
        }),
    decreases vs.len(),
{
    let v = vs[k];
    lemma_custom_name_exact(v, n);
    if k == 0 {
        assert forall|i: int| 0 <= i < vs.drop_first().len() implies vs.drop_first()[i].attr
            is None by {
            assert(vs.drop_first()[i] == vs[i + 1]);
        }
        lemma_methods_all_default(vs.drop_first());
        match methods_spec(vs.drop_first()) {
            Ok(rest) => {
                let vm = variant_methods(vs[0], ConfigModel::Named(n));
                assert forall|i: int| 0 <= i < vs.len() && i != 0 implies (vm + rest)[i]
                    == method_model_for(vs[i], ConfigModel::Unspecified) by {
                    assert(vs.drop_first()[i - 1] == vs[i]);
                    assert((vm + rest)[i] == rest[i - 1]);
                }
            },
            Err(_) => {
                assert(false);
            },
        }
    } else {
        assert(resolve_spec(vs[0].attr) == Ok::<ConfigModel, ErrModel>(
            ConfigModel::Unspecified,
        ));
        assert(vs.drop_first()[k - 1] == vs[k]);
        assert forall|i: int|
            0 <= i < vs.drop_first().len() && i != k - 1 implies vs.drop_first()[i].attr
            is None by {
            assert(vs.drop_first()[i] == vs[i + 1]);
        }
        assert forall|k1: int, k2: int|
            0 <= k1 < vs.drop_first().len() && 0 <= k2 < vs.drop_first().len() && k1
                != k2 implies vs.drop_first()[k1].ident != vs.drop_first()[k2].ident by {
            assert(vs.drop_first()[k1] == vs[k1 + 1]);
            assert(vs.drop_first()[k2] == vs[k2 + 1]);
        }
        lemma_custom_name_in_synthesis(vs.drop_first(), k - 1, n);
        match methods_spec(vs.drop_first()) {
            Ok(rest) => {
                let vm = variant_methods(vs[0], ConfigModel::Unspecified);
                assert(vm.len() == 1);
                assert forall|i: int| 0 <= i < vs.len() && i != k implies (vm + rest)[i]
                    == method_model_for(vs[i], ConfigModel::Unspecified) by {
                    if i > 0 {
                        assert(vs.drop_first()[i - 1] == vs[i]);
                        assert((vm + rest)[i] == rest[i - 1]);
                    }
                }
                assert((vm + rest)[k] == rest[k - 1]);
            },
            Err(_) => {
                assert(false);
            },
        }
    }
}

/// A variant annotated with the opt-out directive produces no predicate at
/// all, and its presence does not affect sibling variants: synthesis yields
/// exactly the methods it would yield were the variant removed.
pub proof fn lemma_skip_variant_inert(vs: Seq<VariantModel>, k: int)
    requires
        0 <= k < vs.len(),
        resolve_spec(vs[k].attr) == Ok::<ConfigModel, ErrModel>(ConfigModel::Skip),
    ensures
        methods_spec(vs) == methods_spec(vs.remove(k)),
    decreases vs.len(),
{
    if k == 0 {
        assert(vs.remove(0) =~= vs.drop_first());
        match methods_spec(vs.drop_first()) {
            Ok(rest) => {
                assert(variant_methods(vs[0], ConfigModel::Skip) + rest =~= rest);
            },
            Err(_) => {},
        }
    } else {
        assert(vs.drop_first()[k - 1] == vs[k]);
        lemma_skip_variant_inert(vs.drop_first(), k - 1);
        assert(vs.remove(k).drop_first() =~= vs.drop_first().remove(k - 1));
        assert(vs.remove(k)[0] == vs[0]);
    }
}

/// The variants that survive resolution, in source order: every variant but
/// those whose directives resolve to the opt-out policy.
pub open spec fn emitted_variants(vs: Seq<VariantModel>) -> Seq<VariantModel>
    decreases vs.len(),
{
    if vs.len() == 0 {
        Seq::empty()
    } else {
        let rest = emitted_variants(vs.drop_first());
        if resolve_spec(vs[0].attr) == Ok::<ConfigModel, ErrModel>(ConfigModel::Skip) {
            rest
        } else {
            seq![vs[0]] + rest
        }
    }
}

/// The ordering guarantee: when synthesis succeeds, it emits exactly one
/// method per non-skipped variant, and the methods stand in source-variant
/// order — the i-th method tests the i-th non-skipped variant.
pub proof fn lemma_methods_in_source_order(vs: Seq<VariantModel>)
    ensures
        ({
            match methods_spec(vs) {
                Ok(ms) => {
                    &&& ms.len() == emitted_variants(vs).len()
                    &&& (forall|i: int|
                        0 <= i < ms.len() ==> ms[i].variant_ident == emitted_variants(
                            vs,
                        )[i].ident && ms[i].shape == emitted_variants(vs)[i].shape)
                },
                Err(_) => true,
            }
        }),
    decreases vs.len(),
{
    if vs.len() == 0 {
    } else {
        lemma_methods_in_source_order(vs.drop_first());
        match resolve_spec(vs[0].attr) {
            Ok(c) => {
                match methods_spec(vs.drop_first()) {
                    Ok(rest) => {
                        let em = emitted_variants(vs.drop_first());
                        if c == ConfigModel::Skip {
                        } else {
                            let vm = variant_methods(vs[0], c);
                            assert(vm.len() == 1);
                            assert(vm[0] == method_model_for(vs[0], c));
                            assert forall|i: int| 0 <= i < (vm + rest).len() implies (vm
                                + rest)[i].variant_ident == (seq![vs[0]] + em)[i].ident && (vm
                                + rest)[i].shape == (seq![vs[0]] + em)[i].shape by {
                                if i > 0 {
                                    assert((vm + rest)[i] == rest[i - 1]);
                                    assert((seq![vs[0]] + em)[i] == em[i - 1]);
                                }
                            }
                        }
                    },
                    Err(_) => {},
                }
            },
            Err(_) => {},
        }
    }
}

/// An entry that opts the variant out: the bare word `skip`.
pub open spec fn is_skip_entry(m: MetaModel) -> bool {
    m == MetaModel::Word("skip"@)
}

/// An entry that names the variant's predicate: `name = ".."`.
pub open spec fn is_name_entry(m: MetaModel) -> bool {
    m matches MetaModel::NameStr(k, _) && k == "name"@
}

pub open spec fn has_skip_entry(items: Seq<MetaModel>) -> bool {
    exists|i: int| 0 <= i < items.len() && is_skip_entry(items[i])
}

pub open spec fn has_name_entry(items: Seq<MetaModel>) -> bool {
    exists|i: int| 0 <= i < items.len() && is_name_entry(items[i])
}

/// Once a naming directive has been accepted, every further entry is
/// rejected: another name is a duplicate, an opt-out is a conflict, and
/// anything else is unrecognized.
pub proof fn lemma_named_state_rejects_all(n: Seq<char>, items: Seq<MetaModel>)
    requires
        items.len() > 0,
    ensures
        fold_spec(ConfigModel::Named(n), items) matches Err(_),
{
    assert(join_spec(ConfigModel::Named(n), items[0]) matches Err(_));
}

/// Once the opt-out directive has been accepted, a naming directive anywhere
/// later in the list is rejected.
pub proof fn lemma_skip_state_rejects_name(items: Seq<MetaModel>)
    requires
        has_name_entry(items),
    ensures
        fold_spec(ConfigModel::Skip, items) matches Err(_),
    decreases items.len(),
{
    let j = choose|j: int| 0 <= j < items.len() && is_name_entry(items[j]);
    match join_spec(ConfigModel::Skip, items[0]) {
        Ok(s2) => {
            assert(s2 == ConfigModel::Skip);
            assert(!is_name_entry(items[0]));
            assert(j != 0);
            assert(is_name_entry(items.drop_first()[j - 1]));
            assert(has_name_entry(items.drop_first()));
            lemma_skip_state_rejects_name(items.drop_first());
        },
        Err(_) => {},
    }
}

/// Combining the opt-out directive and a naming directive on the same
/// variant is rejected at resolution time, whichever of the two stands
/// first and whatever else the entry list holds.
pub proof fn lemma_skip_and_name_rejected(items: Seq<MetaModel>)
    requires
        has_skip_entry(items),
        has_name_entry(items),
    ensures
        fold_spec(ConfigModel::Unspecified, items) matches Err(_),
{
    let si = choose|i: int| 0 <= i < items.len() && is_skip_entry(items[i]);
    let nj = choose|j: int| 0 <= j < items.len() && is_name_entry(items[j]);
    match join_spec(ConfigModel::Unspecified, items[0]) {
        Ok(s2) => {
            if is_skip_entry(items[0]) {
                assert(s2 == ConfigModel::Skip);
                assert(nj != 0);
                assert(is_name_entry(items.drop_first()[nj - 1]));
                assert(has_name_entry(items.drop_first()));
                lemma_skip_state_rejects_name(items.drop_first());
            } else {
                assert(is_name_entry(items[0]));
                assert(si != 0);
                assert(is_skip_entry(items.drop_first()[si - 1]));
                match s2 {
                    ConfigModel::Named(n) => {
                        lemma_named_state_rejects_all(n, items.drop_first());
                    },
                    _ => {
                        assert(false);
                    },
                }
            }
        },
        Err(_) => {},
    }
}

/// A configuration attribute holding both the opt-out directive and a naming
/// directive is rejected.
pub proof fn lemma_attr_skip_and_name_rejected(attr: Option<AttrModel>)
    requires
        attr matches Option::Some(AttrModel::List(items)) && has_skip_entry(items)
            && has_name_entry(items),
    ensures
        resolve_spec(attr) matches Err(_),
{
    match attr {
        Option::Some(AttrModel::List(items)) => {
            lemma_skip_and_name_rejected(items);
        },
        _ => {},
    }
}

/// `needle` stands in `hay` at position `at`.
pub open spec fn contains_at(hay: Seq<char>, needle: Seq<char>, at: int) -> bool {
    &&& 0 <= at
    &&& at + needle.len() <= hay.len()
    &&& hay.subrange(at, at + needle.len()) == needle
}

/// Every generated method carries the lint annotation that suppresses the
/// unreachable-pattern diagnostic on the match's statically unreachable
/// negative arm.
pub proof fn lemma_method_text_guarded(ty: Seq<char>, m: MethodModel)
    ensures
        contains_at(
            method_text_spec(ty, m),
            unreachable_guard(),
            (method_doc_text(ty, m).len() + "    #[inline]\n"@.len()) as int,
        ),
{
    let pre = method_doc_text(ty, m) + "    #[inline]\n"@;
    assert(method_text_spec(ty, m).subrange(
        pre.len() as int,
        pre.len() as int + unreachable_guard().len() as int,
    ) =~= unreachable_guard());
}

/// An enumerated type with exactly one variant and no directives expands
/// successfully, and its generated text carries the unreachable-pattern
/// guard, although the single method's negative arm is statically
/// unreachable.
pub proof fn lemma_single_variant_guarded(d: DeclModel)
    requires
        d.body matches BodyModel::Enum(vs) && vs.len() == 1 && vs[0].attr is None,
    ensures
        ({
            match expand_spec(d) {
                Ok(text) => exists|at: int| contains_at(text, unreachable_guard(), at),
                Err(_) => false,
            }
        }),
{
    match d.body {
        BodyModel::Enum(vs) => {
            lemma_methods_all_default(vs);
            match methods_spec(vs) {
                Ok(ms) => {
                    let g = ImplModel { type_ident: d.ident, generics: d.generics, methods: ms };
                    assert(synth_spec(d) == Ok::<ImplModel, ErrModel>(g));
                    assert(ms.drop_first() =~= Seq::<MethodModel>::empty());
                    assert(methods_text_spec(d.ident, ms.drop_first()) =~= Seq::<char>::empty());
                    assert(methods_text_spec(d.ident, ms) =~= method_text_spec(d.ident, ms[0]));
                    lemma_method_text_guarded(d.ident, ms[0]);
                    let at = (impl_header_text(g).len() + method_doc_text(d.ident, ms[0]).len()
                        + "    #[inline]\n"@.len()) as int;
                    assert(impl_text_spec(g).subrange(
                        at,
                        at + unreachable_guard().len() as int,
                    ) =~= unreachable_guard());
                    assert(contains_at(impl_text_spec(g), unreachable_guard(), at));
                    assert(expand_spec(d) == Ok::<Seq<char>, ErrModel>(impl_text_spec(g)));
                    let text = match expand_spec(d) {
                        Ok(t) => t,
                        Err(_) => Seq::<char>::empty(),
                    };
                    assert(text == impl_text_spec(g));
                    assert(contains_at(text, unreachable_guard(), at));
                    assert(exists|w: int| contains_at(text, unreachable_guard(), w));
                },
                Err(_) => {
                    assert(false);
                },
            }
        },
        BodyModel::NotEnum => {
            assert(false);
        },
    }
}

/// Generated predicates ignore field contents entirely: on two values built
/// from the same variant, a predicate agrees, whatever their fields hold.
pub proof fn lemma_predicate_ignores_fields(m: MethodModel, v1: ValueModel, v2: ValueModel)
    requires
        v1.variant_ident == v2.variant_ident,
    ensures
        predicate_holds(m, v1) == predicate_holds(m, v2),
{
}

} // verus!

