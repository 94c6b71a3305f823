//! The directive resolver: folds the configuration entries attached to one
//! variant, left to right, into a single resolved policy, failing fast on
//! conflicting, duplicate, or unrecognized directives.

use vstd::prelude::*;
use crate::model::{AttrForm, AttrModel, ErrModel, GenError, MetaItem, MetaModel};
use vstd::string::StrSliceExecFns;
use vstd::string::StringExecFns;

verus! {

/// The per-variant configuration as resolved so far: nothing seen yet (the
/// default-naming policy applies), opted out, or renamed.
#[derive(Debug)]
pub enum PredicateConfig {
    Unspecified,
    Skip,
    Named(String),
}

/// Ghost model of a [`PredicateConfig`].
pub ghost enum ConfigModel {
    Unspecified,
    Skip,
    Named(Seq<char>),
}

impl View for PredicateConfig {
    type V = ConfigModel;

    open spec fn view(&self) -> ConfigModel {
        match self {
            PredicateConfig::Unspecified => ConfigModel::Unspecified,
            PredicateConfig::Skip => ConfigModel::Skip,
            PredicateConfig::Named(n) => ConfigModel::Named(n@),
        }
    }
}

/// A character allowed in a custom predicate name: an ASCII letter, an ASCII
/// digit, or an underscore.
pub open spec fn is_ident_char(c: char) -> bool {
    ||| c == '_'
    ||| 97 <= c as u32 <= 122
    ||| 65 <= c as u32 <= 90
    ||| 48 <= c as u32 <= 57
}

/// A custom predicate name must consist of identifier characters alone.
pub open spec fn valid_fragment(s: Seq<char>) -> bool {
    forall|i: int| 0 <= i < s.len() ==> is_ident_char(s[i])
}

/// Checks that every character of `s` is an ASCII letter, digit, or
/// underscore.
pub fn valid_name_fragment(s: &str) -> (b: bool)
    ensures
        b == valid_fragment(s@),
{
    let n: usize = s.unicode_len();
    let mut i: usize = 0;
    while i < n
        invariant
            n == s@.len(),
            0 <= i <= n,
            forall|j: int| 0 <= j < i ==> is_ident_char(s@[j]),
        decreases n - i,
    {
        let c = s.get_char(i);
        let u: u32 = c as u32;
        if !(c == '_' || (97 <= u && u <= 122) || (65 <= u && u <= 90) || (48 <= u && u <= 57)) {
            assert(!is_ident_char(s@[i as int]));
            return false;
        }
        i = i + 1;
    }
    true
}

/// One fold step of directive resolution: the policy resolved so far meets
/// the next configuration entry.
pub open spec fn join_spec(state: ConfigModel, item: MetaModel) -> Result<ConfigModel, ErrModel> {
    match item {
        MetaModel::Word(w) => if w == "skip"@ {
            match state {
                ConfigModel::Named(_) => Err(ErrModel::SkipAndNamed),
                _ => Ok(ConfigModel::Skip),
            }
        } else {
            Err(ErrModel::UnknownItem(w))
        },
        MetaModel::NameStr(k, v) => if k == "name"@ {
            if !valid_fragment(v) {
                Err(ErrModel::InvalidName(v))
            } else {
                match state {
                    ConfigModel::Unspecified => Ok(ConfigModel::Named(v)),
                    ConfigModel::Skip => Err(ErrModel::SkipAndNamed),
                    ConfigModel::Named(_) => Err(ErrModel::MultipleNames),
                }
            }
        } else {
            Err(ErrModel::UnknownItem(k))
        },
        MetaModel::Lit => Err(ErrModel::InvalidItem),
        MetaModel::Other(t) => Err(ErrModel::UnknownItem(t)),
    }
}

/// Directive resolution over a whole entry list, folded left to right from
/// `state`.
pub open spec fn fold_spec(state: ConfigModel, items: Seq<MetaModel>) -> Result<
    ConfigModel,
    ErrModel,
>
    decreases items.len(),
{
    if items.len() == 0 {
        Ok(state)
    } else {
        match join_spec(state, items[0]) {
            Ok(s2) => fold_spec(s2, items.drop_first()),
            Err(e) => Err(e),
        }
    }
}

/// Resolution of a variant's whole configuration attribute: absence means the
/// default-naming policy, a non-list form is rejected, and a list is folded
/// entry by entry.
pub open spec fn resolve_spec(attr: Option<AttrModel>) -> Result<ConfigModel, ErrModel> {
    match attr {
        Option::None => Ok(ConfigModel::Unspecified),
        Option::Some(AttrModel::NotList) => Err(ErrModel::AttrNotList),
        Option::Some(AttrModel::List(items)) => fold_spec(ConfigModel::Unspecified, items),
    }
}

impl PredicateConfig {
    /// Folds one configuration entry into the policy resolved so far.
    ///
    /// `skip` is idempotent but conflicts with a name already seen; a
    /// `name = ".."` must carry a legal identifier fragment, conflicts with
    /// `skip`, and may appear only once; every other entry is unrecognized.
    pub fn join(self, item: &MetaItem) -> (r: Result<PredicateConfig, GenError>)
        ensures
            match r {
                Ok(c) => join_spec(self@, item@) == Ok::<ConfigModel, ErrModel>(c@),
                Err(e) => join_spec(self@, item@) == Err::<ConfigModel, ErrModel>(e@),
            },
    {
        match item {
            MetaItem::Word(w) => {
                let skip_word = String::from_str("skip");
                if *w == skip_word {
                    match self {
                        PredicateConfig::Named(_) => Err(GenError::SkipAndNamed),
                        _ => Ok(PredicateConfig::Skip),
                    }
                } else {
                    Err(GenError::UnknownItem(w.clone()))
                }
            },
            MetaItem::NameStr(k, v) => {
                let name_word = String::from_str("name");
                if *k == name_word {
                    if !valid_name_fragment(v.as_str()) {
                        Err(GenError::InvalidName(v.clone()))
                    } else {
                        match self {
                            PredicateConfig::Unspecified => Ok(
                                PredicateConfig::Named(v.clone()),
                            ),
                            PredicateConfig::Skip => Err(GenError::SkipAndNamed),
                            PredicateConfig::Named(_) => Err(GenError::MultipleNames),
                        }
                    }
                } else {
                    Err(GenError::UnknownItem(k.clone()))
                }
            },
            MetaItem::Lit => Err(GenError::InvalidItem),
            MetaItem::Other(t) => Err(GenError::UnknownItem(t.clone())),
        }
    }

    /// Resolves a variant's configuration attribute to its policy: the
    /// default-naming policy when no attribute is attached, otherwise the
    /// left-to-right fold of the attribute's entries.
    #[verifier::loop_isolation(false)]
    pub fn from_attr(attr: &Option<AttrForm>) -> (r: Result<PredicateConfig, GenError>)
        ensures
            match r {
                Ok(c) => resolve_spec(
                    match attr {
                        Option::Some(a) => Option::Some(a@),
                        Option::None => Option::None,
                    },
                ) == Ok::<ConfigModel, ErrModel>(c@),
                Err(e) => resolve_spec(
                    match attr {
                        Option::Some(a) => Option::Some(a@),
                        Option::None => Option::None,
                    },
                ) == Err::<ConfigModel, ErrModel>(e@),
            },
    {
        match attr {
            Option::None => Ok(PredicateConfig::Unspecified),
            Option::Some(AttrForm::NotList) => Err(GenError::AttrNotList),
            Option::Some(AttrForm::List(items)) => {
                let ghost items_m = crate::model::metas_model(items@);
                let mut state = PredicateConfig::Unspecified;
                let mut i: usize = 0;
                assert(items_m.subrange(0, items_m.len() as int) =~= items_m);
                while i < items.len()
                    invariant
                        0 <= i <= items.len(),
                        items_m == crate::model::metas_model(items@),
                        items_m.len() == items.len(),
                        fold_spec(ConfigModel::Unspecified, items_m) == fold_spec(
                            state@,
                            items_m.subrange(i as int, items_m.len() as int),
                        ),
                    decreases items.len() - i,
                {
                    let ghost rest = items_m.subrange(i as int, items_m.len() as int);
                    let ghost st = state@;
                    assert(rest[0] == items_m[i as int]);
                    assert(items_m[i as int] == items@[i as int]@);
                    assert(rest.drop_first() =~= items_m.subrange(
                        i as int + 1,
                        items_m.len() as int,
                    ));
                    state = match state.join(&items[i]) {
                        Ok(s2) => s2,
                        Err(e) => {
                            assert(fold_spec(st, rest) == Err::<ConfigModel, ErrModel>(e@));
                            return Err(e);
                        },
                    };
                    i = i + 1;
                }
                assert(items_m.subrange(i as int, items_m.len() as int) =~= Seq::<
                    MetaModel,
                >::empty());
                Ok(state)
            },
        }
    }
}

} // verus!
