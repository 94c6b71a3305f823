//! Plain-data model of an annotated enumerated-type declaration.
//!
//! The host toolchain's syntax tree is converted, outside this library, into
//! these types: each carries exactly what predicate generation reads (names,
//! variant shapes, configuration directives), nothing more.

use vstd::prelude::*;
use vstd::string::StringExecFns;

verus! {

/// The shape of one variant: no fields, unnamed (tuple) fields, or named
/// (struct-like) fields. Generation never reads the fields themselves, only
/// which of the three pattern forms is needed to match the variant.
#[derive(Clone, Copy, PartialEq, Eq, Structural, Debug)]
pub enum VariantShape {
    Unit,
    Unnamed,
    Named,
}

/// One entry inside the variant-level configuration attribute, already
/// reduced to plain data.
#[derive(Debug)]
pub enum MetaItem {
    /// A bare word, such as the `skip` in `#[is_enum_variant(skip)]`.
    Word(String),
    /// A `key = "value"` pair with a string-literal value, such as
    /// `name = "is_good"`.
    NameStr(String, String),
    /// A bare literal where an entry was expected.
    Lit,
    /// Any other entry shape; the payload is its rendered text, used only to
    /// report it back in an error.
    Other(String),
}

/// Ghost model of a [`MetaItem`].
pub ghost enum MetaModel {
    Word(Seq<char>),
    NameStr(Seq<char>, Seq<char>),
    Lit,
    Other(Seq<char>),
}

impl View for MetaItem {
    type V = MetaModel;

    open spec fn view(&self) -> MetaModel {
        match self {
            MetaItem::Word(w) => MetaModel::Word(w@),
            MetaItem::NameStr(k, v) => MetaModel::NameStr(k@, v@),
            MetaItem::Lit => MetaModel::Lit,
            MetaItem::Other(t) => MetaModel::Other(t@),
        }
    }
}

/// The ghost models of a sequence of configuration entries, element-wise.
pub open spec fn metas_model(items: Seq<MetaItem>) -> Seq<MetaModel> {
    items.map_values(|m: MetaItem| m@)
}

/// The form of the variant-level configuration attribute, when present.
#[derive(Debug)]
pub enum AttrForm {
    /// A parenthesized list, `#[is_enum_variant(..)]`, holding its entries.
    List(Vec<MetaItem>),
    /// Any non-list form, such as `#[is_enum_variant]` or
    /// `#[is_enum_variant = ".."]`.
    NotList,
}

/// Ghost model of an [`AttrForm`].
pub ghost enum AttrModel {
    List(Seq<MetaModel>),
    NotList,
}

impl View for AttrForm {
    type V = AttrModel;

    open spec fn view(&self) -> AttrModel {
        match self {
            AttrForm::List(items) => AttrModel::List(metas_model(items@)),
            AttrForm::NotList => AttrModel::NotList,
        }
    }
}

/// One variant of the enumerated type: its identifier, its shape, and its
/// configuration attribute if one is attached.
#[derive(Debug)]
pub struct VariantDecl {
    pub ident: String,
    pub shape: VariantShape,
    pub attr: Option<AttrForm>,
}

/// Ghost model of a [`VariantDecl`].
pub ghost struct VariantModel {
    pub ident: Seq<char>,
    pub shape: VariantShape,
    pub attr: Option<AttrModel>,
}

impl View for VariantDecl {
    type V = VariantModel;

    open spec fn view(&self) -> VariantModel {
        VariantModel {
            ident: self.ident@,
            shape: self.shape,
            attr: match self.attr {
                Option::Some(a) => Option::Some(a@),
                Option::None => Option::None,
            },
        }
    }
}

/// The generic parameters of the declaration, already rendered to text by the
/// caller: the `impl`-side parameter list, the type-side argument list, and
/// the `where` clause (each empty when the declaration has none). Generation
/// splices these through unchanged.
#[derive(Debug)]
pub struct GenericsDecl {
    pub impl_generics: String,
    pub ty_generics: String,
    pub where_clause: String,
}

/// Ghost model of a [`GenericsDecl`].
pub ghost struct GenericsModel {
    pub impl_generics: Seq<char>,
    pub ty_generics: Seq<char>,
    pub where_clause: Seq<char>,
}

impl View for GenericsDecl {
    type V = GenericsModel;

    open spec fn view(&self) -> GenericsModel {
        GenericsModel {
            impl_generics: self.impl_generics@,
            ty_generics: self.ty_generics@,
            where_clause: self.where_clause@,
        }
    }
}

/// The body of the annotated declaration: the variant list of an enumerated
/// type, or anything else (a product/record type), on which generation fails.
#[derive(Debug)]
pub enum TypeBody {
    Enum(Vec<VariantDecl>),
    NotEnum,
}

/// Ghost model of a [`TypeBody`].
pub ghost enum BodyModel {
    Enum(Seq<VariantModel>),
    NotEnum,
}

impl View for TypeBody {
    type V = BodyModel;

    open spec fn view(&self) -> BodyModel {
        match self {
            TypeBody::Enum(vs) => BodyModel::Enum(variants_model(vs@)),
            TypeBody::NotEnum => BodyModel::NotEnum,
        }
    }
}

/// The ghost models of a sequence of variant declarations, element-wise.
pub open spec fn variants_model(vs: Seq<VariantDecl>) -> Seq<VariantModel> {
    vs.map_values(|v: VariantDecl| v@)
}

/// The annotated type declaration handed in by the toolchain.
#[derive(Debug)]
pub struct TypeDecl {
    pub ident: String,
    pub generics: GenericsDecl,
    pub body: TypeBody,
}

/// Ghost model of a [`TypeDecl`].
pub ghost struct DeclModel {
    pub ident: Seq<char>,
    pub generics: GenericsModel,
    pub body: BodyModel,
}

impl View for TypeDecl {
    type V = DeclModel;

    open spec fn view(&self) -> DeclModel {
        DeclModel { ident: self.ident@, generics: self.generics@, body: self.body@ }
    }
}

/// A fatal configuration error: generation for the whole type aborts, and the
/// toolchain surfaces the message as a compile-time diagnostic.
#[derive(Debug)]
pub enum GenError {
    /// The annotated declaration is not an enumerated type.
    NotAnEnum,
    /// The configuration attribute is not a parenthesized list.
    AttrNotList,
    /// A bare literal stood where a configuration entry was expected.
    InvalidItem,
    /// An entry with an unrecognized key or shape; the payload names it.
    UnknownItem(String),
    /// `skip` and `name = ".."` were combined on one variant.
    SkipAndNamed,
    /// More than one `name = ".."` was given on one variant.
    MultipleNames,
    /// The value of `name = ".."` is not a legal identifier fragment.
    InvalidName(String),
}

/// Ghost model of a [`GenError`].
pub ghost enum ErrModel {
    NotAnEnum,
    AttrNotList,
    InvalidItem,
    UnknownItem(Seq<char>),
    SkipAndNamed,
    MultipleNames,
    InvalidName(Seq<char>),
}

impl View for GenError {
    type V = ErrModel;

    open spec fn view(&self) -> ErrModel {
        match self {
            GenError::NotAnEnum => ErrModel::NotAnEnum,
            GenError::AttrNotList => ErrModel::AttrNotList,
            GenError::InvalidItem => ErrModel::InvalidItem,
            GenError::UnknownItem(t) => ErrModel::UnknownItem(t@),
            GenError::SkipAndNamed => ErrModel::SkipAndNamed,
            GenError::MultipleNames => ErrModel::MultipleNames,
            GenError::InvalidName(t) => ErrModel::InvalidName(t@),
        }
    }
}

/// The diagnostic message for each error, exactly as the toolchain surfaces
/// it to the author.
pub open spec fn message_spec(e: ErrModel) -> Seq<char> {
    match e {
        ErrModel::NotAnEnum => "#[derive(is_enum_variant)] can only be used with enums"@,
        ErrModel::AttrNotList => "#[is_enum_variant] must be used with name/value pairs, like #[is_enum_variant(name = \"..\")]"@,
        ErrModel::InvalidItem => "Invalid #[is_enum_variant] item"@,
        ErrModel::UnknownItem(t) => "Unknown item inside `#[is_enum_variant(..)]`: "@ + t,
        ErrModel::SkipAndNamed => "Cannot both `#[is_enum_variant(skip)]` and `#[is_enum_variant(name = \"..\")]`"@,
        ErrModel::MultipleNames => "Cannot provide more than one `#[is_enum_variant(name = \"..\")]`"@,
        ErrModel::InvalidName(_) => "#[is_enum_variant(name = \"..\")] must be provided a valid identifier"@,
    }
}

impl GenError {
    /// Renders the error's diagnostic message.
    pub fn message(&self) -> (r: String)
        ensures
            r@ == message_spec(self@),
    {
        match self {
            GenError::NotAnEnum => String::from_str(
                "#[derive(is_enum_variant)] can only be used with enums",
            ),
            GenError::AttrNotList => String::from_str(
                "#[is_enum_variant] must be used with name/value pairs, like #[is_enum_variant(name = \"..\")]",
            ),
            GenError::InvalidItem => String::from_str("Invalid #[is_enum_variant] item"),
            GenError::UnknownItem(t) => String::from_str(
                "Unknown item inside `#[is_enum_variant(..)]`: ",
            ).concat(t.as_str()),
            GenError::SkipAndNamed => String::from_str(
                "Cannot both `#[is_enum_variant(skip)]` and `#[is_enum_variant(name = \"..\")]`",
            ),
            GenError::MultipleNames => String::from_str(
                "Cannot provide more than one `#[is_enum_variant(name = \"..\")]`",
            ),
            GenError::InvalidName(_) => String::from_str(
                "#[is_enum_variant(name = \"..\")] must be provided a valid identifier",
            ),
        }
    }
}

} // verus!
