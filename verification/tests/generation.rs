//! Tests for predicate generation: default naming, custom names, opt-out,
//! variant shapes, directive conflicts, and the rendered output.

use derive_is_enum_variant::model::{
    AttrForm, GenError, GenericsDecl, MetaItem, TypeBody, TypeDecl, VariantDecl, VariantShape,
};
use derive_is_enum_variant::naming::default_predicate_name;
use derive_is_enum_variant::render::expand_derive_is_enum_variant;
use derive_is_enum_variant::resolve::{valid_name_fragment, PredicateConfig};
use derive_is_enum_variant::semantics::{eval_predicate, EnumValue};
use derive_is_enum_variant::synth::{synthesize, GeneratedMethod};

fn plain_variant(ident: &str, shape: VariantShape) -> VariantDecl {
    VariantDecl { ident: ident.to_string(), shape, attr: None }
}

fn no_generics() -> GenericsDecl {
    GenericsDecl {
        impl_generics: String::new(),
        ty_generics: String::new(),
        where_clause: String::new(),
    }
}

fn enum_decl(ident: &str, variants: Vec<VariantDecl>) -> TypeDecl {
    TypeDecl {
        ident: ident.to_string(),
        generics: no_generics(),
        body: TypeBody::Enum(variants),
    }
}

fn value(variant: &str, field_data: Vec<u64>) -> EnumValue {
    EnumValue { variant_ident: variant.to_string(), field_data }
}

fn method<'a>(methods: &'a [GeneratedMethod], name: &str) -> &'a GeneratedMethod {
    methods
        .iter()
        .find(|m| m.name == name)
        .unwrap_or_else(|| panic!("no generated method named {}", name))
}

#[test]
fn basic_enum_predicates() {
    let decl = enum_decl(
        "Pet",
        vec![
            plain_variant("Doggo", VariantShape::Unit),
            plain_variant("Kitteh", VariantShape::Unit),
            plain_variant("FlyingSquirrel", VariantShape::Unit),
        ],
    );
    let g = synthesize(&decl).unwrap();
    assert_eq!(g.methods.len(), 3);

    let is_doggo = method(&g.methods, "is_doggo");
    let is_kitteh = method(&g.methods, "is_kitteh");
    let is_flying_squirrel = method(&g.methods, "is_flying_squirrel");

    let doggo = value("Doggo", vec![]);
    assert!(eval_predicate(is_doggo, &doggo));
    assert!(!eval_predicate(is_kitteh, &doggo));
    assert!(!eval_predicate(is_flying_squirrel, &doggo));

    let kitteh = value("Kitteh", vec![]);
    assert!(!eval_predicate(is_doggo, &kitteh));
    assert!(eval_predicate(is_kitteh, &kitteh));
    assert!(!eval_predicate(is_flying_squirrel, &kitteh));

    let squirrel = value("FlyingSquirrel", vec![]);
    assert!(!eval_predicate(is_doggo, &squirrel));
    assert!(!eval_predicate(is_kitteh, &squirrel));
    assert!(eval_predicate(is_flying_squirrel, &squirrel));
}

#[test]
fn variant_kinds() {
    let decl = enum_decl(
        "VariantKinds",
        vec![
            plain_variant("Struct", VariantShape::Named),
            plain_variant("Tuple", VariantShape::Unnamed),
            plain_variant("Unit", VariantShape::Unit),
        ],
    );
    let g = synthesize(&decl).unwrap();
    assert_eq!(g.methods.len(), 3);

    assert!(eval_predicate(method(&g.methods, "is_struct"), &value("Struct", vec![1, 2])));
    assert!(eval_predicate(method(&g.methods, "is_tuple"), &value("Tuple", vec![1, 2])));
    assert!(eval_predicate(method(&g.methods, "is_unit"), &value("Unit", vec![])));

    let text = expand_derive_is_enum_variant(&decl).unwrap();
    assert!(text.contains("VariantKinds::Struct { .. } => true,"));
    assert!(text.contains("VariantKinds::Tuple(..) => true,"));
    assert!(text.contains("VariantKinds::Unit => true,"));
}

#[test]
fn funky_variant_names() {
    assert_eq!(default_predicate_name("CAPS"), "is_caps");
    assert_eq!(default_predicate_name("SHOUTING_SNAKE"), "is_shouting_snake");
    assert_eq!(default_predicate_name("snake_case"), "is_snake_case");
    assert_eq!(default_predicate_name("littleCamel"), "is_little_camel");
    assert_eq!(default_predicate_name("WithACRONYM"), "is_with_acronym");
}

#[test]
fn custom_predicate_names() {
    let goodbye = VariantDecl {
        ident: "Goodbye".to_string(),
        shape: VariantShape::Unit,
        attr: Some(AttrForm::List(vec![MetaItem::NameStr(
            "name".to_string(),
            "i_dont_know_why_you_say".to_string(),
        )])),
    };
    let hello = VariantDecl {
        ident: "Hello".to_string(),
        shape: VariantShape::Unit,
        attr: Some(AttrForm::List(vec![MetaItem::NameStr(
            "name".to_string(),
            "i_say".to_string(),
        )])),
    };
    let decl = enum_decl("CustomNames", vec![goodbye, hello]);
    let g = synthesize(&decl).unwrap();
    assert_eq!(g.methods.len(), 2);

    assert!(eval_predicate(
        method(&g.methods, "i_dont_know_why_you_say"),
        &value("Goodbye", vec![]),
    ));
    assert!(eval_predicate(method(&g.methods, "i_say"), &value("Hello", vec![])));

    // Exactly one predicate per variant, under the custom name and not under
    // the default-derived one.
    assert!(g.methods.iter().all(|m| m.name != "is_goodbye" && m.name != "is_hello"));
    assert_eq!(g.methods.iter().filter(|m| m.name == "i_say").count(), 1);
}

#[test]
fn skip_variants() {
    let no_predicate = VariantDecl {
        ident: "NoPredicate".to_string(),
        shape: VariantShape::Unit,
        attr: Some(AttrForm::List(vec![MetaItem::Word("skip".to_string())])),
    };
    let yes_predicate = plain_variant("YesPredicate", VariantShape::Unit);
    let decl = enum_decl("Skip", vec![no_predicate, yes_predicate]);
    let g = synthesize(&decl).unwrap();

    assert_eq!(g.methods.len(), 1);
    assert!(eval_predicate(
        method(&g.methods, "is_yes_predicate"),
        &value("YesPredicate", vec![]),
    ));
    assert!(g.methods.iter().all(|m| m.variant_ident != "NoPredicate"));
}

#[test]
fn default_name_rederivation_is_stable() {
    let once = default_predicate_name("FlyingSquirrel");
    let again = default_predicate_name("FlyingSquirrel");
    assert_eq!(once, again);
    assert_eq!(once, "is_flying_squirrel");
}

#[test]
fn pet_render_exact() {
    let decl = enum_decl(
        "Pet",
        vec![plain_variant("Doggo", VariantShape::Unit), plain_variant("Kitteh", VariantShape::Unit)],
    );
    let text = expand_derive_is_enum_variant(&decl).unwrap();
    let lines = vec![
        "/// # `enum` Variant Predicates",
        "impl Pet {",
        "    #[doc = \"Is this `Pet` a `Doggo`?\"]",
        "    #[inline]",
        "    #[allow(unreachable_patterns)]",
        "    #[allow(dead_code)]",
        "    pub fn is_doggo(&self) -> bool {",
        "        match *self {",
        "            Pet::Doggo => true,",
        "            _ => false,",
        "        }",
        "    }",
        "    #[doc = \"Is this `Pet` a `Kitteh`?\"]",
        "    #[inline]",
        "    #[allow(unreachable_patterns)]",
        "    #[allow(dead_code)]",
        "    pub fn is_kitteh(&self) -> bool {",
        "        match *self {",
        "            Pet::Kitteh => true,",
        "            _ => false,",
        "        }",
        "    }",
        "}",
    ];
    let expected = lines.join("\n") + "\n";
    assert_eq!(text, expected);
}

#[test]
fn skip_and_name_conflict() {
    let attr = Some(AttrForm::List(vec![
        MetaItem::Word("skip".to_string()),
        MetaItem::NameStr("name".to_string(), "is_fine".to_string()),
    ]));
    let r = PredicateConfig::from_attr(&attr);
    assert!(matches!(r, Err(GenError::SkipAndNamed)));

    let attr_reversed = Some(AttrForm::List(vec![
        MetaItem::NameStr("name".to_string(), "is_fine".to_string()),
        MetaItem::Word("skip".to_string()),
    ]));
    let r = PredicateConfig::from_attr(&attr_reversed);
    let e = r.err().unwrap();
    assert!(matches!(e, GenError::SkipAndNamed));
    assert_eq!(
        e.message(),
        "Cannot both `#[is_enum_variant(skip)]` and `#[is_enum_variant(name = \"..\")]`",
    );

    // The conflict aborts generation for the whole type.
    let bad = VariantDecl {
        ident: "Both".to_string(),
        shape: VariantShape::Unit,
        attr: Some(AttrForm::List(vec![
            MetaItem::Word("skip".to_string()),
            MetaItem::NameStr("name".to_string(), "x".to_string()),
        ])),
    };
    let decl = enum_decl("Conflicted", vec![plain_variant("Fine", VariantShape::Unit), bad]);
    assert!(matches!(expand_derive_is_enum_variant(&decl), Err(GenError::SkipAndNamed)));
}

#[test]
fn repeated_skip_is_idempotent() {
    let attr = Some(AttrForm::List(vec![
        MetaItem::Word("skip".to_string()),
        MetaItem::Word("skip".to_string()),
    ]));
    let r = PredicateConfig::from_attr(&attr);
    assert!(matches!(r, Ok(PredicateConfig::Skip)));
}

#[test]
fn multiple_names_rejected() {
    let attr = Some(AttrForm::List(vec![
        MetaItem::NameStr("name".to_string(), "first".to_string()),
        MetaItem::NameStr("name".to_string(), "second".to_string()),
    ]));
    let e = PredicateConfig::from_attr(&attr).err().unwrap();
    assert!(matches!(e, GenError::MultipleNames));
    assert_eq!(e.message(), "Cannot provide more than one `#[is_enum_variant(name = \"..\")]`");
}

#[test]
fn unknown_item_rejected() {
    let attr = Some(AttrForm::List(vec![MetaItem::Word("frobnicate".to_string())]));
    let e = PredicateConfig::from_attr(&attr).err().unwrap();
    match &e {
        GenError::UnknownItem(w) => assert_eq!(w, "frobnicate"),
        other => panic!("unexpected error {:?}", other),
    }
    assert_eq!(e.message(), "Unknown item inside `#[is_enum_variant(..)]`: frobnicate");

    let attr = Some(AttrForm::List(vec![MetaItem::NameStr(
        "rename".to_string(),
        "x".to_string(),
    )]));
    assert!(matches!(
        PredicateConfig::from_attr(&attr),
        Err(GenError::UnknownItem(_)),
    ));
}

#[test]
fn invalid_name_rejected() {
    let attr = Some(AttrForm::List(vec![MetaItem::NameStr(
        "name".to_string(),
        "not ok!".to_string(),
    )]));
    let e = PredicateConfig::from_attr(&attr).err().unwrap();
    assert!(matches!(e, GenError::InvalidName(_)));
    assert_eq!(
        e.message(),
        "#[is_enum_variant(name = \"..\")] must be provided a valid identifier",
    );
}

#[test]
fn attr_shape_errors() {
    let not_list = Some(AttrForm::NotList);
    let e = PredicateConfig::from_attr(&not_list).err().unwrap();
    assert!(matches!(e, GenError::AttrNotList));
    assert_eq!(
        e.message(),
        "#[is_enum_variant] must be used with name/value pairs, like #[is_enum_variant(name = \"..\")]",
    );

    let with_literal = Some(AttrForm::List(vec![MetaItem::Lit]));
    let e = PredicateConfig::from_attr(&with_literal).err().unwrap();
    assert!(matches!(e, GenError::InvalidItem));
    assert_eq!(e.message(), "Invalid #[is_enum_variant] item");
}

#[test]
fn not_an_enum_rejected() {
    let decl = TypeDecl {
        ident: "Point".to_string(),
        generics: no_generics(),
        body: TypeBody::NotEnum,
    };
    let e = expand_derive_is_enum_variant(&decl).err().unwrap();
    assert!(matches!(e, GenError::NotAnEnum));
    assert_eq!(e.message(), "#[derive(is_enum_variant)] can only be used with enums");
}

#[test]
fn single_variant_enum_is_guarded() {
    let decl = enum_decl(
        "GeneratedCodeHasNoWarnings",
        vec![plain_variant("OnlyOneVariant", VariantShape::Unit)],
    );
    let text = expand_derive_is_enum_variant(&decl).unwrap();
    assert!(text.contains("#[allow(unreachable_patterns)]"));
    assert!(text.contains("pub fn is_only_one_variant(&self) -> bool {"));
}

#[test]
fn predicates_ignore_field_contents() {
    let decl = enum_decl(
        "VariantKinds",
        vec![
            plain_variant("Struct", VariantShape::Named),
            plain_variant("Tuple", VariantShape::Unnamed),
        ],
    );
    let g = synthesize(&decl).unwrap();
    let is_tuple = method(&g.methods, "is_tuple");
    assert!(eval_predicate(is_tuple, &value("Tuple", vec![1, 2])));
    assert!(eval_predicate(is_tuple, &value("Tuple", vec![99, 99])));
    let is_struct = method(&g.methods, "is_struct");
    assert!(eval_predicate(is_struct, &value("Struct", vec![1, 2])));
    assert!(eval_predicate(is_struct, &value("Struct", vec![9, 9])));
    assert!(!eval_predicate(is_struct, &value("Tuple", vec![1, 2])));
}

#[test]
fn generics_are_spliced_through() {
    let decl = TypeDecl {
        ident: "Either".to_string(),
        generics: GenericsDecl {
            impl_generics: "<L, R>".to_string(),
            ty_generics: "<L, R>".to_string(),
            where_clause: "where L: Clone".to_string(),
        },
        body: TypeBody::Enum(vec![
            plain_variant("Left", VariantShape::Unnamed),
            plain_variant("Right", VariantShape::Unnamed),
        ]),
    };
    let text = expand_derive_is_enum_variant(&decl).unwrap();
    assert!(text.starts_with("/// # `enum` Variant Predicates\nimpl<L, R> Either<L, R> where L: Clone {\n"));
    assert!(text.contains("Either::Left(..) => true,"));
}

#[test]
fn name_fragment_validity() {
    assert!(valid_name_fragment("is_good_boy"));
    assert!(valid_name_fragment("ABC_123"));
    assert!(valid_name_fragment(""));
    assert!(!valid_name_fragment("not ok!"));
    assert!(!valid_name_fragment("is-bad"));
    assert!(!valid_name_fragment("caf\u{e9}"));
}
