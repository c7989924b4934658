use telety::apply::ApplyAliases;
use telety::identify::{identify_aliases, IdentifyAliases};
use telety::map::{AliasMap, Module};
use telety::prune::{prune, UnusedParams};
use telety::syntax::{
    Field, Fields, GenericArgument, GenericParam, Generics, Item, ItemEnum, ItemStruct, ItemTrait,
    ModPath, Path, PathArguments, PathSegment, TraitBound, TraitItem, Type, TypeParamBound,
    TypePath, Variant, Visibility, WherePredicate,
};
use telety::telety::{Options, Telety, TeletyError};

fn seg(s: &str) -> PathSegment {
    PathSegment { ident: s.to_string(), arguments: PathArguments::Empty }
}

fn ty(name: &str) -> Type {
    Type::Path(TypePath { qself: None, path: Path { leading_colon: false, segments: vec![seg(name)] } })
}

fn generic_ty(name: &str, arg: Type) -> Type {
    Type::Path(TypePath {
        qself: None,
        path: Path {
            leading_colon: false,
            segments: vec![PathSegment {
                ident: name.to_string(),
                arguments: PathArguments::AngleBracketed {
                    colon2: false,
                    args: vec![GenericArgument::Type(arg)],
                },
            }],
        },
    })
}

fn unnamed(tys: Vec<Type>) -> Fields {
    Fields::Unnamed(tys.into_iter().map(|t| Field { vis: Visibility::Inherited, ident: None, ty: t }).collect())
}

fn no_generics() -> Generics {
    Generics { params: vec![], where_clause: None }
}

fn type_param(name: &str) -> GenericParam {
    GenericParam::Type { ident: name.to_string(), bounds: vec![], default: None }
}

fn trait_bound(leading_colon: bool, names: &[&str]) -> TypeParamBound {
    TypeParamBound::Trait(TraitBound {
        maybe: false,
        lifetimes: vec![],
        path: Path { leading_colon, segments: names.iter().map(|n| seg(n)).collect() },
    })
}

fn new_map() -> AliasMap {
    AliasMap::new_root(
        None,
        ModPath { leading_colon: false, idents: vec!["crate".to_string()] },
        Module::for_item(Visibility::Public, &"E".to_string()),
        "crate_E".to_string(),
        None,
    )
}

/// `enum E { A, B(i32), C(Box<Self>), D(Option<SomeOther>) }`
fn scenario_enum() -> Item {
    Item::Enum(ItemEnum {
        vis: Visibility::Public,
        ident: "E".to_string(),
        generics: no_generics(),
        variants: vec![
            Variant { ident: "A".to_string(), fields: Fields::Unit, discriminant: None },
            Variant { ident: "B".to_string(), fields: unnamed(vec![ty("i32")]), discriminant: None },
            Variant {
                ident: "C".to_string(),
                fields: unnamed(vec![generic_ty("Box", ty("Self"))]),
                discriminant: None,
            },
            Variant {
                ident: "D".to_string(),
                fields: unnamed(vec![generic_ty("Option", ty("SomeOther"))]),
                discriminant: None,
            },
        ],
    })
}

fn entry_names(map: &AliasMap) -> Vec<String> {
    map.tables[0].lookup.iter().map(|e| e.sig.idents.join("::")).collect()
}

#[test]
fn scenario_enum_discovery_order() {
    let mut map = new_map();
    identify_aliases(&mut map, 0, &no_generics(), &scenario_enum());
    // Pre-order, left to right; the walk goes into the arguments of every path, so the
    // container and the type inside it both get an entry. `Self` never does.
    assert_eq!(entry_names(&map), vec!["i32", "Box", "Option", "SomeOther"]);
    let first = &map.tables[0].lookup[0].sig;
    assert_eq!((first.lifetime_count, first.type_count, first.const_count), (0, 0, 0));
    let option = &map.tables[0].lookup[2].sig;
    assert_eq!(option.type_count, 1);
    assert!(!entry_names(&map).contains(&"Self".to_string()));
}

#[test]
fn discovery_is_repeatable() {
    let mut a = new_map();
    let mut b = new_map();
    identify_aliases(&mut a, 0, &no_generics(), &scenario_enum());
    identify_aliases(&mut b, 0, &no_generics(), &scenario_enum());
    assert_eq!(a, b);
    let ia: Vec<String> = a.iter_aliases(0).iter().map(|x| x.index.ident()).collect();
    let ib: Vec<String> = b.iter_aliases(0).iter().map(|x| x.index.ident()).collect();
    assert_eq!(ia, ib);
    assert_eq!(ia, vec!["Alias0", "Alias1", "Alias2", "Alias3"]);
}

#[test]
fn bound_parameters_are_not_aliased() {
    // struct S<T: ::core::fmt::Debug, const N: usize>(T, Vec<T>, [u8; N], Wrapper<Outer>) where T: Clone;
    let item = Item::Struct(ItemStruct {
        vis: Visibility::Public,
        ident: "S".to_string(),
        generics: Generics {
            params: vec![
                GenericParam::Type {
                    ident: "T".to_string(),
                    bounds: vec![trait_bound(true, &["core", "fmt", "Debug"])],
                    default: None,
                },
                GenericParam::Const { ident: "N".to_string(), ty: ty("usize"), default: None },
            ],
            where_clause: Some(vec![WherePredicate::Type {
                lifetimes: vec![],
                bounded_ty: ty("T"),
                bounds: vec![trait_bound(false, &["Clone"])],
            }]),
        },
        fields: unnamed(vec![
            ty("T"),
            generic_ty("Vec", ty("T")),
            Type::Array { elem: Box::new(ty("u8")), len: telety::syntax::Expr::Path(Path { leading_colon: false, segments: vec![seg("N")] }) },
            generic_ty("Wrapper", ty("Outer")),
        ]),
    });
    let generics = Generics {
        params: vec![type_param("T"), GenericParam::Const { ident: "N".to_string(), ty: ty("usize"), default: None }],
        where_clause: None,
    };
    let mut map = new_map();
    let pass = IdentifyAliases::new(&generics, 0);
    assert_eq!(pass.parameters, vec!["T".to_string(), "N".to_string()]);
    pass.visit_item(&mut map, &item);
    // `Clone` is a bare trait name and is refused; the walk goes on.
    assert_eq!(entry_names(&map), vec!["core::fmt::Debug", "usize", "Vec", "u8", "Wrapper", "Outer"]);
}

#[test]
fn trait_items_bring_their_own_parameters() {
    // trait GenericParam<Param> { fn apply_item<U>(param: Param, u: U) -> Out; }
    let item = Item::Trait(ItemTrait {
        vis: Visibility::Public,
        ident: "GenericParam".to_string(),
        generics: Generics { params: vec![type_param("Param")], where_clause: None },
        supertraits: vec![],
        items: vec![TraitItem::Fn {
            ident: "apply_item".to_string(),
            generics: Generics { params: vec![type_param("U")], where_clause: None },
            inputs: vec![telety::syntax::FnArg::Typed(ty("Param")), telety::syntax::FnArg::Typed(ty("U"))],
            output: Some(ty("Out")),
        }],
    });
    let mut map = new_map();
    identify_aliases(&mut map, 0, &Generics { params: vec![type_param("Param")], where_clause: None }, &item);
    assert_eq!(entry_names(&map), vec!["Out"]);
}

#[test]
fn pruning_keeps_only_used_parameters() {
    // <A, B> where B: Clone, for the subtree `Wrapper<A>`
    let all = Generics {
        params: vec![type_param("A"), type_param("B")],
        where_clause: Some(vec![WherePredicate::Type {
            lifetimes: vec![],
            bounded_ty: ty("B"),
            bounds: vec![trait_bound(false, &["Clone"])],
        }]),
    };
    let reduced = prune(all, &generic_ty("Wrapper", ty("A")));
    assert_eq!(reduced.params, vec![type_param("A")]);
    assert_eq!(reduced.where_clause, None);
}

#[test]
fn pruning_sees_lifetimes_and_consts() {
    let all = Generics {
        params: vec![
            GenericParam::Lifetime { name: "a".to_string(), bounds: vec![] },
            GenericParam::Lifetime { name: "b".to_string(), bounds: vec![] },
            GenericParam::Const { ident: "N".to_string(), ty: ty("usize"), default: None },
        ],
        where_clause: None,
    };
    let subtree = Type::Reference {
        lifetime: Some("b".to_string()),
        mutable: false,
        elem: Box::new(Type::Array {
            elem: Box::new(ty("u8")),
            len: telety::syntax::Expr::Path(Path { leading_colon: false, segments: vec![seg("N")] }),
        }),
    };
    let mut used = UnusedParams::new();
    used.visit_type(&subtree);
    let mut g = all;
    used.remove_unused(&mut g);
    assert_eq!(
        g.params,
        vec![
            GenericParam::Lifetime { name: "b".to_string(), bounds: vec![] },
            GenericParam::Const { ident: "N".to_string(), ty: ty("usize"), default: None },
        ]
    );
}

fn options(alias_traits: Option<bool>) -> Options {
    Options {
        containing_path: ModPath { leading_colon: false, idents: vec!["crate".to_string(), "m".to_string()] },
        telety_path: None,
        macro_ident: None,
        visibility: None,
        proxy: None,
        alias_traits,
    }
}

#[test]
fn telety_builds_the_table() {
    let t = match Telety::new_with_options(scenario_enum(), options(None), &"mycrate".to_string()) {
        Ok(t) => t,
        Err(e) => panic!("{}", e.message()),
    };
    assert_eq!(t.unique_ident(), "crate_m_E");
    assert_eq!(t.macro_ident(), "E");
    let map = t.alias_map();
    assert_eq!(map.tables.len(), 1);
    assert_eq!(map.module(0).ident(), "__telety_alias_map_E");
    assert_eq!(map.map_path().idents, vec!["crate".to_string(), "m".to_string()]);
    let primary = &map.tables[0].primary.as_ref().unwrap().0;
    assert_eq!(primary.idents, vec!["crate".to_string(), "m".to_string(), "E".to_string()]);
    assert_eq!(entry_names(map), vec!["i32", "Box", "Option", "SomeOther"]);
    assert_eq!(t.path().idents, vec!["crate".to_string(), "m".to_string(), "E".to_string()]);
    let converted = t.containing_mod_path(&"mycrate".to_string());
    assert_eq!(converted.idents, vec!["crate".to_string(), "m".to_string()]);
    assert!(!converted.leading_colon);
    assert_eq!(t.options().telety_path().idents, vec!["telety".to_string()]);
}

#[test]
fn telety_errors() {
    let unsupported = Item::Other(telety::syntax::ItemOther {
        vis: Some(Visibility::Public),
        ident: Some(telety::syntax::IdentData::new(
            "f".to_string(),
            telety::syntax::Namespaces { type_ns: false, value_ns: true, macro_ns: false },
        )),
        generics: None,
    });
    let r = Telety::new_with_options(unsupported, options(None), &"c".to_string());
    assert_eq!(r.err().map(|e| e.message()), Some("Only enums, structs, unions, and traits are currently supported".to_string()));
    let a_macro = Item::Other(telety::syntax::ItemOther {
        vis: None,
        ident: Some(telety::syntax::IdentData::new(
            "m".to_string(),
            telety::syntax::Namespaces { type_ns: false, value_ns: false, macro_ns: true },
        )),
        generics: None,
    });
    assert_eq!(Telety::new_with_options(a_macro, options(None), &"c".to_string()).err(), Some(TeletyError::MacroNamespace));
    let nameless = Item::Other(telety::syntax::ItemOther { vis: None, ident: None, generics: None });
    assert_eq!(Telety::new_with_options(nameless, options(None), &"c".to_string()).err(), Some(TeletyError::MissingMacroIdent));
    let mut named = options(None);
    named.macro_ident = Some("Impl".to_string());
    let nameless = Item::Other(telety::syntax::ItemOther { vis: None, ident: None, generics: None });
    assert_eq!(Telety::new_with_options(nameless, named, &"c".to_string()).err(), Some(TeletyError::MissingVisibility));
}

#[test]
fn rewriting_uses_global_alias_paths() {
    let t = Telety::new_with_options(scenario_enum(), options(None), &"mycrate".to_string()).ok().unwrap();
    let map = t.alias_map();
    let apply = ApplyAliases::new();
    // Option<SomeOther> becomes crate::m::__telety_alias_map_E::Alias2::<SomeOther>
    let mut field = generic_ty("Option", ty("SomeOther"));
    apply.apply_type(map, 0, &no_generics(), &mut field);
    let names = |t: &Type| match t {
        Type::Path(tp) => tp.path.segments.iter().map(|s| s.ident.clone()).collect::<Vec<_>>(),
        _ => vec![],
    };
    assert_eq!(names(&field), vec!["crate", "m", "__telety_alias_map_E", "Alias2"]);
    match &field {
        Type::Path(tp) => match &tp.path.segments[3].arguments {
            PathArguments::AngleBracketed { colon2, args } => {
                assert!(*colon2);
                assert_eq!(args, &vec![GenericArgument::Type(ty("SomeOther"))]);
            }
            other => panic!("unexpected {:?}", other),
        },
        _ => unreachable!(),
    }
    // Self becomes the primary alias.
    let mut this = ty("Self");
    apply.apply_type(map, 0, &no_generics(), &mut this);
    assert_eq!(names(&this), vec!["crate", "m", "__telety_alias_map_E", "AliasSelf"]);
    // Unknown types are kept, and their arguments rewritten.
    let mut tuple = Type::Tuple(vec![ty("Unknown"), generic_ty("Unknown", ty("i32"))]);
    apply.apply_type(map, 0, &no_generics(), &mut tuple);
    match &tuple {
        Type::Tuple(v) => {
            assert_eq!(v[0], ty("Unknown"));
            match &v[1] {
                Type::Path(tp) => match &tp.path.segments[0].arguments {
                    PathArguments::AngleBracketed { args, .. } => match &args[0] {
                        GenericArgument::Type(inner) => assert_eq!(names(inner), vec!["crate", "m", "__telety_alias_map_E", "Alias0"]),
                        other => panic!("unexpected {:?}", other),
                    },
                    other => panic!("unexpected {:?}", other),
                },
                other => panic!("unexpected {:?}", other),
            }
        }
        _ => unreachable!(),
    }
    // With free types switched off only Self is rewritten.
    let mut only_self = ApplyAliases::new();
    only_self.set_apply_free_types(false);
    let mut kept = ty("i32");
    only_self.apply_type(map, 0, &no_generics(), &mut kept);
    assert_eq!(kept, ty("i32"));
    let mut none = ApplyAliases::new();
    none.set_apply_associated_types(false);
    let mut s = ty("Self");
    none.apply_type(map, 0, &no_generics(), &mut s);
    assert_eq!(s, ty("Self"));
}
