use telety::emit::{exact_decls, public_decls, with_module, Decl};
use telety::map::{Alias, AliasKind, AliasMap, Group, Index, Module};
use telety::signature::ArgKind;
use telety::syntax::{GenericArgument, ModPath, Path, PathArguments, PathSegment, Type, TypePath, Visibility};

fn s(x: &str) -> String {
    x.to_string()
}

fn rel(ids: &[&str]) -> ModPath {
    ModPath { leading_colon: false, idents: ids.iter().map(|i| i.to_string()).collect() }
}

fn pub_super() -> Visibility {
    Visibility::Restricted { in_token: false, path: rel(&["super"]) }
}

fn seg(x: &str) -> PathSegment {
    PathSegment { ident: s(x), arguments: PathArguments::Empty }
}

fn type_path(segments: Vec<PathSegment>) -> TypePath {
    TypePath { qself: None, path: Path { leading_colon: false, segments } }
}

/// A table for a private item `Item` in `crate`, with `Foo<T>` (one segment) and
/// `a::Bar` (two segments) filed, and the trait `::x::Tr`.
fn table() -> AliasMap {
    let mut map = AliasMap::new_root(
        None,
        rel(&["crate"]),
        Module::for_item(Visibility::Inherited, &s("Item")),
        s("crate_Item"),
        None,
    );
    let foo = type_path(vec![PathSegment {
        ident: s("Foo"),
        arguments: PathArguments::AngleBracketed {
            colon2: false,
            args: vec![GenericArgument::Type(Type::Path(type_path(vec![seg("u8")])))],
        },
    }]);
    assert_eq!(map.insert_type(0, &foo), Ok(true));
    assert_eq!(map.insert_type(0, &type_path(vec![seg("a"), seg("Bar")])), Ok(true));
    assert_eq!(map.insert_trait(0, &Path { leading_colon: true, segments: vec![seg("x"), seg("Tr")] }), Ok(true));
    assert_eq!(map.set_self(0, &Path { leading_colon: false, segments: vec![seg("crate"), seg("Item")] }), Ok(()));
    map
}

fn secondary(j: usize, kind: AliasKind) -> Alias {
    Alias { table: 0, index: Index::Secondary(j), kind }
}

#[test]
fn exact_declarations() {
    let map = table();
    assert_eq!(exact_decls(&map, Alias { table: 0, index: Index::Primary, kind: AliasKind::Type }), vec![]);
    // One segment: re-exported at pub(super) only.
    assert_eq!(
        exact_decls(&map, secondary(0, AliasKind::Type)),
        vec![
            Decl::Use { vis: pub_super(), path: rel(&["Foo"]), ident: s("Alias0") },
            Decl::TypeAlias { vis: pub_super(), ident: s("Alias0Internal"), params: vec![ArgKind::Type], target: rel(&["Foo"]) },
        ]
    );
    // Two segments: two levels out (pub(in super::super) for a private item).
    let two_out = Visibility::Restricted { in_token: true, path: rel(&["super", "super"]) };
    assert_eq!(
        exact_decls(&map, secondary(1, AliasKind::Type)),
        vec![
            Decl::Use { vis: two_out.copy(), path: rel(&["a", "Bar"]), ident: s("Alias1") },
            Decl::TypeAlias { vis: pub_super(), ident: s("Alias1Internal"), params: vec![], target: rel(&["a", "Bar"]) },
        ]
    );
    // A trait gets no type alias.
    assert_eq!(
        exact_decls(&map, secondary(2, AliasKind::Trait)),
        vec![Decl::Use {
            vis: two_out,
            path: ModPath { leading_colon: true, idents: vec![s("x"), s("Tr")] },
            ident: s("Alias2"),
        }]
    );
}

#[test]
fn public_declarations() {
    let map = table();
    assert_eq!(
        public_decls(&map, Alias { table: 0, index: Index::Primary, kind: AliasKind::Type }),
        vec![Decl::Use { vis: pub_super(), path: rel(&["crate", "Item"]), ident: s("AliasSelf") }]
    );
    assert_eq!(
        public_decls(&map, secondary(0, AliasKind::Type)),
        vec![
            Decl::ForwardingMacro {
                export: false,
                ident: s("crate_Item_Alias0"),
                target: rel(&["self", "exact", "Alias0"]),
                maker: s("make_crate_Item_Alias0"),
                telety_path: None,
            },
            Decl::TypeAlias {
                vis: pub_super(),
                ident: s("crate_Item_Alias0"),
                params: vec![ArgKind::Type],
                target: rel(&["self", "exact", "Alias0Internal"]),
            },
            Decl::Use { vis: pub_super(), path: rel(&["crate_Item_Alias0"]), ident: s("Alias0") },
        ]
    );
    let decls = public_decls(&map, secondary(1, AliasKind::Type));
    assert_eq!(decls.len(), 2);
    match &decls[0] {
        Decl::Module { vis, ident, items } => {
            assert_eq!(*vis, Visibility::Inherited);
            assert_eq!(ident, "Alias1_mod");
            assert_eq!(items.len(), 2);
            match &items[1] {
                Decl::Module { ident, items, .. } => {
                    assert_eq!(ident, "globbed");
                    assert_eq!(items[0], Decl::Glob {
                        vis: Visibility::Restricted { in_token: true, path: rel(&["super", "super", "super"]) },
                        path: rel(&["super"]),
                    });
                }
                other => panic!("unexpected {:?}", other),
            }
        }
        other => panic!("unexpected {:?}", other),
    }
    assert_eq!(decls[1], Decl::Use { vis: pub_super(), path: rel(&["Alias1_mod", "globbed", "Alias1"]), ident: s("Alias1") });
}

#[test]
fn module_holds_exact_then_public() {
    let map = table();
    match with_module(&map, 0) {
        Decl::Module { vis, ident, items } => {
            assert_eq!(vis, Visibility::Inherited);
            assert_eq!(ident, "__telety_alias_map_Item");
            match &items[0] {
                Decl::Module { ident, items, .. } => {
                    assert_eq!(ident, "exact");
                    assert_eq!(items[0], Decl::Glob { vis: pub_super(), path: rel(&["super", "super"]) });
                    // 0 for the primary alias, 2 + 2 + 1 for the secondary ones
                    assert_eq!(items.len(), 1 + 5);
                }
                other => panic!("unexpected {:?}", other),
            }
            // 1 + 3 + 2 + 1
            assert_eq!(items.len(), 1 + 7);
        }
        other => panic!("unexpected {:?}", other),
    }
}

#[test]
fn group_path() {
    let g = Group::new(rel(&["crate", "m"]), s("__telety_alias_map_S"));
    assert_eq!(g.ident(), "__telety_alias_map_S");
    assert_eq!(g.path(), rel(&["crate", "m", "__telety_alias_map_S"]));
}

#[test]
fn alias_paths() {
    let map = table();
    let a = secondary(1, AliasKind::Type);
    let p = a.to_macro_path(&map);
    let names: Vec<String> = p.segments.iter().map(|s| s.ident.clone()).collect();
    assert_eq!(names, vec![s("crate"), s("__telety_alias_map_Item"), s("Alias1")]);
    assert!(p.segments.iter().all(|s| s.arguments == PathArguments::Empty));
    assert_eq!(a.aliased_path(&map), Some(rel(&["a", "Bar"])));
    assert_eq!(a.kind(), AliasKind::Type);
    let primary = Alias { table: 0, index: Index::Primary, kind: AliasKind::Type };
    assert_eq!(primary.aliased_path(&map), Some(rel(&["crate", "Item"])));
    let with_args = a.to_path(
        &map,
        PathArguments::AngleBracketed { colon2: false, args: vec![GenericArgument::Type(Type::Path(type_path(vec![seg("u8")])))] },
    );
    match &with_args.segments[2].arguments {
        PathArguments::AngleBracketed { colon2, args } => {
            assert!(*colon2);
            assert_eq!(args.len(), 1);
        }
        other => panic!("unexpected {:?}", other),
    }
}
