use telety::telety::{find_telety_attribute, AttributeError};
use telety::error::{Error, Kind};
use telety::map::{AliasKind, AliasMap, Index, Module};
use telety::signature::{ArgKind, Signature};
use telety::syntax::{
    Expr, GenericArgument, ModPath, Path, PathArguments, PathSegment, QSelf, Type, TypePath,
    Visibility,
};

fn seg(s: &str) -> PathSegment {
    PathSegment { ident: s.to_string(), arguments: PathArguments::Empty }
}

fn seg_args(s: &str, args: Vec<GenericArgument>) -> PathSegment {
    PathSegment { ident: s.to_string(), arguments: PathArguments::AngleBracketed { colon2: false, args } }
}

fn path(leading_colon: bool, segments: Vec<PathSegment>) -> Path {
    Path { leading_colon, segments }
}

fn type_path(segments: Vec<PathSegment>) -> TypePath {
    TypePath { qself: None, path: path(false, segments) }
}

fn ty(name: &str) -> Type {
    Type::Path(type_path(vec![seg(name)]))
}

fn new_map(alias_traits: Option<bool>) -> AliasMap {
    AliasMap::new_root(
        None,
        ModPath { leading_colon: false, idents: vec!["crate".to_string()] },
        Module::for_item(Visibility::Public, &"Item".to_string()),
        "crate_Item".to_string(),
        alias_traits,
    )
}

#[test]
fn inserting_twice_is_idempotent() {
    let mut map = new_map(None);
    let foo = type_path(vec![seg_args("Foo", vec![GenericArgument::Type(ty("i32"))])]);
    assert_eq!(map.insert_type(0, &foo), Ok(true));
    assert_eq!(map.tables[0].lookup.len(), 1);
    assert_eq!(map.insert_type(0, &foo), Ok(false));
    assert_eq!(map.tables[0].lookup.len(), 1);
}

#[test]
fn self_is_never_inserted() {
    let mut map = new_map(Some(true));
    let self_path = type_path(vec![seg("Self")]);
    assert_eq!(map.insert_type(0, &self_path), Ok(false));
    assert_eq!(map.insert_trait(0, &self_path.path), Ok(false));
    assert_eq!(map.tables[0].lookup.len(), 0);
    let mut map = new_map(None);
    assert_eq!(map.insert_trait(0, &self_path.path), Err(Error::new(Kind::Trait)));
    assert_eq!(map.tables[0].lookup.len(), 0);
}

#[test]
fn same_tokens_collide_and_different_paths_do_not() {
    let foo_i32 = type_path(vec![seg_args("Foo", vec![GenericArgument::Type(ty("i32"))])]);
    let foo_i32_again = type_path(vec![seg_args("Foo", vec![GenericArgument::Type(ty("i32"))])]);
    let bar_i32 = type_path(vec![seg_args("Bar", vec![GenericArgument::Type(ty("i32"))])]);
    let (a, _) = Signature::new(&foo_i32).unwrap();
    let (b, _) = Signature::new(&foo_i32_again).unwrap();
    let (c, _) = Signature::new(&bar_i32).unwrap();
    assert!(a.same_as(&b));
    assert!(!a.same_as(&c));

    let mut map = new_map(None);
    assert_eq!(map.insert_type(0, &foo_i32), Ok(true));
    assert_eq!(map.insert_type(0, &foo_i32_again), Ok(false));
    assert_eq!(map.insert_type(0, &bar_i32), Ok(true));
    assert_eq!(map.tables[0].lookup.len(), 2);
}

#[test]
fn rebinding_gives_the_same_arguments() {
    let foo_x = type_path(vec![seg_args("Foo", vec![GenericArgument::Type(ty("X"))])]);
    let foo_y = type_path(vec![seg_args("Foo", vec![GenericArgument::Type(ty("Y"))])]);
    let (a, args_a) = Signature::new(&foo_x).unwrap();
    let (b, args_b) = Signature::new(&foo_y).unwrap();
    assert!(a.same_as(&b));
    assert_eq!(args_a, args_b);
    assert_eq!(args_a.kinds, vec![ArgKind::Type]);
}

#[test]
fn counts_and_truncated_path() {
    let p = type_path(vec![
        seg("std"),
        seg_args(
            "Thing",
            vec![
                GenericArgument::Lifetime("a".to_string()),
                GenericArgument::Type(ty("T")),
                GenericArgument::Const(Expr::Lit("3".to_string())),
                GenericArgument::Type(ty("U")),
                GenericArgument::AssocType { ident: "Item".to_string(), ty: ty("V") },
            ],
        ),
    ]);
    let (sig, args) = Signature::new(&p).unwrap();
    assert_eq!(sig.lifetime_count, 1);
    assert_eq!(sig.type_count, 2);
    assert_eq!(sig.const_count, 1);
    assert_eq!(sig.idents, vec!["std".to_string(), "Thing".to_string()]);
    assert!(!sig.leading_colon);
    assert_eq!(args.kinds, vec![ArgKind::Lifetime, ArgKind::Type, ArgKind::Const, ArgKind::Type]);
    assert_eq!((args.lifetime_count(), args.type_count(), args.const_count()), (1, 2, 1));
}

#[test]
fn empty_angle_brackets_count_as_no_arguments() {
    let a = type_path(vec![seg_args("Foo", vec![])]);
    let b = type_path(vec![seg("Foo")]);
    let (sa, aa) = Signature::new(&a).unwrap();
    let (sb, _) = Signature::new(&b).unwrap();
    assert!(sa.same_as(&sb));
    assert!(aa.is_empty());
}

#[test]
fn trait_policy() {
    let mut map = new_map(None);
    let debug = path(false, vec![seg("Debug")]);
    assert_eq!(map.insert_trait(0, &debug), Err(Error::new(Kind::Trait)));
    let qualified = path(true, vec![seg("std"), seg("fmt"), seg("Debug")]);
    assert_eq!(map.insert_trait(0, &qualified), Ok(true));
    assert_eq!(map.tables[0].lookup[0].kind, AliasKind::Trait);

    let mut map = new_map(Some(true));
    assert_eq!(map.insert_trait(0, &debug), Ok(true));
    let mut map = new_map(Some(false));
    assert_eq!(map.insert_trait(0, &qualified), Err(Error::new(Kind::Trait)));
}

#[test]
fn associated_types_are_rejected() {
    let inner = type_path(vec![seg_args("a", vec![GenericArgument::Type(ty("T"))]), seg("B")]);
    assert_eq!(Signature::new(&inner).err(), Some(Error::new(Kind::AssociatedType)));
    let qualified = TypePath {
        qself: Some(QSelf { ty: Box::new(ty("T")), position: 1 }),
        path: path(false, vec![seg("Trait"), seg("Item")]),
    };
    assert_eq!(Signature::new(&qualified).err(), Some(Error::new(Kind::AssociatedType)));
    let parenthesized = type_path(vec![PathSegment {
        ident: "Fn".to_string(),
        arguments: PathArguments::Parenthesized { inputs: vec![ty("A")], output: None },
    }]);
    assert_eq!(Signature::new(&parenthesized).err(), Some(Error::new(Kind::AssociatedType)));
    let mut map = new_map(None);
    assert_eq!(map.insert_type(0, &qualified), Err(Error::new(Kind::AssociatedType)));
    assert_eq!(map.insert_type(0, &inner), Err(Error::new(Kind::AssociatedType)));
    assert_eq!(map.tables[0].lookup.len(), 0);
}

#[test]
fn error_messages() {
    assert_eq!(Error::new(Kind::AssociatedType).message(), "Associated types are not supported");
    assert_eq!(Error::new(Kind::Closure).message(), "Closure traits are not supported");
    assert_eq!(Kind::Trait.error().message(), "Unqualified traits cannot be aliased");
}

#[test]
fn child_tables_look_upwards() {
    let mut map = new_map(None);
    let foo = type_path(vec![seg("Foo")]);
    let bar = type_path(vec![seg("Bar")]);
    assert_eq!(map.insert_type(0, &foo), Ok(true));
    let child = map.new_sub_map(0, "inner");
    assert_eq!(child, 1);
    assert_eq!(map.unique_ident(1), "crate_Item__inner");
    assert_eq!(map.module(1).ident(), "__telety_alias_map_Item__inner");
    assert_eq!(map.insert_type(child, &foo), Ok(false));
    assert_eq!(map.insert_type(child, &bar), Ok(true));
    let found = map.get_alias(child, &foo.path).unwrap().unwrap();
    assert_eq!(found.table, 0);
    assert_eq!(found.index, Index::Secondary(0));
    let found = map.get_alias(child, &bar.path).unwrap().unwrap();
    assert_eq!((found.table, found.index), (1, Index::Secondary(0)));
    assert_eq!(map.get_alias(0, &bar.path), Ok(None));
}

#[test]
fn self_resolves_to_the_primary_alias() {
    let mut map = new_map(None);
    assert_eq!(map.get_self(0), None);
    let item = path(false, vec![seg("crate"), seg("Item")]);
    assert_eq!(map.set_self(0, &item), Ok(()));
    let child = map.new_sub_map(0, "x");
    let found = map.get_alias(child, &path(false, vec![seg("Self")])).unwrap().unwrap();
    assert_eq!((found.table, found.index, found.kind), (0, Index::Primary, AliasKind::Type));
}

#[test]
fn aliases_list_primary_first() {
    let mut map = new_map(None);
    assert_eq!(map.insert_type(0, &type_path(vec![seg("A")])), Ok(true));
    assert_eq!(map.insert_type(0, &type_path(vec![seg("B")])), Ok(true));
    assert_eq!(map.set_self(0, &path(false, vec![seg("Item")])), Ok(()));
    let aliases = map.iter_aliases(0);
    let idx: Vec<Index> = aliases.iter().map(|a| a.index).collect();
    assert_eq!(idx, vec![Index::Primary, Index::Secondary(0), Index::Secondary(1)]);
    assert_eq!(Index::Secondary(12).ident(), "Alias12");
    assert_eq!(Index::Primary.ident(), "AliasSelf");
    assert_eq!(Index::Secondary(0).ident_internal(), "Alias0Internal");
}

#[test]
fn the_annotation_is_found_once() {
    let p = |ids: &[&str]| ModPath { leading_colon: false, idents: ids.iter().map(|s| s.to_string()).collect() };
    assert_eq!(find_telety_attribute(&vec![p(&["derive"]), p(&["telety"])]), Ok(1));
    assert_eq!(find_telety_attribute(&vec![p(&["derive"])]), Err(AttributeError::NotFound));
    assert_eq!(find_telety_attribute(&vec![p(&["telety"]), p(&["doc"]), p(&["telety"])]), Err(AttributeError::Duplicate));
    assert_eq!(find_telety_attribute(&vec![p(&["a", "telety"])]), Err(AttributeError::NotFound));
}

#[test]
fn closure_traits_are_rejected() {
    let mut map = new_map(None);
    let fn_trait = path(
        true,
        vec![
            seg("core"),
            seg("ops"),
            PathSegment {
                ident: "Fn".to_string(),
                arguments: PathArguments::Parenthesized { inputs: vec![ty("A")], output: Some(Box::new(ty("B"))) },
            },
        ],
    );
    assert_eq!(map.insert_trait(0, &fn_trait), Err(Error::new(Kind::Closure)));
    assert_eq!(map.tables[0].lookup.len(), 0);
}
