use telety::generic_args::{prune_with_placeholder, ApplyGenericArguments, ArgumentsError, ReplaceLifetimePlaceholder};
use telety::prune::remove_generics_bounds;
use telety::syntax::{
    Expr, GenericArgument, GenericParam, Generics, Path, PathArguments, PathSegment, TraitBound, Type,
    TypeParamBound, TypePath,
};

fn seg(x: &str) -> PathSegment {
    PathSegment { ident: x.to_string(), arguments: PathArguments::Empty }
}

fn ty(x: &str) -> Type {
    Type::Path(TypePath { qself: None, path: Path { leading_colon: false, segments: vec![seg(x)] } })
}

fn generic_ty(name: &str, args: Vec<GenericArgument>) -> Type {
    Type::Path(TypePath {
        qself: None,
        path: Path {
            leading_colon: false,
            segments: vec![PathSegment { ident: name.to_string(), arguments: PathArguments::AngleBracketed { colon2: false, args } }],
        },
    })
}

fn type_param(name: &str, default: Option<Type>) -> GenericParam {
    GenericParam::Type { ident: name.to_string(), bounds: vec![], default }
}

#[test]
fn defaults_follow_earlier_arguments() {
    // struct S<T, U, V = T>, with the arguments [i32, u64]
    let params = Generics {
        params: vec![type_param("T", None), type_param("U", None), type_param("V", Some(ty("T")))],
        where_clause: None,
    };
    let args = vec![GenericArgument::Type(ty("i32")), GenericArgument::Type(ty("u64"))];
    let b = ApplyGenericArguments::new(&params, &args).ok().unwrap();
    let subject = Type::Tuple(vec![ty("T"), ty("U"), ty("V"), generic_ty("Vec", vec![GenericArgument::Type(ty("T"))])]);
    let out = b.apply_type(&subject);
    assert_eq!(out, Type::Tuple(vec![ty("i32"), ty("u64"), ty("i32"), generic_ty("Vec", vec![GenericArgument::Type(ty("i32"))])]));
}

#[test]
fn lifetimes_and_consts_are_substituted() {
    let params = Generics {
        params: vec![
            GenericParam::Lifetime { name: "a".to_string(), bounds: vec![] },
            GenericParam::Lifetime { name: "b".to_string(), bounds: vec![] },
            GenericParam::Const { ident: "N".to_string(), ty: ty("usize"), default: None },
        ],
        where_clause: None,
    };
    let args = vec![GenericArgument::Lifetime("static".to_string()), GenericArgument::Const(Expr::Lit("4".to_string()))];
    let b = ApplyGenericArguments::new(&params, &args).ok().unwrap();
    let n = Expr::Path(Path { leading_colon: false, segments: vec![seg("N")] });
    let subject = Type::Reference {
        lifetime: Some("a".to_string()),
        mutable: false,
        elem: Box::new(Type::Reference {
            lifetime: Some("b".to_string()),
            mutable: true,
            elem: Box::new(Type::Array { elem: Box::new(ty("u8")), len: n }),
        }),
    };
    let out = b.apply_type(&subject);
    assert_eq!(
        out,
        Type::Reference {
            lifetime: Some("static".to_string()),
            mutable: false,
            elem: Box::new(Type::Reference {
                lifetime: Some("_".to_string()),
                mutable: true,
                elem: Box::new(Type::Array { elem: Box::new(ty("u8")), len: Expr::Lit("4".to_string()) }),
            }),
        }
    );
}

#[test]
fn argument_errors() {
    let params = Generics { params: vec![type_param("T", None)], where_clause: None };
    let r = ApplyGenericArguments::new(&params, &vec![]);
    assert_eq!(r.err().map(|e| e.message()), Some("Expected an argument for parameter".to_string()));
    let r = ApplyGenericArguments::new(&params, &vec![GenericArgument::Const(Expr::Lit("1".to_string()))]);
    assert_eq!(r.err(), Some(ArgumentsError::ExpectedType));
    let consts = Generics {
        params: vec![GenericParam::Const { ident: "N".to_string(), ty: ty("usize"), default: None }],
        where_clause: None,
    };
    let r = ApplyGenericArguments::new(&consts, &vec![GenericArgument::Type(ty("u8"))]);
    assert_eq!(r.err(), Some(ArgumentsError::ExpectedConst));
}

#[test]
fn empty_bindings_copy() {
    let t = generic_ty("Option", vec![GenericArgument::Type(ty("T"))]);
    assert_eq!(ApplyGenericArguments::empty().apply_type(&t), t);
}

#[test]
fn anonymous_lifetime_is_named_and_declared() {
    let subject = Type::Reference { lifetime: Some("_".to_string()), mutable: false, elem: Box::new(ty("A")) };
    let mut r = ReplaceLifetimePlaceholder::new();
    let renamed = r.replace_in_type(&subject);
    assert_eq!(r.anonymous_lifetime(), Some(&"__anon".to_string()));
    assert_eq!(renamed, Type::Reference { lifetime: Some("__anon".to_string()), mutable: false, elem: Box::new(ty("A")) });

    let all = Generics { params: vec![type_param("A", None), type_param("B", None)], where_clause: None };
    let (g, t) = prune_with_placeholder(all, &subject);
    assert_eq!(t, renamed);
    assert_eq!(
        g.params,
        vec![GenericParam::Lifetime { name: "__anon".to_string(), bounds: vec![] }, type_param("A", None)]
    );
    let mut untouched = ReplaceLifetimePlaceholder::new();
    let _ = untouched.replace_in_type(&ty("A"));
    assert_eq!(untouched.anonymous_lifetime(), None);
}

#[test]
fn bounds_are_removed() {
    let mut g = Generics {
        params: vec![
            GenericParam::Lifetime { name: "a".to_string(), bounds: vec!["b".to_string()] },
            GenericParam::Type {
                ident: "T".to_string(),
                bounds: vec![TypeParamBound::Trait(TraitBound {
                    maybe: false,
                    lifetimes: vec![],
                    path: Path { leading_colon: false, segments: vec![seg("Clone")] },
                })],
                default: Some(ty("u8")),
            },
        ],
        where_clause: None,
    };
    remove_generics_bounds(&mut g);
    assert_eq!(
        g.params,
        vec![
            GenericParam::Lifetime { name: "a".to_string(), bounds: vec![] },
            GenericParam::Type { ident: "T".to_string(), bounds: vec![], default: Some(ty("u8")) },
        ]
    );
}
