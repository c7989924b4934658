use proc_macro2::{Delimiter as PmDelimiter, Group, Ident, Literal, Punct, Spacing, Span, TokenStream, TokenTree};
use telety::command::{commands, find_command, CommandKind, ExpandError};
use telety::crateify::Decrateify;
use telety::syntax::{
    Field, Fields, GenericArgument, Generics, Item, ItemEnum, ModPath, Path, PathArguments,
    PathSegment, Type, TypePath, Variant, Visibility,
};
use telety::telety::{Options, Telety};
use telety::tokens::{find_and_replace, Delimiter, Tok};

fn to_stream(toks: &[Tok]) -> TokenStream {
    let mut out = TokenStream::new();
    for t in toks {
        let tt: TokenTree = match t {
            Tok::Ident(s) => Ident::new(s, Span::call_site()).into(),
            Tok::Punct(c, joint) => {
                Punct::new(*c, if *joint { Spacing::Joint } else { Spacing::Alone }).into()
            }
            Tok::Literal(s) => s.parse::<Literal>().unwrap().into(),
            Tok::Group(d, inner) => {
                let d = match d {
                    Delimiter::Parenthesis => PmDelimiter::Parenthesis,
                    Delimiter::Brace => PmDelimiter::Brace,
                    Delimiter::Bracket => PmDelimiter::Bracket,
                    Delimiter::Invisible => PmDelimiter::None,
                };
                Group::new(d, to_stream(inner)).into()
            }
        };
        out.extend(std::iter::once(tt));
    }
    out
}

fn id(s: &str) -> Tok {
    Tok::Ident(s.to_string())
}

fn punct(c: char) -> Tok {
    Tok::Punct(c, false)
}

fn paren(v: Vec<Tok>) -> Tok {
    Tok::Group(Delimiter::Parenthesis, v)
}

fn seg(s: &str) -> PathSegment {
    PathSegment { ident: s.to_string(), arguments: PathArguments::Empty }
}

fn ty(names: &[&str]) -> Type {
    Type::Path(TypePath {
        qself: None,
        path: Path { leading_colon: false, segments: names.iter().map(|n| seg(n)).collect() },
    })
}

fn generic_ty(name: &str, arg: Type) -> Type {
    Type::Path(TypePath {
        qself: None,
        path: Path {
            leading_colon: false,
            segments: vec![PathSegment {
                ident: name.to_string(),
                arguments: PathArguments::AngleBracketed {
                    colon2: false,
                    args: vec![GenericArgument::Type(arg)],
                },
            }],
        },
    })
}

fn unnamed(tys: Vec<Type>) -> Fields {
    Fields::Unnamed(tys.into_iter().map(|t| Field { vis: Visibility::Inherited, ident: None, ty: t }).collect())
}

fn variant(name: &str, fields: Fields) -> Variant {
    Variant { ident: name.to_string(), fields, discriminant: None }
}

/// `pub enum MyEnum { A, B(i32), C(i32, i64), D(Box<Self>), E(()), F(Option<u64>), G(std::vec::Vec<u8>) }`
fn my_enum() -> Item {
    Item::Enum(ItemEnum {
        vis: Visibility::Public,
        ident: "MyEnum".to_string(),
        generics: Generics { params: vec![], where_clause: None },
        variants: vec![
            variant("A", Fields::Unit),
            variant("B", unnamed(vec![ty(&["i32"])])),
            variant("C", unnamed(vec![ty(&["i32"]), ty(&["i64"])])),
            variant("D", unnamed(vec![generic_ty("Box", ty(&["Self"]))])),
            variant("E", unnamed(vec![Type::Tuple(vec![])])),
            variant("F", unnamed(vec![generic_ty("Option", ty(&["u64"]))])),
            variant("G", unnamed(vec![Type::Path(TypePath {
                qself: None,
                path: Path {
                    leading_colon: false,
                    segments: vec![
                        seg("std"),
                        seg("vec"),
                        PathSegment {
                            ident: "Vec".to_string(),
                            arguments: PathArguments::AngleBracketed {
                                colon2: false,
                                args: vec![GenericArgument::Type(ty(&["u8"]))],
                            },
                        },
                    ],
                },
            })])),
        ],
    })
}

/// The item as `#[telety(crate::util::types)]` sees it while compiling the crate `commands`.
fn my_enum_telety() -> Telety {
    let mut containing_path = ModPath {
        leading_colon: false,
        idents: vec!["crate".to_string(), "util".to_string(), "types".to_string()],
    };
    Decrateify::new_as_crate("commands".to_string()).apply_mod_path(&mut containing_path);
    let options = Options {
        containing_path,
        telety_path: None,
        macro_ident: None,
        visibility: None,
        proxy: None,
        alias_traits: None,
    };
    match Telety::new_with_options(my_enum(), options, &"commands".to_string()) {
        Ok(t) => t,
        Err(e) => panic!("{}", e.message()),
    }
}

/// Invokes the item's macro as `(version, keyword, __PARAM__, assert_eq!(stringify!(__PARAM__), ...))`
/// and returns what `stringify!` then receives.
fn stringified(version: usize, keyword: &str) -> String {
    let telety = my_enum_telety();
    let haystack = vec![
        id("assert_eq"),
        punct('!'),
        paren(vec![id("stringify"), punct('!'), paren(vec![id("__PARAM__")]), punct(','), Tok::Literal("\"x\"".to_string())]),
        punct(';'),
    ];
    let out = telety.expand(version, &keyword.to_string(), &id("__PARAM__"), &haystack).unwrap();
    match &out[2] {
        Tok::Group(_, inner) => match &inner[2] {
            Tok::Group(_, arg) => to_stream(arg).to_string(),
            other => panic!("unexpected {:?}", other),
        },
        other => panic!("unexpected {:?}", other),
    }
}

#[test]
fn identity() {
    // No substitution should be made
    assert_eq!(stringified(0, "identity"), "__PARAM__");
}

#[test]
fn path() {
    assert_eq!(stringified(0, "path"), ":: commands :: util :: types :: MyEnum");
}

#[test]
fn unique_ident() {
    assert_eq!(stringified(1, "unique_ident"), "commands_util_types_MyEnum");
}

#[test]
fn unknown_command_is_refused() {
    let telety = my_enum_telety();
    let r = telety.expand(0, &"unique_ident".to_string(), &id("N"), &vec![id("N")]);
    assert_eq!(r, Err(ExpandError::UnknownCommand));
    let r = telety.expand(7, &"path".to_string(), &id("N"), &vec![id("N")]);
    assert_eq!(r, Err(ExpandError::UnknownCommand));
}

#[test]
fn definition_command_is_answered_elsewhere() {
    let telety = my_enum_telety();
    let r = telety.expand(1, &"ty".to_string(), &id("N"), &vec![id("N")]);
    assert_eq!(r, Err(ExpandError::NeedsDefinition));
    assert_eq!(telety.command_replacement(CommandKind::Ty, &id("N")), None);
}

#[test]
fn command_table_by_version() {
    let table = commands();
    assert_eq!(table.len(), 4);
    assert_eq!(find_command(0, &"path".to_string()).map(|c| c.kind), Some(CommandKind::Path));
    assert_eq!(find_command(1, &"ty".to_string()).map(|c| c.kind), Some(CommandKind::Ty));
    assert_eq!(find_command(1, &"path".to_string()), None);
    assert_eq!(table[2].keyword(), "unique_ident");
}

#[test]
fn find_and_replace_test() {
    // $, [$dollar], macro_rules! my_macro { ($($tokens:tt)*) => { $($tokens)* }; }
    let dollar = || Tok::Punct('$', false);
    let haystack = vec![
        id("macro_rules"),
        punct('!'),
        id("my_macro"),
        Tok::Group(
            Delimiter::Brace,
            vec![
                paren(vec![dollar(), paren(vec![dollar(), id("tokens"), punct(':'), id("tt")]), punct('*')]),
                Tok::Punct('=', true),
                punct('>'),
                Tok::Group(Delimiter::Brace, vec![dollar(), paren(vec![dollar(), id("tokens")]), punct('*')]),
                punct(';'),
            ],
        ),
    ];
    let replacement = vec![dollar(), id("dollar")];
    let output = find_and_replace(&dollar(), &replacement, &haystack);
    let expected: TokenStream = "macro_rules! my_macro { ($dollar ($dollar tokens:tt)*) => { $dollar ($dollar tokens)* }; }"
        .parse()
        .unwrap();
    assert_eq!(to_stream(&output).to_string(), expected.to_string());
}

#[test]
fn find_and_replace_leaves_other_tokens() {
    let haystack = vec![id("a"), Tok::Literal("1".to_string()), paren(vec![id("b")])];
    let output = find_and_replace(&id("z"), &vec![id("y")], &haystack);
    assert_eq!(output, haystack);
}
