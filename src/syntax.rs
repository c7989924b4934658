//! A plain-value model of the Rust syntax that alias discovery and rewriting read.
//!
//! Identifiers are held as their text. Constructs whose inside the alias logic never
//! looks at are kept as a verbatim token list, so that they survive a rewrite unchanged.
use vstd::prelude::*;

use crate::tokens::Tok;

verus! {

/// A path such as `::std::vec::Vec<u8>`.
#[derive(Debug, PartialEq, Eq)]
pub struct Path {
    pub leading_colon: bool,
    pub segments: Vec<PathSegment>,
}

/// One `::`-separated part of a [`Path`], with the generic arguments it carries.
#[derive(Debug, PartialEq, Eq)]
pub struct PathSegment {
    pub ident: String,
    pub arguments: PathArguments,
}

#[derive(Debug, PartialEq, Eq)]
pub enum PathArguments {
    Empty,
    /// `<'a, T, N, Item = U>`; `colon2` is true for the turbofish form `::<...>`.
    AngleBracketed { colon2: bool, args: Vec<GenericArgument> },
    /// `(A, B) -> C`, as in `Fn(A, B) -> C`.
    Parenthesized { inputs: Vec<Type>, output: Option<Box<Type>> },
}

#[derive(Debug, PartialEq, Eq)]
pub enum GenericArgument {
    /// A lifetime, held without its apostrophe.
    Lifetime(String),
    Type(Type),
    Const(Expr),
    AssocType { ident: String, ty: Type },
    AssocConst { ident: String, value: Expr },
    Constraint { ident: String, bounds: Vec<TypeParamBound> },
}

/// The `<T as Trait>` prefix of a qualified path.
#[derive(Debug, PartialEq, Eq)]
pub struct QSelf {
    pub ty: Box<Type>,
    /// How many leading segments of the path belong to the trait.
    pub position: usize,
}

#[derive(Debug, PartialEq, Eq)]
pub struct TypePath {
    pub qself: Option<QSelf>,
    pub path: Path,
}

#[derive(Debug, PartialEq, Eq)]
pub enum Type {
    Path(TypePath),
    /// `&'a mut T`; the lifetime is held without its apostrophe.
    Reference { lifetime: Option<String>, mutable: bool, elem: Box<Type> },
    Ptr { mutable: bool, elem: Box<Type> },
    Slice(Box<Type>),
    Array { elem: Box<Type>, len: Expr },
    Tuple(Vec<Type>),
    Paren(Box<Type>),
    TraitObject { dyn_token: bool, bounds: Vec<TypeParamBound> },
    ImplTrait(Vec<TypeParamBound>),
    Never,
    Infer,
    /// Any other type (function pointers, macros), kept as tokens and not looked into.
    Verbatim(Vec<Tok>),
}

#[derive(Debug, PartialEq, Eq)]
pub enum Expr {
    Path(Path),
    Lit(String),
    Verbatim(Vec<Tok>),
}

/// A trait in bound position, such as `?Sized` or `for<'a> Fn(&'a T)`.
#[derive(Debug, PartialEq, Eq)]
pub struct TraitBound {
    pub maybe: bool,
    pub lifetimes: Vec<String>,
    pub path: Path,
}

#[derive(Debug, PartialEq, Eq)]
pub enum TypeParamBound {
    Trait(TraitBound),
    Lifetime(String),
    Verbatim(Vec<Tok>),
}

#[allow(inconsistent_fields)]
#[derive(Debug, PartialEq, Eq)]
pub enum GenericParam {
    Lifetime { name: String, bounds: Vec<String> },
    Type { ident: String, bounds: Vec<TypeParamBound>, default: Option<Type> },
    Const { ident: String, ty: Type, default: Option<Expr> },
}

#[allow(inconsistent_fields)]
#[derive(Debug, PartialEq, Eq)]
pub enum WherePredicate {
    Type { lifetimes: Vec<String>, bounded_ty: Type, bounds: Vec<TypeParamBound> },
    Lifetime { lifetime: String, bounds: Vec<String> },
}

#[derive(Debug, PartialEq, Eq)]
pub struct Generics {
    pub params: Vec<GenericParam>,
    pub where_clause: Option<Vec<WherePredicate>>,
}

/// A path made of identifiers alone, such as a module path `crate::a::b`.
#[derive(Debug, PartialEq, Eq)]
pub struct ModPath {
    pub leading_colon: bool,
    pub idents: Vec<String>,
}

/// The text of each identifier in a list.
pub open spec fn texts(v: Seq<String>) -> Seq<Seq<char>> {
    v.map_values(|s: String| s@)
}

pub struct ModPathView {
    pub leading_colon: bool,
    pub idents: Seq<Seq<char>>,
}

impl View for ModPath {
    type V = ModPathView;

    open spec fn view(&self) -> ModPathView {
        ModPathView { leading_colon: self.leading_colon, idents: texts(self.idents@) }
    }
}

/// Copies a list of identifiers.
pub fn copy_strings(v: &Vec<String>) -> (r: Vec<String>)
    ensures
        texts(r@) == texts(v@),
        r@.len() == v@.len(),
        forall|i: int| 0 <= i < v@.len() ==> #[trigger] r@[i]@ == v@[i]@,
{
    let mut r: Vec<String> = Vec::new();
    let mut i: usize = 0;
    while i < v.len()
        invariant
            i <= v@.len(),
            r@.len() == i,
            forall|j: int| 0 <= j < i ==> #[trigger] r@[j]@ == v@[j]@,
        decreases v@.len() - i,
    {
        r.push(v[i].clone());
        i = i + 1;
    }
    assert(texts(r@) =~= texts(v@));
    r
}

impl ModPath {
    pub fn copy(&self) -> (r: ModPath)
        ensures
            r@ == self@,
    {
        ModPath { leading_colon: self.leading_colon, idents: copy_strings(&self.idents) }
    }
}

#[derive(Debug, PartialEq, Eq)]
pub enum Visibility {
    Public,
    /// `pub(crate)`, `pub(self)`, `pub(super)` or `pub(in path)`.
    Restricted { in_token: bool, path: ModPath },
    Inherited,
}

pub enum VisibilityView {
    Public,
    Restricted { in_token: bool, path: ModPathView },
    Inherited,
}

impl View for Visibility {
    type V = VisibilityView;

    open spec fn view(&self) -> VisibilityView {
        match self {
            Visibility::Public => VisibilityView::Public,
            Visibility::Restricted { in_token, path } => VisibilityView::Restricted {
                in_token: *in_token,
                path: path@,
            },
            Visibility::Inherited => VisibilityView::Inherited,
        }
    }
}

impl Visibility {
    pub fn copy(&self) -> (r: Visibility)
        ensures
            r@ == self@,
    {
        match self {
            Visibility::Public => Visibility::Public,
            Visibility::Restricted { in_token, path } => Visibility::Restricted {
                in_token: *in_token,
                path: path.copy(),
            },
            Visibility::Inherited => Visibility::Inherited,
        }
    }
}

#[derive(Debug, PartialEq, Eq)]
pub struct Field {
    pub vis: Visibility,
    pub ident: Option<String>,
    pub ty: Type,
}

#[derive(Debug, PartialEq, Eq)]
pub enum Fields {
    Named(Vec<Field>),
    Unnamed(Vec<Field>),
    Unit,
}

#[derive(Debug, PartialEq, Eq)]
pub struct Variant {
    pub ident: String,
    pub fields: Fields,
    pub discriminant: Option<Expr>,
}

/// A parameter of a function signature; receivers are `Receiver`.
#[derive(Debug, PartialEq, Eq)]
pub enum FnArg {
    Receiver(Option<Type>),
    Typed(Type),
}

#[allow(inconsistent_fields)]
#[derive(Debug, PartialEq, Eq)]
pub enum TraitItem {
    Fn { ident: String, generics: Generics, inputs: Vec<FnArg>, output: Option<Type> },
    Type { ident: String, generics: Generics, bounds: Vec<TypeParamBound>, default: Option<Type> },
    Const { ident: String, ty: Type, default: Option<Expr> },
    Verbatim(Vec<Tok>),
}

#[derive(Debug, PartialEq, Eq)]
pub struct ItemStruct {
    pub vis: Visibility,
    pub ident: String,
    pub generics: Generics,
    pub fields: Fields,
}

#[derive(Debug, PartialEq, Eq)]
pub struct ItemEnum {
    pub vis: Visibility,
    pub ident: String,
    pub generics: Generics,
    pub variants: Vec<Variant>,
}

#[derive(Debug, PartialEq, Eq)]
pub struct ItemUnion {
    pub vis: Visibility,
    pub ident: String,
    pub generics: Generics,
    pub fields: Vec<Field>,
}

#[derive(Debug, PartialEq, Eq)]
pub struct ItemTrait {
    pub vis: Visibility,
    pub ident: String,
    pub generics: Generics,
    pub supertraits: Vec<TypeParamBound>,
    pub items: Vec<TraitItem>,
}

/// Any item that is not a struct, enum, union or trait, described by what the
/// library reads of it.
#[derive(Debug, PartialEq, Eq)]
pub struct ItemOther {
    pub vis: Option<Visibility>,
    pub ident: Option<IdentData>,
    pub generics: Option<Generics>,
}

#[derive(Debug, PartialEq, Eq)]
pub enum Item {
    Struct(ItemStruct),
    Enum(ItemEnum),
    Union(ItemUnion),
    Trait(ItemTrait),
    Other(ItemOther),
}

/// The namespaces an item's name occupies.
#[derive(Clone, Copy, Debug, PartialEq, Eq, Structural)]
pub struct Namespaces {
    pub type_ns: bool,
    pub value_ns: bool,
    pub macro_ns: bool,
}

/// An item's name together with the namespaces it is declared in.
#[derive(Debug, PartialEq, Eq)]
pub struct IdentData {
    pub ident: String,
    pub namespaces: Namespaces,
}

impl IdentData {
    pub fn new(ident: String, namespaces: Namespaces) -> (r: Self)
        ensures
            r.ident == ident,
            r.namespaces == namespaces,
    {
        IdentData { ident, namespaces }
    }
}

/// True when `s` is the text `Self`.
pub open spec fn is_self_text(s: Seq<char>) -> bool {
    s == "Self"@
}

/// A path written as the single bare identifier `id`, with no `::` prefix and no arguments.
pub open spec fn is_ident_spec(p: Path, id: Seq<char>) -> bool {
    &&& !p.leading_colon
    &&& p.segments@.len() == 1
    &&& p.segments@[0].arguments is Empty
    &&& p.segments@[0].ident@ == id
}

/// Compares a string with the text `Self`.
pub fn is_self_str(s: &String) -> (r: bool)
    ensures
        r == is_self_text(s@),
{
    proof {
        reveal_strlit("Self");
    }
    let t = s.as_str();
    if t.unicode_len() != 4 {
        return false;
    }
    assert(t@.len() == 4);
    let r = t.get_char(0) == 'S' && t.get_char(1) == 'e' && t.get_char(2) == 'l' && t.get_char(3) == 'f';
    proof {
        reveal_strlit("Self");
    }
    assert(r ==> t@ =~= "Self"@);
    assert(!r ==> t@ != "Self"@) by {
        if !r && t@ == "Self"@ {
            assert(t@[0] == 'S' && t@[1] == 'e' && t@[2] == 'l' && t@[3] == 'f');
        }
    }
    r
}

impl Path {
    /// True when the path is the bare identifier `Self`.
    pub fn is_self(&self) -> (r: bool)
        ensures
            r == is_ident_spec(*self, "Self"@),
    {
        if self.leading_colon || self.segments.len() != 1 {
            return false;
        }
        match &self.segments[0].arguments {
            PathArguments::Empty => is_self_str(&self.segments[0].ident),
            _ => false,
        }
    }
}


/// The name of an item and the namespaces it occupies, if it has a name.
pub open spec fn item_ident(i: Item) -> Option<(Seq<char>, Namespaces)> {
    match i {
        Item::Struct(s) => Some(
            (
                s.ident@,
                Namespaces { type_ns: true, value_ns: s.fields is Unit, macro_ns: false },
            ),
        ),
        Item::Enum(e) => Some((e.ident@, Namespaces { type_ns: true, value_ns: false, macro_ns: false })),
        Item::Union(u) => Some((u.ident@, Namespaces { type_ns: true, value_ns: false, macro_ns: false })),
        Item::Trait(t) => Some((t.ident@, Namespaces { type_ns: true, value_ns: false, macro_ns: false })),
        Item::Other(o) => match o.ident {
            Some(d) => Some((d.ident@, d.namespaces)),
            None => None,
        },
    }
}

/// The visibility written on an item, if its kind has one.
pub open spec fn item_vis(i: Item) -> Option<VisibilityView> {
    match i {
        Item::Struct(s) => Some(s.vis@),
        Item::Enum(e) => Some(e.vis@),
        Item::Union(u) => Some(u.vis@),
        Item::Trait(t) => Some(t.vis@),
        Item::Other(o) => match o.vis {
            Some(v) => Some(v@),
            None => None,
        },
    }
}

/// The generics of an item, if its kind has them.
pub open spec fn item_generics(i: Item) -> Option<Generics> {
    match i {
        Item::Struct(s) => Some(s.generics),
        Item::Enum(e) => Some(e.generics),
        Item::Union(u) => Some(u.generics),
        Item::Trait(t) => Some(t.generics),
        Item::Other(o) => o.generics,
    }
}

impl Item {
    /// The item's name, if it has one.
    pub fn ident(&self) -> (r: Option<&String>)
        ensures
            match r {
                Some(s) => item_ident(*self) is Some && s@ == item_ident(*self)->Some_0.0,
                None => item_ident(*self) is None,
            },
    {
        match self {
            Item::Struct(s) => Some(&s.ident),
            Item::Enum(e) => Some(&e.ident),
            Item::Union(u) => Some(&u.ident),
            Item::Trait(t) => Some(&t.ident),
            Item::Other(o) => match &o.ident {
                Some(d) => Some(&d.ident),
                None => None,
            },
        }
    }

    /// The namespaces of the item's name, if it has one.
    pub fn namespaces(&self) -> (r: Option<Namespaces>)
        ensures
            match r {
                Some(n) => item_ident(*self) is Some && n == item_ident(*self)->Some_0.1,
                None => item_ident(*self) is None,
            },
    {
        match self {
            Item::Struct(s) => Some(
                Namespaces {
                    type_ns: true,
                    value_ns: match s.fields {
                        Fields::Unit => true,
                        _ => false,
                    },
                    macro_ns: false,
                },
            ),
            Item::Enum(_) => Some(Namespaces { type_ns: true, value_ns: false, macro_ns: false }),
            Item::Union(_) => Some(Namespaces { type_ns: true, value_ns: false, macro_ns: false }),
            Item::Trait(_) => Some(Namespaces { type_ns: true, value_ns: false, macro_ns: false }),
            Item::Other(o) => match &o.ident {
                Some(d) => Some(d.namespaces),
                None => None,
            },
        }
    }

    pub fn vis(&self) -> (r: Option<&Visibility>)
        ensures
            match r {
                Some(v) => item_vis(*self) == Some(v@),
                None => item_vis(*self) is None,
            },
    {
        match self {
            Item::Struct(s) => Some(&s.vis),
            Item::Enum(e) => Some(&e.vis),
            Item::Union(u) => Some(&u.vis),
            Item::Trait(t) => Some(&t.vis),
            Item::Other(o) => match &o.vis {
                Some(v) => Some(v),
                None => None,
            },
        }
    }

    pub fn generics(&self) -> (r: Option<&Generics>)
        ensures
            match r {
                Some(g) => item_generics(*self) == Some(*g),
                None => item_generics(*self) is None,
            },
    {
        match self {
            Item::Struct(s) => Some(&s.generics),
            Item::Enum(e) => Some(&e.generics),
            Item::Union(u) => Some(&u.generics),
            Item::Trait(t) => Some(&t.generics),
            Item::Other(o) => match &o.generics {
                Some(g) => Some(g),
                None => None,
            },
        }
    }
}

} // verus!
