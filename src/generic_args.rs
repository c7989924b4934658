//! Substituting generic arguments for an item's generic parameters.
//!
//! Given an item's parameters and the arguments it is used with, every use of a
//! parameter in a piece of syntax is replaced by its argument, as if the item were
//! written out for those arguments. A parameter left without an argument takes its
//! default, itself substituted with the bindings made so far; a lifetime parameter
//! without an argument becomes `'_`. A binding set with no bindings makes a plain copy.
use vstd::prelude::*;

use crate::prune::bare_ident;
use crate::syntax::{
    Expr, GenericArgument, GenericParam, Generics, Path, PathArguments, PathSegment, QSelf,
    TraitBound, Type, TypeParamBound, TypePath,
};
use crate::tokens::{copy_toks, toks_view};

verus! {

/// The bindings as plain values: each parameter's name with what replaces it.
pub struct SubstView {
    pub lifetimes: Seq<(Seq<char>, Option<Seq<char>>)>,
    pub types: Seq<(Seq<char>, Type)>,
    pub consts: Seq<(Seq<char>, Expr)>,
}

pub open spec fn no_bindings() -> SubstView {
    SubstView { lifetimes: Seq::empty(), types: Seq::empty(), consts: Seq::empty() }
}

/// 0 for the empty binding set, 1 otherwise; copying a bound value is a step down.
pub open spec fn rank(c: SubstView) -> nat {
    if c.lifetimes.len() == 0 && c.types.len() == 0 && c.consts.len() == 0 {
        0
    } else {
        1
    }
}

/// The last binding of `name` among lifetimes.
pub open spec fn find_lifetime(s: Seq<(Seq<char>, Option<Seq<char>>)>, name: Seq<char>) -> Option<int>
    decreases s.len(),
{
    if s.len() == 0 {
        None
    } else if s[s.len() - 1].0 == name {
        Some(s.len() - 1)
    } else {
        find_lifetime(s.subrange(0, s.len() - 1), name)
    }
}

pub open spec fn find_type(s: Seq<(Seq<char>, Type)>, name: Seq<char>) -> Option<int>
    decreases s.len(),
{
    if s.len() == 0 {
        None
    } else if s[s.len() - 1].0 == name {
        Some(s.len() - 1)
    } else {
        find_type(s.subrange(0, s.len() - 1), name)
    }
}

pub open spec fn find_const(s: Seq<(Seq<char>, Expr)>, name: Seq<char>) -> Option<int>
    decreases s.len(),
{
    if s.len() == 0 {
        None
    } else if s[s.len() - 1].0 == name {
        Some(s.len() - 1)
    } else {
        find_const(s.subrange(0, s.len() - 1), name)
    }
}

/// What a lifetime becomes: its argument, `_` when its parameter had none, or itself.
pub open spec fn subst_lifetime(c: SubstView, l: Seq<char>) -> Seq<char> {
    match find_lifetime(c.lifetimes, l) {
        Some(k) => match c.lifetimes[k].1 {
            Some(x) => x,
            None => "_"@,
        },
        None => l,
    }
}

/// The type parameter a type path stands for, if it is a bound parameter's name.
pub open spec fn type_hit(c: SubstView, tp: TypePath) -> Option<int> {
    if tp.qself is None && bare_ident(tp.path) is Some {
        find_type(c.types, bare_ident(tp.path)->Some_0)
    } else {
        None
    }
}

pub open spec fn const_hit(c: SubstView, p: Path) -> Option<int> {
    if bare_ident(p) is Some {
        find_const(c.consts, bare_ident(p)->Some_0)
    } else {
        None
    }
}

pub open spec fn subst_type(c: SubstView, o: Type, n: Type) -> bool
    decreases rank(c), o,
{
    match o {
        Type::Path(a) => match type_hit(c, a) {
            Some(k) => rank(c) > 0 && subst_type(no_bindings(), c.types[k].1, n),
            None => match n {
                Type::Path(b) => {
                    &&& match (a.qself, b.qself) {
                        (Some(qa), Some(qb)) => qa.position == qb.position && subst_type(c, *qa.ty, *qb.ty),
                        (None, None) => true,
                        _ => false,
                    }
                    &&& b.path.leading_colon == a.path.leading_colon
                    &&& subst_segments(c, a.path.segments@, b.path.segments@)
                },
                _ => false,
            },
        },
        Type::Reference { lifetime: la, mutable: ma, elem: ea } => match n {
            Type::Reference { lifetime: lb, mutable: mb, elem: eb } => ma == mb && match (la, lb) {
                (Some(x), Some(y)) => y@ == subst_lifetime(c, x@),
                (None, None) => true,
                _ => false,
            } && subst_type(c, *ea, *eb),
            _ => false,
        },
        Type::Ptr { mutable: ma, elem: ea } => match n {
            Type::Ptr { mutable: mb, elem: eb } => ma == mb && subst_type(c, *ea, *eb),
            _ => false,
        },
        Type::Slice(ea) => match n {
            Type::Slice(eb) => subst_type(c, *ea, *eb),
            _ => false,
        },
        Type::Array { elem: ea, len: la } => match n {
            Type::Array { elem: eb, len: lb } => subst_type(c, *ea, *eb) && subst_expr(c, la, lb),
            _ => false,
        },
        Type::Tuple(va) => match n {
            Type::Tuple(vb) => subst_types(c, va@, vb@),
            _ => false,
        },
        Type::Paren(ea) => match n {
            Type::Paren(eb) => subst_type(c, *ea, *eb),
            _ => false,
        },
        Type::TraitObject { dyn_token: da, bounds: ba } => match n {
            Type::TraitObject { dyn_token: db, bounds: bb } => da == db && subst_bounds(c, ba@, bb@),
            _ => false,
        },
        Type::ImplTrait(ba) => match n {
            Type::ImplTrait(bb) => subst_bounds(c, ba@, bb@),
            _ => false,
        },
        Type::Never => n is Never,
        Type::Infer => n is Infer,
        Type::Verbatim(ta) => match n {
            Type::Verbatim(tb) => toks_view(ta@) == toks_view(tb@),
            _ => false,
        },
    }
}

pub open spec fn subst_arguments(c: SubstView, o: PathArguments, n: PathArguments) -> bool
    decreases rank(c), o,
{
    match (o, n) {
        (PathArguments::Empty, PathArguments::Empty) => true,
        (
            PathArguments::AngleBracketed { colon2: ca, args: aa },
            PathArguments::AngleBracketed { colon2: cb, args: ab },
        ) => ca == cb && subst_generic_args(c, aa@, ab@),
        (
            PathArguments::Parenthesized { inputs: ia, output: oa },
            PathArguments::Parenthesized { inputs: ib, output: ob },
        ) => subst_types(c, ia@, ib@) && match (oa, ob) {
            (Some(x), Some(y)) => subst_type(c, *x, *y),
            (None, None) => true,
            _ => false,
        },
        _ => false,
    }
}

pub open spec fn subst_generic_arg(c: SubstView, o: GenericArgument, n: GenericArgument) -> bool
    decreases rank(c), o,
{
    match (o, n) {
        (GenericArgument::Lifetime(a), GenericArgument::Lifetime(b)) => b@ == subst_lifetime(c, a@),
        (GenericArgument::Type(a), GenericArgument::Type(b)) => subst_type(c, a, b),
        (GenericArgument::Const(a), GenericArgument::Const(b)) => subst_expr(c, a, b),
        (
            GenericArgument::AssocType { ident: ia, ty: ta },
            GenericArgument::AssocType { ident: ib, ty: tb },
        ) => ia == ib && subst_type(c, ta, tb),
        (
            GenericArgument::AssocConst { ident: ia, value: va },
            GenericArgument::AssocConst { ident: ib, value: vb },
        ) => ia == ib && subst_expr(c, va, vb),
        (
            GenericArgument::Constraint { ident: ia, bounds: ba },
            GenericArgument::Constraint { ident: ib, bounds: bb },
        ) => ia == ib && subst_bounds(c, ba@, bb@),
        _ => false,
    }
}

pub open spec fn subst_expr(c: SubstView, o: Expr, n: Expr) -> bool
    decreases rank(c), o,
{
    match o {
        Expr::Path(a) => match const_hit(c, a) {
            Some(k) => rank(c) > 0 && subst_expr(no_bindings(), c.consts[k].1, n),
            None => match n {
                Expr::Path(b) => a.leading_colon == b.leading_colon && subst_segments(
                    c,
                    a.segments@,
                    b.segments@,
                ),
                _ => false,
            },
        },
        Expr::Lit(a) => n == Expr::Lit(a),
        Expr::Verbatim(ta) => match n {
            Expr::Verbatim(tb) => toks_view(ta@) == toks_view(tb@),
            _ => false,
        },
    }
}

pub open spec fn subst_lifetimes(c: SubstView, o: Seq<String>, n: Seq<String>) -> bool {
    &&& o.len() == n.len()
    &&& forall|i: int| 0 <= i < o.len() ==> (#[trigger] n[i])@ == subst_lifetime(c, o[i]@)
}

pub open spec fn subst_bound(c: SubstView, o: TypeParamBound, n: TypeParamBound) -> bool
    decreases rank(c), o,
{
    match (o, n) {
        (TypeParamBound::Trait(a), TypeParamBound::Trait(b)) => {
            &&& a.maybe == b.maybe
            &&& subst_lifetimes(c, a.lifetimes@, b.lifetimes@)
            &&& a.path.leading_colon == b.path.leading_colon
            &&& subst_segments(c, a.path.segments@, b.path.segments@)
        },
        (TypeParamBound::Lifetime(a), TypeParamBound::Lifetime(b)) => b@ == subst_lifetime(c, a@),
        (TypeParamBound::Verbatim(a), TypeParamBound::Verbatim(b)) => toks_view(a@) == toks_view(b@),
        _ => false,
    }
}

pub open spec fn subst_types(c: SubstView, o: Seq<Type>, n: Seq<Type>) -> bool
    decreases rank(c), o,
{
    &&& o.len() == n.len()
    &&& o.len() > 0 ==> subst_types(c, o.subrange(0, o.len() - 1), n.subrange(0, n.len() - 1))
        && subst_type(c, o[o.len() - 1], n[n.len() - 1])
}

pub open spec fn subst_segments(c: SubstView, o: Seq<PathSegment>, n: Seq<PathSegment>) -> bool
    decreases rank(c), o,
{
    &&& o.len() == n.len()
    &&& o.len() > 0 ==> subst_segments(c, o.subrange(0, o.len() - 1), n.subrange(0, n.len() - 1))
        && n[n.len() - 1].ident == o[o.len() - 1].ident && subst_arguments(c, o[o.len() - 1].arguments, n[n.len() - 1].arguments)
}

pub open spec fn subst_generic_args(c: SubstView, o: Seq<GenericArgument>, n: Seq<GenericArgument>) -> bool
    decreases rank(c), o,
{
    &&& o.len() == n.len()
    &&& o.len() > 0 ==> subst_generic_args(c, o.subrange(0, o.len() - 1), n.subrange(0, n.len() - 1))
        && subst_generic_arg(c, o[o.len() - 1], n[n.len() - 1])
}

pub open spec fn subst_bounds(c: SubstView, o: Seq<TypeParamBound>, n: Seq<TypeParamBound>) -> bool
    decreases rank(c), o,
{
    &&& o.len() == n.len()
    &&& o.len() > 0 ==> subst_bounds(c, o.subrange(0, o.len() - 1), n.subrange(0, n.len() - 1))
        && subst_bound(c, o[o.len() - 1], n[n.len() - 1])
}

/// Bindings of generic parameters, as made by [`ApplyGenericArguments::new`].
pub struct ApplyGenericArguments {
    pub lifetimes: Vec<(String, Option<String>)>,
    pub types: Vec<(String, Type)>,
    pub consts: Vec<(String, Expr)>,
}

impl View for ApplyGenericArguments {
    type V = SubstView;

    open spec fn view(&self) -> SubstView {
        SubstView {
            lifetimes: self.lifetimes@.map_values(
                |b: (String, Option<String>)|
                    (
                        b.0@,
                        match b.1 {
                            Some(x) => Some(x@),
                            None => None,
                        },
                    ),
            ),
            types: self.types@.map_values(|b: (String, Type)| (b.0@, b.1)),
            consts: self.consts@.map_values(|b: (String, Expr)| (b.0@, b.1)),
        }
    }
}

/// Why arguments do not fit an item's parameters.
#[derive(Clone, Copy, Debug, PartialEq, Eq, Structural)]
pub enum ArgumentsError {
    ExpectedType,
    ExpectedConst,
    MissingArgument,
}

pub open spec fn arguments_error_text(e: ArgumentsError) -> Seq<char> {
    match e {
        ArgumentsError::ExpectedType => "Expected a type argument"@,
        ArgumentsError::ExpectedConst => "Expected a const argument"@,
        ArgumentsError::MissingArgument => "Expected an argument for parameter"@,
    }
}

impl ArgumentsError {
    pub fn message(&self) -> (r: String)
        ensures
            r@ == arguments_error_text(*self),
    {
        match self {
            ArgumentsError::ExpectedType => String::from_str("Expected a type argument"),
            ArgumentsError::ExpectedConst => String::from_str("Expected a const argument"),
            ArgumentsError::MissingArgument => String::from_str("Expected an argument for parameter"),
        }
    }
}

/// How many arguments the parameters before position `i` take: a lifetime parameter
/// takes the next argument only if it is a lifetime, any other parameter takes the next
/// argument if there is one.
pub open spec fn consumed(ps: Seq<GenericParam>, args: Seq<GenericArgument>, i: int) -> nat
    decreases i,
{
    if i <= 0 {
        0
    } else {
        let k = consumed(ps, args, i - 1);
        let takes = match ps[i - 1] {
            GenericParam::Lifetime { .. } => k < args.len() && args[k as int] is Lifetime,
            _ => k < args.len(),
        };
        k + if takes {
            1nat
        } else {
            0nat
        }
    }
}

/// The error raised at parameter `i`, if any.
pub open spec fn param_error(ps: Seq<GenericParam>, args: Seq<GenericArgument>, i: int) -> Option<
    ArgumentsError,
> {
    let k = consumed(ps, args, i);
    match ps[i] {
        GenericParam::Lifetime { .. } => None,
        GenericParam::Type { default, .. } => if k < args.len() {
            if args[k as int] is Type {
                None
            } else {
                Some(ArgumentsError::ExpectedType)
            }
        } else if default is Some {
            None
        } else {
            Some(ArgumentsError::MissingArgument)
        },
        GenericParam::Const { default, .. } => if k < args.len() {
            if args[k as int] is Const {
                None
            } else {
                Some(ArgumentsError::ExpectedConst)
            }
        } else if default is Some {
            None
        } else {
            Some(ArgumentsError::MissingArgument)
        },
    }
}

/// The names of the parameters of one kind, in order.
pub open spec fn names_of_kind(ps: Seq<GenericParam>, kind: crate::signature::ArgKind) -> Seq<Seq<char>>
    decreases ps.len(),
{
    if ps.len() == 0 {
        Seq::empty()
    } else {
        let init = names_of_kind(ps.subrange(0, ps.len() - 1), kind);
        match (ps[ps.len() - 1], kind) {
            (GenericParam::Lifetime { name, .. }, crate::signature::ArgKind::Lifetime) => init.push(name@),
            (GenericParam::Type { ident, .. }, crate::signature::ArgKind::Type) => init.push(ident@),
            (GenericParam::Const { ident, .. }, crate::signature::ArgKind::Const) => init.push(ident@),
            _ => init,
        }
    }
}

impl ApplyGenericArguments {
    /// No bindings: substitution is then a copy.
    pub fn empty() -> (r: ApplyGenericArguments)
        ensures
            r@ == no_bindings(),
    {
        let r = ApplyGenericArguments { lifetimes: Vec::new(), types: Vec::new(), consts: Vec::new() };
        assert(r@.lifetimes =~= Seq::<(Seq<char>, Option<Seq<char>>)>::empty());
        assert(r@.types =~= Seq::<(Seq<char>, Type)>::empty());
        assert(r@.consts =~= Seq::<(Seq<char>, Expr)>::empty());
        r
    }

    fn lifetime(&self, l: &String) -> (r: String)
        ensures
            r@ == subst_lifetime(self@, l@),
    {
        let mut i = self.lifetimes.len();
        assert(self@.lifetimes.subrange(0, self@.lifetimes.len() as int) =~= self@.lifetimes);
        while i > 0
            invariant
                i <= self.lifetimes@.len(),
                find_lifetime(self@.lifetimes, l@) == find_lifetime(self@.lifetimes.subrange(0, i as int), l@),
            decreases i,
        {
            let ghost s = self@.lifetimes.subrange(0, i as int);
            assert(s.subrange(0, s.len() - 1) =~= self@.lifetimes.subrange(0, i - 1));
            assert(s[s.len() - 1] == self@.lifetimes[i - 1]);
            if self.lifetimes[i - 1].0 == *l {
                return match &self.lifetimes[i - 1].1 {
                    Some(x) => x.clone(),
                    None => String::from_str("_"),
                };
            }
            i = i - 1;
        }
        assert(self@.lifetimes.subrange(0, 0).len() == 0);
        l.clone()
    }

    fn type_index(&self, tp: &TypePath) -> (r: Option<usize>)
        ensures
            match r {
                Some(k) => type_hit(self@, *tp) == Some(k as int) && k < self.types@.len(),
                None => type_hit(self@, *tp) is None,
            },
    {
        if tp.qself.is_some() || tp.path.leading_colon || tp.path.segments.len() != 1 {
            return None;
        }
        match &tp.path.segments[0].arguments {
            PathArguments::Empty => {},
            _ => return None,
        }
        let name = &tp.path.segments[0].ident;
        let mut i = self.types.len();
        assert(self@.types.subrange(0, self@.types.len() as int) =~= self@.types);
        while i > 0
            invariant
                i <= self.types@.len(),
                tp.qself is None,
                bare_ident(tp.path) == Some(name@),
                find_type(self@.types, name@) == find_type(self@.types.subrange(0, i as int), name@),
            decreases i,
        {
            let ghost s = self@.types.subrange(0, i as int);
            assert(s.subrange(0, s.len() - 1) =~= self@.types.subrange(0, i - 1));
            assert(s[s.len() - 1] == self@.types[i - 1]);
            if self.types[i - 1].0 == *name {
                return Some(i - 1);
            }
            i = i - 1;
        }
        assert(self@.types.subrange(0, 0).len() == 0);
        None
    }

    fn const_index(&self, p: &Path) -> (r: Option<usize>)
        ensures
            match r {
                Some(k) => const_hit(self@, *p) == Some(k as int) && k < self.consts@.len(),
                None => const_hit(self@, *p) is None,
            },
    {
        if p.leading_colon || p.segments.len() != 1 {
            return None;
        }
        match &p.segments[0].arguments {
            PathArguments::Empty => {},
            _ => return None,
        }
        let name = &p.segments[0].ident;
        let mut i = self.consts.len();
        assert(self@.consts.subrange(0, self@.consts.len() as int) =~= self@.consts);
        while i > 0
            invariant
                i <= self.consts@.len(),
                bare_ident(*p) == Some(name@),
                find_const(self@.consts, name@) == find_const(self@.consts.subrange(0, i as int), name@),
            decreases i,
        {
            let ghost s = self@.consts.subrange(0, i as int);
            assert(s.subrange(0, s.len() - 1) =~= self@.consts.subrange(0, i - 1));
            assert(s[s.len() - 1] == self@.consts[i - 1]);
            if self.consts[i - 1].0 == *name {
                return Some(i - 1);
            }
            i = i - 1;
        }
        assert(self@.consts.subrange(0, 0).len() == 0);
        None
    }

    /// The type with every bound parameter replaced (see [`subst_type`]).
    pub fn apply_type(&self, t: &Type) -> (r: Type)
        ensures
            subst_type(self@, *t, r),
        decreases rank(self@), *t,
    {
        match t {
            Type::Path(tp) => match self.type_index(tp) {
                Some(k) => {
                    let e = ApplyGenericArguments::empty();
                    proof {
                        assert(self@.types.len() > 0);
                        assert(self@.types[k as int].1 == self.types@[k as int].1);
                    }
                    e.apply_type(&self.types[k].1)
                },
                None => {
                    let qself = match &tp.qself {
                        Some(q) => Some(QSelf { ty: Box::new(self.apply_type(&q.ty)), position: q.position }),
                        None => None,
                    };
                    let segments = self.apply_segments(&tp.path.segments);
                    Type::Path(TypePath { qself, path: Path { leading_colon: tp.path.leading_colon, segments } })
                },
            },
            Type::Reference { lifetime, mutable, elem } => {
                let lifetime = match lifetime {
                    Some(l) => Some(self.lifetime(l)),
                    None => None,
                };
                Type::Reference { lifetime, mutable: *mutable, elem: Box::new(self.apply_type(elem)) }
            },
            Type::Ptr { mutable, elem } => Type::Ptr { mutable: *mutable, elem: Box::new(self.apply_type(elem)) },
            Type::Slice(elem) => Type::Slice(Box::new(self.apply_type(elem))),
            Type::Array { elem, len } => Type::Array { elem: Box::new(self.apply_type(elem)), len: self.apply_expr(len) },
            Type::Tuple(elems) => Type::Tuple(self.apply_types(elems)),
            Type::Paren(elem) => Type::Paren(Box::new(self.apply_type(elem))),
            Type::TraitObject { dyn_token, bounds } => Type::TraitObject {
                dyn_token: *dyn_token,
                bounds: self.apply_bounds(bounds),
            },
            Type::ImplTrait(bounds) => Type::ImplTrait(self.apply_bounds(bounds)),
            Type::Never => Type::Never,
            Type::Infer => Type::Infer,
            Type::Verbatim(v) => Type::Verbatim(copy_toks(v)),
        }
    }

    fn apply_arguments(&self, a: &PathArguments) -> (r: PathArguments)
        ensures
            subst_arguments(self@, *a, r),
        decreases rank(self@), *a,
    {
        match a {
            PathArguments::Empty => PathArguments::Empty,
            PathArguments::AngleBracketed { colon2, args } => PathArguments::AngleBracketed {
                colon2: *colon2,
                args: self.apply_generic_args(args),
            },
            PathArguments::Parenthesized { inputs, output } => PathArguments::Parenthesized {
                inputs: self.apply_types(inputs),
                output: match output {
                    Some(o) => Some(Box::new(self.apply_type(o))),
                    None => None,
                },
            },
        }
    }

    fn apply_generic_arg(&self, a: &GenericArgument) -> (r: GenericArgument)
        ensures
            subst_generic_arg(self@, *a, r),
        decreases rank(self@), *a,
    {
        match a {
            GenericArgument::Lifetime(l) => GenericArgument::Lifetime(self.lifetime(l)),
            GenericArgument::Type(t) => GenericArgument::Type(self.apply_type(t)),
            GenericArgument::Const(e) => GenericArgument::Const(self.apply_expr(e)),
            GenericArgument::AssocType { ident, ty } => GenericArgument::AssocType {
                ident: ident.clone(),
                ty: self.apply_type(ty),
            },
            GenericArgument::AssocConst { ident, value } => GenericArgument::AssocConst {
                ident: ident.clone(),
                value: self.apply_expr(value),
            },
            GenericArgument::Constraint { ident, bounds } => GenericArgument::Constraint {
                ident: ident.clone(),
                bounds: self.apply_bounds(bounds),
            },
        }
    }

    /// The expression with every bound const parameter replaced.
    pub fn apply_expr(&self, e: &Expr) -> (r: Expr)
        ensures
            subst_expr(self@, *e, r),
        decreases rank(self@), *e,
    {
        match e {
            Expr::Path(p) => match self.const_index(p) {
                Some(k) => {
                    let c = ApplyGenericArguments::empty();
                    proof {
                        assert(self@.consts.len() > 0);
                        assert(self@.consts[k as int].1 == self.consts@[k as int].1);
                    }
                    c.apply_expr(&self.consts[k].1)
                },
                None => Expr::Path(Path { leading_colon: p.leading_colon, segments: self.apply_segments(&p.segments) }),
            },
            Expr::Lit(s) => Expr::Lit(s.clone()),
            Expr::Verbatim(v) => Expr::Verbatim(copy_toks(v)),
        }
    }

    fn apply_lifetimes(&self, v: &Vec<String>) -> (r: Vec<String>)
        ensures
            subst_lifetimes(self@, v@, r@),
    {
        let mut out: Vec<String> = Vec::new();
        let mut i: usize = 0;
        while i < v.len()
            invariant
                i <= v@.len(),
                out@.len() == i,
                forall|j: int| 0 <= j < i ==> (#[trigger] out@[j])@ == subst_lifetime(self@, v@[j]@),
            decreases v@.len() - i,
        {
            out.push(self.lifetime(&v[i]));
            i = i + 1;
        }
        out
    }

    fn apply_bound(&self, b: &TypeParamBound) -> (r: TypeParamBound)
        ensures
            subst_bound(self@, *b, r),
        decreases rank(self@), *b,
    {
        match b {
            TypeParamBound::Trait(tb) => TypeParamBound::Trait(
                TraitBound {
                    maybe: tb.maybe,
                    lifetimes: self.apply_lifetimes(&tb.lifetimes),
                    path: Path {
                        leading_colon: tb.path.leading_colon,
                        segments: self.apply_segments(&tb.path.segments),
                    },
                },
            ),
            TypeParamBound::Lifetime(l) => TypeParamBound::Lifetime(self.lifetime(l)),
            TypeParamBound::Verbatim(v) => TypeParamBound::Verbatim(copy_toks(v)),
        }
    }

    fn apply_types(&self, v: &Vec<Type>) -> (r: Vec<Type>)
        ensures
            subst_types(self@, v@, r@),
        decreases rank(self@), *v,
    {
        let mut out: Vec<Type> = Vec::new();
        let mut i: usize = 0;
        assert(v@.subrange(0, 0).len() == 0 && out@.len() == 0);
        while i < v.len()
            invariant
                i <= v@.len(),
                subst_types(self@, v@.subrange(0, i as int), out@),
            decreases v@.len() - i,
        {
            proof {
                assert(decreases_to!(*v => (*v)@));
                assert(decreases_to!((*v)@ => (*v)@[i as int]));
            }
            let x = self.apply_type(&v[i]);
            let ghost before = out@;
            out.push(x);
            proof {
                assert(out@.subrange(0, out@.len() - 1) =~= before);
                assert(v@.subrange(0, i + 1).subrange(0, i as int) =~= v@.subrange(0, i as int));
                
            }
            i = i + 1;
        }
        assert(v@.subrange(0, v@.len() as int) =~= v@);
        out
    }

    fn apply_segments(&self, v: &Vec<PathSegment>) -> (r: Vec<PathSegment>)
        ensures
            subst_segments(self@, v@, r@),
        decreases rank(self@), *v,
    {
        let mut out: Vec<PathSegment> = Vec::new();
        let mut i: usize = 0;
        assert(v@.subrange(0, 0).len() == 0 && out@.len() == 0);
        while i < v.len()
            invariant
                i <= v@.len(),
                subst_segments(self@, v@.subrange(0, i as int), out@),
            decreases v@.len() - i,
        {
            proof {
                assert(decreases_to!(*v => (*v)@));
                assert(decreases_to!((*v)@ => (*v)@[i as int]));
            }
            let x = PathSegment { ident: v[i].ident.clone(), arguments: self.apply_arguments(&v[i].arguments) };
            let ghost before = out@;
            out.push(x);
            proof {
                assert(out@.subrange(0, out@.len() - 1) =~= before);
                assert(v@.subrange(0, i + 1).subrange(0, i as int) =~= v@.subrange(0, i as int));
                
            }
            i = i + 1;
        }
        assert(v@.subrange(0, v@.len() as int) =~= v@);
        out
    }

    fn apply_generic_args(&self, v: &Vec<GenericArgument>) -> (r: Vec<GenericArgument>)
        ensures
            subst_generic_args(self@, v@, r@),
        decreases rank(self@), *v,
    {
        let mut out: Vec<GenericArgument> = Vec::new();
        let mut i: usize = 0;
        assert(v@.subrange(0, 0).len() == 0 && out@.len() == 0);
        while i < v.len()
            invariant
                i <= v@.len(),
                subst_generic_args(self@, v@.subrange(0, i as int), out@),
            decreases v@.len() - i,
        {
            proof {
                assert(decreases_to!(*v => (*v)@));
                assert(decreases_to!((*v)@ => (*v)@[i as int]));
            }
            let x = self.apply_generic_arg(&v[i]);
            let ghost before = out@;
            out.push(x);
            proof {
                assert(out@.subrange(0, out@.len() - 1) =~= before);
                assert(v@.subrange(0, i + 1).subrange(0, i as int) =~= v@.subrange(0, i as int));
                
            }
            i = i + 1;
        }
        assert(v@.subrange(0, v@.len() as int) =~= v@);
        out
    }

    fn apply_bounds(&self, v: &Vec<TypeParamBound>) -> (r: Vec<TypeParamBound>)
        ensures
            subst_bounds(self@, v@, r@),
        decreases rank(self@), *v,
    {
        let mut out: Vec<TypeParamBound> = Vec::new();
        let mut i: usize = 0;
        assert(v@.subrange(0, 0).len() == 0 && out@.len() == 0);
        while i < v.len()
            invariant
                i <= v@.len(),
                subst_bounds(self@, v@.subrange(0, i as int), out@),
            decreases v@.len() - i,
        {
            proof {
                assert(decreases_to!(*v => (*v)@));
                assert(decreases_to!((*v)@ => (*v)@[i as int]));
            }
            let x = self.apply_bound(&v[i]);
            let ghost before = out@;
            out.push(x);
            proof {
                assert(out@.subrange(0, out@.len() - 1) =~= before);
                assert(v@.subrange(0, i + 1).subrange(0, i as int) =~= v@.subrange(0, i as int));
                
            }
            i = i + 1;
        }
        assert(v@.subrange(0, v@.len() as int) =~= v@);
        out
    }

    /// Binds the parameters of `params` to `args` in order: a lifetime parameter takes
    /// the next argument if it is a lifetime, a type or const parameter takes the next
    /// argument, which must be of its kind, or else its default, substituted with the
    /// bindings made before it. The first parameter that cannot be bound gives the error.
    pub fn new(params: &Generics, args: &Vec<GenericArgument>) -> (r: Result<ApplyGenericArguments, ArgumentsError>)
        ensures
            match r {
                Err(e) => exists|i: int|
                    0 <= i < params.params@.len() && param_error(params.params@, args@, i) == Some(e)
                        && forall|j: int| 0 <= j < i ==> param_error(params.params@, args@, j) is None,
                Ok(b) => {
                    &&& forall|i: int|
                        0 <= i < params.params@.len() ==> param_error(params.params@, args@, i) is None
                    &&& b@.lifetimes.map_values(|x: (Seq<char>, Option<Seq<char>>)| x.0) == names_of_kind(
                        params.params@,
                        crate::signature::ArgKind::Lifetime,
                    )
                    &&& b@.types.map_values(|x: (Seq<char>, Type)| x.0) == names_of_kind(
                        params.params@,
                        crate::signature::ArgKind::Type,
                    )
                    &&& b@.consts.map_values(|x: (Seq<char>, Expr)| x.0) == names_of_kind(
                        params.params@,
                        crate::signature::ArgKind::Const,
                    )
                },
            },
    {
        let ghost ps = params.params@;
        let mut b = ApplyGenericArguments::empty();
        let mut k: usize = 0;
        let mut i: usize = 0;
        proof {
            assert(ps.subrange(0, 0).len() == 0);
            assert(b@.lifetimes.map_values(|x: (Seq<char>, Option<Seq<char>>)| x.0) =~= names_of_kind(ps.subrange(0, 0), crate::signature::ArgKind::Lifetime));
            assert(b@.types.map_values(|x: (Seq<char>, Type)| x.0) =~= names_of_kind(ps.subrange(0, 0), crate::signature::ArgKind::Type));
            assert(b@.consts.map_values(|x: (Seq<char>, Expr)| x.0) =~= names_of_kind(ps.subrange(0, 0), crate::signature::ArgKind::Const));
        }
        while i < params.params.len()
            invariant
                ps == params.params@,
                i <= ps.len(),
                k == consumed(ps, args@, i as int),
                k <= args@.len(),
                forall|j: int| 0 <= j < i ==> param_error(ps, args@, j) is None,
                b@.lifetimes.map_values(|x: (Seq<char>, Option<Seq<char>>)| x.0) == names_of_kind(
                    ps.subrange(0, i as int),
                    crate::signature::ArgKind::Lifetime,
                ),
                b@.types.map_values(|x: (Seq<char>, Type)| x.0) == names_of_kind(
                    ps.subrange(0, i as int),
                    crate::signature::ArgKind::Type,
                ),
                b@.consts.map_values(|x: (Seq<char>, Expr)| x.0) == names_of_kind(
                    ps.subrange(0, i as int),
                    crate::signature::ArgKind::Const,
                ),
            decreases ps.len() - i,
        {
            proof {
                assert(ps.subrange(0, i + 1).subrange(0, i as int) =~= ps.subrange(0, i as int));
            }
            let ghost lt0 = b@.lifetimes;
            let ghost ty0 = b@.types;
            let ghost co0 = b@.consts;
            match &params.params[i] {
                GenericParam::Lifetime { name, .. } => {
                    let bound = if k < args.len() {
                        match &args[k] {
                            GenericArgument::Lifetime(l) => Some(l.clone()),
                            _ => None,
                        }
                    } else {
                        None
                    };
                    if bound.is_some() {
                        k = k + 1;
                    }
                    b.lifetimes.push((name.clone(), bound));
                    proof {
                        assert(b@.lifetimes =~= lt0.push(b@.lifetimes.last()));
                        assert(b@.types =~= ty0);
                        assert(b@.consts =~= co0);
                        assert(b@.lifetimes.map_values(|x: (Seq<char>, Option<Seq<char>>)| x.0) =~= names_of_kind(
                            ps.subrange(0, i + 1),
                            crate::signature::ArgKind::Lifetime,
                        ));
                    }
                },
                GenericParam::Type { ident, default, .. } => {
                    let value = if k < args.len() {
                        match &args[k] {
                            GenericArgument::Type(t) => {
                                let e = ApplyGenericArguments::empty();
                                e.apply_type(t)
                            },
                            _ => {
                                assert(param_error(ps, args@, i as int) == Some(ArgumentsError::ExpectedType));
                                return Err(ArgumentsError::ExpectedType);
                            },
                        }
                    } else {
                        match default {
                            Some(d) => b.apply_type(d),
                            None => {
                                assert(param_error(ps, args@, i as int) == Some(ArgumentsError::MissingArgument));
                                return Err(ArgumentsError::MissingArgument);
                            },
                        }
                    };
                    if k < args.len() {
                        k = k + 1;
                    }
                    b.types.push((ident.clone(), value));
                    proof {
                        assert(b@.types =~= ty0.push(b@.types.last()));
                        assert(b@.lifetimes =~= lt0);
                        assert(b@.consts =~= co0);
                        assert(b@.types.map_values(|x: (Seq<char>, Type)| x.0) =~= names_of_kind(
                            ps.subrange(0, i + 1),
                            crate::signature::ArgKind::Type,
                        ));
                    }
                },
                GenericParam::Const { ident, default, .. } => {
                    let value = if k < args.len() {
                        match &args[k] {
                            GenericArgument::Const(c) => {
                                let e = ApplyGenericArguments::empty();
                                e.apply_expr(c)
                            },
                            _ => {
                                assert(param_error(ps, args@, i as int) == Some(ArgumentsError::ExpectedConst));
                                return Err(ArgumentsError::ExpectedConst);
                            },
                        }
                    } else {
                        match default {
                            Some(d) => b.apply_expr(d),
                            None => {
                                assert(param_error(ps, args@, i as int) == Some(ArgumentsError::MissingArgument));
                                return Err(ArgumentsError::MissingArgument);
                            },
                        }
                    };
                    if k < args.len() {
                        k = k + 1;
                    }
                    b.consts.push((ident.clone(), value));
                    proof {
                        assert(b@.consts =~= co0.push(b@.consts.last()));
                        assert(b@.lifetimes =~= lt0);
                        assert(b@.types =~= ty0);
                        assert(b@.consts.map_values(|x: (Seq<char>, Expr)| x.0) =~= names_of_kind(
                            ps.subrange(0, i + 1),
                            crate::signature::ArgKind::Const,
                        ));
                    }
                },
            }
            i = i + 1;
        }
        assert(ps.subrange(0, ps.len() as int) =~= ps);
        Ok(b)
    }
}

/// The bindings that rename the anonymous lifetime `'_` to `'__anon`.
pub open spec fn placeholder_bindings() -> SubstView {
    SubstView {
        lifetimes: seq![("_"@, Some("__anon"@))],
        types: Seq::empty(),
        consts: Seq::empty(),
    }
}

/// Gives the anonymous lifetime `'_` a name, so that it can be declared as a parameter.
pub struct ReplaceLifetimePlaceholder {
    /// The name given, once an anonymous lifetime was met.
    pub anonymous: Option<String>,
}

impl ReplaceLifetimePlaceholder {
    pub fn new() -> (r: ReplaceLifetimePlaceholder)
        ensures
            r.anonymous is None,
    {
        ReplaceLifetimePlaceholder { anonymous: None }
    }

    pub fn anonymous_lifetime(&self) -> (r: Option<&String>)
        ensures
            match r {
                Some(s) => self.anonymous == Some(*s),
                None => self.anonymous is None,
            },
    {
        match &self.anonymous {
            Some(s) => Some(s),
            None => None,
        }
    }

    /// `t` with every `'_` written `'__anon`; records the name if `t` had one.
    pub fn replace_in_type(&mut self, t: &Type) -> (r: Type)
        requires
            old(self).anonymous matches Some(s) ==> s@ == "__anon"@,
        ensures
            subst_type(placeholder_bindings(), *t, r),
            final(self).anonymous is Some <==> (old(self).anonymous is Some || crate::prune::type_uses(
                *t,
            ).contains(crate::prune::NameUse::Lifetime("_"@))),
            final(self).anonymous matches Some(s) ==> s@ == "__anon"@,
    {
        let mut b = ApplyGenericArguments::empty();
        b.lifetimes.push((String::from_str("_"), Some(String::from_str("__anon"))));
        assert(b@.lifetimes =~= placeholder_bindings().lifetimes);
        assert(b@.types =~= placeholder_bindings().types);
        assert(b@.consts =~= placeholder_bindings().consts);
        let r = b.apply_type(t);
        let mut uses = crate::prune::UnusedParams::new();
        uses.visit_type(t);
        assert(uses.uses_view() =~= crate::prune::type_uses(*t));
        if uses.used(crate::prune::UseKind::Lifetime, &String::from_str("_")) {
            self.anonymous = Some(String::from_str("__anon"));
        }
        r
    }
}

/// Pruning with the anonymous lifetime taken into account: `'_` in `subtree` is named
/// `'__anon` first and, if there was one, declared in front of `all`'s parameters; then
/// the parameters are pruned against the renamed subtree.
pub fn prune_with_placeholder(all: Generics, subtree: &Type) -> (r: (Generics, Type))
    ensures
        subst_type(placeholder_bindings(), *subtree, r.1),
        r.0.where_clause is None,
        crate::prune::type_uses(*subtree).contains(crate::prune::NameUse::Lifetime("_"@)) ==> exists|
            p: GenericParam,
        |
            (p matches GenericParam::Lifetime { name, .. } && name@ == "__anon"@) && r.0.params@
                == crate::prune::kept_params(seq![p] + all.params@, crate::prune::type_uses(r.1)),
        !crate::prune::type_uses(*subtree).contains(crate::prune::NameUse::Lifetime("_"@)) ==> r.0.params@
            == crate::prune::kept_params(all.params@, crate::prune::type_uses(r.1)),
{
    let mut rl = ReplaceLifetimePlaceholder::new();
    let renamed = rl.replace_in_type(subtree);
    let mut g = all;
    let ghost orig = g.params@;
    if rl.anonymous.is_some() {
        g.params.insert(0, GenericParam::Lifetime { name: String::from_str("__anon"), bounds: Vec::new() });
    }
    let ghost extended = g.params@;
    let pruned = crate::prune::prune(g, &renamed);
    proof {
        if rl.anonymous is Some {
            assert(extended =~= seq![extended[0]] + orig);
            assert(extended[0] matches GenericParam::Lifetime { name, .. } && name@ == "__anon"@);
        }
    }
    (pruned, renamed)
}

/// Why [`crate::telety::Telety::generics_visitor`] gives no bindings.
#[derive(Clone, Copy, Debug, PartialEq, Eq, Structural)]
pub enum GenericsError {
    /// The item's kind has no generic parameters.
    NoGenerics,
    Arguments(ArgumentsError),
}

impl crate::telety::Telety {
    /// Bindings of the item's generic parameters to `args`, to substitute them as if the
    /// item were written out for those arguments.
    pub fn generics_visitor(&self, args: &Vec<GenericArgument>) -> (r: Result<ApplyGenericArguments, GenericsError>)
        ensures
            crate::syntax::item_generics(self.item) is None ==> r == Err::<ApplyGenericArguments, _>(
                GenericsError::NoGenerics,
            ),
            r matches Err(GenericsError::Arguments(e)) ==> crate::syntax::item_generics(self.item) is Some,
            crate::syntax::item_generics(self.item) matches Some(g) ==> (r is Ok <==> forall|i: int|
                0 <= i < g.params@.len() ==> param_error(g.params@, args@, i) is None),
    {
        match self.item.generics() {
            None => Err(GenericsError::NoGenerics),
            Some(g) => match ApplyGenericArguments::new(g, args) {
                Ok(b) => Ok(b),
                Err(e) => Err(GenericsError::Arguments(e)),
            },
        }
    }
}

} // verus!
