//! Pruning generic parameters down to those a piece of syntax mentions.
//!
//! A reduced alias re-declares only the parameters its aliased type uses. The names a
//! type mentions are collected first; then the parameter list is filtered against them
//! and the where clause dropped, since an alias only renames and needs no bounds.
use vstd::prelude::*;

use crate::syntax::{
    Expr, GenericArgument, GenericParam, Generics, Path, PathArguments, PathSegment, Type,
    TypeParamBound,
};

verus! {

/// A name that a piece of syntax mentions: a lifetime, a bare type identifier, or a
/// bare expression identifier (which may name a const parameter).
pub enum NameUse {
    Lifetime(Seq<char>),
    Type(Seq<char>),
    Const(Seq<char>),
}

/// The identifier of a path that is one bare identifier.
pub open spec fn bare_ident(p: Path) -> Option<Seq<char>> {
    if !p.leading_colon && p.segments@.len() == 1 && p.segments@[0].arguments is Empty {
        Some(p.segments@[0].ident@)
    } else {
        None
    }
}

pub open spec fn opt_lifetime_uses(l: Option<String>) -> Seq<NameUse> {
    match l {
        Some(s) => seq![NameUse::Lifetime(s@)],
        None => Seq::empty(),
    }
}

pub open spec fn own_type_use(tp: crate::syntax::TypePath) -> Seq<NameUse> {
    match bare_ident(tp.path) {
        Some(i) => seq![NameUse::Type(i)],
        None => Seq::empty(),
    }
}

pub open spec fn own_const_use(p: Path) -> Seq<NameUse> {
    match bare_ident(p) {
        Some(i) => seq![NameUse::Const(i)],
        None => Seq::empty(),
    }
}

pub open spec fn type_uses(t: Type) -> Seq<NameUse>
    decreases t,
{
    match t {
        Type::Path(tp) => {
            let q = match tp.qself {
                Some(q) => type_uses(*q.ty),
                None => Seq::empty(),
            };
            own_type_use(tp) + q + segments_uses(tp.path.segments@)
        },
        Type::Reference { lifetime, elem, .. } => opt_lifetime_uses(lifetime) + type_uses(*elem),
        Type::Ptr { elem, .. } => type_uses(*elem),
        Type::Slice(elem) => type_uses(*elem),
        Type::Array { elem, len } => type_uses(*elem) + expr_uses(len),
        Type::Tuple(elems) => types_uses(elems@),
        Type::Paren(elem) => type_uses(*elem),
        Type::TraitObject { bounds, .. } => bounds_uses(bounds@),
        Type::ImplTrait(bounds) => bounds_uses(bounds@),
        _ => Seq::empty(),
    }
}

pub open spec fn arguments_uses(a: PathArguments) -> Seq<NameUse>
    decreases a,
{
    match a {
        PathArguments::Empty => Seq::empty(),
        PathArguments::AngleBracketed { args, .. } => generic_args_uses(args@),
        PathArguments::Parenthesized { inputs, output } => types_uses(inputs@) + match output {
            Some(o) => type_uses(*o),
            None => Seq::empty(),
        },
    }
}

pub open spec fn generic_arg_uses(a: GenericArgument) -> Seq<NameUse>
    decreases a,
{
    match a {
        GenericArgument::Lifetime(l) => seq![NameUse::Lifetime(l@)],
        GenericArgument::Type(t) => type_uses(t),
        GenericArgument::Const(e) => expr_uses(e),
        GenericArgument::AssocType { ty, .. } => type_uses(ty),
        GenericArgument::AssocConst { value, .. } => expr_uses(value),
        GenericArgument::Constraint { bounds, .. } => bounds_uses(bounds@),
    }
}

pub open spec fn expr_uses(e: Expr) -> Seq<NameUse>
    decreases e,
{
    match e {
        Expr::Path(p) => own_const_use(p) + segments_uses(p.segments@),
        _ => Seq::empty(),
    }
}

pub open spec fn lifetimes_uses(s: Seq<String>) -> Seq<NameUse>
    decreases s.len(),
{
    if s.len() == 0 {
        Seq::empty()
    } else {
        lifetimes_uses(s.subrange(0, s.len() - 1)).push(NameUse::Lifetime(s[s.len() - 1]@))
    }
}

pub open spec fn bound_uses(b: TypeParamBound) -> Seq<NameUse>
    decreases b,
{
    match b {
        TypeParamBound::Trait(tb) => lifetimes_uses(tb.lifetimes@) + segments_uses(tb.path.segments@),
        TypeParamBound::Lifetime(l) => seq![NameUse::Lifetime(l@)],
        TypeParamBound::Verbatim(_) => Seq::empty(),
    }
}

pub open spec fn types_uses(s: Seq<Type>) -> Seq<NameUse>
    decreases s,
{
    if s.len() == 0 {
        Seq::empty()
    } else {
        types_uses(s.subrange(0, s.len() - 1)) + type_uses(s[s.len() - 1])
    }
}

pub open spec fn segments_uses(s: Seq<PathSegment>) -> Seq<NameUse>
    decreases s,
{
    if s.len() == 0 {
        Seq::empty()
    } else {
        segments_uses(s.subrange(0, s.len() - 1)) + arguments_uses(s[s.len() - 1].arguments)
    }
}

pub open spec fn generic_args_uses(s: Seq<GenericArgument>) -> Seq<NameUse>
    decreases s,
{
    if s.len() == 0 {
        Seq::empty()
    } else {
        generic_args_uses(s.subrange(0, s.len() - 1)) + generic_arg_uses(s[s.len() - 1])
    }
}

pub open spec fn bounds_uses(s: Seq<TypeParamBound>) -> Seq<NameUse>
    decreases s,
{
    if s.len() == 0 {
        Seq::empty()
    } else {
        bounds_uses(s.subrange(0, s.len() - 1)) + bound_uses(s[s.len() - 1])
    }
}

/// Whether parameter `p` is among the names in `uses`.
pub open spec fn param_used(p: GenericParam, uses: Seq<NameUse>) -> bool {
    match p {
        GenericParam::Lifetime { name, .. } => uses.contains(NameUse::Lifetime(name@)),
        GenericParam::Type { ident, .. } => uses.contains(NameUse::Type(ident@)),
        GenericParam::Const { ident, .. } => uses.contains(NameUse::Const(ident@)),
    }
}

/// The parameters of `ps` that `uses` mentions, in their order.
pub open spec fn kept_params(ps: Seq<GenericParam>, uses: Seq<NameUse>) -> Seq<GenericParam>
    decreases ps.len(),
{
    if ps.len() == 0 {
        Seq::empty()
    } else {
        let init = kept_params(ps.subrange(0, ps.len() - 1), uses);
        if param_used(ps[ps.len() - 1], uses) {
            init.push(ps[ps.len() - 1])
        } else {
            init
        }
    }
}

#[derive(Clone, Copy, Debug, PartialEq, Eq, Structural)]
pub enum UseKind {
    Lifetime,
    Type,
    Const,
}

pub open spec fn name_use(k: UseKind, name: Seq<char>) -> NameUse {
    match k {
        UseKind::Lifetime => NameUse::Lifetime(name),
        UseKind::Type => NameUse::Type(name),
        UseKind::Const => NameUse::Const(name),
    }
}

/// The names that a piece of syntax mentions, collected by the `visit_*` methods.
pub struct UnusedParams {
    pub kinds: Vec<UseKind>,
    pub names: Vec<String>,
}

impl UnusedParams {
    pub open spec fn wf(&self) -> bool {
        self.kinds@.len() == self.names@.len()
    }

    pub open spec fn uses_view(&self) -> Seq<NameUse> {
        Seq::new(self.kinds@.len(), |i: int| name_use(self.kinds@[i], self.names@[i]@))
    }

    pub fn new() -> (r: UnusedParams)
        ensures
            r.wf(),
            r.uses_view() == Seq::<NameUse>::empty(),
    {
        let r = UnusedParams { kinds: Vec::new(), names: Vec::new() };
        assert(r.uses_view() =~= Seq::<NameUse>::empty());
        r
    }

    fn record(&mut self, k: UseKind, name: &String)
        requires
            old(self).wf(),
        ensures
            final(self).wf(),
            final(self).uses_view() == old(self).uses_view().push(name_use(k, name@)),
    {
        self.kinds.push(k);
        self.names.push(name.clone());
        assert(self.uses_view() =~= old(self).uses_view().push(name_use(k, name@)));
    }

    fn bare_ident(p: &Path) -> (r: Option<&String>)
        ensures
            match r {
                Some(s) => bare_ident(*p) == Some(s@),
                None => bare_ident(*p) is None,
            },
    {
        if !p.leading_colon && p.segments.len() == 1 {
            match &p.segments[0].arguments {
                PathArguments::Empty => Some(&p.segments[0].ident),
                _ => None,
            }
        } else {
            None
        }
    }

    /// Collects the names a type mentions.
    pub fn visit_type(&mut self, t: &Type)
        requires
            old(self).wf(),
        ensures
            final(self).wf(),
            final(self).uses_view() == old(self).uses_view() + type_uses(*t),
        decreases *t,
    {
        let ghost u0 = self.uses_view();
        match t {
            Type::Path(tp) => {
                match Self::bare_ident(&tp.path) {
                    Some(i) => self.record(UseKind::Type, i),
                    None => {},
                }
                assert(self.uses_view() =~= u0 + own_type_use(*tp));
                match &tp.qself {
                    Some(q) => self.visit_type(&q.ty),
                    None => {},
                }
                self.visit_segments(&tp.path.segments);
                assert(self.uses_view() =~= u0 + type_uses(*t));
            },
            Type::Reference { lifetime, elem, .. } => {
                match lifetime {
                    Some(l) => self.record(UseKind::Lifetime, l),
                    None => {},
                }
                assert(self.uses_view() =~= u0 + opt_lifetime_uses(*lifetime));
                self.visit_type(elem);
                assert(self.uses_view() =~= u0 + type_uses(*t));
            },
            Type::Ptr { elem, .. } => self.visit_type(elem),
            Type::Slice(elem) => self.visit_type(elem),
            Type::Array { elem, len } => {
                self.visit_type(elem);
                self.visit_expr(len);
                assert(self.uses_view() =~= u0 + type_uses(*t));
            },
            Type::Tuple(elems) => self.visit_types(elems),
            Type::Paren(elem) => self.visit_type(elem),
            Type::TraitObject { bounds, .. } => self.visit_bounds(bounds),
            Type::ImplTrait(bounds) => self.visit_bounds(bounds),
            _ => {
                assert(self.uses_view() =~= u0 + type_uses(*t));
            },
        }
    }

    fn visit_arguments(&mut self, a: &PathArguments)
        requires
            old(self).wf(),
        ensures
            final(self).wf(),
            final(self).uses_view() == old(self).uses_view() + arguments_uses(*a),
        decreases *a,
    {
        let ghost u0 = self.uses_view();
        match a {
            PathArguments::Empty => {
                assert(self.uses_view() =~= u0 + arguments_uses(*a));
            },
            PathArguments::AngleBracketed { args, .. } => self.visit_generic_args(args),
            PathArguments::Parenthesized { inputs, output } => {
                self.visit_types(inputs);
                match output {
                    Some(o) => self.visit_type(o),
                    None => {},
                }
                assert(self.uses_view() =~= u0 + arguments_uses(*a));
            },
        }
    }

    fn visit_generic_arg(&mut self, a: &GenericArgument)
        requires
            old(self).wf(),
        ensures
            final(self).wf(),
            final(self).uses_view() == old(self).uses_view() + generic_arg_uses(*a),
        decreases *a,
    {
        let ghost u0 = self.uses_view();
        match a {
            GenericArgument::Lifetime(l) => {
                self.record(UseKind::Lifetime, l);
                assert(self.uses_view() =~= u0 + generic_arg_uses(*a));
            },
            GenericArgument::Type(t) => self.visit_type(t),
            GenericArgument::Const(e) => self.visit_expr(e),
            GenericArgument::AssocType { ty, .. } => self.visit_type(ty),
            GenericArgument::AssocConst { value, .. } => self.visit_expr(value),
            GenericArgument::Constraint { bounds, .. } => self.visit_bounds(bounds),
        }
    }

    fn visit_expr(&mut self, e: &Expr)
        requires
            old(self).wf(),
        ensures
            final(self).wf(),
            final(self).uses_view() == old(self).uses_view() + expr_uses(*e),
        decreases *e,
    {
        let ghost u0 = self.uses_view();
        match e {
            Expr::Path(p) => {
                match Self::bare_ident(p) {
                    Some(i) => self.record(UseKind::Const, i),
                    None => {},
                }
                assert(self.uses_view() =~= u0 + own_const_use(*p));
                self.visit_segments(&p.segments);
                assert(self.uses_view() =~= u0 + expr_uses(*e));
            },
            _ => {
                assert(self.uses_view() =~= u0 + expr_uses(*e));
            },
        }
    }

    fn visit_lifetimes(&mut self, v: &Vec<String>)
        requires
            old(self).wf(),
        ensures
            final(self).wf(),
            final(self).uses_view() == old(self).uses_view() + lifetimes_uses(v@),
    {
        let ghost u0 = self.uses_view();
        let mut i: usize = 0;
        assert(v@.subrange(0, 0).len() == 0);
        assert(u0 + lifetimes_uses(v@.subrange(0, 0)) =~= u0);
        while i < v.len()
            invariant
                self.wf(),
                i <= v@.len(),
                self.uses_view() == u0 + lifetimes_uses(v@.subrange(0, i as int)),
            decreases v@.len() - i,
        {
            proof {
                assert(v@.subrange(0, i + 1).subrange(0, i as int) =~= v@.subrange(0, i as int));
            }
            self.record(UseKind::Lifetime, &v[i]);
            assert(self.uses_view() =~= u0 + lifetimes_uses(v@.subrange(0, i + 1)));
            i = i + 1;
        }
        assert(v@.subrange(0, v@.len() as int) =~= v@);
    }

    fn visit_bound(&mut self, b: &TypeParamBound)
        requires
            old(self).wf(),
        ensures
            final(self).wf(),
            final(self).uses_view() == old(self).uses_view() + bound_uses(*b),
        decreases *b,
    {
        let ghost u0 = self.uses_view();
        match b {
            TypeParamBound::Trait(tb) => {
                self.visit_lifetimes(&tb.lifetimes);
                self.visit_segments(&tb.path.segments);
                assert(self.uses_view() =~= u0 + bound_uses(*b));
            },
            TypeParamBound::Lifetime(l) => {
                self.record(UseKind::Lifetime, l);
                assert(self.uses_view() =~= u0 + bound_uses(*b));
            },
            TypeParamBound::Verbatim(_) => {
                assert(self.uses_view() =~= u0 + bound_uses(*b));
            },
        }
    }

    fn visit_types(&mut self, v: &Vec<Type>)
        requires
            old(self).wf(),
        ensures
            final(self).wf(),
            final(self).uses_view() == old(self).uses_view() + types_uses(v@),
        decreases *v,
    {
        let ghost u0 = self.uses_view();
        let mut i: usize = 0;
        assert(v@.subrange(0, 0).len() == 0);
        assert(u0 + types_uses(v@.subrange(0, 0)) =~= u0);
        while i < v.len()
            invariant
                self.wf(),
                i <= v@.len(),
                self.uses_view() == u0 + types_uses(v@.subrange(0, i as int)),
            decreases v@.len() - i,
        {
            proof {
                assert(decreases_to!(*v => (*v)@));
                assert(decreases_to!((*v)@ => (*v)@[i as int]));
                assert(v@.subrange(0, i + 1).subrange(0, i as int) =~= v@.subrange(0, i as int));
            }
            self.visit_type(&v[i]);
            proof {
                assert(self.uses_view() =~= u0 + types_uses(v@.subrange(0, i + 1)));
            }
            i = i + 1;
        }
        assert(v@.subrange(0, v@.len() as int) =~= v@);
    }

    fn visit_segments(&mut self, v: &Vec<PathSegment>)
        requires
            old(self).wf(),
        ensures
            final(self).wf(),
            final(self).uses_view() == old(self).uses_view() + segments_uses(v@),
        decreases *v,
    {
        let ghost u0 = self.uses_view();
        let mut i: usize = 0;
        assert(v@.subrange(0, 0).len() == 0);
        assert(u0 + segments_uses(v@.subrange(0, 0)) =~= u0);
        while i < v.len()
            invariant
                self.wf(),
                i <= v@.len(),
                self.uses_view() == u0 + segments_uses(v@.subrange(0, i as int)),
            decreases v@.len() - i,
        {
            proof {
                assert(decreases_to!(*v => (*v)@));
                assert(decreases_to!((*v)@ => (*v)@[i as int]));
                assert(v@.subrange(0, i + 1).subrange(0, i as int) =~= v@.subrange(0, i as int));
            }
            self.visit_arguments(&v[i].arguments);
            proof {
                assert(self.uses_view() =~= u0 + segments_uses(v@.subrange(0, i + 1)));
            }
            i = i + 1;
        }
        assert(v@.subrange(0, v@.len() as int) =~= v@);
    }

    fn visit_generic_args(&mut self, v: &Vec<GenericArgument>)
        requires
            old(self).wf(),
        ensures
            final(self).wf(),
            final(self).uses_view() == old(self).uses_view() + generic_args_uses(v@),
        decreases *v,
    {
        let ghost u0 = self.uses_view();
        let mut i: usize = 0;
        assert(v@.subrange(0, 0).len() == 0);
        assert(u0 + generic_args_uses(v@.subrange(0, 0)) =~= u0);
        while i < v.len()
            invariant
                self.wf(),
                i <= v@.len(),
                self.uses_view() == u0 + generic_args_uses(v@.subrange(0, i as int)),
            decreases v@.len() - i,
        {
            proof {
                assert(decreases_to!(*v => (*v)@));
                assert(decreases_to!((*v)@ => (*v)@[i as int]));
                assert(v@.subrange(0, i + 1).subrange(0, i as int) =~= v@.subrange(0, i as int));
            }
            self.visit_generic_arg(&v[i]);
            proof {
                assert(self.uses_view() =~= u0 + generic_args_uses(v@.subrange(0, i + 1)));
            }
            i = i + 1;
        }
        assert(v@.subrange(0, v@.len() as int) =~= v@);
    }

    fn visit_bounds(&mut self, v: &Vec<TypeParamBound>)
        requires
            old(self).wf(),
        ensures
            final(self).wf(),
            final(self).uses_view() == old(self).uses_view() + bounds_uses(v@),
        decreases *v,
    {
        let ghost u0 = self.uses_view();
        let mut i: usize = 0;
        assert(v@.subrange(0, 0).len() == 0);
        assert(u0 + bounds_uses(v@.subrange(0, 0)) =~= u0);
        while i < v.len()
            invariant
                self.wf(),
                i <= v@.len(),
                self.uses_view() == u0 + bounds_uses(v@.subrange(0, i as int)),
            decreases v@.len() - i,
        {
            proof {
                assert(decreases_to!(*v => (*v)@));
                assert(decreases_to!((*v)@ => (*v)@[i as int]));
                assert(v@.subrange(0, i + 1).subrange(0, i as int) =~= v@.subrange(0, i as int));
            }
            self.visit_bound(&v[i]);
            proof {
                assert(self.uses_view() =~= u0 + bounds_uses(v@.subrange(0, i + 1)));
            }
            i = i + 1;
        }
        assert(v@.subrange(0, v@.len() as int) =~= v@);
    }

    pub fn used(&self, k: UseKind, name: &String) -> (r: bool)
        requires
            self.wf(),
        ensures
            r == self.uses_view().contains(name_use(k, name@)),
    {
        let ghost target = name_use(k, name@);
        let mut i: usize = 0;
        while i < self.kinds.len()
            invariant
                self.wf(),
                i <= self.kinds@.len(),
                target == name_use(k, name@),
                forall|j: int| 0 <= j < i ==> self.uses_view()[j] != target,
            decreases self.kinds@.len() - i,
        {
            assert(self.uses_view()[i as int] == name_use(self.kinds@[i as int], self.names@[i as int]@));
            if self.kinds[i] == k && self.names[i] == *name {
                assert(self.uses_view()[i as int] == target);
                return true;
            }
            assert(self.uses_view()[i as int] != target) by {
                if self.kinds@[i as int] == k {
                    assert(self.names@[i as int]@ != name@);
                }
            }
            i = i + 1;
        }
        false
    }

    /// Keeps only the parameters whose names were collected, in order, and drops the
    /// where clause.
    pub fn remove_unused(&self, generics: &mut Generics)
        requires
            self.wf(),
        ensures
            final(generics).params@ == kept_params(old(generics).params@, self.uses_view()),
            final(generics).where_clause is None,
    {
        let mut rest: Vec<GenericParam> = Vec::new();
        std::mem::swap(&mut rest, &mut generics.params);
        let ghost ps = rest@;
        let mut kept: Vec<GenericParam> = Vec::new();
        let mut i: usize = 0;
        let n = rest.len();
        assert(ps.subrange(0, 0).len() == 0);
        assert(rest@ =~= ps.subrange(0, n as int));
        while i < n
            invariant
                self.wf(),
                n == ps.len(),
                i <= n,
                rest@ == ps.subrange(i as int, n as int),
                kept@ == kept_params(ps.subrange(0, i as int), self.uses_view()),
            decreases n - i,
        {
            let p = rest.remove(0);
            proof {
                assert(ps.subrange(0, i + 1).subrange(0, i as int) =~= ps.subrange(0, i as int));
                assert(p == ps[i as int]);
                assert(rest@ =~= ps.subrange(i + 1, n as int));
            }
            let keep = match &p {
                GenericParam::Lifetime { name, .. } => self.used(UseKind::Lifetime, name),
                GenericParam::Type { ident, .. } => self.used(UseKind::Type, ident),
                GenericParam::Const { ident, .. } => self.used(UseKind::Const, ident),
            };
            if keep {
                kept.push(p);
            }
            i = i + 1;
        }
        assert(ps.subrange(0, n as int) =~= ps);
        generics.params = kept;
        generics.where_clause = None;
    }
}

/// The parameters of `all` that `subtree` mentions, without the where clause.
pub fn prune(all: Generics, subtree: &Type) -> (r: Generics)
    ensures
        r.params@ == kept_params(all.params@, type_uses(*subtree)),
        r.where_clause is None,
{
    let mut u = UnusedParams::new();
    u.visit_type(subtree);
    assert(u.uses_view() =~= type_uses(*subtree));
    let mut g = all;
    u.remove_unused(&mut g);
    g
}


/// `n` is `o` with the bounds of its lifetime and type parameters cleared.
pub open spec fn unbounded(o: GenericParam, n: GenericParam) -> bool {
    match (o, n) {
        (GenericParam::Lifetime { name: a, .. }, GenericParam::Lifetime { name: b, bounds }) => a == b
            && bounds@.len() == 0,
        (GenericParam::Type { ident: a, default: da, .. }, GenericParam::Type { ident: b, bounds, default: db }) => a
            == b && da == db && bounds@.len() == 0,
        (GenericParam::Const { .. }, GenericParam::Const { .. }) => o == n,
        _ => false,
    }
}

/// Clears the bounds of every lifetime and type parameter; const parameters, defaults
/// and the where clause stay.
pub fn remove_generics_bounds(generics: &mut Generics)
    ensures
        final(generics).params@.len() == old(generics).params@.len(),
        forall|i: int|
            0 <= i < old(generics).params@.len() ==> unbounded(
                #[trigger] old(generics).params@[i],
                final(generics).params@[i],
            ),
        final(generics).where_clause == old(generics).where_clause,
{
    let ghost ps = generics.params@;
    let mut i: usize = 0;
    while i < generics.params.len()
        invariant
            ps == old(generics).params@,
            generics.where_clause == old(generics).where_clause,
            generics.params@.len() == ps.len(),
            i <= ps.len(),
            forall|j: int| 0 <= j < i ==> unbounded(#[trigger] ps[j], generics.params@[j]),
            forall|j: int| i <= j < ps.len() ==> #[trigger] generics.params@[j] == ps[j],
        decreases ps.len() - i,
    {
        match &mut generics.params[i] {
            GenericParam::Lifetime { bounds, .. } => {
                *bounds = Vec::new();
            },
            GenericParam::Type { bounds, .. } => {
                *bounds = Vec::new();
            },
            GenericParam::Const { .. } => {},
        }
        i = i + 1;
    }
}

} // verus!
