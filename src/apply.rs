//! Rewriting syntax so that it names types through their aliases.
//!
//! A type path that resolves in the table is replaced by the alias's global path,
//! keeping its generic arguments as a turbofish; `Self` is replaced by the primary
//! alias, carrying the item's own parameters. A replaced path is not looked into again.
//! Every other node is kept and its children are rewritten in turn.
use vstd::prelude::*;

use crate::map::{chain_lookup, index_text, Alias, AliasMap, Index};
use crate::signature::normalize_spec;
use crate::syntax::{
    is_ident_spec, texts, Expr, GenericArgument, GenericParam, Generics, Path, PathArguments,
    PathSegment, Type, TypeParamBound, TypePath,
};
use crate::telety::{generic_params_to_arguments, names_param};

verus! {

/// The identifiers of an alias's global path: the map's path, the table's module, then
/// the slot's identifier.
pub open spec fn alias_idents(m: AliasMap, a: Alias) -> Seq<Seq<char>> {
    texts(m.root.map_path.idents@) + seq![m.tables@[a.table as int].module.ident@, index_text(a.index)]
}

/// `p` is the global path of alias `a` in all but the arguments of its last segment,
/// which carries none before it.
pub open spec fn alias_head(m: AliasMap, a: Alias, p: Path) -> bool {
    let ids = alias_idents(m, a);
    &&& p.leading_colon == m.root.map_path.leading_colon
    &&& p.segments@.len() == ids.len()
    &&& forall|i: int| 0 <= i < ids.len() ==> #[trigger] p.segments@[i].ident@ == ids[i]
    &&& forall|i: int| 0 <= i < ids.len() - 1 ==> #[trigger] p.segments@[i].arguments is Empty
}

/// The arguments of a path's last segment; none for a path with no segments.
pub open spec fn last_arguments(p: Path) -> PathArguments {
    if p.segments@.len() > 0 {
        p.segments@[p.segments@.len() - 1].arguments
    } else {
        PathArguments::Empty
    }
}

/// Angle-bracketed arguments in turbofish form; other arguments as they are.
pub open spec fn turbofish(a: PathArguments) -> PathArguments {
    match a {
        PathArguments::AngleBracketed { args, .. } => PathArguments::AngleBracketed {
            colon2: true,
            args,
        },
        _ => a,
    }
}

/// `a` names the parameters `ps` one by one, in turbofish form.
pub open spec fn self_arguments(a: PathArguments, ps: Seq<GenericParam>) -> bool {
    match a {
        PathArguments::AngleBracketed { colon2, args } => colon2 && args@.len() == ps.len() && forall|
            i: int,
        |
            0 <= i < ps.len() ==> names_param(#[trigger] args@[i], ps[i]),
        _ => false,
    }
}

impl Alias {
    /// The alias's global path with no arguments; also the path of the macro that
    /// stands beside it.
    pub fn to_macro_path(&self, map: &AliasMap) -> (r: Path)
        requires
            self.table < map.tables@.len(),
        ensures
            alias_head(*map, *self, r),
            last_arguments(r) is Empty,
    {
        self.to_path(map, PathArguments::Empty)
    }

    /// The alias's global path, with `args` on its last segment in turbofish form.
    pub fn to_path(&self, map: &AliasMap, args: PathArguments) -> (r: Path)
        requires
            self.table < map.tables@.len(),
        ensures
            alias_head(*map, *self, r),
            last_arguments(r) == turbofish(args),
    {
        let mp = &map.root.map_path;
        let mut segments: Vec<PathSegment> = Vec::new();
        let mut i: usize = 0;
        while i < mp.idents.len()
            invariant
                i <= mp.idents@.len(),
                segments@.len() == i,
                forall|j: int|
                    0 <= j < i ==> (#[trigger] segments@[j]).ident@ == mp.idents@[j]@
                        && segments@[j].arguments is Empty,
            decreases mp.idents@.len() - i,
        {
            segments.push(PathSegment { ident: mp.idents[i].clone(), arguments: PathArguments::Empty });
            i = i + 1;
        }
        segments.push(
            PathSegment {
                ident: map.tables[self.table].module.ident.clone(),
                arguments: PathArguments::Empty,
            },
        );
        let args = match args {
            PathArguments::AngleBracketed { args, .. } => PathArguments::AngleBracketed {
                colon2: true,
                args,
            },
            other => other,
        };
        segments.push(PathSegment { ident: self.index.ident(), arguments: args });
        let r = Path { leading_colon: mp.leading_colon, segments };
        proof {
            let ids = alias_idents(*map, *self);
            assert forall|j: int| 0 <= j < ids.len() implies #[trigger] r.segments@[j].ident@
                == ids[j] by {
                if j < mp.idents@.len() {
                    assert(texts(mp.idents@)[j] == mp.idents@[j]@);
                }
            }
        }
        r
    }

    /// The aliased path itself, without arguments.
    pub fn aliased_path(&self, map: &AliasMap) -> (r: Option<crate::syntax::ModPath>)
        requires
            self.table < map.tables@.len(),
        ensures
            match self.index {
                Index::Primary => match map.tables@[self.table as int].primary {
                    Some(p) => r matches Some(q) && q@.leading_colon == p.0@.leading_colon
                        && q@.idents == p.0@.idents,
                    None => r is None,
                },
                Index::Secondary(j) => if j < map.tables@[self.table as int].lookup@.len() {
                    r matches Some(q) && q@.leading_colon
                        == map.tables@[self.table as int].lookup@[j as int].sig@.leading_colon
                        && q@.idents == map.tables@[self.table as int].lookup@[j as int].sig@.idents
                } else {
                    r is None
                },
            },
    {
        let tb = &map.tables[self.table];
        match self.index {
            Index::Primary => match &tb.primary {
                Some(p) => Some(
                    crate::syntax::ModPath {
                        leading_colon: p.0.leading_colon,
                        idents: crate::syntax::copy_strings(&p.0.idents),
                    },
                ),
                None => None,
            },
            Index::Secondary(j) => {
                if j < tb.lookup.len() {
                    let s = &tb.lookup[j].sig;
                    Some(
                        crate::syntax::ModPath {
                            leading_colon: s.leading_colon,
                            idents: crate::syntax::copy_strings(&s.idents),
                        },
                    )
                } else {
                    None
                }
            },
        }
    }

    pub fn kind(&self) -> (r: crate::map::AliasKind)
        ensures
            r == self.kind,
    {
        self.kind
    }
}

/// Which rewrites a pass makes.
#[derive(Clone, Copy, Debug, PartialEq, Eq, Structural)]
pub struct ApplyAliases {
    /// Rewrite type paths and trait bounds that have a secondary alias.
    pub apply_free_types: bool,
    /// Rewrite `Self` to the primary alias.
    pub apply_associated_types: bool,
}

/// Everything a rewrite depends on: the table, where to look, what to rewrite, and the
/// item's parameters that `Self` carries.
pub struct ApplyCtx {
    pub map: AliasMap,
    pub t: int,
    pub flags: ApplyAliases,
    pub self_params: Seq<GenericParam>,
}

/// The alias that replaces a type path, if any.
pub open spec fn type_path_target(c: ApplyCtx, tp: TypePath) -> Option<Alias> {
    if tp.qself is None && is_ident_spec(tp.path, "Self"@) {
        if c.flags.apply_associated_types {
            c.map.get_self_spec(c.t)
        } else {
            None
        }
    } else if c.flags.apply_free_types && tp.qself is None {
        path_target(c, tp.path)
    } else {
        None
    }
}

/// The secondary alias found for a path, if it normalizes and is filed along the chain.
pub open spec fn path_target(c: ApplyCtx, p: Path) -> Option<Alias> {
    if normalize_spec(p) is Ok {
        match chain_lookup(c.map.tables@, c.t, normalize_spec(p)->Ok_0.0) {
            Some((a, j)) => Some(
                Alias {
                    table: a as usize,
                    index: Index::Secondary(j as usize),
                    kind: c.map.tables@[a].lookup@[j].kind,
                },
            ),
            None => None,
        }
    } else {
        None
    }
}

/// The alias that replaces a trait bound's path, if any.
pub open spec fn bound_target(c: ApplyCtx, p: Path) -> Option<Alias> {
    if c.flags.apply_free_types && !is_ident_spec(p, "Self"@) {
        path_target(c, p)
    } else {
        None
    }
}

/// `n` is `o` with the path replaced by alias `a`, keeping `o`'s last arguments.
pub open spec fn replaced(c: ApplyCtx, a: Alias, o: Path, n: Path) -> bool {
    &&& alias_head(c.map, a, n)
    &&& if a.index is Primary {
        self_arguments(last_arguments(n), c.self_params)
    } else {
        last_arguments(n) == turbofish(last_arguments(o))
    }
}

pub open spec fn rewrote_type(c: ApplyCtx, o: Type, n: Type) -> bool
    decreases o,
{
    match (o, n) {
        (Type::Path(a), Type::Path(b)) => match type_path_target(c, a) {
            Some(al) => b.qself is None && replaced(c, al, a.path, b.path),
            None => {
                &&& match (a.qself, b.qself) {
                    (Some(qa), Some(qb)) => qa.position == qb.position && rewrote_type(c, *qa.ty, *qb.ty),
                    (None, None) => true,
                    _ => false,
                }
                &&& b.path.leading_colon == a.path.leading_colon
                &&& rewrote_segments(c, a.path.segments@, b.path.segments@)
            },
        },
        (
            Type::Reference { lifetime: la, mutable: ma, elem: ea },
            Type::Reference { lifetime: lb, mutable: mb, elem: eb },
        ) => la == lb && ma == mb && rewrote_type(c, *ea, *eb),
        (Type::Ptr { mutable: ma, elem: ea }, Type::Ptr { mutable: mb, elem: eb }) => ma == mb
            && rewrote_type(c, *ea, *eb),
        (Type::Slice(ea), Type::Slice(eb)) => rewrote_type(c, *ea, *eb),
        (Type::Array { elem: ea, len: la }, Type::Array { elem: eb, len: lb }) => rewrote_type(
            c,
            *ea,
            *eb,
        ) && rewrote_expr(c, la, lb),
        (Type::Tuple(va), Type::Tuple(vb)) => rewrote_types(c, va@, vb@),
        (Type::Paren(ea), Type::Paren(eb)) => rewrote_type(c, *ea, *eb),
        (Type::TraitObject { dyn_token: da, bounds: ba }, Type::TraitObject { dyn_token: db, bounds: bb }) => da
            == db && rewrote_bounds(c, ba@, bb@),
        (Type::ImplTrait(ba), Type::ImplTrait(bb)) => rewrote_bounds(c, ba@, bb@),
        (Type::Never, Type::Never) => true,
        (Type::Infer, Type::Infer) => true,
        (Type::Verbatim(ta), Type::Verbatim(tb)) => ta == tb,
        _ => false,
    }
}

pub open spec fn rewrote_types(c: ApplyCtx, o: Seq<Type>, n: Seq<Type>) -> bool
    decreases o,
{
    &&& o.len() == n.len()
    &&& o.len() > 0 ==> rewrote_types(c, o.subrange(0, o.len() - 1), n.subrange(0, n.len() - 1))
        && rewrote_type(c, o[o.len() - 1], n[n.len() - 1])
}

pub open spec fn rewrote_segments(c: ApplyCtx, o: Seq<PathSegment>, n: Seq<PathSegment>) -> bool
    decreases o,
{
    &&& o.len() == n.len()
    &&& o.len() > 0 ==> rewrote_segments(c, o.subrange(0, o.len() - 1), n.subrange(0, n.len() - 1))
        && n[n.len() - 1].ident == o[o.len() - 1].ident && rewrote_arguments(
        c,
        o[o.len() - 1].arguments,
        n[n.len() - 1].arguments,
    )
}

pub open spec fn rewrote_arguments(c: ApplyCtx, o: PathArguments, n: PathArguments) -> bool
    decreases o,
{
    match (o, n) {
        (PathArguments::Empty, PathArguments::Empty) => true,
        (
            PathArguments::AngleBracketed { colon2: ca, args: aa },
            PathArguments::AngleBracketed { colon2: cb, args: ab },
        ) => ca == cb && rewrote_generic_args(c, aa@, ab@),
        (
            PathArguments::Parenthesized { inputs: ia, output: oa },
            PathArguments::Parenthesized { inputs: ib, output: ob },
        ) => rewrote_types(c, ia@, ib@) && match (oa, ob) {
            (Some(x), Some(y)) => rewrote_type(c, *x, *y),
            (None, None) => true,
            _ => false,
        },
        _ => false,
    }
}

pub open spec fn rewrote_generic_args(c: ApplyCtx, o: Seq<GenericArgument>, n: Seq<GenericArgument>) -> bool
    decreases o,
{
    &&& o.len() == n.len()
    &&& o.len() > 0 ==> rewrote_generic_args(
        c,
        o.subrange(0, o.len() - 1),
        n.subrange(0, n.len() - 1),
    ) && rewrote_generic_arg(c, o[o.len() - 1], n[n.len() - 1])
}

pub open spec fn rewrote_generic_arg(c: ApplyCtx, o: GenericArgument, n: GenericArgument) -> bool
    decreases o,
{
    match (o, n) {
        (GenericArgument::Lifetime(a), GenericArgument::Lifetime(b)) => a == b,
        (GenericArgument::Type(a), GenericArgument::Type(b)) => rewrote_type(c, a, b),
        (GenericArgument::Const(a), GenericArgument::Const(b)) => rewrote_expr(c, a, b),
        (
            GenericArgument::AssocType { ident: ia, ty: ta },
            GenericArgument::AssocType { ident: ib, ty: tb },
        ) => ia == ib && rewrote_type(c, ta, tb),
        (
            GenericArgument::AssocConst { ident: ia, value: va },
            GenericArgument::AssocConst { ident: ib, value: vb },
        ) => ia == ib && rewrote_expr(c, va, vb),
        (
            GenericArgument::Constraint { ident: ia, bounds: ba },
            GenericArgument::Constraint { ident: ib, bounds: bb },
        ) => ia == ib && rewrote_bounds(c, ba@, bb@),
        _ => false,
    }
}

pub open spec fn rewrote_expr(c: ApplyCtx, o: Expr, n: Expr) -> bool
    decreases o,
{
    match (o, n) {
        (Expr::Path(a), Expr::Path(b)) => a.leading_colon == b.leading_colon && rewrote_segments(
            c,
            a.segments@,
            b.segments@,
        ),
        (Expr::Lit(a), Expr::Lit(b)) => a == b,
        (Expr::Verbatim(a), Expr::Verbatim(b)) => a == b,
        _ => false,
    }
}

pub open spec fn rewrote_bounds(c: ApplyCtx, o: Seq<TypeParamBound>, n: Seq<TypeParamBound>) -> bool
    decreases o,
{
    &&& o.len() == n.len()
    &&& o.len() > 0 ==> rewrote_bounds(c, o.subrange(0, o.len() - 1), n.subrange(0, n.len() - 1))
        && rewrote_bound(c, o[o.len() - 1], n[n.len() - 1])
}

pub open spec fn rewrote_bound(c: ApplyCtx, o: TypeParamBound, n: TypeParamBound) -> bool
    decreases o,
{
    match (o, n) {
        (TypeParamBound::Trait(a), TypeParamBound::Trait(b)) => {
            &&& a.maybe == b.maybe
            &&& a.lifetimes == b.lifetimes
            &&& match bound_target(c, a.path) {
                Some(al) => replaced(c, al, a.path, b.path),
                None => a.path.leading_colon == b.path.leading_colon && rewrote_segments(
                    c,
                    a.path.segments@,
                    b.path.segments@,
                ),
            }
        },
        (TypeParamBound::Lifetime(a), TypeParamBound::Lifetime(b)) => a == b,
        (TypeParamBound::Verbatim(a), TypeParamBound::Verbatim(b)) => a == b,
        _ => false,
    }
}


/// The rewrite context of a pass over table `t` of `m`, `Self` carrying the parameters
/// of `g`.
pub open spec fn ctx(m: AliasMap, t: int, f: ApplyAliases, g: Generics) -> ApplyCtx {
    ApplyCtx { map: m, t, flags: f, self_params: g.params@ }
}

impl ApplyAliases {
    /// A pass that makes every rewrite.
    pub fn new() -> (r: ApplyAliases)
        ensures
            r.apply_free_types,
            r.apply_associated_types,
    {
        ApplyAliases { apply_free_types: true, apply_associated_types: true }
    }

    pub fn set_apply_free_types(&mut self, apply_free_types: bool)
        ensures
            final(self).apply_free_types == apply_free_types,
            final(self).apply_associated_types == old(self).apply_associated_types,
    {
        self.apply_free_types = apply_free_types;
    }

    pub fn set_apply_associated_types(&mut self, apply_associated_types: bool)
        ensures
            final(self).apply_associated_types == apply_associated_types,
            final(self).apply_free_types == old(self).apply_free_types,
    {
        self.apply_associated_types = apply_associated_types;
    }

    fn path_target(&self, map: &AliasMap, t: usize, g: &Generics, p: &Path) -> (r: Option<Alias>)
        requires
            map.wf(),
            t < map.tables@.len(),
        ensures
            r == path_target(ctx(*map, t as int, *self, *g), *p),
            r matches Some(a) ==> a.table < map.tables@.len(),
    {
        match map.full_lookup(t, p) {
            Ok(Some(a)) => Some(a),
            _ => None,
        }
    }

    fn type_path_target(&self, map: &AliasMap, t: usize, g: &Generics, tp: &TypePath) -> (r: Option<Alias>)
        requires
            map.wf(),
            t < map.tables@.len(),
        ensures
            r == type_path_target(ctx(*map, t as int, *self, *g), *tp),
            r matches Some(a) ==> a.table < map.tables@.len(),
    {
        if tp.qself.is_none() && tp.path.is_self() {
            if self.apply_associated_types {
                map.get_self(t)
            } else {
                None
            }
        } else if self.apply_free_types && tp.qself.is_none() {
            self.path_target(map, t, g, &tp.path)
        } else {
            None
        }
    }

    /// Replaces `p` by the path of alias `a`, moving `p`'s last arguments over, or, for
    /// the primary alias, giving it the parameters of `g`.
    fn replace_path(&self, map: &AliasMap, g: &Generics, a: Alias, p: &mut Path)
        requires
            a.table < map.tables@.len(),
        ensures
            replaced(ctx(*map, 0, *self, *g), a, *old(p), *final(p)),
    {
        match a.index {
            Index::Primary => {
                let args = PathArguments::AngleBracketed {
                    colon2: true,
                    args: generic_params_to_arguments(g),
                };
                *p = a.to_path(map, args);
            },
            Index::Secondary(_) => {
                let n = p.segments.len();
                let mut args = PathArguments::Empty;
                if n > 0 {
                    std::mem::swap(&mut args, &mut p.segments[n - 1].arguments);
                }
                *p = a.to_path(map, args);
            },
        }
    }

    /// Rewrites a type (see [`rewrote_type`]).
    pub fn apply_type(&self, map: &AliasMap, t: usize, g: &Generics, ty: &mut Type)
        requires
            map.wf(),
            t < map.tables@.len(),
        ensures
            rewrote_type(ctx(*map, t as int, *self, *g), *old(ty), *final(ty)),
        decreases *old(ty),
    {
        match ty {
            Type::Path(tp) => {
                match self.type_path_target(map, t, g, tp) {
                    Some(a) => {
                        self.replace_path(map, g, a, &mut tp.path);
                    },
                    None => {
                        match &mut tp.qself {
                            Some(q) => {
                                self.apply_type(map, t, g, &mut q.ty);
                            },
                            None => {},
                        }
                        self.apply_segments(map, t, g, &mut tp.path.segments);
                    },
                }
            },
            Type::Reference { elem, .. } => self.apply_type(map, t, g, elem),
            Type::Ptr { elem, .. } => self.apply_type(map, t, g, elem),
            Type::Slice(elem) => self.apply_type(map, t, g, elem),
            Type::Array { elem, len } => {
                self.apply_type(map, t, g, elem);
                self.apply_expr(map, t, g, len);
            },
            Type::Tuple(elems) => self.apply_types(map, t, g, elems),
            Type::Paren(elem) => self.apply_type(map, t, g, elem),
            Type::TraitObject { bounds, .. } => self.apply_bounds(map, t, g, bounds),
            Type::ImplTrait(bounds) => self.apply_bounds(map, t, g, bounds),
            _ => {},
        }
    }

    fn apply_arguments(&self, map: &AliasMap, t: usize, g: &Generics, a: &mut PathArguments)
        requires
            map.wf(),
            t < map.tables@.len(),
        ensures
            rewrote_arguments(ctx(*map, t as int, *self, *g), *old(a), *final(a)),
        decreases *old(a),
    {
        match a {
            PathArguments::Empty => {},
            PathArguments::AngleBracketed { args, .. } => self.apply_generic_args(map, t, g, args),
            PathArguments::Parenthesized { inputs, output } => {
                self.apply_types(map, t, g, inputs);
                match output {
                    Some(o) => self.apply_type(map, t, g, o),
                    None => {},
                }
            },
        }
    }

    fn apply_generic_arg(&self, map: &AliasMap, t: usize, g: &Generics, a: &mut GenericArgument)
        requires
            map.wf(),
            t < map.tables@.len(),
        ensures
            rewrote_generic_arg(ctx(*map, t as int, *self, *g), *old(a), *final(a)),
        decreases *old(a),
    {
        match a {
            GenericArgument::Lifetime(_) => {},
            GenericArgument::Type(ty) => self.apply_type(map, t, g, ty),
            GenericArgument::Const(e) => self.apply_expr(map, t, g, e),
            GenericArgument::AssocType { ty, .. } => self.apply_type(map, t, g, ty),
            GenericArgument::AssocConst { value, .. } => self.apply_expr(map, t, g, value),
            GenericArgument::Constraint { bounds, .. } => self.apply_bounds(map, t, g, bounds),
        }
    }

    fn apply_expr(&self, map: &AliasMap, t: usize, g: &Generics, e: &mut Expr)
        requires
            map.wf(),
            t < map.tables@.len(),
        ensures
            rewrote_expr(ctx(*map, t as int, *self, *g), *old(e), *final(e)),
        decreases *old(e),
    {
        match e {
            Expr::Path(p) => self.apply_segments(map, t, g, &mut p.segments),
            _ => {},
        }
    }

    /// Rewrites a bound: a trait with a secondary alias is replaced by the alias,
    /// keeping its arguments (associated-type bindings included).
    pub fn apply_bound(&self, map: &AliasMap, t: usize, g: &Generics, b: &mut TypeParamBound)
        requires
            map.wf(),
            t < map.tables@.len(),
        ensures
            rewrote_bound(ctx(*map, t as int, *self, *g), *old(b), *final(b)),
        decreases *old(b),
    {
        match b {
            TypeParamBound::Trait(tb) => {
                let target = if self.apply_free_types && !tb.path.is_self() {
                    self.path_target(map, t, g, &tb.path)
                } else {
                    None
                };
                match target {
                    Some(a) => {
                        self.replace_path(map, g, a, &mut tb.path);
                    },
                    None => {
                        self.apply_segments(map, t, g, &mut tb.path.segments);
                    },
                }
            },
            _ => {},
        }
    }

    fn apply_types(&self, map: &AliasMap, t: usize, g: &Generics, v: &mut Vec<Type>)
        requires
            map.wf(),
            t < map.tables@.len(),
        ensures
            rewrote_types(ctx(*map, t as int, *self, *g), old(v)@, final(v)@),
        decreases *old(v),
    {
        let ghost c = ctx(*map, t as int, *self, *g);
        let ghost ov = v@;
        let mut i: usize = 0;
        assert(ov.subrange(0, 0).len() == 0);
        while i < v.len()
            invariant
                map.wf(),
                t < map.tables@.len(),
                c == ctx(*map, t as int, *self, *g),
                ov == old(v)@,
                v@.len() == ov.len(),
                i <= ov.len(),
                rewrote_types(c, ov.subrange(0, i as int), v@.subrange(0, i as int)),
                forall|j: int| i <= j < ov.len() ==> #[trigger] v@[j] == ov[j],
            decreases ov.len() - i,
        {
            proof {
                assert(decreases_to!(*old(v) => (*old(v))@));
                assert(decreases_to!((*old(v))@ => (*old(v))@[i as int]));
            }
            let ghost before = v@;
            self.apply_type(map, t, g, &mut v[i]);
            proof {
                assert(v@.subrange(0, i as int) =~= before.subrange(0, i as int));
                assert(v@.subrange(0, i + 1).subrange(0, i as int) =~= v@.subrange(0, i as int));
                assert(ov.subrange(0, i + 1).subrange(0, i as int) =~= ov.subrange(0, i as int));
                
            }
            i = i + 1;
        }
        assert(v@.subrange(0, ov.len() as int) =~= v@);
        assert(ov.subrange(0, ov.len() as int) =~= ov);
    }

    fn apply_segments(&self, map: &AliasMap, t: usize, g: &Generics, v: &mut Vec<PathSegment>)
        requires
            map.wf(),
            t < map.tables@.len(),
        ensures
            rewrote_segments(ctx(*map, t as int, *self, *g), old(v)@, final(v)@),
        decreases *old(v),
    {
        let ghost c = ctx(*map, t as int, *self, *g);
        let ghost ov = v@;
        let mut i: usize = 0;
        assert(ov.subrange(0, 0).len() == 0);
        while i < v.len()
            invariant
                map.wf(),
                t < map.tables@.len(),
                c == ctx(*map, t as int, *self, *g),
                ov == old(v)@,
                v@.len() == ov.len(),
                i <= ov.len(),
                rewrote_segments(c, ov.subrange(0, i as int), v@.subrange(0, i as int)),
                forall|j: int| i <= j < ov.len() ==> #[trigger] v@[j] == ov[j],
            decreases ov.len() - i,
        {
            proof {
                assert(decreases_to!(*old(v) => (*old(v))@));
                assert(decreases_to!((*old(v))@ => (*old(v))@[i as int]));
            }
            let ghost before = v@;
            self.apply_arguments(map, t, g, &mut v[i].arguments);
            proof {
                assert(v@.subrange(0, i as int) =~= before.subrange(0, i as int));
                assert(v@.subrange(0, i + 1).subrange(0, i as int) =~= v@.subrange(0, i as int));
                assert(ov.subrange(0, i + 1).subrange(0, i as int) =~= ov.subrange(0, i as int));
                assert(v@[i as int].ident == ov[i as int].ident);
            }
            i = i + 1;
        }
        assert(v@.subrange(0, ov.len() as int) =~= v@);
        assert(ov.subrange(0, ov.len() as int) =~= ov);
    }

    fn apply_generic_args(&self, map: &AliasMap, t: usize, g: &Generics, v: &mut Vec<GenericArgument>)
        requires
            map.wf(),
            t < map.tables@.len(),
        ensures
            rewrote_generic_args(ctx(*map, t as int, *self, *g), old(v)@, final(v)@),
        decreases *old(v),
    {
        let ghost c = ctx(*map, t as int, *self, *g);
        let ghost ov = v@;
        let mut i: usize = 0;
        assert(ov.subrange(0, 0).len() == 0);
        while i < v.len()
            invariant
                map.wf(),
                t < map.tables@.len(),
                c == ctx(*map, t as int, *self, *g),
                ov == old(v)@,
                v@.len() == ov.len(),
                i <= ov.len(),
                rewrote_generic_args(c, ov.subrange(0, i as int), v@.subrange(0, i as int)),
                forall|j: int| i <= j < ov.len() ==> #[trigger] v@[j] == ov[j],
            decreases ov.len() - i,
        {
            proof {
                assert(decreases_to!(*old(v) => (*old(v))@));
                assert(decreases_to!((*old(v))@ => (*old(v))@[i as int]));
            }
            let ghost before = v@;
            self.apply_generic_arg(map, t, g, &mut v[i]);
            proof {
                assert(v@.subrange(0, i as int) =~= before.subrange(0, i as int));
                assert(v@.subrange(0, i + 1).subrange(0, i as int) =~= v@.subrange(0, i as int));
                assert(ov.subrange(0, i + 1).subrange(0, i as int) =~= ov.subrange(0, i as int));
                
            }
            i = i + 1;
        }
        assert(v@.subrange(0, ov.len() as int) =~= v@);
        assert(ov.subrange(0, ov.len() as int) =~= ov);
    }

    fn apply_bounds(&self, map: &AliasMap, t: usize, g: &Generics, v: &mut Vec<TypeParamBound>)
        requires
            map.wf(),
            t < map.tables@.len(),
        ensures
            rewrote_bounds(ctx(*map, t as int, *self, *g), old(v)@, final(v)@),
        decreases *old(v),
    {
        let ghost c = ctx(*map, t as int, *self, *g);
        let ghost ov = v@;
        let mut i: usize = 0;
        assert(ov.subrange(0, 0).len() == 0);
        while i < v.len()
            invariant
                map.wf(),
                t < map.tables@.len(),
                c == ctx(*map, t as int, *self, *g),
                ov == old(v)@,
                v@.len() == ov.len(),
                i <= ov.len(),
                rewrote_bounds(c, ov.subrange(0, i as int), v@.subrange(0, i as int)),
                forall|j: int| i <= j < ov.len() ==> #[trigger] v@[j] == ov[j],
            decreases ov.len() - i,
        {
            proof {
                assert(decreases_to!(*old(v) => (*old(v))@));
                assert(decreases_to!((*old(v))@ => (*old(v))@[i as int]));
            }
            let ghost before = v@;
            self.apply_bound(map, t, g, &mut v[i]);
            proof {
                assert(v@.subrange(0, i as int) =~= before.subrange(0, i as int));
                assert(v@.subrange(0, i + 1).subrange(0, i as int) =~= v@.subrange(0, i as int));
                assert(ov.subrange(0, i + 1).subrange(0, i as int) =~= ov.subrange(0, i as int));
                
            }
            i = i + 1;
        }
        assert(v@.subrange(0, ov.len() as int) =~= v@);
        assert(ov.subrange(0, ov.len() as int) =~= ov);
    }
}

} // verus!
