//! Discovery: walking an item and filing every free type path and trait bound it
//! mentions, in pre-order, left to right.
//!
//! What a walk does is stated in two steps. The `*_visits` spec functions list, in
//! order, the type paths and trait bounds that the walk offers to the table; and
//! [`visits_fold`] says what the table's entries become when those are offered one by
//! one. The walk goes to full depth: a path is offered whole and then the types in its
//! generic arguments are offered in turn, so `Option<SomeOther>` files both
//! `Option<SomeOther>` and `SomeOther`. A type path whose first segment is `Self` or a
//! generic parameter in scope is not offered, but the walk still goes into its
//! arguments. Offers the table refuses are skipped: discovery aliases what it can.
use vstd::prelude::*;

use crate::map::{
    chain_lookup, first_match, insert_effect, insert_trait_outcome, insert_type_outcome,
    trait_allowed, AliasKind, AliasMap, Entry,
};
use crate::signature::{normalize_spec, ArgKind, SigView};
use crate::syntax::{
    is_ident_spec, texts, Expr, Field, Fields, FnArg, GenericArgument, GenericParam, Generics,
    Item, Path, PathArguments, PathSegment, TraitItem, Type, TypeParamBound, TypePath, Variant,
    WherePredicate,
};

verus! {

/// One offer that a walk makes to the table.
pub enum Visit {
    Type(TypePath),
    Trait(Path),
}

/// A secondary entry as plain values.
pub struct EntryView {
    pub sig: SigView,
    pub kinds: Seq<ArgKind>,
    pub kind: AliasKind,
}

pub open spec fn entry_view(e: Entry) -> EntryView {
    EntryView { sig: e.sig@, kinds: e.arguments.kinds@, kind: e.kind }
}

pub open spec fn entries_view(es: Seq<Entry>) -> Seq<EntryView> {
    es.map_values(|e: Entry| entry_view(e))
}

pub open spec fn has_sig(es: Seq<EntryView>, s: SigView) -> bool {
    exists|j: int| 0 <= j < es.len() && #[trigger] es[j].sig == s
}

/// The signatures that the parents of table `t` already resolve.
pub open spec fn parent_sigs(m: AliasMap, t: int) -> Set<SigView> {
    Set::new(
        |s: SigView|
            match m.tables@[t].parent {
                Some(p) => p < t && chain_lookup(m.tables@, p as int, s) is Some,
                None => false,
            },
    )
}

/// The entries after one offer, given the trait policy and what the parents hold.
pub open spec fn visit_step(
    es: Seq<EntryView>,
    policy: Option<bool>,
    outer: Set<SigView>,
    v: Visit,
) -> Seq<EntryView> {
    let (p, kind, allowed) = match v {
        Visit::Type(tp) => (tp.path, AliasKind::Type, tp.qself is None),
        Visit::Trait(p) => (p, AliasKind::Trait, trait_allowed(policy, p)),
    };
    if allowed && !is_ident_spec(p, "Self"@) && normalize_spec(p) is Ok {
        let s = normalize_spec(p)->Ok_0.0;
        if has_sig(es, s) || outer.contains(s) {
            es
        } else {
            es.push(EntryView { sig: s, kinds: normalize_spec(p)->Ok_0.1, kind })
        }
    } else {
        es
    }
}

/// The entries after a sequence of offers, made in order.
pub open spec fn visits_fold(
    es: Seq<EntryView>,
    policy: Option<bool>,
    outer: Set<SigView>,
    vs: Seq<Visit>,
) -> Seq<EntryView>
    decreases vs.len(),
{
    if vs.len() == 0 {
        es
    } else {
        visit_step(
            visits_fold(es, policy, outer, vs.subrange(0, vs.len() - 1)),
            policy,
            outer,
            vs[vs.len() - 1],
        )
    }
}

/// `m1` differs from `m0` at most in the entries of table `t`.
pub open spec fn frame(m0: AliasMap, m1: AliasMap, t: int) -> bool {
    &&& m1.root == m0.root
    &&& m1.tables@.len() == m0.tables@.len()
    &&& forall|i: int|
        0 <= i < m0.tables@.len() && i != t ==> #[trigger] m1.tables@[i] == m0.tables@[i]
    &&& m1.tables@[t].parent == m0.tables@[t].parent
    &&& m1.tables@[t].module == m0.tables@[t].module
    &&& m1.tables@[t].unique_ident == m0.tables@[t].unique_ident
    &&& m1.tables@[t].primary == m0.tables@[t].primary
}

/// Walking from `m0` to `m1` made the offers `vs` to table `t`.
pub open spec fn walked(m0: AliasMap, m1: AliasMap, t: int, vs: Seq<Visit>) -> bool {
    &&& m1.wf()
    &&& frame(m0, m1, t)
    &&& entries_view(m1.tables@[t].lookup@) == visits_fold(
        entries_view(m0.tables@[t].lookup@),
        m0.root.alias_traits,
        parent_sigs(m0, t),
        vs,
    )
}

/// Whether a type path is bound: `Self`, or led by a parameter in scope, with no
/// qualifier in front.
pub open spec fn is_bound(tp: TypePath, scope: Seq<Seq<char>>) -> bool {
    &&& !tp.path.leading_colon
    &&& tp.path.segments@.len() > 0
    &&& (tp.path.segments@[0].ident@ == "Self"@ || scope.contains(tp.path.segments@[0].ident@))
}

pub open spec fn type_visits(t: Type, sc: Seq<Seq<char>>) -> Seq<Visit>
    decreases t,
{
    match t {
        Type::Path(tp) => {
            let own = if is_bound(tp, sc) {
                Seq::empty()
            } else {
                seq![Visit::Type(tp)]
            };
            let q = match tp.qself {
                Some(q) => type_visits(*q.ty, sc),
                None => Seq::empty(),
            };
            own + q + segments_visits(tp.path.segments@, sc)
        },
        Type::Reference { elem, .. } => type_visits(*elem, sc),
        Type::Ptr { elem, .. } => type_visits(*elem, sc),
        Type::Slice(elem) => type_visits(*elem, sc),
        Type::Array { elem, len } => type_visits(*elem, sc) + expr_visits(len, sc),
        Type::Tuple(elems) => types_visits(elems@, sc),
        Type::Paren(elem) => type_visits(*elem, sc),
        Type::TraitObject { bounds, .. } => bounds_visits(bounds@, sc),
        Type::ImplTrait(bounds) => bounds_visits(bounds@, sc),
        _ => Seq::empty(),
    }
}

/// The offers made inside the `<T as Trait>` prefix of a type path.
pub open spec fn qself_visits(tp: TypePath, sc: Seq<Seq<char>>) -> Seq<Visit> {
    match tp.qself {
        Some(q) => type_visits(*q.ty, sc),
        None => Seq::empty(),
    }
}

/// The offers made inside the `-> C` of parenthesized arguments.
pub open spec fn output_visits(a: PathArguments, sc: Seq<Seq<char>>) -> Seq<Visit> {
    match a {
        PathArguments::Parenthesized { output: Some(o), .. } => type_visits(*o, sc),
        _ => Seq::empty(),
    }
}

pub open spec fn types_visits(s: Seq<Type>, sc: Seq<Seq<char>>) -> Seq<Visit>
    decreases s,
{
    if s.len() == 0 {
        Seq::empty()
    } else {
        types_visits(s.subrange(0, s.len() - 1), sc) + type_visits(s[s.len() - 1], sc)
    }
}

pub open spec fn segments_visits(s: Seq<PathSegment>, sc: Seq<Seq<char>>) -> Seq<Visit>
    decreases s,
{
    if s.len() == 0 {
        Seq::empty()
    } else {
        segments_visits(s.subrange(0, s.len() - 1), sc) + arguments_visits(
            s[s.len() - 1].arguments,
            sc,
        )
    }
}

pub open spec fn arguments_visits(a: PathArguments, sc: Seq<Seq<char>>) -> Seq<Visit>
    decreases a,
{
    match a {
        PathArguments::Empty => Seq::empty(),
        PathArguments::AngleBracketed { args, .. } => generic_args_visits(args@, sc),
        PathArguments::Parenthesized { inputs, output } => types_visits(inputs@, sc) + match output {
            Some(o) => type_visits(*o, sc),
            None => Seq::empty(),
        },
    }
}

pub open spec fn generic_args_visits(s: Seq<GenericArgument>, sc: Seq<Seq<char>>) -> Seq<Visit>
    decreases s,
{
    if s.len() == 0 {
        Seq::empty()
    } else {
        generic_args_visits(s.subrange(0, s.len() - 1), sc) + generic_arg_visits(
            s[s.len() - 1],
            sc,
        )
    }
}

pub open spec fn generic_arg_visits(a: GenericArgument, sc: Seq<Seq<char>>) -> Seq<Visit>
    decreases a,
{
    match a {
        GenericArgument::Lifetime(_) => Seq::empty(),
        GenericArgument::Type(t) => type_visits(t, sc),
        GenericArgument::Const(e) => expr_visits(e, sc),
        GenericArgument::AssocType { ty, .. } => type_visits(ty, sc),
        GenericArgument::AssocConst { value, .. } => expr_visits(value, sc),
        GenericArgument::Constraint { bounds, .. } => bounds_visits(bounds@, sc),
    }
}

pub open spec fn expr_visits(e: Expr, sc: Seq<Seq<char>>) -> Seq<Visit>
    decreases e,
{
    match e {
        Expr::Path(p) => segments_visits(p.segments@, sc),
        _ => Seq::empty(),
    }
}

pub open spec fn bounds_visits(s: Seq<TypeParamBound>, sc: Seq<Seq<char>>) -> Seq<Visit>
    decreases s,
{
    if s.len() == 0 {
        Seq::empty()
    } else {
        bounds_visits(s.subrange(0, s.len() - 1), sc) + bound_visits(s[s.len() - 1], sc)
    }
}

pub open spec fn bound_visits(b: TypeParamBound, sc: Seq<Seq<char>>) -> Seq<Visit>
    decreases b,
{
    match b {
        TypeParamBound::Trait(tb) => seq![Visit::Trait(tb.path)] + segments_visits(
            tb.path.segments@,
            sc,
        ),
        _ => Seq::empty(),
    }
}


proof fn lemma_fold_append(
    es: Seq<EntryView>,
    policy: Option<bool>,
    outer: Set<SigView>,
    a: Seq<Visit>,
    b: Seq<Visit>,
)
    ensures
        visits_fold(es, policy, outer, a + b) == visits_fold(
            visits_fold(es, policy, outer, a),
            policy,
            outer,
            b,
        ),
    decreases b.len(),
{
    if b.len() == 0 {
        assert(a + b =~= a);
    } else {
        let b0 = b.subrange(0, b.len() - 1);
        lemma_fold_append(es, policy, outer, a, b0);
        assert((a + b).subrange(0, (a + b).len() - 1) =~= a + b0);
        assert((a + b)[(a + b).len() - 1] == b[b.len() - 1]);
    }
}

proof fn lemma_chain_same(t0: Seq<crate::map::Table>, t1: Seq<crate::map::Table>, p: int, s: SigView)
    requires
        0 <= p < t0.len(),
        t0.len() == t1.len(),
        forall|i: int| 0 <= i <= p ==> #[trigger] t1[i] == t0[i],
    ensures
        chain_lookup(t1, p, s) == chain_lookup(t0, p, s),
    decreases p,
{
    assert(t1[p] == t0[p]);
    match t0[p].parent {
        Some(q) => {
            if q < p {
                lemma_chain_same(t0, t1, q as int, s);
            }
        },
        None => {},
    }
}

proof fn lemma_parent_sigs_frame(m0: AliasMap, m1: AliasMap, t: int)
    requires
        m0.wf(),
        0 <= t < m0.tables@.len(),
        frame(m0, m1, t),
    ensures
        parent_sigs(m1, t) == parent_sigs(m0, t),
{
    assert forall|s: SigView| parent_sigs(m1, t).contains(s) == parent_sigs(m0, t).contains(s) by {
        match m0.tables@[t].parent {
            Some(p) => {
                if p < t {
                    assert forall|i: int| 0 <= i <= p implies #[trigger] m1.tables@[i]
                        == m0.tables@[i] by {
                        assert(i != t);
                    }
                    lemma_chain_same(m0.tables@, m1.tables@, p as int, s);
                }
            },
            None => {},
        }
    }
    assert(parent_sigs(m1, t) =~= parent_sigs(m0, t));
}

proof fn lemma_walked_refl(m: AliasMap, t: int)
    requires
        m.wf(),
        0 <= t < m.tables@.len(),
    ensures
        walked(m, m, t, Seq::empty()),
{
}

proof fn lemma_walked_trans(
    m0: AliasMap,
    m1: AliasMap,
    m2: AliasMap,
    t: int,
    a: Seq<Visit>,
    b: Seq<Visit>,
)
    requires
        m0.wf(),
        0 <= t < m0.tables@.len(),
        walked(m0, m1, t, a),
        walked(m1, m2, t, b),
    ensures
        walked(m0, m2, t, a + b),
{
    lemma_parent_sigs_frame(m0, m1, t);
    lemma_fold_append(
        entries_view(m0.tables@[t].lookup@),
        m0.root.alias_traits,
        parent_sigs(m0, t),
        a,
        b,
    );
    assert forall|i: int| 0 <= i < m0.tables@.len() && i != t implies #[trigger] m2.tables@[i]
        == m0.tables@[i] by {
        assert(m2.tables@[i] == m1.tables@[i]);
    }
}

/// One insertion, seen as one offer.
proof fn lemma_insert_step(
    m0: AliasMap,
    m1: AliasMap,
    t: int,
    p: Path,
    kind: AliasKind,
    allowed: bool,
    r: Result<bool, crate::error::Kind>,
    v: Visit,
)
    requires
        m0.wf(),
        m1.wf(),
        0 <= t < m0.tables@.len(),
        v == (match kind {
            AliasKind::Type => Visit::Type(TypePath { qself: v->Type_0.qself, path: p }),
            AliasKind::Trait => Visit::Trait(p),
        }),
        kind == AliasKind::Type ==> allowed == (v->Type_0.qself is None),
        kind == AliasKind::Trait ==> allowed == trait_allowed(m0.root.alias_traits, p),
        r == (if allowed {
            if kind == AliasKind::Trait && crate::map::is_closure_style(p) {
                Err(crate::error::Kind::Closure)
            } else {
                crate::map::insert_outcome(m0, t, p)
            }
        } else {
            match kind {
                AliasKind::Type => Err(crate::error::Kind::AssociatedType),
                AliasKind::Trait => Err(crate::error::Kind::Trait),
            }
        }),
        insert_effect(m0, m1, t, p, kind, r),
    ensures
        walked(m0, m1, t, seq![v]),
{
    let es = entries_view(m0.tables@[t].lookup@);
    let vs = seq![v];
    assert(vs.subrange(0, 0) =~= Seq::<Visit>::empty());
    assert(visits_fold(es, m0.root.alias_traits, parent_sigs(m0, t), vs.subrange(0, 0)) == es);
    assert(visits_fold(es, m0.root.alias_traits, parent_sigs(m0, t), vs) == visit_step(
        es,
        m0.root.alias_traits,
        parent_sigs(m0, t),
        v,
    ));
    if kind == AliasKind::Trait && crate::map::is_closure_style(p) {
        assert(normalize_spec(p) is Err);
    }
    if allowed && !is_ident_spec(p, "Self"@) && normalize_spec(p) is Ok {
        let s = normalize_spec(p)->Ok_0.0;
        let local = m0.tables@[t].lookup@;
        crate::map::lemma_first_match_props(local, s);
        assert(has_sig(es, s) <==> first_match(local, s) is Some) by {
            if has_sig(es, s) {
                let j = choose|j: int| 0 <= j < es.len() && #[trigger] es[j].sig == s;
                assert(local[j].sig@ == s);
            }
            if first_match(local, s) is Some {
                let j = first_match(local, s)->Some_0;
                assert(es[j].sig == s);
            }
        }
        if r == Ok::<bool, crate::error::Kind>(true) {
            let n = local.len();
            let new_local = m1.tables@[t].lookup@;
            assert(new_local =~= local.push(new_local[n as int]));
            assert(entries_view(new_local) =~= es.push(entry_view(new_local[n as int])));
        }
    }
}


/// Whether `scope` holds the identifier `s`.
pub fn scope_contains(scope: &Vec<String>, s: &String) -> (r: bool)
    ensures
        r == texts(scope@).contains(s@),
{
    let mut i: usize = 0;
    while i < scope.len()
        invariant
            i <= scope@.len(),
            forall|j: int| 0 <= j < i ==> #[trigger] scope@[j]@ != s@,
        decreases scope@.len() - i,
    {
        if scope[i] == *s {
            assert(texts(scope@)[i as int] == s@);
            return true;
        }
        i = i + 1;
    }
    assert(!texts(scope@).contains(s@)) by {
        if texts(scope@).contains(s@) {
            let j = choose|j: int| 0 <= j < texts(scope@).len() && texts(scope@)[j] == s@;
            assert(scope@[j]@ == s@);
        }
    }
    false
}

fn type_path_is_bound(tp: &TypePath, scope: &Vec<String>) -> (r: bool)
    ensures
        r == is_bound(*tp, texts(scope@)),
{
    if tp.path.leading_colon || tp.path.segments.len() == 0 {
        return false;
    }
    let first = &tp.path.segments[0].ident;
    crate::syntax::is_self_str(first) || scope_contains(scope, first)
}

fn walk_type(map: &mut AliasMap, t: usize, scope: &Vec<String>, ty: &Type)
    requires
        old(map).wf(),
        t < old(map).tables@.len(),
    ensures
        walked(*old(map), *final(map), t as int, type_visits(*ty, texts(scope@))),
    decreases ty,
{
    let ghost m0 = *map;
    let ghost sc = texts(scope@);
    proof {
        lemma_walked_refl(m0, t as int);
    }
    match ty {
        Type::Path(tp) => {
            if !type_path_is_bound(tp, scope) {
                let r = map.insert_type(t, tp);
                proof {
                    lemma_insert_step(
                        m0,
                        *map,
                        t as int,
                        tp.path,
                        AliasKind::Type,
                        tp.qself is None,
                        insert_type_outcome(m0, t as int, *tp),
                        Visit::Type(*tp),
                    );
                }
            }
            let ghost own: Seq<Visit> = if is_bound(*tp, sc) {
                Seq::empty()
            } else {
                seq![Visit::Type(*tp)]
            };
            let ghost m1 = *map;
            match &tp.qself {
                Some(q) => {
                    walk_type(map, t, scope, &q.ty);
                },
                None => {
                    proof {
                        lemma_walked_refl(m1, t as int);
                    }
                },
            }
            let ghost qv: Seq<Visit> = qself_visits(*tp, sc);
            proof {
                lemma_walked_trans(m0, m1, *map, t as int, own, qv);
            }
            let ghost m2 = *map;
            walk_segments(map, t, scope, &tp.path.segments);
            proof {
                lemma_walked_trans(m0, m2, *map, t as int, own + qv, segments_visits(tp.path.segments@, sc));
            }
        },
        Type::Reference { elem, .. } => {
            walk_type(map, t, scope, elem);
        },
        Type::Ptr { elem, .. } => {
            walk_type(map, t, scope, elem);
        },
        Type::Slice(elem) => {
            walk_type(map, t, scope, elem);
        },
        Type::Array { elem, len } => {
            walk_type(map, t, scope, elem);
            let ghost m1 = *map;
            walk_expr(map, t, scope, len);
            proof {
                lemma_walked_trans(m0, m1, *map, t as int, type_visits(**elem, sc), expr_visits(*len, sc));
            }
        },
        Type::Tuple(elems) => {
            walk_types(map, t, scope, elems);
        },
        Type::Paren(elem) => {
            walk_type(map, t, scope, elem);
        },
        Type::TraitObject { bounds, .. } => {
            walk_bounds(map, t, scope, bounds);
        },
        Type::ImplTrait(bounds) => {
            walk_bounds(map, t, scope, bounds);
        },
        _ => {},
    }
}

fn walk_types(map: &mut AliasMap, t: usize, scope: &Vec<String>, v: &Vec<Type>)
    requires
        old(map).wf(),
        t < old(map).tables@.len(),
    ensures
        walked(*old(map), *final(map), t as int, types_visits(v@, texts(scope@))),
    decreases v,
{
    let ghost m0 = *map;
    let ghost sc = texts(scope@);
    proof {
        lemma_walked_refl(m0, t as int);
        assert(v@.subrange(0, 0).len() == 0);
    }
    let mut i: usize = 0;
    while i < v.len()
        invariant
            i <= v@.len(),
            m0.wf(),
            t < m0.tables@.len(),
            sc == texts(scope@),
            walked(m0, *map, t as int, types_visits(v@.subrange(0, i as int), sc)),
        decreases v@.len() - i,
    {
        let ghost m1 = *map;
        walk_type(map, t, scope, &v[i]);
        proof {
            lemma_walked_trans(
                m0,
                m1,
                *map,
                t as int,
                types_visits(v@.subrange(0, i as int), sc),
                type_visits(v@[i as int], sc),
            );
            assert(v@.subrange(0, i + 1).subrange(0, i as int) =~= v@.subrange(0, i as int));
        }
        i = i + 1;
    }
    assert(v@.subrange(0, v@.len() as int) =~= v@);
}

fn walk_segments(map: &mut AliasMap, t: usize, scope: &Vec<String>, v: &Vec<PathSegment>)
    requires
        old(map).wf(),
        t < old(map).tables@.len(),
    ensures
        walked(*old(map), *final(map), t as int, segments_visits(v@, texts(scope@))),
    decreases v,
{
    let ghost m0 = *map;
    let ghost sc = texts(scope@);
    proof {
        lemma_walked_refl(m0, t as int);
        assert(v@.subrange(0, 0).len() == 0);
    }
    let mut i: usize = 0;
    while i < v.len()
        invariant
            i <= v@.len(),
            m0.wf(),
            t < m0.tables@.len(),
            sc == texts(scope@),
            walked(m0, *map, t as int, segments_visits(v@.subrange(0, i as int), sc)),
        decreases v@.len() - i,
    {
        let ghost m1 = *map;
        walk_arguments(map, t, scope, &v[i].arguments);
        proof {
            lemma_walked_trans(
                m0,
                m1,
                *map,
                t as int,
                segments_visits(v@.subrange(0, i as int), sc),
                arguments_visits(v@[i as int].arguments, sc),
            );
            assert(v@.subrange(0, i + 1).subrange(0, i as int) =~= v@.subrange(0, i as int));
        }
        i = i + 1;
    }
    assert(v@.subrange(0, v@.len() as int) =~= v@);
}

fn walk_arguments(map: &mut AliasMap, t: usize, scope: &Vec<String>, a: &PathArguments)
    requires
        old(map).wf(),
        t < old(map).tables@.len(),
    ensures
        walked(*old(map), *final(map), t as int, arguments_visits(*a, texts(scope@))),
    decreases a,
{
    let ghost m0 = *map;
    let ghost sc = texts(scope@);
    proof {
        lemma_walked_refl(m0, t as int);
    }
    match a {
        PathArguments::Empty => {},
        PathArguments::AngleBracketed { args, .. } => {
            walk_generic_args(map, t, scope, args);
        },
        PathArguments::Parenthesized { inputs, output } => {
            walk_types(map, t, scope, inputs);
            let ghost m1 = *map;
            match output {
                Some(o) => {
                    walk_type(map, t, scope, o);
                },
                None => {
                    proof {
                        lemma_walked_refl(m1, t as int);
                    }
                },
            }
            proof {
                lemma_walked_trans(
                    m0,
                    m1,
                    *map,
                    t as int,
                    types_visits(inputs@, sc),
                    output_visits(*a, sc),
                );
            }
        },
    }
}

fn walk_generic_args(map: &mut AliasMap, t: usize, scope: &Vec<String>, v: &Vec<GenericArgument>)
    requires
        old(map).wf(),
        t < old(map).tables@.len(),
    ensures
        walked(*old(map), *final(map), t as int, generic_args_visits(v@, texts(scope@))),
    decreases v,
{
    let ghost m0 = *map;
    let ghost sc = texts(scope@);
    proof {
        lemma_walked_refl(m0, t as int);
        assert(v@.subrange(0, 0).len() == 0);
    }
    let mut i: usize = 0;
    while i < v.len()
        invariant
            i <= v@.len(),
            m0.wf(),
            t < m0.tables@.len(),
            sc == texts(scope@),
            walked(m0, *map, t as int, generic_args_visits(v@.subrange(0, i as int), sc)),
        decreases v@.len() - i,
    {
        let ghost m1 = *map;
        walk_generic_arg(map, t, scope, &v[i]);
        proof {
            lemma_walked_trans(
                m0,
                m1,
                *map,
                t as int,
                generic_args_visits(v@.subrange(0, i as int), sc),
                generic_arg_visits(v@[i as int], sc),
            );
            assert(v@.subrange(0, i + 1).subrange(0, i as int) =~= v@.subrange(0, i as int));
        }
        i = i + 1;
    }
    assert(v@.subrange(0, v@.len() as int) =~= v@);
}

fn walk_generic_arg(map: &mut AliasMap, t: usize, scope: &Vec<String>, a: &GenericArgument)
    requires
        old(map).wf(),
        t < old(map).tables@.len(),
    ensures
        walked(*old(map), *final(map), t as int, generic_arg_visits(*a, texts(scope@))),
    decreases a,
{
    proof {
        lemma_walked_refl(*map, t as int);
    }
    match a {
        GenericArgument::Lifetime(_) => {},
        GenericArgument::Type(ty) => walk_type(map, t, scope, ty),
        GenericArgument::Const(e) => walk_expr(map, t, scope, e),
        GenericArgument::AssocType { ty, .. } => walk_type(map, t, scope, ty),
        GenericArgument::AssocConst { value, .. } => walk_expr(map, t, scope, value),
        GenericArgument::Constraint { bounds, .. } => walk_bounds(map, t, scope, bounds),
    }
}

fn walk_expr(map: &mut AliasMap, t: usize, scope: &Vec<String>, e: &Expr)
    requires
        old(map).wf(),
        t < old(map).tables@.len(),
    ensures
        walked(*old(map), *final(map), t as int, expr_visits(*e, texts(scope@))),
    decreases e,
{
    proof {
        lemma_walked_refl(*map, t as int);
    }
    match e {
        Expr::Path(p) => walk_segments(map, t, scope, &p.segments),
        _ => {},
    }
}

fn walk_bounds(map: &mut AliasMap, t: usize, scope: &Vec<String>, v: &Vec<TypeParamBound>)
    requires
        old(map).wf(),
        t < old(map).tables@.len(),
    ensures
        walked(*old(map), *final(map), t as int, bounds_visits(v@, texts(scope@))),
    decreases v,
{
    let ghost m0 = *map;
    let ghost sc = texts(scope@);
    proof {
        lemma_walked_refl(m0, t as int);
        assert(v@.subrange(0, 0).len() == 0);
    }
    let mut i: usize = 0;
    while i < v.len()
        invariant
            i <= v@.len(),
            m0.wf(),
            t < m0.tables@.len(),
            sc == texts(scope@),
            walked(m0, *map, t as int, bounds_visits(v@.subrange(0, i as int), sc)),
        decreases v@.len() - i,
    {
        let ghost m1 = *map;
        walk_bound(map, t, scope, &v[i]);
        proof {
            lemma_walked_trans(
                m0,
                m1,
                *map,
                t as int,
                bounds_visits(v@.subrange(0, i as int), sc),
                bound_visits(v@[i as int], sc),
            );
            assert(v@.subrange(0, i + 1).subrange(0, i as int) =~= v@.subrange(0, i as int));
        }
        i = i + 1;
    }
    assert(v@.subrange(0, v@.len() as int) =~= v@);
}

fn walk_bound(map: &mut AliasMap, t: usize, scope: &Vec<String>, b: &TypeParamBound)
    requires
        old(map).wf(),
        t < old(map).tables@.len(),
    ensures
        walked(*old(map), *final(map), t as int, bound_visits(*b, texts(scope@))),
    decreases b,
{
    let ghost m0 = *map;
    let ghost sc = texts(scope@);
    proof {
        lemma_walked_refl(m0, t as int);
    }
    match b {
        TypeParamBound::Trait(tb) => {
            let r = map.insert_trait(t, &tb.path);
            proof {
                lemma_insert_step(
                    m0,
                    *map,
                    t as int,
                    tb.path,
                    AliasKind::Trait,
                    trait_allowed(m0.root.alias_traits, tb.path),
                    insert_trait_outcome(m0, t as int, tb.path),
                    Visit::Trait(tb.path),
                );
            }
            let ghost m1 = *map;
            walk_segments(map, t, scope, &tb.path.segments);
            proof {
                lemma_walked_trans(
                    m0,
                    m1,
                    *map,
                    t as int,
                    seq![Visit::Trait(tb.path)],
                    segments_visits(tb.path.segments@, sc),
                );
            }
        },
        _ => {},
    }
}


/// The identifiers of the type and const parameters in `ps`, in order.
pub open spec fn param_names(ps: Seq<GenericParam>) -> Seq<Seq<char>>
    decreases ps.len(),
{
    if ps.len() == 0 {
        Seq::empty()
    } else {
        let init = param_names(ps.subrange(0, ps.len() - 1));
        match ps[ps.len() - 1] {
            GenericParam::Type { ident, .. } => init.push(ident@),
            GenericParam::Const { ident, .. } => init.push(ident@),
            GenericParam::Lifetime { .. } => init,
        }
    }
}

pub open spec fn opt_type_visits(o: Option<Type>, sc: Seq<Seq<char>>) -> Seq<Visit> {
    match o {
        Some(t) => type_visits(t, sc),
        None => Seq::empty(),
    }
}

pub open spec fn opt_expr_visits(o: Option<Expr>, sc: Seq<Seq<char>>) -> Seq<Visit> {
    match o {
        Some(e) => expr_visits(e, sc),
        None => Seq::empty(),
    }
}

pub open spec fn param_visits(p: GenericParam, sc: Seq<Seq<char>>) -> Seq<Visit> {
    match p {
        GenericParam::Lifetime { .. } => Seq::empty(),
        GenericParam::Type { bounds, default, .. } => bounds_visits(bounds@, sc) + opt_type_visits(
            default,
            sc,
        ),
        GenericParam::Const { ty, default, .. } => type_visits(ty, sc) + opt_expr_visits(default, sc),
    }
}

pub open spec fn predicate_visits(p: WherePredicate, sc: Seq<Seq<char>>) -> Seq<Visit> {
    match p {
        WherePredicate::Type { bounded_ty, bounds, .. } => type_visits(bounded_ty, sc) + bounds_visits(
            bounds@,
            sc,
        ),
        WherePredicate::Lifetime { .. } => Seq::empty(),
    }
}

pub open spec fn params_visits(s: Seq<GenericParam>, sc: Seq<Seq<char>>) -> Seq<Visit>
    decreases s.len(),
{
    if s.len() == 0 {
        Seq::empty()
    } else {
        params_visits(s.subrange(0, s.len() - 1), sc) + param_visits(s[s.len() - 1], sc)
    }
}

pub open spec fn predicates_visits(s: Seq<WherePredicate>, sc: Seq<Seq<char>>) -> Seq<Visit>
    decreases s.len(),
{
    if s.len() == 0 {
        Seq::empty()
    } else {
        predicates_visits(s.subrange(0, s.len() - 1), sc) + predicate_visits(s[s.len() - 1], sc)
    }
}

/// The offers made in a generics list: parameter bounds and defaults, then the where clause.
pub open spec fn generics_visits(g: Generics, sc: Seq<Seq<char>>) -> Seq<Visit> {
    params_visits(g.params@, sc) + where_visits(g, sc)
}

pub open spec fn where_visits(g: Generics, sc: Seq<Seq<char>>) -> Seq<Visit> {
    match g.where_clause {
        Some(w) => predicates_visits(w@, sc),
        None => Seq::empty(),
    }
}

pub open spec fn field_list_visits(s: Seq<Field>, sc: Seq<Seq<char>>) -> Seq<Visit>
    decreases s.len(),
{
    if s.len() == 0 {
        Seq::empty()
    } else {
        field_list_visits(s.subrange(0, s.len() - 1), sc) + type_visits(s[s.len() - 1].ty, sc)
    }
}

pub open spec fn fields_visits(f: Fields, sc: Seq<Seq<char>>) -> Seq<Visit> {
    match f {
        Fields::Named(v) => field_list_visits(v@, sc),
        Fields::Unnamed(v) => field_list_visits(v@, sc),
        Fields::Unit => Seq::empty(),
    }
}

pub open spec fn variant_visits(v: Variant, sc: Seq<Seq<char>>) -> Seq<Visit> {
    fields_visits(v.fields, sc) + opt_expr_visits(v.discriminant, sc)
}

pub open spec fn fn_arg_visits(a: FnArg, sc: Seq<Seq<char>>) -> Seq<Visit> {
    match a {
        FnArg::Receiver(Some(t)) => type_visits(t, sc),
        FnArg::Receiver(None) => Seq::empty(),
        FnArg::Typed(t) => type_visits(t, sc),
    }
}

pub open spec fn variants_visits(s: Seq<Variant>, sc: Seq<Seq<char>>) -> Seq<Visit>
    decreases s.len(),
{
    if s.len() == 0 {
        Seq::empty()
    } else {
        variants_visits(s.subrange(0, s.len() - 1), sc) + variant_visits(s[s.len() - 1], sc)
    }
}

pub open spec fn fn_args_visits(s: Seq<FnArg>, sc: Seq<Seq<char>>) -> Seq<Visit>
    decreases s.len(),
{
    if s.len() == 0 {
        Seq::empty()
    } else {
        fn_args_visits(s.subrange(0, s.len() - 1), sc) + fn_arg_visits(s[s.len() - 1], sc)
    }
}

/// The offers made in a trait item; a function or an associated type with generics
/// brings its own parameters into scope.
pub open spec fn trait_item_visits(ti: TraitItem, sc: Seq<Seq<char>>) -> Seq<Visit> {
    match ti {
        TraitItem::Fn { generics, inputs, output, .. } => {
            let sc2 = sc + param_names(generics.params@);
            generics_visits(generics, sc2) + fn_args_visits(inputs@, sc2) + opt_type_visits(output, sc2)
        },
        TraitItem::Type { generics, bounds, default, .. } => {
            let sc2 = sc + param_names(generics.params@);
            generics_visits(generics, sc2) + bounds_visits(bounds@, sc2) + opt_type_visits(default, sc2)
        },
        TraitItem::Const { ty, default, .. } => type_visits(ty, sc) + opt_expr_visits(default, sc),
        TraitItem::Verbatim(_) => Seq::empty(),
    }
}

pub open spec fn trait_items_visits(s: Seq<TraitItem>, sc: Seq<Seq<char>>) -> Seq<Visit>
    decreases s.len(),
{
    if s.len() == 0 {
        Seq::empty()
    } else {
        trait_items_visits(s.subrange(0, s.len() - 1), sc) + trait_item_visits(s[s.len() - 1], sc)
    }
}

/// The offers made by discovery over an item, with `sc` in scope. Only structs, enums,
/// unions and traits are walked.
pub open spec fn item_visits(item: Item, sc: Seq<Seq<char>>) -> Seq<Visit> {
    match item {
        Item::Struct(s) => {
            let sc2 = sc + param_names(s.generics.params@);
            generics_visits(s.generics, sc2) + fields_visits(s.fields, sc2)
        },
        Item::Enum(e) => {
            let sc2 = sc + param_names(e.generics.params@);
            generics_visits(e.generics, sc2) + variants_visits(e.variants@, sc2)
        },
        Item::Union(u) => {
            let sc2 = sc + param_names(u.generics.params@);
            generics_visits(u.generics, sc2) + field_list_visits(u.fields@, sc2)
        },
        Item::Trait(tr) => {
            let sc2 = sc + param_names(tr.generics.params@);
            generics_visits(tr.generics, sc2) + bounds_visits(tr.supertraits@, sc2)
                + trait_items_visits(tr.items@, sc2)
        },
        Item::Other(_) => Seq::empty(),
    }
}

/// `scope` with the type and const parameters of `ps` added.
pub fn extend_scope(scope: &Vec<String>, ps: &Vec<GenericParam>) -> (r: Vec<String>)
    ensures
        texts(r@) == texts(scope@) + param_names(ps@),
{
    let mut r = crate::syntax::copy_strings(scope);
    let mut i: usize = 0;
    assert(ps@.subrange(0, 0).len() == 0);
    while i < ps.len()
        invariant
            i <= ps@.len(),
            texts(r@) == texts(scope@) + param_names(ps@.subrange(0, i as int)),
        decreases ps@.len() - i,
    {
        proof {
            assert(ps@.subrange(0, i + 1).subrange(0, i as int) =~= ps@.subrange(0, i as int));
        }
        match &ps[i] {
            GenericParam::Type { ident, .. } => {
                let ghost before = r@;
                r.push(ident.clone());
                assert(texts(r@) =~= texts(before).push(ident@));
                assert(texts(r@) =~= texts(scope@) + param_names(ps@.subrange(0, i + 1)));
            },
            GenericParam::Const { ident, .. } => {
                let ghost before = r@;
                r.push(ident.clone());
                assert(texts(r@) =~= texts(before).push(ident@));
                assert(texts(r@) =~= texts(scope@) + param_names(ps@.subrange(0, i + 1)));
            },
            GenericParam::Lifetime { .. } => {},
        }
        i = i + 1;
    }
    assert(ps@.subrange(0, ps@.len() as int) =~= ps@);
    r
}

fn walk_opt_type(map: &mut AliasMap, t: usize, scope: &Vec<String>, o: &Option<Type>)
    requires
        old(map).wf(),
        t < old(map).tables@.len(),
    ensures
        walked(*old(map), *final(map), t as int, opt_type_visits(*o, texts(scope@))),
{
    proof {
        lemma_walked_refl(*map, t as int);
    }
    match o {
        Some(ty) => walk_type(map, t, scope, ty),
        None => {},
    }
}

fn walk_opt_expr(map: &mut AliasMap, t: usize, scope: &Vec<String>, o: &Option<Expr>)
    requires
        old(map).wf(),
        t < old(map).tables@.len(),
    ensures
        walked(*old(map), *final(map), t as int, opt_expr_visits(*o, texts(scope@))),
{
    proof {
        lemma_walked_refl(*map, t as int);
    }
    match o {
        Some(e) => walk_expr(map, t, scope, e),
        None => {},
    }
}

fn walk_param(map: &mut AliasMap, t: usize, scope: &Vec<String>, p: &GenericParam)
    requires
        old(map).wf(),
        t < old(map).tables@.len(),
    ensures
        walked(*old(map), *final(map), t as int, param_visits(*p, texts(scope@))),
{
    let ghost m0 = *map;
    let ghost sc = texts(scope@);
    proof {
        lemma_walked_refl(m0, t as int);
    }
    match p {
        GenericParam::Lifetime { .. } => {},
        GenericParam::Type { bounds, default, .. } => {
            walk_bounds(map, t, scope, bounds);
            let ghost m1 = *map;
            walk_opt_type(map, t, scope, default);
            proof {
                lemma_walked_trans(m0, m1, *map, t as int, bounds_visits(bounds@, sc), opt_type_visits(*default, sc));
            }
        },
        GenericParam::Const { ty, default, .. } => {
            walk_type(map, t, scope, ty);
            let ghost m1 = *map;
            walk_opt_expr(map, t, scope, default);
            proof {
                lemma_walked_trans(m0, m1, *map, t as int, type_visits(*ty, sc), opt_expr_visits(*default, sc));
            }
        },
    }
}

fn walk_predicate(map: &mut AliasMap, t: usize, scope: &Vec<String>, p: &WherePredicate)
    requires
        old(map).wf(),
        t < old(map).tables@.len(),
    ensures
        walked(*old(map), *final(map), t as int, predicate_visits(*p, texts(scope@))),
{
    let ghost m0 = *map;
    let ghost sc = texts(scope@);
    proof {
        lemma_walked_refl(m0, t as int);
    }
    match p {
        WherePredicate::Type { bounded_ty, bounds, .. } => {
            walk_type(map, t, scope, bounded_ty);
            let ghost m1 = *map;
            walk_bounds(map, t, scope, bounds);
            proof {
                lemma_walked_trans(m0, m1, *map, t as int, type_visits(*bounded_ty, sc), bounds_visits(bounds@, sc));
            }
        },
        WherePredicate::Lifetime { .. } => {},
    }
}

fn walk_params(map: &mut AliasMap, t: usize, scope: &Vec<String>, v: &Vec<GenericParam>)
    requires
        old(map).wf(),
        t < old(map).tables@.len(),
    ensures
        walked(*old(map), *final(map), t as int, params_visits(v@, texts(scope@))),
{
    let ghost m0 = *map;
    let ghost sc = texts(scope@);
    proof {
        lemma_walked_refl(m0, t as int);
        assert(v@.subrange(0, 0).len() == 0);
    }
    let mut i: usize = 0;
    while i < v.len()
        invariant
            i <= v@.len(),
            m0.wf(),
            t < m0.tables@.len(),
            sc == texts(scope@),
            walked(m0, *map, t as int, params_visits(v@.subrange(0, i as int), sc)),
        decreases v@.len() - i,
    {
        let ghost m1 = *map;
        walk_param(map, t, scope, &v[i]);
        proof {
            lemma_walked_trans(
                m0,
                m1,
                *map,
                t as int,
                params_visits(v@.subrange(0, i as int), sc),
                param_visits(v@[i as int], sc),
            );
            assert(v@.subrange(0, i + 1).subrange(0, i as int) =~= v@.subrange(0, i as int));
        }
        i = i + 1;
    }
    assert(v@.subrange(0, v@.len() as int) =~= v@);
}

fn walk_predicates(map: &mut AliasMap, t: usize, scope: &Vec<String>, v: &Vec<WherePredicate>)
    requires
        old(map).wf(),
        t < old(map).tables@.len(),
    ensures
        walked(*old(map), *final(map), t as int, predicates_visits(v@, texts(scope@))),
{
    let ghost m0 = *map;
    let ghost sc = texts(scope@);
    proof {
        lemma_walked_refl(m0, t as int);
        assert(v@.subrange(0, 0).len() == 0);
    }
    let mut i: usize = 0;
    while i < v.len()
        invariant
            i <= v@.len(),
            m0.wf(),
            t < m0.tables@.len(),
            sc == texts(scope@),
            walked(m0, *map, t as int, predicates_visits(v@.subrange(0, i as int), sc)),
        decreases v@.len() - i,
    {
        let ghost m1 = *map;
        walk_predicate(map, t, scope, &v[i]);
        proof {
            lemma_walked_trans(
                m0,
                m1,
                *map,
                t as int,
                predicates_visits(v@.subrange(0, i as int), sc),
                predicate_visits(v@[i as int], sc),
            );
            assert(v@.subrange(0, i + 1).subrange(0, i as int) =~= v@.subrange(0, i as int));
        }
        i = i + 1;
    }
    assert(v@.subrange(0, v@.len() as int) =~= v@);
}

fn walk_generics(map: &mut AliasMap, t: usize, scope: &Vec<String>, g: &Generics)
    requires
        old(map).wf(),
        t < old(map).tables@.len(),
    ensures
        walked(*old(map), *final(map), t as int, generics_visits(*g, texts(scope@))),
{
    let ghost m0 = *map;
    let ghost sc = texts(scope@);
    walk_params(map, t, scope, &g.params);
    let ghost m1 = *map;
    match &g.where_clause {
        Some(w) => walk_predicates(map, t, scope, w),
        None => {
            proof {
                lemma_walked_refl(m1, t as int);
            }
        },
    }
    proof {
        lemma_walked_trans(
            m0,
            m1,
            *map,
            t as int,
            params_visits(g.params@, sc),
            where_visits(*g, sc),
        );
    }
}

fn walk_field_list(map: &mut AliasMap, t: usize, scope: &Vec<String>, v: &Vec<Field>)
    requires
        old(map).wf(),
        t < old(map).tables@.len(),
    ensures
        walked(*old(map), *final(map), t as int, field_list_visits(v@, texts(scope@))),
{
    let ghost m0 = *map;
    let ghost sc = texts(scope@);
    proof {
        lemma_walked_refl(m0, t as int);
        assert(v@.subrange(0, 0).len() == 0);
    }
    let mut i: usize = 0;
    while i < v.len()
        invariant
            i <= v@.len(),
            m0.wf(),
            t < m0.tables@.len(),
            sc == texts(scope@),
            walked(m0, *map, t as int, field_list_visits(v@.subrange(0, i as int), sc)),
        decreases v@.len() - i,
    {
        let ghost m1 = *map;
        walk_type(map, t, scope, &&v[i].ty);
        proof {
            lemma_walked_trans(
                m0,
                m1,
                *map,
                t as int,
                field_list_visits(v@.subrange(0, i as int), sc),
                type_visits(v@[i as int].ty, sc),
            );
            assert(v@.subrange(0, i + 1).subrange(0, i as int) =~= v@.subrange(0, i as int));
        }
        i = i + 1;
    }
    assert(v@.subrange(0, v@.len() as int) =~= v@);
}

fn walk_fields(map: &mut AliasMap, t: usize, scope: &Vec<String>, f: &Fields)
    requires
        old(map).wf(),
        t < old(map).tables@.len(),
    ensures
        walked(*old(map), *final(map), t as int, fields_visits(*f, texts(scope@))),
{
    proof {
        lemma_walked_refl(*map, t as int);
    }
    match f {
        Fields::Named(v) => walk_field_list(map, t, scope, v),
        Fields::Unnamed(v) => walk_field_list(map, t, scope, v),
        Fields::Unit => {},
    }
}

fn walk_variant(map: &mut AliasMap, t: usize, scope: &Vec<String>, v: &Variant)
    requires
        old(map).wf(),
        t < old(map).tables@.len(),
    ensures
        walked(*old(map), *final(map), t as int, variant_visits(*v, texts(scope@))),
{
    let ghost m0 = *map;
    let ghost sc = texts(scope@);
    walk_fields(map, t, scope, &v.fields);
    let ghost m1 = *map;
    walk_opt_expr(map, t, scope, &v.discriminant);
    proof {
        lemma_walked_trans(m0, m1, *map, t as int, fields_visits(v.fields, sc), opt_expr_visits(v.discriminant, sc));
    }
}

fn walk_fn_arg(map: &mut AliasMap, t: usize, scope: &Vec<String>, a: &FnArg)
    requires
        old(map).wf(),
        t < old(map).tables@.len(),
    ensures
        walked(*old(map), *final(map), t as int, fn_arg_visits(*a, texts(scope@))),
{
    proof {
        lemma_walked_refl(*map, t as int);
    }
    match a {
        FnArg::Receiver(Some(ty)) => walk_type(map, t, scope, ty),
        FnArg::Receiver(None) => {},
        FnArg::Typed(ty) => walk_type(map, t, scope, ty),
    }
}

fn walk_variants(map: &mut AliasMap, t: usize, scope: &Vec<String>, v: &Vec<Variant>)
    requires
        old(map).wf(),
        t < old(map).tables@.len(),
    ensures
        walked(*old(map), *final(map), t as int, variants_visits(v@, texts(scope@))),
{
    let ghost m0 = *map;
    let ghost sc = texts(scope@);
    proof {
        lemma_walked_refl(m0, t as int);
        assert(v@.subrange(0, 0).len() == 0);
    }
    let mut i: usize = 0;
    while i < v.len()
        invariant
            i <= v@.len(),
            m0.wf(),
            t < m0.tables@.len(),
            sc == texts(scope@),
            walked(m0, *map, t as int, variants_visits(v@.subrange(0, i as int), sc)),
        decreases v@.len() - i,
    {
        let ghost m1 = *map;
        walk_variant(map, t, scope, &v[i]);
        proof {
            lemma_walked_trans(
                m0,
                m1,
                *map,
                t as int,
                variants_visits(v@.subrange(0, i as int), sc),
                variant_visits(v@[i as int], sc),
            );
            assert(v@.subrange(0, i + 1).subrange(0, i as int) =~= v@.subrange(0, i as int));
        }
        i = i + 1;
    }
    assert(v@.subrange(0, v@.len() as int) =~= v@);
}

fn walk_fn_args(map: &mut AliasMap, t: usize, scope: &Vec<String>, v: &Vec<FnArg>)
    requires
        old(map).wf(),
        t < old(map).tables@.len(),
    ensures
        walked(*old(map), *final(map), t as int, fn_args_visits(v@, texts(scope@))),
{
    let ghost m0 = *map;
    let ghost sc = texts(scope@);
    proof {
        lemma_walked_refl(m0, t as int);
        assert(v@.subrange(0, 0).len() == 0);
    }
    let mut i: usize = 0;
    while i < v.len()
        invariant
            i <= v@.len(),
            m0.wf(),
            t < m0.tables@.len(),
            sc == texts(scope@),
            walked(m0, *map, t as int, fn_args_visits(v@.subrange(0, i as int), sc)),
        decreases v@.len() - i,
    {
        let ghost m1 = *map;
        walk_fn_arg(map, t, scope, &v[i]);
        proof {
            lemma_walked_trans(
                m0,
                m1,
                *map,
                t as int,
                fn_args_visits(v@.subrange(0, i as int), sc),
                fn_arg_visits(v@[i as int], sc),
            );
            assert(v@.subrange(0, i + 1).subrange(0, i as int) =~= v@.subrange(0, i as int));
        }
        i = i + 1;
    }
    assert(v@.subrange(0, v@.len() as int) =~= v@);
}

fn walk_trait_item(map: &mut AliasMap, t: usize, scope: &Vec<String>, ti: &TraitItem)
    requires
        old(map).wf(),
        t < old(map).tables@.len(),
    ensures
        walked(*old(map), *final(map), t as int, trait_item_visits(*ti, texts(scope@))),
{
    let ghost m0 = *map;
    let ghost sc = texts(scope@);
    proof {
        lemma_walked_refl(m0, t as int);
    }
    match ti {
        TraitItem::Fn { generics, inputs, output, .. } => {
            let inner = extend_scope(scope, &generics.params);
            let ghost sc2 = texts(inner@);
            walk_generics(map, t, &inner, generics);
            let ghost m1 = *map;
            walk_fn_args(map, t, &inner, inputs);
            proof {
                lemma_walked_trans(m0, m1, *map, t as int, generics_visits(*generics, sc2), fn_args_visits(inputs@, sc2));
            }
            let ghost m2 = *map;
            walk_opt_type(map, t, &inner, output);
            proof {
                lemma_walked_trans(
                    m0,
                    m2,
                    *map,
                    t as int,
                    generics_visits(*generics, sc2) + fn_args_visits(inputs@, sc2),
                    opt_type_visits(*output, sc2),
                );
            }
        },
        TraitItem::Type { generics, bounds, default, .. } => {
            let inner = extend_scope(scope, &generics.params);
            let ghost sc2 = texts(inner@);
            walk_generics(map, t, &inner, generics);
            let ghost m1 = *map;
            walk_bounds(map, t, &inner, bounds);
            proof {
                lemma_walked_trans(m0, m1, *map, t as int, generics_visits(*generics, sc2), bounds_visits(bounds@, sc2));
            }
            let ghost m2 = *map;
            walk_opt_type(map, t, &inner, default);
            proof {
                lemma_walked_trans(
                    m0,
                    m2,
                    *map,
                    t as int,
                    generics_visits(*generics, sc2) + bounds_visits(bounds@, sc2),
                    opt_type_visits(*default, sc2),
                );
            }
        },
        TraitItem::Const { ty, default, .. } => {
            walk_type(map, t, scope, ty);
            let ghost m1 = *map;
            walk_opt_expr(map, t, scope, default);
            proof {
                lemma_walked_trans(m0, m1, *map, t as int, type_visits(*ty, sc), opt_expr_visits(*default, sc));
            }
        },
        TraitItem::Verbatim(_) => {},
    }
}

fn walk_trait_items(map: &mut AliasMap, t: usize, scope: &Vec<String>, v: &Vec<TraitItem>)
    requires
        old(map).wf(),
        t < old(map).tables@.len(),
    ensures
        walked(*old(map), *final(map), t as int, trait_items_visits(v@, texts(scope@))),
{
    let ghost m0 = *map;
    let ghost sc = texts(scope@);
    proof {
        lemma_walked_refl(m0, t as int);
        assert(v@.subrange(0, 0).len() == 0);
    }
    let mut i: usize = 0;
    while i < v.len()
        invariant
            i <= v@.len(),
            m0.wf(),
            t < m0.tables@.len(),
            sc == texts(scope@),
            walked(m0, *map, t as int, trait_items_visits(v@.subrange(0, i as int), sc)),
        decreases v@.len() - i,
    {
        let ghost m1 = *map;
        walk_trait_item(map, t, scope, &v[i]);
        proof {
            lemma_walked_trans(
                m0,
                m1,
                *map,
                t as int,
                trait_items_visits(v@.subrange(0, i as int), sc),
                trait_item_visits(v@[i as int], sc),
            );
            assert(v@.subrange(0, i + 1).subrange(0, i as int) =~= v@.subrange(0, i as int));
        }
        i = i + 1;
    }
    assert(v@.subrange(0, v@.len() as int) =~= v@);
}

/// Walks an item with `scope` in scope and offers every free type path and trait bound
/// in it to table `t`, in pre-order (see [`item_visits`]).
pub fn walk_item(map: &mut AliasMap, t: usize, scope: &Vec<String>, item: &Item)
    requires
        old(map).wf(),
        t < old(map).tables@.len(),
    ensures
        walked(*old(map), *final(map), t as int, item_visits(*item, texts(scope@))),
{
    let ghost m0 = *map;
    proof {
        lemma_walked_refl(m0, t as int);
    }
    match item {
        Item::Struct(s) => {
            let inner = extend_scope(scope, &s.generics.params);
            let ghost sc2 = texts(inner@);
            walk_generics(map, t, &inner, &s.generics);
            let ghost m1 = *map;
            walk_fields(map, t, &inner, &s.fields);
            proof {
                lemma_walked_trans(m0, m1, *map, t as int, generics_visits(s.generics, sc2), fields_visits(s.fields, sc2));
            }
        },
        Item::Enum(e) => {
            let inner = extend_scope(scope, &e.generics.params);
            let ghost sc2 = texts(inner@);
            walk_generics(map, t, &inner, &e.generics);
            let ghost m1 = *map;
            walk_variants(map, t, &inner, &e.variants);
            proof {
                lemma_walked_trans(m0, m1, *map, t as int, generics_visits(e.generics, sc2), variants_visits(e.variants@, sc2));
            }
        },
        Item::Union(u) => {
            let inner = extend_scope(scope, &u.generics.params);
            let ghost sc2 = texts(inner@);
            walk_generics(map, t, &inner, &u.generics);
            let ghost m1 = *map;
            walk_field_list(map, t, &inner, &u.fields);
            proof {
                lemma_walked_trans(m0, m1, *map, t as int, generics_visits(u.generics, sc2), field_list_visits(u.fields@, sc2));
            }
        },
        Item::Trait(tr) => {
            let inner = extend_scope(scope, &tr.generics.params);
            let ghost sc2 = texts(inner@);
            walk_generics(map, t, &inner, &tr.generics);
            let ghost m1 = *map;
            walk_bounds(map, t, &inner, &tr.supertraits);
            proof {
                lemma_walked_trans(m0, m1, *map, t as int, generics_visits(tr.generics, sc2), bounds_visits(tr.supertraits@, sc2));
            }
            let ghost m2 = *map;
            walk_trait_items(map, t, &inner, &tr.items);
            proof {
                lemma_walked_trans(
                    m0,
                    m2,
                    *map,
                    t as int,
                    generics_visits(tr.generics, sc2) + bounds_visits(tr.supertraits@, sc2),
                    trait_items_visits(tr.items@, sc2),
                );
            }
        },
        Item::Other(_) => {},
    }
}

/// Discovery over an item into table `t`, with the parameters of `generics` bound.
pub fn identify_aliases(map: &mut AliasMap, t: usize, generics: &Generics, item: &Item)
    requires
        old(map).wf(),
        t < old(map).tables@.len(),
    ensures
        walked(*old(map), *final(map), t as int, item_visits(*item, param_names(generics.params@))),
{
    let v = IdentifyAliases::new(generics, t);
    v.visit_item(map, item);
}

/// A discovery pass into one table, with the parameters of the surrounding generics
/// bound.
pub struct IdentifyAliases {
    pub table: usize,
    pub parameters: Vec<String>,
}

impl IdentifyAliases {
    pub fn new(generics: &Generics, table: usize) -> (r: IdentifyAliases)
        ensures
            r.table == table,
            texts(r.parameters@) == param_names(generics.params@),
    {
        let empty: Vec<String> = Vec::new();
        assert(texts(empty@) =~= Seq::<Seq<char>>::empty());
        let parameters = extend_scope(&empty, &generics.params);
        assert(texts(parameters@) =~= param_names(generics.params@));
        IdentifyAliases { table, parameters }
    }

    /// Walks `item` and offers what it finds to the pass's table.
    pub fn visit_item(&self, map: &mut AliasMap, item: &Item)
        requires
            old(map).wf(),
            self.table < old(map).tables@.len(),
        ensures
            walked(
                *old(map),
                *final(map),
                self.table as int,
                item_visits(*item, texts(self.parameters@)),
            ),
    {
        walk_item(map, self.table, &self.parameters, item);
    }
}

} // verus!
