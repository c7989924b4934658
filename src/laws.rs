//! Properties of the alias table that hold across calls.
use vstd::prelude::*;

use crate::error::Kind;
use crate::map::{
    chain_lookup, first_match, insert_effect, insert_outcome, insert_trait_outcome,
    insert_type_outcome, AliasKind, AliasMap,
};
use crate::signature::{last_kinds, normalize_spec, normalize_type_spec, segment_kinds, signature_of};
use crate::identify::{entries_view, item_visits, param_names, parent_sigs, walked};
use crate::emit::{all_exact, all_public, exact_spec, module_spec, public_spec};
use crate::map::{index_text, Alias, Index};
use crate::prune::{kept_params, param_used, NameUse};
use crate::syntax::{is_ident_spec, GenericParam, Generics, Item, Path, TypePath};

verus! {

/// Inserting a type path that was just filed gives `false` and leaves the table as it
/// was: the first insertion of a path returns true, the second false, and the second
/// adds no entry.
pub proof fn insert_twice_is_idempotent(
    m0: AliasMap,
    m1: AliasMap,
    m2: AliasMap,
    t: int,
    ty: TypePath,
)
    requires
        m0.wf(),
        0 <= t < m0.tables@.len(),
        insert_type_outcome(m0, t, ty) == Ok::<bool, Kind>(true),
        insert_effect(m0, m1, t, ty.path, AliasKind::Type, insert_type_outcome(m0, t, ty)),
        insert_effect(m1, m2, t, ty.path, AliasKind::Type, insert_type_outcome(m1, t, ty)),
    ensures
        insert_type_outcome(m1, t, ty) == Ok::<bool, Kind>(false),
        m2 == m1,
        m2.tables@[t].lookup@.len() == m0.tables@[t].lookup@.len() + 1,
{
    let s = normalize_spec(ty.path)->Ok_0.0;
    let e = m1.tables@[t].lookup@;
    let n = m0.tables@[t].lookup@.len();
    assert(e[n as int].sig@ == s);
    crate::map::lemma_first_match_props(e, s);
    assert(first_match(e, s) is Some);
    assert(chain_lookup(m1.tables@, t, s) is Some);
}

/// The bare path `Self` is never filed: as a type it gives `false` and changes nothing,
/// and as a trait it never gives `true`.
pub proof fn self_is_never_filed(
    m0: AliasMap,
    m1: AliasMap,
    m2: AliasMap,
    t: int,
    ty: TypePath,
)
    requires
        ty.qself is None,
        is_ident_spec(ty.path, "Self"@),
        insert_effect(m0, m1, t, ty.path, AliasKind::Type, insert_type_outcome(m0, t, ty)),
        insert_effect(m0, m2, t, ty.path, AliasKind::Trait, insert_trait_outcome(m0, t, ty.path)),
    ensures
        insert_type_outcome(m0, t, ty) == Ok::<bool, Kind>(false),
        m1 == m0,
        insert_trait_outcome(m0, t, ty.path) != Ok::<bool, Kind>(true),
        m2 == m0,
{
}

/// Two paths that differ only in the values of their last segment's generic
/// arguments, not in their kinds, normalize to the same signature and the same
/// placeholder arguments.
pub proof fn signature_ignores_argument_values(p: Path, q: Path)
    requires
        normalize_spec(p) is Ok,
        normalize_spec(q) is Ok,
        p.leading_colon == q.leading_colon,
        p.segments@.len() == q.segments@.len(),
        forall|i: int|
            0 <= i < p.segments@.len() ==> #[trigger] p.segments@[i].ident@ == q.segments@[i].ident@,
        last_kinds(p) == last_kinds(q),
    ensures
        normalize_spec(p) == normalize_spec(q),
{
    assert(signature_of(p).idents =~= signature_of(q).idents);
}

/// Paths with equal signatures have the same leading `::`, the same identifiers and the
/// same counts of lifetime, type and const arguments; so paths with different
/// identifiers never share an alias.
pub proof fn equal_signatures_have_equal_paths(p: Path, q: Path)
    requires
        normalize_spec(p) is Ok,
        normalize_spec(q) is Ok,
        normalize_spec(p)->Ok_0.0 == normalize_spec(q)->Ok_0.0,
    ensures
        p.leading_colon == q.leading_colon,
        p.segments@.len() == q.segments@.len(),
        forall|i: int|
            0 <= i < p.segments@.len() ==> #[trigger] p.segments@[i].ident@ == q.segments@[i].ident@,
        signature_of(p).lifetime_count == signature_of(q).lifetime_count,
        signature_of(p).type_count == signature_of(q).type_count,
        signature_of(p).const_count == signature_of(q).const_count,
{
    let a = signature_of(p).idents;
    let b = signature_of(q).idents;
    assert(a.len() == p.segments@.len());
    assert(b.len() == q.segments@.len());
    assert forall|i: int| 0 <= i < p.segments@.len() implies #[trigger] p.segments@[i].ident@
        == q.segments@[i].ident@ by {
        assert(a[i] == b[i]);
    }
}

/// With no explicit policy, a trait path written as one bare identifier is refused
/// with a `Trait` error, while a qualified one (leading `::` or several segments) is
/// filed exactly as a type path would be, unless it is closure-style (`Fn(A) -> B`),
/// which is refused with a `Closure` error.
pub proof fn unqualified_traits_are_refused(m: AliasMap, t: int, p: Path)
    requires
        m.root.alias_traits is None,
    ensures
        !p.leading_colon && p.segments@.len() == 1 ==> insert_trait_outcome(m, t, p) == Err::<
            bool,
            Kind,
        >(Kind::Trait),
        (p.leading_colon || p.segments@.len() > 1) && !crate::map::is_closure_style(p)
            ==> insert_trait_outcome(m, t, p) == insert_outcome(m, t, p),
        (p.leading_colon || p.segments@.len() > 1) && crate::map::is_closure_style(p)
            ==> insert_trait_outcome(m, t, p) == Err::<bool, Kind>(Kind::Closure),
{
}

/// A type path with a `<T as Trait>` prefix, or with positional generic arguments on a
/// segment before the last, is refused as an associated type.
pub proof fn associated_types_are_refused(ty: TypePath, i: int)
    requires
        ty.qself is Some || (0 <= i && i + 1 < ty.path.segments@.len() && segment_kinds(
            ty.path.segments@[i].arguments,
        ).len() > 0),
    ensures
        normalize_type_spec(ty) == Err::<(crate::signature::SigView, Seq<crate::signature::ArgKind>), Kind>(
            Kind::AssociatedType,
        ),
{
}


/// Discovery depends on nothing but its input: two walks over the same item, from
/// tables that hold the same entries, resolve the same signatures through their parents
/// and follow the same trait policy, file the same entries in the same order. The
/// aliases then listed, and the identifiers generated for them, are the same.
pub proof fn discovery_is_deterministic(
    a0: AliasMap,
    a1: AliasMap,
    b0: AliasMap,
    b1: AliasMap,
    t: int,
    item: Item,
    generics: Generics,
)
    requires
        0 <= t < a0.tables@.len(),
        0 <= t < b0.tables@.len(),
        entries_view(a0.tables@[t].lookup@) == entries_view(b0.tables@[t].lookup@),
        a0.root.alias_traits == b0.root.alias_traits,
        parent_sigs(a0, t) == parent_sigs(b0, t),
        (a0.tables@[t].primary is Some) == (b0.tables@[t].primary is Some),
        walked(a0, a1, t, item_visits(item, param_names(generics.params@))),
        walked(b0, b1, t, item_visits(item, param_names(generics.params@))),
    ensures
        entries_view(a1.tables@[t].lookup@) == entries_view(b1.tables@[t].lookup@),
        a1.aliases_spec(t) == b1.aliases_spec(t),
        forall|j: int|
            0 <= j < a1.aliases_spec(t).len() ==> index_text(#[trigger] a1.aliases_spec(t)[j].index)
                == index_text(b1.aliases_spec(t)[j].index),
{
    let ea = a1.tables@[t].lookup@;
    let eb = b1.tables@[t].lookup@;
    assert(ea.len() == entries_view(ea).len());
    assert(eb.len() == entries_view(eb).len());
    assert forall|j: int| 0 <= j < ea.len() implies ea[j].kind == eb[j].kind by {
        assert(entries_view(ea)[j] == entries_view(eb)[j]);
    }
    assert(a1.aliases_spec(t) =~= b1.aliases_spec(t));
}

/// Pruning keeps exactly the parameters that are mentioned: a parameter survives if and
/// only if it was in the list and its name is among the names used.
pub proof fn pruning_keeps_exactly_the_used(ps: Seq<GenericParam>, uses: Seq<NameUse>)
    ensures
        forall|p: GenericParam|
            #[trigger] kept_params(ps, uses).contains(p) <==> (ps.contains(p) && param_used(p, uses)),
    decreases ps.len(),
{
    if ps.len() > 0 {
        let init = ps.subrange(0, ps.len() - 1);
        let last = ps[ps.len() - 1];
        pruning_keeps_exactly_the_used(init, uses);
        let ki = kept_params(init, uses);
        let k = kept_params(ps, uses);
        assert(ps.subrange(0, ps.len() - 1) == init);
        assert forall|p: GenericParam| #[trigger] k.contains(p) <==> (ps.contains(p) && param_used(
            p,
            uses,
        )) by {
            if k.contains(p) {
                let i = choose|i: int| 0 <= i < k.len() && k[i] == p;
                if param_used(last, uses) && i == k.len() - 1 {
                    assert(ps[ps.len() - 1] == p);
                } else {
                    assert(ki[i] == p);
                    assert(ki.contains(p));
                    let j = choose|j: int| 0 <= j < init.len() && init[j] == p;
                    assert(ps[j] == p);
                }
            }
            if ps.contains(p) && param_used(p, uses) {
                let i = choose|i: int| 0 <= i < ps.len() && ps[i] == p;
                if i == ps.len() - 1 {
                    assert(k[k.len() - 1] == p);
                } else {
                    assert(init[i] == p);
                    assert(ki.contains(p));
                    let j = choose|j: int| 0 <= j < ki.len() && ki[j] == p;
                    assert(k[j] == p);
                }
            }
        }
    }
}


/// Two tables that agree on everything emission reads: their entries, their primary
/// entry, their module, unique identifier, and the library path.
pub open spec fn same_for_emission(a: AliasMap, b: AliasMap, t: int) -> bool {
    let ta = a.tables@[t];
    let tb = b.tables@[t];
    &&& 0 <= t < a.tables@.len()
    &&& 0 <= t < b.tables@.len()
    &&& entries_view(ta.lookup@) == entries_view(tb.lookup@)
    &&& (ta.primary is Some) == (tb.primary is Some)
    &&& ta.primary is Some ==> ta.primary->Some_0.0@ == tb.primary->Some_0.0@
    &&& ta.module.visibility@ == tb.module.visibility@
    &&& ta.module.ident@ == tb.module.ident@
    &&& ta.unique_ident@ == tb.unique_ident@
    &&& match (a.root.telety_path, b.root.telety_path) {
        (Some(p), Some(q)) => p@ == q@,
        (None, None) => true,
        _ => false,
    }
}

proof fn lemma_same_alias_decls(a: AliasMap, b: AliasMap, t: int, x: Alias)
    requires
        same_for_emission(a, b, t),
        x.table == t,
        x.index matches Index::Secondary(j) ==> j < a.tables@[t].lookup@.len(),
    ensures
        exact_spec(a, x) == exact_spec(b, x),
        public_spec(a, x) == public_spec(b, x),
{
    match x.index {
        Index::Secondary(j) => {
            let ea = entries_view(a.tables@[t].lookup@);
            let eb = entries_view(b.tables@[t].lookup@);
            assert(ea.len() == a.tables@[t].lookup@.len());
            assert(eb.len() == b.tables@[t].lookup@.len());
            assert(ea[j as int] == eb[j as int]);
            assert(ea[j as int] == crate::identify::entry_view(a.tables@[t].lookup@[j as int]));
            assert(eb[j as int] == crate::identify::entry_view(b.tables@[t].lookup@[j as int]));
            assert(crate::emit::entry_of(a, x).sig@ == crate::emit::entry_of(b, x).sig@);
            assert(crate::emit::entry_of(a, x).arguments.kinds@ == crate::emit::entry_of(b, x).arguments.kinds@);
            assert(exact_spec(a, x) == exact_spec(b, x));
        },
        Index::Primary => {},
    }
}

proof fn lemma_same_all_decls(a: AliasMap, b: AliasMap, t: int, s: Seq<Alias>)
    requires
        same_for_emission(a, b, t),
        forall|i: int|
            0 <= i < s.len() ==> (#[trigger] s[i]).table == t && (s[i].index matches Index::Secondary(
                j,
            ) ==> j < a.tables@[t].lookup@.len()),
    ensures
        all_exact(a, s) == all_exact(b, s),
        all_public(a, s) == all_public(b, s),
    decreases s.len(),
{
    if s.len() > 0 {
        let init = s.subrange(0, s.len() - 1);
        assert forall|i: int| 0 <= i < init.len() implies (#[trigger] init[i]).table == t && (
        init[i].index matches Index::Secondary(j) ==> j < a.tables@[t].lookup@.len()) by {
            assert(init[i] == s[i]);
        }
        lemma_same_all_decls(a, b, t, init);
        lemma_same_alias_decls(a, b, t, s[s.len() - 1]);
    }
}

/// Emission depends on nothing but what the table holds: two tables with the same
/// entries, primary entry, module and identifiers generate the same declarations, with
/// the same identifiers, whichever invocation built them.
pub proof fn generation_is_deterministic(a: AliasMap, b: AliasMap, t: int)
    requires
        same_for_emission(a, b, t),
    ensures
        module_spec(a, t) == module_spec(b, t),
{
    let ea = a.tables@[t].lookup@;
    let eb = b.tables@[t].lookup@;
    assert(ea.len() == entries_view(ea).len());
    assert(eb.len() == entries_view(eb).len());
    assert forall|j: int| 0 <= j < ea.len() implies ea[j].kind == eb[j].kind by {
        assert(entries_view(ea)[j] == entries_view(eb)[j]);
    }
    assert(a.aliases_spec(t) =~= b.aliases_spec(t));
    let s = a.aliases_spec(t);
    assert(a.tables.len() as int == a.tables@.len());
    assert((t as usize) as int == t);
    assert forall|i: int| 0 <= i < s.len() implies (#[trigger] s[i]).table == t && (
    s[i].index matches Index::Secondary(j) ==> j < a.tables@[t].lookup@.len()) by {
        let n = ea.len();
        let sec = Seq::new(
            n,
            |j: int| Alias { table: t as usize, index: Index::Secondary(j as usize), kind: ea[j].kind },
        );
        if a.tables@[t].primary is Some {
            assert(s == seq![Alias { table: t as usize, index: Index::Primary, kind: crate::map::AliasKind::Type }] + sec);
            if i > 0 {
                assert(s[i] == sec[i - 1]);
            }
        } else {
            assert(s == sec);
            assert(s[i] == sec[i]);
        }
    }
    lemma_same_all_decls(a, b, t, s);
}

} // verus!
