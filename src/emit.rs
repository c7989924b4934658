//! Emission: the declarations that make each alias reachable from anywhere.
//!
//! For every alias of a table, primary first, the generated module holds a fixed
//! re-export of the aliased path (in an inner module `exact`) and a public declaration
//! of the alias's identifier. Declarations are produced as a small tree of [`Decl`]s;
//! writing them out as Rust tokens is a direct rendering of each node.
use vstd::prelude::*;

use crate::map::{index_text, Alias, AliasKind, AliasMap, Index};
use crate::signature::ArgKind;
use crate::syntax::{texts, ModPath, ModPathView, Visibility, VisibilityView};
use crate::visibility::{restricted, super_vis_spec, super_visibility, vis_well_formed};

verus! {

/// One generated declaration.
#[derive(Debug, PartialEq, Eq)]
pub enum Decl {
    /// `vis use path as ident;`
    Use { vis: Visibility, path: ModPath, ident: String },
    /// `vis use path::*;`
    Glob { vis: Visibility, path: ModPath },
    /// `vis type ident<P..> = target<P..>;`, with one placeholder parameter per kind:
    /// `'l0, 'l1, ..` for lifetimes, `T0, ..` for types, `const C0, ..` for consts.
    TypeAlias { vis: Visibility, ident: String, params: Vec<ArgKind>, target: ModPath },
    /// `vis mod ident { items }`
    Module { vis: Visibility, ident: String, items: Vec<Decl> },
    /// A macro `ident`, exported from the crate when `export`, that invokes the macro
    /// found at `target` if there is one and expands to nothing otherwise; `maker` names
    /// the helper macro that carries the expansion out of its scope.
    ForwardingMacro {
        export: bool,
        ident: String,
        target: ModPath,
        maker: String,
        telety_path: Option<ModPath>,
    },
}

pub enum DeclView {
    Use { vis: VisibilityView, path: ModPathView, ident: Seq<char> },
    Glob { vis: VisibilityView, path: ModPathView },
    TypeAlias { vis: VisibilityView, ident: Seq<char>, params: Seq<ArgKind>, target: ModPathView },
    Module { vis: VisibilityView, ident: Seq<char>, items: Seq<DeclView> },
    ForwardingMacro {
        export: bool,
        ident: Seq<char>,
        target: ModPathView,
        maker: Seq<char>,
        telety_path: Option<ModPathView>,
    },
}

pub open spec fn decl_view(d: Decl) -> DeclView
    decreases d,
{
    match d {
        Decl::Use { vis, path, ident } => DeclView::Use { vis: vis@, path: path@, ident: ident@ },
        Decl::Glob { vis, path } => DeclView::Glob { vis: vis@, path: path@ },
        Decl::TypeAlias { vis, ident, params, target } => DeclView::TypeAlias {
            vis: vis@,
            ident: ident@,
            params: params@,
            target: target@,
        },
        Decl::Module { vis, ident, items } => DeclView::Module {
            vis: vis@,
            ident: ident@,
            items: decls_view(items@),
        },
        Decl::ForwardingMacro { export, ident, target, maker, telety_path } => DeclView::ForwardingMacro {
            export,
            ident: ident@,
            target: target@,
            maker: maker@,
            telety_path: match telety_path {
                Some(p) => Some(p@),
                None => None,
            },
        },
    }
}

pub open spec fn decls_view(s: Seq<Decl>) -> Seq<DeclView>
    decreases s,
{
    if s.len() == 0 {
        Seq::empty()
    } else {
        decls_view(s.subrange(0, s.len() - 1)).push(decl_view(s[s.len() - 1]))
    }
}

proof fn lemma_decls_view_push(s: Seq<Decl>, d: Decl)
    ensures
        decls_view(s.push(d)) == decls_view(s).push(decl_view(d)),
{
    assert(s.push(d).subrange(0, s.len() as int) =~= s);
}

proof fn lemma_decls_view_append(a: Seq<Decl>, b: Seq<Decl>)
    ensures
        decls_view(a + b) == decls_view(a) + decls_view(b),
    decreases b.len(),
{
    if b.len() == 0 {
        assert(a + b =~= a);
        assert(decls_view(a) + decls_view(b) =~= decls_view(a));
    } else {
        let b0 = b.subrange(0, b.len() - 1);
        lemma_decls_view_append(a, b0);
        assert((a + b).subrange(0, (a + b).len() - 1) =~= a + b0);
        assert(decls_view(a) + decls_view(b) =~= (decls_view(a) + decls_view(b0)).push(
            decl_view(b[b.len() - 1]),
        ));
    }
}

proof fn lemma_super_vis_wf(v: VisibilityView)
    requires
        vis_well_formed(v),
    ensures
        vis_well_formed(super_vis_spec(v)),
{
    reveal_strlit("super");
    reveal_strlit("self");
    reveal_strlit("crate");
}

pub open spec fn rel(ids: Seq<Seq<char>>) -> ModPathView {
    ModPathView { leading_colon: false, idents: ids }
}

/// The identifier of an alias made unique across the crate: `{unique}_{ident}`.
pub open spec fn alias_unique_text(m: AliasMap, a: Alias) -> Seq<char> {
    m.tables@[a.table as int].unique_ident@ + "_"@ + index_text(a.index)
}

/// The entry behind a secondary alias.
pub open spec fn entry_of(m: AliasMap, a: Alias) -> crate::map::Entry {
    m.tables@[a.table as int].lookup@[a.index->Secondary_0 as int]
}

/// The aliased path of a secondary alias, without arguments.
pub open spec fn entry_path(m: AliasMap, a: Alias) -> ModPathView {
    ModPathView {
        leading_colon: entry_of(m, a).sig@.leading_colon,
        idents: entry_of(m, a).sig@.idents,
    }
}

/// What [`exact_decls`] gives: nothing for the primary alias; for a secondary one, a
/// re-export of the aliased path under the slot's identifier (at `pub(super)` when the
/// path is one bare identifier, so that it can be re-exported only through the
/// forwarding scheme, else two levels out), then, for a type, the internal type alias
/// with placeholder parameters.
pub open spec fn exact_spec(m: AliasMap, a: Alias) -> Seq<DeclView> {
    let vis = m.tables@[a.table as int].module.visibility@;
    let sup = super_vis_spec(vis);
    let sup2 = super_vis_spec(sup);
    match a.index {
        Index::Primary => Seq::empty(),
        Index::Secondary(_) => {
            let e = entry_of(m, a);
            let use_vis = if a.kind == AliasKind::Trait {
                sup2
            } else if e.sig@.idents.len() == 1 {
                restricted(false, seq!["super"@])
            } else {
                sup2
            };
            let u = DeclView::Use { vis: use_vis, path: entry_path(m, a), ident: index_text(a.index) };
            if a.kind == AliasKind::Type {
                seq![
                    u,
                    DeclView::TypeAlias {
                        vis: sup,
                        ident: index_text(a.index) + "Internal"@,
                        params: e.arguments.kinds@,
                        target: entry_path(m, a),
                    },
                ]
            } else {
                seq![u]
            }
        },
    }
}

/// What [`public_decls`] gives: the primary alias is a plain re-export of the item;
/// a trait is re-exported from `exact`; a type named by one identifier gets a
/// forwarding macro, a reduced type alias under its unique name and a re-export of both
/// under the slot's identifier; a longer path gets a module whose glob import picks up
/// the path's macro, if any, before the reduced type alias shadows the type.
pub open spec fn public_spec(m: AliasMap, a: Alias) -> Seq<DeclView> {
    let tb = m.tables@[a.table as int];
    let vis = tb.module.visibility@;
    let sup = super_vis_spec(vis);
    let sup2 = super_vis_spec(sup);
    let sup3 = super_vis_spec(sup2);
    let ident = index_text(a.index);
    let internal = ident + "Internal"@;
    match a.index {
        Index::Primary => seq![
            DeclView::Use {
                vis: sup,
                path: ModPathView {
                    leading_colon: tb.primary->Some_0.0@.leading_colon,
                    idents: tb.primary->Some_0.0@.idents,
                },
                ident,
            },
        ],
        Index::Secondary(_) => {
            let e = entry_of(m, a);
            if a.kind == AliasKind::Trait {
                seq![DeclView::Use { vis: sup, path: rel(seq!["self"@, "exact"@, ident]), ident }]
            } else if e.sig@.idents.len() == 1 {
                let unique = alias_unique_text(m, a);
                seq![
                    DeclView::ForwardingMacro {
                        export: vis is Public,
                        ident: unique,
                        target: rel(seq!["self"@, "exact"@, ident]),
                        maker: "make_"@ + unique,
                        telety_path: match m.root.telety_path {
                            Some(p) => Some(p@),
                            None => None,
                        },
                    },
                    DeclView::TypeAlias {
                        vis: sup,
                        ident: unique,
                        params: e.arguments.kinds@,
                        target: rel(seq!["self"@, "exact"@, internal]),
                    },
                    DeclView::Use { vis: sup, path: rel(seq![unique]), ident },
                ]
            } else {
                let sub = ident + "_mod"@;
                seq![
                    DeclView::Module {
                        vis: VisibilityView::Inherited,
                        ident: sub,
                        items: seq![
                            DeclView::Use {
                                vis: sup2,
                                path: rel(seq!["super"@, "exact"@, ident]),
                                ident,
                            },
                            DeclView::Module {
                                vis: restricted(false, seq!["super"@]),
                                ident: "globbed"@,
                                items: seq![
                                    DeclView::Glob { vis: sup3, path: rel(seq!["super"@]) },
                                    DeclView::TypeAlias {
                                        vis: sup3,
                                        ident,
                                        params: e.arguments.kinds@,
                                        target: rel(seq!["super"@, "super"@, "exact"@, internal]),
                                    },
                                ],
                            },
                        ],
                    },
                    DeclView::Use { vis: sup, path: rel(seq![sub, "globbed"@, ident]), ident },
                ]
            }
        },
    }
}

/// The alias's slot is occupied and the table's visibility can be written.
pub open spec fn emittable(m: AliasMap, a: Alias) -> bool {
    &&& crate::map::alias_valid(m, a)
    &&& vis_well_formed(m.tables@[a.table as int].module.visibility@)
    &&& (a.index is Secondary ==> a.kind == entry_of(m, a).kind)
}

fn text(s: &str) -> (r: String)
    ensures
        r@ == s@,
{
    String::from_str(s)
}

fn rel_path(ids: Vec<String>) -> (r: ModPath)
    ensures
        r@ == rel(texts(ids@)),
{
    ModPath { leading_colon: false, idents: ids }
}

fn one(a: String) -> (r: Vec<String>)
    ensures
        texts(r@) == seq![a@],
{
    let mut v: Vec<String> = Vec::new();
    v.push(a);
    assert(texts(v@) =~= seq![a@]);
    v
}

fn two(a: String, b: String) -> (r: Vec<String>)
    ensures
        texts(r@) == seq![a@, b@],
{
    let mut v: Vec<String> = Vec::new();
    v.push(a);
    v.push(b);
    assert(texts(v@) =~= seq![a@, b@]);
    v
}

fn three(a: String, b: String, c: String) -> (r: Vec<String>)
    ensures
        texts(r@) == seq![a@, b@, c@],
{
    let mut v: Vec<String> = Vec::new();
    v.push(a);
    v.push(b);
    v.push(c);
    assert(texts(v@) =~= seq![a@, b@, c@]);
    v
}

fn four(a: String, b: String, c: String, d: String) -> (r: Vec<String>)
    ensures
        texts(r@) == seq![a@, b@, c@, d@],
{
    let mut v: Vec<String> = Vec::new();
    v.push(a);
    v.push(b);
    v.push(c);
    v.push(d);
    assert(texts(v@) =~= seq![a@, b@, c@, d@]);
    v
}

fn copy_kinds(v: &Vec<ArgKind>) -> (r: Vec<ArgKind>)
    ensures
        r@ == v@,
{
    let mut r: Vec<ArgKind> = Vec::new();
    let mut i: usize = 0;
    while i < v.len()
        invariant
            i <= v@.len(),
            r@ == v@.subrange(0, i as int),
        decreases v@.len() - i,
    {
        r.push(v[i]);
        assert(r@ =~= v@.subrange(0, i + 1));
        i = i + 1;
    }
    assert(v@.subrange(0, v@.len() as int) =~= v@);
    r
}

fn push_decl(v: &mut Vec<Decl>, d: Decl)
    ensures
        decls_view(final(v)@) == decls_view(old(v)@).push(decl_view(d)),
{
    proof {
        lemma_decls_view_push(v@, d);
    }
    v.push(d);
}

/// The declarations of alias `a` inside the `exact` module (see [`exact_spec`]).
pub fn exact_decls(map: &AliasMap, a: Alias) -> (r: Vec<Decl>)
    requires
        emittable(*map, a),
    ensures
        decls_view(r@) == exact_spec(*map, a),
{
    let mut r: Vec<Decl> = Vec::new();
    let vis = &map.tables[a.table].module.visibility;
    proof {
        lemma_super_vis_wf(vis@);
    }
    let sup = super_visibility(vis);
    let sup2 = super_visibility(&sup);
    match a.index {
        Index::Primary => {
            assert(decls_view(r@) =~= exact_spec(*map, a));
        },
        Index::Secondary(j) => {
            let e = &map.tables[a.table].lookup[j];
            let path = ModPath { leading_colon: e.sig.leading_colon, idents: crate::syntax::copy_strings(&e.sig.idents) };
            let use_vis = match a.kind {
                AliasKind::Trait => sup2.copy(),
                AliasKind::Type => if e.sig.idents.len() == 1 {
                    let v = Visibility::Restricted { in_token: false, path: rel_path(one(text("super"))) };
                    v
                } else {
                    sup2.copy()
                },
            };
            push_decl(&mut r, Decl::Use { vis: use_vis, path, ident: a.index.ident() });
            match a.kind {
                AliasKind::Type => {
                    let target = ModPath { leading_colon: e.sig.leading_colon, idents: crate::syntax::copy_strings(&e.sig.idents) };
                    push_decl(
                        &mut r,
                        Decl::TypeAlias {
                            vis: sup,
                            ident: a.index.ident_internal(),
                            params: copy_kinds(&e.arguments.kinds),
                            target,
                        },
                    );
                },
                AliasKind::Trait => {},
            }
            assert(decls_view(r@) =~= exact_spec(*map, a));
        },
    }
    r
}

/// The public declarations of alias `a` in the table's module (see [`public_spec`]).
pub fn public_decls(map: &AliasMap, a: Alias) -> (r: Vec<Decl>)
    requires
        emittable(*map, a),
    ensures
        decls_view(r@) == public_spec(*map, a),
{
    let mut r: Vec<Decl> = Vec::new();
    let tb = &map.tables[a.table];
    let vis = &tb.module.visibility;
    proof {
        lemma_super_vis_wf(vis@);
        lemma_super_vis_wf(super_vis_spec(vis@));
    }
    let sup = super_visibility(vis);
    let sup2 = super_visibility(&sup);
    let sup3 = super_visibility(&sup2);
    let ident = a.index.ident();
    match a.index {
        Index::Primary => {
            let p = match &tb.primary {
                Some(p) => p,
                None => {
                    assert(false);
                    return r;
                },
            };
            let path = ModPath { leading_colon: p.0.leading_colon, idents: crate::syntax::copy_strings(&p.0.idents) };
            push_decl(&mut r, Decl::Use { vis: sup, path, ident });
            assert(decls_view(r@) =~= public_spec(*map, a));
        },
        Index::Secondary(j) => {
            let e = &tb.lookup[j];
            match a.kind {
                AliasKind::Trait => {
                    let path = rel_path(three(text("self"), text("exact"), ident.clone()));
                    push_decl(&mut r, Decl::Use { vis: sup, path, ident });
                    assert(decls_view(r@) =~= public_spec(*map, a));
                },
                AliasKind::Type => {
                    let internal = a.index.ident_internal();
                    if e.sig.idents.len() == 1 {
                        let mut unique = tb.unique_ident.clone();
                        unique.append("_");
                        unique.append(ident.as_str());
                        let mut maker = text("make_");
                        maker.append(unique.as_str());
                        let telety_path = match &map.root.telety_path {
                            Some(p) => Some(p.copy()),
                            None => None,
                        };
                        push_decl(
                            &mut r,
                            Decl::ForwardingMacro {
                                export: crate::visibility::visibility_macro_export(vis),
                                ident: unique.clone(),
                                target: rel_path(three(text("self"), text("exact"), ident.clone())),
                                maker,
                                telety_path,
                            },
                        );
                        push_decl(
                            &mut r,
                            Decl::TypeAlias {
                                vis: sup.copy(),
                                ident: unique.clone(),
                                params: copy_kinds(&e.arguments.kinds),
                                target: rel_path(three(text("self"), text("exact"), internal)),
                            },
                        );
                        push_decl(&mut r, Decl::Use { vis: sup, path: rel_path(one(unique)), ident });
                        assert(decls_view(r@) =~= public_spec(*map, a));
                    } else {
                        let mut sub = ident.clone();
                        sub.append("_mod");
                        let mut globbed: Vec<Decl> = Vec::new();
                        push_decl(&mut globbed, Decl::Glob { vis: sup3.copy(), path: rel_path(one(text("super"))) });
                        push_decl(
                            &mut globbed,
                            Decl::TypeAlias {
                                vis: sup3,
                                ident: ident.clone(),
                                params: copy_kinds(&e.arguments.kinds),
                                target: rel_path(four(text("super"), text("super"), text("exact"), internal)),
                            },
                        );
                        let ghost gv = decls_view(globbed@);
                        let mut items: Vec<Decl> = Vec::new();
                        push_decl(
                            &mut items,
                            Decl::Use {
                                vis: sup2,
                                path: rel_path(three(text("super"), text("exact"), ident.clone())),
                                ident: ident.clone(),
                            },
                        );
                        push_decl(
                            &mut items,
                            Decl::Module {
                                vis: Visibility::Restricted { in_token: false, path: rel_path(one(text("super"))) },
                                ident: text("globbed"),
                                items: globbed,
                            },
                        );
                        let ghost iv = decls_view(items@);
                        proof {
                            let sup2v = super_vis_spec(super_vis_spec(vis@));
                            assert(iv =~= seq![
                                DeclView::Use {
                                    vis: sup2v,
                                    path: rel(seq!["super"@, "exact"@, index_text(a.index)]),
                                    ident: index_text(a.index),
                                },
                                DeclView::Module {
                                    vis: restricted(false, seq!["super"@]),
                                    ident: "globbed"@,
                                    items: gv,
                                },
                            ]);
                            let sup3v = super_vis_spec(super_vis_spec(super_vis_spec(vis@)));
                            let internal_v = index_text(a.index) + "Internal"@;
                            assert(gv =~= seq![
                                DeclView::Glob { vis: sup3v, path: rel(seq!["super"@]) },
                                DeclView::TypeAlias {
                                    vis: sup3v,
                                    ident: index_text(a.index),
                                    params: e.arguments.kinds@,
                                    target: rel(seq!["super"@, "super"@, "exact"@, internal_v]),
                                },
                            ]);
                        }
                        push_decl(&mut r, Decl::Module { vis: Visibility::Inherited, ident: sub.clone(), items });
                        push_decl(
                            &mut r,
                            Decl::Use { vis: sup, path: rel_path(three(sub, text("globbed"), ident.clone())), ident },
                        );
                        assert(decls_view(r@) =~= public_spec(*map, a));
                    }
                },
            }
        },
    }
    r
}


pub open spec fn all_exact(m: AliasMap, s: Seq<Alias>) -> Seq<DeclView>
    decreases s.len(),
{
    if s.len() == 0 {
        Seq::empty()
    } else {
        all_exact(m, s.subrange(0, s.len() - 1)) + exact_spec(m, s[s.len() - 1])
    }
}

pub open spec fn all_public(m: AliasMap, s: Seq<Alias>) -> Seq<DeclView>
    decreases s.len(),
{
    if s.len() == 0 {
        Seq::empty()
    } else {
        all_public(m, s.subrange(0, s.len() - 1)) + public_spec(m, s[s.len() - 1])
    }
}

/// What [`with_module`] gives: the table's module at the item's visibility, holding the
/// `exact` module (which sees everything two levels out) with each alias's fixed
/// re-exports, then each alias's public declarations, primary alias first.
pub open spec fn module_spec(m: AliasMap, t: int) -> DeclView {
    let tb = m.tables@[t];
    let aliases = m.aliases_spec(t);
    DeclView::Module {
        vis: tb.module.visibility@,
        ident: tb.module.ident@,
        items: seq![
            DeclView::Module {
                vis: VisibilityView::Inherited,
                ident: "exact"@,
                items: seq![
                    DeclView::Glob {
                        vis: super_vis_spec(tb.module.visibility@),
                        path: rel(seq!["super"@, "super"@]),
                    },
                ] + all_exact(m, aliases),
            },
        ] + all_public(m, aliases),
    }
}

/// The generated module of table `t` with every alias's declarations in it.
pub fn with_module(map: &AliasMap, t: usize) -> (r: Decl)
    requires
        map.wf(),
        t < map.tables@.len(),
        vis_well_formed(map.tables@[t as int].module.visibility@),
    ensures
        decl_view(r) == module_spec(*map, t as int),
{
    let aliases = map.iter_aliases(t);
    let tb = &map.tables[t];
    let vis = &tb.module.visibility;
    let mut exact: Vec<Decl> = Vec::new();
    push_decl(
        &mut exact,
        Decl::Glob { vis: super_visibility(vis), path: rel_path(two(text("super"), text("super"))) },
    );
    let ghost head = decls_view(exact@);
    let mut public: Vec<Decl> = Vec::new();
    let mut i: usize = 0;
    assert(aliases@.subrange(0, 0).len() == 0);
    assert(decls_view(exact@) =~= head + all_exact(*map, aliases@.subrange(0, 0)));
    assert(decls_view(public@) =~= all_public(*map, aliases@.subrange(0, 0)));
    while i < aliases.len()
        invariant
            map.wf(),
            t < map.tables@.len(),
            vis_well_formed(map.tables@[t as int].module.visibility@),
            aliases@ == map.aliases_spec(t as int),
            i <= aliases@.len(),
            decls_view(exact@) == head + all_exact(*map, aliases@.subrange(0, i as int)),
            decls_view(public@) == all_public(*map, aliases@.subrange(0, i as int)),
        decreases aliases@.len() - i,
    {
        let a = aliases[i];
        proof {
            assert(aliases@.subrange(0, i + 1).subrange(0, i as int) =~= aliases@.subrange(0, i as int));
            assert(a.table == t);
        }
        let mut e = exact_decls(map, a);
        let mut p = public_decls(map, a);
        let ghost ev = e@;
        let ghost pv = p@;
        let ghost before_e = exact@;
        let ghost before_p = public@;
        exact.append(&mut e);
        public.append(&mut p);
        proof {
            assert(exact@ =~= before_e + ev);
            assert(public@ =~= before_p + pv);
            lemma_decls_view_append(before_e, ev);
            lemma_decls_view_append(before_p, pv);
            assert(decls_view(exact@) =~= head + all_exact(*map, aliases@.subrange(0, i + 1)));
            assert(decls_view(public@) =~= all_public(*map, aliases@.subrange(0, i + 1)));
        }
        i = i + 1;
    }
    assert(aliases@.subrange(0, aliases@.len() as int) =~= aliases@);
    let exact_mod = Decl::Module { vis: Visibility::Inherited, ident: text("exact"), items: exact };
    let mut items: Vec<Decl> = Vec::new();
    push_decl(&mut items, exact_mod);
    let ghost first = items@;
    let mut public = public;
    let ghost pv = public@;
    items.append(&mut public);
    proof {
        assert(items@ =~= first + pv);
        lemma_decls_view_append(first, pv);
        assert(decls_view(items@) =~= decls_view(first) + all_public(*map, map.aliases_spec(t as int)));
    }
    Decl::Module { vis: vis.copy(), ident: tb.module.ident.clone(), items }
}

} // verus!
