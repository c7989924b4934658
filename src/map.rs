//! The alias table.
//!
//! All tables of one item live in one [`AliasMap`]; a table refers to its parent by position,
//! and a table's parent always stands before it. Each table holds an optional primary
//! entry (the item itself) and its secondary entries in insertion order: the position of
//! an entry is its ordinal.
use vstd::prelude::*;

use crate::error::{Error, Kind};
use crate::names::{decimal, decimal_text, join2, join3};
use crate::signature::{ArgKind, Arguments, SigView, Signature, normalize_spec};
use crate::syntax::{is_ident_spec, ModPath, Path, PathArguments, TypePath, Visibility};

verus! {

/// Whether an alias stands for a type or for a trait (a trait gets no type alias).
#[derive(Clone, Copy, Debug, PartialEq, Eq, Structural)]
pub enum AliasKind {
    Type,
    Trait,
}

/// Which slot of a table an alias occupies.
#[derive(Clone, Copy, Debug, PartialEq, Eq, Structural)]
pub enum Index {
    /// The item itself, as `Self`.
    Primary,
    /// A type or trait met inside the item, by order of first appearance.
    Secondary(usize),
}

/// The identifier that generated code gives to an alias slot.
pub open spec fn index_text(i: Index) -> Seq<char> {
    match i {
        Index::Primary => "AliasSelf"@,
        Index::Secondary(n) => "Alias"@ + decimal_text(n as nat),
    }
}

impl Index {
    pub fn ident(self) -> (r: String)
        ensures
            r@ == index_text(self),
    {
        match self {
            Index::Primary => String::from_str("AliasSelf"),
            Index::Secondary(n) => {
                let d = decimal(n);
                join2("Alias", d.as_str())
            },
        }
    }

    /// The identifier of the internal type alias behind this slot.
    pub fn ident_internal(self) -> (r: String)
        ensures
            r@ == index_text(self) + "Internal"@,
    {
        let i = self.ident();
        join2(i.as_str(), "Internal")
    }
}

/// The generated module that holds a table's aliases.
#[derive(Debug, PartialEq, Eq)]
pub struct Module {
    pub visibility: Visibility,
    pub ident: String,
}

impl Module {
    /// The module for an item named `item_ident`, at the item's visibility.
    pub fn for_item(visibility: Visibility, item_ident: &String) -> (r: Module)
        ensures
            r.visibility == visibility,
            r.ident@ == "__telety_alias_map_"@ + item_ident@,
    {
        Module { visibility, ident: join2("__telety_alias_map_", item_ident.as_str()) }
    }

    pub fn visibility(&self) -> (r: &Visibility)
        ensures
            r == &self.visibility,
    {
        &self.visibility
    }

    pub fn ident(&self) -> (r: &String)
        ensures
            r == &self.ident,
    {
        &self.ident
    }

    /// A nested module named `{ident}__{suffix}` at the same visibility.
    pub fn new_child(&self, suffix: &str) -> (r: Module)
        ensures
            r.visibility@ == self.visibility@,
            r.ident@ == self.ident@ + "__"@ + suffix@,
    {
        Module {
            visibility: self.visibility.copy(),
            ident: join3(self.ident.as_str(), "__", suffix),
        }
    }
}

/// A secondary entry: the signature it is filed under, the kinds of the generic
/// arguments it takes, and whether it is a type or a trait.
#[derive(Debug, PartialEq, Eq)]
pub struct Entry {
    pub sig: Signature,
    pub arguments: Arguments,
    pub kind: AliasKind,
}

#[derive(Debug, PartialEq, Eq)]
pub struct Table {
    pub parent: Option<usize>,
    pub module: Module,
    pub unique_ident: String,
    pub primary: Option<(Signature, Arguments)>,
    pub lookup: Vec<Entry>,
}

/// What all tables of one item share.
#[derive(Debug, PartialEq, Eq)]
pub struct Root {
    pub telety_path: Option<ModPath>,
    pub map_path: ModPath,
    /// Whether traits may be aliased; when unset, only qualified trait paths are.
    pub alias_traits: Option<bool>,
}

#[derive(Debug, PartialEq, Eq)]
pub struct AliasMap {
    pub root: Root,
    pub tables: Vec<Table>,
}

/// A resolved alias: the table that holds it, its slot, and what it stands for.
#[derive(Clone, Copy, Debug, PartialEq, Eq, Structural)]
pub struct Alias {
    pub table: usize,
    pub index: Index,
    pub kind: AliasKind,
}

/// The first position in `entries` filed under `s`.
pub open spec fn first_match(entries: Seq<Entry>, s: SigView) -> Option<int> {
    if exists|j: int| 0 <= j < entries.len() && #[trigger] entries[j].sig@ == s {
        Some(
            choose|j: int|
                0 <= j < entries.len() && #[trigger] entries[j].sig@ == s && forall|k: int|
                    0 <= k < j ==> entries[k].sig@ != s,
        )
    } else {
        None
    }
}

/// The table and position at which `s` is found from table `t` upwards through its
/// parents, nearest first.
pub open spec fn chain_lookup(tables: Seq<Table>, t: int, s: SigView) -> Option<(int, int)>
    decreases t,
{
    if 0 <= t < tables.len() {
        match first_match(tables[t].lookup@, s) {
            Some(j) => Some((t, j)),
            None => match tables[t].parent {
                Some(p) => if p < t {
                    chain_lookup(tables, p as int, s)
                } else {
                    None
                },
                None => None,
            },
        }
    } else {
        None
    }
}

/// The nearest table, from `t` upwards, that has a primary entry.
pub open spec fn chain_self(tables: Seq<Table>, t: int) -> Option<int>
    decreases t,
{
    if 0 <= t < tables.len() {
        if tables[t].primary is Some {
            Some(t)
        } else {
            match tables[t].parent {
                Some(p) => if p < t {
                    chain_self(tables, p as int)
                } else {
                    None
                },
                None => None,
            }
        }
    } else {
        None
    }
}

/// Whether the trait-aliasing policy lets `p` be aliased as a trait.
pub open spec fn trait_allowed(alias_traits: Option<bool>, p: Path) -> bool {
    match alias_traits {
        Some(b) => b,
        None => p.leading_colon || p.segments@.len() > 1,
    }
}

/// What inserting `p` into table `t` returns: `Self` and paths already present along
/// the chain give `false`, a path that does not normalize gives its error.
pub open spec fn insert_outcome(m: AliasMap, t: int, p: Path) -> Result<bool, Kind> {
    if is_ident_spec(p, "Self"@) {
        Ok(false)
    } else {
        match normalize_spec(p) {
            Err(k) => Err(k),
            Ok((s, _)) => Ok(chain_lookup(m.tables@, t, s) is None),
        }
    }
}

/// The outcome of inserting a type path.
pub open spec fn insert_type_outcome(m: AliasMap, t: int, ty: TypePath) -> Result<bool, Kind> {
    if ty.qself is Some {
        Err(Kind::AssociatedType)
    } else {
        insert_outcome(m, t, ty.path)
    }
}

/// Whether a trait path is closure-style: its last segment carries parenthesized
/// arguments, as `Fn(A) -> B` does.
pub open spec fn is_closure_style(p: Path) -> bool {
    p.segments@.len() > 0 && p.segments@[p.segments@.len() - 1].arguments is Parenthesized
}

/// The outcome of inserting a trait path under the table's policy; closure-style
/// traits are refused.
pub open spec fn insert_trait_outcome(m: AliasMap, t: int, p: Path) -> Result<bool, Kind> {
    if !trait_allowed(m.root.alias_traits, p) {
        Err(Kind::Trait)
    } else if is_closure_style(p) {
        Err(Kind::Closure)
    } else {
        insert_outcome(m, t, p)
    }
}

/// `new` is `old` with one secondary entry appended to table `t`.
pub open spec fn appended(
    old: AliasMap,
    new: AliasMap,
    t: int,
    s: SigView,
    ks: Seq<ArgKind>,
    kind: AliasKind,
) -> bool {
    let n = old.tables@[t].lookup@.len();
    &&& new.root == old.root
    &&& new.tables@.len() == old.tables@.len()
    &&& forall|i: int|
        0 <= i < old.tables@.len() && i != t ==> #[trigger] new.tables@[i] == old.tables@[i]
    &&& new.tables@[t].parent == old.tables@[t].parent
    &&& new.tables@[t].module == old.tables@[t].module
    &&& new.tables@[t].unique_ident == old.tables@[t].unique_ident
    &&& new.tables@[t].primary == old.tables@[t].primary
    &&& new.tables@[t].lookup@.len() == n + 1
    &&& new.tables@[t].lookup@.subrange(0, n as int) == old.tables@[t].lookup@
    &&& new.tables@[t].lookup@[n as int].sig@ == s
    &&& new.tables@[t].lookup@[n as int].arguments.kinds@ == ks
    &&& new.tables@[t].lookup@[n as int].kind == kind
}

/// The state after an insertion whose outcome was `r`.
pub open spec fn insert_effect(
    old: AliasMap,
    new: AliasMap,
    t: int,
    p: Path,
    kind: AliasKind,
    r: Result<bool, Kind>,
) -> bool {
    if r == Ok::<bool, Kind>(true) {
        appended(old, new, t, normalize_spec(p)->Ok_0.0, normalize_spec(p)->Ok_0.1, kind)
    } else {
        new == old
    }
}

/// Whether `a` names an occupied slot of `m`.
pub open spec fn alias_valid(m: AliasMap, a: Alias) -> bool {
    &&& 0 <= a.table < m.tables@.len()
    &&& match a.index {
        Index::Primary => m.tables@[a.table as int].primary is Some,
        Index::Secondary(i) => i < m.tables@[a.table as int].lookup@.len(),
    }
}

proof fn lemma_first_exists(entries: Seq<Entry>, s: SigView, j: int)
    requires
        0 <= j < entries.len(),
        entries[j].sig@ == s,
    ensures
        exists|i: int|
            0 <= i < entries.len() && #[trigger] entries[i].sig@ == s && forall|k: int|
                0 <= k < i ==> entries[k].sig@ != s,
    decreases j,
{
    if exists|k: int| 0 <= k < j && #[trigger] entries[k].sig@ == s {
        let k = choose|k: int| 0 <= k < j && #[trigger] entries[k].sig@ == s;
        lemma_first_exists(entries, s, k);
    } else {
        assert(forall|k: int| 0 <= k < j ==> entries[k].sig@ != s);
    }
}

/// What [`first_match`] gives: the first position filed under `s`, or none at all.
pub proof fn lemma_first_match_props(entries: Seq<Entry>, s: SigView)
    ensures
        match first_match(entries, s) {
            Some(j) => 0 <= j < entries.len() && entries[j].sig@ == s && forall|k: int|
                0 <= k < j ==> entries[k].sig@ != s,
            None => forall|k: int| 0 <= k < entries.len() ==> entries[k].sig@ != s,
        },
{
    if exists|j: int| 0 <= j < entries.len() && #[trigger] entries[j].sig@ == s {
        let j = choose|j: int| 0 <= j < entries.len() && #[trigger] entries[j].sig@ == s;
        lemma_first_exists(entries, s, j);
    }
}

proof fn lemma_first_match(entries: Seq<Entry>, s: SigView, i: int)
    requires
        0 <= i < entries.len(),
        entries[i].sig@ == s,
        forall|k: int| 0 <= k < i ==> entries[k].sig@ != s,
    ensures
        first_match(entries, s) == Some(i),
{
    assert(exists|j: int| 0 <= j < entries.len() && #[trigger] entries[j].sig@ == s);
    let j = first_match(entries, s)->Some_0;
    assert(0 <= j < entries.len() && entries[j].sig@ == s && forall|k: int|
        0 <= k < j ==> entries[k].sig@ != s) by {
        assert(0 <= i < entries.len() && entries[i].sig@ == s && forall|k: int|
            0 <= k < i ==> entries[k].sig@ != s);
    }
    if j < i {
        assert(entries[j].sig@ != s);
    }
    if j > i {
        assert(entries[i].sig@ != s);
    }
}

impl AliasMap {
    /// Every table's parent stands before it, and there is a root table.
    pub open spec fn wf(&self) -> bool {
        &&& self.tables@.len() > 0
        &&& forall|i: int|
            0 <= i < self.tables@.len() ==> match #[trigger] self.tables@[i].parent {
                Some(p) => p < i,
                None => true,
            }
    }

    /// A map holding one table, the root, which has no parent and no entries.
    pub fn new_root(
        telety_path: Option<ModPath>,
        map_path: ModPath,
        module: Module,
        unique_ident: String,
        alias_traits: Option<bool>,
    ) -> (r: AliasMap)
        ensures
            r.wf(),
            r.tables@.len() == 1,
            r.root == (Root { telety_path, map_path, alias_traits }),
            r.tables@[0] == (Table {
                parent: None,
                module,
                unique_ident,
                primary: None,
                lookup: r.tables@[0].lookup,
            }),
            r.tables@[0].lookup@.len() == 0,
    {
        let root = Root { telety_path, map_path, alias_traits };
        let table = Table { parent: None, module, unique_ident, primary: None, lookup: Vec::new() };
        let mut tables: Vec<Table> = Vec::new();
        tables.push(table);
        AliasMap { root, tables }
    }

    /// Adds a table nested in `parent`, for a scope of its own; its identifier and
    /// module name are the parent's with `__{suffix}` added. Returns its position.
    pub fn new_sub_map(&mut self, parent: usize, suffix: &str) -> (r: usize)
        requires
            old(self).wf(),
            parent < old(self).tables@.len(),
        ensures
            final(self).wf(),
            r == old(self).tables@.len(),
            final(self).root == old(self).root,
            final(self).tables@.len() == old(self).tables@.len() + 1,
            final(self).tables@.subrange(0, r as int) == old(self).tables@,
            final(self).tables@[r as int].parent == Some(parent),
            final(self).tables@[r as int].primary is None,
            final(self).tables@[r as int].lookup@.len() == 0,
            final(self).tables@[r as int].unique_ident@ == old(self).tables@[parent as int].unique_ident@
                + "__"@ + suffix@,
            final(self).tables@[r as int].module.ident@ == old(self).tables@[parent as int].module.ident@
                + "__"@ + suffix@,
            final(self).tables@[r as int].module.visibility@
                == old(self).tables@[parent as int].module.visibility@,
    {
        let module = self.tables[parent].module.new_child(suffix);
        let unique_ident = join3(self.tables[parent].unique_ident.as_str(), "__", suffix);
        let r = self.tables.len();
        let table = Table {
            parent: Some(parent),
            module,
            unique_ident,
            primary: None,
            lookup: Vec::new(),
        };
        self.tables.push(table);
        assert(final(self).tables@.subrange(0, r as int) =~= old(self).tables@);
        r
    }

    /// Installs the primary entry of table `t` from the item's own path.
    pub fn set_self(&mut self, t: usize, self_type: &Path) -> (r: Result<(), Error>)
        requires
            old(self).wf(),
            t < old(self).tables@.len(),
        ensures
            final(self).wf(),
            final(self).root == old(self).root,
            final(self).tables@.len() == old(self).tables@.len(),
            match r {
                Ok(_) => {
                    &&& normalize_spec(*self_type) is Ok
                    &&& final(self).tables@[t as int].primary is Some
                    &&& final(self).tables@[t as int].primary->Some_0.0@ == normalize_spec(
                        *self_type,
                    )->Ok_0.0
                    &&& final(self).tables@[t as int].primary->Some_0.1.kinds@ == normalize_spec(
                        *self_type,
                    )->Ok_0.1
                    &&& final(self).tables@[t as int].parent == old(self).tables@[t as int].parent
                    &&& final(self).tables@[t as int].lookup == old(self).tables@[t as int].lookup
                    &&& final(self).tables@[t as int].module == old(self).tables@[t as int].module
                    &&& final(self).tables@[t as int].unique_ident == old(self).tables@[t as int].unique_ident
                    &&& forall|i: int|
                        0 <= i < old(self).tables@.len() && i != t ==> #[trigger] final(self).tables@[i] == old(self).tables@[i]
                },
                Err(e) => normalize_spec(*self_type) == Err::<(SigView, Seq<ArgKind>), _>(e.kind)
                    && *final(self) == *old(self),
            },
    {
        match Signature::from_path(self_type) {
            Ok(p) => {
                self.tables[t].primary = Some(p);
                assert(forall|i: int|
                    0 <= i < self.tables@.len() ==> #[trigger] self.tables@[i].parent == old(self).tables@[i].parent);
                Ok(())
            },
            Err(e) => Err(e),
        }
    }

    /// The first position in table `t` filed under `s`.
    pub fn local_lookup(&self, t: usize, s: &Signature) -> (r: Option<usize>)
        requires
            t < self.tables@.len(),
        ensures
            match r {
                Some(j) => first_match(self.tables@[t as int].lookup@, s@) == Some(j as int),
                None => first_match(self.tables@[t as int].lookup@, s@) is None,
            },
    {
        let entries = &self.tables[t].lookup;
        let mut i: usize = 0;
        while i < entries.len()
            invariant
                entries == &self.tables@[t as int].lookup,
                i <= entries@.len(),
                forall|k: int| 0 <= k < i ==> entries@[k].sig@ != s@,
            decreases entries@.len() - i,
        {
            if entries[i].sig.same_as(s) {
                proof {
                    lemma_first_match(entries@, s@, i as int);
                }
                return Some(i);
            }
            i = i + 1;
        }
        None
    }

    /// Looks `s` up in table `t` and then in its parents, nearest first.
    pub fn chain_find(&self, t: usize, s: &Signature) -> (r: Option<(usize, usize)>)
        requires
            self.wf(),
            t < self.tables@.len(),
        ensures
            match r {
                Some((a, j)) => chain_lookup(self.tables@, t as int, s@) == Some((a as int, j as int)),
                None => chain_lookup(self.tables@, t as int, s@) is None,
            },
    {
        let mut cur = t;
        loop
            invariant
                self.wf(),
                cur < self.tables@.len(),
                chain_lookup(self.tables@, t as int, s@) == chain_lookup(self.tables@, cur as int, s@),
            decreases cur,
        {
            match self.local_lookup(cur, s) {
                Some(j) => {
                    return Some((cur, j));
                },
                None => {
                    match self.tables[cur].parent {
                        Some(p) => {
                            assert(p < cur);
                            cur = p;
                        },
                        None => {
                            return None;
                        },
                    }
                },
            }
        }
    }

    /// Looks a path up from table `t` upwards; a path that does not normalize is an error.
    pub fn full_lookup(&self, t: usize, ty: &Path) -> (r: Result<Option<Alias>, Error>)
        requires
            self.wf(),
            t < self.tables@.len(),
        ensures
            match r {
                Ok(found) => normalize_spec(*ty) is Ok && match found {
                    Some(a) => {
                        &&& chain_lookup(self.tables@, t as int, normalize_spec(*ty)->Ok_0.0)
                            == Some((a.table as int, a.index->Secondary_0 as int))
                        &&& a.index is Secondary
                        &&& alias_valid(*self, a)
                        &&& a.kind == self.tables@[a.table as int].lookup@[a.index->Secondary_0 as int].kind
                    },
                    None => chain_lookup(self.tables@, t as int, normalize_spec(*ty)->Ok_0.0) is None,
                },
                Err(e) => normalize_spec(*ty) == Err::<(SigView, Seq<ArgKind>), _>(e.kind),
            },
    {
        let (sig, _args) = match Signature::from_path(ty) {
            Ok(x) => x,
            Err(e) => return Err(e),
        };
        match self.chain_find(t, &sig) {
            Some((a, j)) => {
                proof {
                    self.lemma_chain_lookup_valid(t as int, sig@);
                }
                let kind = self.tables[a].lookup[j].kind;
                Ok(Some(Alias { table: a, index: Index::Secondary(j), kind }))
            },
            None => Ok(None),
        }
    }

    proof fn lemma_chain_lookup_valid(&self, t: int, s: SigView)
        requires
            self.wf(),
            0 <= t < self.tables@.len(),
        ensures
            chain_lookup(self.tables@, t, s) matches Some((a, j)) ==> {
                &&& 0 <= a < self.tables@.len()
                &&& 0 <= j < self.tables@[a].lookup@.len()
                &&& self.tables@[a].lookup@[j].sig@ == s
            },
        decreases t,
    {
        match first_match(self.tables@[t].lookup@, s) {
            Some(j) => {
                lemma_first_match_props(self.tables@[t].lookup@, s);
            },
            None => {
                match self.tables@[t].parent {
                    Some(p) => {
                        self.lemma_chain_lookup_valid(p as int, s);
                    },
                    None => {},
                }
            },
        }
    }

    /// The primary alias nearest to table `t`, looking upwards through the parents.
    pub fn get_self(&self, t: usize) -> (r: Option<Alias>)
        requires
            self.wf(),
            t < self.tables@.len(),
        ensures
            match r {
                Some(a) => {
                    &&& chain_self(self.tables@, t as int) == Some(a.table as int)
                    &&& a.index == Index::Primary
                    &&& a.kind == AliasKind::Type
                    &&& alias_valid(*self, a)
                },
                None => chain_self(self.tables@, t as int) is None,
            },
    {
        let mut cur = t;
        loop
            invariant
                self.wf(),
                cur < self.tables@.len(),
                chain_self(self.tables@, t as int) == chain_self(self.tables@, cur as int),
            decreases cur,
        {
            if self.tables[cur].primary.is_some() {
                return Some(Alias { table: cur, index: Index::Primary, kind: AliasKind::Type });
            }
            match self.tables[cur].parent {
                Some(p) => {
                    cur = p;
                },
                None => {
                    return None;
                },
            }
        }
    }

    /// Resolves a path from table `t`: the bare path `Self` resolves to the primary
    /// alias, any other path to its secondary alias, if there is one.
    pub fn get_alias(&self, t: usize, ty: &Path) -> (r: Result<Option<Alias>, Error>)
        requires
            self.wf(),
            t < self.tables@.len(),
        ensures
            is_ident_spec(*ty, "Self"@) ==> r == Ok::<_, Error>(self.get_self_spec(t as int)),
            !is_ident_spec(*ty, "Self"@) ==> match r {
                Ok(found) => normalize_spec(*ty) is Ok && match found {
                    Some(a) => {
                        &&& chain_lookup(self.tables@, t as int, normalize_spec(*ty)->Ok_0.0)
                            == Some((a.table as int, a.index->Secondary_0 as int))
                        &&& a.index is Secondary
                        &&& alias_valid(*self, a)
                        &&& a.kind == self.tables@[a.table as int].lookup@[a.index->Secondary_0 as int].kind
                    },
                    None => chain_lookup(self.tables@, t as int, normalize_spec(*ty)->Ok_0.0) is None,
                },
                Err(e) => normalize_spec(*ty) == Err::<(SigView, Seq<ArgKind>), _>(e.kind),
            },
    {
        if ty.is_self() {
            Ok(self.get_self(t))
        } else {
            self.full_lookup(t, ty)
        }
    }

    /// What [`AliasMap::get_self`] returns.
    pub open spec fn get_self_spec(&self, t: int) -> Option<Alias> {
        match chain_self(self.tables@, t) {
            Some(a) => Some(Alias { table: a as usize, index: Index::Primary, kind: AliasKind::Type }),
            None => None,
        }
    }

    fn insert(&mut self, t: usize, ty: &Path, kind: AliasKind) -> (r: Result<bool, Error>)
        requires
            old(self).wf(),
            t < old(self).tables@.len(),
        ensures
            final(self).wf(),
            match r {
                Ok(b) => insert_outcome(*old(self), t as int, *ty) == Ok::<bool, Kind>(b),
                Err(e) => insert_outcome(*old(self), t as int, *ty) == Err::<bool, Kind>(e.kind),
            },
            insert_effect(
                *old(self),
                *final(self),
                t as int,
                *ty,
                kind,
                insert_outcome(*old(self), t as int, *ty),
            ),
    {
        if ty.is_self() {
            return Ok(false);
        }
        let (sig, args) = match Signature::from_path(ty) {
            Ok(x) => x,
            Err(e) => return Err(e),
        };
        if self.chain_find(t, &sig).is_some() {
            return Ok(false);
        }
        let entry = Entry { sig, arguments: args, kind };
        let ghost n = self.tables@[t as int].lookup@.len();
        self.tables[t].lookup.push(entry);
        proof {
            assert(self.tables@[t as int].lookup@.subrange(0, n as int) =~= old(self).tables@[t as int].lookup@);
            assert(forall|i: int|
                0 <= i < self.tables@.len() ==> #[trigger] self.tables@[i].parent == old(self).tables@[i].parent);
        }
        Ok(true)
    }

    /// Files a type path in table `t`. A path whose tokens are already filed along the
    /// chain, and the path `Self`, leave the map as it is and give `false`.
    pub fn insert_type(&mut self, t: usize, ty: &TypePath) -> (r: Result<bool, Error>)
        requires
            old(self).wf(),
            t < old(self).tables@.len(),
        ensures
            final(self).wf(),
            match r {
                Ok(b) => insert_type_outcome(*old(self), t as int, *ty) == Ok::<bool, Kind>(b),
                Err(e) => insert_type_outcome(*old(self), t as int, *ty) == Err::<bool, Kind>(
                    e.kind,
                ),
            },
            insert_effect(
                *old(self),
                *final(self),
                t as int,
                ty.path,
                AliasKind::Type,
                insert_type_outcome(*old(self), t as int, *ty),
            ),
    {
        if ty.qself.is_some() {
            return Err(Kind::AssociatedType.error());
        }
        self.insert(t, &ty.path, AliasKind::Type)
    }

    /// Files a trait path in table `t`, if the trait-aliasing policy allows it.
    pub fn insert_trait(&mut self, t: usize, ty: &Path) -> (r: Result<bool, Error>)
        requires
            old(self).wf(),
            t < old(self).tables@.len(),
        ensures
            final(self).wf(),
            match r {
                Ok(b) => insert_trait_outcome(*old(self), t as int, *ty) == Ok::<bool, Kind>(b),
                Err(e) => insert_trait_outcome(*old(self), t as int, *ty) == Err::<bool, Kind>(
                    e.kind,
                ),
            },
            insert_effect(
                *old(self),
                *final(self),
                t as int,
                *ty,
                AliasKind::Trait,
                insert_trait_outcome(*old(self), t as int, *ty),
            ),
    {
        let can_insert = match self.root.alias_traits {
            Some(b) => b,
            None => ty.leading_colon || ty.segments.len() > 1,
        };
        if !can_insert {
            return Err(Kind::Trait.error());
        }
        let n = ty.segments.len();
        if n > 0 {
            if let PathArguments::Parenthesized { .. } = ty.segments[n - 1].arguments {
                return Err(Kind::Closure.error());
            }
        }
        self.insert(t, ty, AliasKind::Trait)
    }

    /// The aliases of table `t` alone: the primary one, if set, then the secondary
    /// ones by ordinal.
    pub fn iter_aliases(&self, t: usize) -> (r: Vec<Alias>)
        requires
            t < self.tables@.len(),
        ensures
            r@ == self.aliases_spec(t as int),
    {
        let mut r: Vec<Alias> = Vec::new();
        let has_primary = self.tables[t].primary.is_some();
        if has_primary {
            r.push(Alias { table: t, index: Index::Primary, kind: AliasKind::Type });
        }
        let ghost off: int = if has_primary {
            1
        } else {
            0
        };
        let entries = &self.tables[t].lookup;
        let mut i: usize = 0;
        while i < entries.len()
            invariant
                entries == &self.tables@[t as int].lookup,
                i <= entries@.len(),
                off == (if has_primary {
                    1int
                } else {
                    0int
                }),
                r@.len() == off + i,
                has_primary ==> r@[0] == (Alias {
                    table: t,
                    index: Index::Primary,
                    kind: AliasKind::Type,
                }),
                forall|j: int|
                    0 <= j < i ==> #[trigger] r@[off + j] == (Alias {
                        table: t,
                        index: Index::Secondary(j as usize),
                        kind: entries@[j].kind,
                    }),
            decreases entries@.len() - i,
        {
            r.push(Alias { table: t, index: Index::Secondary(i), kind: entries[i].kind });
            i = i + 1;
        }
        proof {
            let s = self.aliases_spec(t as int);
            assert(r@.len() == s.len());
            assert forall|j: int| 0 <= j < r@.len() implies r@[j] == s[j] by {
                if !has_primary || j > 0 {
                    assert(r@[off + (j - off)] == r@[j]);
                }
            }
            assert(r@ =~= s);
        }
        r
    }

    /// The aliases of one table, primary first, then secondary by ordinal.
    pub open spec fn aliases_spec(&self, t: int) -> Seq<Alias> {
        let tb = self.tables@[t];
        let secondary = Seq::new(
            tb.lookup@.len(),
            |j: int| Alias { table: t as usize, index: Index::Secondary(j as usize), kind: tb.lookup@[j].kind },
        );
        if tb.primary is Some {
            seq![Alias { table: t as usize, index: Index::Primary, kind: AliasKind::Type }] + secondary
        } else {
            secondary
        }
    }

    pub fn telety_path(&self) -> (r: &Option<ModPath>)
        ensures
            r == &self.root.telety_path,
    {
        &self.root.telety_path
    }

    pub fn map_path(&self) -> (r: &ModPath)
        ensures
            r == &self.root.map_path,
    {
        &self.root.map_path
    }

    pub fn module(&self, t: usize) -> (r: &Module)
        requires
            t < self.tables@.len(),
        ensures
            r == &self.tables@[t as int].module,
    {
        &self.tables[t].module
    }

    pub fn visibility(&self, t: usize) -> (r: &Visibility)
        requires
            t < self.tables@.len(),
        ensures
            r == &self.tables@[t as int].module.visibility,
    {
        &self.tables[t].module.visibility
    }

    pub fn unique_ident(&self, t: usize) -> (r: &String)
        requires
            t < self.tables@.len(),
        ensures
            r == &self.tables@[t as int].unique_ident,
    {
        &self.tables[t].unique_ident
    }
}


/// A generated module as seen from outside: where it stands and its name.
#[derive(Debug, PartialEq, Eq)]
pub struct Group {
    pub containing_path: ModPath,
    pub mod_ident: String,
}

impl Group {
    pub fn new(containing_path: ModPath, mod_ident: String) -> (r: Group)
        ensures
            r.containing_path == containing_path,
            r.mod_ident == mod_ident,
    {
        Group { containing_path, mod_ident }
    }

    /// The identifier of the module.
    pub fn ident(&self) -> (r: &String)
        ensures
            r == &self.mod_ident,
    {
        &self.mod_ident
    }

    /// The qualified path to the module.
    pub fn path(&self) -> (r: ModPath)
        ensures
            r@.leading_colon == self.containing_path@.leading_colon,
            r@.idents == self.containing_path@.idents.push(self.mod_ident@),
    {
        let mut p = self.containing_path.copy();
        let ghost before = p@;
        p.idents.push(self.mod_ident.clone());
        assert(p@.idents =~= before.idents.push(self.mod_ident@));
        p
    }
}

} // verus!
