//! An annotated item together with its alias table.
use vstd::prelude::*;

use crate::crateify::{crateify_spec, Crateify};
use crate::identify::{entries_view, identify_aliases, item_visits, param_names, visits_fold, EntryView};
use crate::map::{AliasMap, Module};
use crate::signature::{count_kind, ArgKind, SigView};
use crate::syntax::{
    item_generics, item_ident, item_vis, texts, Expr, GenericArgument, GenericParam, Generics,
    Item, ModPath, ModPathView, Path, PathArguments, PathSegment, Type, TypePath, Visibility,
};

verus! {

/// The arguments of the annotation on an item.
#[derive(Debug, PartialEq, Eq)]
pub struct Options {
    /// The path of the module that holds the item, as written (`crate::a::b`).
    pub containing_path: ModPath,
    /// Where the reflection library itself is reached, when not at `::telety`.
    pub telety_path: Option<ModPath>,
    /// The name of the generated macro, required when the item has no name.
    pub macro_ident: Option<String>,
    /// The visibility of the generated items, required when the item has none.
    pub visibility: Option<Visibility>,
    /// An item whose macro the generated macro re-exports instead.
    pub proxy: Option<ModPath>,
    /// Whether traits may be aliased; unset, only qualified trait paths are.
    pub alias_traits: Option<bool>,
}

pub open spec fn telety_path_spec(o: Options) -> ModPathView {
    match o.telety_path {
        Some(p) => p@,
        None => ModPathView { leading_colon: true, idents: seq!["telety"@] },
    }
}

impl Options {
    /// The module path with the current crate's name written as `crate`.
    pub fn converted_containing_path(&self, crate_ident: &String) -> (r: ModPath)
        ensures
            r@ == crateify_spec(self.containing_path@, crate_ident@),
    {
        let mut p = self.containing_path.copy();
        let c = Crateify::new_as_crate(crate_ident.clone());
        c.apply_mod_path(&mut p);
        p
    }

    /// The path of the reflection library, `::telety` unless set.
    pub fn telety_path(&self) -> (r: ModPath)
        ensures
            r@ == telety_path_spec(*self),
    {
        match &self.telety_path {
            Some(p) => p.copy(),
            None => {
                let mut idents: Vec<String> = Vec::new();
                idents.push(String::from_str("telety"));
                let r = ModPath { leading_colon: true, idents };
                assert(r@.idents =~= seq!["telety"@]);
                r
            },
        }
    }
}

/// Why no single annotation could be found among an item's attributes.
#[derive(Clone, Copy, Debug, PartialEq, Eq, Structural)]
pub enum AttributeError {
    NotFound,
    Duplicate,
}

/// Whether an attribute's path is the bare identifier `telety`.
pub open spec fn is_telety_attr(p: ModPathView) -> bool {
    !p.leading_colon && p.idents.len() == 1 && p.idents[0] == "telety"@
}

/// The number of annotations among the first `n` attribute paths.
pub open spec fn telety_attr_count(paths: Seq<ModPathView>, n: int) -> nat
    decreases n,
{
    if n <= 0 {
        0
    } else {
        telety_attr_count(paths, n - 1) + if is_telety_attr(paths[n - 1]) {
            1nat
        } else {
            0nat
        }
    }
}

/// Finds the one annotation among an item's attribute paths: its position, or
/// `NotFound` when there is none and `Duplicate` when there are several.
pub fn find_telety_attribute(paths: &Vec<ModPath>) -> (r: Result<usize, AttributeError>)
    ensures
        match r {
            Ok(i) => i < paths@.len() && is_telety_attr(paths@[i as int]@) && telety_attr_count(
                paths@.map_values(|p: ModPath| p@),
                paths@.len() as int,
            ) == 1,
            Err(AttributeError::NotFound) => telety_attr_count(
                paths@.map_values(|p: ModPath| p@),
                paths@.len() as int,
            ) == 0,
            Err(AttributeError::Duplicate) => telety_attr_count(
                paths@.map_values(|p: ModPath| p@),
                paths@.len() as int,
            ) > 1,
        },
{
    let ghost views = paths@.map_values(|p: ModPath| p@);
    let telety = String::from_str("telety");
    let mut found: Option<usize> = None;
    let mut i: usize = 0;
    while i < paths.len()
        invariant
            views == paths@.map_values(|p: ModPath| p@),
            telety@ == "telety"@,
            i <= paths@.len(),
            match found {
                Some(k) => k < i && is_telety_attr(views[k as int]) && telety_attr_count(views, i as int) == 1,
                None => telety_attr_count(views, i as int) == 0,
            },
        decreases paths@.len() - i,
    {
        let p = &paths[i];
        let hit = !p.leading_colon && p.idents.len() == 1 && p.idents[0] == telety;
        assert(views[i as int] == p@);
        assert(hit == is_telety_attr(views[i as int]));
        if hit {
            if found.is_some() {
                proof {
                    lemma_count_monotone(views, i + 1, paths@.len() as int);
                }
                return Err(AttributeError::Duplicate);
            }
            found = Some(i);
        }
        i = i + 1;
    }
    match found {
        Some(k) => Ok(k),
        None => Err(AttributeError::NotFound),
    }
}

proof fn lemma_count_monotone(paths: Seq<ModPathView>, a: int, b: int)
    requires
        0 <= a <= b,
    ensures
        telety_attr_count(paths, a) <= telety_attr_count(paths, b),
    decreases b - a,
{
    if a < b {
        lemma_count_monotone(paths, a, b - 1);
    }
}

/// Why an item cannot be reflected.
#[derive(Clone, Copy, Debug, PartialEq, Eq, Structural)]
pub enum TeletyError {
    MacroNamespace,
    MissingMacroIdent,
    MissingVisibility,
    UnsupportedItem,
}

pub open spec fn telety_error_text(e: TeletyError) -> Seq<char> {
    match e {
        TeletyError::MacroNamespace => "Cannot be applied to items in the macro namespace"@,
        TeletyError::MissingMacroIdent => "Items without an identifier require a 'macro_ident' argument"@,
        TeletyError::MissingVisibility => "Items without a visibility require a 'visibility' argument"@,
        TeletyError::UnsupportedItem => "Only enums, structs, unions, and traits are currently supported"@,
    }
}

impl TeletyError {
    pub fn message(&self) -> (r: String)
        ensures
            r@ == telety_error_text(*self),
    {
        match self {
            TeletyError::MacroNamespace => String::from_str(
                "Cannot be applied to items in the macro namespace",
            ),
            TeletyError::MissingMacroIdent => String::from_str(
                "Items without an identifier require a 'macro_ident' argument",
            ),
            TeletyError::MissingVisibility => String::from_str(
                "Items without a visibility require a 'visibility' argument",
            ),
            TeletyError::UnsupportedItem => String::from_str(
                "Only enums, structs, unions, and traits are currently supported",
            ),
        }
    }
}

/// The first reason, in the order they are checked, why `item` cannot be reflected.
pub open spec fn telety_error(item: Item, options: Options) -> Option<TeletyError> {
    if item_ident(item) is Some && item_ident(item)->Some_0.1.macro_ns {
        Some(TeletyError::MacroNamespace)
    } else if options.macro_ident is None && item_ident(item) is None {
        Some(TeletyError::MissingMacroIdent)
    } else if options.visibility is None && item_vis(item) is None {
        Some(TeletyError::MissingVisibility)
    } else if item is Other {
        Some(TeletyError::UnsupportedItem)
    } else {
        None
    }
}

/// Identifiers joined with `_`.
pub open spec fn joined(ids: Seq<Seq<char>>) -> Seq<char>
    decreases ids.len(),
{
    if ids.len() <= 1 {
        if ids.len() == 1 {
            ids[0]
        } else {
            Seq::empty()
        }
    } else {
        joined(ids.subrange(0, ids.len() - 1)) + "_"@ + ids[ids.len() - 1]
    }
}

/// The kinds of the arguments that name each generic parameter in turn.
pub open spec fn param_kinds(ps: Seq<GenericParam>) -> Seq<ArgKind>
    decreases ps.len(),
{
    if ps.len() == 0 {
        Seq::empty()
    } else {
        param_kinds(ps.subrange(0, ps.len() - 1)).push(
            match ps[ps.len() - 1] {
                GenericParam::Lifetime { .. } => ArgKind::Lifetime,
                GenericParam::Type { .. } => ArgKind::Type,
                GenericParam::Const { .. } => ArgKind::Const,
            },
        )
    }
}

/// The parameters of an item's generics, none if it has no generics.
pub open spec fn item_params(item: Item) -> Seq<GenericParam> {
    match item_generics(item) {
        Some(g) => g.params@,
        None => Seq::empty(),
    }
}

/// The signature of the item's own path: the converted module path, then the item's
/// name carrying one argument per generic parameter.
pub open spec fn self_sig(item: Item, module: ModPathView) -> SigView {
    let ks = param_kinds(item_params(item));
    SigView {
        lifetime_count: count_kind(ks, ArgKind::Lifetime),
        type_count: count_kind(ks, ArgKind::Type),
        const_count: count_kind(ks, ArgKind::Const),
        leading_colon: module.leading_colon,
        idents: module.idents.push(item_ident(item)->Some_0.0),
    }
}

/// Whether argument `a` is the bare name of parameter `p`.
pub open spec fn names_param(a: GenericArgument, p: GenericParam) -> bool {
    match (a, p) {
        (GenericArgument::Lifetime(l), GenericParam::Lifetime { name, .. }) => l@ == name@,
        (GenericArgument::Type(Type::Path(tp)), GenericParam::Type { ident, .. }) => tp.qself is None
            && crate::syntax::is_ident_spec(tp.path, ident@),
        (GenericArgument::Const(Expr::Path(pp)), GenericParam::Const { ident, .. }) => crate::syntax::is_ident_spec(
            pp,
            ident@,
        ),
        _ => false,
    }
}

/// Joins identifiers with `_`.
fn join_idents(ids: &Vec<String>) -> (r: String)
    ensures
        r@ == joined(texts(ids@)),
{
    let mut r = String::new();
    let mut i: usize = 0;
    while i < ids.len()
        invariant
            i <= ids@.len(),
            r@ == joined(texts(ids@.subrange(0, i as int))),
        decreases ids@.len() - i,
    {
        proof {
            assert(texts(ids@.subrange(0, i + 1)).subrange(0, i as int) =~= texts(
                ids@.subrange(0, i as int),
            ));
        }
        if i == 0 {
            r = ids[0].clone();
            assert(texts(ids@.subrange(0, 1)) =~= seq![ids@[0]@]);
        } else {
            r.append("_");
            r.append(ids[i].as_str());
        }
        i = i + 1;
    }
    assert(ids@.subrange(0, ids@.len() as int) =~= ids@);
    r
}

/// One argument per generic parameter, naming it: `<'a, T, N>` for `<'a, T: X, const N: usize>`.
pub fn generic_params_to_arguments(g: &Generics) -> (r: Vec<GenericArgument>)
    ensures
        crate::signature::kinds_of(r@) == param_kinds(g.params@),
        r@.len() == g.params@.len(),
        forall|i: int| 0 <= i < r@.len() ==> names_param(#[trigger] r@[i], g.params@[i]),
{
    let mut r: Vec<GenericArgument> = Vec::new();
    let mut i: usize = 0;
    while i < g.params.len()
        invariant
            i <= g.params@.len(),
            crate::signature::kinds_of(r@) == param_kinds(g.params@.subrange(0, i as int)),
            r@.len() == i,
            forall|j: int| 0 <= j < i ==> names_param(#[trigger] r@[j], g.params@[j]),
        decreases g.params@.len() - i,
    {
        proof {
            assert(g.params@.subrange(0, i + 1).subrange(0, i as int) =~= g.params@.subrange(
                0,
                i as int,
            ));
        }
        let ghost before = r@;
        let arg = match &g.params[i] {
            GenericParam::Lifetime { name, .. } => GenericArgument::Lifetime(name.clone()),
            GenericParam::Type { ident, .. } => GenericArgument::Type(
                Type::Path(TypePath { qself: None, path: single_segment(ident) }),
            ),
            GenericParam::Const { ident, .. } => GenericArgument::Const(
                Expr::Path(single_segment(ident)),
            ),
        };
        r.push(arg);
        proof {
            assert(r@.subrange(0, r@.len() - 1) =~= before);
        }
        i = i + 1;
    }
    assert(g.params@.subrange(0, g.params@.len() as int) =~= g.params@);
    r
}

/// The path made of the one identifier `ident`.
pub fn single_segment(ident: &String) -> (r: Path)
    ensures
        !r.leading_colon,
        r.segments@.len() == 1,
        r.segments@[0].ident@ == ident@,
        r.segments@[0].arguments is Empty,
{
    let mut segments: Vec<PathSegment> = Vec::new();
    segments.push(PathSegment { ident: ident.clone(), arguments: PathArguments::Empty });
    Path { leading_colon: false, segments }
}

/// The item's own path: `module` followed by `ident` carrying one argument per parameter.
fn self_type_path(module: &ModPath, ident: &String, g: &Generics) -> (r: Path)
    ensures
        crate::signature::path_normalizes(r),
        crate::signature::signature_of(r).leading_colon == module@.leading_colon,
        crate::signature::signature_of(r).idents == module@.idents.push(ident@),
        crate::signature::last_kinds(r) == param_kinds(g.params@),
{
    let mut segments: Vec<PathSegment> = Vec::new();
    let mut i: usize = 0;
    while i < module.idents.len()
        invariant
            i <= module.idents@.len(),
            segments@.len() == i,
            forall|j: int|
                0 <= j < i ==> (#[trigger] segments@[j]).ident@ == module.idents@[j]@
                    && segments@[j].arguments is Empty,
        decreases module.idents@.len() - i,
    {
        segments.push(PathSegment { ident: module.idents[i].clone(), arguments: PathArguments::Empty });
        i = i + 1;
    }
    let args = generic_params_to_arguments(g);
    segments.push(
        PathSegment {
            ident: ident.clone(),
            arguments: PathArguments::AngleBracketed { colon2: false, args },
        },
    );
    let r = Path { leading_colon: module.leading_colon, segments };
    assert(crate::signature::signature_of(r).idents =~= module@.idents.push(ident@));
    r
}

/// An item ready for reflection: its options, its alias table (one table, the root),
/// and the names that generated code uses.
pub struct Telety {
    pub options: Options,
    pub item: Item,
    pub alias_map: AliasMap,
    pub macro_ident: String,
    pub visibility: Visibility,
    pub unique_ident: String,
}

impl Telety {
    /// Checks that the item can be reflected, then builds its alias table: the item's
    /// own path is the primary entry, and discovery over the item, with the item's
    /// generic parameters bound, files the secondary ones. `crate_ident` is the name of
    /// the crate being compiled.
    pub fn new_with_options(item: Item, options: Options, crate_ident: &String) -> (r: Result<
        Telety,
        TeletyError,
    >)
        requires
            options.containing_path.idents@.len() > 0,
        ensures
            match r {
                Err(e) => telety_error(item, options) == Some(e),
                Ok(tl) => {
                    &&& telety_error(item, options) is None
                    &&& tl.item == item
                    &&& tl.options == options
                    &&& tl.macro_ident@ == match options.macro_ident {
                        Some(m) => m@,
                        None => item_ident(item)->Some_0.0,
                    }
                    &&& tl.visibility@ == match options.visibility {
                        Some(v) => v@,
                        None => item_vis(item)->Some_0,
                    }
                    &&& tl.unique_ident@ == joined(texts(options.containing_path.idents@)) + "_"@
                        + tl.macro_ident@
                    &&& tl.alias_map.wf()
                    &&& tl.alias_map.tables@.len() == 1
                    &&& tl.alias_map.tables@[0].parent is None
                    &&& tl.alias_map.tables@[0].unique_ident == tl.unique_ident
                    &&& tl.alias_map.tables@[0].module.ident@ == "__telety_alias_map_"@
                        + item_ident(item)->Some_0.0
                    &&& Some(tl.alias_map.tables@[0].module.visibility@) == item_vis(item)
                    &&& tl.alias_map.root.map_path@ == crateify_spec(
                        options.containing_path@,
                        crate_ident@,
                    )
                    &&& tl.alias_map.root.alias_traits == options.alias_traits
                    &&& tl.alias_map.tables@[0].primary is Some
                    &&& tl.alias_map.tables@[0].primary->Some_0.0@ == self_sig(
                        item,
                        crateify_spec(options.containing_path@, crate_ident@),
                    )
                    &&& tl.alias_map.tables@[0].primary->Some_0.1.kinds@ == param_kinds(
                        item_params(item),
                    )
                    &&& entries_view(tl.alias_map.tables@[0].lookup@) == visits_fold(
                        Seq::<EntryView>::empty(),
                        options.alias_traits,
                        Set::empty(),
                        item_visits(item, param_names(item_params(item))),
                    )
                },
            },
    {
        if let Some(ns) = item.namespaces() {
            if ns.macro_ns {
                return Err(TeletyError::MacroNamespace);
            }
        }
        let macro_ident = match &options.macro_ident {
            Some(m) => m.clone(),
            None => match item.ident() {
                Some(i) => i.clone(),
                None => return Err(TeletyError::MissingMacroIdent),
            },
        };
        let visibility = match &options.visibility {
            Some(v) => v.copy(),
            None => match item.vis() {
                Some(v) => v.copy(),
                None => return Err(TeletyError::MissingVisibility),
            },
        };
        if let Item::Other(_) = item {
            return Err(TeletyError::UnsupportedItem);
        }
        let item_name = match item.ident() {
            Some(i) => i.clone(),
            None => return Err(TeletyError::MissingMacroIdent),
        };
        let module_vis = match item.vis() {
            Some(v) => v.copy(),
            None => return Err(TeletyError::MissingVisibility),
        };
        let mut unique_ident = join_idents(&options.containing_path.idents);
        unique_ident.append("_");
        unique_ident.append(macro_ident.as_str());
        let converted = options.converted_containing_path(crate_ident);
        let empty = Generics { params: Vec::new(), where_clause: None };
        let generics = match item.generics() {
            Some(g) => g,
            None => &empty,
        };
        let self_path = self_type_path(&converted, &item_name, generics);
        let module = Module::for_item(module_vis, &item_name);
        let mut alias_map = AliasMap::new_root(
            options.telety_path.as_ref().map(|p: &ModPath| p.copy()),
            converted,
            module,
            copy_string(&unique_ident),
            options.alias_traits,
        );
        let ghost m0 = alias_map;
        let set = alias_map.set_self(0, &self_path);
        assert(set is Ok);
        let ghost m1 = alias_map;
        assert(m1.tables@[0].lookup == m0.tables@[0].lookup);
        identify_aliases(&mut alias_map, 0, generics, &item);
        proof {
            assert(crate::identify::parent_sigs(m1, 0) =~= Set::<SigView>::empty());
            assert(entries_view(m1.tables@[0].lookup@) =~= Seq::<EntryView>::empty());
            assert(crate::signature::signature_of(self_path) == self_sig(item, converted@));
        }
        Ok(Telety { options, item, alias_map, macro_ident, visibility, unique_ident })
    }

    pub fn options(&self) -> (r: &Options)
        ensures
            r == &self.options,
    {
        &self.options
    }

    pub fn alias_map(&self) -> (r: &AliasMap)
        ensures
            r == &self.alias_map,
    {
        &self.alias_map
    }

    pub fn visibility(&self) -> (r: &Visibility)
        ensures
            r == &self.visibility,
    {
        &self.visibility
    }

    pub fn item(&self) -> (r: &Item)
        ensures
            r == &self.item,
    {
        &self.item
    }

    pub fn macro_ident(&self) -> (r: &String)
        ensures
            r == &self.macro_ident,
    {
        &self.macro_ident
    }

    pub fn unique_ident(&self) -> (r: &String)
        ensures
            r == &self.unique_ident,
    {
        &self.unique_ident
    }

    /// What [`Telety::path`] returns.
    pub open spec fn path_spec(&self) -> ModPathView {
        match item_ident(self.item) {
            Some((name, _)) => ModPathView {
                leading_colon: self.options.containing_path@.leading_colon,
                idents: self.options.containing_path@.idents.push(name),
            },
            None => self.options.containing_path@,
        }
    }

    /// The path to the item: the module path as given (with the crate's name, not
    /// `crate`) followed by the item's name.
    pub fn path(&self) -> (r: ModPath)
        ensures
            r@ == self.path_spec(),
    {
        let mut p = self.options.containing_path.copy();
        match self.item.ident() {
            Some(i) => {
                let ghost before = p@;
                p.idents.push(i.clone());
                assert(p@.idents =~= before.idents.push(i@));
            },
            None => {},
        }
        p
    }

    /// The path of the module holding the item, with the crate's name written as `crate`.
    pub fn containing_mod_path(&self, crate_ident: &String) -> (r: ModPath)
        ensures
            r@ == crateify_spec(self.options.containing_path@, crate_ident@),
    {
        self.options.converted_containing_path(crate_ident)
    }
}

fn copy_string(s: &String) -> (r: String)
    ensures
        r == *s,
{
    s.clone()
}

} // verus!
