//! Normalizing a type path into the key under which its alias is filed.
//!
//! A path's signature is its text with the generic arguments taken off, together with
//! how many lifetime, type and const arguments its last segment carried. Two paths share
//! an alias exactly when their signatures are equal token for token.
use vstd::prelude::*;

use crate::error::{Error, Kind};
use crate::syntax::{copy_strings, texts, GenericArgument, Path, PathArguments, TypePath};

verus! {

/// The kind of one positional generic argument.
#[derive(Clone, Copy, Debug, PartialEq, Eq, Structural)]
pub enum ArgKind {
    Lifetime,
    Type,
    Const,
}

/// The positional generic arguments stripped from a path, by kind and in order.
/// Associated-type, associated-const and constraint arguments are not positional and
/// are left out.
#[derive(Debug, PartialEq, Eq)]
pub struct Arguments {
    pub kinds: Vec<ArgKind>,
}

/// The alias key of a path: argument counts and the path without arguments.
#[derive(Debug, PartialEq, Eq)]
pub struct Signature {
    pub lifetime_count: usize,
    pub type_count: usize,
    pub const_count: usize,
    pub leading_colon: bool,
    pub idents: Vec<String>,
}

pub struct SigView {
    pub lifetime_count: nat,
    pub type_count: nat,
    pub const_count: nat,
    pub leading_colon: bool,
    pub idents: Seq<Seq<char>>,
}

impl View for Signature {
    type V = SigView;

    open spec fn view(&self) -> SigView {
        SigView {
            lifetime_count: self.lifetime_count as nat,
            type_count: self.type_count as nat,
            const_count: self.const_count as nat,
            leading_colon: self.leading_colon,
            idents: texts(self.idents@),
        }
    }
}

pub open spec fn arg_kind(a: GenericArgument) -> Option<ArgKind> {
    match a {
        GenericArgument::Lifetime(_) => Some(ArgKind::Lifetime),
        GenericArgument::Type(_) => Some(ArgKind::Type),
        GenericArgument::Const(_) => Some(ArgKind::Const),
        _ => None,
    }
}

/// The kinds of the positional arguments in `args`, in order.
pub open spec fn kinds_of(args: Seq<GenericArgument>) -> Seq<ArgKind>
    decreases args.len(),
{
    if args.len() == 0 {
        Seq::empty()
    } else {
        let init = kinds_of(args.subrange(0, args.len() - 1));
        match arg_kind(args[args.len() - 1]) {
            Some(k) => init.push(k),
            None => init,
        }
    }
}

/// How many entries of `ks` are of kind `k`.
pub open spec fn count_kind(ks: Seq<ArgKind>, k: ArgKind) -> nat
    decreases ks.len(),
{
    if ks.len() == 0 {
        0
    } else {
        count_kind(ks.subrange(0, ks.len() - 1), k) + if ks[ks.len() - 1] == k {
            1nat
        } else {
            0nat
        }
    }
}

/// The positional argument kinds that a segment's arguments carry; `<>` carries none.
pub open spec fn segment_kinds(a: PathArguments) -> Seq<ArgKind> {
    match a {
        PathArguments::AngleBracketed { args, .. } => kinds_of(args@),
        _ => Seq::empty(),
    }
}

/// Whether a path can be normalized: no segment has parenthesized arguments, and no
/// segment but the last has positional generic arguments.
pub open spec fn path_normalizes(p: Path) -> bool {
    forall|i: int|
        0 <= i < p.segments@.len() ==> {
            &&& !(#[trigger] p.segments@[i].arguments is Parenthesized)
            &&& i + 1 < p.segments@.len() ==> segment_kinds(p.segments@[i].arguments).len() == 0
        }
}

/// The positional argument kinds of the last segment of `p`.
pub open spec fn last_kinds(p: Path) -> Seq<ArgKind> {
    if p.segments@.len() == 0 {
        Seq::empty()
    } else {
        segment_kinds(p.segments@[p.segments@.len() - 1].arguments)
    }
}

/// The signature of a path that normalizes.
pub open spec fn signature_of(p: Path) -> SigView {
    let ks = last_kinds(p);
    SigView {
        lifetime_count: count_kind(ks, ArgKind::Lifetime),
        type_count: count_kind(ks, ArgKind::Type),
        const_count: count_kind(ks, ArgKind::Const),
        leading_colon: p.leading_colon,
        idents: p.segments@.map_values(|s: crate::syntax::PathSegment| s.ident@),
    }
}

/// What normalizing a path yields: its signature and its argument kinds, or why not.
pub open spec fn normalize_spec(p: Path) -> Result<(SigView, Seq<ArgKind>), Kind> {
    if path_normalizes(p) {
        Ok((signature_of(p), last_kinds(p)))
    } else {
        Err(Kind::AssociatedType)
    }
}

/// What normalizing a type path yields: a qualified-self prefix is refused.
pub open spec fn normalize_type_spec(t: TypePath) -> Result<(SigView, Seq<ArgKind>), Kind> {
    if t.qself is Some {
        Err(Kind::AssociatedType)
    } else {
        normalize_spec(t.path)
    }
}

proof fn lemma_count_kind_le(ks: Seq<ArgKind>, k: ArgKind)
    ensures
        count_kind(ks, k) <= ks.len(),
    decreases ks.len(),
{
    if ks.len() > 0 {
        lemma_count_kind_le(ks.subrange(0, ks.len() - 1), k);
    }
}

/// Counts the arguments of kind `k` in `ks`.
fn count_of(ks: &Vec<ArgKind>, k: ArgKind) -> (r: usize)
    ensures
        r == count_kind(ks@, k),
{
    let mut n: usize = 0;
    let mut i: usize = 0;
    while i < ks.len()
        invariant
            i <= ks@.len(),
            n == count_kind(ks@.subrange(0, i as int), k),
        decreases ks@.len() - i,
    {
        proof {
            assert(ks@.subrange(0, i + 1).subrange(0, i as int) =~= ks@.subrange(0, i as int));
            lemma_count_kind_le(ks@.subrange(0, i as int), k);
        }
        if ks[i] == k {
            n = n + 1;
        }
        i = i + 1;
    }
    assert(ks@.subrange(0, ks@.len() as int) =~= ks@);
    n
}

impl Arguments {
    /// The positional argument kinds of one segment's arguments. Parenthesized
    /// arguments have no such form and are refused.
    pub fn new(args: &PathArguments) -> (r: Result<Arguments, Error>)
        ensures
            match r {
                Ok(a) => !(*args is Parenthesized) && a.kinds@ == segment_kinds(*args),
                Err(e) => *args is Parenthesized && e.kind == Kind::AssociatedType,
            },
    {
        match args {
            PathArguments::Empty => Ok(Arguments { kinds: Vec::new() }),
            PathArguments::AngleBracketed { args, .. } => {
                let mut kinds: Vec<ArgKind> = Vec::new();
                let mut i: usize = 0;
                while i < args.len()
                    invariant
                        i <= args@.len(),
                        kinds@ == kinds_of(args@.subrange(0, i as int)),
                    decreases args@.len() - i,
                {
                    proof {
                        assert(args@.subrange(0, i + 1).subrange(0, i as int) =~= args@.subrange(
                            0,
                            i as int,
                        ));
                    }
                    match &args[i] {
                        GenericArgument::Lifetime(_) => kinds.push(ArgKind::Lifetime),
                        GenericArgument::Type(_) => kinds.push(ArgKind::Type),
                        GenericArgument::Const(_) => kinds.push(ArgKind::Const),
                        _ => {},
                    }
                    i = i + 1;
                }
                assert(args@.subrange(0, args@.len() as int) =~= args@);
                Ok(Arguments { kinds })
            },
            PathArguments::Parenthesized { .. } => Err(Kind::AssociatedType.error()),
        }
    }

    /// True when there are no positional arguments (`<>` counts as none).
    pub fn is_empty(&self) -> (r: bool)
        ensures
            r == (self.kinds@.len() == 0),
    {
        self.kinds.len() == 0
    }

    pub fn lifetime_count(&self) -> (r: usize)
        ensures
            r == count_kind(self.kinds@, ArgKind::Lifetime),
    {
        count_of(&self.kinds, ArgKind::Lifetime)
    }

    pub fn type_count(&self) -> (r: usize)
        ensures
            r == count_kind(self.kinds@, ArgKind::Type),
    {
        count_of(&self.kinds, ArgKind::Type)
    }

    pub fn const_count(&self) -> (r: usize)
        ensures
            r == count_kind(self.kinds@, ArgKind::Const),
    {
        count_of(&self.kinds, ArgKind::Const)
    }
}

impl Signature {
    /// Normalizes a path (see [`normalize_spec`]).
    pub fn from_path(path: &Path) -> (r: Result<(Signature, Arguments), Error>)
        ensures
            match r {
                Ok((s, a)) => normalize_spec(*path) == Ok::<_, Kind>((s@, a.kinds@)),
                Err(e) => normalize_spec(*path) == Err::<(SigView, Seq<ArgKind>), _>(e.kind),
            },
    {
        let n = path.segments.len();
        let mut idents: Vec<String> = Vec::new();
        let mut last = Arguments { kinds: Vec::new() };
        let mut i: usize = 0;
        while i < n
            invariant
                n == path.segments@.len(),
                i <= n,
                idents@.len() == i,
                forall|j: int| 0 <= j < i ==> #[trigger] idents@[j]@ == path.segments@[j].ident@,
                forall|j: int|
                    0 <= j < i ==> {
                        &&& !(#[trigger] path.segments@[j].arguments is Parenthesized)
                        &&& j + 1 < i ==> segment_kinds(path.segments@[j].arguments).len() == 0
                    },
                i > 0 ==> last.kinds@ == segment_kinds(path.segments@[i - 1].arguments),
                i == 0 ==> last.kinds@.len() == 0,
            decreases n - i,
        {
            let args = match Arguments::new(&path.segments[i].arguments) {
                Ok(a) => a,
                Err(e) => {
                    assert(!path_normalizes(*path));
                    return Err(e);
                },
            };
            if !last.is_empty() {
                assert(!path_normalizes(*path)) by {
                    assert(!(segment_kinds(path.segments@[i - 1].arguments).len() == 0));
                }
                return Err(Kind::AssociatedType.error());
            }
            last = args;
            idents.push(path.segments[i].ident.clone());
            i = i + 1;
        }
        assert(path_normalizes(*path));
        let sig = Signature {
            lifetime_count: last.lifetime_count(),
            type_count: last.type_count(),
            const_count: last.const_count(),
            leading_colon: path.leading_colon,
            idents,
        };
        assert(sig@.idents =~= path.segments@.map_values(|s: crate::syntax::PathSegment| s.ident@));
        assert(last_kinds(*path) == last.kinds@);
        Ok((sig, last))
    }

    /// Normalizes a type path; a `<T as Trait>` prefix is refused.
    pub fn new(ty: &TypePath) -> (r: Result<(Signature, Arguments), Error>)
        ensures
            match r {
                Ok((s, a)) => normalize_type_spec(*ty) == Ok::<_, Kind>((s@, a.kinds@)),
                Err(e) => normalize_type_spec(*ty) == Err::<(SigView, Seq<ArgKind>), _>(e.kind),
            },
    {
        if ty.qself.is_some() {
            return Err(Kind::AssociatedType.error());
        }
        Signature::from_path(&ty.path)
    }

    /// Token-for-token equality of two signatures.
    pub fn same_as(&self, other: &Signature) -> (r: bool)
        ensures
            r == (self@ == other@),
    {
        if self.lifetime_count != other.lifetime_count || self.type_count != other.type_count
            || self.const_count != other.const_count || self.leading_colon != other.leading_colon {
            return false;
        }
        if self.idents.len() != other.idents.len() {
            assert(self@.idents.len() != other@.idents.len());
            return false;
        }
        let mut i: usize = 0;
        while i < self.idents.len()
            invariant
                i <= self.idents@.len(),
                self.idents@.len() == other.idents@.len(),
                forall|j: int| 0 <= j < i ==> #[trigger] self.idents@[j]@ == other.idents@[j]@,
            decreases self.idents@.len() - i,
        {
            if self.idents[i] != other.idents[i] {
                assert(self@.idents[i as int] != other@.idents[i as int]);
                return false;
            }
            i = i + 1;
        }
        assert(self@.idents =~= other@.idents);
        true
    }

    /// A copy of this signature.
    pub fn copy(&self) -> (r: Signature)
        ensures
            r@ == self@,
    {
        Signature {
            lifetime_count: self.lifetime_count,
            type_count: self.type_count,
            const_count: self.const_count,
            leading_colon: self.leading_colon,
            idents: copy_strings(&self.idents),
        }
    }
}

} // verus!
