//! Switching the first segment of a path between `crate` and the current crate's name.
//!
//! Generated code names the item by a global path (`::my_crate::m::Item`); inside the
//! crate that defines it, that path is written back with `crate`. The crate's name is
//! passed in explicitly.
use vstd::prelude::*;

use crate::syntax::{texts, ModPath, ModPathView, Path, PathArguments, PathSegment};

verus! {

/// `p` with a first segment equal to `crate_ident` written as `crate`, without a
/// leading `::`; any other path as it is.
pub open spec fn crateify_spec(p: ModPathView, crate_ident: Seq<char>) -> ModPathView {
    if p.idents.len() > 0 && p.idents[0] == crate_ident {
        ModPathView { leading_colon: false, idents: p.idents.update(0, "crate"@) }
    } else {
        p
    }
}

/// `p` with a first segment `crate` written as `::crate_ident`; any other path as it is.
pub open spec fn decrateify_spec(p: ModPathView, crate_ident: Seq<char>) -> ModPathView {
    if p.idents.len() > 0 && p.idents[0] == "crate"@ {
        ModPathView { leading_colon: true, idents: p.idents.update(0, crate_ident) }
    } else {
        p
    }
}

fn is_text(s: &String, t: &str) -> (r: bool)
    ensures
        r == (s@ == t@),
{
    let u = String::from_str(t);
    *s == u
}

/// Replaces `crate_ident` as the first segment of a path by `crate`.
pub struct Crateify {
    pub crate_ident: String,
}

impl Crateify {
    pub fn new_as_crate(crate_ident: String) -> (r: Crateify)
        ensures
            r.crate_ident == crate_ident,
    {
        Crateify { crate_ident }
    }

    pub fn apply_mod_path(&self, p: &mut ModPath)
        ensures
            final(p)@ == crateify_spec(old(p)@, self.crate_ident@),
    {
        if p.idents.len() > 0 && p.idents[0] == self.crate_ident {
            p.idents[0] = String::from_str("crate");
            p.leading_colon = false;
            assert(texts(p.idents@) =~= texts(old(p).idents@).update(0, "crate"@));
        }
    }

    /// The same on a full path, whose first segment must also carry no arguments.
    pub fn apply_path(&self, p: &mut Path)
        ensures
            old(p).segments@.len() > 0 && old(p).segments@[0].ident@ == self.crate_ident@
                && old(p).segments@[0].arguments is Empty ==> {
                &&& !final(p).leading_colon
                &&& final(p).segments@ == old(p).segments@.update(0, final(p).segments@[0])
                &&& final(p).segments@[0].ident@ == "crate"@
                &&& final(p).segments@[0].arguments is Empty
            },
            !(old(p).segments@.len() > 0 && old(p).segments@[0].ident@ == self.crate_ident@
                && old(p).segments@[0].arguments is Empty) ==> *final(p) == *old(p),
    {
        if p.segments.len() > 0 && p.segments[0].ident == self.crate_ident {
            if let PathArguments::Empty = p.segments[0].arguments {
                p.segments[0] = PathSegment {
                    ident: String::from_str("crate"),
                    arguments: PathArguments::Empty,
                };
                p.leading_colon = false;
            }
        }
    }
}

/// Replaces a first segment `crate` by the current crate's name, made global.
pub struct Decrateify {
    pub crate_ident: String,
}

impl Decrateify {
    pub fn new_as_crate(crate_ident: String) -> (r: Decrateify)
        ensures
            r.crate_ident == crate_ident,
    {
        Decrateify { crate_ident }
    }

    pub fn apply_mod_path(&self, p: &mut ModPath)
        ensures
            final(p)@ == decrateify_spec(old(p)@, self.crate_ident@),
    {
        if p.idents.len() > 0 && is_text(&p.idents[0], "crate") {
            p.idents[0] = self.crate_ident.clone();
            p.leading_colon = true;
            assert(texts(p.idents@) =~= texts(old(p).idents@).update(0, self.crate_ident@));
        }
    }

    /// The same on a full path; the arguments of the first segment are kept.
    pub fn apply_path(&self, p: &mut Path)
        ensures
            old(p).segments@.len() > 0 && old(p).segments@[0].ident@ == "crate"@ ==> {
                &&& final(p).leading_colon
                &&& final(p).segments@ == old(p).segments@.update(0, final(p).segments@[0])
                &&& final(p).segments@[0].ident@ == self.crate_ident@
                &&& final(p).segments@[0].arguments == old(p).segments@[0].arguments
            },
            !(old(p).segments@.len() > 0 && old(p).segments@[0].ident@ == "crate"@) ==> *final(p)
                == *old(p),
    {
        if p.segments.len() > 0 && is_text(&p.segments[0].ident, "crate") {
            p.segments[0].ident = self.crate_ident.clone();
            p.leading_colon = true;
        }
    }
}

} // verus!
