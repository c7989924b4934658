//! Visibility one module level further in.
//!
//! Declarations generated inside a nested module must stay visible to the module that
//! holds the item, and no further than the item itself: each level of nesting asks for
//! a visibility one step less local.
use vstd::prelude::*;

use crate::syntax::{texts, ModPath, ModPathView, Visibility, VisibilityView};

verus! {

/// Whether a visibility can be written in Rust: `pub(...)` without `in` names only
/// `crate`, `self` or `super`.
pub open spec fn vis_well_formed(v: VisibilityView) -> bool {
    match v {
        VisibilityView::Restricted { in_token, path } => in_token || (path.idents.len() == 1
            && (path.idents[0] == "crate"@ || path.idents[0] == "self"@ || path.idents[0]
            == "super"@)),
        _ => true,
    }
}

pub open spec fn restricted(in_token: bool, idents: Seq<Seq<char>>) -> VisibilityView {
    VisibilityView::Restricted { in_token, path: ModPathView { leading_colon: false, idents } }
}

/// The same visibility, seen from a module nested one level deeper: public stays public,
/// `pub(crate)` stays, `self` becomes `super`, a relative `pub(in path)` gains a `super::`
/// in front, and private becomes `pub(super)`.
pub open spec fn super_vis_spec(v: VisibilityView) -> VisibilityView {
    match v {
        VisibilityView::Public => v,
        VisibilityView::Restricted { in_token, path } => if in_token {
            if path.idents.len() > 0 && path.idents[0] == "crate"@ {
                v
            } else if path.idents.len() > 0 && path.idents[0] == "self"@ {
                VisibilityView::Restricted {
                    in_token: true,
                    path: ModPathView { leading_colon: path.leading_colon, idents: path.idents.update(0, "super"@) },
                }
            } else {
                VisibilityView::Restricted {
                    in_token: true,
                    path: ModPathView { leading_colon: false, idents: seq!["super"@] + path.idents },
                }
            }
        } else if path.idents[0] == "crate"@ {
            v
        } else if path.idents[0] == "self"@ {
            restricted(false, seq!["super"@])
        } else {
            restricted(true, seq!["super"@, "super"@])
        },
        VisibilityView::Inherited => restricted(false, seq!["super"@]),
    }
}

fn text(s: &str) -> (r: String)
    ensures
        r@ == s@,
{
    String::from_str(s)
}

fn restricted_vis(in_token: bool, idents: Vec<String>) -> (r: Visibility)
    ensures
        r@ == restricted(in_token, texts(idents@)),
{
    Visibility::Restricted { in_token, path: ModPath { leading_colon: false, idents } }
}

/// Computes [`super_vis_spec`].
pub fn super_visibility(v: &Visibility) -> (r: Visibility)
    requires
        vis_well_formed(v@),
    ensures
        r@ == super_vis_spec(v@),
{
    match v {
        Visibility::Public => Visibility::Public,
        Visibility::Restricted { in_token, path } => {
            let crate_s = text("crate");
            let self_s = text("self");
            let super_s = text("super");
            let n = path.idents.len();
            if *in_token {
                if n > 0 && path.idents[0] == crate_s {
                    v.copy()
                } else if n > 0 && path.idents[0] == self_s {
                    let mut idents = crate::syntax::copy_strings(&path.idents);
                    idents[0] = super_s;
                    let r = Visibility::Restricted {
                        in_token: true,
                        path: ModPath { leading_colon: path.leading_colon, idents },
                    };
                    assert(texts(idents@) =~= texts(path.idents@).update(0, "super"@));
                    r
                } else {
                    let mut idents: Vec<String> = Vec::new();
                    idents.push(super_s);
                    let mut i: usize = 0;
                    while i < n
                        invariant
                            n == path.idents@.len(),
                            i <= n,
                            idents@.len() == i + 1,
                            idents@[0]@ == "super"@,
                            forall|j: int| 0 <= j < i ==> #[trigger] idents@[j + 1]@ == path.idents@[j]@,
                        decreases n - i,
                    {
                        idents.push(path.idents[i].clone());
                        i = i + 1;
                    }
                    let r = restricted_vis(true, idents);
                    assert(texts(idents@) =~= seq!["super"@] + texts(path.idents@)) by {
                        assert forall|j: int| 0 <= j < idents@.len() implies texts(idents@)[j] == (
                        seq!["super"@] + texts(path.idents@))[j] by {
                            if j > 0 {
                                assert(idents@[(j - 1) + 1]@ == path.idents@[j - 1]@);
                            }
                        }
                    }
                    r
                }
            } else if path.idents[0] == crate_s {
                v.copy()
            } else if path.idents[0] == self_s {
                let mut idents: Vec<String> = Vec::new();
                idents.push(super_s);
                assert(texts(idents@) =~= seq!["super"@]);
                restricted_vis(false, idents)
            } else {
                let mut idents: Vec<String> = Vec::new();
                idents.push(super_s);
                idents.push(text("super"));
                assert(texts(idents@) =~= seq!["super"@, "super"@]);
                restricted_vis(true, idents)
            }
        },
        Visibility::Inherited => {
            let mut idents: Vec<String> = Vec::new();
            idents.push(text("super"));
            assert(texts(idents@) =~= seq!["super"@]);
            restricted_vis(false, idents)
        },
    }
}

/// Whether macros generated at this visibility are exported from the crate.
pub fn visibility_macro_export(v: &Visibility) -> (r: bool)
    ensures
        r == (v@ is Public),
{
    match v {
        Visibility::Public => true,
        _ => false,
    }
}

} // verus!
