//! A plain token tree, the form in which generated code leaves the library.
use vstd::prelude::*;

verus! {

#[derive(Clone, Copy, Debug, PartialEq, Eq, Structural)]
pub enum Delimiter {
    Parenthesis,
    Brace,
    Bracket,
    Invisible,
}

/// One token tree. A `Punct` whose flag is true is joined to the token after it, as the
/// first `:` of `::` is.
#[derive(Debug, PartialEq, Eq)]
pub enum Tok {
    Ident(String),
    Punct(char, bool),
    Literal(String),
    Group(Delimiter, Vec<Tok>),
}


/// A token tree as plain values.
pub enum TokView {
    Ident(Seq<char>),
    Punct(char, bool),
    Literal(Seq<char>),
    Group(Delimiter, Seq<TokView>),
}

pub open spec fn tok_view(t: Tok) -> TokView
    decreases t,
{
    match t {
        Tok::Ident(s) => TokView::Ident(s@),
        Tok::Punct(c, j) => TokView::Punct(c, j),
        Tok::Literal(s) => TokView::Literal(s@),
        Tok::Group(d, v) => TokView::Group(d, toks_view(v@)),
    }
}

pub open spec fn toks_view(s: Seq<Tok>) -> Seq<TokView>
    decreases s,
{
    if s.len() == 0 {
        Seq::empty()
    } else {
        toks_view(s.subrange(0, s.len() - 1)).push(tok_view(s[s.len() - 1]))
    }
}

/// Whether token `t` is the single token `needle`: identifiers and literals by their
/// text, punctuation by its character alone.
pub open spec fn is_needle(needle: TokView, t: TokView) -> bool {
    match (needle, t) {
        (TokView::Ident(a), TokView::Ident(b)) => a == b,
        (TokView::Punct(a, _), TokView::Punct(b, _)) => a == b,
        (TokView::Literal(a), TokView::Literal(b)) => a == b,
        _ => false,
    }
}

/// `hay` with every occurrence of `needle`, at any depth of grouping, replaced by `repl`.
pub open spec fn far_view(needle: TokView, repl: Seq<TokView>, hay: Seq<TokView>) -> Seq<TokView>
    decreases hay,
{
    if hay.len() == 0 {
        Seq::empty()
    } else {
        let init = far_view(needle, repl, hay.subrange(0, hay.len() - 1));
        let last = hay[hay.len() - 1];
        match last {
            TokView::Group(d, inner) => init.push(TokView::Group(d, far_view(needle, repl, inner))),
            _ => if is_needle(needle, last) {
                init + repl
            } else {
                init.push(last)
            },
        }
    }
}

pub proof fn lemma_toks_view_push(s: Seq<Tok>, t: Tok)
    ensures
        toks_view(s.push(t)) == toks_view(s).push(tok_view(t)),
{
    assert(s.push(t).subrange(0, s.len() as int) =~= s);
}

pub proof fn lemma_toks_view_append(a: Seq<Tok>, b: Seq<Tok>)
    ensures
        toks_view(a + b) == toks_view(a) + toks_view(b),
    decreases b.len(),
{
    if b.len() == 0 {
        assert(a + b =~= a);
        assert(toks_view(a) + toks_view(b) =~= toks_view(a));
    } else {
        let b0 = b.subrange(0, b.len() - 1);
        lemma_toks_view_append(a, b0);
        assert((a + b).subrange(0, (a + b).len() - 1) =~= a + b0);
        assert(toks_view(a) + toks_view(b) =~= (toks_view(a) + toks_view(b0)).push(
            tok_view(b[b.len() - 1]),
        ));
    }
}

impl Tok {
    /// A copy of this token tree.
    pub fn copy(&self) -> (r: Tok)
        ensures
            tok_view(r) == tok_view(*self),
        decreases *self,
    {
        match self {
            Tok::Ident(s) => Tok::Ident(s.clone()),
            Tok::Punct(c, j) => Tok::Punct(*c, *j),
            Tok::Literal(s) => Tok::Literal(s.clone()),
            Tok::Group(d, v) => Tok::Group(*d, copy_toks(v)),
        }
    }
}

/// A copy of a token list.
pub fn copy_toks(v: &Vec<Tok>) -> (r: Vec<Tok>)
    ensures
        toks_view(r@) == toks_view(v@),
    decreases *v,
{
    let mut r: Vec<Tok> = Vec::new();
    let mut i: usize = 0;
    while i < v.len()
        invariant
            i <= v@.len(),
            toks_view(r@) == toks_view(v@.subrange(0, i as int)),
        decreases v@.len() - i,
    {
        proof {
            assert(decreases_to!(*v => (*v)@));
            assert(decreases_to!((*v)@ => (*v)@[i as int]));
        }
        let t = v[i].copy();
        proof {
            lemma_toks_view_push(r@, t);
            assert(v@.subrange(0, i + 1).subrange(0, i as int) =~= v@.subrange(0, i as int));
        }
        r.push(t);
        i = i + 1;
    }
    assert(v@.subrange(0, v@.len() as int) =~= v@);
    r
}

fn is_needle_exec(needle: &Tok, t: &Tok) -> (r: bool)
    ensures
        r == is_needle(tok_view(*needle), tok_view(*t)),
{
    match (needle, t) {
        (Tok::Ident(a), Tok::Ident(b)) => *a == *b,
        (Tok::Punct(a, _), Tok::Punct(b, _)) => *a == *b,
        (Tok::Literal(a), Tok::Literal(b)) => *a == *b,
        _ => false,
    }
}

/// Replaces every occurrence of the single token `needle` in `haystack`, inside groups
/// too, by a copy of `replacement`. A needle that is a group matches nothing.
pub fn find_and_replace(needle: &Tok, replacement: &Vec<Tok>, haystack: &Vec<Tok>) -> (r: Vec<Tok>)
    ensures
        toks_view(r@) == far_view(tok_view(*needle), toks_view(replacement@), toks_view(haystack@)),
    decreases *haystack,
{
    let ghost n = tok_view(*needle);
    let ghost rep = toks_view(replacement@);
    let mut out: Vec<Tok> = Vec::new();
    let mut i: usize = 0;
    while i < haystack.len()
        invariant
            i <= haystack@.len(),
            n == tok_view(*needle),
            rep == toks_view(replacement@),
            toks_view(out@) == far_view(n, rep, toks_view(haystack@.subrange(0, i as int))),
        decreases haystack@.len() - i,
    {
        let ghost hv = toks_view(haystack@.subrange(0, i + 1));
        proof {
            assert(haystack@.subrange(0, i + 1).subrange(0, i as int) =~= haystack@.subrange(0, i as int));
            assert(hv.subrange(0, hv.len() - 1) == toks_view(haystack@.subrange(0, i as int)));
            assert(hv[hv.len() - 1] == tok_view(haystack@[i as int]));
            assert(decreases_to!(*haystack => (*haystack)@));
            assert(decreases_to!((*haystack)@ => (*haystack)@[i as int]));
        }
        match &haystack[i] {
            Tok::Group(d, inner) => {
                proof {
                    assert(decreases_to!((*haystack)@[i as int] => *inner));
                }
                let replaced = find_and_replace(needle, replacement, inner);
                let g = Tok::Group(*d, replaced);
                proof {
                    lemma_toks_view_push(out@, g);
                }
                out.push(g);
            },
            t => {
                if is_needle_exec(needle, t) {
                    let mut c = copy_toks(replacement);
                    let ghost before = out@;
                    let ghost cv = c@;
                    out.append(&mut c);
                    proof {
                        assert(out@ =~= before + cv);
                        lemma_toks_view_append(before, cv);
                    }
                } else {
                    let c = t.copy();
                    proof {
                        lemma_toks_view_push(out@, c);
                    }
                    out.push(c);
                }
            },
        }
        i = i + 1;
    }
    assert(haystack@.subrange(0, haystack@.len() as int) =~= haystack@);
    out
}

} // verus!
