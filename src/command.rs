//! The commands that an item's generated macro answers.
//!
//! The generated macro is invoked as `(version, keyword, needle, haystack...)`. It looks
//! the pair `(version, keyword)` up in its table of commands and re-emits the haystack
//! with every occurrence of the needle token replaced by that command's answer.
use vstd::prelude::*;

use crate::syntax::{texts, ModPath, ModPathView};
use crate::telety::Telety;
use crate::tokens::{far_view, find_and_replace, tok_view, toks_view, Tok, TokView};

verus! {

#[derive(Clone, Copy, Debug, PartialEq, Eq, Structural)]
pub enum CommandKind {
    /// Answers with the needle itself, leaving the haystack as it was.
    Identity,
    /// Answers with the global path of the item.
    Path,
    /// Answers with the item's unique identifier.
    UniqueIdent,
    /// Answers with the item's definition, annotation included.
    Ty,
}

#[derive(Clone, Copy, Debug, PartialEq, Eq, Structural)]
pub struct Command {
    pub version: usize,
    pub kind: CommandKind,
}

pub open spec fn keyword_text(k: CommandKind) -> Seq<char> {
    match k {
        CommandKind::Identity => "identity"@,
        CommandKind::Path => "path"@,
        CommandKind::UniqueIdent => "unique_ident"@,
        CommandKind::Ty => "ty"@,
    }
}

/// Every command, by version: version 0 has `identity` and `path`, version 1 has
/// `unique_ident` and `ty`.
pub open spec fn command_table() -> Seq<Command> {
    seq![
        Command { version: 0, kind: CommandKind::Identity },
        Command { version: 0, kind: CommandKind::Path },
        Command { version: 1, kind: CommandKind::UniqueIdent },
        Command { version: 1, kind: CommandKind::Ty },
    ]
}

/// The command registered under `version` and `keyword`, if any.
pub open spec fn lookup_command(version: usize, keyword: Seq<char>) -> Option<Command> {
    if version == 0 && keyword == "identity"@ {
        Some(Command { version: 0, kind: CommandKind::Identity })
    } else if version == 0 && keyword == "path"@ {
        Some(Command { version: 0, kind: CommandKind::Path })
    } else if version == 1 && keyword == "unique_ident"@ {
        Some(Command { version: 1, kind: CommandKind::UniqueIdent })
    } else if version == 1 && keyword == "ty"@ {
        Some(Command { version: 1, kind: CommandKind::Ty })
    } else {
        None
    }
}

impl Command {
    pub fn keyword(&self) -> (r: String)
        ensures
            r@ == keyword_text(self.kind),
    {
        match self.kind {
            CommandKind::Identity => String::from_str("identity"),
            CommandKind::Path => String::from_str("path"),
            CommandKind::UniqueIdent => String::from_str("unique_ident"),
            CommandKind::Ty => String::from_str("ty"),
        }
    }

    pub fn version(&self) -> (r: usize)
        ensures
            r == self.version,
    {
        self.version
    }
}

/// The table of commands.
pub fn commands() -> (r: Vec<Command>)
    ensures
        r@ == command_table(),
{
    let mut r: Vec<Command> = Vec::new();
    r.push(Command { version: 0, kind: CommandKind::Identity });
    r.push(Command { version: 0, kind: CommandKind::Path });
    r.push(Command { version: 1, kind: CommandKind::UniqueIdent });
    r.push(Command { version: 1, kind: CommandKind::Ty });
    assert(r@ =~= command_table());
    r
}

fn is_text(s: &String, t: &str) -> (r: bool)
    ensures
        r == (s@ == t@),
{
    let u = String::from_str(t);
    *s == u
}

/// Looks a command up by version and keyword.
pub fn find_command(version: usize, keyword: &String) -> (r: Option<Command>)
    ensures
        r == lookup_command(version, keyword@),
{
    if version == 0 && is_text(keyword, "identity") {
        Some(Command { version: 0, kind: CommandKind::Identity })
    } else if version == 0 && is_text(keyword, "path") {
        Some(Command { version: 0, kind: CommandKind::Path })
    } else if version == 1 && is_text(keyword, "unique_ident") {
        Some(Command { version: 1, kind: CommandKind::UniqueIdent })
    } else if version == 1 && is_text(keyword, "ty") {
        Some(Command { version: 1, kind: CommandKind::Ty })
    } else {
        None
    }
}

/// The tokens of a path: `::` pairs between identifiers, and in front when the path is
/// global.
pub open spec fn mod_path_toks(p: ModPathView) -> Seq<TokView>
    decreases p.idents.len(),
{
    let colons = seq![TokView::Punct(':', true), TokView::Punct(':', false)];
    if p.idents.len() == 0 {
        Seq::empty()
    } else {
        let init = ModPathView {
            leading_colon: p.leading_colon,
            idents: p.idents.subrange(0, p.idents.len() - 1),
        };
        let sep = if p.idents.len() > 1 || p.leading_colon {
            colons
        } else {
            Seq::empty()
        };
        mod_path_toks(init) + sep + seq![TokView::Ident(p.idents[p.idents.len() - 1])]
    }
}

/// Writes a path as tokens.
pub fn mod_path_tokens(p: &ModPath) -> (r: Vec<Tok>)
    ensures
        toks_view(r@) == mod_path_toks(p@),
{
    let mut r: Vec<Tok> = Vec::new();
    let mut i: usize = 0;
    assert(toks_view(r@) =~= mod_path_toks(
        ModPathView { leading_colon: p.leading_colon, idents: texts(p.idents@).subrange(0, 0) },
    ));
    while i < p.idents.len()
        invariant
            i <= p.idents@.len(),
            toks_view(r@) == mod_path_toks(
                ModPathView { leading_colon: p.leading_colon, idents: texts(p.idents@).subrange(0, i as int) },
            ),
        decreases p.idents@.len() - i,
    {
        let ghost before = toks_view(r@);
        if i > 0 || p.leading_colon {
            let a = Tok::Punct(':', true);
            proof {
                crate::tokens::lemma_toks_view_push(r@, a);
            }
            r.push(a);
            let b = Tok::Punct(':', false);
            proof {
                crate::tokens::lemma_toks_view_push(r@, b);
            }
            r.push(b);
        }
        let ghost mid = toks_view(r@);
        let c = Tok::Ident(p.idents[i].clone());
        proof {
            crate::tokens::lemma_toks_view_push(r@, c);
        }
        r.push(c);
        proof {
            let q = ModPathView {
                leading_colon: p.leading_colon,
                idents: texts(p.idents@).subrange(0, i + 1),
            };
            assert(q.idents.subrange(0, q.idents.len() - 1) =~= texts(p.idents@).subrange(0, i as int));
            if i > 0 || p.leading_colon {
                assert(mid =~= before + seq![TokView::Punct(':', true), TokView::Punct(':', false)]);
            } else {
                assert(mid =~= before + Seq::<TokView>::empty());
            }
            assert(toks_view(r@) =~= mod_path_toks(q));
        }
        i = i + 1;
    }
    assert(texts(p.idents@).subrange(0, p.idents@.len() as int) =~= texts(p.idents@));
    r
}

/// Why an invocation of the generated macro is not answered.
#[derive(Clone, Copy, Debug, PartialEq, Eq, Structural)]
pub enum ExpandError {
    /// No command is registered under that version and keyword.
    UnknownCommand,
    /// The command answers with the item's definition, which is written out elsewhere.
    NeedsDefinition,
}

impl Telety {
    /// What a command answers for this item; the definition (`ty`) is not answered here.
    pub fn command_replacement(&self, kind: CommandKind, needle: &Tok) -> (r: Option<Vec<Tok>>)
        ensures
            match kind {
                CommandKind::Identity => r matches Some(v) && toks_view(v@) == seq![tok_view(*needle)],
                CommandKind::Path => r matches Some(v) && toks_view(v@) == mod_path_toks(
                    self.path_spec(),
                ),
                CommandKind::UniqueIdent => r matches Some(v) && toks_view(v@) == seq![
                    TokView::Ident(self.unique_ident@),
                ],
                CommandKind::Ty => r is None,
            },
    {
        match kind {
            CommandKind::Identity => {
                let mut v: Vec<Tok> = Vec::new();
                let t = needle.copy();
                proof {
                    crate::tokens::lemma_toks_view_push(v@, t);
                }
                v.push(t);
                assert(toks_view(v@) =~= seq![tok_view(*needle)]);
                Some(v)
            },
            CommandKind::Path => Some(mod_path_tokens(&self.path())),
            CommandKind::UniqueIdent => {
                let mut v: Vec<Tok> = Vec::new();
                let t = Tok::Ident(self.unique_ident.clone());
                proof {
                    crate::tokens::lemma_toks_view_push(v@, t);
                }
                v.push(t);
                assert(toks_view(v@) =~= seq![TokView::Ident(self.unique_ident@)]);
                Some(v)
            },
            CommandKind::Ty => None,
        }
    }

    /// Answers an invocation `(version, keyword, needle, haystack)` of the item's
    /// generated macro: the haystack with every needle replaced by the command's answer.
    pub fn expand(&self, version: usize, keyword: &String, needle: &Tok, haystack: &Vec<Tok>) -> (r:
        Result<Vec<Tok>, ExpandError>)
        ensures
            match lookup_command(version, keyword@) {
                None => r == Err::<Vec<Tok>, _>(ExpandError::UnknownCommand),
                Some(c) => match c.kind {
                    CommandKind::Ty => r == Err::<Vec<Tok>, _>(ExpandError::NeedsDefinition),
                    CommandKind::Identity => r matches Ok(v) && toks_view(v@) == far_view(
                        tok_view(*needle),
                        seq![tok_view(*needle)],
                        toks_view(haystack@),
                    ),
                    CommandKind::Path => r matches Ok(v) && toks_view(v@) == far_view(
                        tok_view(*needle),
                        mod_path_toks(self.path_spec()),
                        toks_view(haystack@),
                    ),
                    CommandKind::UniqueIdent => r matches Ok(v) && toks_view(v@) == far_view(
                        tok_view(*needle),
                        seq![TokView::Ident(self.unique_ident@)],
                        toks_view(haystack@),
                    ),
                },
            },
    {
        match find_command(version, keyword) {
            None => Err(ExpandError::UnknownCommand),
            Some(c) => match self.command_replacement(c.kind, needle) {
                Some(rep) => Ok(find_and_replace(needle, &rep, haystack)),
                None => Err(ExpandError::NeedsDefinition),
            },
        }
    }
}

} // verus!
