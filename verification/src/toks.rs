//! The token model that the rewriting logic works on.
//!
//! A macro invocation hands the library a sequence of tokens: identifiers,
//! literals (carried as their source text), punctuation characters, and
//! delimited groups of further tokens.  The front end that drives the
//! library converts the compiler's token trees into this model and back.

use crate::text::push_char;
use vstd::prelude::*;
use vstd::string::StrSliceExecFns;
use vstd::string::StringExecFns;

verus! {

/// The delimiter of a token group: `( )`, `{ }`, `[ ]`, or none at all
/// (a transparent group, as macro expansion can produce).
#[derive(PartialEq, Eq, Structural, Clone, Copy)]
pub enum Delim {
    Paren,
    Brace,
    Bracket,
    Bare,
}

/// One token.
///
/// - `Ident(name, placeholder)`: an identifier.  `placeholder` is true when
///   the token's source position is the compiler's placeholder position
///   (an artefact that marks the item stream of an inner attribute).
/// - `Literal(text)`: a literal, carried as its source text, quotes and
///   prefixes included (`"abc"`, `'x'`, `b"raw"`, `42`).
/// - `Punct(ch, joint)`: a punctuation character; `joint` is true when the
///   character is glued to the next token with no space between them.
/// - `Group(delim, toks)`: a delimited group of tokens.
pub enum Tok {
    Ident(String, bool),
    Literal(String),
    Punct(char, bool),
    Group(Delim, Vec<Tok>),
}

/// Size of one token: each token counts one, and a group also counts its
/// contents.  Serves as the termination measure of the functions that walk
/// token sequences.
pub open spec fn tok_size(t: Tok) -> nat
    decreases t,
{
    match t {
        Tok::Group(_, ts) => 1 + toks_size(ts@),
        _ => 1,
    }
}

/// Total size of a token sequence.
pub open spec fn toks_size(ts: Seq<Tok>) -> nat
    decreases ts,
{
    if ts.len() == 0 {
        0
    } else {
        tok_size(ts[0]) + toks_size(ts.subrange(1, ts.len() as int))
    }
}

/// Unrolls `toks_size` at position `i` of a sequence: the size of the
/// suffix from `i` is the size of the token at `i` plus the size of the
/// suffix behind it, and every token has size at least one.
pub proof fn lemma_toks_size_skip(ts: Seq<Tok>, i: int)
    requires
        0 <= i < ts.len(),
    ensures
        toks_size(ts.skip(i)) == tok_size(ts[i]) + toks_size(ts.skip(i + 1)),
        tok_size(ts[i]) >= 1,
{
    assert(ts.skip(i).subrange(1, ts.skip(i).len() as int) =~= ts.skip(i + 1));
}

/// A literal's source text as the token model admits it: nonempty, a
/// byte-literal prefix `b` carries at least its quotes behind it, and a
/// quoted literal carries at least its two quotes.  The text of every
/// literal the compiler's lexer produces is of this shape; the slicing
/// that strips quotes leans on it.
pub open spec fn lit_wf(s: Seq<char>) -> bool {
    &&& s.len() >= 1
    &&& s[0] == 'b' ==> s.len() >= 3
    &&& (s[0] == '"' || s[0] == '\'') ==> s.len() >= 2
}

/// Well-formedness of one token: its literals, at every depth, have
/// well-formed source text.
pub open spec fn tok_wf(t: Tok) -> bool
    decreases t,
{
    match t {
        Tok::Literal(l) => lit_wf(l@),
        Tok::Group(_, ts) => toks_wf(ts@),
        _ => true,
    }
}

/// Well-formedness of a token sequence.
pub open spec fn toks_wf(ts: Seq<Tok>) -> bool
    decreases ts,
{
    ts.len() == 0 || (tok_wf(ts[0]) && toks_wf(ts.subrange(1, ts.len() as int)))
}

/// Every token of a well-formed sequence is well formed.
pub proof fn lemma_toks_wf_index(ts: Seq<Tok>, i: int)
    requires
        toks_wf(ts),
        0 <= i < ts.len(),
    ensures
        tok_wf(ts[i]),
    decreases i,
{
    if i > 0 {
        lemma_toks_wf_index(ts.subrange(1, ts.len() as int), i - 1);
    }
}

/// Opening text of a delimiter.
pub open spec fn delim_open(d: Delim) -> Seq<char> {
    match d {
        Delim::Paren => "("@,
        Delim::Brace => "{"@,
        Delim::Bracket => "["@,
        Delim::Bare => ""@,
    }
}

/// Closing text of a delimiter.
pub open spec fn delim_close(d: Delim) -> Seq<char> {
    match d {
        Delim::Paren => ")"@,
        Delim::Brace => "}"@,
        Delim::Bracket => "]"@,
        Delim::Bare => ""@,
    }
}

/// Opening text of a delimiter, as a string slice.
pub fn delim_open_str(d: &Delim) -> (r: &'static str)
    ensures
        r@ == delim_open(*d),
{
    match d {
        Delim::Paren => "(",
        Delim::Brace => "{",
        Delim::Bracket => "[",
        Delim::Bare => "",
    }
}

/// Closing text of a delimiter, as a string slice.
pub fn delim_close_str(d: &Delim) -> (r: &'static str)
    ensures
        r@ == delim_close(*d),
{
    match d {
        Delim::Paren => ")",
        Delim::Brace => "}",
        Delim::Bracket => "]",
        Delim::Bare => "",
    }
}

/// Source text of one token rendered back verbatim: a space follows every
/// token except a punctuation character that is glued to its successor,
/// and a group renders its delimiters around its rendered contents.
pub open spec fn spec_render_tok(t: Tok) -> Seq<char>
    decreases t,
{
    match t {
        Tok::Ident(name, _) => name@ + " "@,
        Tok::Literal(text) => text@ + " "@,
        Tok::Punct(c, joint) => if joint {
            seq![c]
        } else {
            seq![c] + " "@
        },
        Tok::Group(d, ts) => delim_open(d) + spec_render_toks(ts@) + delim_close(d) + " "@,
    }
}

/// Source text of a token sequence rendered back verbatim.
pub open spec fn spec_render_toks(ts: Seq<Tok>) -> Seq<char>
    decreases ts,
{
    if ts.len() == 0 {
        Seq::empty()
    } else {
        spec_render_tok(ts[0]) + spec_render_toks(ts.subrange(1, ts.len() as int))
    }
}

/// Renders one token back to source text.
pub fn render_tok(t: &Tok) -> (r: String)
    ensures
        r@ == spec_render_tok(*t),
    decreases tok_size(*t), 0int,
{
    match t {
        Tok::Ident(name, _) => {
            let mut s = name.clone();
            s.append(" ");
            s
        },
        Tok::Literal(text) => {
            let mut s = text.clone();
            s.append(" ");
            s
        },
        Tok::Punct(c, joint) => {
            let mut s = String::new();
            push_char(&mut s, *c);
            proof {
                assert(Seq::<char>::empty() + seq![*c] =~= seq![*c]);
            }
            if !*joint {
                s.append(" ");
            }
            s
        },
        Tok::Group(d, ts) => {
            let mut s = String::from_str(delim_open_str(d));
            let body = render_toks(ts);
            s.append(body.as_str());
            s.append(delim_close_str(d));
            s.append(" ");
            s
        },
    }
}

/// The separator a token's printed text carries behind it: nothing
/// behind a glued punctuation character, one space otherwise.
pub open spec fn sep_after(t: Tok) -> Seq<char> {
    match t {
        Tok::Punct(_, joint) => if joint {
            Seq::empty()
        } else {
            " "@
        },
        _ => " "@,
    }
}

/// Source text of one token as an abort message embeds it: an
/// identifier's name, a literal's text, a punctuation character, or a
/// group's delimiters around its printed contents — with no separator
/// behind the last token.
pub open spec fn spec_tok_display(t: Tok) -> Seq<char>
    decreases t, 0int,
{
    match t {
        Tok::Ident(name, _) => name@,
        Tok::Literal(text) => text@,
        Tok::Punct(c, _) => seq![c],
        Tok::Group(d, ts) => delim_open(d) + spec_toks_display(ts@) + delim_close(d),
    }
}

/// Printed text of a token sequence: tokens a space apart, a glued
/// punctuation character tight against its successor.
pub open spec fn spec_toks_display(ts: Seq<Tok>) -> Seq<char>
    decreases ts, 1int,
{
    if ts.len() == 0 {
        Seq::empty()
    } else if ts.len() == 1 {
        spec_tok_display(ts[0])
    } else {
        spec_tok_display(ts[0]) + sep_after(ts[0]) + spec_toks_display(
            ts.subrange(1, ts.len() as int),
        )
    }
}

/// Renders one token as an abort message embeds it.
pub fn tok_display(t: &Tok) -> (r: String)
    ensures
        r@ == spec_tok_display(*t),
    decreases tok_size(*t), 0int,
{
    match t {
        Tok::Ident(name, _) => name.clone(),
        Tok::Literal(text) => text.clone(),
        Tok::Punct(c, _) => {
            let mut s = String::new();
            push_char(&mut s, *c);
            proof {
                assert(Seq::<char>::empty() + seq![*c] =~= seq![*c]);
            }
            s
        },
        Tok::Group(d, ts) => {
            proof {
                assert(ts@.skip(0) =~= ts@);
                assert(tok_size(*t) == 1 + toks_size(ts@));
            }
            let mut s = String::from_str(delim_open_str(d));
            let body = toks_display_from(ts, 0);
            s.append(body.as_str());
            s.append(delim_close_str(d));
            s
        },
    }
}

/// Renders the printed text of a token sequence from position `i` on.
fn toks_display_from(ts: &Vec<Tok>, i: usize) -> (r: String)
    requires
        i <= ts.len(),
    ensures
        r@ == spec_toks_display(ts@.skip(i as int)),
    decreases toks_size(ts@.skip(i as int)), 1int,
{
    if i == ts.len() {
        proof {
            assert(ts@.skip(i as int) =~= Seq::<Tok>::empty());
        }
        String::new()
    } else {
        proof {
            lemma_toks_size_skip(ts@, i as int);
            assert(ts@.skip(i as int)[0] == ts@[i as int]);
            assert(ts@.skip(i as int).subrange(1, ts@.skip(i as int).len() as int) =~= ts@.skip(
                i as int + 1,
            ));
        }
        let first = tok_display(&ts[i]);
        if i + 1 == ts.len() {
            first
        } else {
            let mut s = first;
            match &ts[i] {
                Tok::Punct(_, joint) => {
                    if !*joint {
                        s.append(" ");
                    } else {
                        proof {
                            assert(s@ + sep_after(ts@[i as int]) =~= s@);
                        }
                    }
                },
                _ => {
                    s.append(" ");
                },
            }
            let rest = toks_display_from(ts, i + 1);
            s.concat(rest.as_str())
        }
    }
}

/// Renders a token sequence back to source text.
pub fn render_toks(ts: &Vec<Tok>) -> (r: String)
    ensures
        r@ == spec_render_toks(ts@),
    decreases toks_size(ts@), 2int,
{
    proof {
        assert(ts@.skip(0) =~= ts@);
    }
    render_toks_from(ts, 0)
}

/// Renders the suffix of a token sequence that starts at `i`.
fn render_toks_from(ts: &Vec<Tok>, i: usize) -> (r: String)
    requires
        i <= ts.len(),
    ensures
        r@ == spec_render_toks(ts@.skip(i as int)),
    decreases toks_size(ts@.skip(i as int)), 1int,
{
    if i == ts.len() {
        proof {
            assert(ts@.skip(i as int) =~= Seq::<Tok>::empty());
        }
        String::new()
    } else {
        proof {
            lemma_toks_size_skip(ts@, i as int);
            assert(ts@.skip(i as int).subrange(1, ts@.skip(i as int).len() as int) =~= ts@.skip(
                i as int + 1,
            ));
        }
        let first = render_tok(&ts[i]);
        let rest = render_toks_from(ts, i + 1);
        first.concat(rest.as_str())
    }
}

} // verus!
