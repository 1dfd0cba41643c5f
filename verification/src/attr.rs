//! Turning the arguments of a documentation attribute into a `doc`
//! attribute.
//!
//! The arguments are a stream of literals, commas, and calls of the
//! file-inclusion macro.  Literals contribute their text without quotes;
//! an inclusion call contributes the named file's contents, escaped, and
//! leaves a recompilation marker behind; anything else is a failure.

use crate::err::DocError;
use crate::err::ErrView;
use crate::files::file_lookup;
use crate::files::FileMap;
use crate::text::escape_text;
use crate::text::escaped;
use crate::text::inclusion_macro_name;
use crate::text::inclusion_macro_text;
use crate::text::inclusion_marker;
use crate::text::inclusion_marker_text;
use crate::toks::lemma_toks_wf_index;
use crate::toks::lit_wf;
use crate::toks::spec_tok_display;
use crate::toks::tok_display;
use crate::toks::toks_wf;
use crate::toks::Tok;
use vstd::prelude::*;
use vstd::string::StrSliceExecFns;
use vstd::string::StringExecFns;

verus! {

/// True of the token that the rewrite reads as the `!` of a macro call.
pub open spec fn spec_is_bang(t: Tok) -> bool {
    match t {
        Tok::Punct(c, _) => c == '!',
        _ => false,
    }
}

/// Whether `t` is the `!` of a macro call.
pub fn is_bang(t: &Tok) -> (r: bool)
    ensures
        r == spec_is_bang(*t),
{
    match t {
        Tok::Punct(c, _) => *c == '!',
        _ => false,
    }
}

/// Documentation text of one literal: a byte literal loses its prefix and
/// its quotes, a character or string literal loses its quotes, and any
/// other literal contributes its source text whole.
pub open spec fn lit_text(l: Seq<char>) -> Seq<char> {
    if l.len() == 0 {
        l
    } else if l[0] == 'b' {
        l.subrange(2, l.len() - 1)
    } else if l[0] == '\'' {
        l.subrange(1, l.len() - 1)
    } else if l[0] == '"' {
        l.subrange(1, l.len() - 1)
    } else {
        l
    }
}

/// Extracts the documentation text of one literal.
pub fn lit_text_exec(l: &String) -> (r: String)
    requires
        lit_wf(l@),
    ensures
        r@ == lit_text(l@),
{
    let s = l.as_str();
    let n = s.unicode_len();
    let c0 = s.get_char(0);
    if c0 == 'b' {
        String::from_str(s.substring_char(2, n - 1))
    } else if c0 == '\'' || c0 == '"' {
        String::from_str(s.substring_char(1, n - 1))
    } else {
        l.clone()
    }
}

/// What the argument group of an inclusion call contributes: for each
/// string literal in it, the named file's contents (escaped) to the
/// output and a marker to the trailing declarations; commas are passed
/// over; anything else, or a path missing from the file map, is a
/// failure.
pub open spec fn spec_inclusion_args(g: Seq<Tok>, files: Seq<(Seq<char>, Seq<char>)>) -> Result<
    (Seq<char>, Seq<char>),
    ErrView,
>
    decreases g.len(),
{
    if g.len() == 0 {
        Result::Ok((Seq::empty(), Seq::empty()))
    } else {
        match g[0] {
            Tok::Literal(l) => {
                if l@.len() == 0 || l@[0] != '"' {
                    Result::Err(ErrView::NotStringLiteral(l@))
                } else {
                    let path = l@.subrange(1, l@.len() - 1);
                    match file_lookup(files, path) {
                        Option::None => Result::Err(ErrView::MissingFile(path)),
                        Option::Some(content) => match spec_inclusion_args(
                            g.subrange(1, g.len() as int),
                            files,
                        ) {
                            Result::Err(e) => Result::Err(e),
                            Result::Ok(rest) => Result::Ok(
                                (
                                    escaped(content) + rest.0,
                                    inclusion_marker(inclusion_macro_name(), path) + rest.1,
                                ),
                            ),
                        },
                    }
                }
            },
            Tok::Punct(c, _) => if c == ',' {
                spec_inclusion_args(g.subrange(1, g.len() as int), files)
            } else {
                Result::Err(
                    ErrView::UnexpectedInCall(spec_tok_display(g[0]), inclusion_macro_name()),
                )
            },
            _ => Result::Err(
                ErrView::UnexpectedInCall(spec_tok_display(g[0]), inclusion_macro_name()),
            ),
        }
    }
}

/// Processes the argument group of an inclusion call from position `i` on.
fn inclusion_args_from(g: &Vec<Tok>, i: usize, files: &FileMap) -> (r: Result<
    (String, String),
    DocError,
>)
    requires
        toks_wf(g@),
        i <= g.len(),
    ensures
        match r {
            Result::Ok(out) => spec_inclusion_args(g@.skip(i as int), files@) matches Result::Ok(o)
                && out.0@ == o.0 && out.1@ == o.1,
            Result::Err(e) => spec_inclusion_args(g@.skip(i as int), files@) matches Result::Err(
                ev,
            ) && e@ == ev,
        },
    decreases g.len() - i,
{
    if i == g.len() {
        proof {
            assert(g@.skip(i as int) =~= Seq::<Tok>::empty());
        }
        Result::Ok((String::new(), String::new()))
    } else {
        proof {
            lemma_toks_wf_index(g@, i as int);
            assert(g@.skip(i as int)[0] == g@[i as int]);
            assert(g@.skip(i as int).subrange(1, g@.skip(i as int).len() as int) =~= g@.skip(
                i as int + 1,
            ));
        }
        match &g[i] {
            Tok::Literal(l) => {
                let s = l.as_str();
                let n = s.unicode_len();
                if !(s.get_char(0) == '"') {
                    Result::Err(DocError::NotStringLiteral(l.clone()))
                } else {
                    let path = String::from_str(s.substring_char(1, n - 1));
                    match files.lookup(&path) {
                        Option::None => Result::Err(DocError::MissingFile(path)),
                        Option::Some(content) => {
                            let esc = escape_text(content.as_str());
                            let kw = inclusion_macro_text();
                            let marker = inclusion_marker_text(kw.as_str(), path.as_str());
                            match inclusion_args_from(g, i + 1, files) {
                                Result::Err(e) => Result::Err(e),
                                Result::Ok(rest) => Result::Ok(
                                    (
                                        esc.concat(rest.0.as_str()),
                                        marker.concat(rest.1.as_str()),
                                    ),
                                ),
                            }
                        },
                    }
                }
            },
            Tok::Punct(c, _) => {
                if *c == ',' {
                    inclusion_args_from(g, i + 1, files)
                } else {
                    Result::Err(
                        DocError::UnexpectedInCall(tok_display(&g[i]), inclusion_macro_text()),
                    )
                }
            },
            _ => Result::Err(DocError::UnexpectedInCall(tok_display(&g[i]), inclusion_macro_text())),
        }
    }
}

/// What the argument stream of a documentation attribute contributes,
/// between the quotes of the `doc` attribute it becomes: literal text and
/// spliced file contents, in order, beside the markers of the spliced
/// files.
pub open spec fn spec_attr_body(attrs: Seq<Tok>, files: Seq<(Seq<char>, Seq<char>)>) -> Result<
    (Seq<char>, Seq<char>),
    ErrView,
>
    decreases attrs.len(),
{
    if attrs.len() == 0 {
        Result::Ok((Seq::empty(), Seq::empty()))
    } else {
        match attrs[0] {
            Tok::Literal(l) => match spec_attr_body(attrs.subrange(1, attrs.len() as int), files) {
                Result::Err(e) => Result::Err(e),
                Result::Ok(rest) => Result::Ok((lit_text(l@) + rest.0, rest.1)),
            },
            Tok::Punct(c, _) => if c == ',' {
                spec_attr_body(attrs.subrange(1, attrs.len() as int), files)
            } else {
                Result::Err(ErrView::NotLiteral(spec_tok_display(attrs[0])))
            },
            Tok::Ident(name, _) => if attrs.len() >= 2 && spec_is_bang(attrs[1]) {
                if name@ != inclusion_macro_name() {
                    Result::Err(ErrView::UnsupportedMacro(name@))
                } else if attrs.len() < 3 {
                    Result::Err(ErrView::MissingArg(name@))
                } else {
                    match attrs[2] {
                        Tok::Group(_, g) => match spec_inclusion_args(g@, files) {
                            Result::Err(e) => Result::Err(e),
                            Result::Ok(call) => match spec_attr_body(
                                attrs.subrange(3, attrs.len() as int),
                                files,
                            ) {
                                Result::Err(e) => Result::Err(e),
                                Result::Ok(rest) => Result::Ok(
                                    (call.0 + rest.0, call.1 + rest.1),
                                ),
                            },
                        },
                        _ => Result::Err(
                            ErrView::UnexpectedArg(spec_tok_display(attrs[2]), name@),
                        ),
                    }
                }
            } else {
                Result::Err(ErrView::NotLiteral(spec_tok_display(attrs[0])))
            },
            _ => Result::Err(ErrView::NotLiteral(spec_tok_display(attrs[0]))),
        }
    }
}

/// Opening text of the `doc` attribute: the inner form when the attribute
/// annotates the enclosing item from within.
pub open spec fn attr_open(is_inner: bool) -> Seq<char> {
    if is_inner {
        "#![doc = \""@
    } else {
        "#[doc = \""@
    }
}

/// Closing text of the `doc` attribute.
pub open spec fn attr_close() -> Seq<char> {
    "\"]"@
}

/// The `doc` attribute a documentation argument stream becomes, beside
/// the markers of the files it spliced in.
pub open spec fn spec_attr(
    attrs: Seq<Tok>,
    files: Seq<(Seq<char>, Seq<char>)>,
    is_inner: bool,
) -> Result<(Seq<char>, Seq<char>), ErrView> {
    match spec_attr_body(attrs, files) {
        Result::Err(e) => Result::Err(e),
        Result::Ok(body) => Result::Ok((attr_open(is_inner) + body.0 + attr_close(), body.1)),
    }
}

/// Processes a documentation argument stream from position `i` on.
fn attr_body_from(attrs: &Vec<Tok>, i: usize, files: &FileMap) -> (r: Result<
    (String, String),
    DocError,
>)
    requires
        toks_wf(attrs@),
        i <= attrs.len(),
    ensures
        match r {
            Result::Ok(out) => spec_attr_body(attrs@.skip(i as int), files@) matches Result::Ok(o)
                && out.0@ == o.0 && out.1@ == o.1,
            Result::Err(e) => spec_attr_body(attrs@.skip(i as int), files@) matches Result::Err(ev)
                && e@ == ev,
        },
    decreases attrs.len() - i,
{
    if i == attrs.len() {
        proof {
            assert(attrs@.skip(i as int) =~= Seq::<Tok>::empty());
        }
        Result::Ok((String::new(), String::new()))
    } else {
        proof {
            lemma_toks_wf_index(attrs@, i as int);
            assert(attrs@.skip(i as int)[0] == attrs@[i as int]);
            assert(attrs@.skip(i as int).subrange(1, attrs@.skip(i as int).len() as int)
                =~= attrs@.skip(i as int + 1));
            if i + 2 < attrs.len() {
                assert(attrs@.skip(i as int)[1] == attrs@[i as int + 1]);
                assert(attrs@.skip(i as int)[2] == attrs@[i as int + 2]);
                assert(attrs@.skip(i as int).subrange(3, attrs@.skip(i as int).len() as int)
                    =~= attrs@.skip(i as int + 3));
            } else if i + 1 < attrs.len() {
                assert(attrs@.skip(i as int)[1] == attrs@[i as int + 1]);
            }
        }
        match &attrs[i] {
            Tok::Literal(l) => {
                let piece = lit_text_exec(l);
                match attr_body_from(attrs, i + 1, files) {
                    Result::Err(e) => Result::Err(e),
                    Result::Ok(rest) => Result::Ok((piece.concat(rest.0.as_str()), rest.1)),
                }
            },
            Tok::Punct(c, _) => {
                if *c == ',' {
                    attr_body_from(attrs, i + 1, files)
                } else {
                    Result::Err(DocError::NotLiteral(tok_display(&attrs[i])))
                }
            },
            Tok::Ident(name, _) => {
                if i + 1 < attrs.len() && is_bang(&attrs[i + 1]) {
                    let kw = inclusion_macro_text();
                    if !(*name == kw) {
                        Result::Err(DocError::UnsupportedMacro(name.clone()))
                    } else if i + 2 >= attrs.len() {
                        Result::Err(DocError::MissingArg(name.clone()))
                    } else {
                        match &attrs[i + 2] {
                            Tok::Group(_, g) => {
                                proof {
                                    lemma_toks_wf_index(attrs@, i as int + 2);
                                    assert(g@.skip(0) =~= g@);
                                }
                                match inclusion_args_from(g, 0, files) {
                                    Result::Err(e) => Result::Err(e),
                                    Result::Ok(call) => {
                                        match attr_body_from(attrs, i + 3, files) {
                                            Result::Err(e) => Result::Err(e),
                                            Result::Ok(rest) => Result::Ok(
                                                (
                                                    call.0.concat(rest.0.as_str()),
                                                    call.1.concat(rest.1.as_str()),
                                                ),
                                            ),
                                        }
                                    },
                                }
                            },
                            other => Result::Err(
                                DocError::UnexpectedArg(tok_display(other), name.clone()),
                            ),
                        }
                    }
                } else {
                    Result::Err(DocError::NotLiteral(tok_display(&attrs[i])))
                }
            },
            _ => Result::Err(DocError::NotLiteral(tok_display(&attrs[i]))),
        }
    }
}

/// Opening text of the `doc` attribute, as a `String`.
fn attr_open_text(is_inner: bool) -> (r: String)
    ensures
        r@ == attr_open(is_inner),
{
    if is_inner {
        String::from_str("#![doc = \"")
    } else {
        String::from_str("#[doc = \"")
    }
}

/// Rewrites the argument stream of a documentation attribute into the
/// `doc` attribute it stands for, and returns beside it the marker
/// declarations of the files it spliced in.
pub fn parse_attr(attrs: &Vec<Tok>, files: &FileMap, is_inner: bool) -> (r: Result<
    (String, String),
    DocError,
>)
    requires
        toks_wf(attrs@),
    ensures
        match r {
            Result::Ok(out) => spec_attr(attrs@, files@, is_inner) matches Result::Ok(o) && out.0@
                == o.0 && out.1@ == o.1,
            Result::Err(e) => spec_attr(attrs@, files@, is_inner) matches Result::Err(ev) && e@
                == ev,
        },
{
    proof {
        assert(attrs@.skip(0) =~= attrs@);
    }
    match attr_body_from(attrs, 0, files) {
        Result::Err(e) => Result::Err(e),
        Result::Ok(body) => {
            let mut s = attr_open_text(is_inner);
            s.append(body.0.as_str());
            s.append("\"]");
            Result::Ok((s, body.1))
        },
    }
}

} // verus!
