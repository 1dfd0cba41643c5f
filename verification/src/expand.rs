//! The two expansions the library performs.
//!
//! `doc_comment` rewrites an attribute invocation: the documentation
//! arguments become a `doc` attribute, the annotated item is rendered
//! behind it, and the markers of every spliced file close the output.
//! `doctest` expands a file test: the named file's contents become the
//! documentation of a throwaway item.

use crate::attr::parse_attr;
use crate::attr::spec_attr;
use crate::err::DocError;
use crate::err::ErrView;
use crate::files::file_lookup;
use crate::files::FileMap;
use crate::item::parse_item;
use crate::item::spec_item_toks;
use crate::text::anon_test_item;
use crate::text::anon_test_item_text;
use crate::text::escape_text;
use crate::text::escaped;
use crate::text::inclusion_macro_name;
use crate::text::inclusion_macro_text;
use crate::text::inclusion_marker;
use crate::text::inclusion_marker_text;
use crate::toks::lemma_toks_wf_index;
use crate::toks::render_toks;
use crate::toks::spec_render_toks;
use crate::toks::spec_tok_display;
use crate::toks::tok_display;
use crate::toks::toks_wf;
use crate::toks::Tok;
use vstd::prelude::*;
use vstd::string::StrSliceExecFns;
use vstd::string::StringExecFns;

verus! {

/// Whether the annotated item's token stream marks an inner attribute:
/// its first token is an identifier without a name or one standing at the
/// compiler's placeholder position.
pub open spec fn spec_is_inner(ts: Seq<Tok>) -> bool {
    ts.len() >= 1 && match ts[0] {
        Tok::Ident(n, placeholder) => n@.len() == 0 || placeholder,
        _ => false,
    }
}

/// Tests whether the annotated item's token stream marks an inner
/// attribute.
pub fn check_if_is_inner(item: &Vec<Tok>) -> (r: bool)
    ensures
        r == spec_is_inner(item@),
{
    if item.len() >= 1 {
        match &item[0] {
            Tok::Ident(n, placeholder) => n.as_str().is_empty() || *placeholder,
            _ => false,
        }
    } else {
        false
    }
}

/// What an inner-attribute item contributes to the output: the contents
/// of its first group, rendered verbatim; nothing when no group follows.
pub open spec fn spec_inner_body(ts: Seq<Tok>) -> Seq<char>
    decreases ts.len(),
{
    if ts.len() == 0 {
        Seq::empty()
    } else {
        match ts[0] {
            Tok::Group(_, g) => spec_render_toks(g@),
            _ => spec_inner_body(ts.subrange(1, ts.len() as int)),
        }
    }
}

/// Renders the contents of the first group from position `i` on.
fn inner_body_from(ts: &Vec<Tok>, i: usize) -> (r: String)
    requires
        i <= ts.len(),
    ensures
        r@ == spec_inner_body(ts@.skip(i as int)),
    decreases ts.len() - i,
{
    if i == ts.len() {
        proof {
            assert(ts@.skip(i as int) =~= Seq::<Tok>::empty());
        }
        String::new()
    } else {
        proof {
            assert(ts@.skip(i as int)[0] == ts@[i as int]);
            assert(ts@.skip(i as int).subrange(1, ts@.skip(i as int).len() as int) =~= ts@.skip(
                i as int + 1,
            ));
        }
        match &ts[i] {
            Tok::Group(_, g) => render_toks(g),
            _ => inner_body_from(ts, i + 1),
        }
    }
}

/// The whole output of a documentation-attribute invocation on `attrs`
/// and `item`, with the files of `files` available for splicing.
pub open spec fn spec_doc_comment(
    attrs: Seq<Tok>,
    item: Seq<Tok>,
    files: Seq<(Seq<char>, Seq<char>)>,
) -> Result<Seq<char>, ErrView> {
    let inner = spec_is_inner(item);
    match spec_attr(attrs, files, inner) {
        Result::Err(e) => Result::Err(e),
        Result::Ok(a) => if inner {
            Result::Ok(a.0 + spec_inner_body(item) + a.1)
        } else {
            match spec_item_toks(item, files, false) {
                Result::Err(e) => Result::Err(e),
                Result::Ok(it) => Result::Ok(a.0 + it.0 + a.1 + it.1),
            }
        },
    }
}

/// Expands a documentation-attribute invocation: `attrs` carries the
/// documentation arguments, `item` the annotated item, and `files` the
/// contents of every file an inclusion call may name.  Returns the
/// rewritten source text, or the failure that aborts the expansion.
pub fn doc_comment(attrs: &Vec<Tok>, item: &Vec<Tok>, files: &FileMap) -> (r: Result<
    String,
    DocError,
>)
    requires
        toks_wf(attrs@),
        toks_wf(item@),
    ensures
        match r {
            Result::Ok(s) => spec_doc_comment(attrs@, item@, files@) matches Result::Ok(o) && s@
                == o,
            Result::Err(e) => spec_doc_comment(attrs@, item@, files@) matches Result::Err(ev) && e@
                == ev,
        },
{
    let inner = check_if_is_inner(item);
    match parse_attr(attrs, files, inner) {
        Result::Err(e) => Result::Err(e),
        Result::Ok(a) => {
            if inner {
                proof {
                    assert(item@.skip(0) =~= item@);
                }
                let body = inner_body_from(item, 0);
                Result::Ok(a.0.concat(body.as_str()).concat(a.1.as_str()))
            } else {
                match parse_item(item, files) {
                    Result::Err(e) => Result::Err(e),
                    Result::Ok(it) => Result::Ok(
                        a.0.concat(it.0.as_str()).concat(a.1.as_str()).concat(it.1.as_str()),
                    ),
                }
            }
        },
    }
}

/// The parameters gathered while reading a file-test invocation: the path
/// and the test name seen so far, or the failure that ends the reading.
pub open spec fn spec_doctest_args(
    ts: Seq<Tok>,
    path: Option<Seq<char>>,
    name: Option<Seq<char>>,
) -> Result<(Option<Seq<char>>, Option<Seq<char>>), ErrView>
    decreases ts.len(),
{
    if ts.len() == 0 {
        Result::Ok((path, name))
    } else {
        match ts[0] {
            Tok::Literal(l) => if l@.len() == 0 || l@[0] != '"' {
                Result::Err(ErrView::PathNotString(l@))
            } else if path is Some {
                Result::Err(ErrView::SecondLiteral(l@))
            } else {
                spec_doctest_args(
                    ts.subrange(1, ts.len() as int),
                    Option::Some(l@.subrange(1, l@.len() - 1)),
                    name,
                )
            },
            Tok::Punct(c, _) => if c == ',' {
                spec_doctest_args(ts.subrange(1, ts.len() as int), path, name)
            } else {
                Result::Err(ErrView::UnexpectedToken(spec_tok_display(ts[0])))
            },
            Tok::Ident(n, _) => if path is None {
                Result::Err(ErrView::NameBeforePath(n@))
            } else {
                spec_doctest_args(ts.subrange(1, ts.len() as int), path, Option::Some(n@))
            },
            _ => Result::Err(ErrView::UnexpectedToken(spec_tok_display(ts[0]))),
        }
    }
}

/// The item a file test hangs its documentation on: a named empty module,
/// or the anonymous item when no name was given.
pub open spec fn spec_doctest_item(name: Option<Seq<char>>) -> Seq<char> {
    match name {
        Option::Some(n) => "mod "@ + n + " {}"@,
        Option::None => anon_test_item(),
    }
}

/// The whole output of a file-test invocation on `ts`, with the files of
/// `files` available.
pub open spec fn spec_doctest(ts: Seq<Tok>, files: Seq<(Seq<char>, Seq<char>)>) -> Result<
    Seq<char>,
    ErrView,
> {
    match spec_doctest_args(ts, Option::None, Option::None) {
        Result::Err(e) => Result::Err(e),
        Result::Ok(args) => match args.0 {
            Option::None => Result::Err(ErrView::NoArgs),
            Option::Some(p) => match file_lookup(files, p) {
                Option::None => Result::Err(ErrView::MissingFile(p)),
                Option::Some(content) => Result::Ok(
                    "#[doc = \""@ + escaped(content) + "\"]\n"@ + spec_doctest_item(args.1)
                        + "\n"@ + inclusion_marker(inclusion_macro_name(), p),
                ),
            },
        },
    }
}

/// Reads the file-test parameters from position `i` on.
fn doctest_args_from(
    ts: &Vec<Tok>,
    i: usize,
    path: Option<String>,
    name: Option<String>,
) -> (r: Result<(Option<String>, Option<String>), DocError>)
    requires
        toks_wf(ts@),
        i <= ts.len(),
    ensures
        match r {
            Result::Ok(out) => spec_doctest_args(
                ts@.skip(i as int),
                path.deep_view(),
                name.deep_view(),
            ) matches Result::Ok(o) && out.0.deep_view() == o.0 && out.1.deep_view() == o.1,
            Result::Err(e) => spec_doctest_args(
                ts@.skip(i as int),
                path.deep_view(),
                name.deep_view(),
            ) matches Result::Err(ev) && e@ == ev,
        },
    decreases ts.len() - i,
{
    if i == ts.len() {
        proof {
            assert(ts@.skip(i as int) =~= Seq::<Tok>::empty());
        }
        Result::Ok((path, name))
    } else {
        proof {
            lemma_toks_wf_index(ts@, i as int);
            assert(ts@.skip(i as int)[0] == ts@[i as int]);
            assert(ts@.skip(i as int).subrange(1, ts@.skip(i as int).len() as int) =~= ts@.skip(
                i as int + 1,
            ));
        }
        match &ts[i] {
            Tok::Literal(l) => {
                let s = l.as_str();
                let n = s.unicode_len();
                if !(s.get_char(0) == '"') {
                    Result::Err(DocError::PathNotString(l.clone()))
                } else if path.is_some() {
                    Result::Err(DocError::SecondLiteral(l.clone()))
                } else {
                    let p = String::from_str(s.substring_char(1, n - 1));
                    doctest_args_from(ts, i + 1, Option::Some(p), name)
                }
            },
            Tok::Punct(c, _) => {
                if *c == ',' {
                    doctest_args_from(ts, i + 1, path, name)
                } else {
                    Result::Err(DocError::UnexpectedToken(tok_display(&ts[i])))
                }
            },
            Tok::Ident(n, _) => {
                if path.is_none() {
                    Result::Err(DocError::NameBeforePath(n.clone()))
                } else {
                    doctest_args_from(ts, i + 1, path, Option::Some(n.clone()))
                }
            },
            _ => Result::Err(DocError::UnexpectedToken(tok_display(&ts[i]))),
        }
    }
}

/// The file-test item as a `String`.
fn doctest_item_text(name: &Option<String>) -> (r: String)
    ensures
        r@ == spec_doctest_item(name.deep_view()),
{
    match name {
        Option::Some(n) => {
            let mut s = String::from_str("mod ");
            s.append(n.as_str());
            s.append(" {}");
            s
        },
        Option::None => anon_test_item_text(),
    }
}

/// Expands a file-test invocation: `item` carries the parameters (a path,
/// and possibly a test name), and `files` the contents of the file the
/// path names.  Returns the rewritten source text, or the failure that
/// aborts the expansion.
pub fn doctest(item: &Vec<Tok>, files: &FileMap) -> (r: Result<String, DocError>)
    requires
        toks_wf(item@),
    ensures
        match r {
            Result::Ok(s) => spec_doctest(item@, files@) matches Result::Ok(o) && s@ == o,
            Result::Err(e) => spec_doctest(item@, files@) matches Result::Err(ev) && e@ == ev,
        },
{
    proof {
        assert(item@.skip(0) =~= item@);
    }
    match doctest_args_from(item, 0, Option::None, Option::None) {
        Result::Err(e) => Result::Err(e),
        Result::Ok(args) => {
            let (path_opt, name_opt) = args;
            match path_opt {
                Option::None => Result::Err(DocError::NoArgs),
                Option::Some(p) => {
                    match files.lookup(&p) {
                        Option::None => Result::Err(DocError::MissingFile(p)),
                        Option::Some(content) => {
                            let esc = escape_text(content.as_str());
                            let it = doctest_item_text(&name_opt);
                            let kw = inclusion_macro_text();
                            let marker = inclusion_marker_text(kw.as_str(), p.as_str());
                            let mut s = String::from_str("#[doc = \"");
                            s.append(esc.as_str());
                            s.append("\"]\n");
                            s.append(it.as_str());
                            s.append("\n");
                            s.append(marker.as_str());
                            Result::Ok(s)
                        },
                    }
                },
            }
        },
    }
}

} // verus!
