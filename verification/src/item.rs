//! Rendering the annotated item back to source text.
//!
//! The item's tokens are written out one by one, a space in front of each
//! unless the text so far ends in the `#` of an attribute.  A group is
//! rendered recursively inside its delimiters.  An attribute whose first
//! token names the documentation attribute is rewritten in place through
//! the attribute parser; any other use of `#` is written out as it came.

use crate::attr::parse_attr;
use crate::attr::spec_attr;
use crate::err::DocError;
use crate::err::ErrView;
use crate::files::FileMap;
use crate::text::push_char;
use crate::toks::delim_close;
use crate::toks::delim_close_str;
use crate::toks::delim_open;
use crate::toks::delim_open_str;
use crate::toks::lemma_toks_size_skip;
use crate::toks::lemma_toks_wf_index;
use crate::toks::tok_size;
use crate::toks::tok_wf;
use crate::toks::toks_size;
use crate::toks::toks_wf;
use crate::toks::Delim;
use crate::toks::Tok;
use vstd::prelude::*;
use vstd::string::StrSliceExecFns;
use vstd::string::StringExecFns;

verus! {

/// Bare source text of one token, as the item renderer writes it:
/// an identifier's name, a literal's text, a punctuation character.
/// (A group never reaches this; it renders through its delimiters.)
pub open spec fn tok_text(t: Tok) -> Seq<char> {
    match t {
        Tok::Ident(name, _) => name@,
        Tok::Literal(l) => l@,
        Tok::Punct(c, _) => seq![c],
        Tok::Group(_, _) => Seq::empty(),
    }
}

/// Whether the output ends in `#` after `piece` was appended to text for
/// which `prev` held.
pub open spec fn ends_hash(piece: Seq<char>, prev: bool) -> bool {
    if piece.len() > 0 {
        piece[piece.len() - 1] == '#'
    } else {
        prev
    }
}

/// Whether `t` is the identifier that names the documentation attribute.
pub open spec fn spec_is_dc_ident(t: Tok) -> bool {
    match t {
        Tok::Ident(n, _) => n@ == "doc_comment"@,
        _ => false,
    }
}

/// The tokens inside a group.
pub open spec fn group_toks(t: Tok) -> Seq<Tok> {
    match t {
        Tok::Group(_, g) => g@,
        _ => Seq::empty(),
    }
}

/// What one group token renders to: a space, its opening delimiter, its
/// contents rendered from scratch, and its closing delimiter — beside the
/// markers of the files its contents spliced in.
pub open spec fn spec_item_group(t: Tok, files: Seq<(Seq<char>, Seq<char>)>) -> Result<
    (Seq<char>, Seq<char>),
    ErrView,
>
    decreases t, 2int,
{
    match t {
        Tok::Group(d, ts) => match spec_item_toks(ts@, files, false) {
            Result::Err(e) => Result::Err(e),
            Result::Ok(body) => Result::Ok(
                (" "@ + delim_open(d) + body.0 + delim_close(d), body.1),
            ),
        },
        _ => Result::Ok((Seq::empty(), Seq::empty())),
    }
}

/// What an item's token sequence renders to, given whether the text so
/// far ends in `#`: the rewritten source text beside the markers of the
/// files that rewritten documentation attributes spliced in.
pub open spec fn spec_item_toks(
    ts: Seq<Tok>,
    files: Seq<(Seq<char>, Seq<char>)>,
    hash: bool,
) -> Result<(Seq<char>, Seq<char>), ErrView>
    decreases ts, 1int,
{
    if ts.len() == 0 {
        Result::Ok((Seq::empty(), Seq::empty()))
    } else {
        match ts[0] {
            Tok::Group(_, _) => match spec_item_group(ts[0], files) {
                Result::Err(e) => Result::Err(e),
                Result::Ok(piece) => match spec_item_toks(
                    ts.subrange(1, ts.len() as int),
                    files,
                    ends_hash(piece.0, hash),
                ) {
                    Result::Err(e) => Result::Err(e),
                    Result::Ok(rest) => Result::Ok((piece.0 + rest.0, piece.1 + rest.1)),
                },
            },
            Tok::Punct(c, _) => if c == '#' {
                if ts.len() >= 2 && ts[1] matches Tok::Group(Delim::Bracket, _) {
                    let sub = group_toks(ts[1]);
                    let pre: Seq<char> = if sub.len() >= 1 && spec_is_dc_ident(sub[0]) {
                        Seq::empty()
                    } else {
                        " #"@
                    };
                    if sub.len() >= 2 && sub[1] matches Tok::Group(_, _) {
                        match spec_attr(group_toks(sub[1]), files, false) {
                            Result::Err(e) => Result::Err(e),
                            Result::Ok(a) => {
                                let piece = pre + " "@ + a.0;
                                match spec_item_toks(
                                    ts.subrange(2, ts.len() as int),
                                    files,
                                    ends_hash(piece, hash),
                                ) {
                                    Result::Err(e) => Result::Err(e),
                                    Result::Ok(rest) => Result::Ok(
                                        (piece + rest.0, a.1 + rest.1),
                                    ),
                                }
                            },
                        }
                    } else {
                        let piece = pre + " #"@;
                        match spec_item_toks(
                            ts.subrange(1, ts.len() as int),
                            files,
                            ends_hash(piece, hash),
                        ) {
                            Result::Err(e) => Result::Err(e),
                            Result::Ok(rest) => Result::Ok((piece + rest.0, rest.1)),
                        }
                    }
                } else {
                    match spec_item_toks(ts.subrange(1, ts.len() as int), files, true) {
                        Result::Err(e) => Result::Err(e),
                        Result::Ok(rest) => Result::Ok((" #"@ + rest.0, rest.1)),
                    }
                }
            } else {
                spec_item_plain(ts, files, hash)
            },
            _ => spec_item_plain(ts, files, hash),
        }
    }
}

/// The plain case of `spec_item_toks`: the first token is written out as
/// its bare text, a space in front unless the text so far ends in `#`.
pub open spec fn spec_item_plain(
    ts: Seq<Tok>,
    files: Seq<(Seq<char>, Seq<char>)>,
    hash: bool,
) -> Result<(Seq<char>, Seq<char>), ErrView>
    decreases ts, 0int,
    when ts.len() >= 1
{
    let piece = (if hash {
        Seq::<char>::empty()
    } else {
        " "@
    }) + tok_text(ts[0]);
    match spec_item_toks(ts.subrange(1, ts.len() as int), files, ends_hash(piece, hash)) {
        Result::Err(e) => Result::Err(e),
        Result::Ok(rest) => Result::Ok((piece + rest.0, rest.1)),
    }
}

/// Bare source text of one token.
fn tok_text_exec(t: &Tok) -> (r: String)
    ensures
        r@ == tok_text(*t),
{
    match t {
        Tok::Ident(name, _) => name.clone(),
        Tok::Literal(l) => l.clone(),
        Tok::Punct(c, _) => {
            let mut s = String::new();
            push_char(&mut s, *c);
            proof {
                assert(Seq::<char>::empty() + seq![*c] =~= seq![*c]);
            }
            s
        },
        Tok::Group(_, _) => String::new(),
    }
}

/// Whether `t` is the identifier that names the documentation attribute.
fn is_dc_ident(t: &Tok) -> (r: bool)
    ensures
        r == spec_is_dc_ident(*t),
{
    match t {
        Tok::Ident(n, _) => {
            let s = String::from_str("doc_comment");
            *n == s
        },
        _ => false,
    }
}

/// Whether the output ends in `#` after appending `s`.
fn piece_ends_hash(s: &str, prev: bool) -> (r: bool)
    ensures
        r == ends_hash(s@, prev),
{
    let n = s.unicode_len();
    if n > 0 {
        s.get_char(n - 1) == '#'
    } else {
        prev
    }
}

/// Renders one group token.
fn item_group(t: &Tok, files: &FileMap) -> (r: Result<(String, String), DocError>)
    requires
        tok_wf(*t),
    ensures
        match r {
            Result::Ok(out) => spec_item_group(*t, files@) matches Result::Ok(o) && out.0@ == o.0
                && out.1@ == o.1,
            Result::Err(e) => spec_item_group(*t, files@) matches Result::Err(ev) && e@ == ev,
        },
    decreases tok_size(*t), 0int,
{
    match t {
        Tok::Group(d, inner) => {
            proof {
                assert(inner@.skip(0) =~= inner@);
                assert(tok_size(*t) == 1 + toks_size(inner@));
            }
            match item_from(inner, 0, files, false) {
                Result::Err(e) => Result::Err(e),
                Result::Ok(body) => {
                    let mut s = String::from_str(" ");
                    s.append(delim_open_str(d));
                    s.append(body.0.as_str());
                    s.append(delim_close_str(d));
                    Result::Ok((s, body.1))
                },
            }
        },
        _ => Result::Ok((String::new(), String::new())),
    }
}

/// Renders one plain token (no group, not the `#` of an attribute) and
/// the suffix behind it.
fn item_plain(ts: &Vec<Tok>, i: usize, files: &FileMap, hash: bool) -> (r: Result<
    (String, String),
    DocError,
>)
    requires
        toks_wf(ts@),
        i < ts.len(),
    ensures
        match r {
            Result::Ok(out) => spec_item_plain(ts@.skip(i as int), files@, hash) matches Result::Ok(
                o,
            ) && out.0@ == o.0 && out.1@ == o.1,
            Result::Err(e) => spec_item_plain(ts@.skip(i as int), files@, hash) matches Result::Err(
                ev,
            ) && e@ == ev,
        },
    decreases toks_size(ts@.skip(i as int)), 0int,
{
    proof {
        lemma_toks_size_skip(ts@, i as int);
        assert(ts@.skip(i as int)[0] == ts@[i as int]);
        assert(ts@.skip(i as int).subrange(1, ts@.skip(i as int).len() as int) =~= ts@.skip(
            i as int + 1,
        ));
    }
    let text = tok_text_exec(&ts[i]);
    let mut piece = if hash {
        String::new()
    } else {
        String::from_str(" ")
    };
    piece.append(text.as_str());
    let nh = piece_ends_hash(piece.as_str(), hash);
    match item_from(ts, i + 1, files, nh) {
        Result::Err(e) => Result::Err(e),
        Result::Ok(rest) => Result::Ok((piece.concat(rest.0.as_str()), rest.1)),
    }
}

/// Renders the suffix of an item's token sequence that starts at `i`.
fn item_from(ts: &Vec<Tok>, i: usize, files: &FileMap, hash: bool) -> (r: Result<
    (String, String),
    DocError,
>)
    requires
        toks_wf(ts@),
        i <= ts.len(),
    ensures
        match r {
            Result::Ok(out) => spec_item_toks(ts@.skip(i as int), files@, hash) matches Result::Ok(
                o,
            ) && out.0@ == o.0 && out.1@ == o.1,
            Result::Err(e) => spec_item_toks(ts@.skip(i as int), files@, hash) matches Result::Err(
                ev,
            ) && e@ == ev,
        },
    decreases toks_size(ts@.skip(i as int)), 1int,
{
    if i == ts.len() {
        proof {
            assert(ts@.skip(i as int) =~= Seq::<Tok>::empty());
        }
        Result::Ok((String::new(), String::new()))
    } else {
        proof {
            lemma_toks_size_skip(ts@, i as int);
            lemma_toks_wf_index(ts@, i as int);
            assert(ts@.skip(i as int)[0] == ts@[i as int]);
            assert(ts@.skip(i as int).subrange(1, ts@.skip(i as int).len() as int) =~= ts@.skip(
                i as int + 1,
            ));
            if i + 1 < ts.len() {
                lemma_toks_size_skip(ts@, i as int + 1);
                lemma_toks_wf_index(ts@, i as int + 1);
                assert(ts@.skip(i as int)[1] == ts@[i as int + 1]);
                assert(ts@.skip(i as int).subrange(2, ts@.skip(i as int).len() as int) =~= ts@.skip(
                    i as int + 2,
                ));
            }
        }
        match &ts[i] {
            Tok::Group(_, _) => {
                match item_group(&ts[i], files) {
                    Result::Err(e) => Result::Err(e),
                    Result::Ok(piece) => {
                        let nh = piece_ends_hash(piece.0.as_str(), hash);
                        match item_from(ts, i + 1, files, nh) {
                            Result::Err(e) => Result::Err(e),
                            Result::Ok(rest) => Result::Ok(
                                (piece.0.concat(rest.0.as_str()), piece.1.concat(rest.1.as_str())),
                            ),
                        }
                    },
                }
            },
            Tok::Punct(c, _) => {
                if *c == '#' {
                    let mut bracket = false;
                    if i + 1 < ts.len() {
                        match &ts[i + 1] {
                            Tok::Group(Delim::Bracket, _) => {
                                bracket = true;
                            },
                            _ => {},
                        }
                    }
                    if bracket {
                        match &ts[i + 1] {
                            Tok::Group(_, sub) => {
                                let first_dc = if sub.len() >= 1 {
                                    is_dc_ident(&sub[0])
                                } else {
                                    false
                                };
                                let mut piece = if first_dc {
                                    String::new()
                                } else {
                                    String::from_str(" #")
                                };
                                let mut second_group = false;
                                if sub.len() >= 2 {
                                    match &sub[1] {
                                        Tok::Group(_, _) => {
                                            second_group = true;
                                        },
                                        _ => {},
                                    }
                                }
                                if second_group {
                                    match &sub[1] {
                                        Tok::Group(_, g2) => {
                                            proof {
                                                lemma_toks_wf_index(sub@, 1);
                                            }
                                            match parse_attr(g2, files, false) {
                                                Result::Err(e) => Result::Err(e),
                                                Result::Ok(a) => {
                                                    piece.append(" ");
                                                    piece.append(a.0.as_str());
                                                    let nh = piece_ends_hash(piece.as_str(), hash);
                                                    match item_from(ts, i + 2, files, nh) {
                                                        Result::Err(e) => Result::Err(e),
                                                        Result::Ok(rest) => Result::Ok(
                                                            (
                                                                piece.concat(rest.0.as_str()),
                                                                a.1.concat(rest.1.as_str()),
                                                            ),
                                                        ),
                                                    }
                                                },
                                            }
                                        },
                                        _ => {
                                            // unreachable: the token was
                                            // just matched as a group
                                            proof {
                                                assert(false);
                                            }
                                            Result::Err(DocError::NoArgs)
                                        },
                                    }
                                } else {
                                    piece.append(" #");
                                    let nh = piece_ends_hash(piece.as_str(), hash);
                                    match item_from(ts, i + 1, files, nh) {
                                        Result::Err(e) => Result::Err(e),
                                        Result::Ok(rest) => Result::Ok(
                                            (piece.concat(rest.0.as_str()), rest.1),
                                        ),
                                    }
                                }
                            },
                            _ => {
                                // unreachable: the token was just matched
                                // as a bracket group
                                proof {
                                    assert(false);
                                }
                                Result::Err(DocError::NoArgs)
                            },
                        }
                    } else {
                        let piece = String::from_str(" #");
                        match item_from(ts, i + 1, files, true) {
                            Result::Err(e) => Result::Err(e),
                            Result::Ok(rest) => Result::Ok(
                                (piece.concat(rest.0.as_str()), rest.1),
                            ),
                        }
                    }
                } else {
                    item_plain(ts, i, files, hash)
                }
            },
            _ => item_plain(ts, i, files, hash),
        }
    }
}

/// Renders an item's tokens back to source text, rewriting every
/// documentation attribute it carries, and returns beside the text the
/// marker declarations of the files that were spliced in.
pub fn parse_item(ts: &Vec<Tok>, files: &FileMap) -> (r: Result<(String, String), DocError>)
    requires
        toks_wf(ts@),
    ensures
        match r {
            Result::Ok(out) => spec_item_toks(ts@, files@, false) matches Result::Ok(o) && out.0@
                == o.0 && out.1@ == o.1,
            Result::Err(e) => spec_item_toks(ts@, files@, false) matches Result::Err(ev) && e@
                == ev,
        },
{
    proof {
        assert(ts@.skip(0) =~= ts@);
    }
    item_from(ts, 0, files, false)
}

} // verus!
