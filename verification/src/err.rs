//! The ways a rewrite can fail.
//!
//! A malformed invocation aborts macro expansion with a message.  The
//! library reports each such condition as a value, and `message` renders
//! the text that the abort carries.

use crate::text::inclusion_macro_name;
use crate::text::inclusion_macro_text;
use vstd::prelude::*;
use vstd::string::StringExecFns;

verus! {

/// Mathematical view of a rewrite failure: which condition was met, and
/// the text involved (an identifier, a literal's source text, a rendered
/// token, or a file path).
pub enum ErrView {
    UnsupportedMacro(Seq<char>),
    NotStringLiteral(Seq<char>),
    UnexpectedInCall(Seq<char>, Seq<char>),
    UnexpectedArg(Seq<char>, Seq<char>),
    MissingArg(Seq<char>),
    NotLiteral(Seq<char>),
    MissingFile(Seq<char>),
    PathNotString(Seq<char>),
    SecondLiteral(Seq<char>),
    NameBeforePath(Seq<char>),
    UnexpectedToken(Seq<char>),
    NoArgs,
}

/// A rewrite failure.
///
/// - `UnsupportedMacro`: a macro other than the file-inclusion macro was
///   called in a documentation argument.
/// - `NotStringLiteral`: an inclusion argument is a literal that is not a
///   string literal.
/// - `UnexpectedInCall`: a token that is neither a literal nor a comma in
///   an inclusion call's argument group.
/// - `UnexpectedArg`: the token after the `!` of an inclusion call is not
///   a group.
/// - `MissingArg`: the `!` of an inclusion call ends the argument stream.
/// - `NotLiteral`: a documentation argument that is not a literal, a
///   comma, or an inclusion call.
/// - `MissingFile`: a spliced file is not in the file map.
/// - `PathNotString`: the first file-test parameter is a literal that is
///   not a string literal.
/// - `SecondLiteral`: a second literal among the file-test parameters.
/// - `NameBeforePath`: a file-test name given before any path.
/// - `UnexpectedToken`: any other token among the file-test parameters.
/// - `NoArgs`: a file test without parameters.
#[derive(Debug)]
pub enum DocError {
    UnsupportedMacro(String),
    NotStringLiteral(String),
    UnexpectedInCall(String, String),
    UnexpectedArg(String, String),
    MissingArg(String),
    NotLiteral(String),
    MissingFile(String),
    PathNotString(String),
    SecondLiteral(String),
    NameBeforePath(String),
    UnexpectedToken(String),
    NoArgs,
}

impl View for DocError {
    type V = ErrView;

    open spec fn view(&self) -> ErrView {
        match self {
            DocError::UnsupportedMacro(s) => ErrView::UnsupportedMacro(s@),
            DocError::NotStringLiteral(s) => ErrView::NotStringLiteral(s@),
            DocError::UnexpectedInCall(t, id) => ErrView::UnexpectedInCall(t@, id@),
            DocError::UnexpectedArg(t, id) => ErrView::UnexpectedArg(t@, id@),
            DocError::MissingArg(s) => ErrView::MissingArg(s@),
            DocError::NotLiteral(s) => ErrView::NotLiteral(s@),
            DocError::MissingFile(s) => ErrView::MissingFile(s@),
            DocError::PathNotString(s) => ErrView::PathNotString(s@),
            DocError::SecondLiteral(s) => ErrView::SecondLiteral(s@),
            DocError::NameBeforePath(s) => ErrView::NameBeforePath(s@),
            DocError::UnexpectedToken(s) => ErrView::UnexpectedToken(s@),
            DocError::NoArgs => ErrView::NoArgs,
        }
    }
}

/// The text of the compile-time abort that each failure stands for.
pub open spec fn err_message(e: ErrView) -> Seq<char> {
    match e {
        ErrView::UnsupportedMacro(id) => "Unsupported macro call `"@ + id
            + "` in proc_macro (only `"@ + inclusion_macro_name() + "` is currently supported)"@,
        ErrView::NotStringLiteral(l) => "`"@ + l + "` should be a string literal!"@,
        ErrView::UnexpectedInCall(t, id) => "Unexpected item `"@ + t + "` in macro call `"@ + id
            + "`"@,
        ErrView::UnexpectedArg(t, id) => "Unexpected `"@ + t + "` in macro `"@ + id + "`"@,
        ErrView::MissingArg(id) => "Expected item in macro `"@ + id + "`, found nothing..."@,
        ErrView::NotLiteral(t) => "Only literals are expected, found: "@ + t,
        ErrView::MissingFile(p) => "Failed to read `"@ + p + "`"@,
        ErrView::PathNotString(l) => "First parameter of doctest should be a string literal, found `"@
            + l + "`"@,
        ErrView::SecondLiteral(l) => "Second parameter of doctest should be a ident, found a literal: `"@
            + l + "`"@,
        ErrView::NameBeforePath(id) => "First parameter of doctest should be a string literal, found ident `"@
            + id + "`"@,
        ErrView::UnexpectedToken(t) => "Unexpected token `"@ + t + "`"@,
        ErrView::NoArgs => "doctest expects at least one parameter"@,
    }
}

impl DocError {
    /// Renders the abort message of this failure.
    pub fn message(&self) -> (r: String)
        ensures
            r@ == err_message(self@),
    {
        match self {
            DocError::UnsupportedMacro(id) => {
                let mut s = String::from_str("Unsupported macro call `");
                s.append(id.as_str());
                s.append("` in proc_macro (only `");
                let kw = inclusion_macro_text();
                s.append(kw.as_str());
                s.append("` is currently supported)");
                s
            },
            DocError::NotStringLiteral(l) => {
                let mut s = String::from_str("`");
                s.append(l.as_str());
                s.append("` should be a string literal!");
                s
            },
            DocError::UnexpectedInCall(t, id) => {
                let mut s = String::from_str("Unexpected item `");
                s.append(t.as_str());
                s.append("` in macro call `");
                s.append(id.as_str());
                s.append("`");
                s
            },
            DocError::UnexpectedArg(t, id) => {
                let mut s = String::from_str("Unexpected `");
                s.append(t.as_str());
                s.append("` in macro `");
                s.append(id.as_str());
                s.append("`");
                s
            },
            DocError::MissingArg(id) => {
                let mut s = String::from_str("Expected item in macro `");
                s.append(id.as_str());
                s.append("`, found nothing...");
                s
            },
            DocError::NotLiteral(t) => {
                let mut s = String::from_str("Only literals are expected, found: ");
                s.append(t.as_str());
                s
            },
            DocError::MissingFile(p) => {
                let mut s = String::from_str("Failed to read `");
                s.append(p.as_str());
                s.append("`");
                s
            },
            DocError::PathNotString(l) => {
                let mut s = String::from_str(
                    "First parameter of doctest should be a string literal, found `",
                );
                s.append(l.as_str());
                s.append("`");
                s
            },
            DocError::SecondLiteral(l) => {
                let mut s = String::from_str(
                    "Second parameter of doctest should be a ident, found a literal: `",
                );
                s.append(l.as_str());
                s.append("`");
                s
            },
            DocError::NameBeforePath(id) => {
                let mut s = String::from_str(
                    "First parameter of doctest should be a string literal, found ident `",
                );
                s.append(id.as_str());
                s.append("`");
                s
            },
            DocError::UnexpectedToken(t) => {
                let mut s = String::from_str("Unexpected token `");
                s.append(t.as_str());
                s.append("`");
                s
            },
            DocError::NoArgs => String::from_str("doctest expects at least one parameter"),
        }
    }
}

} // verus!
