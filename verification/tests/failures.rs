use doc_comment::doc_comment;
use doc_comment::doctest;
use doc_comment::err::DocError;
use doc_comment::files::FileMap;
use doc_comment::toks::Delim;
use doc_comment::toks::Tok;

fn ident(s: &str) -> Tok {
    Tok::Ident(s.to_string(), false)
}

fn lit(s: &str) -> Tok {
    Tok::Literal(s.to_string())
}

fn punct(c: char) -> Tok {
    Tok::Punct(c, false)
}

fn group(d: Delim, ts: Vec<Tok>) -> Tok {
    Tok::Group(d, ts)
}

fn no_files() -> FileMap {
    FileMap::new()
}

fn inclusion_kw() -> String {
    format!("{}{}", "incl", "ude_str")
}

#[test]
fn foreign_macro_call_is_refused() {
    let attrs = vec![ident("foo"), punct('!'), group(Delim::Paren, vec![])];
    let item = vec![ident("x")];
    let e = doc_comment(&attrs, &item, &no_files()).unwrap_err();
    match &e {
        DocError::UnsupportedMacro(id) => assert_eq!(id.as_str(), "foo"),
        _ => panic!("wrong failure"),
    }
    let expected = format!(
        "Unsupported macro call `foo` in proc_macro (only `{}` is currently supported)",
        inclusion_kw()
    );
    assert_eq!(e.message(), expected);
}

#[test]
fn bare_identifier_is_not_a_literal() {
    let attrs = vec![ident("x")];
    let item = vec![ident("y")];
    let e = doc_comment(&attrs, &item, &no_files()).unwrap_err();
    match &e {
        DocError::NotLiteral(t) => assert_eq!(t.as_str(), "x"),
        _ => panic!("wrong failure"),
    }
    assert_eq!(e.message(), "Only literals are expected, found: x");
}

#[test]
fn inclusion_without_arguments_is_refused() {
    let kw = inclusion_kw();
    let attrs = vec![Tok::Ident(kw.clone(), false), punct('!')];
    let item = vec![ident("x")];
    let e = doc_comment(&attrs, &item, &no_files()).unwrap_err();
    match &e {
        DocError::MissingArg(id) => assert_eq!(id, &kw),
        _ => panic!("wrong failure"),
    }
    let expected = format!("Expected item in macro `{}`, found nothing...", kw);
    assert_eq!(e.message(), expected);
}

#[test]
fn inclusion_argument_must_be_a_group() {
    let kw = inclusion_kw();
    let attrs = vec![Tok::Ident(kw.clone(), false), punct('!'), ident("y")];
    let item = vec![ident("x")];
    let e = doc_comment(&attrs, &item, &no_files()).unwrap_err();
    match &e {
        DocError::UnexpectedArg(t, id) => {
            assert_eq!(t.as_str(), "y");
            assert_eq!(id, &kw);
        },
        _ => panic!("wrong failure"),
    }
    let expected = format!("Unexpected `y` in macro `{}`", kw);
    assert_eq!(e.message(), expected);
}

#[test]
fn inclusion_path_must_be_a_string_literal() {
    let kw = inclusion_kw();
    let attrs = vec![
        Tok::Ident(kw.clone(), false),
        punct('!'),
        group(Delim::Paren, vec![lit("42")]),
    ];
    let item = vec![ident("x")];
    let e = doc_comment(&attrs, &item, &no_files()).unwrap_err();
    match &e {
        DocError::NotStringLiteral(l) => assert_eq!(l.as_str(), "42"),
        _ => panic!("wrong failure"),
    }
    assert_eq!(e.message(), "`42` should be a string literal!");
}

#[test]
fn stray_token_in_inclusion_call_is_refused() {
    let kw = inclusion_kw();
    let attrs = vec![
        Tok::Ident(kw.clone(), false),
        punct('!'),
        group(Delim::Paren, vec![ident("y")]),
    ];
    let item = vec![ident("x")];
    let e = doc_comment(&attrs, &item, &no_files()).unwrap_err();
    match &e {
        DocError::UnexpectedInCall(t, id) => {
            assert_eq!(t.as_str(), "y");
            assert_eq!(id, &kw);
        },
        _ => panic!("wrong failure"),
    }
    let expected = format!("Unexpected item `y` in macro call `{}`", kw);
    assert_eq!(e.message(), expected);
}

#[test]
fn missing_file_is_reported_and_retry_succeeds() {
    let kw = inclusion_kw();
    let attrs = vec![
        Tok::Ident(kw.clone(), false),
        punct('!'),
        group(Delim::Paren, vec![lit("\"a.md\"")]),
    ];
    let item = vec![ident("x")];
    let mut files = FileMap::new();
    let e = doc_comment(&attrs, &item, &files).unwrap_err();
    match &e {
        DocError::MissingFile(p) => assert_eq!(p.as_str(), "a.md"),
        _ => panic!("wrong failure"),
    }
    assert_eq!(e.message(), "Failed to read `a.md`");
    files.insert("a.md".to_string(), "ok".to_string());
    let out = doc_comment(&attrs, &item, &files).unwrap();
    let expected = format!("#[doc = \"ok\"] xconst _: &'static str = {}!(\"a.md\");", kw);
    assert_eq!(out, expected);
}

#[test]
fn foreign_attribute_arguments_are_refused() {
    let attrs = vec![lit("\"d\"")];
    let item = vec![
        punct('#'),
        group(Delim::Bracket, vec![ident("derive"), group(Delim::Paren, vec![ident("Debug")])]),
    ];
    let e = doc_comment(&attrs, &item, &no_files()).unwrap_err();
    match &e {
        DocError::NotLiteral(t) => assert_eq!(t.as_str(), "Debug"),
        _ => panic!("wrong failure"),
    }
}

#[test]
fn doctest_needs_a_parameter() {
    let e = doctest(&vec![], &no_files()).unwrap_err();
    assert!(matches!(e, DocError::NoArgs));
    assert_eq!(e.message(), "doctest expects at least one parameter");
}

#[test]
fn doctest_name_before_path_is_refused() {
    let e = doctest(&vec![ident("name")], &no_files()).unwrap_err();
    match &e {
        DocError::NameBeforePath(id) => assert_eq!(id.as_str(), "name"),
        _ => panic!("wrong failure"),
    }
    assert_eq!(
        e.message(),
        "First parameter of doctest should be a string literal, found ident `name`"
    );
}

#[test]
fn doctest_path_must_be_a_string_literal() {
    let e = doctest(&vec![lit("42")], &no_files()).unwrap_err();
    match &e {
        DocError::PathNotString(l) => assert_eq!(l.as_str(), "42"),
        _ => panic!("wrong failure"),
    }
    assert_eq!(
        e.message(),
        "First parameter of doctest should be a string literal, found `42`"
    );
}

#[test]
fn doctest_second_literal_is_refused() {
    let e = doctest(&vec![lit("\"a\""), punct(','), lit("\"b\"")], &no_files()).unwrap_err();
    match &e {
        DocError::SecondLiteral(l) => assert_eq!(l.as_str(), "\"b\""),
        _ => panic!("wrong failure"),
    }
    assert_eq!(
        e.message(),
        "Second parameter of doctest should be a ident, found a literal: `\"b\"`"
    );
}

#[test]
fn doctest_stray_token_is_refused() {
    let e = doctest(&vec![group(Delim::Paren, vec![])], &no_files()).unwrap_err();
    match &e {
        DocError::UnexpectedToken(t) => assert_eq!(t.as_str(), "()"),
        _ => panic!("wrong failure"),
    }
    assert_eq!(e.message(), "Unexpected token `()`");
}

#[test]
fn stray_group_prints_its_contents() {
    let e = doctest(
        &vec![group(Delim::Paren, vec![ident("x"), punct(','), ident("y")])],
        &no_files(),
    )
        .unwrap_err();
    match &e {
        DocError::UnexpectedToken(t) => assert_eq!(t.as_str(), "(x , y)"),
        _ => panic!("wrong failure"),
    }
}

#[test]
fn doctest_stray_punctuation_is_refused() {
    let e = doctest(&vec![lit("\"a\""), punct(';')], &no_files()).unwrap_err();
    match &e {
        DocError::UnexpectedToken(t) => assert_eq!(t.as_str(), ";"),
        _ => panic!("wrong failure"),
    }
    assert_eq!(e.message(), "Unexpected token `;`");
}

#[test]
fn doctest_missing_file_is_reported() {
    let e = doctest(&vec![lit("\"T.md\"")], &no_files()).unwrap_err();
    match &e {
        DocError::MissingFile(p) => assert_eq!(p.as_str(), "T.md"),
        _ => panic!("wrong failure"),
    }
}
