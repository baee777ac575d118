use smile_marco::data::{ast_gen, need_derives, parse_options};
use smile_marco::tokens::{has_comma, is_struct, punct_eq, strip_quotes, TokenTree};

fn ident(x: &str) -> TokenTree {
    TokenTree::Ident(x.to_string())
}

fn lit(x: &str) -> TokenTree {
    TokenTree::Literal(x.to_string())
}

fn punct(c: char) -> TokenTree {
    TokenTree::Punct(c)
}

fn struct_item() -> Vec<TokenTree> {
    vec![ident("struct"), ident("Book"), TokenTree::Group(vec![])]
}

fn exclude_getter_setter() -> Vec<TokenTree> {
    vec![
        ident("exclude"),
        punct('='),
        TokenTree::Group(vec![lit("\"Getter\""), punct(','), lit("\"Setter\"")]),
    ]
}

#[test]
fn non_struct_passes_unchanged() {
    let item = vec![ident("enum"), ident("E"), TokenTree::Group(vec![])];
    assert!(ast_gen(&exclude_getter_setter(), &item).is_none());
    let f = vec![ident("fn"), ident("f"), TokenTree::Group(vec![])];
    assert!(ast_gen(&vec![], &f).is_none());
}

#[test]
fn no_options_imports_all_four() {
    assert_eq!(
        ast_gen(&vec![], &struct_item()),
        Some(
            "use smile_marco::{Getter, Setter, Builder, Wither, };\n\
             #[derive(Getter, Setter, Wither, Builder)]\n"
                .to_string()
        )
    );
}

#[test]
fn exclude_getter_setter_filters_import_only() {
    let h = ast_gen(&exclude_getter_setter(), &struct_item()).expect("a struct");
    assert_eq!(
        h,
        "use smile_marco::{Builder, Wither, };\n#[derive(Getter, Setter, Wither, Builder)]\n"
    );
}

#[test]
fn link_overrides_module_path() {
    let attr = vec![ident("link"), punct('='), lit("\"my_macros\"")];
    let h = ast_gen(&attr, &struct_item()).expect("a struct");
    assert!(h.starts_with("use my_macros::{Getter, Setter, Builder, Wither, };\n"));
}

#[test]
fn link_and_exclude_together() {
    let mut attr = vec![ident("link"), punct('='), lit("\"m\""), punct(',')];
    attr.extend(exclude_getter_setter());
    let options = parse_options(&attr);
    assert_eq!(options.link, "m");
    assert_eq!(options.exclude, vec!["Getter".to_string(), "Setter".to_string()]);
    let h = ast_gen(&attr, &struct_item()).expect("a struct");
    assert!(h.starts_with("use m::{Builder, Wither, };\n"));
}

#[test]
fn unknown_tokens_are_ignored() {
    let mut attr = vec![ident("color"), punct('='), lit("\"red\""), punct(','), ident("link")];
    attr.extend(exclude_getter_setter());
    let options = parse_options(&attr);
    assert_eq!(options.link, "smile_marco");
    assert_eq!(options.exclude, vec!["Getter".to_string(), "Setter".to_string()]);
}

#[test]
fn exclude_by_bare_identifiers() {
    let attr = vec![
        ident("exclude"),
        punct('='),
        TokenTree::Group(vec![ident("Builder"), punct(','), ident("Nothing")]),
    ];
    let options = parse_options(&attr);
    assert_eq!(need_derives(&options.exclude), vec!["Getter", "Setter", "Wither"]);
}

#[test]
fn excluding_everything_leaves_empty_import() {
    let names: Vec<String> =
        ["Wither", "Builder", "Setter", "Getter"].iter().map(|x| x.to_string()).collect();
    assert!(need_derives(&names).is_empty());
}

#[test]
fn pub_struct_is_a_struct() {
    let item = vec![punct('#'), TokenTree::Group(vec![]), ident("pub"), ident("struct"), ident("S")];
    assert!(is_struct(&item));
    assert!(!is_struct(&vec![ident("pub"), ident("enum"), ident("E")]));
    assert!(!is_struct(&vec![]));
}

#[test]
fn punct_eq_checks_kind_and_char() {
    assert!(punct_eq(Some(&punct('=')), '='));
    assert!(!punct_eq(Some(&punct(',')), '='));
    assert!(!punct_eq(Some(&ident("=")), '='));
    assert!(!punct_eq(None, '='));
}

#[test]
fn strip_quotes_removes_every_quote() {
    assert_eq!(strip_quotes("\"cost\""), "cost");
    assert_eq!(strip_quotes("a\"b\"c"), "abc");
    assert_eq!(strip_quotes(""), "");
}

#[test]
fn has_comma_finds_separator() {
    assert!(has_comma("a, b"));
    assert!(!has_comma("cost"));
}
