use smile_marco::builder;
use smile_marco::decl::{AttrMeta, Data, DeriveError, DeriveInput, Field, Fields, Generics};
use smile_marco::emit::{plan_methods, MethodKind};
use smile_marco::getter;
use smile_marco::setter;
use smile_marco::util::{FieldContext, StructContext};
use smile_marco::wither;

fn s(x: &str) -> String {
    x.to_string()
}

fn field(ident: &str, ty: &str, attrs: Vec<AttrMeta>) -> Field {
    Field { ident: s(ident), ty: s(ty), attrs }
}

fn exclude() -> AttrMeta {
    AttrMeta::Path(vec![s("exclude")])
}

fn rename(args: &str) -> AttrMeta {
    AttrMeta::List(vec![s("name")], s(args))
}

fn no_generics() -> Generics {
    Generics { impl_params: s(""), type_args: s(""), where_clause: s("") }
}

fn named(ident: &str, fields: Vec<Field>) -> DeriveInput {
    DeriveInput {
        vis: s(""),
        ident: s(ident),
        generics: no_generics(),
        data: Data::Struct(Fields::Named(fields)),
    }
}

fn book() -> DeriveInput {
    named(
        "Book",
        vec![
            field("title", "String", vec![]),
            field("price", "i32", vec![rename("cost")]),
            field("author", "String", vec![exclude()]),
        ],
    )
}

fn plain_book() -> DeriveInput {
    named(
        "Book",
        vec![
            field("title", "String", vec![]),
            field("price", "i32", vec![]),
            field("author", "String", vec![]),
        ],
    )
}

fn ok_text(r: Result<String, DeriveError>) -> String {
    match r {
        Ok(t) => t,
        Err(e) => panic!("generator failed: {}", e.message()),
    }
}

#[test]
fn getter_book_exact_text() {
    let text = ok_text(getter::gen_ast(book()));
    assert_eq!(
        text,
        "impl Book  {\n\
         #[inline]\npub fn get_title(&self) -> &String {\n&self.title\n}\n\
         #[inline]\npub fn get_cost(&self) -> &i32 {\n&self.price\n}\n\
         }\n"
    );
}

#[test]
fn setter_book_exact_text() {
    let text = ok_text(setter::gen_ast(book()));
    assert_eq!(
        text,
        "impl Book  {\n\
         #[inline]\npub fn set_title(&mut self, title: String) {\nself.title = title;\n}\n\
         #[inline]\npub fn set_cost(&mut self, cost: i32) {\nself.price = cost;\n}\n\
         }\n"
    );
}

#[test]
fn wither_book_exact_text() {
    let text = ok_text(wither::gen_ast(book()));
    assert_eq!(
        text,
        "impl Book  {\n\
         #[inline]\npub fn with_title<F>(mut self, func: F) -> Self\nwhere\nF: FnOnce(String) -> String,\n{\nself.title = func(self.title);\nself\n}\n\
         #[inline]\npub fn with_cost<F>(mut self, func: F) -> Self\nwhere\nF: FnOnce(i32) -> i32,\n{\nself.price = func(self.price);\nself\n}\n\
         }\n"
    );
}

#[test]
fn wither_touches_only_its_field() {
    let text = ok_text(wither::gen_ast(book()));
    assert!(text.contains("self.price = func(self.price);\nself\n"));
    assert!(!text.contains("self.author"));
}

#[test]
fn unannotated_fields_one_method_each() {
    for (kind, prefix) in [
        (MethodKind::Getter, "get_"),
        (MethodKind::Setter, "set_"),
        (MethodKind::Wither, "with_"),
    ] {
        let context = match StructContext::new(plain_book()) {
            Ok(c) => c,
            Err(_) => panic!("a named struct"),
        };
        let fields = match context.handle_fields_exclude_and_name_attr() {
            Ok(f) => f,
            Err(_) => panic!("no markers"),
        };
        let methods = plan_methods(kind, &fields);
        assert_eq!(methods.len(), 3);
        for (m, ident) in methods.iter().zip(["title", "price", "author"]) {
            assert_eq!(m.name, format!("{}{}", prefix, ident));
            assert_eq!(m.field, ident);
        }
    }
    let text = ok_text(getter::gen_ast(plain_book()));
    assert_eq!(text.matches("pub fn get_").count(), 3);
}

#[test]
fn excluded_field_gets_no_method() {
    for r in [getter::gen_ast(book()), setter::gen_ast(book()), wither::gen_ast(book())] {
        let text = ok_text(r);
        assert!(!text.contains("author"));
    }
}

#[test]
fn excluded_field_with_malformed_rename_is_still_excluded() {
    let input = named(
        "Book",
        vec![
            field("title", "String", vec![]),
            field("author", "String", vec![rename(""), exclude()]),
            field("isbn", "u64", vec![rename("a, b"), exclude()]),
        ],
    );
    let text = ok_text(getter::gen_ast(input));
    assert_eq!(text.matches("pub fn ").count(), 1);
    assert!(text.contains("get_title"));
}

#[test]
fn rename_uses_argument_and_declared_field() {
    let input = named("Book", vec![field("price", "i32", vec![rename("\"cost\"")])]);
    let text = ok_text(setter::gen_ast(input));
    assert!(text.contains("pub fn set_cost(&mut self, cost: i32)"));
    assert!(text.contains("self.price = cost;"));
    assert!(!text.contains("set_price"));
}

#[test]
fn first_rename_marker_decides() {
    let other = AttrMeta::List(vec![s("serde")], s("rename = \"x\""));
    let input = named(
        "Book",
        vec![field("price", "i32", vec![other, rename("cost"), rename("value")])],
    );
    let text = ok_text(getter::gen_ast(input));
    assert!(text.contains("get_cost"));
    assert!(!text.contains("get_value"));
}

#[test]
fn empty_rename_fails() {
    let input = named("Book", vec![field("price", "i32", vec![rename("")])]);
    match getter::gen_ast(input) {
        Err(e) => {
            assert!(matches!(&e, DeriveError::NameEmpty(f) if f == "price"));
            assert!(e.message().contains("name is empty"));
        }
        Ok(_) => panic!("an empty rename must fail"),
    }
}

#[test]
fn several_renames_fail() {
    let input = named("Book", vec![field("price", "i32", vec![rename("cost, value")])]);
    match setter::gen_ast(input) {
        Err(e) => {
            assert!(matches!(&e, DeriveError::OnlyOneValue(f) if f == "price"));
            assert!(e.message().contains("Only one value"));
        }
        Ok(_) => panic!("two renames must fail"),
    }
}

#[test]
fn first_malformed_field_is_reported() {
    let input = named(
        "Book",
        vec![
            field("a", "i32", vec![rename("x, y")]),
            field("b", "i32", vec![rename("")]),
        ],
    );
    assert!(matches!(wither::gen_ast(input), Err(DeriveError::OnlyOneValue(f)) if f == "a"));
}

#[test]
fn non_struct_is_refused() {
    let input = DeriveInput { vis: s(""), ident: s("E"), generics: no_generics(), data: Data::Enum };
    let r = getter::gen_ast(input);
    assert!(matches!(&r, Err(DeriveError::NotStruct)));
    if let Err(e) = r {
        assert_eq!(e.message(), "not a struct");
    }
    let union = DeriveInput { vis: s(""), ident: s("U"), generics: no_generics(), data: Data::Union };
    assert!(matches!(builder::gen_ast(union), Err(DeriveError::NotStruct)));
}

#[test]
fn tuple_and_unit_structs_are_refused() {
    let tuple = DeriveInput {
        vis: s(""),
        ident: s("T"),
        generics: no_generics(),
        data: Data::Struct(Fields::Unnamed(vec![s("i32")])),
    };
    assert!(matches!(setter::gen_ast(tuple), Err(DeriveError::NotNamedStruct)));
    let unit = DeriveInput {
        vis: s(""),
        ident: s("T"),
        generics: no_generics(),
        data: Data::Struct(Fields::Unit),
    };
    let r = builder::gen_ast(unit);
    assert!(matches!(&r, Err(DeriveError::NotNamedStruct)));
    if let Err(e) = r {
        assert_eq!(e.message(), "not a named struct");
    }
}

#[test]
fn impl_sign_keeps_generics_and_where_clause() {
    let input = DeriveInput {
        vis: s("pub"),
        ident: s("Pair"),
        generics: Generics {
            impl_params: s("<T: Clone>"),
            type_args: s("<T>"),
            where_clause: s("where T: Default"),
        },
        data: Data::Struct(Fields::Named(vec![field("left", "T", vec![])])),
    };
    let context = match StructContext::new(input) {
        Ok(c) => c,
        Err(_) => panic!("a named struct"),
    };
    assert_eq!(context.impl_sign(), "impl<T: Clone> Pair<T> where T: Default");
    assert_eq!(context.where_case, "where T: Default");
    assert_eq!(context.vis, "pub");
}

#[test]
fn field_context_new_keeps_values() {
    let fc = FieldContext::new(s("i32"), s("price"), s("cost"));
    assert_eq!(fc.ty, "i32");
    assert_eq!(fc.ident, "price");
    assert_eq!(fc.name, "cost");
}

#[test]
fn builder_book_exact_text() {
    let text = ok_text(builder::gen_ast(plain_book()));
    let expected = " struct BookBuilder  {\n\
         title: Option<String>,\nprice: Option<i32>,\nauthor: Option<String>,\n}\n\
         impl BookBuilder  {\n\
         #[inline]\npub fn new() -> Self {\nSelf {\ntitle: None,\nprice: None,\nauthor: None,\n}\n}\n\
         #[inline]\npub fn build(self) -> Book {\nBook {\n\
         title: self.title.expect(\"title field is not set in Book struct\"),\n\
         price: self.price.expect(\"price field is not set in Book struct\"),\n\
         author: self.author.expect(\"author field is not set in Book struct\"),\n}\n}\n\
         #[inline]\npub fn title(mut self, v: String) -> Self {\nself.title = Some(v);\nself\n}\n\
         #[inline]\npub fn price(mut self, v: i32) -> Self {\nself.price = Some(v);\nself\n}\n\
         #[inline]\npub fn author(mut self, v: String) -> Self {\nself.author = Some(v);\nself\n}\n\
         }\n\
         impl Book  {\n#[inline]\npub fn builder() -> BookBuilder {\nBookBuilder::new()\n}\n}\n";
    assert_eq!(text, expected);
}

#[test]
fn builder_ignores_field_policy() {
    let text = ok_text(builder::gen_ast(book()));
    assert!(text.contains("author: Option<String>,"));
    assert!(text.contains("pub fn price(mut self, v: i32) -> Self"));
    assert!(!text.contains("cost"));
}

#[test]
fn builder_missing_message_names_field_and_struct() {
    let text = ok_text(builder::gen_ast(plain_book()));
    for f in ["title", "price", "author"] {
        assert!(text.contains(&format!(
            "{f}: self.{f}.expect(\"{f} field is not set in Book struct\")"
        )));
    }
}

#[test]
fn builder_keeps_generics() {
    let input = DeriveInput {
        vis: s("pub"),
        ident: s("Pair"),
        generics: Generics { impl_params: s("<T>"), type_args: s("<T>"), where_clause: s("") },
        data: Data::Struct(Fields::Named(vec![field("left", "T", vec![])])),
    };
    let text = ok_text(builder::gen_ast(input));
    assert!(text.starts_with("pub struct PairBuilder<T>  {\n"));
    assert!(text.contains("pub fn build(self) -> Pair<T> {"));
    assert!(text.contains("impl<T> Pair<T>  {\n#[inline]\npub fn builder() -> PairBuilder<T> {"));
}

#[test]
fn book_end_to_end() {
    let getters = ok_text(getter::gen_ast(book()));
    assert!(getters.contains("pub fn get_title("));
    assert!(getters.contains("pub fn get_cost("));
    assert!(!getters.contains("get_author"));
    let setters = ok_text(setter::gen_ast(book()));
    assert!(setters.contains("pub fn set_title("));
    assert!(setters.contains("pub fn set_cost("));
    assert!(!setters.contains("set_author"));
    let b = ok_text(builder::gen_ast(book()));
    for f in ["title", "price", "author"] {
        assert!(b.contains(&format!("{f}: self.{f}.expect(")));
    }
}
