use codegen_util::{
    get_option, get_optional_option, get_options_from_input, AttrStyle, Attribute, ConfigError,
    ExpectedForm, Ident, Lit, MetaItem, NestedMetaItem, StrStyle,
};

fn outer(value: MetaItem) -> Attribute {
    Attribute { style: AttrStyle::Outer, value, is_sugared_doc: false }
}

fn name_value(name: &str, value: &str) -> MetaItem {
    MetaItem::NameValue(Ident::new(name), Lit::Str(value.to_string(), StrStyle::Cooked))
}

fn options_attr() -> Attribute {
    outer(MetaItem::List(
        Ident::new("options"),
        vec![
            NestedMetaItem::MetaItem(name_value("primary_key", "id")),
            NestedMetaItem::MetaItem(name_value("table_name", "users")),
        ],
    ))
}

#[test]
fn options_group_holds_its_settings() {
    let attrs = vec![outer(MetaItem::Word(Ident::new("test"))), options_attr()];
    let items = get_options_from_input(&attrs).unwrap().unwrap();
    assert_eq!(items.len(), 2);
    assert_eq!(items, vec![name_value("primary_key", "id"), name_value("table_name", "users")]);
}

#[test]
fn options_group_keeps_any_meta_item() {
    let nested = MetaItem::List(Ident::new("inner"), vec![]);
    let attrs = vec![outer(MetaItem::List(
        Ident::new("options"),
        vec![
            NestedMetaItem::MetaItem(MetaItem::Word(Ident::new("flag"))),
            NestedMetaItem::MetaItem(MetaItem::List(Ident::new("inner"), vec![])),
        ],
    ))];
    assert_eq!(
        get_options_from_input(&attrs),
        Ok(Some(vec![MetaItem::Word(Ident::new("flag")), nested]))
    );
}

#[test]
fn options_group_may_be_empty() {
    let attrs = vec![outer(MetaItem::List(Ident::new("options"), vec![]))];
    assert_eq!(get_options_from_input(&attrs), Ok(Some(vec![])));
}

#[test]
fn options_group_may_be_absent() {
    let attrs = vec![outer(name_value("table_name", "users"))];
    assert_eq!(get_options_from_input(&attrs), Ok(None));
    assert_eq!(get_options_from_input(&[]), Ok(None));
}

#[test]
fn options_group_must_be_a_list() {
    let attrs = vec![outer(name_value("options", "x"))];
    assert_eq!(get_options_from_input(&attrs), Err(ConfigError::MalformedOptionsGroup));
    let attrs = vec![outer(MetaItem::Word(Ident::new("options")))];
    assert_eq!(get_options_from_input(&attrs), Err(ConfigError::MalformedOptionsGroup));
}

#[test]
fn options_group_must_hold_no_literal() {
    let attrs = vec![outer(MetaItem::List(
        Ident::new("options"),
        vec![
            NestedMetaItem::MetaItem(name_value("primary_key", "id")),
            NestedMetaItem::Literal(Lit::Str("users".to_string(), StrStyle::Cooked)),
        ],
    ))];
    assert_eq!(get_options_from_input(&attrs), Err(ConfigError::MalformedOptionsGroup));
}

#[test]
fn options_group_is_the_first_one() {
    let attrs = vec![
        outer(name_value("options", "x")),
        options_attr(),
    ];
    assert_eq!(get_options_from_input(&attrs), Err(ConfigError::MalformedOptionsGroup));
    let attrs = vec![options_attr(), outer(name_value("options", "x"))];
    assert_eq!(get_options_from_input(&attrs).unwrap().unwrap().len(), 2);
}

#[test]
fn get_option_finds_the_value() {
    let items = get_options_from_input(&[options_attr()]).unwrap().unwrap();
    assert_eq!(get_option(&items, "table_name"), Ok("users"));
    assert_eq!(get_option(&items, "primary_key"), Ok("id"));
}

#[test]
fn get_option_reports_a_missing_option() {
    let items = get_options_from_input(&[options_attr()]).unwrap().unwrap();
    assert_eq!(
        get_option(&items, "missing"),
        Err(ConfigError::MissingRequiredOption { name: "missing".to_string() })
    );
    assert_eq!(
        get_option(&[], "table_name"),
        Err(ConfigError::MissingRequiredOption { name: "table_name".to_string() })
    );
}

#[test]
fn get_optional_option_finds_the_value_or_none() {
    let items = get_options_from_input(&[options_attr()]).unwrap().unwrap();
    assert_eq!(get_optional_option(&items, "table_name"), Ok(Some("users")));
    assert_eq!(get_optional_option(&items, "missing"), Ok(None));
    assert_eq!(get_optional_option(&[], "table_name"), Ok(None));
}

#[test]
fn get_option_takes_the_first_of_two() {
    let items = vec![name_value("a", "1"), name_value("b", "2"), name_value("a", "3")];
    assert_eq!(get_option(&items, "a"), Ok("1"));
    assert_eq!(get_optional_option(&items, "a"), Ok(Some("1")));
}

#[test]
fn get_option_fails_on_another_form() {
    let items = vec![MetaItem::Word(Ident::new("table_name")), name_value("table_name", "users")];
    let error = ConfigError::MalformedAnnotationShape {
        name: "table_name".to_string(),
        expected: ExpectedForm::NameValue,
    };
    assert_eq!(get_option(&items, "table_name"), Err(error.clone()));
    assert_eq!(get_optional_option(&items, "table_name"), Err(error));
}

#[test]
fn option_lookups_repeat() {
    let attrs = vec![options_attr()];
    let first = get_options_from_input(&attrs);
    let second = get_options_from_input(&attrs);
    assert_eq!(first, second);
    let items = first.unwrap().unwrap();
    for name in ["table_name", "primary_key", "missing"] {
        assert_eq!(get_option(&items, name), get_option(&items, name));
        assert_eq!(get_optional_option(&items, name), get_optional_option(&items, name));
    }
}
