use acme_redirect::document::{parse, within_limit, SyntaxError, TomlValue, MAX_STRUCTURE};

fn text(s: &str) -> TomlValue {
    TomlValue::Text(s.to_string())
}

#[test]
fn parses_a_table_with_a_string() {
    let doc = parse("[cert]\nname = \"example.com\"\n").unwrap();
    let cert = doc.get("cert").unwrap();
    assert_eq!(cert.get("name"), Some(&text("example.com")));
}

#[test]
fn parses_every_kind_of_value() {
    let doc = parse(
        "s = \"x\"\ni = -7\nf = 1.5\nb = true\nd = 1979-05-27T07:32:00Z\na = [\"p\", \"q\"]\n[t]\nk = 1\n",
    )
    .unwrap();
    assert_eq!(doc.get("s"), Some(&text("x")));
    assert_eq!(doc.get("i"), Some(&TomlValue::Integer(-7)));
    assert_eq!(doc.get("f"), Some(&TomlValue::Float));
    assert_eq!(doc.get("b"), Some(&TomlValue::Boolean(true)));
    assert_eq!(doc.get("d"), Some(&TomlValue::Datetime));
    assert_eq!(doc.get("a"), Some(&TomlValue::Array(vec![text("p"), text("q")])));
    assert_eq!(
        doc.get("t"),
        Some(&TomlValue::Table(vec![("k".to_string(), TomlValue::Integer(1))]))
    );
    assert_eq!(doc.get("missing"), None);
}

#[test]
fn parses_nested_arrays_and_tables() {
    let doc = parse("a = [[1, 2], [3]]\nt = { u = { v = \"w\" } }\n").unwrap();
    assert_eq!(
        doc.get("a"),
        Some(&TomlValue::Array(vec![
            TomlValue::Array(vec![TomlValue::Integer(1), TomlValue::Integer(2)]),
            TomlValue::Array(vec![TomlValue::Integer(3)]),
        ]))
    );
    assert_eq!(doc.get("t").unwrap().get("u").unwrap().get("v"), Some(&text("w")));
}

#[test]
fn empty_text_is_an_empty_table() {
    assert_eq!(parse(""), Ok(TomlValue::Table(vec![])));
}

#[test]
fn text_that_is_no_toml_has_a_message() {
    match parse("a = ") {
        Err(SyntaxError::Invalid(message)) => assert!(!message.is_empty()),
        other => panic!("{:?}", other),
    }
    assert!(parse("[a\n").is_err());
    assert!(parse("a = 1\na = 2\n").is_err());
}

#[test]
fn same_text_gives_the_same_tree() {
    let text = "z = 1\ny = [\"b\", \"a\"]\n[x]\nw = false\n";
    assert_eq!(parse(text), parse(text));
}

#[test]
fn get_on_anything_but_a_table_finds_nothing() {
    assert_eq!(text("x").get("x"), None);
    assert_eq!(TomlValue::Array(vec![text("x")]).get("x"), None);
    assert_eq!(TomlValue::Integer(1).get(""), None);
}

#[test]
fn get_takes_the_first_entry_of_a_key() {
    let table = TomlValue::Table(vec![
        ("a".to_string(), TomlValue::Integer(1)),
        ("b".to_string(), TomlValue::Integer(2)),
        ("a".to_string(), TomlValue::Integer(3)),
    ]);
    assert_eq!(table.get("a"), Some(&TomlValue::Integer(1)));
    assert_eq!(table.get("b"), Some(&TomlValue::Integer(2)));
    assert_eq!(table.get("c"), None);
}

#[test]
fn plain_readers() {
    assert_eq!(text("x").as_text(), Some(&"x".to_string()));
    assert_eq!(TomlValue::Integer(1).as_text(), None);
    assert_eq!(TomlValue::Integer(i64::MIN).as_integer(), Some(i64::MIN));
    assert_eq!(TomlValue::Float.as_integer(), None);
    assert_eq!(TomlValue::Boolean(false).as_boolean(), Some(false));
    assert_eq!(text("true").as_boolean(), None);
    assert_eq!(
        TomlValue::Array(vec![text("a"), text("b")]).as_text_list(),
        Some(vec!["a".to_string(), "b".to_string()])
    );
    assert_eq!(TomlValue::Array(vec![]).as_text_list(), Some(vec![]));
    assert_eq!(TomlValue::Array(vec![text("a"), TomlValue::Integer(1)]).as_text_list(), None);
    assert_eq!(text("a").as_text_list(), None);
}

#[test]
fn keyed_readers() {
    let table = parse("s = \"x\"\ni = 3\nb = true\nl = [\"a\"]\n[t]\n").unwrap();
    assert_eq!(table.text_at("s"), Ok(Some("x".to_string())));
    assert_eq!(table.text_at("none"), Ok(None));
    assert_eq!(table.text_at("i"), Err("i".to_string()));
    assert_eq!(table.integer_at("i"), Ok(Some(3)));
    assert_eq!(table.integer_at("none"), Ok(None));
    assert_eq!(table.integer_at("s"), Err("s".to_string()));
    assert_eq!(table.boolean_at("b"), Ok(Some(true)));
    assert_eq!(table.boolean_at("none"), Ok(None));
    assert_eq!(table.boolean_at("i"), Err("i".to_string()));
    assert_eq!(table.text_list_at("l"), Ok(Some(vec!["a".to_string()])));
    assert_eq!(table.text_list_at("none"), Ok(None));
    assert_eq!(table.text_list_at("s"), Err("s".to_string()));
    assert_eq!(table.table_at("t"), Ok(Some(&TomlValue::Table(vec![]))));
    assert_eq!(table.table_at("none"), Ok(None));
    assert_eq!(table.table_at("l"), Err("l".to_string()));
}

#[test]
fn text_at_the_limit_is_parsed() {
    assert_eq!(MAX_STRUCTURE, 512);
    let names: Vec<String> = (0..255).map(|i| format!("\"n{}.example\"", i)).collect();
    let text = format!("[cert]\nnames = [{}]\n", names.join(", "));
    assert_eq!(text.matches(|c| c == '[' || c == '{' || c == '.').count(), 257);
    assert!(within_limit(&text));
    assert!(parse(&text).is_ok());
    let dots = format!("a = \"{}\"\n", ".".repeat(512));
    assert!(within_limit(&dots));
    assert_eq!(parse(&dots).unwrap().get("a"), Some(&text_of_dots(512)));
}

fn text_of_dots(n: usize) -> TomlValue {
    TomlValue::Text(".".repeat(n))
}

#[test]
fn text_over_the_limit_is_refused_unparsed() {
    let dots = format!("a = \"{}\"\n", ".".repeat(513));
    assert!(!within_limit(&dots));
    assert_eq!(parse(&dots), Err(SyntaxError::TooComplex));
    assert_eq!(parse(&"[".repeat(513)), Err(SyntaxError::TooComplex));
    assert_eq!(parse(&"{".repeat(513)), Err(SyntaxError::TooComplex));
}

#[test]
fn deep_nesting_is_refused_and_does_no_harm() {
    let deep = format!("a = {}1{}\n", "[".repeat(100_000), "]".repeat(100_000));
    assert_eq!(parse(&deep), Err(SyntaxError::TooComplex));
    let keys = format!("a{} = 1\n", ".a".repeat(100_000));
    assert_eq!(parse(&keys), Err(SyntaxError::TooComplex));
}

#[test]
fn nesting_within_the_limit_is_parsed() {
    let nested = format!("a = {}1{}\n", "[".repeat(512), "]".repeat(512));
    let mut value = parse(&nested).unwrap();
    let mut depth = 0;
    value = match value {
        TomlValue::Table(mut entries) => entries.remove(0).1,
        other => other,
    };
    while let TomlValue::Array(mut items) = value {
        depth += 1;
        value = items.remove(0);
    }
    assert_eq!(depth, 512);
    assert_eq!(value, TomlValue::Integer(1));
}
