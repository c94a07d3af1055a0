use gh_actions_rust::parse;
use gh_actions_rust::parser::read_number;
use gh_actions_rust::ConversionError;
use gh_actions_rust::YamlValue;

fn number(n: i128) -> YamlValue {
    YamlValue::Integer(n)
}

fn word(s: &str) -> YamlValue {
    YamlValue::String(s.to_string())
}

fn float(x: f64) -> YamlValue {
    YamlValue::Float(x.to_bits())
}

fn failure(source: &str) -> String {
    match parse(source) {
        Err(ConversionError::ParseFailure(message)) => message,
        Ok(doc) => panic!("parsed as {:?}", doc),
    }
}

#[test]
fn parse_null_forms() {
    assert_eq!(parse("").unwrap(), YamlValue::Null);
    assert_eq!(parse("   \n").unwrap(), YamlValue::Null);
    assert_eq!(parse("null").unwrap(), YamlValue::Null);
    assert_eq!(parse("~").unwrap(), YamlValue::Null);
    assert_eq!(parse("# only a comment\n").unwrap(), YamlValue::Null);
}

#[test]
fn parse_booleans() {
    assert_eq!(parse("true").unwrap(), YamlValue::Bool(true));
    assert_eq!(parse("false").unwrap(), YamlValue::Bool(false));
}

#[test]
fn parse_signed_integers() {
    assert_eq!(parse("0").unwrap(), number(0));
    assert_eq!(parse("-17").unwrap(), number(-17));
    assert_eq!(parse("9223372036854775807").unwrap(), number(i64::MAX as i128));
    assert_eq!(parse("-9223372036854775808").unwrap(), number(i64::MIN as i128));
    assert_eq!(parse("0x1F").unwrap(), number(31));
}

#[test]
fn parse_integers_beyond_the_signed_range() {
    assert_eq!(parse("9223372036854775808").unwrap(), number(i64::MAX as i128 + 1));
    assert_eq!(parse("18446744073709551615").unwrap(), number(u64::MAX as i128));
}

#[test]
fn parse_floats() {
    assert_eq!(parse("3.14").unwrap(), float(3.14));
    assert_eq!(parse("-0.5").unwrap(), float(-0.5));
    assert_eq!(parse("1e3").unwrap(), float(1000.0));
    assert_eq!(parse(".inf").unwrap(), float(f64::INFINITY));
    assert_eq!(parse("-.inf").unwrap(), float(f64::NEG_INFINITY));
    match parse(".nan").unwrap() {
        YamlValue::Float(bits) => assert!(f64::from_bits(bits).is_nan()),
        other => panic!("parsed as {:?}", other),
    }
}

#[test]
fn parse_rejects_an_integer_beyond_sixty_four_bits() {
    failure("18446744073709551616");
    failure("-9223372036854775809");
}

#[test]
fn parse_strings() {
    assert_eq!(parse("hello").unwrap(), word("hello"));
    assert_eq!(parse("\"hi\"").unwrap(), word("hi"));
    assert_eq!(parse("'42'").unwrap(), word("42"));
    assert_eq!(parse("\"a\\tb\"").unwrap(), word("a\tb"));
    assert_eq!(parse("\"\"").unwrap(), word(""));
}

#[test]
fn parse_sequences_in_both_styles() {
    let expected = YamlValue::Sequence(vec![number(1), word("two"), YamlValue::Null]);
    assert_eq!(parse("[1, two, null]").unwrap(), expected);
    assert_eq!(parse("- 1\n- two\n- ~\n").unwrap(), expected);
    assert_eq!(parse("[]").unwrap(), YamlValue::Sequence(vec![]));
}

#[test]
fn parse_mapping_keeps_the_order_of_the_text() {
    assert_eq!(
        parse("b: 1\na: 2\nc: 3\n").unwrap(),
        YamlValue::Mapping(vec![
            (word("b"), number(1)),
            (word("a"), number(2)),
            (word("c"), number(3)),
        ])
    );
    assert_eq!(parse("{}").unwrap(), YamlValue::Mapping(vec![]));
}

#[test]
fn parse_mapping_with_keys_that_are_no_strings() {
    assert_eq!(
        parse("1: a\ntrue: b\n~: c\n2.5: d\n[1, 2]: e\n").unwrap(),
        YamlValue::Mapping(vec![
            (number(1), word("a")),
            (YamlValue::Bool(true), word("b")),
            (YamlValue::Null, word("c")),
            (float(2.5), word("d")),
            (YamlValue::Sequence(vec![number(1), number(2)]), word("e")),
        ])
    );
}

#[test]
fn parse_nested_document() {
    assert_eq!(
        parse("a: [1, {b: 2}]\n").unwrap(),
        YamlValue::Mapping(vec![(
            word("a"),
            YamlValue::Sequence(vec![
                number(1),
                YamlValue::Mapping(vec![(word("b"), number(2))]),
            ]),
        )])
    );
}

#[test]
fn parse_resolves_aliases_to_their_target() {
    assert_eq!(
        parse("a: &x [1, 2]\nb: *x\n").unwrap(),
        YamlValue::Mapping(vec![
            (word("a"), YamlValue::Sequence(vec![number(1), number(2)])),
            (word("b"), YamlValue::Sequence(vec![number(1), number(2)])),
        ])
    );
}

#[test]
fn parse_strips_comments() {
    assert_eq!(
        parse("# head\na: 1 # tail\n").unwrap(),
        YamlValue::Mapping(vec![(word("a"), number(1))])
    );
}

#[test]
fn parse_keeps_a_tag_with_its_node() {
    assert_eq!(
        parse("!Thing x").unwrap(),
        YamlValue::Tagged("!Thing".to_string(), Box::new(word("x")))
    );
    assert_eq!(
        parse("a: !Point [1, 2]\n").unwrap(),
        YamlValue::Mapping(vec![(
            word("a"),
            YamlValue::Tagged(
                "!Point".to_string(),
                Box::new(YamlValue::Sequence(vec![number(1), number(2)])),
            ),
        )])
    );
}

#[test]
fn parse_rejects_an_unterminated_sequence() {
    let message = failure("a: [1, 2\n");
    assert!(message.contains("line"), "{}", message);
}

#[test]
fn parse_rejects_bad_indentation() {
    failure("a:\n  b: 1\n c: 2\n");
}

#[test]
fn parse_rejects_an_invalid_escape() {
    failure("\"\\q\"");
}

#[test]
fn parse_rejects_an_unknown_alias() {
    failure("a: *nowhere\n");
}

#[test]
fn parse_rejects_a_repeated_key() {
    failure("a: 1\na: 2\n");
}

#[test]
fn parse_rejects_more_than_one_document() {
    failure("a: 1\n---\nb: 2\n");
}

#[test]
fn parse_failure_carries_the_diagnostic_of_the_parser() {
    let source = "a: [1, 2\n";
    let expected = serde_yaml::from_str::<serde_yaml::Value>(source).unwrap_err().to_string();
    assert_eq!(failure(source), expected);
    let error = parse(source).unwrap_err();
    assert_eq!(error.message(), expected);
    assert_eq!(error, ConversionError::ParseFailure(expected));
}

#[test]
fn parse_agrees_with_the_parser_on_its_own_output() {
    let mut entries = serde_yaml::Mapping::new();
    entries.insert(
        serde_yaml::Value::String("name".to_string()),
        serde_yaml::Value::String("x: y".to_string()),
    );
    entries.insert(
        serde_yaml::Value::String("sizes".to_string()),
        serde_yaml::Value::Sequence(vec![
            serde_yaml::Value::Number(serde_yaml::Number::from(-3i64)),
            serde_yaml::Value::Number(serde_yaml::Number::from(2.5f64)),
            serde_yaml::Value::Bool(false),
            serde_yaml::Value::Null,
        ]),
    );
    let source = serde_yaml::to_string(&serde_yaml::Value::Mapping(entries)).unwrap();
    assert_eq!(
        parse(&source).unwrap(),
        YamlValue::Mapping(vec![
            (word("name"), word("x: y")),
            (
                word("sizes"),
                YamlValue::Sequence(vec![
                    number(-3),
                    float(2.5),
                    YamlValue::Bool(false),
                    YamlValue::Null,
                ]),
            ),
        ])
    );
}

#[test]
fn number_is_an_integer_where_it_reads_as_one() {
    let bits = Some(5.0f64.to_bits());
    assert_eq!(read_number(Some(5), Some(5), bits), number(5));
    assert_eq!(read_number(Some(-5), None, Some((-5.0f64).to_bits())), number(-5));
    assert_eq!(
        read_number(None, Some(u64::MAX), Some(1.8446744073709552e19f64.to_bits())),
        number(18446744073709551615)
    );
}

#[test]
fn number_is_a_float_where_it_reads_as_no_integer() {
    assert_eq!(read_number(None, None, Some(2.5f64.to_bits())), float(2.5));
    assert_eq!(read_number(None, None, Some(0)), YamlValue::Float(0));
}

#[test]
fn number_without_any_reading_is_null() {
    assert_eq!(read_number(None, None, None), YamlValue::Null);
}
