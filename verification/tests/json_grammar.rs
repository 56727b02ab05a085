use adyen::{parse_json, Json};

#[test]
fn scalars_parse() {
    assert_eq!(parse_json("null"), Some(Json::Null));
    assert_eq!(parse_json("true"), Some(Json::Bool(true)));
    assert_eq!(parse_json("false"), Some(Json::Bool(false)));
    assert_eq!(parse_json("0"), Some(Json::Num(0)));
    assert_eq!(parse_json("1050"), Some(Json::Num(1050)));
    assert_eq!(
        parse_json("18446744073709551615"),
        Some(Json::Num(u64::MAX))
    );
    assert_eq!(parse_json("\"hi\""), Some(Json::Str(String::from("hi"))));
    assert_eq!(parse_json("\"\""), Some(Json::Str(String::new())));
}

#[test]
fn surrounding_whitespace_is_insignificant() {
    assert_eq!(parse_json("  \t\r\n 7 \n"), Some(Json::Num(7)));
    assert_eq!(
        parse_json(" { \"a\" : 1 } "),
        Some(Json::Obj(vec![(String::from("a"), Json::Num(1))]))
    );
}

#[test]
fn containers_parse() {
    assert_eq!(
        parse_json("[1, 2, 3]"),
        Some(Json::Arr(vec![Json::Num(1), Json::Num(2), Json::Num(3)]))
    );
    assert_eq!(parse_json("[]"), Some(Json::Arr(vec![])));
    assert_eq!(parse_json("{}"), Some(Json::Obj(vec![])));
    assert_eq!(
        parse_json(r#"{"a": [true, {"b": null}], "c": "d"}"#),
        Some(Json::Obj(vec![
            (
                String::from("a"),
                Json::Arr(vec![
                    Json::Bool(true),
                    Json::Obj(vec![(String::from("b"), Json::Null)]),
                ]),
            ),
            (String::from("c"), Json::Str(String::from("d"))),
        ]))
    );
}

#[test]
fn string_escapes_decode() {
    assert_eq!(
        parse_json(r#""a\"b\\c\/d\ne\tf\rg\bh\fi""#),
        Some(Json::Str(String::from(
            "a\"b\\c/d\ne\tf\rg\u{8}h\u{c}i"
        )))
    );
}

#[test]
fn unicode_escapes_decode() {
    // Plain code units, lower- and upper-case hex digits.
    assert_eq!(
        parse_json(r#""\u0041\u00e9""#),
        Some(Json::Str(String::from("Aé")))
    );
    assert_eq!(
        parse_json(r#""\u20AC \u20ac""#),
        Some(Json::Str(String::from("€ €")))
    );
    // A surrogate pair names one supplementary character.
    assert_eq!(
        parse_json(r#""\uD83D\uDE00""#),
        Some(Json::Str(String::from("\u{1F600}")))
    );
    // Mixed with other content.
    assert_eq!(
        parse_json(r#""x\u0041y""#),
        Some(Json::Str(String::from("xAy")))
    );
}

#[test]
fn bad_unicode_escapes_are_rejected() {
    // A lone high surrogate, a lone low surrogate, a misordered pair.
    assert_eq!(parse_json(r#""\uD83D""#), None);
    assert_eq!(parse_json(r#""\uDE00""#), None);
    assert_eq!(parse_json(r#""\uDE00\uD83D""#), None);
    // A high surrogate not followed by a second escape.
    assert_eq!(parse_json(r#""\uD83DA""#), None);
    // Truncated and malformed hex.
    assert_eq!(parse_json(r#""\u004""#), None);
    assert_eq!(parse_json(r#""\u00GG""#), None);
    assert_eq!(parse_json(r#""\u""#), None);
}

#[test]
fn numbers_outside_u64_are_kept_opaque() {
    // Signed, fractional, exponent and oversized numbers are
    // well-formed JSON: they parse, but carry no readable value.
    assert_eq!(parse_json("-1"), Some(Json::NumOther));
    assert_eq!(parse_json("-0"), Some(Json::NumOther));
    assert_eq!(parse_json("1.5"), Some(Json::NumOther));
    assert_eq!(parse_json("1e3"), Some(Json::NumOther));
    assert_eq!(parse_json("2E-10"), Some(Json::NumOther));
    assert_eq!(parse_json("-1.5e+3"), Some(Json::NumOther));
    // One past u64::MAX.
    assert_eq!(parse_json("18446744073709551616"), Some(Json::NumOther));
}

#[test]
fn unicode_text_passes_through() {
    assert_eq!(
        parse_json("\"øre åäö €\""),
        Some(Json::Str(String::from("øre åäö €")))
    );
}

#[test]
fn rejected_documents() {
    // Bare garbage and truncated documents.
    assert_eq!(parse_json(""), None);
    assert_eq!(parse_json("nul"), None);
    assert_eq!(parse_json("[1, 2"), None);
    assert_eq!(parse_json("{\"a\": }"), None);
    assert_eq!(parse_json("\"unterminated"), None);
    // Trailing content after the document.
    assert_eq!(parse_json("1 2"), None);
    assert_eq!(parse_json("{} x"), None);
    // Trailing commas.
    assert_eq!(parse_json("[1,]"), None);
    assert_eq!(parse_json("{\"a\": 1,}"), None);
    // Malformed numbers: a superfluous leading zero, a bare sign, a
    // point or exponent without digits.
    assert_eq!(parse_json("007"), None);
    assert_eq!(parse_json("-"), None);
    assert_eq!(parse_json("1."), None);
    assert_eq!(parse_json("1e"), None);
    assert_eq!(parse_json("1e+"), None);
    assert_eq!(parse_json(".5"), None);
    // An unknown escape.
    assert_eq!(parse_json(r#""\q""#), None);
    // An unescaped control character inside a string.
    assert_eq!(parse_json("\"a\nb\""), None);
}

#[test]
fn deep_nesting_parses() {
    let depth = 60;
    let text = format!("{}{}", "[".repeat(depth), "]".repeat(depth));
    let mut expected = Json::Arr(vec![]);
    for _ in 1..depth {
        expected = Json::Arr(vec![expected]);
    }
    assert_eq!(parse_json(&text), Some(expected));
}

#[test]
fn duplicate_keys_keep_first_binding() {
    // The tree keeps both members; lookups in the decoders take the
    // first, which this exercises through a response document.
    let text = r#"{"resultCode": "Received", "resultCode": "SomethingNew"}"#;
    assert_eq!(
        adyen::Response::decode(text),
        Ok(adyen::Response::Received {})
    );
}
