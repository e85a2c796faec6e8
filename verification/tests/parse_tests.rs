use quiz_viewer::parse::parse_quiz;

#[test]
fn parses_single_record() {
    let text = r#"[{"question":"Q1","hint1":"H1","hint2":"H2","answer":"A1"}]"#;
    let qs = parse_quiz(text).expect("well-formed quiz");
    assert_eq!(qs.len(), 1);
    assert_eq!(qs[0].question, "Q1");
    assert_eq!(qs[0].hint1, "H1");
    assert_eq!(qs[0].hint2, "H2");
    assert_eq!(qs[0].answer, "A1");
}

#[test]
fn parses_empty_list() {
    let qs = parse_quiz("[]").expect("an empty list is well-formed");
    assert_eq!(qs.len(), 0);
    let qs = parse_quiz("  [ \t\n ]  ").expect("whitespace is allowed");
    assert_eq!(qs.len(), 0);
}

#[test]
fn parses_several_records_in_order() {
    let text = r#"
        [ { "question" : "Q1", "hint1" : "a", "hint2" : "b", "answer" : "A1" },
          { "question" : "Q2", "hint1" : "c", "hint2" : "d", "answer" : "A2" },
          { "question" : "Q3", "hint1" : "e", "hint2" : "f", "answer" : "A3" } ]
    "#;
    let qs = parse_quiz(text).expect("well-formed quiz");
    assert_eq!(qs.len(), 3);
    assert_eq!(qs[0].question, "Q1");
    assert_eq!(qs[1].question, "Q2");
    assert_eq!(qs[2].question, "Q3");
    assert_eq!(qs[2].answer, "A3");
}

#[test]
fn accepts_members_in_any_order() {
    let text = r#"[{"answer":"A","hint2":"h2","question":"Q","hint1":"h1"}]"#;
    let qs = parse_quiz(text).expect("member order is free");
    assert_eq!(qs[0].question, "Q");
    assert_eq!(qs[0].hint1, "h1");
    assert_eq!(qs[0].hint2, "h2");
    assert_eq!(qs[0].answer, "A");
}

#[test]
fn decodes_escapes() {
    let text = r#"[{"question":"a\"b\\c\/d","hint1":"x\ny","hint2":"t\tu\rv","answer":"\b\f"}]"#;
    let qs = parse_quiz(text).expect("escapes are part of the format");
    assert_eq!(qs[0].question, "a\"b\\c/d");
    assert_eq!(qs[0].hint1, "x\ny");
    assert_eq!(qs[0].hint2, "t\tu\rv");
    assert_eq!(qs[0].answer, "\u{8}\u{c}");
}

#[test]
fn accepts_text_beyond_ascii() {
    let text =
        "[{\"question\":\"Frage öffnen?\",\"hint1\":\"\u{1F4A1}\",\"hint2\":\"ß\",\"answer\":\"ja\"}]";
    let qs = parse_quiz(text).expect("any non-control character may stand in a value");
    assert_eq!(qs[0].question, "Frage öffnen?");
    assert_eq!(qs[0].hint1, "\u{1F4A1}");
    assert_eq!(qs[0].hint2, "ß");
}

#[test]
fn rejects_missing_member() {
    assert!(parse_quiz(r#"[{"question":"Q","hint1":"a","hint2":"b"}]"#).is_none());
}

#[test]
fn rejects_repeated_member() {
    let text = r#"[{"question":"Q","question":"R","hint1":"a","hint2":"b","answer":"A"}]"#;
    assert!(parse_quiz(text).is_none());
}

#[test]
fn rejects_unknown_member() {
    let text = r#"[{"question":"Q","hint1":"a","hint2":"b","answer":"A","extra":"x"}]"#;
    assert!(parse_quiz(text).is_none());
}

#[test]
fn rejects_malformed_text() {
    assert!(parse_quiz("").is_none());
    assert!(parse_quiz("   ").is_none());
    assert!(parse_quiz("nonsense").is_none());
    assert!(parse_quiz("{").is_none());
    assert!(parse_quiz("[").is_none());
    assert!(parse_quiz("[{}]").is_none());
    assert!(parse_quiz(r#"{"question":"Q","hint1":"a","hint2":"b","answer":"A"}"#).is_none());
    assert!(parse_quiz(r#"[{"question":"Q","hint1":"a","hint2":"b","answer":A"}]"#).is_none());
    assert!(parse_quiz(r#"[{"question":"Q","hint1":"a","hint2":"b","answer":"A"}] x"#).is_none());
    assert!(parse_quiz(r#"[{"question":"Q","hint1":"a","hint2":"b","answer":"A"},]"#).is_none());
    assert!(parse_quiz(r#"[{"question":"Q","hint1":"a","hint2":"b","answer":"A"]"#).is_none());
}

#[test]
fn rejects_unterminated_value() {
    assert!(parse_quiz(r#"[{"question":"Q"#).is_none());
}

#[test]
fn rejects_unknown_escape() {
    let text = "[{\"question\":\"\\u0041\",\"hint1\":\"a\",\"hint2\":\"b\",\"answer\":\"A\"}]";
    assert!(parse_quiz(text).is_none());
}

#[test]
fn rejects_control_character_in_value() {
    let text = "[{\"question\":\"a\nb\",\"hint1\":\"a\",\"hint2\":\"b\",\"answer\":\"A\"}]";
    assert!(parse_quiz(text).is_none());
}

#[test]
fn rejects_non_text_value() {
    let text = r#"[{"question":"Q","hint1":1,"hint2":"b","answer":"A"}]"#;
    assert!(parse_quiz(text).is_none());
}
