use quiz_viewer::quiz::Question;
use quiz_viewer::quiz::Show;
use quiz_viewer::state::MyApp;
use quiz_viewer::state::DEFAULT_SCALE_TENTHS;
use quiz_viewer::state::SCALE_FLOOR_TENTHS;

const ONE_RECORD: &str = r#"[{"question":"Q1","hint1":"H1","hint2":"H2","answer":"A1"}]"#;
const TWO_RECORDS: &str = r#"[
    {"question":"Q1","hint1":"H1","hint2":"H2","answer":"A1"},
    {"question":"Q2","hint1":"H3","hint2":"H4","answer":"A2"}
]"#;

fn all_hidden(s: Show) -> bool {
    !s.question && !s.hint1 && !s.hint2 && !s.answer
}

#[test]
fn fresh_state() {
    let app = MyApp::default();
    assert!(!app.has_quiz());
    assert_eq!(app.quiz_len(), 0);
    assert_eq!(app.question_nr(), 0);
    assert_eq!(app.prev_question_nr(), 0);
    assert_eq!(app.scale_tenths(), DEFAULT_SCALE_TENTHS);
    assert!(all_hidden(app.show()));
    assert!(app.current_question().is_none());
}

#[test]
fn load_replaces_quiz_and_resets() {
    let mut app = MyApp::default();
    app.process_message(TWO_RECORDS);
    app.next_question();
    app.toggle_question();
    app.toggle_answer();
    app.process_message(ONE_RECORD);
    assert!(app.has_quiz());
    assert_eq!(app.quiz_len(), 1);
    assert_eq!(app.question_nr(), 0);
    assert_eq!(app.prev_question_nr(), 0);
    assert!(all_hidden(app.show()));
    let q = app.current_question().expect("first question selected");
    assert_eq!(q.question, "Q1");
    assert_eq!(q.hint1, "H1");
    assert_eq!(q.hint2, "H2");
    assert_eq!(q.answer, "A1");
}

#[test]
fn reveal_after_load() {
    let mut app = MyApp::default();
    app.process_message(ONE_RECORD);
    assert_eq!(app.question_nr(), 0);
    assert_eq!(app.displayed_question(), "");
    app.toggle_question();
    assert_eq!(app.displayed_question(), "Q1");
    assert_eq!(app.displayed_hint1(), "");
    app.toggle_hint1();
    assert_eq!(app.displayed_hint1(), "H1");
    app.toggle_hint2();
    assert_eq!(app.displayed_hint2(), "H2");
    app.toggle_answer();
    assert_eq!(app.displayed_answer(), "A1");
    app.toggle_question();
    assert_eq!(app.displayed_question(), "");
}

#[test]
fn empty_list_changes_nothing() {
    let mut app = MyApp::default();
    app.process_message(ONE_RECORD);
    app.toggle_question();
    app.process_message("[]");
    assert_eq!(app.quiz_len(), 1);
    assert_eq!(app.displayed_question(), "Q1");
    let mut fresh = MyApp::default();
    fresh.process_message("[]");
    assert!(!fresh.has_quiz());
}

#[test]
fn malformed_text_changes_nothing() {
    let mut app = MyApp::default();
    app.process_message(ONE_RECORD);
    app.toggle_answer();
    app.process_message("not a quiz");
    app.process_message(r#"[{"question":"Q"}]"#);
    assert_eq!(app.quiz_len(), 1);
    assert_eq!(app.question_nr(), 0);
    assert_eq!(app.displayed_answer(), "A1");
}

#[test]
fn invalid_encoding_changes_nothing() {
    let mut app = MyApp::default();
    app.process_message(ONE_RECORD);
    app.toggle_question();
    let bad = vec![0xffu8, 0xfe, 0x5b, 0x5d];
    app.process_delivery(&bad);
    assert_eq!(app.quiz_len(), 1);
    assert_eq!(app.displayed_question(), "Q1");
}

#[test]
fn valid_delivery_loads() {
    let mut app = MyApp::default();
    let bytes: Vec<u8> = ONE_RECORD.as_bytes().to_vec();
    app.process_delivery(&bytes);
    assert_eq!(app.quiz_len(), 1);
    app.toggle_question();
    assert_eq!(app.displayed_question(), "Q1");
}

#[test]
fn navigation_saturates_below() {
    let mut app = MyApp::default();
    app.prev_question();
    assert_eq!(app.question_nr(), 0);
    app.process_message(ONE_RECORD);
    app.prev_question();
    assert_eq!(app.question_nr(), 0);
}

#[test]
fn navigation_saturates_at_length() {
    let mut app = MyApp::default();
    app.process_message(ONE_RECORD);
    app.next_question();
    assert_eq!(app.question_nr(), 1);
    app.next_question();
    assert_eq!(app.question_nr(), 1);
    assert!(app.current_question().is_none());
}

#[test]
fn set_question_nr_clamps() {
    let mut app = MyApp::default();
    app.process_message(TWO_RECORDS);
    app.set_question_nr(1);
    assert_eq!(app.question_nr(), 1);
    app.set_question_nr(99);
    assert_eq!(app.question_nr(), 2);
    app.set_question_nr(0);
    assert_eq!(app.question_nr(), 0);
}

#[test]
fn index_change_hides_fields_on_next_redraw() {
    let mut app = MyApp::default();
    app.process_message(TWO_RECORDS);
    app.toggle_question();
    app.toggle_hint1();
    app.frame_sync();
    assert!(app.show().question);
    app.next_question();
    app.frame_sync();
    assert!(all_hidden(app.show()));
    assert_eq!(app.prev_question_nr(), 1);
    let q = app.current_question().expect("second question selected");
    assert_eq!(q.question, "Q2");
}

#[test]
fn scale_never_drops_below_floor() {
    let mut app = MyApp::default();
    let mut i = 0;
    while i < 100 {
        app.decrease_scale();
        i += 1;
    }
    assert_eq!(app.scale_tenths(), SCALE_FLOOR_TENTHS);
    app.increase_scale();
    assert_eq!(app.scale_tenths(), SCALE_FLOOR_TENTHS + 1);
}

#[test]
fn scale_steps_by_one_tenth() {
    let mut app = MyApp::default();
    app.increase_scale();
    assert_eq!(app.scale_tenths(), DEFAULT_SCALE_TENTHS + 1);
    app.decrease_scale();
    app.decrease_scale();
    assert_eq!(app.scale_tenths(), DEFAULT_SCALE_TENTHS - 1);
}

#[test]
fn restore_forces_fields_hidden_and_clamps() {
    let questions = vec![Question {
        question: "Q1".to_string(),
        hint1: "H1".to_string(),
        hint2: "H2".to_string(),
        answer: "A1".to_string(),
    }];
    let app = MyApp::from_persisted(25, Some(questions), 7, 7);
    assert!(all_hidden(app.show()));
    assert_eq!(app.scale_tenths(), 25);
    assert_eq!(app.question_nr(), 1);
    assert_eq!(app.prev_question_nr(), 7);
    let app = MyApp::from_persisted(0, None, 3, 0);
    assert_eq!(app.scale_tenths(), SCALE_FLOOR_TENTHS);
    assert_eq!(app.question_nr(), 0);
    assert!(!app.has_quiz());
}
