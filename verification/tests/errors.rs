use hdf5_rs::error::{Diagnostic, Error, ErrorRecord, Frame};

fn frame(description: &str, major: i64) -> Frame {
    Frame {
        description: description.to_string(),
        function: "open".to_string(),
        file: "file.c".to_string(),
        line: "120".to_string(),
        major,
        minor: major * 10,
    }
}

#[test]
fn blank_frame_has_no_text_and_zero_codes() {
    let blank = Frame::blank();
    assert_eq!(blank.description, "");
    assert_eq!(blank.function, "");
    assert_eq!(blank.file, "");
    assert_eq!(blank.line, "");
    assert_eq!(blank.major, 0);
    assert_eq!(blank.minor, 0);
    assert!(blank.is_blank());
}

#[test]
fn frame_with_any_content_is_not_blank() {
    assert!(!frame("x", 0).is_blank());
    let mut only_code = Frame::blank();
    only_code.minor = 1;
    assert!(!only_code.is_blank());
    let mut only_line = Frame::blank();
    only_line.line = "1".to_string();
    assert!(!only_line.is_blank());
    let mut only_file = Frame::blank();
    only_file.file = "f".to_string();
    assert!(!only_file.is_blank());
    let mut only_function = Frame::blank();
    only_function.function = "f".to_string();
    assert!(!only_function.is_blank());
    let mut only_major = Frame::blank();
    only_major.major = -1;
    assert!(!only_major.is_blank());
}

#[test]
fn frame_clone_is_equal() {
    let first = frame("no such file", 4);
    assert_eq!(first.clone(), first);
}

#[test]
fn capture_keeps_frames_in_order() {
    let record = ErrorRecord::capture(-1, vec![frame("top", 1), frame("middle", 2), frame("bottom", 3)]);
    assert_eq!(record.code(), -1);
    assert_eq!(record.len(), 3);
    assert_eq!(record.top(), &frame("top", 1));
    assert_eq!(record.frame(0), Some(&frame("top", 1)));
    assert_eq!(record.frame(1), Some(&frame("middle", 2)));
    assert_eq!(record.frame(2), Some(&frame("bottom", 3)));
    assert_eq!(record.frame(3), None);
    assert_eq!(record.frames(), &vec![frame("top", 1), frame("middle", 2), frame("bottom", 3)]);
    assert!(!record.is_minimal());
}

#[test]
fn capture_of_nothing_is_minimal_and_not_empty() {
    let record = ErrorRecord::capture(-5, Vec::new());
    assert_eq!(record.code(), -5);
    assert_eq!(record.len(), 1);
    assert_eq!(record.top(), &Frame::blank());
    assert_eq!(record.frames().len(), 1);
    assert!(record.is_minimal());
}

#[test]
fn one_blank_frame_from_the_engine_is_minimal_too() {
    let record = ErrorRecord::capture(-5, vec![Frame::blank()]);
    assert!(record.is_minimal());
    let two = ErrorRecord::capture(-5, vec![Frame::blank(), Frame::blank()]);
    assert!(!two.is_minimal());
}

#[test]
fn record_clone_is_equal() {
    let record = ErrorRecord::capture(-2, vec![frame("top", 1), frame("bottom", 3)]);
    let copy = record.clone();
    assert_eq!(copy, record);
    assert_eq!(copy.code(), -2);
    assert_eq!(copy.len(), 2);
    assert_eq!(copy.frame(1), Some(&frame("bottom", 3)));
}

#[test]
fn native_error_holds_record_and_no_context() {
    let record = ErrorRecord::capture(-1, vec![frame("top", 1)]);
    let error = Error::native(record.clone());
    assert_eq!(error.record(), Some(&record));
    assert_eq!(error, Error::Native { record, context: Vec::new() });
}

#[test]
fn context_is_added_behind_and_frames_stay() {
    let record = ErrorRecord::capture(-1, vec![frame("top", 1), frame("bottom", 2)]);
    let error = Error::native(record.clone())
        .with_context("group/data".to_string())
        .with_context("opening dataset".to_string());
    match error {
        Error::Native { record: kept, context } => {
            assert_eq!(kept, record);
            assert_eq!(context, vec!["group/data".to_string(), "opening dataset".to_string()]);
        }
        other => panic!("expected a native failure, got {:?}", other),
    }
}

#[test]
fn invalid_handle_error_takes_no_context() {
    let error = Error::InvalidHandle { id: -1 }.with_context("ignored".to_string());
    assert_eq!(error, Error::InvalidHandle { id: -1 });
    assert_eq!(error.record(), None);
}

#[test]
fn diagnostic_carries_identifier_and_record() {
    let record = ErrorRecord::capture(-1, vec![frame("cannot close", 9)]);
    let diagnostic = Diagnostic { id: 12, record: record.clone() };
    assert_eq!(diagnostic.id, 12);
    assert_eq!(diagnostic.record, record);
}
