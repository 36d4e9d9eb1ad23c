use tcr::event::{ChangeKind, FileChangeEvent, ObjectKind, RawEvent};
use tcr::runner::{
    handle_output, print_output, render_stream, Failure, RunError, RunOutput, StreamText,
};
use tcr::text::{chars_of, contains_from, has_prefix_at, join};

fn raw(kind: ChangeKind) -> RawEvent {
    RawEvent {
        kind,
        paths: vec![String::from("/home/stuff/a"), String::from("/home/stuff/b")],
    }
}

#[test]
fn folder_creation_and_removal_concern_a_directory() {
    assert!(FileChangeEvent::new(raw(ChangeKind::Create(ObjectKind::Folder))).is_dir);
    assert!(FileChangeEvent::new(raw(ChangeKind::Remove(ObjectKind::Folder))).is_dir);
}

#[test]
fn other_notifications_do_not_concern_a_directory() {
    for kind in [
        ChangeKind::Any,
        ChangeKind::Access,
        ChangeKind::Create(ObjectKind::Any),
        ChangeKind::Create(ObjectKind::File),
        ChangeKind::Create(ObjectKind::Other),
        ChangeKind::Modify,
        ChangeKind::Remove(ObjectKind::Any),
        ChangeKind::Remove(ObjectKind::File),
        ChangeKind::Remove(ObjectKind::Other),
        ChangeKind::Other,
    ] {
        assert!(!FileChangeEvent::new(raw(kind)).is_dir);
    }
}

#[test]
fn normalized_event_keeps_the_paths_in_order() {
    let event = FileChangeEvent::new(raw(ChangeKind::Modify));
    assert_eq!(event.paths, vec!["/home/stuff/a", "/home/stuff/b"]);
    let empty = FileChangeEvent::new(RawEvent {
        kind: ChangeKind::Other,
        paths: vec![],
    });
    assert!(empty.paths.is_empty());
}

#[test]
fn outcome_with_exit_status_zero_is_no_failure() {
    let outcome = Ok(RunOutput {
        success: true,
        stdout: b"fine".to_vec(),
        stderr: b"warning".to_vec(),
    });
    assert_eq!(handle_output(&outcome), None);
}

#[test]
fn outcome_with_other_exit_status_is_a_failure() {
    let outcome = Ok(RunOutput {
        success: false,
        stdout: vec![],
        stderr: vec![],
    });
    assert_eq!(handle_output(&outcome), Some(Failure::NonZeroExit));
}

#[test]
fn runner_error_is_a_failure_with_its_cause() {
    let outcome = Err(RunError {
        message: String::from("permission denied"),
    });
    assert_eq!(
        handle_output(&outcome),
        Some(Failure::Io(RunError {
            message: String::from("permission denied")
        }))
    );
}

#[test]
fn streams_are_shown_as_text() {
    let out = RunOutput {
        success: true,
        stdout: "Compiling tcr v0.1.0\n".as_bytes().to_vec(),
        stderr: "grüße ✓".as_bytes().to_vec(),
    };
    assert_eq!(
        print_output(&out),
        (
            StreamText::Text(String::from("Compiling tcr v0.1.0\n")),
            StreamText::Text(String::from("grüße ✓"))
        )
    );
}

#[test]
fn empty_stream_shows_nothing() {
    let out = RunOutput {
        success: false,
        stdout: vec![],
        stderr: b"error".to_vec(),
    };
    assert_eq!(
        print_output(&out),
        (StreamText::Empty, StreamText::Text(String::from("error")))
    );
    assert_eq!(render_stream(&vec![]), StreamText::Empty);
}

#[test]
fn stream_that_is_no_text_is_undecodable() {
    assert_eq!(render_stream(&vec![0xff, 0xfe]), StreamText::Undecodable);
    assert_eq!(render_stream(&vec![b'a', 0xc3]), StreamText::Undecodable);
    assert_eq!(render_stream(&vec![0xed, 0xa0, 0x80]), StreamText::Undecodable);
    assert_eq!(
        render_stream(&vec![0xc3, 0xa9]),
        StreamText::Text(String::from("é"))
    );
}

#[test]
fn parts_are_joined_with_the_separator_between_them() {
    assert_eq!(join(&vec![], ", "), "");
    assert_eq!(join(&vec![String::from("a")], ", "), "a");
    assert_eq!(
        join(&vec![String::from("a"), String::from("b"), String::from("c")], ", "),
        "a, b, c"
    );
    assert_eq!(join(&vec![String::new(), String::new()], "-"), "-");
}

#[test]
fn characters_of_a_string() {
    assert_eq!(chars_of("aé✓"), vec!['a', 'é', '✓']);
    assert_eq!(chars_of(""), Vec::<char>::new());
}

#[test]
fn prefix_at_a_position() {
    let text = chars_of("/tmp/test/bar");
    assert!(has_prefix_at(&text, 0, &chars_of("/tmp")));
    assert!(has_prefix_at(&text, 4, &chars_of("/test")));
    assert!(has_prefix_at(&text, 13, &chars_of("")));
    assert!(has_prefix_at(&text, 0, &text));
    assert!(!has_prefix_at(&text, 1, &chars_of("/tmp")));
    assert!(!has_prefix_at(&text, 10, &chars_of("bark")));
}

#[test]
fn character_at_or_after_a_position() {
    let text = chars_of("a/b.c");
    assert!(contains_from(&text, 0, '/'));
    assert!(contains_from(&text, 1, '/'));
    assert!(!contains_from(&text, 2, '/'));
    assert!(contains_from(&text, 4, 'c'));
    assert!(!contains_from(&text, 5, 'c'));
}

#[test]
fn nothing_stands_behind_the_end_of_a_text() {
    let text = chars_of("ab");
    assert!(has_prefix_at(&text, 2, &chars_of("")));
    assert!(!has_prefix_at(&text, 3, &chars_of("")));
    assert!(!contains_from(&text, 3, 'a'));
    assert!(!contains_from(&text, usize::MAX, 'a'));
}
