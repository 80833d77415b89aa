use betterdisplay_kvm::report::{FailureReport, SourceLocation};

#[test]
fn a_full_report_has_three_lines() {
    let report = FailureReport {
        summary: "panicked at src/main.rs:10:5".to_string(),
        location: Some(SourceLocation {
            file: "src/main.rs".to_string(),
            line: 10,
            column: 5,
        }),
        message: Some("boom".to_string()),
    };
    assert_eq!(
        report.log_lines(),
        vec![
            "PANIC: panicked at src/main.rs:10:5".to_string(),
            "Location: src/main.rs:10:5".to_string(),
            "Message: boom".to_string(),
        ]
    );
}

#[test]
fn a_report_without_place_and_message_has_one_line() {
    let report = FailureReport {
        summary: "unknown failure".to_string(),
        location: None,
        message: None,
    };
    assert_eq!(report.log_lines(), vec!["PANIC: unknown failure".to_string()]);
}

#[test]
fn a_report_with_only_a_message() {
    let report = FailureReport {
        summary: "s".to_string(),
        location: None,
        message: Some("".to_string()),
    };
    assert_eq!(
        report.log_lines(),
        vec!["PANIC: s".to_string(), "Message: ".to_string()]
    );
}

#[test]
fn a_report_with_only_a_place() {
    let report = FailureReport {
        summary: "".to_string(),
        location: Some(SourceLocation {
            file: "a.rs".to_string(),
            line: 0,
            column: 4294967295,
        }),
        message: None,
    };
    assert_eq!(
        report.log_lines(),
        vec!["PANIC: ".to_string(), "Location: a.rs:0:4294967295".to_string()]
    );
}

#[test]
fn the_place_is_written_as_file_line_column() {
    for (line, column) in [(1u32, 1u32), (9, 10), (100, 99), (12345, 67890), (4294967295, 0)] {
        let place = SourceLocation {
            file: "src/device_manager.rs".to_string(),
            line,
            column,
        };
        assert_eq!(
            place.log_line(),
            format!("Location: src/device_manager.rs:{}:{}", line, column)
        );
    }
}
