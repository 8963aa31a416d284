use exiftool::diagnostics::{classify, stream_closed_error, warnings};
use exiftool::error::ExifToolError;

fn strings(items: &[&str]) -> Vec<String> {
    items.iter().map(|item| item.to_string()).collect()
}

#[test]
fn no_lines_leave_the_result_alone() {
    assert!(classify(&Vec::new(), &strings(&["a.jpg"])).is_ok());
}

#[test]
fn warnings_leave_the_result_alone() {
    let lines = strings(&["Warning: [minor] Unrecognized MakerNotes - a.jpg", "    1 image files read"]);
    assert!(classify(&lines, &strings(&["-json", "a.jpg"])).is_ok());
}

#[test]
fn test_file_not_found_error() {
    let lines = strings(&["Error: File not found - data/non_existent_file.jpg"]);
    let result = classify(&lines, &strings(&["-json", "data/non_existent_file.jpg"]));
    match result {
        Err(ExifToolError::FileNotFound { path, command_args }) => {
            assert_eq!(path, "data/non_existent_file.jpg");
            assert_eq!(command_args, "-json data/non_existent_file.jpg");
        }
        other => panic!("Expected FileNotFound error, got {:?}", other),
    }
    let raw_result = classify(&lines, &strings(&["data/non_existent_file.jpg"]));
    assert!(matches!(
        raw_result,
        Err(ExifToolError::FileNotFound { path, .. }) if path == "data/non_existent_file.jpg"
    ));
}

#[test]
fn exiftool_test_file_not_found() {
    let filename = "nonexistent.jpg";
    let lines = strings(&["Error: File not found - nonexistent.jpg"]);
    let result = classify(&lines, &strings(&[filename]));
    assert!(result.is_err());
    match result {
        Err(ExifToolError::FileNotFound { path, command_args: _ }) => assert_eq!(path, filename),
        other => panic!("Expected FileNotFound error, got {:?}", other),
    }
}

#[test]
fn missing_file_path_is_trimmed() {
    let lines = strings(&["Error: File not found -   my photo.jpg \r"]);
    match classify(&lines, &Vec::new()) {
        Err(ExifToolError::FileNotFound { path, command_args }) => {
            assert_eq!(path, "my photo.jpg");
            assert_eq!(command_args, "");
        }
        other => panic!("Expected FileNotFound error, got {:?}", other),
    }
}

#[test]
fn other_error_line_fails_with_all_lines() {
    let lines = strings(&[
        "Warning: something small",
        "Error: Not a valid JPG - a.txt",
        "Error: File not found - b.jpg",
    ]);
    match classify(&lines, &strings(&["-Author=x", "a.txt", "b.jpg"])) {
        Err(ExifToolError::ExifToolProcess { message, std_err, command_args }) => {
            assert_eq!(message, "Error: Not a valid JPG - a.txt");
            assert_eq!(
                std_err,
                "Warning: something small\nError: Not a valid JPG - a.txt\nError: File not found - b.jpg"
            );
            assert_eq!(command_args, "-Author=x a.txt b.jpg");
        }
        other => panic!("Expected ExifToolProcess error, got {:?}", other),
    }
}

#[test]
fn first_failing_line_decides() {
    let lines = strings(&["Error: File not found - b.jpg", "Error: Not a valid JPG - a.txt"]);
    assert!(matches!(
        classify(&lines, &Vec::new()),
        Err(ExifToolError::FileNotFound { path, .. }) if path == "b.jpg"
    ));
}

#[test]
fn missing_file_prefix_counts_only_at_the_start() {
    let lines = strings(&["  Error: File not found - b.jpg"]);
    assert!(matches!(
        classify(&lines, &Vec::new()),
        Err(ExifToolError::ExifToolProcess { message, .. }) if message == "  Error: File not found - b.jpg"
    ));
}

#[test]
fn error_without_colon_is_no_error() {
    let lines = strings(&["Error File not found", "error: lower case"]);
    assert!(classify(&lines, &Vec::new()).is_ok());
}

#[test]
fn closed_stream_without_lines_is_a_terminated_process() {
    assert!(matches!(stream_closed_error(&Vec::new()), ExifToolError::ProcessTerminated));
}

#[test]
fn closed_stream_with_lines_reports_them() {
    let lines = strings(&["perl: not found", "Warning: x"]);
    match stream_closed_error(&lines) {
        ExifToolError::ExifToolProcess { message, std_err, command_args } => {
            assert_eq!(std_err, "perl: not found\nWarning: x");
            assert_eq!(message, "Process terminated unexpectedly. Stderr:\nperl: not found\nWarning: x");
            assert_eq!(command_args, "<unknown - process terminated>");
        }
        other => panic!("Expected ExifToolProcess error, got {:?}", other),
    }
}

#[test]
fn warnings_come_before_the_first_failure() {
    let lines = strings(&["Warning: a", "note", "Warning: b", "Error: c Warning: d", "Warning: e"]);
    assert_eq!(warnings(&lines), strings(&["Warning: a", "Warning: b"]));
    assert_eq!(warnings(&strings(&["note", "x Warning: y"])), strings(&["x Warning: y"]));
    assert_eq!(warnings(&strings(&["Error: File not found - a", "Warning: b"])), Vec::<String>::new());
    assert_eq!(warnings(&Vec::new()), Vec::<String>::new());
    assert_eq!(warnings(&strings(&["warning: lower case"])), Vec::<String>::new());
}
