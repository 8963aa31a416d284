use exiftool::drain::{DrainAction, DrainEvent};
use exiftool::error::ExifToolError;
use exiftool::session::{Diagnosis, DiagnosisStep, ReadStep, Request};

fn strings(items: &[&str]) -> Vec<String> {
    items.iter().map(|item| item.to_string()).collect()
}

fn read_all(args: &[&str], chunks: &[&[u8]]) -> Diagnosis {
    let mut request = Request::new(strings(args));
    for (i, chunk) in chunks.iter().enumerate() {
        match request.received(chunk) {
            ReadStep::More(next) => {
                assert!(i + 1 < chunks.len(), "the response should be whole after the last chunk");
                request = next;
            }
            ReadStep::Diagnose(diagnosis) => {
                assert_eq!(i + 1, chunks.len(), "the response should not be whole before the last chunk");
                return diagnosis;
            }
        }
    }
    panic!("no chunk was given");
}

fn drain_all(diagnosis: Diagnosis, events: Vec<DrainEvent>) -> Result<Vec<u8>, ExifToolError> {
    drain_with_warnings(diagnosis, events).0
}

fn drain_with_warnings(mut diagnosis: Diagnosis, events: Vec<DrainEvent>) -> (Result<Vec<u8>, ExifToolError>, Vec<String>) {
    let count = events.len();
    for (i, event) in events.into_iter().enumerate() {
        match diagnosis.diagnosed(event) {
            DiagnosisStep::More(next, action) => {
                assert!(i + 1 < count, "the drain should stop at the last event");
                assert!(!matches!(action, DrainAction::Stop));
                diagnosis = next;
            }
            DiagnosisStep::Done(result, warnings) => {
                assert_eq!(i + 1, count, "the drain should not stop before the last event");
                return (result, warnings);
            }
        }
    }
    panic!("no event was given");
}

fn line(text: &str) -> DrainEvent {
    DrainEvent::Line(text.to_string())
}

#[test]
fn request_lines_end_with_execute() {
    let request = Request::new(strings(&["-S", "-FocalLength", "a.jpg"]));
    assert_eq!(request.lines(), strings(&["-S", "-FocalLength", "a.jpg", "-execute"]));
}

#[test]
fn test_execute_lines_ok() {
    let diagnosis = read_all(&["-S", "-FocalLength", "a.jpg"], &[b"FocalLength: 4.7 mm\n{ready}\n"]);
    let result = drain_all(diagnosis, vec![DrainEvent::Empty, DrainEvent::Empty, DrainEvent::WindowClosed]);
    assert_eq!(result.unwrap(), b"FocalLength: 4.7 mm\n".to_vec());
}

#[test]
fn response_with_warnings_is_returned() {
    let diagnosis = read_all(&["a.jpg"], &[b"[{\"SourceFile\":", b" \"a.jpg\"}]\r\n{ready}\r\n"]);
    let result = drain_all(diagnosis, vec![line("Warning: [minor] Bad offset"), DrainEvent::Empty, DrainEvent::Empty]);
    assert_eq!(result.unwrap(), b"[{\"SourceFile\": \"a.jpg\"}]\r\n".to_vec());
}

#[test]
fn stay_open_test_file_not_found() {
    let filename = "nonexistent.jpg";
    let diagnosis = read_all(&[filename], &[b"{ready}\n"]);
    let result = drain_all(
        diagnosis,
        vec![DrainEvent::Empty, DrainEvent::Empty, line("Error: File not found - nonexistent.jpg"), DrainEvent::Empty],
    );
    assert!(result.is_err());
    match result {
        Err(ExifToolError::FileNotFound { path, command_args }) => {
            assert_eq!(path, filename);
            assert_eq!(command_args, filename);
        }
        other => panic!("Expected FileNotFound error, got {:?}", other),
    }
}

#[test]
fn error_line_fails_a_request_with_a_response() {
    let diagnosis = read_all(&["-Author=x", "a.txt"], &[b"    0 image files updated\n{ready}\n"]);
    let result = drain_all(diagnosis, vec![line("Error: Not a valid JPG - a.txt"), DrainEvent::Empty, DrainEvent::Empty]);
    match result {
        Err(ExifToolError::ExifToolProcess { message, std_err, command_args }) => {
            assert_eq!(message, "Error: Not a valid JPG - a.txt");
            assert_eq!(std_err, "Error: Not a valid JPG - a.txt");
            assert_eq!(command_args, "-Author=x a.txt");
        }
        other => panic!("Expected ExifToolProcess error, got {:?}", other),
    }
}

#[test]
fn closed_stream_is_a_terminated_process() {
    let diagnosis = read_all(&["a.jpg"], &[b"partial", b""]);
    let result = drain_all(diagnosis, vec![DrainEvent::Empty, DrainEvent::WindowClosed]);
    assert!(matches!(result, Err(ExifToolError::ProcessTerminated)));

    let diagnosis = read_all(&["a.jpg"], &[b""]);
    let result = drain_all(diagnosis, vec![DrainEvent::Disconnected]);
    assert!(matches!(result, Err(ExifToolError::ProcessTerminated)));
}

#[test]
fn closed_stream_surfaces_the_lines() {
    let diagnosis = read_all(&["a.jpg"], &[b""]);
    let result = drain_all(diagnosis, vec![line("Can't locate Image/ExifTool.pm"), DrainEvent::Disconnected]);
    match result {
        Err(ExifToolError::ExifToolProcess { message, std_err, command_args }) => {
            assert_eq!(std_err, "Can't locate Image/ExifTool.pm");
            assert_eq!(message, "Process terminated unexpectedly. Stderr:\nCan't locate Image/ExifTool.pm");
            assert_eq!(command_args, "<unknown - process terminated>");
        }
        other => panic!("Expected ExifToolProcess error, got {:?}", other),
    }
}

#[test]
fn gone_diagnostic_stream_fails_a_request_with_a_response() {
    let diagnosis = read_all(&["a.jpg"], &[b"data{ready}\n"]);
    let result = drain_all(diagnosis, vec![DrainEvent::Empty, DrainEvent::Disconnected]);
    assert!(matches!(result, Err(ExifToolError::StderrDisconnected)));
}

#[test]
fn gone_diagnostic_stream_after_a_warning_returns_the_response() {
    let diagnosis = read_all(&["a.jpg"], &[b"data{ready}\n"]);
    let result = drain_all(diagnosis, vec![line("Warning: w"), DrainEvent::Disconnected]);
    assert_eq!(result.unwrap(), b"data".to_vec());
}

#[test]
fn first_poll_after_reading_is_at_once() {
    let diagnosis = read_all(&["a.jpg"], &[b"data{ready}\n"]);
    match diagnosis.diagnosed(line("Warning: w")) {
        DiagnosisStep::More(_, action) => assert!(matches!(action, DrainAction::PollNow)),
        other => panic!("expected another poll, got {:?}", other),
    }
}

#[test]
fn warnings_are_handed_out_with_the_result() {
    let diagnosis = read_all(&["a.jpg"], &[b"data{ready}\n"]);
    let (result, warnings) = drain_with_warnings(
        diagnosis,
        vec![line("Warning: one"), line("    1 image files read"), line("Warning: two"), DrainEvent::Empty, DrainEvent::Empty],
    );
    assert_eq!(result.unwrap(), b"data".to_vec());
    assert_eq!(warnings, strings(&["Warning: one", "Warning: two"]));
}

#[test]
fn warnings_before_a_failure_are_handed_out() {
    let diagnosis = read_all(&["a.jpg"], &[b"{ready}\n"]);
    let (result, warnings) = drain_with_warnings(
        diagnosis,
        vec![line("Warning: one"), line("Error: bad"), line("Warning: two"), DrainEvent::Empty, DrainEvent::Empty],
    );
    assert!(matches!(result, Err(ExifToolError::ExifToolProcess { .. })));
    assert_eq!(warnings, strings(&["Warning: one"]));
}

#[test]
fn closed_stream_hands_out_no_warnings() {
    let diagnosis = read_all(&["a.jpg"], &[b""]);
    let (result, warnings) = drain_with_warnings(diagnosis, vec![line("Warning: one"), DrainEvent::Disconnected]);
    assert!(matches!(result, Err(ExifToolError::ExifToolProcess { .. })));
    assert_eq!(warnings, Vec::<String>::new());
}
