use file_sim::{close, open, File, FileError, FileState};

#[test]
fn scenario_read_fails_until_open_and_after_close() {
    let f = File::new("a.txt");
    let mut buffer: Vec<u8> = vec![];
    assert_eq!(f.read(&mut buffer), Err(FileError::InvalidState));
    let f = open(f).unwrap();
    assert_eq!(f.read(&mut buffer), Ok(0));
    let f = close(f).unwrap();
    assert_eq!(f.read(&mut buffer), Err(FileError::InvalidState));
    assert!(buffer.is_empty());
}

#[test]
fn fresh_file_read_fails_and_keeps_buffer() {
    let f = File::new("th5.txt");
    let mut buffer: Vec<u8> = vec![1, 2, 3];
    assert_eq!(f.read(&mut buffer), Err(FileError::InvalidState));
    assert_eq!(buffer, vec![1, 2, 3]);
}

#[test]
fn open_empty_file_reads_zero_and_appends_nothing() {
    let f = open(File::new("empty.txt")).unwrap();
    let mut buffer: Vec<u8> = vec![7, 8];
    assert_eq!(f.read(&mut buffer), Ok(0));
    assert_eq!(buffer, vec![7, 8]);
}

#[test]
fn open_then_close_makes_read_fail_again() {
    let f = close(open(File::new("x")).unwrap()).unwrap();
    let mut buffer: Vec<u8> = vec![];
    assert!(f.read(&mut buffer).is_err());
}

#[test]
fn len_matches_bytes_read() {
    let f = open(File::new("b.txt")).unwrap();
    let mut buffer: Vec<u8> = vec![9];
    let n = f.read(&mut buffer).unwrap();
    assert_eq!(n, f.len());
    assert_eq!(buffer.len() - 1, f.len());
    assert_eq!(f.len(), 0);
}

#[test]
fn name_is_kept_through_open_and_close() {
    let f = File::new("report.txt");
    assert_eq!(f.name(), "report.txt");
    let f = open(f).unwrap();
    assert_eq!(f.name(), "report.txt");
    let f = close(f).unwrap();
    assert_eq!(f.name(), "report.txt");
}

#[test]
fn empty_name_is_kept() {
    let f = File::new("");
    assert_eq!(f.name(), "");
}

#[test]
fn reading_twice_gives_same_result() {
    let f = open(File::new("twice")).unwrap();
    let mut buffer: Vec<u8> = vec![];
    assert_eq!(f.read(&mut buffer), Ok(0));
    assert_eq!(f.read(&mut buffer), Ok(0));
    assert!(buffer.is_empty());
}

#[test]
fn display_string_shows_name_and_state() {
    let f = File::new("th5.txt");
    assert_eq!(f.display_string(), "f<th5.txt,(CLOSED)>");
    let f = open(f).unwrap();
    assert_eq!(f.display_string(), "f<th5.txt,(OPEN)>");
}

#[test]
fn state_labels() {
    assert_eq!(FileState::Open.label(), "OPEN");
    assert_eq!(FileState::Closed.label(), "CLOSED");
}

#[test]
fn invalid_state_message() {
    assert_eq!(FileError::InvalidState.message(), "File must be open for reading");
}

#[test]
fn debug_rendering_lists_fields() {
    let f = File::new("d.txt");
    let text = format!("{:?}", f);
    assert!(text.contains("d.txt"));
    assert!(text.contains("Closed"));
}
