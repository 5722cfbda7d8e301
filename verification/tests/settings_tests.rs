use sidecar_supervisor::launcher::resolve_data_directory;
use sidecar_supervisor::settings::read_data_directory;

#[test]
fn reads_saved_preference() {
    let content = b"{\"dataDirectory\": \"/srv/data\", \"theme\": \"dark\"}";
    assert_eq!(read_data_directory(content), Some(b"/srv/data".to_vec()));
}

#[test]
fn reads_preference_without_whitespace() {
    let content = b"{\"dataDirectory\":\"/srv/data\"}";
    assert_eq!(read_data_directory(content), Some(b"/srv/data".to_vec()));
}

#[test]
fn reads_preference_with_newlines_and_tabs() {
    let content = b"{\n\t\"dataDirectory\"\t:\n \"/srv/data\"\n}";
    assert_eq!(read_data_directory(content), Some(b"/srv/data".to_vec()));
}

#[test]
fn missing_key_is_no_preference() {
    assert_eq!(read_data_directory(b"{\"theme\": \"dark\"}"), None);
    assert_eq!(read_data_directory(b""), None);
}

#[test]
fn malformed_content_is_no_preference() {
    assert_eq!(read_data_directory(b"not json at all"), None);
    assert_eq!(read_data_directory(b"{\"dataDirectory\" \"/srv/data\"}"), None);
    assert_eq!(read_data_directory(b"{\"dataDirectory\": 42}"), None);
    assert_eq!(read_data_directory(b"{\"dataDirectory\": \"/srv/unterminated"), None);
}

#[test]
fn escaped_value_is_no_preference() {
    let content = b"{\"dataDirectory\": \"C:\\\\data\"}";
    assert_eq!(read_data_directory(content), None);
}

#[test]
fn empty_saved_value_falls_back_to_default() {
    let content = b"{\"dataDirectory\": \"\"}";
    let saved = read_data_directory(content);
    assert_eq!(saved, Some(b"".to_vec()));
    let dir = resolve_data_directory(&saved, b"/home/user");
    assert_eq!(dir, b"/home/user/.sidecar".to_vec());
}
