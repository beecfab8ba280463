use cursorup::meta::parse_metadata;
use cursorup::UpdateError;

fn full_body() -> String {
    String::from(
        "{\"version\":\"1.2.3\",\"downloadUrl\":\"https://dl.example/cursor-1.2.3.AppImage\",\
         \"commitSha\":\"abc\",\"rehUrl\":\"https://reh.example\"}",
    )
}

#[test]
fn extracts_all_four_fields() {
    let resp = parse_metadata(&full_body()).unwrap();
    assert_eq!(resp.version, "1.2.3");
    assert_eq!(resp.download_url, "https://dl.example/cursor-1.2.3.AppImage");
    assert_eq!(resp.commit_sha, "abc");
    assert_eq!(resp.reh_url, "https://reh.example");
}

#[test]
fn ignores_unrecognized_fields() {
    let body = "{\"version\":\"9\",\"downloadUrl\":\"u\",\"commitSha\":\"c\",\
                \"rehUrl\":\"r\",\"extra\":42}";
    let resp = parse_metadata(body).unwrap();
    assert_eq!(resp.version, "9");
    assert_eq!(resp.download_url, "u");
}

#[test]
fn rejects_missing_version() {
    let body = "{\"downloadUrl\":\"u\",\"commitSha\":\"c\",\"rehUrl\":\"r\"}";
    assert!(matches!(
        parse_metadata(body),
        Err(UpdateError::DecodeError { .. })
    ));
}

#[test]
fn rejects_missing_download_url() {
    let body = "{\"version\":\"1\",\"commitSha\":\"c\",\"rehUrl\":\"r\"}";
    assert!(matches!(
        parse_metadata(body),
        Err(UpdateError::DecodeError { .. })
    ));
}

#[test]
fn rejects_missing_commit_sha() {
    let body = "{\"version\":\"1\",\"downloadUrl\":\"u\",\"rehUrl\":\"r\"}";
    assert!(matches!(
        parse_metadata(body),
        Err(UpdateError::DecodeError { .. })
    ));
}

#[test]
fn rejects_missing_reh_url() {
    let body = "{\"version\":\"1\",\"downloadUrl\":\"u\",\"commitSha\":\"c\"}";
    assert!(matches!(
        parse_metadata(body),
        Err(UpdateError::DecodeError { .. })
    ));
}

#[test]
fn rejects_mistyped_field() {
    let body = "{\"version\":7,\"downloadUrl\":\"u\",\"commitSha\":\"c\",\"rehUrl\":\"r\"}";
    assert!(matches!(
        parse_metadata(body),
        Err(UpdateError::DecodeError { .. })
    ));
}

#[test]
fn rejects_invalid_json() {
    assert!(matches!(
        parse_metadata("not json at all"),
        Err(UpdateError::DecodeError { .. })
    ));
}

#[test]
fn rejects_non_object_document() {
    assert!(matches!(
        parse_metadata("[1, 2, 3]"),
        Err(UpdateError::DecodeError { .. })
    ));
}
