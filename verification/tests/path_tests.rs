use displayrecorder::validate_path;

#[test]
fn path_parsing_test() {
    assert!(validate_path("something.mp4"));
    assert!(validate_path("somedir/something.mp4"));
    assert!(validate_path("somedir\\something.mp4"));
    assert!(validate_path("../something.mp4"));

    assert!(!validate_path("."));
    assert!(!validate_path("*"));
    assert!(!validate_path("something"));
    assert!(!validate_path(".mp4"));
    assert!(!validate_path("mp4"));
    assert!(!validate_path("something.avi"));
}

#[test]
fn extension_must_be_last_and_named() {
    assert!(!validate_path("something.mp4.part"));
    assert!(!validate_path("dir.mp4/file"));
    assert!(!validate_path("dir/.mp4"));
    assert!(!validate_path("dir\\.mp4"));
    assert!(validate_path("a.b.mp4"));
}
