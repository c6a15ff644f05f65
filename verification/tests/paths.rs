use garena_cache::paths::{copy_destination, has_extension, join_path};

#[test]
fn join_glues_with_single_separator() {
    assert_eq!(join_path("out", "a/b"), "out/a/b");
    assert_eq!(join_path("out", "a1"), "out/a1");
}

#[test]
fn extension_detection() {
    assert!(!has_extension("abc"));
    assert!(has_extension("abc.png"));
    assert!(has_extension("x.tar.gz"));
    assert!(!has_extension(".hidden"));
    assert!(!has_extension("dir/.hidden"));
    assert!(has_extension("dir/a.png"));
    assert!(!has_extension("dir.d/abc"));
    assert!(has_extension("a."));
    assert!(!has_extension(""));
}

#[test]
fn extensionless_source_gains_jpg() {
    assert_eq!(copy_destination("out", "abc"), "out/abc.jpg");
    assert_eq!(copy_destination("out", "dir/abc"), "out/dir/abc.jpg");
    assert_eq!(copy_destination("out", "dir.d/abc"), "out/dir.d/abc.jpg");
}

#[test]
fn source_with_extension_is_preserved() {
    assert_eq!(copy_destination("out", "abc.png"), "out/abc.png");
    assert_eq!(copy_destination("out", "dir/x.tar.gz"), "out/dir/x.tar.gz");
}
