use hdfs_mirror::hdfs::path::{local_destination, parent_of, sanitize};

#[test]
fn scheme_and_authority_are_stripped() {
    assert_eq!(sanitize("hdfs://host:8020/a/b"), "/a/b");
    assert_eq!(sanitize("hdfs://host/a/b"), "/a/b");
    assert_eq!(sanitize("s3a://bucket/"), "/");
    assert_eq!(sanitize("hdfs://nn.example.com:9000/user/x y/z"), "/user/x y/z");
}

#[test]
fn paths_without_prefix_come_back_unchanged() {
    for p in ["/a/b", "relative", "", "/", "a/b/c", "/a:b//c/d", "://host/a", "hdfs:/a/b"] {
        assert_eq!(sanitize(p), p);
    }
}

#[test]
fn prefix_without_path_or_authority_is_no_prefix() {
    for p in ["hdfs://host:8020", "hdfs://", "hdfs:///a/b", "a/b://c/d", "x:y://h/p"] {
        assert_eq!(sanitize(p), p);
    }
}

#[test]
fn sanitize_is_idempotent() {
    for p in [
        "hdfs://host:8020/a/b",
        "a://b/c://d/e",
        "/a/b",
        "relative",
        "",
        "hdfs://h//x://y/z",
        "hdfs:///a",
    ] {
        let once = sanitize(p);
        assert_eq!(sanitize(&once), once, "{}", p);
    }
    assert_eq!(sanitize("a://b/c://d/e"), "/c://d/e");
}

#[test]
fn both_forms_of_a_path_sanitize_alike() {
    assert_eq!(sanitize("hdfs://localhost:8020/data/f.txt"), sanitize("/data/f.txt"));
}

#[test]
fn destination_strips_one_leading_separator_and_joins() {
    assert_eq!(local_destination("/dst", "/a/b.txt"), "/dst/a/b.txt");
    assert_eq!(local_destination("/dst/", "/a/b.txt"), "/dst/a/b.txt");
    assert_eq!(local_destination("/dst", "a/b.txt"), "/dst/a/b.txt");
    assert_eq!(local_destination("", "/a/b.txt"), "a/b.txt");
    assert_eq!(local_destination("out", "/f"), "out/f");
    assert_eq!(local_destination("/dst", "//a"), "/dst//a");
    assert_eq!(local_destination("/dst", ""), "/dst/");
    assert_eq!(local_destination("/", "/a"), "/a");
}

#[test]
fn parent_is_what_stands_before_the_last_separator() {
    assert_eq!(parent_of("/dst/a/b.txt"), "/dst/a");
    assert_eq!(parent_of("/f"), "/");
    assert_eq!(parent_of("f"), "");
    assert_eq!(parent_of(""), "");
    assert_eq!(parent_of("a/b"), "a");
    assert_eq!(parent_of("/dst/a/"), "/dst/a");
    assert_eq!(parent_of("/"), "/");
}
