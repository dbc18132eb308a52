use images_dir::join_images;
use images_dir::resolve_images_dir;

#[test]
fn resolves_under_data_dir() {
    let query = Ok("/home/user/.local/share/app".to_string());
    let resolved = resolve_images_dir(query);
    assert_eq!(resolved, Ok("/home/user/.local/share/app/images".to_string()));
}

#[test]
fn failed_query_keeps_its_message() {
    let query: Result<String, String> = Err("unknown data directory".to_string());
    let resolved = resolve_images_dir(query);
    assert_eq!(resolved, Err("unknown data directory".to_string()));
}

#[test]
fn resolving_twice_agrees() {
    let first = resolve_images_dir(Ok("/data/app".to_string()));
    let second = resolve_images_dir(Ok("/data/app".to_string()));
    assert_eq!(first, second);
    assert_eq!(first, Ok("/data/app/images".to_string()));

    let first_err = resolve_images_dir(Err("no home".to_string()));
    let second_err = resolve_images_dir(Err("no home".to_string()));
    assert_eq!(first_err, second_err);
}

#[test]
fn empty_directory_yields_bare_segment() {
    assert_eq!(join_images(""), "images".to_string());
}

#[test]
fn trailing_separator_is_not_doubled() {
    assert_eq!(join_images("/var/lib/app/"), "/var/lib/app/images".to_string());
}

#[test]
fn join_appends_separator_and_segment() {
    assert_eq!(join_images("/a"), "/a/images".to_string());
    assert_eq!(join_images("relative/dir"), "relative/dir/images".to_string());
}
