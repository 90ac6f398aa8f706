use carcount::paths::{extension_of, join_path, staged_file_name, Slot};

#[test]
fn extension_of_simple_name() {
    assert_eq!(extension_of("photo.jpg"), Some("jpg".to_owned()));
}

#[test]
fn extension_of_nested_path() {
    assert_eq!(extension_of("/home/user/pic.old.png"), Some("png".to_owned()));
}

#[test]
fn extension_of_dotless_name() {
    assert_eq!(extension_of("archive"), None);
    assert_eq!(extension_of("/home/user/archive"), None);
}

#[test]
fn extension_of_hidden_file() {
    assert_eq!(extension_of(".hidden"), None);
    assert_eq!(extension_of("dir/.hidden"), None);
}

#[test]
fn extension_of_trailing_dot() {
    assert_eq!(extension_of("dir/file."), None);
}

#[test]
fn extension_of_dot_only_in_directory() {
    assert_eq!(extension_of("a/b.c/d"), None);
    assert_eq!(extension_of("a.b/c.txt"), Some("txt".to_owned()));
}

#[test]
fn extension_of_empty_path() {
    assert_eq!(extension_of(""), None);
}

#[test]
fn staged_file_name_per_slot() {
    assert_eq!(staged_file_name(Slot::First, "jpg"), "old_img_1.jpg");
    assert_eq!(staged_file_name(Slot::Second, "png"), "old_img_2.png");
    assert_eq!(staged_file_name(Slot::Single, "jpeg"), "old_img.jpeg");
}

#[test]
fn join_path_inserts_separator() {
    assert_eq!(join_path("/data", "old_img_1.jpg"), "/data/old_img_1.jpg");
    assert_eq!(join_path("rel", "f.png"), "rel/f.png");
}
