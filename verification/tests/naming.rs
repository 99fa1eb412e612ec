use media_sorter::naming::{
    change_file_name, classify, create_alternative_path, destination_path, extension, file_name,
    is_image, is_supported_file_type, join, parent, MediaKind,
};

#[test]
fn file_name_is_what_follows_the_last_separator() {
    assert_eq!(file_name("a/b/c.jpg"), "c.jpg");
    assert_eq!(file_name("c.jpg"), "c.jpg");
    assert_eq!(file_name("/c.jpg"), "c.jpg");
    assert_eq!(file_name("a/b/"), "");
    assert_eq!(file_name(""), "");
}

#[test]
fn parent_is_what_stands_before_the_last_separator() {
    assert_eq!(parent("target/2023/7/a.jpg"), "target/2023/7");
    assert_eq!(parent("a.jpg"), "");
    assert_eq!(parent("/a.jpg"), "/");
    assert_eq!(parent("a/b/"), "a/b");
}

#[test]
fn extension_follows_the_last_dot_of_the_name() {
    assert_eq!(extension("a/b.jpg"), Some("jpg".to_string()));
    assert_eq!(extension("a/b.tar.gz"), Some("gz".to_string()));
    assert_eq!(extension("a/b."), Some("".to_string()));
    assert_eq!(extension("a/b"), None);
    assert_eq!(extension("a/.hidden"), None);
    assert_eq!(extension("a.d/b"), None);
    assert_eq!(extension(""), None);
}

#[test]
fn classify_goes_by_the_extension_in_any_case() {
    assert_eq!(classify("a.png"), MediaKind::Image);
    assert_eq!(classify("a.jpg"), MediaKind::Image);
    assert_eq!(classify("a.JPG"), MediaKind::Image);
    assert_eq!(classify("a.Jpeg"), MediaKind::Image);
    assert_eq!(classify("dir/a.TIF"), MediaKind::Image);
    assert_eq!(classify("a.mp4"), MediaKind::Video);
    assert_eq!(classify("a.MP4"), MediaKind::Video);
    assert_eq!(classify("a.tiff"), MediaKind::Unsupported);
    assert_eq!(classify("a.txt"), MediaKind::Unsupported);
    assert_eq!(classify("jpg"), MediaKind::Unsupported);
    assert_eq!(classify(".jpg"), MediaKind::Unsupported);
    assert_eq!(classify("a.jpg/b"), MediaKind::Unsupported);
}

#[test]
fn is_image_holds_of_images_only() {
    assert!(is_image("a.png"));
    assert!(is_image("a.jpeg"));
    assert!(!is_image("a.mp4"));
    assert!(!is_image("a"));
}

#[test]
fn is_supported_file_type_holds_of_images_and_videos() {
    assert!(is_supported_file_type("a.tif"));
    assert!(is_supported_file_type("a.mp4"));
    assert!(!is_supported_file_type("a.mov"));
    assert!(!is_supported_file_type("a"));
}

#[test]
fn change_file_name_keeps_directory_and_suffix() {
    assert_eq!(change_file_name("t/2023/7/a.jpg", "b"), "t/2023/7/b.jpg");
    assert_eq!(change_file_name("a.jpg", "b"), "b.jpg");
    assert_eq!(change_file_name("t/a", "b"), "t/b");
    assert_eq!(change_file_name("t/a.tar.gz", "b"), "t/b.gz");
    assert_eq!(change_file_name("t/.hidden", "b"), "t/b");
}

#[test]
fn create_alternative_path_marks_the_stem() {
    assert_eq!(create_alternative_path("t/2023/7/a.jpg"), "t/2023/7/a_new.jpg");
    assert_eq!(create_alternative_path("t/2023/7/a_new.jpg"), "t/2023/7/a_new_new.jpg");
    assert_eq!(create_alternative_path("a.b.jpg"), "a.b_new.jpg");
    assert_eq!(create_alternative_path("t/noext"), "t/noext_new");
    assert_eq!(create_alternative_path("t/.hidden"), "t/.hidden_new");
    assert_eq!(create_alternative_path("t/.hidden.png"), "t/.hidden_new.png");
    assert_eq!(create_alternative_path("t.d/a"), "t.d/a_new");
}

#[test]
fn create_alternative_path_always_adds_four_characters() {
    for path in ["", "a", "a.", "a.jpg", "d/", "d/.x", "d/ü.jpg", "..", "d.e/f.g.h"] {
        let alternative = create_alternative_path(path);
        assert_eq!(alternative.chars().count(), path.chars().count() + 4);
        assert_eq!(parent(&alternative), parent(path));
        assert_eq!(extension(&alternative), extension(path));
    }
}

#[test]
fn join_puts_one_separator_between() {
    assert_eq!(join("target", "2023"), "target/2023");
    assert_eq!(join("target/", "2023"), "target/2023");
    assert_eq!(join("", "2023"), "2023");
    assert_eq!(join("/", "2023"), "/2023");
}

#[test]
fn destination_path_is_target_year_month_name() {
    assert_eq!(
        destination_path("target", 2023, 7, "IMG_20230715_120000.jpg"),
        "target/2023/7/IMG_20230715_120000.jpg"
    );
    assert_eq!(
        destination_path("/media/sorted", 2019, 12, "/camera/roll/clip.mp4"),
        "/media/sorted/2019/12/clip.mp4"
    );
    assert_eq!(destination_path("out/", 2000, 1, "x.png"), "out/2000/1/x.png");
}

#[test]
fn destination_path_keeps_the_name_for_every_year_and_month() {
    for year in [1970, 1999, 2000, 2023, 9999] {
        for month in 1..=12u32 {
            let path = destination_path("target", year, month, "source/dir/pic.jpeg");
            assert_eq!(path, format!("target/{}/{}/pic.jpeg", year, month));
            assert_eq!(file_name(&path), "pic.jpeg");
            assert_eq!(parent(&path), format!("target/{}/{}", year, month));
        }
    }
}
