use drawio_filter::paths::{url_extension_is, with_extension};

#[test]
fn extension_matches_exactly() {
    assert!(url_extension_is(&String::from("dir/a.drawio"), "drawio"));
    assert!(url_extension_is(&String::from("a.drawio"), "drawio"));
    assert!(!url_extension_is(&String::from("a.svg"), "drawio"));
    assert!(!url_extension_is(&String::from("a.DRAWIO"), "drawio"));
    assert!(!url_extension_is(&String::from("drawio"), "drawio"));
}

#[test]
fn leading_dot_is_not_an_extension() {
    assert!(!url_extension_is(&String::from(".drawio"), "drawio"));
    assert!(!url_extension_is(&String::from("dir/.drawio"), "drawio"));
}

#[test]
fn dot_in_directory_is_not_an_extension() {
    assert!(!url_extension_is(&String::from("a.b/c"), "drawio"));
}

#[test]
fn with_extension_replaces_the_extension() {
    assert_eq!(with_extension(&String::from("dir/a.drawio"), "svg"), "dir/a.svg");
    assert_eq!(with_extension(&String::from("a.drawio"), "pdf"), "a.pdf");
    assert_eq!(with_extension(&String::from("a.b.drawio"), "svg"), "a.b.svg");
}

#[test]
fn with_extension_appends_when_there_is_none() {
    assert_eq!(with_extension(&String::from("README"), "svg"), "README.svg");
    assert_eq!(with_extension(&String::from(".drawio"), "svg"), ".drawio.svg");
    assert_eq!(with_extension(&String::from("a.b/c"), "pdf"), "a.b/c.pdf");
}

#[test]
fn trailing_separator_means_no_file_name() {
    assert!(!url_extension_is(&String::from("a.drawio/"), "drawio"));
    assert_eq!(with_extension(&String::from("a.drawio/"), "svg"), "a.drawio/.svg");
}
