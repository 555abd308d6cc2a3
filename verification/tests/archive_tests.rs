use image_compressor::archive::archive_complete_message;
use image_compressor::archive::archive_error_message;
use image_compressor::archive::archive_path;
use image_compressor::archive::archive_total_message;
use image_compressor::archive::archiving_complete_message;
use image_compressor::archive::compress_a_dir_to_7z;
use image_compressor::archive::dirs_to_archive;
use image_compressor::archive::get_7z_executable_path;
use image_compressor::error::CompressError;
use image_compressor::error::FailureKind;
use image_compressor::path::PathItem;

fn p(text: &str) -> PathItem {
    PathItem::from_components(text.split('/').filter(|s| !s.is_empty()).map(|s| s.to_string()).collect())
}

#[test]
fn executable_by_operating_system() {
    assert_eq!(get_7z_executable_path("macos").unwrap(), "./7zz");
    assert_eq!(get_7z_executable_path("windows").unwrap(), "7z.exe");
    assert_eq!(get_7z_executable_path("linux").unwrap(), "./7zzs");
    let e = get_7z_executable_path("freebsd").unwrap_err();
    assert_eq!(e.kind, FailureKind::NotFound);
    assert_eq!(e.to_string(), "Cannot find the 7z executable!");
    assert!(get_7z_executable_path("").is_err());
    assert!(get_7z_executable_path("Linux").is_err());
}

#[test]
fn archive_goes_where_the_directory_is_under_the_root() {
    assert_eq!(
        archive_path(&p("test_origin/original_images"), &p("test_dest"), &p("test_origin")).components,
        p("test_dest/original_images.7z").components
    );
    assert_eq!(
        archive_path(&p("root/a/b"), &p("out"), &p("root")).components,
        p("out/a/b.7z").components
    );
    assert_eq!(archive_path(&p("root"), &p("out"), &p("root")).components, p("out.7z").components);
    assert_eq!(archive_path(&p("root"), &p(""), &p("root")).components, p(".7z").components);
    assert_eq!(archive_path(&p("r/photos.2024"), &p("o"), &p("r")).components, p("o/photos.2024.7z").components);
    // a directory outside the root keeps its whole path
    assert_eq!(
        archive_path(&p("other/a"), &p("out"), &p("root")).components,
        p("out/other/a.7z").components
    );
}

#[test]
fn lib_compress_folder_to_7z_test() {
    let command = compress_a_dir_to_7z(
        &p("test_origin5/original_images"),
        &p("test_dest5"),
        &p("test_origin5"),
        "linux",
        false,
        false,
    )
    .unwrap();
    assert_eq!(command.program, "./7zzs");
    assert_eq!(command.options, vec!["a".to_string(), "-mx=9".to_string(), "-t7z".to_string()]);
    assert_eq!(command.archive.components, p("test_dest5/original_images.7z").components);
    assert_eq!(command.source.components, p("test_origin5/original_images").components);
}

#[test]
fn existing_archive_is_not_replaced() {
    let e = compress_a_dir_to_7z(&p("r/a"), &p("d"), &p("r"), "linux", true, false).unwrap_err();
    assert_eq!(e.kind, FailureKind::AlreadyExists);
    assert_eq!(e.to_string(), "The 7z archive file already exists!");
    let e = compress_a_dir_to_7z(&p("r/a"), &p("d"), &p("r"), "linux", false, true).unwrap_err();
    assert_eq!(e.kind, FailureKind::AlreadyExists);
    assert_eq!(e.to_string(), "The 7z file is already existed! Abort archiving.");
    let e = compress_a_dir_to_7z(&p("r/a"), &p("d"), &p("r"), "linux", true, true).unwrap_err();
    assert_eq!(e.to_string(), "The 7z archive file already exists!");
    // an existing archive is told as such on every system
    let e = compress_a_dir_to_7z(&p("r/a"), &p("d"), &p("r"), "plan9", true, true).unwrap_err();
    assert_eq!(e.kind, FailureKind::AlreadyExists);
    let e = compress_a_dir_to_7z(&p("r/a"), &p("d"), &p("r"), "plan9", false, true).unwrap_err();
    assert_eq!(e.kind, FailureKind::AlreadyExists);
    let e = compress_a_dir_to_7z(&p("r/a"), &p("d"), &p("r"), "plan9", false, false).unwrap_err();
    assert_eq!(e.to_string(), "Cannot find the 7z executable!");
}

#[test]
fn archive_messages() {
    assert_eq!(archive_total_message(3), "Total archive directory count: 3");
    assert_eq!(archive_total_message(0), "Total archive directory count: 0");
    assert_eq!(archive_complete_message("out/a"), "7z archiving complete: out/a");
    let e = CompressError::new(FailureKind::AlreadyExists, "The 7z archive file already exists!".to_string());
    assert_eq!(archive_error_message(&e), "7z archiving error occured!: The 7z archive file already exists!");
    assert_eq!(archiving_complete_message(), "Archiving Complete!");
}

#[test]
fn output_directories_are_matched_by_name() {
    let origins = vec![p("in/a"), p("in/b"), p("in/c"), p("in/..")];
    let outputs = vec![p("out/b"), p("out/x"), p("out/a"), p("elsewhere/b")];
    let found: Vec<Vec<String>> = dirs_to_archive(&origins, &outputs).into_iter().map(|d| d.components).collect();
    assert_eq!(found, vec![p("out/a").components, p("out/b").components, p("elsewhere/b").components]);
    let none: Vec<PathItem> = Vec::new();
    assert!(dirs_to_archive(&origins, &none).is_empty());
    assert!(dirs_to_archive(&none, &outputs).is_empty());
    // a name that occurs twice in the origin is taken twice
    let twice = vec![p("in/a"), p("other/a")];
    let found: Vec<Vec<String>> = dirs_to_archive(&twice, &outputs).into_iter().map(|d| d.components).collect();
    assert_eq!(found, vec![p("out/a").components, p("out/a").components]);
    // a path without a name matches nothing, not even another such path
    let nameless = vec![p("")];
    assert!(dirs_to_archive(&nameless, &nameless).is_empty());
}
