use image_compressor::file_io::DataType;
use image_compressor::file_io::ProgramData;
use image_compressor::settings::ArchiveFormat;
use image_compressor::settings::ARCHIVE_DIR_KEY;
use image_compressor::settings::ARCHIVE_FORMAT_KEY;
use image_compressor::settings::DEFAULT_SAVE_FILE_PATH;
use image_compressor::settings::DELETE_ORIGIN_KEY;
use image_compressor::settings::DESTINATION_DIR_KEY;
use image_compressor::settings::ORIGIN_DIR_KEY;
use image_compressor::settings::THREAD_COUNT_KEY;
use image_compressor::settings::TO_ZIP_KEY;
use image_compressor::App;

fn make_dir_set() -> ProgramData {
    let mut dir_set = ProgramData::new();
    dir_set.set_data("origin", DataType::Directory(Some("test_origin".to_string())));
    dir_set.set_data("destination", DataType::Directory(Some("test_dest".to_string())));
    dir_set.set_data("archive", DataType::Directory(Some("test_archive".to_string())));
    dir_set
}

fn dir(data: &ProgramData, key: &str) -> Option<String> {
    match data.get_data(key) {
        Some(DataType::Directory(p)) => p.clone(),
        _ => None,
    }
}

#[test]
fn store_keeps_one_value_per_key() {
    let mut data = make_dir_set();
    assert_eq!(data.len(), 3);
    assert_eq!(dir(&data, "origin"), Some("test_origin".to_string()));
    assert_eq!(dir(&data, "destination"), Some("test_dest".to_string()));
    assert_eq!(dir(&data, "archive"), Some("test_archive".to_string()));
    assert!(data.get_data("missing").is_none());
    assert!(data.get_data("").is_none());
    assert!(data.get_data("Origin").is_none());
    data.set_data("origin", DataType::Directory(Some("elsewhere".to_string())));
    assert_eq!(data.len(), 3);
    assert_eq!(dir(&data, "origin"), Some("elsewhere".to_string()));
    assert_eq!(dir(&data, "destination"), Some("test_dest".to_string()));
    data.set_data("origin", DataType::Number(Some(-3)));
    assert_eq!(data.len(), 3);
    assert!(matches!(data.get_data("origin"), Some(DataType::Number(Some(-3)))));
    data.set_data("", DataType::Boolean(None));
    assert_eq!(data.len(), 4);
    assert!(matches!(data.get_data(""), Some(DataType::Boolean(None))));
    data.set_data("text", DataType::String(Some("7z".to_string())));
    assert!(matches!(data.get_data("text"), Some(DataType::String(Some(t))) if t == "7z"));
    assert_eq!(
        data.keys(),
        vec!["origin".to_string(), "destination".to_string(), "archive".to_string(), "".to_string(), "text".to_string()]
    );
    assert_eq!(data.keys().len(), data.len());
}

#[test]
fn empty_store() {
    let data = ProgramData::new();
    assert_eq!(data.len(), 0);
    assert!(data.keys().is_empty());
    assert!(data.get_data("origin").is_none());
    let data = ProgramData::default();
    assert_eq!(data.len(), 0);
}

#[test]
fn settings_are_restored_from_the_store() {
    let mut data = ProgramData::new();
    data.set_data(ORIGIN_DIR_KEY, DataType::Directory(Some("/in".to_string())));
    data.set_data(DESTINATION_DIR_KEY, DataType::Directory(Some("/out".to_string())));
    data.set_data(TO_ZIP_KEY, DataType::Boolean(Some(true)));
    data.set_data(THREAD_COUNT_KEY, DataType::Number(Some(6)));
    data.set_data(DELETE_ORIGIN_KEY, DataType::Boolean(Some(true)));
    data.set_data(ARCHIVE_FORMAT_KEY, DataType::String(Some("7z".to_string())));
    let mut app = App::default();
    assert!(!app.is_ui_enable);
    assert_eq!(app.thread_count, 0);
    app.setup(Some(data));
    assert_eq!(app.origin_dir, Some("/in".to_string()));
    assert_eq!(app.dest_dir, Some("/out".to_string()));
    assert_eq!(app.archive_dir, Some("".to_string()));
    assert!(app.to_zip);
    assert_eq!(app.thread_count, 6);
    assert!(app.to_del_origin_files);
    assert_eq!(app.archive_format, ArchiveFormat::SevenZ);
    assert!(app.is_ui_enable);
    assert_eq!(app.complete_file_list, vec!["Loading directory history complete!".to_string()]);
    assert_eq!(app.program_data.len(), 6);
}

#[test]
fn settings_without_a_store_are_the_defaults() {
    let mut app = App::default();
    app.setup(None);
    assert_eq!(app.origin_dir, Some("".to_string()));
    assert_eq!(app.dest_dir, Some("".to_string()));
    assert_eq!(app.archive_dir, Some("".to_string()));
    assert!(!app.to_zip);
    assert_eq!(app.thread_count, 1);
    assert!(!app.to_del_origin_files);
    assert_eq!(app.archive_format, ArchiveFormat::Zip);
    assert!(app.is_ui_enable);
    assert_eq!(
        app.complete_file_list,
        vec!["Cannot load directory save file!\nSet save file path with default.".to_string()]
    );
    assert_eq!(app.program_data.len(), 0);
}

#[test]
fn values_of_another_kind_count_as_missing() {
    let mut data = ProgramData::new();
    data.set_data(ORIGIN_DIR_KEY, DataType::String(Some("/in".to_string())));
    data.set_data(DESTINATION_DIR_KEY, DataType::Directory(None));
    data.set_data(TO_ZIP_KEY, DataType::Number(Some(1)));
    data.set_data(THREAD_COUNT_KEY, DataType::Boolean(Some(true)));
    data.set_data(DELETE_ORIGIN_KEY, DataType::Boolean(None));
    data.set_data(ARCHIVE_FORMAT_KEY, DataType::String(Some("rar".to_string())));
    let mut app = App::default();
    app.setup(Some(data));
    assert_eq!(app.origin_dir, Some("".to_string()));
    assert_eq!(app.dest_dir, Some("".to_string()));
    assert!(!app.to_zip);
    assert_eq!(app.thread_count, 1);
    assert!(!app.to_del_origin_files);
    assert_eq!(app.archive_format, ArchiveFormat::Zip);
}

#[test]
fn a_negative_thread_count_wraps() {
    let mut data = ProgramData::new();
    data.set_data(THREAD_COUNT_KEY, DataType::Number(Some(-1)));
    let mut app = App::default();
    app.setup(Some(data));
    assert_eq!(app.thread_count, u32::MAX);
}

#[test]
fn settings_are_written_back() {
    let mut app = App::default();
    app.setup(None);
    app.origin_dir = Some("/photos".to_string());
    app.dest_dir = None;
    app.archive_dir = Some("/zips".to_string());
    app.to_zip = true;
    app.thread_count = 8;
    app.to_del_origin_files = false;
    app.archive_format = ArchiveFormat::Xz;
    assert!(app.on_exit_event());
    let data = &app.program_data;
    assert_eq!(data.len(), 7);
    assert_eq!(dir(data, ORIGIN_DIR_KEY), Some("/photos".to_string()));
    assert_eq!(dir(data, DESTINATION_DIR_KEY), Some("".to_string()));
    assert_eq!(dir(data, ARCHIVE_DIR_KEY), Some("/zips".to_string()));
    assert!(matches!(data.get_data(TO_ZIP_KEY), Some(DataType::Boolean(Some(true)))));
    assert!(matches!(data.get_data(THREAD_COUNT_KEY), Some(DataType::Number(Some(8)))));
    assert!(matches!(data.get_data(DELETE_ORIGIN_KEY), Some(DataType::Boolean(Some(false)))));
    assert!(matches!(data.get_data(ARCHIVE_FORMAT_KEY), Some(DataType::String(Some(t))) if t == "xz"));
    // what was written is what is restored
    let mut again = App::default();
    let mut copy = ProgramData::new();
    for key in data.keys() {
        let value = match data.get_data(&key).unwrap() {
            DataType::Directory(p) => DataType::Directory(p.clone()),
            DataType::Number(n) => DataType::Number(*n),
            DataType::Boolean(b) => DataType::Boolean(*b),
            DataType::String(s) => DataType::String(s.clone()),
        };
        copy.set_data(&key, value);
    }
    again.setup(Some(copy));
    assert_eq!(again.origin_dir, Some("/photos".to_string()));
    assert_eq!(again.dest_dir, Some("".to_string()));
    assert_eq!(again.archive_dir, Some("/zips".to_string()));
    assert!(again.to_zip);
    assert_eq!(again.thread_count, 8);
    assert_eq!(again.archive_format, ArchiveFormat::Xz);
}

#[test]
fn compress_needs_its_directories() {
    let mut app = App::default();
    assert!(!app.can_compress());
    app.origin_dir = Some("/in".to_string());
    assert!(!app.can_compress());
    app.dest_dir = Some("".to_string());
    assert!(!app.can_compress());
    app.dest_dir = Some("/out".to_string());
    assert!(app.can_compress());
    app.to_zip = true;
    assert!(!app.can_compress());
    app.archive_dir = Some("".to_string());
    assert!(!app.can_compress());
    app.archive_dir = Some("/zip".to_string());
    assert!(app.can_compress());
    app.origin_dir = None;
    assert!(!app.can_compress());
}

#[test]
fn status_shows_the_newest_message_first() {
    let mut app = App::default();
    assert_eq!(app.status_text(), "");
    app.receive("Total file count: 2".to_string());
    assert_eq!(app.status_text(), "Total file count: 2\n");
    app.receive("Compress complete! File: 1.jpg".to_string());
    app.receive("Compress complete!".to_string());
    assert_eq!(
        app.status_text(),
        "Compress complete!\nCompress complete! File: 1.jpg\nTotal file count: 2\n"
    );
    assert_eq!(app.complete_file_list.len(), 3);
}

#[test]
fn names_and_formats() {
    let app = App::default();
    assert_eq!(app.name(), "Image Compressor");
    assert_eq!(DEFAULT_SAVE_FILE_PATH, "data/history.json");
    assert_eq!(ArchiveFormat::from_text("zip"), ArchiveFormat::Zip);
    assert_eq!(ArchiveFormat::from_text("xz"), ArchiveFormat::Xz);
    assert_eq!(ArchiveFormat::from_text("7z"), ArchiveFormat::SevenZ);
    assert_eq!(ArchiveFormat::from_text(""), ArchiveFormat::Zip);
    assert_eq!(ArchiveFormat::from_text("XZ"), ArchiveFormat::Zip);
    assert_eq!(ArchiveFormat::Zip.to_text(), "zip");
    assert_eq!(ArchiveFormat::Xz.to_text(), "xz");
    assert_eq!(ArchiveFormat::SevenZ.to_text(), "7z");
}
