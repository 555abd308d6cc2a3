use image_compressor::folder::batch_complete_message;
use image_compressor::folder::dir_failure_message;
use image_compressor::error::CompressError;
use image_compressor::error::FailureKind;
use image_compressor::folder::file_complete_message;
use image_compressor::folder::file_failure_message;
use image_compressor::folder::total_count_message;
use image_compressor::folder::FolderCompressor;
use image_compressor::folder::WorkerStep;
use image_compressor::path::PathItem;
use image_compressor::queue::WorkQueue;

fn p(text: &str) -> PathItem {
    PathItem::from_components(text.split('/').filter(|s| !s.is_empty()).map(|s| s.to_string()).collect())
}

#[test]
fn queue_hands_out_in_order() {
    let mut q = WorkQueue::new();
    assert!(q.is_empty());
    assert!(q.try_pop().is_none());
    q.push(p("a/1"));
    q.push(p("a/2"));
    q.push(p("b/3"));
    assert!(!q.is_empty());
    assert_eq!(q.try_pop().unwrap().components, p("a/1").components);
    assert_eq!(q.try_pop().unwrap().components, p("a/2").components);
    assert!(!q.is_empty());
    assert_eq!(q.try_pop().unwrap().components, p("b/3").components);
    assert!(q.is_empty());
    assert!(q.try_pop().is_none());
    assert!(q.try_pop().is_none());
}

#[test]
fn queue_is_filled_from_a_list() {
    let files = vec![p("x"), p("y/z"), p("x")];
    let mut q = WorkQueue::filled(&files);
    assert_eq!(files.len(), 3);
    assert_eq!(q.try_pop().unwrap().components, p("x").components);
    assert_eq!(q.try_pop().unwrap().components, p("y/z").components);
    assert_eq!(q.try_pop().unwrap().components, p("x").components);
    assert!(q.try_pop().is_none());
    let none: Vec<PathItem> = Vec::new();
    assert!(WorkQueue::filled(&none).is_empty());
}

#[test]
fn each_item_is_handed_out_once() {
    let mut files = Vec::new();
    for i in 0..200 {
        files.push(p(&format!("root/d{}/f{}.jpg", i % 7, i)));
    }
    let queue = std::sync::Mutex::new(WorkQueue::filled(&files));
    let taken = std::sync::Mutex::new(Vec::new());
    crossbeam::thread::scope(|s| {
        for _ in 0..8 {
            s.spawn(|_| loop {
                let item = queue.lock().unwrap().try_pop();
                match item {
                    Some(item) => taken.lock().unwrap().push(item.components),
                    None => break,
                }
            });
        }
    })
    .unwrap();
    let mut taken = taken.into_inner().unwrap();
    taken.sort();
    let mut expected: Vec<Vec<String>> = files.into_iter().map(|f| f.components).collect();
    expected.sort();
    assert_eq!(taken, expected);
}

#[test]
fn jobs_mirror_the_input_directory() {
    let folder = FolderCompressor::new(p("home/me/in"), p("mnt/out"));
    let mut q = WorkQueue::filled(&vec![
        p("home/me/in/a/1.jpg"),
        p("home/me/in/2.png"),
        p("home/me/in/a/b/c/3.gif"),
        p("elsewhere/4.jpg"),
        p("home/me/in"),
        p(""),
    ]);
    match folder.next_job(&mut q) {
        WorkerStep::Job { input, dest_dir } => {
            assert_eq!(input.components, p("home/me/in/a/1.jpg").components);
            assert_eq!(dest_dir.components, p("mnt/out/a").components);
        }
        other => panic!("unexpected step {:?}", other),
    }
    match folder.next_job(&mut q) {
        WorkerStep::Job { input, dest_dir } => {
            assert_eq!(input.components, p("home/me/in/2.png").components);
            assert_eq!(dest_dir.components, p("mnt/out").components);
        }
        other => panic!("unexpected step {:?}", other),
    }
    match folder.next_job(&mut q) {
        WorkerStep::Job { input, dest_dir } => {
            assert_eq!(input.components, p("home/me/in/a/b/c/3.gif").components);
            assert_eq!(dest_dir.components, p("mnt/out/a/b/c").components);
        }
        other => panic!("unexpected step {:?}", other),
    }
    match folder.next_job(&mut q) {
        WorkerStep::Skipped { message } => assert_eq!(message, "Cannot strip the prefix of file 4.jpg"),
        other => panic!("unexpected step {:?}", other),
    }
    match folder.next_job(&mut q) {
        WorkerStep::Skipped { message } => assert_eq!(message, "Cannot strip the prefix of file in"),
        other => panic!("unexpected step {:?}", other),
    }
    match folder.next_job(&mut q) {
        WorkerStep::Skipped { message } => assert_eq!(message, "Cannot find the parent directory of file "),
        other => panic!("unexpected step {:?}", other),
    }
    assert!(matches!(folder.next_job(&mut q), WorkerStep::Finished));
    assert!(matches!(folder.next_job(&mut q), WorkerStep::Finished));
    assert!(q.is_empty());
}

#[test]
fn progress_messages() {
    assert_eq!(total_count_message(0), "Total file count: 0");
    assert_eq!(total_count_message(12), "Total file count: 12");
    assert_eq!(total_count_message(1_000_000), "Total file count: 1000000");
    assert_eq!(file_complete_message(&p("dest/a/1.jpg")), "Compress complete! File: 1.jpg");
    assert_eq!(file_complete_message(&p("")), "Compress complete! File: ");
    assert_eq!(dir_failure_message(&p("in/a/1.png")), "Cannot create the parent directory of file 1.png");
    assert_eq!(batch_complete_message(), "Compress complete!");
    let e = CompressError::new(FailureKind::Decode, "bad header".to_string());
    assert_eq!(file_failure_message(&p("in/a/1.png"), &e), "Cannot compress image file 1.png : bad header");
}
