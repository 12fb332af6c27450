use plode_web_agent::dispatch::listing_frames;
use plode_web_agent::listing::{list_directory_recursive, FsNode};
use plode_web_agent::models::FileResponse;

fn info(path: &str, name: &str, is_dir: bool) -> FileResponse {
    FileResponse {
        filename: name.to_string(),
        filetype: if is_dir { String::new() } else { "txt".to_string() },
        path: path.to_string(),
        size: if is_dir { 0 } else { 3 },
        last_modified: "2024-01-01 00:00:00".to_string(),
        created: "2024-01-01 00:00:00".to_string(),
        is_dir,
        is_file: !is_dir,
    }
}

fn file(path: &str, name: &str) -> FsNode {
    FsNode { info: info(path, name, false), readable: true, children: Vec::new() }
}

fn dir(path: &str, name: &str, children: Vec<FsNode>) -> FsNode {
    FsNode { info: info(path, name, true), readable: true, children }
}

fn sample() -> Vec<FsNode> {
    vec![
        file("/mnt/a.txt", "a.txt"),
        dir(
            "/mnt/sub",
            "sub",
            vec![file("/mnt/sub/b.txt", "b.txt"), file("/mnt/sub/c.txt", "c.txt")],
        ),
        file("/mnt/d.txt", "d.txt"),
    ]
}

#[test]
fn listing_inlines_directory_contents_after_the_directory() {
    let entries = list_directory_recursive(&sample());
    let paths: Vec<&str> = entries.iter().map(|e| e.path.as_str()).collect();
    assert_eq!(
        paths,
        vec!["/mnt/a.txt", "/mnt/sub", "/mnt/sub/b.txt", "/mnt/sub/c.txt", "/mnt/d.txt"]
    );
}

#[test]
fn adding_a_file_grows_the_listing_by_exactly_one() {
    let before = list_directory_recursive(&sample()).len();
    let mut nodes = sample();
    nodes.insert(1, file("/mnt/new.txt", "new.txt"));
    let after = list_directory_recursive(&nodes);
    assert_eq!(after.len(), before + 1);
    let paths: Vec<&str> = after.iter().map(|e| e.path.as_str()).collect();
    assert_eq!(
        paths,
        vec![
            "/mnt/a.txt",
            "/mnt/new.txt",
            "/mnt/sub",
            "/mnt/sub/b.txt",
            "/mnt/sub/c.txt",
            "/mnt/d.txt",
        ]
    );
}

#[test]
fn removing_a_file_shrinks_the_listing_by_exactly_one() {
    let mut nodes = sample();
    let before: Vec<String> = list_directory_recursive(&nodes)
        .into_iter()
        .map(|e| e.path)
        .collect();
    nodes.remove(2);
    let after: Vec<String> = list_directory_recursive(&nodes)
        .into_iter()
        .map(|e| e.path)
        .collect();
    assert_eq!(after.len() + 1, before.len());
    assert_eq!(
        after,
        vec!["/mnt/a.txt", "/mnt/sub", "/mnt/sub/b.txt", "/mnt/sub/c.txt"]
    );
}

#[test]
fn unreadable_directory_keeps_its_entry_and_skips_its_contents() {
    let mut sub = dir("/mnt/sub", "sub", vec![file("/mnt/sub/b.txt", "b.txt")]);
    sub.readable = false;
    let nodes = vec![sub, file("/mnt/d.txt", "d.txt")];
    let entries = list_directory_recursive(&nodes);
    let paths: Vec<&str> = entries.iter().map(|e| e.path.as_str()).collect();
    assert_eq!(paths, vec!["/mnt/sub", "/mnt/d.txt"]);
}

#[test]
fn listing_frames_follow_traversal_order() {
    let frames = listing_frames(&sample());
    assert_eq!(
        frames,
        vec![
            "\"File: /mnt/a.txt\"".to_string(),
            "\"Directory: /mnt/sub\"".to_string(),
            "\"File: /mnt/sub/b.txt\"".to_string(),
            "\"File: /mnt/sub/c.txt\"".to_string(),
            "\"File: /mnt/d.txt\"".to_string(),
        ]
    );
}

#[test]
fn listing_frames_report_an_unreadable_directory() {
    let mut sub = dir("/mnt/sub", "sub", vec![file("/mnt/sub/b.txt", "b.txt")]);
    sub.readable = false;
    let frames = listing_frames(&vec![sub]);
    assert_eq!(
        frames,
        vec![
            "\"Directory: /mnt/sub\"".to_string(),
            "\"Error reading directory: /mnt/sub\"".to_string(),
        ]
    );
}
