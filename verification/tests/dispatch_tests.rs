use plode_web_agent::dispatch::{
    file_name_of, join_path, on_message, on_reply, FsReply, FsRequest, Next, Pending, Step,
};
use plode_web_agent::listing::FsNode;
use plode_web_agent::models::FileResponse;

fn expect_query(step: Step) -> (Vec<String>, FsRequest, Pending) {
    match step.next {
        Next::Query { req, pending } => (step.frames, req, pending),
        _ => panic!("expected the dispatcher to hand out a request"),
    }
}

fn expect_idle(step: Step) -> Vec<String> {
    match step.next {
        Next::Idle => step.frames,
        _ => panic!("expected the dispatcher to go idle"),
    }
}

fn file_node(path: &str, filename: &str) -> FsNode {
    FsNode {
        info: FileResponse {
            filename: filename.to_string(),
            filetype: "ino".to_string(),
            path: path.to_string(),
            size: 2,
            last_modified: "2024-01-01 00:00:00".to_string(),
            created: "2024-01-01 00:00:00".to_string(),
            is_dir: false,
            is_file: true,
        },
        readable: true,
        children: Vec::new(),
    }
}

#[test]
fn version_is_a_single_frame() {
    let frames = expect_idle(on_message("\"version\""));
    assert_eq!(frames, vec!["\"0.1.3\"".to_string()]);
}

#[test]
fn help_is_a_single_frame() {
    let frames = expect_idle(on_message("\"help\""));
    assert_eq!(frames, vec!["\"Available commands: list, rm, add\"".to_string()]);
}

#[test]
fn exit_ends_the_session_without_frames() {
    let step = on_message("\"exit\"");
    assert!(step.frames.is_empty());
    assert!(matches!(step.next, Next::Exit));
}

#[test]
fn unknown_is_echoed_with_marker_then_terminator() {
    let frames = expect_idle(on_message("\"ping\""));
    assert_eq!(frames, vec!["\"ping\"test".to_string(), "\"END\"".to_string()]);
}

#[test]
fn mount_found() {
    let (frames, req, pending) = expect_query(on_message("\"mount\""));
    assert!(frames.is_empty());
    assert!(matches!(req, FsRequest::ResolveMount));
    let frames = expect_idle(on_reply(
        pending,
        FsReply::Mount { mount: Some("/Volumes/DEV".to_string()) },
    ));
    assert_eq!(
        frames,
        vec![
            "\"Device VID:0xb1b0 PID:0x8055 is mounted at: /Volumes/DEV\"".to_string(),
            "\"END\"".to_string(),
        ]
    );
}

#[test]
fn mount_missing() {
    let (_, _, pending) = expect_query(on_message("\"mount\""));
    let frames = expect_idle(on_reply(pending, FsReply::Mount { mount: None }));
    assert_eq!(
        frames,
        vec![
            "\"Device VID:0xb1b0 PID:0x8055 not found or not mounted\"".to_string(),
            "\"END\"".to_string(),
        ]
    );
}

#[test]
fn add_then_open_round_trips_through_base64() {
    // The add: two bytes, 104 and 105, written to sketch.ino on the device.
    let msg = "\"add --name \\\"sketch\\\" --format \\\"ino\\\" --data \\\"\\\"\\\"104,105\\\"\\\"\\\"\"";
    let (frames, req, pending) = expect_query(on_message(msg));
    assert!(frames.is_empty());
    assert!(matches!(req, FsRequest::ResolveMount));

    let (frames, req, pending) = expect_query(on_reply(
        pending,
        FsReply::Mount { mount: Some("/mnt".to_string()) },
    ));
    assert!(frames.is_empty());
    match &req {
        FsRequest::CheckExists { path } => assert_eq!(path, "/mnt"),
        _ => panic!("expected the directory check"),
    }

    let (frames, req, pending) = expect_query(on_reply(pending, FsReply::Exists { yes: true }));
    assert!(frames.is_empty());
    let written = match req {
        FsRequest::WriteFile { path, data } => {
            assert_eq!(path, "/mnt/sketch.ino");
            assert_eq!(data, vec![104u8, 105]);
            data
        }
        _ => panic!("expected the write"),
    };

    let frames = expect_idle(on_reply(pending, FsReply::Written { result: Ok(()) }));
    assert_eq!(
        frames,
        vec![
            "\"File created successfully at /mnt/sketch.ino\"".to_string(),
            "\"END\"".to_string(),
        ]
    );

    // The open: the same file read back is reported as base64 aGk= ("hi").
    let (frames, req, pending) = expect_query(on_message("\"open --loc \\\"/mnt/sketch.ino\\\"\""));
    assert!(frames.is_empty());
    match &req {
        FsRequest::CheckExists { path } => assert_eq!(path, "/mnt/sketch.ino"),
        _ => panic!("expected the existence check"),
    }

    let (frames, req, pending) = expect_query(on_reply(pending, FsReply::Exists { yes: true }));
    assert_eq!(
        frames,
        vec!["\"File at location '/mnt/sketch.ino' opened successfully\"".to_string()]
    );
    assert!(matches!(req, FsRequest::ReadFile { .. }));

    let frames = expect_idle(on_reply(pending, FsReply::FileData { result: Ok(written) }));
    assert_eq!(
        frames,
        vec!["\"File base64: aGk=\"".to_string(), "\"END\"".to_string()]
    );
}

#[test]
fn rm_missing_file_reports_not_found_and_session_continues() {
    let (_, _, pending) = expect_query(on_message("\"rm --name \\\"missing.txt\\\"\""));
    let (frames, req, pending) = expect_query(on_reply(
        pending,
        FsReply::Mount { mount: Some("/mnt".to_string()) },
    ));
    assert!(frames.is_empty());
    match &req {
        FsRequest::CheckExists { path } => assert_eq!(path, "/mnt/missing.txt"),
        _ => panic!("expected the existence check"),
    }
    let frames = expect_idle(on_reply(pending, FsReply::Exists { yes: false }));
    assert_eq!(frames, vec!["\"File not found\"".to_string(), "\"END\"".to_string()]);

    // The session stays alive for the next command.
    let frames = expect_idle(on_message("\"version\""));
    assert_eq!(frames, vec!["\"0.1.3\"".to_string()]);
}

#[test]
fn add_without_data_is_rejected_and_nothing_is_written() {
    let step = on_message("\"add --name \\\"x\\\" --format \\\"y\\\"\"");
    // The step asks for nothing: no filesystem request, so no file appears.
    let frames = expect_idle(step);
    assert_eq!(frames.len(), 2);
    assert!(frames[0].starts_with("\"Invalid add command format"));
    assert_eq!(frames[1], "\"END\"");
}

#[test]
fn list_then_rm_against_a_populated_mount() {
    // The listing.
    let (frames, req, pending) = expect_query(on_message("\"list\""));
    assert!(frames.is_empty());
    assert!(matches!(req, FsRequest::ResolveMount));

    let (frames, req, pending) = expect_query(on_reply(
        pending,
        FsReply::Mount { mount: Some("/mnt".to_string()) },
    ));
    assert_eq!(
        frames,
        vec![
            "\"Device VID:0xb1b0 PID:0x8055 is mounted at: /mnt\"".to_string(),
            "\"Listing contents of: /mnt\"".to_string(),
        ]
    );
    assert!(matches!(req, FsRequest::CheckDir { .. }));

    let (frames, req, pending) = expect_query(on_reply(pending, FsReply::IsDir { yes: true }));
    assert!(frames.is_empty());
    match &req {
        FsRequest::ListDir { path } => assert_eq!(path, "/mnt"),
        _ => panic!("expected the listing request"),
    }

    let nodes = vec![file_node("/mnt/sketch.ino", "sketch.ino")];
    let frames = expect_idle(on_reply(pending, FsReply::Listing { nodes: Some(nodes) }));
    assert_eq!(
        frames,
        vec!["\"File: /mnt/sketch.ino\"".to_string(), "\"END\"".to_string()]
    );

    // The removal.
    let (_, _, pending) = expect_query(on_message("\"rm --name \\\"sketch.ino\\\"\""));
    let (frames, req, pending) = expect_query(on_reply(
        pending,
        FsReply::Mount { mount: Some("/mnt".to_string()) },
    ));
    assert!(frames.is_empty());
    match &req {
        FsRequest::CheckExists { path } => assert_eq!(path, "/mnt/sketch.ino"),
        _ => panic!("expected the existence check"),
    }
    let (frames, req, pending) = expect_query(on_reply(pending, FsReply::Exists { yes: true }));
    assert!(frames.is_empty());
    match &req {
        FsRequest::RemoveFile { path } => assert_eq!(path, "/mnt/sketch.ino"),
        _ => panic!("expected the removal"),
    }
    let frames = expect_idle(on_reply(pending, FsReply::Removed { result: Ok(()) }));
    assert_eq!(
        frames,
        vec!["\"File removed successfully\"".to_string(), "\"END\"".to_string()]
    );
}

#[test]
fn list_with_path_narrows_the_root() {
    let (_, _, pending) = expect_query(on_message("\"list --path \\\"projects\\\"\""));
    let (frames, req, _) = expect_query(on_reply(
        pending,
        FsReply::Mount { mount: Some("/mnt".to_string()) },
    ));
    assert_eq!(frames[1], "\"Listing contents of: /mnt/projects\"");
    match &req {
        FsRequest::CheckDir { path } => assert_eq!(path, "/mnt/projects"),
        _ => panic!("expected the directory check"),
    }
}

#[test]
fn list_root_that_is_no_directory() {
    let (_, _, pending) = expect_query(on_message("\"list --path \\\"gone\\\"\""));
    let (_, _, pending) = expect_query(on_reply(
        pending,
        FsReply::Mount { mount: Some("/mnt".to_string()) },
    ));
    let frames = expect_idle(on_reply(pending, FsReply::IsDir { yes: false }));
    assert_eq!(
        frames,
        vec!["\"Directory not found: /mnt/gone\"".to_string(), "\"END\"".to_string()]
    );
}

#[test]
fn list_unreadable_root() {
    let (_, _, pending) = expect_query(on_message("\"list\""));
    let (_, _, pending) = expect_query(on_reply(
        pending,
        FsReply::Mount { mount: Some("/mnt".to_string()) },
    ));
    let (_, _, pending) = expect_query(on_reply(pending, FsReply::IsDir { yes: true }));
    let frames = expect_idle(on_reply(pending, FsReply::Listing { nodes: None }));
    assert_eq!(
        frames,
        vec!["\"Error reading directory: /mnt\"".to_string(), "\"END\"".to_string()]
    );
}

#[test]
fn open_missing_file() {
    let (_, _, pending) = expect_query(on_message("\"open --loc \\\"/mnt/none\\\"\""));
    let frames = expect_idle(on_reply(pending, FsReply::Exists { yes: false }));
    assert_eq!(
        frames,
        vec![
            "\"File not found at the specified location\"".to_string(),
            "\"END\"".to_string(),
        ]
    );
}

#[test]
fn invalid_open_and_rm_responses() {
    let frames = expect_idle(on_message("\"open nowhere\""));
    assert_eq!(
        frames,
        vec!["\"Invalid open command format\"".to_string(), "\"END\"".to_string()]
    );
    let frames = expect_idle(on_message("\"rm nothing\""));
    assert_eq!(
        frames,
        vec!["\"Invalid rm command format\"".to_string(), "\"END\"".to_string()]
    );
}

#[test]
fn add_creates_the_directory_when_absent() {
    let msg = "\"add --name \\\"x\\\" --format \\\"txt\\\" --path \\\"notes\\\" --data \\\"\\\"\\\"65\\\"\\\"\\\"\"";
    let (_, _, pending) = expect_query(on_message(msg));
    let (_, req, pending) = expect_query(on_reply(
        pending,
        FsReply::Mount { mount: Some("/mnt".to_string()) },
    ));
    match &req {
        FsRequest::CheckExists { path } => assert_eq!(path, "/mnt/notes"),
        _ => panic!("expected the directory check"),
    }
    let (frames, req, pending) = expect_query(on_reply(pending, FsReply::Exists { yes: false }));
    assert!(frames.is_empty());
    match &req {
        FsRequest::CreateDirAll { path } => assert_eq!(path, "/mnt/notes"),
        _ => panic!("expected the directory creation"),
    }
    let (frames, req, pending) = expect_query(on_reply(pending, FsReply::Created { result: Ok(()) }));
    assert_eq!(frames, vec!["\"Created directory path\"".to_string()]);
    match &req {
        FsRequest::WriteFile { path, data } => {
            assert_eq!(path, "/mnt/notes/x.txt");
            assert_eq!(data, &vec![65u8]);
        }
        _ => panic!("expected the write"),
    }
    let frames = expect_idle(on_reply(pending, FsReply::Written { result: Ok(()) }));
    assert_eq!(
        frames,
        vec![
            "\"File created successfully at /mnt/notes/x.txt\"".to_string(),
            "\"END\"".to_string(),
        ]
    );
}

#[test]
fn add_when_device_is_absent() {
    let msg = "\"add --name \\\"x\\\" --format \\\"txt\\\" --data \\\"\\\"\\\"65\\\"\\\"\\\"\"";
    let (_, _, pending) = expect_query(on_message(msg));
    let frames = expect_idle(on_reply(pending, FsReply::Mount { mount: None }));
    assert_eq!(
        frames,
        vec!["\"Device not found or not mounted\"".to_string(), "\"END\"".to_string()]
    );
}

#[test]
fn rm_that_fails_reports_the_error() {
    let (_, _, pending) = expect_query(on_message("\"rm --path \\\"/mnt/locked\\\"\""));
    let (_, _, pending) = expect_query(on_reply(
        pending,
        FsReply::Mount { mount: Some("/mnt".to_string()) },
    ));
    let (_, _, pending) = expect_query(on_reply(pending, FsReply::Exists { yes: true }));
    let frames = expect_idle(on_reply(
        pending,
        FsReply::Removed { result: Err("permission denied".to_string()) },
    ));
    assert_eq!(
        frames,
        vec![
            "\"Failed to remove file: permission denied\"".to_string(),
            "\"END\"".to_string(),
        ]
    );
}

#[test]
fn open_read_failure_reports_the_error() {
    let (_, _, pending) = expect_query(on_message("\"open --loc \\\"/mnt/x\\\"\""));
    let (_, _, pending) = expect_query(on_reply(pending, FsReply::Exists { yes: true }));
    let frames = expect_idle(on_reply(
        pending,
        FsReply::FileData { result: Err("device gone".to_string()) },
    ));
    assert_eq!(
        frames,
        vec![
            "\"Failed to read file data: device gone\"".to_string(),
            "\"END\"".to_string(),
        ]
    );
}

#[test]
fn add_directory_creation_failure_stops_the_write() {
    let msg = "\"add --name \\\"x\\\" --format \\\"txt\\\" --path \\\"deep\\\" --data \\\"\\\"\\\"65\\\"\\\"\\\"\"";
    let (_, _, pending) = expect_query(on_message(msg));
    let (_, _, pending) = expect_query(on_reply(
        pending,
        FsReply::Mount { mount: Some("/mnt".to_string()) },
    ));
    let (_, _, pending) = expect_query(on_reply(pending, FsReply::Exists { yes: false }));
    let frames = expect_idle(on_reply(
        pending,
        FsReply::Created { result: Err("read-only filesystem".to_string()) },
    ));
    assert_eq!(
        frames,
        vec![
            "\"Failed to create directory path: read-only filesystem\"".to_string(),
            "\"END\"".to_string(),
        ]
    );
}

#[test]
fn add_write_failure_reports_the_error() {
    let msg = "\"add --name \\\"x\\\" --format \\\"txt\\\" --data \\\"\\\"\\\"65\\\"\\\"\\\"\"";
    let (_, _, pending) = expect_query(on_message(msg));
    let (_, _, pending) = expect_query(on_reply(
        pending,
        FsReply::Mount { mount: Some("/mnt".to_string()) },
    ));
    let (_, _, pending) = expect_query(on_reply(pending, FsReply::Exists { yes: true }));
    let frames = expect_idle(on_reply(
        pending,
        FsReply::Written { result: Err("no space left".to_string()) },
    ));
    assert_eq!(
        frames,
        vec!["\"Failed to write file: no space left\"".to_string(), "\"END\"".to_string()]
    );
}

#[test]
fn join_path_rules() {
    assert_eq!(join_path("/mnt", "a/b"), "/mnt/a/b");
    assert_eq!(join_path("E:/", "a"), "E:/a");
    assert_eq!(join_path("/mnt", "/abs"), "/abs");
    assert_eq!(file_name_of("sketch", "ino"), "sketch.ino");
}
