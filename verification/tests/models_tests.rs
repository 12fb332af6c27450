use plode_web_agent::models::{
    command_outcome, create_error_response, create_success_response, extract_required_fields,
    extract_string_field, library_upload_response, tool_outcome, zip_file_name,
};

#[test]
fn string_field_lookup_finds_the_first_match() {
    let fields = vec![
        ("sketch_name".to_string(), "blink".to_string()),
        ("file_name".to_string(), "blink.ino".to_string()),
    ];
    assert_eq!(extract_string_field(&fields, "file_name").as_deref(), Some("blink.ino"));
    assert!(extract_string_field(&fields, "port").is_none());
}

#[test]
fn required_fields_in_order_or_first_missing() {
    let fields = vec![
        ("sketch_name".to_string(), "blink".to_string()),
        ("file_name".to_string(), "blink.ino".to_string()),
    ];
    let names = vec!["sketch_name".to_string(), "file_name".to_string()];
    assert_eq!(
        extract_required_fields(&fields, &names),
        Ok(vec!["blink".to_string(), "blink.ino".to_string()])
    );
    let names = vec!["sketch_name".to_string(), "port".to_string(), "gone".to_string()];
    assert_eq!(
        extract_required_fields(&fields, &names),
        Err("Missing port".to_string())
    );
}

#[test]
fn error_response_fields() {
    let r = create_error_response("Missing sketch name", "create-sketch", vec![]);
    assert!(!r.success);
    assert_eq!(r.output, "");
    assert!(r.output_json.is_none());
    assert!(r.files.is_none());
    assert_eq!(r.error.as_deref(), Some("Missing sketch name"));
    assert_eq!(r.command, "create-sketch");
    assert!(r.args.is_empty());
}

#[test]
fn success_response_fields() {
    let r = create_success_response(
        "/mnt".to_string(),
        "list-mount",
        vec!["/mnt".to_string()],
        None,
    );
    assert!(r.success);
    assert_eq!(r.output, "/mnt");
    assert!(r.error.is_none());
    assert_eq!(r.command, "list-mount");
    assert_eq!(r.args, vec!["/mnt".to_string()]);
}

#[test]
fn command_outcome_reports_error_text_only_when_present() {
    let r = command_outcome(
        true,
        "done".to_string(),
        String::new(),
        "compile".to_string(),
        vec![],
    );
    assert!(r.success);
    assert_eq!(r.output, "done");
    assert!(r.error.is_none());

    let r = command_outcome(
        false,
        String::new(),
        "boom".to_string(),
        "compile".to_string(),
        vec!["x".to_string()],
    );
    assert!(!r.success);
    assert_eq!(r.error.as_deref(), Some("boom"));
    assert_eq!(r.args, vec!["x".to_string()]);
}

#[test]
fn command_outcome_parses_json_output_when_it_is_json() {
    let r = command_outcome(
        true,
        "{\"boards\": []}".to_string(),
        String::new(),
        "board".to_string(),
        vec![],
    );
    assert!(r.output_json.is_some());

    let r = command_outcome(
        true,
        "plain text".to_string(),
        String::new(),
        "board".to_string(),
        vec![],
    );
    assert!(r.output_json.is_none());
}

#[test]
fn tool_outcome_keeps_output_or_prefixes_the_error() {
    assert_eq!(
        tool_outcome(true, "ok\n".to_string(), String::new(), "Error ejecting USB device: "),
        Ok("ok\n".to_string())
    );
    assert_eq!(
        tool_outcome(
            false,
            String::new(),
            "no such disk".to_string(),
            "Error ejecting USB device: "
        ),
        Err("Error ejecting USB device: no such disk".to_string())
    );
}

#[test]
fn upload_names_and_message() {
    assert_eq!(zip_file_name("Servo"), "Servo.zip");
    let r = library_upload_response("Servo".to_string(), Some("/tmp/Servo.zip".to_string()));
    assert!(r.success);
    assert_eq!(r.message, "Library 'Servo' uploaded successfully");
    assert_eq!(r.library_name, "Servo");
    assert_eq!(r.file_path.as_deref(), Some("/tmp/Servo.zip"));
}
