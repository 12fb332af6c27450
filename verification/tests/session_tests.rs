use plode_web_agent::fileops::{prepare_file_write, read_file_data_as_base64};
use plode_web_agent::session::{is_device_connected, is_exit_sentinel, log_tail, poll_transition};

#[test]
fn poller_emits_only_on_transitions() {
    assert_eq!(poll_transition(None, true), (Some(true), Some(true)));
    assert_eq!(poll_transition(Some(true), true), (None, Some(true)));
    assert_eq!(poll_transition(Some(true), false), (Some(false), Some(false)));
    assert_eq!(poll_transition(Some(false), false), (None, Some(false)));
    assert_eq!(poll_transition(None, false), (Some(false), Some(false)));
}

#[test]
fn connected_port_is_found_in_the_probe_list() {
    let ports = vec!["/dev/ttyUSB0".to_string(), "/dev/ttyACM1".to_string()];
    assert!(is_device_connected("/dev/ttyACM1", &ports));
    assert!(!is_device_connected("/dev/ttyACM2", &ports));
    assert!(!is_device_connected("/dev/ttyACM1", &Vec::new()));
}

#[test]
fn exit_sentinel_is_matched_after_trimming() {
    assert!(is_exit_sentinel("{\"text\":\"exit\"}"));
    assert!(is_exit_sentinel("  {\"text\":\"exit\"}\n"));
    assert!(!is_exit_sentinel("{\"text\":\"quit\"}"));
    assert!(!is_exit_sentinel("exit"));
}

#[test]
fn log_tail_relays_the_lines_past_the_position() {
    let content = "first\nsecond\nthird\n";
    assert_eq!(
        log_tail(content, 0),
        vec!["first".to_string(), "second".to_string(), "third".to_string()]
    );
    assert_eq!(
        log_tail(content, 6),
        vec!["second".to_string(), "third".to_string()]
    );
    assert_eq!(log_tail(content, content.len()), Vec::<String>::new());
    assert_eq!(log_tail(content, content.len() + 50), Vec::<String>::new());
}

#[test]
fn log_tail_drops_blank_lines() {
    assert_eq!(
        log_tail("one\n\n   \ntwo\n", 0),
        vec!["one".to_string(), "two".to_string()]
    );
}

#[test]
fn write_preparation_decodes_base64_and_names_the_file() {
    match prepare_file_write("sketch", "ino", "aGk=") {
        Some((file, bytes)) => {
            assert_eq!(file, "sketch.ino");
            assert_eq!(bytes, vec![104u8, 105]);
        }
        None => panic!("expected the payload to decode"),
    }
}

#[test]
fn write_preparation_refuses_a_malformed_payload() {
    assert!(prepare_file_write("x", "y", "@@not base64@@").is_none());
}

#[test]
fn whole_file_base64_encoding() {
    assert_eq!(read_file_data_as_base64(&vec![104u8, 105]), "aGk=");
    assert_eq!(read_file_data_as_base64(&Vec::new()), "");
    assert_eq!(read_file_data_as_base64(&vec![0u8, 1, 2, 3]), "AAECAw==");
}
