use plode_web_agent::command::{decode_byte_list, parse_command, Command, CommandFormatError};

#[test]
fn parse_exact_verbs() {
    assert!(matches!(parse_command("\"version\""), Ok(Command::Version)));
    assert!(matches!(parse_command("\"help\""), Ok(Command::Help)));
    assert!(matches!(parse_command("\"mount\""), Ok(Command::Mount)));
    assert!(matches!(parse_command("\"exit\""), Ok(Command::Exit)));
}

#[test]
fn parse_list_plain() {
    match parse_command("\"list\"") {
        Ok(Command::List { path }) => assert!(path.is_none()),
        _ => panic!("expected a list command"),
    }
}

#[test]
fn parse_list_with_path() {
    match parse_command("\"list --path \\\"projects/old\\\"\"") {
        Ok(Command::List { path }) => assert_eq!(path.as_deref(), Some("projects/old")),
        _ => panic!("expected a list command"),
    }
}

#[test]
fn parse_list_malformed_path_falls_back_to_default_root() {
    match parse_command("\"list --path oops\"") {
        Ok(Command::List { path }) => assert!(path.is_none()),
        _ => panic!("expected a list command"),
    }
}

#[test]
fn parse_open() {
    match parse_command("\"open --loc \\\"/mnt/sketch.ino\\\"\"") {
        Ok(Command::Open { loc }) => assert_eq!(loc, "/mnt/sketch.ino"),
        _ => panic!("expected an open command"),
    }
}

#[test]
fn parse_open_invalid_format() {
    assert!(matches!(
        parse_command("\"open /mnt/sketch.ino\""),
        Err(CommandFormatError::Open)
    ));
}

#[test]
fn parse_rm_by_name() {
    match parse_command("\"rm --name \\\"sketch.ino\\\"\"") {
        Ok(Command::Remove { arg, by_name }) => {
            assert_eq!(arg, "sketch.ino");
            assert!(by_name);
        }
        _ => panic!("expected a remove command"),
    }
}

#[test]
fn parse_rm_by_path() {
    match parse_command("\"rm --path \\\"/mnt/sketch.ino\\\"\"") {
        Ok(Command::Remove { arg, by_name }) => {
            assert_eq!(arg, "/mnt/sketch.ino");
            assert!(!by_name);
        }
        _ => panic!("expected a remove command"),
    }
}

#[test]
fn parse_rm_invalid_format() {
    assert!(matches!(
        parse_command("\"rm sketch.ino\""),
        Err(CommandFormatError::Remove)
    ));
}

#[test]
fn parse_add_without_path() {
    match parse_command("\"add --name \\\"sketch\\\" --format \\\"ino\\\" --data \\\"\\\"\\\"104,105\\\"\\\"\\\"\"") {
        Ok(Command::Add { name, format, path, data }) => {
            assert_eq!(name, "sketch");
            assert_eq!(format, "ino");
            assert!(path.is_none());
            assert_eq!(data, "104,105");
        }
        _ => panic!("expected an add command"),
    }
}

#[test]
fn parse_add_with_path() {
    match parse_command(
        "\"add --name \\\"x\\\" --format \\\"txt\\\" --path \\\"notes\\\" --data \\\"\\\"\\\"65\\\"\\\"\\\"\"",
    ) {
        Ok(Command::Add { name, format, path, data }) => {
            assert_eq!(name, "x");
            assert_eq!(format, "txt");
            assert_eq!(path.as_deref(), Some("notes"));
            assert_eq!(data, "65");
        }
        _ => panic!("expected an add command"),
    }
}

#[test]
fn parse_add_trims_trailing_escape_pairs_from_data() {
    match parse_command(
        "\"add --name \\\"a\\\" --format \\\"b\\\" --data \\\"\\\"\\\"1,2\\/\\/\\\"\\\"\\\"\"",
    ) {
        Ok(Command::Add { data, .. }) => assert_eq!(data, "1,2"),
        _ => panic!("expected an add command"),
    }
}

#[test]
fn parse_add_without_data_is_invalid() {
    assert!(matches!(
        parse_command("\"add --name \\\"x\\\" --format \\\"y\\\"\""),
        Err(CommandFormatError::Add)
    ));
}

#[test]
fn parse_unknown_is_echoed_back() {
    match parse_command("\"make me a sandwich\"") {
        Ok(Command::Unknown { raw }) => assert_eq!(raw, "\"make me a sandwich\""),
        _ => panic!("expected the fallback"),
    }
}

#[test]
fn byte_list_plain() {
    assert_eq!(decode_byte_list("104,105"), vec![104u8, 105]);
}

#[test]
fn byte_list_skips_non_numeric_tokens() {
    assert_eq!(decode_byte_list("1,abc,3"), vec![1u8, 3]);
}

#[test]
fn byte_list_skips_out_of_range_values() {
    assert_eq!(decode_byte_list("255,256,300000000000000000000,0"), vec![255u8, 0]);
}

#[test]
fn byte_list_accepts_plus_prefix() {
    assert_eq!(decode_byte_list("+7"), vec![7u8]);
}

#[test]
fn byte_list_skips_tokens_with_spaces() {
    assert_eq!(decode_byte_list(" 1,2 ,3"), vec![3u8]);
}

#[test]
fn byte_list_empty_text() {
    assert_eq!(decode_byte_list(""), Vec::<u8>::new());
}
