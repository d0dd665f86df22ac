use vault::cmd::{Action, Cmd, Command};
use vault::error::ErrorCode;
use vault::file::FileUtil;
use vault::help::Help;
use vault::prompt::strip_newline;

fn args(items: &[&str]) -> Vec<String> {
    items.iter().map(|s| s.to_string()).collect()
}

fn text(s: &str) -> Result<String, ErrorCode> {
    Ok(s.to_string())
}

#[test]
fn command_tokens() {
    assert_eq!(Command::Help.get_command(), "help");
    assert_eq!(Command::GetValue.get_command(), "get");
    assert_eq!(Command::AddValue.get_command(), "add");
    assert_eq!(Command::ListAll.get_command(), "ls");
}

#[test]
fn all_commands_once_each() {
    assert_eq!(
        Command::all(),
        vec![Command::Help, Command::GetValue, Command::AddValue, Command::ListAll]
    );
}

#[test]
fn supported_tokens_resolve() {
    for c in Command::all() {
        let token = c.get_command();
        assert_eq!(Command::get_by_command_str(&token), Ok(c));
        assert_eq!(Cmd::resolve_operation_type(args(&["vault", &token])), Ok(c));
    }
}

#[test]
fn other_tokens_are_unsupported() {
    for token in ["bogus", "Help", "GET", "", "ls ", "lsx", "remove"] {
        assert_eq!(
            Command::get_by_command_str(token),
            Err(ErrorCode::UnsupportedOperation)
        );
        assert_eq!(
            Cmd::resolve_operation_type(args(&["vault", token])),
            Err(ErrorCode::UnsupportedOperation)
        );
    }
}

#[test]
fn missing_command_token() {
    assert_eq!(Cmd::resolve_operation_type(args(&[])), Err(ErrorCode::NonexistentArgument));
    assert_eq!(
        Cmd::resolve_operation_type(args(&["vault"])),
        Err(ErrorCode::NonexistentArgument)
    );
}

#[test]
fn supplementary_argument() {
    assert_eq!(Cmd::get_supplementary_arg(args(&[])), Err(ErrorCode::NonexistentArgument));
    assert_eq!(
        Cmd::get_supplementary_arg(args(&["vault"])),
        Err(ErrorCode::NonexistentArgument)
    );
    assert_eq!(
        Cmd::get_supplementary_arg(args(&["vault", "get"])),
        Err(ErrorCode::NonexistentArgument)
    );
    assert_eq!(
        Cmd::get_supplementary_arg(args(&["vault", "get", "Some Key "])),
        Ok("Some Key ".to_string())
    );
    assert_eq!(
        Cmd::get_supplementary_arg(args(&["vault", "get", "db", "extra"])),
        Ok("db".to_string())
    );
}

#[test]
fn error_descriptions() {
    assert_eq!(ErrorCode::FileDoesNotExist.get_code(), "File does not exist");
    assert_eq!(
        ErrorCode::BrokenFile.get_code(),
        "The file seemed to be broken while attempting to read it"
    );
    assert_eq!(ErrorCode::InvalidJsonFormat.get_code(), "JSON file formatted incorrectly");
    assert_eq!(ErrorCode::JsonPropertyNotFound.get_code(), "JSON property not found in object");
    assert_eq!(ErrorCode::UnsupportedOperation.get_code(), "Given operation is not supported");
    assert_eq!(ErrorCode::NonexistentArgument.get_code(), "Required argument was not provided");
    assert_eq!(ErrorCode::FileWriteFailed.get_code(), "Writing to file failed");
}

#[test]
fn merge_write_read_round_trip() {
    let empty = FileUtil::read_config_json(text("{}")).unwrap();
    let merged = FileUtil::merge(&empty, "k".to_string(), "v".to_string());
    let written = FileUtil::overwrite_json_file(&merged);
    assert_eq!(written, "{\"k\":\"v\"}");
    assert_eq!(
        FileUtil::read_config_json_property(Ok(written), "k"),
        Ok("v".to_string())
    );
}

#[test]
fn merge_replaces_existing_key() {
    let current = FileUtil::read_config_json(text("{\"k\":\"old\",\"n\":1}")).unwrap();
    let merged = FileUtil::merge(&current, "k".to_string(), "new".to_string());
    let written = FileUtil::overwrite_json_file(&merged);
    assert_eq!(
        FileUtil::read_config_json_property(Ok(written.clone()), "k"),
        Ok("new".to_string())
    );
    let listed = FileUtil::list_all_config_json_properties(Ok(written)).unwrap();
    assert_eq!(listed.len(), 2);
    assert_eq!(listed.get("n"), Some(&serde_json::Value::from(1)));
}

#[test]
fn merge_on_non_object_is_unchanged() {
    for source in ["[1,2]", "3", "null", "\"s\"", "true"] {
        let v = FileUtil::read_config_json(text(source)).unwrap();
        let merged = FileUtil::merge(&v, "k".to_string(), "v".to_string());
        assert_eq!(merged, v);
        let again = FileUtil::merge(&merged, "k".to_string(), "v".to_string());
        assert_eq!(again, v);
    }
}

#[test]
fn property_errors() {
    assert_eq!(
        FileUtil::read_config_json_property(text("{\"a\":\"b\"}"), "missing"),
        Err(ErrorCode::JsonPropertyNotFound)
    );
    assert_eq!(
        FileUtil::read_config_json_property(text("{not json"), "a"),
        Err(ErrorCode::InvalidJsonFormat)
    );
    assert_eq!(
        FileUtil::read_config_json_property(text(""), "a"),
        Err(ErrorCode::InvalidJsonFormat)
    );
    assert_eq!(
        FileUtil::read_config_json_property(Err(ErrorCode::FileDoesNotExist), "a"),
        Err(ErrorCode::FileDoesNotExist)
    );
    assert_eq!(
        FileUtil::read_config_json_property(Err(ErrorCode::BrokenFile), "a"),
        Err(ErrorCode::BrokenFile)
    );
}

#[test]
fn property_that_is_not_a_string() {
    assert_eq!(
        FileUtil::read_config_json_property(text("{\"n\":1,\"o\":{}}"), "n"),
        Err(ErrorCode::JsonPropertyNotFound)
    );
    assert_eq!(
        FileUtil::read_config_json_property(text("{\"n\":1,\"o\":{}}"), "o"),
        Err(ErrorCode::JsonPropertyNotFound)
    );
    assert_eq!(
        FileUtil::read_config_json_property(text("[\"a\"]"), "a"),
        Err(ErrorCode::JsonPropertyNotFound)
    );
}

#[test]
fn empty_config_parses_as_empty_object() {
    let v = FileUtil::read_config_json(text("{}")).unwrap();
    assert!(v.is_object());
    assert!(v.as_object().unwrap().is_empty());
    let listed = FileUtil::list_all_config_json_properties(text("{}")).unwrap();
    assert!(listed.is_empty());
}

#[test]
fn get_existing_and_missing_key() {
    let config = "{\"db\":\"secret\"}";
    assert_eq!(
        FileUtil::read_config_json_property(text(config), "db"),
        Ok("secret".to_string())
    );
    assert_eq!(
        FileUtil::read_config_json_property(text(config), "missing"),
        Err(ErrorCode::JsonPropertyNotFound)
    );
}

#[test]
fn add_flow_merges_with_prior_content() {
    let key = strip_newline("api_key\n");
    let value = strip_newline("xyz123\n");
    let current = FileUtil::read_config_json(text("{\"db\":\"secret\"}")).unwrap();
    let merged = FileUtil::merge(&current, key, value);
    let written = FileUtil::overwrite_json_file(&merged);
    assert_eq!(
        FileUtil::read_config_json_property(Ok(written.clone()), "api_key"),
        Ok("xyz123".to_string())
    );
    assert_eq!(
        FileUtil::read_config_json_property(Ok(written.clone()), "db"),
        Ok("secret".to_string())
    );
    assert_eq!(FileUtil::list_all_config_json_properties(Ok(written)).unwrap().len(), 2);
}

#[test]
fn bogus_command_is_unsupported() {
    let r = Cmd::resolve_operation_type(args(&["vault", "bogus"]));
    assert_eq!(r, Err(ErrorCode::UnsupportedOperation));
    assert_eq!(r.unwrap_err().get_code(), "Given operation is not supported");
}

#[test]
fn list_properties() {
    let listed =
        FileUtil::list_all_config_json_properties(text("{\"a\":\"1\",\"b\":\"2\"}")).unwrap();
    assert_eq!(listed.len(), 2);
    assert_eq!(listed.get("a").and_then(|v| v.as_str()), Some("1"));
    assert_eq!(
        FileUtil::list_all_config_json_properties(text("[1]")).unwrap_err(),
        ErrorCode::InvalidJsonFormat
    );
    assert_eq!(
        FileUtil::list_all_config_json_properties(text("{")).unwrap_err(),
        ErrorCode::InvalidJsonFormat
    );
    assert_eq!(
        FileUtil::list_all_config_json_properties(Err(ErrorCode::FileDoesNotExist)).unwrap_err(),
        ErrorCode::FileDoesNotExist
    );
}

#[test]
fn strip_one_trailing_newline() {
    assert_eq!(strip_newline("key\n"), "key");
    assert_eq!(strip_newline("key"), "key");
    assert_eq!(strip_newline("key\n\n"), "key\n");
    assert_eq!(strip_newline("\n"), "");
    assert_eq!(strip_newline(""), "");
    assert_eq!(strip_newline("ключ\n"), "ключ");
}

#[test]
fn help_text() {
    let h = Help::get_help();
    assert!(h.starts_with("\nusage: vault <command> <arg>\n"));
    assert!(h.contains("   vault get <key>\n"));
    assert!(h.contains("   vault ls\n"));
}

#[test]
fn plan_each_command() {
    assert_eq!(Cmd::plan(args(&["vault", "help"])), Action::ShowHelp);
    assert_eq!(
        Cmd::plan(args(&["vault", "get", "db"])),
        Action::ReadValue("db".to_string())
    );
    assert_eq!(
        Cmd::plan(args(&["vault", "get"])),
        Action::Report(ErrorCode::NonexistentArgument)
    );
    assert_eq!(Cmd::plan(args(&["vault", "add"])), Action::AddValue);
    assert_eq!(Cmd::plan(args(&["vault", "ls"])), Action::ListAll);
    assert_eq!(Cmd::plan(args(&["vault"])), Action::Report(ErrorCode::NonexistentArgument));
}

#[test]
fn plan_bogus_reports_unsupported() {
    assert_eq!(
        Cmd::plan(args(&["vault", "bogus"])),
        Action::Report(ErrorCode::UnsupportedOperation)
    );
    assert_eq!(
        Cmd::plan(args(&["vault", "bogus", "db"])),
        Action::Report(ErrorCode::UnsupportedOperation)
    );
}

#[test]
fn read_returns_non_object_as_is() {
    let v = FileUtil::read_config_json(text("[1,2]")).unwrap();
    assert_eq!(v, serde_json::Value::from(vec![1, 2]));
    assert_eq!(FileUtil::overwrite_json_file(&v), "[1,2]");
}

#[test]
fn merge_keeps_non_string_values() {
    let source = "{\"n\":1,\"f\":0.1,\"list\":[true,null],\"o\":{\"x\":\"y\"},\"s\":\"t\"}";
    let current = FileUtil::read_config_json(text(source)).unwrap();
    let merged = FileUtil::merge(&current, "k".to_string(), "v".to_string());
    let written = FileUtil::overwrite_json_file(&merged);
    assert_eq!(
        written,
        "{\"f\":0.1,\"k\":\"v\",\"list\":[true,null],\"n\":1,\"o\":{\"x\":\"y\"},\"s\":\"t\"}"
    );
    let reread = FileUtil::read_config_json(Ok(written)).unwrap();
    assert_eq!(reread, merged);
    let listed = FileUtil::list_all_config_json_properties(text(source)).unwrap();
    assert_eq!(&serde_json::Value::Object(listed), &current);
}

#[test]
fn merge_override_commute_and_repeat() {
    let v = FileUtil::read_config_json(text("{\"a\":\"1\",\"n\":2}")).unwrap();
    let s = |x: &str| x.to_string();
    let w = FileUtil::merge(&v, s("k"), s("first"));
    assert_eq!(FileUtil::merge(&w, s("k"), s("second")), FileUtil::merge(&v, s("k"), s("second")));
    let ab = FileUtil::merge(&FileUtil::merge(&v, s("x"), s("1")), s("y"), s("2"));
    let ba = FileUtil::merge(&FileUtil::merge(&v, s("y"), s("2")), s("x"), s("1"));
    assert_eq!(ab, ba);
    assert_eq!(FileUtil::merge(&w, s("k"), s("first")), w);
}
