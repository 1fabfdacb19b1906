use termfilepickers::config::Config;
use termfilepickers::file_chooser::PortalResponse;
use termfilepickers::runner::{
    normalize_uri, ConfigRunner, RunnerArguments, RunnerError, RunnerOpenFileOptions,
    RunnerResult, RunnerSaveFileOptions, RunnerSaveFilesOptions, ScriptOutcome,
    SpecificRunnerArguments,
};

fn config() -> Config {
    Config {
        open_file_script_path: "/scripts/open".to_string(),
        save_file_script_path: "/scripts/save".to_string(),
        save_files_script_path: "/scripts/save_many".to_string(),
        terminal_command: "foot".to_string(),
    }
}

fn ok_outcome(output: Option<&str>) -> ScriptOutcome {
    ScriptOutcome {
        success: true,
        code: Some(0),
        stdout: String::new(),
        stderr: "note".to_string(),
        out_file: "/tmp/out".to_string(),
        output: output.map(|s| s.to_string()),
    }
}

#[test]
fn normalize_keeps_prefixed_uri() {
    assert_eq!(normalize_uri("file:///home/u/a.txt"), "file:///home/u/a.txt");
    assert_eq!(normalize_uri("file://"), "file://");
}

#[test]
fn normalize_prefixes_plain_path() {
    assert_eq!(normalize_uri("/home/u/a.txt"), "file:///home/u/a.txt");
    assert_eq!(normalize_uri(""), "file://");
    assert_eq!(normalize_uri("file:/x"), "file://file:/x");
}

#[test]
fn normalize_never_double_prefixes() {
    for entry in ["/a", "file:///a", "file:/a", "fil", "b c"] {
        let once = normalize_uri(entry);
        assert_eq!(normalize_uri(&once), once);
        assert!(once.starts_with("file://"));
        if !entry.starts_with("file://") {
            assert_eq!(once, format!("file://{}", entry));
        }
    }
}

#[test]
fn parse_two_lines_scenario() {
    let r = ConfigRunner::parse_result("/home/u/a.txt\n/home/u/b.txt");
    assert_eq!(r.uris, vec!["file:///home/u/a.txt", "file:///home/u/b.txt"]);
    let resp = PortalResponse::from_result(Ok(r));
    assert_eq!(resp.response_code(), 0);
    match resp {
        PortalResponse::Success(f) => {
            assert_eq!(f.uris, vec!["file:///home/u/a.txt", "file:///home/u/b.txt"]);
            assert!(f.choices.is_empty());
            assert!(f.current_filter.is_none());
        }
        _ => panic!("expected success"),
    }
}

#[test]
fn parse_line_endings() {
    let r = ConfigRunner::parse_result("a\r\nfile:///b\n\nc\r");
    assert_eq!(r.uris, vec!["file://a", "file:///b", "file://", "file://c\r"]);
    let r = ConfigRunner::parse_result("x\n");
    assert_eq!(r.uris, vec!["file://x"]);
}

#[test]
fn empty_output_is_cancelled() {
    let r = ConfigRunner::script_result(ok_outcome(Some(""))).unwrap();
    assert!(r.uris.is_empty());
    let resp = PortalResponse::from_result(Ok(r));
    assert_eq!(resp, PortalResponse::Cancelled);
    assert_eq!(resp.response_code(), 1);
}

#[test]
fn failed_script_is_other() {
    let outcome = ScriptOutcome {
        success: false,
        code: Some(1),
        stdout: "out".to_string(),
        stderr: "boom".to_string(),
        out_file: "/tmp/out".to_string(),
        output: Some("/home/u/a.txt".to_string()),
    };
    let res = ConfigRunner::script_result(outcome);
    assert_eq!(
        res,
        Err(RunnerError::ScriptFailed {
            code: Some(1),
            stdout: "out".to_string(),
            stderr: "boom".to_string()
        })
    );
    let resp = PortalResponse::from_result(res);
    assert_eq!(resp, PortalResponse::Other);
    assert_eq!(resp.response_code(), 2);
}

#[test]
fn missing_output_is_invalid_and_other() {
    let res = ConfigRunner::script_result(ok_outcome(None));
    assert_eq!(
        res,
        Err(RunnerError::InvalidOutput {
            out_file: "/tmp/out".to_string(),
            stdout: String::new(),
            stderr: "note".to_string()
        })
    );
    let resp = PortalResponse::from_result(res);
    assert_eq!(resp.into_parts(), (2, None));
}

#[test]
fn successful_script_gives_its_uris() {
    let res = ConfigRunner::script_result(ok_outcome(Some("/a\nfile:///b\n")));
    assert_eq!(
        res,
        Ok(RunnerResult { uris: vec!["file:///a".to_string(), "file:///b".to_string()] })
    );
}

#[test]
fn open_file_arguments_json() {
    let args = RunnerArguments::new(
        &config(),
        SpecificRunnerArguments::OpenFile(RunnerOpenFileOptions { multiple: true, directory: false }),
        "/tmp/out".to_string(),
    );
    assert_eq!(args.termcmd, "foot");
    assert_eq!(
        args.to_json(),
        r#"{"type":"OpenFile","multiple":true,"directory":false,"out_file":"/tmp/out","termcmd":"foot"}"#
    );
}

#[test]
fn save_file_arguments_json_escapes() {
    let args = RunnerArguments::new(
        &config(),
        SpecificRunnerArguments::SaveFile(RunnerSaveFileOptions {
            recommended_path: "/tmp/a \"b\"\\c\n".to_string(),
        }),
        "/tmp/out".to_string(),
    );
    assert_eq!(
        args.to_json(),
        r#"{"type":"SaveFile","recommended_path":"/tmp/a \"b\"\\c\n","out_file":"/tmp/out","termcmd":"foot"}"#
    );
}

#[test]
fn save_files_arguments_json() {
    let args = RunnerArguments::new(
        &config(),
        SpecificRunnerArguments::SaveFiles(RunnerSaveFilesOptions {
            current_folder: Some("/home/u".to_string()),
            files: vec!["a.txt".to_string(), "b.txt".to_string()],
        }),
        "/tmp/out".to_string(),
    );
    assert_eq!(
        args.to_json(),
        r#"{"type":"SaveFiles","current_folder":"/home/u","files":["a.txt","b.txt"],"out_file":"/tmp/out","termcmd":"foot"}"#
    );
    let args = RunnerArguments::new(
        &config(),
        SpecificRunnerArguments::SaveFiles(RunnerSaveFilesOptions { current_folder: None, files: vec![] }),
        "o".to_string(),
    );
    assert_eq!(
        args.to_json(),
        r#"{"type":"SaveFiles","current_folder":null,"files":[],"out_file":"o","termcmd":"foot"}"#
    );
}

#[test]
fn prepare_picks_the_script() {
    let runner = ConfigRunner::new(config());
    let inv = runner
        .prepare(
            SpecificRunnerArguments::SaveFiles(RunnerSaveFilesOptions {
                current_folder: None,
                files: vec!["x".to_string()],
            }),
            "/tmp/o".to_string(),
        );
    assert_eq!(inv.program, "/scripts/save_many");
    assert_eq!(inv.out_file, "/tmp/o");
    assert_eq!(
        inv.argument,
        r#"{"type":"SaveFiles","current_folder":null,"files":["x"],"out_file":"/tmp/o","termcmd":"foot"}"#
    );
    let inv = runner
        .prepare(
            SpecificRunnerArguments::OpenFile(RunnerOpenFileOptions { multiple: false, directory: true }),
            "/tmp/p".to_string(),
        );
    assert_eq!(inv.program, "/scripts/open");
    let inv = runner
        .prepare(
            SpecificRunnerArguments::SaveFile(RunnerSaveFileOptions { recommended_path: "/r".to_string() }),
            "/tmp/q".to_string(),
        );
    assert_eq!(inv.program, "/scripts/save");
}

#[test]
fn arguments_json_escapes_control_characters() {
    let args = RunnerArguments::new(
        &config(),
        SpecificRunnerArguments::SaveFile(RunnerSaveFileOptions {
            recommended_path: "a\u{8}\t\u{c}\r\u{1}\u{1f}\u{7f}/\u{e9}".to_string(),
        }),
        "o".to_string(),
    );
    assert_eq!(
        args.to_json(),
        "{\"type\":\"SaveFile\",\"recommended_path\":\"a\\b\\t\\f\\r\\u0001\\u001f\u{7f}/\u{e9}\",\"out_file\":\"o\",\"termcmd\":\"foot\"}"
    );
}
