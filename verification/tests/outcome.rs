use simple_agent::error::{AgentError, Stream};
use simple_agent::outcome::{CommandOutput, Execution};
use simple_agent::yaml::Scalar;

fn output(stdout: &str, stderr: &str, exit_code: Option<i32>) -> CommandOutput {
    CommandOutput { stdout: stdout.to_string(), stderr: stderr.to_string(), exit_code }
}

/// Reads an encoded report back, with the YAML reader itself.
fn read_back(text: &str) -> (String, String, Option<i64>) {
    let value: serde_yml::Value = serde_yml::from_str(text).unwrap();
    let mapping = value.as_mapping().unwrap();
    let keys: Vec<&str> = mapping.keys().map(|key| key.as_str().unwrap()).collect();
    assert_eq!(keys, vec!["stdout", "stderr", "exit_code"]);
    (
        value["stdout"].as_str().unwrap().to_string(),
        value["stderr"].as_str().unwrap().to_string(),
        value["exit_code"].as_i64(),
    )
}

#[test]
fn the_report_of_a_parse_failure() {
    let report = CommandOutput::parse_failure("did not find expected key".to_string());
    assert_eq!(report, output("Error parsing response", "did not find expected key", None));
}

#[test]
fn the_report_of_a_spawn_failure() {
    let report = CommandOutput::spawn_failure("No such file or directory (os error 2)".to_string());
    assert_eq!(
        report,
        output("Error trying to run command", "No such file or directory (os error 2)", None)
    );
}

#[test]
fn a_finished_process_is_decoded() {
    let execution = Execution {
        stdout: b"hi\n".to_vec(),
        stderr: "caf\u{e9}".as_bytes().to_vec(),
        exit_code: Some(3),
    };
    assert_eq!(CommandOutput::decode(execution).unwrap(), output("hi\n", "caf\u{e9}", Some(3)));
}

#[test]
fn a_process_ended_by_a_signal_has_no_exit_code() {
    let execution = Execution { stdout: Vec::new(), stderr: Vec::new(), exit_code: None };
    assert_eq!(CommandOutput::decode(execution).unwrap(), output("", "", None));
}

#[test]
fn bytes_that_are_not_utf8_are_an_error() {
    let execution = Execution { stdout: vec![0x66, 0xff], stderr: Vec::new(), exit_code: Some(0) };
    assert_eq!(
        CommandOutput::decode(execution).unwrap_err(),
        AgentError::InvalidUtf8(Stream::Stdout)
    );
    let execution = Execution { stdout: Vec::new(), stderr: vec![0xc3], exit_code: Some(0) };
    assert_eq!(
        CommandOutput::decode(execution).unwrap_err(),
        AgentError::InvalidUtf8(Stream::Stderr)
    );
}

#[test]
fn standard_output_is_named_where_both_streams_are_at_fault() {
    let execution = Execution { stdout: vec![0x80], stderr: vec![0x80], exit_code: None };
    assert_eq!(
        CommandOutput::decode(execution).unwrap_err(),
        AgentError::InvalidUtf8(Stream::Stdout)
    );
}

#[test]
fn the_entries_of_a_report() {
    assert_eq!(
        output("out", "err", Some(-2)).entries(),
        vec![
            ("stdout".to_string(), Scalar::Text("out".to_string())),
            ("stderr".to_string(), Scalar::Text("err".to_string())),
            ("exit_code".to_string(), Scalar::Integer(-2)),
        ]
    );
    assert_eq!(
        output("", "", None).entries(),
        vec![
            ("stdout".to_string(), Scalar::Text(String::new())),
            ("stderr".to_string(), Scalar::Text(String::new())),
            ("exit_code".to_string(), Scalar::Null),
        ]
    );
}

#[test]
fn encode_writes_the_three_fields_in_order() {
    let text = output("hi\n", "", Some(0)).encode().unwrap();
    assert_eq!(text, "stdout: |\n  hi\nstderr: ''\nexit_code: 0\n");
}

#[test]
fn encode_writes_a_missing_exit_code_as_null() {
    let text = CommandOutput::parse_failure("boom".to_string()).encode().unwrap();
    assert_eq!(text, "stdout: Error parsing response\nstderr: boom\nexit_code: null\n");
    let text = CommandOutput::spawn_failure("no shell".to_string()).encode().unwrap();
    assert_eq!(text, "stdout: Error trying to run command\nstderr: no shell\nexit_code: null\n");
}

#[test]
fn encode_writes_a_negative_exit_code() {
    let text = output("a", "b", Some(-1)).encode().unwrap();
    assert_eq!(text, "stdout: a\nstderr: b\nexit_code: -1\n");
}

#[test]
fn encode_quotes_text_that_would_read_as_something_else() {
    let text = output("true", "12", Some(1)).encode().unwrap();
    assert_eq!(text, "stdout: 'true'\nstderr: '12'\nexit_code: 1\n");
}

#[test]
fn what_encode_writes_reads_back_as_the_same_report() {
    for report in [
        output("hi\n", "", Some(0)),
        output("a: b\n- c\n", "warning: x\n\ty", Some(127)),
        output("", "", None),
        output("'quoted' \"twice\"", "# not a comment", Some(i32::MIN)),
        output("caf\u{e9} \u{1F600}", "null", Some(i32::MAX)),
    ] {
        let text = report.encode().unwrap();
        let (stdout, stderr, exit_code) = read_back(&text);
        assert_eq!(stdout, report.stdout);
        assert_eq!(stderr, report.stderr);
        assert_eq!(exit_code, report.exit_code.map(i64::from));
    }
}
