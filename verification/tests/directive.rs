use simple_agent::directive::{is_stop_word, unfence, Directive, Response};

#[test]
fn the_stop_word_alone_stops() {
    assert!(is_stop_word("STOP"));
}

#[test]
fn whitespace_around_the_stop_word_is_trimmed_first() {
    assert!(is_stop_word(" STOP "));
    assert!(is_stop_word("STOP\n"));
    assert!(is_stop_word("\t\r\nSTOP\x0C"));
}

#[test]
fn lower_case_does_not_stop() {
    assert!(!is_stop_word("stop"));
    assert!(!is_stop_word("Stop"));
}

#[test]
fn a_word_beside_the_stop_word_does_not_stop() {
    assert!(!is_stop_word("STOP please"));
    assert!(!is_stop_word("please STOP"));
    assert!(!is_stop_word("STOP."));
    assert!(!is_stop_word("STOPSTOP"));
    assert!(!is_stop_word("S T O P"));
    assert!(!is_stop_word("STO"));
    assert!(!is_stop_word(""));
}

#[test]
fn whitespace_that_is_not_ascii_is_not_trimmed() {
    assert!(!is_stop_word("\u{a0}STOP"));
    assert!(!is_stop_word("STOP\x0B"));
}

#[test]
fn a_directive_keeps_the_command_as_written() {
    let directive = Directive::new(vec!["why".to_string()], "  echo hi \n".to_string()).unwrap();
    assert_eq!(directive.command(), "  echo hi \n");
    assert_eq!(directive.reasoning(), &vec!["why".to_string()]);
    assert!(!directive.is_stop());
}

#[test]
fn a_directive_with_the_stop_word_stops() {
    let directive = Directive::new(Vec::new(), " STOP\n".to_string()).unwrap();
    assert!(directive.is_stop());
    assert_eq!(directive.command(), " STOP\n");
}

#[test]
fn a_command_goes_whole_to_one_shell() {
    let command = "ls -la | grep 'a b' && echo \"$HOME\"\n";
    let directive = Directive::new(Vec::new(), command.to_string()).unwrap();
    assert_eq!(directive.invocation(), vec!["bash", "-c", command]);
}

#[test]
fn a_blank_command_makes_no_directive() {
    for command in ["", " ", "\n\t \r\x0C"] {
        let error = Directive::new(vec!["why".to_string()], command.to_string()).unwrap_err();
        assert_eq!(error.cause, "the command is empty");
    }
    let response = Response { thoughts: Vec::new(), run: "  ".to_string() };
    assert_eq!(Directive::from_response(response).unwrap_err().cause, "the command is empty");
}

#[test]
fn a_command_of_other_whitespace_is_not_blank() {
    let directive = Directive::new(Vec::new(), "\u{a0}".to_string()).unwrap();
    assert_eq!(directive.command(), "\u{a0}");
}

#[test]
fn unfence_of_text_without_fence_only_trims() {
    assert_eq!(unfence("thoughts: []\nrun: ls"), "thoughts: []\nrun: ls");
    assert_eq!(unfence("\n thoughts: []\nrun: ls \n"), "thoughts: []\nrun: ls");
    assert_eq!(unfence(""), "");
    assert_eq!(unfence(" \n"), "");
}

#[test]
fn unfence_twice_is_unfence_once_on_text_without_fence() {
    for raw in ["a: b", "  a: b\n", "run: '```'\nthoughts: []", "x ```yaml"] {
        assert_eq!(unfence(unfence(raw)), unfence(raw), "{:?}", raw);
    }
}

#[test]
fn unfence_takes_either_fence_alone() {
    assert_eq!(unfence("```yaml\nrun: ls"), "\nrun: ls");
    assert_eq!(unfence("```yml\nrun: ls"), "\nrun: ls");
    assert_eq!(unfence("run: ls\n```"), "run: ls\n");
    assert_eq!(unfence("```"), "");
    assert_eq!(unfence("```yaml"), "");
    assert_eq!(unfence("```yaml```"), "");
}

#[test]
fn unfence_takes_both_fences_and_the_whitespace_outside_them() {
    assert_eq!(unfence(" \n```yaml\nrun: ls\n```\n\n"), "\nrun: ls\n");
    assert_eq!(unfence("\t```yml\nrun: ls\n```  "), "\nrun: ls\n");
}

#[test]
fn unfence_keeps_the_whitespace_inside_the_fences() {
    assert_eq!(unfence("```yaml  \n  run: ls  \n  ```"), "  \n  run: ls  \n  ");
}

#[test]
fn unfence_takes_one_opening_fence_off_not_two() {
    assert_eq!(unfence("```yaml```yml\nrun: ls\n```"), "```yml\nrun: ls\n");
    assert_eq!(unfence("```yml```yaml\nrun: ls\n```"), "```yaml\nrun: ls\n");
    assert_eq!(unfence("```yaml```yaml\nrun: ls\n```"), "```yaml\nrun: ls\n");
    assert_eq!(unfence("```yml```yml\nrun: ls"), "```yml\nrun: ls");
}

#[test]
fn unfence_takes_one_closing_fence_off_not_two() {
    assert_eq!(unfence("run: ls\n``````"), "run: ls\n```");
    assert_eq!(unfence("```yaml``````"), "```");
}

#[test]
fn unfence_leaves_other_fences() {
    assert_eq!(unfence("```json\n{}\n```"), "```json\n{}\n");
    assert_eq!(unfence("```\nrun: ls\n```"), "```\nrun: ls\n");
    assert_eq!(unfence("```YAML\nrun: ls"), "```YAML\nrun: ls");
}
