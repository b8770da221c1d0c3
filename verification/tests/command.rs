use rcpt::command::CommandLine;
use rcpt::error::ReceiptError;

fn tokens(words: &[&str]) -> Vec<String> {
    words.iter().map(|w| w.to_string()).collect()
}

#[test]
fn first_token_is_the_executable() {
    let command = CommandLine::from_tokens(tokens(&["echo", "hello"])).unwrap();
    assert_eq!(command.program, "echo");
    assert_eq!(command.args, vec!["hello".to_string()]);
}

#[test]
fn a_single_token_has_no_arguments() {
    let command = CommandLine::from_tokens(tokens(&["false"])).unwrap();
    assert_eq!(command.program, "false");
    assert!(command.args.is_empty());
}

#[test]
fn arguments_keep_their_order() {
    let command = CommandLine::from_tokens(tokens(&["cp", "b", "a", "c"])).unwrap();
    assert_eq!(command.program, "cp");
    assert_eq!(command.args, tokens(&["b", "a", "c"]));
}

#[test]
fn argument_count_is_one_less_than_token_count() {
    for n in 1..6usize {
        let words: Vec<String> = (0..n).map(|i| format!("t{}", i)).collect();
        let command = CommandLine::from_tokens(words.clone()).unwrap();
        assert_eq!(command.args.len(), n - 1);
        assert_eq!(command.program, words[0]);
        assert_eq!(command.args[..], words[1..]);
    }
}

#[test]
fn tokens_that_look_like_flags_are_arguments() {
    let command = CommandLine::from_tokens(tokens(&["ls", "-la", "--out", "x.json", "--"])).unwrap();
    assert_eq!(command.program, "ls");
    assert_eq!(command.args, tokens(&["-la", "--out", "x.json", "--"]));
}

#[test]
fn shell_metacharacters_are_kept_as_they_are() {
    let command = CommandLine::from_tokens(tokens(&["echo", "$HOME", "a b", "*", "x; rm y", ""])).unwrap();
    assert_eq!(command.args, tokens(&["$HOME", "a b", "*", "x; rm y", ""]));
}

#[test]
fn an_empty_executable_name_is_still_a_command() {
    let command = CommandLine::from_tokens(tokens(&["", "x"])).unwrap();
    assert_eq!(command.program, "");
    assert_eq!(command.args, tokens(&["x"]));
}

#[test]
fn no_tokens_is_a_usage_error() {
    let parsed = CommandLine::from_tokens(Vec::new());
    assert_eq!(parsed, Err(ReceiptError::Usage));
}
