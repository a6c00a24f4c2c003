use remote_ssh::command::has_disallowed_o_option;
use remote_ssh::command::is_disallowed_primary_flag;
use remote_ssh::command::parse_ssh_command;
use remote_ssh::command::split_shell_words;
use remote_ssh::command::SshCommandError;
use remote_ssh::command_laws::render_ssh_command;
use remote_ssh::model::DesktopSshParsedCommand;

fn texts(items: &[&str]) -> Vec<String> {
    items.iter().map(|s| s.to_string()).collect()
}

#[test]
fn parse_ssh_command_accepts_supported_options() {
    let parsed = parse_ssh_command(
        "ssh -J jump.example.com -o StrictHostKeyChecking=accept-new user@example.com",
    )
    .expect("parsed");
    assert_eq!(parsed.destination, "user@example.com");
    assert_eq!(
        parsed.args,
        vec![
            "-J".to_string(),
            "jump.example.com".to_string(),
            "-o".to_string(),
            "StrictHostKeyChecking=accept-new".to_string(),
        ]
    );
}

#[test]
fn parse_ssh_command_rejects_disallowed_flags() {
    let err = parse_ssh_command("ssh -M user@example.com")
        .expect_err("should reject control master flag");
    assert!(err.message().contains("not allowed"));
}

#[test]
fn parse_ssh_command_rejects_disallowed_controlpath_option() {
    let err = parse_ssh_command("ssh -o ControlPath=/tmp/ssh.sock user@example.com")
        .expect_err("should reject controlpath override");
    assert!(err.message().contains("not allowed"));
}

#[test]
fn parse_ssh_command_keeps_ipv6_destination() {
    let parsed =
        parse_ssh_command("ssh user@[2001:db8::1]:2222").expect("parsed ipv6 destination");
    assert_eq!(parsed.destination, "user@[2001:db8::1]:2222");
}

#[test]
fn parse_ipv6_destination_has_no_options() {
    let parsed = parse_ssh_command("ssh user@[2001:db8::1]:2222").expect("parsed");
    assert_eq!(parsed.args, Vec::<String>::new());
}

#[test]
fn parse_rejects_control_path_with_the_option_named() {
    let err = parse_ssh_command("ssh -o ControlPath=/tmp/x user@h").expect_err("rejected");
    assert_eq!(
        err,
        SshCommandError::DisallowedOption("-o ControlPath=/tmp/x".to_string())
    );
    assert_eq!(err.message(), "SSH option -o ControlPath=/tmp/x is not allowed");
}

#[test]
fn parse_reports_each_refusal() {
    assert_eq!(
        parse_ssh_command("ssh 'user@h"),
        Err(SshCommandError::UnclosedQuote)
    );
    assert_eq!(parse_ssh_command("   "), Err(SshCommandError::Empty));
    assert_eq!(
        parse_ssh_command("ssh"),
        Err(SshCommandError::MissingDestination)
    );
    assert_eq!(
        parse_ssh_command("ssh -4"),
        Err(SshCommandError::MissingDestination)
    );
    assert_eq!(
        parse_ssh_command("ssh host extra"),
        Err(SshCommandError::TrailingArgument("extra".to_string()))
    );
    assert_eq!(
        parse_ssh_command("ssh host -v"),
        Err(SshCommandError::TrailingArgument("-v".to_string()))
    );
    assert_eq!(
        parse_ssh_command("ssh -p"),
        Err(SshCommandError::MissingValue("-p".to_string()))
    );
    assert_eq!(
        parse_ssh_command("ssh -Z host"),
        Err(SshCommandError::UnsupportedOption("-Z".to_string()))
    );
    assert_eq!(
        parse_ssh_command("ssh -4x host"),
        Err(SshCommandError::UnsupportedOption("-4x".to_string()))
    );
    assert_eq!(
        parse_ssh_command("ssh - host"),
        Err(SshCommandError::UnsupportedOption("-".to_string()))
    );
}

#[test]
fn refusals_have_their_sentences() {
    assert_eq!(
        SshCommandError::UnclosedQuote.message(),
        "Unclosed quote in SSH command"
    );
    assert_eq!(SshCommandError::Empty.message(), "SSH command is empty");
    assert_eq!(
        SshCommandError::MissingDestination.message(),
        "SSH command must include destination"
    );
    assert_eq!(
        SshCommandError::TrailingArgument("x".to_string()).message(),
        "SSH command has unsupported trailing argument: x"
    );
    assert_eq!(
        SshCommandError::MissingValue("-p".to_string()).message(),
        "SSH option -p requires a value"
    );
    assert_eq!(
        SshCommandError::UnsupportedOption("-Z".to_string()).message(),
        "Unsupported SSH option: -Z"
    );
}

#[test]
fn every_reserved_flag_is_refused() {
    for flag in [
        "-M", "-S", "-O", "-N", "-t", "-T", "-f", "-G", "-W", "-v", "-V", "-q", "-n", "-s", "-e",
        "-E", "-g",
    ] {
        assert!(is_disallowed_primary_flag(flag), "{flag}");
        assert_eq!(
            parse_ssh_command(&format!("ssh {flag} user@h")),
            Err(SshCommandError::DisallowedOption(flag.to_string())),
            "{flag}"
        );
    }
    assert!(!is_disallowed_primary_flag("-4"));
    assert!(!is_disallowed_primary_flag("-Mx"));
    assert!(!is_disallowed_primary_flag("M"));
}

#[test]
fn every_accepted_flag_is_taken() {
    for flag in ["-4", "-6", "-A", "-a", "-C", "-K", "-k", "-X", "-x", "-Y", "-y"] {
        let parsed = parse_ssh_command(&format!("ssh {flag} user@h")).expect(flag);
        assert_eq!(parsed.destination, "user@h");
        assert_eq!(parsed.args, vec![flag.to_string()]);
    }
    for option in [
        "-B", "-b", "-c", "-D", "-F", "-I", "-i", "-J", "-l", "-m", "-o", "-P", "-p", "-R",
    ] {
        let parsed = parse_ssh_command(&format!("ssh {option} value user@h")).expect(option);
        assert_eq!(parsed.destination, "user@h");
        assert_eq!(parsed.args, vec![option.to_string(), "value".to_string()]);
        let glued = parse_ssh_command(&format!("ssh {option}value user@h")).expect(option);
        assert_eq!(glued.args, vec![format!("{option}value")]);
    }
}

#[test]
fn reserved_keywords_are_found_in_any_case() {
    assert!(has_disallowed_o_option("ControlMaster=auto"));
    assert!(has_disallowed_o_option("  controlpath /tmp/x"));
    assert!(has_disallowed_o_option("CONTROLPERSIST=10"));
    assert!(has_disallowed_o_option("BatchMode=no"));
    assert!(has_disallowed_o_option("ProxyCommand=nc %h %p"));
    assert!(has_disallowed_o_option("ControlPath"));
    assert!(has_disallowed_o_option("controlMaster = auto"));
    assert!(has_disallowed_o_option("BatchMode\tyes"));
    assert!(!has_disallowed_o_option("ControlPathology=1"));
    assert!(!has_disallowed_o_option("XControlPath=1"));
    assert!(!has_disallowed_o_option("=ControlPath"));
    assert!(!has_disallowed_o_option(""));
    assert!(!has_disallowed_o_option("ProxyJump=bastion"));
    assert!(!has_disallowed_o_option("StrictHostKeyChecking=accept-new"));
    assert_eq!(
        parse_ssh_command("ssh -oBatchMode=yes host"),
        Err(SshCommandError::DisallowedOption("-o BatchMode=yes".to_string()))
    );
}

#[test]
fn words_are_split_like_a_shell_does() {
    assert_eq!(
        split_shell_words("a  'b c' \"d e\" f\\ g 'h\"i' \"j'k\" l\\'m").expect("split"),
        texts(&["a", "b c", "d e", "f g", "h\"i", "j'k", "l'm"])
    );
    assert_eq!(
        split_shell_words("'a\\b' \"c\\\"d\" e\\").expect("split"),
        texts(&["a\\b", "c\"d", "e"])
    );
    assert_eq!(split_shell_words("''").expect("split"), Vec::<String>::new());
    assert_eq!(split_shell_words("\t a\u{2003}b\n").expect("split"), texts(&["a", "b"]));
    assert_eq!(
        split_shell_words("\"open"),
        Err(SshCommandError::UnclosedQuote)
    );
}

#[test]
fn destination_is_trimmed() {
    let parsed = parse_ssh_command("ssh ' user@h '").expect("parsed");
    assert_eq!(parsed.destination, "user@h");
    assert_eq!(
        parse_ssh_command("ssh ' '"),
        Err(SshCommandError::MissingDestination)
    );
}

#[test]
fn accepted_command_written_out_parses_to_the_same() {
    for raw in [
        "ssh user@example.com",
        "user@example.com",
        "ssh -J jump.example.com -o StrictHostKeyChecking=accept-new user@example.com",
        "ssh -o \"ProxyJump=a b\" -i '/path/with space/it''s' -p2222 -4 \"user@host\"",
        "ssh -l 'o\\'\"'\"'brien' ' host '",
        "ssh ssh",
    ] {
        let parsed = parse_ssh_command(raw).expect(raw);
        let written = render_ssh_command(&parsed);
        assert_eq!(parse_ssh_command(&written), Ok(parsed), "{raw} -> {written}");
    }
}

#[test]
fn written_command_quotes_every_word() {
    let parsed = DesktopSshParsedCommand {
        destination: "user@h".to_string(),
        args: texts(&["-i", "it's"]),
    };
    assert_eq!(
        render_ssh_command(&parsed),
        "'ssh' '-i' 'it'\\''s' 'user@h'"
    );
}

#[test]
fn destination_that_begins_with_a_hyphen_does_not_survive() {
    let parsed = parse_ssh_command("ssh ' -x'").expect("parsed");
    assert_eq!(parsed.destination, "-x");
    assert_eq!(
        parse_ssh_command(&render_ssh_command(&parsed)),
        Err(SshCommandError::MissingDestination)
    );
}
