use ssh_with_gh::args::{parse_args, policy_from_args, split_argument, Args, Policy, PolicyError};
use ssh_with_gh::logging::{log_to_file, timestamp_format};
use ssh_with_gh::prompt::{
    describe_prompt_error, prompt_user, Conversation, PromptError, PromptMode,
};
use ssh_with_gh::text::{
    answer_is_yes, decimal, join, normalized_is_yes, one_text, push_text, texts, with_text,
};
use ssh_with_gh::user::SystemAction;

fn words(items: &[&str]) -> Vec<String> {
    items.iter().map(|s| s.to_string()).collect()
}

fn returned(reply: Option<&str>) -> Conversation {
    Conversation::Returned { reply: reply.map(|s| s.to_string()) }
}

fn broke(status: i32) -> Conversation {
    Conversation::Failed { status }
}

#[test]
fn decimal_numerals() {
    assert_eq!(decimal(0), "0");
    assert_eq!(decimal(7), "7");
    assert_eq!(decimal(10), "10");
    assert_eq!(decimal(404), "404");
    assert_eq!(decimal(65535), "65535");
    assert_eq!(decimal(1234567890), "1234567890");
    assert_eq!(decimal(u64::MAX), "18446744073709551615");
}

#[test]
fn texts_are_joined_and_listed() {
    assert_eq!(join("ab", "cd"), "abcd");
    assert_eq!(join("", ""), "");
    assert_eq!(texts(vec!["a", "", "c"]), words(&["a", "", "c"]));
    assert_eq!(one_text("x".to_string()), words(&["x"]));
    assert_eq!(with_text(words(&["x"]), "y".to_string()), words(&["x", "y"]));
    let mut list = words(&["x"]);
    push_text(&mut list, "z");
    assert_eq!(list, words(&["x", "z"]));
}

#[test]
fn yes_is_a_single_y_in_either_case() {
    assert!(answer_is_yes("y"));
    assert!(answer_is_yes("Y"));
    assert!(answer_is_yes("  y\n"));
    assert!(answer_is_yes("\tY \r\n"));
    assert!(answer_is_yes("\u{a0}y\u{2003}"));
    assert!(!answer_is_yes("n"));
    assert!(!answer_is_yes("yes"));
    assert!(!answer_is_yes(""));
    assert!(!answer_is_yes("y y"));
    assert!(normalized_is_yes("y"));
    assert!(!normalized_is_yes("Y"));
    assert!(!normalized_is_yes(" y"));
}

#[test]
fn white_space_is_what_unicode_says_it_is() {
    let listed = |c: char| {
        let n = c as u32;
        (0x09..=0x0D).contains(&n)
            || n == 0x20
            || n == 0x85
            || n == 0xA0
            || n == 0x1680
            || (0x2000..=0x200A).contains(&n)
            || n == 0x2028
            || n == 0x2029
            || n == 0x202F
            || n == 0x205F
            || n == 0x3000
    };
    let mut count = 0;
    for n in 0..=0x10FFFFu32 {
        if let Some(c) = char::from_u32(n) {
            let before = format!("{}y", c);
            let after = format!("y{}", c);
            assert_eq!(answer_is_yes(&before), listed(c), "U+{:04X} before", n);
            assert_eq!(answer_is_yes(&after), listed(c), "U+{:04X} after", n);
            assert_eq!(answer_is_yes(&c.to_string()), c == 'y' || c == 'Y', "U+{:04X} alone", n);
            if listed(c) {
                count += 1;
            }
        }
    }
    assert_eq!(count, 25);
}

#[test]
fn trimming_stops_at_the_first_other_character() {
    assert!(answer_is_yes(" \t\r\n y \u{3000}\u{2028}"));
    assert!(!answer_is_yes("y y"));
    assert!(!answer_is_yes("y\u{200b}"));
    assert!(!answer_is_yes("\u{feff}y"));
    assert!(!answer_is_yes("   "));
}

#[test]
fn keys_and_values_may_be_empty_or_hold_equals_signs() {
    let args = parse_args(&words(&["=x", "a=b=c", "k="]));
    assert_eq!(args.get(""), Some("x"));
    assert_eq!(args.get("a"), Some("b=c"));
    assert_eq!(args.get("k"), Some(""));
    assert_eq!(args.get("a=b"), None);
}

#[test]
fn words_split_at_the_first_equals_sign() {
    assert_eq!(split_argument("org=acme"), Some(("org".to_string(), "acme".to_string())));
    assert_eq!(split_argument("a=b=c"), Some(("a".to_string(), "b=c".to_string())));
    assert_eq!(split_argument("=x"), Some(("".to_string(), "x".to_string())));
    assert_eq!(split_argument("x="), Some(("x".to_string(), "".to_string())));
    assert_eq!(split_argument("="), Some(("".to_string(), "".to_string())));
    assert_eq!(split_argument("flag"), None);
    assert_eq!(split_argument(""), None);
    assert_eq!(
        split_argument("cl\u{e9}=v\u{e4}l"),
        Some(("cl\u{e9}".to_string(), "v\u{e4}l".to_string()))
    );
}

#[test]
fn arguments_are_settings_then_flags() {
    let args = parse_args(&words(&["debug", "org=acme", "client_id=abc", "allow_import_keys"]));
    assert_eq!(args.get("org"), Some("acme"));
    assert_eq!(args.get("client_id"), Some("abc"));
    assert_eq!(args.get("debug"), Some(""));
    assert_eq!(args.get("team"), None);
    assert!(args.contains_key("allow_import_keys"));
    assert!(!args.contains_key("auto_create_user"));
}

#[test]
fn no_words_make_no_arguments() {
    let args = parse_args(&Vec::new());
    assert_eq!(args.get("org"), None);
    assert_eq!(args.get(""), None);
    assert!(!args.contains_key("org"));
    let none = Args::new();
    assert_eq!(none.get("org"), None);
    assert!(!none.contains_key(""));
}

#[test]
fn a_later_setting_replaces_an_earlier_one() {
    let args = parse_args(&words(&["org=one", "org=two"]));
    assert_eq!(args.get("org"), Some("two"));
    let mut args = Args::new();
    args.insert("k", "1");
    args.insert("j", "2");
    args.insert("k", "3");
    assert_eq!(args.get("k"), Some("3"));
    assert_eq!(args.get("j"), Some("2"));
    assert!(!args.contains_key("i"));
}

#[test]
fn a_flag_replaces_a_value_wherever_it_stands() {
    let args = parse_args(&words(&["auto_create_user", "auto_create_user=sudoer"]));
    assert_eq!(args.get("auto_create_user"), Some(""));
    let args = parse_args(&words(&["auto_create_user=sudoer", "auto_create_user"]));
    assert_eq!(args.get("auto_create_user"), Some(""));
}

#[test]
fn policy_needs_org_and_client_id() {
    assert_eq!(policy_from_args(&parse_args(&words(&[]))), Err(PolicyError::MissingOrg));
    assert_eq!(
        policy_from_args(&parse_args(&words(&["client_id=abc"]))),
        Err(PolicyError::MissingOrg)
    );
    assert_eq!(
        policy_from_args(&parse_args(&words(&["org=acme"]))),
        Err(PolicyError::MissingClientId)
    );
    assert_eq!(
        policy_from_args(&parse_args(&words(&["org=acme", "team=t", "allow_import_keys"]))),
        Err(PolicyError::MissingClientId)
    );
}

#[test]
fn policy_is_read_off_the_arguments() {
    assert_eq!(
        policy_from_args(&parse_args(&words(&["org=acme", "client_id=abc"]))),
        Ok(Policy {
            org: "acme".to_string(),
            client_id: "abc".to_string(),
            team: None,
            auto_create_user: false,
            sudoer: false,
            allow_import_keys: false,
        })
    );
    assert_eq!(
        policy_from_args(&parse_args(&words(&[
            "client_id=abc",
            "team=platform",
            "org=acme",
            "auto_create_user=sudoer",
            "allow_import_keys",
        ]))),
        Ok(Policy {
            org: "acme".to_string(),
            client_id: "abc".to_string(),
            team: Some("platform".to_string()),
            auto_create_user: true,
            sudoer: true,
            allow_import_keys: true,
        })
    );
}

#[test]
fn only_the_value_sudoer_asks_for_rights() {
    let policy = |word: &str| {
        policy_from_args(&parse_args(&words(&["org=o", "client_id=c", word]))).unwrap()
    };
    assert!(policy("auto_create_user=sudoer").sudoer);
    assert!(policy("auto_create_user=sudoer").auto_create_user);
    assert!(!policy("auto_create_user").sudoer);
    assert!(policy("auto_create_user").auto_create_user);
    assert!(!policy("auto_create_user=Sudoer").sudoer);
    assert!(!policy("auto_create_user=yes").sudoer);
    assert!(policy("auto_create_user=yes").auto_create_user);
    assert!(!policy("sudoer").auto_create_user);
    assert!(policy("allow_import_keys=no").allow_import_keys);
}

#[test]
fn an_empty_org_is_still_an_org() {
    let policy = policy_from_args(&parse_args(&words(&["org", "client_id="]))).unwrap();
    assert_eq!(policy.org, "");
    assert_eq!(policy.client_id, "");
}

#[test]
fn input_is_collected_in_two_modes() {
    assert!(PromptMode::HiddenInput.collects_input());
    assert!(PromptMode::VisibleInput.collects_input());
    assert!(!PromptMode::InfoDisplay.collects_input());
    assert!(!PromptMode::ErrorDisplay.collects_input());
}

#[test]
fn input_modes_yield_the_reply() {
    assert_eq!(prompt_user(PromptMode::VisibleInput, &returned(Some("y"))), Ok("y".to_string()));
    assert_eq!(prompt_user(PromptMode::HiddenInput, &returned(Some(""))), Ok(String::new()));
}

#[test]
fn display_modes_yield_no_text() {
    assert_eq!(prompt_user(PromptMode::InfoDisplay, &returned(Some("stray"))), Ok(String::new()));
    assert_eq!(prompt_user(PromptMode::ErrorDisplay, &returned(Some(""))), Ok(String::new()));
}

#[test]
fn prompt_fails_without_callback_or_response() {
    for mode in [
        PromptMode::HiddenInput,
        PromptMode::VisibleInput,
        PromptMode::InfoDisplay,
        PromptMode::ErrorDisplay,
    ] {
        assert_eq!(prompt_user(mode, &Conversation::Unavailable), Err(PromptError::Unavailable));
        assert_eq!(prompt_user(mode, &returned(None)), Err(PromptError::NoResponse));
    }
}

#[test]
fn prompt_fails_with_the_callbacks_status() {
    assert_eq!(
        prompt_user(PromptMode::VisibleInput, &broke(5)),
        Err(PromptError::Failed { status: 5 })
    );
    assert_eq!(
        prompt_user(PromptMode::ErrorDisplay, &broke(-1)),
        Err(PromptError::Failed { status: -1 })
    );
}

#[test]
fn prompt_errors_in_words() {
    assert_eq!(describe_prompt_error(PromptError::Unavailable), "no conversation function");
    assert_eq!(
        describe_prompt_error(PromptError::Failed { status: 19 }),
        "conversation failed with status 19"
    );
    assert_eq!(
        describe_prompt_error(PromptError::Failed { status: -7 }),
        "conversation failed with status -7"
    );
    assert_eq!(
        describe_prompt_error(PromptError::Failed { status: i32::MIN }),
        "conversation failed with status -2147483648"
    );
    assert_eq!(
        describe_prompt_error(PromptError::Failed { status: 0 }),
        "conversation failed with status 0"
    );
    assert_eq!(describe_prompt_error(PromptError::NoResponse), "conversation gave no response");
}

#[test]
fn log_entry_is_a_dated_line_and_a_logger_call() {
    let entry = log_to_file("2024-05-01 12:00:00", "Created user alice");
    assert_eq!(entry.file, "/tmp/github_ssh.log");
    assert_eq!(entry.line, "[2024-05-01 12:00:00] Created user alice");
    assert_eq!(
        entry.notify,
        SystemAction::Run {
            program: "logger".to_string(),
            args: words(&["-t", "github_ssh_auth", "Created user alice"]),
        }
    );
    assert_eq!(timestamp_format(), "%Y-%m-%d %H:%M:%S");
}
