use ssh_with_gh::args::{parse_args, Args};
use ssh_with_gh::auth::{
    begin, instructions_for, notice_prompt, refusal, step, Action, Event, Outcome, Session, Stage,
    Step,
};
use ssh_with_gh::github::{
    auth_code_request, identity_request, membership_request, token_request, Redemption,
};
use ssh_with_gh::http::HttpOutcome;
use ssh_with_gh::prompt::{Conversation, PromptMode};
use ssh_with_gh::user::{Provisioning, SystemAction, SystemResult};

fn args(items: &[&str]) -> Args {
    parse_args(&items.iter().map(|s| s.to_string()).collect())
}

fn words(items: &[&str]) -> Vec<String> {
    items.iter().map(|s| s.to_string()).collect()
}

fn reply(status: u16, body: &str) -> Event {
    Event::Http { outcome: HttpOutcome::Reply { status, body: body.to_string() } }
}

fn unreachable_provider() -> Event {
    Event::Http { outcome: HttpOutcome::Failed { reason: "connection refused".to_string() } }
}

fn typed(text: &str) -> Event {
    Event::Conversation { conversation: Conversation::Returned { reply: Some(text.to_string()) } }
}

fn conversation_failed(status: i32) -> Event {
    Event::Conversation { conversation: Conversation::Failed { status } }
}

fn no_response() -> Event {
    Event::Conversation { conversation: Conversation::Returned { reply: None } }
}

fn ran_well() -> Event {
    Event::System { result: SystemResult::Exited { success: true, stderr: String::new() } }
}

fn ran_badly(stderr: &str) -> Event {
    Event::System { result: SystemResult::Exited { success: false, stderr: stderr.to_string() } }
}

fn probed(exists: bool) -> Event {
    Event::System { result: SystemResult::Probed { exists } }
}

fn sudo(items: &[&str]) -> Action {
    Action::System {
        action: SystemAction::Run { program: "sudo".to_string(), args: words(items) },
    }
}

/// What an attempt came to: its outcome if it is over, the notice for the
/// operator, every action it asked for and every line it logged.
struct Trace {
    outcome: Option<Outcome>,
    notice: Option<String>,
    actions: Vec<Action>,
    log: Vec<String>,
    unused: usize,
}

fn run(username: &str, arguments: &[&str], events: Vec<Event>) -> Trace {
    let mut trace =
        Trace { outcome: None, notice: None, actions: Vec::new(), log: Vec::new(), unused: 0 };
    let mut current = begin(username, &args(arguments));
    let mut events = events.into_iter();
    loop {
        match current {
            Step::Finish { outcome, notice, log } => {
                trace.outcome = Some(outcome);
                trace.notice = notice;
                trace.log.extend(log);
                break;
            }
            Step::Perform { session, action, log } => {
                trace.actions.push(action);
                trace.log.extend(log);
                match events.next() {
                    Some(event) => current = step(session, &event),
                    None => break,
                }
            }
        }
    }
    trace.unused = events.count();
    trace
}

fn up_to_membership() -> Vec<Event> {
    vec![
        reply(200, r#"{"device_code":" dc-1 ","user_code":"WDJB-MJHT"}"#),
        typed(""),
        reply(200, r#"{"access_token":"gho_x"}"#),
        reply(200, r#"{"login":"Alice"}"#),
        reply(200, r#"{"state":"active","role":"member"}"#),
    ]
}

fn with(mut events: Vec<Event>, more: Vec<Event>) -> Vec<Event> {
    events.extend(more);
    events
}

fn is_system(action: &Action) -> bool {
    matches!(action, Action::System { .. })
}

#[test]
fn parting_notice_is_an_error_message() {
    assert_eq!(
        notice_prompt("Unauthorized access"),
        Action::Prompt {
            text: "Unauthorized access".to_string(),
            mode: PromptMode::ErrorDisplay
        }
    );
}

#[test]
fn arguments_are_judged_without_a_user_name() {
    assert_eq!(refusal(&args(&["org=acme", "client_id=abc"])), None);
    assert_eq!(refusal(&args(&["org", "client_id", "team=t"])), None);
    assert_eq!(
        refusal(&args(&["client_id=abc"])),
        Some(Step::Finish {
            outcome: Outcome::ServiceError,
            notice: None,
            log: words(&["Missing organization name"]),
        })
    );
    assert_eq!(
        refusal(&args(&["org=acme"])),
        Some(Step::Finish {
            outcome: Outcome::ServiceError,
            notice: None,
            log: words(&["Missing client ID"]),
        })
    );
    for arguments in [vec![], vec!["org=acme"], vec!["client_id=abc"], vec!["team=t"]] {
        for username in ["alice", "", "Bob"] {
            assert_eq!(Some(begin(username, &args(&arguments))), refusal(&args(&arguments)));
        }
    }
}

#[test]
fn missing_org_is_a_service_error_before_any_request() {
    for arguments in [vec![], vec!["client_id=abc"], vec!["client_id=abc", "team=t"]] {
        let trace = run("alice", &arguments, vec![]);
        assert_eq!(trace.outcome, Some(Outcome::ServiceError));
        assert_eq!(trace.notice, None);
        assert!(trace.actions.is_empty());
        assert_eq!(trace.log, words(&["Missing organization name"]));
    }
}

#[test]
fn missing_client_id_is_a_service_error_before_any_request() {
    let trace = run("alice", &["org=acme", "auto_create_user"], vec![]);
    assert_eq!(trace.outcome, Some(Outcome::ServiceError));
    assert!(trace.actions.is_empty());
    assert_eq!(trace.log, words(&["Missing client ID"]));
}

#[test]
fn attempt_opens_with_the_device_flow_request() {
    match begin("Alice", &args(&["org=acme", "client_id=abc"])) {
        Step::Perform { session, action, log } => {
            assert_eq!(session.username, "alice");
            assert_eq!(session.policy.org, "acme");
            assert_eq!(session.policy.client_id, "abc");
            assert_eq!(session.stage, Stage::CodeRequested);
            assert_eq!(action, Action::Http { request: auth_code_request("abc") });
            assert_eq!(log, words(&["Authentication request for username: alice"]));
        }
        other => panic!("{:?}", other),
    }
}

#[test]
fn user_name_is_put_in_ascii_lower_case() {
    let name_after = |username: &str| match begin(username, &args(&["org=o", "client_id=c"])) {
        Step::Perform { session, .. } => session.username,
        other => panic!("{:?}", other),
    };
    assert_eq!(name_after("Alice"), "alice");
    assert_eq!(name_after("AZ-az_09"), "az-az_09");
    assert_eq!(name_after("\u{c9}RIC"), "\u{c9}ric");
    assert_eq!(name_after("@[`{"), "@[`{");
}

#[test]
fn device_code_is_trimmed_before_it_is_redeemed() {
    let opened = match begin("alice", &args(&["org=o", "client_id=c"])) {
        Step::Perform { session, .. } => session,
        other => panic!("{:?}", other),
    };
    let body = "{\"device_code\":\"\\t dc 1 \\n\",\"user_code\":\" UC \"}";
    match step(opened, &reply(200, body)) {
        Step::Perform { session, action, .. } => {
            assert_eq!(session.stage, Stage::CodeDisplayed { device_code: "dc 1".to_string() });
            assert_eq!(
                action,
                Action::Prompt { text: instructions_for(" UC "), mode: PromptMode::HiddenInput }
            );
        }
        other => panic!("{:?}", other),
    }
}

#[test]
fn instructions_embed_the_user_code() {
    assert_eq!(
        instructions_for("WDJB-MJHT"),
        "Please visit https://github.com/login/device and enter the following code: WDJB-MJHT\nYou have 10 minutes to complete this step.\n        \nAfter a successful login, press Enter to continue..."
    );
}

#[test]
fn plain_member_succeeds_without_provisioning() {
    let trace =
        run("alice", &["org=acme", "client_id=abc"], with(up_to_membership(), vec![typed("")]));
    assert_eq!(trace.outcome, Some(Outcome::Success));
    assert_eq!(trace.notice, None);
    assert_eq!(trace.unused, 0);
    assert_eq!(
        trace.actions,
        vec![
            Action::Http { request: auth_code_request("abc") },
            Action::Prompt {
                text: instructions_for("WDJB-MJHT"),
                mode: PromptMode::HiddenInput
            },
            Action::Http { request: token_request("dc-1", "abc") },
            Action::Http { request: identity_request("gho_x") },
            Action::Http { request: membership_request("gho_x", "alice", "acme") },
            Action::Prompt {
                text: "Authentication successful".to_string(),
                mode: PromptMode::InfoDisplay
            },
        ]
    );
    assert!(!trace.actions.iter().any(is_system));
    assert_eq!(
        trace.log,
        words(&[
            "Authentication request for username: alice",
            "Authentication successful for user alice",
        ])
    );
}

#[test]
fn pending_member_is_let_in_like_an_active_one() {
    let mut events = up_to_membership();
    events[4] = reply(200, r#"{"state":"pending","role":"billing_manager"}"#);
    let trace = run("alice", &["org=acme", "client_id=abc"], with(events, vec![typed("")]));
    assert_eq!(trace.outcome, Some(Outcome::Success));
}

#[test]
fn outsider_of_the_team_is_turned_away() {
    let trace = run(
        "alice",
        &["org=acme", "client_id=abc", "team=platform"],
        with(up_to_membership(), vec![reply(404, "")]),
    );
    assert_eq!(trace.outcome, Some(Outcome::UserUnknown));
    assert_eq!(trace.notice, Some("User is not in the specified team".to_string()));
    assert_eq!(trace.actions.len(), 6);
    match &trace.actions[5] {
        Action::Http { request } => {
            assert_eq!(
                request.url,
                "https://api.github.com/orgs/acme/teams/platform/memberships/alice"
            );
        }
        other => panic!("{:?}", other),
    }
    assert_eq!(trace.log.last().unwrap(), "User is not in the specified team");
}

#[test]
fn team_member_is_let_in() {
    let trace = run(
        "alice",
        &["org=acme", "client_id=abc", "team=platform"],
        with(up_to_membership(), vec![reply(200, "{}"), typed("")]),
    );
    assert_eq!(trace.outcome, Some(Outcome::Success));
    assert_eq!(trace.actions.len(), 7);
}

#[test]
fn team_lookup_that_cannot_be_made_is_a_service_error() {
    let trace = run(
        "alice",
        &["org=acme", "client_id=abc", "team=platform"],
        with(up_to_membership(), vec![unreachable_provider()]),
    );
    assert_eq!(trace.outcome, Some(Outcome::ServiceError));
    assert_eq!(trace.notice, None);
    assert_eq!(
        trace.log.last().unwrap(),
        "Failed to check team membership: Other: Failed to send request for team membership: connection refused"
    );
}

#[test]
fn new_account_is_created_with_rights() {
    let trace = run(
        "alice",
        &["org=acme", "client_id=abc", "auto_create_user=sudoer"],
        with(
            up_to_membership(),
            vec![
                typed(""),
                ran_badly("id: 'alice': no such user"),
                ran_well(),
                probed(false),
                ran_well(),
                probed(false),
                ran_well(),
                ran_well(),
                ran_well(),
                ran_well(),
                probed(false),
                ran_well(),
                ran_well(),
            ],
        ),
    );
    assert_eq!(trace.outcome, Some(Outcome::Success));
    assert_eq!(trace.unused, 0);
    assert_eq!(
        trace.actions[6..].to_vec(),
        vec![
            Action::System {
                action: SystemAction::Run { program: "id".to_string(), args: words(&["alice"]) }
            },
            sudo(&["useradd", "-m", "-s", "/bin/bash", "alice"]),
            Action::System { action: SystemAction::Probe { path: "/home/alice/.ssh".to_string() } },
            sudo(&["mkdir", "-p", "/home/alice/.ssh"]),
            Action::System {
                action: SystemAction::Probe {
                    path: "/home/alice/.ssh/authorized_keys".to_string()
                }
            },
            sudo(&["touch", "/home/alice/.ssh/authorized_keys"]),
            sudo(&["chmod", "700", "/home/alice/.ssh"]),
            sudo(&["chmod", "600", "/home/alice/.ssh/authorized_keys"]),
            sudo(&["chown", "-R", "alice:alice", "/home/alice"]),
            Action::System {
                action: SystemAction::Probe { path: "/etc/sudoers.d/alice".to_string() }
            },
            sudo(&[
                "bash",
                "-c",
                "printf '%s\\n' \"$1\" > \"$2\" && chmod 0440 \"$2\"",
                "sudoers",
                "alice  ALL=(ALL) NOPASSWD:ALL",
                "/etc/sudoers.d/alice",
            ]),
            sudo(&["visudo", "-c", "-f", "/etc/sudoers.d/alice"]),
        ]
    );
    assert_eq!(
        trace.log,
        words(&[
            "Authentication request for username: alice",
            "Authentication successful for user alice",
            "Creating user: alice",
            "Created sudoers file for alice",
            "Added user alice to sudoers",
            "Created user alice",
        ])
    );
}

#[test]
fn rights_that_cannot_be_granted_fail_the_attempt() {
    let made = || {
        with(
            up_to_membership(),
            vec![
                typed(""),
                ran_badly(""),
                ran_well(),
                probed(true),
                probed(true),
                ran_well(),
                ran_well(),
                ran_well(),
                probed(false),
            ],
        )
    };
    let arguments = ["org=acme", "client_id=abc", "auto_create_user=sudoer"];
    let trace = run("alice", &arguments, with(made(), vec![ran_badly("read-only file system")]));
    assert_eq!(trace.outcome, Some(Outcome::ServiceError));
    assert_eq!(trace.notice, None);
    assert_eq!(trace.unused, 0);
    assert_eq!(
        trace.log.last().unwrap(),
        "Failed to create user: Failed to add user to sudoers: Failed to create sudoers file: read-only file system"
    );
    let trace = run(
        "alice",
        &arguments,
        with(made(), vec![ran_well(), ran_badly("syntax error"), ran_well()]),
    );
    assert_eq!(trace.outcome, Some(Outcome::ServiceError));
    assert_eq!(trace.unused, 0);
    assert_eq!(
        trace.log.last().unwrap(),
        "Failed to create user: Failed to add user to sudoers: Invalid sudoers syntax: syntax error"
    );
    let with_import = ["org=acme", "client_id=abc", "auto_create_user=sudoer", "allow_import_keys"];
    let trace = run("alice", &with_import, with(made(), vec![ran_badly("x")]));
    assert_eq!(trace.outcome, Some(Outcome::ServiceError));
    assert!(!trace.actions.iter().any(|a| matches!(a, Action::Prompt { mode: PromptMode::VisibleInput, .. })));
}

#[test]
fn imported_key_is_never_part_of_the_script() {
    let key = "ssh-rsa AAAA' ; id #";
    let trace = run(
        "alice",
        &["org=acme", "client_id=abc", "allow_import_keys"],
        with(up_to_membership(), vec![typed(""), typed("y"), reply(200, key), ran_well()]),
    );
    assert_eq!(trace.outcome, Some(Outcome::Success));
    assert_eq!(
        trace.actions[8],
        sudo(&[
            "bash",
            "-c",
            "printf '%s\\n' \"$1\" >> \"$2\"",
            "authorized_keys",
            key,
            "/home/alice/.ssh/authorized_keys",
        ])
    );
}

#[test]
fn existing_account_is_probed_and_nothing_more() {
    let trace = run(
        "alice",
        &["org=acme", "client_id=abc", "auto_create_user"],
        with(up_to_membership(), vec![typed(""), ran_well()]),
    );
    assert_eq!(trace.outcome, Some(Outcome::Success));
    assert_eq!(trace.actions.iter().filter(|a| is_system(a)).count(), 1);
    assert_eq!(trace.log.last().unwrap(), "User alice already exists");
}

#[test]
fn plain_account_is_created_without_rights() {
    let trace = run(
        "alice",
        &["org=acme", "client_id=abc", "auto_create_user"],
        with(
            up_to_membership(),
            vec![
                typed(""),
                ran_badly(""),
                ran_well(),
                probed(true),
                probed(true),
                ran_well(),
                ran_well(),
                ran_well(),
            ],
        ),
    );
    assert_eq!(trace.outcome, Some(Outcome::Success));
    assert_eq!(trace.unused, 0);
    assert_eq!(trace.log.last().unwrap(), "Created user alice");
    assert!(!trace.log.iter().any(|line| line.contains("sudoers")));
}

#[test]
fn failed_provisioning_is_a_service_error() {
    let trace = run(
        "alice",
        &["org=acme", "client_id=abc", "auto_create_user", "allow_import_keys"],
        with(up_to_membership(), vec![typed(""), ran_badly(""), ran_badly("useradd: locked")]),
    );
    assert_eq!(trace.outcome, Some(Outcome::ServiceError));
    assert_eq!(trace.notice, None);
    assert_eq!(
        trace.log.last().unwrap(),
        "Failed to create user: Failed to create user: useradd: locked"
    );
}

#[test]
fn declined_import_succeeds_without_import() {
    let trace = run(
        "alice",
        &["org=acme", "client_id=abc", "allow_import_keys"],
        with(up_to_membership(), vec![typed(""), typed("n")]),
    );
    assert_eq!(trace.outcome, Some(Outcome::Success));
    assert_eq!(trace.unused, 0);
    assert_eq!(trace.actions.len(), 7);
    assert_eq!(
        trace.actions[6],
        Action::Prompt {
            text: "Do you want to import your SSH keys from GitHub? (y/n) ".to_string(),
            mode: PromptMode::VisibleInput
        }
    );
    assert!(!trace.actions.iter().any(is_system));
    assert_eq!(trace.log.last().unwrap(), "User declined to import keys");
}

#[test]
fn anything_but_yes_declines_the_import() {
    for answer in ["", "no", "yes", "yy", "N", "j"] {
        let trace = run(
            "alice",
            &["org=acme", "client_id=abc", "allow_import_keys"],
            with(up_to_membership(), vec![typed(""), typed(answer)]),
        );
        assert_eq!(trace.outcome, Some(Outcome::Success));
        assert_eq!(trace.actions.len(), 7);
    }
}

#[test]
fn accepted_import_fetches_and_writes_the_keys() {
    for answer in ["y", "Y", " y\n"] {
        let trace = run(
            "alice",
            &["org=acme", "client_id=abc", "allow_import_keys"],
            with(
                up_to_membership(),
                vec![typed(""), typed(answer), reply(200, "ssh-ed25519 AAAA"), ran_well()],
            ),
        );
        assert_eq!(trace.outcome, Some(Outcome::Success));
        assert_eq!(trace.unused, 0);
        match &trace.actions[7] {
            Action::Http { request } => assert_eq!(request.url, "https://github.com/alice.keys"),
            other => panic!("{:?}", other),
        }
        assert_eq!(
            trace.actions[8],
            sudo(&[
                "bash",
                "-c",
                "printf '%s\\n' \"$1\" >> \"$2\"",
                "authorized_keys",
                "ssh-ed25519 AAAA",
                "/home/alice/.ssh/authorized_keys",
            ])
        );
        assert_eq!(
            trace.log[2..].to_vec(),
            words(&["User accepted to import keys", "Imported keys for user alice"])
        );
    }
}

#[test]
fn failed_import_is_a_service_error() {
    let base = || with(up_to_membership(), vec![typed(""), typed("y")]);
    let arguments = ["org=acme", "client_id=abc", "allow_import_keys"];
    let trace = run("alice", &arguments, with(base(), vec![reply(404, "")]));
    assert_eq!(trace.outcome, Some(Outcome::ServiceError));
    assert_eq!(trace.log.last().unwrap(), "Failed to import keys: NotFound");
    let trace =
        run("alice", &arguments, with(base(), vec![reply(200, "k"), ran_badly("denied")]));
    assert_eq!(trace.outcome, Some(Outcome::ServiceError));
    assert_eq!(
        trace.log.last().unwrap(),
        "Failed to import keys: Failed to add key to authorized_keys: denied"
    );
    let trace =
        run("alice", &arguments, with(up_to_membership(), vec![typed(""), conversation_failed(19)]));
    assert_eq!(trace.outcome, Some(Outcome::ServiceError));
    assert_eq!(
        trace.log.last().unwrap(),
        "Failed to prompt user: conversation failed with status 19"
    );
    let trace = run("alice", &arguments, with(up_to_membership(), vec![typed(""), no_response()]));
    assert_eq!(trace.outcome, Some(Outcome::ServiceError));
    assert_eq!(trace.log.last().unwrap(), "Failed to prompt user: conversation gave no response");
}

#[test]
fn device_flow_failure_is_a_service_error() {
    for event in [reply(401, ""), reply(403, ""), reply(500, ""), reply(200, "{}"), unreachable_provider()] {
        let trace = run("alice", &["org=acme", "client_id=abc"], vec![event]);
        assert_eq!(trace.outcome, Some(Outcome::ServiceError));
        assert_eq!(trace.notice, None);
        assert_eq!(trace.actions.len(), 1);
    }
    let trace = run("alice", &["org=acme", "client_id=abc"], vec![reply(401, "")]);
    assert_eq!(trace.log.last().unwrap(), "Failed to get device code: Unauthorized");
}

#[test]
fn failed_code_display_is_a_service_error() {
    let events = vec![
        reply(200, r#"{"device_code":"dc","user_code":"UC"}"#),
        Event::Conversation { conversation: Conversation::Unavailable },
    ];
    let trace = run("alice", &["org=acme", "client_id=abc"], events);
    assert_eq!(trace.outcome, Some(Outcome::ServiceError));
    assert_eq!(trace.actions.len(), 2);
    assert_eq!(trace.log.last().unwrap(), "Failed to prompt user: no conversation function");
}

#[test]
fn what_the_operator_types_at_the_code_is_ignored() {
    let mut events = up_to_membership();
    events[1] = typed("hunter2");
    let trace = run("alice", &["org=acme", "client_id=abc"], with(events, vec![typed("")]));
    assert_eq!(trace.outcome, Some(Outcome::Success));
    assert!(!trace.log.iter().any(|line| line.contains("hunter2")));
}

#[test]
fn unauthorized_device_is_turned_away() {
    let mut events = up_to_membership();
    events.truncate(2);
    events.push(reply(200, r#"{"error":"authorization_pending"}"#));
    let trace = run("alice", &["org=acme", "client_id=abc"], events);
    assert_eq!(trace.outcome, Some(Outcome::UserUnknown));
    assert_eq!(trace.notice, Some("Unauthorized access".to_string()));
    assert_eq!(trace.log.last().unwrap(), "Unauthorized access");
}

#[test]
fn account_unknown_to_the_organisation_is_turned_away() {
    let mut events = up_to_membership();
    events[4] = reply(404, "");
    let trace = run("alice", &["org=acme", "client_id=abc"], events);
    assert_eq!(trace.outcome, Some(Outcome::UserUnknown));
    assert_eq!(trace.notice, Some("User not found in organization".to_string()));
    assert_eq!(trace.log.last().unwrap(), "User not found in organization");
}

#[test]
fn token_of_another_account_is_turned_away() {
    for membership in [
        r#"{"state":"active","role":"admin"}"#,
        r#"{"state":"pending","role":"member"}"#,
    ] {
        let mut events = up_to_membership();
        events[3] = reply(200, r#"{"login":"mallory"}"#);
        events[4] = reply(200, membership);
        let trace = run("alice", &["org=acme", "client_id=abc"], events);
        assert_eq!(trace.outcome, Some(Outcome::UserUnknown));
        assert_eq!(trace.notice, None);
        assert_eq!(trace.actions.len(), 4);
        assert_eq!(trace.unused, 1);
        assert_eq!(
            trace.log.last().unwrap(),
            "Invalid user: Username does not match: alice != mallory"
        );
    }
}

#[test]
fn other_redemption_failures_are_service_errors() {
    for (at, event) in [
        (2, reply(403, "")),
        (2, reply(500, "")),
        (2, unreachable_provider()),
        (3, reply(403, "")),
        (3, reply(200, "{}")),
        (4, reply(403, "")),
        (4, reply(200, "{}")),
        (4, unreachable_provider()),
    ] {
        let mut events = up_to_membership();
        events.truncate(at);
        events.push(event);
        let trace = run("alice", &["org=acme", "client_id=abc"], events);
        assert_eq!(trace.outcome, Some(Outcome::ServiceError));
        assert_eq!(trace.notice, None);
    }
    let mut events = up_to_membership();
    events[4] = reply(403, "");
    let trace = run("alice", &["org=acme", "client_id=abc"], events);
    assert_eq!(trace.log.last().unwrap(), "Unexpected error: Forbidden");
}

#[test]
fn success_message_that_cannot_be_shown_is_a_service_error() {
    let trace = run(
        "alice",
        &["org=acme", "client_id=abc"],
        with(up_to_membership(), vec![conversation_failed(7)]),
    );
    assert_eq!(trace.outcome, Some(Outcome::ServiceError));
    assert_eq!(
        trace.log.last().unwrap(),
        "Failed to prompt user: conversation failed with status 7"
    );
}

#[test]
fn event_of_the_wrong_kind_is_a_service_error() {
    let trace = run("alice", &["org=acme", "client_id=abc"], vec![typed("")]);
    assert_eq!(trace.outcome, Some(Outcome::ServiceError));
    assert_eq!(trace.log.last().unwrap(), "Unexpected event");
    let trace = run(
        "alice",
        &["org=acme", "client_id=abc"],
        with(up_to_membership(), vec![ran_well()]),
    );
    assert_eq!(trace.outcome, Some(Outcome::ServiceError));
    let session = Session {
        username: "alice".to_string(),
        policy: ssh_with_gh::args::policy_from_args(&args(&["org=acme", "client_id=abc"]))
            .unwrap(),
        stage: Stage::KeysImporting,
    };
    assert_eq!(
        step(session, &reply(200, "")),
        Step::Finish {
            outcome: Outcome::ServiceError,
            notice: None,
            log: words(&["Unexpected event"])
        }
    );
}

#[test]
fn stages_follow_the_redemption() {
    let session = Session {
        username: "alice".to_string(),
        policy: ssh_with_gh::args::policy_from_args(&args(&["org=acme", "client_id=abc"]))
            .unwrap(),
        stage: Stage::Redeeming { exchange: Redemption::Token },
    };
    match step(session, &reply(200, r#"{"access_token":"gho_x"}"#)) {
        Step::Perform { session, action, log } => {
            assert_eq!(
                session.stage,
                Stage::Redeeming { exchange: Redemption::Identity { token: "gho_x".to_string() } }
            );
            assert_eq!(action, Action::Http { request: identity_request("gho_x") });
            assert!(log.is_empty());
        }
        other => panic!("{:?}", other),
    }
}

#[test]
fn provisioning_stage_is_entered_at_the_account_probe() {
    let trace_events = with(up_to_membership(), vec![typed("")]);
    let mut current = begin("alice", &args(&["org=acme", "client_id=abc", "auto_create_user"]));
    for event in trace_events {
        current = match current {
            Step::Perform { session, .. } => step(session, &event),
            other => panic!("{:?}", other),
        };
    }
    match current {
        Step::Perform { session, .. } => match session.stage {
            Stage::Provisioning { progress, .. } => assert_eq!(progress, Provisioning::Account),
            other => panic!("{:?}", other),
        },
        other => panic!("{:?}", other),
    }
}
