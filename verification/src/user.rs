//! Local accounts: the commands that make one, and what their results mean.
//!
//! Nothing here runs a command. Each step names the next thing to do on the
//! system (a program to run, a path to look for) and reads the result of the
//! previous one.

use vstd::prelude::*;
use vstd::string::*;
use crate::text::{join, no_texts, push_text, texts};

verus! {

/// Something to do on the system.
#[derive(Clone, Debug, PartialEq, Eq)]
pub enum SystemAction {
    /// Run `program` with `args` and wait for it to end.
    Run { program: String, args: Vec<String> },
    /// Find out whether `path` exists.
    Probe { path: String },
}

/// The mathematical content of a `SystemAction`.
pub ghost enum SystemActionView {
    Run { program: Seq<char>, args: Seq<Seq<char>> },
    Probe { path: Seq<char> },
}

impl View for SystemAction {
    type V = SystemActionView;

    open spec fn view(&self) -> SystemActionView {
        match self {
            SystemAction::Run { program, args } => SystemActionView::Run {
                program: program@,
                args: args.deep_view(),
            },
            SystemAction::Probe { path } => SystemActionView::Probe { path: path@ },
        }
    }
}

/// What a `SystemAction` came to.
#[derive(Clone, Debug, PartialEq, Eq)]
pub enum SystemResult {
    /// The program ran and ended, with or without success; `stderr` is what
    /// it wrote to its error stream.
    Exited { success: bool, stderr: String },
    /// The program could not be started.
    NotStarted { reason: String },
    /// The path was looked for.
    Probed { exists: bool },
}

/// The mathematical content of a `SystemResult`.
pub ghost enum SystemResultView {
    Exited { success: bool, stderr: Seq<char> },
    NotStarted { reason: Seq<char> },
    Probed { exists: bool },
}

impl View for SystemResult {
    type V = SystemResultView;

    open spec fn view(&self) -> SystemResultView {
        match self {
            SystemResult::Exited { success, stderr } => SystemResultView::Exited {
                success: *success,
                stderr: stderr@,
            },
            SystemResult::NotStarted { reason } => SystemResultView::NotStarted { reason: reason@ },
            SystemResult::Probed { exists } => SystemResultView::Probed { exists: *exists },
        }
    }
}

/// The home directory of `username`.
pub open spec fn home_dir(username: Seq<char>) -> Seq<char> {
    "/home/"@ + username
}

/// The directory that holds the login keys of `username`.
pub open spec fn ssh_dir(username: Seq<char>) -> Seq<char> {
    home_dir(username) + "/.ssh"@
}

/// The file that holds the login keys of `username`.
pub open spec fn key_file(username: Seq<char>) -> Seq<char> {
    ssh_dir(username) + "/authorized_keys"@
}

/// The file that grants `username` administrative rights.
pub open spec fn sudoers_file(username: Seq<char>) -> Seq<char> {
    "/etc/sudoers.d/"@ + username
}

/// The line that grants `username` administrative rights.
pub open spec fn sudoers_entry(username: Seq<char>) -> Seq<char> {
    username + "  ALL=(ALL) NOPASSWD:ALL"@
}

/// The shell script that writes its first argument as one line to the file
/// named by its second and makes that file read-only. The script is a fixed
/// text: what it writes and where reach it as arguments, never as part of
/// the script.
pub open spec fn sudoers_script() -> Seq<char> {
    "printf '%s\\n' \"$1\" > \"$2\" && chmod 0440 \"$2\""@
}

/// The shell script that appends its first argument as one line to the file
/// named by its second. The script is a fixed text: the key and the file
/// reach it as arguments, never as part of the script.
pub open spec fn key_script() -> Seq<char> {
    "printf '%s\\n' \"$1\" >> \"$2\""@
}

/// The command that writes the grant for `username`.
pub open spec fn sudoers_write(username: Seq<char>) -> SystemActionView {
    sudo(
        seq![
            "bash"@,
            "-c"@,
            sudoers_script(),
            "sudoers"@,
            sudoers_entry(username),
            sudoers_file(username),
        ],
    )
}

/// Running `sudo` with `args`.
pub open spec fn sudo(args: Seq<Seq<char>>) -> SystemActionView {
    SystemActionView::Run { program: "sudo"@, args }
}

/// Why a command counts as failed, if it does: it ended without success
/// (`exit_context` and its error output), it could not be started
/// (`start_context` and the reason), or the result is not that of a command.
pub open spec fn command_failure(
    result: SystemResultView,
    start_context: Seq<char>,
    exit_context: Seq<char>,
) -> Option<Seq<char>> {
    match result {
        SystemResultView::Exited { success, stderr } => if success {
            None
        } else {
            Some(exit_context + stderr)
        },
        SystemResultView::NotStarted { reason } => Some(start_context + reason),
        SystemResultView::Probed { exists } => Some(start_context + "no command was run"@),
    }
}

/// Whether a result says that the path looked for exists.
pub open spec fn found(result: SystemResultView) -> bool {
    result == (SystemResultView::Probed { exists: true })
}

/// Whether a result says that a program ran and ended with success.
pub open spec fn succeeded(result: SystemResultView) -> bool {
    result matches SystemResultView::Exited { success, .. } && success
}

/// Computes `command_failure`.
pub fn failure_of(result: &SystemResult, start_context: &str, exit_context: &str) -> (r: Option<
    String,
>)
    ensures
        r.deep_view() == command_failure(result@, start_context@, exit_context@),
{
    match result {
        SystemResult::Exited { success, stderr } => {
            if *success {
                None
            } else {
                Some(join(exit_context, stderr.as_str()))
            }
        },
        SystemResult::NotStarted { reason } => Some(join(start_context, reason.as_str())),
        SystemResult::Probed { exists } => Some(join(start_context, "no command was run")),
    }
}

/// Computes `found`.
pub fn is_found(result: &SystemResult) -> (r: bool)
    ensures
        r == found(result@),
{
    match result {
        SystemResult::Probed { exists } => *exists,
        _ => false,
    }
}

/// Computes `succeeded`.
pub fn has_succeeded(result: &SystemResult) -> (r: bool)
    ensures
        r == succeeded(result@),
{
    match result {
        SystemResult::Exited { success, stderr } => *success,
        _ => false,
    }
}

/// Computes `home_dir`.
pub fn home_dir_of(username: &str) -> (r: String)
    ensures
        r@ == home_dir(username@),
{
    join("/home/", username)
}

/// Computes `ssh_dir`.
pub fn ssh_dir_of(username: &str) -> (r: String)
    ensures
        r@ == ssh_dir(username@),
{
    home_dir_of(username).concat("/.ssh")
}

/// Computes `key_file`.
pub fn key_file_of(username: &str) -> (r: String)
    ensures
        r@ == key_file(username@),
{
    ssh_dir_of(username).concat("/authorized_keys")
}

/// Computes `sudoers_file`.
pub fn sudoers_file_of(username: &str) -> (r: String)
    ensures
        r@ == sudoers_file(username@),
{
    join("/etc/sudoers.d/", username)
}

/// Builds the action that runs `sudo` with `args`.
pub fn sudo_run(args: Vec<&str>) -> (r: SystemAction)
    ensures
        r@ == sudo(args.deep_view()),
{
    SystemAction::Run { program: String::from_str("sudo"), args: texts(args) }
}

/// How far the granting of administrative rights has got.
#[derive(Clone, Debug, PartialEq, Eq)]
pub enum SudoersStage {
    /// The grant file is being looked for.
    Probe,
    /// The grant file is being written.
    Write,
    /// The grant file is being checked by `visudo`.
    Check,
    /// The grant file failed the check with `complaint` and is being removed.
    Remove { complaint: String },
}

/// The mathematical content of a `SudoersStage`.
pub ghost enum SudoersStageView {
    Probe,
    Write,
    Check,
    Remove { complaint: Seq<char> },
}

impl View for SudoersStage {
    type V = SudoersStageView;

    open spec fn view(&self) -> SudoersStageView {
        match self {
            SudoersStage::Probe => SudoersStageView::Probe,
            SudoersStage::Write => SudoersStageView::Write,
            SudoersStage::Check => SudoersStageView::Check,
            SudoersStage::Remove { complaint } => SudoersStageView::Remove {
                complaint: complaint@,
            },
        }
    }
}

/// What one step of granting administrative rights leads to.
#[derive(Debug, PartialEq, Eq)]
pub enum SudoersStep {
    Next { stage: SudoersStage, action: SystemAction },
    Done { result: Result<(), String>, log: Vec<String> },
}

/// The mathematical content of a `SudoersStep`.
pub ghost enum SudoersStepView {
    Next { stage: SudoersStageView, action: SystemActionView },
    Done { result: Result<(), Seq<char>>, log: Seq<Seq<char>> },
}

/// The mathematical content of a result that holds nothing or a complaint.
pub open spec fn done_view(r: Result<(), String>) -> Result<(), Seq<char>> {
    match r {
        Ok(u) => Ok(()),
        Err(e) => Err(e@),
    }
}

/// The mathematical content of a result that holds a flag or a complaint.
pub open spec fn existed_view(r: Result<bool, String>) -> Result<bool, Seq<char>> {
    match r {
        Ok(b) => Ok(b),
        Err(e) => Err(e@),
    }
}

impl View for SudoersStep {
    type V = SudoersStepView;

    open spec fn view(&self) -> SudoersStepView {
        match self {
            SudoersStep::Next { stage, action } => SudoersStepView::Next {
                stage: stage@,
                action: action@,
            },
            SudoersStep::Done { result, log } => SudoersStepView::Done {
                result: done_view(*result),
                log: log.deep_view(),
            },
        }
    }
}

/// The action that starts the granting of administrative rights.
pub open spec fn sudoers_probe(username: Seq<char>) -> SystemActionView {
    SystemActionView::Probe { path: sudoers_file(username) }
}

/// One step of granting administrative rights to `username`.
///
/// A grant file that is already there is left alone. A new one is written,
/// then checked; one that fails the check is removed again, and whatever the
/// removal comes to, the grant has failed with the checker's complaint.
pub open spec fn sudoers_step(
    stage: SudoersStageView,
    username: Seq<char>,
    result: SystemResultView,
) -> SudoersStepView {
    match stage {
        SudoersStageView::Probe => if found(result) {
            SudoersStepView::Done { result: Ok(()), log: Seq::empty() }
        } else {
            SudoersStepView::Next {
                stage: SudoersStageView::Write,
                action: sudoers_write(username),
            }
        },
        SudoersStageView::Write => match command_failure(
            result,
            "Failed to create sudoers file: "@,
            "Failed to create sudoers file: "@,
        ) {
            Some(why) => SudoersStepView::Done { result: Err(why), log: Seq::empty() },
            None => SudoersStepView::Next {
                stage: SudoersStageView::Check,
                action: sudo(seq!["visudo"@, "-c"@, "-f"@, sudoers_file(username)]),
            },
        },
        SudoersStageView::Check => match result {
            SystemResultView::Exited { success, stderr } => if success {
                SudoersStepView::Done {
                    result: Ok(()),
                    log: seq!["Created sudoers file for "@ + username],
                }
            } else {
                SudoersStepView::Next {
                    stage: SudoersStageView::Remove { complaint: stderr },
                    action: sudo(seq!["rm"@, "-f"@, sudoers_file(username)]),
                }
            },
            SystemResultView::NotStarted { reason } => SudoersStepView::Done {
                result: Err("Failed to verify sudoers file: "@ + reason),
                log: Seq::empty(),
            },
            SystemResultView::Probed { exists } => SudoersStepView::Done {
                result: Err("Failed to verify sudoers file: "@ + "no command was run"@),
                log: Seq::empty(),
            },
        },
        SudoersStageView::Remove { complaint } => SudoersStepView::Done {
            result: Err("Invalid sudoers syntax: "@ + complaint),
            log: Seq::empty(),
        },
    }
}

/// Builds the action that starts the granting of administrative rights.
pub fn sudoers_probe_for(username: &str) -> (r: SystemAction)
    ensures
        r@ == sudoers_probe(username@),
{
    SystemAction::Probe { path: sudoers_file_of(username) }
}

/// Advances the granting of administrative rights to `username` by the
/// result of the action that is out. It starts with `sudoers_probe_for` in
/// the stage `SudoersStage::Probe`.
pub fn add_user_to_sudoers(stage: SudoersStage, username: &str, result: &SystemResult) -> (r:
    SudoersStep)
    ensures
        r@ == sudoers_step(stage@, username@, result@),
{
    match stage {
        SudoersStage::Probe => {
            if is_found(result) {
                SudoersStep::Done { result: Ok(()), log: no_texts() }
            } else {
                let file = sudoers_file_of(username);
                let entry = join(username, "  ALL=(ALL) NOPASSWD:ALL");
                let args = vec![
                    "bash",
                    "-c",
                    "printf '%s\\n' \"$1\" > \"$2\" && chmod 0440 \"$2\"",
                    "sudoers",
                    entry.as_str(),
                    file.as_str(),
                ];
                assert(args.deep_view() =~= seq![
                    "bash"@,
                    "-c"@,
                    sudoers_script(),
                    "sudoers"@,
                    sudoers_entry(username@),
                    sudoers_file(username@),
                ]);
                SudoersStep::Next { stage: SudoersStage::Write, action: sudo_run(args) }
            }
        },
        SudoersStage::Write => {
            match failure_of(
                result,
                "Failed to create sudoers file: ",
                "Failed to create sudoers file: ",
            ) {
                Some(why) => SudoersStep::Done { result: Err(why), log: no_texts() },
                None => {
                    let file = sudoers_file_of(username);
                    let args = vec!["visudo", "-c", "-f", file.as_str()];
                    assert(args.deep_view() =~= seq![
                        "visudo"@,
                        "-c"@,
                        "-f"@,
                        sudoers_file(username@),
                    ]);
                    SudoersStep::Next { stage: SudoersStage::Check, action: sudo_run(args) }
                },
            }
        },
        SudoersStage::Check => {
            match result {
                SystemResult::Exited { success, stderr } => {
                    if *success {
                        let mut log = no_texts();
                        let line = join("Created sudoers file for ", username);
                        push_text(&mut log, line.as_str());
                        assert(log.deep_view() =~= seq!["Created sudoers file for "@ + username@]);
                        SudoersStep::Done { result: Ok(()), log }
                    } else {
                        let file = sudoers_file_of(username);
                        let args = vec!["rm", "-f", file.as_str()];
                        assert(args.deep_view() =~= seq!["rm"@, "-f"@, sudoers_file(username@)]);
                        SudoersStep::Next {
                            stage: SudoersStage::Remove { complaint: stderr.clone() },
                            action: sudo_run(args),
                        }
                    }
                },
                SystemResult::NotStarted { reason } => SudoersStep::Done {
                    result: Err(join("Failed to verify sudoers file: ", reason.as_str())),
                    log: no_texts(),
                },
                SystemResult::Probed { exists } => SudoersStep::Done {
                    result: Err(join("Failed to verify sudoers file: ", "no command was run")),
                    log: no_texts(),
                },
            }
        },
        SudoersStage::Remove { complaint } => SudoersStep::Done {
            result: Err(join("Invalid sudoers syntax: ", complaint.as_str())),
            log: no_texts(),
        },
    }
}

/// How far the provisioning of an account has got.
#[derive(Clone, Debug, PartialEq, Eq)]
pub enum Provisioning {
    /// The account is being looked up.
    Account,
    /// The account is being created.
    Create,
    /// The key directory is being looked for.
    SshDirProbe,
    /// The key directory is being made.
    SshDirMake,
    /// The key file is being looked for.
    KeyFileProbe,
    /// The key file is being made.
    KeyFileMake,
    /// The key directory is being closed to others.
    SshDirMode,
    /// The key file is being closed to others.
    KeyFileMode,
    /// The home directory is being handed to the account.
    HomeOwner,
    /// Administrative rights are being granted.
    Sudoers { stage: SudoersStage },
}

/// The mathematical content of a `Provisioning`.
pub ghost enum ProvisioningView {
    Account,
    Create,
    SshDirProbe,
    SshDirMake,
    KeyFileProbe,
    KeyFileMake,
    SshDirMode,
    KeyFileMode,
    HomeOwner,
    Sudoers { stage: SudoersStageView },
}

impl View for Provisioning {
    type V = ProvisioningView;

    open spec fn view(&self) -> ProvisioningView {
        match self {
            Provisioning::Account => ProvisioningView::Account,
            Provisioning::Create => ProvisioningView::Create,
            Provisioning::SshDirProbe => ProvisioningView::SshDirProbe,
            Provisioning::SshDirMake => ProvisioningView::SshDirMake,
            Provisioning::KeyFileProbe => ProvisioningView::KeyFileProbe,
            Provisioning::KeyFileMake => ProvisioningView::KeyFileMake,
            Provisioning::SshDirMode => ProvisioningView::SshDirMode,
            Provisioning::KeyFileMode => ProvisioningView::KeyFileMode,
            Provisioning::HomeOwner => ProvisioningView::HomeOwner,
            Provisioning::Sudoers { stage } => ProvisioningView::Sudoers { stage: stage@ },
        }
    }
}

/// What one step of provisioning leads to: another action, or the end, with
/// whether the account was already there. Either way `log` holds the lines
/// the step has for the diagnostic log.
#[derive(Debug, PartialEq, Eq)]
pub enum Provisioned {
    Next { stage: Provisioning, action: SystemAction, log: Vec<String> },
    Done { result: Result<bool, String>, log: Vec<String> },
}

/// The mathematical content of a `Provisioned`.
pub ghost enum ProvisionedView {
    Next { stage: ProvisioningView, action: SystemActionView, log: Seq<Seq<char>> },
    Done { result: Result<bool, Seq<char>>, log: Seq<Seq<char>> },
}

impl View for Provisioned {
    type V = ProvisionedView;

    open spec fn view(&self) -> ProvisionedView {
        match self {
            Provisioned::Next { stage, action, log } => ProvisionedView::Next {
                stage: stage@,
                action: action@,
                log: log.deep_view(),
            },
            Provisioned::Done { result, log } => ProvisionedView::Done {
                result: existed_view(*result),
                log: log.deep_view(),
            },
        }
    }
}

/// The action that starts provisioning: asking the system for the account.
pub open spec fn account_probe(username: Seq<char>) -> SystemActionView {
    SystemActionView::Run { program: "id"@, args: seq![username] }
}

/// The step that goes on to `stage` with `action` and logs nothing.
pub open spec fn go_on(stage: ProvisioningView, action: SystemActionView) -> ProvisionedView {
    ProvisionedView::Next { stage, action, log: Seq::empty() }
}

/// The step that gives provisioning up for the reason `why`.
pub open spec fn give_up(why: Seq<char>) -> ProvisionedView {
    ProvisionedView::Done { result: Err(why), log: Seq::empty() }
}

/// The action that closes the key directory of `username` to others.
pub open spec fn restrict_ssh_dir(username: Seq<char>) -> SystemActionView {
    sudo(seq!["chmod"@, "700"@, ssh_dir(username)])
}

/// The action that looks for the key file of `username`.
pub open spec fn key_file_probe(username: Seq<char>) -> SystemActionView {
    SystemActionView::Probe { path: key_file(username) }
}

/// What the end of granting administrative rights means for provisioning.
/// A grant that was made ends provisioning well and is logged. A grant that
/// failed fails the provisioning with it: rights that were asked for and
/// are not there are no success.
pub open spec fn after_sudoers(step: SudoersStepView, username: Seq<char>) -> ProvisionedView {
    match step {
        SudoersStepView::Next { stage, action } => go_on(
            ProvisioningView::Sudoers { stage },
            action,
        ),
        SudoersStepView::Done { result, log } => match result {
            Ok(u) => ProvisionedView::Done {
                result: Ok(false),
                log: log.push("Added user "@ + username + " to sudoers"@),
            },
            Err(why) => ProvisionedView::Done {
                result: Err("Failed to add user to sudoers: "@ + why),
                log,
            },
        },
    }
}

/// One step of provisioning the account `username`, with administrative
/// rights if `add_sudo`.
///
/// An account that is already there ends provisioning at once with
/// `Ok(true)`. Otherwise the account is created, its key directory and key
/// file are made where missing, both are closed to others, the home
/// directory is handed over, and rights are granted if asked for. Whatever
/// fails on the way, the grant included, ends provisioning with its
/// complaint.
pub open spec fn provision_step(
    stage: ProvisioningView,
    username: Seq<char>,
    add_sudo: bool,
    result: SystemResultView,
) -> ProvisionedView {
    match stage {
        ProvisioningView::Account => if succeeded(result) {
            ProvisionedView::Done { result: Ok(true), log: Seq::empty() }
        } else {
            ProvisionedView::Next {
                stage: ProvisioningView::Create,
                action: sudo(seq!["useradd"@, "-m"@, "-s"@, "/bin/bash"@, username]),
                log: seq!["Creating user: "@ + username],
            }
        },
        ProvisioningView::Create => match command_failure(
            result,
            "Failed to execute useradd: "@,
            "Failed to create user: "@,
        ) {
            Some(why) => give_up(why),
            None => go_on(
                ProvisioningView::SshDirProbe,
                SystemActionView::Probe { path: ssh_dir(username) },
            ),
        },
        ProvisioningView::SshDirProbe => if found(result) {
            go_on(ProvisioningView::KeyFileProbe, key_file_probe(username))
        } else {
            go_on(ProvisioningView::SshDirMake, sudo(seq!["mkdir"@, "-p"@, ssh_dir(username)]))
        },
        ProvisioningView::SshDirMake => match command_failure(
            result,
            "Failed to create .ssh directory: "@,
            "Failed to create .ssh directory: "@,
        ) {
            Some(why) => give_up(why),
            None => go_on(ProvisioningView::KeyFileProbe, key_file_probe(username)),
        },
        ProvisioningView::KeyFileProbe => if found(result) {
            go_on(ProvisioningView::SshDirMode, restrict_ssh_dir(username))
        } else {
            go_on(ProvisioningView::KeyFileMake, sudo(seq!["touch"@, key_file(username)]))
        },
        ProvisioningView::KeyFileMake => match command_failure(
            result,
            "Failed to create authorized_keys file: "@,
            "Failed to create authorized_keys file: "@,
        ) {
            Some(why) => give_up(why),
            None => go_on(ProvisioningView::SshDirMode, restrict_ssh_dir(username)),
        },
        ProvisioningView::SshDirMode => match command_failure(
            result,
            "Failed to set permissions on .ssh directory: "@,
            "Failed to set permissions on .ssh directory: "@,
        ) {
            Some(why) => give_up(why),
            None => go_on(
                ProvisioningView::KeyFileMode,
                sudo(seq!["chmod"@, "600"@, key_file(username)]),
            ),
        },
        ProvisioningView::KeyFileMode => match command_failure(
            result,
            "Failed to set permissions on authorized_keys file: "@,
            "Failed to set permissions on authorized_keys file: "@,
        ) {
            Some(why) => give_up(why),
            None => go_on(
                ProvisioningView::HomeOwner,
                sudo(seq!["chown"@, "-R"@, username + ":"@ + username, home_dir(username)]),
            ),
        },
        ProvisioningView::HomeOwner => match command_failure(
            result,
            "Failed to execute chown: "@,
            "Failed to set ownership: "@,
        ) {
            Some(why) => give_up(why),
            None => if add_sudo {
                go_on(
                    ProvisioningView::Sudoers { stage: SudoersStageView::Probe },
                    sudoers_probe(username),
                )
            } else {
                ProvisionedView::Done { result: Ok(false), log: Seq::empty() }
            },
        },
        ProvisioningView::Sudoers { stage } => after_sudoers(
            sudoers_step(stage, username, result),
            username,
        ),
    }
}

/// Builds the action that starts provisioning.
pub fn account_probe_for(username: &str) -> (r: SystemAction)
    ensures
        r@ == account_probe(username@),
{
    let args = vec![username];
    assert(args.deep_view() =~= seq![username@]);
    SystemAction::Run { program: String::from_str("id"), args: texts(args) }
}

/// Builds the step that goes on to `stage` with `action` and logs nothing.
fn next(stage: Provisioning, action: SystemAction) -> (r: Provisioned)
    ensures
        r@ == go_on(stage@, action@),
{
    Provisioned::Next { stage, action, log: no_texts() }
}

/// Builds the step that gives provisioning up.
fn failed(why: String) -> (r: Provisioned)
    ensures
        r@ == give_up(why@),
{
    Provisioned::Done { result: Err(why), log: no_texts() }
}

/// Builds the action that closes the key directory to others.
fn restrict_ssh_dir_for(username: &str) -> (r: SystemAction)
    ensures
        r@ == restrict_ssh_dir(username@),
{
    let dir = ssh_dir_of(username);
    let args = vec!["chmod", "700", dir.as_str()];
    assert(args.deep_view() =~= seq!["chmod"@, "700"@, ssh_dir(username@)]);
    sudo_run(args)
}

/// Builds the action that looks for the key file.
fn key_file_probe_for(username: &str) -> (r: SystemAction)
    ensures
        r@ == key_file_probe(username@),
{
    SystemAction::Probe { path: key_file_of(username) }
}

/// Folds the end of granting administrative rights into provisioning.
fn finish_sudoers(step: SudoersStep, username: &str) -> (r: Provisioned)
    ensures
        r@ == after_sudoers(step@, username@),
{
    match step {
        SudoersStep::Next { stage, action } => next(Provisioning::Sudoers { stage }, action),
        SudoersStep::Done { result, log } => match result {
            Ok(u) => {
                let mut log = log;
                let line = join("Added user ", username).concat(" to sudoers");
                push_text(&mut log, line.as_str());
                Provisioned::Done { result: Ok(false), log }
            },
            Err(why) => Provisioned::Done {
                result: Err(join("Failed to add user to sudoers: ", why.as_str())),
                log,
            },
        },
    }
}

/// Advances the provisioning of the account `username` by the result of the
/// action that is out. Provisioning starts with `account_probe_for` in the
/// stage `Provisioning::Account`; it ends with whether the account was
/// already there.
pub fn ensure_user_exists(
    stage: Provisioning,
    username: &str,
    add_sudo: bool,
    result: &SystemResult,
) -> (r: Provisioned)
    ensures
        r@ == provision_step(stage@, username@, add_sudo, result@),
{
    match stage {
        Provisioning::Account => {
            if has_succeeded(result) {
                Provisioned::Done { result: Ok(true), log: no_texts() }
            } else {
                let args = vec!["useradd", "-m", "-s", "/bin/bash", username];
                assert(args.deep_view() =~= seq![
                    "useradd"@,
                    "-m"@,
                    "-s"@,
                    "/bin/bash"@,
                    username@,
                ]);
                let mut log = no_texts();
                let line = join("Creating user: ", username);
                push_text(&mut log, line.as_str());
                assert(log.deep_view() =~= seq!["Creating user: "@ + username@]);
                Provisioned::Next { stage: Provisioning::Create, action: sudo_run(args), log }
            }
        },
        Provisioning::Create => {
            match failure_of(result, "Failed to execute useradd: ", "Failed to create user: ") {
                Some(why) => failed(why),
                None => next(
                    Provisioning::SshDirProbe,
                    SystemAction::Probe { path: ssh_dir_of(username) },
                ),
            }
        },
        Provisioning::SshDirProbe => {
            if is_found(result) {
                next(Provisioning::KeyFileProbe, key_file_probe_for(username))
            } else {
                let dir = ssh_dir_of(username);
                let args = vec!["mkdir", "-p", dir.as_str()];
                assert(args.deep_view() =~= seq!["mkdir"@, "-p"@, ssh_dir(username@)]);
                next(Provisioning::SshDirMake, sudo_run(args))
            }
        },
        Provisioning::SshDirMake => {
            match failure_of(
                result,
                "Failed to create .ssh directory: ",
                "Failed to create .ssh directory: ",
            ) {
                Some(why) => failed(why),
                None => next(Provisioning::KeyFileProbe, key_file_probe_for(username)),
            }
        },
        Provisioning::KeyFileProbe => {
            if is_found(result) {
                next(Provisioning::SshDirMode, restrict_ssh_dir_for(username))
            } else {
                let file = key_file_of(username);
                let args = vec!["touch", file.as_str()];
                assert(args.deep_view() =~= seq!["touch"@, key_file(username@)]);
                next(Provisioning::KeyFileMake, sudo_run(args))
            }
        },
        Provisioning::KeyFileMake => {
            match failure_of(
                result,
                "Failed to create authorized_keys file: ",
                "Failed to create authorized_keys file: ",
            ) {
                Some(why) => failed(why),
                None => next(Provisioning::SshDirMode, restrict_ssh_dir_for(username)),
            }
        },
        Provisioning::SshDirMode => {
            match failure_of(
                result,
                "Failed to set permissions on .ssh directory: ",
                "Failed to set permissions on .ssh directory: ",
            ) {
                Some(why) => failed(why),
                None => {
                    let file = key_file_of(username);
                    let args = vec!["chmod", "600", file.as_str()];
                    assert(args.deep_view() =~= seq!["chmod"@, "600"@, key_file(username@)]);
                    next(Provisioning::KeyFileMode, sudo_run(args))
                },
            }
        },
        Provisioning::KeyFileMode => {
            match failure_of(
                result,
                "Failed to set permissions on authorized_keys file: ",
                "Failed to set permissions on authorized_keys file: ",
            ) {
                Some(why) => failed(why),
                None => {
                    let owner = join(username, ":").concat(username);
                    let home = home_dir_of(username);
                    let args = vec!["chown", "-R", owner.as_str(), home.as_str()];
                    assert(args.deep_view() =~= seq![
                        "chown"@,
                        "-R"@,
                        username@ + ":"@ + username@,
                        home_dir(username@),
                    ]);
                    next(Provisioning::HomeOwner, sudo_run(args))
                },
            }
        },
        Provisioning::HomeOwner => {
            match failure_of(result, "Failed to execute chown: ", "Failed to set ownership: ") {
                Some(why) => failed(why),
                None => {
                    if add_sudo {
                        next(
                            Provisioning::Sudoers { stage: SudoersStage::Probe },
                            sudoers_probe_for(username),
                        )
                    } else {
                        Provisioned::Done { result: Ok(false), log: no_texts() }
                    }
                },
            }
        },
        Provisioning::Sudoers { stage } => finish_sudoers(
            add_user_to_sudoers(stage, username, result),
            username,
        ),
    }
}

/// The action that appends `key` to the login keys of `username`. The key
/// is an argument of its own: whatever characters it holds, it is written
/// and never run.
pub open spec fn key_import(username: Seq<char>, key: Seq<char>) -> SystemActionView {
    sudo(seq!["bash"@, "-c"@, key_script(), "authorized_keys"@, key, key_file(username)])
}

/// What the result of a key import means: done, or the complaint.
pub open spec fn key_import_result(result: SystemResultView) -> Result<(), Seq<char>> {
    match command_failure(
        result,
        "Failed to add key to authorized_keys: "@,
        "Failed to add key to authorized_keys: "@,
    ) {
        Some(why) => Err(why),
        None => Ok(()),
    }
}

/// Builds the action that appends `key` to the login keys of `username`.
pub fn authorized_key_command(username: &str, key: &str) -> (r: SystemAction)
    ensures
        r@ == key_import(username@, key@),
{
    let file = key_file_of(username);
    let args = vec![
        "bash",
        "-c",
        "printf '%s\\n' \"$1\" >> \"$2\"",
        "authorized_keys",
        key,
        file.as_str(),
    ];
    assert(args.deep_view() =~= seq![
        "bash"@,
        "-c"@,
        key_script(),
        "authorized_keys"@,
        key@,
        key_file(username@),
    ]);
    sudo_run(args)
}

/// Interprets the result of the action built by `authorized_key_command`.
pub fn add_authorized_key(result: &SystemResult) -> (r: Result<(), String>)
    ensures
        done_view(r) == key_import_result(result@),
{
    match failure_of(
        result,
        "Failed to add key to authorized_keys: ",
        "Failed to add key to authorized_keys: ",
    ) {
        Some(why) => Err(why),
        None => Ok(()),
    }
}

} // verus!
