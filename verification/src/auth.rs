//! One login attempt, from the first request to its outcome.
//!
//! An attempt is a `Session` that moves forward one event at a time. `begin`
//! opens it; `step` takes what came of the last action and says what to do
//! next, until it says `Step::Finish`. The order of stages never turns back:
//!
//! code requested, code displayed, device code redeemed (token, identity,
//! membership), team checked if a team is set, success announced, account
//! provisioned if asked for, key import offered if allowed, keys fetched,
//! keys imported.

use vstd::prelude::*;
use vstd::string::*;
use crate::args::{policy_from_args, policy_of, Args, Policy, PolicyError, PolicyView};
use crate::github::{
    auth_code_of, auth_code_request, auth_code_request_of, auth_code_view, error_text,
    flag_result_view, get_auth_code, keys_of, keys_request_of, redemption_step,
    team_membership_of, team_request_of, text_result_view, token_request, token_request_of,
    GithubError, GithubErrorView, GithubUser, GithubUserView, Redeemed, RedeemedView,
    Redemption, RedemptionView,
};
use crate::http::{HttpOutcome, HttpOutcomeView, HttpRequest, HttpRequestView};
use crate::prompt::{
    answer_view, describe_prompt_error, prompt_error_text, prompt_result, prompt_user,
    Conversation, ConversationView, PromptError, PromptMode,
};
use crate::text::{
    answer_is_yes, ascii_lower, join, no_texts, one_text, says_yes, to_ascii_lower, trim,
    trimmed, with_text,
};
use crate::user::{
    account_probe, account_probe_for, add_authorized_key, authorized_key_command, done_view,
    ensure_user_exists, key_import, key_import_result, provision_step, Provisioned,
    ProvisionedView, Provisioning, ProvisioningView, SystemAction, SystemActionView,
    SystemResult, SystemResultView,
};

verus! {

/// How a login attempt ends.
#[derive(Clone, Copy, Debug, PartialEq, Eq, Structural)]
pub enum Outcome {
    /// The operator is who they claim to be and may log in.
    Success,
    /// The claimed account is not entitled to log in.
    UserUnknown,
    /// The attempt broke down for a reason that says nothing about the
    /// operator.
    ServiceError,
}

/// What the caller is asked to do next.
#[derive(Clone, Debug, PartialEq, Eq)]
pub enum Action {
    /// Send a request to the provider.
    Http { request: HttpRequest },
    /// Put a text to the operator.
    Prompt { text: String, mode: PromptMode },
    /// Do something on the system.
    System { action: SystemAction },
}

/// The mathematical content of an `Action`.
pub ghost enum ActionView {
    Http { request: HttpRequestView },
    Prompt { text: Seq<char>, mode: PromptMode },
    System { action: SystemActionView },
}

impl View for Action {
    type V = ActionView;

    open spec fn view(&self) -> ActionView {
        match self {
            Action::Http { request } => ActionView::Http { request: request@ },
            Action::Prompt { text, mode } => ActionView::Prompt { text: text@, mode: *mode },
            Action::System { action } => ActionView::System { action: action@ },
        }
    }
}

/// What came of the last action.
#[derive(Clone, Debug, PartialEq, Eq)]
pub enum Event {
    Http { outcome: HttpOutcome },
    Conversation { conversation: Conversation },
    System { result: SystemResult },
}

/// The mathematical content of an `Event`.
pub ghost enum EventView {
    Http { outcome: HttpOutcomeView },
    Conversation { conversation: ConversationView },
    System { result: SystemResultView },
}

impl View for Event {
    type V = EventView;

    open spec fn view(&self) -> EventView {
        match self {
            Event::Http { outcome } => EventView::Http { outcome: outcome@ },
            Event::Conversation { conversation } => EventView::Conversation {
                conversation: conversation@,
            },
            Event::System { result } => EventView::System { result: result@ },
        }
    }
}

/// Where an attempt stands: which action is out.
#[derive(Clone, Debug, PartialEq, Eq)]
pub enum Stage {
    /// The device-flow request is out.
    CodeRequested,
    /// The user code is on display and the operator has yet to confirm.
    CodeDisplayed { device_code: String },
    /// A request of the redemption is out.
    Redeeming { exchange: Redemption },
    /// The team-membership request is out.
    TeamAsked { user: GithubUser },
    /// The success message is on display.
    Decided { user: GithubUser },
    /// An action of the provisioning is out.
    Provisioning { user: GithubUser, progress: Provisioning },
    /// The operator is being asked whether to import keys.
    ImportOffered { user: GithubUser },
    /// The keys request is out.
    KeysRequested { user: GithubUser },
    /// The keys are being written.
    KeysImporting,
}

/// The mathematical content of a `Stage`.
pub ghost enum StageView {
    CodeRequested,
    CodeDisplayed { device_code: Seq<char> },
    Redeeming { exchange: RedemptionView },
    TeamAsked { user: GithubUserView },
    Decided { user: GithubUserView },
    Provisioning { user: GithubUserView, progress: ProvisioningView },
    ImportOffered { user: GithubUserView },
    KeysRequested { user: GithubUserView },
    KeysImporting,
}

impl View for Stage {
    type V = StageView;

    open spec fn view(&self) -> StageView {
        match self {
            Stage::CodeRequested => StageView::CodeRequested,
            Stage::CodeDisplayed { device_code } => StageView::CodeDisplayed {
                device_code: device_code@,
            },
            Stage::Redeeming { exchange } => StageView::Redeeming { exchange: exchange@ },
            Stage::TeamAsked { user } => StageView::TeamAsked { user: user@ },
            Stage::Decided { user } => StageView::Decided { user: user@ },
            Stage::Provisioning { user, progress } => StageView::Provisioning {
                user: user@,
                progress: progress@,
            },
            Stage::ImportOffered { user } => StageView::ImportOffered { user: user@ },
            Stage::KeysRequested { user } => StageView::KeysRequested { user: user@ },
            Stage::KeysImporting => StageView::KeysImporting,
        }
    }
}

/// A login attempt under way: who claims to log in, under which policy, and
/// where the attempt stands.
#[derive(Clone, Debug, PartialEq, Eq)]
pub struct Session {
    pub username: String,
    pub policy: Policy,
    pub stage: Stage,
}

/// The mathematical content of a `Session`.
pub ghost struct SessionView {
    pub username: Seq<char>,
    pub policy: PolicyView,
    pub stage: StageView,
}

impl View for Session {
    type V = SessionView;

    open spec fn view(&self) -> SessionView {
        SessionView { username: self.username@, policy: self.policy@, stage: self.stage@ }
    }
}

/// What a step of an attempt leads to.
#[derive(Debug, PartialEq, Eq)]
pub enum Step {
    /// The attempt goes on: do `action` and come back with what came of it.
    Perform { session: Session, action: Action, log: Vec<String> },
    /// The attempt is over. Where `notice` is set, it is shown to the
    /// operator on the way out, by the prompt that `notice_prompt` makes of
    /// it, and whether that works changes nothing.
    Finish { outcome: Outcome, notice: Option<String>, log: Vec<String> },
}

/// The mathematical content of a `Step`.
pub ghost enum StepView {
    Perform { session: SessionView, action: ActionView, log: Seq<Seq<char>> },
    Finish { outcome: Outcome, notice: Option<Seq<char>>, log: Seq<Seq<char>> },
}

impl View for Step {
    type V = StepView;

    open spec fn view(&self) -> StepView {
        match self {
            Step::Perform { session, action, log } => StepView::Perform {
                session: session@,
                action: action@,
                log: log.deep_view(),
            },
            Step::Finish { outcome, notice, log } => StepView::Finish {
                outcome: *outcome,
                notice: notice.deep_view(),
                log: log.deep_view(),
            },
        }
    }
}

/// The step that ends an attempt as a service error, with one line for the
/// log and nothing for the operator.
pub open spec fn service_error(line: Seq<char>) -> StepView {
    StepView::Finish { outcome: Outcome::ServiceError, notice: None, log: seq![line] }
}

/// The step that turns the operator away, telling them and the log `line`.
pub open spec fn turned_away(line: Seq<char>) -> StepView {
    StepView::Finish { outcome: Outcome::UserUnknown, notice: Some(line), log: seq![line] }
}

/// The step that goes on to `stage` with `action`.
pub open spec fn go_on(
    username: Seq<char>,
    policy: PolicyView,
    stage: StageView,
    action: ActionView,
    log: Seq<Seq<char>>,
) -> StepView {
    StepView::Perform { session: SessionView { username, policy, stage }, action, log }
}

/// What the operator is told to do with the user code.
pub open spec fn instructions(user_code: Seq<char>) -> Seq<char> {
    "Please visit https://github.com/login/device and enter the following code: "@ + user_code
        + "\nYou have 10 minutes to complete this step.\n        \nAfter a successful login, press Enter to continue..."@
}

/// The step that ends an attempt before it has begun, where the arguments
/// are not enough to make one: without `org` or `client_id` the attempt is a
/// service error. `None` where the arguments will do.
pub open spec fn refusal_of(args: Map<Seq<char>, Seq<char>>) -> Option<StepView> {
    match policy_of(args) {
        Err(PolicyError::MissingOrg) => Some(service_error("Missing organization name"@)),
        Err(PolicyError::MissingClientId) => Some(service_error("Missing client ID"@)),
        Ok(policy) => None,
    }
}

/// How an attempt opens. Without `org` or `client_id` it is over before any
/// request is made, whoever claims to log in; otherwise the user name is put
/// in ASCII lower case and the device-flow request goes out.
pub open spec fn begin_of(username: Seq<char>, args: Map<Seq<char>, Seq<char>>) -> StepView {
    match policy_of(args) {
        Err(e) => refusal_of(args)->0,
        Ok(policy) => go_on(
            ascii_lower(username),
            policy,
            StageView::CodeRequested,
            ActionView::Http { request: auth_code_request_of(policy.client_id) },
            seq!["Authentication request for username: "@ + ascii_lower(username)],
        ),
    }
}

/// After the device-flow request: show the user code, or give up.
pub open spec fn after_code_request(
    username: Seq<char>,
    policy: PolicyView,
    codes: Result<(Seq<char>, Seq<char>), GithubErrorView>,
) -> StepView {
    match codes {
        Err(e) => service_error("Failed to get device code: "@ + error_text(e)),
        Ok(pair) => go_on(
            username,
            policy,
            StageView::CodeDisplayed { device_code: trimmed(pair.0) },
            ActionView::Prompt { text: instructions(pair.1), mode: PromptMode::HiddenInput },
            Seq::empty(),
        ),
    }
}

/// After the user code was shown: whatever the operator typed, redeem the
/// device code; give up if the prompt failed.
pub open spec fn after_code_display(
    username: Seq<char>,
    policy: PolicyView,
    device_code: Seq<char>,
    confirmed: Result<Seq<char>, PromptError>,
) -> StepView {
    match confirmed {
        Err(e) => service_error("Failed to prompt user: "@ + prompt_error_text(e)),
        Ok(typed) => go_on(
            username,
            policy,
            StageView::Redeeming { exchange: RedemptionView::Token },
            ActionView::Http { request: token_request_of(device_code, policy.client_id) },
            Seq::empty(),
        ),
    }
}

/// How a failed redemption ends the attempt. An account that the
/// organisation does not know, a token that belongs to another account and
/// an authorisation that was not given all turn the operator away; anything
/// else is a service error.
pub open spec fn rejected(e: GithubErrorView) -> StepView {
    match e {
        GithubErrorView::NotFound => turned_away("User not found in organization"@),
        GithubErrorView::InvalidUser(detail) => StepView::Finish {
            outcome: Outcome::UserUnknown,
            notice: None,
            log: seq!["Invalid user: "@ + detail],
        },
        GithubErrorView::Unauthorized => turned_away("Unauthorized access"@),
        _ => service_error("Unexpected error: "@ + error_text(e)),
    }
}

/// The account is let in: announce it.
pub open spec fn decided(username: Seq<char>, policy: PolicyView, user: GithubUserView) -> StepView {
    go_on(
        username,
        policy,
        StageView::Decided { user },
        ActionView::Prompt { text: "Authentication successful"@, mode: PromptMode::InfoDisplay },
        Seq::empty(),
    )
}

/// The account is a member of the organisation: check the team if one is
/// set, else let the account in.
pub open spec fn authorized(
    username: Seq<char>,
    policy: PolicyView,
    user: GithubUserView,
) -> StepView {
    match policy.team {
        Some(team) => go_on(
            username,
            policy,
            StageView::TeamAsked { user },
            ActionView::Http { request: team_request_of(user, team) },
            Seq::empty(),
        ),
        None => decided(username, policy, user),
    }
}

/// After a step of the redemption.
pub open spec fn after_redemption(
    username: Seq<char>,
    policy: PolicyView,
    redeemed: RedeemedView,
) -> StepView {
    match redeemed {
        RedeemedView::Ask { next, request } => go_on(
            username,
            policy,
            StageView::Redeeming { exchange: next },
            ActionView::Http { request },
            Seq::empty(),
        ),
        RedeemedView::Done { result } => match result {
            Ok(user) => authorized(username, policy, user),
            Err(e) => rejected(e),
        },
    }
}

/// After the team-membership request.
pub open spec fn after_team(
    username: Seq<char>,
    policy: PolicyView,
    user: GithubUserView,
    membership: Result<bool, GithubErrorView>,
) -> StepView {
    match membership {
        Err(e) => service_error("Failed to check team membership: "@ + error_text(e)),
        Ok(member) => if member {
            decided(username, policy, user)
        } else {
            turned_away("User is not in the specified team"@)
        },
    }
}

/// The account stands: offer to import keys if allowed, else the attempt
/// has succeeded.
pub open spec fn provisioned(
    username: Seq<char>,
    policy: PolicyView,
    user: GithubUserView,
    log: Seq<Seq<char>>,
) -> StepView {
    if policy.allow_import_keys {
        go_on(
            username,
            policy,
            StageView::ImportOffered { user },
            ActionView::Prompt {
                text: "Do you want to import your SSH keys from GitHub? (y/n) "@,
                mode: PromptMode::VisibleInput,
            },
            log,
        )
    } else {
        StepView::Finish { outcome: Outcome::Success, notice: None, log }
    }
}

/// After the success message was shown: a message that could not be shown
/// is a service error; otherwise provision the account if asked for.
pub open spec fn after_announcement(
    username: Seq<char>,
    policy: PolicyView,
    user: GithubUserView,
    shown: Result<Seq<char>, PromptError>,
) -> StepView {
    match shown {
        Err(e) => service_error("Failed to prompt user: "@ + prompt_error_text(e)),
        Ok(typed) => if policy.auto_create_user {
            go_on(
                username,
                policy,
                StageView::Provisioning { user, progress: ProvisioningView::Account },
                ActionView::System { action: account_probe(username) },
                seq!["Authentication successful for user "@ + username],
            )
        } else {
            provisioned(
                username,
                policy,
                user,
                seq!["Authentication successful for user "@ + username],
            )
        },
    }
}

/// After a step of the provisioning: a provisioning that fails is a service
/// error although the account was let in.
pub open spec fn after_provisioning(
    username: Seq<char>,
    policy: PolicyView,
    user: GithubUserView,
    step: ProvisionedView,
) -> StepView {
    match step {
        ProvisionedView::Next { stage, action, log } => go_on(
            username,
            policy,
            StageView::Provisioning { user, progress: stage },
            ActionView::System { action },
            log,
        ),
        ProvisionedView::Done { result, log } => match result {
            Err(why) => StepView::Finish {
                outcome: Outcome::ServiceError,
                notice: None,
                log: log.push("Failed to create user: "@ + why),
            },
            Ok(existed) => provisioned(
                username,
                policy,
                user,
                log.push(
                    if existed {
                        "User "@ + username + " already exists"@
                    } else {
                        "Created user "@ + username
                    },
                ),
            ),
        },
    }
}

/// After the operator was asked whether to import keys: anything but a yes
/// ends the attempt with success and without an import.
pub open spec fn after_offer(
    username: Seq<char>,
    policy: PolicyView,
    user: GithubUserView,
    answer: Result<Seq<char>, PromptError>,
) -> StepView {
    match answer {
        Err(e) => service_error("Failed to prompt user: "@ + prompt_error_text(e)),
        Ok(typed) => if says_yes(typed) {
            go_on(
                username,
                policy,
                StageView::KeysRequested { user },
                ActionView::Http { request: keys_request_of(user) },
                seq!["User accepted to import keys"@],
            )
        } else {
            StepView::Finish {
                outcome: Outcome::Success,
                notice: None,
                log: seq!["User declined to import keys"@],
            }
        },
    }
}

/// After the keys request.
pub open spec fn after_keys(
    username: Seq<char>,
    policy: PolicyView,
    keys: Result<Seq<char>, GithubErrorView>,
) -> StepView {
    match keys {
        Err(e) => service_error("Failed to import keys: "@ + error_text(e)),
        Ok(text) => go_on(
            username,
            policy,
            StageView::KeysImporting,
            ActionView::System { action: key_import(username, text) },
            Seq::empty(),
        ),
    }
}

/// After the keys were written.
pub open spec fn after_import(username: Seq<char>, written: Result<(), Seq<char>>) -> StepView {
    match written {
        Err(why) => service_error("Failed to import keys: "@ + why),
        Ok(u) => StepView::Finish {
            outcome: Outcome::Success,
            notice: None,
            log: seq!["Imported keys for user "@ + username],
        },
    }
}

/// One step of an attempt: what the event that answers the action that is
/// out leads to. An event of another kind than the action asked for ends the
/// attempt as a service error.
pub open spec fn step_of(session: SessionView, event: EventView) -> StepView {
    let username = session.username;
    let policy = session.policy;
    match (session.stage, event) {
        (StageView::CodeRequested, EventView::Http { outcome }) => after_code_request(
            username,
            policy,
            auth_code_of(outcome),
        ),
        (
            StageView::CodeDisplayed { device_code },
            EventView::Conversation { conversation },
        ) => after_code_display(
            username,
            policy,
            device_code,
            prompt_result(PromptMode::HiddenInput, conversation),
        ),
        (StageView::Redeeming { exchange }, EventView::Http { outcome }) => after_redemption(
            username,
            policy,
            redemption_step(exchange, username, policy.org, outcome),
        ),
        (StageView::TeamAsked { user }, EventView::Http { outcome }) => after_team(
            username,
            policy,
            user,
            team_membership_of(outcome),
        ),
        (StageView::Decided { user }, EventView::Conversation { conversation }) => {
            after_announcement(
                username,
                policy,
                user,
                prompt_result(PromptMode::InfoDisplay, conversation),
            )
        },
        (StageView::Provisioning { user, progress }, EventView::System { result }) => {
            after_provisioning(
                username,
                policy,
                user,
                provision_step(progress, username, policy.sudoer, result),
            )
        },
        (StageView::ImportOffered { user }, EventView::Conversation { conversation }) => {
            after_offer(
                username,
                policy,
                user,
                prompt_result(PromptMode::VisibleInput, conversation),
            )
        },
        (StageView::KeysRequested { user }, EventView::Http { outcome }) => after_keys(
            username,
            policy,
            keys_of(outcome),
        ),
        (StageView::KeysImporting, EventView::System { result }) => after_import(
            username,
            key_import_result(result),
        ),
        _ => service_error("Unexpected event"@),
    }
}

/// Builds the step that ends an attempt as a service error.
fn fail(line: String) -> (r: Step)
    ensures
        r@ == service_error(line@),
{
    Step::Finish { outcome: Outcome::ServiceError, notice: None, log: one_text(line) }
}

/// Builds the step that turns the operator away.
fn turn_away(line: &str) -> (r: Step)
    ensures
        r@ == turned_away(line@),
{
    Step::Finish {
        outcome: Outcome::UserUnknown,
        notice: Some(String::from_str(line)),
        log: one_text(String::from_str(line)),
    }
}

/// Builds the step that goes on to `stage` with `action`.
fn perform(username: String, policy: Policy, stage: Stage, action: Action, log: Vec<String>) -> (r:
    Step)
    ensures
        r@ == go_on(username@, policy@, stage@, action@, log.deep_view()),
{
    Step::Perform { session: Session { username, policy, stage }, action, log }
}

/// The prompt that shows a parting notice: an error message, with no input
/// asked for.
pub fn notice_prompt(notice: &str) -> (r: Action)
    ensures
        r@ == (ActionView::Prompt { text: notice@, mode: PromptMode::ErrorDisplay }),
{
    Action::Prompt { text: String::from_str(notice), mode: PromptMode::ErrorDisplay }
}

/// Writes what the operator is told to do with the user code.
pub fn instructions_for(user_code: &str) -> (r: String)
    ensures
        r@ == instructions(user_code@),
{
    join(
        "Please visit https://github.com/login/device and enter the following code: ",
        user_code,
    ).concat(
        "\nYou have 10 minutes to complete this step.\n        \nAfter a successful login, press Enter to continue...",
    )
}

/// The mathematical content of a step that may not be there.
pub open spec fn step_view(step: Option<Step>) -> Option<StepView> {
    match step {
        Some(step) => Some(step@),
        None => None,
    }
}

/// Judges the arguments alone, before anyone is asked who logs in: the step
/// that ends the attempt where they are not enough, `None` where an attempt
/// can be opened with them.
pub fn refusal(args: &Args) -> (r: Option<Step>)
    ensures
        step_view(r) == refusal_of(args@),
        r is Some <==> !args@.contains_key("org"@) || !args@.contains_key("client_id"@),
        r matches Some(step) ==> step matches Step::Finish { outcome: Outcome::ServiceError, .. },
{
    match policy_from_args(args) {
        Err(PolicyError::MissingOrg) => Some(fail(String::from_str("Missing organization name"))),
        Err(PolicyError::MissingClientId) => Some(fail(String::from_str("Missing client ID"))),
        Ok(policy) => None,
    }
}

/// Opens a login attempt for the claimed account `username` under the
/// arguments `args`.
pub fn begin(username: &str, args: &Args) -> (r: Step)
    ensures
        r@ == begin_of(username@, args@),
        !args@.contains_key("org"@) || !args@.contains_key("client_id"@) ==> r
            matches Step::Finish { outcome: Outcome::ServiceError, .. },
{
    match policy_from_args(args) {
        Err(PolicyError::MissingOrg) => fail(String::from_str("Missing organization name")),
        Err(PolicyError::MissingClientId) => fail(String::from_str("Missing client ID")),
        Ok(policy) => {
            let name = to_ascii_lower(username);
            let line = join("Authentication request for username: ", name.as_str());
            let request = auth_code_request(policy.client_id.as_str());
            perform(name, policy, Stage::CodeRequested, Action::Http { request }, one_text(line))
        },
    }
}

/// Computes `after_code_request`.
fn on_code_request(username: String, policy: Policy, codes: Result<(String, String), GithubError>)
    -> (r: Step)
    ensures
        r@ == after_code_request(username@, policy@, auth_code_view(codes)),
{
    match codes {
        Err(e) => fail(join("Failed to get device code: ", e.describe().as_str())),
        Ok(pair) => {
            let device_code = String::from_str(trim(pair.0.as_str()));
            let text = instructions_for(pair.1.as_str());
            perform(
                username,
                policy,
                Stage::CodeDisplayed { device_code },
                Action::Prompt { text, mode: PromptMode::HiddenInput },
                no_texts(),
            )
        },
    }
}

/// Computes `after_code_display`.
fn on_code_display(
    username: String,
    policy: Policy,
    device_code: String,
    confirmed: Result<String, PromptError>,
) -> (r: Step)
    ensures
        r@ == after_code_display(
            username@,
            policy@,
            device_code@,
            answer_view(confirmed),
        ),
{
    match confirmed {
        Err(e) => fail(join("Failed to prompt user: ", describe_prompt_error(e).as_str())),
        Ok(typed) => {
            let request = token_request(device_code.as_str(), policy.client_id.as_str());
            perform(
                username,
                policy,
                Stage::Redeeming { exchange: Redemption::Token },
                Action::Http { request },
                no_texts(),
            )
        },
    }
}

/// Computes `rejected`.
fn reject(e: GithubError) -> (r: Step)
    ensures
        r@ == rejected(e@),
{
    match e {
        GithubError::NotFound => turn_away("User not found in organization"),
        GithubError::InvalidUser(detail) => Step::Finish {
            outcome: Outcome::UserUnknown,
            notice: None,
            log: one_text(join("Invalid user: ", detail.as_str())),
        },
        GithubError::Unauthorized => turn_away("Unauthorized access"),
        other => fail(join("Unexpected error: ", other.describe().as_str())),
    }
}

/// Computes `decided`.
fn decide(username: String, policy: Policy, user: GithubUser) -> (r: Step)
    ensures
        r@ == decided(username@, policy@, user@),
{
    perform(
        username,
        policy,
        Stage::Decided { user },
        Action::Prompt {
            text: String::from_str("Authentication successful"),
            mode: PromptMode::InfoDisplay,
        },
        no_texts(),
    )
}

/// Computes `authorized`.
fn authorize(username: String, policy: Policy, user: GithubUser) -> (r: Step)
    ensures
        r@ == authorized(username@, policy@, user@),
{
    let request = match &policy.team {
        Some(team) => Some(user.team_request(team.as_str())),
        None => None,
    };
    match request {
        Some(request) => perform(
            username,
            policy,
            Stage::TeamAsked { user },
            Action::Http { request },
            no_texts(),
        ),
        None => decide(username, policy, user),
    }
}

/// Computes `after_redemption`.
fn on_redemption(username: String, policy: Policy, redeemed: Redeemed) -> (r: Step)
    ensures
        r@ == after_redemption(username@, policy@, redeemed@),
{
    match redeemed {
        Redeemed::Ask { next, request } => perform(
            username,
            policy,
            Stage::Redeeming { exchange: next },
            Action::Http { request },
            no_texts(),
        ),
        Redeemed::Done { result } => match result {
            Ok(user) => authorize(username, policy, user),
            Err(e) => reject(e),
        },
    }
}

/// Computes `after_team`.
fn on_team(
    username: String,
    policy: Policy,
    user: GithubUser,
    membership: Result<bool, GithubError>,
) -> (r: Step)
    ensures
        r@ == after_team(username@, policy@, user@, flag_result_view(membership)),
{
    match membership {
        Err(e) => fail(join("Failed to check team membership: ", e.describe().as_str())),
        Ok(member) => {
            if member {
                decide(username, policy, user)
            } else {
                turn_away("User is not in the specified team")
            }
        },
    }
}

/// Computes `provisioned`.
fn provision_done(username: String, policy: Policy, user: GithubUser, log: Vec<String>) -> (r:
    Step)
    ensures
        r@ == provisioned(username@, policy@, user@, log.deep_view()),
{
    if policy.allow_import_keys {
        perform(
            username,
            policy,
            Stage::ImportOffered { user },
            Action::Prompt {
                text: String::from_str("Do you want to import your SSH keys from GitHub? (y/n) "),
                mode: PromptMode::VisibleInput,
            },
            log,
        )
    } else {
        Step::Finish { outcome: Outcome::Success, notice: None, log }
    }
}

/// Computes `after_announcement`.
fn on_announcement(
    username: String,
    policy: Policy,
    user: GithubUser,
    shown: Result<String, PromptError>,
) -> (r: Step)
    ensures
        r@ == after_announcement(username@, policy@, user@, answer_view(shown)),
{
    match shown {
        Err(e) => fail(join("Failed to prompt user: ", describe_prompt_error(e).as_str())),
        Ok(typed) => {
            let log = one_text(join("Authentication successful for user ", username.as_str()));
            if policy.auto_create_user {
                let action = account_probe_for(username.as_str());
                perform(
                    username,
                    policy,
                    Stage::Provisioning { user, progress: Provisioning::Account },
                    Action::System { action },
                    log,
                )
            } else {
                provision_done(username, policy, user, log)
            }
        },
    }
}

/// Computes `after_provisioning`.
fn on_provisioning(username: String, policy: Policy, user: GithubUser, step: Provisioned) -> (r:
    Step)
    ensures
        r@ == after_provisioning(username@, policy@, user@, step@),
{
    match step {
        Provisioned::Next { stage, action, log } => perform(
            username,
            policy,
            Stage::Provisioning { user, progress: stage },
            Action::System { action },
            log,
        ),
        Provisioned::Done { result, log } => match result {
            Err(why) => Step::Finish {
                outcome: Outcome::ServiceError,
                notice: None,
                log: with_text(log, join("Failed to create user: ", why.as_str())),
            },
            Ok(existed) => {
                let line = if existed {
                    join("User ", username.as_str()).concat(" already exists")
                } else {
                    join("Created user ", username.as_str())
                };
                provision_done(username, policy, user, with_text(log, line))
            },
        },
    }
}

/// Computes `after_offer`.
fn on_offer(
    username: String,
    policy: Policy,
    user: GithubUser,
    answer: Result<String, PromptError>,
) -> (r: Step)
    ensures
        r@ == after_offer(username@, policy@, user@, answer_view(answer)),
{
    match answer {
        Err(e) => fail(join("Failed to prompt user: ", describe_prompt_error(e).as_str())),
        Ok(typed) => {
            if answer_is_yes(typed.as_str()) {
                let request = user.keys_request();
                perform(
                    username,
                    policy,
                    Stage::KeysRequested { user },
                    Action::Http { request },
                    one_text(String::from_str("User accepted to import keys")),
                )
            } else {
                Step::Finish {
                    outcome: Outcome::Success,
                    notice: None,
                    log: one_text(String::from_str("User declined to import keys")),
                }
            }
        },
    }
}

/// Computes `after_keys`.
fn on_keys(username: String, policy: Policy, keys: Result<String, GithubError>) -> (r: Step)
    ensures
        r@ == after_keys(username@, policy@, text_result_view(keys)),
{
    match keys {
        Err(e) => fail(join("Failed to import keys: ", e.describe().as_str())),
        Ok(text) => {
            let action = authorized_key_command(username.as_str(), text.as_str());
            perform(username, policy, Stage::KeysImporting, Action::System { action }, no_texts())
        },
    }
}

/// Computes `after_import`.
fn on_import(username: String, written: Result<(), String>) -> (r: Step)
    ensures
        r@ == after_import(username@, done_view(written)),
{
    match written {
        Err(why) => fail(join("Failed to import keys: ", why.as_str())),
        Ok(u) => Step::Finish {
            outcome: Outcome::Success,
            notice: None,
            log: one_text(join("Imported keys for user ", username.as_str())),
        },
    }
}

/// Advances a login attempt by the event that answers the action that is
/// out.
pub fn step(session: Session, event: &Event) -> (r: Step)
    ensures
        r@ == step_of(session@, event@),
{
    let Session { username, policy, stage } = session;
    match (stage, event) {
        (Stage::CodeRequested, Event::Http { outcome }) => {
            let codes = get_auth_code(outcome);
            on_code_request(username, policy, codes)
        },
        (Stage::CodeDisplayed { device_code }, Event::Conversation { conversation }) => {
            let confirmed = prompt_user(PromptMode::HiddenInput, conversation);
            on_code_display(username, policy, device_code, confirmed)
        },
        (Stage::Redeeming { exchange }, Event::Http { outcome }) => {
            let redeemed = GithubUser::from_device_code(
                exchange,
                username.as_str(),
                policy.org.as_str(),
                outcome,
            );
            on_redemption(username, policy, redeemed)
        },
        (Stage::TeamAsked { user }, Event::Http { outcome }) => {
            let membership = user.is_in_team(outcome);
            on_team(username, policy, user, membership)
        },
        (Stage::Decided { user }, Event::Conversation { conversation }) => {
            let shown = prompt_user(PromptMode::InfoDisplay, conversation);
            on_announcement(username, policy, user, shown)
        },
        (Stage::Provisioning { user, progress }, Event::System { result }) => {
            let provisioning = ensure_user_exists(
                progress,
                username.as_str(),
                policy.sudoer,
                result,
            );
            on_provisioning(username, policy, user, provisioning)
        },
        (Stage::ImportOffered { user }, Event::Conversation { conversation }) => {
            let answer = prompt_user(PromptMode::VisibleInput, conversation);
            on_offer(username, policy, user, answer)
        },
        (Stage::KeysRequested { user }, Event::Http { outcome }) => {
            let keys = user.get_keys(outcome);
            on_keys(username, policy, keys)
        },
        (Stage::KeysImporting, Event::System { result }) => {
            let written = add_authorized_key(result);
            on_import(username, written)
        },
        _ => fail(String::from_str("Unexpected event")),
    }
}

} // verus!
