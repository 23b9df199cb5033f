//! What holds of every login attempt, proved from the definitions.

use vstd::prelude::*;
use crate::args::{policy_of, PolicyError, PolicyView};
use crate::auth::{
    after_redemption, begin_of, go_on, step_of, ActionView, EventView, Outcome, SessionView,
    StageView, StepView,
};
use crate::github::{
    access_token_of, auth_code_of, identity_request_of, keys_of, redemption_of, redemption_step,
    team_membership_of, token_request_of, username_check_of, GithubErrorView, GithubUserView,
    RedeemedView, RedemptionView,
};
use crate::http::{success_status, HttpOutcomeView};
use crate::json::document_text;
use crate::prompt::ConversationView;
use crate::text::{ascii_lower, says_yes};
use crate::user::{
    key_file, key_import, key_import_result, key_script, provision_step, succeeded,
    sudoers_step, ProvisionedView, ProvisioningView, SudoersStageView, SudoersStepView,
    SystemActionView, SystemResultView,
};

verus! {

/// Whether a step ends the attempt with `outcome`.
pub open spec fn ends_with(step: StepView, outcome: Outcome) -> bool {
    step matches StepView::Finish { outcome: o, .. } && o == outcome
}

/// Where an attempt stands after the events `events` have answered, in
/// order, the actions it asked for from `step` on. An attempt that is over
/// takes no further event.
pub open spec fn run(step: StepView, events: Seq<EventView>) -> StepView
    decreases events.len(),
{
    match step {
        StepView::Finish { .. } => step,
        StepView::Perform { session, .. } => if events.len() == 0 {
            step
        } else {
            run(step_of(session, events.first()), events.drop_first())
        },
    }
}

/// An attempt whose arguments lack `org` or `client_id` is over at once, as
/// a service error: it asks for no action, so no request is ever made.
pub proof fn missing_argument_ends_attempt(username: Seq<char>, args: Map<Seq<char>, Seq<char>>)
    requires
        !args.contains_key("org"@) || !args.contains_key("client_id"@),
    ensures
        ends_with(begin_of(username, args), Outcome::ServiceError),
{
}

/// An attempt whose arguments have `org` and `client_id` opens with the
/// device-flow request for that client.
pub proof fn complete_arguments_open_attempt(username: Seq<char>, args: Map<Seq<char>, Seq<char>>)
    requires
        args.contains_key("org"@),
        args.contains_key("client_id"@),
    ensures
        begin_of(username, args) matches StepView::Perform { session, action, .. }
            && session.stage == StageView::CodeRequested && session.username == ascii_lower(
            username,
        ) && Ok::<PolicyView, PolicyError>(session.policy) == policy_of(args),
{
}

/// A redemption that ends with `NotFound` or `InvalidUser` turns the
/// operator away.
pub proof fn unknown_account_is_turned_away(
    session: SessionView,
    exchange: RedemptionView,
    outcome: HttpOutcomeView,
    e: GithubErrorView,
)
    requires
        session.stage == (StageView::Redeeming { exchange }),
        redemption_step(exchange, session.username, session.policy.org, outcome) == (
        RedeemedView::Done { result: Err(e) }),
        e is NotFound || e is InvalidUser,
    ensures
        ends_with(step_of(session, EventView::Http { outcome }), Outcome::UserUnknown),
{
}

/// A redemption that ends with `Unauthorized` turns the operator away as
/// well; one that ends with any other error than these three is a service
/// error.
pub proof fn unauthorized_and_other_failures(
    session: SessionView,
    exchange: RedemptionView,
    outcome: HttpOutcomeView,
    e: GithubErrorView,
)
    requires
        session.stage == (StageView::Redeeming { exchange }),
        redemption_step(exchange, session.username, session.policy.org, outcome) == (
        RedeemedView::Done { result: Err(e) }),
    ensures
        e is Unauthorized ==> ends_with(
            step_of(session, EventView::Http { outcome }),
            Outcome::UserUnknown,
        ),
        e is Forbidden || e is Other ==> ends_with(
            step_of(session, EventView::Http { outcome }),
            Outcome::ServiceError,
        ),
{
}

/// Where the provider reports an account name that differs from the claimed
/// one beyond ASCII case, the operator is turned away, and the organisation
/// is never asked: whatever events follow change nothing.
pub proof fn foreign_token_is_turned_away(
    session: SessionView,
    token: Seq<char>,
    status: u16,
    body: Seq<char>,
    login: Seq<char>,
    later: Seq<EventView>,
)
    requires
        session.stage == (StageView::Redeeming { exchange: RedemptionView::Identity { token } }),
        success_status(status),
        document_text(body, "login"@) == Some(login),
        ascii_lower(login) != ascii_lower(session.username),
    ensures
        ends_with(
            step_of(session, EventView::Http { outcome: HttpOutcomeView::Reply { status, body } }),
            Outcome::UserUnknown,
        ),
        ends_with(
            run(
                go_on(
                    session.username,
                    session.policy,
                    session.stage,
                    ActionView::Http { request: identity_request_of(token) },
                    Seq::empty(),
                ),
                seq![EventView::Http { outcome: HttpOutcomeView::Reply { status, body } }] + later,
            ),
            Outcome::UserUnknown,
        ),
{
    let reply = EventView::Http { outcome: HttpOutcomeView::Reply { status, body } };
    let events = seq![reply] + later;
    let first = step_of(session, reply);
    assert(ends_with(first, Outcome::UserUnknown));
    assert(events.first() == reply);
    assert(run(first, events.drop_first()) == first);
}

/// Under a policy with a team, an account that is not in the team is turned
/// away although the organisation knows it.
pub proof fn outsider_is_turned_away(
    session: SessionView,
    user: GithubUserView,
    outcome: HttpOutcomeView,
)
    requires
        session.stage == (StageView::TeamAsked { user }),
        team_membership_of(outcome) == Ok::<bool, GithubErrorView>(false),
    ensures
        ends_with(step_of(session, EventView::Http { outcome }), Outcome::UserUnknown),
{
}

/// Any reply to the team question with a status outside 200..299 counts as
/// "not in the team".
pub proof fn refused_team_reply_means_outsider(status: u16, body: Seq<char>)
    requires
        !success_status(status),
    ensures
        team_membership_of(HttpOutcomeView::Reply { status, body }) == Ok::<bool, GithubErrorView>(
            false,
        ),
{
}

/// The three steps of a redemption come to what `redemption_of` says of the
/// provider's three answers.
pub proof fn redemption_in_steps(
    username: Seq<char>,
    org: Seq<char>,
    token_outcome: HttpOutcomeView,
    identity_outcome: HttpOutcomeView,
    membership_outcome: HttpOutcomeView,
)
    ensures
        match redemption_step(RedemptionView::Token, username, org, token_outcome) {
            RedeemedView::Done { result } => result == redemption_of(
                username,
                org,
                token_outcome,
                identity_outcome,
                membership_outcome,
            ),
            RedeemedView::Ask { next, request } => match redemption_step(
                next,
                username,
                org,
                identity_outcome,
            ) {
                RedeemedView::Done { result } => result == redemption_of(
                    username,
                    org,
                    token_outcome,
                    identity_outcome,
                    membership_outcome,
                ),
                RedeemedView::Ask { next, request } => redemption_step(
                    next,
                    username,
                    org,
                    membership_outcome,
                ) == (RedeemedView::Done {
                    result: redemption_of(
                        username,
                        org,
                        token_outcome,
                        identity_outcome,
                        membership_outcome,
                    ),
                }),
            },
        },
{
}

/// An account comes out of a redemption only if the token's account name
/// matched the claimed one and the membership lookup succeeded.
pub proof fn confirmed_account_was_checked(
    username: Seq<char>,
    org: Seq<char>,
    token_outcome: HttpOutcomeView,
    identity_outcome: HttpOutcomeView,
    membership_outcome: HttpOutcomeView,
    user: GithubUserView,
)
    requires
        redemption_of(username, org, token_outcome, identity_outcome, membership_outcome) == Ok::<
            GithubUserView,
            GithubErrorView,
        >(user),
    ensures
        access_token_of(token_outcome) is Ok,
        username_check_of(username, identity_outcome) is Ok,
        membership_outcome matches HttpOutcomeView::Reply { status, .. } && success_status(status),
        user.username == username,
        user.org == org,
        user.pat == access_token_of(token_outcome)->Ok_0,
{
}

/// An account that is already there is left as it is: provisioning ends at
/// once, reports that the account existed, and asks for no further action.
pub proof fn existing_account_is_left_alone(
    username: Seq<char>,
    add_sudo: bool,
    result: SystemResultView,
)
    requires
        succeeded(result),
    ensures
        provision_step(ProvisioningView::Account, username, add_sudo, result) == (
        ProvisionedView::Done { result: Ok(true), log: Seq::empty() }),
{
}

/// How far along the fixed order of stages a stage is.
pub open spec fn rank(stage: StageView) -> nat {
    match stage {
        StageView::CodeRequested => 0,
        StageView::CodeDisplayed { .. } => 1,
        StageView::Redeeming { exchange } => match exchange {
            RedemptionView::Token => 2,
            RedemptionView::Identity { .. } => 3,
            RedemptionView::Membership { .. } => 4,
        },
        StageView::TeamAsked { .. } => 5,
        StageView::Decided { .. } => 6,
        StageView::Provisioning { progress, .. } => match progress {
            ProvisioningView::Account => 7,
            ProvisioningView::Create => 8,
            ProvisioningView::SshDirProbe => 9,
            ProvisioningView::SshDirMake => 10,
            ProvisioningView::KeyFileProbe => 11,
            ProvisioningView::KeyFileMake => 12,
            ProvisioningView::SshDirMode => 13,
            ProvisioningView::KeyFileMode => 14,
            ProvisioningView::HomeOwner => 15,
            ProvisioningView::Sudoers { stage } => match stage {
                SudoersStageView::Probe => 16,
                SudoersStageView::Write => 17,
                SudoersStageView::Check => 18,
                SudoersStageView::Remove { .. } => 19,
            },
        },
        StageView::ImportOffered { .. } => 20,
        StageView::KeysRequested { .. } => 21,
        StageView::KeysImporting => 22,
    }
}

/// An attempt never turns back: a step that does not end it leads to a later
/// stage, under the same user name and the same policy.
pub proof fn attempt_moves_forward(session: SessionView, event: EventView)
    ensures
        step_of(session, event) matches StepView::Perform { session: next, .. } ==> rank(
            next.stage,
        ) > rank(session.stage) && next.username == session.username && next.policy
            == session.policy,
{
}

/// An attempt is over after at most 23 events.
pub proof fn attempt_ends(step: StepView, events: Seq<EventView>)
    requires
        step matches StepView::Perform { session, .. } ==> events.len() + rank(session.stage)
            >= 23,
    ensures
        run(step, events) is Finish,
    decreases events.len(),
{
    match step {
        StepView::Finish { .. } => {},
        StepView::Perform { session, .. } => {
            assert(rank(session.stage) <= 22);
            attempt_moves_forward(session, events.first());
            attempt_ends(step_of(session, events.first()), events.drop_first());
        },
    }
}

/// Success is declared only once the success message has been shown: an
/// attempt ends with success only from the stage that shows it or a later
/// one, never on an event that reports a failure of provisioning or import.
pub proof fn success_comes_last(session: SessionView, event: EventView)
    requires
        ends_with(step_of(session, event), Outcome::Success),
    ensures
        rank(session.stage) >= 6,
        session.stage is Decided ==> !session.policy.auto_create_user
            && !session.policy.allow_import_keys,
        session.stage is Provisioning ==> !session.policy.allow_import_keys,
{
}

/// What the operator is told on the way out is one of three fixed texts; no
/// detail of a provider error ever reaches them.
pub proof fn notice_is_fixed(session: SessionView, event: EventView)
    ensures
        step_of(session, event) matches StepView::Finish { outcome, notice: Some(text), .. }
            ==> outcome == Outcome::UserUnknown && (text == "User not found in organization"@
            || text == "Unauthorized access"@ || text == "User is not in the specified team"@),
{
}

/// A device-flow request that fails, for whatever reason, is a service
/// error: at that point nothing is known about the operator.
pub proof fn failed_code_request_is_service_error(session: SessionView, outcome: HttpOutcomeView)
    requires
        session.stage == StageView::CodeRequested,
        auth_code_of(outcome) is Err,
    ensures
        ends_with(step_of(session, EventView::Http { outcome }), Outcome::ServiceError),
{
}

/// A prompt that fails ends the attempt as a service error, at whichever
/// stage it was made: the user code, the success message, the import offer.
pub proof fn failed_prompt_is_service_error(session: SessionView, conversation: ConversationView)
    requires
        session.stage is CodeDisplayed || session.stage is Decided || session.stage
            is ImportOffered,
        conversation is Unavailable || conversation is Failed || conversation == (
        ConversationView::Returned { reply: None }),
    ensures
        ends_with(
            step_of(session, EventView::Conversation { conversation }),
            Outcome::ServiceError,
        ),
{
}

/// A team lookup that could not be made is a service error, not a refusal.
pub proof fn failed_team_lookup_is_service_error(
    session: SessionView,
    user: GithubUserView,
    outcome: HttpOutcomeView,
)
    requires
        session.stage == (StageView::TeamAsked { user }),
        outcome is Failed,
    ensures
        ends_with(step_of(session, EventView::Http { outcome }), Outcome::ServiceError),
{
}

/// What fails after the account was let in still fails the attempt: a
/// provisioning that gives up is a service error.
pub proof fn failed_provisioning_is_service_error(
    session: SessionView,
    user: GithubUserView,
    progress: ProvisioningView,
    result: SystemResultView,
)
    requires
        session.stage == (StageView::Provisioning { user, progress }),
        provision_step(progress, session.username, session.policy.sudoer, result)
            matches ProvisionedView::Done { result: Err(_), .. },
    ensures
        ends_with(step_of(session, EventView::System { result }), Outcome::ServiceError),
{
}

/// Keys that cannot be fetched are a service error.
pub proof fn failed_keys_request_is_service_error(
    session: SessionView,
    user: GithubUserView,
    outcome: HttpOutcomeView,
)
    requires
        session.stage == (StageView::KeysRequested { user }),
        keys_of(outcome) is Err,
    ensures
        ends_with(step_of(session, EventView::Http { outcome }), Outcome::ServiceError),
{
}

/// Keys that cannot be written are a service error.
pub proof fn failed_key_import_is_service_error(session: SessionView, result: SystemResultView)
    requires
        session.stage == StageView::KeysImporting,
        key_import_result(result) is Err,
    ensures
        ends_with(step_of(session, EventView::System { result }), Outcome::ServiceError),
{
}

/// An operator who does not answer the import offer with yes is let in
/// without an import: the attempt ends with success and asks for nothing
/// more.
pub proof fn declined_import_succeeds(
    session: SessionView,
    user: GithubUserView,
    answer: Seq<char>,
)
    requires
        session.stage == (StageView::ImportOffered { user }),
        !says_yes(answer),
    ensures
        ends_with(
            step_of(
                session,
                EventView::Conversation {
                    conversation: ConversationView::Returned { reply: Some(answer) },
                },
            ),
            Outcome::Success,
        ),
{
}

/// The optional stages are entered only under a policy that asks for them:
/// the team is checked only if one is set, an account is provisioned only if
/// that is asked for, and an import is offered only if it is allowed.
pub proof fn optional_stages_follow_policy(session: SessionView, event: EventView)
    ensures
        step_of(session, event) matches StepView::Perform { session: next, .. } ==> {
            &&& next.stage is TeamAsked ==> next.policy.team is Some
            &&& next.stage is Provisioning && !(session.stage is Provisioning)
                ==> next.policy.auto_create_user
            &&& next.stage is ImportOffered ==> next.policy.allow_import_keys
        },
{
}

/// Nothing is done on the system before the account was let in and the
/// success message was shown, and nothing at all under a policy that asks
/// neither for an account nor for an import.
pub proof fn system_is_touched_last(session: SessionView, event: EventView)
    ensures
        step_of(session, event) matches StepView::Perform {
            action: ActionView::System { .. },
            ..
        } ==> rank(session.stage) >= 6 && (session.stage is Decided
            ==> session.policy.auto_create_user),
{
}

/// Whether `user` is the account this attempt is about: it bears the
/// claimed name and was confirmed for the policy's organisation.
pub open spec fn is_claimed(session: SessionView, user: GithubUserView) -> bool {
    user.username == session.username && user.org == session.policy.org
}

/// Whether a session hangs together: the stage it is in is one that its
/// policy asks for, and the account it carries is the one it is about.
pub open spec fn coherent(session: SessionView) -> bool {
    match session.stage {
        StageView::CodeRequested => true,
        StageView::CodeDisplayed { .. } => true,
        StageView::Redeeming { .. } => true,
        StageView::TeamAsked { user } => is_claimed(session, user) && session.policy.team is Some,
        StageView::Decided { user } => is_claimed(session, user),
        StageView::Provisioning { user, progress } => is_claimed(session, user)
            && session.policy.auto_create_user && (progress is Sudoers
            ==> session.policy.sudoer),
        StageView::ImportOffered { user } => is_claimed(session, user)
            && session.policy.allow_import_keys,
        StageView::KeysRequested { user } => is_claimed(session, user)
            && session.policy.allow_import_keys,
        StageView::KeysImporting => session.policy.allow_import_keys,
    }
}

/// Every attempt opens with a session that hangs together.
pub proof fn opening_is_coherent(username: Seq<char>, args: Map<Seq<char>, Seq<char>>)
    ensures
        begin_of(username, args) matches StepView::Perform { session, .. } ==> coherent(session),
{
}

/// A step keeps a session together.
pub proof fn step_keeps_coherence(session: SessionView, event: EventView)
    requires
        coherent(session),
    ensures
        step_of(session, event) matches StepView::Perform { session: next, .. } ==> coherent(
            next,
        ),
{
}

/// However an attempt goes, its session hangs together at every point.
pub proof fn run_keeps_coherence(step: StepView, events: Seq<EventView>)
    requires
        step matches StepView::Perform { session, .. } ==> coherent(session),
    ensures
        run(step, events) matches StepView::Perform { session, .. } ==> coherent(session),
    decreases events.len(),
{
    match step {
        StepView::Finish { .. } => {},
        StepView::Perform { session, .. } => {
            if events.len() > 0 {
                step_keeps_coherence(session, events.first());
                run_keeps_coherence(step_of(session, events.first()), events.drop_first());
            }
        },
    }
}

/// Under a policy that asks neither for an account nor for an import,
/// nothing is ever done on the system.
pub proof fn plain_policy_leaves_system_alone(session: SessionView, event: EventView)
    requires
        coherent(session),
        !session.policy.auto_create_user,
        !session.policy.allow_import_keys,
    ensures
        !(step_of(session, event) matches StepView::Perform {
            action: ActionView::System { .. },
            ..
        }),
{
}

/// Administrative rights are granted only under a policy that asks for
/// them.
pub proof fn rights_need_policy(session: SessionView, event: EventView)
    requires
        coherent(session),
        !session.policy.sudoer,
    ensures
        !(step_of(session, event) matches StepView::Perform {
            session: SessionView {
                stage: StageView::Provisioning { progress: ProvisioningView::Sudoers { .. }, .. },
                ..
            },
            ..
        }),
{
}

/// A confirmed account goes on whatever the state of its membership and
/// whatever its role: a membership that is still pending is let in like an
/// active one.
pub proof fn membership_state_is_not_judged(
    username: Seq<char>,
    policy: PolicyView,
    user: GithubUserView,
)
    ensures
        after_redemption(username, policy, RedeemedView::Done { result: Ok(user) }) is Perform,
{
}

/// A device code is redeemed once: the token request goes out only when the
/// operator has confirmed the user code, and it carries the device code that
/// was issued for this attempt.
pub proof fn device_code_is_redeemed_once(
    session: SessionView,
    event: EventView,
    next: SessionView,
    action: ActionView,
    log: Seq<Seq<char>>,
)
    requires
        step_of(session, event) == (StepView::Perform { session: next, action, log }),
        next.stage == (StageView::Redeeming { exchange: RedemptionView::Token }),
    ensures
        session.stage is CodeDisplayed,
        action == (ActionView::Http {
            request: token_request_of(session.stage->device_code, session.policy.client_id),
        }),
{
}

/// Rights that were asked for and could not be granted fail the attempt,
/// although the account was let in and made: whether the grant could not be
/// written, could not be checked, or failed the check and was removed.
pub proof fn failed_grant_is_service_error(
    session: SessionView,
    user: GithubUserView,
    stage: SudoersStageView,
    result: SystemResultView,
)
    requires
        session.stage == (StageView::Provisioning {
            user,
            progress: ProvisioningView::Sudoers { stage },
        }),
        sudoers_step(stage, session.username, result) matches SudoersStepView::Done {
            result: Err(_),
            ..
        },
    ensures
        provision_step(
            ProvisioningView::Sudoers { stage },
            session.username,
            session.policy.sudoer,
            result,
        ) matches ProvisionedView::Done { result: Err(_), .. },
        ends_with(step_of(session, EventView::System { result }), Outcome::ServiceError),
{
}

/// A key is written, never run: the command that imports it is the same
/// fixed script for every key, and the key is one argument of it, whatever
/// characters it holds.
pub proof fn key_is_handed_over_as_data(username: Seq<char>, key: Seq<char>, other: Seq<char>)
    ensures
        key_import(username, key) matches SystemActionView::Run { program, args } && program
            == "sudo"@ && args == seq![
            "bash"@,
            "-c"@,
            key_script(),
            "authorized_keys"@,
            key,
            key_file(username),
        ],
        key_import(username, other)->args == key_import(username, key)->args.update(4, other),
{
    assert(key_import(username, other)->args =~= key_import(username, key)->args.update(
        4,
        other,
    ));
}

} // verus!
