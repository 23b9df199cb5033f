//! The identity provider's side of a login: what to ask GitHub, and what its
//! answers mean.
//!
//! Each exchange comes as a pair: a function that builds the request, and a
//! function that turns the outcome of that request into a value or a
//! `GithubError`.

use vstd::prelude::*;
use vstd::string::*;
use crate::http::{HttpMethod, HttpOutcome, HttpOutcomeView, HttpRequest, HttpRequestView};
use crate::http::{is_success, push_pair, success_status};
use crate::json::{document_text, member, parse};
use crate::text::{ascii_lower, decimal, decimal_digits, join, same_text, to_ascii_lower};

verus! {

/// How far an account's membership of an organisation has got.
#[derive(Clone, Copy, Debug, PartialEq, Eq, Structural)]
pub enum GithubState {
    Pending,
    Active,
}

/// What an account is to an organisation.
#[derive(Clone, Copy, Debug, PartialEq, Eq, Structural)]
pub enum GithubRole {
    Member,
    Admin,
    Billing,
}

/// Why an exchange with the provider did not give what was asked for.
///
/// `Other` covers every failure that is not about the account: a request that
/// could not be completed, a status outside the ones named here, a reply that
/// does not have the expected shape.
#[derive(Clone, Debug, PartialEq, Eq)]
pub enum GithubError {
    NotFound,
    Unauthorized,
    Forbidden,
    InvalidUser(String),
    Other(String),
}

/// The mathematical content of a `GithubError`.
pub ghost enum GithubErrorView {
    NotFound,
    Unauthorized,
    Forbidden,
    InvalidUser(Seq<char>),
    Other(Seq<char>),
}

impl View for GithubError {
    type V = GithubErrorView;

    open spec fn view(&self) -> GithubErrorView {
        match self {
            GithubError::NotFound => GithubErrorView::NotFound,
            GithubError::Unauthorized => GithubErrorView::Unauthorized,
            GithubError::Forbidden => GithubErrorView::Forbidden,
            GithubError::InvalidUser(detail) => GithubErrorView::InvalidUser(detail@),
            GithubError::Other(detail) => GithubErrorView::Other(detail@),
        }
    }
}

/// A provider error in words, for the diagnostic log.
pub open spec fn error_text(e: GithubErrorView) -> Seq<char> {
    match e {
        GithubErrorView::NotFound => "NotFound"@,
        GithubErrorView::Unauthorized => "Unauthorized"@,
        GithubErrorView::Forbidden => "Forbidden"@,
        GithubErrorView::InvalidUser(detail) => "InvalidUser: "@ + detail,
        GithubErrorView::Other(detail) => "Other: "@ + detail,
    }
}

impl GithubError {
    /// Writes the error in words, for the diagnostic log.
    pub fn describe(&self) -> (r: String)
        ensures
            r@ == error_text(self@),
    {
        match self {
            GithubError::NotFound => String::from_str("NotFound"),
            GithubError::Unauthorized => String::from_str("Unauthorized"),
            GithubError::Forbidden => String::from_str("Forbidden"),
            GithubError::InvalidUser(detail) => join("InvalidUser: ", detail.as_str()),
            GithubError::Other(detail) => join("Other: ", detail.as_str()),
        }
    }
}

/// The error that a reply's status stands for when the status is not a
/// success and `NotFound` is not a possible answer: 401 and 403 by name,
/// anything else as `Other` with `context` and the status in decimal.
pub open spec fn plain_status_error(status: u16, context: Seq<char>) -> GithubErrorView {
    if status == 401 {
        GithubErrorView::Unauthorized
    } else if status == 403 {
        GithubErrorView::Forbidden
    } else {
        GithubErrorView::Other(context + decimal_digits(status as nat))
    }
}

/// The error that a reply's status stands for when the status is not a
/// success: 401, 403 and 404 by name, anything else as `Other` with `context`
/// and the status in decimal.
pub open spec fn status_error(status: u16, context: Seq<char>) -> GithubErrorView {
    if status == 404 {
        GithubErrorView::NotFound
    } else {
        plain_status_error(status, context)
    }
}

/// The error for a request that could not be completed: `Other`, with
/// `context` and the reason the transport gave.
pub open spec fn transport_error(context: Seq<char>, reason: Seq<char>) -> GithubErrorView {
    GithubErrorView::Other(context + reason)
}

/// Computes `plain_status_error`.
pub fn plain_error_for_status(status: u16, context: &str) -> (e: GithubError)
    ensures
        e@ == plain_status_error(status, context@),
{
    if status == 401 {
        GithubError::Unauthorized
    } else if status == 403 {
        GithubError::Forbidden
    } else {
        let number = decimal(status as u64);
        GithubError::Other(join(context, number.as_str()))
    }
}

/// Computes `status_error`.
pub fn error_for_status(status: u16, context: &str) -> (e: GithubError)
    ensures
        e@ == status_error(status, context@),
{
    if status == 404 {
        GithubError::NotFound
    } else {
        plain_error_for_status(status, context)
    }
}

/// Computes `transport_error`.
pub fn error_for_transport(context: &str, reason: &str) -> (e: GithubError)
    ensures
        e@ == transport_error(context@, reason@),
{
    GithubError::Other(join(context, reason))
}

/// The request that starts a device flow for the OAuth application
/// `client_id`.
pub open spec fn auth_code_request_of(client_id: Seq<char>) -> HttpRequestView {
    HttpRequestView {
        method: HttpMethod::Post,
        url: "https://github.com/login/device/code"@,
        headers: seq![("Accept"@, "application/json"@)],
        form: seq![("client_id"@, client_id)],
    }
}

/// Builds the request that starts a device flow.
pub fn auth_code_request(client_id: &str) -> (r: HttpRequest)
    ensures
        r@ == auth_code_request_of(client_id@),
{
    let mut headers: Vec<(String, String)> = Vec::new();
    push_pair(&mut headers, "Accept", "application/json");
    let mut form: Vec<(String, String)> = Vec::new();
    push_pair(&mut form, "client_id", client_id);
    let r = HttpRequest {
        method: HttpMethod::Post,
        url: String::from_str("https://github.com/login/device/code"),
        headers,
        form,
    };
    assert(r@.headers =~= auth_code_request_of(client_id@).headers);
    assert(r@.form =~= auth_code_request_of(client_id@).form);
    r
}

/// The pair of codes in a successful reply to a device-flow request, given
/// the two members read from it: both must be there.
pub open spec fn auth_code_of_members(
    device_code: Option<Seq<char>>,
    user_code: Option<Seq<char>>,
) -> Result<(Seq<char>, Seq<char>), GithubErrorView> {
    match (device_code, user_code) {
        (Some(d), Some(u)) => Ok((d, u)),
        _ => Err(GithubErrorView::Other("Device code response lacks device_code or user_code"@)),
    }
}

/// What the outcome of a device-flow request means: the device code and the
/// user code, or the reason there are none.
pub open spec fn auth_code_of(outcome: HttpOutcomeView) -> Result<
    (Seq<char>, Seq<char>),
    GithubErrorView,
> {
    match outcome {
        HttpOutcomeView::Failed { reason } => Err(
            transport_error("Failed to send request for device code: "@, reason),
        ),
        HttpOutcomeView::Reply { status, body } => if success_status(status) {
            auth_code_of_members(
                document_text(body, "device_code"@),
                document_text(body, "user_code"@),
            )
        } else {
            Err(plain_status_error(status, "Unexpected error: "@))
        },
    }
}

/// The mathematical content of a device-flow result.
pub open spec fn auth_code_view(r: Result<(String, String), GithubError>) -> Result<
    (Seq<char>, Seq<char>),
    GithubErrorView,
> {
    match r {
        Ok(codes) => Ok((codes.0@, codes.1@)),
        Err(e) => Err(e@),
    }
}

/// Pairs the two codes read from a successful device-flow reply.
pub fn auth_code_from_members(device_code: Option<String>, user_code: Option<String>) -> (r:
    Result<(String, String), GithubError>)
    ensures
        auth_code_view(r) == auth_code_of_members(device_code.deep_view(), user_code.deep_view()),
{
    match (device_code, user_code) {
        (Some(d), Some(u)) => Ok((d, u)),
        _ => Err(
            GithubError::Other(
                String::from_str("Device code response lacks device_code or user_code"),
            ),
        ),
    }
}

/// Interprets the outcome of a device-flow request: `(device_code, user_code)`
/// on success.
pub fn get_auth_code(outcome: &HttpOutcome) -> (r: Result<(String, String), GithubError>)
    ensures
        auth_code_view(r) == auth_code_of(outcome@),
{
    match outcome {
        HttpOutcome::Failed { reason } => Err(
            error_for_transport("Failed to send request for device code: ", reason.as_str()),
        ),
        HttpOutcome::Reply { status, body } => {
            if is_success(*status) {
                let doc = parse(body.as_str());
                let device_code = member(&doc, "device_code");
                let user_code = member(&doc, "user_code");
                auth_code_from_members(device_code, user_code)
            } else {
                Err(plain_error_for_status(*status, "Unexpected error: "))
            }
        },
    }
}

/// An account that has proved its identity to the provider and whose
/// membership of the organisation the provider has confirmed.
///
/// `GithubUser::from_members` builds one from what a successful membership
/// reply holds, and `GithubUser::from_pat` does so for the reply itself; a
/// redemption ends with one only along that way. A value of this type always
/// carries the organisation, the access token and the user name it was made
/// for.
#[derive(Clone, Debug, PartialEq, Eq)]
pub struct GithubUser {
    pub state: GithubState,
    pub role: GithubRole,
    /// The organisation the membership is of.
    pub org: String,
    /// The access token the account was confirmed with.
    pub pat: String,
    pub username: String,
}

/// The mathematical content of a `GithubUser`.
pub ghost struct GithubUserView {
    pub state: GithubState,
    pub role: GithubRole,
    pub org: Seq<char>,
    pub pat: Seq<char>,
    pub username: Seq<char>,
}

impl View for GithubUser {
    type V = GithubUserView;

    open spec fn view(&self) -> GithubUserView {
        GithubUserView {
            state: self.state,
            role: self.role,
            org: self.org@,
            pat: self.pat@,
            username: self.username@,
        }
    }
}

/// The membership state that the provider writes as `text`.
pub open spec fn state_named(text: Seq<char>) -> Option<GithubState> {
    if text == "pending"@ {
        Some(GithubState::Pending)
    } else if text == "active"@ {
        Some(GithubState::Active)
    } else {
        None
    }
}

/// The role that the provider writes as `text`.
pub open spec fn role_named(text: Seq<char>) -> Option<GithubRole> {
    if text == "member"@ {
        Some(GithubRole::Member)
    } else if text == "admin"@ {
        Some(GithubRole::Admin)
    } else if text == "billing_manager"@ {
        Some(GithubRole::Billing)
    } else {
        None
    }
}

/// Reads a membership state as the provider writes it.
pub fn parse_state(text: &str) -> (r: Option<GithubState>)
    ensures
        r == state_named(text@),
{
    if same_text(text, "pending") {
        Some(GithubState::Pending)
    } else if same_text(text, "active") {
        Some(GithubState::Active)
    } else {
        None
    }
}

/// Reads a role as the provider writes it.
pub fn parse_role(text: &str) -> (r: Option<GithubRole>)
    ensures
        r == role_named(text@),
{
    if same_text(text, "member") {
        Some(GithubRole::Member)
    } else if same_text(text, "admin") {
        Some(GithubRole::Admin)
    } else if same_text(text, "billing_manager") {
        Some(GithubRole::Billing)
    } else {
        None
    }
}

/// The value of an `Authorization` header that presents `pat` as a bearer
/// token.
pub open spec fn bearer(pat: Seq<char>) -> Seq<char> {
    "Bearer "@ + pat
}

/// The request that trades a device code for an access token.
pub open spec fn token_request_of(device_code: Seq<char>, client_id: Seq<char>) -> HttpRequestView {
    HttpRequestView {
        method: HttpMethod::Post,
        url: "https://github.com/login/oauth/access_token"@,
        headers: seq![("Accept"@, "application/json"@)],
        form: seq![
            ("client_id"@, client_id),
            ("device_code"@, device_code),
            ("grant_type"@, "urn:ietf:params:oauth:grant-type:device_code"@),
        ],
    }
}

/// The request that asks which account an access token belongs to.
pub open spec fn identity_request_of(pat: Seq<char>) -> HttpRequestView {
    HttpRequestView {
        method: HttpMethod::Get,
        url: "https://api.github.com/user"@,
        headers: seq![
            ("Accept"@, "application/json"@),
            ("Authorization"@, bearer(pat)),
            ("User-Agent"@, "ssh-with-gh"@),
        ],
        form: Seq::empty(),
    }
}

/// The request that asks for `username`'s membership of `org`.
pub open spec fn membership_request_of(
    pat: Seq<char>,
    username: Seq<char>,
    org: Seq<char>,
) -> HttpRequestView {
    HttpRequestView {
        method: HttpMethod::Get,
        url: "https://api.github.com/orgs/"@ + org + "/memberships/"@ + username,
        headers: seq![
            ("Accept"@, "application/json"@),
            ("Authorization"@, bearer(pat)),
            ("User-Agent"@, "ssh-with-gh"@),
        ],
        form: Seq::empty(),
    }
}

/// The request that asks whether `user` belongs to `team`.
pub open spec fn team_request_of(user: GithubUserView, team: Seq<char>) -> HttpRequestView {
    HttpRequestView {
        method: HttpMethod::Get,
        url: "https://api.github.com/orgs/"@ + user.org + "/teams/"@ + team + "/memberships/"@
            + user.username,
        headers: seq![("Authorization"@, bearer(user.pat))],
        form: Seq::empty(),
    }
}

/// The request that fetches the public keys of `user`.
pub open spec fn keys_request_of(user: GithubUserView) -> HttpRequestView {
    HttpRequestView {
        method: HttpMethod::Get,
        url: "https://github.com/"@ + user.username + ".keys"@,
        headers: seq![("User-Agent"@, "ssh-with-gh"@)],
        form: Seq::empty(),
    }
}

/// What the outcome of a token request means: the access token, or the
/// reason there is none. A successful reply without a token means that the
/// operator has not authorised the device.
pub open spec fn access_token_of(outcome: HttpOutcomeView) -> Result<Seq<char>, GithubErrorView> {
    match outcome {
        HttpOutcomeView::Failed { reason } => Err(
            transport_error("Failed to send request for access token: "@, reason),
        ),
        HttpOutcomeView::Reply { status, body } => if success_status(status) {
            access_token_of_member(document_text(body, "access_token"@))
        } else {
            Err(status_error(status, "Unexpected error at device code: "@))
        },
    }
}

/// The access token in a successful reply to a token request, given the
/// member read from it.
pub open spec fn access_token_of_member(token: Option<Seq<char>>) -> Result<
    Seq<char>,
    GithubErrorView,
> {
    match token {
        Some(t) => Ok(t),
        None => Err(GithubErrorView::Unauthorized),
    }
}

/// Whether the account name `login` that the provider reports is the
/// account `username` that was claimed: they are equal up to ASCII case.
pub open spec fn username_check_of_login(username: Seq<char>, login: Option<Seq<char>>) -> Result<
    (),
    GithubErrorView,
> {
    match login {
        Some(l) => if ascii_lower(l) == ascii_lower(username) {
            Ok(())
        } else {
            Err(
                GithubErrorView::InvalidUser(
                    "Username does not match: "@ + username + " != "@ + ascii_lower(l),
                ),
            )
        },
        None => Err(GithubErrorView::Other("User response lacks login"@)),
    }
}

/// What the outcome of an identity request means for the claim to be
/// `username`.
pub open spec fn username_check_of(username: Seq<char>, outcome: HttpOutcomeView) -> Result<
    (),
    GithubErrorView,
> {
    match outcome {
        HttpOutcomeView::Failed { reason } => Err(
            transport_error("Failed to send request for user info: "@, reason),
        ),
        HttpOutcomeView::Reply { status, body } => if success_status(status) {
            username_check_of_login(username, document_text(body, "login"@))
        } else {
            Err(status_error(status, "Unexpected error at username: "@))
        },
    }
}

/// The confirmed account in a successful membership reply, given the two
/// members read from it: both must be there and must name a state and a role.
pub open spec fn membership_of_members(
    pat: Seq<char>,
    username: Seq<char>,
    org: Seq<char>,
    state: Option<Seq<char>>,
    role: Option<Seq<char>>,
) -> Result<GithubUserView, GithubErrorView> {
    if state is Some && role is Some && state_named(state->0) is Some && role_named(role->0)
        is Some {
        Ok(
            GithubUserView {
                state: state_named(state->0)->0,
                role: role_named(role->0)->0,
                org,
                pat,
                username,
            },
        )
    } else {
        Err(GithubErrorView::Other("Membership response lacks state or role"@))
    }
}

/// What the outcome of a membership request means: the confirmed account,
/// or the reason there is none.
pub open spec fn membership_of(
    pat: Seq<char>,
    username: Seq<char>,
    org: Seq<char>,
    outcome: HttpOutcomeView,
) -> Result<GithubUserView, GithubErrorView> {
    match outcome {
        HttpOutcomeView::Failed { reason } => Err(
            transport_error("Failed to send request for memberships: "@, reason),
        ),
        HttpOutcomeView::Reply { status, body } => if success_status(status) {
            membership_of_members(
                pat,
                username,
                org,
                document_text(body, "state"@),
                document_text(body, "role"@),
            )
        } else {
            Err(status_error(status, "Unexpected error at pat: "@))
        },
    }
}

/// What the outcome of a team-membership request means: any reply answers
/// the question, a successful status with yes and any other with no; only a
/// request that could not be completed is an error.
pub open spec fn team_membership_of(outcome: HttpOutcomeView) -> Result<bool, GithubErrorView> {
    match outcome {
        HttpOutcomeView::Failed { reason } => Err(
            transport_error("Failed to send request for team membership: "@, reason),
        ),
        HttpOutcomeView::Reply { status, body } => Ok(success_status(status)),
    }
}

/// What the outcome of a keys request means: the key text, or the reason
/// there is none.
pub open spec fn keys_of(outcome: HttpOutcomeView) -> Result<Seq<char>, GithubErrorView> {
    match outcome {
        HttpOutcomeView::Failed { reason } => Err(
            transport_error("Failed to send request for keys: "@, reason),
        ),
        HttpOutcomeView::Reply { status, body } => if success_status(status) {
            Ok(body)
        } else {
            Err(status_error(status, "Unexpected error at keys: "@))
        },
    }
}

/// The mathematical content of a result that holds a text.
pub open spec fn text_result_view(r: Result<String, GithubError>) -> Result<
    Seq<char>,
    GithubErrorView,
> {
    match r {
        Ok(t) => Ok(t@),
        Err(e) => Err(e@),
    }
}

/// The mathematical content of a result that holds nothing.
pub open spec fn unit_result_view(r: Result<(), GithubError>) -> Result<(), GithubErrorView> {
    match r {
        Ok(u) => Ok(()),
        Err(e) => Err(e@),
    }
}

/// The mathematical content of a result that holds a flag.
pub open spec fn flag_result_view(r: Result<bool, GithubError>) -> Result<bool, GithubErrorView> {
    match r {
        Ok(b) => Ok(b),
        Err(e) => Err(e@),
    }
}

/// The mathematical content of a result that holds a confirmed account.
pub open spec fn user_result_view(r: Result<GithubUser, GithubError>) -> Result<
    GithubUserView,
    GithubErrorView,
> {
    match r {
        Ok(u) => Ok(u@),
        Err(e) => Err(e@),
    }
}

/// Builds the three headers of an authenticated API request.
fn api_headers(pat: &str) -> (headers: Vec<(String, String)>)
    ensures
        headers.deep_view() == seq![
            ("Accept"@, "application/json"@),
            ("Authorization"@, bearer(pat@)),
            ("User-Agent"@, "ssh-with-gh"@),
        ],
{
    let mut headers: Vec<(String, String)> = Vec::new();
    push_pair(&mut headers, "Accept", "application/json");
    let authorization = join("Bearer ", pat);
    push_pair(&mut headers, "Authorization", authorization.as_str());
    push_pair(&mut headers, "User-Agent", "ssh-with-gh");
    assert(headers.deep_view() =~= seq![
        ("Accept"@, "application/json"@),
        ("Authorization"@, bearer(pat@)),
        ("User-Agent"@, "ssh-with-gh"@),
    ]);
    headers
}

/// Builds the request that trades a device code for an access token.
pub fn token_request(device_code: &str, client_id: &str) -> (r: HttpRequest)
    ensures
        r@ == token_request_of(device_code@, client_id@),
{
    let mut headers: Vec<(String, String)> = Vec::new();
    push_pair(&mut headers, "Accept", "application/json");
    let mut form: Vec<(String, String)> = Vec::new();
    push_pair(&mut form, "client_id", client_id);
    push_pair(&mut form, "device_code", device_code);
    push_pair(&mut form, "grant_type", "urn:ietf:params:oauth:grant-type:device_code");
    let r = HttpRequest {
        method: HttpMethod::Post,
        url: String::from_str("https://github.com/login/oauth/access_token"),
        headers,
        form,
    };
    assert(r@.headers =~= token_request_of(device_code@, client_id@).headers);
    assert(r@.form =~= token_request_of(device_code@, client_id@).form);
    r
}

/// Builds the request that asks which account an access token belongs to.
pub fn identity_request(pat: &str) -> (r: HttpRequest)
    ensures
        r@ == identity_request_of(pat@),
{
    let form: Vec<(String, String)> = Vec::new();
    let r = HttpRequest {
        method: HttpMethod::Get,
        url: String::from_str("https://api.github.com/user"),
        headers: api_headers(pat),
        form,
    };
    assert(r@.form =~= Seq::empty());
    r
}

/// Builds the request that asks for `username`'s membership of `org`.
pub fn membership_request(pat: &str, username: &str, org: &str) -> (r: HttpRequest)
    ensures
        r@ == membership_request_of(pat@, username@, org@),
{
    let url = join("https://api.github.com/orgs/", org).concat("/memberships/").concat(username);
    let form: Vec<(String, String)> = Vec::new();
    let r = HttpRequest { method: HttpMethod::Get, url, headers: api_headers(pat), form };
    assert(r@.form =~= Seq::empty());
    r
}

/// Takes the access token out of a successful reply to a token request.
pub fn access_token_from_member(token: Option<String>) -> (r: Result<String, GithubError>)
    ensures
        text_result_view(r) == access_token_of_member(token.deep_view()),
{
    match token {
        Some(t) => Ok(t),
        None => Err(GithubError::Unauthorized),
    }
}

/// Interprets the outcome of a token request.
pub fn access_token(outcome: &HttpOutcome) -> (r: Result<String, GithubError>)
    ensures
        text_result_view(r) == access_token_of(outcome@),
{
    match outcome {
        HttpOutcome::Failed { reason } => Err(
            error_for_transport("Failed to send request for access token: ", reason.as_str()),
        ),
        HttpOutcome::Reply { status, body } => {
            if is_success(*status) {
                let doc = parse(body.as_str());
                access_token_from_member(member(&doc, "access_token"))
            } else {
                Err(error_for_status(*status, "Unexpected error at device code: "))
            }
        },
    }
}

/// Compares the account name that the provider reports with the claimed one.
pub fn check_login(username: &str, login: Option<String>) -> (r: Result<(), GithubError>)
    ensures
        unit_result_view(r) == username_check_of_login(username@, login.deep_view()),
{
    match login {
        Some(l) => {
            let reported = to_ascii_lower(l.as_str());
            let claimed = to_ascii_lower(username);
            if reported == claimed {
                Ok(())
            } else {
                let detail = join("Username does not match: ", username).concat(" != ").concat(
                    reported.as_str(),
                );
                Err(GithubError::InvalidUser(detail))
            }
        },
        None => Err(GithubError::Other(String::from_str("User response lacks login"))),
    }
}

/// Interprets the outcome of an identity request: `Ok` when the access token
/// belongs to the account `username`, compared without regard to ASCII case.
pub fn check_username(username: &str, outcome: &HttpOutcome) -> (r: Result<(), GithubError>)
    ensures
        unit_result_view(r) == username_check_of(username@, outcome@),
{
    match outcome {
        HttpOutcome::Failed { reason } => Err(
            error_for_transport("Failed to send request for user info: ", reason.as_str()),
        ),
        HttpOutcome::Reply { status, body } => {
            if is_success(*status) {
                let doc = parse(body.as_str());
                check_login(username, member(&doc, "login"))
            } else {
                Err(error_for_status(*status, "Unexpected error at username: "))
            }
        },
    }
}

impl GithubUser {
    /// Builds the confirmed account from the two members read from a
    /// successful membership reply.
    pub fn from_members(
        pat: &str,
        username: &str,
        org: &str,
        state: Option<String>,
        role: Option<String>,
    ) -> (r: Result<GithubUser, GithubError>)
        ensures
            user_result_view(r) == membership_of_members(
                pat@,
                username@,
                org@,
                state.deep_view(),
                role.deep_view(),
            ),
    {
        let parsed_state = match state {
            Some(s) => parse_state(s.as_str()),
            None => None,
        };
        let parsed_role = match role {
            Some(r) => parse_role(r.as_str()),
            None => None,
        };
        match (parsed_state, parsed_role) {
            (Some(state), Some(role)) => Ok(
                GithubUser {
                    state,
                    role,
                    org: String::from_str(org),
                    pat: String::from_str(pat),
                    username: String::from_str(username),
                },
            ),
            _ => Err(
                GithubError::Other(String::from_str("Membership response lacks state or role")),
            ),
        }
    }

    /// Interprets the outcome of a membership request made with the access
    /// token `pat` for `username` in `org`.
    pub fn from_pat(pat: &str, username: &str, org: &str, outcome: &HttpOutcome) -> (r: Result<
        GithubUser,
        GithubError,
    >)
        ensures
            user_result_view(r) == membership_of(pat@, username@, org@, outcome@),
    {
        match outcome {
            HttpOutcome::Failed { reason } => Err(
                error_for_transport("Failed to send request for memberships: ", reason.as_str()),
            ),
            HttpOutcome::Reply { status, body } => {
                if is_success(*status) {
                    let doc = parse(body.as_str());
                    let state = member(&doc, "state");
                    let role = member(&doc, "role");
                    GithubUser::from_members(pat, username, org, state, role)
                } else {
                    Err(error_for_status(*status, "Unexpected error at pat: "))
                }
            },
        }
    }

    /// Builds the request that asks whether this account belongs to `team`.
    pub fn team_request(&self, team: &str) -> (r: HttpRequest)
        ensures
            r@ == team_request_of(self@, team@),
    {
        let url = join("https://api.github.com/orgs/", self.org.as_str()).concat("/teams/").concat(
            team,
        ).concat("/memberships/").concat(self.username.as_str());
        let mut headers: Vec<(String, String)> = Vec::new();
        let authorization = join("Bearer ", self.pat.as_str());
        push_pair(&mut headers, "Authorization", authorization.as_str());
        let form: Vec<(String, String)> = Vec::new();
        let r = HttpRequest { method: HttpMethod::Get, url, headers, form };
        assert(r@.headers =~= team_request_of(self@, team@).headers);
        assert(r@.form =~= Seq::empty());
        r
    }

    /// Interprets the outcome of a team-membership request.
    pub fn is_in_team(&self, outcome: &HttpOutcome) -> (r: Result<bool, GithubError>)
        ensures
            flag_result_view(r) == team_membership_of(outcome@),
    {
        match outcome {
            HttpOutcome::Failed { reason } => Err(
                error_for_transport(
                    "Failed to send request for team membership: ",
                    reason.as_str(),
                ),
            ),
            HttpOutcome::Reply { status, body } => Ok(is_success(*status)),
        }
    }

    /// Builds the request that fetches this account's public keys.
    pub fn keys_request(&self) -> (r: HttpRequest)
        ensures
            r@ == keys_request_of(self@),
    {
        let url = join("https://github.com/", self.username.as_str()).concat(".keys");
        let mut headers: Vec<(String, String)> = Vec::new();
        push_pair(&mut headers, "User-Agent", "ssh-with-gh");
        let form: Vec<(String, String)> = Vec::new();
        let r = HttpRequest { method: HttpMethod::Get, url, headers, form };
        assert(r@.headers =~= keys_request_of(self@).headers);
        assert(r@.form =~= Seq::empty());
        r
    }

    /// Interprets the outcome of a keys request.
    pub fn get_keys(&self, outcome: &HttpOutcome) -> (r: Result<String, GithubError>)
        ensures
            text_result_view(r) == keys_of(outcome@),
    {
        match outcome {
            HttpOutcome::Failed { reason } => Err(
                error_for_transport("Failed to send request for keys: ", reason.as_str()),
            ),
            HttpOutcome::Reply { status, body } => {
                if is_success(*status) {
                    Ok(body.clone())
                } else {
                    Err(error_for_status(*status, "Unexpected error at keys: "))
                }
            },
        }
    }
}

/// How far the redemption of a device code has got. Redemption takes up to
/// three exchanges: the device code is traded for an access token, the token
/// is asked whose it is, and the organisation is asked about that account.
#[derive(Clone, Debug, PartialEq, Eq)]
pub enum Redemption {
    /// The token request is out.
    Token,
    /// The identity request is out, made with `token`.
    Identity { token: String },
    /// The membership request is out, made with `token`.
    Membership { token: String },
}

/// The mathematical content of a `Redemption`.
pub ghost enum RedemptionView {
    Token,
    Identity { token: Seq<char> },
    Membership { token: Seq<char> },
}

impl View for Redemption {
    type V = RedemptionView;

    open spec fn view(&self) -> RedemptionView {
        match self {
            Redemption::Token => RedemptionView::Token,
            Redemption::Identity { token } => RedemptionView::Identity { token: token@ },
            Redemption::Membership { token } => RedemptionView::Membership { token: token@ },
        }
    }
}

/// What one step of a redemption leads to: another request to send, or the
/// end of the redemption.
#[derive(Debug, PartialEq, Eq)]
pub enum Redeemed {
    Ask { next: Redemption, request: HttpRequest },
    Done { result: Result<GithubUser, GithubError> },
}

/// The mathematical content of a `Redeemed`.
pub ghost enum RedeemedView {
    Ask { next: RedemptionView, request: HttpRequestView },
    Done { result: Result<GithubUserView, GithubErrorView> },
}

impl View for Redeemed {
    type V = RedeemedView;

    open spec fn view(&self) -> RedeemedView {
        match self {
            Redeemed::Ask { next, request } => RedeemedView::Ask {
                next: next@,
                request: request@,
            },
            Redeemed::Done { result } => RedeemedView::Done { result: user_result_view(*result) },
        }
    }
}

/// One step of a redemption: what the outcome of the request that is out
/// leads to. The first failure ends the redemption with its error; the
/// membership reply ends it either way.
pub open spec fn redemption_step(
    progress: RedemptionView,
    username: Seq<char>,
    org: Seq<char>,
    outcome: HttpOutcomeView,
) -> RedeemedView {
    match progress {
        RedemptionView::Token => match access_token_of(outcome) {
            Ok(token) => RedeemedView::Ask {
                next: RedemptionView::Identity { token },
                request: identity_request_of(token),
            },
            Err(e) => RedeemedView::Done { result: Err(e) },
        },
        RedemptionView::Identity { token } => match username_check_of(username, outcome) {
            Ok(u) => RedeemedView::Ask {
                next: RedemptionView::Membership { token },
                request: membership_request_of(token, username, org),
            },
            Err(e) => RedeemedView::Done { result: Err(e) },
        },
        RedemptionView::Membership { token } => RedeemedView::Done {
            result: membership_of(token, username, org, outcome),
        },
    }
}

/// The result of a whole redemption, given the provider's answer to each of
/// its three requests. A later answer counts only if the earlier ones let the
/// redemption get that far.
pub open spec fn redemption_of(
    username: Seq<char>,
    org: Seq<char>,
    token_outcome: HttpOutcomeView,
    identity_outcome: HttpOutcomeView,
    membership_outcome: HttpOutcomeView,
) -> Result<GithubUserView, GithubErrorView> {
    match access_token_of(token_outcome) {
        Err(e) => Err(e),
        Ok(token) => match username_check_of(username, identity_outcome) {
            Err(e) => Err(e),
            Ok(u) => membership_of(token, username, org, membership_outcome),
        },
    }
}

impl GithubUser {
    /// Advances the redemption of a device code by the outcome of the request
    /// that is out. The redemption starts with `token_request` in the state
    /// `Redemption::Token`, and is made for the claimed account `username`
    /// and the organisation `org`.
    pub fn from_device_code(
        progress: Redemption,
        username: &str,
        org: &str,
        outcome: &HttpOutcome,
    ) -> (r: Redeemed)
        ensures
            r@ == redemption_step(progress@, username@, org@, outcome@),
    {
        match progress {
            Redemption::Token => match access_token(outcome) {
                Ok(token) => {
                    let request = identity_request(token.as_str());
                    Redeemed::Ask { next: Redemption::Identity { token }, request }
                },
                Err(e) => Redeemed::Done { result: Err(e) },
            },
            Redemption::Identity { token } => match check_username(username, outcome) {
                Ok(u) => {
                    let request = membership_request(token.as_str(), username, org);
                    Redeemed::Ask { next: Redemption::Membership { token }, request }
                },
                Err(e) => Redeemed::Done { result: Err(e) },
            },
            Redemption::Membership { token } => Redeemed::Done {
                result: GithubUser::from_pat(token.as_str(), username, org, outcome),
            },
        }
    }
}

} // verus!
