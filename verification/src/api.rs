//! API-layer boundary: identity claims, the authorization rule, the two
//! route decisions, and the status-code mapping of each rejection kind.
//!
//! Every protected route carries a bearer token that the caller has already
//! decoded into [`Claims`]; a token that does not decode never reaches
//! these functions. The authorization invariant is that the claims' subject
//! id equals the `user_id` path parameter — a mismatch is rejected with the
//! distinct "unexpected" kind before any store access happens.

use vstd::prelude::*;
use vstd::string::StringExecFns;

use crate::keys::user_partition_key_spec;
use crate::model::{DBNotifcation, NotificationStatus};
use crate::notification::{update_transition, NotificationService, NotificationServiceInterface};
use crate::store::query_results;

verus! {

/// Identity claims decoded from a bearer token.
#[derive(Debug)]
pub struct Claims {
    /// Subject id; must equal the `user_id` path parameter.
    pub uid: String,
    pub name: String,
    pub email: String,
    /// Issued-at, seconds since the epoch.
    pub iat: i64,
    /// Expiry, seconds since the epoch.
    pub exp: i64,
}

/// Why a bearer token was rejected before any route logic ran.
#[derive(Debug, Clone, Copy, PartialEq, Eq, Structural)]
pub enum AuthError {
    /// No usable authorization header.
    WrongCredentials,
    /// The token did not decode into claims.
    InvalidToken,
}

impl AuthError {
    /// The HTTP status this rejection maps to.
    pub fn status_code(&self) -> (r: u16)
        ensures
            self is WrongCredentials ==> r == 401,
            self is InvalidToken ==> r == 400,
    {
        match self {
            AuthError::WrongCredentials => 401,
            AuthError::InvalidToken => 400,
        }
    }

    /// The body text of the rejection, in place of a `Display`
    /// implementation.
    pub fn error_message(&self) -> (r: &'static str)
        ensures
            self is WrongCredentials ==> r@ == "Wrong credentials"@,
            self is InvalidToken ==> r@ == "Invalid token"@,
    {
        match self {
            AuthError::WrongCredentials => "Wrong credentials",
            AuthError::InvalidToken => "Invalid token",
        }
    }
}

/// Why a route failed after authentication.
#[derive(Debug)]
pub enum ApiServerError {
    /// The service could not complete the call.
    InternalServerError(String),
    /// The caller asked about a user other than the token's subject.
    UnexpectedError(String),
}

impl ApiServerError {
    /// The HTTP status this failure maps to.
    pub fn status_code(&self) -> (r: u16)
        ensures
            self is InternalServerError ==> r == 500,
            self is UnexpectedError ==> r == 406,
    {
        match self {
            ApiServerError::InternalServerError(_) => 500,
            ApiServerError::UnexpectedError(_) => 406,
        }
    }

    /// The message carried by the failure.
    pub fn error_message(&self) -> (r: String)
        ensures
            self matches ApiServerError::InternalServerError(m) ==> r@ == m@,
            self matches ApiServerError::UnexpectedError(m) ==> r@ == m@,
    {
        match self {
            ApiServerError::InternalServerError(m) => m.clone(),
            ApiServerError::UnexpectedError(m) => m.clone(),
        }
    }
}

/// Body of the update-status route.
#[derive(Debug)]
pub struct UpdateNotificationBody {
    pub action: NotificationStatus,
}

/// The authorization rule of every protected route.
pub open spec fn authorized(claims: Claims, user_id: Seq<char>) -> bool {
    claims.uid@ == user_id
}

/// Checks the authorization rule for one request: accepted exactly when
/// the token's subject is the user of the path. Every route runs this
/// before it touches the store.
pub fn authorize_request(claims: &Claims, user_id: &String) -> (r: Result<(), ApiServerError>)
    ensures
        r is Ok <==> authorized(*claims, user_id@),
        r matches Err(e) ==> e is UnexpectedError,
{
    if *user_id != claims.uid {
        Err(ApiServerError::UnexpectedError(String::from_str("Invalid user id provided")))
    } else {
        Ok(())
    }
}

/// The list route: authorizes, then returns the user's unread
/// notifications, newest first, capped. A subject/path mismatch is
/// rejected with the "unexpected" kind and the service is never consulted.
pub fn get_notification(
    app_service: &NotificationService,
    claims: &Claims,
    user_id: String,
) -> (r: Result<Vec<DBNotifcation>, ApiServerError>)
    requires
        app_service.wf(),
    ensures
        !authorized(*claims, user_id@) ==> (r matches Err(e) && e is UnexpectedError),
        authorized(*claims, user_id@) ==> (r matches Ok(v) && v@ == query_results(
            app_service.table(),
            user_partition_key_spec(user_id@),
        )),
{
    if let Err(e) = authorize_request(claims, &user_id) {
        return Err(e);
    }
    match app_service.get_notification_by_user_id(user_id) {
        Ok(items) => Ok(items),
        Err(_) => Err(
            ApiServerError::InternalServerError(String::from_str("get_notification failed")),
        ),
    }
}

/// The update route: authorizes, then marks the notification read. The
/// only transition this route performs is to `READ`, whatever status the
/// body carries. A subject/path mismatch is rejected with the
/// "unexpected" kind and the store is left exactly as it was.
pub fn update_notification_status(
    app_service: &mut NotificationService,
    claims: &Claims,
    user_id: String,
    noti_id: String,
    _payload: UpdateNotificationBody,
) -> (r: Result<(), ApiServerError>)
    requires
        old(app_service).wf(),
    ensures
        final(app_service).wf(),
        !authorized(*claims, user_id@) ==> (r matches Err(e) && e is UnexpectedError)
            && *final(app_service) == *old(app_service),
        authorized(*claims, user_id@) ==> r is Ok && (exists|t: Seq<char>|
            update_transition(
                old(app_service).table(),
                final(app_service).table(),
                user_id@,
                noti_id@,
                t,
            )),
{
    if let Err(e) = authorize_request(claims, &user_id) {
        return Err(e);
    }
    let ghost pre = app_service.table();
    let ghost uid_view = user_id@;
    let ghost nid_view = noti_id@;
    let outcome = app_service.update_notification_message(user_id, noti_id);
    proof {
        let t = choose|t: Seq<char>|
            update_transition(pre, app_service.table(), uid_view, nid_view, t);
        assert(update_transition(pre, app_service.table(), uid_view, nid_view, t));
    }
    match outcome {
        Ok(()) => Ok(()),
        Err(_) => Err(
            ApiServerError::InternalServerError(
                String::from_str("update_notification_status failed"),
            ),
        ),
    }
}

} // verus!
