//! The routes under `/@me`: the profile of the signed-in user, and logout.
//!
//! Authentication has happened before either is reached: both start from a
//! [`User`] that is known to be signed in.

use crate::auth::{lemma_redact_forgets_token, User, UserView};
use crate::constants::COOKIE_NAME;
use crate::routes::{
    reply_removes_cookie, reply_status, reply_view, ApiError, ApiResponse, ApiResponseView,
    ApiResult, ReplyView, STATUS_FAILURE, STATUS_OK,
};
use actix_web::web::Data;
use vstd::prelude::*;

verus! {

/// Body and status of the answer to `GET /@me` for `user`.
pub open spec fn profile_response(user: UserView) -> ApiResponseView {
    ApiResponseView::ok().data(user.redact())
}

/// The answer to a logout whose revocation went through: a bare success that
/// removes the session cookie.
pub open spec fn logout_response() -> ApiResponseView {
    ApiResponseView::ok().del_cookie(COOKIE_NAME@)
}

/// What the session store said to a revocation, as the contracts see it:
/// done, or the reason why not.
pub open spec fn revocation_view(revocation: Result<(), ApiError>) -> Result<(), Seq<char>> {
    match revocation {
        Ok(_) => Ok(()),
        Err(error) => Err(error@),
    }
}

/// The answer to `POST /@me/logout`, given what the session store said to
/// the revocation.
pub open spec fn logout_reply(revocation: Result<(), Seq<char>>) -> ReplyView {
    match revocation {
        Ok(_) => Ok(logout_response()),
        Err(reason) => Err(reason),
    }
}

/// `GET /@me`: the profile of the signed-in user.
///
/// Always succeeds, with status 200 and `user` as the body, its token
/// blanked. The handle to the session store is accepted like in every other
/// route and not used.
pub fn get_user_me<P: ?Sized>(user: User, _pool: Data<P>) -> (result: ApiResult<ApiResponse>)
    ensures
        reply_view(result) == Ok::<ApiResponseView, Seq<char>>(profile_response(user@)),
        reply_status(reply_view(result)) == STATUS_OK,
        result matches Ok(response) && response@.data == Some(user@.redact())
            && response@.hides_token(),
{
    ApiResponse::ok().data(user.redact()).finish()
}

/// A logout that has been asked for and not yet answered: the session store
/// still has to revoke [`PendingLogout::token`].
///
/// It can be concluded once, with what the store said.
#[derive(Debug)]
pub struct PendingLogout {
    token: String,
}

impl View for PendingLogout {
    type V = Seq<char>;

    /// The token that is to be revoked.
    closed spec fn view(&self) -> Seq<char> {
        self.token@
    }
}

/// `POST /@me/logout`, first half: takes the signed-in user and names the
/// token that the session store must revoke, which is the user's own.
///
/// Nothing is answered to the client before the store has: see
/// [`PendingLogout::conclude`].
pub fn post_user_me_logout(user: User) -> (pending: PendingLogout)
    ensures
        pending@ == user@.token,
{
    PendingLogout { token: user.token }
}

impl PendingLogout {
    /// The token that is to be revoked.
    pub fn token(&self) -> (token: &str)
        ensures
            token@ == self@,
    {
        self.token.as_str()
    }

    /// `POST /@me/logout`, second half: the answer, given what the session
    /// store said to the revocation.
    ///
    /// If the token was revoked, the answer is a bare success that removes
    /// the session cookie. If not, the answer is the store's failure as it
    /// came, and the client is told nothing about its cookie: it stays
    /// signed in as far as it can tell, which is what the server holds too.
    pub fn conclude(self, revocation: Result<(), ApiError>) -> (result: ApiResult<ApiResponse>)
        ensures
            reply_view(result) == logout_reply(revocation_view(revocation)),
            revocation matches Err(error) ==> result == Err::<ApiResponse, ApiError>(error),
            reply_removes_cookie(reply_view(result), COOKIE_NAME@) <==> revocation is Ok,
            revocation is Ok ==> reply_status(reply_view(result)) == STATUS_OK,
            revocation is Err ==> reply_status(reply_view(result)) == STATUS_FAILURE,
    {
        proof {
            lemma_logout_reply(revocation_view(revocation));
        }
        match revocation {
            Ok(_) => ApiResponse::ok().del_cookie(COOKIE_NAME).finish(),
            Err(error) => Err(error),
        }
    }
}

/// The profile that `GET /@me` answers has status 200 and an empty token,
/// whatever the token of the session was: two users that differ only in
/// their token get the same answer.
pub proof fn lemma_profile_hides_token(user: UserView, other: UserView)
    requires
        user.name == other.name,
    ensures
        profile_response(user).status == STATUS_OK,
        profile_response(user).data matches Some(body) && body.token == Seq::<char>::empty()
            && body.name == user.name,
        profile_response(user).hides_token(),
        profile_response(user).removed_cookies.len() == 0,
        profile_response(user) == profile_response(other),
{
    lemma_redact_forgets_token(user, other);
}

/// The answer to a logout follows the revocation. A revocation that went
/// through gives status 200, no body and the removal of the session cookie,
/// and of no other. One that failed gives the failure status and the reason
/// as it came, and removes no cookie at all. So the client is told to drop
/// its session cookie exactly when the server has dropped the session.
pub proof fn lemma_logout_reply(revocation: Result<(), Seq<char>>)
    ensures
        revocation is Ok ==> logout_reply(revocation) == Ok::<ApiResponseView, Seq<char>>(
            logout_response(),
        ),
        revocation is Ok ==> reply_status(logout_reply(revocation)) == STATUS_OK,
        revocation matches Err(reason) ==> logout_reply(revocation) == Err::<
            ApiResponseView,
            Seq<char>,
        >(reason),
        revocation is Err ==> reply_status(logout_reply(revocation)) == STATUS_FAILURE,
        revocation is Err ==> forall|name: Seq<char>|
            !reply_removes_cookie(logout_reply(revocation), name),
        reply_removes_cookie(logout_reply(revocation), COOKIE_NAME@) <==> revocation is Ok,
        logout_response().status == STATUS_OK,
        logout_response().data is None,
        logout_response().hides_token(),
        logout_response().removed_cookies == seq![COOKIE_NAME@],
{
    let removed = logout_response().removed_cookies;
    assert(removed =~= seq![COOKIE_NAME@]);
    assert(removed[0] == COOKIE_NAME@);
}

/// Logging out a second time is answered by what the store says to the
/// second revocation, and by nothing else. If the store accepts a repeated
/// revocation, the second logout is the same success as the first. If it
/// rejects it, the second logout fails with the store's reason and leaves
/// the cookie alone. No third outcome exists.
pub proof fn lemma_logout_again(first: Result<(), Seq<char>>, second: Result<(), Seq<char>>)
    ensures
        first is Ok && second is Ok ==> logout_reply(second) == logout_reply(first),
        second matches Err(reason) ==> logout_reply(second) == Err::<ApiResponseView, Seq<char>>(
            reason,
        ),
        second is Err ==> reply_status(logout_reply(second)) == STATUS_FAILURE,
        second is Err ==> !reply_removes_cookie(logout_reply(second), COOKIE_NAME@),
        logout_reply(second) is Ok <==> second is Ok,
        first == second ==> logout_reply(second) == logout_reply(first),
{
}

} // verus!
