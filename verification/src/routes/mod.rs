//! What a route answers: a response under construction, or a failure.

use crate::auth::{User, UserView};
use vstd::prelude::*;

pub mod users;

verus! {

/// Status of a successful answer.
pub const STATUS_OK: u16 = 200;

/// Status of every failed answer: failures are reported generically.
pub const STATUS_FAILURE: u16 = 500;

/// A failed answer. It carries the reason as it was raised, and nothing
/// that would change the client's cookies.
#[derive(Clone, Debug, PartialEq, Eq)]
pub struct ApiError {
    pub message: String,
}

impl View for ApiError {
    type V = Seq<char>;

    open spec fn view(&self) -> Seq<char> {
        self.message@
    }
}

/// What a route returns: a response, or the failure that prevented it.
pub type ApiResult<T> = Result<T, ApiError>;

/// A successful answer: its status, the user record that forms its body, if
/// any, and the cookies that the client is told to remove, in order.
#[derive(Clone, Debug, PartialEq, Eq)]
pub struct ApiResponse {
    pub status: u16,
    pub data: Option<User>,
    pub removed_cookies: Vec<String>,
}

/// What an [`ApiResponse`] is to the contracts.
pub struct ApiResponseView {
    pub status: u16,
    pub data: Option<UserView>,
    pub removed_cookies: Seq<Seq<char>>,
}

impl View for ApiResponse {
    type V = ApiResponseView;

    open spec fn view(&self) -> ApiResponseView {
        ApiResponseView {
            status: self.status,
            data: match self.data {
                Some(user) => Some(user@),
                None => None,
            },
            removed_cookies: self.removed_cookies@.map_values(|name: String| name@),
        }
    }
}

impl ApiResponseView {
    /// The bare success: status 200, no body, no cookie touched.
    pub open spec fn ok() -> ApiResponseView {
        ApiResponseView {
            status: STATUS_OK,
            data: None,
            removed_cookies: Seq::<Seq<char>>::empty(),
        }
    }

    /// This response with `user` as its body.
    pub open spec fn data(self, user: UserView) -> ApiResponseView {
        ApiResponseView { data: Some(user), ..self }
    }

    /// This response with one more cookie to remove.
    pub open spec fn del_cookie(self, name: Seq<char>) -> ApiResponseView {
        ApiResponseView { removed_cookies: self.removed_cookies.push(name), ..self }
    }

    /// Whether this response gives away no token: it has no body, or the
    /// user in it is redacted.
    pub open spec fn hides_token(self) -> bool {
        self.data matches Some(user) ==> user.is_redacted()
    }

    /// Whether the client is told to remove the cookie `name`.
    pub open spec fn removes_cookie(self, name: Seq<char>) -> bool {
        self.removed_cookies.contains(name)
    }
}

impl ApiError {
    /// A failure with the given reason.
    pub fn new(message: String) -> (error: ApiError)
        ensures
            error@ == message@,
    {
        ApiError { message }
    }

    /// The status under which this failure is reported.
    pub fn status(&self) -> (code: u16)
        ensures
            code == STATUS_FAILURE,
    {
        STATUS_FAILURE
    }
}

impl ApiResponse {
    /// Starts a successful answer: status 200, no body, no cookie touched.
    pub fn ok() -> (response: ApiResponse)
        ensures
            response@ == ApiResponseView::ok(),
    {
        let response = ApiResponse { status: STATUS_OK, data: None, removed_cookies: Vec::new() };
        assert(response@.removed_cookies =~= Seq::<Seq<char>>::empty());
        response
    }

    /// Sets the body. An earlier body is replaced.
    pub fn data(self, user: User) -> (response: ApiResponse)
        ensures
            response@ == self@.data(user@),
    {
        ApiResponse { status: self.status, data: Some(user), removed_cookies: self.removed_cookies }
    }

    /// Tells the client to remove the cookie `name`, after those already
    /// named.
    pub fn del_cookie(self, name: &str) -> (response: ApiResponse)
        ensures
            response@ == self@.del_cookie(name@),
    {
        let mut removed_cookies = self.removed_cookies;
        let ghost before = removed_cookies@;
        removed_cookies.push(name.to_owned());
        let response = ApiResponse { status: self.status, data: self.data, removed_cookies };
        assert(response@.removed_cookies =~= before.map_values(|name: String| name@).push(name@));
        response
    }

    /// Closes the construction. Nothing can fail at this point: the answer
    /// is the response as built.
    pub fn finish(self) -> (result: ApiResult<ApiResponse>)
        ensures
            result == Ok::<ApiResponse, ApiError>(self),
    {
        Ok(self)
    }
}

/// What a route's answer is to the contracts: the response's view, or the
/// failure's reason.
pub type ReplyView = Result<ApiResponseView, Seq<char>>;

/// The view of a route's answer.
pub open spec fn reply_view(reply: ApiResult<ApiResponse>) -> ReplyView {
    match reply {
        Ok(response) => Ok(response@),
        Err(error) => Err(error@),
    }
}

/// The status under which `reply` goes out.
pub open spec fn reply_status(reply: ReplyView) -> u16 {
    match reply {
        Ok(response) => response.status,
        Err(_) => STATUS_FAILURE,
    }
}

/// Whether `reply` tells the client to remove the cookie `name`. A failure
/// never does.
pub open spec fn reply_removes_cookie(reply: ReplyView, name: Seq<char>) -> bool {
    match reply {
        Ok(response) => response.removes_cookie(name),
        Err(_) => false,
    }
}

/// The status under which `reply` goes out.
pub fn status_of(reply: &ApiResult<ApiResponse>) -> (code: u16)
    ensures
        code == reply_status(reply_view(*reply)),
{
    match reply {
        Ok(response) => response.status,
        Err(error) => error.status(),
    }
}

} // verus!
