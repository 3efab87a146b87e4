//! The authenticated principal of one request.

use vstd::prelude::*;

verus! {

/// An authenticated user, as the authentication step hands it to a route.
///
/// `token` is credential material: it names the server-side session and is
/// never sent back to the client. `name` is profile data.
#[derive(Clone, Debug, PartialEq, Eq)]
pub struct User {
    pub token: String,
    pub name: String,
}

/// What a [`User`] is to the contracts: its two texts as sequences of
/// characters.
pub struct UserView {
    pub token: Seq<char>,
    pub name: Seq<char>,
}

impl View for User {
    type V = UserView;

    open spec fn view(&self) -> UserView {
        UserView { token: self.token@, name: self.name@ }
    }
}

impl UserView {
    /// The same user with the token blanked.
    pub open spec fn redact(self) -> UserView {
        UserView { token: Seq::<char>::empty(), name: self.name }
    }

    /// Whether nothing of a credential is left in this value.
    pub open spec fn is_redacted(self) -> bool {
        self.token.len() == 0
    }
}

impl User {
    /// A user with the given session token and profile name.
    pub fn new(token: String, name: String) -> (user: User)
        ensures
            user@.token == token@,
            user@.name == name@,
    {
        User { token, name }
    }

    /// Blanks the token and keeps everything else.
    ///
    /// The result is a new value; the caller's record of the session is not
    /// touched.
    pub fn redact(self) -> (redacted: User)
        ensures
            redacted@ == self@.redact(),
            redacted@.token == Seq::<char>::empty(),
            redacted@.name == self@.name,
    {
        User { token: String::new(), name: self.name }
    }
}

/// Redaction blanks the token, changes no other field, and redacting twice
/// is the same as redacting once.
pub proof fn lemma_redact(u: UserView)
    ensures
        u.redact().token == Seq::<char>::empty(),
        u.redact().name == u.name,
        u.redact().is_redacted(),
        u.redact().redact() == u.redact(),
{
}

/// Two users that differ in nothing but the token are the same once
/// redacted: the redacted value carries nothing of the token.
pub proof fn lemma_redact_forgets_token(u: UserView, v: UserView)
    requires
        u.name == v.name,
    ensures
        u.redact() == v.redact(),
{
}

} // verus!
