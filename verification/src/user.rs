use vstd::prelude::*;

use crate::{params_view, push_param};

verus! {

/// The identifier of an end user.
#[derive(Debug, Clone, PartialEq, Eq)]
pub struct UserId(String);

/// An OAuth token identifying an end user.
#[derive(Debug, Clone, PartialEq, Eq)]
pub struct OAuthToken(String);

impl View for UserId {
    type V = Seq<char>;

    closed spec fn view(&self) -> Seq<char> {
        self.0@
    }
}

impl View for OAuthToken {
    type V = Seq<char>;

    closed spec fn view(&self) -> Seq<char> {
        self.0@
    }
}

impl UserId {
    pub fn as_str(&self) -> (r: &str)
        ensures
            r@ == self@,
    {
        self.0.as_str()
    }
}

impl OAuthToken {
    pub fn as_str(&self) -> (r: &str)
        ensures
            r@ == self@,
    {
        self.0.as_str()
    }
}

impl From<&str> for UserId {
    fn from(s: &str) -> (r: UserId)
        ensures
            r@ == s@,
    {
        UserId(s.to_owned())
    }
}

impl vstd::std_specs::convert::FromSpecImpl<&str> for UserId {
    open spec fn obeys_from_spec() -> bool {
        false
    }

    open spec fn from_spec(s: &str) -> UserId {
        arbitrary()
    }
}

impl From<String> for UserId {
    fn from(s: String) -> (r: UserId)
        ensures
            r@ == s@,
    {
        UserId(s)
    }
}

impl vstd::std_specs::convert::FromSpecImpl<String> for UserId {
    open spec fn obeys_from_spec() -> bool {
        false
    }

    open spec fn from_spec(s: String) -> UserId {
        arbitrary()
    }
}

impl From<&str> for OAuthToken {
    fn from(s: &str) -> (r: OAuthToken)
        ensures
            r@ == s@,
    {
        OAuthToken(s.to_owned())
    }
}

impl vstd::std_specs::convert::FromSpecImpl<&str> for OAuthToken {
    open spec fn obeys_from_spec() -> bool {
        false
    }

    open spec fn from_spec(s: &str) -> OAuthToken {
        arbitrary()
    }
}

impl From<String> for OAuthToken {
    fn from(s: String) -> (r: OAuthToken)
        ensures
            r@ == s@,
    {
        OAuthToken(s)
    }
}

impl vstd::std_specs::convert::FromSpecImpl<String> for OAuthToken {
    open spec fn obeys_from_spec() -> bool {
        false
    }

    open spec fn from_spec(s: String) -> OAuthToken {
        arbitrary()
    }
}

/// An end user of an application: either a plain user id or an OAuth token.
#[derive(Debug, Clone, PartialEq, Eq)]
pub enum User {
    UserId(UserId),
    OAuthToken(OAuthToken),
}

impl From<UserId> for User {
    fn from(uid: UserId) -> (r: User)
        ensures
            r == User::UserId(uid),
    {
        User::UserId(uid)
    }
}

impl vstd::std_specs::convert::FromSpecImpl<UserId> for User {
    open spec fn obeys_from_spec() -> bool {
        true
    }

    open spec fn from_spec(uid: UserId) -> User {
        User::UserId(uid)
    }
}

impl From<OAuthToken> for User {
    fn from(token: OAuthToken) -> (r: User)
        ensures
            r == User::OAuthToken(token),
    {
        User::OAuthToken(token)
    }
}

impl vstd::std_specs::convert::FromSpecImpl<OAuthToken> for User {
    open spec fn obeys_from_spec() -> bool {
        true
    }

    open spec fn from_spec(token: OAuthToken) -> User {
        User::OAuthToken(token)
    }
}

/// The parameter pair contributed by a user: a user id is sent as `user_id`,
/// an OAuth token as `access_token`.
pub open spec fn user_params(u: User) -> Seq<(Seq<char>, Seq<char>)> {
    match u {
        User::UserId(uid) => seq![("user_id"@, uid@)],
        User::OAuthToken(t) => seq![("access_token"@, t@)],
    }
}

impl User {
    /// Creates a `User` from a user id.
    pub fn from_user_id<T: Into<UserId>>(user_id: T) -> (r: Self)
        ensures
            r matches User::UserId(u) && call_ensures(<T as Into<UserId>>::into, (user_id,), u),
    {
        User::UserId(user_id.into())
    }

    /// Creates a `User` from an OAuth token.
    pub fn from_oauth_token<T: Into<OAuthToken>>(token: T) -> (r: Self)
        ensures
            r matches User::OAuthToken(t) && call_ensures(
                <T as Into<OAuthToken>>::into,
                (token,),
                t,
            ),
    {
        User::OAuthToken(token.into())
    }

    /// Appends this user's parameter pair.
    pub fn to_params(&self, extendable: &mut Vec<(String, String)>)
        ensures
            params_view(final(extendable)@) == params_view(old(extendable)@) + user_params(*self),
    {
        match self {
            User::UserId(uid) => {
                push_param(extendable, "user_id".to_owned(), uid.0.clone());
            },
            User::OAuthToken(t) => {
                push_param(extendable, "access_token".to_owned(), t.0.clone());
            },
        }
        proof {
            assert(params_view(extendable@) =~= params_view(old(extendable)@) + user_params(
                *self,
            ));
        }
    }
}

} // verus!
