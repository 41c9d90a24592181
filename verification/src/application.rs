use vstd::prelude::*;

use crate::{params_view, push_param};

verus! {

/// The identifier of an application.
#[derive(Debug, Clone, PartialEq, Eq)]
pub struct AppId(String);

/// The key of an application.
#[derive(Debug, Clone, PartialEq, Eq)]
pub struct AppKey(String);

/// A user key identifying an application.
#[derive(Debug, Clone, PartialEq, Eq)]
pub struct UserKey(String);

/// An OAuth token identifying an application.
#[derive(Debug, Clone, PartialEq, Eq)]
pub struct OAuthToken(String);

impl View for AppId {
    type V = Seq<char>;

    closed spec fn view(&self) -> Seq<char> {
        self.0@
    }
}

impl View for AppKey {
    type V = Seq<char>;

    closed spec fn view(&self) -> Seq<char> {
        self.0@
    }
}

impl View for UserKey {
    type V = Seq<char>;

    closed spec fn view(&self) -> Seq<char> {
        self.0@
    }
}

impl View for OAuthToken {
    type V = Seq<char>;

    closed spec fn view(&self) -> Seq<char> {
        self.0@
    }
}

impl AppId {
    pub fn as_str(&self) -> (r: &str)
        ensures
            r@ == self@,
    {
        self.0.as_str()
    }
}

impl AppKey {
    pub fn as_str(&self) -> (r: &str)
        ensures
            r@ == self@,
    {
        self.0.as_str()
    }
}

impl UserKey {
    pub fn as_str(&self) -> (r: &str)
        ensures
            r@ == self@,
    {
        self.0.as_str()
    }
}

impl OAuthToken {
    pub fn as_str(&self) -> (r: &str)
        ensures
            r@ == self@,
    {
        self.0.as_str()
    }
}

impl From<&str> for AppId {
    fn from(s: &str) -> (r: AppId)
        ensures
            r@ == s@,
    {
        AppId(s.to_owned())
    }
}

impl vstd::std_specs::convert::FromSpecImpl<&str> for AppId {
    open spec fn obeys_from_spec() -> bool {
        false
    }

    open spec fn from_spec(s: &str) -> AppId {
        arbitrary()
    }
}

impl From<String> for AppId {
    fn from(s: String) -> (r: AppId)
        ensures
            r@ == s@,
    {
        AppId(s)
    }
}

impl vstd::std_specs::convert::FromSpecImpl<String> for AppId {
    open spec fn obeys_from_spec() -> bool {
        false
    }

    open spec fn from_spec(s: String) -> AppId {
        arbitrary()
    }
}

impl From<&str> for AppKey {
    fn from(s: &str) -> (r: AppKey)
        ensures
            r@ == s@,
    {
        AppKey(s.to_owned())
    }
}

impl vstd::std_specs::convert::FromSpecImpl<&str> for AppKey {
    open spec fn obeys_from_spec() -> bool {
        false
    }

    open spec fn from_spec(s: &str) -> AppKey {
        arbitrary()
    }
}

impl From<String> for AppKey {
    fn from(s: String) -> (r: AppKey)
        ensures
            r@ == s@,
    {
        AppKey(s)
    }
}

impl vstd::std_specs::convert::FromSpecImpl<String> for AppKey {
    open spec fn obeys_from_spec() -> bool {
        false
    }

    open spec fn from_spec(s: String) -> AppKey {
        arbitrary()
    }
}

impl From<&str> for UserKey {
    fn from(s: &str) -> (r: UserKey)
        ensures
            r@ == s@,
    {
        UserKey(s.to_owned())
    }
}

impl vstd::std_specs::convert::FromSpecImpl<&str> for UserKey {
    open spec fn obeys_from_spec() -> bool {
        false
    }

    open spec fn from_spec(s: &str) -> UserKey {
        arbitrary()
    }
}

impl From<String> for UserKey {
    fn from(s: String) -> (r: UserKey)
        ensures
            r@ == s@,
    {
        UserKey(s)
    }
}

impl vstd::std_specs::convert::FromSpecImpl<String> for UserKey {
    open spec fn obeys_from_spec() -> bool {
        false
    }

    open spec fn from_spec(s: String) -> UserKey {
        arbitrary()
    }
}

impl From<&str> for OAuthToken {
    fn from(s: &str) -> (r: OAuthToken)
        ensures
            r@ == s@,
    {
        OAuthToken(s.to_owned())
    }
}

impl vstd::std_specs::convert::FromSpecImpl<&str> for OAuthToken {
    open spec fn obeys_from_spec() -> bool {
        false
    }

    open spec fn from_spec(s: &str) -> OAuthToken {
        arbitrary()
    }
}

impl From<String> for OAuthToken {
    fn from(s: String) -> (r: OAuthToken)
        ensures
            r@ == s@,
    {
        OAuthToken(s)
    }
}

impl vstd::std_specs::convert::FromSpecImpl<String> for OAuthToken {
    open spec fn obeys_from_spec() -> bool {
        false
    }

    open spec fn from_spec(s: String) -> OAuthToken {
        arbitrary()
    }
}

/// The identification of an application: an app id with an optional app key,
/// a user key, or an OAuth token.
#[derive(Debug, Clone, PartialEq, Eq)]
pub enum Application {
    AppId(AppId, Option<AppKey>),
    UserKey(UserKey),
    OAuthToken(OAuthToken),
}

impl From<AppId> for Application {
    fn from(a: AppId) -> (r: Application)
        ensures
            r == Application::AppId(a, None::<AppKey>),
    {
        Application::AppId(a, None)
    }
}

impl vstd::std_specs::convert::FromSpecImpl<AppId> for Application {
    open spec fn obeys_from_spec() -> bool {
        true
    }

    open spec fn from_spec(a: AppId) -> Application {
        Application::AppId(a, None)
    }
}

impl From<(AppId, AppKey)> for Application {
    fn from(a: (AppId, AppKey)) -> (r: Application)
        ensures
            r == Application::AppId(a.0, Some(a.1)),
    {
        Application::AppId(a.0, Some(a.1))
    }
}

impl vstd::std_specs::convert::FromSpecImpl<(AppId, AppKey)> for Application {
    open spec fn obeys_from_spec() -> bool {
        true
    }

    open spec fn from_spec(a: (AppId, AppKey)) -> Application {
        Application::AppId(a.0, Some(a.1))
    }
}

impl From<UserKey> for Application {
    fn from(u: UserKey) -> (r: Application)
        ensures
            r == Application::UserKey(u),
    {
        Application::UserKey(u)
    }
}

impl vstd::std_specs::convert::FromSpecImpl<UserKey> for Application {
    open spec fn obeys_from_spec() -> bool {
        true
    }

    open spec fn from_spec(u: UserKey) -> Application {
        Application::UserKey(u)
    }
}

impl From<OAuthToken> for Application {
    fn from(o: OAuthToken) -> (r: Application)
        ensures
            r == Application::OAuthToken(o),
    {
        Application::OAuthToken(o)
    }
}

impl vstd::std_specs::convert::FromSpecImpl<OAuthToken> for Application {
    open spec fn obeys_from_spec() -> bool {
        true
    }

    open spec fn from_spec(o: OAuthToken) -> Application {
        Application::OAuthToken(o)
    }
}

/// The parameter pairs contributed by an application: `app_id` with an
/// optional `app_key`, or `user_key`, or `access_token`.
pub open spec fn application_params(a: Application) -> Seq<(Seq<char>, Seq<char>)> {
    match a {
        Application::AppId(id, key) => match key {
            None => seq![("app_id"@, id@)],
            Some(k) => seq![("app_id"@, id@), ("app_key"@, k@)],
        },
        Application::UserKey(u) => seq![("user_key"@, u@)],
        Application::OAuthToken(t) => seq![("access_token"@, t@)],
    }
}

impl Application {
    /// Creates a new `Application` from an app id.
    pub fn from_app_id<T: Into<AppId>>(app_id: T) -> (r: Self)
        ensures
            r matches Application::AppId(a, k) && k is None && call_ensures(
                <T as Into<AppId>>::into,
                (app_id,),
                a,
            ),
    {
        Application::AppId(app_id.into(), None)
    }

    /// Creates a new `Application` from an app id and an app key.
    pub fn from_app_id_and_key<T: Into<AppId>, U: Into<AppKey>>(app_id: T, app_key: U) -> (r: Self)
        ensures
            r matches Application::AppId(a, k) && (k matches Some(kk) && call_ensures(
                <U as Into<AppKey>>::into,
                (app_key,),
                kk,
            )) && call_ensures(<T as Into<AppId>>::into, (app_id,), a),
    {
        Application::AppId(app_id.into(), Some(app_key.into()))
    }

    /// Creates a new `Application` from a user key.
    pub fn from_user_key<T: Into<UserKey>>(user_key: T) -> (r: Self)
        ensures
            r matches Application::UserKey(u) && call_ensures(
                <T as Into<UserKey>>::into,
                (user_key,),
                u,
            ),
    {
        Application::UserKey(user_key.into())
    }

    /// Creates a new `Application` from an OAuth token.
    pub fn from_oauth_token<T: Into<OAuthToken>>(token: T) -> (r: Self)
        ensures
            r matches Application::OAuthToken(t) && call_ensures(
                <T as Into<OAuthToken>>::into,
                (token,),
                t,
            ),
    {
        Application::OAuthToken(token.into())
    }

    /// Appends this application's parameter pairs.
    pub fn to_params(&self, extendable: &mut Vec<(String, String)>)
        ensures
            params_view(final(extendable)@) == params_view(old(extendable)@) + application_params(
                *self,
            ),
    {
        match self {
            Application::AppId(id, key) => {
                push_param(extendable, "app_id".to_owned(), id.0.clone());
                match key {
                    Some(k) => {
                        push_param(extendable, "app_key".to_owned(), k.0.clone());
                    },
                    None => {},
                }
            },
            Application::UserKey(u) => {
                push_param(extendable, "user_key".to_owned(), u.0.clone());
            },
            Application::OAuthToken(t) => {
                push_param(extendable, "access_token".to_owned(), t.0.clone());
            },
        }
        proof {
            assert(params_view(extendable@) =~= params_view(old(extendable)@)
                + application_params(*self));
        }
    }
}

} // verus!
