//! The data shapes exchanged with the remote API.
//!
//! Each executable type is a transient snapshot deserialized from a
//! server response (or, for the login request, serialized toward the
//! server). Each has a mathematical model — a struct of character
//! sequences and plain values — which is its view; every contract
//! about the wire format speaks over these models.

use vstd::prelude::*;

verus! {

/// The view of an optional string field: the character sequence when
/// present.
pub open spec fn view_opt_string(o: Option<String>) -> Option<Seq<char>> {
    match o {
        Option::Some(s) => Option::Some(s@),
        Option::None => Option::None,
    }
}

/// Model of [`User`].
#[verifier::ext_equal]
pub struct UserModel {
    pub id: Seq<char>,
    pub email: Seq<char>,
    pub name: Option<Seq<char>>,
    pub role: Seq<char>,
    pub plan: Seq<char>,
}

/// An account snapshot returned by the server; never mutated locally.
#[derive(Debug)]
pub struct User {
    pub id: String,
    pub email: String,
    pub name: Option<String>,
    pub role: String,
    pub plan: String,
}

impl View for User {
    type V = UserModel;

    open spec fn view(&self) -> UserModel {
        UserModel {
            id: self.id@,
            email: self.email@,
            name: view_opt_string(self.name),
            role: self.role@,
            plan: self.plan@,
        }
    }
}

/// Model of [`LoginResponse`].
#[verifier::ext_equal]
pub struct LoginResponseModel {
    pub access_token: Seq<char>,
    pub refresh_token: Seq<char>,
    pub expires_in: int,
    pub user: UserModel,
}

/// The payload of a successful login call: the tokens, their lifetime
/// in seconds, and the account they belong to. Produced once per
/// login; persisting the access token is the caller's business.
#[derive(Debug)]
pub struct LoginResponse {
    pub access_token: String,
    pub refresh_token: String,
    pub expires_in: i64,
    pub user: User,
}

impl View for LoginResponse {
    type V = LoginResponseModel;

    open spec fn view(&self) -> LoginResponseModel {
        LoginResponseModel {
            access_token: self.access_token@,
            refresh_token: self.refresh_token@,
            expires_in: self.expires_in as int,
            user: self.user@,
        }
    }
}

/// Model of [`Subscription`].
#[verifier::ext_equal]
pub struct SubscriptionModel {
    pub plan: Seq<char>,
    pub status: Seq<char>,
    pub expires_at: Option<Seq<char>>,
}

/// The subscription embedded in a verification response.
#[derive(Debug)]
pub struct Subscription {
    pub plan: String,
    pub status: String,
    pub expires_at: Option<String>,
}

impl View for Subscription {
    type V = SubscriptionModel;

    open spec fn view(&self) -> SubscriptionModel {
        SubscriptionModel {
            plan: self.plan@,
            status: self.status@,
            expires_at: view_opt_string(self.expires_at),
        }
    }
}

/// Model of [`VerifyResponse`].
#[verifier::ext_equal]
pub struct VerifyResponseModel {
    pub valid: bool,
    pub user: UserModel,
    pub subscription: SubscriptionModel,
}

/// The server's current view of a token's validity; not cached and
/// not cross-checked locally.
#[derive(Debug)]
pub struct VerifyResponse {
    pub valid: bool,
    pub user: User,
    pub subscription: Subscription,
}

impl View for VerifyResponse {
    type V = VerifyResponseModel;

    open spec fn view(&self) -> VerifyResponseModel {
        VerifyResponseModel { valid: self.valid, user: self.user@, subscription: self.subscription@ }
    }
}

/// Model of [`Watcher`].
#[verifier::ext_equal]
pub struct WatcherModel {
    pub id: Seq<char>,
    pub name: Seq<char>,
    pub url: Seq<char>,
    pub status: Seq<char>,
    pub last_check_at: Option<Seq<char>>,
}

/// A server-side tracked item the user registered for status checks;
/// read-only from this component's perspective.
#[derive(Debug)]
pub struct Watcher {
    pub id: String,
    pub name: String,
    pub url: String,
    pub status: String,
    pub last_check_at: Option<String>,
}

impl View for Watcher {
    type V = WatcherModel;

    open spec fn view(&self) -> WatcherModel {
        WatcherModel {
            id: self.id@,
            name: self.name@,
            url: self.url@,
            status: self.status@,
            last_check_at: view_opt_string(self.last_check_at),
        }
    }
}

/// Model of [`WatchersResponse`].
#[verifier::ext_equal]
pub struct WatchersResponseModel {
    pub items: Seq<WatcherModel>,
}

/// The wrapper object the watchers call returns; its inner list is the
/// payload handed to the front end.
#[derive(Debug)]
pub struct WatchersResponse {
    pub items: Vec<Watcher>,
}

impl View for WatchersResponse {
    type V = WatchersResponseModel;

    open spec fn view(&self) -> WatchersResponseModel {
        WatchersResponseModel { items: self.items@.map_values(|w: Watcher| w@) }
    }
}

} // verus!
