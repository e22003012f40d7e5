//! The credential store and the identity cache.
use vstd::prelude::*;

use crate::error::RobloxError;
use reqwest::header::{HeaderValue, InvalidHeaderValue};

verus! {

#[verifier::external_type_specification]
#[verifier::external_body]
pub struct ExHeaderValue(HeaderValue);

#[verifier::external_type_specification]
#[verifier::external_body]
pub struct ExInvalidHeaderValue(InvalidHeaderValue);

/// A character that may stand in a header value: a tab, or anything from the
/// space on but DEL. The UTF-8 bytes of a non-ASCII character are all
/// accepted.
pub open spec fn header_char_ok(c: char) -> bool {
    c == '\t' || (c as u32 >= 32 && c as u32 != 127)
}

pub open spec fn header_value_ok(s: Seq<char>) -> bool {
    forall|i: int| 0 <= i < s.len() ==> header_char_ok(#[trigger] s[i])
}

/// The header value that `HeaderValue::from_str` makes of a text: its
/// bytes, not marked sensitive.
pub uninterp spec fn header_of(text: Seq<char>) -> HeaderValue;

/// The header value of a text's bytes, marked sensitive.
pub uninterp spec fn sensitive_header_of(text: Seq<char>) -> HeaderValue;

/// Relies on http's HeaderValue::from_str (re-exported by reqwest): it
/// accepts exactly the strings whose every byte is a tab or lies in 32..=255
/// without 127, and then holds those bytes, not marked sensitive.
pub assume_specification[ HeaderValue::from_str ](src: &str) -> (r: Result<
    HeaderValue,
    InvalidHeaderValue,
>)
    ensures
        r is Ok <==> header_value_ok(src@),
        r matches Ok(h) ==> h == header_of(src@),
;

/// Relies on http's HeaderValue::set_sensitive, which only sets the flag
/// that masks the value in debug output and keeps it from compression; the
/// bytes stay as they were.
pub assume_specification[ HeaderValue::set_sensitive ](h: &mut HeaderValue, val: bool)
    ensures
        val ==> forall|t: Seq<char>| #[trigger] header_of(t) == *old(h) ==> *final(h)
            == sensitive_header_of(t),
;

/// Basic information about the account of the session secret.
#[derive(Clone, Debug, PartialEq, Eq)]
pub struct ClientUserInformation {
    pub user_id: u64,
    pub username: String,
    pub display_name: String,
}

/// The cookie text that carries a session secret.
pub open spec fn cookie_of(roblosecurity: Seq<char>) -> Seq<char> {
    ".ROBLOSECURITY="@ + roblosecurity
}

/// What a session holds.
pub struct SessionState {
    /// The cookie text with the session secret; `None` until one is set.
    pub cookie: Option<Seq<char>>,
    /// The anti-forgery token; empty until one is obtained.
    pub xcsrf: Seq<char>,
    /// The identity that the last successful lookup returned.
    pub identity: Option<ClientUserInformation>,
}

impl SessionState {
    /// A stored cookie can always be sent as a header value.
    pub open spec fn wf(self) -> bool {
        match self.cookie {
            Some(c) => header_value_ok(c),
            None => true,
        }
    }

    pub open spec fn empty() -> SessionState {
        SessionState { cookie: None, xcsrf: Seq::empty(), identity: None }
    }

    pub open spec fn with_xcsrf(self, xcsrf: Seq<char>) -> SessionState {
        SessionState { xcsrf: xcsrf, ..self }
    }

    pub open spec fn with_identity(self, identity: ClientUserInformation) -> SessionState {
        SessionState { identity: Some(identity), ..self }
    }

    /// Whether a request that needs the session secret can be built.
    pub open spec fn is_authenticated(self) -> bool {
        self.cookie is Some
    }

    /// A new secret is stored provisionally where it can be sent in a
    /// header; else the store is left with none. The identity of an earlier
    /// secret is dropped either way.
    pub open spec fn after_set_cookie(self, roblosecurity: Seq<char>) -> SessionState {
        SessionState {
            cookie: if header_value_ok(cookie_of(roblosecurity)) {
                Some(cookie_of(roblosecurity))
            } else {
                None
            },
            identity: None,
            ..self
        }
    }

    /// The end of the bootstrap: a successful identity lookup fills the
    /// cache; a failed one removes the provisional secret.
    pub open spec fn after_lookup(
        self,
        lookup: Result<ClientUserInformation, RobloxError>,
    ) -> SessionState {
        match lookup {
            Ok(info) => self.with_identity(info),
            Err(_) => SessionState { cookie: None, identity: None, ..self },
        }
    }
}

/// The shared session: the credential store and the identity cache.
#[derive(Debug)]
pub struct RobloxApi {
    cookie_string: Option<String>,
    xcsrf: String,
    user_information: Option<ClientUserInformation>,
}

impl View for RobloxApi {
    type V = SessionState;

    closed spec fn view(&self) -> SessionState {
        SessionState {
            cookie: match self.cookie_string {
                Some(c) => Some(c@),
                None => None,
            },
            xcsrf: self.xcsrf@,
            identity: self.user_information,
        }
    }
}

impl RobloxApi {
    /// A stored cookie can always be sent as a header value.
    #[verifier::type_invariant]
    spec fn cookie_is_header_value(self) -> bool {
        self@.wf()
    }

    /// An empty session: no secret, no token, no identity.
    pub fn new() -> (r: Self)
        ensures
            r@ == SessionState::empty(),
            r@.wf(),
    {
        let r = RobloxApi { cookie_string: None, xcsrf: String::new(), user_information: None };
        assert(r@.xcsrf =~= Seq::<char>::empty());
        r
    }

    /// A snapshot of the cached identity.
    pub fn user_information(&self) -> (r: Option<ClientUserInformation>)
        ensures
            r == self@.identity,
    {
        match &self.user_information {
            Some(info) => Some(ClientUserInformation {
                user_id: info.user_id,
                username: info.username.clone(),
                display_name: info.display_name.clone(),
            }),
            None => None,
        }
    }

    /// Fills the identity cache.
    pub fn set_user_information(&mut self, user_information: ClientUserInformation)
        ensures
            final(self)@ == old(self)@.with_identity(user_information),
    {
        proof {
            use_type_invariant(&*self);
        }
        self.user_information = Some(user_information);
    }

    /// Replaces the anti-forgery token.
    pub fn set_xcsrf(&mut self, xcsrf: String)
        ensures
            final(self)@ == old(self)@.with_xcsrf(xcsrf@),
    {
        proof {
            use_type_invariant(&*self);
        }
        self.xcsrf = xcsrf;
    }

    /// A copy of the anti-forgery token.
    pub fn xcsrf(&self) -> (r: String)
        ensures
            r@ == self@.xcsrf,
    {
        self.xcsrf.clone()
    }

    /// The anti-forgery token where one has been obtained: a request that
    /// needs no authentication sends it only then.
    pub fn xcsrf_if_any(&self) -> (r: Option<String>)
        ensures
            r is Some <==> self@.xcsrf.len() > 0,
            r matches Some(t) ==> t@ == self@.xcsrf,
    {
        if self.xcsrf.as_str().unicode_len() > 0 {
            Some(self.xcsrf.clone())
        } else {
            None
        }
    }

    /// Whether a session secret is stored.
    pub fn is_authenticated(&self) -> (r: bool)
        ensures
            r == self@.is_authenticated(),
    {
        self.cookie_string.is_some()
    }

    /// The cookie header value of the session secret (the bytes of
    /// `.ROBLOSECURITY=` and the secret), marked sensitive; fails
    /// with `RoblosecurityNotSet` where no secret is stored.
    pub fn cookie_string(&self) -> (r: Result<HeaderValue, RobloxError>)
        ensures
            r is Ok <==> self@.is_authenticated(),
            r matches Ok(h) ==> h == sensitive_header_of(self@.cookie->Some_0),
            r is Err ==> r == Err::<HeaderValue, RobloxError>(RobloxError::RoblosecurityNotSet),
    {
        proof {
            use_type_invariant(self);
        }
        match &self.cookie_string {
            Some(cookie) => match HeaderValue::from_str(cookie.as_str()) {
                Ok(mut header) => {
                    header.set_sensitive(true);
                    Ok(header)
                },
                Err(_) => Err(RobloxError::RoblosecurityNotSet),
            },
            None => Err(RobloxError::RoblosecurityNotSet),
        }
    }

    /// The first step of the bootstrap: stores the secret provisionally.
    /// Fails with `InvalidRoblosecurity`, and leaves no secret, where the
    /// secret cannot be sent in a header; the identity lookup is then not
    /// to be made.
    pub fn set_cookie(&mut self, roblosecurity: String) -> (r: Result<(), RobloxError>)
        ensures
            final(self)@ == old(self)@.after_set_cookie(roblosecurity@),
            final(self)@.wf(),
            r is Ok <==> header_value_ok(cookie_of(roblosecurity@)),
            r is Err ==> r == Err::<(), RobloxError>(RobloxError::InvalidRoblosecurity),
    {
        proof {
            use_type_invariant(&*self);
        }
        let cookie = String::from_str(".ROBLOSECURITY=").concat(roblosecurity.as_str());
        let valid = HeaderValue::from_str(cookie.as_str()).is_ok();
        self.user_information = None;
        if valid {
            self.cookie_string = Some(cookie);
            Ok(())
        } else {
            self.cookie_string = None;
            Err(RobloxError::InvalidRoblosecurity)
        }
    }

    /// The last step of the bootstrap, given the outcome of the identity
    /// lookup made with the provisional secret: keeps the secret and caches
    /// the identity, or removes the secret and hands the failure on.
    pub fn finish_set_cookie(&mut self, lookup: Result<ClientUserInformation, RobloxError>) -> (r:
        Result<(), RobloxError>)
        ensures
            final(self)@ == old(self)@.after_lookup(lookup),
            final(self)@.wf(),
            match lookup {
                Ok(_) => r is Ok,
                Err(e) => r == Err::<(), RobloxError>(e),
            },
    {
        proof {
            use_type_invariant(&*self);
        }
        match lookup {
            Ok(info) => {
                self.user_information = Some(info);
                Ok(())
            },
            Err(e) => {
                self.cookie_string = None;
                self.user_information = None;
                Err(e)
            },
        }
    }

    /// The account id of the cached identity; `InvalidRoblosecurity` where
    /// there is none.
    pub fn user_id(&self) -> (r: Result<u64, RobloxError>)
        ensures
            r == match self@.identity {
                Some(info) => Ok(info.user_id),
                None => Err(RobloxError::InvalidRoblosecurity),
            },
    {
        match &self.user_information {
            Some(info) => Ok(info.user_id),
            None => Err(RobloxError::InvalidRoblosecurity),
        }
    }

    /// The handle of the cached identity; `InvalidRoblosecurity` where there
    /// is none.
    pub fn username(&self) -> (r: Result<String, RobloxError>)
        ensures
            r == match self@.identity {
                Some(info) => Ok(info.username),
                None => Err(RobloxError::InvalidRoblosecurity),
            },
    {
        match &self.user_information {
            Some(info) => Ok(info.username.clone()),
            None => Err(RobloxError::InvalidRoblosecurity),
        }
    }

    /// The display name of the cached identity; `InvalidRoblosecurity` where
    /// there is none.
    pub fn display_name(&self) -> (r: Result<String, RobloxError>)
        ensures
            r == match self@.identity {
                Some(info) => Ok(info.display_name),
                None => Err(RobloxError::InvalidRoblosecurity),
            },
    {
        match &self.user_information {
            Some(info) => Ok(info.display_name.clone()),
            None => Err(RobloxError::InvalidRoblosecurity),
        }
    }
}

/// A bootstrap whose identity lookup fails leaves the store with no secret
/// and no identity, so that a later request that needs the secret fails
/// with `RoblosecurityNotSet` (see `RobloxApi::cookie_string`).
pub proof fn lemma_failed_bootstrap_leaves_no_secret(
    s: SessionState,
    roblosecurity: Seq<char>,
    e: RobloxError,
)
    ensures
        !s.after_set_cookie(roblosecurity).after_lookup(Err(e)).is_authenticated(),
        s.after_set_cookie(roblosecurity).after_lookup(Err(e)).identity is None,
        s.after_set_cookie(roblosecurity).after_lookup(Err(e)).xcsrf == s.xcsrf,
{
}

/// A bootstrap whose identity lookup returns `info` keeps the secret and
/// caches exactly `info`.
pub proof fn lemma_successful_bootstrap_caches_identity(
    s: SessionState,
    roblosecurity: Seq<char>,
    info: ClientUserInformation,
)
    requires
        header_value_ok(cookie_of(roblosecurity)),
    ensures
        s.after_set_cookie(roblosecurity).after_lookup(Ok(info)).cookie == Some(
            cookie_of(roblosecurity),
        ),
        s.after_set_cookie(roblosecurity).after_lookup(Ok(info)).identity == Some(info),
{
}

/// A stored secret is one whose identity lookup succeeded: after a whole
/// bootstrap, a secret is stored exactly where an identity is cached.
pub proof fn lemma_bootstrap_secret_iff_identity(
    s: SessionState,
    roblosecurity: Seq<char>,
    lookup: Result<ClientUserInformation, RobloxError>,
)
    requires
        header_value_ok(cookie_of(roblosecurity)),
    ensures
        s.after_set_cookie(roblosecurity).after_lookup(lookup).is_authenticated()
            <==> s.after_set_cookie(roblosecurity).after_lookup(lookup).identity is Some,
{
}

} // verus!
