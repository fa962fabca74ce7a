//! A cache of temporary credentials that is refreshed before it is stale.
//!
//! The provider holds the credentials that were loaded last. The caller
//! asks the token service, hands the answer to [`StsCredentialsProvider::refresh`],
//! and lets [`StsCredentialsProvider::spawn_refresh_loop`] decide, event
//! by event, whether to ask again or to sleep.
//!
//! Times are milliseconds since the epoch.

use vstd::prelude::*;

verus! {

/// Credentials as the token service returns them.
#[derive(Debug, PartialEq, Eq)]
pub struct StsCredentials {
    pub access_key_id: Option<String>,
    pub secret_access_key: Option<String>,
    pub session_token: Option<String>,
    /// When the credentials expire; negative for a time before the epoch.
    pub expiration: Option<i64>,
}

/// The answer of the token service to a request for a session token.
#[derive(Debug, PartialEq, Eq)]
pub struct SessionToken {
    pub credentials: Option<StsCredentials>,
}

/// Credentials ready for use.
#[derive(Debug, PartialEq, Eq)]
pub struct Credentials {
    pub access_key_id: String,
    pub secret_access_key: String,
    pub session_token: Option<String>,
    /// When the credentials expire, if they do.
    pub expiry: Option<u64>,
    /// The name of the provider that loaded them.
    pub provider_name: String,
}

/// The mathematical counterpart of [`Credentials`].
pub ghost struct CredentialsView {
    pub access_key_id: Seq<char>,
    pub secret_access_key: Seq<char>,
    pub session_token: Option<Seq<char>>,
    pub expiry: Option<u64>,
    pub provider_name: Seq<char>,
}

/// The characters of an optional string.
pub open spec fn text_of(text: Option<String>) -> Option<Seq<char>> {
    match text {
        Some(t) => Some(t@),
        None => None,
    }
}

impl View for Credentials {
    type V = CredentialsView;

    open spec fn view(&self) -> CredentialsView {
        CredentialsView {
            access_key_id: self.access_key_id@,
            secret_access_key: self.secret_access_key@,
            session_token: text_of(self.session_token),
            expiry: self.expiry,
            provider_name: self.provider_name@,
        }
    }
}

/// Why no credentials could be provided.
#[derive(Clone, Copy, Debug, PartialEq, Eq, Structural)]
pub enum CredentialsError {
    /// No credentials have been loaded yet.
    CredentialsNotLoaded,
}

/// What happened to the refresh loop.
#[derive(Clone, Copy, Debug, PartialEq, Eq, Structural)]
pub enum LoopEvent {
    /// The loop was asked for; nothing has been done yet.
    Spawned,
    /// The first refresh has ended, well or not.
    FirstRefreshEnded,
    /// A sleep has ended.
    Woke,
    /// A later refresh has ended, well or not.
    RefreshEnded,
}

/// What the refresh loop does next.
#[derive(Clone, Copy, Debug, PartialEq, Eq, Structural)]
pub enum LoopAction {
    /// Ask the token service and hand the answer to
    /// [`StsCredentialsProvider::refresh`].
    Refresh,
    /// Sleep for this many milliseconds.
    Sleep(u64),
}

/// How long the refresh loop sleeps between two looks at the credentials,
/// in milliseconds.
pub const REFRESH_INTERVAL_MILLIS: u64 = 5000;

/// Provides the credentials that the token service returned last.
#[derive(Debug, PartialEq, Eq)]
pub struct StsCredentialsProvider {
    /// The credentials loaded last, if any.
    pub credentials: Option<Credentials>,
}

impl SessionToken {
    /// Whether the answer holds what credentials are made of: an access
    /// key, a secret key, and no expiration before the epoch.
    pub open spec fn complete(self) -> bool {
        self.credentials matches Some(c) && c.access_key_id is Some && c.secret_access_key is Some
            && (c.expiration matches Some(at) ==> at >= 0)
    }

    /// Computes [`Self::complete`].
    pub fn is_complete(&self) -> (complete: bool)
        ensures
            complete == self.complete(),
    {
        match &self.credentials {
            Some(c) => c.access_key_id.is_some() && c.secret_access_key.is_some() && match c.expiration {
                Some(at) => at >= 0,
                None => true,
            },
            None => false,
        }
    }

    /// The credentials that a complete answer gives.
    pub open spec fn loaded(self) -> CredentialsView
        recommends
            self.complete(),
    {
        let c = self.credentials->0;
        CredentialsView {
            access_key_id: c.access_key_id->0@,
            secret_access_key: c.secret_access_key->0@,
            session_token: text_of(c.session_token),
            expiry: match c.expiration {
                Some(at) => Some(at as u64),
                None => None,
            },
            provider_name: "Sts"@,
        }
    }
}

impl StsCredentialsProvider {
    /// A provider that has loaded nothing yet.
    pub fn new() -> (provider: StsCredentialsProvider)
        ensures
            provider.credentials is None,
    {
        StsCredentialsProvider { credentials: None }
    }

    /// The credentials held, if any.
    pub open spec fn held(self) -> Option<CredentialsView> {
        match self.credentials {
            Some(c) => Some(c@),
            None => None,
        }
    }

    /// Whether the credentials are missing or have expired at time `now`.
    /// Credentials without an expiry never go stale.
    pub open spec fn stale(self, now: u64) -> bool {
        match self.credentials {
            None => true,
            Some(c) => match c.expiry {
                Some(expiry) => now > expiry,
                None => false,
            },
        }
    }

    /// Computes [`Self::stale`].
    pub fn needs_refresh(&self, now: u64) -> (stale: bool)
        ensures
            stale == self.stale(now),
    {
        match &self.credentials {
            None => true,
            Some(c) => match c.expiry {
                Some(expiry) => now > expiry,
                None => false,
            },
        }
    }

    /// Hands out a copy of the credentials held, or says that none were
    /// loaded.
    pub fn provide_credentials(&self) -> (provided: Result<Credentials, CredentialsError>)
        ensures
            match provided {
                Ok(c) => self.held() == Some(c@),
                Err(e) => self.held() is None && e == CredentialsError::CredentialsNotLoaded,
            },
    {
        match &self.credentials {
            Some(c) => Ok(
                Credentials {
                    access_key_id: c.access_key_id.clone(),
                    secret_access_key: c.secret_access_key.clone(),
                    session_token: match &c.session_token {
                        Some(t) => Some(t.clone()),
                        None => None,
                    },
                    expiry: c.expiry,
                    provider_name: c.provider_name.clone(),
                },
            ),
            None => Err(CredentialsError::CredentialsNotLoaded),
        }
    }

    /// Takes in the answer of the token service.
    ///
    /// A failure is handed back and leaves the credentials as they were. A
    /// complete answer replaces them.
    pub fn refresh<E>(&mut self, answer: Result<SessionToken, E>) -> (done: Result<(), E>)
        requires
            answer matches Ok(token) ==> token.complete(),
        ensures
            match answer {
                Ok(token) => done is Ok && final(self).held() == Some(token.loaded()),
                Err(e) => done == Err::<(), E>(e) && *final(self) == *old(self),
            },
    {
        match answer {
            Err(e) => Err(e),
            Ok(token) => {
                match token.credentials {
                    Some(c) => {
                        match (c.access_key_id, c.secret_access_key) {
                            (Some(access_key_id), Some(secret_access_key)) => {
                                let expiry = match c.expiration {
                                    Some(at) => Some(at as u64),
                                    None => None,
                                };
                                self.credentials = Some(
                                    Credentials {
                                        access_key_id,
                                        secret_access_key,
                                        session_token: c.session_token,
                                        expiry,
                                        provider_name: "Sts".to_owned(),
                                    },
                                );
                            },
                            _ => {},
                        }
                    },
                    None => {},
                }
                Ok(())
            },
        }
    }

    /// What the refresh loop does after `event` at time `now`.
    pub open spec fn spec_next_action(self, event: LoopEvent, now: u64) -> LoopAction {
        match event {
            LoopEvent::Spawned => LoopAction::Refresh,
            LoopEvent::RefreshEnded => LoopAction::Sleep(REFRESH_INTERVAL_MILLIS),
            _ => if self.stale(now) {
                LoopAction::Refresh
            } else {
                LoopAction::Sleep(REFRESH_INTERVAL_MILLIS)
            },
        }
    }

    /// Decides what the refresh loop does after `event` at time `now`.
    ///
    /// The loop starts with a refresh. From then on it looks at the
    /// credentials, refreshes them if they are missing or have expired, and
    /// sleeps for five seconds before it looks again.
    pub fn spawn_refresh_loop(&self, event: LoopEvent, now: u64) -> (action: LoopAction)
        ensures
            action == self.spec_next_action(event, now),
    {
        match event {
            LoopEvent::Spawned => LoopAction::Refresh,
            LoopEvent::RefreshEnded => LoopAction::Sleep(REFRESH_INTERVAL_MILLIS),
            _ => if self.needs_refresh(now) {
                LoopAction::Refresh
            } else {
                LoopAction::Sleep(REFRESH_INTERVAL_MILLIS)
            },
        }
    }
}

} // verus!
