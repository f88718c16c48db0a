//! The life of a credential: login, renewal shortly before it runs out, and
//! revocation. The exchanges with the identity provider are made elsewhere;
//! here is what is decided before each and what becomes of its outcome.

use crate::error::ResponseError;
use vstd::prelude::*;

verus! {

/// Seconds of remaining life at or below which a credential is renewed.
pub const RENEWAL_THRESHOLD: i64 = 21600;

/// A credential for the upstream, with the instant at which it runs out in
/// seconds since the epoch.
#[derive(Debug)]
pub enum AccessToken {
    /// Issued by the platform's login.
    OAuthToken {
        /// The token.
        value: String,
        /// When it runs out.
        expires: i64,
    },
    /// Issued for a browser session.
    SessionToken {
        /// The token.
        value: String,
        /// When it runs out.
        expires: i64,
        /// The long-lived token that buys a new one.
        refresh_token: Option<String>,
    },
}

/// An access token as a value of mathematics.
pub struct TokenModel {
    /// Issued for a browser session rather than by the platform's login.
    pub session: bool,
    /// The token.
    pub value: Seq<char>,
    /// When it runs out.
    pub expires: int,
    /// The long-lived token that buys a new one.
    pub refresh_token: Option<Seq<char>>,
}

impl View for AccessToken {
    type V = TokenModel;

    open spec fn view(&self) -> TokenModel {
        match *self {
            AccessToken::OAuthToken { value, expires } => TokenModel {
                session: false,
                value: value@,
                expires: expires as int,
                refresh_token: None,
            },
            AccessToken::SessionToken { value, expires, refresh_token } => TokenModel {
                session: true,
                value: value@,
                expires: expires as int,
                refresh_token: match refresh_token {
                    Some(r) => Some(r@),
                    None => None,
                },
            },
        }
    }
}

impl TokenModel {
    /// The token has run out at `now`.
    pub open spec fn expired(self, now: int) -> bool {
        self.expires < now
    }

    /// The token still holds at `now` but has no more than the threshold left.
    pub open spec fn near_expiry(self, now: int) -> bool {
        !self.expired(now) && self.expires - now <= RENEWAL_THRESHOLD
    }
}

impl AccessToken {
    /// The instant at which the token runs out.
    pub fn expires(&self) -> (at: i64)
        ensures
            at == self@.expires,
    {
        match self {
            AccessToken::OAuthToken { expires, .. } => *expires,
            AccessToken::SessionToken { expires, .. } => *expires,
        }
    }

    /// The token itself.
    pub fn value(&self) -> (text: &str)
        ensures
            text@ == self@.value,
    {
        match self {
            AccessToken::OAuthToken { value, .. } => value.as_str(),
            AccessToken::SessionToken { value, .. } => value.as_str(),
        }
    }

    /// The token that buys a new one, where there is one.
    pub fn refresh_token(&self) -> (token: Option<&str>)
        ensures
            match token {
                Some(t) => self@.refresh_token == Some(t@),
                None => self@.refresh_token is None,
            },
    {
        match self {
            AccessToken::OAuthToken { .. } => None,
            AccessToken::SessionToken { refresh_token, .. } => match refresh_token {
                Some(r) => Some(r.as_str()),
                None => None,
            },
        }
    }

    /// Whether the token has run out at `now`.
    pub fn is_expired(&self, now: i64) -> (yes: bool)
        ensures
            yes == self@.expired(now as int),
    {
        self.expires() < now
    }

    /// Whether the token still holds at `now` with no more than the renewal
    /// threshold left.
    pub fn is_near_expiry(&self, now: i64) -> (yes: bool)
        ensures
            yes == self@.near_expiry(now as int),
    {
        let expires = self.expires();
        expires >= now && expires as i128 - now as i128 <= RENEWAL_THRESHOLD as i128
    }
}

/// A credential with exactly the threshold left is renewed, one with a second
/// more is not, and one that has run out is no longer near its end.
pub proof fn law_renewal_threshold(token: TokenModel, now: int)
    ensures
        token.expires - now == RENEWAL_THRESHOLD ==> token.near_expiry(now),
        token.expires - now == RENEWAL_THRESHOLD + 1 ==> !token.near_expiry(now),
        token.near_expiry(now) <==> 0 <= token.expires - now <= RENEWAL_THRESHOLD,
{
}

/// Where a credential stands.
#[derive(Debug)]
pub enum CredentialState {
    /// No login has succeeded yet, or the credential ran out.
    Unauthenticated,
    /// A credential is held.
    Authenticated(AccessToken),
    /// A renewal is under way; the credential being renewed stays at hand.
    Refreshing(AccessToken),
    /// The credential was revoked.
    Revoked,
}

/// A state as a value of mathematics.
pub enum StateModel {
    /// No credential.
    Unauthenticated,
    /// A credential is held.
    Authenticated(TokenModel),
    /// A renewal is under way.
    Refreshing(TokenModel),
    /// The credential was revoked.
    Revoked,
}

impl View for CredentialState {
    type V = StateModel;

    open spec fn view(&self) -> StateModel {
        match *self {
            CredentialState::Unauthenticated => StateModel::Unauthenticated,
            CredentialState::Authenticated(token) => StateModel::Authenticated(token@),
            CredentialState::Refreshing(token) => StateModel::Refreshing(token@),
            CredentialState::Revoked => StateModel::Revoked,
        }
    }
}

/// What to do before a request is forwarded.
#[derive(Debug)]
pub enum Step {
    /// Forward with the credential at hand.
    Forward,
    /// Exchange this refresh token first. The credential at hand still holds
    /// and is used should the exchange fail.
    Renew(String),
    /// Nothing usable is at hand: log in.
    Login,
}

impl StateModel {
    /// The credential at hand, if any.
    pub open spec fn token(self) -> Option<TokenModel> {
        match self {
            StateModel::Authenticated(t) => Some(t),
            StateModel::Refreshing(t) => Some(t),
            _ => None,
        }
    }

    /// The credential that may be sent upstream at `now`: the one at hand,
    /// unless it has run out.
    pub open spec fn usable(self, now: int) -> Option<TokenModel> {
        match self.token() {
            Some(t) => if t.expired(now) {
                None
            } else {
                Some(t)
            },
            None => None,
        }
    }

    /// A renewal starts at `now`: a credential is held, no renewal is under
    /// way, it is near its end, and it comes with a refresh token.
    pub open spec fn renews(self, now: int) -> bool {
        self matches StateModel::Authenticated(t) && t.near_expiry(now) && t.refresh_token is Some
    }

    /// The state after the step before a request at `now` was decided.
    pub open spec fn after_step(self, now: int) -> StateModel {
        match self {
            StateModel::Authenticated(t) => if t.expired(now) {
                StateModel::Unauthenticated
            } else if self.renews(now) {
                StateModel::Refreshing(t)
            } else {
                self
            },
            StateModel::Refreshing(t) => if t.expired(now) {
                StateModel::Unauthenticated
            } else {
                self
            },
            _ => self,
        }
    }

    /// The state after a login ended.
    pub open spec fn after_login(self, issued: Option<TokenModel>) -> StateModel {
        match issued {
            Some(t) => StateModel::Authenticated(t),
            None => self,
        }
    }

    /// The state after the outcome of a renewal came in at `now`. A new
    /// credential takes the place of the one at hand unless it runs out
    /// before it, so that of several renewals the freshest stays. Without a
    /// new credential the one under renewal serves on until it runs out.
    /// Where no credential is at hand, none comes back: an outcome that is
    /// late for a revocation changes nothing.
    pub open spec fn after_refresh(self, issued: Option<TokenModel>, now: int) -> StateModel {
        match (self, issued) {
            (StateModel::Refreshing(old), Some(t)) => if t.expires >= old.expires {
                StateModel::Authenticated(t)
            } else {
                StateModel::Authenticated(old)
            },
            (StateModel::Refreshing(old), None) => if old.expired(now) {
                StateModel::Unauthenticated
            } else {
                StateModel::Authenticated(old)
            },
            (StateModel::Authenticated(held), Some(t)) => if t.expires >= held.expires {
                StateModel::Authenticated(t)
            } else {
                self
            },
            _ => self,
        }
    }

    /// The refresh token that a revocation hands to the identity provider.
    pub open spec fn revoked_token(self) -> Option<Seq<char>> {
        match self.token() {
            Some(t) => t.refresh_token,
            None => None,
        }
    }

    /// The state after a revocation, whatever the identity provider answered.
    pub open spec fn after_revoke(self) -> StateModel {
        StateModel::Revoked
    }
}

/// No credential is sent upstream after it has run out, and none that is near
/// its end and can be renewed is sent before a renewal was started.
pub proof fn law_no_use_after_expiry(state: StateModel, now: int)
    ensures
        state.usable(now) matches Some(t) ==> !t.expired(now),
        state.after_step(now).usable(now) == state.usable(now),
        state.after_step(now).token() == state.usable(now),
        state.renews(now) ==> state.after_step(now) is Refreshing,
        !state.after_step(now).renews(now),
{
}

/// Of the outcomes of two renewals that were under way together, the
/// credential that runs out later stays, whichever comes in first; and a
/// renewal that comes in after a revocation brings no credential back.
pub proof fn law_fresher_token_wins(held: TokenModel, a: TokenModel, b: TokenModel, now: int)
    requires
        a.expires > b.expires,
        b.expires >= held.expires,
    ensures
        StateModel::Refreshing(held).after_refresh(Some(a), now).after_refresh(Some(b), now)
            == StateModel::Authenticated(a),
        StateModel::Refreshing(held).after_refresh(Some(b), now).after_refresh(Some(a), now)
            == StateModel::Authenticated(a),
        StateModel::Revoked.after_refresh(Some(a), now) == StateModel::Revoked,
        StateModel::Unauthenticated.after_refresh(Some(a), now) == StateModel::Unauthenticated,
{
}

/// Revoking twice is revoking once: the state is `Revoked` after the first
/// time and stays so, and the second time there is nothing left to hand to
/// the identity provider.
pub proof fn law_revoke_is_idempotent(state: StateModel, now: int)
    ensures
        state.after_revoke().after_revoke() == state.after_revoke(),
        state.after_revoke().revoked_token() is None,
        state.after_revoke().usable(now) is None,
{
}

/// Keeps one credential through its life.
pub struct CredentialManager {
    state: CredentialState,
}

impl View for CredentialManager {
    type V = StateModel;

    closed spec fn view(&self) -> StateModel {
        self.state@
    }
}

impl CredentialManager {
    /// A manager that holds no credential.
    pub fn new() -> (manager: Self)
        ensures
            manager@ == StateModel::Unauthenticated,
    {
        CredentialManager { state: CredentialState::Unauthenticated }
    }

    /// The state the credential is in.
    pub fn state(&self) -> (state: &CredentialState)
        ensures
            state@ == self@,
    {
        &self.state
    }

    /// The credential that may be sent upstream at `now`.
    pub fn current(&self, now: i64) -> (token: Option<&AccessToken>)
        ensures
            match token {
                Some(t) => self@.usable(now as int) == Some(t@),
                None => self@.usable(now as int) is None,
            },
    {
        match &self.state {
            CredentialState::Authenticated(t) => if t.is_expired(now) {
                None
            } else {
                Some(t)
            },
            CredentialState::Refreshing(t) => if t.is_expired(now) {
                None
            } else {
                Some(t)
            },
            _ => None,
        }
    }

    /// Takes the outcome of a login: the credential that was issued, or the
    /// identity provider's refusal. A refusal changes nothing and is handed
    /// on as a bad request.
    pub fn login(&mut self, outcome: Result<AccessToken, String>) -> (done: Result<
        (),
        ResponseError,
    >)
        ensures
            match outcome {
                Ok(token) => done is Ok && final(self)@ == StateModel::Authenticated(token@),
                Err(refusal) => done matches Err(ResponseError::BadRequest(m)) && m@ == refusal@
                    && final(self)@ == old(self)@,
            },
            final(self)@ == old(self)@.after_login(
                match outcome {
                    Ok(token) => Some(token@),
                    Err(_) => None,
                },
            ),
    {
        match outcome {
            Ok(token) => {
                self.state = CredentialState::Authenticated(token);
                Ok(())
            },
            Err(refusal) => Err(ResponseError::BadRequest(refusal)),
        }
    }

    /// Decides what comes before a request at `now`. A credential that ran
    /// out is dropped. One that is near its end and has a refresh token is
    /// put under renewal, once: while the renewal is under way further
    /// requests go on with the credential at hand.
    pub fn step(&mut self, now: i64) -> (step: Step)
        ensures
            final(self)@ == old(self)@.after_step(now as int),
            match step {
                Step::Forward => old(self)@.usable(now as int) is Some && !old(self)@.renews(
                    now as int,
                ),
                Step::Renew(token) => old(self)@.renews(now as int) && old(
                    self,
                )@.token()->0.refresh_token == Some(token@),
                Step::Login => old(self)@.usable(now as int) is None,
            },
    {
        let mut state = CredentialState::Unauthenticated;
        std::mem::swap(&mut state, &mut self.state);
        match state {
            CredentialState::Authenticated(token) => {
                if token.is_expired(now) {
                    Step::Login
                } else if token.is_near_expiry(now) {
                    let refresh = match token.refresh_token() {
                        Some(r) => Some(r.to_owned()),
                        None => None,
                    };
                    match refresh {
                        Some(r) => {
                            self.state = CredentialState::Refreshing(token);
                            Step::Renew(r)
                        },
                        None => {
                            self.state = CredentialState::Authenticated(token);
                            Step::Forward
                        },
                    }
                } else {
                    self.state = CredentialState::Authenticated(token);
                    Step::Forward
                }
            },
            CredentialState::Refreshing(token) => {
                if token.is_expired(now) {
                    Step::Login
                } else {
                    self.state = CredentialState::Refreshing(token);
                    Step::Forward
                }
            },
            CredentialState::Unauthenticated => Step::Login,
            CredentialState::Revoked => {
                self.state = CredentialState::Revoked;
                Step::Login
            },
        }
    }

    /// Takes the outcome of a renewal at `now`: the new credential, or
    /// nothing where the exchange failed. A new credential is kept unless the
    /// one at hand runs out later. After a failure the credential under
    /// renewal serves on unless it has run out by now.
    pub fn refreshed(&mut self, outcome: Option<AccessToken>, now: i64)
        ensures
            final(self)@ == old(self)@.after_refresh(
                match outcome {
                    Some(token) => Some(token@),
                    None => None,
                },
                now as int,
            ),
    {
        let mut state = CredentialState::Unauthenticated;
        std::mem::swap(&mut state, &mut self.state);
        match state {
            CredentialState::Refreshing(old_token) => {
                match outcome {
                    Some(token) => {
                        if token.expires() >= old_token.expires() {
                            self.state = CredentialState::Authenticated(token);
                        } else {
                            self.state = CredentialState::Authenticated(old_token);
                        }
                    },
                    None => {
                        if !old_token.is_expired(now) {
                            self.state = CredentialState::Authenticated(old_token);
                        }
                    },
                }
            },
            CredentialState::Authenticated(held) => {
                match outcome {
                    Some(token) => {
                        if token.expires() >= held.expires() {
                            self.state = CredentialState::Authenticated(token);
                        } else {
                            self.state = CredentialState::Authenticated(held);
                        }
                    },
                    None => {
                        self.state = CredentialState::Authenticated(held);
                    },
                }
            },
            other => {
                self.state = other;
            },
        }
    }

    /// Revokes the credential: whatever was held is dropped, and its refresh
    /// token, where it had one, is handed back to be revoked at the identity
    /// provider. Whether that succeeds does not matter to the state.
    pub fn revoke(&mut self) -> (token: Option<String>)
        ensures
            final(self)@ == old(self)@.after_revoke(),
            match token {
                Some(t) => old(self)@.revoked_token() == Some(t@),
                None => old(self)@.revoked_token() is None,
            },
    {
        let mut state = CredentialState::Revoked;
        std::mem::swap(&mut state, &mut self.state);
        match state {
            CredentialState::Authenticated(t) => match t.refresh_token() {
                Some(r) => Some(r.to_owned()),
                None => None,
            },
            CredentialState::Refreshing(t) => match t.refresh_token() {
                Some(r) => Some(r.to_owned()),
                None => None,
            },
            _ => None,
        }
    }
}

/// What the identity provider made of a request to revoke a token.
pub enum RevokeOutcome {
    /// It revoked the token, or held it revoked already.
    Done,
    /// It refused, with these words.
    Refused(Seq<char>),
}

/// The answer to a request to revoke a token, from what the identity provider
/// made of it: the status 200, or the refusal as a bad request with the
/// provider's words.
pub open spec fn revoke_answer(outcome: RevokeOutcome) -> Result<int, (int, Seq<char>)> {
    match outcome {
        RevokeOutcome::Done => Ok(200),
        RevokeOutcome::Refused(words) => Err((400, words)),
    }
}

/// What an answer to a request to revoke says: its status, and with an error
/// its words.
pub open spec fn said(answer: Result<u16, ResponseError>) -> Result<int, (int, Seq<char>)> {
    match answer {
        Ok(status) => Ok(status as int),
        Err(error) => Err((error.status_of(), error.detail_of())),
    }
}

/// What the identity provider made of a request, as it came back.
pub open spec fn outcome_of(outcome: Result<(), String>) -> RevokeOutcome {
    match outcome {
        Ok(_) => RevokeOutcome::Done,
        Err(words) => RevokeOutcome::Refused(words@),
    }
}

/// Answers a request to revoke a token, whatever the token was and whatever
/// the identity provider made of it: with the status 200 where it revoked,
/// else with its refusal as a bad request.
pub fn revoke_reply(outcome: Result<(), String>) -> (answer: Result<u16, ResponseError>)
    ensures
        said(answer) == revoke_answer(outcome_of(outcome)),
        answer matches Err(e) ==> e is BadRequest,
{
    match outcome {
        Ok(_) => Ok(200),
        Err(words) => Err(ResponseError::BadRequest(words)),
    }
}

/// Revoking again is answered as revoking was: the answer hangs on what the
/// identity provider made of the request and on nothing else, so a provider
/// that makes the same of a repeated request gets the same answer across,
/// success or the same error; and whatever it makes of either request, the
/// credential is revoked after the first and stays so.
pub proof fn law_revoke_again(
    state: StateModel,
    first: RevokeOutcome,
    second: RevokeOutcome,
    now: int,
)
    ensures
        first == second ==> revoke_answer(first) == revoke_answer(second),
        revoke_answer(first) is Ok <==> first is Done,
        revoke_answer(second) is Ok <==> second is Done,
        state.after_revoke().after_revoke() == state.after_revoke(),
        state.after_revoke().usable(now) is None,
        state.after_revoke().revoked_token() is None,
{
}

/// The answer to a refresh or revoke exchange: what the identity provider
/// gave, or its refusal as a bad request.
pub fn exchanged<T>(outcome: Result<T, String>) -> (answer: Result<T, ResponseError>)
    ensures
        match outcome {
            Ok(value) => answer == Ok::<T, ResponseError>(value),
            Err(refusal) => answer matches Err(ResponseError::BadRequest(m)) && m@ == refusal@,
        },
{
    match outcome {
        Ok(value) => Ok(value),
        Err(refusal) => Err(ResponseError::BadRequest(refusal)),
    }
}

} // verus!
