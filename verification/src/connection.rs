//! The state of an established connection.

use vstd::prelude::*;
use crate::model::DRACOONConnectionView;
use crate::response::OAuth2TokenResponse;
use crate::time::Timestamp;

verus! {

/// The tokens of one successful exchange, their validity windows in seconds,
/// and the time at which they were obtained. A connection never changes; the
/// next successful exchange replaces it as a whole.
#[derive(Debug, Clone, PartialEq, Eq)]
pub struct DRACOONConnection {
    connected_at: Timestamp,
    access_token: String,
    access_token_validity: i64,
    refresh_token: String,
    refresh_token_validity: i64,
}

impl View for DRACOONConnection {
    type V = DRACOONConnectionView;

    closed spec fn view(&self) -> DRACOONConnectionView {
        DRACOONConnectionView {
            connected_at: self.connected_at@,
            access_token: self.access_token@,
            access_token_validity: self.access_token_validity as int,
            refresh_token: self.refresh_token@,
            refresh_token_validity: self.refresh_token_validity as int,
        }
    }
}

impl DRACOONConnection {
    /// The connection that `token_response` establishes at `connected_at`.
    pub(crate) fn new(token_response: &OAuth2TokenResponse, connected_at: Timestamp) -> (r: DRACOONConnection)
        ensures
            r@ == DRACOONConnectionView::established(token_response@, connected_at@),
    {
        DRACOONConnection {
            connected_at,
            access_token: token_response.access_token.clone(),
            refresh_token: token_response.refresh_token.clone(),
            access_token_validity: token_response.expires_in_inactive,
            refresh_token_validity: token_response.expires_in,
        }
    }

    /// When the connection was established.
    pub fn connected_at(&self) -> (r: Timestamp)
        ensures
            r@ == self@.connected_at,
    {
        self.connected_at
    }

    /// The access token.
    pub fn access_token(&self) -> (r: &String)
        ensures
            r@ == self@.access_token,
    {
        &self.access_token
    }

    /// Seconds for which the access token is valid.
    pub fn access_token_validity(&self) -> (r: i64)
        ensures
            r == self@.access_token_validity,
    {
        self.access_token_validity
    }

    /// The refresh token.
    pub fn refresh_token(&self) -> (r: &String)
        ensures
            r@ == self@.refresh_token,
    {
        &self.refresh_token
    }

    /// Seconds for which the refresh token is valid.
    pub fn refresh_token_validity(&self) -> (r: i64)
        ensures
            r == self@.refresh_token_validity,
    {
        self.refresh_token_validity
    }

    /// Whether the access token is still valid at `now`.
    pub fn access_token_valid_at(&self, now: &Timestamp) -> (r: bool)
        ensures
            r == self@.access_token_valid_at(now@),
    {
        now.seconds_since(&self.connected_at) < self.access_token_validity
    }
}

} // verus!
