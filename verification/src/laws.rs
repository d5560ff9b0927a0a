//! What holds of the client over any sequence of operations.
//!
//! The laws are stated over the state machine that the executable client is
//! specified against.

use vstd::prelude::*;
use crate::error::DRACOONClientErrorView;
use crate::flows::OAuth2ConnectionTypeView;
use crate::http::{HttpRequestView, STATUS_OK};
use crate::model::{DRACOONClientView, DRACOONConnectionView};
use crate::response::{
    DRACOONErrorResponseView, LoginResponseView, OAuth2TokenResponseView, ResponseBodyView,
};

verus! {

/// A response with status 200 and a token body connects the client,
/// whichever flow asked for it: the connection is the one returned, it was
/// established at the time of the call, its tokens are those of the
/// response, the access token is valid for the response's inactivity
/// lifetime and the refresh token for its `expires_in`. The base URL and the
/// credentials stay.
pub proof fn lemma_token_response_connects(
    client: DRACOONClientView,
    res: LoginResponseView,
    token: OAuth2TokenResponseView,
    now: int,
)
    requires
        res.status == STATUS_OK,
        res.body == ResponseBodyView::Token(token),
    ensures
        ({
            let after = client.connect_state(Ok(res), now);
            &&& after.connected
            &&& after.connection matches Some(connection)
            &&& client.connect_result(Ok(res), now) == Ok::<
                DRACOONConnectionView,
                DRACOONClientErrorView,
            >(connection)
            &&& connection.connected_at == now
            &&& connection.access_token == token.access_token
            &&& connection.refresh_token == token.refresh_token
            &&& connection.access_token_validity == token.expires_in_inactive
            &&& connection.refresh_token_validity == token.expires_in
            &&& after.base_url == client.base_url
            &&& after.client_id == client.client_id
            &&& after.client_secret == client.client_secret
        }),
{
}

/// A response with any status but 200 and an error body fails with the
/// provider's error, which carries that body, and leaves the client as it
/// was, whichever flow asked for it.
pub proof fn lemma_error_response_changes_nothing(
    client: DRACOONClientView,
    res: LoginResponseView,
    error: DRACOONErrorResponseView,
    now: int,
)
    requires
        res.status != STATUS_OK,
        res.body == ResponseBodyView::ProviderError(error),
    ensures
        client.connect_result(Ok(res), now) == Err::<DRACOONConnectionView, DRACOONClientErrorView>(
            DRACOONClientErrorView::DRACOONErrror(error),
        ),
        client.connect_state(Ok(res), now) == client,
{
}

/// An exchange that fails, for whatever reason, leaves the client as it
/// was; one that succeeds leaves it connected.
pub proof fn lemma_connect_is_all_or_nothing(
    client: DRACOONClientView,
    exchange: Result<LoginResponseView, reqwest::Error>,
    now: int,
)
    ensures
        client.connect_result(exchange, now) is Err ==> client.connect_state(exchange, now)
            == client,
        client.connect_result(exchange, now) matches Ok(connection) ==> client.connect_state(
            exchange,
            now,
        ) == client.with_connection(connection),
{
}

/// The access token of a connection is valid from the moment at which the
/// connection was established until its validity window has passed: valid
/// at that moment if the window is positive, valid at any later time within
/// the window, and no longer valid once the window's seconds have elapsed.
pub proof fn lemma_access_token_valid_within_window(
    client: DRACOONClientView,
    res: LoginResponseView,
    token: OAuth2TokenResponseView,
    now: int,
    later: int,
)
    requires
        res.status == STATUS_OK,
        res.body == ResponseBodyView::Token(token),
    ensures
        ({
            let after = client.connect_state(Ok(res), now);
            let window = token.expires_in_inactive;
            &&& after.check_access_token_validity(now) == Ok::<bool, DRACOONClientErrorView>(
                0 < window,
            )
            &&& 0 <= later - now < window * 1_000_000_000 ==> after.check_access_token_validity(
                later,
            ) == Ok::<bool, DRACOONClientErrorView>(true)
            &&& later - now >= window * 1_000_000_000 ==> after.check_access_token_validity(later)
                == Ok::<bool, DRACOONClientErrorView>(false)
        }),
{
}

/// A client that never connected cannot test its connection and cannot
/// disconnect: both fail with a broken connection, whatever the transport
/// reports, and there is nothing to send for either.
pub proof fn lemma_new_client_has_no_connection(
    base_url: Seq<char>,
    client_id: Seq<char>,
    client_secret: Seq<char>,
    sent: Result<u16, reqwest::Error>,
)
    ensures
        ({
            let client = DRACOONClientView::new(base_url, client_id, client_secret);
            let broken = DRACOONClientErrorView::BrokenConnection;
            &&& client.well_formed()
            &&& client.test_connection(sent) == Err::<bool, DRACOONClientErrorView>(broken)
            &&& client.disconnect(sent) == Err::<DRACOONClientView, DRACOONClientErrorView>(broken)
            &&& client.test_connection_request() is Err
            &&& client.disconnect_request() is Err
            &&& client.check_access_token_validity(0) is Err
        }),
{
}

/// Without a connection there is no refresh token to send: the
/// refresh-token flow fails with a broken connection. The other two flows
/// need no connection.
pub proof fn lemma_refresh_needs_connection(
    client: DRACOONClientView,
    user_name: Seq<char>,
    password: Seq<char>,
    auth_code: Seq<char>,
)
    requires
        client.connection is None,
    ensures
        client.connect_request(OAuth2ConnectionTypeView::RefreshToken) == Err::<
            HttpRequestView,
            DRACOONClientErrorView,
        >(DRACOONClientErrorView::BrokenConnection),
        client.connect_request(OAuth2ConnectionTypeView::PasswordFlow(user_name, password)) is Ok,
        client.connect_request(OAuth2ConnectionTypeView::AuthCode(auth_code)) is Ok,
{
}

/// A client that disconnected is as one that never connected: it keeps its
/// base URL and credentials, holds no connection, fails to test its
/// connection with a broken connection, and can connect again with a
/// password or an authorization code.
pub proof fn lemma_disconnect_leaves_no_connection(
    client: DRACOONClientView,
    sent: Result<u16, reqwest::Error>,
    sent_after: Result<u16, reqwest::Error>,
    connection_type: OAuth2ConnectionTypeView,
)
    requires
        client.disconnect(sent) is Ok,
    ensures
        ({
            let after = client.disconnect(sent)->Ok_0;
            &&& sent == Ok::<u16, reqwest::Error>(STATUS_OK)
            &&& after == DRACOONClientView::new(
                client.base_url,
                client.client_id,
                client.client_secret,
            )
            &&& after.test_connection(sent_after) == Err::<bool, DRACOONClientErrorView>(
                DRACOONClientErrorView::BrokenConnection,
            )
            &&& connection_type != OAuth2ConnectionTypeView::RefreshToken ==> after.connect_request(
                connection_type,
            ) is Ok
        }),
{
}

/// No operation reports missing arguments: the error is reserved.
pub proof fn lemma_missing_arguments_is_reserved(
    client: DRACOONClientView,
    connection_type: OAuth2ConnectionTypeView,
    exchange: Result<LoginResponseView, reqwest::Error>,
    now: int,
    sent: Result<u16, reqwest::Error>,
)
    ensures
        ({
            let missing = DRACOONClientErrorView::MissingArguments;
            &&& client.get_connection() != Err::<DRACOONConnectionView, DRACOONClientErrorView>(
                missing,
            )
            &&& client.check_access_token_validity(now) != Err::<bool, DRACOONClientErrorView>(
                missing,
            )
            &&& client.connect_request(connection_type) != Err::<
                HttpRequestView,
                DRACOONClientErrorView,
            >(missing)
            &&& client.connect_result(exchange, now) != Err::<
                DRACOONConnectionView,
                DRACOONClientErrorView,
            >(missing)
            &&& client.test_connection_request() != Err::<HttpRequestView, DRACOONClientErrorView>(
                missing,
            )
            &&& client.test_connection(sent) != Err::<bool, DRACOONClientErrorView>(missing)
            &&& client.disconnect_request() != Err::<HttpRequestView, DRACOONClientErrorView>(
                missing,
            )
            &&& client.disconnect(sent) != Err::<DRACOONClientView, DRACOONClientErrorView>(missing)
        }),
{
}

/// Every operation keeps the client well formed: a client that counts as
/// connected holds a connection.
pub proof fn lemma_operations_keep_well_formed(
    client: DRACOONClientView,
    exchange: Result<LoginResponseView, reqwest::Error>,
    now: int,
    sent: Result<u16, reqwest::Error>,
)
    requires
        client.well_formed(),
    ensures
        client.connect_state(exchange, now).well_formed(),
        client.disconnect(sent) matches Ok(after) ==> after.well_formed(),
{
}

} // verus!
