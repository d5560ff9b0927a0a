//! The client as a state machine over mathematical values.
//!
//! Each operation of the client is a function here, from the state and what
//! the transport handed back to the next state and the result. The
//! executable client is specified against these functions.

use vstd::prelude::*;
use crate::encoding::base64_text;
use crate::error::DRACOONClientErrorView;
use crate::flows::{
    OAuth2AuthCodeFlowView, OAuth2ConnectionTypeView, OAuth2PasswordFlowView,
    OAuth2RefreshTokenFlowView, OAuth2TokenRevokeView, GRANT_TYPE_AUTH_CODE, GRANT_TYPE_PASSWORD,
    GRANT_TYPE_REFRESH_TOKEN, TOKEN_TYPE_HINT_ACCESS,
};
use crate::http::{FormBodyView, HttpMethod, HttpRequestView, STATUS_OK};
use crate::response::{LoginResponseView, OAuth2TokenResponseView, ResponseBodyView};
use crate::time::whole_seconds_between;

verus! {

/// Path of the token endpoint below the base URL.
pub const DRACOON_TOKEN_URL: &'static str = "oauth/token";

/// Path that the provider redirects to with an authorization code.
pub const DRACOON_REDIRECT_URL: &'static str = "oauth/callback";

/// Path of the revocation endpoint.
pub const DRACOON_TOKEN_REVOKE_URL: &'static str = "oauth/revoke";

/// Path of the authenticated ping.
pub const DRACOON_AUTHENTICATED_PING: &'static str = "user/ping";

/// Path and fixed query of the authorization page, up to the client id.
pub const DRACOON_AUTHORIZE_URL: &'static str =
    "oauth/authorize?branding=full&response_type=code&client_id=";

/// Query key of the redirect URI on the authorization page.
pub const DRACOON_AUTHORIZE_REDIRECT: &'static str = "&redirect_uri=";

/// Query that closes the authorization URL: all scopes.
pub const DRACOON_AUTHORIZE_SCOPE: &'static str = "&scope=all";

/// Scheme word of the password flow's `Authorization` header.
pub const BASIC_PREFIX: &'static str = "Basic ";

/// Scheme word of an authenticated request's `Authorization` header.
pub const BEARER_PREFIX: &'static str = "Bearer ";

/// Separator between client id and client secret in the credentials.
pub const CREDENTIALS_SEPARATOR: &'static str = ":";

/// Mathematical content of a connection: the tokens, their validity windows
/// in seconds, and when it was established, in nanoseconds since the epoch.
pub struct DRACOONConnectionView {
    pub connected_at: int,
    pub access_token: Seq<char>,
    pub access_token_validity: int,
    pub refresh_token: Seq<char>,
    pub refresh_token_validity: int,
}

impl DRACOONConnectionView {
    /// The connection that `token` establishes at `now`. The access token is
    /// valid for the response's inactivity lifetime, the refresh token for
    /// its `expires_in`.
    pub open spec fn established(token: OAuth2TokenResponseView, now: int) -> Self {
        DRACOONConnectionView {
            connected_at: now,
            access_token: token.access_token,
            access_token_validity: token.expires_in_inactive,
            refresh_token: token.refresh_token,
            refresh_token_validity: token.expires_in,
        }
    }

    /// Whether the access token is still valid at `now`: fewer whole seconds
    /// have passed since the connection was established than its window.
    pub open spec fn access_token_valid_at(self, now: int) -> bool {
        whole_seconds_between(now, self.connected_at) < self.access_token_validity
    }
}

/// Mathematical content of a client.
pub struct DRACOONClientView {
    pub base_url: Seq<char>,
    pub client_id: Seq<char>,
    pub client_secret: Seq<char>,
    pub connection: Option<DRACOONConnectionView>,
    pub connected: bool,
}

/// What a token response means: the token of a 200 response, the provider's
/// error of any other, and a broken connection where the body is not of the
/// form that the status calls for.
pub open spec fn parse_login(res: LoginResponseView) -> Result<
    OAuth2TokenResponseView,
    DRACOONClientErrorView,
> {
    match res.body {
        ResponseBodyView::Token(token) => if res.status == STATUS_OK {
            Ok(token)
        } else {
            Err(DRACOONClientErrorView::BrokenConnection)
        },
        ResponseBodyView::ProviderError(error) => if res.status == STATUS_OK {
            Err(DRACOONClientErrorView::BrokenConnection)
        } else {
            Err(DRACOONClientErrorView::DRACOONErrror(error))
        },
    }
}

/// What an exchange with the token endpoint means: a transport failure is
/// reported as such, a response is parsed.
pub open spec fn parse_exchange(exchange: Result<LoginResponseView, reqwest::Error>) -> Result<
    OAuth2TokenResponseView,
    DRACOONClientErrorView,
> {
    match exchange {
        Ok(res) => parse_login(res),
        Err(e) => Err(DRACOONClientErrorView::RequestFailed(e)),
    }
}

impl DRACOONClientView {
    /// A client that has not connected yet.
    pub open spec fn new(base_url: Seq<char>, client_id: Seq<char>, client_secret: Seq<char>) -> Self {
        DRACOONClientView { base_url, client_id, client_secret, connection: None, connected: false }
    }

    /// A connected client holds a connection.
    pub open spec fn well_formed(self) -> bool {
        self.connected ==> self.connection is Some
    }

    /// This client with `connection` in place of whatever it held.
    pub open spec fn with_connection(self, connection: DRACOONConnectionView) -> Self {
        DRACOONClientView { connection: Some(connection), connected: true, ..self }
    }

    /// This client without a connection.
    pub open spec fn disconnected(self) -> Self {
        DRACOONClientView { connection: None, connected: false, ..self }
    }

    /// The text that the password flow encodes: `client_id:client_secret`.
    pub open spec fn credentials_text(self) -> Seq<char> {
        self.client_id + CREDENTIALS_SEPARATOR@ + self.client_secret
    }

    /// The URL of the token endpoint.
    pub open spec fn token_url(self) -> Seq<char> {
        self.base_url + DRACOON_TOKEN_URL@
    }

    /// The URL that the provider redirects to with an authorization code.
    pub open spec fn redirect_uri(self) -> Seq<char> {
        self.base_url + DRACOON_REDIRECT_URL@
    }

    /// The URL of the revocation endpoint.
    pub open spec fn revoke_url(self) -> Seq<char> {
        self.base_url + DRACOON_TOKEN_REVOKE_URL@
    }

    /// The URL of the authenticated ping.
    pub open spec fn ping_url(self) -> Seq<char> {
        self.base_url + DRACOON_AUTHENTICATED_PING@
    }

    /// The authorization page for this client: all scopes, response type
    /// `code`, redirecting to the callback below the base URL.
    pub open spec fn code_url(self) -> Seq<char> {
        self.base_url + DRACOON_AUTHORIZE_URL@ + self.client_id + DRACOON_AUTHORIZE_REDIRECT@
            + self.redirect_uri() + DRACOON_AUTHORIZE_SCOPE@
    }

    /// The connection, or a broken connection where there is none.
    pub open spec fn get_connection(self) -> Result<DRACOONConnectionView, DRACOONClientErrorView> {
        match self.connection {
            Some(connection) => Ok(connection),
            None => Err(DRACOONClientErrorView::BrokenConnection),
        }
    }

    /// Whether the access token is valid at `now`.
    pub open spec fn check_access_token_validity(self, now: int) -> Result<
        bool,
        DRACOONClientErrorView,
    > {
        match self.connection {
            Some(connection) => Ok(connection.access_token_valid_at(now)),
            None => Err(DRACOONClientErrorView::BrokenConnection),
        }
    }

    /// The token request of the password flow where `credentials` is the
    /// encoded form of the app's credentials: the user's name and password
    /// as the form, the credentials as Basic authorization.
    pub open spec fn password_request_with(
        self,
        credentials: Seq<char>,
        user_name: Seq<char>,
        password: Seq<char>,
    ) -> HttpRequestView {
        HttpRequestView {
            method: HttpMethod::Post,
            url: self.token_url(),
            authorization: Some(BASIC_PREFIX@ + credentials),
            form: Some(
                FormBodyView::Password(
                    OAuth2PasswordFlowView {
                        username: user_name,
                        password: password,
                        grant_type: GRANT_TYPE_PASSWORD@,
                    },
                ),
            ),
        }
    }

    /// The token request of the password flow: the credentials are the
    /// base64 text of `client_id:client_secret`.
    pub open spec fn password_request(self, user_name: Seq<char>, password: Seq<char>) -> HttpRequestView {
        self.password_request_with(base64_text(self.credentials_text()), user_name, password)
    }

    /// The token request of the authorization-code flow.
    pub open spec fn auth_code_request(self, auth_code: Seq<char>) -> HttpRequestView {
        HttpRequestView {
            method: HttpMethod::Post,
            url: self.token_url(),
            authorization: None,
            form: Some(
                FormBodyView::AuthCode(
                    OAuth2AuthCodeFlowView {
                        client_id: self.client_id,
                        client_secret: self.client_secret,
                        grant_type: GRANT_TYPE_AUTH_CODE@,
                        code: auth_code,
                        redirect_uri: self.redirect_uri(),
                    },
                ),
            ),
        }
    }

    /// The token request of the refresh-token flow, which needs a connection
    /// to take the refresh token from.
    pub open spec fn refresh_token_request(self) -> Result<HttpRequestView, DRACOONClientErrorView> {
        match self.connection {
            Some(connection) => Ok(
                HttpRequestView {
                    method: HttpMethod::Post,
                    url: self.token_url(),
                    authorization: None,
                    form: Some(
                        FormBodyView::RefreshToken(
                            OAuth2RefreshTokenFlowView {
                                client_id: self.client_id,
                                client_secret: self.client_secret,
                                grant_type: GRANT_TYPE_REFRESH_TOKEN@,
                                refresh_token: connection.refresh_token,
                            },
                        ),
                    ),
                },
            ),
            None => Err(DRACOONClientErrorView::BrokenConnection),
        }
    }

    /// The token request of the chosen flow.
    pub open spec fn connect_request(self, connection_type: OAuth2ConnectionTypeView) -> Result<
        HttpRequestView,
        DRACOONClientErrorView,
    > {
        match connection_type {
            OAuth2ConnectionTypeView::PasswordFlow(user_name, password) => Ok(
                self.password_request(user_name, password),
            ),
            OAuth2ConnectionTypeView::AuthCode(auth_code) => Ok(self.auth_code_request(auth_code)),
            OAuth2ConnectionTypeView::RefreshToken => self.refresh_token_request(),
        }
    }

    /// The client after an exchange with the token endpoint that ended at
    /// `now`: a token replaces the connection, anything else changes nothing.
    pub open spec fn connect_state(
        self,
        exchange: Result<LoginResponseView, reqwest::Error>,
        now: int,
    ) -> Self {
        match parse_exchange(exchange) {
            Ok(token) => self.with_connection(DRACOONConnectionView::established(token, now)),
            Err(_) => self,
        }
    }

    /// What connecting returns after that exchange: the new connection, or
    /// why there is none.
    pub open spec fn connect_result(
        self,
        exchange: Result<LoginResponseView, reqwest::Error>,
        now: int,
    ) -> Result<DRACOONConnectionView, DRACOONClientErrorView> {
        match parse_exchange(exchange) {
            Ok(token) => Ok(DRACOONConnectionView::established(token, now)),
            Err(e) => Err(e),
        }
    }

    /// The authenticated ping, which needs a connection.
    pub open spec fn test_connection_request(self) -> Result<HttpRequestView, DRACOONClientErrorView> {
        match self.connection {
            Some(connection) => Ok(
                HttpRequestView {
                    method: HttpMethod::Get,
                    url: self.ping_url(),
                    authorization: Some(BEARER_PREFIX@ + connection.access_token),
                    form: None,
                },
            ),
            None => Err(DRACOONClientErrorView::BrokenConnection),
        }
    }

    /// What the ping shows: the connection works exactly if the status is
    /// 200.
    pub open spec fn test_connection(self, sent: Result<u16, reqwest::Error>) -> Result<
        bool,
        DRACOONClientErrorView,
    > {
        if self.connection is None {
            Err(DRACOONClientErrorView::BrokenConnection)
        } else {
            match sent {
                Ok(status) => Ok(status == STATUS_OK),
                Err(e) => Err(DRACOONClientErrorView::RequestFailed(e)),
            }
        }
    }

    /// The revocation of the access token, which needs a connection.
    pub open spec fn disconnect_request(self) -> Result<HttpRequestView, DRACOONClientErrorView> {
        match self.connection {
            Some(connection) => Ok(
                HttpRequestView {
                    method: HttpMethod::Post,
                    url: self.revoke_url(),
                    authorization: None,
                    form: Some(
                        FormBodyView::Revoke(
                            OAuth2TokenRevokeView {
                                client_id: self.client_id,
                                client_secret: self.client_secret,
                                token_type_hint: TOKEN_TYPE_HINT_ACCESS@,
                                token: connection.access_token,
                            },
                        ),
                    ),
                },
            ),
            None => Err(DRACOONClientErrorView::BrokenConnection),
        }
    }

    /// What the revocation leaves: on status 200 the client without its
    /// connection, otherwise a broken connection.
    pub open spec fn disconnect(self, sent: Result<u16, reqwest::Error>) -> Result<
        Self,
        DRACOONClientErrorView,
    > {
        if self.connection is None {
            Err(DRACOONClientErrorView::BrokenConnection)
        } else {
            match sent {
                Ok(status) => if status == STATUS_OK {
                    Ok(self.disconnected())
                } else {
                    Err(DRACOONClientErrorView::BrokenConnection)
                },
                Err(e) => Err(DRACOONClientErrorView::RequestFailed(e)),
            }
        }
    }
}

} // verus!
