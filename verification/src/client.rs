//! The client: what it sends for each operation and what the answers mean.

use vstd::prelude::*;
use crate::connection::DRACOONConnection;
use crate::encoding::{base64_encode, base64_text};
use crate::error::DRACOONClientError;
use crate::flows::{
    OAuth2AuthCodeFlow, OAuth2ConnectionType, OAuth2PasswordFlow, OAuth2RefreshTokenFlow,
    OAuth2TokenRevoke, GRANT_TYPE_AUTH_CODE, GRANT_TYPE_PASSWORD, GRANT_TYPE_REFRESH_TOKEN,
    TOKEN_TYPE_HINT_ACCESS,
};
use crate::http::{FormBody, HttpMethod, HttpRequest, STATUS_OK};
use crate::model::{
    parse_exchange, parse_login, DRACOONClientView, DRACOONConnectionView, BASIC_PREFIX, BEARER_PREFIX,
    CREDENTIALS_SEPARATOR, DRACOON_AUTHENTICATED_PING, DRACOON_AUTHORIZE_REDIRECT,
    DRACOON_AUTHORIZE_SCOPE, DRACOON_AUTHORIZE_URL, DRACOON_REDIRECT_URL, DRACOON_TOKEN_REVOKE_URL,
    DRACOON_TOKEN_URL,
};
use crate::response::{
    BodyKind, LoginResponse, LoginResponseView, OAuth2TokenResponse, ResponseBody,
};
use crate::time::Timestamp;

verus! {

/// A result by the mathematical content of either side.
pub open spec fn result_view<T: View, E: View>(r: Result<T, E>) -> Result<T::V, E::V> {
    match r {
        Ok(value) => Ok(value@),
        Err(error) => Err(error@),
    }
}

/// An exchange with the token endpoint by the content of its response.
pub open spec fn exchange_view(exchange: Result<LoginResponse, reqwest::Error>) -> Result<
    LoginResponseView,
    reqwest::Error,
> {
    match exchange {
        Ok(res) => Ok(res@),
        Err(e) => Err(e),
    }
}

/// An OAuth2 client of one DRACOON instance: the instance's base URL, the
/// credentials of the app, and the connection once there is one.
pub struct DRACOONClient {
    base_url: String,
    client_id: String,
    client_secret: String,
    connection: Option<DRACOONConnection>,
    connected: bool,
}

impl View for DRACOONClient {
    type V = DRACOONClientView;

    closed spec fn view(&self) -> DRACOONClientView {
        DRACOONClientView {
            base_url: self.base_url@,
            client_id: self.client_id@,
            client_secret: self.client_secret@,
            connection: match self.connection {
                Some(connection) => Some(connection@),
                None => None,
            },
            connected: self.connected,
        }
    }
}

impl DRACOONClient {
    #[verifier::type_invariant]
    spec fn connected_has_connection(self) -> bool {
        self.connected ==> self.connection is Some
    }

    /// A client for the instance at `base_url` with the credentials of an
    /// OAuth app. It holds no connection yet.
    pub fn new(base_url: String, client_id: String, client_secret: String) -> (r: DRACOONClient)
        ensures
            r@ == DRACOONClientView::new(base_url@, client_id@, client_secret@),
    {
        DRACOONClient { base_url, client_id, client_secret, connection: None, connected: false }
    }

    /// Whether the last exchange with the token endpoint succeeded and no
    /// revocation followed. A connected client holds a connection.
    pub fn is_connected(&self) -> (r: bool)
        ensures
            r == self@.connected,
            self@.well_formed(),
    {
        proof {
            use_type_invariant(self);
        }
        self.connected
    }

    /// The credentials of the password flow: the base64 text of
    /// `client_id:client_secret`.
    pub fn client_credentials(&self) -> (r: String)
        ensures
            r@ == base64_text(self@.credentials_text()),
    {
        let mut client_credentials = self.client_id.clone();
        client_credentials.append(CREDENTIALS_SEPARATOR);
        client_credentials.append(self.client_secret.as_str());
        base64_encode(client_credentials.as_str())
    }

    /// Replaces the connection by the one that `token_response` establishes
    /// at `now`.
    fn create_connection(&mut self, token_response: &OAuth2TokenResponse, now: Timestamp)
        ensures
            final(self)@ == old(self)@.with_connection(
                DRACOONConnectionView::established(token_response@, now@),
            ),
    {
        self.connection = Some(DRACOONConnection::new(token_response, now));
        self.connected = true;
    }

    /// The URL of the token endpoint.
    pub fn get_token_url(&self) -> (r: String)
        ensures
            r@ == self@.token_url(),
    {
        let mut url = self.base_url.clone();
        url.append(DRACOON_TOKEN_URL);
        url
    }

    /// The URL that the provider redirects to with an authorization code.
    pub fn get_redirect_uri(&self) -> (r: String)
        ensures
            r@ == self@.redirect_uri(),
    {
        let mut url = self.base_url.clone();
        url.append(DRACOON_REDIRECT_URL);
        url
    }

    /// The connection, or `BrokenConnection` where the client holds none.
    pub fn get_connection(&self) -> (r: Result<&DRACOONConnection, DRACOONClientError>)
        ensures
            result_view(r) == self@.get_connection(),
    {
        match &self.connection {
            Some(conn) => Ok(conn),
            None => Err(DRACOONClientError::BrokenConnection),
        }
    }

    /// Whether the access token is valid at `now`, the current time as the
    /// caller read it; `BrokenConnection` where the client holds no
    /// connection.
    pub fn check_access_token_validity(&self, now: &Timestamp) -> (r: Result<
        bool,
        DRACOONClientError,
    >)
        ensures
            result_view(r) == self@.check_access_token_validity(now@),
    {
        let conn = match &self.connection {
            Some(conn) => conn,
            None => return Err(DRACOONClientError::BrokenConnection),
        };
        Ok(conn.access_token_valid_at(now))
    }

    /// The authenticated ping to send; `BrokenConnection` where the client
    /// holds no connection.
    pub fn test_connection_request(&self) -> (r: Result<HttpRequest, DRACOONClientError>)
        ensures
            result_view(r) == self@.test_connection_request(),
    {
        let mut api_url = self.base_url.clone();
        api_url.append(DRACOON_AUTHENTICATED_PING);
        let conn = match self.get_connection() {
            Ok(conn) => conn,
            Err(e) => return Err(e),
        };
        let mut bearer = String::from_str(BEARER_PREFIX);
        bearer.append(conn.access_token().as_str());
        Ok(HttpRequest { method: HttpMethod::Get, url: api_url, authorization: Some(bearer), form: None })
    }

    /// What the ping shows, given the status of its response or the
    /// transport's failure: `true` exactly for status 200.
    pub fn test_connection(&self, sent: Result<u16, reqwest::Error>) -> (r: Result<
        bool,
        DRACOONClientError,
    >)
        ensures
            result_view(r) == self@.test_connection(sent),
    {
        if self.connection.is_none() {
            return Err(DRACOONClientError::BrokenConnection);
        }
        match sent {
            Ok(status) => Ok(status == STATUS_OK),
            Err(e) => Err(DRACOONClientError::from(e)),
        }
    }

    /// The revocation to send; `BrokenConnection` where the client holds no
    /// connection. It revokes the access token.
    pub fn disconnect_request(&self) -> (r: Result<HttpRequest, DRACOONClientError>)
        ensures
            result_view(r) == self@.disconnect_request(),
    {
        let conn = match self.get_connection() {
            Ok(conn) => conn,
            Err(_) => return Err(DRACOONClientError::BrokenConnection),
        };
        let mut revoke_url = self.base_url.clone();
        revoke_url.append(DRACOON_TOKEN_REVOKE_URL);
        let revoke_access = OAuth2TokenRevoke {
            token: conn.access_token().clone(),
            token_type_hint: String::from_str(TOKEN_TYPE_HINT_ACCESS),
            client_id: self.client_id.clone(),
            client_secret: self.client_secret.clone(),
        };
        Ok(
            HttpRequest {
                method: HttpMethod::Post,
                url: revoke_url,
                authorization: None,
                form: Some(FormBody::Revoke(revoke_access)),
            },
        )
    }

    /// What the revocation leaves, given the status of its response or the
    /// transport's failure: on status 200 the client without its connection.
    /// `revoke_refresh` is accepted and changes nothing: the revocation is
    /// that of the access token.
    #[allow(unused_variables)]
    pub fn disconnect(self, revoke_refresh: Option<bool>, sent: Result<u16, reqwest::Error>) -> (r:
        Result<DRACOONClient, DRACOONClientError>)
        ensures
            result_view(r) == self@.disconnect(sent),
    {
        if self.connection.is_none() {
            return Err(DRACOONClientError::BrokenConnection);
        }
        match sent {
            Ok(status) => {
                if status == STATUS_OK {
                    let mut client = self;
                    client.connected = false;
                    client.connection = None;
                    Ok(client)
                } else {
                    Err(DRACOONClientError::BrokenConnection)
                }
            },
            Err(e) => Err(DRACOONClientError::from(e)),
        }
    }

    /// The token request of the chosen flow; `BrokenConnection` where the
    /// refresh-token flow is chosen and the client holds no connection.
    pub fn connect_request(&self, connection_type: OAuth2ConnectionType) -> (r: Result<
        HttpRequest,
        DRACOONClientError,
    >)
        ensures
            result_view(r) == self@.connect_request(connection_type@),
    {
        match connection_type {
            OAuth2ConnectionType::AuthCode(auth_code) => Ok(self.connect_auth_code(auth_code)),
            OAuth2ConnectionType::PasswordFlow(user_name, password) => Ok(
                self.connect_password_flow(user_name, password),
            ),
            OAuth2ConnectionType::RefreshToken => self.connect_refresh_token(),
        }
    }

    /// What connecting leaves and returns, given the exchange with the token
    /// endpoint and the time `now` at which it ended: a token replaces the
    /// connection by one established at `now`, anything else leaves the
    /// client as it was.
    pub fn connect(&mut self, exchange: Result<LoginResponse, reqwest::Error>, now: Timestamp) -> (r:
        Result<&DRACOONConnection, DRACOONClientError>)
        ensures
            final(self)@ == old(self)@.connect_state(exchange_view(exchange), now@),
            result_view(r) == old(self)@.connect_result(exchange_view(exchange), now@),
    {
        let result = match self.parse_login_exchange(exchange) {
            Ok(t) => t,
            Err(e) => return Err(e),
        };
        self.create_connection(&result, now);
        match &self.connection {
            Some(c) => Ok(c),
            None => Err(DRACOONClientError::BrokenConnection),
        }
    }

    /// What an exchange with the token endpoint means: a failure of the
    /// transport is reported as such, a response is parsed.
    pub fn parse_login_exchange(&self, exchange: Result<LoginResponse, reqwest::Error>) -> (r: Result<
        OAuth2TokenResponse,
        DRACOONClientError,
    >)
        ensures
            result_view(r) == parse_exchange(exchange_view(exchange)),
    {
        match exchange {
            Ok(res) => self.parse_login_response(res),
            Err(e) => Err(DRACOONClientError::from(e)),
        }
    }

    /// How the body of a response of the token endpoint is to be decoded: as
    /// a token for status 200, as a provider error for any other.
    pub fn login_body_kind(status: u16) -> (r: BodyKind)
        ensures
            r == (if status == STATUS_OK {
                BodyKind::Token
            } else {
                BodyKind::ProviderError
            }),
    {
        if status == STATUS_OK {
            BodyKind::Token
        } else {
            BodyKind::ProviderError
        }
    }

    /// What a response of the token endpoint means: the token of a 200
    /// response, the provider's error of any other.
    pub fn parse_login_response(&self, res: LoginResponse) -> (r: Result<
        OAuth2TokenResponse,
        DRACOONClientError,
    >)
        ensures
            result_view(r) == parse_login(res@),
    {
        match res.body {
            ResponseBody::Token(token) => {
                if res.status == STATUS_OK {
                    Ok(token)
                } else {
                    Err(DRACOONClientError::BrokenConnection)
                }
            },
            ResponseBody::ProviderError(error) => {
                if res.status == STATUS_OK {
                    Err(DRACOONClientError::BrokenConnection)
                } else {
                    Err(DRACOONClientError::DRACOONErrror(error))
                }
            },
        }
    }

    /// The token request of the password flow: the user's name and password
    /// as the form, the app's credentials as Basic authorization.
    pub fn connect_password_flow(&self, user_name: String, password: String) -> (r: HttpRequest)
        ensures
            r@ == self@.password_request(user_name@, password@),
    {
        let client_b64 = self.client_credentials();
        self.password_flow_request(client_b64.as_str(), user_name, password)
    }

    /// The token request of the password flow where `client_b64` is the
    /// encoded form of the app's credentials.
    pub fn password_flow_request(&self, client_b64: &str, user_name: String, password: String) -> (r:
        HttpRequest)
        ensures
            r@ == self@.password_request_with(client_b64@, user_name@, password@),
    {
        let token_url = self.get_token_url();
        let mut auth_header = String::from_str(BASIC_PREFIX);
        auth_header.append(client_b64);
        let auth = OAuth2PasswordFlow {
            username: user_name,
            password: password,
            grant_type: String::from_str(GRANT_TYPE_PASSWORD),
        };
        HttpRequest {
            method: HttpMethod::Post,
            url: token_url,
            authorization: Some(auth_header),
            form: Some(FormBody::Password(auth)),
        }
    }

    /// The token request of the refresh-token flow, with the refresh token
    /// of the connection; `BrokenConnection` where the client holds none.
    pub fn connect_refresh_token(&self) -> (r: Result<HttpRequest, DRACOONClientError>)
        ensures
            result_view(r) == self@.refresh_token_request(),
    {
        let refresh_token: String;
        match &self.connection {
            Some(connection) => refresh_token = connection.refresh_token().clone(),
            None => return Err(DRACOONClientError::BrokenConnection),
        }
        let token_url = self.get_token_url();
        let auth = OAuth2RefreshTokenFlow {
            client_id: self.client_id.clone(),
            client_secret: self.client_secret.clone(),
            refresh_token: refresh_token,
            grant_type: String::from_str(GRANT_TYPE_REFRESH_TOKEN),
        };
        Ok(
            HttpRequest {
                method: HttpMethod::Post,
                url: token_url,
                authorization: None,
                form: Some(FormBody::RefreshToken(auth)),
            },
        )
    }

    /// The URL of the provider's authorization page for this client, from
    /// which the user obtains an authorization code.
    pub fn get_code_url(&self) -> (r: String)
        ensures
            r@ == self@.code_url(),
    {
        let redirect_uri = self.get_redirect_uri();
        let mut url = self.base_url.clone();
        url.append(DRACOON_AUTHORIZE_URL);
        url.append(self.client_id.as_str());
        url.append(DRACOON_AUTHORIZE_REDIRECT);
        url.append(redirect_uri.as_str());
        url.append(DRACOON_AUTHORIZE_SCOPE);
        url
    }

    /// The token request of the authorization-code flow.
    pub fn connect_auth_code(&self, auth_code: String) -> (r: HttpRequest)
        ensures
            r@ == self@.auth_code_request(auth_code@),
    {
        let token_url = self.get_token_url();
        let auth = OAuth2AuthCodeFlow {
            client_id: self.client_id.clone(),
            client_secret: self.client_secret.clone(),
            code: auth_code,
            grant_type: String::from_str(GRANT_TYPE_AUTH_CODE),
            redirect_uri: self.get_redirect_uri(),
        };
        HttpRequest {
            method: HttpMethod::Post,
            url: token_url,
            authorization: None,
            form: Some(FormBody::AuthCode(auth)),
        }
    }
}

} // verus!
