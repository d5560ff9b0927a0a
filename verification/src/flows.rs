//! The grant flows and the form payloads that they send.

use vstd::prelude::*;

verus! {

/// `grant_type` of the resource-owner password flow.
pub const GRANT_TYPE_PASSWORD: &'static str = "password";

/// `grant_type` of the authorization-code flow.
pub const GRANT_TYPE_AUTH_CODE: &'static str = "authorization_code";

/// `grant_type` of the refresh-token flow.
pub const GRANT_TYPE_REFRESH_TOKEN: &'static str = "refresh_token";

/// `token_type_hint` that marks a revoked token as an access token.
pub const TOKEN_TYPE_HINT_ACCESS: &'static str = "access_token";

/// Form payload of the password flow.
#[derive(Debug, Clone, PartialEq, Eq)]
pub struct OAuth2PasswordFlow {
    pub username: String,
    pub password: String,
    pub grant_type: String,
}

/// Mathematical content of an [`OAuth2PasswordFlow`].
pub struct OAuth2PasswordFlowView {
    pub username: Seq<char>,
    pub password: Seq<char>,
    pub grant_type: Seq<char>,
}

impl View for OAuth2PasswordFlow {
    type V = OAuth2PasswordFlowView;

    open spec fn view(&self) -> OAuth2PasswordFlowView {
        OAuth2PasswordFlowView {
            username: self.username@,
            password: self.password@,
            grant_type: self.grant_type@,
        }
    }
}

/// Form payload of the authorization-code flow.
#[derive(Debug, Clone, PartialEq, Eq)]
pub struct OAuth2AuthCodeFlow {
    pub client_id: String,
    pub client_secret: String,
    pub grant_type: String,
    pub code: String,
    pub redirect_uri: String,
}

/// Mathematical content of an [`OAuth2AuthCodeFlow`].
pub struct OAuth2AuthCodeFlowView {
    pub client_id: Seq<char>,
    pub client_secret: Seq<char>,
    pub grant_type: Seq<char>,
    pub code: Seq<char>,
    pub redirect_uri: Seq<char>,
}

impl View for OAuth2AuthCodeFlow {
    type V = OAuth2AuthCodeFlowView;

    open spec fn view(&self) -> OAuth2AuthCodeFlowView {
        OAuth2AuthCodeFlowView {
            client_id: self.client_id@,
            client_secret: self.client_secret@,
            grant_type: self.grant_type@,
            code: self.code@,
            redirect_uri: self.redirect_uri@,
        }
    }
}

/// Form payload of the refresh-token flow.
#[derive(Debug, Clone, PartialEq, Eq)]
pub struct OAuth2RefreshTokenFlow {
    pub client_id: String,
    pub client_secret: String,
    pub grant_type: String,
    pub refresh_token: String,
}

/// Mathematical content of an [`OAuth2RefreshTokenFlow`].
pub struct OAuth2RefreshTokenFlowView {
    pub client_id: Seq<char>,
    pub client_secret: Seq<char>,
    pub grant_type: Seq<char>,
    pub refresh_token: Seq<char>,
}

impl View for OAuth2RefreshTokenFlow {
    type V = OAuth2RefreshTokenFlowView;

    open spec fn view(&self) -> OAuth2RefreshTokenFlowView {
        OAuth2RefreshTokenFlowView {
            client_id: self.client_id@,
            client_secret: self.client_secret@,
            grant_type: self.grant_type@,
            refresh_token: self.refresh_token@,
        }
    }
}

/// Form payload of a token revocation.
#[derive(Debug, Clone, PartialEq, Eq)]
pub struct OAuth2TokenRevoke {
    pub client_id: String,
    pub client_secret: String,
    pub token_type_hint: String,
    pub token: String,
}

/// Mathematical content of an [`OAuth2TokenRevoke`].
pub struct OAuth2TokenRevokeView {
    pub client_id: Seq<char>,
    pub client_secret: Seq<char>,
    pub token_type_hint: Seq<char>,
    pub token: Seq<char>,
}

impl View for OAuth2TokenRevoke {
    type V = OAuth2TokenRevokeView;

    open spec fn view(&self) -> OAuth2TokenRevokeView {
        OAuth2TokenRevokeView {
            client_id: self.client_id@,
            client_secret: self.client_secret@,
            token_type_hint: self.token_type_hint@,
            token: self.token@,
        }
    }
}

/// The grant flows that the client supports.
#[derive(Debug, Clone, PartialEq, Eq)]
pub enum OAuth2ConnectionType {
    /// User name and password of the resource owner.
    PasswordFlow(String, String),
    /// An authorization code obtained out of band.
    AuthCode(String),
    /// The refresh token of the current connection.
    RefreshToken,
}

/// Mathematical content of an [`OAuth2ConnectionType`].
pub enum OAuth2ConnectionTypeView {
    PasswordFlow(Seq<char>, Seq<char>),
    AuthCode(Seq<char>),
    RefreshToken,
}

impl View for OAuth2ConnectionType {
    type V = OAuth2ConnectionTypeView;

    open spec fn view(&self) -> OAuth2ConnectionTypeView {
        match self {
            OAuth2ConnectionType::PasswordFlow(user_name, password) => {
                OAuth2ConnectionTypeView::PasswordFlow(user_name@, password@)
            },
            OAuth2ConnectionType::AuthCode(auth_code) => OAuth2ConnectionTypeView::AuthCode(
                auth_code@,
            ),
            OAuth2ConnectionType::RefreshToken => OAuth2ConnectionTypeView::RefreshToken,
        }
    }
}

} // verus!
