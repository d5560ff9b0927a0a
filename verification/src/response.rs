//! What the provider answers: a token grant or a structured error.

use vstd::prelude::*;

verus! {

/// A successful answer of the token endpoint.
#[derive(Debug, Clone, PartialEq, Eq)]
pub struct OAuth2TokenResponse {
    pub access_token: String,
    pub refresh_token: String,
    pub token_type: Option<String>,
    pub expires_in: i64,
    pub expires_in_inactive: i64,
    pub scope: String,
}

/// Mathematical content of an [`OAuth2TokenResponse`].
pub struct OAuth2TokenResponseView {
    pub access_token: Seq<char>,
    pub refresh_token: Seq<char>,
    pub token_type: Option<Seq<char>>,
    pub expires_in: int,
    pub expires_in_inactive: int,
    pub scope: Seq<char>,
}

impl View for OAuth2TokenResponse {
    type V = OAuth2TokenResponseView;

    open spec fn view(&self) -> OAuth2TokenResponseView {
        OAuth2TokenResponseView {
            access_token: self.access_token@,
            refresh_token: self.refresh_token@,
            token_type: self.token_type.deep_view(),
            expires_in: self.expires_in as int,
            expires_in_inactive: self.expires_in_inactive as int,
            scope: self.scope@,
        }
    }
}

/// An error body of the provider. Every field is optional: an OAuth2 error
/// fills `error` and `error_description`, an API error fills `code`,
/// `message`, `debug_info` and `error_code`.
#[derive(Debug, Clone, PartialEq, Eq)]
pub struct DRACOONErrorResponse {
    pub code: Option<i32>,
    pub message: Option<String>,
    pub error: Option<String>,
    pub error_description: Option<String>,
    pub debug_info: Option<String>,
    pub error_code: Option<i32>,
}

/// Mathematical content of a [`DRACOONErrorResponse`].
pub struct DRACOONErrorResponseView {
    pub code: Option<i32>,
    pub message: Option<Seq<char>>,
    pub error: Option<Seq<char>>,
    pub error_description: Option<Seq<char>>,
    pub debug_info: Option<Seq<char>>,
    pub error_code: Option<i32>,
}

impl View for DRACOONErrorResponse {
    type V = DRACOONErrorResponseView;

    open spec fn view(&self) -> DRACOONErrorResponseView {
        DRACOONErrorResponseView {
            code: self.code,
            message: self.message.deep_view(),
            error: self.error.deep_view(),
            error_description: self.error_description.deep_view(),
            debug_info: self.debug_info.deep_view(),
            error_code: self.error_code,
        }
    }
}

/// How the body of a response is to be decoded.
#[derive(Debug, Clone, Copy, PartialEq, Eq, Structural)]
pub enum BodyKind {
    /// As an [`OAuth2TokenResponse`].
    Token,
    /// As a [`DRACOONErrorResponse`].
    ProviderError,
}

/// A decoded response body.
#[derive(Debug, Clone, PartialEq, Eq)]
pub enum ResponseBody {
    Token(OAuth2TokenResponse),
    ProviderError(DRACOONErrorResponse),
}

/// Mathematical content of a [`ResponseBody`].
pub enum ResponseBodyView {
    Token(OAuth2TokenResponseView),
    ProviderError(DRACOONErrorResponseView),
}

impl View for ResponseBody {
    type V = ResponseBodyView;

    open spec fn view(&self) -> ResponseBodyView {
        match self {
            ResponseBody::Token(t) => ResponseBodyView::Token(t@),
            ResponseBody::ProviderError(e) => ResponseBodyView::ProviderError(e@),
        }
    }
}

/// A response of the token endpoint: its status and its decoded body.
#[derive(Debug, Clone, PartialEq, Eq)]
pub struct LoginResponse {
    pub status: u16,
    pub body: ResponseBody,
}

/// Mathematical content of a [`LoginResponse`].
pub struct LoginResponseView {
    pub status: u16,
    pub body: ResponseBodyView,
}

impl View for LoginResponse {
    type V = LoginResponseView;

    open spec fn view(&self) -> LoginResponseView {
        LoginResponseView { status: self.status, body: self.body@ }
    }
}

} // verus!
