//! Requests as the client hands them to its transport.

use vstd::prelude::*;
use crate::flows::{
    OAuth2AuthCodeFlow, OAuth2AuthCodeFlowView, OAuth2PasswordFlow, OAuth2PasswordFlowView,
    OAuth2RefreshTokenFlow, OAuth2RefreshTokenFlowView, OAuth2TokenRevoke, OAuth2TokenRevokeView,
};

verus! {

/// Status of a response that the provider accepts a request with.
pub const STATUS_OK: u16 = 200;

/// Value of the `User-Agent` header of every request: the name of this
/// client, a slash, and its version.
pub const APP_USER_AGENT: &'static str = "dracoon/0.1.0";

/// The request methods that the client uses.
#[derive(Debug, Clone, Copy, PartialEq, Eq, Structural)]
pub enum HttpMethod {
    Get,
    Post,
}

/// The form payload of a request.
#[derive(Debug, Clone, PartialEq, Eq)]
pub enum FormBody {
    Password(OAuth2PasswordFlow),
    AuthCode(OAuth2AuthCodeFlow),
    RefreshToken(OAuth2RefreshTokenFlow),
    Revoke(OAuth2TokenRevoke),
}

/// Mathematical content of a [`FormBody`].
pub enum FormBodyView {
    Password(OAuth2PasswordFlowView),
    AuthCode(OAuth2AuthCodeFlowView),
    RefreshToken(OAuth2RefreshTokenFlowView),
    Revoke(OAuth2TokenRevokeView),
}

impl View for FormBody {
    type V = FormBodyView;

    open spec fn view(&self) -> FormBodyView {
        match self {
            FormBody::Password(f) => FormBodyView::Password(f@),
            FormBody::AuthCode(f) => FormBodyView::AuthCode(f@),
            FormBody::RefreshToken(f) => FormBodyView::RefreshToken(f@),
            FormBody::Revoke(f) => FormBodyView::Revoke(f@),
        }
    }
}

/// One request: where it goes, the value of its `Authorization` header if
/// it has one, and its form payload if it has one.
#[derive(Debug, Clone, PartialEq, Eq)]
pub struct HttpRequest {
    pub method: HttpMethod,
    pub url: String,
    pub authorization: Option<String>,
    pub form: Option<FormBody>,
}

/// Mathematical content of an [`HttpRequest`].
pub struct HttpRequestView {
    pub method: HttpMethod,
    pub url: Seq<char>,
    pub authorization: Option<Seq<char>>,
    pub form: Option<FormBodyView>,
}

impl View for HttpRequest {
    type V = HttpRequestView;

    open spec fn view(&self) -> HttpRequestView {
        HttpRequestView {
            method: self.method,
            url: self.url@,
            authorization: self.authorization.deep_view(),
            form: match self.form {
                Some(f) => Some(f@),
                None => None,
            },
        }
    }
}

} // verus!
