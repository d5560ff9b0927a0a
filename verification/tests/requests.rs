use dracoon::flows::{
    GRANT_TYPE_AUTH_CODE, GRANT_TYPE_PASSWORD, GRANT_TYPE_REFRESH_TOKEN, TOKEN_TYPE_HINT_ACCESS,
};
use dracoon::http::APP_USER_AGENT;
use dracoon::{
    DRACOONClient, DRACOONClientError, FormBody, HttpMethod, HttpRequest, LoginResponse,
    OAuth2AuthCodeFlow, OAuth2ConnectionType, OAuth2PasswordFlow, OAuth2RefreshTokenFlow,
    OAuth2TokenResponse, OAuth2TokenRevoke, ResponseBody, Timestamp,
};

fn client() -> DRACOONClient {
    DRACOONClient::new(
        "https://example.com/".to_string(),
        "abc".to_string(),
        "secret".to_string(),
    )
}

fn token() -> OAuth2TokenResponse {
    OAuth2TokenResponse {
        access_token: "access-1".to_string(),
        refresh_token: "refresh-1".to_string(),
        token_type: Some("bearer".to_string()),
        expires_in: 28800,
        expires_in_inactive: 3600,
        scope: "all".to_string(),
    }
}

fn connected_client() -> DRACOONClient {
    let mut client = client();
    let now = Timestamp::new(1_700_000_000, 0).unwrap();
    let granted = LoginResponse { status: 200, body: ResponseBody::Token(token()) };
    assert!(client.connect(Ok(granted), now).is_ok());
    client
}

#[test]
fn code_url_is_the_authorization_page() {
    assert_eq!(
        client().get_code_url(),
        "https://example.com/oauth/authorize?branding=full&response_type=code&client_id=abc&redirect_uri=https://example.com/oauth/callback&scope=all"
    );
}

#[test]
fn code_url_appends_to_the_base_url_as_it_is() {
    let client = DRACOONClient::new(
        "https://dracoon.team/api".to_string(),
        "app id".to_string(),
        "s".to_string(),
    );
    assert_eq!(
        client.get_code_url(),
        "https://dracoon.team/apioauth/authorize?branding=full&response_type=code&client_id=app id&redirect_uri=https://dracoon.team/apioauth/callback&scope=all"
    );
}

#[test]
fn token_url_and_redirect_uri_lie_below_the_base_url() {
    assert_eq!(client().get_token_url(), "https://example.com/oauth/token");
    assert_eq!(client().get_redirect_uri(), "https://example.com/oauth/callback");
}

#[test]
fn client_credentials_are_base64_of_id_and_secret() {
    assert_eq!(client().client_credentials(), "YWJjOnNlY3JldA==");
    let other = DRACOONClient::new("https://x/".to_string(), "id".to_string(), "sec".to_string());
    assert_eq!(other.client_credentials(), "aWQ6c2Vj");
    let empty = DRACOONClient::new("https://x/".to_string(), String::new(), String::new());
    assert_eq!(empty.client_credentials(), "Og==");
    let wide = DRACOONClient::new("https://x/".to_string(), "äö".to_string(), "ü".to_string());
    assert_eq!(wide.client_credentials(), "w6TDtjrDvA==");
}

#[test]
fn password_flow_sends_user_and_password_with_basic_authorization() {
    let request = client().connect_password_flow("u".to_string(), "p".to_string());
    let expected = HttpRequest {
        method: HttpMethod::Post,
        url: "https://example.com/oauth/token".to_string(),
        authorization: Some("Basic YWJjOnNlY3JldA==".to_string()),
        form: Some(FormBody::Password(OAuth2PasswordFlow {
            username: "u".to_string(),
            password: "p".to_string(),
            grant_type: "password".to_string(),
        })),
    };
    assert_eq!(request, expected);
}

#[test]
fn password_flow_prefixes_the_credentials_it_is_given() {
    let request = client().password_flow_request("Zm9v", "user".to_string(), "pass".to_string());
    let expected = HttpRequest {
        method: HttpMethod::Post,
        url: "https://example.com/oauth/token".to_string(),
        authorization: Some("Basic Zm9v".to_string()),
        form: Some(FormBody::Password(OAuth2PasswordFlow {
            username: "user".to_string(),
            password: "pass".to_string(),
            grant_type: "password".to_string(),
        })),
    };
    assert_eq!(request, expected);
}

#[test]
fn auth_code_flow_sends_the_code_and_the_app_credentials() {
    let request = client().connect_auth_code("code-7".to_string());
    let expected = HttpRequest {
        method: HttpMethod::Post,
        url: "https://example.com/oauth/token".to_string(),
        authorization: None,
        form: Some(FormBody::AuthCode(OAuth2AuthCodeFlow {
            client_id: "abc".to_string(),
            client_secret: "secret".to_string(),
            grant_type: "authorization_code".to_string(),
            code: "code-7".to_string(),
            redirect_uri: "https://example.com/oauth/callback".to_string(),
        })),
    };
    assert_eq!(request, expected);
}

#[test]
fn refresh_flow_sends_the_stored_refresh_token() {
    let request = connected_client().connect_refresh_token().unwrap();
    let expected = HttpRequest {
        method: HttpMethod::Post,
        url: "https://example.com/oauth/token".to_string(),
        authorization: None,
        form: Some(FormBody::RefreshToken(OAuth2RefreshTokenFlow {
            client_id: "abc".to_string(),
            client_secret: "secret".to_string(),
            grant_type: "refresh_token".to_string(),
            refresh_token: "refresh-1".to_string(),
        })),
    };
    assert_eq!(request, expected);
}

#[test]
fn refresh_flow_without_connection_is_broken() {
    assert!(matches!(
        client().connect_refresh_token(),
        Err(DRACOONClientError::BrokenConnection)
    ));
    assert!(matches!(
        client().connect_request(OAuth2ConnectionType::RefreshToken),
        Err(DRACOONClientError::BrokenConnection)
    ));
}

#[test]
fn connect_request_dispatches_on_the_flow() {
    let client = connected_client();
    let password = client
        .connect_request(OAuth2ConnectionType::PasswordFlow("u".to_string(), "p".to_string()))
        .unwrap();
    assert_eq!(password, client.connect_password_flow("u".to_string(), "p".to_string()));
    let code = client.connect_request(OAuth2ConnectionType::AuthCode("c".to_string())).unwrap();
    assert_eq!(code, client.connect_auth_code("c".to_string()));
    let refresh = client.connect_request(OAuth2ConnectionType::RefreshToken).unwrap();
    assert_eq!(refresh, client.connect_refresh_token().unwrap());
}

#[test]
fn password_and_code_flows_need_no_connection() {
    let fresh = client();
    assert!(fresh
        .connect_request(OAuth2ConnectionType::PasswordFlow("u".to_string(), "p".to_string()))
        .is_ok());
    assert!(fresh.connect_request(OAuth2ConnectionType::AuthCode("c".to_string())).is_ok());
}

#[test]
fn ping_request_carries_the_bearer_token() {
    let request = connected_client().test_connection_request().unwrap();
    let expected = HttpRequest {
        method: HttpMethod::Get,
        url: "https://example.com/user/ping".to_string(),
        authorization: Some("Bearer access-1".to_string()),
        form: None,
    };
    assert_eq!(request, expected);
}

#[test]
fn revoke_request_names_the_access_token() {
    let request = connected_client().disconnect_request().unwrap();
    let expected = HttpRequest {
        method: HttpMethod::Post,
        url: "https://example.com/oauth/revoke".to_string(),
        authorization: None,
        form: Some(FormBody::Revoke(OAuth2TokenRevoke {
            client_id: "abc".to_string(),
            client_secret: "secret".to_string(),
            token_type_hint: "access_token".to_string(),
            token: "access-1".to_string(),
        })),
    };
    assert_eq!(request, expected);
}

#[test]
fn ping_and_revoke_requests_need_a_connection() {
    assert!(matches!(
        client().test_connection_request(),
        Err(DRACOONClientError::BrokenConnection)
    ));
    assert!(matches!(client().disconnect_request(), Err(DRACOONClientError::BrokenConnection)));
}

#[test]
fn grant_types_and_hint_have_their_wire_names() {
    assert_eq!(GRANT_TYPE_PASSWORD, "password");
    assert_eq!(GRANT_TYPE_AUTH_CODE, "authorization_code");
    assert_eq!(GRANT_TYPE_REFRESH_TOKEN, "refresh_token");
    assert_eq!(TOKEN_TYPE_HINT_ACCESS, "access_token");
}

#[test]
fn user_agent_is_name_and_version() {
    let parts: Vec<&str> = APP_USER_AGENT.split('/').collect();
    assert_eq!(parts, vec!["dracoon", "0.1.0"]);
}
