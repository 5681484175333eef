use analog_desktop::auth::{
    access_token_of, exchange_code_for_tokens, get_auth_status, oauth_callback,
    oauth_callback_of, oauth_ports, open_auth_url, query_value, redirect_uri, token_request,
    OauthCallback, TokenReply, UserInfoReply, AUTH_SUCCEEDED, CLIENT_ID_MISSING,
    CLIENT_SECRET_MISSING, EXCHANGE_FAILED, OAUTH_CALLBACK_EVENT, OAUTH_ERROR_EVENT,
    OAUTH_RESPONSE, SCOPES, TOKEN_ENDPOINT, USER_INFO_ENDPOINT,
};

fn pairs(list: &[(&str, &str)]) -> Vec<(String, String)> {
    list.iter().map(|(name, value)| (name.to_string(), value.to_string())).collect()
}

fn code_of(callback: &OauthCallback) -> Option<(&str, &str)> {
    match callback {
        OauthCallback::Code(data) => Some((data.code.as_str(), data.state.as_str())),
        _ => None,
    }
}

fn error_of(callback: &OauthCallback) -> Option<&str> {
    match callback {
        OauthCallback::Error(error) => Some(error.as_str()),
        _ => None,
    }
}

#[test]
fn the_local_server_tries_five_ports() {
    assert_eq!(oauth_ports(), vec![8080, 8081, 8082, 8083, 8084]);
    assert_eq!(OAUTH_RESPONSE, "Authentication successful! You can close this window.");
}

#[test]
fn the_events_and_endpoints_have_their_names() {
    assert_eq!(OAUTH_CALLBACK_EVENT, "oauth_callback");
    assert_eq!(OAUTH_ERROR_EVENT, "oauth_error");
    assert_eq!(TOKEN_ENDPOINT, "https://oauth2.googleapis.com/token");
    assert_eq!(USER_INFO_ENDPOINT, "https://www.googleapis.com/oauth2/v2/userinfo");
    assert_eq!(
        SCOPES,
        ["email", "profile", "openid", "https://mail.google.com/", "https://www.googleapis.com/auth/calendar"]
            .join(" ")
    );
}

#[test]
fn the_last_pair_of_a_name_gives_its_value() {
    let query = pairs(&[("a", "1"), ("b", "2"), ("a", "3"), ("", "4")]);
    assert_eq!(query_value(&query, "a").as_deref(), Some("3"));
    assert_eq!(query_value(&query, "b").as_deref(), Some("2"));
    assert_eq!(query_value(&query, "").as_deref(), Some("4"));
    assert_eq!(query_value(&query, "c"), None);
    assert_eq!(query_value(&pairs(&[]), "a"), None);
}

#[test]
fn a_code_comes_with_its_state() {
    let callback = oauth_callback("http://localhost:8080/?code=4%2Fabc&state=xyz");
    assert_eq!(code_of(&callback), Some(("4/abc", "xyz")));
}

#[test]
fn a_code_without_a_state_has_an_empty_one() {
    let callback = oauth_callback("http://localhost:8081/?code=abc");
    assert_eq!(code_of(&callback), Some(("abc", "")));
}

#[test]
fn a_code_wins_over_an_error() {
    let callback = oauth_callback("http://localhost:8080/?error=denied&code=abc&state=s+1");
    assert_eq!(code_of(&callback), Some(("abc", "s 1")));
}

#[test]
fn an_error_is_handed_on() {
    let callback = oauth_callback("http://localhost:8080/?error=access_denied&state=xyz");
    assert_eq!(error_of(&callback), Some("access_denied"));
}

#[test]
fn an_address_with_neither_is_passed_over() {
    assert!(matches!(oauth_callback("http://localhost:8080/"), OauthCallback::Ignored));
    assert!(matches!(oauth_callback("http://localhost:8080/?state=xyz"), OauthCallback::Ignored));
    assert!(matches!(oauth_callback("http://localhost:8080/?Code=abc"), OauthCallback::Ignored));
}

#[test]
fn a_text_that_is_no_address_is_passed_over() {
    assert!(matches!(oauth_callback("?code=abc"), OauthCallback::Ignored));
    assert!(matches!(oauth_callback(""), OauthCallback::Ignored));
    assert!(matches!(oauth_callback_of(None), OauthCallback::Ignored));
}

#[test]
fn of_a_repeated_name_the_last_counts() {
    let callback = oauth_callback("http://localhost:8080/?code=first&code=second&state=a&state=b");
    assert_eq!(code_of(&callback), Some(("second", "b")));
    let callback = oauth_callback_of(Some(pairs(&[("error", "x"), ("error", "y")])));
    assert_eq!(error_of(&callback), Some("y"));
}

#[test]
fn the_query_is_read_as_the_url_crate_reads_it() {
    let text = "http://localhost:8080/cb?code=a%20b%26c&state=%E2%9C%93#frag";
    let read: Vec<(String, String)> =
        url::Url::parse(text).unwrap().query_pairs().into_owned().collect();
    assert_eq!(read, pairs(&[("code", "a b&c"), ("state", "✓")]));
    let callback = oauth_callback(text);
    assert_eq!(code_of(&callback), Some(("a b&c", "✓")));
}

#[test]
fn the_local_server_is_addressed_by_its_port() {
    assert_eq!(redirect_uri(8080), "http://localhost:8080/");
    assert_eq!(redirect_uri(0), "http://localhost:0/");
    assert_eq!(redirect_uri(u16::MAX), "http://localhost:65535/");
}

#[test]
fn the_sign_in_page_is_addressed_with_client_and_port() {
    assert_eq!(
        open_auth_url(Some("client-1".to_string()), 8082),
        Ok("https://accounts.google.com/o/oauth2/v2/auth?client_id=client-1&redirect_uri=http://localhost:8082/&response_type=code&scope=email profile openid https://mail.google.com/ https://www.googleapis.com/auth/calendar&access_type=offline&prompt=select_account".to_string())
    );
}

#[test]
fn without_a_client_identifier_no_page_is_opened() {
    assert_eq!(open_auth_url(None, 8080), Err(CLIENT_ID_MISSING.to_string()));
    assert_eq!(CLIENT_ID_MISSING, "GOOGLE_CLIENT_ID environment variable not set");
}

#[test]
fn the_token_request_has_five_fields() {
    let form = token_request(
        Some("id".to_string()),
        Some("secret".to_string()),
        "the-code".to_string(),
        8083,
    )
    .unwrap();
    assert_eq!(
        form,
        pairs(&[
            ("client_id", "id"),
            ("client_secret", "secret"),
            ("code", "the-code"),
            ("grant_type", "authorization_code"),
            ("redirect_uri", "http://localhost:8083/"),
        ])
    );
}

#[test]
fn the_token_request_needs_identifier_and_secret() {
    assert_eq!(
        token_request(None, Some("s".to_string()), "c".to_string(), 1),
        Err(CLIENT_ID_MISSING.to_string())
    );
    assert_eq!(token_request(None, None, "c".to_string(), 1), Err(CLIENT_ID_MISSING.to_string()));
    assert_eq!(
        token_request(Some("i".to_string()), None, "c".to_string(), 1),
        Err(CLIENT_SECRET_MISSING.to_string())
    );
    assert_eq!(CLIENT_SECRET_MISSING, "GOOGLE_CLIENT_SECRET environment variable not set");
}

fn tokens(success: bool, access: Option<&str>, refresh: Option<&str>) -> TokenReply {
    TokenReply {
        success,
        access_token: access.map(str::to_string),
        refresh_token: refresh.map(str::to_string),
    }
}

fn user(success: bool, id: Option<&str>, email: Option<&str>) -> UserInfoReply {
    UserInfoReply { success, id: id.map(str::to_string), email: email.map(str::to_string) }
}

#[test]
fn the_user_is_asked_for_with_the_access_token() {
    assert_eq!(access_token_of(&tokens(true, Some("at"), None)).map(String::as_str), Some("at"));
    assert_eq!(access_token_of(&tokens(false, Some("at"), None)), None);
    assert_eq!(access_token_of(&tokens(true, None, Some("rt"))), None);
}

#[test]
fn two_good_answers_sign_the_user_in() {
    let end = exchange_code_for_tokens(
        tokens(true, Some("at"), Some("rt")),
        user(true, Some("u-1"), Some("ana@example.com")),
    )
    .unwrap();
    assert_eq!(end.access_token, "at");
    assert_eq!(end.refresh_token.as_deref(), Some("rt"));
    assert!(end.response.success);
    assert_eq!(end.response.message, "Authentication successful");
    assert_eq!(end.response.message, AUTH_SUCCEEDED);
    let data = end.response.data.unwrap();
    assert_eq!(data.token, "at");
    assert_eq!(data.user_id, "u-1");
    assert_eq!(data.email, "ana@example.com");
}

#[test]
fn what_the_user_answer_lacks_is_left_empty() {
    let end = exchange_code_for_tokens(tokens(true, Some("at"), None), user(true, None, None))
        .unwrap();
    assert_eq!(end.refresh_token, None);
    let data = end.response.data.unwrap();
    assert_eq!(data.token, "at");
    assert_eq!(data.user_id, "");
    assert_eq!(data.email, "");
}

#[test]
fn a_bad_answer_fails_the_exchange() {
    let failed = |t: TokenReply, u: UserInfoReply| {
        assert_eq!(exchange_code_for_tokens(t, u).unwrap_err(), EXCHANGE_FAILED);
    };
    failed(tokens(false, Some("at"), None), user(true, Some("u"), Some("e")));
    failed(tokens(true, Some("at"), None), user(false, Some("u"), Some("e")));
    failed(tokens(true, None, Some("rt")), user(true, Some("u"), Some("e")));
    failed(tokens(false, None, None), user(false, None, None));
    assert_eq!(EXCHANGE_FAILED, "Failed to exchange code for tokens");
}

#[test]
fn someone_is_signed_in_while_a_token_is_kept() {
    assert!(get_auth_status(Some("at".to_string())));
    assert!(get_auth_status(Some(" ".to_string())));
    assert!(!get_auth_status(Some(String::new())));
    assert!(!get_auth_status(None));
}

#[test]
fn addresses_of_any_shape_are_read_without_harm() {
    let odd = [
        "http://localhost:8080/?",
        "http://localhost:8080/?&&&",
        "http://localhost:8080/?=",
        "http://localhost:8080/?code",
        "http://localhost:8080/?code=",
        "http://localhost:8080/?code=%",
        "http://localhost:8080/?code=%FF%zz",
        "http://localhost:8080/?%63ode=x",
        "http://[::1]:8080/?error=é",
        "http://localhost:99999/?code=x",
        "localhost:8080/?code=x",
        "mailto:me@example.com?code=x",
    ];
    for text in odd {
        let read: Option<Vec<(String, String)>> = url::Url::parse(text)
            .ok()
            .map(|url| url.query_pairs().into_owned().collect());
        let expected = oauth_callback_of(read);
        let found = oauth_callback(text);
        assert_eq!(code_of(&found), code_of(&expected), "{}", text);
        assert_eq!(error_of(&found), error_of(&expected), "{}", text);
    }
    assert_eq!(code_of(&oauth_callback("http://localhost:8080/?code")), Some(("", "")));
    assert_eq!(code_of(&oauth_callback("http://localhost:8080/?%63ode=x")), Some(("x", "")));
}
