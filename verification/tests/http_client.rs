use chilloutvr::api_client::{interpret_response, unwrap_wrapped, ApiConfiguration, ApiError};
use chilloutvr::query::users::{AuthType, LoginCredentials, SavedLoginCredentials};
use chilloutvr::query::{NoAuthentication, Queryable, RequestMethod, Search, UserDetails,
    WorldListQuery};

#[test]
fn success_with_envelope_yields_the_data() {
    // an unauthenticated query against a server answering 200 with an
    // envelope yields the enveloped record
    let body = "{\"message\":\"\",\"data\":{\"id\":\"abc\"}}";
    let result = interpret_response(200, body, true);
    assert_eq!(result, Ok("{\"id\":\"abc\"}".to_string()));
}

#[test]
fn too_many_requests_is_a_transport_error() {
    let body = "{\"message\":\"\",\"data\":{\"id\":\"abc\"}}";
    assert_eq!(interpret_response(429, body, true), Err(ApiError::Http));
    assert_eq!(interpret_response(429, body, false), Err(ApiError::Http));
    assert_eq!(interpret_response(500, "", true), Err(ApiError::Http));
    assert_eq!(interpret_response(301, "{}", false), Err(ApiError::Http));
}

#[test]
fn wrapped_and_bare_forms_agree() {
    // the enveloped form with a null message and the bare form of the same
    // record decode to the same payload, one under wrapped_response = true,
    // the other under false
    let bare = "{\"name\":\"cvr\",\"count\":3}";
    let enveloped = "{\"message\": null, \"data\": {\"name\":\"cvr\",\"count\":3}}";
    let from_envelope = interpret_response(200, enveloped, true);
    let from_bare = interpret_response(200, bare, false);
    assert_eq!(from_envelope, Ok(bare.to_string()));
    assert_eq!(from_envelope, from_bare);
}

#[test]
fn envelope_message_may_be_absent_or_a_string() {
    assert_eq!(unwrap_wrapped("{\"data\":[1,2]}"), Ok("[1,2]".to_string()));
    assert_eq!(
        unwrap_wrapped("{\"message\":\"all good\",\"data\":[1,2]}"),
        Ok("[1,2]".to_string())
    );
    assert_eq!(
        unwrap_wrapped("{\"message\":\"quoted \\\" comma, inside\",\"data\":7}"),
        Ok("7".to_string())
    );
}

#[test]
fn malformed_envelopes_are_serialization_errors() {
    assert_eq!(unwrap_wrapped(""), Err(ApiError::Serde));
    assert_eq!(unwrap_wrapped("[1,2]"), Err(ApiError::Serde));
    assert_eq!(unwrap_wrapped("{\"message\":null}"), Err(ApiError::Serde));
    assert_eq!(unwrap_wrapped("{\"data\":}"), Err(ApiError::Serde));
    assert_eq!(unwrap_wrapped("{\"data\":1"), Err(ApiError::Serde));
    assert_eq!(interpret_response(200, "not json", true), Err(ApiError::Serde));
}

#[test]
fn configuration_headers() {
    let config = ApiConfiguration::new("my-agent/1.0".to_string());
    assert_eq!(config.user_agent, "my-agent/1.0");
    assert!(!config.mature_content_enabled);
    assert_eq!(config.platform, "pc_standalone");
    assert_eq!(config.compatible_versions, "0,1,2");
    let headers = config.to_headers();
    assert_eq!(
        headers,
        vec![
            ("User-Agent".to_string(), "my-agent/1.0".to_string()),
            ("MatureContentDlc".to_string(), "false".to_string()),
            ("Platform".to_string(), "pc_standalone".to_string()),
            ("CompatibleVersions".to_string(), "0,1,2".to_string()),
        ]
    );
}

#[test]
fn credential_headers() {
    let auth = SavedLoginCredentials {
        username: "user".to_string(),
        access_key: "key-123".to_string(),
    };
    assert_eq!(
        auth.to_headers(),
        vec![
            ("Username".to_string(), "user".to_string()),
            ("AccessKey".to_string(), "key-123".to_string()),
        ]
    );
}

#[test]
fn query_urls() {
    let state = NoAuthentication {};
    let user_query = UserDetails { user_id: chilloutvr::id::User::new("u-1".to_string()) };
    assert_eq!(
        user_query.url(&state),
        "https://api.abinteractive.net/1/users/u-1"
    );
    assert!(matches!(user_query.method(&state), RequestMethod::Get));
    assert!(user_query.body(&state).is_none());
    assert!(user_query.wrapped_response());

    let worlds = WorldListQuery { category: chilloutvr::id::Category::new("wrldactive".to_string()) };
    assert_eq!(
        worlds.url(&state),
        "https://api.abinteractive.net/1/worlds/list/wrldactive"
    );

    let auth_state = SavedLoginCredentials {
        username: "user".to_string(),
        access_key: "key".to_string(),
    };
    let search = Search { term: "club".to_string() };
    assert_eq!(
        search.url(&auth_state),
        "https://api.abinteractive.net/1/search/club"
    );
}

#[test]
fn method_names() {
    assert_eq!(RequestMethod::Head.name(), "HEAD");
    assert_eq!(RequestMethod::Get.name(), "GET");
    assert_eq!(RequestMethod::Post.name(), "POST");
    assert_eq!(RequestMethod::Put.name(), "PUT");
    assert_eq!(RequestMethod::Patch.name(), "PATCH");
    assert_eq!(RequestMethod::Delete.name(), "DELETE");
}

#[test]
fn request_plans_resolve_the_query() {
    let state = NoAuthentication {};
    let query = UserDetails { user_id: chilloutvr::id::User::new("u-9".to_string()) };
    let plan = chilloutvr::api_client::plan_request(&query, &state);
    assert_eq!(plan.url, "https://api.abinteractive.net/1/users/u-9");
    assert!(matches!(plan.method, RequestMethod::Get));
    assert!(plan.body.is_none());
    assert!(plan.wrapped_response);

    let login = AuthType::from_credentials(SavedLoginCredentials {
        username: "user".to_string(),
        access_key: "key".to_string(),
    });
    let login_plan = chilloutvr::api_client::plan_request(&login, &state);
    assert_eq!(login_plan.url, "https://api.abinteractive.net/1/users/auth");
    assert!(matches!(login_plan.method, RequestMethod::Post));
    assert!(login_plan.body.is_some());
}

#[test]
fn login_body_is_exact_json() {
    let state = NoAuthentication {};
    let auth = AuthType::from_profile(LoginCredentials {
        email: "someone@example.com".to_string(),
        password: "p\"w,d".to_string(),
    });
    assert_eq!(
        auth.url(&state),
        "https://api.abinteractive.net/1/users/auth"
    );
    assert!(matches!(auth.method(&state), RequestMethod::Post));
    let body = auth.body(&state).expect("login carries a body");
    assert_eq!(
        body,
        "{\"auth_type\":\"loginProfile\",\"username\":\"someone@example.com\",\"password\":\"p\\\"w,d\"}"
    );
    // the body is real JSON with the password intact
    let value: serde_json::Value = serde_json::from_str(&body).expect("body parses");
    assert_eq!(
        value.get("password").and_then(|p| p.as_str()),
        Some("p\"w,d")
    );

    let saved = AuthType::from_credentials(SavedLoginCredentials {
        username: "user".to_string(),
        access_key: "key".to_string(),
    });
    let saved_body = saved.body(&state).expect("login carries a body");
    assert_eq!(
        saved_body,
        "{\"auth_type\":\"loginCredentials\",\"username\":\"user\",\"password\":\"key\"}"
    );
}

#[test]
fn redaction_never_prints_secrets() {
    let login = LoginCredentials {
        email: "someone@example.com".to_string(),
        password: "super-secret".to_string(),
    };
    let shown = login.redacted();
    assert_eq!(
        shown,
        "LoginCredentials { email: \"someone@example.com\", password: \"*****\" }"
    );
    assert!(!shown.contains("super-secret"));

    let saved = SavedLoginCredentials {
        username: "user".to_string(),
        access_key: "token-abcdef".to_string(),
    };
    let shown_saved = saved.redacted();
    assert_eq!(
        shown_saved,
        "SavedLoginCredentials { username: \"user\", token: \"*****\" }"
    );
    assert!(!shown_saved.contains("token-abcdef"));
}
