use chilloutvr::api_client::ws::{Client, SendOutcome};
use chilloutvr::api_client::{ApiConfiguration, ApiError, AuthenticatedCVR, UnauthenticatedCVR,
    WsDirective};
use chilloutvr::model::assets::AssetTag;
use chilloutvr::model::users::UserAuth;
use chilloutvr::model::ApiAuth;
use chilloutvr::query::users::SavedLoginCredentials;

fn credentials() -> SavedLoginCredentials {
    SavedLoginCredentials {
        username: "user".to_string(),
        access_key: "key-123".to_string(),
    }
}

#[test]
fn liveness_check_is_idempotent() {
    // two liveness checks with no operation between them agree
    let session = Client::new(4);
    assert_eq!(session.is_live(), session.is_live());
    let mut dying = Client::new(4);
    dying.close();
    assert_eq!(dying.is_live(), dying.is_live());
    assert!(!dying.is_live());
}

#[test]
fn outbound_queue_keeps_order_and_bound() {
    let mut session = Client::new(2);
    assert_eq!(session.send("first".to_string()), Ok(SendOutcome::Enqueued));
    assert_eq!(session.send("second".to_string()), Ok(SendOutcome::Enqueued));
    // the bound is real: a full queue asks the caller to wait
    assert_eq!(session.send("third".to_string()), Ok(SendOutcome::Full));
    // frames leave in the order they were accepted
    assert_eq!(session.next_outbound(), Some("first".to_string()));
    assert_eq!(session.send("third".to_string()), Ok(SendOutcome::Enqueued));
    assert_eq!(session.next_outbound(), Some("second".to_string()));
    assert_eq!(session.next_outbound(), Some("third".to_string()));
    assert_eq!(session.next_outbound(), None);
}

#[test]
fn dead_session_refuses_frames() {
    let mut session = Client::new(2);
    session.close();
    assert_eq!(session.send("frame".to_string()), Err(ApiError::WebSocket));
}

#[test]
fn first_use_needs_one_handshake_then_reuses() {
    let config = ApiConfiguration::new("agent".to_string());
    let mut client = AuthenticatedCVR::new(config, credentials());
    assert!(!client.ws_is_connected());
    let mut handshakes = 0;

    // two sends in a row: only the first finds no live session
    for frame in ["one", "two"] {
        if client.ws_directive() == WsDirective::NeedHandshake {
            handshakes += 1;
            client.ws_install(Client::new(8));
        }
        assert_eq!(
            client.ws_send(frame.to_string()),
            Ok(SendOutcome::Enqueued)
        );
    }
    assert_eq!(handshakes, 1);
    assert!(client.ws_is_connected());

    // a dead session is found by the liveness re-check and replaced
    if let Some(session) = &mut client.ws {
        session.close();
    }
    assert_eq!(client.ws_directive(), WsDirective::NeedHandshake);
    client.ws_install(Client::new(8));
    assert_eq!(client.ws_directive(), WsDirective::UseSession);

    client.ws_disconnect();
    assert!(!client.ws_is_connected());
    assert_eq!(client.ws_send("three".to_string()), Err(ApiError::WebSocket));
}

#[test]
fn handshake_request_carries_all_headers() {
    let config = ApiConfiguration::new("agent/2".to_string());
    let client = AuthenticatedCVR::new(config, credentials());
    let handshake = client.ws_handshake_request();
    assert_eq!(handshake.url, "wss://api.abinteractive.net/1/users/ws");
    assert_eq!(
        handshake.headers,
        vec![
            ("User-Agent".to_string(), "agent/2".to_string()),
            ("MatureContentDlc".to_string(), "false".to_string()),
            ("Platform".to_string(), "pc_standalone".to_string()),
            ("CompatibleVersions".to_string(), "0,1,2".to_string()),
            ("Username".to_string(), "user".to_string()),
            ("AccessKey".to_string(), "key-123".to_string()),
        ]
    );
}

#[test]
fn upgrade_then_downgrade_restores_the_facade() {
    let config = ApiConfiguration::new("agent".to_string());
    let mut fresh = UnauthenticatedCVR::new(config);
    // spend part of the request budget so the carried state is distinctive
    assert!(fresh.http_rate_limiter.try_acquire(100));
    assert!(fresh.http_rate_limiter.try_acquire(200));
    let saved_limiter = (
        fresh.http_rate_limiter.period,
        fresh.http_rate_limiter.capacity,
        fresh.http_rate_limiter.available,
        fresh.http_rate_limiter.last,
    );
    let saved_agent = fresh.config.user_agent.clone();

    let upgraded = fresh.upgrade(credentials());
    // the upgraded facade starts with no WebSocket session
    assert!(upgraded.ws.is_none());
    let downgraded = upgraded.downgrade();

    // the round trip hands back the facade it started from: same
    // configuration, same rate limiter state, and nothing that could
    // silently reconnect a session
    assert_eq!(downgraded.config.user_agent, saved_agent);
    assert_eq!(downgraded.config.platform, "pc_standalone");
    assert_eq!(
        (
            downgraded.http_rate_limiter.period,
            downgraded.http_rate_limiter.capacity,
            downgraded.http_rate_limiter.available,
            downgraded.http_rate_limiter.last,
        ),
        saved_limiter
    );
}

#[test]
fn downgrade_drops_the_session() {
    let config = ApiConfiguration::new("agent".to_string());
    let mut client = AuthenticatedCVR::new(config, credentials());
    client.ws_install(Client::new(8));
    assert!(client.ws_is_connected());
    let downgraded = client.downgrade();
    // an unauthenticated facade has no session slot at all; upgrading again
    // starts from an empty one
    let upgraded_again = downgraded.upgrade(credentials());
    assert!(upgraded_again.ws.is_none());
}

#[test]
fn user_auth_redaction_hides_the_key() {
    let auth = UserAuth {
        username: "user".to_string(),
        access_key: "very-secret-key".to_string(),
        user_id: chilloutvr::id::User::new("u-1".to_string()),
        current_avatar: chilloutvr::id::Asset::new("a-1".to_string()),
        current_home_world: chilloutvr::id::Asset::new("w-1".to_string()),
        video_url_resolver_executable: "https://example.com/exe".to_string(),
        video_url_resolver_hashes: "https://example.com/hashes".to_string(),
        blocked_users: vec!["bad".to_string(), "worse".to_string()],
    };
    let shown = auth.redacted();
    assert_eq!(
        shown,
        "UserAuth { username: \"user\", access_key: \"*****\", user_id: \"u-1\", \
         current_avatar: \"a-1\", current_home_world: \"w-1\", \
         video_url_resolver_executable: \"https://example.com/exe\", \
         video_url_resolver_hashes: \"https://example.com/hashes\", \
         blocked_users: [\"bad\", \"worse\"] }"
    );
    assert!(!shown.contains("very-secret-key"));

    let api_auth = ApiAuth::from(auth);
    assert_eq!(api_auth.username, "user");
    assert_eq!(api_auth.access_key, "very-secret-key");
    let shown_api = api_auth.redacted();
    assert_eq!(
        shown_api,
        "ApiAuth { username: \"user\", access_key: \"*****\" }"
    );
    assert!(!shown_api.contains("very-secret-key"));
}

#[test]
fn asset_tags_parse_known_names_and_keep_others() {
    assert_eq!(AssetTag::from("Gore".to_string()), AssetTag::Gore);
    assert_eq!(AssetTag::from("LoudAudio".to_string()), AssetTag::LoudAudio);
    assert_eq!(
        AssetTag::from("ExtremelySmall".to_string()),
        AssetTag::ExtremelySmall
    );
    assert_eq!(
        AssetTag::from("brand-new-tag".to_string()),
        AssetTag::Other("brand-new-tag".to_string())
    );
    // tag names are case-sensitive
    assert_eq!(
        AssetTag::from("gore".to_string()),
        AssetTag::Other("gore".to_string())
    );
}

#[test]
fn any_id_keeps_its_text() {
    let user = chilloutvr::id::User::new("81c652f6".to_string());
    assert_eq!(user.as_ref(), "81c652f6");
    let any = user.into_any();
    assert_eq!(any.as_ref(), "81c652f6");
    let asset = chilloutvr::model::id::Asset::new("a-9".to_string());
    assert_eq!(asset.as_ref(), "a-9");
    assert_eq!(asset.into_any().as_ref(), "a-9");
}
