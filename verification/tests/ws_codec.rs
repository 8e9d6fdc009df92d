use chilloutvr::api_client::ws::{decode_response_frame, decode_ws_message, encode_request_frame,
    encode_response_frame};
use chilloutvr::api_client::ApiError;
use chilloutvr::model::{decode_ws_data, WsResponseData};
use chilloutvr::query::{Online, RequestType, Requestable};

#[test]
fn request_frame_text() {
    assert_eq!(
        encode_request_frame(0, "{}"),
        "{\"requestType\":0,\"data\":{}}"
    );
    assert_eq!(
        encode_request_frame(10, "{\"id\":\"abc\"}"),
        "{\"requestType\":10,\"data\":{\"id\":\"abc\"}}"
    );
}

#[test]
fn request_frame_is_real_json() {
    // the frame our encoder writes is exactly what serde reads back
    let online = Online;
    let discriminant = online.request_type().discriminant();
    let frame = encode_request_frame(discriminant, "{\"x\":1}");
    let value: serde_json::Value = serde_json::from_str(&frame).expect("frame parses as JSON");
    assert_eq!(value.get("requestType").and_then(|v| v.as_u64()), Some(0));
    assert_eq!(
        value.get("data").and_then(|d| d.get("x")).and_then(|x| x.as_u64()),
        Some(1)
    );
}

#[test]
fn request_wrapper_frames_its_payload() {
    let message = chilloutvr::query::RequestWrapper {
        request_type: RequestType::InviteSend,
        data: "{\"id\":\"u-7\"}".to_string(),
    };
    assert_eq!(
        message.to_frame(),
        "{\"requestType\":10,\"data\":{\"id\":\"u-7\"}}"
    );
}

#[test]
fn response_frame_round_trip() {
    // encoding a frame and decoding it yields the same discriminant and
    // payload, for several discriminants and payload shapes
    let cases: Vec<(u64, &str)> = vec![
        (0, "{}"),
        (10, "[{\"id\":\"u1\",\"isOnline\":true}]"),
        (25, "{\"nested\":{\"deep\":[1,2,3]}}"),
        (9999, "\"just a string\""),
        (u64::MAX, "null"),
    ];
    for (discriminant, payload) in cases {
        let frame = encode_response_frame(discriminant, payload);
        let decoded = decode_response_frame(&frame).expect("round trip decodes");
        assert_eq!(decoded.0, discriminant);
        assert_eq!(decoded.1, payload);
    }
}

#[test]
fn malformed_frames_are_serialization_errors() {
    assert_eq!(decode_response_frame(""), Err(ApiError::Serde));
    assert_eq!(decode_response_frame("{}"), Err(ApiError::Serde));
    assert_eq!(
        decode_response_frame("{\"responseType\":,\"data\":{}}"),
        Err(ApiError::Serde)
    );
    assert_eq!(
        decode_response_frame("{\"responseType\":10}"),
        Err(ApiError::Serde)
    );
    assert_eq!(
        decode_response_frame("{\"responseType\":10,\"data\":}"),
        Err(ApiError::Serde)
    );
    // the payload text itself is not validated: a frame whose data text is
    // a lone brace still splits into discriminant and raw payload
    assert_eq!(
        decode_response_frame("{\"responseType\":10,\"data\":{}"),
        Ok((10, "{".to_string()))
    );
    // a discriminant too large for the wire's number type
    assert_eq!(
        decode_response_frame("{\"responseType\":18446744073709551616,\"data\":{}}"),
        Err(ApiError::Serde)
    );
}

#[test]
fn known_discriminants_decode_to_their_variants() {
    let cases: Vec<(u64, fn(String) -> WsResponseData)> = vec![
        (0, WsResponseData::MenuPopup),
        (1, WsResponseData::HudMessage),
        (2, WsResponseData::PushNotification),
        (10, WsResponseData::OnlineFriends),
        (15, WsResponseData::Invites),
        (20, WsResponseData::RequestInvites),
        (25, WsResponseData::FriendRequest),
    ];
    for (discriminant, make) in cases {
        let frame = encode_response_frame(discriminant, "{\"k\":3}");
        let message = decode_ws_message(&frame).expect("known discriminant decodes");
        assert_eq!(message, make("{\"k\":3}".to_string()));
        assert_eq!(message.discriminant(), discriminant);
        assert_eq!(message.payload(), "{\"k\":3}");
    }
}

#[test]
fn unregistered_discriminant_is_a_serialization_error() {
    // an inbound frame tagged 9999 is a decode error, not a panic and not a
    // silent drop
    let frame = encode_response_frame(9999, "{\"whatever\":true}");
    assert_eq!(decode_ws_message(&frame), Err(ApiError::Serde));
    assert_eq!(
        decode_ws_data(9999, "{\"whatever\":true}".to_string()),
        Err(ApiError::Serde)
    );
}

#[test]
fn request_discriminants_match_the_catalogue() {
    let pairs = vec![
        (RequestType::SelfOnline, 0),
        (RequestType::FriendRequestSend, 5),
        (RequestType::FriendRequestAccept, 6),
        (RequestType::FriendRequestDecline, 7),
        (RequestType::UnFriend, 8),
        (RequestType::InviteSend, 10),
        (RequestType::InviteExpire, 11),
        (RequestType::RequestInvite, 15),
        (RequestType::RequestInviteAccept, 16),
        (RequestType::RequestInviteDecline, 17),
        (RequestType::BlockUser, 30),
        (RequestType::UnBlockUser, 31),
        (RequestType::GlobalMessage, 100),
        (RequestType::UserMessage, 101),
        (RequestType::SystemGlobalAnnouncement, 110),
        (RequestType::SystemUserAnnouncement, 111),
    ];
    for (request_type, expected) in pairs {
        assert_eq!(request_type.discriminant(), expected);
    }
}
