use pollbot::handler::{handle_interaction, press_log_line, HandlerOutcome};
use pollbot::json::json_to_bytes;
use pollbot::poll::{
    build_poll_message, make_custom_id, make_interaction_url, placeholder_poll_id, ButtonStyle,
};

#[test]
fn custom_id_is_colon_delimited() {
    assert_eq!(make_custom_id("id-here", "yes"), "id-here:yes");
    assert_eq!(make_custom_id("p1", "no"), "p1:no");
}

#[test]
fn poll_message_has_topic_and_two_buttons() {
    let m = build_poll_message("id-here", "Pizza?");
    assert_eq!(m.content, "Pizza?");
    assert_eq!(m.buttons.len(), 2);
    assert_eq!(m.buttons[0].custom_id, "id-here:yes");
    assert_eq!(m.buttons[0].emoji, "\u{1f44d}");
    assert!(matches!(m.buttons[0].style, ButtonStyle::Success));
    assert_eq!(m.buttons[1].custom_id, "id-here:no");
    assert_eq!(m.buttons[1].emoji, "\u{1f44e}");
    assert!(matches!(m.buttons[1].style, ButtonStyle::Danger));
}

#[test]
fn callback_url_is_derived_from_id_and_token() {
    assert_eq!(
        make_interaction_url(123, &"tok".to_string()),
        "https://discord.com/api/v10/interactions/123/tok/callback"
    );
    assert_eq!(
        make_interaction_url(0, &"".to_string()),
        "https://discord.com/api/v10/interactions/0//callback"
    );
}

#[test]
fn press_log_line_exact() {
    assert_eq!(
        press_log_line("id-here:yes", 777),
        "button id-here:yes pressed on message 777"
    );
}

#[test]
fn placeholder_poll_id_is_fixed() {
    assert_eq!(placeholder_poll_id(), "id-here");
}

fn signed_request(body: &[u8], ts: &str) -> (String, Vec<u8>) {
    let secret = ed25519_dalek::SecretKey::from_bytes(&[9u8; 32]).unwrap();
    let public = ed25519_dalek::PublicKey::from(&secret);
    let expanded = ed25519_dalek::ExpandedSecretKey::from(&secret);
    let mut msg = ts.as_bytes().to_vec();
    msg.extend_from_slice(body);
    let sig = expanded.sign(&msg, &public);
    (hex::encode(sig.to_bytes().to_vec()), public.to_bytes().to_vec())
}

#[test]
fn poll_start_replies_with_topic_and_posts_once() {
    let body: &[u8] = b"{\"type\":2,\"id\":\"123\",\"token\":\"tok\",\
        \"data\":{\"name\":\"poll\",\"options\":[{\"name\":\"start\",\"type\":1,\
        \"options\":[{\"name\":\"topic\",\"type\":3,\"value\":\"Pizza?\"}]}]}}";
    let ts = "1700000000";
    let (sig, key) = signed_request(body, ts);
    let outcome = handle_interaction(Some(ts), Some(&sig), body, &key);
    let (url, payload) = match &outcome {
        HandlerOutcome::Done { outbound, press } => {
            assert!(press.is_none());
            let c = outbound.as_ref().expect("exactly one outbound call");
            (c.url.clone(), json_to_bytes(&c.payload))
        },
        other => panic!("not handled: {:?}", other),
    };
    assert_eq!(url, "https://discord.com/api/v10/interactions/123/tok/callback");

    let doc: serde_json::Value = serde_json::from_slice(&payload).unwrap();
    assert_eq!(doc["type"], serde_json::Value::Number(4.into()));
    let data = &doc["data"];
    assert_eq!(data["content"].as_str(), Some("Pizza?"));
    let rows = data["components"].as_array().unwrap();
    assert_eq!(rows.len(), 1);
    let buttons = rows[0]["components"].as_array().unwrap();
    assert_eq!(buttons.len(), 2);
    let first_id = buttons[0]["custom_id"].as_str().unwrap();
    let second_id = buttons[1]["custom_id"].as_str().unwrap();
    assert!(first_id.ends_with(":yes"));
    assert!(second_id.ends_with(":no"));
    assert_eq!(buttons[0]["style"].as_i64(), Some(3));
    assert_eq!(buttons[1]["style"].as_i64(), Some(4));
    assert_eq!(buttons[0]["emoji"]["name"].as_str(), Some("\u{1f44d}"));
    assert_eq!(buttons[1]["emoji"]["name"].as_str(), Some("\u{1f44e}"));
}

#[test]
fn poll_start_without_topic_is_a_noop() {
    let body: &[u8] = b"{\"type\":2,\"id\":\"123\",\"token\":\"tok\",\
        \"data\":{\"name\":\"poll\",\"options\":[{\"name\":\"start\",\"type\":1,\
        \"options\":[]}]}}";
    let ts = "1700000000";
    let (sig, key) = signed_request(body, ts);
    let outcome = handle_interaction(Some(ts), Some(&sig), body, &key);
    match &outcome {
        HandlerOutcome::Done { outbound, press } => {
            assert!(outbound.is_none());
            assert!(press.is_none());
        },
        other => panic!("not a no-op: {:?}", other),
    }
}
