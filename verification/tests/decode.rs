use pollbot::interaction::{decode_interaction, DecodeError, Interaction};
use pollbot::json::{json_to_bytes, obj_get, parse_json, JsonValue};
use pollbot::router::{dispatch, Dispatch};

fn parsed(body: &[u8]) -> JsonValue {
    parse_json(body).expect("well-formed JSON must parse")
}

#[test]
fn ping_decodes_before_other_fields() {
    let v = parsed(b"{\"type\":1}");
    let i = decode_interaction(&v).unwrap();
    assert!(matches!(i, Interaction::Ping));
}

#[test]
fn unknown_type_decodes_to_other() {
    let v = parsed(b"{\"type\":99,\"id\":\"5\",\"token\":\"t\"}");
    let i = decode_interaction(&v).unwrap();
    assert!(matches!(i, Interaction::Other));
}

#[test]
fn payload_without_type_is_rejected() {
    let v = parsed(b"{\"id\":\"5\"}");
    assert_eq!(decode_interaction(&v).unwrap_err(), DecodeError::MissingType);
}

#[test]
fn command_decodes_name_and_subcommand_tree() {
    let v = parsed(
        b"{\"type\":2,\"id\":\"42\",\"token\":\"tok\",\"data\":{\"name\":\"poll\",\
          \"options\":[{\"name\":\"start\",\"type\":1,\"options\":[\
          {\"name\":\"topic\",\"type\":3,\"value\":\"Pizza?\"}]}]}}",
    );
    let i = decode_interaction(&v).unwrap();
    match &i {
        Interaction::Command { id, token, data } => {
            assert_eq!(*id, 42);
            assert_eq!(token, "tok");
            assert_eq!(data.name, "poll");
            assert_eq!(data.options.len(), 1);
            assert_eq!(data.options[0].name, "start");
        },
        other => panic!("not a command: {:?}", other),
    }
    match dispatch(&i) {
        Dispatch::StartPoll { interaction_id, token, topic } => {
            assert_eq!(interaction_id, 42);
            assert_eq!(token, "tok");
            assert_eq!(topic, "Pizza?");
        },
        other => panic!("not a poll start: {:?}", other),
    }
}

#[test]
fn command_missing_token_is_rejected() {
    let v = parsed(b"{\"type\":2,\"id\":\"42\",\"data\":{\"name\":\"poll\"}}");
    assert_eq!(decode_interaction(&v).unwrap_err(), DecodeError::MissingToken);
}

#[test]
fn command_bad_id_is_rejected() {
    let v = parsed(b"{\"type\":2,\"id\":\"4x2\",\"token\":\"t\",\"data\":{\"name\":\"a\"}}");
    assert_eq!(decode_interaction(&v).unwrap_err(), DecodeError::BadId);
    let v = parsed(b"{\"type\":2,\"token\":\"t\",\"data\":{\"name\":\"a\"}}");
    assert_eq!(decode_interaction(&v).unwrap_err(), DecodeError::BadId);
}

#[test]
fn command_missing_data_or_name_is_rejected() {
    let v = parsed(b"{\"type\":2,\"id\":\"1\",\"token\":\"t\"}");
    assert_eq!(decode_interaction(&v).unwrap_err(), DecodeError::MissingData);
    let v = parsed(b"{\"type\":2,\"id\":\"1\",\"token\":\"t\",\"data\":{}}");
    assert_eq!(decode_interaction(&v).unwrap_err(), DecodeError::MissingName);
}

#[test]
fn component_press_carries_message_id() {
    let v = parsed(
        b"{\"type\":3,\"id\":\"9\",\"token\":\"t\",\"data\":{\"custom_id\":\"id-here:yes\"},\
          \"message\":{\"id\":\"777\"}}",
    );
    let i = decode_interaction(&v).unwrap();
    match dispatch(&i) {
        Dispatch::Press { custom_id, message_id } => {
            assert_eq!(custom_id, "id-here:yes");
            assert_eq!(message_id, 777);
        },
        other => panic!("not a press: {:?}", other),
    }
}

#[test]
fn component_without_message_is_flagged() {
    let v = parsed(b"{\"type\":3,\"id\":\"9\",\"token\":\"t\",\"data\":{\"custom_id\":\"x\"}}");
    let i = decode_interaction(&v).unwrap();
    assert!(matches!(dispatch(&i), Dispatch::MissingMessage));
}

#[test]
fn component_missing_custom_id_is_rejected() {
    let v = parsed(b"{\"type\":3,\"id\":\"9\",\"token\":\"t\",\"data\":{}}");
    assert_eq!(decode_interaction(&v).unwrap_err(), DecodeError::MissingCustomId);
}

#[test]
fn truncated_json_does_not_parse() {
    assert!(parse_json(b"{\"type\":1").is_none());
    assert!(parse_json(b"").is_none());
}

#[test]
fn decoding_twice_gives_equal_interactions() {
    let body: &[u8] = b"{\"type\":2,\"id\":\"42\",\"token\":\"tok\",\"data\":{\"name\":\"poll\",\
          \"options\":[{\"name\":\"start\",\"type\":1,\"options\":[\
          {\"name\":\"topic\",\"type\":3,\"value\":\"Pizza?\"}]}]}}";
    let a = decode_interaction(&parse_json(body).unwrap()).unwrap();
    let b = decode_interaction(&parse_json(body).unwrap()).unwrap();
    assert_eq!(format!("{:?}", a), format!("{:?}", b));
}

#[test]
fn json_round_trip_through_encoder() {
    let body: &[u8] = b"{\"b\":true,\"n\":-5,\"s\":\"hi\",\"v\":[1,null]}";
    let v = parsed(body);
    let encoded = json_to_bytes(&v);
    let again = parsed(&encoded);
    assert_eq!(format!("{:?}", v), format!("{:?}", again));
    assert!(matches!(obj_get(&v, "s"), Some(JsonValue::Str(s)) if s == "hi"));
    assert!(obj_get(&v, "missing").is_none());
}
