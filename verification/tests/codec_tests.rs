use splitwise_sync::codec::Action;
use splitwise_sync::codec::CodecError;
use splitwise_sync::codec::decode_token;
use splitwise_sync::codec::encode_token;

#[test]
fn encode_accept_token() {
    assert_eq!(encode_token(Action::Accept, "tx-42"), "accept:tx-42");
}

#[test]
fn encode_ignore_token() {
    assert_eq!(encode_token(Action::Ignore, "tx-42"), "ignore:tx-42");
}

#[test]
fn decode_accept_round_trip() {
    let token = encode_token(Action::Accept, "tx-42");
    let (action, id) = decode_token(&token).unwrap();
    assert_eq!(action, Action::Accept);
    assert_eq!(id, "tx-42");
}

#[test]
fn decode_ignore_round_trip() {
    let token = encode_token(Action::Ignore, "some-id-123");
    let (action, id) = decode_token(&token).unwrap();
    assert_eq!(action, Action::Ignore);
    assert_eq!(id, "some-id-123");
}

#[test]
fn decode_without_delimiter_fails() {
    assert_eq!(decode_token("acceptx42"), Err(CodecError::NoDelimiter));
}

#[test]
fn decode_empty_action_fails() {
    assert_eq!(decode_token(":tx-42"), Err(CodecError::EmptyField));
}

#[test]
fn decode_empty_id_fails() {
    assert_eq!(decode_token("accept:"), Err(CodecError::EmptyField));
}

#[test]
fn decode_id_with_delimiter_fails() {
    let token = encode_token(Action::Accept, "tx:42");
    assert_eq!(decode_token(&token), Err(CodecError::DelimiterInId));
}

#[test]
fn decode_unknown_action_fails() {
    assert_eq!(decode_token("reject:tx-42"), Err(CodecError::UnknownAction));
}
