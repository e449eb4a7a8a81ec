use async_wsocket::wasm::stream::io::{convert_err, convert_res_tuple, received, IoErrorKind};
use async_wsocket::wasm::{Error, EventData, WsMessage};
use async_wsocket::{CloseFrame, Message};

#[test]
fn len_counts_bytes() {
    assert_eq!(WsMessage::Text(String::new()).len(), 0);
    assert_eq!(WsMessage::Text("hello".to_string()).len(), 5);
    assert_eq!(WsMessage::Text("h\u{e9}llo \u{20ac}".to_string()).len(), 10);
    assert_eq!(WsMessage::Binary(vec![]).len(), 0);
    assert_eq!(WsMessage::Binary(vec![0, 159, 146, 150]).len(), 4);
}

#[test]
fn is_empty_only_without_content() {
    assert!(WsMessage::Text(String::new()).is_empty());
    assert!(WsMessage::Binary(Vec::new()).is_empty());
    assert!(!WsMessage::Text(" ".to_string()).is_empty());
    assert!(!WsMessage::Binary(vec![0]).is_empty());
}

#[test]
fn into_data_gives_utf8_of_text() {
    assert_eq!(WsMessage::Text("abc".to_string()).into_data(), vec![97, 98, 99]);
    assert_eq!(
        WsMessage::Text("\u{20ac}".to_string()).into_data(),
        vec![0xe2, 0x82, 0xac]
    );
    assert_eq!(WsMessage::Text(String::new()).into_data(), Vec::<u8>::new());
}

#[test]
fn into_data_gives_binary_unchanged() {
    let data = vec![0u8, 255, 1, 254, 128];
    assert_eq!(WsMessage::Binary(data.clone()).into_data(), data);
}

#[test]
fn as_bytes_agrees_with_into_data() {
    let text = WsMessage::Text("gr\u{fc}n".to_string());
    assert_eq!(text.as_bytes(), "gr\u{fc}n".as_bytes());
    assert_eq!(text.as_bytes().to_vec(), text.clone().into_data());
    let binary = WsMessage::Binary(vec![9, 8, 7]);
    assert_eq!(binary.as_bytes(), &[9, 8, 7]);
}

#[test]
fn to_text_of_text() {
    assert_eq!(WsMessage::Text("hello".to_string()).to_text(), Ok("hello"));
}

#[test]
fn to_text_of_utf8_binary() {
    assert_eq!(WsMessage::Binary(vec![104, 105]).to_text(), Ok("hi"));
    assert_eq!(
        WsMessage::Binary(vec![0xf0, 0x9f, 0x92, 0x96]).to_text(),
        Ok("\u{1f496}")
    );
    assert_eq!(WsMessage::Binary(vec![]).to_text(), Ok(""));
}

#[test]
fn to_text_of_binary_that_is_no_utf8() {
    for data in [vec![0xffu8], vec![0xc3], vec![0, 159, 146, 150], vec![0xed, 0xa0, 0x80]] {
        assert!(matches!(WsMessage::Binary(data).to_text(), Err(Error::Utf8(_))));
    }
}

#[test]
fn to_string_shows_text_or_length() {
    assert_eq!(WsMessage::Text("hello".to_string()).to_string(), "hello");
    assert_eq!(WsMessage::Binary(vec![104, 105]).to_string(), "hi");
    assert_eq!(
        WsMessage::Binary(vec![0, 159, 146, 150]).to_string(),
        "Binary Data<length=4>"
    );
    assert_eq!(WsMessage::Binary(vec![0xff; 120]).to_string(), "Binary Data<length=120>");
}

#[test]
fn messages_from_plain_values() {
    assert_eq!(WsMessage::from(vec![1u8, 2, 3]), WsMessage::Binary(vec![1, 2, 3]));
    assert_eq!(
        WsMessage::from("text".to_string()),
        WsMessage::Text("text".to_string())
    );
}

#[test]
fn array_buffer_event_decodes_to_binary_with_the_same_bytes() {
    let bytes: Vec<u8> = (0u8..=255).collect();
    assert_eq!(
        WsMessage::try_from(EventData::ArrayBuffer(bytes.clone())),
        Ok(WsMessage::Binary(bytes))
    );
    assert_eq!(
        WsMessage::try_from(EventData::ArrayBuffer(vec![])),
        Ok(WsMessage::Binary(vec![]))
    );
}

#[test]
fn string_event_decodes_to_text() {
    assert_eq!(
        WsMessage::try_from(EventData::Text(Some("ping".to_string()))),
        Ok(WsMessage::Text("ping".to_string()))
    );
}

#[test]
fn malformed_string_event_is_refused() {
    assert_eq!(WsMessage::try_from(EventData::Text(None)), Err(Error::InvalidEncoding));
}

#[test]
fn blob_event_is_refused_and_gives_no_data() {
    assert_eq!(WsMessage::try_from(EventData::Blob), Err(Error::CantDecodeBlob));
}

#[test]
fn unknown_event_is_refused() {
    assert_eq!(WsMessage::try_from(EventData::Other), Err(Error::UnknownDataType));
}

#[test]
fn closed_connection_is_reported_as_not_connected() {
    assert_eq!(convert_err(Error::ConnectionNotOpen), IoErrorKind::NotConnected);
    assert_eq!(
        convert_res_tuple(Err(Error::ConnectionNotOpen)),
        Err(IoErrorKind::NotConnected)
    );
}

#[test]
fn other_errors_are_reported_as_other() {
    for err in [
        Error::InvalidEncoding,
        Error::CantDecodeBlob,
        Error::UnknownDataType,
        Error::Timeout,
    ] {
        assert_eq!(convert_err(err), IoErrorKind::Other);
    }
    assert_eq!(convert_res_tuple(Err(Error::Timeout)), Err(IoErrorKind::Other));
}

#[test]
fn success_converts_to_success() {
    assert_eq!(convert_res_tuple(Ok(())), Ok(()));
}

#[test]
fn received_message_is_handed_on_as_bytes() {
    assert_eq!(received(Ok(WsMessage::Text("ab".to_string()))), Ok(vec![97, 98]));
    assert_eq!(received(Ok(WsMessage::Binary(vec![1, 2]))), Ok(vec![1, 2]));
    assert_eq!(received(Err(Error::ConnectionNotOpen)), Err(Error::ConnectionNotOpen));
}

#[test]
fn ping_and_pong_carry_the_same_nonce_bytes() {
    let nonce: u64 = 123456789;
    let payload = nonce.to_be_bytes().to_vec();
    assert_eq!(payload, vec![0, 0, 0, 0, 7, 91, 205, 21]);
    let ping = Message::Ping(payload.clone());
    let pong = Message::Pong(payload.clone());
    assert_ne!(ping, pong);
    match (ping, pong) {
        (Message::Ping(sent), Message::Pong(got)) => assert_eq!(sent, got),
        _ => unreachable!(),
    }
}

#[test]
fn close_message_carries_code_and_reason() {
    let frame = CloseFrame {
        code: 1000,
        reason: "bye".to_string(),
    };
    let msg = Message::Close(Some(frame.clone()));
    assert_eq!(msg, Message::Close(Some(frame)));
    assert_ne!(msg, Message::Close(None));
    assert_eq!(msg.clone(), msg);
}

#[test]
fn text_and_binary_messages_differ() {
    assert_ne!(Message::Text("a".to_string()), Message::Binary(vec![97]));
    assert_eq!(Message::Text("a".to_string()), Message::Text("a".to_string()));
}
