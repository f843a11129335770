use rustyfix::asn1::{
    Asn1Field, Asn1FixMessage, Asn1String, Field, FixFieldValue, FixMessage, Message,
    MessageGroup, MessageBuffer,
};
use rustyfix::tagvalue::{DecodeError, Decoder, FrameError, InvalidReason};
use rustyfix::{Dictionary, FieldValueError, FixDatatype, InvalidInt, RepeatingGroup};

/// A dictionary with two types of message and a few fields.
fn dictionary() -> Dictionary {
    let mut dict = Dictionary::new("FIX.4.4".to_string());
    dict.add_field(35, "MsgType".to_string(), FixDatatype::String);
    dict.add_field(44, "Price".to_string(), FixDatatype::Price);
    dict.add_field(54, "Side".to_string(), FixDatatype::Char);
    dict.add_field(55, "Symbol".to_string(), FixDatatype::String);
    dict.add_message("D".to_string(), "NewOrderSingle".to_string(), Vec::new());
    dict.add_message("8".to_string(), "ExecutionReport".to_string(), Vec::new());
    dict
}

fn text(value: &str) -> FixFieldValue {
    FixFieldValue::String(value.to_string())
}

#[test]
fn test_message_creation() {
    let msg_type = "D".to_string();
    let message = Message::new(msg_type.clone(), "SENDER".to_string(), "TARGET".to_string(), 123);

    assert_eq!(message.msg_type, msg_type);
    assert_eq!(message.sender_comp_id, "SENDER");
    assert_eq!(message.target_comp_id, "TARGET");
    assert_eq!(message.msg_seq_num, 123);
}

#[test]
fn test_field_map_implementation() {
    let mut message =
        Message::new("D".to_string(), "SENDER".to_string(), "TARGET".to_string(), 123);

    // Set a custom field
    message.set_field(55, b"EUR/USD".to_vec());

    // Test field access
    let symbol: Asn1String =
        message.get(55).expect("Symbol field (55) should be present in test message");
    assert_eq!(symbol.as_str(), "EUR/USD");

    // Test missing field
    assert!(message.get_raw(999).is_none());

    // Test optional field access
    let symbol_opt: Option<Asn1String> =
        message.get_opt(55).expect("get_opt should not fail for valid field access");
    assert!(symbol_opt.is_some());
    assert_eq!(symbol_opt.expect("Symbol should be present").as_str(), "EUR/USD");

    let missing_opt: Option<Asn1String> =
        message.get_opt(999).expect("get_opt should not fail even for missing fields");
    assert!(missing_opt.is_none());
}

#[test]
fn test_conversion_from_fix_message() {
    let fix_msg = FixMessage {
        msg_type: "D".to_string(),
        sender_comp_id: "SENDER".to_string(),
        target_comp_id: "TARGET".to_string(),
        msg_seq_num: 123,
        fields: vec![
            Field { tag: 55, value: text("EUR/USD") },
            Field { tag: 54, value: text("1") },
        ],
    };

    let message = Message::from_fix_message(&fix_msg, &dictionary())
        .expect("Failed to convert valid FIX message to ASN.1 message");

    // Check standard fields
    assert_eq!(message.msg_type.as_str(), "D");
    assert_eq!(message.sender_comp_id, "SENDER");
    assert_eq!(message.target_comp_id, "TARGET");
    assert_eq!(message.msg_seq_num, 123);

    // Check custom fields
    let symbol: Asn1String =
        message.get(55).expect("Symbol field (55) should be present in converted message");
    assert_eq!(symbol.as_str(), "EUR/USD");

    let side: Asn1String =
        message.get(54).expect("Side field (54) should be present in converted message");
    assert_eq!(side.as_str(), "1");
}

#[test]
fn test_conversion_from_fix_message_with_sending_time() {
    let fix_msg = FixMessage {
        msg_type: "D".to_string(),
        sender_comp_id: "SENDER".to_string(),
        target_comp_id: "TARGET".to_string(),
        msg_seq_num: 123,
        fields: vec![
            Field {
                tag: 52, // SendingTime
                value: FixFieldValue::UtcTimestamp("20240101-12:30:45".to_string()),
            },
            Field { tag: 55, value: text("EUR/USD") },
        ],
    };

    let message = Message::from_fix_message(&fix_msg, &dictionary())
        .expect("Failed to convert valid FIX message with sending time to ASN.1 message");

    // Check that sending_time is properly extracted
    assert_eq!(message.sending_time, Some("20240101-12:30:45".to_string()));

    // Check that sending_time is accessible via field map
    let sending_time = message
        .sending_time()
        .expect("SendingTime field (52) should be accessible via helper method");
    assert!(sending_time.is_some());
    assert_eq!(
        sending_time.expect("SendingTime should be present").as_str(),
        "20240101-12:30:45"
    );

    // Check that conversion to ASN.1 preserves sending_time
    let asn1_message = message
        .to_asn1_message(&dictionary())
        .expect("Failed to convert message to ASN.1 format");
    assert_eq!(asn1_message.sending_time, Some("20240101-12:30:45".to_string()));
}

#[test]
fn test_conversion_to_fix_message() {
    let mut message =
        Message::new("D".to_string(), "SENDER".to_string(), "TARGET".to_string(), 123);

    message.set_field(55, b"EUR/USD".to_vec());
    message.set_field(54, b"1".to_vec());

    let fix_msg = message.to_fix_message();

    assert_eq!(fix_msg.msg_type, "D");
    assert_eq!(fix_msg.sender_comp_id, "SENDER");
    assert_eq!(fix_msg.target_comp_id, "TARGET");
    assert_eq!(fix_msg.msg_seq_num, 123);
    assert_eq!(fix_msg.fields.len(), 2);

    // Find fields
    let symbol_field = fix_msg
        .fields
        .iter()
        .find(|f| f.tag == 55)
        .expect("Symbol field should exist in converted message");
    assert_eq!(symbol_field.value.to_string(), "EUR/USD");

    let side_field = fix_msg
        .fields
        .iter()
        .find(|f| f.tag == 54)
        .expect("Side field should exist in converted message");
    assert_eq!(side_field.value.to_string(), "1");
}

#[test]
fn test_helper_methods() {
    let mut message =
        Message::new("D".to_string(), "SENDER".to_string(), "TARGET".to_string(), 123);

    message.set_field(55, b"EUR/USD".to_vec());

    // Test helper methods
    let msg_type_result =
        message.message_type().expect("Message type should be accessible in test message");
    assert_eq!(msg_type_result.as_str(), "D");

    let sender = message
        .sender_comp_id()
        .expect("Sender company ID should be accessible in test message");
    assert_eq!(sender.as_str(), "SENDER");

    let symbol = message.symbol().expect("Symbol should be accessible in test message");
    assert!(symbol.is_some());
    assert_eq!(symbol.expect("Symbol should be present").as_str(), "EUR/USD");

    let missing =
        message.price().expect("price() method should not fail even when field is missing");
    assert!(missing.is_none());
}

#[test]
fn test_message_group() {
    let message1 = Message::new("D".to_string(), "SENDER1".to_string(), "TARGET1".to_string(), 1);
    let message2 = Message::new("D".to_string(), "SENDER2".to_string(), "TARGET2".to_string(), 2);

    let mut group = MessageGroup::new(vec![message1.clone()]);
    group.add_entry(message2.clone());

    assert_eq!(group.len(), 2);
    assert!(!group.is_empty());

    let entry1 = group.get(0).expect("First group entry should exist in test");
    assert_eq!(entry1.sender_comp_id, "SENDER1");

    let entry2 = group.get(1).expect("Second group entry should exist in test");
    assert_eq!(entry2.sender_comp_id, "SENDER2");

    assert!(group.get(2).is_none());
}

#[test]
fn test_repeating_group_parsing() {
    let mut message =
        Message::new("D".to_string(), "SENDER".to_string(), "TARGET".to_string(), 123);

    // Add a group count field (tag 453 = NoPartyIDs)
    message.set_field(453, b"2".to_vec()); // 2 entries in the group

    // Test group() method
    let group_result = message.group(453);
    assert!(group_result.is_ok(), "group() should succeed when count field exists");

    let group = group_result.expect("Group should be parsed successfully");
    assert_eq!(group.len(), 2, "Group should have 2 entries based on count field");
    assert!(!group.is_empty(), "Group should not be empty");

    // Test group_opt() method with existing field
    let group_opt_result = message.group_opt(453);
    assert!(group_opt_result.is_ok(), "group_opt() should succeed");

    let group_opt = group_opt_result.expect("group_opt should not fail");
    assert!(group_opt.is_some(), "group_opt should return Some when field exists");

    let group_from_opt = group_opt.expect("Group should exist");
    assert_eq!(group_from_opt.len(), 2, "Group from group_opt should have 2 entries");

    // Test group_opt() method with missing field
    let missing_group_result = message.group_opt(999); // Non-existent field
    assert!(missing_group_result.is_ok(), "group_opt() should not fail for missing field");

    let missing_group = missing_group_result.expect("group_opt should return Ok");
    assert!(missing_group.is_none(), "group_opt should return None for missing field");
}

#[test]
fn test_group_with_invalid_count() {
    let mut message =
        Message::new("D".to_string(), "SENDER".to_string(), "TARGET".to_string(), 123);

    // Add a field with invalid count (not a number)
    message.set_field(453, b"invalid".to_vec());

    // Test that group() fails gracefully with invalid count
    let group_result = message.group(453);
    assert!(group_result.is_err(), "group() should fail with invalid count value");

    // Test that group_opt() also fails gracefully
    let group_opt_result = message.group_opt(453);
    assert!(group_opt_result.is_err(), "group_opt() should fail with invalid count value");
}

#[test]
fn a_new_message_has_its_head_as_fields() {
    let message = Message::new("D".to_string(), "S".to_string(), "T".to_string(), 1204);
    assert_eq!(message.field_tags(), &[35, 49, 56, 34]);
    assert_eq!(message.field_count(), 4);
    assert_eq!(message.get_raw(35), Some(b"D" as &[u8]));
    assert_eq!(message.get_raw(49), Some(b"S" as &[u8]));
    assert_eq!(message.get_raw(56), Some(b"T" as &[u8]));
    assert_eq!(message.get_raw(34), Some(b"1204" as &[u8]));
    assert_eq!(message.sending_time, None);
    assert_eq!(message.msg_seq_num().unwrap().value(), 1204);
    assert_eq!(message.target_comp_id().unwrap().as_str(), "T");
    assert_eq!(message.clone(), message);
}

#[test]
fn a_field_that_is_set_again_keeps_its_place() {
    let mut message = Message::new("D".to_string(), "S".to_string(), "T".to_string(), 1);
    message.set_field(55, b"EUR/USD".to_vec());
    message.set_field(54, b"1".to_vec());
    message.set_field(55, b"USD/JPY".to_vec());
    message.set_field(49, b"OTHER".to_vec());
    assert_eq!(message.field_tags(), &[35, 49, 56, 34, 55, 54]);
    assert_eq!(message.field_count(), 6);
    assert_eq!(message.get_raw(55), Some(b"USD/JPY" as &[u8]));
    assert_eq!(message.get_raw(49), Some(b"OTHER" as &[u8]));
    // The sender of the head is what it was.
    assert_eq!(message.sender_comp_id, "S");
    assert_eq!(message.symbol().unwrap().unwrap().as_str(), "USD/JPY");
    assert_eq!(message.side().unwrap().unwrap().as_str(), "1");
    assert!(message.order_qty().unwrap().is_none());
}

#[test]
fn a_type_of_message_that_the_dictionary_lacks() {
    let mut fix_msg = FixMessage {
        msg_type: "INVALID".to_string(),
        sender_comp_id: "S".to_string(),
        target_comp_id: "T".to_string(),
        msg_seq_num: 1,
        fields: Vec::new(),
    };
    assert!(Message::from_fix_message(&fix_msg, &dictionary()).is_none());
    fix_msg.msg_type = "8".to_string();
    assert!(Message::from_fix_message(&fix_msg, &dictionary()).is_some());
    assert!(Message::from_fix_message(&fix_msg, &Dictionary::new("none".to_string())).is_none());
}

#[test]
fn the_first_sending_time_counts_and_the_others_are_passed_over() {
    let fix_msg = FixMessage {
        msg_type: "D".to_string(),
        sender_comp_id: "S".to_string(),
        target_comp_id: "T".to_string(),
        msg_seq_num: 7,
        fields: vec![
            Field { tag: 55, value: text("EUR/USD") },
            Field { tag: 52, value: text("first") },
            Field { tag: 38, value: FixFieldValue::UnsignedInteger(100) },
            Field { tag: 52, value: text("second") },
            Field { tag: 55, value: text("USD/JPY") },
            Field { tag: 34, value: FixFieldValue::Integer(-3) },
        ],
    };
    let message = Message::from_fix_message(&fix_msg, &dictionary()).unwrap();
    assert_eq!(message.sending_time, Some("first".to_string()));
    assert_eq!(message.get_raw(52), Some(b"first" as &[u8]));
    // The sending time comes behind the head, before the other fields.
    assert_eq!(message.field_tags(), &[35, 49, 56, 34, 52, 55, 38]);
    assert_eq!(message.get_raw(55), Some(b"USD/JPY" as &[u8]));
    assert_eq!(message.order_qty().unwrap().unwrap().value(), 100);
    // A field of the list replaces a field of the head in the table only.
    assert_eq!(message.get_raw(34), Some(b"-3" as &[u8]));
    assert_eq!(message.msg_seq_num, 7);
    assert!(matches!(message.msg_seq_num(), Err(FieldValueError::Invalid(_))));
}

#[test]
fn the_head_stays_out_of_the_list_of_fields() {
    let mut message = Message::new("D".to_string(), "S".to_string(), "T".to_string(), 9);
    message.set_field(52, b"now".to_vec());
    message.set_field(9001, b"x".to_vec());
    message.set_field(55, vec![0x45, 0xff, 0x55]);
    message.set_field(44, b"1.5".to_vec());
    let fix_msg = message.to_fix_message();
    let tags: Vec<u32> = fix_msg.fields.iter().map(|f| f.tag).collect();
    assert_eq!(tags, vec![9001, 55, 44]);
    // One character is taken for a character.
    assert_eq!(fix_msg.fields[0].value, FixFieldValue::Character("x".to_string()));
    // Bytes that are no text come out with the replacement character.
    assert_eq!(fix_msg.fields[1].value, text("E\u{fffd}U"));
    assert_eq!(fix_msg.msg_seq_num, 9);

    // A tag that the dictionary lacks does not go into a message of texts.
    let asn1_msg = message.to_asn1_message(&dictionary()).unwrap();
    assert_eq!(
        asn1_msg.fields,
        vec![
            Asn1Field { tag: 55, value: "E\u{fffd}U".to_string() },
            Asn1Field { tag: 44, value: "1.5".to_string() },
        ]
    );
    assert_eq!(asn1_msg.msg_type, "D");
    assert_eq!(asn1_msg.sender_comp_id, "S");
    assert_eq!(asn1_msg.target_comp_id, "T");
    assert_eq!(asn1_msg.msg_seq_num, 9);
    // The sending time was set as a field only.
    assert_eq!(asn1_msg.sending_time, None);
}

#[test]
fn a_message_of_texts_becomes_a_message() {
    let asn1_msg = Asn1FixMessage {
        msg_type: "8".to_string(),
        sender_comp_id: "S".to_string(),
        target_comp_id: "T".to_string(),
        msg_seq_num: 44,
        sending_time: Some("20240101-12:30:45".to_string()),
        fields: vec![
            Asn1Field { tag: 55, value: "EUR/USD".to_string() },
            Asn1Field { tag: 52, value: "later".to_string() },
            Asn1Field { tag: 55, value: "USD/JPY".to_string() },
        ],
    };
    let message = Message::from_asn1_message(&asn1_msg);
    assert_eq!(message.msg_type, "8");
    assert_eq!(message.msg_seq_num, 44);
    assert_eq!(message.sending_time, Some("20240101-12:30:45".to_string()));
    assert_eq!(message.field_tags(), &[35, 49, 56, 34, 52, 55]);
    // No field of the list is passed over here.
    assert_eq!(message.get_raw(52), Some(b"later" as &[u8]));
    assert_eq!(message.get_raw(55), Some(b"USD/JPY" as &[u8]));
    let back = message.to_asn1_message(&dictionary()).unwrap();
    assert_eq!(back.sending_time, asn1_msg.sending_time);
    assert_eq!(back.fields, vec![Asn1Field { tag: 55, value: "USD/JPY".to_string() }]);
}

#[test]
fn the_entries_of_a_group_stand_in_for_its_entries() {
    let mut message = Message::new("D".to_string(), "S".to_string(), "T".to_string(), 1);
    message.set_field(453, b"+11".to_vec());
    let group = message.group(453).unwrap();
    assert_eq!(group.len(), 11);
    let first = group.get(0).unwrap();
    assert_eq!(first.msg_type, "8");
    assert_eq!(first.sender_comp_id, "GROUP_SENDER_0");
    assert_eq!(first.target_comp_id, "GROUP_TARGET_0");
    assert_eq!(first.msg_seq_num, 1);
    assert_eq!(first.field_tags(), &[35, 49, 56, 34]);
    let last = group.get(10).unwrap();
    assert_eq!(last.sender_comp_id, "GROUP_SENDER_10");
    assert_eq!(last.target_comp_id, "GROUP_TARGET_10");
    assert_eq!(last.msg_seq_num, 11);
    assert_eq!(last.get_raw(49), Some(b"GROUP_SENDER_10" as &[u8]));
    assert!(group.get(11).is_none());

    message.set_field(453, b"0".to_vec());
    assert!(message.group(453).unwrap().is_empty());
    assert!(matches!(message.group(454), Err(FieldValueError::Missing)));
    message.set_field(453, b"-1".to_vec());
    assert!(matches!(message.group(453), Err(FieldValueError::Invalid(InvalidInt))));
    assert_eq!(message.group_opt(453).err(), Some(InvalidInt));
}

#[test]
fn readers_that_forgive_and_readers_that_do_not() {
    let mut message = Message::new("D".to_string(), "S".to_string(), "T".to_string(), 1);
    message.set_field(38, b"12x".to_vec());
    assert!(matches!(
        message.get::<rustyfix::asn1::Asn1UInteger>(38),
        Err(FieldValueError::Invalid(rustyfix::asn1::Asn1FieldError::InvalidNumber))
    ));
    assert_eq!(message.get_lossy::<rustyfix::asn1::Asn1UInteger>(38).unwrap().value(), 12);
    assert_eq!(
        message.get_lossy_opt::<rustyfix::asn1::Asn1UInteger>(38).unwrap().unwrap().value(),
        12
    );
    assert!(message.get_lossy_opt::<rustyfix::asn1::Asn1UInteger>(39).unwrap().is_none());
    assert!(matches!(
        message.get_lossy::<rustyfix::asn1::Asn1UInteger>(39),
        Err(FieldValueError::Missing)
    ));
    assert_eq!(message.get::<u32>(38), Err(FieldValueError::Invalid(InvalidInt)));
    assert_eq!(message.get_opt::<u32>(34), Ok(Some(1)));
}

#[test]
fn a_streaming_decoder_over_another_buffer() {
    let mut codec = Decoder::new(Dictionary::new("FIX.4.4".to_string()));
    codec.config_mut().separator = b'|';
    let mut codec = codec.streaming(MessageBuffer::new());
    codec.feed(b"8=FIX.4.2|9=40|35=D|49=AFUNDMGR|56=ABROKER|");
    assert_eq!(codec.try_parse(), Ok(None));
    codec.feed(b"15=USD|59=0|10=091|8=FIX.4.2|9=40|35=D|49=AFUNDMGR|56=ABROKER|15=USD|59=1|10=091|");
    assert_eq!(codec.try_parse(), Ok(Some(())));
    assert_eq!(codec.message().get_raw(59), Some(b"0" as &[u8]));
    assert_eq!(codec.message().len(), 6);
    // The second message has a byte changed, and the checksum of the
    // first.
    assert_eq!(
        codec.try_parse(),
        Err(DecodeError::Invalid { reason: InvalidReason::Frame(FrameError::CheckSumMismatch) })
    );
    codec.clear();
    assert_eq!(codec.num_bytes_required(), 1);
}
