use rustyfix::asn1::decoder::{
    decode_length, is_plausible_start_tag, DecoderState, ASN1_LONG_FORM_LENGTH_2_BYTES,
    ASN1_SEQUENCE_TAG,
};
use rustyfix::asn1::{
    Config, DecodeError, DecodedMessage, Decoder, DecoderStreaming, EncodeError, Encoder,
    EncoderStreaming, EncodingRule, Error, Field, FixFieldValue, FixMessage, MessageOptions,
};
use rustyfix::tagvalue::Decoder as TagValueDecoder;
use rustyfix::{Dictionary, FixDatatype, LayoutItem, TagU32};

fn dictionary() -> Dictionary {
    let mut dict = Dictionary::new("FIX.4.4".to_string());
    dict.add_field(1, "Account".to_string(), FixDatatype::String);
    dict.add_field(11, "ClOrdID".to_string(), FixDatatype::String);
    dict.add_field(34, "MsgSeqNum".to_string(), FixDatatype::SeqNum);
    dict.add_field(35, "MsgType".to_string(), FixDatatype::String);
    dict.add_field(38, "OrderQty".to_string(), FixDatatype::Quantity);
    dict.add_field(54, "Side".to_string(), FixDatatype::Char);
    dict.add_field(55, "Symbol".to_string(), FixDatatype::String);
    dict.add_field(9000, "Custom".to_string(), FixDatatype::String);
    dict.add_field(9001, "Other".to_string(), FixDatatype::String);
    let item = |tag: u32, required: bool| LayoutItem { tag: TagU32::new(tag).unwrap(), required };
    dict.add_message(
        "D".to_string(),
        "NewOrderSingle".to_string(),
        vec![item(11, true), item(9001, false), item(55, true), item(35, true)],
    );
    dict
}

fn message() -> FixMessage {
    FixMessage {
        msg_type: "D".to_string(),
        sender_comp_id: "SENDER".to_string(),
        target_comp_id: "TARGET".to_string(),
        msg_seq_num: 123,
        fields: vec![
            Field { tag: 55, value: FixFieldValue::String("EUR/USD".to_string()) },
            Field { tag: 54, value: FixFieldValue::String("1".to_string()) },
            Field { tag: 38, value: FixFieldValue::UnsignedInteger(1000000) },
            Field { tag: 44, value: FixFieldValue::Integer(-5) },
            Field { tag: 114, value: FixFieldValue::Boolean(true) },
            Field { tag: 115, value: FixFieldValue::String("Y".to_string()) },
            Field { tag: 116, value: FixFieldValue::UnsignedInteger(u64::MAX) },
            Field { tag: 117, value: FixFieldValue::String("12x".to_string()) },
            Field { tag: 55, value: FixFieldValue::String("USD/JPY".to_string()) },
        ],
    }
}

fn violation(tag: u32, reason: &str) -> Error {
    Error::Decode(DecodeError::ConstraintViolation {
        field: format!("Tag {tag}"),
        reason: reason.to_string(),
    })
}

/// The message with the three digits of its checksum put right.
fn sealed(mut bytes: Vec<u8>) -> Vec<u8> {
    let digits = bytes.len() - 4;
    let sum = bytes[..digits - 3].iter().fold(0u8, |sum, byte| sum.wrapping_add(*byte));
    bytes[digits..digits + 3].copy_from_slice(format!("{sum:03}").as_bytes());
    bytes
}

#[test]
fn test_message_field_access() {
    let msg = FixMessage {
        msg_type: "D".to_string(),
        sender_comp_id: "SENDER".to_string(),
        target_comp_id: "TARGET".to_string(),
        msg_seq_num: 123,
        fields: vec![Field { tag: 55, value: FixFieldValue::String("EUR/USD".to_string()) }],
    };
    let decoded = DecodedMessage::new(vec![], msg);
    assert_eq!(decoded.msg_type(), "D");
    assert_eq!(decoded.sender_comp_id(), "SENDER");
    assert_eq!(decoded.msg_seq_num(), 123);
    assert_eq!(decoded.get_string(55), Some("EUR/USD".to_string()));
}

#[test]
fn test_integer_parsing_with_result() {
    let msg = FixMessage {
        msg_type: "D".to_string(),
        sender_comp_id: "SENDER".to_string(),
        target_comp_id: "TARGET".to_string(),
        msg_seq_num: 123,
        fields: vec![
            Field { tag: 38, value: FixFieldValue::UnsignedInteger(1000) },
            Field { tag: 54, value: FixFieldValue::String("not_a_number".to_string()) },
            Field { tag: 99, value: FixFieldValue::Integer(-50) },
        ],
    };

    let message = DecodedMessage::new(vec![], msg);

    // Test successful parsing
    assert_eq!(message.get_int(38).expect("Should parse unsigned as int"), Some(1000));
    assert_eq!(message.get_uint(38).expect("Should parse unsigned"), Some(1000));

    // Test missing field
    assert_eq!(message.get_int(999).expect("Should return Ok(None)"), None);
    assert_eq!(message.get_uint(999).expect("Should return Ok(None)"), None);

    // Test parsing error
    let int_err = message.get_int(54);
    assert!(matches!(int_err, Err(Error::Decode(DecodeError::ConstraintViolation { .. }))));

    // Test overflow protection
    let overflow_msg = FixMessage {
        msg_type: "D".to_string(),
        sender_comp_id: "SENDER".to_string(),
        target_comp_id: "TARGET".to_string(),
        msg_seq_num: 1,
        fields: vec![Field {
            tag: 999,
            value: FixFieldValue::UnsignedInteger(u64::MAX), // Value > i64::MAX
        }],
    };
    let message_with_overflow = DecodedMessage::new(vec![], overflow_msg);

    let overflow_err = message_with_overflow.get_int(999);
    assert!(matches!(overflow_err, Err(Error::Decode(DecodeError::ConstraintViolation { .. }))));

    // Test maximum valid conversion (i64::MAX as u64 should work)
    let max_valid_msg = FixMessage {
        msg_type: "D".to_string(),
        sender_comp_id: "SENDER".to_string(),
        target_comp_id: "TARGET".to_string(),
        msg_seq_num: 1,
        fields: vec![Field {
            tag: 1000,
            value: FixFieldValue::UnsignedInteger(i64::MAX as u64),
        }],
    };
    let message_with_max_valid = DecodedMessage::new(vec![], max_valid_msg);

    assert_eq!(
        message_with_max_valid.get_int(1000).expect("Should convert i64::MAX"),
        Some(i64::MAX)
    );

    // Test negative to unsigned conversion error
    let uint_err = message.get_uint(99);
    assert!(matches!(uint_err, Err(Error::Decode(DecodeError::ConstraintViolation { .. }))));
}

#[test]
fn numbers_that_stand_as_text() {
    let msg = FixMessage {
        msg_type: "D".to_string(),
        sender_comp_id: "SENDER".to_string(),
        target_comp_id: "TARGET".to_string(),
        msg_seq_num: 123,
        fields: vec![
            Field { tag: 38, value: FixFieldValue::String("1000".to_string()) },
            Field { tag: 54, value: FixFieldValue::String("abc".to_string()) },
            Field { tag: 99, value: FixFieldValue::String("-500".to_string()) },
        ],
    };
    let decoded = DecodedMessage::new(vec![], msg);
    assert_eq!(decoded.get_int(38), Ok(Some(1000)));
    assert_eq!(decoded.get_uint(38), Ok(Some(1000)));
    assert_eq!(decoded.get_int(99), Ok(Some(-500)));
    assert!(decoded.get_uint(99).is_err());
    assert!(decoded.get_int(54).is_err());
    assert!(decoded.get_uint(54).is_err());
}

#[test]
fn fields_of_a_decoded_message() {
    let decoded = DecodedMessage::new(vec![0x30, 0x00], message());
    assert_eq!(decoded.as_bytes(), &[0x30, 0x00]);
    assert_eq!(decoded.msg_type(), "D");
    assert_eq!(decoded.sender_comp_id(), "SENDER");
    assert_eq!(decoded.target_comp_id(), "TARGET");
    assert_eq!(decoded.msg_seq_num(), 123);
    // The four of the head are fields too.
    assert_eq!(decoded.get_field(35), Some("D".to_string()));
    assert_eq!(decoded.get_field(49), Some("SENDER".to_string()));
    assert_eq!(decoded.get_field(56), Some("TARGET".to_string()));
    assert_eq!(decoded.get_uint(34), Ok(Some(123)));
    // The later of two fields with one tag counts.
    assert_eq!(decoded.get_string(55), Some("USD/JPY".to_string()));
    assert_eq!(decoded.get_field(38), Some("1000000".to_string()));
    assert_eq!(decoded.get_field(9999), None);
    assert_eq!(decoded.get_int(38), Ok(Some(1000000)));
    assert_eq!(decoded.get_uint(38), Ok(Some(1000000)));
    assert_eq!(decoded.get_int(44), Ok(Some(-5)));
    assert_eq!(
        decoded.get_uint(44),
        Err(violation(44, "Negative value cannot be converted to unsigned integer"))
    );
    assert_eq!(decoded.get_uint(116), Ok(Some(u64::MAX)));
    assert_eq!(
        decoded.get_int(116),
        Err(violation(
            116,
            "Unsigned integer value exceeds i64::MAX and cannot be converted to signed integer"
        ))
    );
    assert_eq!(decoded.get_int(117), Err(violation(117, "Invalid integer format")));
    assert_eq!(decoded.get_uint(117), Err(violation(117, "Invalid unsigned integer format")));
    assert_eq!(decoded.get_int(54), Ok(Some(1)));
    assert_eq!(decoded.get_int(114), Err(violation(114, "Invalid integer format")));
    assert_eq!(decoded.get_bool(114), Some(true));
    assert_eq!(decoded.get_bool(115), Some(true));
    assert_eq!(decoded.get_bool(54), None);
    assert_eq!(decoded.get_bool(9999), None);
}

#[test]
fn test_decoder_creation() {
    let config = Config::default();
    let dict = dictionary();
    let decoder = Decoder::new(config, dict);

    // Test with empty data
    let result = decoder.check_input(&[]);
    assert!(matches!(result, Err(Error::Decode(_))));
}

#[test]
fn bytes_are_checked_before_they_are_decoded() {
    let mut decoder = Decoder::new(Config::default(), dictionary());
    assert_eq!(
        decoder.check_input(&[]),
        Err(Error::Decode(DecodeError::UnexpectedEof { offset: 0, needed: 1 }))
    );
    assert_eq!(decoder.check_input(&[0x30]), Ok(()));
    decoder.config_mut().max_message_size = 2;
    assert_eq!(decoder.check_input(&[0x30, 0x00]), Ok(()));
    assert_eq!(
        decoder.check_input(&[0x30, 0x01, 0x00]),
        Err(Error::Decode(DecodeError::MessageTooLarge { size: 3, max_size: 2 }))
    );
    assert_eq!(
        DecodeError::MessageTooLarge { size: 3, max_size: 2 }.to_string(),
        "Message size 3 exceeds maximum 2"
    );
}

#[test]
fn what_was_decoded_is_validated() {
    let mut decoder = Decoder::new(Config::default(), dictionary());
    let decoded = decoder.finish(&[0x30, 0x00], Ok(message())).unwrap();
    assert_eq!(decoded.as_bytes(), &[0x30, 0x00]);
    assert_eq!(decoded.get_field(54), Some("1".to_string()));
    assert_eq!(decoder.validate_message(&message()), Ok(()));

    let mut unknown = message();
    unknown.msg_type = "ZZ".to_string();
    let complaint = Error::Decode(DecodeError::ConstraintViolation {
        field: "MsgType".to_string(),
        reason: "Unknown message type: ZZ".to_string(),
    });
    assert_eq!(decoder.validate_message(&unknown), Err(complaint.clone()));
    assert_eq!(decoder.finish(&[0x30], Ok(unknown.clone())).err(), Some(complaint));
    // Without validation the type need not be known.
    decoder.config_mut().validate_checksums = false;
    assert_eq!(decoder.finish(&[0x30], Ok(unknown)).unwrap().msg_type(), "ZZ");
    assert_eq!(
        decoder.finish(&[0x30], Err("boom".to_string())).err(),
        Some(Error::Decode(DecodeError::Internal("boom".to_string())))
    );
}

#[test]
fn the_length_of_a_message() {
    assert_eq!(decode_length(&[0x30], 1), Ok(None));
    assert_eq!(decode_length(&[0x30, 0x00], 1), Ok(Some((0, 1))));
    assert_eq!(decode_length(&[0x30, 0x7f], 1), Ok(Some((127, 1))));
    assert_eq!(decode_length(&[0x30, 0x81, 0x80], 1), Ok(Some((128, 2))));
    assert_eq!(decode_length(&[0x30, 0x81], 1), Ok(None));
    assert_eq!(
        decode_length(&[0x30, ASN1_LONG_FORM_LENGTH_2_BYTES, 0x01, 0x02], 1),
        Ok(Some((258, 3)))
    );
    assert_eq!(decode_length(&[0x30, 0x82, 0x01], 1), Ok(None));
    assert_eq!(decode_length(&[0x30, 0x83, 0x01, 0x02, 0x03], 1), Ok(Some((0x010203, 4))));
    assert_eq!(
        decode_length(&[0x30, 0x84, 0xff, 0xff, 0xff, 0xff], 1),
        Ok(Some((0xffffffff, 5)))
    );
    assert_eq!(
        decode_length(&[0x30, 0x80], 1),
        Err(Error::Decode(DecodeError::InvalidLength { offset: 1 }))
    );
    assert_eq!(
        decode_length(&[0x30, 0x85, 0, 0, 0, 0, 1], 1),
        Err(Error::Decode(DecodeError::InvalidLength { offset: 1 }))
    );
    assert_eq!(decode_length(&[0x05], 0), Ok(Some((5, 1))));
    assert_eq!(decode_length(&[0x05], 7), Ok(None));
    assert!(!is_plausible_start_tag(0x00));
    for tag in [0x01u8, ASN1_SEQUENCE_TAG, 0x3f, 0x40, 0x7f, 0x80, 0xa0, 0xbf, 0xc0, 0xff] {
        assert!(is_plausible_start_tag(tag));
    }
}

#[test]
fn test_streaming_decoder_state() {
    let config = Config::default();
    let dict = dictionary();
    let mut decoder = DecoderStreaming::new(config, dict);

    assert_eq!(decoder.buffered_bytes(), 0);
    assert_eq!(decoder.num_bytes_required(), 1);

    decoder.feed(&[ASN1_SEQUENCE_TAG, ASN1_LONG_FORM_LENGTH_2_BYTES]); // SEQUENCE tag with long form length
    assert_eq!(decoder.buffered_bytes(), 2);
}

#[test]
fn test_length_validation_against_max_size() {
    // Create a config with a small max message size for testing
    let mut config = Config::default();
    config.max_message_size = 100; // Set a small limit for testing

    let dict = dictionary();
    let mut decoder = DecoderStreaming::new(config, dict);

    // Feed a SEQUENCE tag
    decoder.feed(&[ASN1_SEQUENCE_TAG]);

    // Feed a long form length that exceeds max_message_size
    // Using 2-byte length encoding: first byte 0x82 means 2 length bytes follow
    // Next two bytes encode length 0x1000 (4096 bytes) which exceeds our limit of 100
    decoder.feed(&[0x82, 0x10, 0x00]);

    // Try to decode - should fail with MessageTooLarge error
    let result = decoder.poll();
    match result {
        Err(Error::Decode(DecodeError::MessageTooLarge { size, max_size })) => {
            assert_eq!(size, 4096);
            assert_eq!(max_size, 100);
        }
        _ => panic!("Expected MessageTooLarge error, got: {result:?}"),
    }
}

#[test]
fn test_length_validation_passes_within_limit() {
    let mut config = Config::default();
    config.max_message_size = 1000; // Set reasonable limit

    let dict = dictionary();
    let mut decoder = DecoderStreaming::new(config, dict);

    // Feed a SEQUENCE tag
    decoder.feed(&[ASN1_SEQUENCE_TAG]);

    // Feed a short form length that's within limit (50 bytes)
    decoder.feed(&[50]);

    // Decoder should transition to ReadingMessage state without error
    let result = decoder.poll();
    // It will return Ok(None) because we don't have enough data yet
    assert!(result.is_ok());
    assert!(matches!(decoder.state(), DecoderState::ReadingMessage { length: 50, .. }));
}

#[test]
fn a_decoder_in_the_middle_of_a_message() {
    let mut config = Config::default();
    config.max_message_size = 1000;
    let mut decoder = DecoderStreaming::new(config, dictionary());
    assert_eq!(decoder.state(), DecoderState::WaitingForMessage);
    decoder.feed(&[ASN1_SEQUENCE_TAG]);
    assert_eq!(decoder.poll(), Ok(None));
    assert_eq!(decoder.state(), DecoderState::ReadingLength { offset: 1 });
    decoder.feed(&[50]);
    assert_eq!(decoder.poll(), Ok(None));
    assert_eq!(decoder.state(), DecoderState::ReadingMessage { length: 50, offset: 2 });
    assert_eq!(decoder.num_bytes_required(), 52);
    decoder.clear();
    assert_eq!(decoder.buffered_bytes(), 0);
    assert_eq!(decoder.state(), DecoderState::WaitingForMessage);
}

#[test]
fn messages_are_found_in_a_stream() {
    let mut decoder = DecoderStreaming::new(Config::default(), dictionary());
    assert_eq!(decoder.poll(), Ok(None));
    decoder.feed(&[0x30]);
    assert_eq!(decoder.poll(), Ok(None));
    assert_eq!(decoder.num_bytes_required(), 2);
    decoder.feed(&[0x03, 0xaa]);
    assert_eq!(decoder.poll(), Ok(None));
    assert_eq!(decoder.num_bytes_required(), 5);
    decoder.feed(&[0xbb, 0xcc, 0x31, 0x00, 0x07]);
    assert_eq!(decoder.poll(), Ok(Some(5)));
    // Asking again changes nothing.
    assert_eq!(decoder.poll(), Ok(Some(5)));
    assert_eq!(decoder.frame(5), &[0x30, 0x03, 0xaa, 0xbb, 0xcc]);
    assert_eq!(decoder.decoder().check_input(decoder.frame(5)), Ok(()));
    decoder.consume(5);
    assert_eq!(decoder.buffered_bytes(), 3);
    assert_eq!(decoder.poll(), Ok(Some(2)));
    assert_eq!(decoder.frame(2), &[0x31, 0x00]);
    decoder.consume(2);
    assert_eq!(decoder.poll(), Ok(None));
    assert_eq!(decoder.num_bytes_required(), 2);
    decoder.clear();
    decoder.feed(&[0x00, 0x01]);
    assert_eq!(
        decoder.poll(),
        Err(Error::Decode(DecodeError::InvalidTag { tag: 0, offset: 0 }))
    );
    decoder.clear();
    decoder.feed(&[0x30, 0x80]);
    assert_eq!(decoder.poll(), Err(Error::Decode(DecodeError::InvalidLength { offset: 1 })));
    let state = DecoderState::ReadingLength { offset: 1 };
    assert_ne!(state, DecoderState::WaitingForMessage);
}

#[test]
fn test_encoder_creation() {
    let config = Config::default();
    let dict = dictionary();
    let encoder = Encoder::new(config, dict);

    // Test message creation
    let handle = encoder.start_message("D", "SENDER", "TARGET", 1);

    assert_eq!(handle.message().msg_type, "D");
    assert_eq!(handle.message().sender_comp_id, "SENDER");
}

#[test]
fn test_field_addition() {
    let config = Config::default();
    let dict = dictionary();
    let encoder = Encoder::new(config, dict);

    let mut handle = encoder.start_message("D", "SENDER", "TARGET", 1);

    handle
        .add_string(55, "EUR/USD".to_string())
        .add_int(54, 1)
        .add_uint(38, 1_000_000)
        .add_bool(114, true);

    assert_eq!(handle.message().fields.len(), 4);
    assert_eq!(handle.message().fields[0].value, FixFieldValue::String("EUR/USD".to_string()));
    assert_eq!(handle.message().fields[1].value, FixFieldValue::Integer(1));
    assert_eq!(handle.message().fields[2].value, FixFieldValue::UnsignedInteger(1_000_000));
    assert_eq!(handle.message().fields[3].value, FixFieldValue::Boolean(true));
}

#[test]
fn a_message_is_put_together_field_by_field() {
    let mut encoder = Encoder::new(Config::default(), dictionary());
    let mut handle = encoder.start_message("D", "A", "B", 7);
    handle.add_field(1, &"acc");
    handle.add_field(2, &5i32);
    handle.set_with(3, 12u32, ());
    handle.set_with(4, &[0x61u8, 0xff][..], ());
    // Three texts of one byte, 20 bytes for the head, and four fields.
    assert_eq!(handle.estimate_size(), 3 + 20 + (5 + 3 + 5) + (5 + 8 + 5) + (5 + 2 + 5) + (5 + 4 + 5));
    let (message, rule) = handle.prepare().unwrap();
    assert_eq!(rule, EncodingRule::DER);
    assert_eq!(message.msg_type, "D");
    assert_eq!(message.sender_comp_id, "A");
    assert_eq!(message.target_comp_id, "B");
    assert_eq!(message.msg_seq_num, 7);
    assert_eq!(
        message.fields,
        vec![
            Field { tag: 1, value: FixFieldValue::String("acc".to_string()) },
            Field { tag: 2, value: FixFieldValue::Integer(5) },
            Field { tag: 3, value: FixFieldValue::String("12".to_string()) },
            Field { tag: 4, value: FixFieldValue::String("a\u{fffd}".to_string()) },
        ]
    );

    // Rules that were set for the type of message come first.
    encoder.config_mut().set_message_options(
        "D",
        MessageOptions { encoding_rule: Some(EncodingRule::OER), compress: false, max_size: None },
    );
    encoder.config_mut().set_message_options(
        "8",
        MessageOptions { encoding_rule: None, compress: false, max_size: None },
    );
    assert_eq!(encoder.start_message("D", "A", "B", 7).prepare().unwrap().1, EncodingRule::OER);
    assert_eq!(encoder.start_message("8", "A", "B", 7).prepare().unwrap().1, EncodingRule::DER);
    assert_eq!(encoder.start_message("0", "A", "B", 7).prepare().unwrap().1, EncodingRule::DER);

    // A message that is taken to be too large is refused.
    encoder.config_mut().max_message_size = 40;
    let mut handle = encoder.start_message("D", "A", "B", 7);
    assert_eq!(handle.estimate_size(), 23);
    handle.add_bool(1, true);
    assert_eq!(handle.estimate_size(), 34);
    handle.add_field(2, &"abc");
    assert_eq!(handle.estimate_size(), 47);
    assert_eq!(
        handle.prepare().err(),
        Some(Error::Encode(EncodeError::MessageTooLarge { size: 47, max_size: 40 }))
    );
    assert_eq!(Encoder::finish(Ok(vec![1, 2])), Ok(vec![1, 2]));
    assert_eq!(
        Encoder::finish(Err("boom".to_string())),
        Err(Error::Encode(EncodeError::Internal("boom".to_string())))
    );
}

#[test]
fn a_message_is_put_together_from_a_decoded_one() {
    let mut codec = TagValueDecoder::new(dictionary());
    codec.config_mut().separator = b'|';
    let frame =
        |body: &str| sealed(format!("8=FIX.4.4|9={}|{}10=000|", body.len(), body).into_bytes());
    let bytes =
        frame("35=D|49=S|56=T|34=12|52=now|9001=o|11=id|9000=c|1=acc|55=EUR/USD|38=7|777=x|");
    let message = codec.decode(&bytes).unwrap();
    let encoder = Encoder::new(Config::default(), dictionary());
    let prepared = encoder.prepare_message(&message).unwrap();
    let (fix, rule) = prepared.prepare().unwrap();
    assert_eq!(rule, EncodingRule::DER);
    assert_eq!(fix.msg_type, "D");
    assert_eq!(fix.sender_comp_id, "S");
    assert_eq!(fix.target_comp_id, "T");
    assert_eq!(fix.msg_seq_num, 12);
    // The common tags first, in their order; then the layout of the type;
    // then the other fields of the dictionary. Nothing of the header, and
    // nothing that the dictionary does not know.
    let tags: Vec<u32> = fix.fields.iter().map(|f| f.tag).collect();
    assert_eq!(tags, vec![55, 38, 11, 1, 9001, 9000]);
    assert_eq!(fix.fields[0].value, FixFieldValue::String("EUR/USD".to_string()));
    assert_eq!(fix.fields[5].value, FixFieldValue::String("c".to_string()));

    for (body, error) in [
        (
            "49=S|56=T|34=12|",
            EncodeError::RequiredFieldMissing { tag: 35, name: "Tag 35".to_string() },
        ),
        (
            "35=D|56=T|34=12|",
            EncodeError::RequiredFieldMissing { tag: 49, name: "Tag 49".to_string() },
        ),
        (
            "35=D|49=S|34=12|",
            EncodeError::RequiredFieldMissing { tag: 56, name: "Tag 56".to_string() },
        ),
        (
            "35=D|49=S|56=T|",
            EncodeError::RequiredFieldMissing { tag: 34, name: "Tag 34".to_string() },
        ),
        (
            "35=D|49=S|56=T|34=x|",
            EncodeError::InvalidFieldValue { tag: 34, reason: "Invalid u64 value".to_string() },
        ),
        (
            "35=D|49=\u{ff}|56=T|34=1|",
            EncodeError::InvalidFieldValue {
                tag: 49,
                reason: "Invalid UTF-8 in field value".to_string(),
            },
        ),
    ] {
        let bytes: Vec<u8> = format!("8=FIX.4.4|9={}|", body.chars().count())
            .bytes()
            .chain(body.chars().map(|c| c as u8))
            .chain("10=000|".bytes())
            .collect();
        let bytes = sealed(bytes);
        let message = codec.decode(&bytes).unwrap();
        assert_eq!(encoder.prepare_message(&message).err(), Some(Error::Encode(error)));
    }
    assert_eq!(
        Encoder::get_required_string_field(&codec.decode(&frame("35=D|")).unwrap(), 35),
        Ok("D".to_string())
    );
    assert_eq!(
        Encoder::get_required_u64_field(&codec.decode(&frame("34=+7|")).unwrap(), 34),
        Ok(7)
    );
    for tag in [8, 9, 10, 34, 35, 49, 52, 56] {
        assert!(Encoder::is_standard_header_field(tag));
    }
    assert!(!Encoder::is_standard_header_field(55));
}

#[test]
fn the_tags_that_are_used_most_come_first() {
    let mut codec = TagValueDecoder::new(dictionary());
    codec.config_mut().separator = b'|';
    let body = "35=D|49=S|56=T|34=12|1=acc|11=id|55=EUR/USD|54=1|";
    let bytes = sealed(format!("8=FIX.4.4|9={}|{}10=000|", body.len(), body).into_bytes());
    let message = codec.decode(&bytes).unwrap();
    let mut encoder = Encoder::new(Config::default(), dictionary());
    let tags = |encoder: &Encoder| -> Vec<u32> {
        let (fix, _) = encoder.prepare_message(&message).unwrap().prepare().unwrap();
        fix.fields.iter().map(|f| f.tag).collect()
    };
    assert_eq!(tags(&encoder), vec![55, 54, 11, 1]);
    encoder.update_common_field_tags(&[(55, 1), (1, 10), (54, 5), (35, 100)]);
    assert_eq!(tags(&encoder), vec![1, 54, 55, 11]);
    // No more than 32 tags are kept: 40 down to 9, with 11 among them and
    // 1 not.
    let many: Vec<(u32, usize)> = (1..=40u32).map(|tag| (tag, tag as usize)).collect();
    encoder.update_common_field_tags(&many);
    assert_eq!(tags(&encoder), vec![11, 55, 1, 54]);
    let few: Vec<(u32, usize)> = (1..=32u32).map(|tag| (tag, tag as usize)).collect();
    encoder.update_common_field_tags(&few);
    assert_eq!(tags(&encoder), vec![11, 1, 55, 54]);
    encoder.update_common_field_tags(&[]);
    assert_eq!(tags(&encoder), vec![11, 55, 1, 54]);
    // Tags that are used equally often keep their order.
    encoder.update_common_field_tags(&[(54, 5), (1, 9), (55, 5), (11, 5)]);
    assert_eq!(tags(&encoder), vec![1, 54, 55, 11]);
    encoder.update_common_field_tags(&[(11, 5), (55, 5), (1, 9), (54, 5)]);
    assert_eq!(tags(&encoder), vec![1, 11, 55, 54]);
}

#[test]
fn what_was_encoded_is_collected() {
    let mut encoder = EncoderStreaming::new(Config::low_latency(), dictionary());
    assert_eq!(encoder.encoder().config().encoding_rule, EncodingRule::PER);
    assert_eq!(encoder.output(), &[] as &[u8]);
    encoder.push_encoded(&[1, 2]);
    encoder.push_encoded(&[3]);
    assert_eq!(encoder.output(), &[1, 2, 3]);
    assert_eq!(encoder.take_output(), vec![1, 2, 3]);
    assert_eq!(encoder.output(), &[] as &[u8]);
    encoder.push_encoded(&[4]);
    encoder.clear();
    assert_eq!(encoder.take_output(), Vec::<u8>::new());
}
