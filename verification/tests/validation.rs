use rustyfix::tagvalue::Decoder;
use rustyfix::validation::{AdvancedValidator, SimpleValidator, ValidationError, Validator};
use rustyfix::{Dictionary, FixDatatype, LayoutItem, TagU32};

/// The part of FIX 4.4 that the tests need.
fn fix44() -> Dictionary {
    let mut dict = Dictionary::new("FIX.4.4".to_string());
    dict.add_field(8, "BeginString".to_string(), FixDatatype::String);
    dict.add_field(9, "BodyLength".to_string(), FixDatatype::Length);
    dict.add_field(11, "ClOrdID".to_string(), FixDatatype::String);
    dict.add_field(15, "Currency".to_string(), FixDatatype::Currency);
    dict.add_field(34, "MsgSeqNum".to_string(), FixDatatype::SeqNum);
    dict.add_field(35, "MsgType".to_string(), FixDatatype::String);
    dict.add_field(38, "OrderQty".to_string(), FixDatatype::Quantity);
    dict.add_field(43, "PossDupFlag".to_string(), FixDatatype::Boolean);
    dict.add_field(44, "Price".to_string(), FixDatatype::Price);
    dict.add_field(49, "SenderCompID".to_string(), FixDatatype::String);
    dict.add_field(52, "SendingTime".to_string(), FixDatatype::UtcTimestamp);
    dict.add_field_with_enums(
        54,
        "Side".to_string(),
        FixDatatype::Char,
        ["1", "2", "3", "4", "5", "6", "7", "8", "9", "A", "B", "C", "D", "E", "F", "G"]
            .iter()
            .map(|s| s.to_string())
            .collect(),
    );
    dict.add_field(56, "TargetCompID".to_string(), FixDatatype::String);
    dict.add_field(59, "TimeInForce".to_string(), FixDatatype::Char);
    dict.add_field(75, "TradeDate".to_string(), FixDatatype::LocalMktDate);
    dict.add_field(68, "TotNoOrders".to_string(), FixDatatype::Int);
    dict.add_field(272, "MDEntryDate".to_string(), FixDatatype::UtcDateOnly);
    let item = |tag: u32, required: bool| LayoutItem { tag: TagU32::new(tag).unwrap(), required };
    dict.add_message(
        "0".to_string(),
        "Heartbeat".to_string(),
        vec![item(112, false)],
    );
    dict.add_message(
        "D".to_string(),
        "NewOrderSingle".to_string(),
        vec![item(11, true), item(54, true), item(60, true), item(40, true), item(44, false)],
    );
    dict
}

/// The message with the three digits of its checksum put right.
fn sealed(mut bytes: Vec<u8>) -> Vec<u8> {
    let digits = bytes.len() - 4;
    let sum = bytes[..digits - 3].iter().fold(0u8, |sum, byte| sum.wrapping_add(*byte));
    bytes[digits..digits + 3].copy_from_slice(format!("{sum:03}").as_bytes());
    bytes
}

#[test]
fn test_missing_required_field() {
    let validator = SimpleValidator::default();
    let dict = fix44();
    let mut decoder = Decoder::new(dict.clone());
    decoder.config_mut().separator = b'|';

    // Test a message missing required field ClOrdID (11)
    let msg = "8=FIX.4.2|9=40|35=D|49=AFUNDMGR|56=ABROKER|15=USD|59=0|10=091|";
    let message = decoder.decode(msg.as_bytes()).expect("Failed to decode test FIX message");

    // Should fail validation due to missing ClOrdID (tag 11)
    let result = validator.validate(&message, &dict);
    assert!(result.is_err());

    // Verify it's specifically the missing ClOrdID field
    match result {
        Err(ValidationError::RequiredFieldMissing { tag, msg_type }) => {
            assert_eq!(tag.get(), 11); // ClOrdID
            assert_eq!(msg_type, "D"); // NewOrderSingle
        }
        _ => panic!("Expected RequiredFieldMissing error for ClOrdID"),
    }
}

#[test]
fn test_advanced_validator_basic_functionality() {
    let validator = AdvancedValidator::new();
    let dict = fix44();

    // Test that the advanced validator correctly identifies validation issues
    // Test 1: Valid message type should pass
    assert!(validator.validate_message_type("D", &dict).is_ok());

    // Test 2: Invalid message type should fail
    assert!(validator.validate_message_type("INVALID", &dict).is_err());

    // Test 3: Valid field values should pass
    assert!(validator.validate_field_values(34, b"123", &dict).is_ok());
    assert!(validator.validate_field_values(54, b"1", &dict).is_ok());

    // Test 4: Invalid field values should fail
    assert!(validator.validate_field_values(34, b"0", &dict).is_err()); // Invalid seq num
    assert!(validator.validate_field_values(54, b"INVALID", &dict).is_err()); // Invalid side

    // Test 5: Valid field formats should pass
    assert!(validator.validate_field_format(34, b"123", &dict).is_ok());

    // Test 6: Invalid field formats should fail when strict validation is enabled
    assert!(validator.validate_field_format(52, b"invalid-time", &dict).is_err());
}

#[test]
fn test_advanced_validator_unknown_message_type() {
    let validator = AdvancedValidator::new();
    let dict = fix44();

    // Test unknown message type validation
    let result = validator.validate_message_type("UNKNOWN", &dict);
    assert!(
        matches!(result, Err(ValidationError::UnknownMessageType { msg_type }) if msg_type == "UNKNOWN")
    );
}

#[test]
fn test_advanced_validator_field_value_validation() {
    let validator = AdvancedValidator::new();
    let dict = fix44();

    // Test invalid sequence number (zero)
    let result = validator.validate_field_values(34, b"0", &dict);
    assert!(matches!(result, Err(ValidationError::ValueOutOfRange { tag: 34, .. })));

    // Test valid sequence number
    let result = validator.validate_field_values(34, b"123", &dict);
    assert!(result.is_ok());

    // Test invalid side value
    let result = validator.validate_field_values(54, b"X", &dict);
    assert!(matches!(result, Err(ValidationError::ValueOutOfRange { tag: 54, .. })));

    // Test valid side value
    let result = validator.validate_field_values(54, b"1", &dict);
    assert!(result.is_ok());
}

#[test]
fn test_advanced_validator_format_validation() {
    let validator = AdvancedValidator::new();
    let dict = fix44();

    // Test invalid time format
    let result = validator.validate_field_format(52, b"invalid-time", &dict);
    assert!(matches!(result, Err(ValidationError::InvalidFieldFormat { tag: 52, .. })));

    // Test valid time format
    let result = validator.validate_field_format(52, b"20100304-07:59:30", &dict);
    assert!(result.is_ok());

    // Test invalid numeric format for price fields
    let result = validator.validate_field_format(44, b"not-a-number", &dict);
    assert!(matches!(result, Err(ValidationError::InvalidFieldFormat { tag: 44, .. })));

    // Test valid numeric format
    let result = validator.validate_field_format(44, b"123.45", &dict);
    assert!(result.is_ok());
}

#[test]
fn test_advanced_validator_strict_mode() {
    let validator = AdvancedValidator::strict();

    // Strict mode should have all validations enabled
    assert!(validator.reject_unknown_fields);
    assert!(validator.strict_format_validation);
    assert!(validator.validate_value_ranges);
}

#[test]
fn test_advanced_validator_configurable_validation() {
    let mut validator = AdvancedValidator::new();
    let dict = fix44();

    // Disable strict format validation
    validator.strict_format_validation = false;

    // Should now pass even with invalid format
    let result = validator.validate_field_format(52, b"invalid-time", &dict);
    assert!(result.is_ok());

    // Disable value range validation
    validator.validate_value_ranges = false;

    // Should now pass even with invalid values
    let result = validator.validate_field_values(34, b"0", &dict);
    assert!(result.is_ok());
}

#[test]
fn test_validation_error_messages() {
    let validator = AdvancedValidator::new();
    let dict = fix44();

    // Test error message content for unknown message type
    let result = validator.validate_message_type("TEST", &dict);
    match result {
        Err(ValidationError::UnknownMessageType { msg_type }) => {
            assert_eq!(msg_type, "TEST");
            let error_msg = ValidationError::UnknownMessageType { msg_type }.to_string();
            assert!(error_msg.contains("Unknown message type: 'TEST'"));
        }
        _ => panic!("Expected UnknownMessageType error"),
    }

    // Test error message content for value out of range
    let result = validator.validate_field_values(54, b"INVALID", &dict);
    match result {
        Err(ValidationError::ValueOutOfRange { tag, value, reason }) => {
            assert_eq!(tag, 54);
            assert_eq!(value, "INVALID");
            assert!(reason.contains("Value not in the list of valid values for field 'Side'"));
        }
        _ => panic!("Expected ValueOutOfRange error"),
    }
}

#[test]
fn test_comprehensive_message_validation() {
    let validator = AdvancedValidator::new();
    let dict = fix44();

    // Test unknown message type validation
    let result = validator.validate_message_type("UNKNOWN_TYPE", &dict);
    assert!(result.is_err());

    // Test valid message type
    let result = validator.validate_message_type("D", &dict);
    assert!(result.is_ok());

    // Test field value validation - invalid sequence number
    let result = validator.validate_field_values(34, b"0", &dict);
    assert!(result.is_err());

    // Test field value validation - valid sequence number
    let result = validator.validate_field_values(34, b"123", &dict);
    assert!(result.is_ok());
}

fn format_error(tag: u32, reason: &str) -> Result<(), ValidationError> {
    Err(ValidationError::InvalidFieldFormat { tag, reason: reason.to_string() })
}

fn range_error(tag: u32, value: &str, reason: &str) -> Result<(), ValidationError> {
    Err(ValidationError::ValueOutOfRange {
        tag,
        value: value.to_string(),
        reason: reason.to_string(),
    })
}

#[test]
fn every_complaint_about_a_format() {
    let validator = AdvancedValidator::new();
    let dict = fix44();
    let check = |tag: u32, value: &[u8]| validator.validate_field_format(tag, value, &dict);
    let time = "Invalid time format, expected YYYYMMDD-HH:MM:SS[.nnn]";
    assert_eq!(check(52, b"20100304-07:59"), format_error(52, time));
    assert_eq!(check(52, b"20100304 07:59:30"), format_error(52, time));
    assert_eq!(check(52, b"20100304-07.59.30"), format_error(52, time));
    assert_eq!(check(52, b"20100304-07:59:30.123"), Ok(()));
    assert_eq!(check(272, b"2010030"), format_error(272, "Invalid date format, expected YYYYMMDD"));
    assert_eq!(check(272, b"2010030x"), format_error(272, "Invalid date format, expected YYYYMMDD"));
    assert_eq!(check(272, b"20100304"), Ok(()));
    assert_eq!(check(38, b"1e"), format_error(38, "Invalid numeric format"));
    assert_eq!(check(38, b"1e3"), Ok(()));
    assert_eq!(check(34, b"-1"), format_error(34, "Sequence number must be a positive integer"));
    assert_eq!(check(34, b"0"), Ok(()));
    assert_eq!(check(68, b"1.0"), format_error(68, "Field must be a valid integer"));
    assert_eq!(check(9, b""), format_error(9, "Field must be a valid integer"));
    assert_eq!(check(68, b"-5"), Ok(()));
    assert_eq!(check(59, b"10"), format_error(59, "Char field must be exactly one character"));
    assert_eq!(check(59, b""), format_error(59, "Char field must be exactly one character"));
    assert_eq!(check(59, b"1"), Ok(()));
    assert_eq!(check(43, b"y"), format_error(43, "Boolean field must be 'Y' or 'N'"));
    assert_eq!(check(43, b"Y"), Ok(()));
    assert_eq!(check(43, b"N"), Ok(()));
    assert_eq!(check(11, b"anything"), Ok(()));
    assert_eq!(check(11, &[0xff]), format_error(11, "Field value is not valid UTF-8"));
    assert_eq!(check(9999, b"x"), Ok(()));
    let strict = AdvancedValidator::strict();
    assert_eq!(strict.validate_field_format(9999, b"x", &dict), format_error(9999, "Unknown field tag"));
    assert_eq!(strict.validate_field_format(11, b"x", &dict), Ok(()));
}

#[test]
fn every_complaint_about_a_value() {
    let validator = AdvancedValidator::new();
    let dict = fix44();
    let check = |tag: u32, value: &[u8]| validator.validate_field_values(tag, value, &dict);
    assert_eq!(check(34, b"x"), range_error(34, "x", "Sequence number must be a positive integer"));
    assert_eq!(check(34, b"0"), range_error(34, "0", "Sequence number must be greater than 0"));
    assert_eq!(check(34, b"1"), Ok(()));
    assert_eq!(check(43, b"X"), range_error(43, "X", "Boolean field must be 'Y' or 'N'"));
    assert_eq!(check(43, b"N"), Ok(()));
    assert_eq!(
        check(54, b"Z"),
        range_error(54, "Z", "Value not in the list of valid values for field 'Side'")
    );
    assert_eq!(check(54, b"G"), Ok(()));
    assert_eq!(check(59, b"00"), range_error(59, "00", "Character field must be exactly one character"));
    assert_eq!(check(59, b"0"), Ok(()));
    assert_eq!(check(68, b"1x"), range_error(68, "1x", "Field must be a valid integer"));
    assert_eq!(check(68, b"-1"), range_error(68, "-1", "Integer field cannot be negative"));
    assert_eq!(check(68, b"0"), Ok(()));
    assert_eq!(check(44, b"1,5"), range_error(44, "1,5", "Numeric field must be a valid number"));
    assert_eq!(check(44, b"-1.5"), Ok(()));
    assert_eq!(check(11, b"anything"), Ok(()));
    assert_eq!(
        check(11, &[0xff, 0x00, 0x17]),
        range_error(11, "[255, 0, 23]", "Field value is not valid UTF-8")
    );
    assert_eq!(check(11, &[0x80]), range_error(11, "[128]", "Field value is not valid UTF-8"));
    assert_eq!(check(9999, b"x"), Ok(()));
    let strict = AdvancedValidator::strict();
    assert_eq!(strict.validate_field_values(9999, b"x", &dict), range_error(9999, "x", "Unknown field tag"));
}

#[test]
fn the_text_of_every_error() {
    let tag = TagU32::new(11).unwrap();
    assert_eq!(TagU32::new(0), None);
    let cases = vec![
        (
            ValidationError::RequiredFieldMissing { tag, msg_type: "D".to_string() },
            "Field 11 is required but not present in message type 'D'.",
        ),
        (
            ValidationError::InvalidFieldValue {
                tag,
                value: "x".to_string(),
                reason: "why".to_string(),
            },
            "Invalid value 'x' for field 11: why",
        ),
        (
            ValidationError::InvalidMessage { reason: "why".to_string() },
            "Invalid message structure: why",
        ),
        (
            ValidationError::UnknownMessageType { msg_type: "ZZ".to_string() },
            "Unknown message type: 'ZZ'",
        ),
        (
            ValidationError::InvalidFieldFormat { tag: 4000000000, reason: "why".to_string() },
            "Field 4000000000 format validation failed: why",
        ),
        (
            ValidationError::ValueOutOfRange {
                tag: 54,
                value: "x".to_string(),
                reason: "why".to_string(),
            },
            "Field 54 value 'x' is out of acceptable range: why",
        ),
    ];
    for (error, text) in cases {
        assert_eq!(error.to_string(), text);
    }
}

#[test]
fn whole_messages() {
    let dict = fix44();
    let mut decoder = Decoder::new(dict.clone());
    decoder.config_mut().separator = b'|';
    let frame =
        |body: &str| sealed(format!("8=FIX.4.4|9={}|{}10=000|", body.len(), body).into_bytes());
    let simple = SimpleValidator::default();
    let advanced = AdvancedValidator::new();

    let good = frame("35=D|34=7|11=id|54=1|60=20100304-07:59:30|40=2|44=1.5|");
    let message = decoder.decode(&good).unwrap();
    assert_eq!(simple.validate(&message, &dict), Ok(()));
    assert_eq!(advanced.validate(&message, &dict), Ok(()));
    assert_eq!(advanced.validate_required_fields(&message, &dict), Ok(()));

    let bad_side = frame("35=D|34=7|11=id|54=Z|60=20100304-07:59:30|40=2|");
    let message = decoder.decode(&bad_side).unwrap();
    assert_eq!(simple.validate(&message, &dict), Ok(()));
    assert_eq!(
        advanced.validate(&message, &dict),
        range_error(54, "Z", "Value not in the list of valid values for field 'Side'")
    );

    // The first complaint counts: the format of 34, not the value of 54.
    let two = frame("35=D|34=x|11=id|54=Z|60=20100304-07:59:30|40=2|");
    let message = decoder.decode(&two).unwrap();
    assert_eq!(
        advanced.validate(&message, &dict),
        format_error(34, "Sequence number must be a positive integer")
    );

    let no_type = frame("34=7|");
    let message = decoder.decode(&no_type).unwrap();
    let unreadable = Err(ValidationError::InvalidMessage {
        reason: "Unable to extract message type".to_string(),
    });
    assert_eq!(simple.validate(&message, &dict), unreadable);
    assert_eq!(advanced.validate(&message, &dict), unreadable);

    let unknown = frame("35=ZZ|34=7|");
    let message = decoder.decode(&unknown).unwrap();
    let unknown_type = Err(ValidationError::UnknownMessageType { msg_type: "ZZ".to_string() });
    assert_eq!(simple.validate(&message, &dict), unknown_type);
    assert_eq!(advanced.validate(&message, &dict), unknown_type);

    let missing = frame("35=D|11=id|54=1|40=2|");
    let message = decoder.decode(&missing).unwrap();
    let missing_60 = Err(ValidationError::RequiredFieldMissing {
        tag: TagU32::new(60).unwrap(),
        msg_type: "D".to_string(),
    });
    assert_eq!(simple.validate(&message, &dict), missing_60);
    assert_eq!(advanced.validate(&message, &dict), missing_60);

    let heartbeat = frame("35=0|34=7|");
    let message = decoder.decode(&heartbeat).unwrap();
    assert_eq!(advanced.validate(&message, &dict), Ok(()));
    assert_eq!(dict.message_by_msgtype("0").unwrap().msg_type(), "0");
    assert_eq!(dict.message_by_msgtype("D").unwrap().layout().len(), 5);
    assert_eq!(dict.messages().len(), 2);
    assert_eq!(dict.field_by_tag(54).unwrap().name(), "Side");
    assert_eq!(dict.field_by_tag(54).unwrap().enums().unwrap().len(), 16);
    assert!(dict.field_by_tag(11).unwrap().enums().is_none());
}
