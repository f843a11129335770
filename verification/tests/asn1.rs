use rustyfix::asn1::tracing::{
    DECODE_BER_SPAN, DECODE_DER_SPAN, DECODE_JER_SPAN, DECODE_OER_SPAN, DECODE_PER_SPAN,
    DECODE_XER_SPAN, ENCODE_BER_SPAN, ENCODE_DER_SPAN, ENCODE_JER_SPAN, ENCODE_OER_SPAN,
    ENCODE_PER_SPAN, ENCODE_XER_SPAN, SCHEMA_COMPILE_SPAN, SCHEMA_LOOKUP_SPAN, SCHEMA_PARSE_SPAN,
    SCHEMA_SERIALIZE_SPAN, SCHEMA_TRANSFORM_SPAN, SCHEMA_VALIDATE_SPAN,
};
use rustyfix::asn1::{
    Asn1Boolean, Asn1Bytes, Asn1FieldError, Asn1Integer, Asn1String, Asn1UInteger, Config,
    FieldBuffer,
    DecodeError, DecodingMetrics, EncodeError, EncodingMetrics, EncodingRule, Error, Field,
    FieldTypeInfo, FixDataType, FixFieldValue, FixMessage, MessageOptions, Schema, SchemaError,
    ToFixFieldValue,
};
use rustyfix::{Dictionary, FieldType, FixDatatype};

#[test]
fn test_encoding_rule_properties() {
    assert!(EncodingRule::BER.is_self_describing());
    assert!(EncodingRule::DER.is_self_describing());
    assert!(!EncodingRule::PER.is_self_describing());

    assert!(EncodingRule::PER.requires_schema());
    assert!(!EncodingRule::BER.requires_schema());
}

#[test]
fn encoding_rules_by_name() {
    let rules = [
        (EncodingRule::BER, "BER", true),
        (EncodingRule::DER, "DER", true),
        (EncodingRule::PER, "PER", false),
        (EncodingRule::APER, "APER", false),
        (EncodingRule::UPER, "UPER", false),
        (EncodingRule::OER, "OER", false),
    ];
    for (rule, name, describes_itself) in rules {
        assert_eq!(rule.name(), name);
        assert_eq!(rule.is_self_describing(), describes_itself);
        assert_eq!(rule.requires_schema(), !describes_itself);
    }
    assert_eq!(EncodingRule::default(), EncodingRule::DER);
    let options =
        MessageOptions { encoding_rule: Some(EncodingRule::OER), compress: true, max_size: None };
    assert_eq!(options.clone().encoding_rule, Some(EncodingRule::OER));
}

#[test]
fn test_encoding_metrics() {
    let mut metrics = EncodingMetrics::new("DER", "NewOrderSingle".to_string());
    metrics.record_field();
    metrics.record_field();
    metrics.complete(256);
}

#[test]
fn test_decoding_metrics() {
    let metrics = DecodingMetrics::new("BER", 512);
    metrics.complete("ExecutionReport", 15);
}

#[test]
fn metrics_report_what_was_counted() {
    let mut metrics = EncodingMetrics::new("DER", "NewOrderSingle".to_string());
    assert_eq!(metrics.field_count(), 0);
    metrics.record_field();
    metrics.record_field();
    assert_eq!(metrics.field_count(), 2);
    assert_eq!(metrics.encoding_rule(), "DER");
    assert_eq!(metrics.message_type(), "NewOrderSingle");
    let report = metrics.complete(256);
    assert_eq!(report.encoding_rule, "DER");
    assert_eq!(report.message_type, "NewOrderSingle");
    assert_eq!(report.field_count, 2);
    assert_eq!(report.encoded_size, 256);

    let metrics = DecodingMetrics::new("BER", 512);
    assert_eq!(metrics.encoding_rule(), "BER");
    assert_eq!(metrics.input_size(), 512);
    let report = metrics.complete("ExecutionReport", 15);
    assert_eq!(report.encoding_rule, "BER");
    assert_eq!(report.message_type, "ExecutionReport");
    assert_eq!(report.field_count, 15);
    assert_eq!(report.input_size, 512);
}

#[test]
fn test_span_constants() {
    // Verify that the span constants have expected values
    assert_eq!(ENCODE_BER_SPAN, "asn1.encode.BER");
    assert_eq!(ENCODE_DER_SPAN, "asn1.encode.DER");
    assert_eq!(ENCODE_OER_SPAN, "asn1.encode.OER");
    assert_eq!(ENCODE_PER_SPAN, "asn1.encode.PER");
    assert_eq!(ENCODE_XER_SPAN, "asn1.encode.XER");
    assert_eq!(ENCODE_JER_SPAN, "asn1.encode.JER");

    assert_eq!(DECODE_BER_SPAN, "asn1.decode.BER");
    assert_eq!(DECODE_DER_SPAN, "asn1.decode.DER");
    assert_eq!(DECODE_OER_SPAN, "asn1.decode.OER");
    assert_eq!(DECODE_PER_SPAN, "asn1.decode.PER");
    assert_eq!(DECODE_XER_SPAN, "asn1.decode.XER");
    assert_eq!(DECODE_JER_SPAN, "asn1.decode.JER");

    assert_eq!(SCHEMA_VALIDATE_SPAN, "asn1.schema.validate");
    assert_eq!(SCHEMA_LOOKUP_SPAN, "asn1.schema.lookup");
    assert_eq!(SCHEMA_COMPILE_SPAN, "asn1.schema.compile");
    assert_eq!(SCHEMA_TRANSFORM_SPAN, "asn1.schema.transform");
    assert_eq!(SCHEMA_PARSE_SPAN, "asn1.schema.parse");
    assert_eq!(SCHEMA_SERIALIZE_SPAN, "asn1.schema.serialize");
}

#[test]
fn test_asn1_string_field_type() {
    let value = Asn1String::from("Hello World");

    // Test serialization
    let mut buffer = FieldBuffer::new();
    let len = value.serialize(&mut buffer);
    assert_eq!(len, 11);
    assert_eq!(buffer.as_slice(), b"Hello World");

    // Test deserialization
    let deserialized =
        Asn1String::deserialize(b"Test String").expect("Failed to deserialize valid UTF-8 string");
    assert_eq!(deserialized.as_str(), "Test String");

    // Test lossy deserialization with invalid UTF-8
    let lossy = Asn1String::deserialize_lossy(b"Valid UTF-8")
        .expect("Lossy deserialization should not fail");
    assert_eq!(lossy.as_str(), "Valid UTF-8");
}

#[test]
fn test_asn1_integer_field_type() {
    let value = Asn1Integer::from(42i64);

    // Test serialization
    let mut buffer = FieldBuffer::new();
    let len = value.serialize(&mut buffer);
    assert_eq!(len, 2);
    assert_eq!(buffer.as_slice(), b"42");

    // Test negative number
    let negative = Asn1Integer::from(-123i64);
    let mut buffer = FieldBuffer::new();
    let len = negative.serialize(&mut buffer);
    assert_eq!(len, 4);
    assert_eq!(buffer.as_slice(), b"-123");

    // Test deserialization
    let deserialized =
        Asn1Integer::deserialize(b"456").expect("Failed to deserialize valid integer");
    assert_eq!(deserialized.value(), 456);

    // Test lossy deserialization
    let lossy = Asn1Integer::deserialize_lossy(b"789abc")
        .expect("Lossy integer deserialization should not fail");
    assert_eq!(lossy.value(), 789);
}

#[test]
fn test_asn1_uinteger_field_type() {
    let value = Asn1UInteger::from(123u64);

    // Test serialization
    let mut buffer = FieldBuffer::new();
    let len = value.serialize(&mut buffer);
    assert_eq!(len, 3);
    assert_eq!(buffer.as_slice(), b"123");

    // Test deserialization
    let deserialized =
        Asn1UInteger::deserialize(b"456").expect("Failed to deserialize valid unsigned integer");
    assert_eq!(deserialized.value(), 456);

    // Test conversion
    let as_u32: u32 = deserialized.try_into().expect("Failed to convert to u32");
    assert_eq!(as_u32, 456);
}

#[test]
fn test_asn1_boolean_field_type() {
    let true_value = Asn1Boolean::from(true);
    let false_value = Asn1Boolean::from(false);

    // Test serialization
    let mut buffer = FieldBuffer::new();
    let len = true_value.serialize(&mut buffer);
    assert_eq!(len, 1);
    assert_eq!(buffer.as_slice(), b"Y");

    let mut buffer = FieldBuffer::new();
    let len = false_value.serialize(&mut buffer);
    assert_eq!(len, 1);
    assert_eq!(buffer.as_slice(), b"N");

    // Test deserialization
    assert!(Asn1Boolean::deserialize(b"Y").expect("Failed to deserialize 'Y' as boolean").value());
    assert!(Asn1Boolean::deserialize(b"1").expect("Failed to deserialize '1' as boolean").value());
    assert!(!Asn1Boolean::deserialize(b"N").expect("Failed to deserialize 'N' as boolean").value());
    assert!(!Asn1Boolean::deserialize(b"0").expect("Failed to deserialize '0' as boolean").value());

    // Test lossy deserialization
    assert!(Asn1Boolean::deserialize_lossy(b"Yes")
        .expect("Lossy boolean deserialization should not fail")
        .value());
    assert!(!Asn1Boolean::deserialize_lossy(b"No")
        .expect("Lossy boolean deserialization should not fail")
        .value());
}

#[test]
fn test_asn1_bytes_field_type() {
    let data = vec![0x01, 0x02, 0x03, 0xFF];
    let value = Asn1Bytes::from(data.clone());

    // Test serialization
    let mut buffer = FieldBuffer::new();
    let len = value.serialize(&mut buffer);
    assert_eq!(len, 4);
    assert_eq!(buffer.as_slice(), &data[..]);

    // Test deserialization
    let deserialized = Asn1Bytes::deserialize(&data).expect("Failed to deserialize byte array");
    assert_eq!(deserialized.as_bytes(), &data[..]);
}

#[test]
fn asn1_values_are_wrapped_and_unwrapped() {
    assert_eq!(Asn1String::new("abc".to_string()).into_string(), "abc");
    assert_eq!(Asn1String::from("abc".to_string()).as_str(), "abc");
    assert_eq!(Asn1Integer::new(-7).value(), -7);
    assert_eq!(Asn1Integer::from(7u32).value(), 7);
    assert_eq!(Asn1Integer::from(-7i32).value(), -7);
    assert_eq!(Asn1UInteger::new(7).value(), 7);
    assert_eq!(Asn1UInteger::from(7u32).value(), 7);
    assert_eq!(Asn1UInteger::from(7u16).value(), 7);
    assert!(Asn1Boolean::new(true).value());
    assert_eq!(Asn1Bytes::new(vec![1, 2]).into_bytes(), vec![1, 2]);
    assert_eq!(Asn1Integer::new(5).to_u32(), Ok(5));
    assert_eq!(Asn1Integer::new(-5).to_u32(), Err(Asn1FieldError::InvalidNumber));
    assert_eq!(Asn1Integer::new(1 << 40).to_u32(), Err(Asn1FieldError::InvalidNumber));
    assert_eq!(Asn1UInteger::new(1 << 40).to_u32(), Err(Asn1FieldError::InvalidNumber));
    assert_eq!(Asn1UInteger::new(65535).to_u16(), Ok(65535));
    assert_eq!(Asn1UInteger::new(65536).to_u16(), Err(Asn1FieldError::InvalidNumber));
    assert_eq!(u32::try_from(Asn1Integer::new(5)), Ok(5));
    assert_eq!(u32::try_from(Asn1Integer::new(-5)), Err(Asn1FieldError::InvalidNumber));
    assert_eq!(u32::try_from(Asn1UInteger::new(1 << 32)), Err(Asn1FieldError::InvalidNumber));
    assert_eq!(u16::try_from(Asn1UInteger::new(9)), Ok(9));
    assert_eq!(u16::try_from(Asn1UInteger::new(70000)), Err(Asn1FieldError::InvalidNumber));
    assert!(bool::from(Asn1Boolean::new(true)));
    assert_eq!(Asn1Bytes::from(&[1u8, 2][..]).as_bytes(), &[1, 2]);
}

#[test]
fn asn1_values_that_cannot_be_read() {
    assert_eq!(Asn1String::deserialize(&[0xff, 0xfe]), Err(Asn1FieldError::Utf8));
    assert_eq!(Asn1String::deserialize_lossy(&[0x61, 0xff]).unwrap().as_str(), "a\u{fffd}");
    assert_eq!(Asn1Integer::deserialize(b"12x"), Err(Asn1FieldError::InvalidNumber));
    assert_eq!(Asn1Integer::deserialize(b""), Err(Asn1FieldError::InvalidNumber));
    assert_eq!(Asn1Integer::deserialize(b"-"), Err(Asn1FieldError::InvalidNumber));
    assert_eq!(
        Asn1Integer::deserialize(b"9223372036854775808"),
        Err(Asn1FieldError::InvalidNumber)
    );
    assert_eq!(Asn1Integer::deserialize(b"-9223372036854775808").unwrap().value(), i64::MIN);
    assert_eq!(Asn1Integer::deserialize(b"+17").unwrap().value(), 17);
    assert_eq!(Asn1UInteger::deserialize(b"-1"), Err(Asn1FieldError::InvalidNumber));
    assert_eq!(Asn1UInteger::deserialize(b"18446744073709551615").unwrap().value(), u64::MAX);
    assert_eq!(
        Asn1UInteger::deserialize(b"18446744073709551616"),
        Err(Asn1FieldError::InvalidNumber)
    );
    assert_eq!(Asn1Boolean::deserialize(b"yes"), Err(Asn1FieldError::InvalidBool));
    assert_eq!(Asn1Boolean::deserialize(b""), Err(Asn1FieldError::InvalidBool));
    for yes in [&b"Y"[..], b"y", b"1", b"true", b"TRUE", b"True"] {
        assert!(Asn1Boolean::deserialize(yes).unwrap().value());
    }
    for no in [&b"N"[..], b"n", b"0", b"false", b"FALSE", b"False"] {
        assert!(!Asn1Boolean::deserialize(no).unwrap().value());
    }
}

#[test]
fn forgiving_readers() {
    assert_eq!(Asn1Integer::deserialize_lossy(b"").unwrap().value(), 0);
    assert_eq!(Asn1Integer::deserialize_lossy(b"-12.5").unwrap().value(), -12);
    assert_eq!(Asn1Integer::deserialize_lossy(b"+8").unwrap().value(), 8);
    assert_eq!(Asn1Integer::deserialize_lossy(b"x").unwrap().value(), 0);
    assert_eq!(
        Asn1Integer::deserialize_lossy(b"99999999999999999999").unwrap().value(),
        i64::MAX
    );
    assert_eq!(
        Asn1Integer::deserialize_lossy(b"-99999999999999999999").unwrap().value(),
        -i64::MAX
    );
    assert_eq!(Asn1UInteger::deserialize_lossy(b"").unwrap().value(), 0);
    assert_eq!(Asn1UInteger::deserialize_lossy(b"+42abc").unwrap().value(), 42);
    assert_eq!(Asn1UInteger::deserialize_lossy(b"-42").unwrap().value(), 0);
    assert_eq!(
        Asn1UInteger::deserialize_lossy(b"99999999999999999999").unwrap().value(),
        u64::MAX
    );
    assert!(!Asn1Boolean::deserialize_lossy(b"").unwrap().value());
    assert!(Asn1Boolean::deserialize_lossy(b"true").unwrap().value());
    assert!(Asn1Boolean::deserialize_lossy(b"t").unwrap().value());
    assert!(!Asn1Boolean::deserialize_lossy(b"0").unwrap().value());
    assert_eq!(Asn1Bytes::deserialize_lossy(&[0, 255]).unwrap().as_bytes(), &[0, 255]);
}

#[test]
fn plain_types_in_fields() {
    let mut buffer: Vec<u8> = b"34=".to_vec();
    assert_eq!(1234usize.serialize(&mut buffer), 4);
    assert_eq!(buffer, b"34=1234".to_vec());
    let mut buffer: Vec<u8> = Vec::new();
    assert_eq!((-17i64).serialize(&mut buffer), 3);
    assert_eq!(0u32.serialize(&mut buffer), 1);
    assert_eq!(i64::MIN.serialize(&mut buffer), 20);
    assert_eq!(u64::MAX.serialize_with(&mut buffer, ()), 20);
    assert_eq!(7i32.serialize(&mut buffer), 1);
    assert_eq!("text".to_string().serialize(&mut buffer), 4);
    assert_eq!((&b"raw"[..]).serialize(&mut buffer), 3);
    assert_eq!(buffer, b"-170-9223372036854775808184467440737095516157textraw".to_vec());
    assert_eq!(usize::deserialize(b"+5"), Ok(5));
    assert_eq!(u32::deserialize(b"4294967295"), Ok(u32::MAX));
    assert!(u32::deserialize(b"4294967296").is_err());
    assert_eq!(i32::deserialize(b"-2147483648"), Ok(i32::MIN));
    assert!(i32::deserialize(b"2147483648").is_err());
    assert_eq!(i64::deserialize_lossy(b"-0"), Ok(0));
    assert!(u64::deserialize(b"").is_err());
    assert_eq!(String::deserialize(b"abc"), Ok("abc".to_string()));
    assert!(String::deserialize(&[0x80]).is_err());
    assert_eq!(<&[u8]>::deserialize(b"abc"), Ok(&b"abc"[..]));
}

#[test]
fn test_field_value_conversions() {
    assert_eq!(42i32.to_fix_field_value(), FixFieldValue::Integer(42));
    assert_eq!(true.to_fix_field_value(), FixFieldValue::Boolean(true));
    assert_eq!(false.to_fix_field_value(), FixFieldValue::Boolean(false));
    assert_eq!("test".to_fix_field_value(), FixFieldValue::String("test".to_string()));
}

#[test]
fn test_message_structure() {
    let msg = FixMessage {
        msg_type: "D".to_string(),
        sender_comp_id: "SENDER".to_string(),
        target_comp_id: "TARGET".to_string(),
        msg_seq_num: 123,
        fields: vec![Field { tag: 55, value: FixFieldValue::String("EUR/USD".to_string()) }],
    };

    assert_eq!(msg.msg_type, "D");
    assert_eq!(msg.fields.len(), 1);
    assert_eq!(msg.fields[0].value, FixFieldValue::String("EUR/USD".to_string()));
}

#[test]
fn test_from_bytes_with_type_integer() {
    let result = FixFieldValue::from_bytes_with_type(b"42", FixDataType::Int);
    assert!(result.is_ok());
    assert_eq!(result.unwrap(), FixFieldValue::Integer(42));

    let result = FixFieldValue::from_bytes_with_type(b"-123", FixDataType::Int);
    assert!(result.is_ok());
    assert_eq!(result.unwrap(), FixFieldValue::Integer(-123));

    // Test invalid integer
    let result = FixFieldValue::from_bytes_with_type(b"abc", FixDataType::Int);
    assert!(result.is_err());
}

#[test]
fn test_from_bytes_with_type_unsigned_integer() {
    let result = FixFieldValue::from_bytes_with_type(b"123", FixDataType::Length);
    assert!(result.is_ok());
    assert_eq!(result.unwrap(), FixFieldValue::UnsignedInteger(123));

    let result = FixFieldValue::from_bytes_with_type(b"0", FixDataType::SeqNum);
    assert!(result.is_ok());
    assert_eq!(result.unwrap(), FixFieldValue::UnsignedInteger(0));

    // Test invalid unsigned integer
    let result = FixFieldValue::from_bytes_with_type(b"-1", FixDataType::Length);
    assert!(result.is_err());
}

#[test]
fn test_from_bytes_with_type_decimal() {
    let result = FixFieldValue::from_bytes_with_type(b"123.45", FixDataType::Price);
    assert!(result.is_ok());
    assert_eq!(result.unwrap(), FixFieldValue::Decimal("123.45".to_string()));

    let result = FixFieldValue::from_bytes_with_type(b"0.001", FixDataType::Percentage);
    assert!(result.is_ok());
    assert_eq!(result.unwrap(), FixFieldValue::Decimal("0.001".to_string()));

    // Test invalid decimal
    let result = FixFieldValue::from_bytes_with_type(b"abc", FixDataType::Float);
    assert!(result.is_err());
}

#[test]
fn test_from_bytes_with_type_boolean() {
    let result = FixFieldValue::from_bytes_with_type(b"Y", FixDataType::Boolean);
    assert!(result.is_ok());
    assert_eq!(result.unwrap(), FixFieldValue::Boolean(true));

    let result = FixFieldValue::from_bytes_with_type(b"N", FixDataType::Boolean);
    assert!(result.is_ok());
    assert_eq!(result.unwrap(), FixFieldValue::Boolean(false));

    // Test invalid boolean
    let result = FixFieldValue::from_bytes_with_type(b"X", FixDataType::Boolean);
    assert!(result.is_err());
}

#[test]
fn test_from_bytes_with_type_character() {
    let result = FixFieldValue::from_bytes_with_type(b"A", FixDataType::Char);
    assert!(result.is_ok());
    assert_eq!(result.unwrap(), FixFieldValue::Character("A".to_string()));

    // Test invalid character (multiple characters)
    let result = FixFieldValue::from_bytes_with_type(b"AB", FixDataType::Char);
    assert!(result.is_err());

    // Test empty character
    let result = FixFieldValue::from_bytes_with_type(b"", FixDataType::Char);
    assert!(result.is_err());
}

#[test]
fn test_from_bytes_with_type_timestamp() {
    let result =
        FixFieldValue::from_bytes_with_type(b"20240101-12:30:45", FixDataType::UtcTimestamp);
    assert!(result.is_ok());
    assert_eq!(result.unwrap(), FixFieldValue::UtcTimestamp("20240101-12:30:45".to_string()));

    let result =
        FixFieldValue::from_bytes_with_type(b"20240101-12:30:45.123", FixDataType::TzTimestamp);
    assert!(result.is_ok());
    assert_eq!(result.unwrap(), FixFieldValue::UtcTimestamp("20240101-12:30:45.123".to_string()));
}

#[test]
fn test_from_bytes_with_type_date() {
    let result = FixFieldValue::from_bytes_with_type(b"20240101", FixDataType::UtcDateOnly);
    assert!(result.is_ok());
    assert_eq!(result.unwrap(), FixFieldValue::UtcDate("20240101".to_string()));

    let result = FixFieldValue::from_bytes_with_type(b"20241231", FixDataType::LocalMktDate);
    assert!(result.is_ok());
    assert_eq!(result.unwrap(), FixFieldValue::UtcDate("20241231".to_string()));
}

#[test]
fn test_from_bytes_with_type_time() {
    let result = FixFieldValue::from_bytes_with_type(b"12:30:45", FixDataType::UtcTimeOnly);
    assert!(result.is_ok());
    assert_eq!(result.unwrap(), FixFieldValue::UtcTime("12:30:45".to_string()));

    let result = FixFieldValue::from_bytes_with_type(b"12:30:45.123", FixDataType::TzTimeOnly);
    assert!(result.is_ok());
    assert_eq!(result.unwrap(), FixFieldValue::UtcTime("12:30:45.123".to_string()));
}

#[test]
fn test_from_bytes_with_type_binary_data() {
    let binary_data = vec![0x01, 0x02, 0x03, 0xFF];
    let result = FixFieldValue::from_bytes_with_type(&binary_data, FixDataType::Data);
    assert!(result.is_ok());
    assert_eq!(result.unwrap(), FixFieldValue::Data(binary_data.clone()));

    let xml_data = b"<xml>test</xml>";
    let result = FixFieldValue::from_bytes_with_type(xml_data, FixDataType::XmlData);
    assert!(result.is_ok());
    assert_eq!(result.unwrap(), FixFieldValue::Data(xml_data.to_vec()));
}

#[test]
fn test_from_bytes_with_type_string() {
    let result = FixFieldValue::from_bytes_with_type(b"EUR/USD", FixDataType::String);
    assert!(result.is_ok());
    assert_eq!(result.unwrap(), FixFieldValue::String("EUR/USD".to_string()));

    let result = FixFieldValue::from_bytes_with_type(b"NYSE", FixDataType::Exchange);
    assert!(result.is_ok());
    assert_eq!(result.unwrap(), FixFieldValue::String("NYSE".to_string()));

    let result = FixFieldValue::from_bytes_with_type(b"USD", FixDataType::Currency);
    assert!(result.is_ok());
    assert_eq!(result.unwrap(), FixFieldValue::String("USD".to_string()));
}

#[test]
fn test_from_bytes_with_type_invalid_utf8() {
    // Test invalid UTF-8 for string types
    let invalid_utf8 = vec![0xFF, 0xFE, 0xFD];
    let result = FixFieldValue::from_bytes_with_type(&invalid_utf8, FixDataType::String);
    assert!(result.is_err());

    let result = FixFieldValue::from_bytes_with_type(&invalid_utf8, FixDataType::Int);
    assert!(result.is_err());

    // But should work for binary data
    let result = FixFieldValue::from_bytes_with_type(&invalid_utf8, FixDataType::Data);
    assert!(result.is_ok());
    assert_eq!(result.unwrap(), FixFieldValue::Data(invalid_utf8));
}

fn schema() -> Schema {
    let mut dict = Dictionary::new("FIX.4.4".to_string());
    dict.add_field(8, "BeginString".to_string(), FixDatatype::String);
    dict.add_field(10, "CheckSum".to_string(), FixDatatype::String);
    dict.add_field(34, "MsgSeqNum".to_string(), FixDatatype::SeqNum);
    dict.add_field(35, "MsgType".to_string(), FixDatatype::String);
    dict.add_field(44, "Price".to_string(), FixDatatype::Price);
    dict.add_field(38, "OrderQty".to_string(), FixDatatype::Quantity);
    dict.add_field(200, "MaturityMonthYear".to_string(), FixDatatype::MonthYear);
    dict.add_field(70000, "Far".to_string(), FixDatatype::Int);
    Schema::new(dict)
}

#[test]
fn test_from_bytes_with_schema() {
    let schema = schema();

    // Test with MsgSeqNum (tag 34) - should be SeqNum type
    let result = FixFieldValue::from_bytes_with_schema(b"123", 34, &schema);
    assert!(result.is_ok());
    assert_eq!(result.unwrap(), FixFieldValue::UnsignedInteger(123));

    // Test with MsgType (tag 35) - should be String type
    let result = FixFieldValue::from_bytes_with_schema(b"D", 35, &schema);
    assert!(result.is_ok());
    assert_eq!(result.unwrap(), FixFieldValue::String("D".to_string()));

    // Test with unknown tag
    let result = FixFieldValue::from_bytes_with_schema(b"test", 9999, &schema);
    assert!(result.is_err());
}

#[test]
fn schema_of_a_dictionary() {
    let schema = schema();
    assert_eq!(schema.field_count(), 8);
    assert_eq!(schema.dictionary().fields().len(), 8);
    assert_eq!(
        schema.get_field_type(34),
        Some(&FieldTypeInfo { fix_type: FixDataType::SeqNum, in_header: true, in_trailer: false })
    );
    assert_eq!(
        schema.get_field_type(10),
        Some(&FieldTypeInfo { fix_type: FixDataType::String, in_header: false, in_trailer: true })
    );
    assert_eq!(
        schema.get_field_type(38),
        Some(&FieldTypeInfo { fix_type: FixDataType::Qty, in_header: false, in_trailer: false })
    );
    assert_eq!(schema.get_field_type(200).unwrap().fix_type, FixDataType::String);
    // A tag is kept by its lower 16 bits.
    assert_eq!(schema.get_field_type(4464).unwrap().fix_type, FixDataType::Int);
    assert_eq!(schema.get_field_type(4465), None);
    assert_eq!(
        schema.map_dictionary_type_to_schema_type_public(FixDatatype::MultipleStringValue),
        FixDataType::MultipleValueString
    );
    assert_eq!(
        Schema::map_dictionary_type_to_schema_type(FixDatatype::Country),
        FixDataType::String
    );
    assert_eq!(Schema::determine_field_location(52), (true, false));
    assert_eq!(Schema::determine_field_location(93), (false, true));
    assert_eq!(Schema::determine_field_location(55), (false, false));
    assert_eq!(
        FixFieldValue::from_bytes_with_schema(b"x", 34, &schema),
        Err(SchemaError::InvalidValue { reason: "Invalid unsigned integer: x".to_string() })
    );
    assert_eq!(
        FixFieldValue::from_bytes_with_schema(b"1", 9999, &schema),
        Err(SchemaError::UnknownTag { tag: 9999 })
    );
}

#[test]
fn test_optimization_binary_data_no_string_conversion() {
    // Test that binary data doesn't go through string conversion
    let binary_data = vec![0x00, 0x01, 0x02, 0xFF, 0xFE, 0xFD]; // Invalid UTF-8
    let result = FixFieldValue::from_bytes_with_type(&binary_data, FixDataType::Data);
    assert!(result.is_ok());
    if let FixFieldValue::Data(data) = result.unwrap() {
        assert_eq!(data, binary_data);
    } else {
        panic!("Expected Data variant");
    }
}

#[test]
fn test_optimization_boolean_byte_comparison() {
    // Test that boolean comparison uses byte arrays directly
    let result = FixFieldValue::from_bytes_with_type(b"Y", FixDataType::Boolean);
    assert!(result.is_ok());
    assert_eq!(result.unwrap(), FixFieldValue::Boolean(true));

    let result = FixFieldValue::from_bytes_with_type(b"N", FixDataType::Boolean);
    assert!(result.is_ok());
    assert_eq!(result.unwrap(), FixFieldValue::Boolean(false));
}

#[test]
fn complaints_of_from_bytes_with_type() {
    let bad = [0xffu8];
    let cases: Vec<(&[u8], FixDataType, &str)> = vec![
        (b"abc", FixDataType::Int, "Invalid integer: abc"),
        (&bad, FixDataType::Int, "Invalid UTF-8 for integer field"),
        (b"-1", FixDataType::Length, "Invalid unsigned integer: -1"),
        (&bad, FixDataType::NumInGroup, "Invalid UTF-8 for unsigned integer field"),
        (b"1,5", FixDataType::Price, "Invalid decimal: 1,5"),
        (&bad, FixDataType::Qty, "Invalid UTF-8 for decimal field"),
        (b"AB", FixDataType::Char, "Character field must be exactly 1 character, got: AB"),
        (&bad, FixDataType::Char, "Invalid UTF-8 for character field"),
        (b"X", FixDataType::Boolean, "Boolean field must be Y or N, got: X"),
        (&bad, FixDataType::Boolean, "Invalid UTF-8 for boolean field"),
        (&bad, FixDataType::UtcTimestamp, "Invalid UTF-8 for timestamp field"),
        (&bad, FixDataType::LocalMktDate, "Invalid UTF-8 for date field"),
        (&bad, FixDataType::TzTimeOnly, "Invalid UTF-8 for time field"),
        (&bad, FixDataType::Tenor, "Invalid UTF-8 for string field"),
    ];
    for (bytes, fix_type, complaint) in cases {
        assert_eq!(
            FixFieldValue::from_bytes_with_type(bytes, fix_type),
            Err(complaint.to_string())
        );
    }
}

#[test]
fn decimals_are_what_rust_reads_as_numbers_with_a_fraction() {
    let good: &[&str] = &[
        "0", "123.45", "-0.5", "+7", "1.", ".5", "1e5", "1E-5", "1.e+5", ".5e0", "inf", "-inf",
        "+Infinity", "NaN", "nan", "INFINITY", "007",
    ];
    let bad: &[&str] = &[
        "", "+", "-", ".", "e5", "1e", "1e+", "1.2.3", "1 ", " 1", "0x10", "1_0", "infinit",
        "nanx", "--1", "1e5.0", "abc", "1,5",
    ];
    for text in good {
        assert_eq!(text.parse::<f64>().is_ok(), true, "{text}");
        assert_eq!(
            FixFieldValue::from_bytes_with_type(text.as_bytes(), FixDataType::Float),
            Ok(FixFieldValue::Decimal(text.to_string())),
            "{text}"
        );
    }
    for text in bad {
        assert_eq!(text.parse::<f64>().is_ok(), false, "{text}");
        assert!(
            FixFieldValue::from_bytes_with_type(text.as_bytes(), FixDataType::Float).is_err(),
            "{text}"
        );
    }
}

#[test]
fn values_as_text_and_as_bytes() {
    let cases: Vec<(FixFieldValue, &str)> = vec![
        (FixFieldValue::String("EUR/USD".to_string()), "EUR/USD"),
        (FixFieldValue::Integer(-42), "-42"),
        (FixFieldValue::Integer(0), "0"),
        (FixFieldValue::Integer(i64::MIN), "-9223372036854775808"),
        (FixFieldValue::UnsignedInteger(18446744073709551615), "18446744073709551615"),
        (FixFieldValue::Decimal("1.50".to_string()), "1.50"),
        (FixFieldValue::Boolean(true), "Y"),
        (FixFieldValue::Boolean(false), "N"),
        (FixFieldValue::Character("A".to_string()), "A"),
        (FixFieldValue::UtcTimestamp("20240101-12:30:45".to_string()), "20240101-12:30:45"),
        (FixFieldValue::UtcDate("20240101".to_string()), "20240101"),
        (FixFieldValue::UtcTime("12:30:45".to_string()), "12:30:45"),
        (FixFieldValue::Data(b"raw".to_vec()), "raw"),
        (FixFieldValue::Raw("?".to_string()), "?"),
    ];
    for (value, text) in cases {
        assert_eq!(value.to_string(), text);
        assert_eq!(value.as_bytes(), text.as_bytes().to_vec());
    }
    let data = FixFieldValue::Data(vec![0x61, 0xff]);
    assert_eq!(data.to_string(), "a\u{fffd}");
    assert_eq!(data.as_bytes(), vec![0x61, 0xff]);
    assert_eq!(7u32.to_fix_field_value(), FixFieldValue::UnsignedInteger(7));
    assert_eq!(7u64.to_fix_field_value(), FixFieldValue::UnsignedInteger(7));
    assert_eq!((-7i64).to_fix_field_value(), FixFieldValue::Integer(-7));
    assert_eq!("x".to_string().to_fix_field_value(), FixFieldValue::String("x".to_string()));
}

#[test]
fn test_config_presets() {
    let low_latency = Config::low_latency();
    assert_eq!(low_latency.encoding_rule, EncodingRule::PER);
    assert!(!low_latency.validate_checksums);

    let high_reliability = Config::high_reliability();
    assert_eq!(high_reliability.encoding_rule, EncodingRule::DER);
    assert!(high_reliability.validate_checksums);
}

#[test]
fn test_message_options() {
    let mut config = Config::default();
    let options =
        MessageOptions { encoding_rule: Some(EncodingRule::OER), compress: true, max_size: Some(1024) };

    config.set_message_options("NewOrderSingle", options.clone());
    let retrieved = config
        .get_message_options("NewOrderSingle")
        .expect("Failed to retrieve message options for test");
    assert_eq!(retrieved.encoding_rule, Some(EncodingRule::OER));
    assert!(retrieved.compress);
}

#[test]
fn every_setting_of_the_presets() {
    let config = Config::default();
    assert_eq!(config.encoding_rule, EncodingRule::DER);
    assert_eq!(config.max_message_size, 64 * 1024);
    assert_eq!(config.max_recursion_depth, 32);
    assert!(config.validate_checksums);
    assert!(config.strict_type_checking);
    assert_eq!(config.stream_buffer_size, 8 * 1024);
    assert!(config.enable_zero_copy);
    assert!(config.message_options.is_empty());

    let config = Config::new(EncodingRule::OER);
    assert_eq!(config.encoding_rule, EncodingRule::OER);
    assert_eq!(config.max_message_size, 64 * 1024);
    assert!(config.validate_checksums);

    let config = Config::low_latency();
    assert_eq!(config.max_message_size, 16 * 1024);
    assert!(!config.strict_type_checking);
    assert!(config.enable_zero_copy);
    assert_eq!(config.max_recursion_depth, 32);
    assert_eq!(config.stream_buffer_size, 8 * 1024);

    let config = Config::high_reliability();
    assert_eq!(config.max_message_size, 64 * 1024);
    assert!(config.strict_type_checking);
    assert!(!config.enable_zero_copy);
}

#[test]
fn the_latest_options_of_a_type_count() {
    let mut config = Config::default();
    assert_eq!(config.get_message_options("D"), None);
    let first = MessageOptions { encoding_rule: None, compress: false, max_size: None };
    let second = MessageOptions { encoding_rule: None, compress: true, max_size: Some(7) };
    config.set_message_options("D", first);
    config.set_message_options("8", first);
    config.set_message_options("D", second);
    assert_eq!(config.get_message_options("D"), Some(second));
    assert_eq!(config.get_message_options("8"), Some(first));
    assert_eq!(config.get_message_options(""), None);
}

#[test]
fn test_error_display() {
    let err = EncodeError::MessageTooLarge { size: 100_000, max_size: 65_536 };
    assert_eq!(err.to_string(), "Message size 100000 exceeds maximum 65536");
}

#[test]
fn test_error_conversion() {
    let encode_err = EncodeError::Internal("test error".to_string());
    let main_error: Error = encode_err.into();
    assert!(matches!(main_error, Error::Encode(_)));
}

#[test]
fn the_text_of_every_error_of_the_codec() {
    let s = |text: &str| text.to_string();
    let encode: Vec<(EncodeError, &str)> = vec![
        (
            EncodeError::InvalidFieldValue { tag: 44, reason: s("why") },
            "Invalid field value for tag 44: why",
        ),
        (
            EncodeError::RequiredFieldMissing { tag: 35, name: s("MsgType") },
            "Required field 35 (MsgType) is missing",
        ),
        (
            EncodeError::UnsupportedEncodingRule { rule: "PER", msg_type: s("D") },
            "Encoding rule PER not supported for message type D",
        ),
        (
            EncodeError::BufferCapacityExceeded { needed: 10, available: 0 },
            "Buffer capacity exceeded: needed 10, available 0",
        ),
        (EncodeError::SchemaMismatch(s("x")), "Schema mismatch: x"),
        (EncodeError::Internal(s("x")), "Internal ASN.1 encoding error: x"),
    ];
    for (error, text) in encode {
        assert_eq!(error.to_string(), text);
        assert_eq!(Error::Encode(error).to_string(), format!("Encoding error: {text}"));
    }
    let decode: Vec<(DecodeError, &str)> = vec![
        (DecodeError::InvalidTag { tag: 0x0a, offset: 3 }, "Invalid ASN.1 tag 0A at offset 3"),
        (DecodeError::InvalidTag { tag: 0xff, offset: 0 }, "Invalid ASN.1 tag FF at offset 0"),
        (
            DecodeError::UnexpectedEof { offset: 5, needed: 2 },
            "Unexpected end of input at offset 5, needed 2 more bytes",
        ),
        (DecodeError::InvalidLength { offset: 1 }, "Invalid length encoding at offset 1"),
        (
            DecodeError::ConstraintViolation { field: s("MsgType"), reason: s("why") },
            "Value constraint violation for field MsgType: why",
        ),
        (
            DecodeError::ChecksumMismatch { expected: 7, actual: 8 },
            "Checksum validation failed: expected 7, got 8",
        ),
        (
            DecodeError::RecursionDepthExceeded { max_depth: 32 },
            "Maximum recursion depth 32 exceeded",
        ),
        (DecodeError::InvalidUtf8 { offset: 9 }, "Invalid UTF-8 in string field at offset 9"),
        (
            DecodeError::UnsupportedEncodingRule("PER"),
            "Unsupported encoding rule for decoding: PER",
        ),
        (
            DecodeError::SchemaRequired { encoding_rule: "OER" },
            "Schema required for OER decoding but not provided",
        ),
        (DecodeError::Internal(s("x")), "Internal ASN.1 decoding error: x"),
    ];
    for (error, text) in decode {
        assert_eq!(error.to_string(), text);
        let wrapped: Error = error.into();
        assert_eq!(wrapped.to_string(), format!("Decoding error: {text}"));
    }
    assert_eq!(Error::Schema(s("x")).to_string(), "Schema error: x");
    assert_eq!(Error::Config(s("x")).to_string(), "Configuration error: x");
    assert_eq!(Error::Asn1(s("x")).to_string(), "ASN.1 library error: x");
}

#[test]
fn circumstances_are_added_to_internal_errors_only() {
    let s = |text: &str| text.to_string();
    assert_eq!(
        Error::Encode(EncodeError::Internal(s("boom"))).context("while encoding"),
        Error::Encode(EncodeError::SchemaMismatch(s("while encoding: boom")))
    );
    assert_eq!(
        Error::Decode(DecodeError::Internal(s("boom"))).context("while decoding"),
        Error::Schema(s("while decoding: boom"))
    );
    assert_eq!(Error::Config(s("c")).context("anything"), Error::Config(s("c")));
    assert_eq!(
        Error::Encode(EncodeError::Internal(s("boom"))).field_context(44, "Price"),
        Error::Encode(EncodeError::InvalidFieldValue { tag: 44, reason: s("Price - boom") })
    );
    assert_eq!(
        Error::Decode(DecodeError::Internal(s("boom"))).field_context(44, "Price"),
        Error::Decode(DecodeError::Internal(s("boom")))
    );
}

#[test]
fn the_best_type_of_a_text() {
    let cases: Vec<(&str, FixFieldValue)> = vec![
        ("-42", FixFieldValue::Integer(-42)),
        ("42", FixFieldValue::UnsignedInteger(42)),
        ("+42", FixFieldValue::UnsignedInteger(42)),
        ("0", FixFieldValue::UnsignedInteger(0)),
        ("18446744073709551615", FixFieldValue::UnsignedInteger(u64::MAX)),
        ("18446744073709551616", FixFieldValue::String("18446744073709551616".to_string())),
        ("-", FixFieldValue::Character("-".to_string())),
        ("-x", FixFieldValue::String("-x".to_string())),
        ("Y", FixFieldValue::Boolean(true)),
        ("N", FixFieldValue::Boolean(false)),
        ("y", FixFieldValue::Character("y".to_string())),
        ("", FixFieldValue::String(String::new())),
        ("20240101-12:30:45", FixFieldValue::UtcTimestamp("20240101-12:30:45".to_string())),
        ("20240101-12:30:45.123", FixFieldValue::UtcTimestamp("20240101-12:30:45.123".to_string())),
        ("20241301-12:30:45", FixFieldValue::String("20241301-12:30:45".to_string())),
        ("12:30:45", FixFieldValue::UtcTime("12:30:45".to_string())),
        ("12:30:45.123", FixFieldValue::UtcTime("12:30:45.123".to_string())),
        ("25:30:45", FixFieldValue::String("25:30:45".to_string())),
        ("EUR/USD", FixFieldValue::String("EUR/USD".to_string())),
        ("1.5", FixFieldValue::String("1.5".to_string())),
        // Eight digits are a number before they are a date.
        ("20240101", FixFieldValue::UnsignedInteger(20240101)),
    ];
    for (text, value) in cases {
        assert_eq!(FixFieldValue::from_string(text.to_string()), value, "{text}");
    }
}

#[test]
fn the_best_type_of_a_text_given_what_is_known_of_it() {
    let probes = |timestamp: bool, date: bool, time: bool| rustyfix::asn1::time::TimeProbes {
        timestamp,
        date,
        time,
    };
    let s = |text: &str| text.to_string();
    assert_eq!(
        FixFieldValue::from_string_with(s("abcdefgh"), probes(true, true, true)),
        FixFieldValue::UtcTimestamp(s("abcdefgh"))
    );
    assert_eq!(
        FixFieldValue::from_string_with(s("abcdefgh"), probes(false, true, true)),
        FixFieldValue::UtcDate(s("abcdefgh"))
    );
    // A date has eight bytes.
    assert_eq!(
        FixFieldValue::from_string_with(s("abcdefghi"), probes(false, true, true)),
        FixFieldValue::UtcTime(s("abcdefghi"))
    );
    assert_eq!(
        FixFieldValue::from_string_with(s("abcdefghi"), probes(false, true, false)),
        FixFieldValue::String(s("abcdefghi"))
    );
    // Numbers, booleans and single characters come first.
    assert_eq!(
        FixFieldValue::from_string_with(s("7"), probes(true, true, true)),
        FixFieldValue::UnsignedInteger(7)
    );
    assert_eq!(
        FixFieldValue::from_string_with(s("N"), probes(true, true, true)),
        FixFieldValue::Boolean(false)
    );
    assert_eq!(
        FixFieldValue::from_string_with(s("x"), probes(true, true, true)),
        FixFieldValue::Character(s("x"))
    );
    let asked = rustyfix::asn1::time::probe_times("20240229");
    assert_eq!(asked, probes(false, true, false));
    let asked = rustyfix::asn1::time::probe_times("20230229");
    assert_eq!(asked, probes(false, false, false));
    let asked = rustyfix::asn1::time::probe_times("23:59:59.999");
    assert_eq!(asked, probes(false, false, true));
}

fn typed_schema() -> Schema {
    let mut dict = Dictionary::new("FIX.4.4".to_string());
    dict.add_field(1, "Account".to_string(), FixDatatype::String);
    dict.add_field(34, "MsgSeqNum".to_string(), FixDatatype::SeqNum);
    dict.add_field(43, "PossDupFlag".to_string(), FixDatatype::Boolean);
    dict.add_field(44, "Price".to_string(), FixDatatype::Price);
    dict.add_field(52, "SendingTime".to_string(), FixDatatype::UtcTimestamp);
    dict.add_field(54, "Side".to_string(), FixDatatype::Char);
    dict.add_field(68, "TotNoOrders".to_string(), FixDatatype::Int);
    dict.add_field(75, "TradeDate".to_string(), FixDatatype::LocalMktDate);
    dict.add_field(95, "RawDataLength".to_string(), FixDatatype::Length);
    dict.add_field(96, "RawData".to_string(), FixDatatype::Data);
    dict.add_field(272, "MDEntryDate".to_string(), FixDatatype::UtcDateOnly);
    dict.add_field(273, "MDEntryTime".to_string(), FixDatatype::UtcTimeOnly);
    Schema::new(dict)
}

#[test]
fn values_are_checked_against_the_schema() {
    let schema = typed_schema();
    let text = |tag: u16, value: &str| schema.map_field_type(tag, value.as_bytes());
    let ok = |value: &str| Ok(value.to_string());
    let complaint = |text: &str| Err(Error::Schema(text.to_string()));
    assert_eq!(text(1, "anything"), ok("anything"));
    assert_eq!(text(68, "-12"), ok("-12"));
    assert_eq!(text(68, "1.2"), complaint("Invalid integer value for tag 68: 1.2"));
    assert_eq!(text(34, "12"), ok("12"));
    assert_eq!(text(95, "-1"), complaint("Invalid unsigned integer value for tag 95: -1"));
    assert_eq!(text(44, "1.25"), ok("1.25"));
    assert_eq!(text(44, "1,25"), complaint("Invalid decimal value for tag 44: 1,25"));
    assert_eq!(text(54, "1"), ok("1"));
    assert_eq!(text(54, "12"), complaint("Char field tag 54 must be exactly 1 character, got: 12"));
    assert_eq!(text(43, "Y"), ok("Y"));
    assert_eq!(text(43, "N"), ok("N"));
    assert_eq!(text(43, "yes"), complaint("Boolean field tag 43 must be Y or N, got: yes"));
    assert_eq!(text(52, "20240101-12:30:45"), ok("20240101-12:30:45"));
    assert_eq!(text(52, "20240101-12:30:45.123456"), ok("20240101-12:30:45.123456"));
    assert_eq!(
        text(52, "20240101 12:30:45"),
        complaint("Invalid UTC timestamp format for tag 52: 20240101 12:30:45")
    );
    assert_eq!(text(272, "20240229"), ok("20240229"));
    assert_eq!(text(272, "20230229"), complaint("Invalid UTC date format for tag 272: 20230229"));
    assert_eq!(text(273, "12:30:45.5"), ok("12:30:45.5"));
    assert_eq!(text(273, "12:61:45"), complaint("Invalid UTC time format for tag 273: 12:61:45"));
    assert_eq!(text(75, "20241231"), ok("20241231"));
    assert_eq!(
        text(75, "20241232"),
        complaint("Invalid local market date format for tag 75: 20241232")
    );
    assert_eq!(text(96, "<xml/>"), ok("<xml/>"));
    assert_eq!(text(9999, "x"), complaint("Unknown field tag: 9999"));
    assert_eq!(
        schema.map_field_type(1, &[0xff]),
        Err(Error::Decode(DecodeError::InvalidUtf8 { offset: 0 }))
    );
    assert!(Schema::is_valid_utc_timestamp("20240101-00:00:00"));
    assert!(!Schema::is_valid_utc_timestamp("20240101"));
    assert!(Schema::is_valid_utc_date("20240101"));
    assert!(!Schema::is_valid_utc_date("2024-01-01"));
    assert!(Schema::is_valid_utc_time("23:59:59"));
    assert!(!Schema::is_valid_utc_time("24:00:00"));
}

/// A dictionary with fields of many types and a few messages.
fn fix44() -> Dictionary {
    let mut dict = Dictionary::new("FIX.4.4".to_string());
    let fields: &[(u32, &str, FixDatatype)] = &[
        (8, "BeginString", FixDatatype::String),
        (9, "BodyLength", FixDatatype::Length),
        (10, "CheckSum", FixDatatype::String),
        (15, "Currency", FixDatatype::Currency),
        (34, "MsgSeqNum", FixDatatype::SeqNum),
        (35, "MsgType", FixDatatype::String),
        (38, "OrderQty", FixDatatype::Quantity),
        (43, "PossDupFlag", FixDatatype::Boolean),
        (44, "Price", FixDatatype::Price),
        (52, "SendingTime", FixDatatype::UtcTimestamp),
        (54, "Side", FixDatatype::Char),
        (55, "Symbol", FixDatatype::String),
        (98, "EncryptMethod", FixDatatype::Int),
        (108, "HeartBtInt", FixDatatype::Int),
        (112, "TestReqID", FixDatatype::String),
        (200, "MaturityMonthYear", FixDatatype::MonthYear),
        (262, "MDReqID", FixDatatype::String),
        (263, "SubscriptionRequestType", FixDatatype::Char),
        (264, "MarketDepth", FixDatatype::Int),
        (421, "Country", FixDatatype::Country),
    ];
    for (tag, name, data_type) in fields {
        dict.add_field(*tag, name.to_string(), *data_type);
    }
    let item = |tag: u32, required: bool| rustyfix::LayoutItem {
        tag: rustyfix::TagU32::new(tag).unwrap(),
        required,
    };
    dict.add_message("0".to_string(), "Heartbeat".to_string(), vec![item(112, false)]);
    dict.add_message(
        "A".to_string(),
        "Logon".to_string(),
        vec![item(98, true), item(108, true), item(112, false)],
    );
    dict.add_message(
        "D".to_string(),
        "NewOrderSingle".to_string(),
        vec![item(55, true), item(54, true), item(38, false), item(44, false)],
    );
    dict.add_message(
        "V".to_string(),
        "MarketDataRequest".to_string(),
        vec![item(262, true), item(263, true), item(264, true)],
    );
    dict
}

#[test]
fn test_schema_creation() {
    let dict = fix44();
    let schema = Schema::new(dict);

    // Check header fields
    let field_8 = schema.get_field_type(8).expect("Field 8 should exist in FIX 4.4 dictionary");
    assert_eq!(field_8.fix_type, FixDataType::String);
    assert!(field_8.in_header);

    // Check message schemas - they should now be extracted from dictionary
    let logon =
        schema.get_message_schema("A").expect("Logon message should exist in FIX 4.4 dictionary");
    assert_eq!(logon.msg_type, "A");

    // The schema should contain more messages than just the hardcoded ones
    assert!(schema.message_count() > 3, "Schema should contain many messages from dictionary");
}

#[test]
fn test_dictionary_driven_field_extraction() {
    let dict = fix44();
    let schema = Schema::new(dict.clone());

    // Test that all dictionary fields are extracted
    let dict_fields = dict.fields();
    assert!(!dict_fields.is_empty(), "Dictionary should have fields");

    // Check that schema contains all dictionary fields
    for field in dict_fields {
        let tag = field.tag() as u16;
        let field_info = schema
            .get_field_type(tag)
            .unwrap_or_else(|| panic!("Field {tag} should exist in schema"));

        // Verify the mapping worked correctly
        let expected_type = Schema::map_dictionary_type_to_schema_type(field.data_type());
        assert_eq!(field_info.fix_type, expected_type, "Field {tag} type mapping incorrect");
    }
}

#[test]
fn test_dictionary_driven_message_extraction() {
    let dict = fix44();
    let schema = Schema::new(dict.clone());

    // Test that all dictionary messages are extracted
    let dict_messages = dict.messages();
    assert!(!dict_messages.is_empty(), "Dictionary should have messages");

    // Check that schema contains all dictionary messages
    for message in dict_messages {
        let msg_type = message.msg_type();
        let message_schema = schema
            .get_message_schema(msg_type)
            .unwrap_or_else(|| panic!("Message {msg_type} should exist in schema"));

        assert_eq!(message_schema.msg_type, msg_type);

        let total_fields =
            message_schema.required_fields.len() + message_schema.optional_fields.len();
        assert_eq!(total_fields, message.layout().len());
    }
}

#[test]
fn test_field_location_detection() {
    let dict = fix44();
    let schema = Schema::new(dict);

    // Test known header fields
    let begin_string = schema.get_field_type(8).expect("BeginString should exist");
    assert!(begin_string.in_header, "BeginString should be in header");
    assert!(!begin_string.in_trailer, "BeginString should not be in trailer");

    let msg_type = schema.get_field_type(35).expect("MsgType should exist");
    assert!(msg_type.in_header, "MsgType should be in header");
    assert!(!msg_type.in_trailer, "MsgType should not be in trailer");

    // Test known trailer fields
    let checksum = schema.get_field_type(10).expect("CheckSum should exist");
    assert!(!checksum.in_header, "CheckSum should not be in header");
    assert!(checksum.in_trailer, "CheckSum should be in trailer");

    // Test a body field (Symbol)
    if let Some(symbol) = schema.get_field_type(55) {
        assert!(!symbol.in_header, "Symbol should not be in header");
        assert!(!symbol.in_trailer, "Symbol should not be in trailer");
    }
}

#[test]
fn test_data_type_mapping() {
    let dict = fix44();
    let schema = Schema::new(dict);

    // Test various data type mappings
    let test_cases = [
        (FixDatatype::Int, FixDataType::Int),
        (FixDatatype::Float, FixDataType::Float),
        (FixDatatype::String, FixDataType::String),
        (FixDatatype::Boolean, FixDataType::Boolean),
        (FixDatatype::Char, FixDataType::Char),
        (FixDatatype::Price, FixDataType::Price),
        (FixDatatype::Quantity, FixDataType::Qty),
        (FixDatatype::UtcTimestamp, FixDataType::UtcTimestamp),
        (FixDatatype::UtcDateOnly, FixDataType::UtcDateOnly),
        (FixDatatype::UtcTimeOnly, FixDataType::UtcTimeOnly),
        (FixDatatype::Currency, FixDataType::Currency),
        (FixDatatype::Exchange, FixDataType::Exchange),
        (FixDatatype::Data, FixDataType::Data),
        (FixDatatype::Language, FixDataType::Language),
        (FixDatatype::MonthYear, FixDataType::String), // Maps to String
        (FixDatatype::Country, FixDataType::String),   // Maps to String
    ];

    for (dict_type, expected_schema_type) in test_cases {
        let mapped_type = schema.map_dictionary_type_to_schema_type_public(dict_type);
        assert_eq!(
            mapped_type, expected_schema_type,
            "Mapping for {dict_type:?} should be {expected_schema_type:?}"
        );
    }
}

#[test]
fn test_schema_backward_compatibility() {
    let dict = fix44();
    let schema = Schema::new(dict);

    // Test field type lookup
    let field_type = schema.get_field_type(35);
    assert!(field_type.is_some(), "Should be able to get field type");

    // Test message schema lookup
    let message_schema = schema.get_message_schema("0"); // Heartbeat
    assert!(message_schema.is_some(), "Should be able to get message schema");

    // Test field type mapping
    let result = schema.map_field_type(35, b"0");
    assert!(result.is_ok(), "Should be able to map field type");
    assert_eq!(result.unwrap(), "0");
}

#[test]
fn test_group_processing() {
    let dict = fix44();
    let schema = Schema::new(dict);

    // Find a message with groups (Market Data Request typically has groups)
    if let Some(md_request) = schema.get_message_schema("V") {
        let _ = md_request.groups.len(); // Group count is valid by construction
    }
}

#[test]
fn test_field_type_mapping() {
    let dict = fix44();
    let schema = Schema::new(dict);

    // Find a boolean field if it exists
    if let Some(bool_field) =
        schema.field_types().iter().find(|(_, info)| info.fix_type == FixDataType::Boolean)
    {
        let tag = bool_field.0;
        let result = schema.map_field_type(tag, b"Y");
        assert!(result.is_ok(), "Boolean Y should be valid");
        assert_eq!(result.unwrap(), "Y");

        let result = schema.map_field_type(tag, b"N");
        assert!(result.is_ok(), "Boolean N should be valid");
        assert_eq!(result.unwrap(), "N");

        // Test invalid boolean
        let result = schema.map_field_type(tag, b"X");
        assert!(result.is_err(), "Invalid boolean should fail");
    }

    // Test integer mapping with MsgSeqNum (tag 34)
    if let Some(seq_num_field) = schema.get_field_type(34) {
        assert_eq!(seq_num_field.fix_type, FixDataType::SeqNum);

        let result = schema.map_field_type(34, b"123");
        assert!(result.is_ok(), "Valid sequence number should pass");
        assert_eq!(result.unwrap(), "123");

        let result = schema.map_field_type(34, b"abc");
        assert!(result.is_err(), "Invalid sequence number should fail");
    }

    // Test string mapping with MsgType (tag 35)
    if let Some(msg_type_field) = schema.get_field_type(35) {
        assert_eq!(msg_type_field.fix_type, FixDataType::String);

        let result = schema.map_field_type(35, b"D");
        assert!(result.is_ok(), "Valid message type should pass");
        assert_eq!(result.unwrap(), "D");
    }

    // Test with a price field if available
    if let Some(price_field) =
        schema.field_types().iter().find(|(_, info)| info.fix_type == FixDataType::Price)
    {
        let tag = price_field.0;
        let result = schema.map_field_type(tag, b"123.45");
        assert!(result.is_ok(), "Valid price should pass");
        assert_eq!(result.unwrap(), "123.45");

        let result = schema.map_field_type(tag, b"invalid");
        assert!(result.is_err(), "Invalid price should fail");
    }

    // Test with a char field if available
    if let Some(char_field) =
        schema.field_types().iter().find(|(_, info)| info.fix_type == FixDataType::Char)
    {
        let tag = char_field.0;
        let result = schema.map_field_type(tag, b"A");
        assert!(result.is_ok(), "Single character should pass");
        assert_eq!(result.unwrap(), "A");

        let result = schema.map_field_type(tag, b"AB");
        assert!(result.is_err(), "Multiple characters should fail");
    }
}

#[test]
fn test_date_time_validation() {
    // Test valid UTC timestamp
    assert!(Schema::is_valid_utc_timestamp("20240101-12:30:45"));
    assert!(Schema::is_valid_utc_timestamp("20240101-12:30:45.123"));

    // Test invalid UTC timestamp
    assert!(!Schema::is_valid_utc_timestamp("2024-01-01 12:30:45"));
    assert!(!Schema::is_valid_utc_timestamp("20240101-25:30:45"));
    assert!(!Schema::is_valid_utc_timestamp("20240101-12:70:45"));

    // Test valid UTC date
    assert!(Schema::is_valid_utc_date("20240101"));
    assert!(Schema::is_valid_utc_date("20241231"));

    // Test invalid UTC date
    assert!(!Schema::is_valid_utc_date("2024-01-01"));
    assert!(!Schema::is_valid_utc_date("20241301")); // Invalid month
    assert!(!Schema::is_valid_utc_date("20240132")); // Invalid day

    // Test valid UTC time
    assert!(Schema::is_valid_utc_time("12:30:45"));
    assert!(Schema::is_valid_utc_time("12:30:45.123"));

    // Test invalid UTC time
    assert!(!Schema::is_valid_utc_time("25:30:45"));
    assert!(!Schema::is_valid_utc_time("12:70:45"));
    assert!(!Schema::is_valid_utc_time("12:30:70"));
}

#[test]
fn the_schema_of_a_message() {
    let schema = Schema::new(fix44());
    assert_eq!(schema.message_count(), 4);
    let order = schema.get_message_schema("D").unwrap();
    assert_eq!(order.msg_type, "D");
    assert_eq!(order.required_fields, vec![55, 54]);
    assert_eq!(order.optional_fields, vec![38, 44]);
    assert!(order.groups.is_empty());
    assert!(schema.get_message_schema("ZZ").is_none());
    let mut entries = schema.field_types();
    assert_eq!(entries.len(), schema.field_count());
    entries.sort_by_key(|entry| entry.0);
    let tags: Vec<u16> = entries.iter().map(|entry| entry.0).collect();
    assert_eq!(
        tags,
        vec![8, 9, 10, 15, 34, 35, 38, 43, 44, 52, 54, 55, 98, 108, 112, 200, 262, 263, 264, 421]
    );
    for (tag, info) in entries {
        assert_eq!(schema.get_field_type(tag), Some(&info));
    }
}

#[test]
fn test_performance_comparison_from_string_vs_from_bytes_with_type() {
    // This test demonstrates the inefficiency of from_string vs the optimized method
    let test_cases = vec![
        (b"42".as_slice(), FixDataType::Int, FixFieldValue::Integer(42)),
        (b"123".as_slice(), FixDataType::Length, FixFieldValue::UnsignedInteger(123)),
        (b"Y".as_slice(), FixDataType::Boolean, FixFieldValue::Boolean(true)),
        (b"EUR/USD".as_slice(), FixDataType::String, FixFieldValue::String("EUR/USD".to_string())),
    ];

    for (bytes, fix_type, expected) in test_cases {
        // Test optimized method
        let result_optimized = FixFieldValue::from_bytes_with_type(bytes, fix_type);
        assert!(result_optimized.is_ok());
        assert_eq!(result_optimized.unwrap(), expected);

        // Test the method that infers the type - should still work but is less efficient
        let string_value = String::from_utf8_lossy(bytes).to_string();
        let result_inferred = FixFieldValue::from_string(string_value);
        // Note: from_string might infer different types than the explicit type,
        // so we don't assert equality here, just that it works
        assert!(matches!(
            result_inferred,
            FixFieldValue::Integer(_)
                | FixFieldValue::UnsignedInteger(_)
                | FixFieldValue::Boolean(_)
                | FixFieldValue::String(_)
        ));
    }
}
