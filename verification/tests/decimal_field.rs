use rust_decimal::Decimal;
use rustyfix::asn1::tracing::{decoding_span_name, encoding_span_name, schema_span_name};
use rustyfix::asn1::{FixFieldValue, ToFixFieldValue};
use rustyfix::decimal_field::{read_decimal, ERR_DECIMAL, ERR_UTF8};
use rustyfix::tagvalue::Decoder;
use rustyfix::{Dictionary, FieldType, FieldValueError};

#[test]
fn decimals_are_written_as_their_text() {
    let price = Decimal::new(220075, 2);
    let mut buffer: Vec<u8> = b"44=".to_vec();
    assert_eq!(<Decimal as FieldType>::serialize(&price, &mut buffer), 7);
    assert_eq!(buffer, b"44=2200.75".to_vec());
    let mut buffer: Vec<u8> = Vec::new();
    assert_eq!(<Decimal as FieldType>::serialize_with(&Decimal::new(-5, 1), &mut buffer, ()), 4);
    assert_eq!(buffer, b"-0.5".to_vec());
    // Zeros behind the point are digits like the others.
    assert_eq!(Decimal::new(1500, 3).to_fix_field_value(), FixFieldValue::Decimal("1.500".to_string()));
    assert_eq!(Decimal::new(7, 0).to_fix_field_value(), FixFieldValue::Decimal("7".to_string()));
}

#[test]
fn decimals_are_read_from_their_text() {
    assert_eq!(<Decimal as FieldType>::deserialize(b"2200.75"), Ok(Decimal::new(220075, 2)));
    assert_eq!(<Decimal as FieldType>::deserialize_lossy(b"-0.5"), Ok(Decimal::new(-5, 1)));
    assert_eq!(read_decimal(b"1.500"), Ok(Decimal::new(1500, 3)));
    assert_eq!(read_decimal(b"1.500").unwrap().to_string(), "1.500");
    assert_eq!(read_decimal(b"abc"), Err(ERR_DECIMAL));
    assert_eq!(read_decimal(b""), Err(ERR_DECIMAL));
    assert_eq!(read_decimal(&[0x31, 0xff]), Err(ERR_UTF8));
    assert_eq!(<Decimal as FieldType>::deserialize(&[0xff]), Err(ERR_UTF8));
}

#[test]
fn a_price_of_a_message() {
    let mut decoder = Decoder::new(Dictionary::new("FIX.4.4".to_string()));
    decoder.config_mut().separator = b'|';
    let message = decoder
        .decode(b"8=FIX.4.2|9=97|35=6|49=BKR|56=IM|34=14|52=20100204-09:18:42|23=115685|28=N|55=SPMI.MI|54=2|44=2200.75|27=S|25=H|10=178|")
        .unwrap();
    assert_eq!(message.get::<Decimal>(44), Ok(Decimal::new(220075, 2)));
    assert_eq!(message.get::<Decimal>(55), Err(FieldValueError::Invalid(ERR_DECIMAL)));
    assert_eq!(message.get::<Decimal>(45), Err(FieldValueError::Missing));
}

#[test]
fn the_names_of_the_spans() {
    for rule in ["BER", "DER", "OER", "PER", "XER", "JER"] {
        assert_eq!(encoding_span_name(rule), format!("asn1.encode.{rule}"));
        assert_eq!(decoding_span_name(rule), format!("asn1.decode.{rule}"));
    }
    for rule in ["", "ber", "APER", "UPER", "BER "] {
        assert_eq!(encoding_span_name(rule), "asn1.encode.unknown");
        assert_eq!(decoding_span_name(rule), "asn1.decode.unknown");
    }
    for operation in ["validate", "lookup", "compile", "transform", "parse", "serialize"] {
        assert_eq!(schema_span_name(operation), format!("asn1.schema.{operation}"));
    }
    assert_eq!(schema_span_name("drop"), "asn1.schema.unknown");
}
