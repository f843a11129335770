//! The ASN.1 types of field values, each with the way it is written in a
//! `tag=value` field and read back from one.
use crate::tagvalue::digits::{
    all_digits, decimal_value, digits_of, is_digit, parse_signed, parse_unsigned, render_decimal,
    render_signed, signed_digits_of, spec_parse_signed, spec_parse_unsigned,
};
use crate::tagvalue::scan::{digits_end, lemma_digits_end, skip_digits};
use crate::traits::{string_from_utf8, Buffer, FieldType};
use vstd::prelude::*;
use vstd::slice::slice_to_vec;
use vstd::std_specs::convert::FromSpecImpl;
use vstd::std_specs::convert::TryFromSpecImpl;
use vstd::utf8::{decode_utf8, encode_utf8, valid_utf8};

verus! {

/// What reading or converting a value of an ASN.1 type fails with.
#[derive(Debug, Clone, Copy, PartialEq, Eq, Structural)]
pub enum Asn1FieldError {
    /// The bytes are no text in UTF-8.
    Utf8,
    /// The bytes are no number, or the number does not fit.
    InvalidNumber,
    /// The bytes are no boolean.
    InvalidBool,
    /// The field counts a repeating group, which cannot be read this way.
    GroupParsingUnsupported {
        /// The tag of the count field.
        tag: u32,
        /// The number of entries that the field announces.
        count: usize,
    },
}

/// The text that `String::from_utf8_lossy` makes of `data`.
pub uninterp spec fn lossy_text(data: Seq<u8>) -> Seq<char>;

/// `String::from_utf8_lossy`: the text that the bytes encode, with the
/// replacement character wherever they encode none. Bytes that are valid
/// UTF-8 give the text that they encode.
#[verifier::external_body]
pub(crate) fn string_from_utf8_lossy(data: &[u8]) -> (r: String)
    ensures
        r@ == lossy_text(data@),
        valid_utf8(data@) ==> r@ == decode_utf8(data@),
{
    String::from_utf8_lossy(data).into_owned()
}

/// Compares two runs of bytes.
pub fn bytes_eq(a: &[u8], b: &[u8]) -> (r: bool)
    ensures
        r == (a@ == b@),
{
    if a.len() != b.len() {
        return false;
    }
    let mut i: usize = 0;
    while i < a.len()
        invariant
            i <= a.len(),
            a.len() == b.len(),
            forall|j: int| 0 <= j < i ==> a@[j] == b@[j],
        decreases a.len() - i,
    {
        if a[i] != b[i] {
            return false;
        }
        i = i + 1;
    }
    assert(a@ =~= b@);
    true
}

/// Text.
#[derive(Debug, Clone, PartialEq, Eq)]
pub struct Asn1String {
    inner: String,
}

impl View for Asn1String {
    type V = Seq<char>;

    closed spec fn view(&self) -> Seq<char> {
        self.inner@
    }
}

impl Asn1String {
    /// Wraps `value`.
    pub fn new(value: String) -> (r: Asn1String)
        ensures
            r@ == value@,
    {
        Asn1String { inner: value }
    }

    /// The text.
    pub fn as_str(&self) -> (r: &str)
        ensures
            r@ == self@,
    {
        self.inner.as_str()
    }

    /// The text, unwrapped.
    pub fn into_string(self) -> (r: String)
        ensures
            r@ == self@,
    {
        self.inner
    }
}

impl From<String> for Asn1String {
    fn from(value: String) -> (r: Asn1String)
        ensures
            r@ == value@,
    {
        Asn1String::new(value)
    }
}

impl FromSpecImpl<String> for Asn1String {
    open spec fn obeys_from_spec() -> bool {
        false
    }

    open spec fn from_spec(value: String) -> Asn1String {
        arbitrary()
    }
}

impl<'b> From<&'b str> for Asn1String {
    fn from(value: &'b str) -> (r: Asn1String)
        ensures
            r@ == value@,
    {
        Asn1String::new(value.to_owned())
    }
}

impl<'b> FromSpecImpl<&'b str> for Asn1String {
    open spec fn obeys_from_spec() -> bool {
        false
    }

    open spec fn from_spec(value: &'b str) -> Asn1String {
        arbitrary()
    }
}

impl<'a> FieldType<'a> for Asn1String {
    type Error = Asn1FieldError;

    type SerializeSettings = ();

    open spec fn spec_serialize(&self, settings: ()) -> Seq<u8> {
        encode_utf8(self@)
    }

    open spec fn read_error(data: Seq<u8>, lossy: bool) -> Asn1FieldError {
        Asn1FieldError::Utf8
    }

    open spec fn default_settings() -> () {
        ()
    }

    open spec fn readable(data: Seq<u8>) -> bool {
        valid_utf8(data)
    }

    open spec fn reads_as(data: Seq<u8>, value: Asn1String) -> bool {
        value@ == decode_utf8(data)
    }

    open spec fn readable_lossy(data: Seq<u8>) -> bool {
        true
    }

    open spec fn reads_lossy_as(data: Seq<u8>, value: Asn1String) -> bool {
        value@ == lossy_text(data) && (valid_utf8(data) ==> value@ == decode_utf8(data))
    }

    fn serialize<B>(&self, buffer: &mut B) -> (n: usize) where B: Buffer {
        self.serialize_with(buffer, ())
    }

    fn serialize_with<B>(&self, buffer: &mut B, _settings: ()) -> (n: usize) where B: Buffer {
        let bytes: &[u8] = self.inner.as_str().as_bytes();
        buffer.extend_from_slice(bytes);
        bytes.len()
    }

    fn deserialize(data: &'a [u8]) -> (r: Result<Asn1String, Asn1FieldError>)
        ensures
            r matches Err(e) ==> e == Asn1FieldError::Utf8,
    {
        match string_from_utf8(data) {
            Some(s) => Ok(Asn1String::new(s)),
            None => Err(Asn1FieldError::Utf8),
        }
    }

    fn deserialize_lossy(data: &'a [u8]) -> (r: Result<Asn1String, Asn1FieldError>) {
        Ok(Asn1String::new(string_from_utf8_lossy(data)))
    }
}

/// The number that a run of digits denotes, or `max` where that is less.
pub open spec fn spec_saturated(s: Seq<u8>, max: nat) -> nat {
    if decimal_value(s) < max {
        decimal_value(s)
    } else {
        max
    }
}

/// Reads the digits `data[start..end]` as a number and stops counting at
/// `max`.
pub fn parse_saturating(data: &[u8], start: usize, end: usize, max: u64) -> (r: u64)
    requires
        start <= end <= data.len(),
        all_digits(data@.subrange(start as int, end as int)),
    ensures
        r as nat == spec_saturated(data@.subrange(start as int, end as int), max as nat),
{
    let ghost s = data@.subrange(start as int, end as int);
    let mut acc: u64 = 0;
    let mut i: usize = start;
    proof {
        assert(s.take(0) =~= Seq::<u8>::empty());
    }
    while i < end
        invariant
            start <= i <= end <= data.len(),
            s == data@.subrange(start as int, end as int),
            all_digits(s),
            acc as nat == spec_saturated(s.take(i - start), max as nat),
        decreases end - i,
    {
        let b: u8 = data[i];
        assert(s[i - start] == b);
        assert(is_digit(b));
        let d: u64 = (b - 0x30) as u64;
        proof {
            assert(s.take(i - start + 1).drop_last() =~= s.take(i - start));
            assert(s.take(i - start + 1).last() == b);
        }
        if acc >= max || d > max || acc > (max - d) / 10 {
            acc = max;
        } else {
            acc = acc * 10 + d;
        }
        i = i + 1;
    }
    proof {
        assert(s.take(i - start) =~= s);
    }
    acc
}

/// A signed integer.
#[derive(Debug, Clone, Copy, PartialEq, Eq, Structural)]
pub struct Asn1Integer {
    inner: i64,
}

/// What a forgiving reader makes of `data` as a signed integer: the run of
/// digits behind an optional sign, up to the first byte that is no digit,
/// counted no further than the largest value; nothing counts as 0.
pub open spec fn spec_lossy_integer(data: Seq<u8>) -> int {
    if data.len() == 0 {
        0
    } else {
        let start: int = if data[0] == 0x2d || data[0] == 0x2b {
            1
        } else {
            0
        };
        let magnitude = spec_saturated(
            data.subrange(start, digits_end(data, start)),
            i64::MAX as nat,
        );
        if data[0] == 0x2d {
            -(magnitude as int)
        } else {
            magnitude as int
        }
    }
}

impl Asn1Integer {
    /// The number.
    pub closed spec fn spec_value(&self) -> i64 {
        self.inner
    }

    /// The value that wraps `value`.
    pub closed spec fn spec_new(value: i64) -> Asn1Integer {
        Asn1Integer { inner: value }
    }

    /// A value is told by the number that it wraps: it is the one that
    /// wraps that number, and no two values wrap the same.
    pub proof fn lemma_told_by_value(self)
        ensures
            self == Asn1Integer::spec_new(self.spec_value()),
    {
    }

    /// The value that wraps `value` holds `value`.
    pub proof fn lemma_wraps(value: i64)
        ensures
            Asn1Integer::spec_new(value).spec_value() == value,
    {
    }

    /// Wraps `value`.
    pub fn new(value: i64) -> (r: Asn1Integer)
        ensures
            r == Asn1Integer::spec_new(value),
            r.spec_value() == value,
    {
        Asn1Integer { inner: value }
    }

    /// The number.
    pub fn value(&self) -> (r: i64)
        ensures
            r == self.spec_value(),
    {
        self.inner
    }

    /// The number as a `u32`, where it is one.
    pub fn to_u32(&self) -> (r: Result<u32, Asn1FieldError>)
        ensures
            0 <= self.spec_value() <= u32::MAX ==> r == Ok::<u32, Asn1FieldError>(
                self.spec_value() as u32,
            ),
            !(0 <= self.spec_value() <= u32::MAX) ==> r == Err::<u32, Asn1FieldError>(
                Asn1FieldError::InvalidNumber,
            ),
    {
        if 0 <= self.inner && self.inner <= u32::MAX as i64 {
            Ok(self.inner as u32)
        } else {
            Err(Asn1FieldError::InvalidNumber)
        }
    }
}

impl From<i64> for Asn1Integer {
    fn from(value: i64) -> (r: Asn1Integer)
        ensures
            r == Asn1Integer::spec_new(value),
            r.spec_value() == value,
    {
        Asn1Integer::new(value)
    }
}

impl FromSpecImpl<i64> for Asn1Integer {
    open spec fn obeys_from_spec() -> bool {
        false
    }

    open spec fn from_spec(value: i64) -> Asn1Integer {
        arbitrary()
    }
}

impl From<u32> for Asn1Integer {
    fn from(value: u32) -> (r: Asn1Integer)
        ensures
            r == Asn1Integer::spec_new(value as i64),
            r.spec_value() == value,
    {
        Asn1Integer::new(value as i64)
    }
}

impl FromSpecImpl<u32> for Asn1Integer {
    open spec fn obeys_from_spec() -> bool {
        false
    }

    open spec fn from_spec(value: u32) -> Asn1Integer {
        arbitrary()
    }
}

impl From<i32> for Asn1Integer {
    fn from(value: i32) -> (r: Asn1Integer)
        ensures
            r == Asn1Integer::spec_new(value as i64),
            r.spec_value() == value,
    {
        Asn1Integer::new(value as i64)
    }
}

impl FromSpecImpl<i32> for Asn1Integer {
    open spec fn obeys_from_spec() -> bool {
        false
    }

    open spec fn from_spec(value: i32) -> Asn1Integer {
        arbitrary()
    }
}

impl TryFrom<Asn1Integer> for u32 {
    type Error = Asn1FieldError;

    fn try_from(value: Asn1Integer) -> (r: Result<u32, Asn1FieldError>) {
        value.to_u32()
    }
}

impl TryFromSpecImpl<Asn1Integer> for u32 {
    open spec fn obeys_try_from_spec() -> bool {
        true
    }

    open spec fn try_from_spec(value: Asn1Integer) -> Result<u32, Asn1FieldError> {
        if 0 <= value.spec_value() <= u32::MAX {
            Ok(value.spec_value() as u32)
        } else {
            Err(Asn1FieldError::InvalidNumber)
        }
    }
}

impl<'a> FieldType<'a> for Asn1Integer {
    type Error = Asn1FieldError;

    type SerializeSettings = ();

    open spec fn spec_serialize(&self, settings: ()) -> Seq<u8> {
        signed_digits_of(self.spec_value() as int)
    }

    open spec fn read_error(data: Seq<u8>, lossy: bool) -> Asn1FieldError {
        Asn1FieldError::InvalidNumber
    }

    open spec fn default_settings() -> () {
        ()
    }

    open spec fn readable(data: Seq<u8>) -> bool {
        spec_parse_signed(data, i64::MIN as int, i64::MAX as int) is Some
    }

    open spec fn reads_as(data: Seq<u8>, value: Asn1Integer) -> bool {
        spec_parse_signed(data, i64::MIN as int, i64::MAX as int) == Some(value.spec_value() as int)
    }

    open spec fn readable_lossy(data: Seq<u8>) -> bool {
        true
    }

    open spec fn reads_lossy_as(data: Seq<u8>, value: Asn1Integer) -> bool {
        value.spec_value() == spec_lossy_integer(data)
    }

    fn serialize<B>(&self, buffer: &mut B) -> (n: usize) where B: Buffer {
        self.serialize_with(buffer, ())
    }

    fn serialize_with<B>(&self, buffer: &mut B, _settings: ()) -> (n: usize) where B: Buffer {
        let mut s: Vec<u8> = Vec::new();
        render_signed(self.inner, &mut s);
        buffer.extend_from_slice(s.as_slice());
        s.len()
    }

    fn deserialize(data: &'a [u8]) -> (r: Result<Asn1Integer, Asn1FieldError>)
        ensures
            r matches Err(e) ==> e == Asn1FieldError::InvalidNumber,
    {
        match parse_signed(data, i64::MIN, i64::MAX) {
            Some(value) => Ok(Asn1Integer::new(value)),
            None => Err(Asn1FieldError::InvalidNumber),
        }
    }

    fn deserialize_lossy(data: &'a [u8]) -> (r: Result<Asn1Integer, Asn1FieldError>) {
        if data.len() == 0 {
            return Ok(Asn1Integer::new(0));
        }
        let negative: bool = data[0] == 0x2d;
        let idx: usize = if data[0] == 0x2d || data[0] == 0x2b {
            1
        } else {
            0
        };
        let end: usize = skip_digits(data, idx);
        proof {
            lemma_digits_end(data@, idx as int);
            let s = data@.subrange(idx as int, end as int);
            assert forall|i: int| 0 <= i < s.len() implies is_digit(#[trigger] s[i]) by {
                assert(s[i] == data@[idx + i]);
            }
        }
        let result: u64 = parse_saturating(data, idx, end, i64::MAX as u64);
        if negative {
            Ok(Asn1Integer::new(-(result as i64)))
        } else {
            Ok(Asn1Integer::new(result as i64))
        }
    }
}

/// An unsigned integer.
#[derive(Debug, Clone, Copy, PartialEq, Eq, Structural)]
pub struct Asn1UInteger {
    inner: u64,
}

/// What a forgiving reader makes of `data` as an unsigned integer: the run
/// of digits behind an optional `+`, up to the first byte that is no
/// digit, counted no further than the largest value; nothing counts as 0.
pub open spec fn spec_lossy_uinteger(data: Seq<u8>) -> nat {
    if data.len() == 0 {
        0
    } else {
        let start: int = if data[0] == 0x2b {
            1
        } else {
            0
        };
        spec_saturated(data.subrange(start, digits_end(data, start)), u64::MAX as nat)
    }
}

impl Asn1UInteger {
    /// The number.
    pub closed spec fn spec_value(&self) -> u64 {
        self.inner
    }

    /// The value that wraps `value`.
    pub closed spec fn spec_new(value: u64) -> Asn1UInteger {
        Asn1UInteger { inner: value }
    }

    /// A value is told by the number that it wraps: it is the one that
    /// wraps that number, and no two values wrap the same.
    pub proof fn lemma_told_by_value(self)
        ensures
            self == Asn1UInteger::spec_new(self.spec_value()),
    {
    }

    /// The value that wraps `value` holds `value`.
    pub proof fn lemma_wraps(value: u64)
        ensures
            Asn1UInteger::spec_new(value).spec_value() == value,
    {
    }

    /// Wraps `value`.
    pub fn new(value: u64) -> (r: Asn1UInteger)
        ensures
            r == Asn1UInteger::spec_new(value),
            r.spec_value() == value,
    {
        Asn1UInteger { inner: value }
    }

    /// The number.
    pub fn value(&self) -> (r: u64)
        ensures
            r == self.spec_value(),
    {
        self.inner
    }

    /// The number as a `u32`, where it is one.
    pub fn to_u32(&self) -> (r: Result<u32, Asn1FieldError>)
        ensures
            self.spec_value() <= u32::MAX ==> r == Ok::<u32, Asn1FieldError>(
                self.spec_value() as u32,
            ),
            self.spec_value() > u32::MAX ==> r == Err::<u32, Asn1FieldError>(
                Asn1FieldError::InvalidNumber,
            ),
    {
        if self.inner <= u32::MAX as u64 {
            Ok(self.inner as u32)
        } else {
            Err(Asn1FieldError::InvalidNumber)
        }
    }

    /// The number as a `u16`, where it is one.
    pub fn to_u16(&self) -> (r: Result<u16, Asn1FieldError>)
        ensures
            self.spec_value() <= u16::MAX ==> r == Ok::<u16, Asn1FieldError>(
                self.spec_value() as u16,
            ),
            self.spec_value() > u16::MAX ==> r == Err::<u16, Asn1FieldError>(
                Asn1FieldError::InvalidNumber,
            ),
    {
        if self.inner <= u16::MAX as u64 {
            Ok(self.inner as u16)
        } else {
            Err(Asn1FieldError::InvalidNumber)
        }
    }
}

impl From<u64> for Asn1UInteger {
    fn from(value: u64) -> (r: Asn1UInteger)
        ensures
            r == Asn1UInteger::spec_new(value),
            r.spec_value() == value,
    {
        Asn1UInteger::new(value)
    }
}

impl FromSpecImpl<u64> for Asn1UInteger {
    open spec fn obeys_from_spec() -> bool {
        false
    }

    open spec fn from_spec(value: u64) -> Asn1UInteger {
        arbitrary()
    }
}

impl From<u32> for Asn1UInteger {
    fn from(value: u32) -> (r: Asn1UInteger)
        ensures
            r == Asn1UInteger::spec_new(value as u64),
            r.spec_value() == value,
    {
        Asn1UInteger::new(value as u64)
    }
}

impl FromSpecImpl<u32> for Asn1UInteger {
    open spec fn obeys_from_spec() -> bool {
        false
    }

    open spec fn from_spec(value: u32) -> Asn1UInteger {
        arbitrary()
    }
}

impl From<u16> for Asn1UInteger {
    fn from(value: u16) -> (r: Asn1UInteger)
        ensures
            r == Asn1UInteger::spec_new(value as u64),
            r.spec_value() == value,
    {
        Asn1UInteger::new(value as u64)
    }
}

impl FromSpecImpl<u16> for Asn1UInteger {
    open spec fn obeys_from_spec() -> bool {
        false
    }

    open spec fn from_spec(value: u16) -> Asn1UInteger {
        arbitrary()
    }
}

impl TryFrom<Asn1UInteger> for u32 {
    type Error = Asn1FieldError;

    fn try_from(value: Asn1UInteger) -> (r: Result<u32, Asn1FieldError>) {
        value.to_u32()
    }
}

impl TryFromSpecImpl<Asn1UInteger> for u32 {
    open spec fn obeys_try_from_spec() -> bool {
        true
    }

    open spec fn try_from_spec(value: Asn1UInteger) -> Result<u32, Asn1FieldError> {
        if value.spec_value() <= u32::MAX {
            Ok(value.spec_value() as u32)
        } else {
            Err(Asn1FieldError::InvalidNumber)
        }
    }
}

impl TryFrom<Asn1UInteger> for u16 {
    type Error = Asn1FieldError;

    fn try_from(value: Asn1UInteger) -> (r: Result<u16, Asn1FieldError>) {
        value.to_u16()
    }
}

impl TryFromSpecImpl<Asn1UInteger> for u16 {
    open spec fn obeys_try_from_spec() -> bool {
        true
    }

    open spec fn try_from_spec(value: Asn1UInteger) -> Result<u16, Asn1FieldError> {
        if value.spec_value() <= u16::MAX {
            Ok(value.spec_value() as u16)
        } else {
            Err(Asn1FieldError::InvalidNumber)
        }
    }
}

impl<'a> FieldType<'a> for Asn1UInteger {
    type Error = Asn1FieldError;

    type SerializeSettings = ();

    open spec fn spec_serialize(&self, settings: ()) -> Seq<u8> {
        digits_of(self.spec_value() as nat)
    }

    open spec fn read_error(data: Seq<u8>, lossy: bool) -> Asn1FieldError {
        Asn1FieldError::InvalidNumber
    }

    open spec fn default_settings() -> () {
        ()
    }

    open spec fn readable(data: Seq<u8>) -> bool {
        spec_parse_unsigned(data, u64::MAX as nat) is Some
    }

    open spec fn reads_as(data: Seq<u8>, value: Asn1UInteger) -> bool {
        spec_parse_unsigned(data, u64::MAX as nat) == Some(value.spec_value() as nat)
    }

    open spec fn readable_lossy(data: Seq<u8>) -> bool {
        true
    }

    open spec fn reads_lossy_as(data: Seq<u8>, value: Asn1UInteger) -> bool {
        value.spec_value() == spec_lossy_uinteger(data)
    }

    fn serialize<B>(&self, buffer: &mut B) -> (n: usize) where B: Buffer {
        self.serialize_with(buffer, ())
    }

    fn serialize_with<B>(&self, buffer: &mut B, _settings: ()) -> (n: usize) where B: Buffer {
        let mut s: Vec<u8> = Vec::new();
        render_decimal(self.inner, &mut s);
        buffer.extend_from_slice(s.as_slice());
        s.len()
    }

    fn deserialize(data: &'a [u8]) -> (r: Result<Asn1UInteger, Asn1FieldError>)
        ensures
            r matches Err(e) ==> e == Asn1FieldError::InvalidNumber,
    {
        match parse_unsigned(data, u64::MAX) {
            Some(value) => Ok(Asn1UInteger::new(value)),
            None => Err(Asn1FieldError::InvalidNumber),
        }
    }

    fn deserialize_lossy(data: &'a [u8]) -> (r: Result<Asn1UInteger, Asn1FieldError>) {
        if data.len() == 0 {
            return Ok(Asn1UInteger::new(0));
        }
        let idx: usize = if data[0] == 0x2b {
            1
        } else {
            0
        };
        let end: usize = skip_digits(data, idx);
        proof {
            lemma_digits_end(data@, idx as int);
            let s = data@.subrange(idx as int, end as int);
            assert forall|i: int| 0 <= i < s.len() implies is_digit(#[trigger] s[i]) by {
                assert(s[i] == data@[idx + i]);
            }
        }
        Ok(Asn1UInteger::new(parse_saturating(data, idx, end, u64::MAX)))
    }
}

/// A boolean.
#[derive(Debug, Clone, Copy, PartialEq, Eq, Structural)]
pub struct Asn1Boolean {
    inner: bool,
}

/// Whether `data` is one of the ways to write `true`.
pub open spec fn spec_is_true(data: Seq<u8>) -> bool {
    data == seq![0x59u8] || data == seq![0x79u8] || data == seq![0x31u8] || data == seq![
        0x74u8,
        0x72u8,
        0x75u8,
        0x65u8,
    ] || data == seq![0x54u8, 0x52u8, 0x55u8, 0x45u8] || data == seq![
        0x54u8,
        0x72u8,
        0x75u8,
        0x65u8,
    ]
}

/// Whether `data` is one of the ways to write `false`.
pub open spec fn spec_is_false(data: Seq<u8>) -> bool {
    data == seq![0x4eu8] || data == seq![0x6eu8] || data == seq![0x30u8] || data == seq![
        0x66u8,
        0x61u8,
        0x6cu8,
        0x73u8,
        0x65u8,
    ] || data == seq![0x46u8, 0x41u8, 0x4cu8, 0x53u8, 0x45u8] || data == seq![
        0x46u8,
        0x61u8,
        0x6cu8,
        0x73u8,
        0x65u8,
    ]
}

/// What a forgiving reader makes of `data` as a boolean: true where the
/// first byte is one of `Y`, `y`, `T`, `t` and `1`.
pub open spec fn spec_lossy_bool(data: Seq<u8>) -> bool {
    data.len() > 0 && (data[0] == 0x59 || data[0] == 0x79 || data[0] == 0x54 || data[0] == 0x74
        || data[0] == 0x31)
}

impl Asn1Boolean {
    /// The boolean.
    pub closed spec fn spec_value(&self) -> bool {
        self.inner
    }

    /// The value that wraps `value`.
    pub closed spec fn spec_new(value: bool) -> Asn1Boolean {
        Asn1Boolean { inner: value }
    }

    /// A value is told by the boolean that it wraps: it is the one that
    /// wraps that boolean, and no two values wrap the same.
    pub proof fn lemma_told_by_value(self)
        ensures
            self == Asn1Boolean::spec_new(self.spec_value()),
    {
    }

    /// The value that wraps `value` holds `value`.
    pub proof fn lemma_wraps(value: bool)
        ensures
            Asn1Boolean::spec_new(value).spec_value() == value,
    {
    }

    /// Wraps `value`.
    pub fn new(value: bool) -> (r: Asn1Boolean)
        ensures
            r == Asn1Boolean::spec_new(value),
            r.spec_value() == value,
    {
        Asn1Boolean { inner: value }
    }

    /// The boolean.
    pub fn value(&self) -> (r: bool)
        ensures
            r == self.spec_value(),
    {
        self.inner
    }
}

impl From<bool> for Asn1Boolean {
    fn from(value: bool) -> (r: Asn1Boolean)
        ensures
            r == Asn1Boolean::spec_new(value),
            r.spec_value() == value,
    {
        Asn1Boolean::new(value)
    }
}

impl FromSpecImpl<bool> for Asn1Boolean {
    open spec fn obeys_from_spec() -> bool {
        false
    }

    open spec fn from_spec(value: bool) -> Asn1Boolean {
        arbitrary()
    }
}

impl From<Asn1Boolean> for bool {
    fn from(value: Asn1Boolean) -> (r: bool)
        ensures
            r == value.spec_value(),
    {
        value.inner
    }
}

impl FromSpecImpl<Asn1Boolean> for bool {
    open spec fn obeys_from_spec() -> bool {
        true
    }

    open spec fn from_spec(value: Asn1Boolean) -> bool {
        value.spec_value()
    }
}

impl<'a> FieldType<'a> for Asn1Boolean {
    type Error = Asn1FieldError;

    type SerializeSettings = ();

    open spec fn spec_serialize(&self, settings: ()) -> Seq<u8> {
        if self.spec_value() {
            seq![0x59u8]
        } else {
            seq![0x4eu8]
        }
    }

    open spec fn read_error(data: Seq<u8>, lossy: bool) -> Asn1FieldError {
        Asn1FieldError::InvalidBool
    }

    open spec fn default_settings() -> () {
        ()
    }

    open spec fn readable(data: Seq<u8>) -> bool {
        spec_is_true(data) || spec_is_false(data)
    }

    open spec fn reads_as(data: Seq<u8>, value: Asn1Boolean) -> bool {
        value.spec_value() == spec_is_true(data)
    }

    open spec fn readable_lossy(data: Seq<u8>) -> bool {
        true
    }

    open spec fn reads_lossy_as(data: Seq<u8>, value: Asn1Boolean) -> bool {
        value.spec_value() == spec_lossy_bool(data)
    }

    fn serialize<B>(&self, buffer: &mut B) -> (n: usize) where B: Buffer {
        self.serialize_with(buffer, ())
    }

    fn serialize_with<B>(&self, buffer: &mut B, _settings: ()) -> (n: usize) where B: Buffer {
        let mut s: Vec<u8> = Vec::new();
        if self.inner {
            s.push(0x59);
        } else {
            s.push(0x4e);
        }
        assert(s@ =~= self.spec_serialize(()));
        buffer.extend_from_slice(s.as_slice());
        1
    }

    fn deserialize(data: &'a [u8]) -> (r: Result<Asn1Boolean, Asn1FieldError>)
        ensures
            r matches Err(e) ==> e == Asn1FieldError::InvalidBool,
    {
        let t4: [u8; 4] = [0x74, 0x72, 0x75, 0x65];
        let t4u: [u8; 4] = [0x54, 0x52, 0x55, 0x45];
        let t4c: [u8; 4] = [0x54, 0x72, 0x75, 0x65];
        let f5: [u8; 5] = [0x66, 0x61, 0x6c, 0x73, 0x65];
        let f5u: [u8; 5] = [0x46, 0x41, 0x4c, 0x53, 0x45];
        let f5c: [u8; 5] = [0x46, 0x61, 0x6c, 0x73, 0x65];
        proof {
            assert(t4@ =~= seq![0x74u8, 0x72u8, 0x75u8, 0x65u8]);
            assert(t4u@ =~= seq![0x54u8, 0x52u8, 0x55u8, 0x45u8]);
            assert(t4c@ =~= seq![0x54u8, 0x72u8, 0x75u8, 0x65u8]);
            assert(f5@ =~= seq![0x66u8, 0x61u8, 0x6cu8, 0x73u8, 0x65u8]);
            assert(f5u@ =~= seq![0x46u8, 0x41u8, 0x4cu8, 0x53u8, 0x45u8]);
            assert(f5c@ =~= seq![0x46u8, 0x61u8, 0x6cu8, 0x73u8, 0x65u8]);
            if data@.len() == 1 {
                assert(data@ =~= seq![data@[0]]);
            }
        }
        if data.len() == 1 && (data[0] == 0x59 || data[0] == 0x79 || data[0] == 0x31) {
            Ok(Asn1Boolean::new(true))
        } else if data.len() == 1 && (data[0] == 0x4e || data[0] == 0x6e || data[0] == 0x30) {
            Ok(Asn1Boolean::new(false))
        } else if bytes_eq(data, t4.as_slice()) || bytes_eq(data, t4u.as_slice()) || bytes_eq(
            data,
            t4c.as_slice(),
        ) {
            Ok(Asn1Boolean::new(true))
        } else if bytes_eq(data, f5.as_slice()) || bytes_eq(data, f5u.as_slice()) || bytes_eq(
            data,
            f5c.as_slice(),
        ) {
            Ok(Asn1Boolean::new(false))
        } else {
            Err(Asn1FieldError::InvalidBool)
        }
    }

    fn deserialize_lossy(data: &'a [u8]) -> (r: Result<Asn1Boolean, Asn1FieldError>) {
        if data.len() == 0 {
            return Ok(Asn1Boolean::new(false));
        }
        let b: u8 = data[0];
        Ok(Asn1Boolean::new(b == 0x59 || b == 0x79 || b == 0x54 || b == 0x74 || b == 0x31))
    }
}

/// Bytes.
#[derive(Debug, Clone, PartialEq, Eq)]
pub struct Asn1Bytes {
    inner: Vec<u8>,
}

impl View for Asn1Bytes {
    type V = Seq<u8>;

    closed spec fn view(&self) -> Seq<u8> {
        self.inner@
    }
}

impl Asn1Bytes {
    /// Wraps `data`.
    pub fn new(data: Vec<u8>) -> (r: Asn1Bytes)
        ensures
            r@ == data@,
    {
        Asn1Bytes { inner: data }
    }

    /// The bytes.
    pub fn as_bytes(&self) -> (r: &[u8])
        ensures
            r@ == self@,
    {
        self.inner.as_slice()
    }

    /// The bytes, unwrapped.
    pub fn into_bytes(self) -> (r: Vec<u8>)
        ensures
            r@ == self@,
    {
        self.inner
    }
}

impl From<Vec<u8>> for Asn1Bytes {
    fn from(data: Vec<u8>) -> (r: Asn1Bytes)
        ensures
            r@ == data@,
    {
        Asn1Bytes::new(data)
    }
}

impl FromSpecImpl<Vec<u8>> for Asn1Bytes {
    open spec fn obeys_from_spec() -> bool {
        false
    }

    open spec fn from_spec(value: Vec<u8>) -> Asn1Bytes {
        arbitrary()
    }
}

impl<'b> From<&'b [u8]> for Asn1Bytes {
    fn from(data: &'b [u8]) -> (r: Asn1Bytes)
        ensures
            r@ == data@,
    {
        Asn1Bytes::new(slice_to_vec(data))
    }
}

impl<'b> FromSpecImpl<&'b [u8]> for Asn1Bytes {
    open spec fn obeys_from_spec() -> bool {
        false
    }

    open spec fn from_spec(data: &'b [u8]) -> Asn1Bytes {
        arbitrary()
    }
}

impl<'a> FieldType<'a> for Asn1Bytes {
    type Error = Asn1FieldError;

    type SerializeSettings = ();

    open spec fn spec_serialize(&self, settings: ()) -> Seq<u8> {
        self@
    }

    open spec fn read_error(data: Seq<u8>, lossy: bool) -> Asn1FieldError {
        Asn1FieldError::Utf8
    }

    open spec fn default_settings() -> () {
        ()
    }

    open spec fn readable(data: Seq<u8>) -> bool {
        true
    }

    open spec fn reads_as(data: Seq<u8>, value: Asn1Bytes) -> bool {
        value@ == data
    }

    open spec fn readable_lossy(data: Seq<u8>) -> bool {
        true
    }

    open spec fn reads_lossy_as(data: Seq<u8>, value: Asn1Bytes) -> bool {
        value@ == data
    }

    fn serialize<B>(&self, buffer: &mut B) -> (n: usize) where B: Buffer {
        self.serialize_with(buffer, ())
    }

    fn serialize_with<B>(&self, buffer: &mut B, _settings: ()) -> (n: usize) where B: Buffer {
        buffer.extend_from_slice(self.inner.as_slice());
        self.inner.len()
    }

    fn deserialize(data: &'a [u8]) -> (r: Result<Asn1Bytes, Asn1FieldError>) {
        Ok(Asn1Bytes::new(slice_to_vec(data)))
    }

    fn deserialize_lossy(data: &'a [u8]) -> (r: Result<Asn1Bytes, Asn1FieldError>) {
        Ok(Asn1Bytes::new(slice_to_vec(data)))
    }
}

} // verus!
