//! The interfaces that the codecs of this crate share.
use crate::tagvalue::digits::{
    digits_of, parse_signed, parse_unsigned, render_decimal, render_signed, signed_digits_of,
    spec_parse_signed, spec_parse_unsigned,
};
use vstd::prelude::*;
use vstd::string::StringSliceAdditionalSpecFns;
use vstd::utf8::{decode_utf8, valid_utf8};

verus! {

/// A buffer of bytes that grows at its end.
pub trait Buffer {
    /// The bytes in the buffer.
    spec fn spec_bytes(&self) -> Seq<u8>;

    /// The bytes in the buffer.
    fn as_slice(&self) -> (r: &[u8])
        ensures
            r@ == self.spec_bytes(),
    ;

    /// The number of bytes in the buffer.
    fn len(&self) -> (r: usize)
        ensures
            r == self.spec_bytes().len(),
    ;

    /// Empties the buffer.
    fn clear(&mut self)
        ensures
            final(self).spec_bytes() == Seq::<u8>::empty(),
    ;

    /// Appends `data` behind the bytes that are there.
    fn extend_from_slice(&mut self, data: &[u8])
        ensures
            final(self).spec_bytes() == old(self).spec_bytes() + data@,
    ;
}

impl Buffer for Vec<u8> {
    open spec fn spec_bytes(&self) -> Seq<u8> {
        self@
    }

    fn as_slice(&self) -> (r: &[u8]) {
        Vec::as_slice(self)
    }

    fn len(&self) -> (r: usize) {
        Vec::len(self)
    }

    fn clear(&mut self) {
        Vec::clear(self);
    }

    fn extend_from_slice(&mut self, data: &[u8]) {
        Vec::extend_from_slice(self, data);
    }
}

/// A type whose values can stand in a field: how a value is written, and
/// how it is read back.
pub trait FieldType<'a>: Sized {
    /// What reading can fail with.
    type Error;

    /// What steers the writing.
    type SerializeSettings: Default;

    /// The bytes that `serialize_with` writes for a value.
    spec fn spec_serialize(&self, settings: Self::SerializeSettings) -> Seq<u8>;

    /// Whether `data` can be read as a value of this type.
    spec fn readable(data: Seq<u8>) -> bool;

    /// Whether `value` is what `data` says.
    spec fn reads_as(data: Seq<u8>, value: Self) -> bool;

    /// Whether `data` can be read when slips are forgiven.
    spec fn readable_lossy(data: Seq<u8>) -> bool;

    /// Whether `value` is what `data` says when slips are forgiven.
    spec fn reads_lossy_as(data: Seq<u8>, value: Self) -> bool;

    /// The error that reading `data` ends with where `data` cannot be
    /// read; `lossy` tells the reading that forgives slips from the one
    /// that does not.
    spec fn read_error(data: Seq<u8>, lossy: bool) -> Self::Error;

    /// The settings that `serialize` writes with.
    spec fn default_settings() -> Self::SerializeSettings;

    /// Writes the value with the settings that the type has by default.
    fn serialize<B>(&self, buffer: &mut B) -> (n: usize) where B: Buffer
        ensures
            final(buffer).spec_bytes() == old(buffer).spec_bytes() + self.spec_serialize(
                Self::default_settings(),
            ),
            n == self.spec_serialize(Self::default_settings()).len(),
    ;

    /// Writes the value behind what `buffer` holds, and says how many
    /// bytes that took.
    fn serialize_with<B>(&self, buffer: &mut B, settings: Self::SerializeSettings) -> (n: usize) where
        B: Buffer,

        ensures
            final(buffer).spec_bytes() == old(buffer).spec_bytes() + self.spec_serialize(settings),
            n == self.spec_serialize(settings).len(),
    ;

    /// Reads `data` as a value. It succeeds exactly on what is readable,
    /// and fails with the error of the type.
    fn deserialize(data: &'a [u8]) -> (r: Result<Self, Self::Error>)
        ensures
            r is Ok <==> Self::readable(data@),
            r matches Ok(value) ==> Self::reads_as(data@, value),
            r matches Err(e) ==> e == Self::read_error(data@, false),
    ;

    /// Reads `data` as a value and forgives slips.
    fn deserialize_lossy(data: &'a [u8]) -> (r: Result<Self, Self::Error>)
        ensures
            r is Ok <==> Self::readable_lossy(data@),
            r matches Ok(value) ==> Self::reads_lossy_as(data@, value),
            r matches Err(e) ==> e == Self::read_error(data@, true),
    ;
}

/// A field cannot be read as the type that was asked for.
#[derive(Debug, Clone, Copy, PartialEq, Eq)]
pub enum FieldValueError<E> {
    /// The message has no such field.
    Missing,
    /// The field's value is no value of the type.
    Invalid(E),
}

/// The bytes are no number of the type that was asked for.
#[derive(Debug, Clone, Copy, PartialEq, Eq, Structural)]
pub struct InvalidInt;

impl InvalidInt {
    /// The text of the error.
    pub fn message(&self) -> (r: &'static str)
        ensures
            r@ == "invalid integer"@,
    {
        "invalid integer"
    }
}

/// A repeating group: entries that are told apart by their number.
pub trait RepeatingGroup {
    /// What an entry is.
    type Entry;

    /// The number of entries.
    spec fn spec_len(&self) -> usize;

    /// The number of entries.
    fn len(&self) -> (r: usize)
        ensures
            r == self.spec_len(),
    ;

    /// Whether there is no entry.
    fn is_empty(&self) -> (r: bool)
        ensures
            r == (self.spec_len() == 0),
    ;

    /// Entry `index`, counted from 0; `None` exactly where there are no
    /// more than `index` entries.
    fn get(&self, index: usize) -> (r: Option<Self::Entry>)
        ensures
            r is Some <==> index < self.spec_len(),
    ;
}

/// Something with settings that can be read and changed.
pub trait GetConfig {
    /// The settings.
    type Config;

    /// The settings in use.
    spec fn spec_config(&self) -> Self::Config;

    /// The settings in use.
    fn config(&self) -> (r: &Self::Config)
        ensures
            *r == self.spec_config(),
    ;

    /// The settings in use, to change them.
    fn config_mut(&mut self) -> (r: &mut Self::Config)
        ensures
            *r == old(self).spec_config(),
            *final(r) == final(self).spec_config(),
    ;
}

/// A decoder that is fed bytes as they arrive.
pub trait StreamingDecoder {
    /// The buffer that the bytes are collected in.
    type Buffer;

    /// What parsing can fail with.
    type Error;

    /// The bytes that wait to be parsed.
    spec fn spec_buffer(&self) -> Self::Buffer;

    /// A number of bytes without which the next message cannot be
    /// complete.
    spec fn spec_num_bytes_required(&self) -> usize;

    /// What an attempt to parse gives in the state that the decoder is in:
    /// decided by the bytes that wait and by what the decoder remembers.
    spec fn spec_parse_outcome(&self) -> Result<Option<()>, Self::Error>;

    /// The buffer, to put bytes into it.
    fn buffer(&mut self) -> (r: &mut Self::Buffer)
        ensures
            *r == old(self).spec_buffer(),
            *final(r) == final(self).spec_buffer(),
    ;

    /// A number of bytes without which the next message cannot be
    /// complete.
    fn num_bytes_required(&self) -> (r: usize)
        ensures
            r == self.spec_num_bytes_required(),
    ;

    /// Tries to parse the next message: `Ok(Some(()))` where there is one,
    /// `Ok(None)` where more bytes are needed.
    fn try_parse(&mut self) -> (r: Result<Option<()>, Self::Error>)
        ensures
            r == old(self).spec_parse_outcome(),
    ;
}

/// A message whose fields are found by a key of type `F`.
pub trait FieldMap<'a, F>: Sized {
    /// What a repeating group of the message is.
    type Group: RepeatingGroup<Entry = Self>;

    /// The value of the field, as plain bytes.
    spec fn spec_raw(&self, field: F) -> Option<Seq<u8>>;

    /// The bytes of the field, if the message has it.
    fn get_raw(&self, field: F) -> (r: Option<&'a [u8]>)
        ensures
            match self.spec_raw(field) {
                Some(value) => r matches Some(bytes) && bytes@ == value,
                None => r is None,
            },
    ;

    /// The field, read as a `V`: `Missing` where the message does not
    /// have it, `Invalid` where its value is no `V`.
    fn get<V: FieldType<'a>>(&self, field: F) -> (r: Result<V, FieldValueError<V::Error>>)
        ensures
            match self.spec_raw(field) {
                None => r matches Err(FieldValueError::Missing),
                Some(value) => {
                    &&& r is Ok <==> V::readable(value)
                    &&& r matches Ok(v) ==> V::reads_as(value, v)
                    &&& r matches Err(e) ==> e == FieldValueError::Invalid(V::read_error(value, false))
                },
            },
    ;

    /// The field, read as a `V`, or `None` where the message does not
    /// have it.
    fn get_opt<V: FieldType<'a>>(&self, field: F) -> (r: Result<Option<V>, V::Error>)
        ensures
            match self.spec_raw(field) {
                None => r matches Ok(None),
                Some(value) => {
                    &&& r is Ok <==> V::readable(value)
                    &&& r matches Ok(v) ==> v matches Some(x) && V::reads_as(value, x)
                    &&& r matches Err(e) ==> e == V::read_error(value, false)
                },
            },
    ;

    /// The field, read as a `V` by a reader that forgives slips.
    fn get_lossy<V: FieldType<'a>>(&self, field: F) -> (r: Result<V, FieldValueError<V::Error>>)
        ensures
            match self.spec_raw(field) {
                None => r matches Err(FieldValueError::Missing),
                Some(value) => {
                    &&& r is Ok <==> V::readable_lossy(value)
                    &&& r matches Ok(v) ==> V::reads_lossy_as(value, v)
                    &&& r matches Err(e) ==> e == FieldValueError::Invalid(V::read_error(value, true))
                },
            },
    ;

    /// The field, read as a `V` by a reader that forgives slips, or `None`
    /// where the message does not have it.
    fn get_lossy_opt<V: FieldType<'a>>(&self, field: F) -> (r: Result<Option<V>, V::Error>)
        ensures
            match self.spec_raw(field) {
                None => r matches Ok(None),
                Some(value) => {
                    &&& r is Ok <==> V::readable_lossy(value)
                    &&& r matches Ok(v) ==> v matches Some(x) && V::reads_lossy_as(value, x)
                    &&& r matches Err(e) ==> e == V::read_error(value, true)
                },
            },
    ;

    /// The repeating group that the field counts: `Missing` where the
    /// message does not have the field, `Invalid` where its value is no
    /// count.
    fn group(&self, field: F) -> (r: Result<Self::Group, FieldValueError<InvalidInt>>)
        ensures
            self.spec_raw(field) is None ==> r matches Err(FieldValueError::Missing),
            self.spec_raw(field) matches Some(value) ==> {
                &&& r is Ok <==> <usize as FieldType<'a>>::readable(value)
                &&& r matches Ok(g) ==> <usize as FieldType<'a>>::reads_as(value, g.spec_len())
                &&& r matches Err(e) ==> e == FieldValueError::Invalid(InvalidInt)
            },
    ;

    /// The repeating group that the field counts, or `None` where the
    /// message does not have the field.
    fn group_opt(&self, field: F) -> (r: Result<Option<Self::Group>, InvalidInt>)
        ensures
            self.spec_raw(field) is None ==> r matches Ok(None),
            self.spec_raw(field) matches Some(value) ==> {
                &&& r is Ok <==> <usize as FieldType<'a>>::readable(value)
                &&& r matches Ok(g) ==> g matches Some(x) && <usize as FieldType<
                    'a,
                >>::reads_as(value, x.spec_len())
            },
    ;
}

impl<'a> FieldType<'a> for usize {
    type Error = InvalidInt;

    type SerializeSettings = ();

    open spec fn spec_serialize(&self, settings: ()) -> Seq<u8> {
        digits_of(*self as nat)
    }

    open spec fn read_error(data: Seq<u8>, lossy: bool) -> InvalidInt {
        InvalidInt
    }

    open spec fn default_settings() -> () {
        ()
    }

    open spec fn readable(data: Seq<u8>) -> bool {
        spec_parse_unsigned(data, usize::MAX as nat) is Some
    }

    open spec fn reads_as(data: Seq<u8>, value: usize) -> bool {
        spec_parse_unsigned(data, usize::MAX as nat) == Some(value as nat)
    }

    open spec fn readable_lossy(data: Seq<u8>) -> bool {
        Self::readable(data)
    }

    open spec fn reads_lossy_as(data: Seq<u8>, value: usize) -> bool {
        Self::reads_as(data, value)
    }

    fn serialize<B>(&self, buffer: &mut B) -> (n: usize) where B: Buffer {
        self.serialize_with(buffer, ())
    }

    fn serialize_with<B>(&self, buffer: &mut B, _settings: ()) -> (n: usize) where B: Buffer {
        let mut s: Vec<u8> = Vec::new();
        render_decimal(*self as u64, &mut s);
        buffer.extend_from_slice(s.as_slice());
        s.len()
    }

    fn deserialize(data: &'a [u8]) -> (r: Result<usize, InvalidInt>) {
        match parse_unsigned(data, usize::MAX as u64) {
            Some(v) => Ok(v as usize),
            None => Err(InvalidInt),
        }
    }

    fn deserialize_lossy(data: &'a [u8]) -> (r: Result<usize, InvalidInt>) {
        Self::deserialize(data)
    }
}

impl<'a> FieldType<'a> for u64 {
    type Error = InvalidInt;

    type SerializeSettings = ();

    open spec fn spec_serialize(&self, settings: ()) -> Seq<u8> {
        digits_of(*self as nat)
    }

    open spec fn read_error(data: Seq<u8>, lossy: bool) -> InvalidInt {
        InvalidInt
    }

    open spec fn default_settings() -> () {
        ()
    }

    open spec fn readable(data: Seq<u8>) -> bool {
        spec_parse_unsigned(data, u64::MAX as nat) is Some
    }

    open spec fn reads_as(data: Seq<u8>, value: u64) -> bool {
        spec_parse_unsigned(data, u64::MAX as nat) == Some(value as nat)
    }

    open spec fn readable_lossy(data: Seq<u8>) -> bool {
        Self::readable(data)
    }

    open spec fn reads_lossy_as(data: Seq<u8>, value: u64) -> bool {
        Self::reads_as(data, value)
    }

    fn serialize<B>(&self, buffer: &mut B) -> (n: usize) where B: Buffer {
        self.serialize_with(buffer, ())
    }

    fn serialize_with<B>(&self, buffer: &mut B, _settings: ()) -> (n: usize) where B: Buffer {
        let mut s: Vec<u8> = Vec::new();
        render_decimal(*self, &mut s);
        buffer.extend_from_slice(s.as_slice());
        s.len()
    }

    fn deserialize(data: &'a [u8]) -> (r: Result<u64, InvalidInt>) {
        match parse_unsigned(data, u64::MAX) {
            Some(v) => Ok(v),
            None => Err(InvalidInt),
        }
    }

    fn deserialize_lossy(data: &'a [u8]) -> (r: Result<u64, InvalidInt>) {
        Self::deserialize(data)
    }
}

impl<'a> FieldType<'a> for u32 {
    type Error = InvalidInt;

    type SerializeSettings = ();

    open spec fn spec_serialize(&self, settings: ()) -> Seq<u8> {
        digits_of(*self as nat)
    }

    open spec fn read_error(data: Seq<u8>, lossy: bool) -> InvalidInt {
        InvalidInt
    }

    open spec fn default_settings() -> () {
        ()
    }

    open spec fn readable(data: Seq<u8>) -> bool {
        spec_parse_unsigned(data, u32::MAX as nat) is Some
    }

    open spec fn reads_as(data: Seq<u8>, value: u32) -> bool {
        spec_parse_unsigned(data, u32::MAX as nat) == Some(value as nat)
    }

    open spec fn readable_lossy(data: Seq<u8>) -> bool {
        Self::readable(data)
    }

    open spec fn reads_lossy_as(data: Seq<u8>, value: u32) -> bool {
        Self::reads_as(data, value)
    }

    fn serialize<B>(&self, buffer: &mut B) -> (n: usize) where B: Buffer {
        self.serialize_with(buffer, ())
    }

    fn serialize_with<B>(&self, buffer: &mut B, _settings: ()) -> (n: usize) where B: Buffer {
        let mut s: Vec<u8> = Vec::new();
        render_decimal(*self as u64, &mut s);
        buffer.extend_from_slice(s.as_slice());
        s.len()
    }

    fn deserialize(data: &'a [u8]) -> (r: Result<u32, InvalidInt>) {
        match parse_unsigned(data, u32::MAX as u64) {
            Some(v) => Ok(v as u32),
            None => Err(InvalidInt),
        }
    }

    fn deserialize_lossy(data: &'a [u8]) -> (r: Result<u32, InvalidInt>) {
        Self::deserialize(data)
    }
}

impl<'a> FieldType<'a> for i64 {
    type Error = InvalidInt;

    type SerializeSettings = ();

    open spec fn spec_serialize(&self, settings: ()) -> Seq<u8> {
        signed_digits_of(*self as int)
    }

    open spec fn read_error(data: Seq<u8>, lossy: bool) -> InvalidInt {
        InvalidInt
    }

    open spec fn default_settings() -> () {
        ()
    }

    open spec fn readable(data: Seq<u8>) -> bool {
        spec_parse_signed(data, i64::MIN as int, i64::MAX as int) is Some
    }

    open spec fn reads_as(data: Seq<u8>, value: i64) -> bool {
        spec_parse_signed(data, i64::MIN as int, i64::MAX as int) == Some(value as int)
    }

    open spec fn readable_lossy(data: Seq<u8>) -> bool {
        Self::readable(data)
    }

    open spec fn reads_lossy_as(data: Seq<u8>, value: i64) -> bool {
        Self::reads_as(data, value)
    }

    fn serialize<B>(&self, buffer: &mut B) -> (n: usize) where B: Buffer {
        self.serialize_with(buffer, ())
    }

    fn serialize_with<B>(&self, buffer: &mut B, _settings: ()) -> (n: usize) where B: Buffer {
        let mut s: Vec<u8> = Vec::new();
        render_signed(*self, &mut s);
        buffer.extend_from_slice(s.as_slice());
        s.len()
    }

    fn deserialize(data: &'a [u8]) -> (r: Result<i64, InvalidInt>) {
        match parse_signed(data, i64::MIN, i64::MAX) {
            Some(v) => Ok(v),
            None => Err(InvalidInt),
        }
    }

    fn deserialize_lossy(data: &'a [u8]) -> (r: Result<i64, InvalidInt>) {
        Self::deserialize(data)
    }
}

impl<'a> FieldType<'a> for i32 {
    type Error = InvalidInt;

    type SerializeSettings = ();

    open spec fn spec_serialize(&self, settings: ()) -> Seq<u8> {
        signed_digits_of(*self as int)
    }

    open spec fn read_error(data: Seq<u8>, lossy: bool) -> InvalidInt {
        InvalidInt
    }

    open spec fn default_settings() -> () {
        ()
    }

    open spec fn readable(data: Seq<u8>) -> bool {
        spec_parse_signed(data, i32::MIN as int, i32::MAX as int) is Some
    }

    open spec fn reads_as(data: Seq<u8>, value: i32) -> bool {
        spec_parse_signed(data, i32::MIN as int, i32::MAX as int) == Some(value as int)
    }

    open spec fn readable_lossy(data: Seq<u8>) -> bool {
        Self::readable(data)
    }

    open spec fn reads_lossy_as(data: Seq<u8>, value: i32) -> bool {
        Self::reads_as(data, value)
    }

    fn serialize<B>(&self, buffer: &mut B) -> (n: usize) where B: Buffer {
        self.serialize_with(buffer, ())
    }

    fn serialize_with<B>(&self, buffer: &mut B, _settings: ()) -> (n: usize) where B: Buffer {
        let mut s: Vec<u8> = Vec::new();
        render_signed(*self as i64, &mut s);
        buffer.extend_from_slice(s.as_slice());
        s.len()
    }

    fn deserialize(data: &'a [u8]) -> (r: Result<i32, InvalidInt>) {
        match parse_signed(data, i32::MIN as i64, i32::MAX as i64) {
            Some(v) => Ok(v as i32),
            None => Err(InvalidInt),
        }
    }

    fn deserialize_lossy(data: &'a [u8]) -> (r: Result<i32, InvalidInt>) {
        Self::deserialize(data)
    }
}

/// Bytes are read as they are: every value is readable.
impl<'a> FieldType<'a> for &'a [u8] {
    type Error = InvalidInt;

    type SerializeSettings = ();

    open spec fn spec_serialize(&self, settings: ()) -> Seq<u8> {
        self@
    }

    open spec fn read_error(data: Seq<u8>, lossy: bool) -> InvalidInt {
        InvalidInt
    }

    open spec fn default_settings() -> () {
        ()
    }

    open spec fn readable(data: Seq<u8>) -> bool {
        true
    }

    open spec fn reads_as(data: Seq<u8>, value: &'a [u8]) -> bool {
        value@ == data
    }

    open spec fn readable_lossy(data: Seq<u8>) -> bool {
        true
    }

    open spec fn reads_lossy_as(data: Seq<u8>, value: &'a [u8]) -> bool {
        value@ == data
    }

    fn serialize<B>(&self, buffer: &mut B) -> (n: usize) where B: Buffer {
        buffer.extend_from_slice(*self);
        self.len()
    }

    fn serialize_with<B>(&self, buffer: &mut B, _settings: ()) -> (n: usize) where B: Buffer {
        buffer.extend_from_slice(*self);
        self.len()
    }

    fn deserialize(data: &'a [u8]) -> (r: Result<&'a [u8], InvalidInt>) {
        Ok(data)
    }

    fn deserialize_lossy(data: &'a [u8]) -> (r: Result<&'a [u8], InvalidInt>) {
        Ok(data)
    }
}

/// The bytes are no text in UTF-8.
#[derive(Debug, Clone, Copy, PartialEq, Eq, Structural)]
pub struct InvalidUtf8;

/// `str::from_utf8`: the bytes as text, where they are valid UTF-8, and
/// nothing where they are not. The text is the one that the bytes encode.
#[verifier::external_body]
pub(crate) fn str_from_utf8(data: &[u8]) -> (r: Option<&str>)
    ensures
        r is Some <==> valid_utf8(data@),
        r matches Some(s) ==> s@ == decode_utf8(data@),
{
    std::str::from_utf8(data).ok()
}

/// The text that the bytes encode in UTF-8, where they encode one.
pub fn string_from_utf8(data: &[u8]) -> (r: Option<String>)
    ensures
        r is Some <==> valid_utf8(data@),
        r matches Some(s) ==> s@ == decode_utf8(data@),
{
    match str_from_utf8(data) {
        Some(s) => Some(s.to_owned()),
        None => None,
    }
}

/// Text is read from and written as UTF-8.
impl<'a> FieldType<'a> for String {
    type Error = InvalidUtf8;

    type SerializeSettings = ();

    open spec fn spec_serialize(&self, settings: ()) -> Seq<u8> {
        vstd::utf8::encode_utf8(self@)
    }

    open spec fn read_error(data: Seq<u8>, lossy: bool) -> InvalidUtf8 {
        InvalidUtf8
    }

    open spec fn default_settings() -> () {
        ()
    }

    open spec fn readable(data: Seq<u8>) -> bool {
        valid_utf8(data)
    }

    open spec fn reads_as(data: Seq<u8>, value: String) -> bool {
        value@ == decode_utf8(data)
    }

    open spec fn readable_lossy(data: Seq<u8>) -> bool {
        valid_utf8(data)
    }

    open spec fn reads_lossy_as(data: Seq<u8>, value: String) -> bool {
        value@ == decode_utf8(data)
    }

    fn serialize<B>(&self, buffer: &mut B) -> (n: usize) where B: Buffer {
        self.serialize_with(buffer, ())
    }

    fn serialize_with<B>(&self, buffer: &mut B, _settings: ()) -> (n: usize) where B: Buffer {
        let bytes: &[u8] = self.as_str().as_bytes();
        buffer.extend_from_slice(bytes);
        bytes.len()
    }

    fn deserialize(data: &'a [u8]) -> (r: Result<String, InvalidUtf8>) {
        match string_from_utf8(data) {
            Some(s) => Ok(s),
            None => Err(InvalidUtf8),
        }
    }

    fn deserialize_lossy(data: &'a [u8]) -> (r: Result<String, InvalidUtf8>) {
        Self::deserialize(data)
    }
}

} // verus!
