//! Framing: where one message starts and ends in a buffer.
//!
//! A message is framed by three fields. `BeginString(8)` opens it,
//! `BodyLength(9)` follows and counts the bytes of the body, and
//! `CheckSum(10)` closes it with three digits: the sum of all the bytes
//! before it, modulo 256. A message whose bytes add up to another number
//! is refused.
use super::config::{default_config, Config};
use super::digits::{all_digits, byte_is_digit, decimal_value, is_digit, parse_decimal};
use super::error::{frame_error, syntax_error, DecodeError, FieldSyntaxError, FrameError};
use super::scan::{digits_end, find_byte, index_of, lemma_digits_end, skip_digits};
use vstd::prelude::*;
use vstd::slice::slice_subrange;

verus! {

/// The bytes that `CheckSum(10)` takes on the wire: `10=`, three digits and
/// the separator.
pub const FIELD_CHECKSUM_LEN: usize = 7;

/// The header of a message, as places in the buffer.
pub struct HeaderSpec {
    /// Where the separator behind `BeginString(8)` stands.
    pub begin_string_end: int,
    /// Where the body starts: behind the separator of `BodyLength(9)`.
    pub body_start: int,
    /// The value of `BodyLength(9)`.
    pub body_len: int,
}

/// What the start of a buffer says about the header of a message.
pub enum HeaderStatus {
    /// The buffer ends before the header does.
    NeedMore,
    /// No header starts like this.
    Bad(FrameError),
    /// The header is complete.
    Found(HeaderSpec),
}

/// Reads the header at the start of `buf`. A body longer than `max` is
/// refused at once.
pub open spec fn spec_header(buf: Seq<u8>, sep: u8, max: int) -> HeaderStatus {
    if buf.len() >= 1 && buf[0] != 0x38 {
        HeaderStatus::Bad(FrameError::MissingBeginString)
    } else if buf.len() >= 2 && buf[1] != 0x3d {
        HeaderStatus::Bad(FrameError::MissingBeginString)
    } else {
        let s1 = index_of(buf, sep, 2);
        if s1 >= buf.len() {
            HeaderStatus::NeedMore
        } else if buf.len() > s1 + 1 && buf[s1 + 1] != 0x39 {
            HeaderStatus::Bad(FrameError::MissingBodyLength)
        } else if buf.len() > s1 + 2 && buf[s1 + 2] != 0x3d {
            HeaderStatus::Bad(FrameError::MissingBodyLength)
        } else {
            let d0 = s1 + 3;
            let d1 = digits_end(buf, d0);
            if d1 >= buf.len() {
                HeaderStatus::NeedMore
            } else if buf[d1] != sep || d1 == d0 {
                HeaderStatus::Bad(FrameError::MissingBodyLength)
            } else if decimal_value(buf.subrange(d0, d1)) > max {
                HeaderStatus::Bad(FrameError::TooLarge)
            } else {
                HeaderStatus::Found(
                    HeaderSpec {
                        begin_string_end: s1,
                        body_start: d1 + 1,
                        body_len: decimal_value(buf.subrange(d0, d1)) as int,
                    },
                )
            }
        }
    }
}

/// The sum of the bytes of `s`.
pub open spec fn byte_sum(s: Seq<u8>) -> nat
    decreases s.len(),
{
    if s.len() == 0 {
        0
    } else {
        byte_sum(s.drop_last()) + s.last() as nat
    }
}

/// Whether `b` may stand at place `i` of `10=ddd`.
pub open spec fn trailer_byte_ok(i: int, b: u8) -> bool {
    if i == 0 {
        b == 0x31
    } else if i == 1 {
        b == 0x30
    } else if i == 2 {
        b == 0x3d
    } else {
        is_digit(b)
    }
}

/// Whether `t` is `10=ddd` or the start of it.
pub open spec fn trailer_prefix_ok(t: Seq<u8>) -> bool {
    forall|i: int| 0 <= i < t.len() && i < 6 ==> trailer_byte_ok(i, #[trigger] t[i])
}

/// One message in a buffer, as places in it. The message starts at the
/// start of the buffer and takes `payload_end + 7` bytes.
pub struct FrameSpan {
    /// Where the separator behind `BeginString(8)` stands; its value starts
    /// at 2.
    pub begin_string_end: int,
    /// Where the first field behind `BodyLength(9)` starts.
    pub payload_start: int,
    /// Where `CheckSum(10)` starts.
    pub payload_end: int,
}

impl FrameSpan {
    /// The number of bytes of the whole message.
    pub open spec fn len(self) -> int {
        self.payload_end + 7
    }
}

/// What a buffer that is being filled holds at its start.
pub enum FrameStatus {
    /// So far the bytes are the start of a message: more are needed.
    Incomplete,
    /// No message starts like this.
    Malformed(DecodeError),
    /// One whole message, and perhaps more bytes behind it.
    Complete(FrameSpan),
}

/// Looks for one message at the start of `buf`.
pub open spec fn spec_status(buf: Seq<u8>, config: Config) -> FrameStatus {
    let max = config.max_message_size as int;
    match spec_header(buf, config.separator, max) {
        HeaderStatus::NeedMore => if buf.len() >= max {
            FrameStatus::Malformed(frame_error(FrameError::TooLarge))
        } else {
            FrameStatus::Incomplete
        },
        HeaderStatus::Bad(e) => FrameStatus::Malformed(frame_error(e)),
        HeaderStatus::Found(h) => {
            let body_end = h.body_start + h.body_len;
            if body_end + 7 > max {
                FrameStatus::Malformed(frame_error(FrameError::TooLarge))
            } else if buf.len() < body_end + 7 {
                FrameStatus::Incomplete
            } else if !trailer_prefix_ok(buf.subrange(body_end, body_end + 6)) {
                FrameStatus::Malformed(frame_error(FrameError::MissingCheckSum))
            } else if buf[body_end + 6] != config.separator {
                FrameStatus::Malformed(syntax_error(FieldSyntaxError::MissingSeparator))
            } else if decimal_value(
                buf.subrange(body_end + 3, body_end + 6),
            ) != byte_sum(buf.take(body_end)) % 256 {
                FrameStatus::Malformed(frame_error(FrameError::CheckSumMismatch))
            } else {
                FrameStatus::Complete(
                    FrameSpan {
                        begin_string_end: h.begin_string_end,
                        payload_start: h.body_start,
                        payload_end: body_end,
                    },
                )
            }
        },
    }
}

/// What is wrong with a buffer that ends before its message does, when no
/// more bytes will come.
pub open spec fn spec_truncation(buf: Seq<u8>, config: Config) -> DecodeError {
    match spec_header(buf, config.separator, config.max_message_size as int) {
        HeaderStatus::Found(h) => {
            let body_end = h.body_start + h.body_len;
            if buf.len() < body_end {
                frame_error(FrameError::TruncatedBody)
            } else if trailer_prefix_ok(buf.subrange(body_end, buf.len() as int)) {
                syntax_error(FieldSyntaxError::MissingSeparator)
            } else {
                frame_error(FrameError::MissingCheckSum)
            }
        },
        _ => if index_of(buf, config.separator, 2) >= buf.len() {
            frame_error(FrameError::MissingBeginString)
        } else {
            frame_error(FrameError::MissingBodyLength)
        },
    }
}

/// Frames the one message that `buf` starts with, or says why there is
/// none.
pub open spec fn spec_frame(buf: Seq<u8>, config: Config) -> Result<FrameSpan, DecodeError> {
    match spec_status(buf, config) {
        FrameStatus::Complete(f) => Ok(f),
        FrameStatus::Malformed(e) => Err(e),
        FrameStatus::Incomplete => Err(spec_truncation(buf, config)),
    }
}

/// The header of a message, as found in a buffer.
#[derive(Debug, Clone, Copy)]
pub struct HeaderInfo {
    pub begin_string_end: usize,
    pub body_start: usize,
    pub body_len: usize,
}

impl View for HeaderInfo {
    type V = HeaderSpec;

    open spec fn view(&self) -> HeaderSpec {
        HeaderSpec {
            begin_string_end: self.begin_string_end as int,
            body_start: self.body_start as int,
            body_len: self.body_len as int,
        }
    }
}

/// The result of reading a header.
#[derive(Debug, Clone, Copy)]
pub enum HeaderProbe {
    NeedMore,
    Bad(FrameError),
    Found(HeaderInfo),
}

impl View for HeaderProbe {
    type V = HeaderStatus;

    open spec fn view(&self) -> HeaderStatus {
        match self {
            HeaderProbe::NeedMore => HeaderStatus::NeedMore,
            HeaderProbe::Bad(e) => HeaderStatus::Bad(*e),
            HeaderProbe::Found(h) => HeaderStatus::Found(h@),
        }
    }
}

/// Reads the header at the start of `data`.
pub fn parse_header(data: &[u8], sep: u8, max: usize) -> (r: HeaderProbe)
    ensures
        r@ == spec_header(data@, sep, max as int),
        r matches HeaderProbe::Found(h) ==> 2 <= h.begin_string_end && h.begin_string_end + 4
            < h.body_start <= data.len() && h.body_len <= max,
{
    let n: usize = data.len();
    if n >= 1 && data[0] != 0x38 {
        return HeaderProbe::Bad(FrameError::MissingBeginString);
    }
    if n >= 2 && data[1] != 0x3d {
        return HeaderProbe::Bad(FrameError::MissingBeginString);
    }
    if n < 2 {
        return HeaderProbe::NeedMore;
    }
    let s1: usize = find_byte(data, 2, sep);
    if s1 >= n {
        return HeaderProbe::NeedMore;
    }
    if n - s1 > 1 && data[s1 + 1] != 0x39 {
        return HeaderProbe::Bad(FrameError::MissingBodyLength);
    }
    if n - s1 > 2 && data[s1 + 2] != 0x3d {
        return HeaderProbe::Bad(FrameError::MissingBodyLength);
    }
    if n - s1 < 3 {
        proof {
            assert(digits_end(data@, s1 + 3) == n);
        }
        return HeaderProbe::NeedMore;
    }
    let d0: usize = s1 + 3;
    let d1: usize = skip_digits(data, d0);
    if d1 >= n {
        return HeaderProbe::NeedMore;
    }
    if data[d1] != sep || d1 == d0 {
        return HeaderProbe::Bad(FrameError::MissingBodyLength);
    }
    proof {
        lemma_digits_end(data@, d0 as int);
        let s = data@.subrange(d0 as int, d1 as int);
        assert forall|i: int| 0 <= i < s.len() implies is_digit(#[trigger] s[i]) by {
            assert(s[i] == data@[d0 + i]);
        }
    }
    match parse_decimal(data, d0, d1, max as u64) {
        None => HeaderProbe::Bad(FrameError::TooLarge),
        Some(v) => HeaderProbe::Found(
            HeaderInfo { begin_string_end: s1, body_start: d1 + 1, body_len: v as usize },
        ),
    }
}

/// Adds up `data[..end]` modulo 256.
pub fn checksum(data: &[u8], end: usize) -> (r: u8)
    requires
        end <= data.len(),
    ensures
        r as nat == byte_sum(data@.take(end as int)) % 256,
{
    let mut acc: u8 = 0;
    let mut i: usize = 0;
    proof {
        assert(data@.take(0) =~= Seq::<u8>::empty());
    }
    while i < end
        invariant
            i <= end <= data.len(),
            acc as nat == byte_sum(data@.take(i as int)) % 256,
        decreases end - i,
    {
        proof {
            assert(data@.take(i + 1).drop_last() =~= data@.take(i as int));
            assert(data@.take(i + 1).last() == data@[i as int]);
        }
        acc = ((acc as u16 + data[i] as u16) % 256) as u8;
        i = i + 1;
    }
    acc
}

/// Tests whether `data[start..end]` is `10=ddd` or the start of it.
pub fn trailer_ok(data: &[u8], start: usize, end: usize) -> (r: bool)
    requires
        start <= end <= data.len(),
        end - start <= 6,
    ensures
        r == trailer_prefix_ok(data@.subrange(start as int, end as int)),
{
    let ghost t = data@.subrange(start as int, end as int);
    let mut i: usize = start;
    while i < end
        invariant
            start <= i <= end <= data.len(),
            end - start <= 6,
            t == data@.subrange(start as int, end as int),
            forall|j: int| 0 <= j < i - start ==> trailer_byte_ok(j, #[trigger] t[j]),
        decreases end - i,
    {
        let b: u8 = data[i];
        let k: usize = i - start;
        let ok: bool = if k == 0 {
            b == 0x31
        } else if k == 1 {
            b == 0x30
        } else if k == 2 {
            b == 0x3d
        } else {
            byte_is_digit(b)
        };
        assert(t[k as int] == b);
        if !ok {
            assert(!trailer_byte_ok(k as int, t[k as int]));
            return false;
        }
        i = i + 1;
    }
    true
}

/// One message in a buffer, as found by [`RawDecoder::probe`].
#[derive(Debug, Clone, Copy)]
pub struct FrameInfo {
    pub begin_string_end: usize,
    pub payload_start: usize,
    pub payload_end: usize,
}

impl View for FrameInfo {
    type V = FrameSpan;

    open spec fn view(&self) -> FrameSpan {
        FrameSpan {
            begin_string_end: self.begin_string_end as int,
            payload_start: self.payload_start as int,
            payload_end: self.payload_end as int,
        }
    }
}

/// The result of looking for a message in a buffer that is being filled.
#[derive(Debug, Clone, Copy)]
pub enum FrameProbe {
    Incomplete,
    Malformed(DecodeError),
    Complete(FrameInfo),
}

impl View for FrameProbe {
    type V = FrameStatus;

    open spec fn view(&self) -> FrameStatus {
        match self {
            FrameProbe::Incomplete => FrameStatus::Incomplete,
            FrameProbe::Malformed(e) => FrameStatus::Malformed(*e),
            FrameProbe::Complete(f) => FrameStatus::Complete(f@),
        }
    }
}

/// The places of a framed message are in order and lie in the buffer.
pub open spec fn span_fits(f: FrameSpan, len: int) -> bool {
    2 <= f.begin_string_end < f.payload_start <= f.payload_end && f.payload_end + 7 <= len
}

/// One message, framed: its bytes, and where its parts are.
#[derive(Debug, Clone, Copy)]
pub struct RawFrame<'a> {
    data: &'a [u8],
    info: FrameInfo,
}

impl<'a> RawFrame<'a> {
    #[verifier::type_invariant]
    spec fn inv(self) -> bool {
        span_fits(self.info@, self.data@.len() as int) && self.info.payload_end + 7
            == self.data@.len()
    }

    /// The bytes of the message.
    pub closed spec fn bytes(self) -> Seq<u8> {
        self.data@
    }

    /// Where the parts of the message are.
    pub closed spec fn span(self) -> FrameSpan {
        self.info@
    }

    /// The message that takes all of `data`, with its parts where `info`
    /// says; `None` where the places do not fit the bytes.
    pub fn new(data: &'a [u8], info: FrameInfo) -> (r: Option<RawFrame<'a>>)
        ensures
            span_fits(info@, data@.len() as int) && info.payload_end + 7 == data@.len() ==> (
            r matches Some(frame) && frame.bytes() == data@ && frame.span() == info@),
            !(span_fits(info@, data@.len() as int) && info.payload_end + 7 == data@.len())
                ==> r is None,
    {
        if 2 <= info.begin_string_end && info.begin_string_end < info.payload_start
            && info.payload_start <= info.payload_end && info.payload_end <= data.len()
            && data.len() - info.payload_end == 7 {
            Some(RawFrame { data, info })
        } else {
            None
        }
    }

    /// The message that takes all of `data`, with its parts where `info`
    /// says.
    pub(crate) fn framed(data: &'a [u8], info: FrameInfo) -> (r: RawFrame<'a>)
        requires
            span_fits(info@, data@.len() as int),
            info.payload_end + 7 == data@.len(),
        ensures
            r.bytes() == data@,
            r.span() == info@,
    {
        RawFrame { data, info }
    }

    /// The whole message, from `8=` to the separator behind the checksum.
    pub fn as_bytes(&self) -> (r: &'a [u8])
        ensures
            r@ == self.bytes(),
    {
        self.data
    }

    /// The value of `BeginString(8)`.
    pub fn begin_string(&self) -> (r: &'a [u8])
        ensures
            r@ == self.bytes().subrange(2, self.span().begin_string_end),
            span_fits(self.span(), self.bytes().len() as int),
    {
        proof {
            use_type_invariant(self);
        }
        slice_subrange(self.data, 2, self.info.begin_string_end)
    }

    /// The fields between `BodyLength(9)` and `CheckSum(10)`.
    pub fn payload(&self) -> (r: &'a [u8])
        ensures
            r@ == self.bytes().subrange(self.span().payload_start, self.span().payload_end),
            span_fits(self.span(), self.bytes().len() as int),
    {
        proof {
            use_type_invariant(self);
        }
        slice_subrange(self.data, self.info.payload_start, self.info.payload_end)
    }
}

/// Finds messages in buffers. It keeps no state between calls.
#[derive(Debug, Clone, Copy)]
pub struct RawDecoder {
    pub config: Config,
}

impl Default for RawDecoder {
    fn default() -> (r: RawDecoder)
        ensures
            r.config == default_config(),
    {
        RawDecoder { config: Config::default() }
    }
}

impl RawDecoder {
    /// The settings in use.
    pub fn config(&self) -> (r: &Config)
        ensures
            *r == self.config,
    {
        &self.config
    }

    /// The settings in use, to change them.
    pub fn config_mut(&mut self) -> (r: &mut Config)
        ensures
            *r == old(self).config,
            final(self).config == *final(r),
    {
        &mut self.config
    }

    /// Looks for one message at the start of a buffer that may still grow.
    pub fn probe(&self, data: &[u8]) -> (r: FrameProbe)
        ensures
            r@ == spec_status(data@, self.config),
            r matches FrameProbe::Complete(f) ==> span_fits(f@, data@.len() as int),
    {
        let sep: u8 = self.config.separator;
        let max: usize = self.config.max_message_size;
        match parse_header(data, sep, max) {
            HeaderProbe::NeedMore => {
                if data.len() >= max {
                    FrameProbe::Malformed(DecodeError::frame(FrameError::TooLarge))
                } else {
                    FrameProbe::Incomplete
                }
            },
            HeaderProbe::Bad(e) => FrameProbe::Malformed(DecodeError::frame(e)),
            HeaderProbe::Found(h) => {
                if max < 7 || h.body_start > max - 7 || h.body_len > max - 7 - h.body_start {
                    return FrameProbe::Malformed(DecodeError::frame(FrameError::TooLarge));
                }
                let body_end: usize = h.body_start + h.body_len;
                if data.len() < body_end + 7 {
                    return FrameProbe::Incomplete;
                }
                if !trailer_ok(data, body_end, body_end + 6) {
                    return FrameProbe::Malformed(DecodeError::frame(FrameError::MissingCheckSum));
                }
                if data[body_end + 6] != sep {
                    return FrameProbe::Malformed(
                        DecodeError::syntax(FieldSyntaxError::MissingSeparator),
                    );
                }
                let ghost digits = data@.subrange(body_end + 3, body_end + 6);
                proof {
                    let t = data@.subrange(body_end as int, body_end + 6);
                    assert forall|i: int| 0 <= i < digits.len() implies is_digit(
                        #[trigger] digits[i],
                    ) by {
                        assert(trailer_byte_ok(i + 3, t[i + 3]));
                    }
                    lemma_three_digits(digits);
                }
                let nominal: Option<u64> = parse_decimal(data, body_end + 3, body_end + 6, 999);
                let actual: u8 = checksum(data, body_end);
                match nominal {
                    Some(v) => {
                        if v != actual as u64 {
                            return FrameProbe::Malformed(
                                DecodeError::frame(FrameError::CheckSumMismatch),
                            );
                        }
                    },
                    None => {
                        assert(false);
                    },
                }
                FrameProbe::Complete(
                    FrameInfo {
                        begin_string_end: h.begin_string_end,
                        payload_start: h.body_start,
                        payload_end: body_end,
                    },
                )
            },
        }
    }

    /// Frames the one message that `data` starts with. Bytes behind the
    /// message are left alone.
    pub fn decode<'a>(&self, data: &'a [u8]) -> (r: Result<RawFrame<'a>, DecodeError>)
        ensures
            match spec_frame(data@, self.config) {
                Ok(f) => r matches Ok(frame) && frame.span() == f && frame.bytes() == data@.take(
                    f.len(),
                ),
                Err(e) => r == Err::<RawFrame<'a>, DecodeError>(e),
            },
    {
        match self.probe(data) {
            FrameProbe::Complete(f) => {
                let bytes: &[u8] = slice_subrange(data, 0, f.payload_end + 7);
                assert(bytes@ =~= data@.take(f.payload_end + 7));
                Ok(RawFrame::framed(bytes, f))
            },
            FrameProbe::Malformed(e) => Err(e),
            FrameProbe::Incomplete => {
                let sep: u8 = self.config.separator;
                match parse_header(data, sep, self.config.max_message_size) {
                    HeaderProbe::Found(h) => {
                        if data.len() - h.body_start < h.body_len {
                            Err(DecodeError::frame(FrameError::TruncatedBody))
                        } else if trailer_ok(data, h.body_start + h.body_len, data.len()) {
                            Err(DecodeError::syntax(FieldSyntaxError::MissingSeparator))
                        } else {
                            Err(DecodeError::frame(FrameError::MissingCheckSum))
                        }
                    },
                    _ => {
                        if data.len() < 2 || find_byte(data, 2, sep) >= data.len() {
                            Err(DecodeError::frame(FrameError::MissingBeginString))
                        } else {
                            Err(DecodeError::frame(FrameError::MissingBodyLength))
                        }
                    },
                }
            },
        }
    }
}

/// Three digits denote a number below 1000.
pub proof fn lemma_three_digits(s: Seq<u8>)
    requires
        s.len() == 3,
        all_digits(s),
    ensures
        decimal_value(s) == (s[0] - 0x30) * 100 + (s[1] - 0x30) * 10 + (s[2] - 0x30),
        decimal_value(s) <= 999,
{
    let s2 = s.drop_last();
    let s1 = s2.drop_last();
    assert(s1.drop_last().len() == 0);
    assert(decimal_value(s1.drop_last()) == 0);
    assert(s1.last() == s[0]);
    assert(s2.last() == s[1]);
    assert(is_digit(s[0]) && is_digit(s[1]) && is_digit(s[2]));
    assert(decimal_value(s1) == s[0] - 0x30);
    assert(decimal_value(s2) == (s[0] - 0x30) * 10 + (s[1] - 0x30));
}

} // verus!
