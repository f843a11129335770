//! The decoder: from the bytes of a message to its fields, in one call or
//! from a buffer that is filled piece by piece.
use super::builder::{BuilderModel, MessageBuilder, MessageRecord};
use super::config::{default_config, Config};
use super::digits::{spec_parse_unsigned};
use super::error::{
    constraint_error, syntax_error, ConstraintViolation, DecodeError, FieldSyntaxError,
};
use super::locator::FieldLocatorContext;
use super::lookup::{build_lookup, lookup_get, spec_lookup, TagLookup};
use super::message::{Message, MessageMut};
use super::raw_decoder::{
    parse_header, spec_frame, spec_header, spec_status, FrameProbe, FrameSpan, FrameStatus,
    HeaderProbe, HeaderStatus, RawDecoder, RawFrame,
};
use super::state::{spec_add_group, spec_enter, TrackerModel};
use super::walker::{lemma_next_field_bounds, next_field, spec_next_field, FieldInfo};
use crate::dict::{Dictionary, FixDatatype};
use crate::traits::{Buffer, GetConfig, StreamingDecoder};
use vstd::prelude::*;
use vstd::slice::{slice_subrange, slice_to_vec};

verus! {

/// Where the value of `BeginString(8)` starts in a message: behind `8=`.
pub const BEGIN_STRING_OFFSET: usize = 2;

/// The tag of `BeginString`.
pub const BEGIN_STRING_TAG: u32 = 8;

/// The decoder after one more field with `tag` and `value`.
///
/// First the open groups take note of the tag, which gives the field its
/// context. Then the field is recorded. Last, where the dictionary makes
/// the field a count or a length, its number is read: a count above 0 lets
/// the next field open a group, a length fixes how many bytes the next
/// value takes. A count or length that is no number ends the decoding.
pub open spec fn spec_store_field(
    b: BuilderModel,
    lookup: Map<u32, FixDatatype>,
    tag: u32,
    value: Seq<u8>,
) -> Result<BuilderModel, DecodeError> {
    let index = b.record.locators.len() as usize;
    let added = (BuilderModel { state: spec_enter(b.state, tag), record: b.record }).add_field(
        tag,
        value,
    );
    if lookup.contains_key(tag) && lookup[tag] == FixDatatype::NumInGroup {
        match spec_parse_unsigned(value, usize::MAX as nat) {
            None => Err(constraint_error(ConstraintViolation::NumInGroup { tag })),
            Some(n) => Ok(
                BuilderModel {
                    state: spec_add_group(added.state, tag, index, n as usize),
                    record: added.record,
                },
            ),
        }
    } else if lookup.contains_key(tag) && lookup[tag] == FixDatatype::Length {
        match spec_parse_unsigned(value, usize::MAX as nat) {
            None => Err(constraint_error(ConstraintViolation::Length { tag })),
            Some(n) => Ok(
                BuilderModel {
                    state: TrackerModel {
                        groups: added.state.groups,
                        new_group: added.state.new_group,
                        data_field_length: Some(n as usize),
                    },
                    record: added.record,
                },
            ),
        }
    } else {
        Ok(added)
    }
}

/// The decoder with the length of the next value forgotten.
pub open spec fn spec_take_length(b: BuilderModel) -> BuilderModel {
    BuilderModel {
        state: TrackerModel {
            groups: b.state.groups,
            new_group: b.state.new_group,
            data_field_length: None,
        },
        record: b.record,
    }
}

/// The decoder after all the fields of `payload` from `pos` on, or the
/// first error among them.
pub open spec fn spec_walk(
    payload: Seq<u8>,
    sep: u8,
    lookup: Map<u32, FixDatatype>,
    pos: int,
    b: BuilderModel,
) -> Result<BuilderModel, DecodeError>
    decreases payload.len() - pos,
{
    if pos < 0 || pos >= payload.len() {
        Ok(b)
    } else {
        match spec_next_field(payload, sep, pos, b.state.data_field_length) {
            Err(e) => Err(e),
            Ok(f) => match spec_store_field(
                spec_take_length(b),
                lookup,
                f.tag,
                payload.subrange(f.value_start, f.value_end),
            ) {
                Err(e) => Err(e),
                Ok(next) => {
                    proof {
                        lemma_next_field_bounds(payload, sep, pos, b.state.data_field_length);
                    }
                    spec_walk(payload, sep, lookup, f.value_end + 1, next)
                },
            },
        }
    }
}

/// The decoder after a framed message: `BeginString(8)` first, then the
/// fields of the body.
pub open spec fn spec_decode_frame(
    bytes: Seq<u8>,
    span: FrameSpan,
    sep: u8,
    lookup: Map<u32, FixDatatype>,
) -> Result<BuilderModel, DecodeError> {
    match spec_store_field(
        BuilderModel::start(bytes),
        lookup,
        BEGIN_STRING_TAG,
        bytes.subrange(BEGIN_STRING_OFFSET as int, span.begin_string_end),
    ) {
        Err(e) => Err(e),
        Ok(b) => spec_walk(bytes.subrange(span.payload_start, span.payload_end), sep, lookup, 0, b),
    }
}

/// What decoding the message at the start of `bytes` gives: its fields, or
/// the error that ends the decoding.
pub open spec fn spec_decode(bytes: Seq<u8>, config: Config, lookup: Map<u32, FixDatatype>) -> Result<
    MessageRecord,
    DecodeError,
> {
    match spec_frame(bytes, config) {
        Err(e) => Err(e),
        Ok(span) => match spec_decode_frame(bytes.take(span.len()), span, config.separator, lookup) {
            Err(e) => Err(e),
            Ok(b) => Ok(b.record),
        },
    }
}

/// A decoder of messages in the `tag=value` encoding.
///
/// One decoder serves one stream of messages: the message that it decoded
/// last lives in it, and the next call replaces it.
#[derive(Debug)]
pub struct Decoder {
    pub(crate) builder: MessageBuilder,
    pub(crate) raw_decoder: RawDecoder,
    pub(crate) tag_lookup: TagLookup,
    pub(crate) dict: Dictionary,
}

impl Decoder {
    /// The settings of the decoder.
    pub closed spec fn spec_config(&self) -> Config {
        self.raw_decoder.config
    }

    /// The steering fields that the decoder knows, by tag.
    pub closed spec fn lookup(&self) -> Map<u32, FixDatatype> {
        self.tag_lookup@
    }

    /// The dictionary that the decoder was made with.
    pub closed spec fn spec_dictionary(&self) -> Dictionary {
        self.dict
    }

    /// The message that the decoder holds.
    pub closed spec fn record(&self) -> MessageRecord {
        self.builder@.record
    }

    /// The message that the decoder holds, and where it stands in its
    /// groups.
    pub closed spec fn model(&self) -> BuilderModel {
        self.builder@
    }

    /// A decoder that takes the counts and lengths of `dict` for what they
    /// are, with the default settings.
    pub fn new(dict: Dictionary) -> (r: Decoder)
        ensures
            r.spec_dictionary() == dict,
            r.lookup() == spec_lookup(dict.fields@),
            r.spec_config() == default_config(),
            r.record() == MessageRecord::empty(Seq::empty()),
    {
        let tag_lookup: TagLookup = build_lookup(&dict);
        Decoder {
            builder: MessageBuilder::default(),
            raw_decoder: RawDecoder::default(),
            tag_lookup,
            dict,
        }
    }

    /// The dictionary that the decoder was made with.
    pub fn dictionary(&self) -> (r: &Dictionary)
        ensures
            *r == self.spec_dictionary(),
    {
        &self.dict
    }

    /// The settings of the decoder.
    pub fn config(&self) -> (r: &Config)
        ensures
            *r == self.spec_config(),
    {
        self.raw_decoder.config()
    }

    /// The settings of the decoder, to change them.
    pub fn config_mut(&mut self) -> (r: &mut Config)
        ensures
            *r == old(self).spec_config(),
            final(self).spec_config() == *final(r),
            final(self).lookup() == old(self).lookup(),
            final(self).spec_dictionary() == old(self).spec_dictionary(),
            final(self).record() == old(self).record(),
    {
        self.raw_decoder.config_mut()
    }

    /// Turns the decoder into one that is fed piece by piece, with
    /// `buffer` as the bytes that arrived so far.
    pub fn streaming<B: Buffer>(self, buffer: B) -> (r: DecoderStreaming<B>)
        ensures
            r.buffered() == buffer.spec_bytes(),
            !r.ready(),
            r.failure() is None,
            r.spec_config() == self.spec_config(),
            r.lookup() == self.lookup(),
    {
        DecoderStreaming::new(self, buffer)
    }

    /// Decodes the message that `bytes` starts with and gives a view of its
    /// root. What the decoder held before is forgotten at entry, and after
    /// an error the decoder holds nothing.
    pub fn decode<'a>(&'a mut self, bytes: &[u8]) -> (r: Result<Message<'a>, DecodeError>)
        ensures
            final(self).spec_config() == old(self).spec_config(),
            final(self).lookup() == old(self).lookup(),
            final(self).spec_dictionary() == old(self).spec_dictionary(),
            match spec_decode(bytes@, old(self).spec_config(), old(self).lookup()) {
                Ok(record) => r matches Ok(message) && message.record() == record
                    && message.context() == FieldLocatorContext::TopLevel && final(self).record()
                    == record,
                Err(e) => r matches Err(err) && err == e && final(self).record()
                    == MessageRecord::empty(Seq::empty()),
            },
    {
        let frame: RawFrame = match self.raw_decoder.decode(bytes) {
            Ok(frame) => frame,
            Err(e) => {
                self.builder.clear();
                return Err(e);
            },
        };
        self.decode_frame(frame)
    }

    /// Decodes a message that was framed already. After an error the
    /// decoder holds nothing.
    pub fn decode_frame<'a, 'b>(&'a mut self, frame: RawFrame<'b>) -> (r: Result<
        Message<'a>,
        DecodeError,
    >)
        ensures
            final(self).spec_config() == old(self).spec_config(),
            final(self).lookup() == old(self).lookup(),
            final(self).spec_dictionary() == old(self).spec_dictionary(),
            match spec_decode_frame(
                frame.bytes(),
                frame.span(),
                old(self).spec_config().separator,
                old(self).lookup(),
            ) {
                Ok(b) => r matches Ok(message) && message.record() == b.record && message.context()
                    == FieldLocatorContext::TopLevel && final(self).record() == b.record,
                Err(e) => r matches Err(err) && err == e && final(self).record()
                    == MessageRecord::empty(Seq::empty()),
            },
    {
        match self.fill(frame) {
            Ok(()) => Ok(Message::new(&self.builder, FieldLocatorContext::TopLevel)),
            Err(e) => {
                // Nothing of a message that is refused is kept.
                self.builder.clear();
                Err(e)
            },
        }
    }

    /// Reads the fields of a framed message into the decoder.
    fn fill(&mut self, frame: RawFrame) -> (r: Result<(), DecodeError>)
        ensures
            final(self).spec_config() == old(self).spec_config(),
            final(self).lookup() == old(self).lookup(),
            final(self).spec_dictionary() == old(self).spec_dictionary(),
            match spec_decode_frame(
                frame.bytes(),
                frame.span(),
                old(self).spec_config().separator,
                old(self).lookup(),
            ) {
                Ok(b) => r is Ok && final(self).record() == b.record,
                Err(e) => r == Err::<(), DecodeError>(e),
            },
    {
        self.builder.clear();
        self.builder.bytes = slice_to_vec(frame.as_bytes());
        let separator: u8 = self.raw_decoder.config.separator;
        let payload: &[u8] = frame.payload();
        let begin_string: &[u8] = frame.begin_string();
        let ghost lookup = self.tag_lookup@;
        assert(self.builder@ == BuilderModel::start(frame.bytes()));
        match self.store_field(
            BEGIN_STRING_TAG,
            frame.as_bytes(),
            BEGIN_STRING_OFFSET,
            begin_string.len(),
        ) {
            Err(e) => {
                return Err(e);
            },
            Ok(()) => {},
        }
        let ghost first = self.builder@;
        let mut i: usize = 0;
        while i < payload.len()
            invariant
                i <= payload.len(),
                self.spec_config() == old(self).spec_config(),
                self.lookup() == old(self).lookup(),
                self.spec_dictionary() == old(self).spec_dictionary(),
                lookup == self.tag_lookup@,
                separator == self.raw_decoder.config.separator,
                spec_decode_frame(
                    frame.bytes(),
                    frame.span(),
                    old(self).spec_config().separator,
                    old(self).lookup(),
                ) == spec_walk(payload@, separator, lookup, 0, first),
                spec_walk(payload@, separator, lookup, i as int, self.builder@) == spec_walk(
                    payload@,
                    separator,
                    lookup,
                    0,
                    first,
                ),
            decreases payload.len() - i,
        {
            let pending: Option<usize> = self.builder.state.data_field_length;
            self.builder.state.data_field_length = None;
            let field: FieldInfo = match next_field(payload, separator, i, pending) {
                Ok(field) => field,
                Err(e) => {
                    return Err(e);
                },
            };
            match self.store_field(
                field.tag,
                payload,
                field.value_start,
                field.value_end - field.value_start,
            ) {
                Err(e) => {
                    return Err(e);
                },
                Ok(()) => {},
            }
            i = field.value_end + 1;
        }
        Ok(())
    }

    /// Records the field with `tag` whose value is `field_value_len` bytes
    /// of `raw_message` from `field_value_start` on, and lets the decoder
    /// take note of it.
    pub fn store_field(
        &mut self,
        tag: u32,
        raw_message: &[u8],
        field_value_start: usize,
        field_value_len: usize,
    ) -> (r: Result<(), DecodeError>)
        ensures
            final(self).spec_config() == old(self).spec_config(),
            final(self).lookup() == old(self).lookup(),
            final(self).spec_dictionary() == old(self).spec_dictionary(),
            field_value_start + field_value_len > raw_message@.len() ==> r == Err::<
                (),
                DecodeError,
            >(syntax_error(FieldSyntaxError::OutOfBounds)) && final(self).model() == old(
                self,
            ).model(),
            field_value_start + field_value_len <= raw_message@.len() ==> match spec_store_field(
                old(self).model(),
                old(self).lookup(),
                tag,
                raw_message@.subrange(
                    field_value_start as int,
                    field_value_start + field_value_len,
                ),
            ) {
                Ok(b) => r is Ok && final(self).model() == b,
                Err(e) => r == Err::<(), DecodeError>(e),
            },
    {
        if field_value_start > raw_message.len() || field_value_len > raw_message.len()
            - field_value_start {
            return Err(DecodeError::syntax(FieldSyntaxError::OutOfBounds));
        }
        let field_value: &[u8] = vstd::slice::slice_subrange(
            raw_message,
            field_value_start,
            field_value_start + field_value_len,
        );
        if self.builder.state.new_group.is_some() {
            // A group starts here: this tag opens each of its entries.
            self.builder.state.set_new_group(tag);
        } else {
            self.builder.state.settle(tag);
        }
        let index: usize = self.builder.len();
        let _ = self.builder.add_field(tag, field_value);
        let fix_type: Option<FixDatatype> = lookup_get(&self.tag_lookup, tag);
        match fix_type {
            Some(FixDatatype::NumInGroup) => self.builder.state.add_group(tag, index, field_value),
            Some(FixDatatype::Length) => self.builder.state.add_data_length(tag, field_value),
            _ => Ok(()),
        }
    }
}

/// What one attempt to parse gives, and what it leaves in the buffer.
pub struct ParseStep {
    /// `Ok(Some(record))` for a message, `Ok(None)` where more bytes are
    /// needed, or the error.
    pub result: Result<Option<MessageRecord>, DecodeError>,
    /// The bytes that stay in the buffer.
    pub rest: Seq<u8>,
}

/// One attempt to parse the message at the start of `buffer`. A message
/// that was parsed leaves the buffer; in every other case the buffer keeps
/// its bytes.
pub open spec fn spec_try_parse(
    buffer: Seq<u8>,
    config: Config,
    lookup: Map<u32, FixDatatype>,
) -> ParseStep {
    match spec_status(buffer, config) {
        FrameStatus::Incomplete => ParseStep { result: Ok(None), rest: buffer },
        FrameStatus::Malformed(e) => ParseStep { result: Err(e), rest: buffer },
        FrameStatus::Complete(span) => match spec_decode_frame(
            buffer.take(span.len()),
            span,
            config.separator,
            lookup,
        ) {
            Ok(b) => ParseStep { result: Ok(Some(b.record)), rest: buffer.skip(span.len()) },
            Err(e) => ParseStep { result: Err(e), rest: buffer },
        },
    }
}

/// A number of bytes without which the message at the start of `buffer`
/// cannot be complete: what is missing of it where its header tells its
/// length, one byte where the header is not complete yet, and none where
/// nothing is missing.
pub open spec fn spec_bytes_required(buffer: Seq<u8>, config: Config) -> int {
    match spec_status(buffer, config) {
        FrameStatus::Incomplete => match spec_header(
            buffer,
            config.separator,
            config.max_message_size as int,
        ) {
            HeaderStatus::Found(h) => h.body_start + h.body_len + 7 - buffer.len(),
            _ => 1,
        },
        _ => 0,
    }
}

/// A decoder with a buffer of its own. Bytes are fed to it as they arrive,
/// and it hands out one message after the other.
///
/// The decoder is idle while its buffer is empty. Fed with bytes it frames:
/// every attempt to parse answers that more bytes are needed, until the
/// first message is complete. Then a message is ready: its bytes have left
/// the buffer, what came behind them stays, and the next attempt starts on
/// the next message. An error stops the decoder until it is cleared.
#[derive(Debug)]
pub struct DecoderStreaming<B> {
    pub(crate) decoder: Decoder,
    pub(crate) buffer: B,
    pub(crate) is_ready: bool,
    pub(crate) failed: Option<DecodeError>,
}

impl<B: Buffer> DecoderStreaming<B> {
    /// The bytes that were fed and belong to no message that was parsed.
    pub closed spec fn buffered(&self) -> Seq<u8> {
        self.buffer.spec_bytes()
    }

    /// Whether a message is there to be looked at.
    pub closed spec fn ready(&self) -> bool {
        self.is_ready
    }

    /// The error that stopped the decoder, if one did.
    pub closed spec fn failure(&self) -> Option<DecodeError> {
        self.failed
    }

    /// The settings of the decoder.
    pub closed spec fn spec_config(&self) -> Config {
        self.decoder.spec_config()
    }

    /// The steering fields that the decoder knows, by tag.
    pub closed spec fn lookup(&self) -> Map<u32, FixDatatype> {
        self.decoder.lookup()
    }

    /// The message that was parsed last.
    pub closed spec fn record(&self) -> MessageRecord {
        self.decoder.record()
    }

    /// Makes a streaming decoder of `decoder`, with `buffer` as the bytes
    /// that arrived so far.
    pub fn new(decoder: Decoder, buffer: B) -> (r: DecoderStreaming<B>)
        ensures
            r.buffered() == buffer.spec_bytes(),
            !r.ready(),
            r.failure() is None,
            r.spec_config() == decoder.spec_config(),
            r.lookup() == decoder.lookup(),
    {
        DecoderStreaming { decoder, buffer, is_ready: false, failed: None }
    }

    /// The settings of the decoder.
    pub fn config(&self) -> (r: &Config)
        ensures
            *r == self.spec_config(),
    {
        self.decoder.config()
    }

    /// The settings of the decoder, to change them.
    pub fn config_mut(&mut self) -> (r: &mut Config)
        ensures
            *r == old(self).spec_config(),
            final(self).spec_config() == *final(r),
            final(self).lookup() == old(self).lookup(),
            final(self).buffered() == old(self).buffered(),
            final(self).ready() == old(self).ready(),
            final(self).failure() == old(self).failure(),
            final(self).record() == old(self).record(),
    {
        self.decoder.config_mut()
    }

    /// Appends bytes that arrived.
    pub fn feed(&mut self, bytes: &[u8])
        ensures
            final(self).buffered() == old(self).buffered() + bytes@,
            final(self).ready() == old(self).ready(),
            final(self).failure() == old(self).failure(),
            final(self).spec_config() == old(self).spec_config(),
            final(self).lookup() == old(self).lookup(),
            final(self).record() == old(self).record(),
    {
        self.buffer.extend_from_slice(bytes);
    }

    /// Forgets the bytes in the buffer, the message and any error. After an
    /// error this is the way to go on.
    pub fn clear(&mut self)
        ensures
            final(self).buffered() == Seq::<u8>::empty(),
            !final(self).ready(),
            final(self).failure() is None,
            final(self).record() == MessageRecord::empty(Seq::empty()),
            final(self).spec_config() == old(self).spec_config(),
            final(self).lookup() == old(self).lookup(),
    {
        self.buffer.clear();
        self.decoder.builder.clear();
        self.is_ready = false;
        self.failed = None;
    }

    /// A number of bytes without which the next message cannot be
    /// complete; 0 where a call of `try_parse` will not ask for more.
    pub fn num_bytes_required(&self) -> (r: usize)
        ensures
            self.failure() is None ==> r == spec_bytes_required(self.buffered(), self.spec_config()),
            self.failure() is Some ==> r == 0,
    {
        if self.failed.is_some() {
            return 0;
        }
        let config: &Config = self.decoder.config();
        match self.decoder.raw_decoder.probe(self.buffer.as_slice()) {
            FrameProbe::Incomplete => {
                match parse_header(
                    self.buffer.as_slice(),
                    config.separator,
                    config.max_message_size,
                ) {
                    HeaderProbe::Found(h) => {
                        assert(h.body_start + h.body_len + 7 <= config.max_message_size);
                        assert(self.buffer.spec_bytes().len() < h.body_start + h.body_len + 7);
                        h.body_start + h.body_len + 7 - self.buffer.len()
                    },
                    _ => 1,
                }
            },
            _ => 0,
        }
    }

    /// Tries to parse the message at the start of the buffer.
    ///
    /// `Ok(Some(()))` says that a message was parsed: its bytes have left
    /// the buffer and `message` shows it. `Ok(None)` says that more bytes
    /// are needed. An error stops the decoder: every later call gives the
    /// same error, until `clear` is called. Nothing is kept of a message
    /// that was framed and then refused.
    pub fn try_parse(&mut self) -> (r: Result<Option<()>, DecodeError>)
        ensures
            final(self).spec_config() == old(self).spec_config(),
            final(self).lookup() == old(self).lookup(),
            old(self).failure() matches Some(e) ==> r == Err::<Option<()>, DecodeError>(e)
                && final(self).failure() == old(self).failure()
                && final(self).buffered() == old(self).buffered()
                && final(self).ready() == old(self).ready()
                && final(self).record() == old(self).record(),
            old(self).failure() is None ==> ({
                let step = spec_try_parse(
                    old(self).buffered(),
                    old(self).spec_config(),
                    old(self).lookup(),
                );
                &&& final(self).buffered() == step.rest
                &&& match step.result {
                    Ok(Some(record)) => {
                        &&& r == Ok::<Option<()>, DecodeError>(Some(()))
                        &&& final(self).ready()
                        &&& final(self).record() == record
                        &&& final(self).failure() is None
                    },
                    Ok(None) => {
                        &&& r == Ok::<Option<()>, DecodeError>(None)
                        &&& !final(self).ready()
                        &&& final(self).failure() is None
                        &&& final(self).record() == old(self).record()
                    },
                    Err(e) => {
                        &&& r == Err::<Option<()>, DecodeError>(e)
                        &&& !final(self).ready()
                        &&& final(self).failure() == Some(e)
                        &&& final(self).record() == if spec_status(
                            old(self).buffered(),
                            old(self).spec_config(),
                        ) is Complete {
                            MessageRecord::empty(Seq::empty())
                        } else {
                            old(self).record()
                        }
                    },
                }
            }),
    {
        match self.failed {
            Some(e) => {
                return Err(e);
            },
            None => {},
        }
        self.is_ready = false;
        let probe: FrameProbe = self.decoder.raw_decoder.probe(self.buffer.as_slice());
        match probe {
            FrameProbe::Incomplete => Ok(None),
            FrameProbe::Malformed(e) => {
                self.failed = Some(e);
                Err(e)
            },
            FrameProbe::Complete(info) => {
                let frame_len: usize = info.payload_end + 7;
                let ghost bytes = self.buffer.spec_bytes();
                let whole: &[u8] = self.buffer.as_slice();
                let message: &[u8] = slice_subrange(whole, 0, frame_len);
                assert(message@ =~= bytes.take(frame_len as int));
                let frame: RawFrame = RawFrame::framed(message, info);
                let error: Option<DecodeError> = match self.decoder.decode_frame(frame) {
                    Ok(_) => None,
                    Err(e) => Some(e),
                };
                match error {
                    None => {
                        // The message leaves the buffer; what came behind
                        // it stays.
                        let whole: &[u8] = self.buffer.as_slice();
                        let rest: Vec<u8> = slice_to_vec(
                            slice_subrange(whole, frame_len, whole.len()),
                        );
                        self.buffer.clear();
                        self.buffer.extend_from_slice(rest.as_slice());
                        self.is_ready = true;
                        assert(self.buffer.spec_bytes() =~= bytes.skip(frame_len as int));
                        Ok(Some(()))
                    },
                    Some(e) => {
                        self.failed = Some(e);
                        Err(e)
                    },
                }
            },
        }
    }

    /// A view of the root of the message that was parsed last.
    pub fn message(&self) -> (r: Message<'_>)
        requires
            self.ready(),
        ensures
            r.record() == self.record(),
            r.context() == FieldLocatorContext::TopLevel,
    {
        Message::new(&self.decoder.builder, FieldLocatorContext::TopLevel)
    }

    /// A view of the root of the message that was parsed last, for taking
    /// fields out.
    pub fn message_mut(&mut self) -> (r: MessageMut<'_>)
        requires
            old(self).ready(),
        ensures
            r.record() == old(self).record(),
            r.context() == FieldLocatorContext::TopLevel,
            final(self).record() == final(r.builder)@.record,
            final(self).spec_config() == old(self).spec_config(),
            final(self).lookup() == old(self).lookup(),
            final(self).buffered() == old(self).buffered(),
            final(self).ready(),
            final(self).failure() == old(self).failure(),
    {
        MessageMut::new(&mut self.decoder.builder, FieldLocatorContext::TopLevel)
    }
}


impl GetConfig for Decoder {
    type Config = Config;

    closed spec fn spec_config(&self) -> Config {
        self.raw_decoder.config
    }

    fn config(&self) -> (r: &Config) {
        self.raw_decoder.config()
    }

    fn config_mut(&mut self) -> (r: &mut Config) {
        self.raw_decoder.config_mut()
    }
}

impl<B: Buffer> GetConfig for DecoderStreaming<B> {
    type Config = Config;

    closed spec fn spec_config(&self) -> Config {
        self.decoder.raw_decoder.config
    }

    fn config(&self) -> (r: &Config) {
        self.decoder.raw_decoder.config()
    }

    fn config_mut(&mut self) -> (r: &mut Config) {
        self.decoder.raw_decoder.config_mut()
    }
}

impl<B: Buffer> StreamingDecoder for DecoderStreaming<B> {
    type Buffer = B;

    type Error = DecodeError;

    closed spec fn spec_buffer(&self) -> B {
        self.buffer
    }

    closed spec fn spec_num_bytes_required(&self) -> usize {
        if self.failed is None {
            spec_bytes_required(self.buffer.spec_bytes(), self.decoder.raw_decoder.config) as usize
        } else {
            0
        }
    }

    /// A decoder that has failed repeats its error. Any other answers as
    /// the bytes that wait decide: a message, a call for more bytes, or
    /// the error that the first frame is refused with.
    open spec fn spec_parse_outcome(&self) -> Result<Option<()>, DecodeError> {
        match self.failure() {
            Some(e) => Err(e),
            None => match spec_try_parse(
                self.buffered(),
                Self::spec_config(self),
                self.lookup(),
            ).result {
                Ok(Some(_)) => Ok(Some(())),
                Ok(None) => Ok(None),
                Err(e) => Err(e),
            },
        }
    }

    fn buffer(&mut self) -> (r: &mut B) {
        &mut self.buffer
    }

    fn num_bytes_required(&self) -> (r: usize) {
        Self::num_bytes_required(self)
    }

    /// Does what the decoder's own `try_parse` does: a failed decoder is
    /// left as it is; otherwise the bytes of a message that was framed
    /// leave the buffer, a message that was read can be looked at, and an
    /// error is remembered.
    fn try_parse(&mut self) -> (r: Result<Option<()>, DecodeError>)
        ensures
            Self::spec_config(final(self)) == Self::spec_config(old(self)),
            final(self).lookup() == old(self).lookup(),
            old(self).failure() is Some ==> {
                &&& final(self).failure() == old(self).failure()
                &&& final(self).buffered() == old(self).buffered()
                &&& final(self).ready() == old(self).ready()
                &&& final(self).record() == old(self).record()
            },
            old(self).failure() is None ==> ({
                let step = spec_try_parse(
                    old(self).buffered(),
                    Self::spec_config(old(self)),
                    old(self).lookup(),
                );
                &&& final(self).buffered() == step.rest
                &&& match step.result {
                    Ok(Some(record)) => {
                        &&& final(self).ready()
                        &&& final(self).record() == record
                        &&& final(self).failure() is None
                    },
                    Ok(None) => {
                        &&& !final(self).ready()
                        &&& final(self).failure() is None
                        &&& final(self).record() == old(self).record()
                    },
                    Err(e) => {
                        &&& !final(self).ready()
                        &&& final(self).failure() == Some(e)
                        &&& final(self).record() == if spec_status(
                            old(self).buffered(),
                            Self::spec_config(old(self)),
                        ) is Complete {
                            MessageRecord::empty(Seq::empty())
                        } else {
                            old(self).record()
                        }
                    },
                }
            }),
    {
        Self::try_parse(self)
    }
}

} // verus!
