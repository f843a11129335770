//! What holds of every message and every decoder.
//!
//! The functions of this module are proofs: each one states a law of the
//! decoder over the same models that the contracts of its functions use.
use super::builder::{BuilderModel, MessageRecord};
use super::config::Config;
use super::decoder::{
    spec_bytes_required, spec_decode, spec_store_field, spec_take_length, spec_try_parse,
    spec_walk, BEGIN_STRING_TAG,
};
use super::digits::{
    all_digits, digits_of, is_digit, lemma_digits_of, lemma_parse_digits_of, spec_parse_unsigned,
};
use super::locator::{FieldLocator, FieldLocatorContext};
use super::message::{lemma_fields_from_len, spec_fields_from, Message};
use super::state::{
    groups_in_range, lemma_settle_in_range, spec_add_group, spec_context, spec_enter,
    spec_next_entry, spec_on_last_entry, spec_settle, DecoderGroupState, TrackerModel,
};
use super::walker::{lemma_next_field_bounds, spec_next_field, FieldSpan};
use super::error::{frame_error, syntax_error, DecodeError, FieldSyntaxError, FrameError};
use super::raw_decoder::{
    byte_sum, spec_frame, spec_header, spec_status, spec_truncation, trailer_byte_ok,
    trailer_prefix_ok, FrameSpan, FrameStatus, HeaderStatus,
};
use super::scan::{
    digits_end, index_of, lemma_digits_end, lemma_digits_end_agree, lemma_digits_end_is,
    lemma_digits_end_prefix, lemma_index_of, lemma_index_of_agree, lemma_index_of_is,
    lemma_index_of_prefix,
};
use crate::dict::FixDatatype;
use vstd::prelude::*;

verus! {

/// A header that was found lies in the buffer: `8=`, a value, the
/// separator, `9=`, at least one digit and the separator again.
pub proof fn lemma_header_bounds(buf: Seq<u8>, sep: u8, max: int)
    ensures
        spec_header(buf, sep, max) matches HeaderStatus::Found(h) ==> 2 <= h.begin_string_end
            && h.begin_string_end + 4 < h.body_start <= buf.len() && 0 <= h.body_len <= max
            && h.begin_string_end == index_of(buf, sep, 2) && h.body_start == digits_end(
            buf,
            h.begin_string_end + 3,
        ) + 1,
{
    if buf.len() >= 2 {
        lemma_index_of(buf, sep, 2);
        let s1 = index_of(buf, sep, 2);
        if s1 + 3 <= buf.len() {
            lemma_digits_end(buf, s1 + 3);
        }
    }
}

/// The header of a buffer depends on no byte behind it: a buffer with the
/// same bytes up to the start of the body has the same header.
pub proof fn lemma_header_agree(a: Seq<u8>, b: Seq<u8>, sep: u8, max: int)
    requires
        spec_header(a, sep, max) matches HeaderStatus::Found(h) && b.len() >= h.body_start
            && b.take(h.body_start) == a.take(h.body_start),
    ensures
        spec_header(b, sep, max) == spec_header(a, sep, max),
{
    lemma_header_bounds(a, sep, max);
    let h = spec_header(a, sep, max)->Found_0;
    let k = h.body_start;
    let s1 = h.begin_string_end;
    assert forall|j: int| 0 <= j < k implies b[j] == a[j] by {
        assert(b.take(k)[j] == b[j]);
        assert(a.take(k)[j] == a[j]);
    }
    lemma_index_of_agree(a, b, sep, 2, k);
    lemma_digits_end_agree(a, b, s1 + 3, k);
    assert(b.subrange(s1 + 3, k - 1) =~= a.subrange(s1 + 3, k - 1));
}

/// A buffer that ends inside the header of a message has no header yet,
/// and nothing wrong with it.
pub proof fn lemma_header_of_prefix(a: Seq<u8>, k: int, sep: u8, max: int)
    requires
        spec_header(a, sep, max) matches HeaderStatus::Found(h) && 0 <= k < h.body_start,
    ensures
        spec_header(a.take(k), sep, max) == HeaderStatus::NeedMore,
{
    lemma_header_bounds(a, sep, max);
    let h = spec_header(a, sep, max)->Found_0;
    let s1 = h.begin_string_end;
    let t = a.take(k);
    assert forall|j: int| 0 <= j < k implies t[j] == a[j] by {}
    lemma_index_of_prefix(a, sep, 2, k);
    if s1 < k {
        lemma_digits_end_prefix(a, s1 + 3, k);
    }
}

/// Every proper prefix of a message is incomplete: a decoder that is fed
/// the message piece by piece asks for more until the last byte is there,
/// and never takes offence.
pub proof fn lemma_prefix_is_incomplete(bytes: Seq<u8>, config: Config, k: int)
    requires
        spec_status(bytes, config) matches FrameStatus::Complete(span) && span.len()
            == bytes.len(),
        0 <= k < bytes.len(),
    ensures
        spec_status(bytes.take(k), config) == FrameStatus::Incomplete,
{
    let sep = config.separator;
    let max = config.max_message_size as int;
    lemma_header_bounds(bytes, sep, max);
    let h = spec_header(bytes, sep, max)->Found_0;
    let t = bytes.take(k);
    if k < h.body_start {
        lemma_header_of_prefix(bytes, k, sep, max);
    } else {
        assert(t.take(h.body_start) =~= bytes.take(h.body_start));
        lemma_header_agree(bytes, t, sep, max);
    }
}

/// A message without its last byte, the separator behind the checksum, is
/// refused for its syntax.
pub proof fn lemma_missing_final_separator(
    bytes: Seq<u8>,
    config: Config,
    lookup: Map<u32, FixDatatype>,
)
    requires
        spec_status(bytes, config) matches FrameStatus::Complete(span) && span.len()
            == bytes.len(),
    ensures
        spec_frame(bytes.drop_last(), config) == Err::<FrameSpan, DecodeError>(
            syntax_error(FieldSyntaxError::MissingSeparator),
        ),
        spec_decode(bytes.drop_last(), config, lookup) == Err::<MessageRecord, DecodeError>(
            syntax_error(FieldSyntaxError::MissingSeparator),
        ),
{
    let sep = config.separator;
    let max = config.max_message_size as int;
    lemma_header_bounds(bytes, sep, max);
    let h = spec_header(bytes, sep, max)->Found_0;
    let body_end = h.body_start + h.body_len;
    let t = bytes.drop_last();
    assert(t =~= bytes.take(bytes.len() - 1));
    lemma_prefix_is_incomplete(bytes, config, bytes.len() - 1);
    assert(t.take(h.body_start) =~= bytes.take(h.body_start));
    lemma_header_agree(bytes, t, sep, max);
    assert(t.subrange(body_end, t.len() as int) =~= bytes.subrange(body_end, body_end + 6));
}

/// Changing one byte changes the sum of the bytes by the difference.
pub proof fn lemma_byte_sum_update(s: Seq<u8>, i: int, b: u8)
    requires
        0 <= i < s.len(),
    ensures
        byte_sum(s.update(i, b)) == byte_sum(s) - s[i] + b,
    decreases s.len(),
{
    let u = s.update(i, b);
    if i == s.len() - 1 {
        assert(u.drop_last() =~= s.drop_last());
    } else {
        assert(u.drop_last() =~= s.drop_last().update(i, b));
        lemma_byte_sum_update(s.drop_last(), i, b);
    }
}

/// A message with one byte of its body changed and its checksum left as
/// it was is refused for the checksum.
pub proof fn lemma_checksum_guards_body(
    bytes: Seq<u8>,
    config: Config,
    lookup: Map<u32, FixDatatype>,
    i: int,
    b: u8,
)
    requires
        spec_status(bytes, config) matches FrameStatus::Complete(span) && span.payload_start <= i
            < span.payload_end,
        b != bytes[i],
    ensures
        spec_status(bytes.update(i, b), config) == FrameStatus::Malformed(
            frame_error(FrameError::CheckSumMismatch),
        ),
        spec_decode(bytes.update(i, b), config, lookup) == Err::<MessageRecord, DecodeError>(
            frame_error(FrameError::CheckSumMismatch),
        ),
{
    let sep = config.separator;
    let max = config.max_message_size as int;
    lemma_header_bounds(bytes, sep, max);
    let h = spec_header(bytes, sep, max)->Found_0;
    let body_end = h.body_start + h.body_len;
    let u = bytes.update(i, b);
    assert(u.take(h.body_start) =~= bytes.take(h.body_start));
    lemma_header_agree(bytes, u, sep, max);
    assert(u.subrange(body_end, body_end + 6) =~= bytes.subrange(body_end, body_end + 6));
    assert(u.subrange(body_end + 3, body_end + 6) =~= bytes.subrange(body_end + 3, body_end + 6));
    assert(u.take(body_end) =~= bytes.take(body_end).update(i, b));
    lemma_byte_sum_update(bytes.take(body_end), i, b);
    let old_sum = byte_sum(bytes.take(body_end)) as int;
    let new_sum = byte_sum(u.take(body_end)) as int;
    assert(new_sum == old_sum - bytes[i] + b);
    assert(new_sum % 256 != old_sum % 256);
}

/// All the pieces of `chunks` in a row.
pub open spec fn spec_concat(chunks: Seq<Seq<u8>>) -> Seq<u8>
    decreases chunks.len(),
{
    if chunks.len() == 0 {
        Seq::empty()
    } else {
        chunks[0] + spec_concat(chunks.drop_first())
    }
}

/// What a streaming decoder with `buffer` in it gives when it is fed the
/// pieces of `chunks` one by one and asked to parse after each: the first
/// answer that is a message or an error, or `None` where the pieces run
/// out before.
pub open spec fn spec_first_answer(
    buffer: Seq<u8>,
    chunks: Seq<Seq<u8>>,
    config: Config,
    lookup: Map<u32, FixDatatype>,
) -> Option<Result<MessageRecord, DecodeError>>
    decreases chunks.len(),
{
    if chunks.len() == 0 {
        None
    } else {
        let step = spec_try_parse(buffer + chunks[0], config, lookup);
        match step.result {
            Ok(None) => spec_first_answer(step.rest, chunks.drop_first(), config, lookup),
            Ok(Some(record)) => Some(Ok(record)),
            Err(e) => Some(Err(e)),
        }
    }
}

/// One attempt to parse a buffer that holds exactly one message gives what
/// decoding the message at once gives.
pub proof fn lemma_parse_of_whole_message(
    bytes: Seq<u8>,
    config: Config,
    lookup: Map<u32, FixDatatype>,
)
    requires
        spec_status(bytes, config) matches FrameStatus::Complete(span) && span.len()
            == bytes.len(),
    ensures
        match spec_decode(bytes, config, lookup) {
            Ok(record) => spec_try_parse(bytes, config, lookup).result == Ok::<
                Option<MessageRecord>,
                DecodeError,
            >(Some(record)),
            Err(e) => spec_try_parse(bytes, config, lookup).result == Err::<
                Option<MessageRecord>,
                DecodeError,
            >(e),
        },
{
}

/// Streaming equals decoding at once: however a message is cut into
/// pieces, a streaming decoder that is fed the pieces gives the fields, or
/// the error, that decoding the whole message in one call gives.
pub proof fn lemma_streaming_equivalence(
    bytes: Seq<u8>,
    chunks: Seq<Seq<u8>>,
    config: Config,
    lookup: Map<u32, FixDatatype>,
)
    requires
        spec_status(bytes, config) matches FrameStatus::Complete(span) && span.len()
            == bytes.len(),
        spec_concat(chunks) == bytes,
    ensures
        spec_first_answer(Seq::empty(), chunks, config, lookup) == Some(
            spec_decode(bytes, config, lookup),
        ),
{
    lemma_header_bounds(bytes, config.separator, config.max_message_size as int);
    lemma_streaming_from(Seq::empty(), bytes, chunks, config, lookup);
}

/// The same for a decoder that holds the start of the message already.
pub proof fn lemma_streaming_from(
    buffer: Seq<u8>,
    bytes: Seq<u8>,
    chunks: Seq<Seq<u8>>,
    config: Config,
    lookup: Map<u32, FixDatatype>,
)
    requires
        spec_status(bytes, config) matches FrameStatus::Complete(span) && span.len()
            == bytes.len(),
        buffer + spec_concat(chunks) == bytes,
        buffer.len() < bytes.len(),
    ensures
        spec_first_answer(buffer, chunks, config, lookup) == Some(
            spec_decode(bytes, config, lookup),
        ),
    decreases chunks.len(),
{
    if chunks.len() == 0 {
        assert(buffer + spec_concat(chunks) =~= buffer);
    } else {
        let fed = buffer + chunks[0];
        let rest = chunks.drop_first();
        assert(fed + spec_concat(rest) =~= buffer + spec_concat(chunks));
        if fed.len() < bytes.len() {
            assert(fed =~= bytes.take(fed.len() as int));
            lemma_prefix_is_incomplete(bytes, config, fed.len() as int);
            lemma_streaming_from(fed, bytes, rest, config, lookup);
        } else {
            assert(fed =~= bytes);
            lemma_parse_of_whole_message(bytes, config, lookup);
        }
    }
}

/// Asking a view twice for the same tag gives the same bytes twice.
pub proof fn lemma_get_raw_is_idempotent<'a>(
    message: Message<'a>,
    tag: u32,
    first: Option<&'a [u8]>,
    second: Option<&'a [u8]>,
)
    requires
        call_ensures(Message::get_raw, (&message, tag), first),
        call_ensures(Message::get_raw, (&message, tag), second),
    ensures
        first is Some <==> second is Some,
        first matches Some(a) ==> second matches Some(b) && a@ == b@,
{
}

/// The decoder is in order: every open group reads an entry that its count
/// allows, a group that waits for its first field has a count above 0, and
/// every field that was read can be looked up.
pub open spec fn well_tracked(b: BuilderModel) -> bool {
    &&& groups_in_range(b.state.groups)
    &&& b.state.new_group matches Some(g) ==> g.num_entries > 0
    &&& b.record.complete()
}

/// A count of 0 opens no group: the tracker is what it was.
pub proof fn lemma_empty_group_opens_nothing(t: TrackerModel, tag: u32, index: usize)
    ensures
        spec_add_group(t, tag, index, 0) == t,
{
}

/// A field keeps the decoder in order. It becomes the last field of the
/// message, and where it belongs to a group, to an entry that the group's
/// count allows.
pub proof fn lemma_store_field_in_order(
    b: BuilderModel,
    lookup: Map<u32, FixDatatype>,
    tag: u32,
    value: Seq<u8>,
)
    requires
        well_tracked(b),
    ensures
        spec_store_field(b, lookup, tag, value) matches Ok(next) ==> {
            &&& well_tracked(next)
            &&& next.record.bytes == b.record.bytes
            &&& next.record.locators.len() == b.record.locators.len() + 1
            &&& next.record.locators.last().tag == tag
            &&& next.record.locators.last().context == spec_context(spec_enter(b.state, tag).groups)
            &&& spec_enter(b.state, tag).groups.len() > 0 ==> spec_enter(
                b.state,
                tag,
            ).groups.last().current_entry_i < spec_enter(b.state, tag).groups.last().num_entries
            &&& tag != 0 && b.record.tags_agree() ==> next.record.tags_agree()
        },
{
    let entered = spec_enter(b.state, tag);
    match b.state.new_group {
        Some(g) => {
            assert forall|i: int| 0 <= i < entered.groups.len() implies (
            #[trigger] entered.groups[i]).current_entry_i < entered.groups[i].num_entries by {
                if i < b.state.groups.len() {
                    assert(entered.groups[i] == b.state.groups[i]);
                }
            }
        },
        None => {
            lemma_settle_in_range(b.state.groups, tag);
        },
    }
    let locator = FieldLocator { tag, context: spec_context(entered.groups) };
    let added = b.record.with_field(locator, value);
    assert forall|i: int| 0 <= i < added.locators.len() implies added.fields.contains_key(
        #[trigger] added.locators[i],
    ) by {
        if i < b.record.locators.len() {
            assert(added.locators[i] == b.record.locators[i]);
        }
    }
    if tag != 0 && b.record.tags_agree() {
        assert forall|i: int| 0 <= i < added.locators.len() implies (
        #[trigger] added.locators[i]).tag != 0 by {
            if i < b.record.locators.len() {
                assert(added.locators[i] == b.record.locators[i]);
            }
        }
    }
}

/// The fields of a body keep the decoder in order, and the message only
/// grows.
pub proof fn lemma_walk_in_order(
    payload: Seq<u8>,
    sep: u8,
    lookup: Map<u32, FixDatatype>,
    pos: int,
    b: BuilderModel,
)
    requires
        well_tracked(b),
    ensures
        spec_walk(payload, sep, lookup, pos, b) matches Ok(next) ==> well_tracked(next)
            && next.record.bytes == b.record.bytes && next.record.locators.len()
            >= b.record.locators.len() && (b.record.tags_agree() ==> next.record.tags_agree()),
    decreases payload.len() - pos,
{
    if 0 <= pos < payload.len() {
        match spec_next_field(payload, sep, pos, b.state.data_field_length) {
            Err(e) => {},
            Ok(f) => {
                lemma_next_field_bounds(payload, sep, pos, b.state.data_field_length);
                let value = payload.subrange(f.value_start, f.value_end);
                lemma_store_field_in_order(spec_take_length(b), lookup, f.tag, value);
                match spec_store_field(spec_take_length(b), lookup, f.tag, value) {
                    Err(e) => {},
                    Ok(next) => {
                        lemma_walk_in_order(payload, sep, lookup, f.value_end + 1, next);
                    },
                }
            },
        }
    }
}

/// In a message that was decoded, every field that was on the wire is
/// there to be looked up and to be iterated: the iteration gives as many
/// fields as the message counts. No field has the tag 0, and every field
/// is found under its own tag. The bytes of the message are those of its
/// frame.
pub proof fn lemma_decoded_message_is_complete(
    bytes: Seq<u8>,
    config: Config,
    lookup: Map<u32, FixDatatype>,
)
    ensures
        spec_decode(bytes, config, lookup) matches Ok(record) ==> {
            &&& record.complete()
            &&& record.tags_agree()
            &&& record.locators.len() >= 1
            &&& spec_fields_from(record, 0).len() == record.locators.len()
            &&& spec_frame(bytes, config) matches Ok(span) && record.bytes == bytes.take(span.len())
        },
{
    match spec_frame(bytes, config) {
        Err(e) => {},
        Ok(span) => {
            let frame = bytes.take(span.len());
            let start = BuilderModel::start(frame);
            let begin = frame.subrange(2, span.begin_string_end);
            lemma_store_field_in_order(start, lookup, BEGIN_STRING_TAG, begin);
            match spec_store_field(start, lookup, BEGIN_STRING_TAG, begin) {
                Err(e) => {},
                Ok(b) => {
                    let payload = frame.subrange(span.payload_start, span.payload_end);
                    lemma_walk_in_order(payload, config.separator, lookup, 0, b);
                    match spec_walk(payload, config.separator, lookup, 0, b) {
                        Err(e) => {},
                        Ok(last) => {
                            lemma_fields_from_len(last.record, 0);
                        },
                    }
                },
            }
        },
    }
}

/// One field on the wire: the digits of the tag, `=`, the value and the
/// separator.
pub open spec fn wire_field(tag: u32, value: Seq<u8>, sep: u8) -> Seq<u8> {
    digits_of(tag as nat) + seq![0x3du8] + value + seq![sep]
}

/// Fields on the wire, one behind the other.
pub open spec fn wire_fields(fields: Seq<(u32, Seq<u8>)>, sep: u8) -> Seq<u8>
    decreases fields.len(),
{
    if fields.len() == 0 {
        Seq::empty()
    } else {
        wire_field(fields[0].0, fields[0].1, sep) + wire_fields(fields.drop_first(), sep)
    }
}

/// Whether the dictionary makes the fields with `tag` counts of groups.
pub open spec fn counts(lookup: Map<u32, FixDatatype>, tag: u32) -> bool {
    lookup.contains_key(tag) && lookup[tag] == FixDatatype::NumInGroup
}

/// Whether the dictionary makes the fields with `tag` lengths of the
/// values behind them.
pub open spec fn measures(lookup: Map<u32, FixDatatype>, tag: u32) -> bool {
    lookup.contains_key(tag) && lookup[tag] == FixDatatype::Length
}

/// The number of bytes that the value of field `i` has to take: the number
/// in the field before it, where that field is a length.
pub open spec fn fixed_length(
    fields: Seq<(u32, Seq<u8>)>,
    i: int,
    lookup: Map<u32, FixDatatype>,
) -> Option<usize> {
    if 0 < i <= fields.len() && measures(lookup, fields[i - 1].0) {
        match spec_parse_unsigned(fields[i - 1].1, usize::MAX as nat) {
            Some(n) => Some(n as usize),
            None => None,
        }
    } else {
        None
    }
}

/// Field `i` of a message without groups. Its tag is not 0. Its value has
/// the length that a length before it fixes, or else does not hold the
/// separator. Where the field is a count, it counts 0. Where it is a
/// length, it is a number and a field follows.
pub open spec fn root_field(
    fields: Seq<(u32, Seq<u8>)>,
    i: int,
    sep: u8,
    lookup: Map<u32, FixDatatype>,
) -> bool {
    let tag = fields[i].0;
    let value = fields[i].1;
    &&& tag != 0
    &&& match fixed_length(fields, i, lookup) {
        Some(n) => value.len() == n,
        None => forall|j: int| 0 <= j < value.len() ==> #[trigger] value[j] != sep,
    }
    &&& counts(lookup, tag) ==> spec_parse_unsigned(value, usize::MAX as nat) == Some(0nat)
    &&& measures(lookup, tag) ==> spec_parse_unsigned(value, usize::MAX as nat) is Some && i + 1
        < fields.len()
}

/// The fields of a message without groups.
pub open spec fn root_fields(
    fields: Seq<(u32, Seq<u8>)>,
    sep: u8,
    lookup: Map<u32, FixDatatype>,
) -> bool {
    forall|i: int| 0 <= i < fields.len() ==> #[trigger] root_field(fields, i, sep, lookup)
}

/// No later field has the tag of field `i`.
pub open spec fn last_of_its_tag(fields: Seq<(u32, Seq<u8>)>, i: int) -> bool {
    forall|j: int| i < j < fields.len() ==> (#[trigger] fields[j]).0 != fields[i].0
}

/// No two fields have the same tag.
pub open spec fn distinct_tags(fields: Seq<(u32, Seq<u8>)>) -> bool {
    forall|i: int, j: int|
        0 <= i < j < fields.len() ==> (#[trigger] fields[i]).0 != (#[trigger] fields[j]).0
}

/// The locator of a field with `tag` at the root of a message.
pub open spec fn at_root(tag: u32) -> FieldLocator {
    FieldLocator { tag, context: FieldLocatorContext::TopLevel }
}

/// A message with `fields` added at its root, one behind the other.
pub open spec fn with_root_fields(record: MessageRecord, fields: Seq<(u32, Seq<u8>)>) -> MessageRecord
    decreases fields.len(),
{
    if fields.len() == 0 {
        record
    } else {
        with_root_fields(
            record.with_field(
                FieldLocator { tag: fields[0].0, context: FieldLocatorContext::TopLevel },
                fields[0].1,
            ),
            fields.drop_first(),
        )
    }
}

/// Adding fields at the root adds as many locators as there are fields.
pub proof fn lemma_with_root_fields_len(record: MessageRecord, fields: Seq<(u32, Seq<u8>)>)
    ensures
        with_root_fields(record, fields).locators.len() == record.locators.len() + fields.len(),
        with_root_fields(record, fields).bytes == record.bytes,
        forall|i: int|
            0 <= i < record.locators.len() ==> with_root_fields(record, fields).locators[i]
                == #[trigger] record.locators[i],
        forall|i: int|
            0 <= i < fields.len() ==> with_root_fields(
                record,
                fields,
            ).locators[record.locators.len() + i] == (FieldLocator {
                tag: (#[trigger] fields[i]).0,
                context: FieldLocatorContext::TopLevel,
            }),
    decreases fields.len(),
{
    if fields.len() > 0 {
        let next = record.with_field(
            FieldLocator { tag: fields[0].0, context: FieldLocatorContext::TopLevel },
            fields[0].1,
        );
        let rest = fields.drop_first();
        lemma_with_root_fields_len(next, rest);
        let all = with_root_fields(record, fields);
        assert forall|i: int| 0 <= i < record.locators.len() implies all.locators[i]
            == #[trigger] record.locators[i] by {
            assert(next.locators[i] == record.locators[i]);
        }
        assert forall|i: int| 0 <= i < fields.len() implies all.locators[record.locators.len() + i]
            == (FieldLocator {
            tag: (#[trigger] fields[i]).0,
            context: FieldLocatorContext::TopLevel,
        }) by {
            if i == 0 {
                assert(next.locators[record.locators.len() as int] == FieldLocator {
                    tag: fields[0].0,
                    context: FieldLocatorContext::TopLevel,
                });
            } else {
                assert(rest[i - 1] == fields[i]);
            }
        }
    }
}

/// A plain field on the wire is read as what was written: its tag and its
/// value.
pub proof fn lemma_plain_field_is_read(
    payload: Seq<u8>,
    sep: u8,
    pos: int,
    tag: u32,
    value: Seq<u8>,
)
    requires
        0 <= pos,
        pos + wire_field(tag, value, sep).len() <= payload.len(),
        payload.subrange(pos, pos + wire_field(tag, value, sep).len()) == wire_field(
            tag,
            value,
            sep,
        ),
        tag != 0,
        forall|j: int| 0 <= j < value.len() ==> #[trigger] value[j] != sep,
    ensures
        spec_next_field(payload, sep, pos, None) == Ok::<FieldSpan, DecodeError>(
            FieldSpan {
                tag,
                value_start: pos + digits_of(tag as nat).len() + 1,
                value_end: pos + digits_of(tag as nat).len() + 1 + value.len(),
            },
        ),
        payload.subrange(
            pos + digits_of(tag as nat).len() + 1,
            pos + digits_of(tag as nat).len() + 1 + value.len(),
        ) == value,
        pos + digits_of(tag as nat).len() + 1 + value.len() + 1 == pos + wire_field(
            tag,
            value,
            sep,
        ).len(),
{
    let digits = digits_of(tag as nat);
    let w = wire_field(tag, value, sep);
    let n = digits.len() as int;
    lemma_digits_of(tag as nat);
    lemma_parse_digits_of(tag as nat, u32::MAX as nat);
    assert forall|j: int| 0 <= j < w.len() implies payload[pos + j] == w[j] by {
        assert(payload.subrange(pos, pos + w.len())[j] == payload[pos + j]);
    }
    assert forall|j: int| pos <= j < pos + n implies is_digit(#[trigger] payload[j]) by {
        assert(w[j - pos] == digits[j - pos]);
    }
    assert(w[n] == 0x3du8);
    lemma_digits_end_is(payload, pos, pos + n);
    assert(payload.subrange(pos, pos + n) =~= digits) by {
        assert forall|j: int| 0 <= j < n implies payload.subrange(pos, pos + n)[j] == digits[j] by {
            assert(w[j] == digits[j]);
        }
    }
    let vs = pos + n + 1;
    let ve = vs + value.len();
    assert forall|j: int| vs <= j < ve implies #[trigger] payload[j] != sep by {
        assert(w[j - pos] == value[j - vs]);
    }
    assert(w[ve - pos] == sep);
    lemma_index_of_is(payload, sep, vs, ve);
    assert(payload.subrange(vs, ve) =~= value) by {
        assert forall|j: int| 0 <= j < value.len() implies payload.subrange(vs, ve)[j]
            == value[j] by {
            assert(w[vs - pos + j] == value[j]);
        }
    }
}

/// Adding fields at the root leaves every field alone that has another
/// locator.
pub proof fn lemma_with_root_fields_keeps(
    record: MessageRecord,
    fields: Seq<(u32, Seq<u8>)>,
    locator: FieldLocator,
)
    requires
        forall|j: int| 0 <= j < fields.len() ==> at_root((#[trigger] fields[j]).0) != locator,
    ensures
        with_root_fields(record, fields).fields.contains_key(locator)
            == record.fields.contains_key(locator),
        record.fields.contains_key(locator) ==> with_root_fields(record, fields).fields[locator]
            == record.fields[locator],
    decreases fields.len(),
{
    if fields.len() > 0 {
        let next = record.with_field(at_root(fields[0].0), fields[0].1);
        let rest = fields.drop_first();
        assert(at_root(fields[0].0) != locator);
        assert forall|j: int| 0 <= j < rest.len() implies at_root((#[trigger] rest[j]).0)
            != locator by {
            assert(rest[j] == fields[j + 1]);
        }
        lemma_with_root_fields_keeps(next, rest, locator);
    }
}

/// Of the fields that were added at the root, the last one of each tag is
/// found under that tag, with its value.
pub proof fn lemma_with_root_fields_value(
    record: MessageRecord,
    fields: Seq<(u32, Seq<u8>)>,
    i: int,
)
    requires
        0 <= i < fields.len(),
        last_of_its_tag(fields, i),
    ensures
        with_root_fields(record, fields).fields.contains_key(at_root(fields[i].0)),
        with_root_fields(record, fields).fields[at_root(fields[i].0)].tag == fields[i].0,
        with_root_fields(record, fields).fields[at_root(fields[i].0)].value == fields[i].1,
    decreases fields.len(),
{
    let next = record.with_field(at_root(fields[0].0), fields[0].1);
    let rest = fields.drop_first();
    if i == 0 {
        assert forall|j: int| 0 <= j < rest.len() implies at_root((#[trigger] rest[j]).0)
            != at_root(fields[0].0) by {
            assert(rest[j] == fields[j + 1]);
        }
        lemma_with_root_fields_keeps(next, rest, at_root(fields[0].0));
    } else {
        assert(rest[i - 1] == fields[i]);
        assert forall|j: int| i - 1 < j < rest.len() implies (#[trigger] rest[j]).0 != rest[i
            - 1].0 by {
            assert(rest[j] == fields[j + 1]);
        }
        lemma_with_root_fields_value(next, rest, i - 1);
    }
}

/// Where no two fields that were added at the root have the same tag, the
/// iteration gives them as they were added: each tag with its value, in
/// their order.
pub proof fn lemma_with_root_fields_iterated(
    record: MessageRecord,
    fields: Seq<(u32, Seq<u8>)>,
    i: int,
)
    requires
        0 <= i <= fields.len(),
        distinct_tags(fields),
    ensures
        spec_fields_from(with_root_fields(record, fields), record.locators.len() + i)
            == fields.skip(i),
    decreases fields.len() - i,
{
    let all = with_root_fields(record, fields);
    lemma_with_root_fields_len(record, fields);
    if i < fields.len() {
        lemma_with_root_fields_iterated(record, fields, i + 1);
        assert(last_of_its_tag(fields, i));
        lemma_with_root_fields_value(record, fields, i);
        assert(all.locators[record.locators.len() + i] == at_root(fields[i].0));
        assert(seq![fields[i]] + fields.skip(i + 1) =~= fields.skip(i));
    } else {
        assert(fields.skip(i) =~= Seq::<(u32, Seq<u8>)>::empty());
    }
}

/// The decoder between two fields of a message without groups: no group
/// is open or announced, and the value of the next field has the length
/// that the field before it fixes.
pub open spec fn at_root_field(
    b: BuilderModel,
    fields: Seq<(u32, Seq<u8>)>,
    k: int,
    lookup: Map<u32, FixDatatype>,
) -> bool {
    &&& b.state.groups.len() == 0
    &&& b.state.new_group is None
    &&& b.state.data_field_length == fixed_length(fields, k, lookup)
}

/// The fields of a message without groups are read as what was written:
/// the decoder adds them to the root of the message, in their order and
/// with their values, and ends outside any group, waiting for nothing.
pub proof fn lemma_root_fields_are_read(
    payload: Seq<u8>,
    sep: u8,
    lookup: Map<u32, FixDatatype>,
    pos: int,
    b: BuilderModel,
    fields: Seq<(u32, Seq<u8>)>,
    k: int,
)
    requires
        0 <= k <= fields.len(),
        at_root_field(b, fields, k, lookup),
        root_fields(fields, sep, lookup),
        0 <= pos <= payload.len(),
        payload.subrange(pos, payload.len() as int) == wire_fields(fields.skip(k), sep),
    ensures
        spec_walk(payload, sep, lookup, pos, b) == Ok::<BuilderModel, DecodeError>(
            BuilderModel {
                state: BuilderModel::start(b.record.bytes).state,
                record: with_root_fields(b.record, fields.skip(k)),
            },
        ),
    decreases fields.len() - k,
{
    let rest = fields.skip(k);
    if k == fields.len() {
        assert(payload.subrange(pos, payload.len() as int).len() == 0);
        if k > 0 {
            assert(root_field(fields, k - 1, sep, lookup));
        }
        assert(b.state.groups =~= Seq::<DecoderGroupState>::empty());
        assert(b.state == BuilderModel::start(b.record.bytes).state);
    } else {
        let tag = fields[k].0;
        let value = fields[k].1;
        let w = wire_field(tag, value, sep);
        let tail = payload.subrange(pos, payload.len() as int);
        assert(rest[0] == fields[k]);
        assert(rest.drop_first() =~= fields.skip(k + 1));
        assert(tail == w + wire_fields(fields.skip(k + 1), sep));
        assert(root_field(fields, k, sep, lookup));
        assert(payload.subrange(pos, pos + w.len()) =~= w) by {
            assert forall|j: int| 0 <= j < w.len() implies payload.subrange(pos, pos + w.len())[j]
                == w[j] by {
                assert(tail[j] == payload[pos + j]);
            }
        }
        lemma_digits_of(tag as nat);
        if k > 0 {
            assert(root_field(fields, k - 1, sep, lookup));
        }
        match b.state.data_field_length {
            Some(n) => {
                lemma_data_field_is_read(payload, sep, pos, tag, value);
            },
            None => {
                lemma_plain_field_is_read(payload, sep, pos, tag, value);
            },
        }
        let taken = spec_take_length(b);
        assert(spec_enter(taken.state, tag).groups =~= b.state.groups);
        let record = b.record.with_field(at_root(tag), value);
        let next = BuilderModel {
            state: TrackerModel {
                groups: b.state.groups,
                new_group: None,
                data_field_length: fixed_length(fields, k + 1, lookup),
            },
            record,
        };
        assert(spec_store_field(taken, lookup, tag, value) == Ok::<BuilderModel, DecodeError>(
            next,
        ));
        let after = pos + w.len();
        assert(payload.subrange(after, payload.len() as int) =~= wire_fields(
            fields.skip(k + 1),
            sep,
        )) by {
            assert forall|j: int| 0 <= j < payload.len() - after implies payload.subrange(
                after,
                payload.len() as int,
            )[j] == wire_fields(fields.skip(k + 1), sep)[j] by {
                assert(tail[w.len() + j] == payload[after + j]);
            }
        }
        lemma_root_fields_are_read(payload, sep, lookup, after, next, fields, k + 1);
    }
}

/// A message without groups is decoded to exactly its fields.
///
/// The message counts `BeginString(8)` and one field for each field of
/// the body, counts of 0, lengths and the data behind them included; all
/// of them are at the root and in wire order, and the iteration gives as
/// many. The last field of each tag is found under that tag with the value
/// that it had on the wire. Where no tag occurs twice, the iteration gives
/// the tags and the values of all the fields, in wire order.
pub proof fn lemma_message_without_groups_is_read(
    bytes: Seq<u8>,
    config: Config,
    lookup: Map<u32, FixDatatype>,
    fields: Seq<(u32, Seq<u8>)>,
)
    requires
        !counts(lookup, BEGIN_STRING_TAG),
        !measures(lookup, BEGIN_STRING_TAG),
        root_fields(fields, config.separator, lookup),
        spec_frame(bytes, config) matches Ok(span) && bytes.subrange(
            span.payload_start,
            span.payload_end,
        ) == wire_fields(fields, config.separator),
    ensures
        spec_decode(bytes, config, lookup) matches Ok(record) && {
            let begin = bytes.subrange(2, spec_frame(bytes, config)->Ok_0.begin_string_end);
            let all = seq![(BEGIN_STRING_TAG, begin)] + fields;
            &&& record.locators.len() == fields.len() + 1
            &&& spec_fields_from(record, 0).len() == fields.len() + 1
            &&& forall|i: int|
                0 <= i < all.len() ==> record.locators[i] == at_root((#[trigger] all[i]).0)
            &&& forall|i: int|
                0 <= i < all.len() && last_of_its_tag(all, i) ==> record.raw(
                    FieldLocatorContext::TopLevel,
                    (#[trigger] all[i]).0,
                ) == Some(all[i].1)
            &&& distinct_tags(all) ==> spec_fields_from(record, 0) == all
        },
{
    let span = spec_frame(bytes, config)->Ok_0;
    lemma_header_bounds(bytes, config.separator, config.max_message_size as int);
    let frame = bytes.take(span.len());
    let start = BuilderModel::start(frame);
    let begin = frame.subrange(2, span.begin_string_end);
    assert(begin =~= bytes.subrange(2, span.begin_string_end));
    let all = seq![(BEGIN_STRING_TAG, begin)] + fields;
    let first = start.add_field(BEGIN_STRING_TAG, begin);
    assert(spec_enter(start.state, BEGIN_STRING_TAG).groups =~= start.state.groups);
    assert(spec_store_field(start, lookup, BEGIN_STRING_TAG, begin) == Ok::<
        BuilderModel,
        DecodeError,
    >(first));
    let payload = frame.subrange(span.payload_start, span.payload_end);
    assert(payload =~= bytes.subrange(span.payload_start, span.payload_end));
    assert(payload.subrange(0, payload.len() as int) =~= payload);
    assert(fields.skip(0) =~= fields);
    lemma_root_fields_are_read(payload, config.separator, lookup, 0, first, fields, 0);
    lemma_decoded_message_is_complete(bytes, config, lookup);
    // The message is what adding every field to an empty one gives.
    let empty = MessageRecord::empty(frame);
    let record = with_root_fields(first.record, fields);
    assert(all.drop_first() =~= fields);
    assert(record == with_root_fields(empty, all));
    lemma_with_root_fields_len(empty, all);
    assert forall|i: int| 0 <= i < all.len() && last_of_its_tag(all, i) implies record.raw(
        FieldLocatorContext::TopLevel,
        (#[trigger] all[i]).0,
    ) == Some(all[i].1) by {
        lemma_with_root_fields_value(empty, all, i);
        if i > 0 {
            assert(root_field(fields, i - 1, config.separator, lookup));
            assert(all[i] == fields[i - 1]);
        }
    }
    if distinct_tags(all) {
        lemma_with_root_fields_iterated(empty, all, 0);
        assert(all.skip(0) =~= all);
    }
}

/// A tag that the dictionary does not make a count or a length never
/// stops the decoder: the field is recorded in the context that the open
/// groups give it, and nothing else changes.
pub proof fn lemma_unknown_tag_is_recorded(
    b: BuilderModel,
    lookup: Map<u32, FixDatatype>,
    tag: u32,
    value: Seq<u8>,
)
    requires
        !lookup.contains_key(tag),
    ensures
        spec_store_field(b, lookup, tag, value) == Ok::<BuilderModel, DecodeError>(
            (BuilderModel { state: spec_enter(b.state, tag), record: b.record }).add_field(
                tag,
                value,
            ),
        ),
{
}

/// A length fixes how many bytes the next value takes: after a field that
/// the dictionary makes a length, with the digits of `n` as its value, the
/// decoder waits for a value of `n` bytes.
pub proof fn lemma_length_is_noted(
    b: BuilderModel,
    lookup: Map<u32, FixDatatype>,
    tag: u32,
    n: usize,
)
    requires
        lookup.contains_key(tag),
        lookup[tag] == FixDatatype::Length,
    ensures
        spec_store_field(b, lookup, tag, digits_of(n as nat)) matches Ok(next)
            && next.state.data_field_length == Some(n),
{
    lemma_digits_of(n as nat);
    lemma_parse_digits_of(n as nat, usize::MAX as nat);
}

/// A value whose length was fixed is read byte for byte, whatever the
/// bytes are: separators among them do not end it.
pub proof fn lemma_data_field_is_read(
    payload: Seq<u8>,
    sep: u8,
    pos: int,
    tag: u32,
    value: Seq<u8>,
)
    requires
        0 <= pos,
        value.len() <= usize::MAX,
        pos + wire_field(tag, value, sep).len() <= payload.len(),
        payload.subrange(pos, pos + wire_field(tag, value, sep).len()) == wire_field(
            tag,
            value,
            sep,
        ),
        tag != 0,
    ensures
        spec_next_field(payload, sep, pos, Some(value.len() as usize)) == Ok::<
            FieldSpan,
            DecodeError,
        >(
            FieldSpan {
                tag,
                value_start: pos + digits_of(tag as nat).len() + 1,
                value_end: pos + digits_of(tag as nat).len() + 1 + value.len(),
            },
        ),
        payload.subrange(
            pos + digits_of(tag as nat).len() + 1,
            pos + digits_of(tag as nat).len() + 1 + value.len(),
        ) == value,
{
    let digits = digits_of(tag as nat);
    let w = wire_field(tag, value, sep);
    let n = digits.len() as int;
    lemma_digits_of(tag as nat);
    lemma_parse_digits_of(tag as nat, u32::MAX as nat);
    assert forall|j: int| 0 <= j < w.len() implies payload[pos + j] == w[j] by {
        assert(payload.subrange(pos, pos + w.len())[j] == payload[pos + j]);
    }
    assert forall|j: int| pos <= j < pos + n implies is_digit(#[trigger] payload[j]) by {
        assert(w[j - pos] == digits[j - pos]);
    }
    assert(w[n] == 0x3du8);
    lemma_digits_end_is(payload, pos, pos + n);
    assert(payload.subrange(pos, pos + n) =~= digits) by {
        assert forall|j: int| 0 <= j < n implies payload.subrange(pos, pos + n)[j] == digits[j] by {
            assert(w[j] == digits[j]);
        }
    }
    let vs = pos + n + 1;
    let ve = vs + value.len();
    assert(w[ve - pos] == sep);
    assert(payload.subrange(vs, ve) =~= value) by {
        assert forall|j: int| 0 <= j < value.len() implies payload.subrange(vs, ve)[j]
            == value[j] by {
            assert(w[vs - pos + j] == value[j]);
        }
    }
}

/// The bytes that a streaming decoder asks for are needed: a buffer that
/// is incomplete stays so until at least that many bytes were added.
pub proof fn lemma_bytes_required_are_needed(buffer: Seq<u8>, more: Seq<u8>, config: Config)
    requires
        spec_status(buffer, config) == FrameStatus::Incomplete,
        spec_status(buffer + more, config) is Complete,
    ensures
        more.len() >= spec_bytes_required(buffer, config) >= 1,
{
    let sep = config.separator;
    let max = config.max_message_size as int;
    let whole = buffer + more;
    if more.len() == 0 {
        assert(whole =~= buffer);
    }
    match spec_header(buffer, sep, max) {
        HeaderStatus::Found(h) => {
            lemma_header_bounds(buffer, sep, max);
            assert(whole.take(h.body_start) =~= buffer.take(h.body_start));
            lemma_header_agree(buffer, whole, sep, max);
        },
        _ => {},
    }
}

/// Groups may lie in groups: where the inner group reads its last entry and
/// the tag that opens the entries of the group around it comes, the inner
/// group is left and the outer one moves to its next entry.
pub proof fn lemma_outer_entry_closes_inner_group(groups: Seq<DecoderGroupState>, tag: u32)
    requires
        groups.len() >= 2,
        spec_on_last_entry(groups.last()),
        groups.last().first_tag_of_every_group_entry != tag,
        groups[groups.len() - 2].first_tag_of_every_group_entry == tag,
        !spec_on_last_entry(groups[groups.len() - 2]),
    ensures
        spec_settle(groups, tag) == groups.drop_last().drop_last().push(
            spec_next_entry(groups[groups.len() - 2]),
        ),
{
    let below = groups.drop_last();
    assert(below[below.len() - 1] == groups[groups.len() - 2]);
    assert(spec_settle(groups, tag) == spec_settle(below, tag));
    assert(spec_settle(below, tag) == below.drop_last().push(spec_next_entry(below.last())));
}

/// Where the last entry of a group is being read, a field whose tag opens
/// the entries of no open group belongs to that entry.
pub proof fn lemma_other_fields_stay_in_entry(groups: Seq<DecoderGroupState>, tag: u32)
    requires
        forall|i: int|
            0 <= i < groups.len() ==> (#[trigger] groups[i]).first_tag_of_every_group_entry != tag,
    ensures
        spec_settle(groups, tag) == groups,
{
    if groups.len() > 0 {
        let below = groups.drop_last();
        assert forall|i: int| 0 <= i < below.len() implies (
        #[trigger] below[i]).first_tag_of_every_group_entry != tag by {
            assert(below[i] == groups[i]);
        }
    }
}

} // verus!
