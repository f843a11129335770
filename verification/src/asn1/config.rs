//! Which ASN.1 encoding rules there are, and what each one asks for.
use crate::text::str_eq;
use vstd::prelude::*;
use vstd::string::StringExecFns;

verus! {

/// A set of ASN.1 encoding rules.
#[derive(Debug, Clone, Copy, PartialEq, Eq, Hash, Structural)]
pub enum EncodingRule {
    /// Basic Encoding Rules: self-describing and flexible.
    BER,
    /// Distinguished Encoding Rules: the canonical subset of BER.
    DER,
    /// Packed Encoding Rules: compact and bit-oriented.
    PER,
    /// Aligned Packed Encoding Rules.
    APER,
    /// Unaligned Packed Encoding Rules.
    UPER,
    /// Octet Encoding Rules: byte-aligned.
    OER,
}

/// The name of a set of rules.
pub open spec fn spec_name(rule: EncodingRule) -> Seq<char> {
    match rule {
        EncodingRule::BER => "BER"@,
        EncodingRule::DER => "DER"@,
        EncodingRule::PER => "PER"@,
        EncodingRule::APER => "APER"@,
        EncodingRule::UPER => "UPER"@,
        EncodingRule::OER => "OER"@,
    }
}

impl EncodingRule {
    /// The name of the rules.
    #[must_use]
    pub fn name(&self) -> (r: &'static str)
        ensures
            r@ == spec_name(*self),
    {
        match self {
            EncodingRule::BER => "BER",
            EncodingRule::DER => "DER",
            EncodingRule::PER => "PER",
            EncodingRule::APER => "APER",
            EncodingRule::UPER => "UPER",
            EncodingRule::OER => "OER",
        }
    }

    /// Whether an encoding carries the types of its values: true of BER and
    /// DER.
    #[must_use]
    pub fn is_self_describing(&self) -> (r: bool)
        ensures
            r == (*self == EncodingRule::BER || *self == EncodingRule::DER),
    {
        match self {
            EncodingRule::BER | EncodingRule::DER => true,
            _ => false,
        }
    }

    /// Whether an encoding can be read only with its schema: true of the
    /// packed rules and of OER.
    #[must_use]
    pub fn requires_schema(&self) -> (r: bool)
        ensures
            r == !(*self == EncodingRule::BER || *self == EncodingRule::DER),
    {
        match self {
            EncodingRule::PER | EncodingRule::APER | EncodingRule::UPER | EncodingRule::OER => true,
            _ => false,
        }
    }
}

impl Default for EncodingRule {
    /// DER, for an encoding that is the same every time.
    fn default() -> (r: EncodingRule)
        ensures
            r == EncodingRule::DER,
    {
        EncodingRule::DER
    }
}

/// What is special about the encoding of one type of message.
#[derive(Debug, Clone, Copy, PartialEq, Eq, Structural)]
pub struct MessageOptions {
    /// Rules that take the place of the configured ones.
    pub encoding_rule: Option<EncodingRule>,
    /// Whether messages of the type are compressed.
    pub compress: bool,
    /// A maximum size of its own for the type.
    pub max_size: Option<usize>,
}

/// The options of the last entry for `message_type` in a list of entries.
pub open spec fn spec_options(entries: Seq<(String, MessageOptions)>, message_type: Seq<char>) -> Option<
    MessageOptions,
>
    decreases entries.len(),
{
    if entries.len() == 0 {
        None
    } else if entries.last().0@ == message_type {
        Some(entries.last().1)
    } else {
        spec_options(entries.drop_last(), message_type)
    }
}

/// The settings of the ASN.1 codec.
#[derive(Debug, Clone)]
pub struct Config {
    /// The encoding rules in use.
    pub encoding_rule: EncodingRule,
    /// The largest message, in bytes.
    pub max_message_size: usize,
    /// The deepest nesting of structures.
    pub max_recursion_depth: u32,
    /// Whether checksums are validated.
    pub validate_checksums: bool,
    /// Whether types are checked strictly.
    pub strict_type_checking: bool,
    /// The size of the buffer of a stream, in bytes.
    pub stream_buffer_size: usize,
    /// Whether values are handed out without copying where that can be
    /// done.
    pub enable_zero_copy: bool,
    /// What is special about single types of message, the latest entry
    /// for a type last.
    pub message_options: Vec<(String, MessageOptions)>,
}

/// Whether a configuration has the settings of `Config::default` but for
/// the rules, the largest message, and the three switches.
pub open spec fn spec_preset(
    config: Config,
    encoding_rule: EncodingRule,
    max_message_size: usize,
    validate_checksums: bool,
    strict_type_checking: bool,
    enable_zero_copy: bool,
) -> bool {
    &&& config.encoding_rule == encoding_rule
    &&& config.max_message_size == max_message_size
    &&& config.max_recursion_depth == 32
    &&& config.validate_checksums == validate_checksums
    &&& config.strict_type_checking == strict_type_checking
    &&& config.stream_buffer_size == 8192
    &&& config.enable_zero_copy == enable_zero_copy
    &&& config.message_options@.len() == 0
}

impl Default for Config {
    /// DER, messages of up to 64 KiB, nesting of up to 32 levels, a stream
    /// buffer of 8 KiB, and every switch on.
    fn default() -> (r: Config)
        ensures
            spec_preset(r, EncodingRule::DER, 65536, true, true, true),
    {
        Config {
            encoding_rule: EncodingRule::DER,
            max_message_size: 65536,
            max_recursion_depth: 32,
            validate_checksums: true,
            strict_type_checking: true,
            stream_buffer_size: 8192,
            enable_zero_copy: true,
            message_options: Vec::new(),
        }
    }
}

impl Config {
    /// The default settings with the rules `encoding_rule`.
    #[must_use]
    pub fn new(encoding_rule: EncodingRule) -> (r: Config)
        ensures
            spec_preset(r, encoding_rule, 65536, true, true, true),
    {
        let mut config = Config::default();
        config.encoding_rule = encoding_rule;
        config
    }

    /// Settings for trading with low latency: PER, messages of up to
    /// 16 KiB, no validation of checksums and no strict checking of types.
    #[must_use]
    pub fn low_latency() -> (r: Config)
        ensures
            spec_preset(r, EncodingRule::PER, 16384, false, false, true),
    {
        let mut config = Config::default();
        config.encoding_rule = EncodingRule::PER;
        config.max_message_size = 16384;
        config.validate_checksums = false;
        config.strict_type_checking = false;
        config.enable_zero_copy = true;
        config
    }

    /// Settings for reliability: DER, validation of checksums, strict
    /// checking of types, and no handing out without a copy.
    #[must_use]
    pub fn high_reliability() -> (r: Config)
        ensures
            spec_preset(r, EncodingRule::DER, 65536, true, true, false),
    {
        let mut config = Config::default();
        config.encoding_rule = EncodingRule::DER;
        config.validate_checksums = true;
        config.strict_type_checking = true;
        config.enable_zero_copy = false;
        config
    }

    /// Sets what is special about messages of `message_type`, in place of
    /// what was set for the type before.
    pub fn set_message_options(&mut self, message_type: &str, options: MessageOptions)
        ensures
            spec_options(final(self).message_options@, message_type@) == Some(options),
            forall|other: Seq<char>|
                other != message_type@ ==> spec_options(final(self).message_options@, other)
                    == spec_options(old(self).message_options@, other),
            final(self).encoding_rule == old(self).encoding_rule,
            final(self).max_message_size == old(self).max_message_size,
            final(self).max_recursion_depth == old(self).max_recursion_depth,
            final(self).validate_checksums == old(self).validate_checksums,
            final(self).strict_type_checking == old(self).strict_type_checking,
            final(self).stream_buffer_size == old(self).stream_buffer_size,
            final(self).enable_zero_copy == old(self).enable_zero_copy,
    {
        let ghost before = self.message_options@;
        self.message_options.push((String::from_str(message_type), options));
        proof {
            let after = self.message_options@;
            assert(after.drop_last() =~= before);
        }
    }

    /// What is special about messages of `message_type`, if anything was
    /// set.
    pub fn get_message_options(&self, message_type: &str) -> (r: Option<MessageOptions>)
        ensures
            r == spec_options(self.message_options@, message_type@),
    {
        let mut i: usize = self.message_options.len();
        proof {
            assert(self.message_options@.take(i as int) =~= self.message_options@);
        }
        while i > 0
            invariant
                i <= self.message_options.len(),
                spec_options(self.message_options@, message_type@) == spec_options(
                    self.message_options@.take(i as int),
                    message_type@,
                ),
            decreases i,
        {
            proof {
                assert(self.message_options@.take(i as int).drop_last()
                    =~= self.message_options@.take(i - 1));
            }
            i = i - 1;
            if str_eq(self.message_options[i].0.as_str(), message_type) {
                return Some(self.message_options[i].1);
            }
        }
        None
    }
}

} // verus!
