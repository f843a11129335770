//! Settings shared by the decoders of this module.
use vstd::prelude::*;

verus! {

/// The separator that the standard prescribes: ASCII `SOH`.
pub const SOH: u8 = 0x1;

/// The largest message that a decoder accepts unless told otherwise.
pub const DEFAULT_MAX_MESSAGE_SIZE: usize = 0xffff;

/// Settings of a decoder.
#[derive(Debug, Clone, Copy, PartialEq, Eq, Structural)]
pub struct Config {
    /// The byte that ends every field, the last one of a message included.
    pub separator: u8,
    /// The largest number of bytes that one message may take on the wire.
    pub max_message_size: usize,
}

/// The settings of a decoder that was told nothing: `SOH` as separator,
/// messages of up to 65535 bytes.
pub open spec fn default_config() -> Config {
    Config { separator: SOH, max_message_size: DEFAULT_MAX_MESSAGE_SIZE }
}

impl Default for Config {
    /// `SOH` as separator, messages of up to 65535 bytes.
    fn default() -> (config: Config)
        ensures
            config == default_config(),
    {
        Config { separator: SOH, max_message_size: DEFAULT_MAX_MESSAGE_SIZE }
    }
}

} // verus!
