use vstd::prelude::*;

verus! {

/// The transport's error taxonomy. Every operation returns its error to the
/// caller; nothing in this layer aborts.
#[derive(Debug)]
pub enum UdpError {
    /// Send, receive or poll was called before a socket was recorded.
    SocketUninit,
    /// The poll cycle found no registered message handler.
    CallbacksUninit,
    /// No usable local port was found within the retry budget; `attempts`
    /// is the number of extra ports that were tried after the first.
    BindExhausted { attempts: usize },
    /// The compressor or decompressor rejected its input.
    Codec,
    /// Serialization or deserialization mismatch.
    Encoding,
    /// A transport-level failure in the caller's socket layer.
    Io(String),
    /// The registered handler reported failure for a decoded message.
    Callback(String),
}

} // verus!
