use vstd::prelude::*;

use crate::codec::compress_of;
use crate::codec::decompress_of;
use crate::codec::ZstdHolder;
use crate::codec::ZSTD_LEVEL;
use crate::endpoint::Endpoint;
use crate::error::UdpError;
use crate::msg::decoded;
use crate::msg::encodable;
use crate::msg::encoded;
use crate::msg::lemma_msg_round_trip;
use crate::msg::MsgView;
use crate::msg::UdpMsg;

verus! {

/// Upper bound on the wire encoding of any message a datagram can carry; the
/// decompression size hint is derived from it.
pub const MAX_ENCODED_LEN: usize = 65536;

/// The handler contract: the protocol built on top of the transport
/// implements this, and the poll cycle invokes it once per successfully
/// decoded inbound message. Calls are serialized by the poll caller; a
/// failure is reported back to the poll caller, never swallowed.
pub trait UdpCallback {
    fn on_msg(&mut self, from: &Endpoint, msg: &UdpMsg, len: usize) -> Result<(), String>;
}

/// The transport: owns an optional bound socket (recorded as its local port;
/// the caller's I/O layer owns the handle), an optional registered handler,
/// and the codec holder shared by every send and receive. It turns outbound
/// messages into ready-to-send compressed frames and inbound frames back into
/// dispatched messages; the I/O layer around it only moves bytes.
pub struct Udp<Callbacks: UdpCallback> {
    socket: Option<u16>,
    callbacks: Option<Callbacks>,
    zstd: ZstdHolder,
}

impl<Callbacks: UdpCallback> Udp<Callbacks> {
    /// Whether a successful initialize recorded a bound socket.
    pub closed spec fn is_bound(&self) -> bool {
        self.socket is Some
    }

    /// The local port recorded at initialization.
    pub closed spec fn bound_port(&self) -> u16
        recommends
            self.is_bound(),
    {
        self.socket->0
    }

    /// Whether a handler is registered for the poll cycle.
    pub closed spec fn has_callbacks(&self) -> bool {
        self.callbacks is Some
    }

    /// A transport with no socket and no handler: send, receive and poll all
    /// report not-ready until `init` runs.
    pub fn new() -> (r: Udp<Callbacks>)
        ensures
            !r.is_bound(),
            !r.has_callbacks(),
    {
        Udp { socket: None, callbacks: None, zstd: ZstdHolder::new() }
    }

    /// Record the socket the I/O layer bound — the port the acquirer settled
    /// on — and store the handler for dispatch. Called again, it overwrites
    /// both: the transport keeps no guard against re-initialization.
    pub fn init(&mut self, port: u16, callbacks: Callbacks)
        ensures
            final(self).is_bound(),
            final(self).bound_port() == port,
            final(self).has_callbacks(),
    {
        self.socket = Some(port);
        self.callbacks = Some(callbacks);
    }

    /// The outbound pipeline: serialize the message, compress it at the
    /// transport's fixed level, and hand back the wire frame for the I/O
    /// layer to write to each destination. Nothing is produced — and no I/O
    /// is owed — before `init`, or for a message that cannot be encoded, or
    /// when the codec rejects the input.
    pub fn send_to(&mut self, msg: &UdpMsg) -> (r: Result<Vec<u8>, UdpError>)
        ensures
            final(self).is_bound() == old(self).is_bound(),
            final(self).has_callbacks() == old(self).has_callbacks(),
            old(self).is_bound() ==> final(self).bound_port() == old(self).bound_port(),
            !old(self).is_bound() ==> (r matches Err(e) && e == UdpError::SocketUninit
                && *final(self) == *old(self)),
            old(self).is_bound() && !encodable(msg@) ==> (r matches Err(e) && e
                == UdpError::Encoding),
            old(self).is_bound() && encodable(msg@) ==> (r matches Ok(frame) && frame@
                == compress_of(encoded(msg@), ZSTD_LEVEL as int)),
    {
        if self.socket.is_none() {
            return Err(UdpError::SocketUninit);
        }
        let serialized = match msg.encode() {
            Ok(v) => v,
            Err(e) => {
                return Err(e);
            },
        };
        proof {
            assert(serialized@.len() < 0x100_0000_0000);
        }
        self.zstd.compress(&serialized, ZSTD_LEVEL)
    }

    /// The inbound pipeline, fed one received datagram and its sender:
    /// decompress with the size hint derived from the maximum message size,
    /// deserialize, and return the message with the received byte length and
    /// the sender. Every frame the outbound pipeline makes of a message whose
    /// encoding fits the hint is decoded back to exactly that message.
    #[verifier::rlimit(60)]
    pub fn get_msg(&mut self, datagram: &Vec<u8>, sender: Endpoint) -> (r: Result<
        (UdpMsg, usize, Endpoint),
        UdpError,
    >)
        ensures
            final(self).is_bound() == old(self).is_bound(),
            final(self).has_callbacks() == old(self).has_callbacks(),
            old(self).is_bound() ==> final(self).bound_port() == old(self).bound_port(),
            !old(self).is_bound() ==> (r matches Err(e) && e == UdpError::SocketUninit
                && *final(self) == *old(self)),
            old(self).is_bound() ==> (r matches Err(e) ==> e == UdpError::Codec || e
                == UdpError::Encoding),
            r matches Ok(t) ==> old(self).is_bound() && t.1 == datagram@.len() && t.2 == sender
                && (decompress_of(datagram@, MAX_ENCODED_LEN as nat) matches Some(d) && decoded(d)
                == Some(t.0@)),
            old(self).is_bound() && decompress_of(datagram@, MAX_ENCODED_LEN as nat) is None ==> (r
                matches Err(e) && e == UdpError::Codec),
            old(self).is_bound() && (decompress_of(datagram@, MAX_ENCODED_LEN as nat) matches Some(
                d,
            ) && decoded(d) is None) ==> (r matches Err(e) && e == UdpError::Encoding),
            old(self).is_bound() && (decompress_of(datagram@, MAX_ENCODED_LEN as nat) matches Some(
                d,
            ) && decoded(d) is Some) ==> r is Ok,
            forall|v: MsgView|
                #![trigger compress_of(encoded(v), ZSTD_LEVEL as int)]
                old(self).is_bound() && datagram@ == compress_of(encoded(v), ZSTD_LEVEL as int)
                    && encoded(v).len() <= MAX_ENCODED_LEN ==> (r matches Ok(t) && t.0@ == v),
    {
        if self.socket.is_none() {
            return Err(UdpError::SocketUninit);
        }
        let decompressed = match self.zstd.decompress(datagram, MAX_ENCODED_LEN) {
            Ok(v) => v,
            Err(e) => {
                return Err(e);
            },
        };
        match UdpMsg::decode(&decompressed) {
            Ok(m) => {
                proof {
                    assert forall|v: MsgView|
                        datagram@ == compress_of(encoded(v), ZSTD_LEVEL as int) && encoded(v).len()
                            <= MAX_ENCODED_LEN implies m@ == v by {
                        assert(encodable(v));
                        lemma_msg_round_trip(v);
                    }
                }
                Ok((m, datagram.len(), sender))
            },
            Err(e) => {
                proof {
                    assert forall|v: MsgView|
                        datagram@ == compress_of(encoded(v), ZSTD_LEVEL as int) && encoded(v).len()
                            <= MAX_ENCODED_LEN implies false by {
                        assert(encodable(v));
                        lemma_msg_round_trip(v);
                    }
                }
                Err(e)
            },
        }
    }

    /// One poll cycle: receive one datagram through the inbound pipeline,
    /// then dispatch the decoded message to the registered handler. A handler
    /// failure is surfaced to the poll caller as a callback-class error — the
    /// transport itself stays bound and keeps its handler, so polling can
    /// simply continue.
    pub fn on_loop_poll(&mut self, datagram: &Vec<u8>, sender: Endpoint) -> (r: Result<
        bool,
        UdpError,
    >)
        ensures
            final(self).is_bound() == old(self).is_bound(),
            final(self).has_callbacks() == old(self).has_callbacks(),
            old(self).is_bound() ==> final(self).bound_port() == old(self).bound_port(),
            !old(self).is_bound() ==> (r matches Err(e) && e == UdpError::SocketUninit),
            r matches Ok(b) ==> b == true && old(self).is_bound() && old(self).has_callbacks(),
            old(self).is_bound() && old(self).has_callbacks() ==> (r matches Err(e) ==> e
                == UdpError::Codec || e == UdpError::Encoding || e is Callback),
            old(self).is_bound() && !old(self).has_callbacks() ==> r is Err,
            old(self).is_bound() && !old(self).has_callbacks() ==> (r matches Err(e) ==> e
                == UdpError::Codec || e == UdpError::Encoding || e == UdpError::CallbacksUninit),
            forall|v: MsgView|
                #![trigger compress_of(encoded(v), ZSTD_LEVEL as int)]
                old(self).is_bound() && !old(self).has_callbacks() && datagram@ == compress_of(
                    encoded(v),
                    ZSTD_LEVEL as int,
                ) && encoded(v).len() <= MAX_ENCODED_LEN ==> (r matches Err(e) && e
                    == UdpError::CallbacksUninit),
            old(self).is_bound() && decompress_of(datagram@, MAX_ENCODED_LEN as nat) is None ==> (r
                matches Err(e) && e == UdpError::Codec),
            old(self).is_bound() && (decompress_of(datagram@, MAX_ENCODED_LEN as nat) matches Some(
                d,
            ) && decoded(d) is None) ==> (r matches Err(e) && e == UdpError::Encoding),
            old(self).is_bound() && old(self).has_callbacks() && (decompress_of(
                datagram@,
                MAX_ENCODED_LEN as nat,
            ) matches Some(d) && decoded(d) is Some) ==> (r is Ok || (r matches Err(e) && e
                is Callback)),
            old(self).is_bound() && !old(self).has_callbacks() && (decompress_of(
                datagram@,
                MAX_ENCODED_LEN as nat,
            ) matches Some(d) && decoded(d) is Some) ==> (r matches Err(e) && e
                == UdpError::CallbacksUninit),
            forall|v: MsgView|
                #![trigger compress_of(encoded(v), ZSTD_LEVEL as int)]
                old(self).is_bound() && old(self).has_callbacks() && datagram@ == compress_of(
                    encoded(v),
                    ZSTD_LEVEL as int,
                ) && encoded(v).len() <= MAX_ENCODED_LEN ==> (r is Ok || (r matches Err(e) && e
                    is Callback)),
    {
        let got = self.get_msg(datagram, sender);
        match got {
            Err(e) => Err(e),
            Ok((msg, len, from)) => {
                match &mut self.callbacks {
                    None => Err(UdpError::CallbacksUninit),
                    Some(cb) => {
                        match cb.on_msg(&from, &msg, len) {
                            Ok(_) => Ok(true),
                            Err(s) => Err(UdpError::Callback(s)),
                        }
                    },
                }
            },
        }
    }
}

impl<Callbacks: UdpCallback> Default for Udp<Callbacks> {
    /// The same empty transport as `new`.
    fn default() -> (r: Udp<Callbacks>)
        ensures
            !r.is_bound(),
            !r.has_callbacks(),
    {
        Udp::new()
    }
}

} // verus!
