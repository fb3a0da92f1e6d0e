//! The per-direction endpoint driver: pull one frame, run it through
//! the module chain, write the outputs, and keep the two directions'
//! views of the handshake synchronized over the paired state channel.

use vstd::prelude::*;
use crate::parser::{
    set_cap, state_rank_spec, ByteSink, ByteSource, HasHandlers, Parser, ParserState,
};
use crate::usbr;

verus! {

/// The paired channel between the two directions: each publishes its
/// handshake progress and consumes the peer's. The implementation is an
/// external collaborator with try-receive and send; nothing is assumed
/// of it.
pub trait StateChannel {
    /// The next pending state change from the peer, if any.
    fn try_recv(&mut self) -> (r: Option<ParserState>);

    /// Publish a state change to the peer; `false` means the channel
    /// failed.
    fn send(&mut self, s: ParserState) -> (r: bool);
}

/// How many pending peer state changes one cycle drains at most; the
/// handshake produces only a handful in a connection's lifetime.
pub const MAX_STATE_DRAIN: usize = 16;

/// The capability words this proxy announces on both sides: everything
/// it requires of a peer.
pub fn gen_caps() -> (r: Vec<u32>)
    ensures
        r@.len() == usbr::CAPS_SIZE,
        crate::parser::verify_caps_spec(r@),
{
    let mut caps: Vec<u32> = Vec::new();
    let mut i: usize = 0;
    while i < usbr::CAPS_SIZE
        invariant
            caps@.len() == i,
            i <= usbr::CAPS_SIZE,
            forall|j: int| 0 <= j < i ==> caps@[j] == 0,
        decreases usbr::CAPS_SIZE - i,
    {
        caps.push(0);
        i = i + 1;
    }
    set_cap(&mut caps, usbr::CAP_BULK_STREAMS);
    set_cap(&mut caps, usbr::CAP_CONNECT_DEVICE_VERSION);
    set_cap(&mut caps, usbr::CAP_EP_INFO_MAX_PACKET_SIZE);
    set_cap(&mut caps, usbr::CAP_64_BITS_IDS);
    set_cap(&mut caps, usbr::CAP_32_BITS_BULK_LENGTH);
    set_cap(&mut caps, usbr::CAP_BULK_RECEIVING);
    proof {
        let w: u32 = 0u32 | (1u32 << 0u32) | (1u32 << 1u32) | (1u32 << 4u32) | (1u32 << 5u32) | (
        1u32 << 6u32) | (1u32 << 7u32);
        assert forall|v: u32| v == 0u32 | (1u32 << 0u32) | (1u32 << 1u32) | (1u32 << 4u32) | (1u32
            << 5u32) | (1u32 << 6u32) | (1u32 << 7u32) implies v & (1u32 << 0u32) != 0 && v & (1u32
            << 1u32) != 0 && v & (1u32 << 4u32) != 0 && v & (1u32 << 5u32) != 0 && v & (1u32
            << 6u32) != 0 && v & (1u32 << 7u32) != 0 by {
            assert(v == 0u32 | (1u32 << 0u32) | (1u32 << 1u32) | (1u32 << 4u32) | (1u32 << 5u32) | (
            1u32 << 6u32) | (1u32 << 7u32) ==> v & (1u32 << 0u32) != 0 && v & (1u32 << 1u32) != 0
                && v & (1u32 << 4u32) != 0 && v & (1u32 << 5u32) != 0 && v & (1u32 << 6u32) != 0
                && v & (1u32 << 7u32) != 0) by (bit_vector);
        }
        assert(caps@[0] == w);
    }
    caps
}

/// One direction of a spliced connection: its parser, the socket halves
/// it reads and writes, its module chain, and the channel to the peer
/// direction.
pub struct CinchEndpoint<T: HasHandlers, R: ByteSource, W: ByteSink, C: StateChannel> {
    pub parser: Parser,
    pub reader: R,
    pub writer: W,
    pub handlers: T,
    pub channel: C,
}

impl<T: HasHandlers, R: ByteSource, W: ByteSink, C: StateChannel> CinchEndpoint<T, R, W, C> {
    /// The endpoint is ready to run: its parser is initialized and its
    /// stages are well formed.
    pub open spec fn wf(&self) -> bool {
        &&& self.parser.wf()
        &&& self.parser.state != ParserState::New
        &&& self.handlers.inv()
    }

    /// Assemble an endpoint from its parts.
    pub fn new(parser: Parser, reader: R, writer: W, handlers: T, channel: C) -> (r: CinchEndpoint<
        T,
        R,
        W,
        C,
    >)
        requires
            parser.wf(),
            parser.state != ParserState::New,
            handlers.inv(),
        ensures
            r.wf(),
            r.parser == parser,
    {
        CinchEndpoint { parser, reader, writer, handlers, channel }
    }

    /// One driver cycle: drain pending peer state changes while the
    /// handshake is still in progress, pull one frame, run it through
    /// the module chain, write and flush the outputs, and publish any
    /// state change of our own. `false` means the connection is over,
    /// because a stream failed or a stage decided to reset.
    pub fn process_next_request(&mut self) -> (r: bool)
        requires
            old(self).wf(),
        ensures
            final(self).wf(),
            state_rank_spec(old(self).parser.state) <= state_rank_spec(final(self).parser.state),
    {
        // Catch up on the peer's handshake progress first.
        if crate::parser::state_rank(self.parser.state) < 7 {
            let mut drained: usize = 0;
            while drained < MAX_STATE_DRAIN
                invariant
                    self.parser.wf(),
                    self.parser.state != ParserState::New,
                    self.handlers.inv(),
                    state_rank_spec(old(self).parser.state) <= state_rank_spec(self.parser.state),
                decreases MAX_STATE_DRAIN - drained,
            {
                match self.channel.try_recv() {
                    Some(s) => {
                        self.parser.process_state_change(s);
                    },
                    None => {
                        drained = MAX_STATE_DRAIN;
                        continue;
                    },
                }
                drained = drained + 1;
            }
        }

        let request = match self.parser.pull_next_request(&mut self.reader) {
            Some(req) => req,
            None => {
                return false;
            },
        };
        let (outputs, publish) = match self.parser.process_request(&mut self.handlers, request) {
            Some(v) => v,
            None => {
                return false;
            },
        };
        if let Some(state) = publish {
            if !self.channel.send(state) {
                return false;
            }
        }
        if !self.parser.push_outputs(&mut self.writer, outputs) {
            return false;
        }
        self.writer.flush()
    }
}

} // verus!
