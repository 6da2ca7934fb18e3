//! Decoder for the TTY stream framing of `exec` and `attach` responses.
//!
//! The wire format frames each message as an 8-byte header followed by the
//! payload: byte 0 is the stream tag (conventionally 0/1/2 for
//! stdin-echo/stdout/stderr, though the decoder assigns the value no
//! meaning), bytes 1..4 are reserved and ignored, and bytes 4..8 give the
//! payload length as a big-endian unsigned 32-bit integer. The transport
//! delivers the stream as chunks whose boundaries carry no meaning: a chunk
//! may end mid-header or mid-payload, and may hold several whole frames.
//!
//! [`TtyDecoder`] buffers chunks and hands out complete frames in arrival
//! order. The specification-level functions [`frames_from`] and [`drained`]
//! say exactly which frames a buffered byte sequence holds and what remains
//! once they are taken, and every operation's contract is stated over them.

use vstd::prelude::*;

use crate::chunks::{concat_chunks, lemma_concat_take_succ};
use crate::errors::DecodeError;
use std::collections::VecDeque;

verus! {

/// A decoded frame: the stream tag of its header, and its payload.
#[derive(Clone, Debug)]
pub struct TtyFrame {
    pub stream_id: u8,
    pub payload: Vec<u8>,
}

/// The mathematical value of a frame.
pub struct FrameModel {
    pub stream_id: u8,
    pub payload: Seq<u8>,
}

impl View for TtyFrame {
    type V = FrameModel;

    open spec fn view(&self) -> FrameModel {
        FrameModel { stream_id: self.stream_id, payload: self.payload@ }
    }
}

impl DeepView for TtyFrame {
    type V = FrameModel;

    open spec fn deep_view(&self) -> FrameModel {
        self@
    }
}

/// The decoder is always in exactly one of these states: no partial header
/// parsed yet, or a header consumed and `expected_len` payload bytes owed.
#[derive(Clone, Copy, Debug, PartialEq, Eq, Structural)]
pub enum TtyState {
    AwaitingHeader,
    AwaitingBody { stream_id: u8, expected_len: usize },
}

/// The mathematical value of a decoder state.
pub enum StateModel {
    AwaitingHeader,
    AwaitingBody { stream_id: u8, expected_len: int },
}

impl View for TtyState {
    type V = StateModel;

    open spec fn view(&self) -> StateModel {
        match self {
            TtyState::AwaitingHeader => StateModel::AwaitingHeader,
            TtyState::AwaitingBody { stream_id, expected_len } => StateModel::AwaitingBody {
                stream_id: *stream_id,
                expected_len: *expected_len as int,
            },
        }
    }
}

/// The big-endian 32-bit value of the first four bytes of `b`.
pub open spec fn be32(b: Seq<u8>) -> int {
    b[0] * 0x100_0000 + b[1] * 0x1_0000 + b[2] * 0x100 + b[3]
}

/// The state a header at the front of `b` (of length at least 8) leads to:
/// byte 0 is the stream tag, bytes 4..8 the payload length, bytes 1..4
/// are reserved and discarded.
pub open spec fn header_state(b: Seq<u8>) -> StateModel {
    StateModel::AwaitingBody { stream_id: b[0], expected_len: be32(b.subrange(4, 8)) }
}

/// Rank used to show the decoding recursion terminates: consuming a body of
/// length zero leaves the bytes unchanged but steps from `AwaitingBody` back
/// to `AwaitingHeader`.
pub open spec fn state_rank(st: StateModel) -> int {
    match st {
        StateModel::AwaitingHeader => 0,
        StateModel::AwaitingBody { .. } => 1,
    }
}

/// All complete frames held by the bytes `b` when decoding starts in state
/// `st`, in order.
pub open spec fn frames_from(st: StateModel, b: Seq<u8>) -> Seq<FrameModel>
    decreases b.len(), state_rank(st),
{
    match st {
        StateModel::AwaitingHeader => if b.len() >= 8 {
            frames_from(header_state(b), b.skip(8))
        } else {
            Seq::empty()
        },
        StateModel::AwaitingBody { stream_id, expected_len } => if 0 <= expected_len
            <= b.len() {
            seq![FrameModel { stream_id, payload: b.take(expected_len) }] + frames_from(
                StateModel::AwaitingHeader,
                b.skip(expected_len),
            )
        } else {
            Seq::empty()
        },
    }
}

/// The state and bytes left once every complete frame of `b` (decoding from
/// `st`) has been taken, a complete header at the tail consumed as well.
pub open spec fn drained(st: StateModel, b: Seq<u8>) -> (StateModel, Seq<u8>)
    decreases b.len(), state_rank(st),
{
    match st {
        StateModel::AwaitingHeader => if b.len() >= 8 {
            drained(header_state(b), b.skip(8))
        } else {
            (st, b)
        },
        StateModel::AwaitingBody { stream_id, expected_len } => if 0 <= expected_len
            <= b.len() {
            drained(StateModel::AwaitingHeader, b.skip(expected_len))
        } else {
            (st, b)
        },
    }
}

/// The first complete frame of `b` (decoding from `st`), with the state and
/// bytes that remain after it; `None` when no complete frame is buffered.
pub open spec fn pop_frame(st: StateModel, b: Seq<u8>) -> Option<(FrameModel, StateModel, Seq<u8>)>
    decreases b.len(), state_rank(st),
{
    match st {
        StateModel::AwaitingHeader => if b.len() >= 8 {
            pop_frame(header_state(b), b.skip(8))
        } else {
            None
        },
        StateModel::AwaitingBody { stream_id, expected_len } => if 0 <= expected_len
            <= b.len() {
            Some(
                (
                    FrameModel { stream_id, payload: b.take(expected_len) },
                    StateModel::AwaitingHeader,
                    b.skip(expected_len),
                ),
            )
        } else {
            None
        },
    }
}

/// The mathematical value of a decoder: its state and its buffered bytes.
pub struct TtyModel {
    pub state: StateModel,
    pub buf: Seq<u8>,
}

/// Incremental decoder for the TTY stream framing.
///
/// Chunks go in through [`TtyDecoder::push_chunk`]; complete frames come out
/// through [`TtyDecoder::next_frame`] in strict arrival order. The buffer
/// only ever grows at the tail and is drained from the head, so no byte is
/// reordered, lost or duplicated.
pub struct TtyDecoder {
    state: TtyState,
    buf: VecDeque<u8>,
}

impl View for TtyDecoder {
    type V = TtyModel;

    closed spec fn view(&self) -> TtyModel {
        TtyModel { state: self.state@, buf: self.buf@ }
    }
}

impl TtyDecoder {
    /// A fresh decoder: empty buffer, awaiting a header.
    pub fn new() -> (d: TtyDecoder)
        ensures
            d@.state == StateModel::AwaitingHeader,
            d@.buf == Seq::<u8>::empty(),
    {
        TtyDecoder { state: TtyState::AwaitingHeader, buf: VecDeque::new() }
    }

    /// Appends a chunk at the buffer's tail, in arrival order.
    pub fn push_chunk(&mut self, chunk: &[u8])
        ensures
            final(self)@.state == old(self)@.state,
            final(self)@.buf == old(self)@.buf + chunk@,
    {
        let n = chunk.len();
        let mut i: usize = 0;
        while i < n
            invariant
                n == chunk@.len(),
                i <= n,
                self@.state == old(self)@.state,
                self@.buf == old(self)@.buf + chunk@.take(i as int),
            decreases n - i,
        {
            self.buf.push_back(chunk[i]);
            i = i + 1;
            proof {
                assert(chunk@.take(i as int) == chunk@.take(i as int - 1).push(chunk@[i - 1]));
            }
        }
        proof {
            assert(chunk@.take(n as int) == chunk@);
        }
    }

    /// Takes one complete frame off the buffer, if one is fully buffered.
    ///
    /// A complete header at the buffer's front is consumed (and its reserved
    /// bytes discarded) even when the body it announces has not arrived yet;
    /// the outcome in either case is exactly what [`pop_frame`] and
    /// [`drained`] say of the prior state and buffer.
    pub fn next_frame(&mut self) -> (r: Option<TtyFrame>)
        ensures
            match pop_frame(old(self)@.state, old(self)@.buf) {
                Some((f, st, b)) => {
                    &&& r matches Some(fr) && fr@ == f
                    &&& final(self)@.state == st
                    &&& final(self)@.buf == b
                },
                None => {
                    &&& r is None
                    &&& final(self)@.state == drained(old(self)@.state, old(self)@.buf).0
                    &&& final(self)@.buf == drained(old(self)@.state, old(self)@.buf).1
                },
            },
    {
        if matches!(self.state, TtyState::AwaitingHeader) && self.buf.len() >= 8 {
            let header = take_front(&mut self.buf, 8);
            let len = be32_exec(header[4], header[5], header[6], header[7]);
            proof {
                assert(seq![header@[4], header@[5], header@[6], header@[7]] =~= old(
                    self,
                )@.buf.subrange(4, 8));
                assert(header@[0] == old(self)@.buf[0]);
            }
            self.state = TtyState::AwaitingBody {
                stream_id: header[0],
                expected_len: len as usize,
            };
            proof {
                assert(self.state@ == header_state(old(self)@.buf));
                assert(pop_frame(old(self)@.state, old(self)@.buf) == pop_frame(
                    self.state@,
                    self.buf@,
                ));
                assert(drained(old(self)@.state, old(self)@.buf) == drained(
                    self.state@,
                    self.buf@,
                ));
            }
        }
        let ghost st1 = self.state@;
        let ghost b1 = self.buf@;
        proof {
            assert(pop_frame(old(self)@.state, old(self)@.buf) == pop_frame(st1, b1));
            assert(drained(old(self)@.state, old(self)@.buf) == drained(st1, b1));
        }
        match self.state {
            TtyState::AwaitingHeader => None,
            TtyState::AwaitingBody { stream_id, expected_len } => {
                if self.buf.len() >= expected_len {
                    let payload = take_front(&mut self.buf, expected_len);
                    self.state = TtyState::AwaitingHeader;
                    proof {
                        assert(pop_frame(st1, b1) matches Some((f, st, b)) && f
                            == (FrameModel { stream_id, payload: payload@ }) && st
                            == StateModel::AwaitingHeader && b == self.buf@);
                    }
                    Some(TtyFrame { stream_id, payload })
                } else {
                    None
                }
            },
        }
    }

    /// How many bytes are buffered but not yet part of a yielded frame.
    pub fn buffered_len(&self) -> (r: usize)
        ensures
            r == self@.buf.len(),
    {
        self.buf.len()
    }

    /// The verdict once the chunk stream has definitively ended.
    ///
    /// Leftover buffered bytes mean the peer closed mid-message: that is a
    /// protocol error, never silently dropped. An empty buffer is a clean
    /// end.
    pub fn finish(&self) -> (r: Result<(), DecodeError>)
        ensures
            self@.buf.len() == 0 <==> r is Ok,
            r matches Err(e) ==> e == DecodeError::UnexpectedEof,
    {
        if self.buf.len() == 0 {
            Ok(())
        } else {
            Err(DecodeError::UnexpectedEof)
        }
    }
}

/// Removes the first `n` bytes of `buf` and returns them in order.
fn take_front(buf: &mut VecDeque<u8>, n: usize) -> (r: Vec<u8>)
    requires
        n <= old(buf)@.len(),
    ensures
        r@ == old(buf)@.take(n as int),
        final(buf)@ == old(buf)@.skip(n as int),
{
    let mut r: Vec<u8> = Vec::new();
    let mut i: usize = 0;
    while i < n
        invariant
            i <= n,
            n <= old(buf)@.len(),
            r@ == old(buf)@.take(i as int),
            buf@ == old(buf)@.skip(i as int),
        decreases n - i,
    {
        let b = buf.pop_front();
        match b {
            Some(x) => {
                r.push(x);
            },
            None => {
                proof {
                    assert(false);
                }
            },
        }
        i = i + 1;
        proof {
            assert(old(buf)@.take(i as int) == old(buf)@.take(i as int - 1).push(
                old(buf)@[i - 1],
            ));
            assert(buf@ =~= old(buf)@.skip(i as int));
        }
    }
    r
}

/// Popping one frame accounts exactly for the head of [`frames_from`], and
/// leaves the residual drain unchanged; when nothing can be popped, no
/// complete frame is buffered.
pub proof fn lemma_pop_frame_frames(st: StateModel, b: Seq<u8>)
    ensures
        match pop_frame(st, b) {
            Some((f, st2, b2)) => {
                &&& frames_from(st, b) == seq![f] + frames_from(st2, b2)
                &&& drained(st, b) == drained(st2, b2)
            },
            None => frames_from(st, b) == Seq::<FrameModel>::empty(),
        },
    decreases b.len(), state_rank(st),
{
    match st {
        StateModel::AwaitingHeader => {
            if b.len() >= 8 {
                lemma_pop_frame_frames(header_state(b), b.skip(8));
            }
        },
        StateModel::AwaitingBody { stream_id, expected_len } => {
            if 0 <= expected_len <= b.len() {
                lemma_pop_frame_frames(StateModel::AwaitingHeader, b.skip(expected_len));
            }
        },
    }
}

/// A drained state and buffer are quiescent: they hold no complete frame,
/// and draining them again changes nothing.
pub proof fn lemma_drained_fixed(st: StateModel, b: Seq<u8>)
    ensures
        frames_from(drained(st, b).0, drained(st, b).1) == Seq::<FrameModel>::empty(),
        drained(drained(st, b).0, drained(st, b).1) == drained(st, b),
    decreases b.len(), state_rank(st),
{
    match st {
        StateModel::AwaitingHeader => {
            if b.len() >= 8 {
                lemma_drained_fixed(header_state(b), b.skip(8));
            }
        },
        StateModel::AwaitingBody { stream_id, expected_len } => {
            if 0 <= expected_len <= b.len() {
                lemma_drained_fixed(StateModel::AwaitingHeader, b.skip(expected_len));
            }
        },
    }
}

/// Stream composition: appending bytes `c` behind `b` first completes the
/// frames `b` already held, then decodes on from the drained residue. Every
/// chunk-boundary argument reduces to this fact.
pub proof fn lemma_extend(st: StateModel, b: Seq<u8>, c: Seq<u8>)
    ensures
        frames_from(st, b + c) == frames_from(st, b) + frames_from(
            drained(st, b).0,
            drained(st, b).1 + c,
        ),
        drained(st, b + c) == drained(drained(st, b).0, drained(st, b).1 + c),
    decreases b.len(), state_rank(st),
{
    match st {
        StateModel::AwaitingHeader => {
            if b.len() >= 8 {
                assert((b + c).len() >= 8);
                assert((b + c).skip(8) =~= b.skip(8) + c);
                assert((b + c).subrange(4, 8) =~= b.subrange(4, 8));
                assert(header_state(b + c) == header_state(b));
                lemma_extend(header_state(b), b.skip(8), c);
            } else {
                assert(drained(st, b) == (st, b));
                assert(frames_from(st, b) == Seq::<FrameModel>::empty());
                assert(frames_from(st, b) + frames_from(st, b + c) =~= frames_from(st, b + c));
            }
        },
        StateModel::AwaitingBody { stream_id, expected_len } => {
            if 0 <= expected_len <= b.len() {
                let f = FrameModel { stream_id, payload: b.take(expected_len) };
                assert((b + c).take(expected_len) =~= b.take(expected_len));
                assert((b + c).skip(expected_len) =~= b.skip(expected_len) + c);
                lemma_extend(StateModel::AwaitingHeader, b.skip(expected_len), c);
                assert(frames_from(st, b + c) =~= frames_from(st, b) + frames_from(
                    drained(st, b).0,
                    drained(st, b).1 + c,
                ));
            } else {
                assert(drained(st, b) == (st, b));
                assert(frames_from(st, b) == Seq::<FrameModel>::empty());
                assert(frames_from(st, b) + frames_from(st, b + c) =~= frames_from(st, b + c));
            }
        },
    }
}

/// The four bytes of `n` in big-endian order.
pub open spec fn be32_bytes(n: int) -> Seq<u8> {
    seq![
        ((n / 0x100_0000) % 0x100) as u8,
        ((n / 0x1_0000) % 0x100) as u8,
        ((n / 0x100) % 0x100) as u8,
        (n % 0x100) as u8,
    ]
}

/// The wire encoding of one frame: the stream tag, three zero reserved
/// bytes, the payload length in big-endian order, then the payload.
pub open spec fn encode_frame_spec(stream_id: u8, payload: Seq<u8>) -> Seq<u8> {
    seq![stream_id, 0u8, 0u8, 0u8] + be32_bytes(payload.len() as int) + payload
}

/// Reading four big-endian bytes undoes writing them.
pub proof fn lemma_be32_roundtrip(n: u32)
    ensures
        be32(be32_bytes(n as int)) == n,
{
    assert(((n / 0x100_0000) % 0x100) * 0x100_0000 + ((n / 0x1_0000) % 0x100) * 0x1_0000 + ((n
        / 0x100) % 0x100) * 0x100 + (n % 0x100) == n) by (bit_vector);
}

/// Frame round-trip: encoding one frame and decoding the result yields
/// exactly that frame, with nothing left over.
pub proof fn lemma_frame_round_trip(stream_id: u8, payload: Seq<u8>)
    requires
        payload.len() <= u32::MAX,
    ensures
        frames_from(StateModel::AwaitingHeader, encode_frame_spec(stream_id, payload)) == seq![
            FrameModel { stream_id, payload },
        ],
        drained(StateModel::AwaitingHeader, encode_frame_spec(stream_id, payload)) == (
            StateModel::AwaitingHeader,
            Seq::<u8>::empty(),
        ),
{
    let e = encode_frame_spec(stream_id, payload);
    let n = payload.len() as int;
    lemma_be32_roundtrip(payload.len() as u32);
    assert(e.subrange(4, 8) =~= be32_bytes(n));
    assert(be32(e.subrange(4, 8)) == n);
    assert(header_state(e) == StateModel::AwaitingBody { stream_id, expected_len: n });
    assert(e.skip(8) =~= payload);
    assert(payload.take(n) =~= payload);
    assert(payload.skip(n) =~= Seq::<u8>::empty());
    assert(frames_from(StateModel::AwaitingHeader, Seq::<u8>::empty())
        == Seq::<FrameModel>::empty());
    assert(seq![FrameModel { stream_id, payload }] + Seq::<FrameModel>::empty() =~= seq![
        FrameModel { stream_id, payload },
    ]);
    assert(frames_from(StateModel::AwaitingHeader, e) == frames_from(header_state(e), payload));
    assert(frames_from(header_state(e), payload) == seq![FrameModel { stream_id, payload }]
        + frames_from(StateModel::AwaitingHeader, Seq::<u8>::empty()));
    assert(drained(StateModel::AwaitingHeader, e) == drained(header_state(e), payload));
    assert(drained(header_state(e), payload) == drained(
        StateModel::AwaitingHeader,
        Seq::<u8>::empty(),
    ));
    assert(drained(StateModel::AwaitingHeader, Seq::<u8>::empty()) == (
        StateModel::AwaitingHeader,
        Seq::<u8>::empty(),
    ));
}

/// The wire encoding of a sequence of frames, in order.
pub open spec fn encode_frames_spec(frames: Seq<FrameModel>) -> Seq<u8>
    decreases frames.len(),
{
    if frames.len() == 0 {
        Seq::empty()
    } else {
        encode_frame_spec(frames[0].stream_id, frames[0].payload) + encode_frames_spec(
            frames.skip(1),
        )
    }
}

/// Round-trip of whole frame sequences: however many frames are encoded
/// back to back, decoding yields them all, in order, with nothing left
/// over. In particular, frames wholly contained in the buffered bytes are
/// all available at once, without waiting for further chunks.
pub proof fn lemma_frames_round_trip(frames: Seq<FrameModel>)
    requires
        forall|i: int| 0 <= i < frames.len() ==> (#[trigger] frames[i]).payload.len() <= u32::MAX,
    ensures
        frames_from(StateModel::AwaitingHeader, encode_frames_spec(frames)) == frames,
        drained(StateModel::AwaitingHeader, encode_frames_spec(frames)) == (
            StateModel::AwaitingHeader,
            Seq::<u8>::empty(),
        ),
    decreases frames.len(),
{
    if frames.len() == 0 {
        assert(frames_from(StateModel::AwaitingHeader, encode_frames_spec(frames))
            =~= Seq::<FrameModel>::empty());
        assert(frames =~= Seq::<FrameModel>::empty());
    } else {
        let head = frames[0];
        let e0 = encode_frame_spec(head.stream_id, head.payload);
        let rest = encode_frames_spec(frames.skip(1));
        lemma_frame_round_trip(head.stream_id, head.payload);
        lemma_extend(StateModel::AwaitingHeader, e0, rest);
        lemma_frames_round_trip(frames.skip(1));
        assert(Seq::<u8>::empty() + rest =~= rest);
        assert(seq![head] + frames.skip(1) =~= frames);
    }
}

/// A header declaring a zero-length body yields a frame with an empty
/// payload at once, with no further bytes needed.
pub proof fn lemma_empty_body_frame(stream_id: u8)
    ensures
        frames_from(StateModel::AwaitingHeader, encode_frame_spec(stream_id, Seq::empty()))
            == seq![FrameModel { stream_id, payload: Seq::<u8>::empty() }],
{
    lemma_frame_round_trip(stream_id, Seq::empty());
}

/// Truncation, first form: fewer than the eight header bytes decode to no
/// frame and stay buffered, so a stream end there is reported, never
/// swallowed.
pub proof fn lemma_truncated_header(b: Seq<u8>)
    requires
        0 < b.len() < 8,
    ensures
        frames_from(StateModel::AwaitingHeader, b) == Seq::<FrameModel>::empty(),
        drained(StateModel::AwaitingHeader, b).1 == b,
{
}

/// Truncation, second form: a complete header followed by only part of the
/// declared payload decodes to no frame, and the partial payload stays
/// buffered, so a stream end there is reported.
pub proof fn lemma_truncated_body(stream_id: u8, payload: Seq<u8>, k: int)
    requires
        payload.len() <= u32::MAX,
        1 <= k < payload.len(),
    ensures
        frames_from(StateModel::AwaitingHeader, encode_frame_spec(stream_id, payload).take(8 + k))
            == Seq::<FrameModel>::empty(),
        drained(StateModel::AwaitingHeader, encode_frame_spec(stream_id, payload).take(8 + k)).1
            == payload.take(k),
{
    let e = encode_frame_spec(stream_id, payload);
    let t = e.take(8 + k);
    let n = payload.len() as int;
    lemma_be32_roundtrip(payload.len() as u32);
    assert(t.len() == 8 + k);
    assert(t.subrange(4, 8) =~= be32_bytes(n));
    assert(be32(t.subrange(4, 8)) == n);
    assert(header_state(t) == StateModel::AwaitingBody { stream_id, expected_len: n });
    assert(t.skip(8) =~= payload.take(k));
    assert(frames_from(StateModel::AwaitingHeader, t) == frames_from(
        header_state(t),
        payload.take(k),
    ));
    assert(frames_from(header_state(t), payload.take(k)) == Seq::<FrameModel>::empty());
    assert(drained(StateModel::AwaitingHeader, t) == drained(header_state(t), payload.take(k)));
    assert(drained(header_state(t), payload.take(k)) == (header_state(t), payload.take(k)));
}

/// What a decoder run leaves behind: its final state and buffer, and every
/// frame yielded on the way.
pub struct RunModel {
    pub state: StateModel,
    pub buf: Seq<u8>,
    pub frames: Seq<FrameModel>,
}

/// One whole decoder run: starting from `st` and `b`, each chunk is
/// appended in turn and every frame it completes is yielded before the next
/// chunk is taken.
pub open spec fn run_model(st: StateModel, b: Seq<u8>, chunks: Seq<Seq<u8>>) -> RunModel
    decreases chunks.len(),
{
    if chunks.len() == 0 {
        RunModel { state: st, buf: b, frames: Seq::empty() }
    } else {
        let fed = b + chunks[0];
        let rest = run_model(drained(st, fed).0, drained(st, fed).1, chunks.skip(1));
        RunModel { state: rest.state, buf: rest.buf, frames: frames_from(st, fed) + rest.frames }
    }
}

/// A run from a quiescent position decodes exactly the frames of the
/// concatenated bytes and leaves exactly their drained residue: where the
/// chunk boundaries fall makes no difference.
pub proof fn lemma_run_model(st: StateModel, b: Seq<u8>, chunks: Seq<Seq<u8>>)
    requires
        drained(st, b) == (st, b),
    ensures
        run_model(st, b, chunks).frames == frames_from(st, b + concat_chunks(chunks)),
        (run_model(st, b, chunks).state, run_model(st, b, chunks).buf) == drained(
            st,
            b + concat_chunks(chunks),
        ),
    decreases chunks.len(),
{
    lemma_drained_fixed(st, b);
    if chunks.len() == 0 {
        assert(b + concat_chunks(chunks) =~= b);
        assert(frames_from(st, b) == Seq::<FrameModel>::empty());
        assert(run_model(st, b, chunks).frames =~= frames_from(st, b));
    } else {
        let fed = b + chunks[0];
        let (st2, b2) = drained(st, fed);
        lemma_drained_fixed(st, fed);
        lemma_run_model(st2, b2, chunks.skip(1));
        lemma_extend(st, fed, concat_chunks(chunks.skip(1)));
        assert(b + concat_chunks(chunks) =~= fed + concat_chunks(chunks.skip(1)));
    }
}

/// Chunk-boundary independence: two chunkings of the same bytes decode to
/// the same frames and leave the same residue.
pub proof fn lemma_chunk_boundary_independence(chunks: Seq<Seq<u8>>, regrouped: Seq<Seq<u8>>)
    requires
        concat_chunks(chunks) == concat_chunks(regrouped),
    ensures
        run_model(StateModel::AwaitingHeader, Seq::empty(), chunks).frames == run_model(
            StateModel::AwaitingHeader,
            Seq::empty(),
            regrouped,
        ).frames,
        run_model(StateModel::AwaitingHeader, Seq::empty(), chunks).buf == run_model(
            StateModel::AwaitingHeader,
            Seq::empty(),
            regrouped,
        ).buf,
{
    lemma_run_model(StateModel::AwaitingHeader, Seq::empty(), chunks);
    lemma_run_model(StateModel::AwaitingHeader, Seq::empty(), regrouped);
}

/// Popping a frame consumes its bytes: the remaining buffer is shorter by
/// the popped payload (and by the eight header bytes, when the header was
/// still unparsed).
pub proof fn lemma_pop_frame_len(st: StateModel, b: Seq<u8>)
    ensures
        match pop_frame(st, b) {
            Some((f, st2, b2)) => {
                &&& b2.len() + f.payload.len() <= b.len()
                &&& (st is AwaitingHeader ==> b2.len() + f.payload.len() + 8 == b.len())
                &&& (st matches StateModel::AwaitingBody { expected_len, .. } ==> f.payload.len()
                    == expected_len)
                &&& st2 is AwaitingHeader
            },
            None => true,
        },
    decreases b.len(), state_rank(st),
{
    match st {
        StateModel::AwaitingHeader => {
            if b.len() >= 8 {
                lemma_pop_frame_len(header_state(b), b.skip(8));
            }
        },
        StateModel::AwaitingBody { stream_id, expected_len } => {
        },
    }
}

/// A drained position is stuck: fewer than eight bytes buffered when a
/// header is awaited, fewer than the owed body bytes otherwise.
pub proof fn lemma_drained_stuck(st: StateModel, b: Seq<u8>)
    requires
        st matches StateModel::AwaitingBody { expected_len, .. } ==> expected_len >= 0,
    ensures
        drained(st, b).0 is AwaitingHeader ==> drained(st, b).1.len() < 8,
        drained(st, b).0 matches StateModel::AwaitingBody { expected_len, .. } ==> expected_len
            > drained(st, b).1.len(),
    decreases b.len(), state_rank(st),
{
    match st {
        StateModel::AwaitingHeader => {
            if b.len() >= 8 {
                lemma_drained_stuck(header_state(b), b.skip(8));
            }
        },
        StateModel::AwaitingBody { stream_id, expected_len } => {
            if 0 <= expected_len <= b.len() {
                lemma_drained_stuck(StateModel::AwaitingHeader, b.skip(expected_len));
            }
        },
    }
}

/// Decodes a complete chunk sequence: every frame its bytes hold, in order,
/// or the truncation error when the bytes end mid-frame.
///
/// This is the one-shot form of the decoder, for a chunk stream already
/// gathered; a caller holding a live stream drives [`TtyDecoder`] itself
/// the same way.
pub fn decode_chunks(chunks: &Vec<Vec<u8>>) -> (r: Result<Vec<TtyFrame>, DecodeError>)
    ensures
        r is Ok <==> drained(StateModel::AwaitingHeader, concat_chunks(chunks.deep_view())).1.len()
            == 0,
        r matches Ok(frames) ==> frames.deep_view() == frames_from(
            StateModel::AwaitingHeader,
            concat_chunks(chunks.deep_view()),
        ),
        r matches Err(e) ==> e == DecodeError::UnexpectedEof,
{
    let ghost all = chunks.deep_view();
    let mut dec = TtyDecoder::new();
    let mut out: Vec<TtyFrame> = Vec::new();
    let n = chunks.len();
    let mut i: usize = 0;
    proof {
        assert(all.take(0) =~= Seq::<Seq<u8>>::empty());
        assert(out.deep_view() =~= Seq::<FrameModel>::empty());
    }
    while i < n
        invariant
            i <= n,
            n == chunks@.len(),
            all == chunks.deep_view(),
            out.deep_view() == frames_from(
                StateModel::AwaitingHeader,
                concat_chunks(all.take(i as int)),
            ),
            (dec@.state, dec@.buf) == drained(
                StateModel::AwaitingHeader,
                concat_chunks(all.take(i as int)),
            ),
        decreases n - i,
    {
        let ghost st_q = dec@.state;
        let ghost b_q = dec@.buf;
        let ghost done = concat_chunks(all.take(i as int));
        dec.push_chunk(chunks[i].as_slice());
        proof {
            assert(all[i as int] == chunks@[i as int]@);
            lemma_concat_take_succ(all, i as int);
            lemma_drained_fixed(StateModel::AwaitingHeader, done);
            lemma_drained_stuck(StateModel::AwaitingHeader, done);
            lemma_extend(StateModel::AwaitingHeader, done, all[i as int]);
            assert(frames_from(StateModel::AwaitingHeader, done) + frames_from(st_q, dec@.buf)
                == frames_from(StateModel::AwaitingHeader, concat_chunks(all.take(i as int + 1))));
        }
        let ghost target = concat_chunks(all.take(i as int + 1));
        loop
            invariant
                out.deep_view() + frames_from(dec@.state, dec@.buf) == frames_from(
                    StateModel::AwaitingHeader,
                    target,
                ),
                drained(dec@.state, dec@.buf) == drained(StateModel::AwaitingHeader, target),
                dec@.state matches StateModel::AwaitingBody { expected_len, .. } ==> expected_len
                    >= 1,
            ensures
                out.deep_view() == frames_from(StateModel::AwaitingHeader, target),
                (dec@.state, dec@.buf) == drained(StateModel::AwaitingHeader, target),
            decreases dec@.buf.len(),
        {
            let ghost st_p = dec@.state;
            let ghost b_p = dec@.buf;
            proof {
                lemma_pop_frame_frames(st_p, b_p);
                lemma_pop_frame_len(st_p, b_p);
            }
            match dec.next_frame() {
                Some(f) => {
                    let ghost prior = out.deep_view();
                    proof {
                        assert(frames_from(st_p, b_p) == seq![f@] + frames_from(
                            dec@.state,
                            dec@.buf,
                        ));
                        assert(prior.push(f@) + frames_from(dec@.state, dec@.buf) =~= prior + (
                        seq![f@] + frames_from(dec@.state, dec@.buf)));
                    }
                    out.push(f);
                    proof {
                        assert(out.deep_view() =~= prior.push(out@[out@.len() - 1]@));
                    }
                },
                None => {
                    proof {
                        lemma_drained_fixed(st_p, b_p);
                        assert(frames_from(dec@.state, dec@.buf) == Seq::<FrameModel>::empty());
                        assert(out.deep_view() + Seq::<FrameModel>::empty() =~= out.deep_view());
                        lemma_drained_stuck(st_p, b_p);
                    }
                    break ;
                },
            }
        }
        i = i + 1;
    }
    proof {
        assert(all.take(n as int) =~= all);
    }
    match dec.finish() {
        Ok(_) => Ok(out),
        Err(e) => Err(e),
    }
}

/// Encodes one frame in the wire format: stream tag, three zero reserved
/// bytes, big-endian payload length, then the payload.
pub fn encode_frame(stream_id: u8, payload: &[u8]) -> (r: Vec<u8>)
    requires
        payload@.len() <= u32::MAX,
    ensures
        r@ == encode_frame_spec(stream_id, payload@),
{
    let n = payload.len() as u32;
    let mut r: Vec<u8> = Vec::new();
    r.push(stream_id);
    r.push(0);
    r.push(0);
    r.push(0);
    r.push((n / 0x100_0000) as u8);
    r.push(((n / 0x1_0000) % 0x100) as u8);
    r.push(((n / 0x100) % 0x100) as u8);
    r.push((n % 0x100) as u8);
    proof {
        assert(n / 0x100_0000 < 0x100 && (n / 0x1_0000) % 0x100 < 0x100 && (n / 0x100) % 0x100
            < 0x100 && n % 0x100 < 0x100) by (bit_vector);
        assert((n / 0x100_0000) % 0x100 == n / 0x100_0000) by (bit_vector);
        assert(r@ =~= seq![stream_id, 0u8, 0u8, 0u8] + be32_bytes(payload@.len() as int));
    }
    let ghost header = r@;
    let m = payload.len();
    let mut i: usize = 0;
    while i < m
        invariant
            i <= m,
            m == payload@.len(),
            r@ == header + payload@.take(i as int),
        decreases m - i,
    {
        r.push(payload[i]);
        i = i + 1;
        proof {
            assert(payload@.take(i as int) == payload@.take(i as int - 1).push(
                payload@[i as int - 1],
            ));
        }
    }
    proof {
        assert(payload@.take(m as int) =~= payload@);
        assert(header + payload@ =~= encode_frame_spec(stream_id, payload@));
    }
    r
}

/// The big-endian 32-bit value of four bytes.
fn be32_exec(b0: u8, b1: u8, b2: u8, b3: u8) -> (r: u32)
    ensures
        r == be32(seq![b0, b1, b2, b3]),
{
    proof {
        let s = seq![b0, b1, b2, b3];
        assert(be32(s) == b0 * 0x100_0000 + b1 * 0x1_0000 + b2 * 0x100 + b3);
    }
    (b0 as u32) * 0x100_0000 + (b1 as u32) * 0x1_0000 + (b2 as u32) * 0x100 + (b3 as u32)
}

} // verus!

