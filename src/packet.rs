//! Wire format of the voice stream: each datagram is the concatenation of the
//! samples of one captured frame, four native-endian bytes per sample, with no
//! header. A received payload is cut back to its last complete sample.
use vstd::prelude::*;

verus! {

/// Bytes in one sample on the wire.
pub const SAMPLE_BYTES: usize = 4;

/// Size of the receive buffer; a longer datagram is truncated to it.
pub const RECV_BUFFER_BYTES: usize = 4096;

/// One audio sample, held as the four bytes of its native-endian encoding.
/// The all-zero sample is silence.
#[derive(Clone, Copy, Debug, PartialEq, Eq, Structural)]
pub struct Sample {
    pub b0: u8,
    pub b1: u8,
    pub b2: u8,
    pub b3: u8,
}

impl Sample {
    pub open spec fn bytes(self) -> Seq<u8> {
        seq![self.b0, self.b1, self.b2, self.b3]
    }

    pub open spec fn is_silence(self) -> bool {
        self.b0 == 0 && self.b1 == 0 && self.b2 == 0 && self.b3 == 0
    }

    /// The zero-valued sample.
    pub fn silence() -> (r: Sample)
        ensures
            r.is_silence(),
    {
        Sample { b0: 0, b1: 0, b2: 0, b3: 0 }
    }
}

/// The sample held by bytes `4 * g .. 4 * g + 4` of `b`.
pub open spec fn group_at(b: Seq<u8>, g: int) -> Sample {
    Sample { b0: b[4 * g], b1: b[4 * g + 1], b2: b[4 * g + 2], b3: b[4 * g + 3] }
}

/// The bytes of a frame: every sample's four bytes, in order.
pub open spec fn frame_bytes(s: Seq<Sample>) -> Seq<u8> {
    Seq::new(4 * s.len(), |j: int| s[j / 4].bytes()[j % 4])
}

/// The samples of a payload: one per complete group of four bytes; a
/// trailing partial group is dropped.
pub open spec fn frame_of(b: Seq<u8>) -> Seq<Sample> {
    Seq::new(b.len() / 4, |g: int| group_at(b, g))
}

/// The payload that a receiver's buffer holds after a datagram of `b` arrives.
pub open spec fn received(b: Seq<u8>) -> Seq<u8> {
    if b.len() <= RECV_BUFFER_BYTES {
        b
    } else {
        b.take(RECV_BUFFER_BYTES as int)
    }
}

/// Serialises a frame for sending: four bytes per sample.
pub fn encode_frame(samples: &Vec<Sample>) -> (r: Vec<u8>)
    requires
        4 * samples@.len() <= usize::MAX,
    ensures
        r@ == frame_bytes(samples@),
{
    let mut out: Vec<u8> = Vec::with_capacity(samples.len() * SAMPLE_BYTES);
    let mut i: usize = 0;
    while i < samples.len()
        invariant
            i <= samples@.len(),
            4 * samples@.len() <= usize::MAX,
            out@.len() == 4 * i,
            forall|j: int| 0 <= j < 4 * i ==> #[trigger] out@[j] == samples@[j / 4].bytes()[j % 4],
        decreases samples@.len() - i,
    {
        let s = samples[i];
        out.push(s.b0);
        out.push(s.b1);
        out.push(s.b2);
        out.push(s.b3);
        i = i + 1;
    }
    assert(out@ =~= frame_bytes(samples@));
    out
}

/// Reads the samples of the first `len` bytes of `buf`; bytes after the last
/// complete group of four are ignored.
pub fn decode_payload(buf: &[u8], len: usize) -> (r: Vec<Sample>)
    requires
        len <= buf@.len(),
    ensures
        r@ == frame_of(buf@.take(len as int)),
{
    let groups: usize = len / SAMPLE_BYTES;
    let mut out: Vec<Sample> = Vec::with_capacity(groups);
    let mut g: usize = 0;
    while g < groups
        invariant
            groups == len / 4,
            len <= buf@.len(),
            g <= groups,
            out@.len() == g,
            forall|k: int| 0 <= k < g ==> #[trigger] out@[k] == group_at(buf@.take(len as int), k),
        decreases groups - g,
    {
        let at: usize = g * SAMPLE_BYTES;
        let s = Sample { b0: buf[at], b1: buf[at + 1], b2: buf[at + 2], b3: buf[at + 3] };
        out.push(s);
        g = g + 1;
    }
    assert(out@ =~= frame_of(buf@.take(len as int)));
    out
}

/// Decoding the bytes of a frame gives back the frame.
pub proof fn lemma_decode_encode(s: Seq<Sample>)
    ensures
        frame_of(frame_bytes(s)) == s,
{
    let b = frame_bytes(s);
    assert(b.len() / 4 == s.len());
    assert forall|g: int| 0 <= g < s.len() implies #[trigger] group_at(b, g) == s[g] by {
        assert((4 * g) / 4 == g && (4 * g) % 4 == 0);
        assert((4 * g + 1) / 4 == g && (4 * g + 1) % 4 == 1);
        assert((4 * g + 2) / 4 == g && (4 * g + 2) % 4 == 2);
        assert((4 * g + 3) / 4 == g && (4 * g + 3) % 4 == 3);
    }
    assert(frame_of(b) =~= s);
}

/// A frame sent as one datagram and read through the receive buffer arrives
/// byte for byte, cut to the samples that fit the buffer: all of a frame of at
/// most 1024 samples.
pub proof fn lemma_frame_survives_transport(s: Seq<Sample>)
    ensures
        frame_of(received(frame_bytes(s))) == s.take(
            if s.len() <= RECV_BUFFER_BYTES / 4 { s.len() as int } else { (RECV_BUFFER_BYTES / 4) as int },
        ),
        s.len() <= RECV_BUFFER_BYTES / 4 ==> frame_of(received(frame_bytes(s))) == s,
{
    lemma_decode_encode(s);
    if s.len() > RECV_BUFFER_BYTES / 4 {
        let t = s.take((RECV_BUFFER_BYTES / 4) as int);
        lemma_decode_encode(t);
        assert(received(frame_bytes(s)) =~= frame_bytes(t));
    } else {
        assert(s.take(s.len() as int) =~= s);
    }
}

} // verus!
