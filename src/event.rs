use vstd::prelude::*;

verus! {

/// Tag that opens an `Output` envelope.
pub const OUTPUT_TAG: u32 = 0;

/// Tag of a `RequestOutput` envelope.
pub const REQUEST_TAG: u32 = 1;

/// One message between nodes. Samples are IEEE-754 bit patterns.
pub enum Event {
    Output(Vec<u32>),
    RequestOutput,
}

/// The mathematical value of an event.
pub enum Message {
    Output(Seq<u32>),
    RequestOutput,
}

impl Event {
    pub open spec fn view(&self) -> Message {
        match self {
            Event::Output(v) => Message::Output(v@),
            Event::RequestOutput => Message::RequestOutput,
        }
    }
}

/// Why a byte sequence is not an envelope.
#[derive(Debug, PartialEq, Eq, Structural)]
pub enum ProtocolError {
    /// The bytes end before the envelope does.
    Truncated,
    /// The tag names neither message kind.
    UnknownTag,
}

/// The four little-endian bytes of `x`.
pub open spec fn le32(x: u32) -> Seq<u8> {
    seq![(x & 0xff) as u8, ((x >> 8u32) & 0xff) as u8, ((x >> 16u32) & 0xff) as u8, ((x >> 24u32) & 0xff) as u8]
}

/// The eight little-endian bytes of `x`.
pub open spec fn le64(x: u64) -> Seq<u8> {
    seq![
        (x & 0xff) as u8, ((x >> 8u64) & 0xff) as u8, ((x >> 16u64) & 0xff) as u8, ((x >> 24u64) & 0xff) as u8,
        ((x >> 32u64) & 0xff) as u8, ((x >> 40u64) & 0xff) as u8, ((x >> 48u64) & 0xff) as u8, ((x >> 56u64) & 0xff) as u8,
    ]
}

/// The samples one after another, four little-endian bytes each.
pub open spec fn samples_bytes(s: Seq<u32>) -> Seq<u8>
    decreases s.len(),
{
    if s.len() == 0 {
        Seq::empty()
    } else {
        samples_bytes(s.drop_last()) + le32(s.last())
    }
}

/// A counted record of samples: the count as eight little-endian bytes, then the samples.
pub open spec fn sample_record(s: Seq<u32>) -> Seq<u8> {
    le64(s.len() as u64) + samples_bytes(s)
}

/// The envelope of a message on the wire.
pub open spec fn envelope(m: Message) -> Seq<u8> {
    match m {
        Message::Output(s) => le32(OUTPUT_TAG) + sample_record(s),
        Message::RequestOutput => le32(REQUEST_TAG),
    }
}

/// The little-endian `u32` at byte `i`.
pub open spec fn u32_at(b: Seq<u8>, i: int) -> u32 {
    (b[i] as u32) | ((b[i + 1] as u32) << 8u32) | ((b[i + 2] as u32) << 16u32) | ((b[i + 3] as u32) << 24u32)
}

/// The little-endian `u64` at byte `i`.
pub open spec fn u64_at(b: Seq<u8>, i: int) -> u64 {
    (b[i] as u64) | ((b[i + 1] as u64) << 8u64) | ((b[i + 2] as u64) << 16u64) | ((b[i + 3] as u64) << 24u64)
        | ((b[i + 4] as u64) << 32u64) | ((b[i + 5] as u64) << 40u64) | ((b[i + 6] as u64) << 48u64)
        | ((b[i + 7] as u64) << 56u64)
}

/// What the leading bytes of `b` hold: a message and the number of bytes it
/// takes, or why no message can be read there.
pub open spec fn parse(b: Seq<u8>) -> Result<(Message, nat), ProtocolError> {
    if b.len() < 4 {
        Err(ProtocolError::Truncated)
    } else if u32_at(b, 0) == REQUEST_TAG {
        Ok((Message::RequestOutput, 4))
    } else if u32_at(b, 0) != OUTPUT_TAG {
        Err(ProtocolError::UnknownTag)
    } else if b.len() < 12 {
        Err(ProtocolError::Truncated)
    } else if (b.len() - 12) / 4 < u64_at(b, 4) {
        Err(ProtocolError::Truncated)
    } else {
        let n = u64_at(b, 4) as nat;
        Ok((Message::Output(Seq::new(n, |k: int| u32_at(b, 12 + 4 * k))), 12 + 4 * n))
    }
}

proof fn lemma_u32_bytes(x: u32)
    ensures
        u32_at(le32(x), 0) == x,
{
    let b = le32(x);
    assert(b[0] == (x & 0xff) as u8);
    assert(b[1] == ((x >> 8u32) & 0xff) as u8);
    assert(b[2] == ((x >> 16u32) & 0xff) as u8);
    assert(b[3] == ((x >> 24u32) & 0xff) as u8);
    assert((((x & 0xff) as u8) as u32) | (((((x >> 8u32) & 0xff) as u8) as u32) << 8u32)
        | (((((x >> 16u32) & 0xff) as u8) as u32) << 16u32) | (((((x >> 24u32) & 0xff) as u8) as u32)
        << 24u32) == x) by (bit_vector);
}


proof fn lemma_u64_bytes(x: u64)
    ensures
        u64_at(le64(x), 0) == x,
{
    let b = le64(x);
    assert(b[0] == (x & 0xff) as u8);
    assert(b[1] == ((x >> 8u64) & 0xff) as u8);
    assert(b[2] == ((x >> 16u64) & 0xff) as u8);
    assert(b[3] == ((x >> 24u64) & 0xff) as u8);
    assert(b[4] == ((x >> 32u64) & 0xff) as u8);
    assert(b[5] == ((x >> 40u64) & 0xff) as u8);
    assert(b[6] == ((x >> 48u64) & 0xff) as u8);
    assert(b[7] == ((x >> 56u64) & 0xff) as u8);
    assert((((x & 0xff) as u8) as u64) | (((((x >> 8u64) & 0xff) as u8) as u64) << 8u64)
        | (((((x >> 16u64) & 0xff) as u8) as u64) << 16u64) | (((((x >> 24u64) & 0xff) as u8) as u64)
        << 24u64) | (((((x >> 32u64) & 0xff) as u8) as u64) << 32u64) | (((((x >> 40u64) & 0xff) as u8)
        as u64) << 40u64) | (((((x >> 48u64) & 0xff) as u8) as u64) << 48u64) | (((((x >> 56u64) & 0xff)
        as u8) as u64) << 56u64) == x) by (bit_vector);
}

proof fn lemma_samples_bytes(s: Seq<u32>)
    ensures
        samples_bytes(s).len() == 4 * s.len(),
        forall|i: int|
            0 <= i < 4 * s.len() ==> #[trigger] samples_bytes(s)[i] == le32(s[i / 4])[i % 4],
    decreases s.len(),
{
    if s.len() > 0 {
        let t = s.drop_last();
        lemma_samples_bytes(t);
        assert forall|i: int| 0 <= i < 4 * s.len() implies #[trigger] samples_bytes(s)[i] == le32(
            s[i / 4],
        )[i % 4] by {
            if i < 4 * t.len() {
                assert(samples_bytes(t)[i] == le32(t[i / 4])[i % 4]);
            }
        }
    }
}

/// Decoding the envelope of any message, whatever bytes follow it, gives back
/// that message, sample for sample, and the length of its envelope.
pub proof fn lemma_round_trip(m: Message, rest: Seq<u8>)
    requires
        m matches Message::Output(s) ==> s.len() <= u64::MAX,
    ensures
        parse(envelope(m) + rest) == Ok::<(Message, nat), ProtocolError>((m, envelope(m).len())),
{
    let b = envelope(m) + rest;
    lemma_u32_bytes(OUTPUT_TAG);
    lemma_u32_bytes(REQUEST_TAG);
    match m {
        Message::RequestOutput => {
            assert(b.subrange(0, 4) =~= le32(REQUEST_TAG));
            assert(u32_at(b, 0) == u32_at(le32(REQUEST_TAG), 0));
        },
        Message::Output(s) => {
            let n = s.len();
            lemma_samples_bytes(s);
            lemma_u64_bytes(n as u64);
            let body = samples_bytes(s);
            assert(b.len() == 12 + 4 * n + rest.len());
            assert forall|i: int| 0 <= i < 4 implies #[trigger] b[i] == le32(OUTPUT_TAG)[i] by {}
            assert(u32_at(b, 0) == u32_at(le32(OUTPUT_TAG), 0));
            assert forall|i: int| 0 <= i < 8 implies #[trigger] b[4 + i] == le64(n as u64)[i] by {}
            assert(u64_at(b, 4) == u64_at(le64(n as u64), 0));
            assert((b.len() - 12) / 4 >= n);
            let got = Seq::new(n, |k: int| u32_at(b, 12 + 4 * k));
            assert forall|k: int| 0 <= k < n implies #[trigger] got[k] == s[k] by {
                assert forall|j: int| 0 <= j < 4 implies #[trigger] b[12 + 4 * k + j] == le32(s[k])[j] by {
                    let i = 4 * k + j;
                    assert(i / 4 == k && i % 4 == j);
                    assert(body[i] == le32(s[i / 4])[i % 4]);
                    assert(b[12 + i] == body[i]);
                }
                lemma_u32_bytes(s[k]);
                assert(b[12 + 4 * k] == le32(s[k])[0]);
                assert(b[12 + 4 * k + 1] == le32(s[k])[1]);
                assert(b[12 + 4 * k + 2] == le32(s[k])[2]);
                assert(b[12 + 4 * k + 3] == le32(s[k])[3]);
            }
            assert(got =~= s);
        },
    }
}

fn push_u32(out: &mut Vec<u8>, x: u32)
    ensures
        final(out)@ == old(out)@ + le32(x),
{
    out.push((x & 0xff) as u8);
    out.push(((x >> 8u32) & 0xff) as u8);
    out.push(((x >> 16u32) & 0xff) as u8);
    out.push(((x >> 24u32) & 0xff) as u8);
    assert(final(out)@ =~= old(out)@ + le32(x));
}

fn push_u64(out: &mut Vec<u8>, x: u64)
    ensures
        final(out)@ == old(out)@ + le64(x),
{
    out.push((x & 0xff) as u8);
    out.push(((x >> 8u64) & 0xff) as u8);
    out.push(((x >> 16u64) & 0xff) as u8);
    out.push(((x >> 24u64) & 0xff) as u8);
    out.push(((x >> 32u64) & 0xff) as u8);
    out.push(((x >> 40u64) & 0xff) as u8);
    out.push(((x >> 48u64) & 0xff) as u8);
    out.push(((x >> 56u64) & 0xff) as u8);
    assert(final(out)@ =~= old(out)@ + le64(x));
}

/// The envelope that carries `samples` as an `Output` message.
pub fn encode_output(samples: &Vec<u32>) -> (r: Vec<u8>)
    ensures
        r@ == envelope(Message::Output(samples@)),
{
    let mut out: Vec<u8> = Vec::new();
    push_u32(&mut out, OUTPUT_TAG);
    push_u64(&mut out, samples.len() as u64);
    let mut i: usize = 0;
    while i < samples.len()
        invariant
            i <= samples.len(),
            out@ == le32(OUTPUT_TAG) + le64(samples@.len() as u64) + samples_bytes(samples@.take(i as int)),
        decreases samples.len() - i,
    {
        push_u32(&mut out, samples[i]);
        assert(samples@.take(i + 1).drop_last() =~= samples@.take(i as int));
        i = i + 1;
        assert(out@ =~= le32(OUTPUT_TAG) + le64(samples@.len() as u64) + samples_bytes(samples@.take(i as int)));
    }
    assert(samples@.take(i as int) =~= samples@);
    out
}

/// The envelope of `e`.
pub fn encode(e: &Event) -> (r: Vec<u8>)
    ensures
        r@ == envelope(e@),
{
    match e {
        Event::Output(v) => encode_output(v),
        Event::RequestOutput => {
            let mut out: Vec<u8> = Vec::new();
            push_u32(&mut out, REQUEST_TAG);
            assert(out@ =~= le32(REQUEST_TAG));
            out
        },
    }
}

fn read_u32(b: &Vec<u8>, i: usize) -> (r: u32)
    requires
        i + 4 <= b.len(),
    ensures
        r == u32_at(b@, i as int),
{
    (b[i] as u32) | ((b[i + 1] as u32) << 8u32) | ((b[i + 2] as u32) << 16u32) | ((b[i + 3] as u32) << 24u32)
}

fn read_u64(b: &Vec<u8>, i: usize) -> (r: u64)
    requires
        i + 8 <= b.len(),
    ensures
        r == u64_at(b@, i as int),
{
    (b[i] as u64) | ((b[i + 1] as u64) << 8u64) | ((b[i + 2] as u64) << 16u64) | ((b[i + 3] as u64) << 24u64)
        | ((b[i + 4] as u64) << 32u64) | ((b[i + 5] as u64) << 40u64) | ((b[i + 6] as u64) << 48u64)
        | ((b[i + 7] as u64) << 56u64)
}

/// Reads the message at the start of `b`, with the number of bytes that its
/// envelope takes; bytes after it are left alone.
pub fn decode(b: &Vec<u8>) -> (r: Result<(Event, usize), ProtocolError>)
    ensures
        match r {
            Ok((e, n)) => parse(b@) == Ok::<(Message, nat), ProtocolError>((e@, n as nat)),
            Err(x) => parse(b@) == Err::<(Message, nat), ProtocolError>(x),
        },
{
    if b.len() < 4 {
        return Err(ProtocolError::Truncated);
    }
    let tag = read_u32(b, 0);
    if tag == REQUEST_TAG {
        return Ok((Event::RequestOutput, 4));
    }
    if tag != OUTPUT_TAG {
        return Err(ProtocolError::UnknownTag);
    }
    if b.len() < 12 {
        return Err(ProtocolError::Truncated);
    }
    let count = read_u64(b, 4);
    if (((b.len() - 12) / 4) as u64) < count {
        return Err(ProtocolError::Truncated);
    }
    let n = count as usize;
    let mut samples: Vec<u32> = Vec::new();
    let mut k: usize = 0;
    while k < n
        invariant
            n as int == count as int,
            n <= (b.len() - 12) / 4,
            b.len() >= 12,
            k <= n,
            samples@ =~= Seq::new(k as nat, |j: int| u32_at(b@, 12 + 4 * j)),
        decreases n - k,
    {
        let x = read_u32(b, 12 + 4 * k);
        samples.push(x);
        k = k + 1;
    }
    let ghost m = Message::Output(Seq::new(n as nat, |j: int| u32_at(b@, 12 + 4 * j)));
    assert(Event::Output(samples)@ == m);
    Ok((Event::Output(samples), 12 + 4 * n))
}

} // verus!
