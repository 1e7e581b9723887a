//! The ring of microphone bytes between the consumer's socket and the capture stream.
use vstd::prelude::*;

verus! {

/// Room for one second of 48 kHz stereo with 16-bit samples.
pub const MIC_RING_BYTES: usize = 192_000;

/// The last `n` elements of `s`, or all of them if there are fewer.
pub open spec fn latest(s: Seq<u8>, n: int) -> Seq<u8> {
    if s.len() <= n {
        s
    } else {
        s.subrange(s.len() - n, s.len() as int)
    }
}

/// `n` rounded down to a whole number of frames.
pub open spec fn whole_frames(n: int, stride: int) -> int {
    n / stride * stride
}

/// A ring that keeps the latest bytes written to it.
pub struct ByteRing {
    pub bytes: Vec<u8>,
    /// Where the next byte is written.
    pub head: usize,
    /// Where the oldest byte is.
    pub tail: usize,
    /// How many bytes are held.
    pub fill: usize,
}

impl View for ByteRing {
    type V = Seq<u8>;

    /// The bytes that are held, oldest first.
    open spec fn view(&self) -> Seq<u8> {
        Seq::new(self.fill as nat, |i: int| self.bytes@[wrap(self.tail + i, self.bytes@.len() as int)])
    }
}

/// `pos` brought back into a ring of `cap` bytes, for a position less than two rounds along.
pub open spec fn wrap(pos: int, cap: int) -> int {
    if pos >= cap {
        pos - cap
    } else {
        pos
    }
}

impl ByteRing {
    /// How many bytes the ring has room for.
    pub open spec fn cap(&self) -> int {
        self.bytes@.len() as int
    }

    /// What holds of every ring.
    pub open spec fn wf(&self) -> bool {
        &&& self.fill <= self.cap()
        &&& if self.cap() == 0 {
            self.head == 0 && self.tail == 0
        } else {
            &&& self.tail < self.cap()
            &&& self.head == wrap(self.tail + self.fill, self.cap())
        }
    }

    /// A ring of `size` bytes that holds nothing.
    pub fn new(size: usize) -> (ring: ByteRing)
        ensures
            ring.wf(),
            ring.cap() == size,
            ring@ == Seq::<u8>::empty(),
    {
        let ring = ByteRing { bytes: vec![0u8; size], head: 0, tail: 0, fill: 0 };
        assert(ring@ =~= Seq::<u8>::empty());
        ring
    }

    /// Forgets everything that is held.
    pub fn reset(&mut self)
        requires
            old(self).wf(),
        ensures
            final(self).wf(),
            final(self).cap() == old(self).cap(),
            final(self)@ == Seq::<u8>::empty(),
    {
        self.head = 0;
        self.tail = 0;
        self.fill = 0;
        assert(self@ =~= Seq::<u8>::empty());
    }

    /// Forgets the `n` oldest bytes.
    fn skip_oldest(&mut self, n: usize)
        requires
            old(self).wf(),
            old(self).cap() > 0,
            n <= old(self).fill,
        ensures
            final(self).wf(),
            final(self).cap() == old(self).cap(),
            final(self).head == old(self).head,
            final(self).bytes == old(self).bytes,
            final(self).fill == old(self).fill - n,
            final(self)@ == old(self)@.skip(n as int),
    {
        let room: usize = self.bytes.len() - self.tail;
        self.tail = if n >= room {
            n - room
        } else {
            self.tail + n
        };
        self.fill = self.fill - n;
        assert(self@ =~= old(self)@.skip(n as int));
    }

    /// Appends `input`, for which there is room.
    fn append(&mut self, input: &[u8])
        requires
            old(self).wf(),
            old(self).cap() > 0,
            old(self).fill + input@.len() <= old(self).cap(),
        ensures
            final(self).wf(),
            final(self).cap() == old(self).cap(),
            final(self)@ == old(self)@ + input@,
    {
        let cap: usize = self.bytes.len();
        let mut i: usize = 0;
        assert(self@ =~= old(self)@ + input@.take(0));
        while i < input.len()
            invariant
                i <= input@.len(),
                cap == self.cap(),
                cap == old(self).cap(),
                cap > 0,
                self.wf(),
                old(self).fill + input@.len() <= cap,
                self.fill == old(self).fill + i,
                self@ == old(self)@ + input@.take(i as int),
            decreases input@.len() - i,
        {
            let ghost before = *self;
            let at = self.head;
            self.bytes[at] = input[i];
            self.head = if at + 1 == cap {
                0
            } else {
                at + 1
            };
            self.fill = self.fill + 1;
            proof {
                assert forall|j: int| 0 <= j < before.fill implies self@[j] == before@[j] by {
                    assert(wrap(self.tail + j, cap as int) != at);
                }
                assert(self@[before.fill as int] == input@[i as int]);
                assert(input@.take(i + 1) =~= input@.take(i as int).push(input@[i as int]));
                assert(self@ =~= before@.push(input@[i as int]));
                assert(self@ =~= old(self)@ + input@.take(i + 1));
            }
            i += 1;
        }
        assert(input@.take(i as int) =~= input@);
    }

    /// Appends `input`. When there is not room for everything, the oldest bytes go.
    pub fn write(&mut self, input: &[u8])
        requires
            old(self).wf(),
        ensures
            final(self).wf(),
            final(self).cap() == old(self).cap(),
            final(self)@ == latest(old(self)@ + input@, old(self).cap()),
    {
        let cap: usize = self.bytes.len();
        if cap == 0 {
            assert(self@ =~= latest(old(self)@ + input@, 0));
            return ;
        }
        self.write_latest(input, cap);
    }

    /// Appends `input`, and lets the oldest bytes go until at most `limit` are held.
    fn write_latest(&mut self, input: &[u8], limit: usize)
        requires
            old(self).wf(),
            0 < limit <= old(self).cap(),
        ensures
            final(self).wf(),
            final(self).cap() == old(self).cap(),
            final(self)@ == latest(old(self)@ + input@, limit as int),
    {
        let start: usize = if input.len() > limit {
            input.len() - limit
        } else {
            0
        };
        let kept: &[u8] = vstd::slice::slice_subrange(input, start, input.len());
        let room: usize = limit - kept.len();
        let ghost before = self@;
        if self.fill > room {
            let excess: usize = self.fill - room;
            self.skip_oldest(excess);
        }
        let ghost rest = self@;
        self.append(kept);
        proof {
            assert(self@ =~= rest + kept@);
            assert(self@ =~= latest(before + input@, limit as int));
        }
    }

    /// Takes the oldest bytes, as many as are held and fit `output`, and tells how many. What
    /// follows them in `output` stays as it was.
    pub fn read(&mut self, output: &mut [u8]) -> (got: usize)
        requires
            old(self).wf(),
        ensures
            final(self).wf(),
            final(self).cap() == old(self).cap(),
            got == (if old(output)@.len() < old(self)@.len() {
                old(output)@.len()
            } else {
                old(self)@.len()
            }),
            final(output)@ == old(self)@.take(got as int) + old(output)@.skip(got as int),
            final(self)@ == old(self)@.skip(got as int),
    {
        if self.bytes.len() == 0 {
            assert(output@ =~= self@.take(0) + output@.skip(0));
            assert(self@ =~= self@.skip(0));
            return 0;
        }
        let cap: usize = self.bytes.len();
        let got: usize = if output.len() < self.fill {
            output.len()
        } else {
            self.fill
        };
        let mut i: usize = 0;
        while i < got
            invariant
                i <= got,
                got <= self.fill,
                got <= output@.len(),
                output@.len() == old(output)@.len(),
                *self == *old(self),
                self.wf(),
                cap == self.cap(),
                cap > 0,
                forall|j: int| 0 <= j < i ==> output@[j] == self@[j],
                forall|j: int| i <= j < output@.len() ==> output@[j] == old(output)@[j],
            decreases got - i,
        {
            let room: usize = cap - self.tail;
            let at: usize = if i >= room {
                i - room
            } else {
                self.tail + i
            };
            output[i] = self.bytes[at];
            i += 1;
        }
        assert(output@ =~= self@.take(got as int) + old(output)@.skip(got as int));
        self.skip_oldest(got);
        got
    }
}

/// Writes microphone samples, a whole number of frames of `stride` bytes; anything else is
/// dropped. The ring then holds the latest bytes, no more than whole frames fit in it.
pub fn write_pcm_payload(ring: &mut ByteRing, stride: usize, payload: &[u8])
    requires
        old(ring).wf(),
    ensures
        final(ring).wf(),
        final(ring).cap() == old(ring).cap(),
        final(ring)@ == (if stride == 0 || payload@.len() % stride as nat != 0 || whole_frames(
            old(ring).cap(),
            stride as int,
        ) == 0 {
            old(ring)@
        } else {
            latest(old(ring)@ + payload@, whole_frames(old(ring).cap(), stride as int))
        }),
{
    if stride == 0 || payload.len() % stride != 0 {
        return ;
    }
    let size: usize = ring.bytes.len();
    assert(0 <= size as int / stride as int * stride as int <= size) by (nonlinear_arith)
        requires
            stride > 0,
            size >= 0,
    ;
    let capacity: usize = size / stride * stride;
    if capacity == 0 {
        return ;
    }
    ring.write_latest(payload, capacity);
}

/// The ring and the frame size of the samples in it. Both change together.
pub struct CaptureBuffer {
    pub ring: ByteRing,
    /// Bytes in a frame.
    pub stride: u32,
}

/// The samples that are held, oldest first, and the size of their frames.
pub struct Captured {
    pub held: Seq<u8>,
    pub stride: u32,
}

impl View for CaptureBuffer {
    type V = Captured;

    open spec fn view(&self) -> Captured {
        Captured { held: self.ring@, stride: self.stride }
    }
}

/// How the capture stream describes the samples that it was given.
#[derive(Debug, Clone, Copy, PartialEq, Eq, Structural)]
pub struct Chunk {
    pub offset: u32,
    pub stride: i32,
    pub size: u32,
}

/// The smaller of two numbers.
pub open spec fn min(a: int, b: int) -> int {
    if a < b {
        a
    } else {
        b
    }
}

/// How many frames a buffer of `len` bytes takes: all that fit, or as many as were asked for.
pub open spec fn capture_frames(len: int, stride: int, requested: int) -> int {
    if requested == 0 {
        len / stride
    } else {
        min(len / stride, requested)
    }
}

/// The samples that are left, what a stream is given, and how it is told of that: as many frames as
/// it takes, with silence where there are no samples.
pub open spec fn captured_into(b: Captured, output: Seq<u8>, requested: u64) -> (
    Seq<u8>,
    Seq<u8>,
    Option<Chunk>,
) {
    if b.stride == 0 {
        (b.held, output, None)
    } else {
        let stride = b.stride as int;
        let size = capture_frames(output.len() as int, stride, requested as int) * stride;
        let got = min(size, b.held.len() as int);
        (
            b.held.skip(got),
            b.held.take(got) + Seq::new((size - got) as nat, |i: int| 0u8) + output.skip(size),
            Some(
                Chunk {
                    offset: 0,
                    stride: min(stride, i32::MAX as int) as i32,
                    size: min(size, u32::MAX as int) as u32,
                },
            ),
        )
    }
}

impl CaptureBuffer {
    /// What holds of every capture buffer.
    pub open spec fn wf(&self) -> bool {
        self.ring.wf()
    }

    /// The ring holds whole frames.
    pub open spec fn framed(&self) -> bool {
        self.stride > 0 && self.ring@.len() % self.stride as nat == 0
    }

    /// An empty buffer for mono 16-bit samples.
    pub fn new() -> (buffer: CaptureBuffer)
        ensures
            buffer.wf(),
            buffer.framed(),
            buffer.ring.cap() == MIC_RING_BYTES,
            buffer.ring@ == Seq::<u8>::empty(),
            buffer.stride == 2,
    {
        CaptureBuffer { ring: ByteRing::new(MIC_RING_BYTES), stride: 2 }
    }

    /// Forgets the samples; the frame size stays.
    pub fn reset(&mut self)
        requires
            old(self).wf(),
        ensures
            final(self).wf(),
            old(self).stride > 0 ==> final(self).framed(),
            final(self).ring.cap() == old(self).ring.cap(),
            final(self).ring@ == Seq::<u8>::empty(),
            final(self).stride == old(self).stride,
    {
        self.ring.reset();
    }

    /// Starts over with frames of `stride` bytes.
    pub fn restart(&mut self, stride: u32)
        requires
            old(self).wf(),
        ensures
            final(self).wf(),
            stride > 0 ==> final(self).framed(),
            final(self).ring.cap() == old(self).ring.cap(),
            final(self).ring@ == Seq::<u8>::empty(),
            final(self).stride == stride,
    {
        self.stride = stride;
        self.ring.reset();
    }

    /// Takes in samples from the consumer.
    pub fn accept(&mut self, payload: &[u8])
        requires
            old(self).wf(),
        ensures
            final(self).wf(),
            final(self).ring.cap() == old(self).ring.cap(),
            final(self).stride == old(self).stride,
            final(self).ring@ == (if old(self).stride == 0 || payload@.len()
                % old(self).stride as nat != 0 || whole_frames(
                old(self).ring.cap(),
                old(self).stride as int,
            ) == 0 {
                old(self).ring@
            } else {
                latest(
                    old(self).ring@ + payload@,
                    whole_frames(old(self).ring.cap(), old(self).stride as int),
                )
            }),
    {
        write_pcm_payload(&mut self.ring, self.stride as usize, payload);
    }

    /// Fills `output` for the capture stream, which asks for `requested` frames (0 for as many
    /// as fit). Where samples are missing there is silence.
    pub fn capture_process(&mut self, output: &mut [u8], requested: u64) -> (chunk: Option<Chunk>)
        requires
            old(self).wf(),
        ensures
            final(self).wf(),
            final(self).ring.cap() == old(self).ring.cap(),
            final(self).stride == old(self).stride,
            final(output)@.len() == old(output)@.len(),
            old(self).stride > 0 ==> 0 <= capture_frames(
                old(output)@.len() as int,
                old(self).stride as int,
                requested as int,
            ) * old(self).stride <= old(output)@.len(),
            (final(self).ring@, final(output)@, chunk) == captured_into(
                old(self)@,
                old(output)@,
                requested,
            ),
    {
        let stride: usize = self.stride as usize;
        if stride == 0 {
            return None;
        }
        let len: usize = output.len();
        let available: usize = len / stride;
        let frames: usize = if requested == 0 || requested > available as u64 {
            available
        } else {
            requested as usize
        };
        let ghost held = self.ring@;
        assert(0 <= frames * stride <= len) by (nonlinear_arith)
            requires
                stride > 0,
                0 <= frames <= len as int / stride as int,
                len >= 0,
        ;
        let size: usize = frames * stride;
        let (front, _rest) = output.split_at_mut(size);
        let got = self.ring.read(front);
        let mut i: usize = got;
        while i < size
            invariant
                got <= i <= size,
                size == front@.len(),
                got <= held.len(),
                forall|j: int| 0 <= j < got ==> front@[j] == held[j],
                forall|j: int| got <= j < i ==> front@[j] == 0u8,
            decreases size - i,
        {
            front[i] = 0;
            i += 1;
        }
        assert(front@ =~= held.take(got as int) + Seq::new((size - got) as nat, |i: int| 0u8));
        let shown: i32 = if stride > i32::MAX as usize {
            i32::MAX
        } else {
            stride as i32
        };
        let told: u32 = if size > u32::MAX as usize {
            u32::MAX
        } else {
            size as u32
        };
        Some(Chunk { offset: 0, stride: shown, size: told })
    }
}

proof fn lemma_multiple_sub(a: int, b: int, d: int)
    requires
        d > 0,
        a % d == 0,
        b % d == 0,
    ensures
        (a - b) % d == 0,
        (a + b) % d == 0,
{
    vstd::arithmetic::div_mod::lemma_fundamental_div_mod(a, d);
    vstd::arithmetic::div_mod::lemma_fundamental_div_mod(b, d);
    assert(a - b == d * (a / d - b / d)) by (nonlinear_arith)
        requires
            a == d * (a / d),
            b == d * (b / d),
    ;
    assert(a + b == d * (a / d + b / d)) by (nonlinear_arith)
        requires
            a == d * (a / d),
            b == d * (b / d),
    ;
    vstd::arithmetic::div_mod::lemma_mod_multiples_basic(a / d - b / d, d);
    vstd::arithmetic::div_mod::lemma_mod_multiples_basic(a / d + b / d, d);
    assert(d * (a / d - b / d) == (a / d - b / d) * d) by (nonlinear_arith);
    assert(d * (a / d + b / d) == (a / d + b / d) * d) by (nonlinear_arith);
}

proof fn lemma_whole_frames(n: int, stride: int)
    requires
        stride > 0,
        n >= 0,
    ensures
        whole_frames(n, stride) % stride == 0,
        0 <= whole_frames(n, stride) <= n,
{
    vstd::arithmetic::div_mod::lemma_mod_multiples_basic(n / stride, stride);
    assert(0 <= n / stride * stride <= n) by (nonlinear_arith)
        requires
            stride > 0,
            n >= 0,
    ;
}

/// A ring that holds whole frames still does after any payload: samples never come apart.
pub proof fn law_samples_stay_framed(held: Seq<u8>, payload: Seq<u8>, cap: int, stride: int)
    requires
        stride > 0,
        cap >= 0,
        held.len() as int % stride == 0,
        payload.len() as int % stride == 0,
    ensures
        latest(held + payload, whole_frames(cap, stride)).len() as int % stride == 0,
{
    lemma_whole_frames(cap, stride);
    lemma_multiple_sub(held.len() as int, payload.len() as int, stride);
}

/// Reading for the capture stream takes whole frames out of a ring that holds whole frames.
pub proof fn law_capture_takes_whole_frames(held: Seq<u8>, len: int, stride: int, requested: int)
    requires
        stride > 0,
        len >= 0,
        requested >= 0,
        held.len() as int % stride == 0,
    ensures
        ({
            let got = min(
                capture_frames(len, stride, requested) * stride,
                held.len() as int,
            );
            got % stride == 0 && held.skip(got).len() as int % stride == 0
        }),
{
    let frames = capture_frames(len, stride, requested);
    vstd::arithmetic::div_mod::lemma_mod_multiples_basic(frames, stride);
    assert(0 <= frames * stride) by (nonlinear_arith)
        requires
            stride > 0,
            0 <= frames,
    ;
    let got = min(frames * stride, held.len() as int);
    lemma_multiple_sub(held.len() as int, got, stride);
}

/// What is written is read back, byte for byte and in order, as long as it fits.
pub proof fn law_ring_reads_back_what_was_written(held: Seq<u8>, input: Seq<u8>, cap: int)
    requires
        held.len() + input.len() <= cap,
    ensures
        latest(held + input, cap).skip(held.len() as int) == input,
        latest(held + input, cap).take(held.len() as int) == held,
{
    assert((held + input).skip(held.len() as int) =~= input);
    assert((held + input).take(held.len() as int) =~= held);
}

/// Two writes leave what one write of both would.
pub proof fn law_writes_compose(held: Seq<u8>, a: Seq<u8>, b: Seq<u8>, cap: int)
    requires
        0 <= cap,
        held.len() <= cap,
    ensures
        latest(latest(held + a, cap) + b, cap) == latest(held + (a + b), cap),
{
    assert(latest(latest(held + a, cap) + b, cap) =~= latest(held + (a + b), cap));
}

} // verus!
