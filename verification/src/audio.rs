//! Audio plumbing for 1:1 calls: device choice, stream set-up, downmixing,
//! cutting the microphone signal into frames, and the playback queue.
//!
//! Call media is mono at [`SAMPLE_RATE`], in frames of [`FRAME_SAMPLES`]
//! samples. Devices may run at other rates and with more channels.

use std::collections::VecDeque;

use vstd::prelude::*;
use vstd::string::*;

use crate::text;

verus! {

/// Opus/WebRTC sample rate.
pub const SAMPLE_RATE: u32 = 48_000;

/// Samples in one 20 ms mono frame.
pub const FRAME_SAMPLES: usize = 960;

// ---------------------------------------------------------------------------
// Downmixing

/// The sum of all samples.
pub open spec fn sample_sum(s: Seq<i16>) -> int
    decreases s.len(),
{
    if s.len() == 0 {
        0
    } else {
        sample_sum(s.drop_last()) + s.last()
    }
}

/// `a / b` rounded toward zero.
pub open spec fn div_toward_zero(a: int, b: int) -> int {
    if a >= 0 {
        a / b
    } else {
        -((-a) / b)
    }
}

/// The mean of a non-empty group of samples, rounded toward zero.
pub open spec fn mean(s: Seq<i16>) -> int {
    div_toward_zero(sample_sum(s), s.len() as int)
}

/// Interleaved samples cut into groups of `channels` (the last group may be
/// shorter), each group replaced by its mean.
pub open spec fn downmixed(data: Seq<i16>, channels: nat) -> Seq<int>
    decreases data.len(),
{
    if channels == 0 || data.len() == 0 {
        Seq::empty()
    } else {
        let k = if data.len() < channels { data.len() } else { channels };
        seq![mean(data.take(k as int))] + downmixed(data.skip(k as int), channels)
    }
}

/// The mono signal of interleaved samples.
pub open spec fn mono_of(data: Seq<i16>, channels: nat) -> Seq<int> {
    if channels <= 1 {
        data.map_values(|s: i16| s as int)
    } else {
        downmixed(data, channels)
    }
}

proof fn lemma_sum_bounds(s: Seq<i16>)
    ensures
        -32768 * s.len() <= sample_sum(s) <= 32767 * s.len(),
    decreases s.len(),
{
    if s.len() > 0 {
        lemma_sum_bounds(s.drop_last());
    }
}

proof fn lemma_mean_bounds(s: Seq<i16>)
    requires
        s.len() > 0,
    ensures
        -32768 <= mean(s) <= 32767,
{
    lemma_sum_bounds(s);
    let t = sample_sum(s);
    let n = s.len() as int;
    if t >= 0 {
        assert(t / n <= 32767) by (nonlinear_arith)
            requires
                0 <= t <= 32767 * n,
                n > 0,
        ;
        assert(t / n >= 0) by (nonlinear_arith)
            requires
                0 <= t,
                n > 0,
        ;
    } else {
        assert((-t) / n <= 32768) by (nonlinear_arith)
            requires
                0 <= -t <= 32768 * n,
                n > 0,
        ;
        assert((-t) / n >= 0) by (nonlinear_arith)
            requires
                0 <= -t,
                n > 0,
        ;
    }
}

fn mean_of(data: &[i16], from: usize, to: usize) -> (r: i16)
    requires
        from < to <= data.len(),
    ensures
        r == mean(data@.subrange(from as int, to as int)),
{
    let ghost group = data@.subrange(from as int, to as int);
    let mut sum: i128 = 0;
    let mut i: usize = from;
    while i < to
        invariant
            from <= i <= to <= data.len(),
            sum == sample_sum(data@.subrange(from as int, i as int)),
            -32768 * (i - from) <= sum <= 32767 * (i - from),
        decreases to - i,
    {
        proof {
            assert(data@.subrange(from as int, i + 1).drop_last() =~= data@.subrange(
                from as int,
                i as int,
            ));
        }
        sum = sum + data[i] as i128;
        i += 1;
    }
    proof {
        lemma_mean_bounds(group);
    }
    let n: i128 = (to - from) as i128;
    let m: i128 = if sum >= 0 {
        sum / n
    } else {
        -((-sum) / n)
    };
    m as i16
}

/// Averages interleaved samples of `channels` channels into one channel. With
/// one channel (or none) the samples are already mono and are kept as they are.
pub fn downmix_i16(data: &[i16], channels: usize) -> (r: Vec<i16>)
    ensures
        channels <= 1 ==> r@ == data@,
        channels > 1 ==> r@.map_values(|s: i16| s as int) == downmixed(data@, channels as nat),
        r@.map_values(|s: i16| s as int) == mono_of(data@, channels as nat),
{
    let mut out: Vec<i16> = Vec::new();
    let mut at: usize = 0;
    if channels <= 1 {
        while at < data.len()
            invariant
                at <= data.len(),
                out@ == data@.take(at as int),
            decreases data.len() - at,
        {
            out.push(data[at]);
            at += 1;
        }
        proof {
            assert(data@.take(at as int) =~= data@);
        }
        return out;
    }
    proof {
        assert(data@.skip(0) =~= data@);
        assert(out@.map_values(|s: i16| s as int) =~= Seq::<int>::empty());
    }
    while at < data.len()
        invariant
            at <= data.len(),
            channels > 1,
            out@.map_values(|s: i16| s as int) + downmixed(data@.skip(at as int), channels as nat)
                =~= downmixed(data@, channels as nat),
        decreases data.len() - at,
    {
        let left: usize = data.len() - at;
        let k: usize = if left < channels { left } else { channels };
        let m = mean_of(data, at, at + k);
        proof {
            let rest = data@.skip(at as int);
            assert(rest.take(k as int) =~= data@.subrange(at as int, at + k));
            assert(rest.skip(k as int) =~= data@.skip(at + k));
            assert(out@.push(m).map_values(|s: i16| s as int) =~= out@.map_values(
                |s: i16| s as int,
            ).push(m as int));
        }
        out.push(m);
        at += k;
    }
    proof {
        assert(data@.skip(at as int).len() == 0);
    }
    out
}

// ---------------------------------------------------------------------------
// Capture: cutting the resampled microphone signal into frames

/// The samples of consecutive frames, one after the other.
pub open spec fn joined(frames: Seq<Vec<i16>>) -> Seq<i16>
    decreases frames.len(),
{
    if frames.len() == 0 {
        Seq::empty()
    } else {
        joined(frames.drop_last()) + frames.last()@
    }
}

/// What [`FrameAssembler::push`] does: `waiting` is what waits before it, `left` after it.
pub open spec fn push_post(
    waiting: Seq<i16>,
    mono: Seq<i16>,
    frames: Seq<Vec<i16>>,
    left: Seq<i16>,
) -> bool {
    &&& joined(frames) + left == waiting + mono
    &&& forall|i: int| 0 <= i < frames.len() ==> (#[trigger] frames[i])@.len() == FRAME_SAMPLES
}

/// Collects mono samples until a full 20 ms frame is there.
pub struct FrameAssembler {
    acc: Vec<i16>,
}

impl FrameAssembler {
    /// The samples that wait for their frame to fill up.
    pub closed spec fn waiting(&self) -> Seq<i16> {
        self.acc@
    }

    /// Less than one frame waits.
    pub open spec fn wf(&self) -> bool {
        self.waiting().len() < FRAME_SAMPLES
    }

    pub fn new() -> (r: Self)
        ensures
            r.wf(),
            r.waiting() == Seq::<i16>::empty(),
    {
        FrameAssembler { acc: Vec::new() }
    }

    /// Takes in samples and hands out the frames they complete. No sample is
    /// lost, repeated or reordered, and every frame is full.
    pub fn push(&mut self, mono: &[i16]) -> (r: Vec<Vec<i16>>)
        requires
            old(self).wf(),
        ensures
            final(self).wf(),
            push_post(old(self).waiting(), mono@, r@, final(self).waiting()),
    {
        let mut frames: Vec<Vec<i16>> = Vec::new();
        let mut i: usize = 0;
        let ghost before = self.acc@;
        while i < mono.len()
            invariant
                i <= mono.len(),
                self.acc@.len() < FRAME_SAMPLES,
                joined(frames@) + self.acc@ =~= before + mono@.take(i as int),
                forall|k: int| 0 <= k < frames.len() ==> (#[trigger] frames@[k])@.len()
                    == FRAME_SAMPLES,
            decreases mono.len() - i,
        {
            let ghost acc0 = self.acc@;
            self.acc.push(mono[i]);
            proof {
                assert(mono@.take(i + 1) =~= mono@.take(i as int).push(mono@[i as int]));
                assert(joined(frames@) + acc0.push(mono@[i as int]) =~= (joined(frames@)
                    + acc0).push(mono@[i as int]));
                assert(before + mono@.take(i + 1) =~= (before + mono@.take(i as int)).push(
                    mono@[i as int],
                ));
            }
            if self.acc.len() == FRAME_SAMPLES {
                let mut full: Vec<i16> = Vec::new();
                std::mem::swap(&mut full, &mut self.acc);
                let ghost frames0 = frames@;
                frames.push(full);
                proof {
                    assert(frames@.drop_last() =~= frames0);
                    assert(frames@.last()@ == acc0.push(mono@[i as int]));
                    assert(joined(frames@) == joined(frames0) + acc0.push(mono@[i as int]));
                }
            }
            i += 1;
        }
        proof {
            assert(mono@.take(i as int) =~= mono@);
        }
        frames
    }
}

/// What the capture task waits for, and what it is told.
#[derive(Debug, PartialEq, Eq)]
pub enum CaptureEvent {
    /// A frame came from the microphone while the mic was muted or not.
    Frame { samples: Vec<i16>, muted: bool },
    /// The microphone channel closed.
    Closed,
    /// The frame was encoded: its packet is the first `len` bytes of `out`.
    Encoded { out: Vec<u8>, len: usize },
    /// The frame could not be encoded.
    EncodeFailed,
    /// The packet was written to the track, or the track refused it.
    Written { ok: bool },
}

/// What the capture task does next.
#[derive(Debug, PartialEq, Eq)]
pub enum CaptureAction {
    /// Wait for the next frame.
    Wait,
    /// Encode this frame.
    Encode(Vec<i16>),
    /// Write this packet, which lasts [`FRAME_MILLIS`] milliseconds.
    Write(Vec<u8>),
    /// End the task.
    Stop,
}

/// Length of one frame in milliseconds.
pub const FRAME_MILLIS: u64 = 20;

/// What [`capture_step`] does.
pub open spec fn capture_post(event: CaptureEvent, r: CaptureAction) -> bool {
    match event {
        CaptureEvent::Frame { samples, muted } => if muted {
            r == CaptureAction::Wait
        } else {
            r == CaptureAction::Encode(samples)
        },
        CaptureEvent::Closed => r == CaptureAction::Stop,
        CaptureEvent::Encoded { out, len } => r matches CaptureAction::Write(packet) && packet@
            == out@.take(len as int),
        CaptureEvent::EncodeFailed => r == CaptureAction::Wait,
        CaptureEvent::Written { ok } => r == (if ok {
            CaptureAction::Wait
        } else {
            CaptureAction::Stop
        }),
    }
}

/// The capture task: frames are encoded and written one by one; muted frames
/// and frames that fail to encode are dropped; the task ends when the
/// microphone channel closes or the track refuses a packet.
pub fn capture_step(event: CaptureEvent) -> (r: CaptureAction)
    requires
        event matches CaptureEvent::Encoded { out, len } ==> len <= out.len(),
    ensures
        capture_post(event, r),
{
    match event {
        CaptureEvent::Frame { samples, muted } => if muted {
            CaptureAction::Wait
        } else {
            CaptureAction::Encode(samples)
        },
        CaptureEvent::Closed => CaptureAction::Stop,
        CaptureEvent::Encoded { out, len } => {
            let mut packet = out;
            packet.truncate(len);
            CaptureAction::Write(packet)
        },
        CaptureEvent::EncodeFailed => CaptureAction::Wait,
        CaptureEvent::Written { ok } => if ok {
            CaptureAction::Wait
        } else {
            CaptureAction::Stop
        },
    }
}

// ---------------------------------------------------------------------------
// Playback

/// What to do with a packet of remote audio.
#[derive(Debug, Clone, Copy, PartialEq, Eq, Structural)]
pub enum PacketAction {
    /// Nothing in it: wait for the next one.
    Skip,
    /// Deafened: throw it away together with everything buffered.
    Discard,
    /// Decode it and buffer the samples.
    Decode,
}

/// What to do with a packet of `payload_len` bytes.
pub open spec fn action_for(payload_len: nat, deafened: bool) -> PacketAction {
    if payload_len == 0 {
        PacketAction::Skip
    } else if deafened {
        PacketAction::Discard
    } else {
        PacketAction::Decode
    }
}

/// Decides about a packet of `payload_len` bytes.
pub fn packet_action(payload_len: usize, deafened: bool) -> (r: PacketAction)
    ensures
        r == action_for(payload_len as nat, deafened),
{
    if payload_len == 0 {
        PacketAction::Skip
    } else if deafened {
        PacketAction::Discard
    } else {
        PacketAction::Decode
    }
}

/// The newest `cap` samples of `s`.
pub open spec fn newest(s: Seq<i16>, cap: int) -> Seq<i16> {
    if s.len() <= cap {
        s
    } else {
        s.skip(s.len() - cap)
    }
}

/// Decoded remote audio that waits to be played, at most one second of it.
pub struct PlaybackBuffer {
    samples: VecDeque<i16>,
}

impl View for PlaybackBuffer {
    type V = Seq<i16>;

    closed spec fn view(&self) -> Seq<i16> {
        self.samples@
    }
}

impl PlaybackBuffer {
    /// At most one second is buffered.
    pub open spec fn wf(&self) -> bool {
        self@.len() <= SAMPLE_RATE
    }

    pub fn new() -> (r: Self)
        ensures
            r.wf(),
            r@ == Seq::<i16>::empty(),
    {
        PlaybackBuffer { samples: VecDeque::new() }
    }

    /// How many samples wait.
    pub fn len(&self) -> (r: usize)
        ensures
            r == self@.len(),
    {
        self.samples.len()
    }

    /// Appends decoded samples and, to cap the latency, drops the oldest ones
    /// beyond one second.
    pub fn extend(&mut self, decoded: &[i16])
        requires
            old(self).wf(),
        ensures
            final(self).wf(),
            final(self)@ == newest(old(self)@ + decoded@, SAMPLE_RATE as int),
    {
        let mut i: usize = 0;
        let ghost before = self.samples@;
        // Dropping while appending keeps the queue short.
        while i < decoded.len()
            invariant
                i <= decoded.len(),
                self.samples@.len() <= SAMPLE_RATE,
                self.samples@ =~= newest(before + decoded@.take(i as int), SAMPLE_RATE as int),
            decreases decoded.len() - i,
        {
            let ghost so_far = before + decoded@.take(i as int);
            let ghost kept = self.samples@;
            self.samples.push_back(decoded[i]);
            proof {
                assert(before + decoded@.take(i + 1) =~= so_far.push(decoded@[i as int]));
            }
            if self.samples.len() > SAMPLE_RATE as usize {
                let _ = self.samples.pop_front();
            }
            i += 1;
        }
        proof {
            assert(decoded@.take(i as int) =~= decoded@);
        }
    }

    /// Empties the buffer.
    pub fn clear(&mut self)
        ensures
            final(self).wf(),
            final(self)@ == Seq::<i16>::empty(),
    {
        self.samples.clear();
    }

    /// Takes the oldest samples, at most one frame of them.
    pub fn take_chunk(&mut self) -> (r: Vec<i16>)
        requires
            old(self).wf(),
        ensures
            final(self).wf(),
            r@ + final(self)@ == old(self)@,
            r.len() == (if old(self)@.len() < FRAME_SAMPLES {
                old(self)@.len()
            } else {
                FRAME_SAMPLES as nat
            }),
    {
        let mut chunk: Vec<i16> = Vec::new();
        let ghost before = self.samples@;
        while chunk.len() < FRAME_SAMPLES && self.samples.len() > 0
            invariant
                chunk@ + self.samples@ =~= before,
                chunk.len() <= FRAME_SAMPLES,
            decreases self.samples.len(),
        {
            let s = self.samples.pop_front().unwrap();
            chunk.push(s);
        }
        chunk
    }
}

/// One decoded packet handed to the buffer, as [`packet_action`] decided:
/// `decoded` is `None` where the packet could not be decoded.
pub fn receive_packet(
    buffer: &mut PlaybackBuffer,
    payload_len: usize,
    deafened: bool,
    decoded: Option<Vec<i16>>,
)
    requires
        old(buffer).wf(),
    ensures
        final(buffer).wf(),
        final(buffer)@ == after_packet(old(buffer)@, payload_len as nat, deafened, match decoded {
            Some(d) => Some(d@),
            None => None,
        }),
{
    match packet_action(payload_len, deafened) {
        PacketAction::Skip => {},
        PacketAction::Discard => buffer.clear(),
        PacketAction::Decode => {
            if let Some(d) = decoded {
                buffer.extend(d.as_slice());
            }
        },
    }
}

/// The buffer after a packet: unchanged by an empty or undecodable one, emptied
/// while deafened, else extended and cut to the newest second.
pub open spec fn after_packet(
    buffered: Seq<i16>,
    payload_len: nat,
    deafened: bool,
    decoded: Option<Seq<i16>>,
) -> Seq<i16> {
    if payload_len == 0 {
        buffered
    } else if deafened {
        Seq::empty()
    } else {
        match decoded {
            Some(d) => newest(buffered + d, SAMPLE_RATE as int),
            None => buffered,
        }
    }
}

/// Audio at the output device's rate that waits for the output callback.
pub struct OutputFeed {
    pending: VecDeque<i16>,
}

impl View for OutputFeed {
    type V = Seq<i16>;

    closed spec fn view(&self) -> Seq<i16> {
        self.pending@
    }
}

/// Frames in an output block of `out_len` interleaved samples.
pub open spec fn frames_in(out_len: nat, channels: nat) -> nat {
    if channels <= 1 {
        out_len
    } else {
        out_len / channels
    }
}

/// Frames in an output block of `out_len` interleaved samples. A device that
/// reports no channels counts as mono.
pub fn output_frames(out_len: usize, channels: usize) -> (r: usize)
    ensures
        r == frames_in(out_len as nat, channels as nat),
{
    if channels <= 1 {
        out_len
    } else {
        out_len / channels
    }
}

/// What [`OutputFeed::next_chunk`] takes from the buffer: the oldest samples, at most
/// one frame of them, while fewer than `frames` are pending and any are buffered.
pub open spec fn chunk_post(
    pending: Seq<i16>,
    buffered: Seq<i16>,
    frames: nat,
    rest: Seq<i16>,
    chunk: Option<Seq<i16>>,
) -> bool {
    match chunk {
        Some(chunk) => {
            &&& pending.len() < frames && buffered.len() > 0
            &&& chunk + rest == buffered
            &&& chunk.len() == if buffered.len() < FRAME_SAMPLES {
                buffered.len()
            } else {
                FRAME_SAMPLES as nat
            }
        },
        None => {
            &&& pending.len() >= frames || buffered.len() == 0
            &&& rest == buffered
        },
    }
}

/// What is pending once resampled audio is appended.
pub open spec fn absorbed(pending: Seq<i16>, resampled: Seq<i16>) -> Seq<i16> {
    pending + resampled
}

impl OutputFeed {
    pub fn new() -> (r: Self)
        ensures
            r@ == Seq::<i16>::empty(),
    {
        OutputFeed { pending: VecDeque::new() }
    }

    /// The next chunk to resample before `frames` frames can be played: the
    /// oldest buffered samples while too few are pending, `None` once enough
    /// are, or once nothing is buffered.
    pub fn next_chunk(&self, buffer: &mut PlaybackBuffer, frames: usize) -> (r: Option<Vec<i16>>)
        requires
            old(buffer).wf(),
        ensures
            final(buffer).wf(),
            chunk_post(
                self@,
                old(buffer)@,
                frames as nat,
                final(buffer)@,
                match r {
                    Some(chunk) => Some(chunk@),
                    None => None,
                },
            ),
    {
        if self.pending.len() < frames {
            let chunk = buffer.take_chunk();
            if chunk.len() == 0 {
                proof {
                    assert(chunk@ + buffer@ =~= buffer@);
                }
                None
            } else {
                Some(chunk)
            }
        } else {
            None
        }
    }

    /// Appends resampled audio.
    pub fn absorb(&mut self, resampled: &[i16])
        ensures
            final(self)@ == absorbed(old(self)@, resampled@),
    {
        let mut i: usize = 0;
        let ghost before = self.pending@;
        while i < resampled.len()
            invariant
                i <= resampled.len(),
                self.pending@ =~= before + resampled@.take(i as int),
            decreases resampled.len() - i,
        {
            self.pending.push_back(resampled[i]);
            proof {
                assert(resampled@.take(i + 1) =~= resampled@.take(i as int).push(
                    resampled@[i as int],
                ));
            }
            i += 1;
        }
        proof {
            assert(resampled@.take(i as int) =~= resampled@);
        }
    }

    /// Takes `frames` samples to play, silence where too few are pending.
    pub fn drain(&mut self, frames: usize) -> (r: Vec<i16>)
        ensures
            r@ == padded(old(self)@, frames as nat),
            final(self)@ == undrained(old(self)@, frames as nat),
    {
        let mut out: Vec<i16> = Vec::new();
        let ghost before = self.pending@;
        while out.len() < frames
            invariant
                out.len() <= frames,
                out@ =~= padded(before, out.len() as nat),
                self.pending@ =~= (if before.len() <= out.len() {
                    Seq::empty()
                } else {
                    before.skip(out.len() as int)
                }),
            decreases frames - out.len(),
        {
            match self.pending.pop_front() {
                Some(s) => out.push(s),
                None => out.push(0),
            }
        }
        out
    }
}

/// The first `n` samples of `s`, followed by silence where `s` is shorter.
pub open spec fn padded(s: Seq<i16>, n: nat) -> Seq<i16> {
    Seq::new(
        n,
        |i: int|
            if i < s.len() {
                s[i]
            } else {
                0i16
            },
    )
}

/// What stays pending once `n` samples of `s` are taken to play.
pub open spec fn undrained(s: Seq<i16>, n: nat) -> Seq<i16> {
    if s.len() <= n {
        Seq::empty()
    } else {
        s.skip(n as int)
    }
}

/// The sample for slot `slot` of an output block: that of the frame the slot
/// belongs to, silence beyond the last one.
pub open spec fn slot_sample(mono: Seq<i16>, slot: int, channels: nat) -> i16 {
    let frame = if channels <= 1 {
        slot
    } else {
        slot / channels as int
    };
    if frame < mono.len() {
        mono[frame]
    } else {
        0
    }
}

/// An output block: every mono sample repeated on all channels, silence beyond
/// the last one.
pub open spec fn spread(mono: Seq<i16>, out_len: nat, channels: nat) -> Seq<i16> {
    Seq::new(out_len, |i: int| slot_sample(mono, i, channels))
}

/// The sample that goes to slot `slot` of an output block.
pub fn output_sample(mono: &[i16], slot: usize, channels: usize) -> (r: i16)
    ensures
        r == slot_sample(mono@, slot as int, channels as nat),
{
    let frame: usize = if channels <= 1 {
        slot
    } else {
        slot / channels
    };
    if frame < mono.len() {
        mono[frame]
    } else {
        0
    }
}

/// Fills an output block of `out_len` interleaved samples from mono audio.
pub fn interleave(mono: &[i16], out_len: usize, channels: usize) -> (r: Vec<i16>)
    ensures
        r@ == spread(mono@, out_len as nat, channels as nat),
{
    let mut out: Vec<i16> = Vec::new();
    while out.len() < out_len
        invariant
            out.len() <= out_len,
            forall|i: int|
                0 <= i < out.len() ==> #[trigger] out@[i] == slot_sample(
                    mono@,
                    i,
                    channels as nat,
                ),
        decreases out_len - out.len(),
    {
        let s = output_sample(mono, out.len(), channels);
        out.push(s);
    }
    proof {
        assert(out@ =~= spread(mono@, out_len as nat, channels as nat));
    }
    out
}

// ---------------------------------------------------------------------------
// Resampling: the choices around the interpolation

/// Linear resampler for mono audio: which two samples surround a position, and
/// what is remembered from one block to the next. Interpolating between the two
/// is left to the caller.
#[derive(Debug, Clone, Copy, PartialEq, Eq)]
pub struct Resampler {
    pub from: u32,
    pub to: u32,
    /// The last sample of the previous block.
    pub last: i16,
}

/// The samples on both sides of position `idx` of a block that follows on sample `last`.
pub open spec fn taps_at(last: i16, input: Seq<i16>, idx: int) -> (i16, i16) {
    ((seq![last] + input)[idx], input[idx])
}

impl Resampler {
    /// The block is handed through unchanged.
    pub open spec fn is_through(self, input: Seq<i16>) -> bool {
        self.from == self.to || input.len() == 0
    }

    /// The resampler after this block.
    pub open spec fn finished(self, input: Seq<i16>) -> Resampler {
        Resampler { last: input.last(), ..self }
    }

    pub fn new(from: u32, to: u32) -> (r: Self)
        ensures
            r.from == from && r.to == to && r.last == 0,
    {
        Resampler { from, to, last: 0 }
    }

    /// Whether a block is handed through unchanged: the rates match, or there
    /// is nothing in it.
    pub fn passes_through(&self, input: &[i16]) -> (r: bool)
        ensures
            r == self.is_through(input@),
    {
        self.from == self.to || input.len() == 0
    }

    /// The samples on both sides of position `idx` of a block: the one before
    /// it, which at the start is the last of the previous block, and the one
    /// at it.
    pub fn taps(&self, input: &[i16], idx: usize) -> (r: (i16, i16))
        requires
            idx < input.len(),
        ensures
            r == taps_at(self.last, input@, idx as int),
    {
        let a: i16 = if idx == 0 {
            self.last
        } else {
            input[idx - 1]
        };
        (a, input[idx])
    }

    /// Remembers the end of a block for the next one.
    pub fn finish(&mut self, input: &[i16])
        requires
            input.len() > 0,
        ensures
            *final(self) == old(self).finished(input@),
    {
        self.last = input[input.len() - 1];
    }
}

// ---------------------------------------------------------------------------
// Devices and stream set-up

/// The device names of a listing; devices that would not tell their name are
/// left out, and so is everything when the host could not list its devices.
pub open spec fn known_names(listing: Option<Vec<Option<String>>>) -> Seq<String> {
    match listing {
        Some(devices) => named(devices@),
        None => Seq::empty(),
    }
}

/// The names in a listing, in order.
pub open spec fn named(devices: Seq<Option<String>>) -> Seq<String>
    decreases devices.len(),
{
    if devices.len() == 0 {
        Seq::empty()
    } else {
        match devices.last() {
            Some(name) => named(devices.drop_last()).push(name),
            None => named(devices.drop_last()),
        }
    }
}

fn device_names(listing: Option<Vec<Option<String>>>) -> (r: Vec<String>)
    ensures
        r@ == known_names(listing),
{
    let mut names: Vec<String> = Vec::new();
    if let Some(devices) = listing {
        let mut i: usize = 0;
        while i < devices.len()
            invariant
                i <= devices.len(),
                names@ =~= named(devices@.take(i as int)),
            decreases devices.len() - i,
        {
            proof {
                assert(devices@.take(i + 1).drop_last() =~= devices@.take(i as int));
            }
            if let Some(name) = &devices[i] {
                names.push(name.clone());
            }
            i += 1;
        }
        proof {
            assert(devices@.take(i as int) =~= devices@);
        }
    }
    names
}

/// Names of the available input (microphone) devices.
pub fn input_device_names(listing: Option<Vec<Option<String>>>) -> (r: Vec<String>)
    ensures
        r@ == known_names(listing),
{
    device_names(listing)
}

/// Names of the available output (speaker) devices.
pub fn output_device_names(listing: Option<Vec<Option<String>>>) -> (r: Vec<String>)
    ensures
        r@ == known_names(listing),
{
    device_names(listing)
}

/// Device `i` of a listing is called `name`.
pub open spec fn is_called(listing: Option<Vec<Option<String>>>, i: int, name: Seq<char>) -> bool {
    &&& listing matches Some(devices)
    &&& 0 <= i < devices.len()
    &&& devices@[i] matches Some(n)
    &&& n@ == name
}

/// `pick` is the place in the listing of the first device with this name, or none where
/// no name is given or no device has it.
pub open spec fn is_pick(
    pick: Option<int>,
    listing: Option<Vec<Option<String>>>,
    name: Option<Seq<char>>,
) -> bool {
    match (pick, name) {
        (Some(i), Some(wanted)) => {
            &&& is_called(listing, i, wanted)
            &&& forall|k: int| 0 <= k < i ==> !#[trigger] is_called(listing, k, wanted)
        },
        (Some(_), None) => false,
        (None, Some(wanted)) => forall|k: int| !#[trigger] is_called(listing, k, wanted),
        (None, None) => true,
    }
}

/// Picks a device by name: its place in the listing, or `None` for the system
/// default, which is used when no name is given or no device has it. The first
/// of several devices with the name wins.
pub fn pick_device(listing: &Option<Vec<Option<String>>>, name: Option<&str>) -> (r: Option<usize>)
    ensures
        is_pick(
            match r {
                Some(i) => Some(i as int),
                None => None,
            },
            *listing,
            match name {
                Some(wanted) => Some(wanted@),
                None => None,
            },
        ),
{
    if let Some(wanted) = name {
        if let Some(devices) = listing {
            let mut i: usize = 0;
            while i < devices.len()
                invariant
                    i <= devices.len(),
                    name == Some(wanted),
                    *listing == Some(*devices),
                    forall|k: int| 0 <= k < i ==> !is_called(*listing, k, wanted@),
                decreases devices.len() - i,
            {
                if let Some(n) = &devices[i] {
                    if text::same_text(n.as_str(), wanted) {
                        return Some(i);
                    }
                }
                i += 1;
            }
        }
    }
    None
}

/// Which way a stream runs.
#[derive(Debug, Clone, Copy, PartialEq, Eq, Structural)]
pub enum Direction {
    /// Microphone to call.
    Input,
    /// Call to speaker.
    Output,
}

/// How a device encodes its samples.
#[derive(Debug, PartialEq, Eq)]
pub enum SampleFormat {
    F32,
    I16,
    /// Any other format, by its name.
    Other(String),
}

/// The native configuration of a device.
#[derive(Debug, PartialEq, Eq)]
pub struct DeviceConfig {
    pub sample_rate: u32,
    pub channels: u16,
    pub format: SampleFormat,
}

/// What the set-up of a stream waits for.
#[derive(Debug, PartialEq, Eq)]
pub enum StreamSetup {
    /// A device is being picked.
    Picking,
    /// The device's configuration is being read.
    Configuring,
    /// The stream is being built with this configuration.
    Building(DeviceConfig),
    /// The stream is being started.
    Starting,
    /// The stream runs.
    Running,
}

/// What happened to the step that a [`StreamSetup`] waits for.
#[derive(Debug, PartialEq, Eq)]
pub enum SetupEvent {
    /// Whether there is a device.
    Device(bool),
    Config(Result<DeviceConfig, String>),
    Built(Result<(), String>),
    Started(Result<(), String>),
}

/// The event is the one that the set-up waits for.
pub open spec fn event_fits(setup: StreamSetup, event: SetupEvent) -> bool {
    match setup {
        StreamSetup::Picking => event is Device,
        StreamSetup::Configuring => event is Config,
        StreamSetup::Building(_) => event is Built,
        StreamSetup::Starting => event is Started,
        StreamSetup::Running => false,
    }
}

/// The word for the direction in messages.
pub open spec fn direction_word(direction: Direction) -> Seq<char> {
    match direction {
        Direction::Input => "input"@,
        Direction::Output => "output"@,
    }
}

/// The complaint about a missing device.
pub open spec fn no_device_text(direction: Direction) -> Seq<char> {
    match direction {
        Direction::Input => "no input (microphone) device"@,
        Direction::Output => "no output (speaker) device"@,
    }
}

fn word(direction: Direction) -> (r: &'static str)
    ensures
        r@ == direction_word(direction),
{
    match direction {
        Direction::Input => "input",
        Direction::Output => "output",
    }
}

/// What [`setup_step`] does.
pub open spec fn setup_post(
    direction: Direction,
    event: SetupEvent,
    r: Result<StreamSetup, String>,
) -> bool {
    match event {
        SetupEvent::Device(found) => if found {
            r == Ok::<StreamSetup, String>(StreamSetup::Configuring)
        } else {
            r matches Err(e) && e@ == no_device_text(direction)
        },
        SetupEvent::Config(Ok(config)) => match config.format {
            SampleFormat::Other(name) => r matches Err(e) && e@ == "unsupported "@
                + direction_word(direction) + " sample format "@ + name@,
            _ => r == Ok::<StreamSetup, String>(StreamSetup::Building(config)),
        },
        SetupEvent::Config(Err(why)) => r matches Err(e) && e@ == direction_word(direction)
            + " config: "@ + why@,
        SetupEvent::Built(Ok(_)) => r == Ok::<StreamSetup, String>(StreamSetup::Starting),
        SetupEvent::Built(Err(why)) => r matches Err(e) && e@ == "build "@ + direction_word(
            direction,
        ) + " stream: "@ + why@,
        SetupEvent::Started(Ok(_)) => r == Ok::<StreamSetup, String>(StreamSetup::Running),
        SetupEvent::Started(Err(why)) => r matches Err(e) && e@ == "play "@ + direction_word(
            direction,
        ) + " stream: "@ + why@,
    }
}

/// Advances the set-up of a stream: pick a device, read its configuration,
/// build the stream, start it. Only 32-bit float and 16-bit integer samples are
/// supported. The first step that fails ends it with a message.
pub fn setup_step(direction: Direction, setup: StreamSetup, event: SetupEvent) -> (r: Result<
    StreamSetup,
    String,
>)
    requires
        event_fits(setup, event),
    ensures
        setup_post(direction, event, r),
{
    match event {
        SetupEvent::Device(found) => if found {
            Ok(StreamSetup::Configuring)
        } else {
            match direction {
                Direction::Input => Err("no input (microphone) device".to_owned()),
                Direction::Output => Err("no output (speaker) device".to_owned()),
            }
        },
        SetupEvent::Config(Ok(config)) => match &config.format {
            SampleFormat::Other(name) => {
                let mut e = text::concat3("unsupported ", word(direction), " sample format ");
                e.append(name.as_str());
                Err(e)
            },
            _ => Ok(StreamSetup::Building(config)),
        },
        SetupEvent::Config(Err(why)) => Err(
            text::concat3(word(direction), " config: ", why.as_str()),
        ),
        SetupEvent::Built(Ok(_)) => Ok(StreamSetup::Starting),
        SetupEvent::Built(Err(why)) => {
            let mut e = text::concat3("build ", word(direction), " stream: ");
            e.append(why.as_str());
            Err(e)
        },
        SetupEvent::Started(Ok(_)) => Ok(StreamSetup::Running),
        SetupEvent::Started(Err(why)) => {
            let mut e = text::concat3("play ", word(direction), " stream: ");
            e.append(why.as_str());
            Err(e)
        },
    }
}

/// What [`setup_outcome`] says.
pub open spec fn outcome_post(
    direction: Direction,
    ready: Option<Result<(), String>>,
    r: Result<(), String>,
) -> bool {
    match ready {
        Some(report) => r == report,
        None => r matches Err(e) && e@ == (match direction {
            Direction::Input => "capture thread died during setup"@,
            Direction::Output => "playback thread died during setup"@,
        }),
    }
}

/// What the stream's thread reported; `None` when it died before it did.
pub fn setup_outcome(direction: Direction, ready: Option<Result<(), String>>) -> (r: Result<
    (),
    String,
>)
    ensures
        outcome_post(direction, ready, r),
{
    match ready {
        Some(report) => report,
        None => match direction {
            Direction::Input => Err("capture thread died during setup".to_owned()),
            Direction::Output => Err("playback thread died during setup".to_owned()),
        },
    }
}

// ---------------------------------------------------------------------------
// Laws

proof fn lemma_joined_adds_up(a: Seq<Vec<i16>>, b: Seq<Vec<i16>>)
    ensures
        joined(a + b) == joined(a) + joined(b),
    decreases b.len(),
{
    if b.len() == 0 {
        assert(a + b =~= a);
        assert(joined(a) + joined(b) =~= joined(a));
    } else {
        lemma_joined_adds_up(a, b.drop_last());
        assert((a + b).drop_last() =~= a + b.drop_last());
        assert((a + b).last() == b.last());
        assert(joined(a + b) =~= joined(a) + joined(b));
    }
}

/// The microphone signal is cut into frames without loss: the frames of two pushes,
/// followed by what still waits, are what waited before, followed by both blocks.
pub proof fn capture_loses_nothing(
    waiting: Seq<i16>,
    first: Seq<i16>,
    frames: Seq<Vec<i16>>,
    between: Seq<i16>,
    second: Seq<i16>,
    more: Seq<Vec<i16>>,
    left: Seq<i16>,
)
    requires
        push_post(waiting, first, frames, between),
        push_post(between, second, more, left),
    ensures
        joined(frames + more) + left == waiting + (first + second),
{
    lemma_joined_adds_up(frames, more);
    assert(joined(frames + more) + left =~= joined(frames) + (joined(more) + left));
    assert(joined(frames) + (between + second) =~= (joined(frames) + between) + second);
    assert((waiting + first) + second =~= waiting + (first + second));
}

/// The playback buffer holds the newest second of everything that was decoded,
/// however it was cut into packets.
pub proof fn playback_keeps_the_newest_second(
    buffered: Seq<i16>,
    first: Seq<i16>,
    second: Seq<i16>,
    len: nat,
)
    requires
        len > 0,
    ensures
        after_packet(after_packet(buffered, len, false, Some(first)), len, false, Some(second))
            == newest(buffered + first + second, SAMPLE_RATE as int),
{
    let cap = SAMPLE_RATE as int;
    let all = buffered + first + second;
    let kept = newest(buffered + first, cap);
    assert(newest(kept + second, cap) =~= newest(all, cap));
}

/// The latency of playback stays below a second, whatever arrives.
pub proof fn playback_stays_within_a_second(
    buffered: Seq<i16>,
    len: nat,
    deafened: bool,
    decoded: Option<Seq<i16>>,
)
    requires
        buffered.len() <= SAMPLE_RATE,
    ensures
        after_packet(buffered, len, deafened, decoded).len() <= SAMPLE_RATE,
{
}

/// While deafened nothing is buffered: a packet with audio in it empties the
/// buffer.
pub proof fn deafened_playback_is_silent(
    buffered: Seq<i16>,
    len: nat,
    decoded: Option<Seq<i16>>,
)
    requires
        len > 0,
    ensures
        after_packet(buffered, len, true, decoded).len() == 0,
{
}

/// Where the device runs at the call's rate, chunks move to the output as they are:
/// that keeps the order of play, and each one leaves less to move.
pub proof fn moving_a_chunk_keeps_the_order(
    pending: Seq<i16>,
    buffered: Seq<i16>,
    frames: nat,
    rest: Seq<i16>,
    chunk: Seq<i16>,
)
    requires
        chunk_post(pending, buffered, frames, rest, Some(chunk)),
    ensures
        (pending + chunk) + rest == pending + buffered,
        rest.len() < buffered.len(),
{
    assert((pending + chunk) + rest =~= pending + (chunk + rest));
    assert((chunk + rest).len() == chunk.len() + rest.len());
}

/// What is played of the pending audio, and what stays pending, is the pending
/// audio; only silence is added.
pub proof fn draining_loses_nothing(pending: Seq<i16>, frames: nat)
    ensures
        pending.len() <= frames ==> padded(pending, frames).take(pending.len() as int) == pending,
        pending.len() > frames ==> padded(pending, frames) + pending.skip(frames as int)
            == pending,
        forall|i: int|
            pending.len() <= i < frames ==> #[trigger] padded(pending, frames)[i] == 0,
{
    if pending.len() <= frames {
        assert(padded(pending, frames).take(pending.len() as int) =~= pending);
    } else {
        assert(padded(pending, frames) + pending.skip(frames as int) =~= pending);
    }
}

/// Silence stays silence when it is mixed down, and a signal that is the same on
/// all channels stays as it is.
pub proof fn equal_channels_mix_to_themselves(sample: i16, channels: nat)
    requires
        channels > 0,
    ensures
        mean(Seq::new(channels, |i: int| sample)) == sample,
{
    lemma_equal_sum(sample, channels);
    let n = channels as int;
    let s = sample as int;
    if s >= 0 {
        assert((s * n) / n == s) by (nonlinear_arith)
            requires
                n > 0,
        ;
        assert(s * n >= 0) by (nonlinear_arith)
            requires
                n > 0,
                s >= 0,
        ;
    } else {
        assert(-(s * n) == (-s) * n) by (nonlinear_arith);
        assert(((-s) * n) / n == -s) by (nonlinear_arith)
            requires
                n > 0,
        ;
        assert(s * n < 0) by (nonlinear_arith)
            requires
                n > 0,
                s < 0,
        ;
    }
}

/// What was spread over several channels mixes down to the mono signal it came from.
pub proof fn mixing_down_undoes_spreading(mono: Seq<i16>, channels: nat)
    requires
        channels > 1,
    ensures
        downmixed(spread(mono, mono.len() * channels, channels), channels) == mono.map_values(
            |s: i16| s as int,
        ),
    decreases mono.len(),
{
    let c = channels as int;
    let n = mono.len() * channels;
    let data = spread(mono, n, channels);
    if mono.len() == 0 {
        assert(n == 0) by (nonlinear_arith)
            requires
                mono.len() == 0,
                n == mono.len() * channels,
        ;
        assert(mono.map_values(|s: i16| s as int) =~= Seq::<int>::empty());
    } else {
        let rest = mono.drop_first();
        let m = rest.len() * channels;
        assert(n == m + channels) by (nonlinear_arith)
            requires
                n == mono.len() * channels,
                m == rest.len() * channels,
                mono.len() == rest.len() + 1,
        ;
        assert(data.take(c) =~= Seq::new(channels, |i: int| mono[0])) by {
            assert forall|i: int| 0 <= i < c implies data.take(c)[i] == mono[0] by {
                assert(i / c == 0) by (nonlinear_arith)
                    requires
                        0 <= i < c,
                ;
            }
        }
        assert(data.skip(c) =~= spread(rest, m, channels)) by {
            assert forall|i: int| 0 <= i < m implies data.skip(c)[i] == spread(
                rest,
                m,
                channels,
            )[i] by {
                assert((i + c) / c == i / c + 1) by (nonlinear_arith)
                    requires
                        0 <= i,
                        c > 0,
                ;
                assert(i / c >= 0) by (nonlinear_arith)
                    requires
                        0 <= i,
                        c > 0,
                ;
            }
        }
        equal_channels_mix_to_themselves(mono[0], channels);
        mixing_down_undoes_spreading(rest, channels);
        assert(mono.map_values(|s: i16| s as int) =~= seq![mono[0] as int] + rest.map_values(
            |s: i16| s as int,
        ));
    }
}

proof fn lemma_equal_sum(sample: i16, n: nat)
    ensures
        sample_sum(Seq::new(n, |i: int| sample)) == sample * n,
    decreases n,
{
    let group = Seq::new(n, |i: int| sample);
    if n > 0 {
        let less = (n - 1) as nat;
        lemma_equal_sum(sample, less);
        assert(group.drop_last() =~= Seq::new(less, |i: int| sample));
        assert(sample * n == sample * less + sample) by (nonlinear_arith)
            requires
                n == less + 1,
        ;
    } else {
        assert(sample * n == 0) by (nonlinear_arith)
            requires
                n == 0,
        ;
    }
}

/// The samples of a group add up, whatever parts it is taken in.
pub proof fn samples_add_up(a: Seq<i16>, b: Seq<i16>, sample: i16)
    ensures
        sample_sum(a + b) == sample_sum(a) + sample_sum(b),
        sample_sum(seq![sample]) == sample,
        sample_sum(Seq::<i16>::empty()) == 0,
    decreases b.len(),
{
    if b.len() == 0 {
        assert(a + b =~= a);
    } else {
        samples_add_up(a, b.drop_last(), sample);
        assert((a + b).drop_last() =~= a + b.drop_last());
        assert((a + b).last() == b.last());
    }
    let one = seq![sample];
    assert(one.drop_last() =~= Seq::empty());
    assert(one.last() == sample);
    assert(sample_sum(one.drop_last()) == 0);
}

/// The mean of a group is the sum divided by the number of samples, rounded toward zero:
/// it has the sign of the sum, and that many means come within one mean of the sum from
/// below.
pub proof fn a_mean_is_the_rounded_share(s: Seq<i16>)
    requires
        s.len() > 0,
    ensures
        sample_sum(s) >= 0 ==> mean(s) >= 0 && mean(s) * s.len() <= sample_sum(s) < (mean(s) + 1)
            * s.len(),
        sample_sum(s) <= 0 ==> mean(s) <= 0 && (mean(s) - 1) * s.len() < sample_sum(s) <= mean(s)
            * s.len(),
{
    let n = s.len() as int;
    let t = sample_sum(s);
    let a = if t >= 0 {
        t
    } else {
        -t
    };
    let q = a / n;
    assert(q * n <= a < (q + 1) * n && q >= 0) by (nonlinear_arith)
        requires
            q == a / n,
            n > 0,
            a >= 0,
    ;
    assert((-q) * n == -(q * n)) by (nonlinear_arith);
    assert((-q - 1) * n == -((q + 1) * n)) by (nonlinear_arith);
    if t == 0 {
        assert(q == 0) by (nonlinear_arith)
            requires
                q == 0int / n,
                n > 0,
        ;
        assert((0 - 1) * n < 0) by (nonlinear_arith)
            requires
                n > 0,
        ;
    }
}

/// Every frame of all channels becomes one sample, its mean; a frame that is cut off at
/// the end becomes the mean of what there is of it.
pub proof fn every_frame_becomes_its_mean(frame: Seq<i16>, rest: Seq<i16>, channels: nat)
    requires
        channels > 1,
        0 < frame.len() <= channels,
    ensures
        frame.len() == channels ==> downmixed(frame + rest, channels) == seq![mean(frame)]
            + downmixed(rest, channels),
        downmixed(frame, channels) == seq![mean(frame)],
        downmixed(Seq::<i16>::empty(), channels).len() == 0,
{
    let n = frame.len() as int;
    assert(frame.take(n) =~= frame);
    assert(frame.skip(n) =~= Seq::empty());
    assert(downmixed(frame.skip(n), channels) =~= Seq::empty());
    assert(downmixed(frame, channels) =~= seq![mean(frame)]);
    if frame.len() == channels {
        let all = frame + rest;
        assert(all.take(n) =~= frame);
        assert(all.skip(n) =~= rest);
    }
}

/// Frames follow each other: their samples are those of the one and then of the next.
pub proof fn frames_follow_each_other(a: Seq<Vec<i16>>, b: Seq<Vec<i16>>, frame: Vec<i16>)
    ensures
        joined(a + b) == joined(a) + joined(b),
        joined(seq![frame]) == frame@,
        joined(Seq::<Vec<i16>>::empty()).len() == 0,
{
    lemma_joined_adds_up(a, b);
    let one = seq![frame];
    assert(one.drop_last() =~= Seq::empty());
    assert(one.last() == frame);
    assert(joined(one.drop_last()) =~= Seq::empty());
    assert(joined(one) =~= frame@);
}

/// A frame comes out as soon as it is full: there are as many as the samples fill, and a
/// frame lasts as long as it is said to at the call's rate.
pub proof fn a_full_frame_comes_out(
    waiting: Seq<i16>,
    block: Seq<i16>,
    frames: Seq<Vec<i16>>,
    left: Seq<i16>,
)
    requires
        push_post(waiting, block, frames, left),
        left.len() < FRAME_SAMPLES,
    ensures
        joined(frames) + left == waiting + block,
        forall|i: int| 0 <= i < frames.len() ==> (#[trigger] frames[i])@.len() == FRAME_SAMPLES,
        frames.len() == (waiting.len() + block.len()) / FRAME_SAMPLES as nat,
        FRAME_SAMPLES * 1000 == SAMPLE_RATE * FRAME_MILLIS,
{
    lemma_joined_len(frames);
    assert((joined(frames) + left).len() == joined(frames).len() + left.len());
    assert((waiting + block).len() == waiting.len() + block.len());
    assert(waiting.len() + block.len() == frames.len() * 960 + left.len());
    assert(frames.len() == (frames.len() * 960 + left.len()) / 960);
    assert(FRAME_SAMPLES as nat == 960);
}

proof fn lemma_joined_len(frames: Seq<Vec<i16>>)
    requires
        forall|i: int| 0 <= i < frames.len() ==> (#[trigger] frames[i])@.len() == FRAME_SAMPLES,
    ensures
        joined(frames).len() == frames.len() * 960,
    decreases frames.len(),
{
    if frames.len() > 0 {
        let less = frames.drop_last();
        assert forall|i: int| 0 <= i < less.len() implies (#[trigger] less[i])@.len()
            == FRAME_SAMPLES by {
            assert(less[i] == frames[i]);
        }
        lemma_joined_len(less);
        assert(frames[frames.len() - 1]@.len() == FRAME_SAMPLES);
    }
}

/// Nothing of a muted microphone is sent; a frame of an open one is encoded as it is, and
/// what is written is its packet. The task ends only with the microphone or the track.
pub proof fn a_muted_microphone_sends_nothing(event: CaptureEvent, r: CaptureAction)
    requires
        capture_post(event, r),
    ensures
        r matches CaptureAction::Encode(frame) ==> event == (CaptureEvent::Frame {
            samples: frame,
            muted: false,
        }),
        event matches CaptureEvent::Frame { samples, muted: false } ==> r
            == CaptureAction::Encode(samples),
        r is Write <==> event is Encoded,
        event matches CaptureEvent::Encoded { out, len } && len <= out@.len() ==> (r
            matches CaptureAction::Write(packet) && packet@.len() == event->len && packet@
            == event->out@.take(event->len as int)),
        r is Stop <==> event is Closed || event == (CaptureEvent::Written { ok: false }),
{
}

/// A packet is decoded exactly if there is something in it and the user hears; while
/// deafened it is thrown away.
pub proof fn a_packet_is_heard_unless_deafened(payload_len: nat, deafened: bool)
    ensures
        action_for(payload_len, deafened) is Decode <==> payload_len > 0 && !deafened,
        action_for(payload_len, deafened) is Discard <==> payload_len > 0 && deafened,
        action_for(payload_len, deafened) is Skip <==> payload_len == 0,
{
}

/// The newest samples are the end of all of them: as many as asked for, or all.
pub proof fn the_newest_are_the_last(s: Seq<i16>, cap: int)
    requires
        cap >= 0,
    ensures
        newest(s, cap).len() == if s.len() <= cap {
            s.len() as int
        } else {
            cap
        },
        forall|i: int|
            0 <= i < newest(s, cap).len() ==> #[trigger] newest(s, cap)[i] == s[s.len()
                - newest(s, cap).len() + i],
{
}

/// What is decoded is played after what was there; nothing is played of a packet that is
/// empty or cannot be decoded, and what was there stays.
pub proof fn decoded_audio_is_played_in_order(buffered: Seq<i16>, len: nat, audio: Seq<i16>)
    requires
        len > 0,
    ensures
        buffered.len() + audio.len() <= SAMPLE_RATE ==> after_packet(
            buffered,
            len,
            false,
            Some(audio),
        ) == buffered + audio,
        after_packet(buffered, len, false, None) == buffered,
        after_packet(buffered, 0, false, Some(audio)) == buffered,
        after_packet(buffered, 0, true, Some(audio)) == buffered,
{
}

/// A chunk is fetched exactly while too little is pending and there is something to
/// fetch; it is the oldest of what is buffered, one frame at most.
pub proof fn chunks_are_fetched_as_needed(
    pending: Seq<i16>,
    buffered: Seq<i16>,
    frames: nat,
    rest: Seq<i16>,
    chunk: Option<Seq<i16>>,
)
    requires
        chunk_post(pending, buffered, frames, rest, chunk),
    ensures
        chunk is Some <==> pending.len() < frames && buffered.len() > 0,
        chunk matches Some(taken) ==> 0 < taken.len() <= FRAME_SAMPLES && taken == buffered.take(
            taken.len() as int,
        ) && rest == buffered.skip(taken.len() as int) && (taken.len() == FRAME_SAMPLES
            || rest.len() == 0),
        chunk is None ==> rest == buffered,
{
    if let Some(taken) = chunk {
        assert(taken =~= buffered.take(taken.len() as int));
        assert(rest =~= buffered.skip(taken.len() as int));
    }
}

/// What is taken to play and what stays pending is what was pending, in order.
pub proof fn what_is_not_played_stays(pending: Seq<i16>, frames: nat)
    ensures
        padded(pending, frames).len() == frames,
        frames <= pending.len() ==> padded(pending, frames) + undrained(pending, frames) == pending,
        frames >= pending.len() ==> undrained(pending, frames).len() == 0,
        forall|i: int|
            0 <= i < frames && i < pending.len() ==> #[trigger] padded(pending, frames)[i]
                == pending[i],
{
    if frames <= pending.len() {
        assert(padded(pending, frames) + undrained(pending, frames) =~= pending);
    }
}

/// Every channel of a frame plays the frame's sample; behind the last frame there is
/// silence. A block holds as many frames as it has room for.
pub proof fn every_channel_plays_the_frame(
    mono: Seq<i16>,
    out_len: nat,
    channels: nat,
    frame: int,
    channel: int,
)
    requires
        channels > 0,
        frame >= 0,
        0 <= channel < channels,
        frame * channels + channel < out_len,
    ensures
        spread(mono, out_len, channels).len() == out_len,
        frame < mono.len() ==> spread(mono, out_len, channels)[frame * channels + channel]
            == mono[frame],
        frame >= mono.len() ==> spread(mono, out_len, channels)[frame * channels + channel] == 0,
        frames_in(channels * mono.len(), channels) == mono.len(),
{
    let c = channels as int;
    let slot = frame * c + channel;
    assert(slot >= 0) by (nonlinear_arith)
        requires
            slot == frame * c + channel,
            frame >= 0,
            c > 0,
            channel >= 0,
    ;
    vstd::arithmetic::div_mod::lemma_fundamental_div_mod_converse(slot, c, frame, channel);
    let n = mono.len() as int;
    let all = channels * mono.len();
    assert(all as int == n * c + 0) by (nonlinear_arith)
        requires
            all == channels * mono.len(),
            n == mono.len(),
            c == channels,
    ;
    vstd::arithmetic::div_mod::lemma_fundamental_div_mod_converse(all as int, c, n, 0);
    if channels == 1 {
        assert(slot == frame) by (nonlinear_arith)
            requires
                slot == frame * c + channel,
                c == 1,
                channel == 0,
        ;
        assert(all == mono.len()) by (nonlinear_arith)
            requires
                all as int == n * c + 0,
                c == 1,
                n == mono.len(),
        ;
    }
}

/// Cutting a signal into blocks does not change which samples surround a position: the
/// last sample of a block is remembered for the next one.
pub proof fn blocks_join_without_a_seam(
    last: i16,
    first: Seq<i16>,
    second: Seq<i16>,
    idx: int,
)
    requires
        first.len() > 0,
        0 <= idx < second.len(),
    ensures
        taps_at(first.last(), second, idx) == taps_at(last, first + second, first.len() + idx),
        taps_at(last, second, 0) == (last, second[0]),
        idx > 0 ==> taps_at(last, second, idx) == (second[idx - 1], second[idx]),
{
}

/// The devices of a listing go by their names, in its order; those without a name are
/// left out.
pub proof fn devices_are_listed_by_name(
    a: Seq<Option<String>>,
    b: Seq<Option<String>>,
    name: String,
)
    ensures
        named(a + b) == named(a) + named(b),
        named(seq![Some(name)]) == seq![name],
        named(seq![None::<String>]).len() == 0,
        named(Seq::<Option<String>>::empty()).len() == 0,
        known_names(None).len() == 0,
    decreases b.len(),
{
    if b.len() == 0 {
        assert(a + b =~= a);
        assert(named(a) + named(b) =~= named(a));
    } else {
        devices_are_listed_by_name(a, b.drop_last(), name);
        assert((a + b).drop_last() =~= a + b.drop_last());
        assert((a + b).last() == b.last());
        assert(named(a + b) =~= named(a) + named(b));
    }
    let one = seq![Some(name)];
    let none = seq![None::<String>];
    assert(one.drop_last() =~= Seq::empty());
    assert(none.drop_last() =~= Seq::empty());
    assert(one.last() == Some(name));
    assert(none.last() is None);
    assert(named(one.drop_last()) =~= Seq::empty());
    assert(named(one) =~= seq![name]);
}

/// A device that is listed by its name can be picked by it: what is picked has that name,
/// and is the first to have it.
pub proof fn a_listed_device_can_be_picked(
    devices: Vec<Option<String>>,
    wanted: Option<Seq<char>>,
    pick: Option<int>,
    k: int,
)
    requires
        wanted is Some,
        is_pick(pick, Some(devices), wanted),
        0 <= k < known_names(Some(devices)).len(),
        known_names(Some(devices))[k]@ == wanted->0,
    ensures
        pick matches Some(i) && 0 <= i < devices@.len() && (devices@[i] matches Some(n) && n@
            == wanted->0),
        forall|j: int|
            0 <= j < pick->0 ==> (#[trigger] devices@[j] matches Some(n) ==> n@ != wanted->0),
{
    let listing = Some(devices);
    lemma_named_is_there(devices@, k);
    let j = choose|j: int| 0 <= j < devices@.len() && devices@[j] == Some(named(devices@)[k]);
    assert(is_called(listing, j, wanted->0));
    assert forall|m: int| 0 <= m < pick->0 implies (#[trigger] devices@[m] matches Some(n) ==> n@
        != wanted->0) by {
        assert(!is_called(listing, m, wanted->0));
    }
}

/// Without a name the system default is used, and so it is where nobody has the name.
pub proof fn the_default_device_is_the_fallback(
    listing: Option<Vec<Option<String>>>,
    pick: Option<int>,
    name: Option<Seq<char>>,
)
    requires
        is_pick(pick, listing, name),
    ensures
        name is None ==> pick is None,
        listing is None ==> pick is None,
        pick matches Some(i) ==> (listing matches Some(devices) && 0 <= i < devices@.len() && (
        devices@[i] matches Some(n) && name == Some(n@))),
{
}

proof fn lemma_named_is_there(devices: Seq<Option<String>>, k: int)
    requires
        0 <= k < named(devices).len(),
    ensures
        exists|j: int| 0 <= j < devices.len() && devices[j] == Some(named(devices)[k]),
    decreases devices.len(),
{
    if devices.len() > 0 {
        let less = devices.drop_last();
        if k < named(less).len() {
            lemma_named_is_there(less, k);
            let j = choose|j: int| 0 <= j < less.len() && less[j] == Some(named(less)[k]);
            assert(devices[j] == less[j]);
        } else {
            assert(devices[devices.len() - 1] == Some(named(devices)[k]));
        }
    }
}

/// A stream is set up step by step: a device, its configuration, the stream, its start.
/// Every step that worked leads to the next one; only floating-point samples of thirty-two
/// bits and integers of sixteen are taken.
pub proof fn a_stream_is_set_up_step_by_step(
    direction: Direction,
    event: SetupEvent,
    r: Result<StreamSetup, String>,
)
    requires
        setup_post(direction, event, r),
    ensures
        event == SetupEvent::Device(false) ==> (r matches Err(e) && e@ == no_device_text(
            direction,
        )),
        event == SetupEvent::Device(true) ==> r == Ok::<StreamSetup, String>(
            StreamSetup::Configuring,
        ),
        event matches SetupEvent::Config(Ok(config)) ==> (r is Ok <==> config.format
            == SampleFormat::F32 || config.format == SampleFormat::I16),
        event matches SetupEvent::Config(Ok(config)) ==> (r matches Ok(next) ==> next
            == StreamSetup::Building(config)),
        event == SetupEvent::Built(Ok(())) ==> r == Ok::<StreamSetup, String>(
            StreamSetup::Starting,
        ),
        event == SetupEvent::Started(Ok(())) ==> r == Ok::<StreamSetup, String>(
            StreamSetup::Running,
        ),
        event == SetupEvent::Device(false) || (event matches SetupEvent::Config(Err(_))) || (event
            matches SetupEvent::Built(Err(_))) || (event matches SetupEvent::Started(Err(_))) ==> r
            is Err,
{
}

/// `t` ends in `end`.
pub open spec fn ends_in(t: Seq<char>, end: Seq<char>) -> bool {
    t.len() >= end.len() && t.skip(t.len() - end.len()) == end
}

/// A step that fails says why, at the end of its message, and which way the stream was to
/// run: microphones and speakers fail with different words.
pub proof fn a_failed_set_up_says_why(
    direction: Direction,
    event: SetupEvent,
    r: Result<StreamSetup, String>,
    why: String,
)
    requires
        setup_post(direction, event, r),
        event == SetupEvent::Config(Err(why)) || event == SetupEvent::Built(Err(why)) || event
            == SetupEvent::Started(Err(why)) || (event matches SetupEvent::Config(Ok(config))
            && config.format == SampleFormat::Other(why)),
    ensures
        r matches Err(e) && ends_in(e@, why@),
{
    let e = r->Err_0;
    assert(e@.skip(e@.len() - why@.len()) =~= why@);
}

/// The words of microphones and speakers differ.
pub proof fn directions_have_their_words()
    ensures
        direction_word(Direction::Input) != direction_word(Direction::Output),
        no_device_text(Direction::Input) != no_device_text(Direction::Output),
        direction_word(Direction::Input) == "input"@,
        direction_word(Direction::Output) == "output"@,
        no_device_text(Direction::Input) == "no input (microphone) device"@,
        no_device_text(Direction::Output) == "no output (speaker) device"@,
{
    reveal_strlit("input");
    reveal_strlit("output");
    reveal_strlit("no input (microphone) device");
    reveal_strlit("no output (speaker) device");
    assert("input"@.len() != "output"@.len());
    assert("no input (microphone) device"@.len() != "no output (speaker) device"@.len());
}

/// What the thread of a stream reported is what counts; one that died has failed.
pub proof fn a_report_counts_as_it_is(
    direction: Direction,
    ready: Option<Result<(), String>>,
    r: Result<(), String>,
)
    requires
        outcome_post(direction, ready, r),
    ensures
        ready matches Some(report) ==> r == report,
        ready is None ==> r is Err,
        r is Ok <==> (ready matches Some(Ok(_))),
{
}

/// A signal of one channel is mono as it is; of several channels, what was spread over them
/// comes back.
pub proof fn a_mono_signal_stays_as_it_is(mono: Seq<i16>, channels: nat)
    ensures
        mono_of(mono, 1) == mono.map_values(|s: i16| s as int),
        mono_of(mono, 0) == mono.map_values(|s: i16| s as int),
        channels > 1 ==> mono_of(spread(mono, mono.len() * channels, channels), channels)
            == mono.map_values(|s: i16| s as int),
        channels > 1 && mono.len() == channels ==> mono_of(mono, channels) == seq![mean(mono)],
{
    if channels > 1 {
        mixing_down_undoes_spreading(mono, channels);
        if mono.len() == channels {
            every_frame_becomes_its_mean(mono, Seq::empty(), channels);
        }
    }
}

/// Resampled audio is played behind what is pending already, all of it and in order.
pub proof fn resampled_audio_comes_behind(pending: Seq<i16>, resampled: Seq<i16>)
    ensures
        absorbed(pending, resampled).len() == pending.len() + resampled.len(),
        forall|i: int|
            0 <= i < pending.len() ==> #[trigger] absorbed(pending, resampled)[i] == pending[i],
        forall|i: int|
            0 <= i < resampled.len() ==> absorbed(pending, resampled)[pending.len() + i]
                == #[trigger] resampled[i],
{
}

/// Between equal rates every block is handed through; between different ones only an empty
/// one is. A finished block leaves its last sample for the next one and changes no rate.
pub proof fn equal_rates_are_handed_through(
    resampler: Resampler,
    block: Seq<i16>,
    next: Seq<i16>,
)
    requires
        block.len() > 0,
        next.len() > 0,
    ensures
        resampler.is_through(block) <==> resampler.from == resampler.to,
        resampler.is_through(Seq::empty()),
        resampler.finished(block).from == resampler.from && resampler.finished(block).to
            == resampler.to,
        taps_at(resampler.finished(block).last, next, 0) == (block[block.len() - 1], next[0]),
{
}

} // verus!
