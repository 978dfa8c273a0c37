//! Decision logic of the media driver: at most one transport at a time,
//! integer mixing with clamping, and the bounded playback queue.

use vstd::prelude::*;

use crate::voice::{spec_driver_ids, driver_ids, VoiceConnectionInfo, VoiceConnectionInfoV, VoiceMessage, VoiceMessageV};
use crate::models::opt_str_view;

verus! {

broadcast use vstd::std_specs::vecdeque::group_vec_dequeue_axioms;

/// Lifecycle of the one voice transport.
#[derive(Clone, Copy, Debug, PartialEq, Eq, Structural)]
pub enum MediaState {
    Idle,
    Connecting,
    Connected,
}

/// What the task owning the transport must do after a decision.
#[derive(Clone, Debug)]
pub enum MediaAction {
    /// Stop capture, then playback, then drop the transport.
    Teardown,
    /// Establish the transport from this descriptor and start the streams.
    Establish {
        info: VoiceConnectionInfo,
        input_device: Option<String>,
        output_device: Option<String>,
    },
}

/// Mathematical value of a [`MediaAction`].
#[verifier::ext_equal]
pub enum MediaActionV {
    Teardown,
    Establish {
        info: VoiceConnectionInfoV,
        input_device: Option<Seq<char>>,
        output_device: Option<Seq<char>>,
    },
}

impl DeepView for MediaAction {
    type V = MediaActionV;

    open spec fn deep_view(&self) -> MediaActionV {
        match self {
            MediaAction::Teardown => MediaActionV::Teardown,
            MediaAction::Establish { info, input_device, output_device } => {
                MediaActionV::Establish {
                    info: info@,
                    input_device: opt_str_view(input_device),
                    output_device: opt_str_view(output_device),
                }
            },
        }
    }
}

/// One media decision: the state after it and the actions it asks for.
#[verifier::ext_equal]
pub struct MediaStep {
    pub state: MediaState,
    pub out: Seq<MediaActionV>,
}

/// The decision for one driver message.  A connect whose descriptor has no
/// usable numeric ids is abandoned (the driver keeps whatever it had); an
/// acceptable connect replaces any prior transport: tear down, then
/// establish.  Leave with no transport is a no-op.
pub open spec fn spec_media_step(st: MediaState, msg: VoiceMessageV) -> MediaStep {
    match msg {
        VoiceMessageV::Connect { info, input_device, output_device } => {
            if spec_driver_ids(info) is None {
                MediaStep { state: st, out: seq![] }
            } else {
                let establish = MediaActionV::Establish { info, input_device, output_device };
                if st is Idle {
                    MediaStep { state: MediaState::Connecting, out: seq![establish] }
                } else {
                    MediaStep {
                        state: MediaState::Connecting,
                        out: seq![MediaActionV::Teardown, establish],
                    }
                }
            }
        },
        VoiceMessageV::Leave => {
            if st is Idle {
                MediaStep { state: MediaState::Idle, out: seq![] }
            } else {
                MediaStep { state: MediaState::Idle, out: seq![MediaActionV::Teardown] }
            }
        },
    }
}

/// Owns the lifecycle of the one voice transport.
pub struct MediaSession {
    pub state: MediaState,
}

impl MediaSession {
    /// A fresh driver with no transport.
    pub fn new() -> (r: Self)
        ensures
            r.state == MediaState::Idle,
    {
        MediaSession { state: MediaState::Idle }
    }

    /// Decide what to do for one message from the gateway.
    pub fn on_message(&mut self, msg: VoiceMessage) -> (acts: Vec<MediaAction>)
        ensures
            final(self).state == spec_media_step(old(self).state, msg@).state,
            acts.deep_view() == spec_media_step(old(self).state, msg@).out,
    {
        let mut acts: Vec<MediaAction> = Vec::new();
        match msg {
            VoiceMessage::Connect { info, input_device, output_device } => {
                if driver_ids(&info).is_none() {
                    proof {
                        assert(acts.deep_view() =~~= spec_media_step(
                            old(self).state,
                            msg@,
                        ).out);
                    }
                    return acts;
                }
                if !matches!(self.state, MediaState::Idle) {
                    acts.push(MediaAction::Teardown);
                }
                acts.push(MediaAction::Establish { info, input_device, output_device });
                self.state = MediaState::Connecting;
            },
            VoiceMessage::Leave => {
                if !matches!(self.state, MediaState::Idle) {
                    acts.push(MediaAction::Teardown);
                }
                self.state = MediaState::Idle;
            },
        }
        proof {
            assert(acts.deep_view() =~~= spec_media_step(old(self).state, msg@).out);
        }
        acts
    }

    /// Record how the establishment attempt ended: connected, or back to
    /// idle when the device or the transport failed.
    pub fn on_establish_result(&mut self, ok: bool)
        requires
            old(self).state == MediaState::Connecting,
        ensures
            final(self).state == if ok {
                MediaState::Connected
            } else {
                MediaState::Idle
            },
    {
        self.state = if ok {
            MediaState::Connected
        } else {
            MediaState::Idle
        };
    }
}

/// Leave is idempotent: with no transport it does nothing, and a second
/// Leave right after a first one is side-effect-free both in state and in
/// actions.
pub proof fn lemma_leave_idempotent(st: MediaState)
    ensures
        spec_media_step(st, VoiceMessageV::Leave).state == MediaState::Idle,
        st is Idle ==> spec_media_step(st, VoiceMessageV::Leave) == (MediaStep {
            state: st,
            out: Seq::<MediaActionV>::empty(),
        }),
        spec_media_step(
            spec_media_step(st, VoiceMessageV::Leave).state,
            VoiceMessageV::Leave,
        ) == (MediaStep { state: MediaState::Idle, out: Seq::<MediaActionV>::empty() }),
{
    assert(spec_media_step(MediaState::Idle, VoiceMessageV::Leave).out =~= Seq::<
        MediaActionV,
    >::empty());
    if st is Idle {
        assert(spec_media_step(st, VoiceMessageV::Leave) =~~= (MediaStep {
            state: st,
            out: Seq::<MediaActionV>::empty(),
        }));
    }
    assert(spec_media_step(
        spec_media_step(st, VoiceMessageV::Leave).state,
        VoiceMessageV::Leave,
    ) =~~= (MediaStep { state: MediaState::Idle, out: Seq::<MediaActionV>::empty() }));
}

/// The sample a frame contributes at position `i`: its own, or silence past
/// its end.
pub open spec fn spec_sample(f: Seq<i16>, i: int) -> int {
    if 0 <= i < f.len() {
        f[i] as int
    } else {
        0
    }
}

/// Sum of the samples the first `upto` frames contribute at position `i`.
pub open spec fn spec_mix_sum(frames: Seq<Seq<i16>>, upto: int, i: int) -> int
    decreases upto,
{
    if upto <= 0 {
        0
    } else {
        spec_mix_sum(frames, upto - 1, i) + spec_sample(frames[upto - 1], i)
    }
}

/// Clamp a mixed value to the valid sample range.
pub open spec fn spec_clamp_i16(v: int) -> i16 {
    if v < -32768 {
        -32768i16
    } else if v > 32767 {
        32767i16
    } else {
        v as i16
    }
}

/// Length of the longest of the first `upto` frames.
pub open spec fn spec_max_frame_len(frames: Seq<Seq<i16>>, upto: int) -> int
    decreases upto,
{
    if upto <= 0 {
        0
    } else {
        let prev = spec_max_frame_len(frames, upto - 1);
        if frames[upto - 1].len() > prev {
            frames[upto - 1].len() as int
        } else {
            prev
        }
    }
}

proof fn lemma_mix_sum_bound(frames: Seq<Seq<i16>>, upto: int, i: int)
    requires
        upto >= 0,
    ensures
        -32768 * upto <= spec_mix_sum(frames, upto, i) <= 32767 * upto,
    decreases upto,
{
    if upto > 0 {
        lemma_mix_sum_bound(frames, upto - 1, i);
    }
}

/// Mix the decoded frames of all current speakers into one buffer by
/// integer summation, clamped to the valid sample range, silence-extending
/// the shorter frames.
pub fn mix_frames(frames: &Vec<Vec<i16>>) -> (out: Vec<i16>)
    requires
        frames@.len() <= 0x1000_0000,
    ensures
        out@.len() == spec_max_frame_len(frames.deep_view(), frames@.len() as int),
        forall|i: int|
            0 <= i < out@.len() ==> out@[i] == spec_clamp_i16(
                spec_mix_sum(frames.deep_view(), frames@.len() as int, i),
            ),
{
    let ghost fv = frames.deep_view();
    let n = frames.len();
    let mut maxlen: usize = 0;
    let mut j: usize = 0;
    while j < n
        invariant
            j <= n,
            n == frames@.len(),
            fv == frames.deep_view(),
            maxlen == spec_max_frame_len(fv, j as int),
            maxlen <= usize::MAX,
        decreases n - j,
    {
        let l = frames[j].len();
        proof {
            assert(fv[j as int] =~= frames@[j as int]@);
        }
        if l > maxlen {
            maxlen = l;
        }
        j = j + 1;
    }
    let mut out: Vec<i16> = Vec::new();
    let mut i: usize = 0;
    while i < maxlen
        invariant
            i <= maxlen,
            n == frames@.len(),
            n <= 0x1000_0000,
            fv == frames.deep_view(),
            maxlen == spec_max_frame_len(fv, n as int),
            out@.len() == i,
            forall|k: int|
                0 <= k < i ==> out@[k] == spec_clamp_i16(spec_mix_sum(fv, n as int, k)),
        decreases maxlen - i,
    {
        let mut acc: i64 = 0;
        let mut j2: usize = 0;
        while j2 < n
            invariant
                j2 <= n,
                n == frames@.len(),
                n <= 0x1000_0000,
                fv == frames.deep_view(),
                acc == spec_mix_sum(fv, j2 as int, i as int),
                -32768 * (j2 as int) <= acc <= 32767 * (j2 as int),
            decreases n - j2,
        {
            let f = &frames[j2];
            proof {
                assert(fv[j2 as int] =~= f@);
                lemma_mix_sum_bound(fv, j2 as int, i as int);
            }
            if i < f.len() {
                acc = acc + (f[i] as i64);
            }
            j2 = j2 + 1;
        }
        let sample: i16 = if acc < -32768 {
            -32768i16
        } else if acc > 32767 {
            32767i16
        } else {
            acc as i16
        };
        out.push(sample);
        i = i + 1;
    }
    out
}

/// Little-endian bytes of one 32-bit sample.
pub open spec fn spec_le_bytes(s: u32) -> Seq<u8> {
    seq![
        (s & 0xff) as u8,
        ((s >> 8) & 0xff) as u8,
        ((s >> 16) & 0xff) as u8,
        ((s >> 24) & 0xff) as u8,
    ]
}

/// The byte stream of the first `upto` samples.
pub open spec fn spec_samples_bytes(samples: Seq<u32>, upto: int) -> Seq<u8>
    decreases upto,
{
    if upto <= 0 {
        Seq::empty()
    } else {
        spec_samples_bytes(samples, upto - 1) + spec_le_bytes(samples[upto - 1])
    }
}

/// Put a byte where it belongs: into the read buffer while it has room,
/// into the carried remainder once it is full.
fn place_byte(out: &mut Vec<u8>, rest: &mut Vec<u8>, want: usize, b: u8)
    requires
        old(out)@.len() <= want,
    ensures
        old(out)@.len() < want ==> final(out)@ == old(out)@.push(b) && final(rest)@ == old(
            rest,
        )@,
        old(out)@.len() >= want ==> final(rest)@ == old(rest)@.push(b) && final(out)@ == old(
            out,
        )@,
        final(out)@.len() <= want,
{
    if out.len() < want {
        out.push(b);
    } else {
        rest.push(b);
    }
}

/// Carries the split remainder of a sample between reads of the capture
/// byte stream, so that samples cross read boundaries whole and in order.
pub struct SampleChunker {
    pending: Vec<u8>,
}

impl View for SampleChunker {
    type V = Seq<u8>;

    closed spec fn view(&self) -> Seq<u8> {
        self.pending@
    }
}

impl SampleChunker {
    /// Less than one sample's worth of bytes is ever carried.
    pub open spec fn wf(&self) -> bool {
        self@.len() < 4
    }

    /// A chunker with nothing carried over.
    pub fn new() -> (r: Self)
        ensures
            r.wf(),
            r@ == Seq::<u8>::empty(),
    {
        SampleChunker { pending: Vec::new() }
    }

    /// Read up to `want` bytes: first the carried remainder, then whole
    /// samples, splitting the last sample used when the buffer fills
    /// mid-sample.  Returns the bytes and how many samples were consumed;
    /// it never waits for more input, so the driver is never stuck.
    pub fn read_bytes(&mut self, samples: &Vec<u32>, want: usize) -> (r: (Vec<u8>, usize))
        requires
            old(self).wf(),
        ensures
            final(self).wf(),
            r.1 <= samples@.len(),
            r.0@ + final(self)@ == old(self)@ + spec_samples_bytes(samples@, r.1 as int),
            r.0@.len() <= want,
            r.0@.len() < want ==> r.1 == samples@.len() && final(self)@.len() == 0,
    {
        let mut out: Vec<u8> = Vec::new();
        let mut rest: Vec<u8> = Vec::new();
        let pn = self.pending.len();
        let mut i: usize = 0;
        proof {
            assert(out@ + rest@ =~= old(self)@.take(0));
        }
        while i < pn
            invariant
                i <= pn,
                pn == old(self)@.len(),
                pn < 4,
                self@ == old(self)@,
                out@ + rest@ == old(self)@.take(i as int),
                out@.len() <= want,
                rest@.len() > 0 ==> out@.len() == want,
            decreases pn - i,
        {
            let b = self.pending[i];
            proof {
                if out@.len() < want {
                    assert(rest@.len() == 0);
                    assert((out@.push(b)) + rest@ =~= (out@ + rest@).push(b));
                } else {
                    assert(out@ + (rest@.push(b)) =~= (out@ + rest@).push(b));
                }
                assert(old(self)@.take(i + 1) =~= old(self)@.take(i as int).push(old(self)@[
                    i as int
                ]));
            }
            place_byte(&mut out, &mut rest, want, b);
            i = i + 1;
        }
        proof {
            assert(old(self)@.take(pn as int) =~= old(self)@);
        }
        let ns = samples.len();
        let mut k: usize = 0;
        proof {
            assert(out@ + rest@ =~= old(self)@ + spec_samples_bytes(samples@, 0));
        }
        while k < ns && out.len() < want
            invariant
                k <= ns,
                ns == samples@.len(),
                out@ + rest@ == old(self)@ + spec_samples_bytes(samples@, k as int),
                out@.len() <= want,
                rest@.len() < 4,
                rest@.len() > 0 ==> out@.len() == want,
            decreases ns - k,
        {
            let s = samples[k];
            proof {
                assert(s & 0xff < 256 && (s >> 8) & 0xff < 256 && (s >> 16) & 0xff < 256 && (s
                    >> 24) & 0xff < 256) by (bit_vector);
            }
            let b0 = (s & 0xff) as u8;
            let b1 = ((s >> 8) & 0xff) as u8;
            let b2 = ((s >> 16) & 0xff) as u8;
            let b3 = ((s >> 24) & 0xff) as u8;
            let ghost base = out@ + rest@;
            let ghost rest0 = rest@;
            proof {
                assert(rest0.len() == 0);
            }
            place_byte(&mut out, &mut rest, want, b0);
            proof {
                assert(out@ + rest@ =~= base.push(b0));
            }
            place_byte(&mut out, &mut rest, want, b1);
            proof {
                assert(out@ + rest@ =~= base.push(b0).push(b1));
            }
            place_byte(&mut out, &mut rest, want, b2);
            proof {
                assert(out@ + rest@ =~= base.push(b0).push(b1).push(b2));
            }
            place_byte(&mut out, &mut rest, want, b3);
            proof {
                assert(out@ + rest@ =~= base.push(b0).push(b1).push(b2).push(b3));
                assert(spec_le_bytes(s) =~= seq![b0, b1, b2, b3]);
                assert(spec_samples_bytes(samples@, k + 1) =~= spec_samples_bytes(
                    samples@,
                    k as int,
                ) + spec_le_bytes(s));
                assert(out@ + rest@ =~= old(self)@ + spec_samples_bytes(samples@, k + 1));
            }
            k = k + 1;
        }
        self.pending = rest;
        (out, k)
    }
}

/// About two seconds of stereo samples: the cap of the playback queue.
pub const MAX_QUEUED_SAMPLES: usize = 48000 * 2 * 2;

/// The bounded playback queue between the mixing handler and the output
/// device callback.  Only constant-time pushes and pops run inside the
/// device callback's critical section; overflow drops the oldest samples
/// first so latency stays capped.
pub struct PlaybackQueue {
    buf: std::collections::VecDeque<i16>,
}

impl View for PlaybackQueue {
    type V = Seq<i16>;

    closed spec fn view(&self) -> Seq<i16> {
        self.buf@
    }
}

impl PlaybackQueue {
    /// An empty queue.
    pub fn new() -> (r: Self)
        ensures
            r@ == Seq::<i16>::empty(),
    {
        PlaybackQueue { buf: std::collections::VecDeque::new() }
    }

    pub fn len(&self) -> (r: usize)
        ensures
            r == self@.len(),
    {
        self.buf.len()
    }

    /// Enqueue a mixed buffer for playback.
    pub fn push_samples(&mut self, samples: &Vec<i16>)
        requires
            old(self)@.len() + samples@.len() <= usize::MAX,
        ensures
            final(self)@ == old(self)@ + samples@,
    {
        let mut k: usize = 0;
        while k < samples.len()
            invariant
                k <= samples@.len(),
                old(self)@.len() + samples@.len() <= usize::MAX,
                self@ == old(self)@ + samples@.take(k as int),
            decreases samples@.len() - k,
        {
            self.buf.push_back(samples[k]);
            proof {
                assert(samples@.take(k + 1) =~= samples@.take(k as int).push(samples@[k as int]));
                assert(self@ =~= old(self)@ + samples@.take(k + 1));
            }
            k = k + 1;
        }
        proof {
            assert(samples@.take(samples@.len() as int) =~= samples@);
        }
    }

    /// The next sample for the output device, or silence when the queue has
    /// run dry: the device callback must never block.
    pub fn pop_or_silence(&mut self) -> (r: i16)
        ensures
            old(self)@.len() > 0 ==> r == old(self)@[0] && final(self)@ == old(self)@.drop_first(),
            old(self)@.len() == 0 ==> r == 0 && final(self)@ == old(self)@,
    {
        match self.buf.pop_front() {
            Some(s) => s,
            None => 0,
        }
    }

    /// Drop the oldest samples beyond the cap, keeping the newest.
    pub fn trim_excess(&mut self)
        ensures
            final(self)@ == old(self)@.skip(
                if old(self)@.len() > MAX_QUEUED_SAMPLES {
                    old(self)@.len() - MAX_QUEUED_SAMPLES
                } else {
                    0
                },
            ),
    {
        proof {
            assert(self@ =~= old(self)@.skip(0));
        }
        while self.buf.len() > MAX_QUEUED_SAMPLES
            invariant
                self@ == old(self)@.skip((old(self)@.len() - self@.len()) as int),
                self@.len() <= old(self)@.len(),
                self@.len() >= MAX_QUEUED_SAMPLES || self@.len() == old(self)@.len(),
            decreases self@.len(),
        {
            let ghost before = self@;
            self.buf.pop_front();
            proof {
                assert(self@ =~= before.drop_first());
                assert(self@ =~= old(self)@.skip((old(self)@.len() - self@.len()) as int));
            }
        }
        proof {
            assert(old(self)@.skip(0) =~= old(self)@);
            assert(self@ =~= old(self)@.skip(
                if old(self)@.len() > MAX_QUEUED_SAMPLES {
                    old(self)@.len() - MAX_QUEUED_SAMPLES
                } else {
                    0
                },
            ));
        }
    }
}

} // verus!
