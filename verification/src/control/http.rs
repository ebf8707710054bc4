//! Stream lifecycle decisions (start/stop/status) and the integer side of
//! the calibration beat.

use vstd::prelude::*;

verus! {

/// Selecting this sink starts the built-in calibration beat instead of
/// capturing audio.
pub const CALIBRATION_STREAM_NAME: &'static str = "Calibration Stream";

pub struct StartStreamRequest {
    pub sink: String,
}

pub struct StreamStatusResponse {
    pub running: bool,
    pub sink: Option<String>,
    pub udp_port: u16,
}

/// Where the streamed PCM comes from.
#[derive(Clone, Copy, Debug, PartialEq, Eq, Structural)]
pub enum StreamSource {
    Capture,
    Calibration,
}

/// The source a start request for `sink` uses.
pub open spec fn source_for(sink: Seq<char>) -> StreamSource {
    if sink == CALIBRATION_STREAM_NAME@ {
        StreamSource::Calibration
    } else {
        StreamSource::Capture
    }
}

/// Whether a stream runs, on which sink, and from which source.
pub struct StreamRuntime {
    running: bool,
    sink: Option<String>,
    source: Option<StreamSource>,
}

/// The abstract state of a `StreamRuntime`: `None` when stopped, else the
/// sink name and source of the running stream.
pub type StreamStateView = Option<(Seq<char>, StreamSource)>;

impl StreamRuntime {
    pub closed spec fn wf(&self) -> bool {
        &&& self.running <==> self.sink is Some
        &&& self.running <==> self.source is Some
    }

    pub closed spec fn state(&self) -> StreamStateView {
        if self.running {
            Some((self.sink->0@, self.source->0))
        } else {
            None
        }
    }

    pub fn new() -> (r: Self)
        ensures
            r.wf(),
            r.state() is None,
    {
        StreamRuntime { running: false, sink: None, source: None }
    }

    /// Decides how a start request for `sink` proceeds: refused while a
    /// stream runs, else from the calibration beat or from capture.
    pub fn plan_start(&self, sink: &String) -> (r: Result<StreamSource, String>)
        requires
            self.wf(),
        ensures
            self.state() is Some ==> (r matches Err(e) && e@ == "Stream already running"@),
            self.state() is None ==> r == Ok::<StreamSource, String>(source_for(sink@)),
    {
        if self.running {
            return Err(String::from_str("Stream already running"));
        }
        let calibration = String::from_str(CALIBRATION_STREAM_NAME);
        if *sink == calibration {
            Ok(StreamSource::Calibration)
        } else {
            Ok(StreamSource::Capture)
        }
    }

    /// Records that the stream for `sink` from `source` has started.
    pub fn commit_start(&mut self, sink: String, source: StreamSource)
        requires
            old(self).wf(),
            old(self).state() is None,
        ensures
            final(self).wf(),
            final(self).state() == Some((sink@, source)),
    {
        self.running = true;
        self.sink = Some(sink);
        self.source = Some(source);
    }

    /// Marks the stream as stopped and returns the source it ran from, or
    /// `None` when no stream was running (stopping is then a no-op).
    pub fn begin_stop(&mut self) -> (r: Option<StreamSource>)
        requires
            old(self).wf(),
        ensures
            final(self).wf(),
            final(self).state() is None,
            r == match old(self).state() {
                Some((_, source)) => Some(source),
                None => None,
            },
    {
        if !self.running {
            return None;
        }
        self.running = false;
        self.sink = None;
        let source = self.source;
        self.source = None;
        source
    }

    /// The status reported to the UI.
    pub fn status(&self, udp_port: u16) -> (r: StreamStatusResponse)
        requires
            self.wf(),
        ensures
            r.running == (self.state() is Some),
            r.udp_port == udp_port,
            match self.state() {
                Some((sink, _)) => r.sink matches Some(s) && s@ == sink,
                None => r.sink is None,
            },
    {
        let sink = match &self.sink {
            Some(s) => Some(s.clone()),
            None => None,
        };
        StreamStatusResponse { running: self.running, sink, udp_port }
    }
}

/// Starting a stopped stream and then asking for its status reports it
/// running on the requested sink; stopping it then reports it stopped and
/// hands back the source to shut down.
pub proof fn lemma_start_status_stop(
    s0: StreamRuntime,
    s1: StreamRuntime,
    s2: StreamRuntime,
    sink: Seq<char>,
    source: StreamSource,
    stopped: Option<StreamSource>,
)
    requires
        s0.wf(),
        s0.state() is None,
        s1.wf(),
        s1.state() == Some((sink, source)),
        s2.wf(),
        s2.state() is None,
        stopped == match s1.state() {
            Some((_, src)) => Some(src),
            None => None,
        },
    ensures
        stopped == Some(source),
{
}

/// The number of frames in `ms` milliseconds at `sample_rate`.
pub fn frames_for_ms(sample_rate: u32, ms: u64) -> (r: usize)
    requires
        sample_rate * ms <= u64::MAX,
    ensures
        r == ((sample_rate * ms) / 1000) as usize,
{
    ((sample_rate as u64 * ms) / 1000) as usize
}

/// The 16 pseudo-random bits behind the calibration noise at `index`
/// (one step of a 64-bit linear congruential generator, folded).
pub open spec fn noise_bits_of(index: u64) -> u16 {
    let x = index.wrapping_mul(6364136223846793005u64).wrapping_add(1442695040888963407u64);
    let y = x ^ (x >> 33u64);
    ((y >> 32u64) & 0xffffu64) as u16
}

pub fn noise_bits(index: u64) -> (r: u16)
    ensures
        r == noise_bits_of(index),
{
    let mut x = index.wrapping_mul(6364136223846793005u64).wrapping_add(1442695040888963407u64);
    x = x ^ (x >> 33u64);
    ((x >> 32u64) & 0xffffu64) as u16
}

/// The calibration beat runs at 100 beats per minute.
pub const CALIBRATION_BPM: u64 = 100;

/// Frame counts of a quarter note, an eighth note and a 4/4 bar.
pub open spec fn quarter_note_frames(sample_rate: u32) -> u64 {
    (sample_rate * 60 / (CALIBRATION_BPM as int)) as u64
}

/// Where, in the instrument samples, each drum of the beat is at one frame
/// of the stream: kicks on beats one and three, snares on two and four,
/// and the hi-hat on every eighth note. `None` means that drum has not been
/// hit yet in the current bar.
#[derive(Clone, Copy, Debug)]
pub struct CalibrationHits {
    pub kick_on_one: Option<u64>,
    pub kick_on_three: Option<u64>,
    pub snare_on_two: Option<u64>,
    pub snare_on_four: Option<u64>,
    pub hat: u64,
}

/// How far past a hit at `hit_frames` the position `position_frames` is.
pub open spec fn offset_after(position_frames: u64, hit_frames: u64) -> Option<u64> {
    if position_frames < hit_frames {
        None
    } else {
        Some((position_frames - hit_frames) as u64)
    }
}

pub fn offset_at_hit(position_frames: u64, hit_frames: u64) -> (r: Option<u64>)
    ensures
        r == offset_after(position_frames, hit_frames),
{
    if position_frames < hit_frames {
        None
    } else {
        Some(position_frames - hit_frames)
    }
}

/// The drum offsets at stream frame `absolute_frame`.
pub open spec fn hits_at(sample_rate: u32, absolute_frame: u64) -> CalibrationHits {
    let quarter = quarter_note_frames(sample_rate);
    let eighth = (quarter / 2) as u64;
    let bar = (quarter * 4) as u64;
    let bar_pos = absolute_frame % bar;
    CalibrationHits {
        kick_on_one: offset_after(bar_pos, 0),
        kick_on_three: offset_after(bar_pos, (quarter * 2) as u64),
        snare_on_two: offset_after(bar_pos, quarter),
        snare_on_four: offset_after(bar_pos, (quarter * 3) as u64),
        hat: absolute_frame % eighth,
    }
}

pub fn calibration_hits(sample_rate: u32, absolute_frame: u64) -> (r: CalibrationHits)
    requires
        sample_rate >= 4,
    ensures
        r == hits_at(sample_rate, absolute_frame),
{
    let quarter = sample_rate as u64 * 60 / CALIBRATION_BPM;
    let eighth = quarter / 2;
    let bar = quarter * 4;
    let bar_pos = absolute_frame % bar;
    CalibrationHits {
        kick_on_one: offset_at_hit(bar_pos, 0),
        kick_on_three: offset_at_hit(bar_pos, quarter * 2),
        snare_on_two: offset_at_hit(bar_pos, quarter),
        snare_on_four: offset_at_hit(bar_pos, quarter * 3),
        hat: absolute_frame % eighth,
    }
}

/// The stream frame that is `frame_offset` frames into frame block
/// `frame_index` of `frame_size` frames.
pub fn absolute_frame(frame_index: u64, frame_size: usize, frame_offset: usize) -> (r: u64)
    requires
        frame_index * frame_size + frame_offset <= u64::MAX,
    ensures
        r == frame_index * frame_size + frame_offset,
{
    frame_index * frame_size as u64 + frame_offset as u64
}

/// Lays one value per frame out over `channels` interleaved channels: every
/// channel of frame `i` carries `mono[i]`.
pub fn interleave_channels(mono: &Vec<i16>, channels: usize) -> (out: Vec<i16>)
    requires
        mono@.len() * channels <= usize::MAX,
    ensures
        out@.len() == mono@.len() * channels,
        forall|i: int, c: int|
            0 <= i < mono@.len() && 0 <= c < channels ==> #[trigger] out@[i * channels + c]
                == mono@[i],
{
    let mut out: Vec<i16> = Vec::new();
    let mut i: usize = 0;
    while i < mono.len()
        invariant
            i <= mono@.len(),
            mono@.len() * channels <= usize::MAX,
            out@.len() == i * channels,
            forall|k: int, c: int|
                0 <= k < i && 0 <= c < channels ==> #[trigger] out@[k * channels + c] == mono@[k],
        decreases mono@.len() - i,
    {
        let mut c: usize = 0;
        let ghost start = out@.len();
        let ghost prefix = out@;
        proof {
            assert((i + 1) * channels <= mono@.len() * channels) by (nonlinear_arith)
                requires
                    i + 1 <= mono@.len(),
            ;
            assert((i + 1) * channels == i * channels + channels) by (nonlinear_arith);
        }
        while c < channels
            invariant
                i < mono@.len(),
                c <= channels,
                start == i * channels,
                start + channels <= usize::MAX,
                out@.len() == start + c,
                out@.subrange(0, start as int) == prefix,
                forall|d: int| 0 <= d < c ==> #[trigger] out@[start + d] == mono@[i as int],
            decreases channels - c,
        {
            out.push(mono[i]);
            c += 1;
            assert(out@.subrange(0, start as int) =~= prefix);
        }
        proof {
            assert forall|k: int, d: int|
                0 <= k < i + 1 && 0 <= d < channels implies #[trigger] out@[k * channels + d]
                == mono@[k] by {
                if k == i {
                    assert(out@[start + d] == mono@[i as int]);
                } else {
                    assert(k * channels + d < i * channels) by (nonlinear_arith)
                        requires
                            0 <= k < i,
                            0 <= d < channels,
                    ;
                    assert(out@.subrange(0, start as int)[k * channels + d] == prefix[k * channels + d]);
                }
            }
        }
        i += 1;
    }
    out
}

} // verus!
