//! The integer skeleton of playback-speed change by WSOLA: the shape of the
//! audio, the window sizes, when the signal is too short for it, and which
//! positions each overlap-add frame may read.
//!
//! WSOLA lays 30 ms windows at half-window hops on the output and, for each,
//! reads the input near its nominal position `out_pos * speed`, searching
//! ±10 ms for the spot most like the natural continuation of the previous
//! frame. Signals under 2048 samples, or too short for one search, are
//! resampled linearly instead.

use vstd::prelude::*;

verus! {

/// Fewest samples per channel handled by WSOLA rather than by resampling.
pub const WSOLA_MIN_SAMPLES: usize = 2048;

/// The shape of an audio tensor.
pub enum AudioLayout {
    /// `[channels, samples]`.
    Channels { channels: usize, samples: usize },
    /// `[samples]`.
    Mono { samples: usize },
}

/// The layout of an audio tensor with dimensions `dims`; `None` for any rank
/// but 1 or 2.
pub fn audio_layout(dims: &[usize]) -> (r: Option<AudioLayout>)
    ensures
        dims@.len() == 2 ==> r == Some(AudioLayout::Channels { channels: dims@[0], samples: dims@[1] }),
        dims@.len() == 1 ==> r == Some(AudioLayout::Mono { samples: dims@[0] }),
        (dims@.len() != 1 && dims@.len() != 2) ==> r is None,
{
    if dims.len() == 2 {
        Some(AudioLayout::Channels { channels: dims[0], samples: dims[1] })
    } else if dims.len() == 1 {
        Some(AudioLayout::Mono { samples: dims[0] })
    } else {
        None
    }
}

/// Samples per channel of an audio tensor with dimensions `dims`: the last
/// dimension of a `[C, T]` or `[T]` tensor, and 0 for any other rank.
pub fn audio_num_samples(dims: &[usize]) -> (n: usize)
    ensures
        n == (if dims@.len() == 2 {
            dims@[1]
        } else if dims@.len() == 1 {
            dims@[0]
        } else {
            0
        }),
{
    match audio_layout(dims) {
        Some(AudioLayout::Channels { channels: _, samples }) => samples,
        Some(AudioLayout::Mono { samples }) => samples,
        None => 0,
    }
}

/// WSOLA window sizes, in samples.
pub struct WsolaWindow {
    /// Analysis window (30 ms).
    pub win: usize,
    /// Output hop (half a window).
    pub hop: usize,
    /// Search tolerance on either side of the nominal position (10 ms).
    pub tol: usize,
}

/// The rate the windows are sized for: the sample rate, at least 1000.
pub open spec fn analysis_rate(sample_rate: int) -> int {
    if sample_rate < 1000 {
        1000
    } else {
        sample_rate
    }
}

/// The larger of two integers.
pub open spec fn max_int(a: int, b: int) -> int {
    if a < b {
        b
    } else {
        a
    }
}

/// The smaller of two integers.
pub open spec fn min_int(a: int, b: int) -> int {
    if a < b {
        a
    } else {
        b
    }
}

/// The windows WSOLA uses at `sample_rate`.
pub open spec fn window_for(sample_rate: int) -> (int, int, int) {
    let sr = analysis_rate(sample_rate);
    let win = max_int(sr * 30 / 1000, 64);
    (win, win / 2, max_int(sr * 10 / 1000, 8))
}

impl WsolaWindow {
    /// Windows as `window_for` sizes them: at least 64 samples, hops of half
    /// a window, a tolerance of at least 8.
    pub open spec fn wf(&self) -> bool {
        &&& self.win >= 64
        &&& self.hop == self.win / 2
        &&& self.tol >= 8
    }

    /// The fewest samples one WSOLA frame needs.
    pub open spec fn min_len(&self) -> int {
        self.win + 2 * self.tol + self.hop
    }
}

/// The WSOLA windows at `sample_rate`.
pub fn wsola_window(sample_rate: usize) -> (w: WsolaWindow)
    requires
        analysis_rate(sample_rate as int) * 30 <= usize::MAX,
    ensures
        (w.win as int, w.hop as int, w.tol as int) == window_for(sample_rate as int),
        w.wf(),
{
    let sr = if sample_rate < 1000 {
        1000
    } else {
        sample_rate
    };
    let w30 = sr * 30 / 1000;
    let win = if w30 < 64 {
        64
    } else {
        w30
    };
    let w10 = sr * 10 / 1000;
    let tol = if w10 < 8 {
        8
    } else {
        w10
    };
    WsolaWindow { win, hop: win / 2, tol }
}

/// How a speed change is carried out on audio of a given shape.
pub enum SpeedMethod {
    /// Linear resampling (changes the pitch).
    Resample,
    /// WSOLA with these windows (keeps the pitch).
    Wsola(WsolaWindow),
}

/// The audio has a shape that a speed change does not accept.
pub struct ShapeError {
    /// Its dimensions.
    pub dims: Vec<usize>,
}

/// How audio with dimensions `dims` at `sample_rate` has its speed changed:
/// linear resampling for fewer than `WSOLA_MIN_SAMPLES` samples per channel
/// or too few for one WSOLA frame, WSOLA otherwise; an error for a rank
/// other than 1 or 2.
pub fn speed_method(dims: &[usize], sample_rate: usize) -> (r: Result<SpeedMethod, ShapeError>)
    requires
        dims@.len() == 2 ==> dims@[0] > 0,
        (dims@.len() == 1 || dims@.len() == 2) && dims@.last() >= WSOLA_MIN_SAMPLES
            ==> analysis_rate(sample_rate as int) * 30 <= usize::MAX,
    ensures
        r is Err <==> (dims@.len() != 1 && dims@.len() != 2),
        r matches Err(e) ==> e.dims@ == dims@,
        r matches Ok(m) ==> {
            let n = dims@.last() as int;
            let (win, hop, tol) = window_for(sample_rate as int);
            match m {
                SpeedMethod::Resample => n < WSOLA_MIN_SAMPLES || n < win + 2 * tol + hop,
                SpeedMethod::Wsola(w) => {
                    &&& n >= WSOLA_MIN_SAMPLES
                    &&& n >= win + 2 * tol + hop
                    &&& (w.win as int, w.hop as int, w.tol as int) == (win, hop, tol)
                    &&& w.wf()
                },
            }
        },
{
    let n = match audio_layout(dims) {
        Some(AudioLayout::Channels { channels: _, samples }) => samples,
        Some(AudioLayout::Mono { samples }) => samples,
        None => {
            return Err(ShapeError { dims: vstd::slice::slice_to_vec(dims) });
        },
    };
    if n < WSOLA_MIN_SAMPLES {
        return Ok(SpeedMethod::Resample);
    }
    let w = wsola_window(sample_rate);
    if n < w.win || n - w.win < w.hop || n - w.win - w.hop < w.tol || n - w.win - w.hop - w.tol < w.tol {
        Ok(SpeedMethod::Resample)
    } else {
        Ok(SpeedMethod::Wsola(w))
    }
}

/// Whether the frame laid at output position `out_pos` fits: its window lies
/// within the output buffer of `out_len` samples, and a search around its
/// nominal input position `nominal`, with the next frame's template, lies
/// within the `n` input samples.
pub open spec fn frame_fits_spec(w: WsolaWindow, out_pos: int, out_len: int, nominal: int, n: int) -> bool {
    &&& out_pos + w.win <= out_len
    &&& nominal + w.win + w.tol + w.hop < n
}

/// Whether the frame laid at `out_pos` with nominal input position `nominal`
/// fits; the frame loop stops at the first one that does not.
pub fn frame_fits(w: &WsolaWindow, out_pos: usize, out_len: usize, nominal: usize, n: usize) -> (r: bool)
    ensures
        r == frame_fits_spec(*w, out_pos as int, out_len as int, nominal as int, n as int),
        r == (out_pos + w.win <= out_len && nominal + w.win + w.tol + w.hop < n),
{
    if out_pos > out_len || out_len - out_pos < w.win {
        return false;
    }
    if nominal >= n || w.win >= n - nominal {
        return false;
    }
    let rest = n - nominal - w.win;
    w.tol < rest && w.hop < rest - w.tol
}

/// The input positions searched for a fitting frame with nominal position
/// `nominal`: `tol` samples either side, cut at 0 and at the last position a
/// whole window can start at.
pub fn search_range(w: &WsolaWindow, nominal: usize, n: usize) -> (r: (usize, usize))
    requires
        nominal + w.win + w.tol + w.hop < n,
    ensures
        r.0 == max_int(nominal - w.tol, 0),
        r.1 == min_int(nominal + w.tol, n - w.win),
        r.0 <= nominal <= r.1,
        r.1 + w.win <= n,
{
    let lo = if nominal < w.tol {
        0
    } else {
        nominal - w.tol
    };
    let hi_a = nominal + w.tol;
    let hi_b = n - w.win;
    let hi = if hi_a < hi_b {
        hi_a
    } else {
        hi_b
    };
    (lo, hi)
}

/// Frames are laid as long as the output window fits the output buffer and
/// the search around the nominal input position fits the input: the input
/// length bounds only the nominal read position, never the output position,
/// so a stretched (slowed) output is filled to its end.
pub proof fn lemma_frame_fits_exactly(w: WsolaWindow, out_pos: int, out_len: int, nominal: int, n: int)
    ensures
        frame_fits_spec(w, out_pos, out_len, nominal, n) <==> (out_pos + w.win <= out_len && nominal
            + w.win + w.tol + w.hop < n),
        // An output position past the input length does not stop a frame.
        (out_pos + w.win <= out_len && nominal + w.win + w.tol + w.hop < n && out_pos >= n)
            ==> frame_fits_spec(w, out_pos, out_len, nominal, n),
{
}

/// Every read of a fitting frame lies within the input: a window at any
/// searched position, and the template the next frame compares against,
/// which starts one hop after the chosen position.
pub proof fn lemma_frame_reads_in_bounds(
    w: WsolaWindow,
    out_pos: int,
    out_len: int,
    nominal: int,
    n: int,
    src: int,
)
    requires
        frame_fits_spec(w, out_pos, out_len, nominal, n),
        max_int(nominal - w.tol, 0) <= src <= min_int(nominal + w.tol, n - w.win),
    ensures
        0 <= src,
        src + w.win <= n,
        src + w.hop + w.win < n,
        out_pos + w.win <= out_len,
{
}

} // verus!
