//! Output format, full scale, clipping and the pre-flight render plan.

use vstd::prelude::*;
use vstd::arithmetic::power2::{pow2, lemma2_to64, lemma_pow2_unfold, lemma_pow2_strictly_increases};
use crate::dispatch::{SoundType, WindowType, sound_named, window_named, match_sound, match_window};
use crate::error::RenderError;

verus! {

/// The format descriptor handed to the sink.
#[derive(Clone, Copy, Debug, PartialEq, Eq, Structural)]
pub struct Format {
    /// Samples per second.
    pub sample_rate: u32,
    /// Bits per integer sample.
    pub bits_per_sample: u16,
    /// Number of channels.
    pub channels: u16,
}

impl Format {
    /// A positive sample rate, at least one channel, and a bit depth of 8,
    /// 16, 24 or 32.
    pub open spec fn is_supported(&self) -> bool {
        &&& self.sample_rate > 0
        &&& self.channels >= 1
        &&& (self.bits_per_sample == 8 || self.bits_per_sample == 16
            || self.bits_per_sample == 24 || self.bits_per_sample == 32)
    }

    /// Accepts exactly the supported formats.
    pub fn check(&self) -> (r: Result<(), RenderError>)
        ensures
            r == (if self.is_supported() {
                Ok(())
            } else {
                Err(RenderError::UnsupportedFormat)
            }),
    {
        let bits = self.bits_per_sample;
        if self.sample_rate > 0 && self.channels >= 1 && (bits == 8 || bits == 16 || bits == 24
            || bits == 32) {
            Ok(())
        } else {
            Err(RenderError::UnsupportedFormat)
        }
    }
}

/// The largest code magnitude at a bit depth: `2^(bits-1) - 1`.
pub open spec fn full_scale_spec(bits: nat) -> int {
    pow2((bits - 1) as nat) - 1
}

/// The largest code magnitude at a bit depth, also the clipping limit.
pub fn full_scale(bits: u16) -> (r: i32)
    requires
        2 <= bits <= 32,
    ensures
        r == full_scale_spec(bits as nat),
        r >= 1,
{
    let mut p: u32 = 1;
    let mut i: u16 = 0;
    proof {
        lemma2_to64();
    }
    while i + 1 < bits
        invariant
            i < bits <= 32,
            p == pow2(i as nat),
            pow2(31) == 0x8000_0000,
        decreases bits - i,
    {
        proof {
            lemma_pow2_unfold((i + 1) as nat);
            if i + 1 < 31 {
                lemma_pow2_strictly_increases((i + 1) as nat, 31);
            }
        }
        p = 2 * p;
        i = i + 1;
    }
    proof {
        if i < 31 {
            lemma_pow2_strictly_increases(i as nat, 31);
        }
        if i > 0 {
            lemma_pow2_strictly_increases(0, i as nat);
        }
    }
    (p - 1) as i32
}

/// A code limited to `[-limit, limit]`.
pub open spec fn clipped(code: int, limit: int) -> int {
    if code > limit {
        limit
    } else if code < -limit {
        -limit
    } else {
        code
    }
}

/// Hard-limits a composed sample code to the symmetric range of the full
/// scale: a magnitude above `full_scale` comes out as `full_scale` with the
/// sample's sign, anything else unchanged.
pub fn clip_code(code: i64, full_scale: i32) -> (r: i32)
    requires
        full_scale >= 0,
    ensures
        r == clipped(code as int, full_scale as int),
        code > full_scale ==> r == full_scale,
        code < -full_scale ==> r == -full_scale,
        -full_scale <= r <= full_scale,
{
    if code > full_scale as i64 {
        full_scale
    } else if code < -(full_scale as i64) {
        -full_scale
    } else {
        code as i32
    }
}

/// Clips a whole buffer of composed sample codes, in order.
pub fn clip_codes(codes: &Vec<i64>, full_scale: i32) -> (r: Vec<i32>)
    requires
        full_scale >= 0,
    ensures
        r@.len() == codes@.len(),
        forall|i: int| 0 <= i < codes@.len() ==> r@[i] == clipped(#[trigger] codes@[i] as int, full_scale as int),
{
    let mut out: Vec<i32> = Vec::with_capacity(codes.len());
    let mut i: usize = 0;
    while i < codes.len()
        invariant
            full_scale >= 0,
            i <= codes@.len(),
            out@.len() == i,
            forall|j: int| 0 <= j < i ==> out@[j] == clipped(#[trigger] codes@[j] as int, full_scale as int),
        decreases codes@.len() - i,
    {
        out.push(clip_code(codes[i], full_scale));
        i = i + 1;
    }
    out
}

/// Everything a render needs once its configuration has been validated.
#[derive(Clone, Copy, Debug, PartialEq, Eq, Structural)]
pub struct RenderPlan {
    /// The generator to run.
    pub sound: SoundType,
    /// The envelope to apply.
    pub window: WindowType,
    /// The output format.
    pub format: Format,
    /// How many samples to render.
    pub total_samples: u32,
    /// The clipping limit and scale of one unit of signal.
    pub full_scale: i32,
}

/// The outcome of validating a render configuration: the generator name is
/// checked first, then the window name, then the format.
pub open spec fn plan_spec(
    sound_name: Seq<char>,
    window_name: Seq<char>,
    format: Format,
    total_samples: u32,
) -> Result<RenderPlan, RenderError> {
    match sound_named(sound_name) {
        None => Err(RenderError::UnrecognizedSound),
        Some(sound) => match window_named(window_name) {
            None => Err(RenderError::UnrecognizedWindow),
            Some(window) => if format.is_supported() {
                Ok(
                    RenderPlan {
                        sound,
                        window,
                        format,
                        total_samples,
                        full_scale: full_scale_spec(format.bits_per_sample as nat) as i32,
                    },
                )
            } else {
                Err(RenderError::UnsupportedFormat)
            },
        },
    }
}

/// Validates a whole render configuration before any output exists.
pub fn plan_render(sound_type: &str, window_type: &str, format: Format, total_samples: u32) -> (r:
    Result<RenderPlan, RenderError>)
    ensures
        r == plan_spec(sound_type@, window_type@, format, total_samples),
{
    let sound = match match_sound(sound_type) {
        Ok(s) => s,
        Err(e) => return Err(e),
    };
    let window = match match_window(window_type) {
        Ok(w) => w,
        Err(e) => return Err(e),
    };
    match format.check() {
        Ok(()) => {},
        Err(e) => return Err(e),
    }
    let full_scale = full_scale(format.bits_per_sample);
    Ok(RenderPlan { sound, window, format, total_samples, full_scale })
}

} // verus!
