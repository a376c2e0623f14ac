//! Name resolution for generators and envelope windows.
//!
//! Every generator and every window is reachable under a fixed set of
//! case-sensitive aliases. The tables below are the only place where names
//! are read; everything downstream works on the enums.

use vstd::prelude::*;
use crate::error::RenderError;

verus! {

/// Compares two strings character by character.
pub fn same_name(a: &str, b: &str) -> (r: bool)
    ensures
        r == (a@ == b@),
{
    let n = a.unicode_len();
    if n != b.unicode_len() {
        return false;
    }
    let mut i: usize = 0;
    while i < n
        invariant
            n == a@.len(),
            n == b@.len(),
            i <= n,
            forall|j: int| 0 <= j < i ==> a@[j] == b@[j],
        decreases n - i,
    {
        if a.get_char(i) != b.get_char(i) {
            return false;
        }
        i = i + 1;
    }
    assert(a@ =~= b@);
    true
}

/// The signal generators.
#[derive(Clone, Copy, Debug, PartialEq, Eq, Structural)]
pub enum SoundType {
    /// Constant zero.
    Silence,
    /// Constant one (DC offset).
    Dc,
    /// Sine at the base frequency.
    Sine,
    /// Cosine at the base frequency.
    Cosine,
    /// Sine whose frequency moves linearly from the minimum to the maximum.
    SweepLinear,
    /// Sine whose frequency moves linearly in log-frequency.
    SweepExponential,
    /// Sine hard-clipped to the first parameter.
    ClipSine,
    /// Sine rounded to a virtual bit depth.
    QuantSine,
    /// Sawtooth.
    Saw,
    /// Square.
    Square,
    /// Triangle.
    Triangle,
    /// Pulse with a fixed duty cycle.
    Pulse,
    /// Pulse whose duty cycle moves linearly between the two parameters.
    PulseSweepWidth,
    /// Sharktooth.
    Sharktooth,
    /// A single one at the offset sample.
    UnitImpulse,
    /// One impulse per period.
    DiracComb,
    /// Unscaled uniform noise.
    RandomUniform,
    /// Scaled uniform white noise.
    WhiteUniform,
    /// Scaled Gaussian white noise.
    WhiteNormal,
    /// Scaled triangular white noise.
    WhiteTriangular,
    /// Scaled coin-flip white noise.
    WhiteBinary,
    /// Pink noise from the three-pole filter.
    PinkEcon,
    /// Pink noise from the seven-pole filter.
    PinkRefined,
    /// Low-passed uniform noise.
    Brown,
    /// High-passed three-pole pink noise.
    BlueEcon,
    /// High-passed seven-pole pink noise.
    BlueRefined,
    /// High-passed uniform noise.
    Violet,
    /// Sparse signs of uniform noise.
    PseudoVelvet,
}

/// The generator that a name selects, if any.
pub open spec fn sound_named(name: Seq<char>) -> Option<SoundType> {
    if name == "silence"@ ||
        name == "silent"@ ||
        name == "zero"@ ||
        name == "null"@ {
        Some(SoundType::Silence)
    } else if name == "dc"@ ||
        name == "dc_offset"@ ||
        name == "offset"@ ||
        name == "constant"@ ||
        name == "const"@ {
        Some(SoundType::Dc)
    } else if name == "sin"@ ||
        name == "sine"@ ||
        name == "sine_wave"@ ||
        name == "sinusoid"@ {
        Some(SoundType::Sine)
    } else if name == "cos"@ ||
        name == "cosine"@ ||
        name == "cosine_wave"@ {
        Some(SoundType::Cosine)
    } else if name == "sweep_lin"@ ||
        name == "sweep_lin_sin"@ ||
        name == "sweep_linear"@ ||
        name == "chirp_lin"@ ||
        name == "chirp_linear"@ ||
        name == "lss"@ {
        Some(SoundType::SweepLinear)
    } else if name == "sweep"@ ||
        name == "sweep_log"@ ||
        name == "sweep_sin"@ ||
        name == "sweep_log_sin"@ ||
        name == "chirp"@ ||
        name == "chirp_log"@ ||
        name == "chirp_exp"@ ||
        name == "ess"@ ||
        name == "sweep_exp"@ ||
        name == "sweep_exp_sin"@ ||
        name == "log_sweep"@ ||
        name == "exp_sweep"@ {
        Some(SoundType::SweepExponential)
    } else if name == "clip_sin"@ ||
        name == "clip_sine"@ ||
        name == "clipped_sine"@ ||
        name == "hardclip_sine"@ ||
        name == "hard_clip_sine"@ ||
        name == "hardclipped_sine"@ ||
        name == "hard_clipped_sine"@ {
        Some(SoundType::ClipSine)
    } else if name == "quantized_sine"@ ||
        name == "quantized_sin"@ ||
        name == "quant_sine"@ ||
        name == "quant_sin"@ {
        Some(SoundType::QuantSine)
    } else if name == "saw"@ ||
        name == "sawtooth"@ ||
        name == "saw_wave"@ {
        Some(SoundType::Saw)
    } else if name == "sqr"@ ||
        name == "square"@ ||
        name == "square_wave"@ {
        Some(SoundType::Square)
    } else if name == "tri"@ ||
        name == "triangle"@ ||
        name == "triangle_wave"@ {
        Some(SoundType::Triangle)
    } else if name == "pw"@ ||
        name == "pwm"@ ||
        name == "pulse"@ ||
        name == "pulse_wave"@ {
        Some(SoundType::Pulse)
    } else if name == "pw_sweep"@ ||
        name == "pwm_sweep"@ ||
        name == "pulse_width_sweep"@ {
        Some(SoundType::PulseSweepWidth)
    } else if name == "shark"@ ||
        name == "sharktooth"@ ||
        name == "sharktooth_wave"@ {
        Some(SoundType::Sharktooth)
    } else if name == "unit_impulse"@ ||
        name == "dirac"@ ||
        name == "delta"@ ||
        name == "kronecker"@ ||
        name == "dirac_delta"@ ||
        name == "kronecker_delta"@ ||
        name == "click"@ {
        Some(SoundType::UnitImpulse)
    } else if name == "dirac_comb"@ ||
        name == "impulse_train"@ ||
        name == "needle"@ ||
        name == "comb"@ ||
        name == "needle_pulse"@ ||
        name == "sha"@ {
        Some(SoundType::DiracComb)
    } else if name == "random"@ ||
        name == "noise"@ ||
        name == "random_noise"@ {
        Some(SoundType::RandomUniform)
    } else if name == "white"@ ||
        name == "white_random"@ ||
        name == "white_uniform"@ ||
        name == "white_noise"@ {
        Some(SoundType::WhiteUniform)
    } else if name == "white_normal"@ ||
        name == "white_random_normal"@ ||
        name == "white_gaussian"@ ||
        name == "white_random_gaussian"@ ||
        name == "white_gauss"@ ||
        name == "gaussian_noise"@ {
        Some(SoundType::WhiteNormal)
    } else if name == "white_tri"@ ||
        name == "white_triangle"@ ||
        name == "white_triangular"@ ||
        name == "triangular_noise"@ {
        Some(SoundType::WhiteTriangular)
    } else if name == "white_binary"@ ||
        name == "white_bin"@ ||
        name == "white_bernoulli"@ ||
        name == "binary_noise"@ ||
        name == "bernoulli_noise"@ {
        Some(SoundType::WhiteBinary)
    } else if name == "pink"@ ||
        name == "pink_kellet_econ"@ ||
        name == "pke"@ ||
        name == "pink_noise"@ {
        Some(SoundType::PinkEcon)
    } else if name == "pink_ref"@ ||
        name == "pink_kellet_ref"@ ||
        name == "pk3"@ {
        Some(SoundType::PinkRefined)
    } else if name == "brown"@ ||
        name == "red"@ ||
        name == "brownian"@ ||
        name == "brown_ema"@ ||
        name == "brown_noise"@ {
        Some(SoundType::Brown)
    } else if name == "blue"@ ||
        name == "azure"@ ||
        name == "blue_pke"@ ||
        name == "blue_pke_ema"@ ||
        name == "blue_noise"@ {
        Some(SoundType::BlueEcon)
    } else if name == "blue_pk3"@ ||
        name == "blue_pk3_ema"@ ||
        name == "blue_ref"@ ||
        name == "blue_ref_ema"@ {
        Some(SoundType::BlueRefined)
    } else if name == "violet"@ ||
        name == "purple"@ ||
        name == "violet_ema"@ ||
        name == "violet_noise"@ ||
        name == "purple_noise"@ {
        Some(SoundType::Violet)
    } else if name == "pseudo_velvet"@ ||
        name == "pseudo_velvet_noise"@ ||
        name == "pseudo_velvet_consecutive"@ {
        Some(SoundType::PseudoVelvet)
    } else {
        None
    }
}

/// Resolves a generator name.
pub fn match_sound(name: &str) -> (r: Result<SoundType, RenderError>)
    ensures
        r == (match sound_named(name@) {
            Some(k) => Ok(k),
            None => Err(RenderError::UnrecognizedSound),
        }),
{
    if same_name(name, "silence") ||
        same_name(name, "silent") ||
        same_name(name, "zero") ||
        same_name(name, "null") {
        Ok(SoundType::Silence)
    } else if same_name(name, "dc") ||
        same_name(name, "dc_offset") ||
        same_name(name, "offset") ||
        same_name(name, "constant") ||
        same_name(name, "const") {
        Ok(SoundType::Dc)
    } else if same_name(name, "sin") ||
        same_name(name, "sine") ||
        same_name(name, "sine_wave") ||
        same_name(name, "sinusoid") {
        Ok(SoundType::Sine)
    } else if same_name(name, "cos") ||
        same_name(name, "cosine") ||
        same_name(name, "cosine_wave") {
        Ok(SoundType::Cosine)
    } else if same_name(name, "sweep_lin") ||
        same_name(name, "sweep_lin_sin") ||
        same_name(name, "sweep_linear") ||
        same_name(name, "chirp_lin") ||
        same_name(name, "chirp_linear") ||
        same_name(name, "lss") {
        Ok(SoundType::SweepLinear)
    } else if same_name(name, "sweep") ||
        same_name(name, "sweep_log") ||
        same_name(name, "sweep_sin") ||
        same_name(name, "sweep_log_sin") ||
        same_name(name, "chirp") ||
        same_name(name, "chirp_log") ||
        same_name(name, "chirp_exp") ||
        same_name(name, "ess") ||
        same_name(name, "sweep_exp") ||
        same_name(name, "sweep_exp_sin") ||
        same_name(name, "log_sweep") ||
        same_name(name, "exp_sweep") {
        Ok(SoundType::SweepExponential)
    } else if same_name(name, "clip_sin") ||
        same_name(name, "clip_sine") ||
        same_name(name, "clipped_sine") ||
        same_name(name, "hardclip_sine") ||
        same_name(name, "hard_clip_sine") ||
        same_name(name, "hardclipped_sine") ||
        same_name(name, "hard_clipped_sine") {
        Ok(SoundType::ClipSine)
    } else if same_name(name, "quantized_sine") ||
        same_name(name, "quantized_sin") ||
        same_name(name, "quant_sine") ||
        same_name(name, "quant_sin") {
        Ok(SoundType::QuantSine)
    } else if same_name(name, "saw") ||
        same_name(name, "sawtooth") ||
        same_name(name, "saw_wave") {
        Ok(SoundType::Saw)
    } else if same_name(name, "sqr") ||
        same_name(name, "square") ||
        same_name(name, "square_wave") {
        Ok(SoundType::Square)
    } else if same_name(name, "tri") ||
        same_name(name, "triangle") ||
        same_name(name, "triangle_wave") {
        Ok(SoundType::Triangle)
    } else if same_name(name, "pw") ||
        same_name(name, "pwm") ||
        same_name(name, "pulse") ||
        same_name(name, "pulse_wave") {
        Ok(SoundType::Pulse)
    } else if same_name(name, "pw_sweep") ||
        same_name(name, "pwm_sweep") ||
        same_name(name, "pulse_width_sweep") {
        Ok(SoundType::PulseSweepWidth)
    } else if same_name(name, "shark") ||
        same_name(name, "sharktooth") ||
        same_name(name, "sharktooth_wave") {
        Ok(SoundType::Sharktooth)
    } else if same_name(name, "unit_impulse") ||
        same_name(name, "dirac") ||
        same_name(name, "delta") ||
        same_name(name, "kronecker") ||
        same_name(name, "dirac_delta") ||
        same_name(name, "kronecker_delta") ||
        same_name(name, "click") {
        Ok(SoundType::UnitImpulse)
    } else if same_name(name, "dirac_comb") ||
        same_name(name, "impulse_train") ||
        same_name(name, "needle") ||
        same_name(name, "comb") ||
        same_name(name, "needle_pulse") ||
        same_name(name, "sha") {
        Ok(SoundType::DiracComb)
    } else if same_name(name, "random") ||
        same_name(name, "noise") ||
        same_name(name, "random_noise") {
        Ok(SoundType::RandomUniform)
    } else if same_name(name, "white") ||
        same_name(name, "white_random") ||
        same_name(name, "white_uniform") ||
        same_name(name, "white_noise") {
        Ok(SoundType::WhiteUniform)
    } else if same_name(name, "white_normal") ||
        same_name(name, "white_random_normal") ||
        same_name(name, "white_gaussian") ||
        same_name(name, "white_random_gaussian") ||
        same_name(name, "white_gauss") ||
        same_name(name, "gaussian_noise") {
        Ok(SoundType::WhiteNormal)
    } else if same_name(name, "white_tri") ||
        same_name(name, "white_triangle") ||
        same_name(name, "white_triangular") ||
        same_name(name, "triangular_noise") {
        Ok(SoundType::WhiteTriangular)
    } else if same_name(name, "white_binary") ||
        same_name(name, "white_bin") ||
        same_name(name, "white_bernoulli") ||
        same_name(name, "binary_noise") ||
        same_name(name, "bernoulli_noise") {
        Ok(SoundType::WhiteBinary)
    } else if same_name(name, "pink") ||
        same_name(name, "pink_kellet_econ") ||
        same_name(name, "pke") ||
        same_name(name, "pink_noise") {
        Ok(SoundType::PinkEcon)
    } else if same_name(name, "pink_ref") ||
        same_name(name, "pink_kellet_ref") ||
        same_name(name, "pk3") {
        Ok(SoundType::PinkRefined)
    } else if same_name(name, "brown") ||
        same_name(name, "red") ||
        same_name(name, "brownian") ||
        same_name(name, "brown_ema") ||
        same_name(name, "brown_noise") {
        Ok(SoundType::Brown)
    } else if same_name(name, "blue") ||
        same_name(name, "azure") ||
        same_name(name, "blue_pke") ||
        same_name(name, "blue_pke_ema") ||
        same_name(name, "blue_noise") {
        Ok(SoundType::BlueEcon)
    } else if same_name(name, "blue_pk3") ||
        same_name(name, "blue_pk3_ema") ||
        same_name(name, "blue_ref") ||
        same_name(name, "blue_ref_ema") {
        Ok(SoundType::BlueRefined)
    } else if same_name(name, "violet") ||
        same_name(name, "purple") ||
        same_name(name, "violet_ema") ||
        same_name(name, "violet_noise") ||
        same_name(name, "purple_noise") {
        Ok(SoundType::Violet)
    } else if same_name(name, "pseudo_velvet") ||
        same_name(name, "pseudo_velvet_noise") ||
        same_name(name, "pseudo_velvet_consecutive") {
        Ok(SoundType::PseudoVelvet)
    } else {
        Err(RenderError::UnrecognizedSound)
    }
}

/// Which way a window moves between its endpoints.
#[derive(Clone, Copy, Debug, PartialEq, Eq, Structural)]
pub enum Direction {
    /// From one down to zero.
    Out,
    /// From zero up to one.
    In,
    /// Up to one at the midpoint, then back down to zero.
    InOut,
    /// Down to zero at the midpoint, then back up to one.
    OutIn,
}

/// The families of window curves.
#[derive(Clone, Copy, Debug, PartialEq, Eq, Structural)]
pub enum Curve {
    /// Straight line.
    Linear,
    /// Logistic-like halves.
    Exp1,
    /// Gaussian bell.
    Exp2,
    /// Base-e exponential with a contour parameter.
    Exp3,
    /// Power function with a contour parameter.
    Exp4,
    /// Piecewise-linear log taper.
    Exp5,
    /// Scaled base-10 logarithm.
    Log1,
    /// Piecewise-linear anti-log taper.
    Log2,
    /// Sinusoidal equal power.
    Eqp1,
    /// Square-root equal power.
    Eqp2,
    /// Raised-cosine S-curve.
    Sc1,
    /// Piecewise sigmoid S-curve.
    Sc2,
    /// Spliced power-function S-curve.
    Sc3,
    /// Spliced ellipse-quadrant S-curve.
    Sc4,
    /// Cubic Hermite smoothstep.
    Chs,
    /// Generalized-power Hermite curve.
    Chsg,
    /// Near-constant-energy polynomial crossfade.
    Sscf,
    /// First-order tetration.
    Tet,
    /// Super-logarithm.
    Slg,
}

/// An envelope window: unity gain, or a curve family taken in one direction.
#[derive(Clone, Copy, Debug, PartialEq, Eq, Structural)]
pub enum WindowType {
    /// Gain one throughout.
    Flat,
    /// A curve of `curve` moving as `direction` says.
    Shaped { curve: Curve, direction: Direction },
}

/// The window that a name selects, if any.
pub open spec fn window_named(name: Seq<char>) -> Option<WindowType> {
    if name == "default"@ ||
        name == "def"@ ||
        name == "flat"@ ||
        name == "unity"@ ||
        name == "full"@ ||
        name == "none"@ ||
        name == "constant"@ ||
        name == "const"@ {
        Some(WindowType::Flat)
    } else if name == "linear_out"@ ||
        name == "lin_out"@ {
        Some(WindowType::Shaped { curve: Curve::Linear, direction: Direction::Out })
    } else if name == "linear_in"@ ||
        name == "lin_in"@ {
        Some(WindowType::Shaped { curve: Curve::Linear, direction: Direction::In })
    } else if name == "linear_io"@ ||
        name == "lin_io"@ {
        Some(WindowType::Shaped { curve: Curve::Linear, direction: Direction::InOut })
    } else if name == "linear_oi"@ ||
        name == "lin_oi"@ {
        Some(WindowType::Shaped { curve: Curve::Linear, direction: Direction::OutIn })
    } else if name == "exp1_out"@ ||
        name == "exp_out"@ {
        Some(WindowType::Shaped { curve: Curve::Exp1, direction: Direction::Out })
    } else if name == "exp1_in"@ ||
        name == "exp_in"@ {
        Some(WindowType::Shaped { curve: Curve::Exp1, direction: Direction::In })
    } else if name == "exp1_io"@ ||
        name == "exp_io"@ {
        Some(WindowType::Shaped { curve: Curve::Exp1, direction: Direction::InOut })
    } else if name == "exp1_oi"@ ||
        name == "exp_oi"@ {
        Some(WindowType::Shaped { curve: Curve::Exp1, direction: Direction::OutIn })
    } else if name == "exp2_out"@ {
        Some(WindowType::Shaped { curve: Curve::Exp2, direction: Direction::Out })
    } else if name == "exp2_in"@ {
        Some(WindowType::Shaped { curve: Curve::Exp2, direction: Direction::In })
    } else if name == "exp2_io"@ {
        Some(WindowType::Shaped { curve: Curve::Exp2, direction: Direction::InOut })
    } else if name == "exp2_oi"@ {
        Some(WindowType::Shaped { curve: Curve::Exp2, direction: Direction::OutIn })
    } else if name == "exp3_out"@ {
        Some(WindowType::Shaped { curve: Curve::Exp3, direction: Direction::Out })
    } else if name == "exp3_in"@ {
        Some(WindowType::Shaped { curve: Curve::Exp3, direction: Direction::In })
    } else if name == "exp3_io"@ {
        Some(WindowType::Shaped { curve: Curve::Exp3, direction: Direction::InOut })
    } else if name == "exp3_oi"@ {
        Some(WindowType::Shaped { curve: Curve::Exp3, direction: Direction::OutIn })
    } else if name == "exp4_out"@ {
        Some(WindowType::Shaped { curve: Curve::Exp4, direction: Direction::Out })
    } else if name == "exp4_in"@ {
        Some(WindowType::Shaped { curve: Curve::Exp4, direction: Direction::In })
    } else if name == "exp4_io"@ {
        Some(WindowType::Shaped { curve: Curve::Exp4, direction: Direction::InOut })
    } else if name == "exp4_oi"@ {
        Some(WindowType::Shaped { curve: Curve::Exp4, direction: Direction::OutIn })
    } else if name == "exp5_out"@ {
        Some(WindowType::Shaped { curve: Curve::Exp5, direction: Direction::Out })
    } else if name == "exp5_in"@ {
        Some(WindowType::Shaped { curve: Curve::Exp5, direction: Direction::In })
    } else if name == "exp5_io"@ {
        Some(WindowType::Shaped { curve: Curve::Exp5, direction: Direction::InOut })
    } else if name == "exp5_oi"@ {
        Some(WindowType::Shaped { curve: Curve::Exp5, direction: Direction::OutIn })
    } else if name == "log1_out"@ ||
        name == "log_out"@ {
        Some(WindowType::Shaped { curve: Curve::Log1, direction: Direction::Out })
    } else if name == "log1_in"@ ||
        name == "log_in"@ {
        Some(WindowType::Shaped { curve: Curve::Log1, direction: Direction::In })
    } else if name == "log1_io"@ ||
        name == "log_io"@ {
        Some(WindowType::Shaped { curve: Curve::Log1, direction: Direction::InOut })
    } else if name == "log1_oi"@ ||
        name == "log_oi"@ {
        Some(WindowType::Shaped { curve: Curve::Log1, direction: Direction::OutIn })
    } else if name == "log2_out"@ {
        Some(WindowType::Shaped { curve: Curve::Log2, direction: Direction::Out })
    } else if name == "log2_in"@ {
        Some(WindowType::Shaped { curve: Curve::Log2, direction: Direction::In })
    } else if name == "log2_io"@ {
        Some(WindowType::Shaped { curve: Curve::Log2, direction: Direction::InOut })
    } else if name == "log2_oi"@ {
        Some(WindowType::Shaped { curve: Curve::Log2, direction: Direction::OutIn })
    } else if name == "eqp1_out"@ ||
        name == "eqp_out"@ {
        Some(WindowType::Shaped { curve: Curve::Eqp1, direction: Direction::Out })
    } else if name == "eqp1_in"@ ||
        name == "eqp_in"@ {
        Some(WindowType::Shaped { curve: Curve::Eqp1, direction: Direction::In })
    } else if name == "eqp1_io"@ ||
        name == "eqp_io"@ {
        Some(WindowType::Shaped { curve: Curve::Eqp1, direction: Direction::InOut })
    } else if name == "eqp1_oi"@ ||
        name == "eqp_oi"@ {
        Some(WindowType::Shaped { curve: Curve::Eqp1, direction: Direction::OutIn })
    } else if name == "eqp2_out"@ {
        Some(WindowType::Shaped { curve: Curve::Eqp2, direction: Direction::Out })
    } else if name == "eqp2_in"@ {
        Some(WindowType::Shaped { curve: Curve::Eqp2, direction: Direction::In })
    } else if name == "eqp2_io"@ {
        Some(WindowType::Shaped { curve: Curve::Eqp2, direction: Direction::InOut })
    } else if name == "eqp2_oi"@ {
        Some(WindowType::Shaped { curve: Curve::Eqp2, direction: Direction::OutIn })
    } else if name == "sc1_out"@ ||
        name == "sc_out"@ ||
        name == "s1_out"@ ||
        name == "s_out"@ {
        Some(WindowType::Shaped { curve: Curve::Sc1, direction: Direction::Out })
    } else if name == "sc1_in"@ ||
        name == "sc_in"@ ||
        name == "s1_in"@ ||
        name == "s_in"@ {
        Some(WindowType::Shaped { curve: Curve::Sc1, direction: Direction::In })
    } else if name == "sc1_io"@ ||
        name == "sc_io"@ ||
        name == "s1_io"@ ||
        name == "s_io"@ {
        Some(WindowType::Shaped { curve: Curve::Sc1, direction: Direction::InOut })
    } else if name == "sc1_oi"@ ||
        name == "sc_oi"@ ||
        name == "s1_oi"@ ||
        name == "s_oi"@ {
        Some(WindowType::Shaped { curve: Curve::Sc1, direction: Direction::OutIn })
    } else if name == "sc2_out"@ ||
        name == "s2_out"@ {
        Some(WindowType::Shaped { curve: Curve::Sc2, direction: Direction::Out })
    } else if name == "sc2_in"@ ||
        name == "s2_in"@ {
        Some(WindowType::Shaped { curve: Curve::Sc2, direction: Direction::In })
    } else if name == "sc2_io"@ ||
        name == "s2_io"@ {
        Some(WindowType::Shaped { curve: Curve::Sc2, direction: Direction::InOut })
    } else if name == "sc2_oi"@ ||
        name == "s2_oi"@ {
        Some(WindowType::Shaped { curve: Curve::Sc2, direction: Direction::OutIn })
    } else if name == "sc3_out"@ ||
        name == "s3_out"@ {
        Some(WindowType::Shaped { curve: Curve::Sc3, direction: Direction::Out })
    } else if name == "sc3_in"@ ||
        name == "s3_in"@ {
        Some(WindowType::Shaped { curve: Curve::Sc3, direction: Direction::In })
    } else if name == "sc3_io"@ ||
        name == "s3_io"@ {
        Some(WindowType::Shaped { curve: Curve::Sc3, direction: Direction::InOut })
    } else if name == "sc3_oi"@ ||
        name == "s3_oi"@ {
        Some(WindowType::Shaped { curve: Curve::Sc3, direction: Direction::OutIn })
    } else if name == "sc4_out"@ ||
        name == "s4_out"@ {
        Some(WindowType::Shaped { curve: Curve::Sc4, direction: Direction::Out })
    } else if name == "sc4_in"@ ||
        name == "s4_in"@ {
        Some(WindowType::Shaped { curve: Curve::Sc4, direction: Direction::In })
    } else if name == "sc4_io"@ ||
        name == "s4_io"@ {
        Some(WindowType::Shaped { curve: Curve::Sc4, direction: Direction::InOut })
    } else if name == "sc4_oi"@ ||
        name == "s4_oi"@ {
        Some(WindowType::Shaped { curve: Curve::Sc4, direction: Direction::OutIn })
    } else if name == "chs_out"@ ||
        name == "smoothstep_out"@ {
        Some(WindowType::Shaped { curve: Curve::Chs, direction: Direction::Out })
    } else if name == "chs_in"@ ||
        name == "smoothstep_in"@ {
        Some(WindowType::Shaped { curve: Curve::Chs, direction: Direction::In })
    } else if name == "chs_io"@ ||
        name == "smoothstep_io"@ {
        Some(WindowType::Shaped { curve: Curve::Chs, direction: Direction::InOut })
    } else if name == "chs_oi"@ ||
        name == "smoothstep_oi"@ {
        Some(WindowType::Shaped { curve: Curve::Chs, direction: Direction::OutIn })
    } else if name == "chsg_out"@ {
        Some(WindowType::Shaped { curve: Curve::Chsg, direction: Direction::Out })
    } else if name == "chsg_in"@ {
        Some(WindowType::Shaped { curve: Curve::Chsg, direction: Direction::In })
    } else if name == "chsg_io"@ {
        Some(WindowType::Shaped { curve: Curve::Chsg, direction: Direction::InOut })
    } else if name == "chsg_oi"@ {
        Some(WindowType::Shaped { curve: Curve::Chsg, direction: Direction::OutIn })
    } else if name == "sscf_out"@ {
        Some(WindowType::Shaped { curve: Curve::Sscf, direction: Direction::Out })
    } else if name == "sscf_in"@ {
        Some(WindowType::Shaped { curve: Curve::Sscf, direction: Direction::In })
    } else if name == "sscf_io"@ {
        Some(WindowType::Shaped { curve: Curve::Sscf, direction: Direction::InOut })
    } else if name == "sscf_oi"@ {
        Some(WindowType::Shaped { curve: Curve::Sscf, direction: Direction::OutIn })
    } else if name == "tet_out"@ {
        Some(WindowType::Shaped { curve: Curve::Tet, direction: Direction::Out })
    } else if name == "tet_in"@ {
        Some(WindowType::Shaped { curve: Curve::Tet, direction: Direction::In })
    } else if name == "tet_io"@ {
        Some(WindowType::Shaped { curve: Curve::Tet, direction: Direction::InOut })
    } else if name == "tet_oi"@ {
        Some(WindowType::Shaped { curve: Curve::Tet, direction: Direction::OutIn })
    } else if name == "slg_out"@ {
        Some(WindowType::Shaped { curve: Curve::Slg, direction: Direction::Out })
    } else if name == "slg_in"@ {
        Some(WindowType::Shaped { curve: Curve::Slg, direction: Direction::In })
    } else if name == "slg_io"@ {
        Some(WindowType::Shaped { curve: Curve::Slg, direction: Direction::InOut })
    } else if name == "slg_oi"@ {
        Some(WindowType::Shaped { curve: Curve::Slg, direction: Direction::OutIn })
    } else {
        None
    }
}

/// Resolves a window name.
pub fn match_window(name: &str) -> (r: Result<WindowType, RenderError>)
    ensures
        r == (match window_named(name@) {
            Some(w) => Ok(w),
            None => Err(RenderError::UnrecognizedWindow),
        }),
{
    if same_name(name, "default") ||
        same_name(name, "def") ||
        same_name(name, "flat") ||
        same_name(name, "unity") ||
        same_name(name, "full") ||
        same_name(name, "none") ||
        same_name(name, "constant") ||
        same_name(name, "const") {
        Ok(WindowType::Flat)
    } else if same_name(name, "linear_out") ||
        same_name(name, "lin_out") {
        Ok(WindowType::Shaped { curve: Curve::Linear, direction: Direction::Out })
    } else if same_name(name, "linear_in") ||
        same_name(name, "lin_in") {
        Ok(WindowType::Shaped { curve: Curve::Linear, direction: Direction::In })
    } else if same_name(name, "linear_io") ||
        same_name(name, "lin_io") {
        Ok(WindowType::Shaped { curve: Curve::Linear, direction: Direction::InOut })
    } else if same_name(name, "linear_oi") ||
        same_name(name, "lin_oi") {
        Ok(WindowType::Shaped { curve: Curve::Linear, direction: Direction::OutIn })
    } else if same_name(name, "exp1_out") ||
        same_name(name, "exp_out") {
        Ok(WindowType::Shaped { curve: Curve::Exp1, direction: Direction::Out })
    } else if same_name(name, "exp1_in") ||
        same_name(name, "exp_in") {
        Ok(WindowType::Shaped { curve: Curve::Exp1, direction: Direction::In })
    } else if same_name(name, "exp1_io") ||
        same_name(name, "exp_io") {
        Ok(WindowType::Shaped { curve: Curve::Exp1, direction: Direction::InOut })
    } else if same_name(name, "exp1_oi") ||
        same_name(name, "exp_oi") {
        Ok(WindowType::Shaped { curve: Curve::Exp1, direction: Direction::OutIn })
    } else if same_name(name, "exp2_out") {
        Ok(WindowType::Shaped { curve: Curve::Exp2, direction: Direction::Out })
    } else if same_name(name, "exp2_in") {
        Ok(WindowType::Shaped { curve: Curve::Exp2, direction: Direction::In })
    } else if same_name(name, "exp2_io") {
        Ok(WindowType::Shaped { curve: Curve::Exp2, direction: Direction::InOut })
    } else if same_name(name, "exp2_oi") {
        Ok(WindowType::Shaped { curve: Curve::Exp2, direction: Direction::OutIn })
    } else if same_name(name, "exp3_out") {
        Ok(WindowType::Shaped { curve: Curve::Exp3, direction: Direction::Out })
    } else if same_name(name, "exp3_in") {
        Ok(WindowType::Shaped { curve: Curve::Exp3, direction: Direction::In })
    } else if same_name(name, "exp3_io") {
        Ok(WindowType::Shaped { curve: Curve::Exp3, direction: Direction::InOut })
    } else if same_name(name, "exp3_oi") {
        Ok(WindowType::Shaped { curve: Curve::Exp3, direction: Direction::OutIn })
    } else if same_name(name, "exp4_out") {
        Ok(WindowType::Shaped { curve: Curve::Exp4, direction: Direction::Out })
    } else if same_name(name, "exp4_in") {
        Ok(WindowType::Shaped { curve: Curve::Exp4, direction: Direction::In })
    } else if same_name(name, "exp4_io") {
        Ok(WindowType::Shaped { curve: Curve::Exp4, direction: Direction::InOut })
    } else if same_name(name, "exp4_oi") {
        Ok(WindowType::Shaped { curve: Curve::Exp4, direction: Direction::OutIn })
    } else if same_name(name, "exp5_out") {
        Ok(WindowType::Shaped { curve: Curve::Exp5, direction: Direction::Out })
    } else if same_name(name, "exp5_in") {
        Ok(WindowType::Shaped { curve: Curve::Exp5, direction: Direction::In })
    } else if same_name(name, "exp5_io") {
        Ok(WindowType::Shaped { curve: Curve::Exp5, direction: Direction::InOut })
    } else if same_name(name, "exp5_oi") {
        Ok(WindowType::Shaped { curve: Curve::Exp5, direction: Direction::OutIn })
    } else if same_name(name, "log1_out") ||
        same_name(name, "log_out") {
        Ok(WindowType::Shaped { curve: Curve::Log1, direction: Direction::Out })
    } else if same_name(name, "log1_in") ||
        same_name(name, "log_in") {
        Ok(WindowType::Shaped { curve: Curve::Log1, direction: Direction::In })
    } else if same_name(name, "log1_io") ||
        same_name(name, "log_io") {
        Ok(WindowType::Shaped { curve: Curve::Log1, direction: Direction::InOut })
    } else if same_name(name, "log1_oi") ||
        same_name(name, "log_oi") {
        Ok(WindowType::Shaped { curve: Curve::Log1, direction: Direction::OutIn })
    } else if same_name(name, "log2_out") {
        Ok(WindowType::Shaped { curve: Curve::Log2, direction: Direction::Out })
    } else if same_name(name, "log2_in") {
        Ok(WindowType::Shaped { curve: Curve::Log2, direction: Direction::In })
    } else if same_name(name, "log2_io") {
        Ok(WindowType::Shaped { curve: Curve::Log2, direction: Direction::InOut })
    } else if same_name(name, "log2_oi") {
        Ok(WindowType::Shaped { curve: Curve::Log2, direction: Direction::OutIn })
    } else if same_name(name, "eqp1_out") ||
        same_name(name, "eqp_out") {
        Ok(WindowType::Shaped { curve: Curve::Eqp1, direction: Direction::Out })
    } else if same_name(name, "eqp1_in") ||
        same_name(name, "eqp_in") {
        Ok(WindowType::Shaped { curve: Curve::Eqp1, direction: Direction::In })
    } else if same_name(name, "eqp1_io") ||
        same_name(name, "eqp_io") {
        Ok(WindowType::Shaped { curve: Curve::Eqp1, direction: Direction::InOut })
    } else if same_name(name, "eqp1_oi") ||
        same_name(name, "eqp_oi") {
        Ok(WindowType::Shaped { curve: Curve::Eqp1, direction: Direction::OutIn })
    } else if same_name(name, "eqp2_out") {
        Ok(WindowType::Shaped { curve: Curve::Eqp2, direction: Direction::Out })
    } else if same_name(name, "eqp2_in") {
        Ok(WindowType::Shaped { curve: Curve::Eqp2, direction: Direction::In })
    } else if same_name(name, "eqp2_io") {
        Ok(WindowType::Shaped { curve: Curve::Eqp2, direction: Direction::InOut })
    } else if same_name(name, "eqp2_oi") {
        Ok(WindowType::Shaped { curve: Curve::Eqp2, direction: Direction::OutIn })
    } else if same_name(name, "sc1_out") ||
        same_name(name, "sc_out") ||
        same_name(name, "s1_out") ||
        same_name(name, "s_out") {
        Ok(WindowType::Shaped { curve: Curve::Sc1, direction: Direction::Out })
    } else if same_name(name, "sc1_in") ||
        same_name(name, "sc_in") ||
        same_name(name, "s1_in") ||
        same_name(name, "s_in") {
        Ok(WindowType::Shaped { curve: Curve::Sc1, direction: Direction::In })
    } else if same_name(name, "sc1_io") ||
        same_name(name, "sc_io") ||
        same_name(name, "s1_io") ||
        same_name(name, "s_io") {
        Ok(WindowType::Shaped { curve: Curve::Sc1, direction: Direction::InOut })
    } else if same_name(name, "sc1_oi") ||
        same_name(name, "sc_oi") ||
        same_name(name, "s1_oi") ||
        same_name(name, "s_oi") {
        Ok(WindowType::Shaped { curve: Curve::Sc1, direction: Direction::OutIn })
    } else if same_name(name, "sc2_out") ||
        same_name(name, "s2_out") {
        Ok(WindowType::Shaped { curve: Curve::Sc2, direction: Direction::Out })
    } else if same_name(name, "sc2_in") ||
        same_name(name, "s2_in") {
        Ok(WindowType::Shaped { curve: Curve::Sc2, direction: Direction::In })
    } else if same_name(name, "sc2_io") ||
        same_name(name, "s2_io") {
        Ok(WindowType::Shaped { curve: Curve::Sc2, direction: Direction::InOut })
    } else if same_name(name, "sc2_oi") ||
        same_name(name, "s2_oi") {
        Ok(WindowType::Shaped { curve: Curve::Sc2, direction: Direction::OutIn })
    } else if same_name(name, "sc3_out") ||
        same_name(name, "s3_out") {
        Ok(WindowType::Shaped { curve: Curve::Sc3, direction: Direction::Out })
    } else if same_name(name, "sc3_in") ||
        same_name(name, "s3_in") {
        Ok(WindowType::Shaped { curve: Curve::Sc3, direction: Direction::In })
    } else if same_name(name, "sc3_io") ||
        same_name(name, "s3_io") {
        Ok(WindowType::Shaped { curve: Curve::Sc3, direction: Direction::InOut })
    } else if same_name(name, "sc3_oi") ||
        same_name(name, "s3_oi") {
        Ok(WindowType::Shaped { curve: Curve::Sc3, direction: Direction::OutIn })
    } else if same_name(name, "sc4_out") ||
        same_name(name, "s4_out") {
        Ok(WindowType::Shaped { curve: Curve::Sc4, direction: Direction::Out })
    } else if same_name(name, "sc4_in") ||
        same_name(name, "s4_in") {
        Ok(WindowType::Shaped { curve: Curve::Sc4, direction: Direction::In })
    } else if same_name(name, "sc4_io") ||
        same_name(name, "s4_io") {
        Ok(WindowType::Shaped { curve: Curve::Sc4, direction: Direction::InOut })
    } else if same_name(name, "sc4_oi") ||
        same_name(name, "s4_oi") {
        Ok(WindowType::Shaped { curve: Curve::Sc4, direction: Direction::OutIn })
    } else if same_name(name, "chs_out") ||
        same_name(name, "smoothstep_out") {
        Ok(WindowType::Shaped { curve: Curve::Chs, direction: Direction::Out })
    } else if same_name(name, "chs_in") ||
        same_name(name, "smoothstep_in") {
        Ok(WindowType::Shaped { curve: Curve::Chs, direction: Direction::In })
    } else if same_name(name, "chs_io") ||
        same_name(name, "smoothstep_io") {
        Ok(WindowType::Shaped { curve: Curve::Chs, direction: Direction::InOut })
    } else if same_name(name, "chs_oi") ||
        same_name(name, "smoothstep_oi") {
        Ok(WindowType::Shaped { curve: Curve::Chs, direction: Direction::OutIn })
    } else if same_name(name, "chsg_out") {
        Ok(WindowType::Shaped { curve: Curve::Chsg, direction: Direction::Out })
    } else if same_name(name, "chsg_in") {
        Ok(WindowType::Shaped { curve: Curve::Chsg, direction: Direction::In })
    } else if same_name(name, "chsg_io") {
        Ok(WindowType::Shaped { curve: Curve::Chsg, direction: Direction::InOut })
    } else if same_name(name, "chsg_oi") {
        Ok(WindowType::Shaped { curve: Curve::Chsg, direction: Direction::OutIn })
    } else if same_name(name, "sscf_out") {
        Ok(WindowType::Shaped { curve: Curve::Sscf, direction: Direction::Out })
    } else if same_name(name, "sscf_in") {
        Ok(WindowType::Shaped { curve: Curve::Sscf, direction: Direction::In })
    } else if same_name(name, "sscf_io") {
        Ok(WindowType::Shaped { curve: Curve::Sscf, direction: Direction::InOut })
    } else if same_name(name, "sscf_oi") {
        Ok(WindowType::Shaped { curve: Curve::Sscf, direction: Direction::OutIn })
    } else if same_name(name, "tet_out") {
        Ok(WindowType::Shaped { curve: Curve::Tet, direction: Direction::Out })
    } else if same_name(name, "tet_in") {
        Ok(WindowType::Shaped { curve: Curve::Tet, direction: Direction::In })
    } else if same_name(name, "tet_io") {
        Ok(WindowType::Shaped { curve: Curve::Tet, direction: Direction::InOut })
    } else if same_name(name, "tet_oi") {
        Ok(WindowType::Shaped { curve: Curve::Tet, direction: Direction::OutIn })
    } else if same_name(name, "slg_out") {
        Ok(WindowType::Shaped { curve: Curve::Slg, direction: Direction::Out })
    } else if same_name(name, "slg_in") {
        Ok(WindowType::Shaped { curve: Curve::Slg, direction: Direction::In })
    } else if same_name(name, "slg_io") {
        Ok(WindowType::Shaped { curve: Curve::Slg, direction: Direction::InOut })
    } else if same_name(name, "slg_oi") {
        Ok(WindowType::Shaped { curve: Curve::Slg, direction: Direction::OutIn })
    } else {
        Err(RenderError::UnrecognizedWindow)
    }
}

} // verus!
