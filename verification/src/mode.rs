//! The filter's five responses and how each is mixed from the taps.
//!
//! A sample's output is a sum of up to three terms: the drive-scaled input,
//! the second tap either as it is or scaled by the resonance coefficient, and
//! the first tap. The mode decides which terms are present; the caller adds
//! them, in that order, in its own arithmetic.

use vstd::prelude::*;

verus! {

/// The response that the filter's output is taken from.
#[derive(Clone, Copy, Debug, PartialEq, Eq, Structural)]
pub enum SvfMode {
    /// Lowpass.
    LP,
    /// Highpass.
    HP,
    /// Bandpass.
    BP1,
    /// Notch.
    Notch,
    /// Bandpass with constant peak gain.
    BP2,
}

/// How the second tap enters the output.
#[derive(Clone, Copy, Debug, PartialEq, Eq, Structural)]
pub enum Tap {
    /// Not at all.
    Absent,
    /// As it is.
    Direct,
    /// Multiplied by the resonance coefficient.
    Scaled,
}

/// The terms of one mode's output, in the order in which they are added.
#[derive(Clone, Copy, Debug, PartialEq, Eq, Structural)]
pub struct Mix {
    /// Whether the drive-scaled input is a term.
    pub input: bool,
    /// How the second tap is a term.
    pub tap1: Tap,
    /// Whether the first tap is a term.
    pub tap0: bool,
}

impl Mix {
    /// The sum that the mix stands for, over exact numbers: `k` is the
    /// resonance coefficient.
    pub open spec fn sum(self, input: int, tap0: int, tap1: int, k: int) -> int {
        (if self.input {
            input
        } else {
            0
        }) + (match self.tap1 {
            Tap::Absent => 0,
            Tap::Direct => tap1,
            Tap::Scaled => k * tap1,
        }) + (if self.tap0 {
            tap0
        } else {
            0
        })
    }

    /// How many terms the mix has.
    pub open spec fn terms(self) -> nat {
        ((if self.input {
            1int
        } else {
            0int
        }) + (if self.tap1 is Absent {
            0int
        } else {
            1int
        }) + (if self.tap0 {
            1int
        } else {
            0int
        })) as nat
    }
}

impl SvfMode {
    /// The output of each mode as a combination of the input, the two taps
    /// and the resonance coefficient `k`, over exact numbers.
    pub open spec fn response(self, input: int, tap0: int, tap1: int, k: int) -> int {
        match self {
            SvfMode::LP => tap0,
            SvfMode::HP => input + k * tap1 + tap0,
            SvfMode::BP1 => tap1,
            SvfMode::Notch => input + k * tap1,
            SvfMode::BP2 => k * tap1,
        }
    }

    /// The terms of each mode.
    pub open spec fn mix(self) -> Mix {
        match self {
            SvfMode::LP => Mix { input: false, tap1: Tap::Absent, tap0: true },
            SvfMode::HP => Mix { input: true, tap1: Tap::Scaled, tap0: true },
            SvfMode::BP1 => Mix { input: false, tap1: Tap::Direct, tap0: false },
            SvfMode::Notch => Mix { input: true, tap1: Tap::Scaled, tap0: false },
            SvfMode::BP2 => Mix { input: false, tap1: Tap::Scaled, tap0: false },
        }
    }

    /// The mode that a response curve is drawn for under a selector, or none
    /// where the selector names no response: nought to three select lowpass,
    /// highpass, bandpass and notch, five selects the bandpass with constant
    /// peak gain.
    pub open spec fn of_selector(selector: usize) -> Option<SvfMode> {
        if selector == 0 {
            Some(SvfMode::LP)
        } else if selector == 1 {
            Some(SvfMode::HP)
        } else if selector == 2 {
            Some(SvfMode::BP1)
        } else if selector == 3 {
            Some(SvfMode::Notch)
        } else if selector == 5 {
            Some(SvfMode::BP2)
        } else {
            None
        }
    }

    /// Says which terms make up the output in this mode.
    pub fn get_output(self) -> (mix: Mix)
        ensures
            mix == self.mix(),
            mix.terms() >= 1,
            forall|input: int, tap0: int, tap1: int, k: int|
                #[trigger] mix.sum(input, tap0, tap1, k) == self.response(input, tap0, tap1, k),
    {
        match self {
            SvfMode::LP => Mix { input: false, tap1: Tap::Absent, tap0: true },
            SvfMode::HP => Mix { input: true, tap1: Tap::Scaled, tap0: true },
            SvfMode::BP1 => Mix { input: false, tap1: Tap::Direct, tap0: false },
            SvfMode::Notch => Mix { input: true, tap1: Tap::Scaled, tap0: false },
            SvfMode::BP2 => Mix { input: false, tap1: Tap::Scaled, tap0: false },
        }
    }

    /// Reads a response-curve selector.
    pub fn from_selector(selector: usize) -> (mode: Option<SvfMode>)
        ensures
            mode == SvfMode::of_selector(selector),
    {
        if selector == 0 {
            Some(SvfMode::LP)
        } else if selector == 1 {
            Some(SvfMode::HP)
        } else if selector == 2 {
            Some(SvfMode::BP1)
        } else if selector == 3 {
            Some(SvfMode::Notch)
        } else if selector == 5 {
            Some(SvfMode::BP2)
        } else {
            None
        }
    }
}

/// Each of the five modes mixes its own combination of the input, the taps
/// and the resonance coefficient.
pub proof fn lemma_mix_is_response(mode: SvfMode, input: int, tap0: int, tap1: int, k: int)
    ensures
        mode.mix().sum(input, tap0, tap1, k) == mode.response(input, tap0, tap1, k),
        mode == SvfMode::LP ==> mode.response(input, tap0, tap1, k) == tap0,
        mode == SvfMode::HP ==> mode.response(input, tap0, tap1, k) == input + k * tap1 + tap0,
        mode == SvfMode::BP1 ==> mode.response(input, tap0, tap1, k) == tap1,
        mode == SvfMode::Notch ==> mode.response(input, tap0, tap1, k) == input + k * tap1,
        mode == SvfMode::BP2 ==> mode.response(input, tap0, tap1, k) == k * tap1,
{
}

/// With no input and both taps at rest every mode puts out nought, whatever
/// the resonance.
pub proof fn lemma_rest_is_silent(mode: SvfMode, k: int)
    ensures
        mode.response(0, 0, 0, k) == 0,
        mode.mix().sum(0, 0, 0, k) == 0,
{
    assert(k * 0 == 0) by (nonlinear_arith);
}

/// No two modes share their terms: the mix tells the mode.
pub proof fn lemma_mix_tells_mode(a: SvfMode, b: SvfMode)
    ensures
        a.mix() == b.mix() <==> a == b,
{
}

} // verus!
