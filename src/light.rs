//! A light with its state in two fields, checked at run time: setting the
//! intensity of an off light is silently ignored.
use crate::model::{LightState, off_state, regulated, toggled, well_formed};
use vstd::prelude::*;
use vstd::string::StringExecFns;

verus! {

/// The intensity that a light takes when it is switched on.
pub const LIGHT_DEFAULT_INTENSITY: u8 = 10;

/// The decimal digit for `d`, for `d` below ten.
pub open spec fn digit_char(d: nat) -> char {
    seq!['0', '1', '2', '3', '4', '5', '6', '7', '8', '9'][d as int]
}

/// The decimal digits of `n`, most significant first, with no leading zero.
pub open spec fn decimal(n: nat) -> Seq<char>
    decreases n,
{
    if n < 10 {
        seq![digit_char(n)]
    } else {
        decimal(n / 10).push(digit_char(n % 10))
    }
}

/// How a light describes itself.
pub open spec fn light_text(s: LightState) -> Seq<char> {
    if s.on {
        "Light is On with intensity "@ + decimal(s.intensity as nat)
    } else {
        "Light is Off"@
    }
}

/// Relies on `ToString` through the `Display` impl of `u8`: the number in
/// decimal, with no sign, padding or leading zero.
#[verifier::external_body]
fn decimal_string(n: u8) -> (r: String)
    ensures
        r@ == decimal(n as nat),
{
    n.to_string()
}

/// A light whose operations check its state at run time.
pub struct Light {
    status: bool,
    intensity: u8,
}

impl View for Light {
    type V = LightState;

    closed spec fn view(&self) -> LightState {
        LightState { on: self.status, intensity: self.intensity }
    }
}

impl Light {
    #[verifier::type_invariant]
    spec fn inv(&self) -> bool {
        well_formed(self@)
    }

    /// A light that is off, with intensity zero.
    pub fn new() -> (r: Light)
        ensures
            r@ == off_state(),
    {
        Light { status: false, intensity: 0 }
    }

    /// Flips the switch: on, the light goes off at intensity zero; off, it
    /// comes on at the default intensity.
    pub fn toggle(&mut self)
        ensures
            final(self)@ == toggled(old(self)@, LIGHT_DEFAULT_INTENSITY),
            well_formed(final(self)@),
    {
        // The two fields change together, so that an off light never holds
        // an intensity.
        if self.is_on() {
            *self = Light { status: false, intensity: 0 };
        } else {
            *self = Light { status: true, intensity: LIGHT_DEFAULT_INTENSITY };
        }
    }

    /// Sets the intensity if the light is on; does nothing if it is off.
    pub fn regulate_intensity(&mut self, intensity: u8)
        ensures
            final(self)@ == regulated(old(self)@, intensity),
            well_formed(final(self)@),
    {
        proof {
            use_type_invariant(&*self);
        }
        if self.is_on() {
            self.intensity = intensity;
        }
    }

    /// Whether the light is on.
    pub fn is_on(&self) -> (r: bool)
        ensures
            r == self@.on,
    {
        self.status
    }

    /// The current intensity: zero whenever the light is off.
    pub fn intensity(&self) -> (r: u8)
        ensures
            r == self@.intensity,
            !self@.on ==> r == 0,
    {
        proof {
            use_type_invariant(self);
        }
        self.intensity
    }

    /// A sentence saying whether the light is on and, if so, how strongly.
    pub fn describe(&self) -> (r: String)
        ensures
            r@ == light_text(self@),
    {
        if self.is_on() {
            let mut text = String::from_str("Light is On with intensity ");
            let digits = decimal_string(self.intensity);
            text.append(digits.as_str());
            text
        } else {
            String::from_str("Light is Off")
        }
    }
}

} // verus!
