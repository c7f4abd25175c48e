//! The abstract state of a light, shared by every representation of it,
//! and the laws that its transitions obey.
use vstd::prelude::*;

verus! {

/// What can be observed of a light: whether it shines, and how strongly.
pub struct LightState {
    pub on: bool,
    pub intensity: u8,
}

/// A light that has just been made: off, with no intensity.
pub open spec fn off_state() -> LightState {
    LightState { on: false, intensity: 0 }
}

/// An off light has intensity exactly zero.
pub open spec fn well_formed(s: LightState) -> bool {
    !s.on ==> s.intensity == 0
}

/// Flipping the switch: an on light goes off and loses its intensity; an off
/// light comes on at `default`.
pub open spec fn toggled(s: LightState, default: u8) -> LightState {
    if s.on {
        off_state()
    } else {
        LightState { on: true, intensity: default }
    }
}

/// Setting the intensity to `level`: it takes effect only while the light is on.
pub open spec fn regulated(s: LightState, level: u8) -> LightState {
    if s.on {
        LightState { on: true, intensity: level }
    } else {
        s
    }
}

/// The state after `n` flips of the switch, starting from `s`.
pub open spec fn toggled_times(s: LightState, default: u8, n: nat) -> LightState
    decreases n,
{
    if n == 0 {
        s
    } else {
        toggled(toggled_times(s, default, (n - 1) as nat), default)
    }
}

/// From a fresh light, the switch alternates off, on, off, ...: after an even
/// number of flips the light is off (with intensity zero), after an odd number
/// it is on at the default intensity.
pub proof fn lemma_toggles_alternate(default: u8, n: nat)
    ensures
        toggled_times(off_state(), default, n).on == (n % 2 == 1),
        n % 2 == 0 ==> toggled_times(off_state(), default, n) == off_state(),
        n % 2 == 1 ==> toggled_times(off_state(), default, n) == (LightState {
            on: true,
            intensity: default,
        }),
    decreases n,
{
    if n > 0 {
        lemma_toggles_alternate(default, (n - 1) as nat);
    }
}

/// Every operation keeps an off light at intensity zero; a light that is on
/// after an operation shines at the level just set, or at the default when
/// it has just been switched on.
pub proof fn lemma_intensity_rule(s: LightState, default: u8, level: u8)
    requires
        well_formed(s),
    ensures
        well_formed(off_state()),
        well_formed(toggled(s, default)),
        well_formed(regulated(s, level)),
        toggled(s, default).on ==> toggled(s, default).intensity == default,
        regulated(s, level).on ==> regulated(s, level).intensity == level,
        !regulated(s, level).on ==> regulated(s, level).intensity == 0,
{
}

/// Setting the intensity of an off light changes nothing: it stays off, at
/// intensity zero.
pub proof fn lemma_regulate_while_off(s: LightState, level: u8)
    requires
        well_formed(s),
        !s.on,
    ensures
        regulated(s, level) == s,
        !regulated(s, level).on,
        regulated(s, level).intensity == 0,
{
}

/// Flipping the switch twice gives back whether the light is on. The
/// intensity is not kept: a light that was on comes back at the default.
pub proof fn lemma_toggle_twice(s: LightState, default: u8)
    requires
        well_formed(s),
    ensures
        toggled(toggled(s, default), default).on == s.on,
        !s.on ==> toggled(toggled(s, default), default) == s,
        s.on ==> toggled(toggled(s, default), default).intensity == default,
{
}

} // verus!
