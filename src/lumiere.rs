//! A light whose state is its type, where the on state carries the
//! intensity: `Lumiere<LumiereOff>` has no intensity to read or set.
use crate::model::{LightState, off_state, regulated, toggled};
use vstd::prelude::*;

verus! {

/// The intensity that a `Lumiere` takes when it is switched on.
pub const LUMIERE_DEFAULT_INTENSITY: u8 = 0;

/// The states that a `Lumiere` can be in, with what can be observed of each.
pub trait LumiereState {
    /// What can be observed of a light in this state.
    spec fn observed(&self) -> LightState;

    /// Whether this is the on state.
    fn is_on(&self) -> (r: bool)
        ensures
            r == self.observed().on,
    ;
}

/// The state of a `Lumiere` that is off: it holds nothing.
#[derive(Debug)]
pub struct LumiereOff();

/// The state of a `Lumiere` that is on: it holds the intensity.
#[derive(Debug)]
pub struct LumiereOn(u8);

impl LumiereState for LumiereOn {
    closed spec fn observed(&self) -> LightState {
        LightState { on: true, intensity: self.0 }
    }

    fn is_on(&self) -> (r: bool) {
        true
    }
}

impl LumiereState for LumiereOff {
    open spec fn observed(&self) -> LightState {
        off_state()
    }

    fn is_on(&self) -> (r: bool) {
        false
    }
}

/// A light that carries its state in its type, and its intensity in the on
/// state.
pub struct Lumiere<S: LumiereState> {
    state: S,
}

impl<S: LumiereState> View for Lumiere<S> {
    type V = LightState;

    closed spec fn view(&self) -> LightState {
        self.state.observed()
    }
}

impl<S: LumiereState> Lumiere<S> {
    /// Whether the light is on.
    pub fn is_on(&self) -> (r: bool)
        ensures
            r == self@.on,
    {
        self.state.is_on()
    }
}

impl Lumiere<LumiereOff> {
    /// Switches the light on, at the default intensity.
    pub fn toggle(self) -> (r: Lumiere<LumiereOn>)
        ensures
            r@ == toggled(self@, LUMIERE_DEFAULT_INTENSITY),
    {
        Lumiere { state: LumiereOn(LUMIERE_DEFAULT_INTENSITY) }
    }

    /// A light of this type is off, with intensity zero.
    pub proof fn lemma_off(&self)
        ensures
            self@ == off_state(),
    {
    }

    /// A light that is off.
    pub fn new() -> (r: Lumiere<LumiereOff>)
        ensures
            r@ == off_state(),
    {
        Lumiere { state: LumiereOff() }
    }
}

impl Lumiere<LumiereOn> {
    /// Switches the light off; its intensity is dropped.
    pub fn toggle(self) -> (r: Lumiere<LumiereOff>)
        ensures
            r@ == toggled(self@, LUMIERE_DEFAULT_INTENSITY),
    {
        Lumiere { state: LumiereOff() }
    }

    /// A light of this type is on.
    pub proof fn lemma_on(&self)
        ensures
            self@.on,
    {
    }

    /// Sets the intensity.
    pub fn regulate_intensity(&mut self, intensity: u8)
        ensures
            final(self)@ == regulated(old(self)@, intensity),
    {
        self.state.0 = intensity;
    }

    /// The current intensity.
    pub fn get_intensity(&self) -> (r: u8)
        ensures
            r == self@.intensity,
    {
        self.state.0
    }
}

} // verus!
