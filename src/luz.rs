//! A light whose state is its type alone: `Luz<LuzOff>` or `Luz<LuzOn>`,
//! with no data. Switching consumes the old value, so a stale handle cannot
//! be used again.
use std::marker::PhantomData;
use vstd::prelude::*;

verus! {

/// The states that a `Luz` can be in.
pub trait LuzState {}

/// The state of a `Luz` that is off.
#[derive(Debug)]
pub struct LuzOff {}

/// The state of a `Luz` that is on.
#[derive(Debug)]
pub struct LuzOn {}

impl LuzState for LuzOn {}

impl LuzState for LuzOff {}

/// A light that carries its state in its type and holds nothing else.
#[derive(Debug)]
pub struct Luz<S: LuzState> {
    _marker: PhantomData<S>,
}

impl Luz<LuzOn> {
    /// Switches the light off.
    pub fn toggle(self) -> (r: Luz<LuzOff>)
        ensures
            !r.spec_is_on(),
    {
        Luz { _marker: PhantomData }
    }

    /// A light of this type is on.
    pub open spec fn spec_is_on(&self) -> bool {
        true
    }

    /// Always `true`: a light of this type is on.
    #[verifier::when_used_as_spec(spec_is_on)]
    pub fn is_on(&self) -> (r: bool)
        ensures
            r,
    {
        true
    }
}

impl Luz<LuzOff> {
    /// A light that is off.
    pub fn new() -> (r: Luz<LuzOff>)
        ensures
            !r.spec_is_on(),
    {
        Luz { _marker: PhantomData }
    }

    /// Switches the light on.
    pub fn toggle(self) -> (r: Luz<LuzOn>)
        ensures
            r.spec_is_on(),
    {
        Luz { _marker: PhantomData }
    }

    /// A light of this type is off.
    pub open spec fn spec_is_on(&self) -> bool {
        false
    }

    /// Always `false`: a light of this type is off.
    #[verifier::when_used_as_spec(spec_is_on)]
    pub fn is_on(&self) -> (r: bool)
        ensures
            !r,
    {
        false
    }
}

} // verus!
