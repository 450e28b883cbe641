//! The tones a tonal palette has computed, kept so that each is computed
//! once.
use std::collections::HashMap;
use vstd::prelude::*;

verus! {

broadcast use vstd::std_specs::hash::group_hash_axioms;

/// The highest tone (white).
pub const MAX_TONE: u8 = 100;

/// A tone brought into `0..=100`.
pub open spec fn palette_tone(tone: u8) -> u8 {
    if tone > MAX_TONE {
        MAX_TONE
    } else {
        tone
    }
}

/// Computed colors by tone, as packed ARGB.
#[derive(Debug, Clone)]
pub struct ToneCache {
    cache: HashMap<u8, u32>,
}

impl View for ToneCache {
    type V = Map<u8, u32>;

    closed spec fn view(&self) -> Map<u8, u32> {
        self.cache@
    }
}

impl ToneCache {
    /// No tone computed yet.
    pub fn new() -> (c: Self)
        ensures
            c@ == Map::<u8, u32>::empty(),
    {
        ToneCache { cache: HashMap::new() }
    }

    /// A tone brought into `0..=100`.
    pub fn clamp_tone(tone: u8) -> (t: u8)
        ensures
            t == palette_tone(tone),
    {
        if tone > MAX_TONE {
            MAX_TONE
        } else {
            tone
        }
    }

    /// The color kept for `tone` (brought into `0..=100`), if any.
    pub fn get(&self, tone: u8) -> (r: Option<u32>)
        ensures
            r == (if self@.contains_key(palette_tone(tone)) {
                Some(self@[palette_tone(tone)])
            } else {
                None
            }),
    {
        let t = Self::clamp_tone(tone);
        match self.cache.get(&t) {
            Some(v) => Some(*v),
            None => None,
        }
    }

    /// The color at `tone` (brought into `0..=100`): the kept one where
    /// there is one; else `compute` gives it, and it is kept.
    pub fn tone_with<F: Fn(u8) -> u32>(&mut self, tone: u8, compute: F) -> (argb: u32)
        requires
            compute.requires((palette_tone(tone),)),
        ensures
            old(self)@.contains_key(palette_tone(tone)) ==> argb == old(self)@[palette_tone(tone)]
                && final(self)@ == old(self)@,
            !old(self)@.contains_key(palette_tone(tone)) ==> compute.ensures(
                (palette_tone(tone),),
                argb,
            ) && final(self)@ == old(self)@.insert(palette_tone(tone), argb),
    {
        let t = Self::clamp_tone(tone);
        match self.cache.get(&t) {
            Some(v) => *v,
            None => {
                let argb = compute(t);
                self.cache.insert(t, argb);
                argb
            },
        }
    }
}

} // verus!
