use crate::uwu::Uwu;
use vstd::prelude::*;

verus! {

/// A builder for `Uwu` settings: each stage is off until it is enabled.
#[derive(Copy, Clone, Debug, PartialEq, Eq, Structural)]
pub struct UwuBuilder {
    /// Enables the lowercase feature.
    pub lowercase: bool,
    /// Enables expression replacement.
    pub expressions: bool,
    /// Enables replacement of 'l' and 'r' with 'w'.
    pub w_replace: bool,
    /// Enables stutter.
    pub stutter: bool,
    /// How frequent the stutter is.
    pub stutter_chance: u8,
    /// Enables adding emojis after punctuation.
    pub emojis: bool,
    /// How frequent the emojis are.
    pub emojis_chance: u8,
}

impl UwuBuilder {
    /// Every stage off, both chances zero.
    pub open spec fn empty() -> UwuBuilder {
        UwuBuilder {
            lowercase: false,
            expressions: false,
            w_replace: false,
            stutter: false,
            stutter_chance: 0,
            emojis: false,
            emojis_chance: 0,
        }
    }

    /// The settings with the same fields.
    pub open spec fn settings(self) -> Uwu {
        Uwu {
            lowercase: self.lowercase,
            expressions: self.expressions,
            w_replace: self.w_replace,
            stutter: self.stutter,
            stutter_chance: self.stutter_chance,
            emojis: self.emojis,
            emojis_chance: self.emojis_chance,
        }
    }

    /// A builder with every stage off.
    pub fn new() -> (r: UwuBuilder)
        ensures
            r == UwuBuilder::empty(),
    {
        UwuBuilder {
            lowercase: false,
            expressions: false,
            w_replace: false,
            stutter: false,
            stutter_chance: 0,
            emojis: false,
            emojis_chance: 0,
        }
    }

    /// Enables the lowercase feature.
    pub fn lowercase(&mut self) -> (r: &mut Self)
        ensures
            *r == (UwuBuilder { lowercase: true, ..*old(self) }),
            *final(self) == *final(r),
    {
        self.lowercase = true;
        self
    }

    /// Enables expression replacement.
    pub fn expressions(&mut self) -> (r: &mut Self)
        ensures
            *r == (UwuBuilder { expressions: true, ..*old(self) }),
            *final(self) == *final(r),
    {
        self.expressions = true;
        self
    }

    /// Enables replacement of 'l' and 'r' with 'w'.
    pub fn w_replace(&mut self) -> (r: &mut Self)
        ensures
            *r == (UwuBuilder { w_replace: true, ..*old(self) }),
            *final(self) == *final(r),
    {
        self.w_replace = true;
        self
    }

    /// Enables stutter on one word in `chance` on average.
    pub fn stutter(&mut self, chance: u8) -> (r: &mut Self)
        ensures
            *r == (UwuBuilder { stutter: true, stutter_chance: chance, ..*old(self) }),
            *final(self) == *final(r),
    {
        self.stutter = true;
        self.stutter_chance = chance;
        self
    }

    /// Enables an emoji after one punctuation mark in `chance` on average.
    pub fn emojis(&mut self, chance: u8) -> (r: &mut Self)
        ensures
            *r == (UwuBuilder { emojis: true, emojis_chance: chance, ..*old(self) }),
            *final(self) == *final(r),
    {
        self.emojis = true;
        self.emojis_chance = chance;
        self
    }

    /// The settings that this builder holds.
    pub fn build(&self) -> (r: Uwu)
        ensures
            r == self.settings(),
    {
        Uwu {
            lowercase: self.lowercase,
            expressions: self.expressions,
            w_replace: self.w_replace,
            stutter: self.stutter,
            stutter_chance: self.stutter_chance,
            emojis: self.emojis,
            emojis_chance: self.emojis_chance,
        }
    }
}

} // verus!
