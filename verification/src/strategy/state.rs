//! Value-area levels of the weekly volume profile and their tap counts.
use vstd::prelude::*;

verus! {

/// Which level of the weekly volume profile: point of control, value-area
/// high or value-area low.
#[derive(Clone, Copy, PartialEq, Eq, Structural, Debug)]
pub enum VpLevelKind {
    PoC,
    VAH,
    VAL,
}

impl VpLevelKind {
    /// The name under which the level is logged and recorded.
    pub open spec fn spec_name(self) -> Seq<char> {
        match self {
            VpLevelKind::PoC => "PoC"@,
            VpLevelKind::VAH => "VAH"@,
            VpLevelKind::VAL => "VAL"@,
        }
    }

    /// The name under which the level is logged and recorded.
    pub fn name(&self) -> (s: &'static str)
        ensures
            s@ == self.spec_name(),
    {
        match self {
            VpLevelKind::PoC => "PoC",
            VpLevelKind::VAH => "VAH",
            VpLevelKind::VAL => "VAL",
        }
    }
}

/// A level of the weekly profile with the taps seen on it. The price is
/// held as the whole-dollar key under which taps on the level are counted.
pub struct VpLevel {
    pub price_key: u64,
    pub kind: VpLevelKind,
    pub taps: u32,
    pub confirmed_by_4h: bool,
}

impl VpLevel {
    /// A level is high-probability once it was tapped more than once and a
    /// 4h candle confirmed it.
    pub open spec fn spec_is_high_prob(self) -> bool {
        self.taps > 1 && self.confirmed_by_4h
    }

    pub fn is_high_prob(&self) -> (b: bool)
        ensures
            b == self.spec_is_high_prob(),
    {
        self.taps > 1 && self.confirmed_by_4h
    }

    /// Counts one more tap; a 4h confirmation, once seen, is kept.
    pub fn record_tap(&mut self, confirmed_4h: bool)
        requires
            old(self).taps < u32::MAX,
        ensures
            final(self).taps == old(self).taps + 1,
            final(self).confirmed_by_4h == (old(self).confirmed_by_4h || confirmed_4h),
            final(self).price_key == old(self).price_key,
            final(self).kind == old(self).kind,
    {
        self.taps = self.taps + 1;
        if confirmed_4h {
            self.confirmed_by_4h = true;
        }
    }
}

} // verus!
