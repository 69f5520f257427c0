//! Channel widths, including the non-HT and narrow OFDM widths.
use vstd::prelude::*;

verus! {

/// The width of a channel, including the non-HT and narrow OFDM widths.
#[derive(Debug, Clone, Copy, PartialEq, Eq, Structural, Hash, PartialOrd, Ord)]
pub enum ChannelWidth {
    TwentyMhzNoHt,
    TwentyMhz,
    FortyMhz,
    EightyMhz,
    EightyPlusEightyMhz,
    OneSixtyMhz,
    FiveMhzOfdm,
    TenMhzOfdm,
    OneMhzOfdm,
    TwoMhzOfdm,
    FourMhzOfdm,
    EightMhzOfdm,
    SixteenMhzOfdm,
    ThreeHundredTwentyMhz,
}

impl ChannelWidth {
    /// The value encoded by a raw code, if the code is defined.
    pub open spec fn spec_from_u8(v: u8) -> Option<ChannelWidth> {
        if v == 0 {
            Some(ChannelWidth::TwentyMhzNoHt)
        } else if v == 1 {
            Some(ChannelWidth::TwentyMhz)
        } else if v == 2 {
            Some(ChannelWidth::FortyMhz)
        } else if v == 3 {
            Some(ChannelWidth::EightyMhz)
        } else if v == 4 {
            Some(ChannelWidth::EightyPlusEightyMhz)
        } else if v == 5 {
            Some(ChannelWidth::OneSixtyMhz)
        } else if v == 6 {
            Some(ChannelWidth::FiveMhzOfdm)
        } else if v == 7 {
            Some(ChannelWidth::TenMhzOfdm)
        } else if v == 8 {
            Some(ChannelWidth::OneMhzOfdm)
        } else if v == 9 {
            Some(ChannelWidth::TwoMhzOfdm)
        } else if v == 10 {
            Some(ChannelWidth::FourMhzOfdm)
        } else if v == 11 {
            Some(ChannelWidth::EightMhzOfdm)
        } else if v == 12 {
            Some(ChannelWidth::SixteenMhzOfdm)
        } else if v == 13 {
            Some(ChannelWidth::ThreeHundredTwentyMhz)
        } else {
            None
        }
    }

    /// The raw code of the value.
    pub open spec fn spec_to_u8(self) -> u8 {
        match self {
            ChannelWidth::TwentyMhzNoHt => 0,
            ChannelWidth::TwentyMhz => 1,
            ChannelWidth::FortyMhz => 2,
            ChannelWidth::EightyMhz => 3,
            ChannelWidth::EightyPlusEightyMhz => 4,
            ChannelWidth::OneSixtyMhz => 5,
            ChannelWidth::FiveMhzOfdm => 6,
            ChannelWidth::TenMhzOfdm => 7,
            ChannelWidth::OneMhzOfdm => 8,
            ChannelWidth::TwoMhzOfdm => 9,
            ChannelWidth::FourMhzOfdm => 10,
            ChannelWidth::EightMhzOfdm => 11,
            ChannelWidth::SixteenMhzOfdm => 12,
            ChannelWidth::ThreeHundredTwentyMhz => 13,
        }
    }

    /// The human-readable text of the value.
    pub open spec fn spec_text(self) -> Seq<char> {
        match self {
            ChannelWidth::TwentyMhzNoHt => "20 MHz, non-HT"@,
            ChannelWidth::TwentyMhz => "20 MHz"@,
            ChannelWidth::FortyMhz => "40 MHz"@,
            ChannelWidth::EightyMhz => "80 MHz"@,
            ChannelWidth::EightyPlusEightyMhz => "80+80 MHz"@,
            ChannelWidth::OneSixtyMhz => "160 MHz"@,
            ChannelWidth::FiveMhzOfdm => "5 MHz OFDM"@,
            ChannelWidth::TenMhzOfdm => "10 MHz OFDM"@,
            ChannelWidth::OneMhzOfdm => "1 MHz OFDM"@,
            ChannelWidth::TwoMhzOfdm => "2 MHz OFDM"@,
            ChannelWidth::FourMhzOfdm => "4 MHz OFDM"@,
            ChannelWidth::EightMhzOfdm => "8 MHz OFDM"@,
            ChannelWidth::SixteenMhzOfdm => "16 MHz OFDM"@,
            ChannelWidth::ThreeHundredTwentyMhz => "320 MHz"@,
        }
    }

    /// Decodes a raw code; `None` for an undefined code.
    pub fn from_u8(v: u8) -> (r: Option<ChannelWidth>)
        ensures
            r == Self::spec_from_u8(v),
    {
        match v {
            0 => Some(ChannelWidth::TwentyMhzNoHt),
            1 => Some(ChannelWidth::TwentyMhz),
            2 => Some(ChannelWidth::FortyMhz),
            3 => Some(ChannelWidth::EightyMhz),
            4 => Some(ChannelWidth::EightyPlusEightyMhz),
            5 => Some(ChannelWidth::OneSixtyMhz),
            6 => Some(ChannelWidth::FiveMhzOfdm),
            7 => Some(ChannelWidth::TenMhzOfdm),
            8 => Some(ChannelWidth::OneMhzOfdm),
            9 => Some(ChannelWidth::TwoMhzOfdm),
            10 => Some(ChannelWidth::FourMhzOfdm),
            11 => Some(ChannelWidth::EightMhzOfdm),
            12 => Some(ChannelWidth::SixteenMhzOfdm),
            13 => Some(ChannelWidth::ThreeHundredTwentyMhz),
            _ => None,
        }
    }

    /// The raw code of the value.
    pub fn to_u8(&self) -> (v: u8)
        ensures
            v == self.spec_to_u8(),
            Self::spec_from_u8(v) == Some(*self),
    {
        match self {
            ChannelWidth::TwentyMhzNoHt => 0,
            ChannelWidth::TwentyMhz => 1,
            ChannelWidth::FortyMhz => 2,
            ChannelWidth::EightyMhz => 3,
            ChannelWidth::EightyPlusEightyMhz => 4,
            ChannelWidth::OneSixtyMhz => 5,
            ChannelWidth::FiveMhzOfdm => 6,
            ChannelWidth::TenMhzOfdm => 7,
            ChannelWidth::OneMhzOfdm => 8,
            ChannelWidth::TwoMhzOfdm => 9,
            ChannelWidth::FourMhzOfdm => 10,
            ChannelWidth::EightMhzOfdm => 11,
            ChannelWidth::SixteenMhzOfdm => 12,
            ChannelWidth::ThreeHundredTwentyMhz => 13,
        }
    }

    /// The human-readable text of the value.
    pub fn to_string(&self) -> (s: String)
        ensures
            s@ == self.spec_text(),
    {
        match self {
            ChannelWidth::TwentyMhzNoHt => String::from_str("20 MHz, non-HT"),
            ChannelWidth::TwentyMhz => String::from_str("20 MHz"),
            ChannelWidth::FortyMhz => String::from_str("40 MHz"),
            ChannelWidth::EightyMhz => String::from_str("80 MHz"),
            ChannelWidth::EightyPlusEightyMhz => String::from_str("80+80 MHz"),
            ChannelWidth::OneSixtyMhz => String::from_str("160 MHz"),
            ChannelWidth::FiveMhzOfdm => String::from_str("5 MHz OFDM"),
            ChannelWidth::TenMhzOfdm => String::from_str("10 MHz OFDM"),
            ChannelWidth::OneMhzOfdm => String::from_str("1 MHz OFDM"),
            ChannelWidth::TwoMhzOfdm => String::from_str("2 MHz OFDM"),
            ChannelWidth::FourMhzOfdm => String::from_str("4 MHz OFDM"),
            ChannelWidth::EightMhzOfdm => String::from_str("8 MHz OFDM"),
            ChannelWidth::SixteenMhzOfdm => String::from_str("16 MHz OFDM"),
            ChannelWidth::ThreeHundredTwentyMhz => String::from_str("320 MHz"),
        }
    }
}

/// Decoding a value's own code gives the value back.
pub proof fn lemma_channel_width_code_roundtrip(v: ChannelWidth)
    ensures
        ChannelWidth::spec_from_u8(v.spec_to_u8()) == Some(v),
{
}

/// Whether no channel width occurs twice in `s`.
pub open spec fn no_duplicate_widths(s: Seq<ChannelWidth>) -> bool {
    forall|i: int, j: int| 0 <= i < j < s.len() ==> s[i] != s[j]
}

/// A set of channel widths, kept in insertion order without duplicates.
#[derive(Debug, Clone, PartialEq, Eq)]
pub struct ChannelWidths {
    widths: Vec<ChannelWidth>,
}

impl ChannelWidths {
    /// The widths in the set, in insertion order.
    pub closed spec fn view(&self) -> Seq<ChannelWidth> {
        self.widths@
    }

    /// An empty set.
    pub fn new() -> (s: ChannelWidths)
        ensures
            s.view() == Seq::<ChannelWidth>::empty(),
            no_duplicate_widths(s.view()),
    {
        ChannelWidths { widths: Vec::new() }
    }

    /// Whether `width` is in the set.
    pub fn contains(&self, width: ChannelWidth) -> (b: bool)
        ensures
            b == self.view().contains(width),
    {
        let mut i: usize = 0;
        while i < self.widths.len()
            invariant
                i <= self.widths@.len(),
                forall|j: int| 0 <= j < i ==> self.widths@[j] != width,
            decreases self.widths@.len() - i,
        {
            if self.widths[i] == width {
                return true;
            }
            i = i + 1;
        }
        false
    }

    /// Adds `width`; returns whether it was new. A width already present is left in place.
    pub fn insert(&mut self, width: ChannelWidth) -> (added: bool)
        ensures
            added == !old(self).view().contains(width),
            added ==> final(self).view() == old(self).view().push(width),
            !added ==> final(self).view() == old(self).view(),
            no_duplicate_widths(old(self).view()) ==> no_duplicate_widths(final(self).view()),
    {
        if self.contains(width) {
            false
        } else {
            self.widths.push(width);
            proof {
                assert forall|i: int, j: int|
                    no_duplicate_widths(old(self).widths@) && 0 <= i < j < self.widths@.len() implies self.widths@[i] != self.widths@[j] by {
                    if j == self.widths@.len() - 1 {
                        assert(old(self).widths@.contains(old(self).widths@[i]));
                    }
                }
            }
            true
        }
    }

    /// The number of widths in the set.
    pub fn len(&self) -> (n: usize)
        ensures
            n == self.view().len(),
    {
        self.widths.len()
    }

    /// Whether the set is empty.
    pub fn is_empty(&self) -> (b: bool)
        ensures
            b == (self.view().len() == 0),
    {
        self.widths.len() == 0
    }

    /// The widths joined by `, `, for example `20 MHz, 40 MHz`.
    pub fn to_string(&self) -> (s: String)
        ensures
            s@ == crate::text::joined(self.view().map_values(|w: ChannelWidth| w.spec_text()), ", "@),
    {
        let mut parts: Vec<String> = Vec::new();
        let mut i: usize = 0;
        while i < self.widths.len()
            invariant
                i <= self.widths@.len(),
                parts@.len() == i,
                forall|j: int| 0 <= j < i ==> #[trigger] parts@[j]@ == self.widths@[j].spec_text(),
            decreases self.widths@.len() - i,
        {
            parts.push(self.widths[i].to_string());
            i = i + 1;
        }
        let s = crate::text::join_strings(&parts, ", ");
        proof {
            assert(parts@.map_values(|p: String| p@) =~= self.view().map_values(
                |w: ChannelWidth| w.spec_text(),
            ));
        }
        s
    }
}

/// Inserting a width makes it a member, and inserting it again changes nothing.
pub proof fn lemma_insert_twice_keeps_set(before: Seq<ChannelWidth>, after: Seq<ChannelWidth>, w: ChannelWidth)
    requires
        after == (if before.contains(w) { before } else { before.push(w) }),
    ensures
        after.contains(w),
        (if after.contains(w) { after } else { after.push(w) }) == after,
{
    if !before.contains(w) {
        assert(after[after.len() - 1] == w);
    }
}

} // verus!
