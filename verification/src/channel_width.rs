//! Channel widths.
use vstd::prelude::*;

use crate::ies::ie::Ie;
use crate::ies::search::{last_eht_operation, last_he_operation, last_ht_operation, last_operations, last_vht_operation};

verus! {

/// The width of the channel a basic service set operates on.
#[derive(Debug, Clone, Copy, PartialEq, Eq, Structural, Hash, PartialOrd, Ord)]
pub enum ChannelWidth {
    TwentyMhz,
    FortyMhz,
    EightyMhz,
    EightyPlusEightyMhz,
    OneSixtyMhz,
    ThreeHundredTwentyMhz,
}

impl ChannelWidth {
    /// The value encoded by a raw code, if the code is defined.
    pub open spec fn spec_from_u8(v: u8) -> Option<ChannelWidth> {
        if v == 0 {
            Some(ChannelWidth::TwentyMhz)
        } else if v == 1 {
            Some(ChannelWidth::FortyMhz)
        } else if v == 2 {
            Some(ChannelWidth::EightyMhz)
        } else if v == 3 {
            Some(ChannelWidth::EightyPlusEightyMhz)
        } else if v == 4 {
            Some(ChannelWidth::OneSixtyMhz)
        } else if v == 5 {
            Some(ChannelWidth::ThreeHundredTwentyMhz)
        } else {
            None
        }
    }

    /// The raw code of the value.
    pub open spec fn spec_to_u8(self) -> u8 {
        match self {
            ChannelWidth::TwentyMhz => 0,
            ChannelWidth::FortyMhz => 1,
            ChannelWidth::EightyMhz => 2,
            ChannelWidth::EightyPlusEightyMhz => 3,
            ChannelWidth::OneSixtyMhz => 4,
            ChannelWidth::ThreeHundredTwentyMhz => 5,
        }
    }

    /// The human-readable text of the value.
    pub open spec fn spec_text(self) -> Seq<char> {
        match self {
            ChannelWidth::TwentyMhz => "20 MHz"@,
            ChannelWidth::FortyMhz => "40 MHz"@,
            ChannelWidth::EightyMhz => "80 MHz"@,
            ChannelWidth::EightyPlusEightyMhz => "80+80 MHz"@,
            ChannelWidth::OneSixtyMhz => "160 MHz"@,
            ChannelWidth::ThreeHundredTwentyMhz => "320 MHz"@,
        }
    }

    /// Decodes a raw code; `None` for an undefined code.
    pub fn from_u8(v: u8) -> (r: Option<ChannelWidth>)
        ensures
            r == Self::spec_from_u8(v),
    {
        match v {
            0 => Some(ChannelWidth::TwentyMhz),
            1 => Some(ChannelWidth::FortyMhz),
            2 => Some(ChannelWidth::EightyMhz),
            3 => Some(ChannelWidth::EightyPlusEightyMhz),
            4 => Some(ChannelWidth::OneSixtyMhz),
            5 => Some(ChannelWidth::ThreeHundredTwentyMhz),
            _ => None,
        }
    }

    /// The raw code of the value.
    pub fn to_u8(&self) -> (v: u8)
        ensures
            v == self.spec_to_u8(),
            Self::spec_from_u8(v) == Some(*self),
    {
        match self {
            ChannelWidth::TwentyMhz => 0,
            ChannelWidth::FortyMhz => 1,
            ChannelWidth::EightyMhz => 2,
            ChannelWidth::EightyPlusEightyMhz => 3,
            ChannelWidth::OneSixtyMhz => 4,
            ChannelWidth::ThreeHundredTwentyMhz => 5,
        }
    }

    /// The human-readable text of the value.
    pub fn to_string(&self) -> (s: String)
        ensures
            s@ == self.spec_text(),
    {
        match self {
            ChannelWidth::TwentyMhz => String::from_str("20 MHz"),
            ChannelWidth::FortyMhz => String::from_str("40 MHz"),
            ChannelWidth::EightyMhz => String::from_str("80 MHz"),
            ChannelWidth::EightyPlusEightyMhz => String::from_str("80+80 MHz"),
            ChannelWidth::OneSixtyMhz => String::from_str("160 MHz"),
            ChannelWidth::ThreeHundredTwentyMhz => String::from_str("320 MHz"),
        }
    }
}

/// Decoding a value's own code gives the value back.
pub proof fn lemma_channel_width_code_roundtrip(v: ChannelWidth)
    ensures
        ChannelWidth::spec_from_u8(v.spec_to_u8()) == Some(v),
{
}

/// Whether no channel width occurs twice in `s`.
pub open spec fn no_duplicates(s: Seq<ChannelWidth>) -> bool {
    forall|i: int, j: int| 0 <= i < j < s.len() ==> s[i] != s[j]
}

/// A set of channel widths, kept in insertion order without duplicates.
#[derive(Debug, Clone, PartialEq, Eq)]
pub struct ChannelWidths {
    widths: Vec<ChannelWidth>,
}

impl ChannelWidths {
    /// The widths in the set, in insertion order.
    pub closed spec fn view(&self) -> Seq<ChannelWidth> {
        self.widths@
    }

    /// An empty set.
    pub fn new() -> (s: ChannelWidths)
        ensures
            s.view() == Seq::<ChannelWidth>::empty(),
            no_duplicates(s.view()),
    {
        ChannelWidths { widths: Vec::new() }
    }

    /// Whether `width` is in the set.
    pub fn contains(&self, width: ChannelWidth) -> (b: bool)
        ensures
            b == self.view().contains(width),
    {
        let mut i: usize = 0;
        while i < self.widths.len()
            invariant
                i <= self.widths@.len(),
                forall|j: int| 0 <= j < i ==> self.widths@[j] != width,
            decreases self.widths@.len() - i,
        {
            if self.widths[i] == width {
                return true;
            }
            i = i + 1;
        }
        false
    }

    /// Adds `width`; returns whether it was new. A width already present is left in place.
    pub fn insert(&mut self, width: ChannelWidth) -> (added: bool)
        ensures
            added == !old(self).view().contains(width),
            added ==> final(self).view() == old(self).view().push(width),
            !added ==> final(self).view() == old(self).view(),
            no_duplicates(old(self).view()) ==> no_duplicates(final(self).view()),
    {
        if self.contains(width) {
            false
        } else {
            self.widths.push(width);
            proof {
                assert forall|i: int, j: int|
                    no_duplicates(old(self).widths@) && 0 <= i < j < self.widths@.len() implies self.widths@[i] != self.widths@[j] by {
                    if j == self.widths@.len() - 1 {
                        assert(old(self).widths@.contains(old(self).widths@[i]));
                    }
                }
            }
            true
        }
    }

    /// The number of widths in the set.
    pub fn len(&self) -> (n: usize)
        ensures
            n == self.view().len(),
    {
        self.widths.len()
    }

    /// Whether the set is empty.
    pub fn is_empty(&self) -> (b: bool)
        ensures
            b == (self.view().len() == 0),
    {
        self.widths.len() == 0
    }

    /// The widths joined by `, `, for example `20 MHz, 40 MHz`.
    pub fn to_string(&self) -> (s: String)
        ensures
            s@ == crate::text::joined(self.view().map_values(|w: ChannelWidth| w.spec_text()), ", "@),
    {
        let mut parts: Vec<String> = Vec::new();
        let mut i: usize = 0;
        while i < self.widths.len()
            invariant
                i <= self.widths@.len(),
                parts@.len() == i,
                forall|j: int| 0 <= j < i ==> #[trigger] parts@[j]@ == self.widths@[j].spec_text(),
            decreases self.widths@.len() - i,
        {
            parts.push(self.widths[i].to_string());
            i = i + 1;
        }
        let s = crate::text::join_strings(&parts, ", ");
        proof {
            assert(parts@.map_values(|p: String| p@) =~= self.view().map_values(
                |w: ChannelWidth| w.spec_text(),
            ));
        }
        s
    }
}

/// Inserting a width makes it a member, and inserting it again changes nothing.
pub proof fn lemma_insert_idempotent(before: Seq<ChannelWidth>, after: Seq<ChannelWidth>, w: ChannelWidth)
    requires
        after == (if before.contains(w) { before } else { before.push(w) }),
    ensures
        after.contains(w),
        (if after.contains(w) { after } else { after.push(w) }) == after,
{
    if !before.contains(w) {
        assert(after[after.len() - 1] == w);
    }
}

/// The channel width that a list of elements announces: that of the last EHT Operation
/// element when it announces one, else that of the last HE Operation element when it
/// announces one, else that of the last VHT Operation element when it announces one, else
/// that of the last HT Operation element, else 20 MHz.
pub open spec fn spec_channel_width_of(ies: Seq<Ie>) -> ChannelWidth {
    let eht = match last_eht_operation(ies) {
        Some(op) => op.spec_channel_width(),
        None => None,
    };
    let he = match last_he_operation(ies) {
        Some(op) => op.spec_channel_width(),
        None => None,
    };
    let vht = match last_vht_operation(ies) {
        Some(op) => op.spec_channel_width(),
        None => None,
    };
    if eht is Some {
        eht->0
    } else if he is Some {
        he->0
    } else if vht is Some {
        vht->0
    } else {
        match last_ht_operation(ies) {
            Some(op) => op.spec_channel_width(),
            None => ChannelWidth::TwentyMhz,
        }
    }
}

impl<'a> From<&'a [Ie]> for ChannelWidth {
    /// The channel width the elements announce; see `spec_channel_width_of`.
    fn from(ies: &'a [Ie]) -> (w: ChannelWidth) {
        let ops = last_operations(ies);
        if let Some(op) = ops.eht {
            if let Some(w) = op.channel_width() {
                return w;
            }
        }
        if let Some(op) = ops.he {
            if let Some(w) = op.channel_width() {
                return w;
            }
        }
        if let Some(op) = ops.vht {
            if let Some(w) = op.channel_width() {
                return w;
            }
        }
        if let Some(op) = ops.ht {
            return op.channel_width();
        }
        ChannelWidth::TwentyMhz
    }
}

impl<'a> vstd::std_specs::convert::FromSpecImpl<&'a [Ie]> for ChannelWidth {
    open spec fn obeys_from_spec() -> bool {
        true
    }

    open spec fn from_spec(ies: &'a [Ie]) -> ChannelWidth {
        spec_channel_width_of(ies@)
    }
}

} // verus!
