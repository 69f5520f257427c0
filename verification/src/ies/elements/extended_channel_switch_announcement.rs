//! The Extended Channel Switch Announcement element.
use vstd::prelude::*;

use crate::ies::field::{byte_field, byte_field_is, Field};
use crate::text::{decimal, u64_text};

verus! {

/// An Extended Channel Switch Announcement element: a channel switch that may also change the
/// operating class.
#[derive(Debug, Clone, Copy, PartialEq, Eq, Structural, Hash)]
pub struct ExtendedChannelSwitchAnnouncement {
    pub channel_switch_mode: u8,
    pub new_operating_class: u8,
    pub new_channel_number: u8,
    pub channel_switch_count: u8,
}

impl ExtendedChannelSwitchAnnouncement {
    pub const ID: u8 = 60;
    pub const ID_EXT: Option<u8> = None;
    pub const NAME: &'static str = "Extended Channel Switch Announcement";

    /// Parses the four-byte element body. `None` when it is shorter.
    pub fn from_bytes(bytes: &[u8]) -> (r: Option<ExtendedChannelSwitchAnnouncement>)
        ensures
            r is Some <==> bytes@.len() >= 4,
            r matches Some(v) ==> v.channel_switch_mode == bytes@[0] && v.new_operating_class
                == bytes@[1] && v.new_channel_number == bytes@[2] && v.channel_switch_count
                == bytes@[3],
    {
        if bytes.len() < 4 {
            return None;
        }
        Some(
            ExtendedChannelSwitchAnnouncement {
                channel_switch_mode: bytes[0],
                new_operating_class: bytes[1],
                new_channel_number: bytes[2],
                channel_switch_count: bytes[3],
            },
        )
    }

    /// The one-line summary.
    pub open spec fn spec_summary(&self) -> Seq<char> {
        "Mode: "@ + decimal(self.channel_switch_mode as nat) + ", Operating Class: "@ + decimal(
            self.new_operating_class as nat,
        ) + ", New Channel: "@ + decimal(self.new_channel_number as nat) + ", Switch Count: "@
            + decimal(self.channel_switch_count as nat)
    }

    /// A one-line summary, for example
    /// `Mode: 1, Operating Class: 115, New Channel: 36, Switch Count: 5`.
    pub fn summary(&self) -> (s: String)
        ensures
            s@ == self.spec_summary(),
    {
        let mut s = String::from_str("Mode: ");
        s.append(u64_text(self.channel_switch_mode as u64).as_str());
        s.append(", Operating Class: ");
        s.append(u64_text(self.new_operating_class as u64).as_str());
        s.append(", New Channel: ");
        s.append(u64_text(self.new_channel_number as u64).as_str());
        s.append(", Switch Count: ");
        s.append(u64_text(self.channel_switch_count as u64).as_str());
        s
    }

    /// The element's fields, one per byte.
    pub fn fields(&self) -> (v: Vec<Field>)
        ensures
            v@.len() == 4,
            byte_field_is(v@[0], "Channel Switch Mode"@, decimal(self.channel_switch_mode as nat), None, self.channel_switch_mode),
            byte_field_is(v@[1], "New Operating Class"@, decimal(self.new_operating_class as nat), None, self.new_operating_class),
            byte_field_is(v@[2], "New Channel Number"@, decimal(self.new_channel_number as nat), None, self.new_channel_number),
            byte_field_is(v@[3], "Channel Switch Count"@, decimal(self.channel_switch_count as nat), None, self.channel_switch_count),
    {
        let mut v: Vec<Field> = Vec::new();
        v.push(byte_field("Channel Switch Mode", u64_text(self.channel_switch_mode as u64), self.channel_switch_mode));
        v.push(byte_field("New Operating Class", u64_text(self.new_operating_class as u64), self.new_operating_class));
        v.push(byte_field("New Channel Number", u64_text(self.new_channel_number as u64), self.new_channel_number));
        v.push(byte_field("Channel Switch Count", u64_text(self.channel_switch_count as u64), self.channel_switch_count));
        v
    }
}

} // verus!
