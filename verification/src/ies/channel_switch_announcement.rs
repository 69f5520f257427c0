//! The Channel Switch Announcement element.
use vstd::prelude::*;

use crate::ies::field::{byte_field, byte_field_is, Field};
use crate::text::{decimal, u64_text};

verus! {

/// A Channel Switch Announcement element: the access point is about to move to another
/// channel.
#[derive(Debug, Clone, Copy, PartialEq, Eq, Structural, Hash)]
pub struct ChannelSwitchAnnouncement {
    channel_switch_mode: u8,
    new_channel_number: u8,
    channel_switch_count: u8,
}

impl ChannelSwitchAnnouncement {
    pub const NAME: &'static str = "Channel Switch Announcement";
    pub const ID: u8 = 37;
    pub const ID_EXT: Option<u8> = None;

    /// The switch mode, new channel and count, in the order the element holds them.
    pub closed spec fn spec_parts(&self) -> (u8, u8, u8) {
        (self.channel_switch_mode, self.new_channel_number, self.channel_switch_count)
    }

    /// Parses the three-byte element body. `None` when it is shorter.
    pub fn from_bytes(bytes: &[u8]) -> (r: Option<ChannelSwitchAnnouncement>)
        ensures
            r is Some <==> bytes@.len() >= 3,
            r matches Some(v) ==> v.spec_parts() == (bytes@[0], bytes@[1], bytes@[2]),
    {
        if bytes.len() < 3 {
            return None;
        }
        Some(
            ChannelSwitchAnnouncement {
                channel_switch_mode: bytes[0],
                new_channel_number: bytes[1],
                channel_switch_count: bytes[2],
            },
        )
    }

    /// The one-line summary.
    pub open spec fn spec_summary(&self) -> Seq<char> {
        "Mode: "@ + decimal(self.spec_parts().0 as nat) + ", New Channel: "@ + decimal(
            self.spec_parts().1 as nat,
        ) + ", Switch Count: "@ + decimal(self.spec_parts().2 as nat)
    }

    /// A one-line summary, for example `Mode: 1, New Channel: 36, Switch Count: 5`.
    pub fn summary(&self) -> (s: String)
        ensures
            s@ == self.spec_summary(),
    {
        let mut s = String::from_str("Mode: ");
        s.append(u64_text(self.channel_switch_mode as u64).as_str());
        s.append(", New Channel: ");
        s.append(u64_text(self.new_channel_number as u64).as_str());
        s.append(", Switch Count: ");
        s.append(u64_text(self.channel_switch_count as u64).as_str());
        s
    }

    /// The element's fields, one per byte.
    pub fn fields(&self) -> (v: Vec<Field>)
        ensures
            v@.len() == 3,
            byte_field_is(v@[0], "Channel Switch Mode"@, decimal(self.spec_parts().0 as nat), None, self.spec_parts().0),
            byte_field_is(v@[1], "New Channel Number"@, decimal(self.spec_parts().1 as nat), None, self.spec_parts().1),
            byte_field_is(v@[2], "Channel Switch Count"@, decimal(self.spec_parts().2 as nat), None, self.spec_parts().2),
    {
        let mut v: Vec<Field> = Vec::new();
        v.push(byte_field("Channel Switch Mode", u64_text(self.channel_switch_mode as u64), self.channel_switch_mode));
        v.push(byte_field("New Channel Number", u64_text(self.new_channel_number as u64), self.new_channel_number));
        v.push(byte_field("Channel Switch Count", u64_text(self.channel_switch_count as u64), self.channel_switch_count));
        v
    }
}

} // verus!
