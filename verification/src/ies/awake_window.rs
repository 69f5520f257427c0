//! The Awake Window element.
use vstd::prelude::*;

use crate::bits::{le_u16, read_le_u16};
use crate::ies::field::{text_field_is, text_field_with_units, Field};
use crate::text::{decimal, u64_text};

verus! {

/// An Awake Window element: how long a mesh station stays awake after its beacon.
#[derive(Debug, Clone, Copy, PartialEq, Eq, Structural, Hash)]
pub struct AwakeWindow {
    pub awake_window_duration_micros: u16,
}

impl AwakeWindow {
    pub const ID: u8 = 157;
    pub const ID_EXT: Option<u8> = None;
    pub const NAME: &'static str = "Awake Window";

    /// Parses the two-byte element body, least significant byte first; `None` when it is
    /// shorter.
    pub fn from_bytes(bytes: &[u8]) -> (r: Option<AwakeWindow>)
        ensures
            r is Some <==> bytes@.len() >= 2,
            r matches Some(a) ==> a.awake_window_duration_micros == le_u16(bytes@, 0),
    {
        if bytes.len() < 2 {
            None
        } else {
            Some(AwakeWindow { awake_window_duration_micros: read_le_u16(bytes, 0) })
        }
    }

    /// The one-line summary, for example `Duration: 500 μs`.
    pub fn summary(&self) -> (s: String)
        ensures
            s@ == "Duration: "@ + decimal(self.awake_window_duration_micros as nat) + " μs"@,
    {
        let mut s = String::from_str("Duration: ");
        s.append(u64_text(self.awake_window_duration_micros as u64).as_str());
        s.append(" μs");
        s
    }

    /// The element's single field: the duration in microseconds.
    pub fn fields(&self) -> (fs: Vec<Field>)
        ensures
            fs@.len() == 1,
            text_field_is(fs@[0], "Awake Window Duration"@, decimal(self.awake_window_duration_micros as nat), Some("μs"@)),
    {
        let mut fs: Vec<Field> = Vec::new();
        fs.push(text_field_with_units("Awake Window Duration", u64_text(self.awake_window_duration_micros as u64), "μs"));
        fs
    }
}

} // verus!
