//! The AP Channel Report element.
use vstd::prelude::*;

verus! {

/// An AP Channel Report element: an operating class and the channels in it where other access
/// points may be found.
#[derive(Debug, Clone, PartialEq, Eq)]
pub struct ApChannelReport {
    pub operating_class: u8,
    pub channel_list: Vec<u8>,
}

impl ApChannelReport {
    pub const NAME: &'static str = "AP Channel Report";
    pub const ID: u8 = 51;
    pub const ID_EXT: Option<u8> = None;

    /// Parses the element body: the operating class, then one channel per remaining byte.
    /// `None` when the body is empty.
    pub fn from_bytes(bytes: &[u8]) -> (r: Option<ApChannelReport>)
        ensures
            r is Some <==> bytes@.len() >= 1,
            r matches Some(v) ==> v.operating_class == bytes@[0] && v.channel_list@
                == bytes@.subrange(1, bytes@.len() as int),
    {
        if bytes.len() < 1 {
            return None;
        }
        let rest = vstd::slice::slice_subrange(bytes, 1, bytes.len());
        Some(
            ApChannelReport {
                operating_class: bytes[0],
                channel_list: vstd::slice::slice_to_vec(rest),
            },
        )
    }
}

} // verus!
