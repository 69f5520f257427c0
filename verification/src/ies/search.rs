//! Finding elements in a list of information elements: the last element of a kind, or the
//! first one that answers a question.
use vstd::prelude::*;

use crate::ies::bss_load::BssLoad;
use crate::ies::eht_operation::EhtOperation;
use crate::ies::elements::eht_capabilities::EhtCapabilities;
use crate::ies::elements::he_operation::HeOperation;
use crate::ies::elements::ht_operation::HtOperation;
use crate::ies::elements::vht_operation::VhtOperation;
use crate::ies::he_capabilities::HeCapabilities;
use crate::ies::ie::{Ie, IeData};
use crate::utf8::str_from_utf8;
use vstd::string::StringSliceAdditionalSpecFns;
use vstd::utf8::valid_utf8;

verus! {

/// Whether the reference `r` points at the value `v` holds, both absent or both present.
pub open spec fn refers_to<T>(r: Option<&T>, v: Option<T>) -> bool {
    match r {
        Some(x) => v == Some(*x),
        None => v is None,
    }
}

/// The last EHT Operation element of `ies`.
pub open spec fn last_eht_operation(ies: Seq<Ie>) -> Option<EhtOperation>
    decreases ies.len(),
{
    if ies.len() == 0 {
        None
    } else {
        match ies.last().data {
            IeData::EhtOperation(op) => Some(op),
            _ => last_eht_operation(ies.drop_last()),
        }
    }
}

/// The last HE Operation element of `ies`.
pub open spec fn last_he_operation(ies: Seq<Ie>) -> Option<HeOperation>
    decreases ies.len(),
{
    if ies.len() == 0 {
        None
    } else {
        match ies.last().data {
            IeData::HeOperation(op) => Some(op),
            _ => last_he_operation(ies.drop_last()),
        }
    }
}

/// The last VHT Operation element of `ies`.
pub open spec fn last_vht_operation(ies: Seq<Ie>) -> Option<VhtOperation>
    decreases ies.len(),
{
    if ies.len() == 0 {
        None
    } else {
        match ies.last().data {
            IeData::VhtOperation(op) => Some(op),
            _ => last_vht_operation(ies.drop_last()),
        }
    }
}

/// The last HT Operation element of `ies`.
pub open spec fn last_ht_operation(ies: Seq<Ie>) -> Option<HtOperation>
    decreases ies.len(),
{
    if ies.len() == 0 {
        None
    } else {
        match ies.last().data {
            IeData::HtOperation(op) => Some(op),
            _ => last_ht_operation(ies.drop_last()),
        }
    }
}

/// The last element of each of the four operation kinds in a list of elements.
pub struct OperationElements<'a> {
    pub eht: Option<&'a EhtOperation>,
    pub he: Option<&'a HeOperation>,
    pub vht: Option<&'a VhtOperation>,
    pub ht: Option<&'a HtOperation>,
}

impl<'a> OperationElements<'a> {
    /// Whether these are the last operation elements of each kind in `ies`.
    pub open spec fn found_in(&self, ies: Seq<Ie>) -> bool {
        &&& refers_to(self.eht, last_eht_operation(ies))
        &&& refers_to(self.he, last_he_operation(ies))
        &&& refers_to(self.vht, last_vht_operation(ies))
        &&& refers_to(self.ht, last_ht_operation(ies))
    }
}

/// Finds, in one pass, the last EHT, HE, VHT and HT Operation elements of `ies`.
pub fn last_operations<'a>(ies: &'a [Ie]) -> (r: OperationElements<'a>)
    ensures
        r.found_in(ies@),
{
    let mut r = OperationElements { eht: None, he: None, vht: None, ht: None };
    let mut i: usize = 0;
    while i < ies.len()
        invariant
            i <= ies@.len(),
            r.found_in(ies@.subrange(0, i as int)),
        decreases ies@.len() - i,
    {
        let ghost before = ies@.subrange(0, i as int);
        match &ies[i].data {
            IeData::EhtOperation(op) => r.eht = Some(op),
            IeData::HeOperation(op) => r.he = Some(op),
            IeData::VhtOperation(op) => r.vht = Some(op),
            IeData::HtOperation(op) => r.ht = Some(op),
            _ => {},
        }
        proof {
            let after = ies@.subrange(0, i + 1);
            assert(after.drop_last() =~= before);
            assert(after.last() == ies@[i as int]);
        }
        i = i + 1;
    }
    proof {
        assert(ies@.subrange(0, ies@.len() as int) =~= ies@);
    }
    r
}

/// The index of the last HE Capabilities element of `ies`.
pub open spec fn last_he_capabilities_index(ies: Seq<Ie>) -> Option<int>
    decreases ies.len(),
{
    if ies.len() == 0 {
        None
    } else if ies.last().data is HeCapabilities {
        Some(ies.len() - 1)
    } else {
        last_he_capabilities_index(ies.drop_last())
    }
}

/// The index of the last EHT Capabilities element of `ies`.
pub open spec fn last_eht_capabilities_index(ies: Seq<Ie>) -> Option<int>
    decreases ies.len(),
{
    if ies.len() == 0 {
        None
    } else if ies.last().data is EhtCapabilities {
        Some(ies.len() - 1)
    } else {
        last_eht_capabilities_index(ies.drop_last())
    }
}

/// The last index found is a valid index of an element of that kind.
pub proof fn lemma_last_capabilities_index(ies: Seq<Ie>)
    ensures
        last_he_capabilities_index(ies) matches Some(i) ==> 0 <= i < ies.len() && ies[i].data is HeCapabilities,
        last_eht_capabilities_index(ies) matches Some(i) ==> 0 <= i < ies.len() && ies[i].data is EhtCapabilities,
    decreases ies.len(),
{
    if ies.len() > 0 {
        lemma_last_capabilities_index(ies.drop_last());
    }
}

/// Finds the indices of the last EHT Capabilities and the last HE Capabilities elements.
pub fn last_capabilities_indices(ies: &[Ie]) -> (r: (Option<usize>, Option<usize>))
    ensures
        r.0 matches Some(i) ==> last_eht_capabilities_index(ies@) == Some(i as int),
        r.0 is None ==> last_eht_capabilities_index(ies@) is None,
        r.1 matches Some(i) ==> last_he_capabilities_index(ies@) == Some(i as int),
        r.1 is None ==> last_he_capabilities_index(ies@) is None,
{
    let mut eht: Option<usize> = None;
    let mut he: Option<usize> = None;
    let mut i: usize = 0;
    while i < ies.len()
        invariant
            i <= ies@.len(),
            eht matches Some(k) ==> last_eht_capabilities_index(ies@.subrange(0, i as int)) == Some(k as int),
            eht is None ==> last_eht_capabilities_index(ies@.subrange(0, i as int)) is None,
            he matches Some(k) ==> last_he_capabilities_index(ies@.subrange(0, i as int)) == Some(k as int),
            he is None ==> last_he_capabilities_index(ies@.subrange(0, i as int)) is None,
        decreases ies@.len() - i,
    {
        let ghost before = ies@.subrange(0, i as int);
        match &ies[i].data {
            IeData::EhtCapabilities(_) => eht = Some(i),
            IeData::HeCapabilities(_) => he = Some(i),
            _ => {},
        }
        proof {
            let after = ies@.subrange(0, i + 1);
            assert(after.drop_last() =~= before);
            assert(after.last() == ies@[i as int]);
        }
        i = i + 1;
    }
    proof {
        assert(ies@.subrange(0, ies@.len() as int) =~= ies@);
    }
    (eht, he)
}

/// The channel announced by the first DS Parameter Set or HT Operation element of `ies`.
pub open spec fn first_announced_channel(ies: Seq<Ie>) -> Option<u8>
    decreases ies.len(),
{
    if ies.len() == 0 {
        None
    } else {
        match ies[0].data {
            IeData::DsParameterSet(ds) => Some(ds.current_channel),
            IeData::HtOperation(op) => Some(op.primary_channel),
            _ => first_announced_channel(ies.drop_first()),
        }
    }
}

/// Finds the channel announced by the first DS Parameter Set or HT Operation element.
pub fn announced_channel(ies: &[Ie]) -> (r: Option<u8>)
    ensures
        r == first_announced_channel(ies@),
{
    let mut i: usize = 0;
    proof {
        assert(ies@.subrange(0, ies@.len() as int) =~= ies@);
    }
    while i < ies.len()
        invariant
            i <= ies@.len(),
            first_announced_channel(ies@) == first_announced_channel(ies@.subrange(i as int, ies@.len() as int)),
        decreases ies@.len() - i,
    {
        let ghost rest = ies@.subrange(i as int, ies@.len() as int);
        proof {
            assert(rest[0] == ies@[i as int]);
            assert(rest.drop_first() =~= ies@.subrange(i + 1, ies@.len() as int));
        }
        match &ies[i].data {
            IeData::DsParameterSet(ds) => return Some(ds.current_channel),
            IeData::HtOperation(op) => return Some(op.primary_channel),
            _ => {},
        }
        i = i + 1;
    }
    None
}

/// The first BSS Load element of `ies`.
pub open spec fn first_bss_load(ies: Seq<Ie>) -> Option<BssLoad>
    decreases ies.len(),
{
    if ies.len() == 0 {
        None
    } else {
        match ies[0].data {
            IeData::BssLoad(load) => Some(load),
            _ => first_bss_load(ies.drop_first()),
        }
    }
}

/// Finds the first BSS Load element.
pub fn bss_load(ies: &[Ie]) -> (r: Option<&BssLoad>)
    ensures
        refers_to(r, first_bss_load(ies@)),
{
    let mut i: usize = 0;
    proof {
        assert(ies@.subrange(0, ies@.len() as int) =~= ies@);
    }
    while i < ies.len()
        invariant
            i <= ies@.len(),
            first_bss_load(ies@) == first_bss_load(ies@.subrange(i as int, ies@.len() as int)),
        decreases ies@.len() - i,
    {
        let ghost rest = ies@.subrange(i as int, ies@.len() as int);
        proof {
            assert(rest[0] == ies@[i as int]);
            assert(rest.drop_first() =~= ies@.subrange(i + 1, ies@.len() as int));
        }
        if let IeData::BssLoad(load) = &ies[i].data {
            return Some(load);
        }
        i = i + 1;
    }
    None
}

/// The bytes of the first SSID element of `ies` that does not hide the name (it is neither
/// empty nor NUL bytes only) and holds valid UTF-8.
pub open spec fn first_named_ssid(ies: Seq<Ie>) -> Option<Seq<u8>>
    decreases ies.len(),
{
    if ies.len() == 0 {
        None
    } else {
        match ies[0].data {
            IeData::Ssid(ssid) => if !ssid.spec_is_hidden() && valid_utf8(ssid.raw()) {
                Some(ssid.raw())
            } else {
                first_named_ssid(ies.drop_first())
            },
            _ => first_named_ssid(ies.drop_first()),
        }
    }
}

/// A list of elements whose SSID elements all hide the name gives no SSID.
pub proof fn lemma_hidden_ssids_give_none(ies: Seq<Ie>)
    requires
        forall|i: int| 0 <= i < ies.len() ==> (#[trigger] ies[i].data matches IeData::Ssid(s) ==> s.spec_is_hidden()),
    ensures
        first_named_ssid(ies) is None,
    decreases ies.len(),
{
    if ies.len() > 0 {
        assert forall|i: int| 0 <= i < ies.drop_first().len() implies (#[trigger] ies.drop_first()[i].data matches IeData::Ssid(s)
            ==> s.spec_is_hidden()) by {
            assert(ies.drop_first()[i] == ies[i + 1]);
        }
        lemma_hidden_ssids_give_none(ies.drop_first());
        assert(ies[0].data matches IeData::Ssid(s) ==> s.spec_is_hidden());
    }
}

/// Finds the text of the first SSID element that does not hide the name and holds valid UTF-8.
pub fn named_ssid(ies: &[Ie]) -> (r: Option<&str>)
    ensures
        r is Some <==> first_named_ssid(ies@) is Some,
        r matches Some(s) ==> s.spec_bytes() == first_named_ssid(ies@)->0,
{
    let mut i: usize = 0;
    proof {
        assert(ies@.subrange(0, ies@.len() as int) =~= ies@);
    }
    while i < ies.len()
        invariant
            i <= ies@.len(),
            first_named_ssid(ies@) == first_named_ssid(ies@.subrange(i as int, ies@.len() as int)),
        decreases ies@.len() - i,
    {
        let ghost rest = ies@.subrange(i as int, ies@.len() as int);
        proof {
            assert(rest[0] == ies@[i as int]);
            assert(rest.drop_first() =~= ies@.subrange(i + 1, ies@.len() as int));
        }
        if let IeData::Ssid(ssid) = &ies[i].data {
            if !ssid.is_hidden() {
                if let Ok(text) = ssid.as_str() {
                    return Some(text);
                }
            }
        }
        i = i + 1;
    }
    None
}

} // verus!
