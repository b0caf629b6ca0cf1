//! The entry points of the library: listing the devices and opening one.

use vstd::prelude::*;
use vstd::slice::slice_to_vec;
use crate::device::HidDevice;
use crate::device_info::{DeviceInfo, DeviceInfoView};
use crate::error::{error_from_message, error_of, HidError, HidErrorView, HidResult};
use crate::list::{entry_views, first_nul, split_at_nul, split_entries};
use crate::wstring::WcharString;

verus! {

pub struct HidApiBackend;

/// The paths in a list of interface paths: its entries but the empty ones,
/// which name no interface.
pub open spec fn paths_in(list: Seq<u16>) -> Seq<Seq<u16>> {
    split_at_nul(list).filter(|entry: Seq<u16>| entry.len() > 0)
}

/// A list that holds nothing but NULs holds no path.
pub proof fn lemma_only_nuls_no_paths(list: Seq<u16>)
    requires
        forall|i: int| 0 <= i < list.len() ==> list[i] == 0,
    ensures
        paths_in(list).len() == 0,
    decreases list.len(),
{
    reveal_with_fuel(Seq::filter, 2);
    let keep = |entry: Seq<u16>| entry.len() > 0;
    if list.len() == 0 {
        assert(split_at_nul(list) == seq![list]);
        assert(seq![list].drop_last() =~= Seq::<Seq<u16>>::empty());
        assert(seq![list].filter(keep) =~= Seq::<Seq<u16>>::empty());
    } else {
        assert(first_nul(list) == 0);
        let rest = list.skip(1);
        lemma_only_nuls_no_paths(rest);
        let head = seq![list.take(0)];
        assert(split_at_nul(list) == head + split_at_nul(rest));
        assert(head.drop_last() =~= Seq::<Seq<u16>>::empty());
        assert(head.filter(keep) =~= Seq::<Seq<u16>>::empty());
        Seq::filter_distributes_over_add(head, split_at_nul(rest), keep);
    }
}

/// The records of the interfaces that could be opened, in their order.
pub open spec fn opened_records(found: Seq<Option<DeviceInfo>>) -> Seq<DeviceInfoView>
    decreases found.len(),
{
    if found.len() == 0 {
        Seq::empty()
    } else {
        match found.last() {
            Some(dev) => opened_records(found.drop_last()).push(dev@),
            None => opened_records(found.drop_last()),
        }
    }
}

/// What each record holds.
pub open spec fn record_views(devices: Seq<DeviceInfo>) -> Seq<DeviceInfoView> {
    Seq::new(devices.len(), |i: int| devices[i]@)
}

/// A serial number as the wide string that the C library takes: one unit for
/// each character, its scalar value cut to 16 bits, and a NUL at the end.
pub open spec fn wide_serial(sn: Seq<char>) -> Seq<u16> {
    Seq::new(
        sn.len() + 1,
        |i: int|
            if i < sn.len() {
                ((sn[i] as int) % 0x1_0000) as u16
            } else {
                0u16
            },
    )
}

impl HidApiBackend {
    /// The interface paths in the list that the platform gave, in its order.
    /// A list without interfaces, which holds only the NUL that ends it,
    /// gives no path.
    pub fn interface_paths(list: &[u16]) -> (paths: Vec<Vec<u16>>)
        ensures
            entry_views(paths@) == paths_in(list@),
            (forall|i: int| 0 <= i < list@.len() ==> list@[i] == 0) ==> paths@.len() == 0,
    {
        proof {
            if forall|i: int| 0 <= i < list@.len() ==> list@[i] == 0 {
                lemma_only_nuls_no_paths(list@);
            }
        }
        let entries: Vec<Vec<u16>> = split_entries(list);
        let ghost all = split_at_nul(list@);
        let ghost keep = |entry: Seq<u16>| entry.len() > 0;
        let count: usize = entries.len();
        let mut paths: Vec<Vec<u16>> = Vec::new();
        let mut i: usize = 0;
        proof {
            reveal(Seq::filter);
            assert(entry_views(paths@) =~= all.take(0).filter(keep));
        }
        while i < count
            invariant
                i <= count,
                count == entries@.len(),
                all == split_at_nul(list@),
                all == entry_views(entries@),
                keep == |entry: Seq<u16>| entry.len() > 0,
                entry_views(paths@) == all.take(i as int).filter(keep),
            decreases count - i,
        {
            let ghost before = entry_views(paths@);
            proof {
                reveal(Seq::filter);
                let next = all.take(i + 1);
                assert(next.drop_last() == all.take(i as int));
                assert(next.last() == entries@[i as int]@);
            }
            if entries[i].len() > 0 {
                let path: Vec<u16> = slice_to_vec(entries[i].as_slice());
                paths.push(path);
                assert(entry_views(paths@) =~= before.push(path@));
            }
            i = i + 1;
        }
        assert(all.take(count as int) == all);
        paths
    }

    /// Gathers the records of the interfaces that were found, each `Some`
    /// where the interface could be opened and described. An interface that
    /// could not be opened is passed over, which is no error, and so is a
    /// list without interfaces.
    pub fn get_hid_device_info_vector(found: Vec<Option<DeviceInfo>>) -> (devices: HidResult<
        Vec<DeviceInfo>,
    >)
        ensures
            devices is Ok,
            record_views(devices->Ok_0@) == opened_records(found@),
            found@.len() == 0 ==> devices->Ok_0@.len() == 0,
    {
        let ghost all = found@;
        let mut devices: Vec<DeviceInfo> = Vec::new();
        assert(record_views(devices@) =~= opened_records(all.take(0)));
        for outcome in it: found
            invariant
                it.seq() == all,
                record_views(devices@) == opened_records(all.take(it.index() as int)),
        {
            let ghost before = record_views(devices@);
            proof {
                let next = all.take(it.index() + 1);
                assert(next.drop_last() == all.take(it.index() as int));
                assert(next.last() == outcome);
            }
            match outcome {
                Some(dev) => {
                    devices.push(dev);
                    assert(record_views(devices@) =~= before.push(dev@));
                },
                None => {},
            }
        }
        assert(all.take(all.len() as int) == all);
        Ok(devices)
    }

    /// Writes a serial number as the wide string that the C library takes.
    pub fn serial_to_wide(sn: &str) -> (chars: Vec<u16>)
        ensures
            chars@ == wide_serial(sn@),
    {
        let count: usize = sn.unicode_len();
        let mut chars: Vec<u16> = Vec::new();
        let mut i: usize = 0;
        while i < count
            invariant
                i <= count,
                count == sn@.len(),
                chars@.len() == i,
                forall|j: int| 0 <= j < i ==> chars@[j] == wide_serial(sn@)[j],
            decreases count - i,
        {
            let c: char = sn.get_char(i);
            chars.push(((c as u32) % 0x1_0000) as u16);
            i = i + 1;
        }
        chars.push(0);
        assert(chars@ =~= wide_serial(sn@));
        chars
    }

    /// Takes what an open of the C library returned: the device, or nothing
    /// for the null address, for which the caller asks the library for its
    /// error.
    pub fn opened(device: usize) -> (dev: Option<HidDevice>)
        ensures
            dev is Some <==> device != 0,
            dev matches Some(open) ==> open.raw() == device,
    {
        if device == 0 {
            None
        } else {
            Some(HidDevice::from_raw(device))
        }
    }

    /// Turns the C library's last error message into an error.
    pub fn check_error(message: WcharString) -> (error: HidResult<HidError>)
        ensures
            match error {
                Ok(with_message) => error_of(message@) == Ok::<HidErrorView, HidErrorView>(
                    with_message@,
                ),
                Err(without) => error_of(message@) == Err::<HidErrorView, HidErrorView>(
                    without@,
                ),
            },
    {
        error_from_message(message)
    }
}

} // verus!
