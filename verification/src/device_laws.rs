//! What the device and channel lists hold and which device a request finds, said of the
//! answers in terms of the names that the system gives.

use vstd::prelude::*;
use crate::devices::{
    device_entries, device_entry, find_input_device, first_named, is_first_named, is_named,
    list_channels, list_devices, DeviceChoice, DeviceListing,
};
use crate::error::Error;
use crate::models::{AudioChannelsResponse, AudioDevice, AudioDevicesResponse};
use crate::recorder::{AudioRecorder, StartRequest};
use crate::stream::{device_channel_count, resolve_channel, DeviceProbe};
use crate::text::{decimal, decimal_text, lemma_u16_reads_back};

verus! {

/// A device is found by its whole name: the one that a request finds has the requested
/// name, character for character, and none before it has. One is found wherever there
/// is such a name, and not later in the list than that; where there is none the
/// recording falls back to the default device, which must then be there.
pub proof fn law_device_is_found_by_its_whole_name(
    id: &str,
    listing: &DeviceListing,
    names: Vec<Option<String>>,
    has_default: bool,
    r: Result<DeviceChoice, Error>,
)
    requires
        *listing == Ok::<Vec<Option<String>>, String>(names),
        call_ensures(find_input_device, (Some(id), listing, has_default), r),
    ensures
        r matches Ok(DeviceChoice::Listed(k)) ==> {
            &&& k < names@.len()
            &&& names@[k as int] matches Some(name) && name@ == id@
            &&& forall|j: int|
                0 <= j < k ==> ((#[trigger] names@[j]) matches Some(name) ==> name@ != id@)
        },
        forall|i: int|
            0 <= i < names@.len() && ((#[trigger] names@[i]) matches Some(name) && name@ == id@)
                ==> (r matches Ok(DeviceChoice::Listed(k)) && k <= i),
        (forall|i: int|
            0 <= i < names@.len() ==> ((#[trigger] names@[i]) matches Some(name) ==> name@ != id@))
            ==> if has_default {
            r matches Ok(DeviceChoice::Default)
        } else {
            r matches Err(Error::DeviceNotFound)
        },
{
    assert(names@.len() == names.len());
    assert forall|i: int|
        0 <= i < names@.len() && ((#[trigger] names@[i]) matches Some(name) && name@
            == id@) implies (r matches Ok(DeviceChoice::Listed(k)) && k <= i) by {
        lemma_earliest(names@, id@, i);
        let k = choose|k: int| is_first_named(names@, id@, k);
        assert(is_named(names@[i], id@));
        assert(k <= i);
    }
    if first_named(names@, id@) is Some {
        let k = choose|k: int| is_first_named(names@, id@, k);
        assert(is_named(names@[k], id@));
        assert forall|j: int| 0 <= j < k implies ((#[trigger] names@[j]) matches Some(name) ==> name@
            != id@) by {
            assert(!is_named(names@[j], id@));
        }
    }
}

/// Where a device has a name there is a first that has it.
proof fn lemma_earliest(names: Seq<Option<String>>, id: Seq<char>, i: int)
    requires
        0 <= i < names.len(),
        names[i] matches Some(name) && name@ == id,
    ensures
        exists|k: int| is_first_named(names, id, k),
    decreases i,
{
    if forall|j: int| 0 <= j < i ==> !is_named(#[trigger] names[j], id) {
        assert(is_first_named(names, id, i));
    } else {
        let j = choose|j: int| 0 <= j < i && is_named(#[trigger] names[j], id);
        lemma_earliest(names, id, j);
    }
}

/// Without a requested name the recording uses the default device, which must then be
/// there; whether the devices can be listed does not matter.
pub proof fn law_default_device_needs_no_list(
    listing: &DeviceListing,
    has_default: bool,
    r: Result<DeviceChoice, Error>,
)
    requires
        call_ensures(find_input_device, (None, listing, has_default), r),
    ensures
        has_default ==> (r matches Ok(DeviceChoice::Default)),
        !has_default ==> (r matches Err(Error::DeviceNotFound)),
{
}

/// A requested device cannot be looked for where the devices cannot be listed, and they
/// cannot be told either: both fail with the cause, default or not.
pub proof fn law_failed_listing_is_reported(
    id: &str,
    listing: &DeviceListing,
    cause: String,
    has_default: bool,
    default_name: &Option<String>,
    found: Result<DeviceChoice, Error>,
    told: Result<AudioDevicesResponse, Error>,
)
    requires
        *listing == Err::<Vec<Option<String>>, String>(cause),
        call_ensures(find_input_device, (Some(id), listing, has_default), found),
        call_ensures(list_devices, (listing, default_name), told),
    ensures
        found matches Err(Error::Recording(message)) && message@ == "Failed to enumerate devices: "@
            + cause@,
        told matches Err(Error::Recording(message)) && message@ == "Failed to enumerate devices: "@
            + cause@,
{
}

/// A request to record looks for the device that its configuration names.
pub proof fn law_request_looks_for_its_device(
    request: &StartRequest,
    device_id: Option<&str>,
    listing: &DeviceListing,
    has_default: bool,
    found: Result<DeviceChoice, Error>,
    r: Result<DeviceChoice, Error>,
)
    requires
        match (request.config.device_id, device_id) {
            (Some(name), Some(id)) => name@ == id@,
            (None, None) => true,
            _ => false,
        },
        call_ensures(find_input_device, (device_id, listing, has_default), found),
        call_ensures(StartRequest::find_device, (request, listing, has_default), r),
    ensures
        match (found, r) {
            (Ok(a), Ok(b)) => a == b,
            (Err(Error::DeviceNotFound), Err(Error::DeviceNotFound)) => true,
            (Err(Error::Recording(a)), Err(Error::Recording(b))) => a@ == b@,
            _ => false,
        },
{
}

/// The device list follows the system's list: one more device there, at the end, is one
/// more entry here, at the end, or none if its name cannot be read. The entry goes by the
/// name of the device, as id and as name, and is marked exactly if the default device
/// has the same name. No devices make an empty list.
pub proof fn law_device_list_follows_the_system(
    names: Vec<Option<String>>,
    longer: Vec<Option<String>>,
    last: Option<String>,
    listing: &DeviceListing,
    longer_listing: &DeviceListing,
    default_name: &Option<String>,
    r: Result<AudioDevicesResponse, Error>,
    longer_r: Result<AudioDevicesResponse, Error>,
)
    requires
        longer@ == names@.push(last),
        *listing == Ok::<Vec<Option<String>>, String>(names),
        *longer_listing == Ok::<Vec<Option<String>>, String>(longer),
        call_ensures(list_devices, (listing, default_name), r),
        call_ensures(list_devices, (longer_listing, default_name), longer_r),
    ensures
        r is Ok,
        longer_r is Ok,
        names@.len() == 0 ==> r->Ok_0.devices@.len() == 0,
        match last {
            None => longer_r->Ok_0.devices@ == r->Ok_0.devices@,
            Some(name) => {
                let devices = longer_r->Ok_0.devices@;
                &&& devices.len() == r->Ok_0.devices@.len() + 1
                &&& devices.drop_last() == r->Ok_0.devices@
                &&& devices.last().id@ == name@
                &&& devices.last().name@ == name@
                &&& devices.last().is_default <==> (*default_name matches Some(d) && d@ == name@)
            },
        },
{
    let entry = |name: Option<String>| device_entry(name, *default_name);
    assert(longer@.drop_last() =~= names@);
    assert(longer@.last() == last);
    assert(device_entries(names@, *default_name) == names@.filter_map(entry));
    assert(device_entries(longer@, *default_name) == longer@.filter_map(entry));
    if let Some(name) = last {
        let added = AudioDevice {
            id: name,
            name,
            is_default: *default_name matches Some(d) && d@ == name@,
        };
        assert(longer@.filter_map(entry) =~= names@.filter_map(entry).push(added));
        assert(longer@.filter_map(entry).drop_last() =~= names@.filter_map(entry));
    }
}

/// The recorder tells the devices that the device list holds.
pub proof fn law_recorder_tells_the_device_list(
    recorder: &AudioRecorder,
    listing: &DeviceListing,
    default_name: &Option<String>,
    listed: Result<AudioDevicesResponse, Error>,
    r: Result<AudioDevicesResponse, Error>,
)
    requires
        call_ensures(list_devices, (listing, default_name), listed),
        call_ensures(AudioRecorder::get_devices, (recorder, listing, default_name), r),
    ensures
        match (listed, r) {
            (Ok(a), Ok(b)) => a.devices@ == b.devices@,
            (Err(Error::Recording(a)), Err(Error::Recording(b))) => a@ == b@,
            _ => false,
        },
{
}

/// The channel list has one entry per channel. Its id is the number of the channel,
/// counted from zero, and selects that channel again; its name says the number counted
/// from one; the first channel and no other is the default.
pub proof fn law_channel_list_numbers_the_channels(
    count: u16,
    response: AudioChannelsResponse,
    index: u16,
    id: &str,
    number: String,
    next_number: String,
    selected: Result<Option<u16>, Error>,
)
    requires
        call_ensures(list_channels, (count,), response),
        index < count,
        id@ == response.channels@[index as int].id@,
        call_ensures(decimal_text, (index as u64,), number),
        call_ensures(decimal_text, ((index + 1) as u64,), next_number),
        call_ensures(resolve_channel, (Some(id), count), selected),
    ensures
        response.channels@.len() == count,
        response.channels@[index as int].id@ == number@,
        response.channels@[index as int].name@ == "Channel "@ + next_number@,
        response.channels@[index as int].is_default <==> index == 0,
        selected matches Ok(Some(channel)) && channel == index,
{
    lemma_u16_reads_back(index);
    assert(id@ == decimal(index as nat));
}

/// The recorder tells as many channels as the device delivers, with the entries of the
/// channel list.
pub proof fn law_recorder_tells_the_channel_list(
    recorder: &AudioRecorder,
    probe: &DeviceProbe,
    count: u16,
    listed: AudioChannelsResponse,
    r: Result<AudioChannelsResponse, Error>,
)
    requires
        call_ensures(device_channel_count, (probe,), count),
        call_ensures(list_channels, (count,), listed),
        call_ensures(AudioRecorder::get_channels, (recorder, probe), r),
    ensures
        r is Ok,
        r->Ok_0.channels@.len() == count,
        forall|i: int|
            0 <= i < count ==> {
                let channel = #[trigger] r->Ok_0.channels@[i];
                &&& channel.id@ == listed.channels@[i].id@
                &&& channel.name@ == listed.channels@[i].name@
                &&& channel.is_default == listed.channels@[i].is_default
            },
{
}

/// Any listing can be searched and told, and any number of channels listed.
pub proof fn law_any_listing_is_taken(
    device_id: Option<&str>,
    listing: &DeviceListing,
    has_default: bool,
    default_name: &Option<String>,
    count: u16,
    request: &StartRequest,
    recorder: &AudioRecorder,
    probe: &DeviceProbe,
)
    ensures
        call_requires(find_input_device, (device_id, listing, has_default)),
        call_requires(StartRequest::find_device, (request, listing, has_default)),
        call_requires(list_devices, (listing, default_name)),
        call_requires(AudioRecorder::get_devices, (recorder, listing, default_name)),
        call_requires(list_channels, (count,)),
        call_requires(AudioRecorder::get_channels, (recorder, probe)),
{
}

} // verus!
