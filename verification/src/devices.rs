//! Choosing the input device and listing what there is to choose from.

use vstd::prelude::*;
use crate::error::{outcome, recording_error, Error, ErrorView};
use crate::models::{AudioChannel, AudioChannelsResponse, AudioDevice, AudioDevicesResponse};
use crate::text::{decimal, decimal_text, opt_text, same_text};

verus! {

/// The names of the input devices, in the system's order, or why they could not
/// be listed. A device whose name cannot be read is `None`.
pub type DeviceListing = Result<Vec<Option<String>>, String>;

/// The device that a recording uses.
#[derive(Debug, Clone, Copy, PartialEq, Eq, Structural)]
pub enum DeviceChoice {
    /// The device at this place of the listing.
    Listed(usize),
    /// The system's default input device.
    Default,
}

/// Whether a device goes by the name `id`.
pub open spec fn is_named(name: Option<String>, id: Seq<char>) -> bool {
    name matches Some(n) && n@ == id
}

/// Whether the device at `k` is the first that goes by the name `id`.
pub open spec fn is_first_named(names: Seq<Option<String>>, id: Seq<char>, k: int) -> bool {
    &&& 0 <= k < names.len()
    &&& is_named(names[k], id)
    &&& forall|j: int| 0 <= j < k ==> !is_named(#[trigger] names[j], id)
}

/// The first device that goes by the name `id`, if there is one.
pub open spec fn first_named(names: Seq<Option<String>>, id: Seq<char>) -> Option<int> {
    if exists|k: int| is_first_named(names, id, k) {
        Some(choose|k: int| is_first_named(names, id, k))
    } else {
        None
    }
}

/// The device for a recording: the first that goes by the requested name, else
/// the default. It is an error if the devices cannot be listed although one was
/// requested, or if the default is wanted and there is none.
pub open spec fn device_choice(
    device_id: Option<Seq<char>>,
    listing: DeviceListing,
    has_default: bool,
) -> Result<DeviceChoice, ErrorView> {
    let default_choice = if has_default {
        Ok(DeviceChoice::Default)
    } else {
        Err(ErrorView::DeviceNotFound)
    };
    match device_id {
        None => default_choice,
        Some(id) => match listing {
            Err(cause) => Err(ErrorView::Recording("Failed to enumerate devices: "@ + cause@)),
            Ok(names) => match first_named(names@, id) {
                Some(k) => Ok(DeviceChoice::Listed(k as usize)),
                None => default_choice,
            },
        },
    }
}

/// The entry of the device list for one device.
pub open spec fn device_entry(name: Option<String>, default_name: Option<String>) -> Option<
    AudioDevice,
> {
    match name {
        Some(n) => Some(
            AudioDevice {
                id: n,
                name: n,
                is_default: default_name matches Some(d) && d@ == n@,
            },
        ),
        None => None,
    }
}

/// The device list: every device whose name can be read, in the system's order.
pub open spec fn device_entries(
    names: Seq<Option<String>>,
    default_name: Option<String>,
) -> Seq<AudioDevice> {
    names.filter_map(|name: Option<String>| device_entry(name, default_name))
}

/// Whether `channel` is the entry of the channel list for the channel at `index`.
pub open spec fn is_channel_entry(channel: AudioChannel, index: int) -> bool {
    &&& channel.id@ == decimal(index as nat)
    &&& channel.name@ == "Channel "@ + decimal((index + 1) as nat)
    &&& channel.is_default == (index == 0)
}

/// The first device of a name, where there is one.
proof fn lemma_first_named(names: Seq<Option<String>>, id: Seq<char>, k: int)
    requires
        0 <= k < names.len(),
        is_named(names[k], id),
    ensures
        first_named(names, id) is Some,
        is_first_named(names, id, first_named(names, id)->0),
    decreases k,
{
    if forall|j: int| 0 <= j < k ==> !is_named(#[trigger] names[j], id) {
        assert(is_first_named(names, id, k));
    } else {
        let j = choose|j: int| 0 <= j < k && is_named(#[trigger] names[j], id);
        lemma_first_named(names, id, j);
    }
}

/// An id taken from the device list finds a device of that name again as long as
/// the devices stay the same, whether there is a default or not.
pub proof fn law_listed_id_finds_device(
    names: Vec<Option<String>>,
    default_name: Option<String>,
    i: int,
    has_default: bool,
)
    requires
        0 <= i < device_entries(names@, default_name).len(),
    ensures
        ({
            let id = device_entries(names@, default_name)[i].id@;
            device_choice(Some(id), Ok(names), has_default) matches Ok(DeviceChoice::Listed(k))
                && k < names@.len() && is_named(names@[k as int], id)
        }),
{
    let entry = |name: Option<String>| device_entry(name, default_name);
    let devices = device_entries(names@, default_name);
    assert(devices == names@.filter_map(entry));
    assert(devices.contains(devices[i]));
    names@.lemma_filter_map_contains(entry, devices[i]);
    let name = choose|name: Option<String>|
        #[trigger] names@.contains(name) && entry(name) == Some(devices[i]);
    let k = choose|k: int| 0 <= k < names@.len() && names@[k] == name;
    assert(is_named(names@[k], devices[i].id@));
    lemma_first_named(names@, devices[i].id@, k);
    assert(names@.len() == names.len());
}

/// Finds the input device for a recording: the one whose name is `device_id`, or
/// the system default when no id is given. A requested device that is no longer
/// present (unplugged since the devices were listed) falls back to the default.
/// `listing` is not looked at when no id is given.
pub fn find_input_device(
    device_id: Option<&str>,
    listing: &DeviceListing,
    has_default: bool,
) -> (r: Result<DeviceChoice, Error>)
    ensures
        outcome(r) == device_choice(opt_text(device_id), *listing, has_default),
{
    if let Some(id) = device_id {
        match listing {
            Err(cause) => {
                return Err(recording_error("Failed to enumerate devices: ", cause.as_str()));
            },
            Ok(names) => {
                let mut i: usize = 0;
                while i < names.len()
                    invariant
                        i <= names.len(),
                        device_id == Some(id),
                        *listing == Ok::<Vec<Option<String>>, String>(*names),
                        forall|j: int| 0 <= j < i ==> !is_named(#[trigger] names@[j], id@),
                    decreases names.len() - i,
                {
                    if let Some(name) = &names[i] {
                        if same_text(name.as_str(), id) {
                            assert(is_first_named(names@, id@, i as int));
                            return Ok(DeviceChoice::Listed(i));
                        }
                    }
                    i = i + 1;
                }
                assert(first_named(names@, id@) is None);
            },
        }
    }
    if has_default {
        Ok(DeviceChoice::Default)
    } else {
        Err(Error::DeviceNotFound)
    }
}

/// The device list for the given names.
pub fn list_devices(listing: &DeviceListing, default_name: &Option<String>) -> (r: Result<
    AudioDevicesResponse,
    Error,
>)
    ensures
        match *listing {
            Ok(names) => r matches Ok(response) && response.devices@ == device_entries(
                names@,
                *default_name,
            ),
            Err(cause) => r matches Err(e) && e@ == ErrorView::Recording(
                "Failed to enumerate devices: "@ + cause@,
            ),
        },
{
    match listing {
        Err(cause) => Err(recording_error("Failed to enumerate devices: ", cause.as_str())),
        Ok(names) => {
            let ghost entry = |name: Option<String>| device_entry(name, *default_name);
            let mut devices: Vec<AudioDevice> = Vec::new();
            let mut i: usize = 0;
            assert(names@.take(0) =~= Seq::empty());
            while i < names.len()
                invariant
                    i <= names.len(),
                    entry == (|name: Option<String>| device_entry(name, *default_name)),
                    devices@ == names@.take(i as int).filter_map(entry),
                decreases names.len() - i,
            {
                proof {
                    assert(names@.take(i + 1).drop_last() =~= names@.take(i as int));
                }
                if let Some(name) = &names[i] {
                    let is_default: bool = match default_name {
                        Some(d) => same_text(d.as_str(), name.as_str()),
                        None => false,
                    };
                    devices.push(AudioDevice { id: name.clone(), name: name.clone(), is_default });
                }
                i = i + 1;
                assert(devices@ =~= names@.take(i as int).filter_map(entry));
            }
            assert(names@.take(i as int) =~= names@);
            Ok(AudioDevicesResponse { devices })
        },
    }
}

/// The channel list of a device that delivers `count` channels: ids count from
/// zero, names from one, and the first channel is the default.
pub fn list_channels(count: u16) -> (response: AudioChannelsResponse)
    ensures
        response.channels@.len() == count,
        forall|i: int| 0 <= i < count ==> is_channel_entry(#[trigger] response.channels@[i], i),
{
    let mut channels: Vec<AudioChannel> = Vec::new();
    let mut index: u16 = 0;
    while index < count
        invariant
            index <= count,
            channels@.len() == index,
            forall|i: int| 0 <= i < index ==> is_channel_entry(#[trigger] channels@[i], i),
        decreases count - index,
    {
        let id: String = decimal_text(index as u64);
        let name: String = "Channel ".to_owned().concat(decimal_text(index as u64 + 1).as_str());
        channels.push(AudioChannel { id, name, is_default: index == 0 });
        index = index + 1;
    }
    AudioChannelsResponse { channels }
}

} // verus!
