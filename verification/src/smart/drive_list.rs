//! The device inventory: block devices as the listing tool reports them,
//! their stable identifiers, and the published device tree.

use crate::data;
use crate::data::opt_text;
use crate::text::{lowercase_of, replace_char, replaced};
use vstd::arithmetic::power::pow;
use vstd::prelude::*;

verus! {

/// The size text of a listing in the form in which it is read: with `.` as
/// the decimal separator and in lowercase.
pub open spec fn normalized_size(size: Seq<char>) -> Seq<char> {
    lowercase_of(replaced(size, ',', '.'))
}

/// The power of 1024 that a unit letter stands for, counted from kilobytes.
pub open spec fn unit_power(unit: char) -> Option<nat> {
    if unit == 'k' {
        Some(0nat)
    } else if unit == 'm' {
        Some(1nat)
    } else if unit == 'g' {
        Some(2nat)
    } else if unit == 't' {
        Some(3nat)
    } else if unit == 'p' {
        Some(4nat)
    } else {
        None
    }
}

/// The number of binary kilobytes in one unit of the given letter.
pub open spec fn unit_scale(unit: char) -> Option<int> {
    match unit_power(unit) {
        Some(n) => Some(pow(1024, n)),
        None => None,
    }
}

/// A size text taken apart: the number as written, and how many binary
/// kilobytes one unit of it is.
#[derive(Debug, Clone)]
pub struct SizeParts {
    pub number: String,
    pub factor: u64,
}

/// What a normalised size text splits into: nothing if it is empty or does
/// not end in a unit letter, else everything before the last character and
/// the scale of the unit.
pub open spec fn split_size(text: Seq<char>) -> Option<(Seq<char>, int)> {
    if text.len() > 0 && unit_scale(text.last()) is Some {
        Some((text.drop_last(), unit_scale(text.last())->0))
    } else {
        None
    }
}

/// The view of optional size parts.
pub open spec fn parts_view(parts: Option<SizeParts>) -> Option<(Seq<char>, int)> {
    match parts {
        Some(p) => Some((p.number@, p.factor as int)),
        None => None,
    }
}

/// Each unit is 1024 times the unit before it.
pub proof fn lemma_next_unit_is_1024_fold(unit: char, next: char)
    requires
        unit_power(unit) is Some,
        unit_power(next) == Some(unit_power(unit)->0 + 1),
    ensures
        unit_scale(next)->0 == 1024 * unit_scale(unit)->0,
{
    let n = unit_power(unit)->0;
    assert(pow(1024, n + 1) == 1024 * pow(1024, n)) by {
        vstd::arithmetic::power::lemma_pow_adds(1024, 1, n);
        vstd::arithmetic::power::lemma_pow1(1024);
    }
}

/// A number followed by a unit letter splits into that number and the scale
/// of the unit; with the next larger unit the number is the same and the
/// scale is 1024 times as large.
pub proof fn lemma_same_number_next_unit(number: Seq<char>, unit: char, next: char)
    requires
        unit_power(unit) is Some,
        unit_power(next) == Some(unit_power(unit)->0 + 1),
    ensures
        split_size(number.push(unit)) == Some((number, unit_scale(unit)->0)),
        split_size(number.push(next)) == Some((number, 1024 * unit_scale(unit)->0)),
{
    lemma_next_unit_is_1024_fold(unit, next);
    assert(number.push(unit).drop_last() =~= number);
    assert(number.push(next).drop_last() =~= number);
}

/// The number of binary kilobytes in one unit of the given letter, if the
/// letter is one of `k`, `m`, `g`, `t`, `p`.
pub fn unit_factor(unit: char) -> (r: Option<u64>)
    ensures
        r is Some <==> unit_scale(unit) is Some,
        r matches Some(f) ==> f == unit_scale(unit)->0,
{
    proof {
        reveal_with_fuel(pow, 5);
    }
    if unit == 'k' {
        Some(1)
    } else if unit == 'm' {
        Some(1024)
    } else if unit == 'g' {
        Some(1048576)
    } else if unit == 't' {
        Some(1073741824)
    } else if unit == 'p' {
        Some(1099511627776)
    } else {
        None
    }
}

/// Takes a normalised size text apart.
pub fn split_normalized(text: String) -> (r: Option<SizeParts>)
    ensures
        parts_view(r) == split_size(text@),
{
    let mut number = text;
    match number.pop() {
        Some(unit) => match unit_factor(unit) {
            Some(factor) => Some(SizeParts { number, factor }),
            None => None,
        },
        None => None,
    }
}

/// Takes the size text of a listing apart: `,` counts as `.`, upper case as
/// lower case, and the last character is the unit.
pub fn size_parts(size: &str) -> (r: Option<SizeParts>)
    ensures
        parts_view(r) == split_size(normalized_size(size@)),
{
    let text = replace_char(size, ',', '.').to_lowercase();
    split_normalized(text)
}

/// The stable identifiers of the machine as pairs of views: the name of an
/// identifier, and the canonical path of the device that it leads to.
pub open spec fn id_views(ids: Seq<(String, String)>) -> Seq<(Seq<char>, Seq<char>)> {
    ids.map_values(|e: (String, String)| (e.0@, e.1@))
}

/// The identifiers that a resolution has to go by: none where the list is
/// absent.
pub open spec fn known_ids(ids: Option<Vec<(String, String)>>) -> Seq<(Seq<char>, Seq<char>)> {
    match ids {
        Some(list) => id_views(list@),
        None => Seq::empty(),
    }
}

/// The path under which a device of the given name is expected.
pub open spec fn device_path(name: Seq<char>) -> Seq<char> {
    "/dev/"@ + name
}

/// The identifier leads to the device of the given name.
pub open spec fn leads_to(id: (Seq<char>, Seq<char>), name: Seq<char>) -> bool {
    id.1 == device_path(name)
}

/// The identifier leads to the device of the given name and is not the
/// device's own world-wide name.
pub open spec fn is_alternative(
    id: (Seq<char>, Seq<char>),
    name: Seq<char>,
    wwn: Option<Seq<char>>,
) -> bool {
    leads_to(id, name) && wwn != Some(id.0)
}

/// `i` is the position of the first element of `s` that satisfies `p`.
pub open spec fn is_first<T>(s: Seq<T>, p: spec_fn(T) -> bool, i: int) -> bool {
    &&& 0 <= i < s.len()
    &&& p(s[i])
    &&& forall|j: int| 0 <= j < i ==> !p(#[trigger] s[j])
}

/// The position of the first element of `s` that satisfies `p`, if there
/// is one.
pub open spec fn first_position<T>(s: Seq<T>, p: spec_fn(T) -> bool) -> Option<int> {
    if exists|i: int| is_first(s, p, i) {
        Some(choose|i: int| is_first(s, p, i))
    } else {
        None
    }
}

/// A first position is the only one.
pub proof fn lemma_first_position_found<T>(s: Seq<T>, p: spec_fn(T) -> bool, i: int)
    requires
        is_first(s, p, i),
    ensures
        first_position(s, p) == Some(i),
{
    let k = choose|k: int| is_first(s, p, k);
    assert(!(k < i));
    assert(!(i < k));
}

/// Where no element satisfies `p`, there is no first position.
pub proof fn lemma_first_position_absent<T>(s: Seq<T>, p: spec_fn(T) -> bool)
    requires
        forall|j: int| 0 <= j < s.len() ==> !p(#[trigger] s[j]),
    ensures
        first_position(s, p) is None,
{
}

/// The position of the first identifier that leads to the device.
pub open spec fn first_link(ids: Seq<(Seq<char>, Seq<char>)>, name: Seq<char>) -> Option<int> {
    first_position(ids, |id: (Seq<char>, Seq<char>)| leads_to(id, name))
}

/// The position of the first identifier that leads to the device and is
/// not the device's world-wide name.
pub open spec fn first_alternative(
    ids: Seq<(Seq<char>, Seq<char>)>,
    name: Seq<char>,
    wwn: Option<Seq<char>>,
) -> Option<int> {
    first_position(ids, |id: (Seq<char>, Seq<char>)| is_alternative(id, name, wwn))
}

/// The identifier of a device: the first one that leads to the device and
/// differs from its world-wide name; where there is none such, the first
/// one that leads to the device at all; else none.
pub open spec fn resolved_disk_id(
    ids: Seq<(Seq<char>, Seq<char>)>,
    name: Seq<char>,
    wwn: Option<Seq<char>>,
) -> Option<Seq<char>> {
    match first_alternative(ids, name, wwn) {
        Some(i) => Some(ids[i].0),
        None => match first_link(ids, name) {
            Some(i) => Some(ids[i].0),
            None => None,
        },
    }
}

/// A resolved identifier leads to the device, and it is the device's
/// world-wide name only if no other identifier leads to the device.
pub proof fn lemma_resolved_disk_id_prefers_alternative(
    ids: Seq<(Seq<char>, Seq<char>)>,
    name: Seq<char>,
    wwn: Option<Seq<char>>,
)
    ensures
        resolved_disk_id(ids, name, wwn) is Some <==> exists|i: int|
            0 <= i < ids.len() && leads_to(#[trigger] ids[i], name),
        resolved_disk_id(ids, name, wwn) matches Some(id) ==> exists|i: int|
            0 <= i < ids.len() && leads_to(#[trigger] ids[i], name) && ids[i].0 == id,
        (exists|i: int| 0 <= i < ids.len() && is_alternative(#[trigger] ids[i], name, wwn))
            ==> resolved_disk_id(ids, name, wwn) is Some && Some(
            resolved_disk_id(ids, name, wwn)->0,
        ) != wwn,
{
    let link = |id: (Seq<char>, Seq<char>)| leads_to(id, name);
    let alt = |id: (Seq<char>, Seq<char>)| is_alternative(id, name, wwn);
    if exists|i: int| 0 <= i < ids.len() && leads_to(#[trigger] ids[i], name) {
        let i = choose|i: int| 0 <= i < ids.len() && leads_to(#[trigger] ids[i], name);
        lemma_some_first(ids, link, i);
    }
    if exists|i: int| 0 <= i < ids.len() && is_alternative(#[trigger] ids[i], name, wwn) {
        let i = choose|i: int| 0 <= i < ids.len() && is_alternative(#[trigger] ids[i], name, wwn);
        lemma_some_first(ids, alt, i);
    }
    if first_alternative(ids, name, wwn) is Some {
        let k = first_alternative(ids, name, wwn)->0;
        assert(is_first(ids, alt, k));
        assert(leads_to(ids[k], name));
    }
    if first_link(ids, name) is Some {
        let k = first_link(ids, name)->0;
        assert(is_first(ids, link, k));
    }
}

/// Where some element satisfies `p`, there is a first one.
pub proof fn lemma_some_first<T>(s: Seq<T>, p: spec_fn(T) -> bool, i: int)
    requires
        0 <= i < s.len(),
        p(s[i]),
    ensures
        first_position(s, p) is Some,
        is_first(s, p, first_position(s, p)->0),
        first_position(s, p)->0 <= i,
    decreases i,
{
    if exists|j: int| 0 <= j < i && p(#[trigger] s[j]) {
        let j = choose|j: int| 0 <= j < i && p(#[trigger] s[j]);
        lemma_some_first(s, p, j);
    } else {
        assert(is_first(s, p, i));
        lemma_first_position_found(s, p, i);
    }
}

/// Resolves the stable identifier of the device `name` among `ids`, pairs
/// of an identifier and the canonical path that it leads to.
pub fn resolve_disk_id(
    name: &str,
    wwn: &Option<String>,
    ids: &Vec<(String, String)>,
) -> (r: Option<String>)
    ensures
        opt_text(r) == resolved_disk_id(id_views(ids@), name@, opt_text(*wwn)),
{
    let mut path = String::from_str("/dev/");
    path.append(name);
    let ghost views = id_views(ids@);
    let ghost link = |id: (Seq<char>, Seq<char>)| leads_to(id, name@);
    let ghost alt = |id: (Seq<char>, Seq<char>)| is_alternative(id, name@, opt_text(*wwn));
    let mut fallback: Option<usize> = None;
    let mut i: usize = 0;
    while i < ids.len()
        invariant
            i <= ids.len(),
            views == id_views(ids@),
            views.len() == ids.len(),
            path@ == device_path(name@),
            link == |id: (Seq<char>, Seq<char>)| leads_to(id, name@),
            alt == |id: (Seq<char>, Seq<char>)| is_alternative(id, name@, opt_text(*wwn)),
            forall|j: int| 0 <= j < i ==> !alt(#[trigger] views[j]),
            fallback is None ==> forall|j: int| 0 <= j < i ==> !link(#[trigger] views[j]),
            fallback matches Some(k) ==> k < i && is_first(views, link, k as int),
        decreases ids.len() - i,
    {
        assert(views[i as int] == (ids[i as int].0@, ids[i as int].1@));
        if ids[i].1 == path {
            let differs = match wwn {
                Some(w) => !(*w == ids[i].0),
                None => true,
            };
            if differs {
                proof {
                    assert(is_first(views, alt, i as int));
                    lemma_first_position_found(views, alt, i as int);
                }
                return Some(ids[i].0.clone());
            }
            if fallback.is_none() {
                assert(is_first(views, link, i as int));
                fallback = Some(i);
            }
        }
        i += 1;
    }
    proof {
        lemma_first_position_absent(views, alt);
    }
    match fallback {
        Some(k) => {
            proof {
                lemma_first_position_found(views, link, k as int);
            }
            Some(ids[k].0.clone())
        },
        None => {
            proof {
                lemma_first_position_absent(views, link);
            }
            None
        },
    }
}

/// One entry of the listing: a device as the listing tool reports it, with
/// its size already scaled to decimal kilobytes.
#[derive(Debug)]
pub struct Blockdevice {
    pub name: String,
    pub removable: bool,
    pub size_kb: u64,
    pub read_only: bool,
    pub mountpoint: Option<String>,
    pub drive_type: String,
    pub maj_min: String,
    pub model: Option<String>,
    pub serial: Option<String>,
    pub uuid: Option<String>,
    pub label: Option<String>,
    pub wwn: Option<String>,
    pub children: Option<Vec<Blockdevice>>,
}

/// The whole listing.
#[derive(Debug)]
pub struct Blocklist {
    pub blockdevices: Vec<Blockdevice>,
}

/// The published devices that the entries of a listing stand for, in the
/// same order.
pub open spec fn parsed_devices(
    devices: Seq<Blockdevice>,
    ids: Seq<(Seq<char>, Seq<char>)>,
) -> Seq<data::BlockdeviceView>
    decreases devices,
{
    Seq::new(
        devices.len(),
        |i: int|
            if 0 <= i < devices.len() {
                devices[i].parsed(ids)
            } else {
                arbitrary()
            },
    )
}

impl Blockdevice {
    /// The published device that this entry stands for: every field keeps
    /// its value, the stable identifier is resolved among `ids`, and the
    /// children are treated in the same way.
    pub open spec fn parsed(self, ids: Seq<(Seq<char>, Seq<char>)>) -> data::BlockdeviceView
        decreases self,
    {
        data::BlockdeviceView {
            name: self.name@,
            removable: self.removable,
            size_kb: self.size_kb,
            read_only: self.read_only,
            mountpoint: opt_text(self.mountpoint),
            device_type: self.drive_type@,
            maj_min: self.maj_min@,
            model: opt_text(self.model),
            serial: opt_text(self.serial),
            uuid: opt_text(self.uuid),
            label: opt_text(self.label),
            world_wide_name: opt_text(self.wwn),
            disk_id: resolved_disk_id(ids, self.name@, opt_text(self.wwn)),
            children: match self.children {
                Some(c) => Some(parsed_devices(c@, ids)),
                None => None,
            },
        }
    }

    /// Turns the entry into a published device. `ids` are the machine's
    /// stable identifiers, each with the canonical path that it leads to;
    /// where the list is absent no device gets an identifier.
    pub fn parse(self, ids: &Option<Vec<(String, String)>>) -> (out: data::Blockdevice)
        ensures
            out@ == self.parsed(known_ids(*ids)),
        decreases self,
    {
        let disk_id = match ids {
            Some(list) => resolve_disk_id(self.name.as_str(), &self.wwn, list),
            None => {
                proof {
                    lemma_first_position_absent(
                        known_ids(*ids),
                        |id: (Seq<char>, Seq<char>)|
                            is_alternative(id, self.name@, opt_text(self.wwn)),
                    );
                    lemma_first_position_absent(
                        known_ids(*ids),
                        |id: (Seq<char>, Seq<char>)| leads_to(id, self.name@),
                    );
                }
                None
            },
        };
        let ghost entry = self;
        let Blockdevice {
            name,
            removable,
            size_kb,
            read_only,
            mountpoint,
            drive_type,
            maj_min,
            model,
            serial,
            uuid,
            label,
            wwn,
            children,
        } = self;
        let children = match children {
            Some(c) => {
                proof {
                    assert(decreases_to!(entry.children => entry.children->0));
                }
                Some(parse_devices(c, ids))
            },
            None => None,
        };
        data::Blockdevice {
            name,
            removable,
            size_kb,
            read_only,
            mountpoint,
            device_type: drive_type,
            maj_min,
            model,
            serial,
            uuid,
            label,
            world_wide_name: wwn,
            disk_id,
            children,
        }
    }
}

/// Turns the entries of a listing into published devices, in the same
/// order.
pub fn parse_devices(
    devices: Vec<Blockdevice>,
    ids: &Option<Vec<(String, String)>>,
) -> (out: Vec<data::Blockdevice>)
    ensures
        data::device_views(out@) == parsed_devices(devices@, known_ids(*ids)),
    decreases devices,
{
    let ghost entries = devices@;
    let mut out: Vec<data::Blockdevice> = Vec::new();
    for item in iter: devices
        invariant
            iter.seq() == entries,
            entries == devices@,
            out.len() == iter.index(),
            forall|j: int|
                0 <= j < out.len() ==> (#[trigger] out[j])@ == entries[j].parsed(known_ids(*ids)),
    {
        proof {
            assert(decreases_to!(devices => devices@[iter.index()]));
        }
        let device = item.parse(ids);
        out.push(device);
    }
    assert(data::device_views(out@) =~= parsed_devices(devices@, known_ids(*ids)));
    out
}

impl Blocklist {
    /// Turns the listing into the published device tree.
    pub fn parse(self, ids: &Option<Vec<(String, String)>>) -> (out: Vec<data::Blockdevice>)
        ensures
            data::device_views(out@) == parsed_devices(self.blockdevices@, known_ids(*ids)),
    {
        parse_devices(self.blockdevices, ids)
    }
}

/// The device is a whole disk, not a partition or another kind of device.
pub open spec fn is_disk(device: data::BlockdeviceView) -> bool {
    device.device_type == "disk"@
}

/// The disks among a sequence of devices, in the same order.
pub open spec fn disks_among(devices: Seq<data::BlockdeviceView>) -> Seq<data::BlockdeviceView> {
    devices.filter(|d: data::BlockdeviceView| is_disk(d))
}

/// Keeps the devices whose type is `disk`, in the same order.
pub fn disks_of(devices: Vec<data::Blockdevice>) -> (out: Vec<data::Blockdevice>)
    ensures
        data::device_views(out@) == disks_among(data::device_views(devices@)),
{
    let ghost all = data::device_views(devices@);
    let ghost keep = |d: data::BlockdeviceView| is_disk(d);
    let disk = String::from_str("disk");
    let mut out: Vec<data::Blockdevice> = Vec::new();
    for device in iter: devices
        invariant
            iter.seq() == devices@,
            all == data::device_views(devices@),
            keep == |d: data::BlockdeviceView| is_disk(d),
            disk@ == "disk"@,
            data::device_views(out@) == all.take(iter.index()).filter(keep),
    {
        let ghost i = iter.index();
        let ghost before = out@;
        proof {
            assert(all.take(i + 1) =~= all.take(i).push(device@));
            all.take(i).lemma_filter_push(device@, keep);
        }
        if device.device_type == disk {
            out.push(device);
            assert(data::device_views(out@) =~= data::device_views(before).push(device@));
        }
    }
    assert(all.take(all.len() as int) =~= all);
    out
}

/// The published device tree of a listing; `None` where there is no
/// listing because the tool failed or its output could not be read.
pub fn get_blockdevices(
    listing: Option<Blocklist>,
    ids: &Option<Vec<(String, String)>>,
) -> (r: Option<Vec<data::Blockdevice>>)
    ensures
        r is Some <==> listing is Some,
        r matches Some(out) ==> data::device_views(out@) == parsed_devices(
            listing->0.blockdevices@,
            known_ids(*ids),
        ),
{
    match listing {
        Some(list) => Some(list.parse(ids)),
        None => None,
    }
}

/// The disks of a listing, as published devices; `None` where there is no
/// listing.
pub fn get_disks(
    listing: Option<Blocklist>,
    ids: &Option<Vec<(String, String)>>,
) -> (r: Option<Vec<data::Blockdevice>>)
    ensures
        r is Some <==> listing is Some,
        r matches Some(out) ==> data::device_views(out@) == disks_among(
            parsed_devices(listing->0.blockdevices@, known_ids(*ids)),
        ),
{
    match get_blockdevices(listing, ids) {
        Some(devices) => Some(disks_of(devices)),
        None => None,
    }
}

} // verus!
