//! The records that the monitor publishes, and their mathematical views.
//!
//! Each record type has a view in which every string is a `Seq<char>` and
//! every vector a `Seq`; contracts elsewhere in the crate are stated over
//! these views.

use crate::smart::smart_read::{any_caution, caution_rule};
use uuid::Uuid;
use vstd::prelude::*;

verus! {

/// The identifier type of the `uuid` crate. An alert carries one through
/// unchanged; nothing in this crate looks inside it.
#[verifier::external_type_specification]
#[verifier::external_body]
pub struct ExUuid(uuid::Uuid);

/// `Uuid` is a `Copy` type whose `Clone` is derived: the clone is the value
/// itself.
pub assume_specification[ <uuid::Uuid as Clone>::clone ](id: &Uuid) -> (r: Uuid)
    ensures
        r == *id,
;

/// The view of an optional string.
pub open spec fn opt_text(s: Option<String>) -> Option<Seq<char>> {
    match s {
        Some(t) => Some(t@),
        None => None,
    }
}

/// Which services this server offers.
#[derive(Debug, Clone)]
pub struct ApiServices {
    /// Fixed at start-up: the remote alert source is switched on and has an
    /// address and a token.
    pub truenas_enabled: bool,
    /// Fixed at start-up: the process may query SMART data.
    pub smart_enabled: bool,
    /// Whether the remote alert source answered a probe just now; always
    /// false while `truenas_enabled` is false.
    pub truenas_status: bool,
}

/// A copy of an optional string.
fn clone_opt_text(s: &Option<String>) -> (r: Option<String>)
    ensures
        r == *s,
{
    match s {
        Some(t) => Some(t.clone()),
        None => None,
    }
}

/// A block device of the machine: a physical or virtual drive, or a partition.
#[derive(Debug)]
pub struct Blockdevice {
    pub name: String,
    pub removable: bool,
    /// Size in decimal kilobytes (1000 bytes).
    pub size_kb: u64,
    pub read_only: bool,
    pub mountpoint: Option<String>,
    pub device_type: String,
    pub maj_min: String,
    pub model: Option<String>,
    pub serial: Option<String>,
    pub uuid: Option<String>,
    pub label: Option<String>,
    pub world_wide_name: Option<String>,
    /// A name under the directory of stable identifiers that leads to this
    /// device.
    pub disk_id: Option<String>,
    /// Child devices, usually partitions; `None` on a leaf.
    pub children: Option<Vec<Blockdevice>>,
}

/// The view of a [`Blockdevice`].
pub struct BlockdeviceView {
    pub name: Seq<char>,
    pub removable: bool,
    pub size_kb: u64,
    pub read_only: bool,
    pub mountpoint: Option<Seq<char>>,
    pub device_type: Seq<char>,
    pub maj_min: Seq<char>,
    pub model: Option<Seq<char>>,
    pub serial: Option<Seq<char>>,
    pub uuid: Option<Seq<char>>,
    pub label: Option<Seq<char>>,
    pub world_wide_name: Option<Seq<char>>,
    pub disk_id: Option<Seq<char>>,
    pub children: Option<Seq<BlockdeviceView>>,
}

/// The views of a sequence of devices, in the same order.
pub open spec fn device_views(devices: Seq<Blockdevice>) -> Seq<BlockdeviceView>
    decreases devices,
{
    Seq::new(
        devices.len(),
        |i: int|
            if 0 <= i < devices.len() {
                devices[i].view()
            } else {
                arbitrary()
            },
    )
}

impl View for Blockdevice {
    type V = BlockdeviceView;

    open spec fn view(&self) -> BlockdeviceView
        decreases self,
    {
        BlockdeviceView {
            name: self.name@,
            removable: self.removable,
            size_kb: self.size_kb,
            read_only: self.read_only,
            mountpoint: opt_text(self.mountpoint),
            device_type: self.device_type@,
            maj_min: self.maj_min@,
            model: opt_text(self.model),
            serial: opt_text(self.serial),
            uuid: opt_text(self.uuid),
            label: opt_text(self.label),
            world_wide_name: opt_text(self.world_wide_name),
            disk_id: opt_text(self.disk_id),
            children: match self.children {
                Some(c) => Some(device_views(c@)),
                None => None,
            },
        }
    }
}

impl Clone for Blockdevice {
    fn clone(&self) -> (res: Self)
        ensures
            res@ == self@,
        decreases self,
    {
        let children = match &self.children {
            Some(c) => {
                let mut copies: Vec<Blockdevice> = Vec::new();
                let mut i: usize = 0;
                while i < c.len()
                    invariant
                        self.children == Some(*c),
                        i <= c.len(),
                        copies.len() == i,
                        forall|j: int| 0 <= j < i ==> (#[trigger] copies[j])@ == c[j]@,
                    decreases c.len() - i,
                {
                    proof {
                        assert(decreases_to!(self.children => self.children->0));
                    }
                    let copy = c[i].clone();
                    copies.push(copy);
                    i += 1;
                }
                assert(device_views(copies@) =~= device_views(c@));
                Some(copies)
            },
            None => None,
        };
        Blockdevice {
            name: self.name.clone(),
            removable: self.removable,
            size_kb: self.size_kb,
            read_only: self.read_only,
            mountpoint: clone_opt_text(&self.mountpoint),
            device_type: self.device_type.clone(),
            maj_min: self.maj_min.clone(),
            model: clone_opt_text(&self.model),
            serial: clone_opt_text(&self.serial),
            uuid: clone_opt_text(&self.uuid),
            label: clone_opt_text(&self.label),
            world_wide_name: clone_opt_text(&self.world_wide_name),
            disk_id: clone_opt_text(&self.disk_id),
            children,
        }
    }
}

/// How severe an alert is. The order of the variants is the order of
/// severity, so `Unknown` ranks above `Critical`.
#[derive(Debug, Clone, Copy, PartialEq, Eq, Structural)]
pub enum AlertLevel {
    Info,
    Warning,
    Critical,
    Unknown,
}

impl AlertLevel {
    /// The position of the level in the order `Info < Warning < Critical <
    /// Unknown`.
    pub open spec fn rank(self) -> nat {
        match self {
            AlertLevel::Info => 0,
            AlertLevel::Warning => 1,
            AlertLevel::Critical => 2,
            AlertLevel::Unknown => 3,
        }
    }

    /// Whether the level is at least as severe as `minimum`.
    pub open spec fn at_least(self, minimum: AlertLevel) -> bool {
        self.rank() >= minimum.rank()
    }

    /// The position of the level in the order of severity.
    pub fn severity(&self) -> (r: u8)
        ensures
            r == self.rank(),
    {
        match self {
            AlertLevel::Info => 0,
            AlertLevel::Warning => 1,
            AlertLevel::Critical => 2,
            AlertLevel::Unknown => 3,
        }
    }
}

/// A notification of the remote system.
#[derive(Debug, Clone)]
pub struct Alert {
    pub uuid: Uuid,
    pub source: String,
    pub klass: String,
    pub node: String,
    pub dismissed: bool,
    pub text: String,
    pub level: AlertLevel,
    pub one_shot: bool,
    /// When the alert was raised, in milliseconds since the epoch.
    pub datetime_ms: u64,
    /// When the alert last occurred, in milliseconds since the epoch.
    pub last_occurrence_ms: u64,
}

/// The view of an [`Alert`].
pub struct AlertView {
    pub uuid: Uuid,
    pub source: Seq<char>,
    pub klass: Seq<char>,
    pub node: Seq<char>,
    pub dismissed: bool,
    pub text: Seq<char>,
    pub level: AlertLevel,
    pub one_shot: bool,
    pub datetime_ms: u64,
    pub last_occurrence_ms: u64,
}

impl View for Alert {
    type V = AlertView;

    open spec fn view(&self) -> AlertView {
        AlertView {
            uuid: self.uuid,
            source: self.source@,
            klass: self.klass@,
            node: self.node@,
            dismissed: self.dismissed,
            text: self.text@,
            level: self.level,
            one_shot: self.one_shot,
            datetime_ms: self.datetime_ms,
            last_occurrence_ms: self.last_occurrence_ms,
        }
    }
}

/// The views of a sequence of alerts, in the same order.
pub open spec fn alert_views(alerts: Seq<Alert>) -> Seq<AlertView> {
    alerts.map_values(|a: Alert| a@)
}

/// What a SMART report says of the device it was read from.
#[derive(Debug, Clone)]
pub struct SmartDevice {
    pub name: String,
    pub device_type: String,
    pub protocol: String,
}

/// The view of a [`SmartDevice`].
pub struct SmartDeviceView {
    pub name: Seq<char>,
    pub device_type: Seq<char>,
    pub protocol: Seq<char>,
}

impl View for SmartDevice {
    type V = SmartDeviceView;

    open spec fn view(&self) -> SmartDeviceView {
        SmartDeviceView {
            name: self.name@,
            device_type: self.device_type@,
            protocol: self.protocol@,
        }
    }
}

/// The flags of a SMART attribute.
#[derive(Debug, Clone)]
pub struct SmartFlags {
    pub value: u8,
    pub string: String,
    pub prefailure: bool,
    pub updated_online: bool,
    pub performance: bool,
    pub error_rate: bool,
    pub event_count: bool,
    pub auto_keep: bool,
}

/// The view of [`SmartFlags`].
pub struct SmartFlagsView {
    pub value: u8,
    pub string: Seq<char>,
    pub prefailure: bool,
    pub updated_online: bool,
    pub performance: bool,
    pub error_rate: bool,
    pub event_count: bool,
    pub auto_keep: bool,
}

impl View for SmartFlags {
    type V = SmartFlagsView;

    open spec fn view(&self) -> SmartFlagsView {
        SmartFlagsView {
            value: self.value,
            string: self.string@,
            prefailure: self.prefailure,
            updated_online: self.updated_online,
            performance: self.performance,
            error_rate: self.error_rate,
            event_count: self.event_count,
            auto_keep: self.auto_keep,
        }
    }
}

/// One SMART attribute of a drive.
#[derive(Debug, Clone)]
pub struct SmartAttribute {
    pub id: u16,
    pub name: String,
    /// Normalised value; higher is usually better.
    pub value: u8,
    /// The worst normalised value seen so far.
    pub worst: u8,
    /// At or below this normalised value the vendor counts the attribute as
    /// failed.
    pub threshold: u8,
    /// The vendor's raw counter.
    pub raw: u64,
    pub flags: SmartFlags,
    /// This crate's own verdict, stricter than the vendor's.
    pub caution: bool,
}

/// The view of a [`SmartAttribute`].
pub struct SmartAttributeView {
    pub id: u16,
    pub name: Seq<char>,
    pub value: u8,
    pub worst: u8,
    pub threshold: u8,
    pub raw: u64,
    pub flags: SmartFlagsView,
    pub caution: bool,
}

impl View for SmartAttribute {
    type V = SmartAttributeView;

    open spec fn view(&self) -> SmartAttributeView {
        SmartAttributeView {
            id: self.id,
            name: self.name@,
            value: self.value,
            worst: self.worst,
            threshold: self.threshold,
            raw: self.raw,
            flags: self.flags@,
            caution: self.caution,
        }
    }
}

impl SmartAttribute {
    /// The verdict is the one that the caution rule gives for the
    /// attribute's counters.
    pub open spec fn is_consistent(self) -> bool {
        self.caution == caution_rule(self.id, self.worst, self.threshold, self.raw)
    }
}

/// The SMART data of one drive.
#[derive(Debug, Clone)]
pub struct Smart {
    pub device: SmartDevice,
    /// The vendor's overall verdict.
    pub passed: bool,
    pub power_on_hours: u64,
    pub power_cycle_count: u64,
    pub attributes: Vec<SmartAttribute>,
    /// True when at least one attribute is on caution.
    pub caution: bool,
}

/// The view of a [`Smart`] record.
pub struct SmartView {
    pub device: SmartDeviceView,
    pub passed: bool,
    pub power_on_hours: u64,
    pub power_cycle_count: u64,
    pub attributes: Seq<SmartAttributeView>,
    pub caution: bool,
}

impl View for Smart {
    type V = SmartView;

    open spec fn view(&self) -> SmartView {
        SmartView {
            device: self.device@,
            passed: self.passed,
            power_on_hours: self.power_on_hours,
            power_cycle_count: self.power_cycle_count,
            attributes: self.attributes@.map_values(|a: SmartAttribute| a@),
            caution: self.caution,
        }
    }
}

impl Smart {
    /// Every attribute carries the verdict of the caution rule, and the
    /// record is on caution exactly if some attribute is.
    pub open spec fn is_consistent(self) -> bool {
        &&& forall|i: int|
            0 <= i < self.attributes.len() ==> (#[trigger] self.attributes[i]).is_consistent()
        &&& self.caution == any_caution(self@.attributes)
    }
}

} // verus!
