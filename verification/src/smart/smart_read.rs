//! Evaluation of a drive's SMART report.

use crate::data;
use vstd::prelude::*;

verus! {

/// Read Error Rate.
pub const READ_ERROR_RATE: u16 = 0x01;

/// Reallocated Sectors Count.
pub const REALLOCATED_SECTORS: u16 = 0x05;

/// Spin Retry Count.
pub const SPIN_RETRY: u16 = 0x0A;

/// Reallocation Event Count.
pub const REALLOCATION_EVENTS: u16 = 0xC4;

/// Current Pending Sector Count.
pub const PENDING_SECTORS: u16 = 0xC5;

/// Uncorrectable Sector Count.
pub const UNCORRECTABLE_SECTORS: u16 = 0xC6;

/// The largest raw value of attribute `id` that is not yet a reason for
/// caution, for the attributes whose raw value is judged at all.
pub open spec fn raw_limit(id: u16) -> Option<u64> {
    if id == REALLOCATED_SECTORS || id == REALLOCATION_EVENTS || id == PENDING_SECTORS || id
        == UNCORRECTABLE_SECTORS {
        Some(0u64)
    } else if id == SPIN_RETRY {
        Some(1u64)
    } else {
        None
    }
}

/// The caution rule of one attribute: the vendor's own threshold has been
/// reached, or the raw counter of a high-risk attribute is above its limit.
pub open spec fn caution_rule(id: u16, worst: u8, threshold: u8, raw: u64) -> bool {
    worst <= threshold || (raw_limit(id) matches Some(limit) && raw > limit)
}

/// Whether some attribute of the sequence is on caution.
pub open spec fn any_caution(attributes: Seq<data::SmartAttributeView>) -> bool {
    exists|i: int| 0 <= i < attributes.len() && #[trigger] attributes[i].caution
}

/// The raw counter of an attribute as the report nests it.
#[derive(Debug, Clone)]
pub struct SmartRaw {
    pub value: u64,
}

/// One row of the attribute table of a report.
#[derive(Debug, Clone)]
pub struct SmartAttribute {
    pub id: u16,
    pub name: String,
    pub value: u8,
    pub worst: u8,
    pub thresh: u8,
    pub raw: SmartRaw,
    pub flags: data::SmartFlags,
}

impl SmartAttribute {
    /// The published attribute that this row stands for.
    pub open spec fn parsed(self) -> data::SmartAttributeView {
        data::SmartAttributeView {
            id: self.id,
            name: self.name@,
            value: self.value,
            worst: self.worst,
            threshold: self.thresh,
            raw: self.raw.value,
            flags: self.flags@,
            caution: caution_rule(self.id, self.worst, self.thresh, self.raw.value),
        }
    }

    /// Turns the row into a published attribute and judges it.
    pub fn parse(self) -> (out: data::SmartAttribute)
        ensures
            out@ == self.parsed(),
            out.is_consistent(),
            self.worst <= self.thresh ==> out.caution,
            self.worst > self.thresh && self.id == REALLOCATED_SECTORS ==> out.caution == (
            self.raw.value > 0),
            self.worst > self.thresh && self.id == READ_ERROR_RATE ==> !out.caution,
    {
        let raw: u64 = self.raw.value;
        let caution = if self.worst <= self.thresh {
            true
        } else if self.id == REALLOCATED_SECTORS || self.id == REALLOCATION_EVENTS || self.id
            == PENDING_SECTORS || self.id == UNCORRECTABLE_SECTORS {
            raw > 0
        } else if self.id == SPIN_RETRY {
            raw > 1
        } else {
            false
        };
        data::SmartAttribute {
            id: self.id,
            name: self.name,
            value: self.value,
            worst: self.worst,
            threshold: self.thresh,
            raw,
            flags: self.flags,
            caution,
        }
    }
}

/// The overall verdict of a report as the report nests it.
#[derive(Debug, Clone)]
pub struct SmartStatus {
    pub passed: bool,
}

/// The attribute table of a report as the report nests it.
#[derive(Debug, Clone)]
pub struct AttributeContainer {
    pub table: Vec<SmartAttribute>,
}

/// The power-on time of a report as the report nests it.
#[derive(Debug, Clone)]
pub struct PowerTime {
    pub hours: u64,
}

/// A drive's SMART report, in the shape in which the query tool delivers it.
#[derive(Debug, Clone)]
pub struct SmartResult {
    pub smart_status: SmartStatus,
    pub ata_smart_attributes: AttributeContainer,
    pub power_cycle_count: u64,
    pub power_on_time: PowerTime,
    pub device: data::SmartDevice,
}

/// The published attributes that the rows of a table stand for.
pub open spec fn parsed_table(table: Seq<SmartAttribute>) -> Seq<data::SmartAttributeView> {
    table.map_values(|a: SmartAttribute| a.parsed())
}

impl SmartResult {
    /// The published record that this report stands for.
    pub open spec fn parsed(self) -> data::SmartView {
        data::SmartView {
            device: self.device@,
            passed: self.smart_status.passed,
            power_on_hours: self.power_on_time.hours,
            power_cycle_count: self.power_cycle_count,
            attributes: parsed_table(self.ata_smart_attributes.table@),
            caution: any_caution(parsed_table(self.ata_smart_attributes.table@)),
        }
    }

    /// Turns the report into a published record: every row of the table is
    /// judged, and the record is on caution exactly if some row is.
    pub fn parse(self) -> (out: data::Smart)
        ensures
            out@ == self.parsed(),
            out.is_consistent(),
            out.caution <==> exists|i: int|
                0 <= i < out.attributes.len() && (#[trigger] out.attributes[i]).caution,
            out.attributes.len() == 0 ==> !out.caution,
    {
        let SmartResult { smart_status, ata_smart_attributes, power_cycle_count, power_on_time, device } =
            self;
        let ghost rows = ata_smart_attributes.table@;
        let mut attributes: Vec<data::SmartAttribute> = Vec::new();
        let mut caution = false;
        for item in iter: ata_smart_attributes.table
            invariant
                iter.seq() == rows,
                attributes.len() == iter.index(),
                forall|j: int|
                    0 <= j < attributes.len() ==> (#[trigger] attributes[j])@ == rows[j].parsed(),
                forall|j: int|
                    0 <= j < attributes.len() ==> (#[trigger] attributes[j]).is_consistent(),
                caution <==> exists|j: int|
                    0 <= j < attributes.len() && (#[trigger] attributes[j]).caution,
        {
            let attribute = item.parse();
            let ghost before = attributes@;
            let ghost flagged = attribute.caution;
            if attribute.caution {
                caution = true;
            }
            attributes.push(attribute);
            proof {
                let last = before.len() as int;
                assert(forall|j: int| 0 <= j < last ==> attributes[j] == before[j]);
                if flagged {
                    assert(attributes[last].caution);
                } else if caution {
                    let j = choose|j: int| 0 <= j < last && (#[trigger] before[j]).caution;
                    assert(attributes[j].caution);
                }
            }
        }
        let out = data::Smart {
            device,
            passed: smart_status.passed,
            power_on_hours: power_on_time.hours,
            power_cycle_count,
            attributes,
            caution,
        };
        proof {
            assert(out@.attributes =~= parsed_table(rows));
            if caution {
                let j = choose|j: int| 0 <= j < out.attributes.len() && (#[trigger] out.attributes[j]).caution;
                assert(out@.attributes[j].caution);
            }
            if any_caution(out@.attributes) {
                let j = choose|j: int| 0 <= j < out@.attributes.len() && #[trigger] out@.attributes[j].caution;
                assert(out.attributes[j].caution);
            }
        }
        out
    }
}

/// The published SMART record of a report; `None` where there is no
/// report because the query failed or its output could not be read.
pub fn get_smart(report: Option<SmartResult>) -> (r: Option<data::Smart>)
    ensures
        r is Some <==> report is Some,
        r matches Some(out) ==> out@ == report->0.parsed() && out.is_consistent(),
{
    match report {
        Some(result) => Some(result.parse()),
        None => None,
    }
}

} // verus!
