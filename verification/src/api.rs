//! The decisions of the read-only interface: which drive a request means,
//! which alerts pass, and which answer a request gets.

use crate::config::Config;
use crate::data::{Alert, AlertLevel, ApiServices, Blockdevice, Smart};
use crate::text::lowercase_of;
use vstd::prelude::*;

verus! {

/// The answer to a request.
#[derive(Debug, Clone)]
pub enum RdmResponde<T> {
    /// The request was served.
    Okay(T),
    /// What was asked for does not exist.
    NotFound,
    /// The inspection behind the request failed.
    InternalServerError,
    /// The request belongs to a service that is switched off.
    ServiceDisabled,
}

/// The answer to a request whose inspection gave `result`.
pub fn respond<T>(result: Option<T>) -> (r: RdmResponde<T>)
    ensures
        r == match result {
            Some(value) => RdmResponde::Okay(value),
            None => RdmResponde::<T>::InternalServerError,
        },
{
    match result {
        Some(value) => RdmResponde::Okay(value),
        None => RdmResponde::InternalServerError,
    }
}

/// An alert passes a filter if it is not dismissed, or dismissed alerts are
/// asked for, and its level is at least the minimum.
pub open spec fn passes(alert: Alert, minimum_level: AlertLevel, include_dismissed: bool) -> bool {
    (!alert.dismissed || include_dismissed) && alert.level.at_least(minimum_level)
}

/// The alerts that pass a filter, in their order.
pub open spec fn filtered(
    alerts: Seq<Alert>,
    minimum_level: AlertLevel,
    include_dismissed: bool,
) -> Seq<Alert> {
    alerts.filter(|a: Alert| passes(a, minimum_level, include_dismissed))
}

/// Keeps the alerts that pass the filter, in their order.
pub fn filter(
    alerts: Vec<Alert>,
    minimum_level: AlertLevel,
    include_dismissed: bool,
) -> (out: Vec<Alert>)
    ensures
        out@ == filtered(alerts@, minimum_level, include_dismissed),
{
    let ghost all = alerts@;
    let ghost keep = |a: Alert| passes(a, minimum_level, include_dismissed);
    let mut out: Vec<Alert> = Vec::new();
    for alert in iter: alerts
        invariant
            iter.seq() == all,
            keep == |a: Alert| passes(a, minimum_level, include_dismissed),
            out@ == all.take(iter.index()).filter(keep),
    {
        proof {
            let i = iter.index();
            assert(all.take(i + 1) =~= all.take(i).push(alert));
            all.take(i).lemma_filter_push(alert, keep);
        }
        if (!alert.dismissed || include_dismissed) && alert.level >= minimum_level {
            out.push(alert);
        }
    }
    assert(all.take(all.len() as int) =~= all);
    out
}

/// The level that a lowercase level name of a request stands for.
pub open spec fn minimum_named(name: Seq<char>) -> Option<AlertLevel> {
    if name == "info"@ {
        Some(AlertLevel::Info)
    } else if name == "warning"@ {
        Some(AlertLevel::Warning)
    } else if name == "critical"@ {
        Some(AlertLevel::Critical)
    } else {
        None
    }
}

/// The level name that a request means: its own, or `warning` where it
/// gives none.
pub open spec fn requested_level(level: Option<String>) -> Seq<char> {
    match level {
        Some(name) => name@,
        None => "warning"@,
    }
}

/// Maps a lowercase level name of a request to a level; `None` for any
/// other name.
pub fn minimum_from_lowercase(name: &str) -> (r: Option<AlertLevel>)
    ensures
        r == minimum_named(name@),
{
    if name.eq("info") {
        Some(AlertLevel::Info)
    } else if name.eq("warning") {
        Some(AlertLevel::Warning)
    } else if name.eq("critical") {
        Some(AlertLevel::Critical)
    } else {
        None
    }
}

/// The minimum level that a request asks for. The name counts in any case of
/// its letters; a request without a name asks for warnings.
pub fn minimum_level(level: Option<String>) -> (r: Option<AlertLevel>)
    ensures
        r == minimum_named(lowercase_of(requested_level(level))),
{
    let lowered = match level {
        Some(name) => name.as_str().to_lowercase(),
        None => "warning".to_lowercase(),
    };
    minimum_from_lowercase(lowered.as_str())
}

/// How a request for alerts wants them filtered.
#[derive(Debug, Clone)]
pub struct AlertQuery {
    pub minimum_level: AlertLevel,
    pub include_dismissed: bool,
}

/// The answer to a request for alerts, given what fetching them gave.
pub fn alerts_response(
    fetched: Option<Vec<Alert>>,
    query: &AlertQuery,
) -> (r: RdmResponde<Vec<Alert>>)
    ensures
        fetched is None ==> r is InternalServerError,
        fetched matches Some(alerts) ==> r is Okay && r->Okay_0@ == filtered(
            alerts@,
            query.minimum_level,
            query.include_dismissed,
        ),
{
    match fetched {
        Some(alerts) => RdmResponde::Okay(filter(alerts, query.minimum_level, query.include_dismissed)),
        None => RdmResponde::InternalServerError,
    }
}

/// Some device of the sequence has the given name.
pub open spec fn names_device(devices: Seq<Blockdevice>, name: Seq<char>) -> bool {
    exists|i: int| 0 <= i < devices.len() && (#[trigger] devices[i]).name@ == name
}

/// Some identifier of the sequence has the given name.
pub open spec fn names_id(ids: Seq<(String, String)>, name: Seq<char>) -> bool {
    exists|i: int| 0 <= i < ids.len() && (#[trigger] ids[i]).0@ == name
}

/// The path below the device directory under which an identifier is found.
pub open spec fn id_path(id: Seq<char>) -> Seq<char> {
    "disk/by-id/"@ + id
}

/// Which drive a request by name means: the request is answered only for a
/// name that one of the machine's disks has.
pub fn drive_by_name(disks: Option<Vec<Blockdevice>>, drive: &str) -> (r: RdmResponde<String>)
    ensures
        disks is None ==> r is InternalServerError,
        disks matches Some(list) ==> if names_device(list@, drive@) {
            r is Okay && r->Okay_0@ == drive@
        } else {
            r is NotFound
        },
{
    let ghost given = disks;
    match disks {
        Some(list) => {
            let ghost all = list@;
            for item in iter: list
                invariant
                    iter.seq() == all,
                    given matches Some(l) && l@ == all,
                    given == disks,
                    forall|j: int| 0 <= j < iter.index() ==> (#[trigger] all[j]).name@ != drive@,
            {
                if item.name.as_str().eq(drive) {
                    assert(all[iter.index()].name@ == drive@);
                    return RdmResponde::Okay(item.name);
                }
            }
            RdmResponde::NotFound
        },
        None => RdmResponde::InternalServerError,
    }
}

/// Which drive a request by stable identifier means: the request is
/// answered only for an identifier that the machine has, and the drive is
/// then named by the identifier's path.
pub fn drive_by_id(ids: Option<Vec<(String, String)>>, drive: &str) -> (r: RdmResponde<String>)
    ensures
        ids is None ==> r is InternalServerError,
        ids matches Some(list) ==> if names_id(list@, drive@) {
            r is Okay && r->Okay_0@ == id_path(drive@)
        } else {
            r is NotFound
        },
{
    let ghost given = ids;
    match ids {
        Some(list) => {
            let ghost all = list@;
            for item in iter: list
                invariant
                    iter.seq() == all,
                    given matches Some(l) && l@ == all,
                    given == ids,
                    forall|j: int| 0 <= j < iter.index() ==> (#[trigger] all[j]).0@ != drive@,
            {
                if item.0.as_str().eq(drive) {
                    assert(all[iter.index()].0@ == drive@);
                    let mut path = String::from_str("disk/by-id/");
                    path.append(item.0.as_str());
                    return RdmResponde::Okay(path);
                }
            }
            RdmResponde::NotFound
        },
        None => RdmResponde::InternalServerError,
    }
}

/// What the interface may serve. Both switches are fixed when the server
/// starts.
#[derive(Debug, Clone)]
pub struct Api {
    /// SMART data may be read.
    pub smart_enabled: bool,
    /// Alerts of the remote system are offered.
    pub truenas_enabled: bool,
}

/// Fixes what the interface may serve. The remote system is offered where the
/// configuration asks for it and a client to reach it could be built; SMART
/// data is read where the process runs on Linux with root rights.
pub fn new_api(config: &Config, client_built: bool, root_on_linux: bool) -> (api: Api)
    ensures
        api.truenas_enabled == (client_built && config.wants_truenas(config.address_status())),
        api.smart_enabled == root_on_linux,
{
    Api { smart_enabled: root_on_linux, truenas_enabled: client_built && config.truenas_configured() }
}

impl Api {
    /// The answer to a ping.
    pub fn get_ping(&self) -> (r: String)
        ensures
            r@ == "pong"@,
    {
        String::from_str("pong")
    }

    /// What the server reports of its services. The remote system counts as
    /// answering only while it is enabled and a probe of it succeeded.
    pub fn get_services(&self, probe: Option<bool>) -> (r: ApiServices)
        ensures
            r.truenas_enabled == self.truenas_enabled,
            r.smart_enabled == self.smart_enabled,
            r.truenas_status == (self.truenas_enabled && probe == Some(true)),
    {
        let answered = match probe {
            Some(ok) => ok,
            None => false,
        };
        ApiServices {
            truenas_enabled: self.truenas_enabled,
            smart_enabled: self.smart_enabled,
            truenas_status: self.truenas_enabled && answered,
        }
    }

    /// The answer to a request for the list of disks, given what listing them
    /// gave.
    pub fn get_drive_list(
        &self,
        disks: Option<Vec<Blockdevice>>,
    ) -> (r: RdmResponde<Vec<Blockdevice>>)
        ensures
            r == match disks {
                Some(list) => RdmResponde::Okay(list),
                None => RdmResponde::<Vec<Blockdevice>>::InternalServerError,
            },
    {
        respond(disks)
    }

    /// Whether the SMART data of a drive may be read: the drive is handed
    /// back while the service is switched on, and refused while it is off.
    pub fn smart_reader(&self, drive: String) -> (r: RdmResponde<String>)
        ensures
            r == if self.smart_enabled {
                RdmResponde::Okay(drive)
            } else {
                RdmResponde::<String>::ServiceDisabled
            },
    {
        if self.smart_enabled {
            RdmResponde::Okay(drive)
        } else {
            RdmResponde::ServiceDisabled
        }
    }

    /// Which drive a request for SMART data by name reads. A listing that
    /// failed and a name that no disk has are answered as such, whether or not
    /// the service is switched on.
    pub fn get_smart_data(
        &self,
        disks: Option<Vec<Blockdevice>>,
        drive: &str,
    ) -> (r: RdmResponde<String>)
        ensures
            disks is None ==> r is InternalServerError,
            disks matches Some(list) ==> if !names_device(list@, drive@) {
                r is NotFound
            } else if self.smart_enabled {
                r is Okay && r->Okay_0@ == drive@
            } else {
                r is ServiceDisabled
            },
    {
        match drive_by_name(disks, drive) {
            RdmResponde::Okay(name) => self.smart_reader(name),
            other => other,
        }
    }

    /// Which drive a request for SMART data by stable identifier reads. A
    /// directory that could not be read and an identifier that the machine
    /// does not have are answered as such, whether or not the service is
    /// switched on.
    pub fn get_smart_data_by_id(
        &self,
        ids: Option<Vec<(String, String)>>,
        drive: &str,
    ) -> (r: RdmResponde<String>)
        ensures
            ids is None ==> r is InternalServerError,
            ids matches Some(list) ==> if !names_id(list@, drive@) {
                r is NotFound
            } else if self.smart_enabled {
                r is Okay && r->Okay_0@ == id_path(drive@)
            } else {
                r is ServiceDisabled
            },
    {
        match drive_by_id(ids, drive) {
            RdmResponde::Okay(path) => self.smart_reader(path),
            other => other,
        }
    }

    /// The answer to a request for SMART data, given what reading the drive
    /// gave.
    pub fn smart_response(&self, info: Option<Smart>) -> (r: RdmResponde<Smart>)
        ensures
            r == match info {
                Some(smart) => RdmResponde::Okay(smart),
                None => RdmResponde::<Smart>::InternalServerError,
            },
    {
        respond(info)
    }

    /// Reads a request for alerts: the service must be enabled, and the level
    /// must be known. Dismissed alerts are left out unless the request asks
    /// for them.
    pub fn get_alerts_on_level(
        &self,
        level: Option<String>,
        include_dismissed: Option<bool>,
    ) -> (r: RdmResponde<AlertQuery>)
        ensures
            !self.truenas_enabled ==> r is ServiceDisabled,
            self.truenas_enabled ==> match minimum_named(lowercase_of(requested_level(level))) {
                Some(minimum) => r is Okay && r->Okay_0.minimum_level == minimum
                    && r->Okay_0.include_dismissed == (include_dismissed == Some(true)),
                None => r is NotFound,
            },
    {
        if !self.truenas_enabled {
            return RdmResponde::ServiceDisabled;
        }
        let include_dismissed = match include_dismissed {
            Some(wanted) => wanted,
            None => false,
        };
        match minimum_level(level) {
            Some(minimum_level) => RdmResponde::Okay(AlertQuery { minimum_level, include_dismissed }),
            None => RdmResponde::NotFound,
        }
    }
}

} // verus!
