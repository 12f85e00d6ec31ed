//! The remote alert feed: where to ask for it, and how its records are
//! normalised.

use crate::data;
use crate::data::opt_text;
use url::Url;
use uuid::Uuid;
use vstd::prelude::*;

verus! {

/// The level that a level name of the remote system stands for. The names
/// are matched as they are, in upper case; any other name is `Unknown`.
pub open spec fn level_of(name: Seq<char>) -> data::AlertLevel {
    if name == "INFO"@ {
        data::AlertLevel::Info
    } else if name == "WARNING"@ {
        data::AlertLevel::Warning
    } else if name == "CRITICAL"@ {
        data::AlertLevel::Critical
    } else {
        data::AlertLevel::Unknown
    }
}

/// Maps a level name of the remote system to a level.
pub fn level_from_name(name: &str) -> (r: data::AlertLevel)
    ensures
        r == level_of(name@),
{
    if name.eq("INFO") {
        data::AlertLevel::Info
    } else if name.eq("WARNING") {
        data::AlertLevel::Warning
    } else if name.eq("CRITICAL") {
        data::AlertLevel::Critical
    } else {
        data::AlertLevel::Unknown
    }
}

/// A point in time as the feed nests it: milliseconds since the epoch.
#[derive(Debug, Clone)]
pub struct Time {
    pub date: u64,
}

/// An alert in the shape in which the feed delivers it.
#[derive(Debug, Clone)]
pub struct InternalAlert {
    pub uuid: Uuid,
    pub source: String,
    pub klass: String,
    pub node: String,
    pub dismissed: bool,
    pub text: String,
    pub level: String,
    pub one_shot: bool,
    pub datetime: Time,
    pub last_occurrence: Time,
}

impl InternalAlert {
    /// The published alert that this record stands for.
    pub open spec fn parsed(self) -> data::AlertView {
        data::AlertView {
            uuid: self.uuid,
            source: self.source@,
            klass: self.klass@,
            node: self.node@,
            dismissed: self.dismissed,
            text: self.text@,
            level: level_of(self.level@),
            one_shot: self.one_shot,
            datetime_ms: self.datetime.date,
            last_occurrence_ms: self.last_occurrence.date,
        }
    }

    /// Turns the record into a published alert: the level name becomes a
    /// level, the nested times become plain milliseconds.
    pub fn parse(self) -> (out: data::Alert)
        ensures
            out@ == self.parsed(),
    {
        let level = level_from_name(self.level.as_str());
        data::Alert {
            uuid: self.uuid,
            source: self.source,
            klass: self.klass,
            node: self.node,
            dismissed: self.dismissed,
            text: self.text,
            level,
            one_shot: self.one_shot,
            datetime_ms: self.datetime.date,
            last_occurrence_ms: self.last_occurrence.date,
        }
    }
}

/// The published alerts that the records of a feed stand for.
pub open spec fn parsed_alerts(records: Seq<InternalAlert>) -> Seq<data::AlertView> {
    records.map_values(|a: InternalAlert| a.parsed())
}

/// The published alerts of a feed, in the order of the feed; `None` where
/// there is no feed because the request failed or the answer could not be
/// read.
pub fn get_alerts(records: Option<Vec<InternalAlert>>) -> (r: Option<Vec<data::Alert>>)
    ensures
        r is Some <==> records is Some,
        r matches Some(out) ==> data::alert_views(out@) == parsed_alerts(records->0@),
{
    match records {
        Some(list) => {
            let ghost feed = list@;
            let mut out: Vec<data::Alert> = Vec::new();
            for item in iter: list
                invariant
                    iter.seq() == feed,
                    out.len() == iter.index(),
                    forall|j: int| 0 <= j < out.len() ==> (#[trigger] out[j])@ == feed[j].parsed(),
            {
                let alert = item.parse();
                out.push(alert);
            }
            assert(data::alert_views(out@) =~= parsed_alerts(feed));
            Some(out)
        },
        None => None,
    }
}

/// What resolving a reference against a base address gives, both as text:
/// the address that the `url` crate computes when it parses `base` as an
/// absolute URL and joins `input` to it, or `None` where either step fails.
pub uninterp spec fn url_joined(base: Seq<char>, input: Seq<char>) -> Option<Seq<char>>;

/// `Url::parse` and then `Url::join` of the `url` crate: parses `base` as
/// an absolute URL, resolves `input` against it, and hands back the
/// serialisation of the result. A failure of either step gives `None`. The
/// result depends on the two texts alone.
#[verifier::external_body]
fn join_url(base: &str, input: &str) -> (r: Option<String>)
    ensures
        opt_text(r) == url_joined(base@, input@),
{
    match Url::parse(base) {
        Ok(url) => match url.join(input) {
            Ok(target) => Some(target.into()),
            Err(_) => None,
        },
        Err(_) => None,
    }
}

/// The root of the remote system's interface, relative to its address.
pub open spec fn api_root() -> Seq<char> {
    "/api/v2.0/"@
}

/// The address of a function of the remote system's interface: the root of
/// the interface joined to the system's address, and the function's name
/// joined to that.
pub open spec fn api_target(address: Seq<char>, api_function: Seq<char>) -> Option<Seq<char>> {
    match url_joined(address, api_root()) {
        Some(root) => url_joined(root, api_function),
        None => None,
    }
}

/// The address to ask for a function of the remote system's interface, or
/// `None` where no such address can be formed.
pub fn request_target(address: &str, api_function: &str) -> (r: Option<String>)
    ensures
        opt_text(r) == api_target(address@, api_function@),
{
    match join_url(address, "/api/v2.0/") {
        Some(root) => join_url(root.as_str(), api_function),
        None => None,
    }
}

/// The address to ask for the list of alerts.
pub fn alert_list_target(address: &str) -> (r: Option<String>)
    ensures
        opt_text(r) == api_target(address@, "alert/list"@),
{
    request_target(address, "alert/list")
}

/// The address to ask whether the remote system answers at all.
pub fn ping_target(address: &str) -> (r: Option<String>)
    ensures
        opt_text(r) == api_target(address@, "core/ping"@),
{
    request_target(address, "core/ping")
}

} // verus!
