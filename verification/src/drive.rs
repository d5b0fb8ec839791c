//! Device-manager driver records and the parsers for the text the
//! `devcon` tool prints: driver status listings, class listings, and
//! per-device driver-node listings. The parsers are pure text
//! processing, specified line by line over the character model.
//!
//! Filtering matches records against glob-like patterns through an
//! outside matcher; only the single pattern call is trusted.
use vstd::prelude::*;

verus! {

use vstd::string::StringExecFns;
use crate::text::{
    spec_contains, spec_lines, spec_split_once, spec_starts_with, spec_str_views,
    spec_strip_repeat, spec_trim, split_lines, split_once_char, str_contains, str_starts_with,
    str_trim_start_matches, strip_prefix_str, trim_str,
};

/// State a device driver reports.
#[derive(Clone, Copy, Debug, PartialEq, Eq, Structural)]
pub enum DriveStatusType {
    Runing,
    Disabled,
    Stopped,
    Error,
    Hidden,
    NoneStatus,
}

/// Character-level model of a driver record.
#[verifier::ext_equal]
pub ghost struct DriveInfoV {
    pub id: Seq<char>,
    pub driver_descript: Seq<char>,
    pub status: DriveStatusType,
}

/// One driver record from a `devcon` listing.
#[derive(Clone, Debug)]
pub struct DriveInfo {
    /// Device instance identifier.
    pub id: String,
    /// Human-readable driver description.
    pub driver_descript: String,
    /// Reported device state.
    pub status: DriveStatusType,
}

impl View for DriveInfo {
    type V = DriveInfoV;

    open spec fn view(&self) -> DriveInfoV {
        DriveInfoV {
            id: self.id@,
            driver_descript: self.driver_descript@,
            status: self.status,
        }
    }
}

/// A driver's status line as one record with free-form content.
#[derive(Clone, Debug)]
pub struct DriveStatus {
    /// Device instance identifier.
    pub id: String,
    /// Device name.
    pub name: String,
    /// Reported device state.
    pub status: DriveStatusType,
    /// Free-form status content.
    pub content: String,
}

/// Character-level model of a driver-node record.
#[verifier::ext_equal]
pub ghost struct DriveNodeInfoV {
    pub id: Seq<char>,
    pub drive_node: Seq<char>,
    pub driver_descript: Seq<char>,
    pub status: DriveStatusType,
    pub name: Seq<char>,
    pub inf_file: Seq<char>,
    pub inf_section: Seq<char>,
    pub manufacturer_name: Seq<char>,
    pub provider_name: Seq<char>,
    pub driver_date: Seq<char>,
    pub driver_version: Seq<char>,
    pub driver_node_rank: Seq<char>,
    pub driver_node_flags: Seq<char>,
    pub signed: bool,
}

/// One driver-node record from a `devcon drivernodes` listing.
#[derive(Clone, Debug)]
pub struct DriveNodeInfo {
    /// Device instance identifier.
    pub id: String,
    /// Driver node number.
    pub drive_node: String,
    /// Human-readable driver description.
    pub driver_descript: String,
    /// Reported device state.
    pub status: DriveStatusType,
    /// Device name.
    pub name: String,
    /// Inf file the node was installed from.
    pub inf_file: String,
    /// Inf section of the node.
    pub inf_section: String,
    /// Manufacturer name.
    pub manufacturer_name: String,
    /// Provider name.
    pub provider_name: String,
    /// Driver date.
    pub driver_date: String,
    /// Driver version.
    pub driver_version: String,
    /// Node rank.
    pub driver_node_rank: String,
    /// Node flags text.
    pub driver_node_flags: String,
    /// Whether the flags text says the node is digitally signed.
    pub signed: bool,
}

impl View for DriveNodeInfo {
    type V = DriveNodeInfoV;

    open spec fn view(&self) -> DriveNodeInfoV {
        DriveNodeInfoV {
            id: self.id@,
            drive_node: self.drive_node@,
            driver_descript: self.driver_descript@,
            status: self.status,
            name: self.name@,
            inf_file: self.inf_file@,
            inf_section: self.inf_section@,
            manufacturer_name: self.manufacturer_name@,
            provider_name: self.provider_name@,
            driver_date: self.driver_date@,
            driver_version: self.driver_version@,
            driver_node_rank: self.driver_node_rank@,
            driver_node_flags: self.driver_node_flags@,
            signed: self.signed,
        }
    }
}

/// The seed node record a driver record turns into: its identity
/// carried over, every node field still empty.
pub open spec fn spec_node_from_info(info: DriveInfoV) -> DriveNodeInfoV {
    DriveNodeInfoV {
        id: info.id,
        drive_node: Seq::empty(),
        driver_descript: info.driver_descript,
        status: info.status,
        name: Seq::empty(),
        inf_file: Seq::empty(),
        inf_section: Seq::empty(),
        manufacturer_name: Seq::empty(),
        provider_name: Seq::empty(),
        driver_date: Seq::empty(),
        driver_version: Seq::empty(),
        driver_node_rank: Seq::empty(),
        driver_node_flags: Seq::empty(),
        signed: false,
    }
}

impl DriveNodeInfo {
    /// A node record seeded from a driver record.
    pub fn from_info(info: DriveInfo) -> (r: DriveNodeInfo)
        ensures
            r@ == spec_node_from_info(info@),
    {
        DriveNodeInfo {
            id: info.id,
            drive_node: String::new(),
            driver_descript: info.driver_descript,
            status: info.status,
            name: String::new(),
            inf_file: String::new(),
            inf_section: String::new(),
            manufacturer_name: String::new(),
            provider_name: String::new(),
            driver_date: String::new(),
            driver_version: String::new(),
            driver_node_rank: String::new(),
            driver_node_flags: String::new(),
            signed: false,
        }
    }
}

/// The views of a vector of driver records.
pub open spec fn spec_drive_views(v: Seq<DriveInfo>) -> Seq<DriveInfoV> {
    v.map_values(|d: DriveInfo| d@)
}

/// The views of a vector of node records.
pub open spec fn spec_node_views(v: Seq<DriveNodeInfo>) -> Seq<DriveNodeInfoV> {
    v.map_values(|d: DriveNodeInfo| d@)
}

/// What one class-listing line contributes: lines with a colon yield
/// a record of the trimmed key and value, other lines nothing.
pub open spec fn spec_class_line(line: Seq<char>) -> Option<DriveInfoV> {
    match spec_split_once(line, ':') {
        Some(kv) => Some(
            DriveInfoV {
                id: spec_trim(kv.0),
                driver_descript: spec_trim(kv.1),
                status: DriveStatusType::NoneStatus,
            },
        ),
        Option::None => Option::None,
    }
}

/// The records of a class listing, line by line.
pub open spec fn spec_parse_class(lines: Seq<Seq<char>>) -> Seq<DriveInfoV>
    decreases lines.len(),
{
    if lines.len() == 0 {
        Seq::empty()
    } else {
        let rest = spec_parse_class(lines.drop_first());
        match spec_class_line(lines[0]) {
            Some(d) => seq![d] + rest,
            Option::None => rest,
        }
    }
}

/// Parses a `devcon` class listing: every line holding a colon
/// becomes a record of its trimmed key and trimmed remainder.
pub fn devcon_parse_driver_class(output: &str) -> (r: Vec<DriveInfo>)
    ensures
        spec_drive_views(r@) =~= spec_parse_class(spec_lines(output@)),
{
    let lines = split_lines(output);
    let ghost lviews = spec_str_views(lines@);
    let mut nline: Vec<DriveInfo> = Vec::new();
    let mut i: usize = 0;
    proof {
        assert(lviews.skip(0) =~= lviews);
    }
    while i < lines.len()
        invariant
            0 <= i <= lines@.len(),
            lviews =~= spec_str_views(lines@),
            spec_parse_class(lviews) =~= spec_drive_views(nline@) + spec_parse_class(
                lviews.skip(i as int),
            ),
        decreases lines@.len() - i,
    {
        proof {
            assert(lviews.skip(i as int)[0] == lines@[i as int]@);
            assert(lviews.skip(i as int).drop_first() =~= lviews.skip(i + 1));
        }
        let line = &lines[i];
        if let Some(kv) = split_once_char(line.as_str(), ':') {
            let id = trim_str(kv.0.as_str());
            let driver_descript = trim_str(kv.1.as_str());
            nline.push(DriveInfo { id, driver_descript, status: DriveStatusType::NoneStatus });
            proof {
                assert(spec_drive_views(nline@) =~= spec_drive_views(nline@.drop_last()) + seq![
                    nline@.last()@,
                ]);
            }
        }
        i = i + 1;
    }
    proof {
        assert(lviews.skip(lines@.len() as int) =~= Seq::<Seq<char>>::empty());
    }
    nline
}

/// The status a detail line assigns, when it names one; otherwise
/// the status stays.
pub open spec fn spec_line_status(line: Seq<char>, prior: DriveStatusType) -> DriveStatusType {
    if spec_contains(line, "Driver is running"@) {
        DriveStatusType::Runing
    } else if spec_contains(line, "Device is currently stopped"@) {
        DriveStatusType::Stopped
    } else if spec_contains(line, "Device is disabled"@) {
        DriveStatusType::Disabled
    } else if spec_contains(line, "Device is hidden"@) {
        DriveStatusType::Hidden
    } else if spec_contains(line, "Device has a problem"@) {
        DriveStatusType::Error
    } else {
        prior
    }
}

/// What one status-listing line does to the scan state (records
/// flushed so far, record in progress): noise lines are skipped, an
/// unindented line opens a new record (flushing the previous one),
/// and indented detail lines fill the record's description and
/// status.
pub open spec fn spec_status_step(
    acc: (Seq<DriveInfoV>, Option<DriveInfoV>),
    line: Seq<char>,
) -> (Seq<DriveInfoV>, Option<DriveInfoV>) {
    if line.len() == 0 || spec_contains(line, "matching device(s) found"@) {
        acc
    } else if line[0] != ' ' {
        let flushed = match acc.1 {
            Some(d) => acc.0.push(d),
            Option::None => acc.0,
        };
        (
            flushed,
            Some(
                DriveInfoV {
                    id: line,
                    driver_descript: Seq::empty(),
                    status: DriveStatusType::NoneStatus,
                },
            ),
        )
    } else {
        match acc.1 {
            Option::None => acc,
            Some(d) => {
                let named = if spec_starts_with(line, "    Name:"@) {
                    DriveInfoV {
                        driver_descript: spec_trim(spec_strip_repeat(line, "    Name:"@)),
                        ..d
                    }
                } else {
                    d
                };
                (acc.0, Some(DriveInfoV { status: spec_line_status(line, named.status), ..named }))
            },
        }
    }
}

/// The scan state after a whole status listing.
pub open spec fn spec_status_fold(
    lines: Seq<Seq<char>>,
    acc: (Seq<DriveInfoV>, Option<DriveInfoV>),
) -> (Seq<DriveInfoV>, Option<DriveInfoV>)
    decreases lines.len(),
{
    if lines.len() == 0 {
        acc
    } else {
        spec_status_fold(lines.drop_first(), spec_status_step(acc, lines[0]))
    }
}

/// The records of a status listing: the scan's flushed records with
/// the final record in progress appended.
pub open spec fn spec_parse_status(s: Seq<char>) -> Seq<DriveInfoV> {
    let end = spec_status_fold(spec_lines(s), (Seq::empty(), Option::None));
    match end.1 {
        Some(d) => end.0.push(d),
        Option::None => end.0,
    }
}

/// The view of the record in progress.
pub open spec fn spec_current_view(c: Option<DriveInfo>) -> Option<DriveInfoV> {
    match c {
        Some(d) => Some(d@),
        Option::None => Option::None,
    }
}

/// Parses a `devcon` status listing: unindented lines open a device
/// record, indented lines fill in its name and running state, and
/// noise lines are skipped.
pub fn devcon_parse_driver_status(output: &str) -> (r: Vec<DriveInfo>)
    ensures
        spec_drive_views(r@) =~= spec_parse_status(output@),
{
    let lines = split_lines(output);
    let ghost lviews = spec_str_views(lines@);
    let mut drives: Vec<DriveInfo> = Vec::new();
    let mut current: Option<DriveInfo> = None;
    let mut i: usize = 0;
    proof {
        assert(lviews.skip(0) =~= lviews);
        assert(spec_drive_views(drives@) =~= Seq::<DriveInfoV>::empty());
    }
    while i < lines.len()
        invariant
            0 <= i <= lines@.len(),
            lviews =~= spec_str_views(lines@),
            spec_status_fold(lviews, (Seq::empty(), Option::None)) == spec_status_fold(
                lviews.skip(i as int),
                (spec_drive_views(drives@), spec_current_view(current)),
            ),
        decreases lines@.len() - i,
    {
        let ghost pre = (spec_drive_views(drives@), spec_current_view(current));
        proof {
            assert(lviews.skip(i as int)[0] == lines@[i as int]@);
            assert(lviews.skip(i as int).drop_first() =~= lviews.skip(i + 1));
        }
        let line = &lines[i];
        let lstr = line.as_str();
        if lstr.is_empty() || str_contains(lstr, "matching device(s) found") {
            // Noise line: nothing changes.
        } else if lstr.get_char(0) != ' ' {
            match current {
                Some(d) => {
                    drives.push(d);
                    proof {
                        assert(spec_drive_views(drives@) =~= spec_drive_views(drives@.drop_last())
                            + seq![drives@.last()@]);
                    }
                },
                None => {},
            }
            current = Some(
                DriveInfo {
                    id: String::from_str(lstr),
                    driver_descript: String::new(),
                    status: DriveStatusType::NoneStatus,
                },
            );
        } else {
            current = match current {
                None => None,
                Some(d) => {
                    let mut d = d;
                    if str_starts_with(lstr, "    Name:") {
                        let stripped = str_trim_start_matches(lstr, "    Name:");
                        d.driver_descript = trim_str(stripped.as_str());
                    }
                    if str_contains(lstr, "Driver is running") {
                        d.status = DriveStatusType::Runing;
                    } else if str_contains(lstr, "Device is currently stopped") {
                        d.status = DriveStatusType::Stopped;
                    } else if str_contains(lstr, "Device is disabled") {
                        d.status = DriveStatusType::Disabled;
                    } else if str_contains(lstr, "Device is hidden") {
                        d.status = DriveStatusType::Hidden;
                    } else if str_contains(lstr, "Device has a problem") {
                        d.status = DriveStatusType::Error;
                    }
                    Some(d)
                },
            };
        }
        proof {
            let after = spec_status_step(pre, lviews[i as int]);
            assert(spec_drive_views(drives@) =~= after.0);
            assert((spec_drive_views(drives@), spec_current_view(current)) == after) by {
                assert(spec_current_view(current) == after.1);
            }
        }
        i = i + 1;
    }
    proof {
        assert(lviews.skip(lines@.len() as int) =~= Seq::<Seq<char>>::empty());
    }
    match current {
        Some(d) => {
            drives.push(d);
            proof {
                assert(spec_drive_views(drives@) =~= spec_drive_views(drives@.drop_last()) + seq![
                    drives@.last()@,
                ]);
            }
        },
        None => {},
    }
    drives
}

/// What one driver-node line does to the scan state (records
/// emitted so far, record being filled): after its leading spaces
/// are stripped, a recognised field prefix stores the remainder in
/// that field; the flags line closes the record and emits it.
pub open spec fn spec_nodes_step(
    acc: (Seq<DriveNodeInfoV>, DriveNodeInfoV),
    raw: Seq<char>,
) -> (Seq<DriveNodeInfoV>, DriveNodeInfoV) {
    let line = spec_strip_repeat(raw, " "@);
    if spec_starts_with(line, "Name: "@) {
        (acc.0, DriveNodeInfoV { name: line.skip("Name: "@.len() as int), ..acc.1 })
    } else if spec_starts_with(line, "Driver node #"@) {
        (acc.0, DriveNodeInfoV { drive_node: line.skip("Driver node #"@.len() as int), ..acc.1 })
    } else if spec_starts_with(line, "Inf file is "@) {
        (acc.0, DriveNodeInfoV { inf_file: line.skip("Inf file is "@.len() as int), ..acc.1 })
    } else if spec_starts_with(line, "Inf section is "@) {
        (acc.0, DriveNodeInfoV { inf_section: line.skip("Inf section is "@.len() as int), ..acc.1 })
    } else if spec_starts_with(line, "Manufacturer name is "@) {
        (
            acc.0,
            DriveNodeInfoV {
                manufacturer_name: line.skip("Manufacturer name is "@.len() as int),
                ..acc.1
            },
        )
    } else if spec_starts_with(line, "Provider name is "@) {
        (
            acc.0,
            DriveNodeInfoV { provider_name: line.skip("Provider name is "@.len() as int), ..acc.1 },
        )
    } else if spec_starts_with(line, "Driver date is "@) {
        (
            acc.0,
            DriveNodeInfoV { driver_date: line.skip("Driver date is "@.len() as int), ..acc.1 },
        )
    } else if spec_starts_with(line, "Driver version is "@) {
        (
            acc.0,
            DriveNodeInfoV {
                driver_version: line.skip("Driver version is "@.len() as int),
                ..acc.1
            },
        )
    } else if spec_starts_with(line, "Driver node rank is "@) {
        (
            acc.0,
            DriveNodeInfoV {
                driver_node_rank: line.skip("Driver node rank is "@.len() as int),
                ..acc.1
            },
        )
    } else if spec_starts_with(line, "Driver node flags are "@) {
        let closed = DriveNodeInfoV {
            driver_node_flags: line.skip("Driver node flags are "@.len() as int),
            signed: spec_contains(line, "digitally signed"@),
            ..acc.1
        };
        (acc.0.push(closed), closed)
    } else {
        acc
    }
}

/// The scan state after a whole driver-node listing.
pub open spec fn spec_nodes_fold(
    lines: Seq<Seq<char>>,
    acc: (Seq<DriveNodeInfoV>, DriveNodeInfoV),
) -> (Seq<DriveNodeInfoV>, DriveNodeInfoV)
    decreases lines.len(),
{
    if lines.len() == 0 {
        acc
    } else {
        spec_nodes_fold(lines.drop_first(), spec_nodes_step(acc, lines[0]))
    }
}

/// The node records of a `devcon drivernodes` listing for one
/// driver: each flags line closes one record.
pub open spec fn spec_parse_nodes(info: DriveInfoV, s: Seq<char>) -> Seq<DriveNodeInfoV> {
    spec_nodes_fold(spec_lines(s), (Seq::empty(), spec_node_from_info(info))).0
}

fn clone_node(d: &DriveNodeInfo) -> (r: DriveNodeInfo)
    ensures
        r@ == d@,
{
    DriveNodeInfo {
        id: d.id.clone(),
        drive_node: d.drive_node.clone(),
        driver_descript: d.driver_descript.clone(),
        status: d.status,
        name: d.name.clone(),
        inf_file: d.inf_file.clone(),
        inf_section: d.inf_section.clone(),
        manufacturer_name: d.manufacturer_name.clone(),
        provider_name: d.provider_name.clone(),
        driver_date: d.driver_date.clone(),
        driver_version: d.driver_version.clone(),
        driver_node_rank: d.driver_node_rank.clone(),
        driver_node_flags: d.driver_node_flags.clone(),
        signed: d.signed,
    }
}

/// Parses a `devcon drivernodes` listing for the given driver: each
/// line's leading spaces are stripped, recognised field prefixes
/// fill the record in progress, and every flags line emits one
/// completed record.
pub fn devcon_parse_driver_nodes(info: DriveInfo, node_data: &str) -> (r: Vec<DriveNodeInfo>)
    ensures
        spec_node_views(r@) =~= spec_parse_nodes(info@, node_data@),
{
    let lines = split_lines(node_data);
    let ghost lviews = spec_str_views(lines@);
    let mut drive_info_list: Vec<DriveNodeInfo> = Vec::new();
    let mut cur = DriveNodeInfo::from_info(info);
    let mut i: usize = 0;
    proof {
        assert(lviews.skip(0) =~= lviews);
        assert(spec_node_views(drive_info_list@) =~= Seq::<DriveNodeInfoV>::empty());
    }
    while i < lines.len()
        invariant
            0 <= i <= lines@.len(),
            lviews =~= spec_str_views(lines@),
            spec_nodes_fold(lviews, (Seq::empty(), spec_node_from_info(info@))) == spec_nodes_fold(
                lviews.skip(i as int),
                (spec_node_views(drive_info_list@), cur@),
            ),
        decreases lines@.len() - i,
    {
        let ghost pre = (spec_node_views(drive_info_list@), cur@);
        proof {
            assert(lviews.skip(i as int)[0] == lines@[i as int]@);
            assert(lviews.skip(i as int).drop_first() =~= lviews.skip(i + 1));
        }
        let raw = &lines[i];
        let line = str_trim_start_matches(raw.as_str(), " ");
        let lstr = line.as_str();
        if let Some(value) = strip_prefix_str(lstr, "Name: ") {
            cur.name = value;
        } else if let Some(value) = strip_prefix_str(lstr, "Driver node #") {
            cur.drive_node = value;
        } else if let Some(value) = strip_prefix_str(lstr, "Inf file is ") {
            cur.inf_file = value;
        } else if let Some(value) = strip_prefix_str(lstr, "Inf section is ") {
            cur.inf_section = value;
        } else if let Some(value) = strip_prefix_str(lstr, "Manufacturer name is ") {
            cur.manufacturer_name = value;
        } else if let Some(value) = strip_prefix_str(lstr, "Provider name is ") {
            cur.provider_name = value;
        } else if let Some(value) = strip_prefix_str(lstr, "Driver date is ") {
            cur.driver_date = value;
        } else if let Some(value) = strip_prefix_str(lstr, "Driver version is ") {
            cur.driver_version = value;
        } else if let Some(value) = strip_prefix_str(lstr, "Driver node rank is ") {
            cur.driver_node_rank = value;
        } else if let Some(value) = strip_prefix_str(lstr, "Driver node flags are ") {
            cur.driver_node_flags = value;
            cur.signed = str_contains(lstr, "digitally signed");
            let closed = clone_node(&cur);
            drive_info_list.push(closed);
            proof {
                assert(spec_node_views(drive_info_list@) =~= spec_node_views(
                    drive_info_list@.drop_last(),
                ) + seq![drive_info_list@.last()@]);
            }
        }
        proof {
            let after = spec_nodes_step(pre, lviews[i as int]);
            assert(spec_node_views(drive_info_list@) =~= after.0);
            assert(cur@ == after.1);
        }
        i = i + 1;
    }
    proof {
        assert(lviews.skip(lines@.len() as int) =~= Seq::<Seq<char>>::empty());
    }
    drive_info_list
}

/// Whether a record text matches one glob-like filter pattern. The
/// matcher recognises literal lines and the `*`, `~`, `$` and `!`
/// markers; its exact language is the outside matcher's.
pub uninterp spec fn pattern_match(input: Seq<char>, pattern: Seq<char>) -> bool;

/// Relies on e_utils::regex::regex2: whether any line of the input
/// matches the glob-like pattern. The result depends on the two
/// strings alone.
#[verifier::external_body]
fn regex_line_match(input: &str, pattern: &str) -> (r: bool)
    ensures
        r == pattern_match(input@, pattern@),
{
    e_utils::regex::regex2(input, pattern).0
}

/// Whether a record text passes every filter pattern (an empty
/// filter list passes everything).
pub open spec fn spec_is_filter(data: Seq<char>, filters: Seq<Seq<char>>) -> bool {
    forall|i: int| 0 <= i < filters.len() ==> pattern_match(data, #[trigger] filters[i])
}

/// Tests a record text against every filter pattern: it passes only
/// when all of them match (and always when there are none).
pub fn is_filter(data: &str, filters: &Vec<String>) -> (r: bool)
    ensures
        r == spec_is_filter(data@, spec_str_views(filters@)),
{
    let ghost fviews = spec_str_views(filters@);
    let mut i: usize = 0;
    while i < filters.len()
        invariant
            0 <= i <= filters@.len(),
            fviews =~= spec_str_views(filters@),
            forall|j: int| 0 <= j < i ==> pattern_match(data@, #[trigger] fviews[j]),
        decreases filters@.len() - i,
    {
        if !regex_line_match(data, filters[i].as_str()) {
            proof {
                assert(!pattern_match(data@, fviews[i as int]));
            }
            return false;
        }
        i = i + 1;
    }
    true
}

/// Whether a driver record survives filtering: with no filters every
/// record stays; otherwise its identifier or its description must
/// pass every pattern.
pub open spec fn spec_keep_drive(d: DriveInfoV, filters: Seq<Seq<char>>) -> bool {
    filters.len() == 0 || spec_is_filter(d.id, filters) || spec_is_filter(
        d.driver_descript,
        filters,
    )
}

/// Keeps exactly the driver records that pass the filters, in
/// order.
pub fn filter_drives(drives: Vec<DriveInfo>, filters: &Vec<String>) -> (r: Vec<DriveInfo>)
    ensures
        spec_drive_views(r@) =~= spec_drive_views(drives@).filter(
            |d: DriveInfoV| spec_keep_drive(d, spec_str_views(filters@)),
        ),
{
    let ghost fviews = spec_str_views(filters@);
    let ghost pred = |d: DriveInfoV| spec_keep_drive(d, fviews);
    let filters_empty = filters.len() == 0;
    let mut out: Vec<DriveInfo> = Vec::new();
    let mut i: usize = 0;
    proof {
        assert(spec_drive_views(drives@.take(0)) =~= Seq::<DriveInfoV>::empty());
        assert(Seq::<DriveInfoV>::empty().filter(pred) =~= Seq::<DriveInfoV>::empty());
        assert(spec_drive_views(out@) =~= Seq::<DriveInfoV>::empty());
    }
    while i < drives.len()
        invariant
            0 <= i <= drives@.len(),
            fviews =~= spec_str_views(filters@),
            pred == (|d: DriveInfoV| spec_keep_drive(d, fviews)),
            filters_empty == (filters@.len() == 0),
            spec_drive_views(out@) =~= spec_drive_views(drives@.take(i as int)).filter(pred),
        decreases drives@.len() - i,
    {
        let d = &drives[i];
        let keep = filters_empty || is_filter(d.id.as_str(), filters) || is_filter(
            d.driver_descript.as_str(),
            filters,
        );
        proof {
            assert(spec_drive_views(drives@.take(i + 1)) =~= spec_drive_views(
                drives@.take(i as int),
            ).push(drives@[i as int]@));
            assert(keep == pred(drives@[i as int]@));
            spec_drive_views(drives@.take(i as int)).lemma_filter_push(drives@[i as int]@, pred);
        }
        if keep {
            let kept = DriveInfo {
                id: d.id.clone(),
                driver_descript: d.driver_descript.clone(),
                status: d.status,
            };
            out.push(kept);
            proof {
                assert(spec_drive_views(out@) =~= spec_drive_views(out@.drop_last()) + seq![
                    out@.last()@,
                ]);
                assert(out@.last()@ == drives@[i as int]@);
            }
        }
        i = i + 1;
    }
    proof {
        assert(drives@.take(drives@.len() as int) =~= drives@);
    }
    out
}

/// Peels the leading `devcon` selector off a filter list: a first
/// entry beginning with `=` (a device class) or `@` (an instance
/// path) is removed and returned; otherwise the match-all selector
/// is returned and the list stays.
pub fn process_filters(filters: &mut Vec<String>) -> (r: String)
    ensures
        ({
            let had = old(filters)@.len() > 0 && (spec_starts_with(old(filters)@[0]@, "="@)
                || spec_starts_with(old(filters)@[0]@, "@"@));
            if had {
                &&& r@ == old(filters)@[0]@
                &&& final(filters)@ =~= old(filters)@.drop_first()
            } else {
                &&& r@ == "*"@
                &&& final(filters)@ == old(filters)@
            }
        }),
{
    let selector = filters.len() > 0 && (str_starts_with(filters[0].as_str(), "=")
        || str_starts_with(filters[0].as_str(), "@"));
    if selector {
        let fk = filters.remove(0);
        proof {
            assert(filters@ =~= old(filters)@.drop_first());
        }
        fk
    } else {
        String::from_str("*")
    }
}

/// Whether a driver record counts as failed in a status check: an
/// error state, a disabled device, or no state reported at all.
pub open spec fn spec_drive_failed(d: DriveInfoV) -> bool {
    d.status == DriveStatusType::Error || d.status == DriveStatusType::NoneStatus || d.status
        == DriveStatusType::Disabled
}

/// Counts healthy and failed records of a status listing; the check
/// passes exactly when no record failed.
pub fn count_drive_status(list: &Vec<DriveInfo>) -> (r: (usize, usize))
    ensures
        r.1 == spec_drive_views(list@).filter(|d: DriveInfoV| spec_drive_failed(d)).len(),
        r.0 + r.1 == list@.len(),
{
    let ghost pred = |d: DriveInfoV| spec_drive_failed(d);
    let mut ok: usize = 0;
    let mut err: usize = 0;
    let mut i: usize = 0;
    proof {
        assert(spec_drive_views(list@.take(0)) =~= Seq::<DriveInfoV>::empty());
        assert(Seq::<DriveInfoV>::empty().filter(pred) =~= Seq::<DriveInfoV>::empty());
    }
    while i < list.len()
        invariant
            0 <= i <= list@.len(),
            pred == (|d: DriveInfoV| spec_drive_failed(d)),
            err == spec_drive_views(list@.take(i as int)).filter(pred).len(),
            ok + err == i,
        decreases list@.len() - i,
    {
        proof {
            assert(spec_drive_views(list@.take(i + 1)) =~= spec_drive_views(
                list@.take(i as int),
            ).push(list@[i as int]@));
            spec_drive_views(list@.take(i as int)).lemma_filter_push(list@[i as int]@, pred);
        }
        let d = &list[i];
        let failed = matches!(
            d.status,
            DriveStatusType::Error | DriveStatusType::NoneStatus | DriveStatusType::Disabled
        );
        if failed {
            err = err + 1;
        } else {
            ok = ok + 1;
        }
        i = i + 1;
    }
    proof {
        assert(list@.take(list@.len() as int) =~= list@);
    }
    (ok, err)
}

} // verus!
