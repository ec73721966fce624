//! The platform's side of the boundary, as plain values.
//!
//! The platform has its own names for sort methods, display types, data
//! requests and upload methods, and its own record shapes. The types here hold
//! what the platform hands over or expects; the conversions to and from the
//! public vocabulary are total, and each pair of them is a bijection.

use vstd::prelude::*;
use vstd::std_specs::convert::FromSpecImpl;
use crate::vocabulary::{DataRequest, DisplayType, LeaderboardEntry, SortMethod, UploadScoreMethod};

verus! {

/// The platform's sort methods.
#[derive(Clone, Copy, Debug, PartialEq, Eq, Structural)]
pub enum PlatformSortMethod {
    Ascending,
    Descending,
}

/// The platform's display types.
#[derive(Clone, Copy, Debug, PartialEq, Eq, Structural)]
pub enum PlatformDisplayType {
    Numeric,
    TimeSeconds,
    TimeMilliSeconds,
}

/// The platform's data requests.
#[derive(Clone, Copy, Debug, PartialEq, Eq, Structural)]
pub enum PlatformDataRequest {
    Global,
    GlobalAroundUser,
    Friends,
}

/// The platform's upload methods.
#[derive(Clone, Copy, Debug, PartialEq, Eq, Structural)]
pub enum PlatformUploadMethod {
    KeepBest,
    ForceUpdate,
}

/// One downloaded record, as the platform reports it.
#[derive(Clone, Debug, PartialEq, Eq)]
pub struct PlatformEntry {
    pub user: u64,
    pub global_rank: i32,
    pub score: i32,
    pub details: Vec<i32>,
}

/// The platform's confirmation of an accepted upload.
#[derive(Clone, Copy, Debug, PartialEq, Eq, Structural)]
pub struct PlatformScoreUploaded {
    pub score: i32,
    pub was_changed: bool,
    pub global_rank_new: i32,
    pub global_rank_previous: i32,
}

/// A leaderboard as the platform describes it when it resolves a name: the
/// handle it issued, and what it knows of the leaderboard at that moment.
/// The handle is the platform's own token; nothing here looks inside it.
#[derive(Clone, Debug, PartialEq, Eq)]
pub struct PlatformLeaderboard<H> {
    pub handle: H,
    pub name: String,
    pub entry_count: i32,
    pub sort_method: Option<PlatformSortMethod>,
    pub display_type: Option<PlatformDisplayType>,
}

impl SortMethod {
    /// The platform's name for this sort method.
    pub open spec fn to_platform(self) -> PlatformSortMethod {
        match self {
            SortMethod::Ascending => PlatformSortMethod::Ascending,
            SortMethod::Descending => PlatformSortMethod::Descending,
        }
    }

    /// The public name for a platform sort method.
    pub open spec fn of_platform(p: PlatformSortMethod) -> SortMethod {
        match p {
            PlatformSortMethod::Ascending => SortMethod::Ascending,
            PlatformSortMethod::Descending => SortMethod::Descending,
        }
    }
}

impl From<SortMethod> for PlatformSortMethod {
    fn from(method: SortMethod) -> (p: PlatformSortMethod) {
        match method {
            SortMethod::Ascending => PlatformSortMethod::Ascending,
            SortMethod::Descending => PlatformSortMethod::Descending,
        }
    }
}

impl FromSpecImpl<SortMethod> for PlatformSortMethod {
    open spec fn obeys_from_spec() -> bool {
        true
    }

    open spec fn from_spec(method: SortMethod) -> PlatformSortMethod {
        method.to_platform()
    }
}

impl From<PlatformSortMethod> for SortMethod {
    fn from(p: PlatformSortMethod) -> (method: SortMethod) {
        match p {
            PlatformSortMethod::Ascending => SortMethod::Ascending,
            PlatformSortMethod::Descending => SortMethod::Descending,
        }
    }
}

impl FromSpecImpl<PlatformSortMethod> for SortMethod {
    open spec fn obeys_from_spec() -> bool {
        true
    }

    open spec fn from_spec(p: PlatformSortMethod) -> SortMethod {
        SortMethod::of_platform(p)
    }
}

/// Converting a sort method to the platform's vocabulary and back is the
/// identity, and so is converting a platform sort method to the public
/// vocabulary and back.
pub proof fn lemma_sort_method_round_trip(method: SortMethod, p: PlatformSortMethod)
    ensures
        SortMethod::of_platform(method.to_platform()) == method,
        SortMethod::of_platform(p).to_platform() == p,
{
}

impl DisplayType {
    /// The platform's name for this display type.
    pub open spec fn to_platform(self) -> PlatformDisplayType {
        match self {
            DisplayType::Numeric => PlatformDisplayType::Numeric,
            DisplayType::TimeSeconds => PlatformDisplayType::TimeSeconds,
            DisplayType::TimeMilliSeconds => PlatformDisplayType::TimeMilliSeconds,
        }
    }

    /// The public name for a platform display type.
    pub open spec fn of_platform(p: PlatformDisplayType) -> DisplayType {
        match p {
            PlatformDisplayType::Numeric => DisplayType::Numeric,
            PlatformDisplayType::TimeSeconds => DisplayType::TimeSeconds,
            PlatformDisplayType::TimeMilliSeconds => DisplayType::TimeMilliSeconds,
        }
    }
}

impl From<DisplayType> for PlatformDisplayType {
    fn from(display: DisplayType) -> (p: PlatformDisplayType) {
        match display {
            DisplayType::Numeric => PlatformDisplayType::Numeric,
            DisplayType::TimeSeconds => PlatformDisplayType::TimeSeconds,
            DisplayType::TimeMilliSeconds => PlatformDisplayType::TimeMilliSeconds,
        }
    }
}

impl FromSpecImpl<DisplayType> for PlatformDisplayType {
    open spec fn obeys_from_spec() -> bool {
        true
    }

    open spec fn from_spec(display: DisplayType) -> PlatformDisplayType {
        display.to_platform()
    }
}

impl From<PlatformDisplayType> for DisplayType {
    fn from(p: PlatformDisplayType) -> (display: DisplayType) {
        match p {
            PlatformDisplayType::Numeric => DisplayType::Numeric,
            PlatformDisplayType::TimeSeconds => DisplayType::TimeSeconds,
            PlatformDisplayType::TimeMilliSeconds => DisplayType::TimeMilliSeconds,
        }
    }
}

impl FromSpecImpl<PlatformDisplayType> for DisplayType {
    open spec fn obeys_from_spec() -> bool {
        true
    }

    open spec fn from_spec(p: PlatformDisplayType) -> DisplayType {
        DisplayType::of_platform(p)
    }
}

/// Converting a display type to the platform's vocabulary and back is the
/// identity, and so is converting a platform display type to the public
/// vocabulary and back.
pub proof fn lemma_display_type_round_trip(display: DisplayType, p: PlatformDisplayType)
    ensures
        DisplayType::of_platform(display.to_platform()) == display,
        DisplayType::of_platform(p).to_platform() == p,
{
}

impl DataRequest {
    /// The platform's name for this data request.
    pub open spec fn to_platform(self) -> PlatformDataRequest {
        match self {
            DataRequest::Global => PlatformDataRequest::Global,
            DataRequest::GlobalAroundUser => PlatformDataRequest::GlobalAroundUser,
            DataRequest::Friends => PlatformDataRequest::Friends,
        }
    }

    /// The public name for a platform data request.
    pub open spec fn of_platform(p: PlatformDataRequest) -> DataRequest {
        match p {
            PlatformDataRequest::Global => DataRequest::Global,
            PlatformDataRequest::GlobalAroundUser => DataRequest::GlobalAroundUser,
            PlatformDataRequest::Friends => DataRequest::Friends,
        }
    }
}

impl From<DataRequest> for PlatformDataRequest {
    fn from(request: DataRequest) -> (p: PlatformDataRequest) {
        match request {
            DataRequest::Global => PlatformDataRequest::Global,
            DataRequest::GlobalAroundUser => PlatformDataRequest::GlobalAroundUser,
            DataRequest::Friends => PlatformDataRequest::Friends,
        }
    }
}

impl FromSpecImpl<DataRequest> for PlatformDataRequest {
    open spec fn obeys_from_spec() -> bool {
        true
    }

    open spec fn from_spec(request: DataRequest) -> PlatformDataRequest {
        request.to_platform()
    }
}

impl From<PlatformDataRequest> for DataRequest {
    fn from(p: PlatformDataRequest) -> (request: DataRequest) {
        match p {
            PlatformDataRequest::Global => DataRequest::Global,
            PlatformDataRequest::GlobalAroundUser => DataRequest::GlobalAroundUser,
            PlatformDataRequest::Friends => DataRequest::Friends,
        }
    }
}

impl FromSpecImpl<PlatformDataRequest> for DataRequest {
    open spec fn obeys_from_spec() -> bool {
        true
    }

    open spec fn from_spec(p: PlatformDataRequest) -> DataRequest {
        DataRequest::of_platform(p)
    }
}

/// Converting a data request to the platform's vocabulary and back is the
/// identity, and so is converting a platform data request to the public
/// vocabulary and back.
pub proof fn lemma_data_request_round_trip(request: DataRequest, p: PlatformDataRequest)
    ensures
        DataRequest::of_platform(request.to_platform()) == request,
        DataRequest::of_platform(p).to_platform() == p,
{
}

impl UploadScoreMethod {
    /// The platform's name for this upload method.
    pub open spec fn to_platform(self) -> PlatformUploadMethod {
        match self {
            UploadScoreMethod::KeepBest => PlatformUploadMethod::KeepBest,
            UploadScoreMethod::ForceUpdate => PlatformUploadMethod::ForceUpdate,
        }
    }

    /// The public name for a platform upload method.
    pub open spec fn of_platform(p: PlatformUploadMethod) -> UploadScoreMethod {
        match p {
            PlatformUploadMethod::KeepBest => UploadScoreMethod::KeepBest,
            PlatformUploadMethod::ForceUpdate => UploadScoreMethod::ForceUpdate,
        }
    }
}

impl From<UploadScoreMethod> for PlatformUploadMethod {
    fn from(method: UploadScoreMethod) -> (p: PlatformUploadMethod) {
        match method {
            UploadScoreMethod::KeepBest => PlatformUploadMethod::KeepBest,
            UploadScoreMethod::ForceUpdate => PlatformUploadMethod::ForceUpdate,
        }
    }
}

impl FromSpecImpl<UploadScoreMethod> for PlatformUploadMethod {
    open spec fn obeys_from_spec() -> bool {
        true
    }

    open spec fn from_spec(method: UploadScoreMethod) -> PlatformUploadMethod {
        method.to_platform()
    }
}

impl From<PlatformUploadMethod> for UploadScoreMethod {
    fn from(p: PlatformUploadMethod) -> (method: UploadScoreMethod) {
        match p {
            PlatformUploadMethod::KeepBest => UploadScoreMethod::KeepBest,
            PlatformUploadMethod::ForceUpdate => UploadScoreMethod::ForceUpdate,
        }
    }
}

impl FromSpecImpl<PlatformUploadMethod> for UploadScoreMethod {
    open spec fn obeys_from_spec() -> bool {
        true
    }

    open spec fn from_spec(p: PlatformUploadMethod) -> UploadScoreMethod {
        UploadScoreMethod::of_platform(p)
    }
}

/// Converting a upload method to the platform's vocabulary and back is the
/// identity, and so is converting a platform upload method to the public
/// vocabulary and back.
pub proof fn lemma_upload_method_round_trip(method: UploadScoreMethod, p: PlatformUploadMethod)
    ensures
        UploadScoreMethod::of_platform(method.to_platform()) == method,
        UploadScoreMethod::of_platform(p).to_platform() == p,
{
}

impl PlatformEntry {
    /// The public entry that stands for this platform record: rank, score
    /// and details are kept, and the user's identifier becomes the player's.
    pub open spec fn to_entry(self) -> LeaderboardEntry {
        LeaderboardEntry {
            global_rank: self.global_rank,
            score: self.score,
            steam_id: self.user,
            details: self.details,
        }
    }
}

impl From<PlatformEntry> for LeaderboardEntry {
    fn from(entry: PlatformEntry) -> (converted: LeaderboardEntry) {
        LeaderboardEntry {
            global_rank: entry.global_rank,
            score: entry.score,
            steam_id: entry.user,
            details: entry.details,
        }
    }
}

impl FromSpecImpl<PlatformEntry> for LeaderboardEntry {
    open spec fn obeys_from_spec() -> bool {
        true
    }

    open spec fn from_spec(entry: PlatformEntry) -> LeaderboardEntry {
        entry.to_entry()
    }
}

/// The public sort method for what the platform reports of a leaderboard,
/// which is nothing where the platform does not know the handle.
pub fn sort_method_of(reported: Option<PlatformSortMethod>) -> (method: Option<SortMethod>)
    ensures
        method == match reported {
            Some(p) => Some(SortMethod::of_platform(p)),
            None => None,
        },
{
    match reported {
        Some(p) => Some(SortMethod::from(p)),
        None => None,
    }
}

/// The public display type for what the platform reports of a leaderboard,
/// which is nothing where the platform does not know the handle.
pub fn display_type_of(reported: Option<PlatformDisplayType>) -> (display: Option<DisplayType>)
    ensures
        display == match reported {
            Some(p) => Some(DisplayType::of_platform(p)),
            None => None,
        },
{
    match reported {
        Some(p) => Some(DisplayType::from(p)),
        None => None,
    }
}

/// Converts downloaded records to public entries, one for one and in order.
pub fn entries_from_platform(records: Vec<PlatformEntry>) -> (entries: Vec<LeaderboardEntry>)
    ensures
        entries@.len() == records@.len(),
        forall|i: int| 0 <= i < records@.len() ==> entries@[i] == (#[trigger] records@[i]).to_entry(),
{
    let mut entries: Vec<LeaderboardEntry> = Vec::new();
    for record in it: records
        invariant
            entries@.len() == it.index(),
            forall|i: int| 0 <= i < it.index() ==> entries@[i] == (#[trigger] it.seq()[i]).to_entry(),
    {
        entries.push(LeaderboardEntry::from(record));
    }
    entries
}

} // verus!
