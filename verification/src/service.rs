//! The leaderboard service: the public operations over the handle cache.
//!
//! An operation that needs the platform comes in two halves around its one
//! suspension point. The first half reads the cache and says what to ask of
//! the platform, or that the operation is already done. The second half takes
//! the platform's resolution and produces the result. Between the two the
//! operation holds its own clone of the handle, so nothing that happens to
//! the cache while the platform works reaches an operation in flight.

use vstd::prelude::*;
use crate::adapter::Resolution;
use crate::cache::{name_views, HandleCache};
use crate::platform::{
    display_type_of, entries_from_platform, sort_method_of, PlatformDataRequest,
    PlatformDisplayType, PlatformEntry, PlatformLeaderboard, PlatformScoreUploaded,
    PlatformSortMethod, PlatformUploadMethod,
};
use crate::vocabulary::{DataRequest, DisplayType, LeaderboardEntry, SortMethod, UploadScoreMethod};

verus! {

/// The most entries that one download returns, whatever the platform sends.
/// The same bound goes to the platform with every download.
pub const DOWNLOAD_CAP: usize = 100;

/// What a leaderboard service knows: the resolved leaderboard of each cached
/// name.
pub type Handles<H> = Map<Seq<char>, PlatformLeaderboard<H>>;

/// What an operation asks of its host next.
#[derive(Clone, Debug, PartialEq, Eq)]
pub enum Step<P, R> {
    /// Make the platform call that `P` describes, then complete it.
    Call(P),
    /// Nothing to ask of the platform: the operation has ended with `R`.
    Done(R),
}

/// Which of the two lookups a pending resolve makes.
#[derive(Clone, Copy, Debug, PartialEq, Eq, Structural)]
pub enum ResolveCall {
    /// Look the leaderboard up; it is absent if the platform has none.
    Find,
    /// Look the leaderboard up and have the platform create it if it has none.
    FindOrCreate { sort_method: PlatformSortMethod, display_type: PlatformDisplayType },
}

/// A resolve that waits for the platform.
#[derive(Clone, Debug, PartialEq, Eq)]
pub struct PendingResolve {
    pub name: String,
    pub call: ResolveCall,
}

/// An upload that waits for the platform.
#[derive(Clone, Debug, PartialEq, Eq)]
pub struct PendingUpload<H> {
    pub handle: H,
    pub method: PlatformUploadMethod,
    pub score: i32,
    pub details: Vec<i32>,
}

/// A download that waits for the platform.
#[derive(Clone, Debug, PartialEq, Eq)]
pub struct PendingDownload<H> {
    pub handle: H,
    pub request: PlatformDataRequest,
    pub range_start: i32,
    pub range_end: i32,
    pub cap: usize,
}

/// The leaderboard cached under `name`, if there is one.
pub open spec fn cached<H>(handles: Handles<H>, name: Seq<char>) -> Option<PlatformLeaderboard<H>> {
    if handles.contains_key(name) {
        Some(handles[name])
    } else {
        None
    }
}

/// What a completed resolve leaves in the cache: the resolved leaderboard
/// under the name, in place of what was there, if the platform produced one;
/// the cache as it was, if it did not.
pub open spec fn resolved<H>(
    handles: Handles<H>,
    name: Seq<char>,
    resolution: Resolution<PlatformLeaderboard<H>>,
) -> Handles<H> {
    match resolution.value() {
        Some(leaderboard) => handles.insert(name, leaderboard),
        None => handles,
    }
}

/// What invalidating `name` returns and leaves in the cache.
pub open spec fn invalidated<H>(handles: Handles<H>, name: Seq<char>) -> (bool, Handles<H>) {
    (handles.contains_key(name), handles.remove(name))
}

/// The details that go with an upload: the caller's, or none.
pub open spec fn details_or_none(details: Option<Vec<i32>>) -> Seq<i32> {
    match details {
        Some(given) => given@,
        None => Seq::empty(),
    }
}

/// Starts looking up the leaderboard `name`. Nothing is read from the cache:
/// a name that is cached already is looked up again.
pub fn find_leaderboard(name: String) -> (pending: PendingResolve)
    ensures
        pending.name == name,
        pending.call == ResolveCall::Find,
{
    PendingResolve { name, call: ResolveCall::Find }
}

/// Starts looking up the leaderboard `name`, to be created with the given
/// sort method and display type if the platform has none of that name.
/// Nothing is read from the cache.
pub fn find_or_create_leaderboard(
    name: String,
    sort_method: SortMethod,
    display_type: DisplayType,
) -> (pending: PendingResolve)
    ensures
        pending.name == name,
        pending.call == (ResolveCall::FindOrCreate {
            sort_method: sort_method.to_platform(),
            display_type: display_type.to_platform(),
        }),
{
    PendingResolve {
        name,
        call: ResolveCall::FindOrCreate {
            sort_method: PlatformSortMethod::from(sort_method),
            display_type: PlatformDisplayType::from(display_type),
        },
    }
}

/// The leaderboard operations, over a cache of handles of type `H`.
pub struct LeaderboardService<H> {
    handles: HandleCache<PlatformLeaderboard<H>>,
}

impl<H> View for LeaderboardService<H> {
    type V = Handles<H>;

    closed spec fn view(&self) -> Handles<H> {
        self.handles@
    }
}

impl<H> LeaderboardService<H> {
    /// A service that has resolved nothing yet.
    pub fn new() -> (service: LeaderboardService<H>)
        ensures
            service@ == Map::<Seq<char>, PlatformLeaderboard<H>>::empty(),
    {
        LeaderboardService { handles: HandleCache::new() }
    }

    /// Completes a resolve. Where the platform produced a leaderboard, it is
    /// cached under the name asked for, in place of what was cached there,
    /// and the name is returned as confirmation. Where the platform had none
    /// or the call failed, the cache stays as it was and nothing is returned.
    pub fn complete_resolve(
        &mut self,
        pending: PendingResolve,
        resolution: Resolution<PlatformLeaderboard<H>>,
    ) -> (confirmed: Option<String>)
        ensures
            final(self)@ == resolved(old(self)@, pending.name@, resolution),
            confirmed == match resolution.value() {
                Some(_) => Some(pending.name),
                None => None,
            },
    {
        match resolution.into_value() {
            Some(leaderboard) => {
                self.handles.insert(pending.name.clone(), leaderboard);
                Some(pending.name)
            },
            None => None,
        }
    }

    /// The name that the platform gave the leaderboard cached under
    /// `leaderboard_name`.
    pub fn get_leaderboard_name(&self, leaderboard_name: String) -> (name: Option<String>)
        ensures
            name == match cached(self@, leaderboard_name@) {
                Some(leaderboard) => Some(leaderboard.name),
                None => None,
            },
    {
        match self.handles.get(&leaderboard_name) {
            Some(leaderboard) => Some(leaderboard.name.clone()),
            None => None,
        }
    }

    /// The number of entries that the platform reported of the leaderboard
    /// cached under `leaderboard_name`.
    pub fn get_leaderboard_entry_count(&self, leaderboard_name: String) -> (count: Option<i32>)
        ensures
            count == match cached(self@, leaderboard_name@) {
                Some(leaderboard) => Some(leaderboard.entry_count),
                None => None,
            },
    {
        match self.handles.get(&leaderboard_name) {
            Some(leaderboard) => Some(leaderboard.entry_count),
            None => None,
        }
    }

    /// The sort method of the leaderboard cached under `leaderboard_name`,
    /// in the public vocabulary.
    pub fn get_leaderboard_sort_method(&self, leaderboard_name: String) -> (method: Option<
        SortMethod,
    >)
        ensures
            method == match cached(self@, leaderboard_name@) {
                Some(leaderboard) => match leaderboard.sort_method {
                    Some(reported) => Some(SortMethod::of_platform(reported)),
                    None => None,
                },
                None => None,
            },
    {
        match self.handles.get(&leaderboard_name) {
            Some(leaderboard) => sort_method_of(leaderboard.sort_method),
            None => None,
        }
    }

    /// The display type of the leaderboard cached under `leaderboard_name`,
    /// in the public vocabulary.
    pub fn get_leaderboard_display_type(&self, leaderboard_name: String) -> (display: Option<
        DisplayType,
    >)
        ensures
            display == match cached(self@, leaderboard_name@) {
                Some(leaderboard) => match leaderboard.display_type {
                    Some(reported) => Some(DisplayType::of_platform(reported)),
                    None => None,
                },
                None => None,
            },
    {
        match self.handles.get(&leaderboard_name) {
            Some(leaderboard) => display_type_of(leaderboard.display_type),
            None => None,
        }
    }

    /// Forgets the handle cached under `leaderboard_name` and says whether
    /// there was one. The platform is not involved.
    pub fn clear_leaderboard_handle(&mut self, leaderboard_name: String) -> (existed: bool)
        ensures
            (existed, final(self)@) == invalidated(old(self)@, leaderboard_name@),
    {
        self.handles.remove(&leaderboard_name)
    }

    /// The names that have a cached handle, each of them once.
    pub fn get_cached_leaderboard_names(&self) -> (names: Vec<String>)
        ensures
            name_views(names@).no_duplicates(),
            name_views(names@).to_set() == self@.dom(),
            names@.len() == self@.dom().len(),
    {
        self.handles.list_names()
    }
}

impl<H: Clone> LeaderboardService<H> {
    /// Starts an upload to the leaderboard cached under `leaderboard_name`.
    /// Without a cached handle the upload has ended with nothing, and the
    /// platform is not asked. With one, the pending upload carries a clone of
    /// the handle, the method in the platform's vocabulary, the score, and
    /// the caller's details or none.
    pub fn upload_score(
        &self,
        leaderboard_name: String,
        score: i32,
        upload_method: UploadScoreMethod,
        details: Option<Vec<i32>>,
    ) -> (step: Step<PendingUpload<H>, Option<LeaderboardEntry>>)
        ensures
            match step {
                Step::Call(pending) => {
                    &&& self@.contains_key(leaderboard_name@)
                    &&& cloned(self@[leaderboard_name@].handle, pending.handle)
                    &&& pending.method == upload_method.to_platform()
                    &&& pending.score == score
                    &&& pending.details@ == details_or_none(details)
                },
                Step::Done(entry) => !self@.contains_key(leaderboard_name@) && entry is None,
            },
    {
        match self.handles.get(&leaderboard_name) {
            Some(leaderboard) => {
                let score_details = match details {
                    Some(given) => given,
                    None => Vec::new(),
                };
                Step::Call(
                    PendingUpload {
                        handle: leaderboard.handle.clone(),
                        method: PlatformUploadMethod::from(upload_method),
                        score,
                        details: score_details,
                    },
                )
            },
            None => Step::Done(None),
        }
    }

    /// Starts a download from the leaderboard cached under
    /// `leaderboard_name`. Without a cached handle the download has ended
    /// with no entries, and the platform is not asked. With one, the pending
    /// download carries a clone of the handle, the request in the platform's
    /// vocabulary, the range bounds as given, and the service's cap for the
    /// platform.
    pub fn download_scores(
        &self,
        leaderboard_name: String,
        data_request: DataRequest,
        range_start: i32,
        range_end: i32,
    ) -> (step: Step<PendingDownload<H>, Vec<LeaderboardEntry>>)
        ensures
            match step {
                Step::Call(pending) => {
                    &&& self@.contains_key(leaderboard_name@)
                    &&& cloned(self@[leaderboard_name@].handle, pending.handle)
                    &&& pending.request == data_request.to_platform()
                    &&& pending.range_start == range_start
                    &&& pending.range_end == range_end
                    &&& pending.cap == DOWNLOAD_CAP
                },
                Step::Done(entries) => !self@.contains_key(leaderboard_name@) && entries@.len()
                    == 0,
            },
    {
        match self.handles.get(&leaderboard_name) {
            Some(leaderboard) => Step::Call(
                PendingDownload {
                    handle: leaderboard.handle.clone(),
                    request: PlatformDataRequest::from(data_request),
                    range_start,
                    range_end,
                    cap: DOWNLOAD_CAP,
                },
            ),
            None => Step::Done(Vec::new()),
        }
    }
}

impl<H> PendingUpload<H> {
    /// The entry that confirms this upload, if the platform accepted it: the
    /// platform's new global rank, with the score and the details that were
    /// submitted and the caller's own identifier.
    pub open spec fn confirmed(
        self,
        resolution: Resolution<PlatformScoreUploaded>,
        steam_id: u64,
    ) -> Option<LeaderboardEntry> {
        match resolution.value() {
            Some(uploaded) => Some(
                LeaderboardEntry {
                    global_rank: uploaded.global_rank_new,
                    score: self.score,
                    steam_id: steam_id,
                    details: self.details,
                },
            ),
            None => None,
        }
    }

    /// Completes the upload for the caller identified by `steam_id`.
    pub fn complete(self, resolution: Resolution<PlatformScoreUploaded>, steam_id: u64) -> (entry:
        Option<LeaderboardEntry>)
        ensures
            entry == self.confirmed(resolution, steam_id),
    {
        match resolution.into_value() {
            Some(uploaded) => Some(
                LeaderboardEntry {
                    global_rank: uploaded.global_rank_new,
                    score: self.score,
                    steam_id,
                    details: self.details,
                },
            ),
            None => None,
        }
    }
}

impl<H> PendingDownload<H> {
    /// Completes the download. The entries are the platform's records,
    /// converted one for one and in order: all of them where there are no
    /// more than the cap, and the first as many as the cap where there are
    /// more. Where the call came to nothing there are no entries.
    pub fn complete(self, resolution: Resolution<Vec<PlatformEntry>>) -> (entries: Vec<
        LeaderboardEntry,
    >)
        ensures
            entries@.len() <= DOWNLOAD_CAP,
            match resolution.value() {
                Some(records) => {
                    &&& entries@.len() == if records@.len() <= DOWNLOAD_CAP {
                        records@.len()
                    } else {
                        DOWNLOAD_CAP as nat
                    }
                    &&& forall|i: int|
                        0 <= i < entries@.len() ==> entries@[i] == (#[trigger] records@[i]).to_entry()
                },
                None => entries@.len() == 0,
            },
    {
        match resolution.into_value() {
            Some(records) => {
                let ghost sent = records@;
                let mut kept = records;
                kept.truncate(DOWNLOAD_CAP);
                let entries = entries_from_platform(kept);
                assert forall|i: int| 0 <= i < entries@.len() implies entries@[i] == (
                #[trigger] sent[i]).to_entry() by {
                    assert(kept@[i] == sent[i]);
                }
                entries
            },
            None => Vec::new(),
        }
    }
}

} // verus!
