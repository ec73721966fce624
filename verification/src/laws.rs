//! What holds of the service's operations whatever the cache holds.
//!
//! The operations state their effect on the cache through the functions
//! `resolved`, `invalidated` and `cached`. The laws below are about those
//! functions, so each of them holds of every sequence of calls that the
//! operations' contracts describe.

use vstd::prelude::*;
use crate::adapter::Resolution;
use crate::platform::PlatformLeaderboard;
use crate::service::{cached, invalidated, resolved, Handles};

verus! {

/// Invalidating a name twice in a row: the first call says whether the name
/// was cached, the second says that it was not, and the second call changes
/// nothing. For a cached name the two calls return `true`, then `false`.
pub proof fn lemma_invalidate_twice<H>(handles: Handles<H>, name: Seq<char>)
    ensures
        ({
            let (first, once) = invalidated(handles, name);
            let (second, twice) = invalidated(once, name);
            &&& first == handles.contains_key(name)
            &&& !second
            &&& twice == once
        }),
{
    let (first, once) = invalidated(handles, name);
    let (second, twice) = invalidated(once, name);
    assert(twice =~= once);
}

/// Resolving a name twice with two results leaves the name cached once, with
/// the later result: the cache is what the later resolve alone would have
/// made of it, and it holds the same names as after the earlier resolve.
pub proof fn lemma_resolve_overwrites<H>(
    handles: Handles<H>,
    name: Seq<char>,
    earlier: PlatformLeaderboard<H>,
    later: PlatformLeaderboard<H>,
)
    ensures
        ({
            let once = resolved(handles, name, Resolution::Value(earlier));
            let twice = resolved(once, name, Resolution::Value(later));
            &&& twice == resolved(handles, name, Resolution::Value(later))
            &&& cached(twice, name) == Some(later)
            &&& twice.dom() == once.dom()
            &&& twice.dom() == handles.dom().insert(name)
        }),
{
    let once = resolved(handles, name, Resolution::Value(earlier));
    let twice = resolved(once, name, Resolution::Value(later));
    assert(twice =~= resolved(handles, name, Resolution::Value(later)));
    assert(twice.dom() =~= once.dom());
    assert(twice.dom() =~= handles.dom().insert(name));
}

/// A resolve that produced nothing, because the platform had no such
/// leaderboard or because the call failed, leaves the cache as it was: what
/// is cached reflects the most recent resolve that succeeded.
pub proof fn lemma_unsuccessful_resolve_keeps_cache<H>(
    handles: Handles<H>,
    name: Seq<char>,
    resolution: Resolution<PlatformLeaderboard<H>>,
)
    requires
        resolution.value() is None,
    ensures
        resolved(handles, name, resolution) == handles,
{
}

/// A name is unresolved until a resolve succeeds, resolved from then on, and
/// unresolved again once it is invalidated.
pub proof fn lemma_name_lifecycle<H>(
    handles: Handles<H>,
    name: Seq<char>,
    leaderboard: PlatformLeaderboard<H>,
)
    ensures
        ({
            let after_resolve = resolved(handles, name, Resolution::Value(leaderboard));
            let (existed, after_invalidate) = invalidated(after_resolve, name);
            &&& cached(after_resolve, name) == Some(leaderboard)
            &&& existed
            &&& cached(after_invalidate, name) is None
        }),
{
}

/// Operations on one name leave every other name as it was.
pub proof fn lemma_names_independent<H>(
    handles: Handles<H>,
    name: Seq<char>,
    other: Seq<char>,
    resolution: Resolution<PlatformLeaderboard<H>>,
)
    requires
        name != other,
    ensures
        cached(resolved(handles, name, resolution), other) == cached(handles, other),
        cached(invalidated(handles, name).1, other) == cached(handles, other),
{
}

} // verus!
