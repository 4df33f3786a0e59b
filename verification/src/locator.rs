//! The device locator: finds a previously captured device identity in
//! repeated enumeration snapshots, under a bounded polling budget.
//!
//! USB re-enumeration after a mode change is not instantaneous, and a
//! device can drop off the bus for tens to hundreds of milliseconds; the
//! locator absorbs this by polling at a fixed interval for a fixed number
//! of attempts.  A failing enumeration call counts as one spent attempt,
//! not as terminal failure.

use vstd::prelude::*;
use crate::types::DeviceInfo;

verus! {

/// The position of the first device in the list whose identity matches, or
/// `None` when no device matches.
pub open spec fn spec_find_index(devs: Seq<DeviceInfo>, target: u64) -> Option<int>
    decreases devs.len(),
{
    if devs.len() == 0 {
        None
    } else if devs[0].unique_id == target {
        Some(0)
    } else {
        match spec_find_index(devs.drop_first(), target) {
            Some(i) => Some(i + 1),
            None => None,
        }
    }
}

/// Whether some device in the list carries the target identity.
pub open spec fn list_has_target(devs: Seq<DeviceInfo>, target: u64) -> bool {
    exists|i: int| 0 <= i < devs.len() && devs[i].unique_id == target
}

/// Whether one enumeration snapshot (`None` when the enumeration call
/// itself failed) yields the target identity.
pub open spec fn snapshot_has_target(snap: Option<Vec<DeviceInfo>>, target: u64) -> bool {
    snap matches Some(devs) && list_has_target(devs@, target)
}

proof fn lemma_find_index_characterizes(devs: Seq<DeviceInfo>, target: u64)
    ensures
        spec_find_index(devs, target) is Some <==> list_has_target(devs, target),
        spec_find_index(devs, target) matches Some(i) ==> {
            &&& 0 <= i < devs.len()
            &&& devs[i].unique_id == target
            &&& forall|j: int| 0 <= j < i ==> devs[j].unique_id != target
        },
    decreases devs.len(),
{
    if devs.len() == 0 {
    } else if devs[0].unique_id == target {
    } else {
        lemma_find_index_characterizes(devs.drop_first(), target);
        let rest = spec_find_index(devs.drop_first(), target);
        if rest is Some {
            let i = rest.unwrap();
            assert(devs.drop_first()[i] == devs[i + 1]);
            assert(forall|j: int|
                1 <= j < i + 1 ==> devs[j] == devs.drop_first()[j - 1]);
        }
        if list_has_target(devs, target) {
            let w = choose|w: int| 0 <= w < devs.len() && devs[w].unique_id == target;
            assert(devs.drop_first()[w - 1] == devs[w]);
            assert(list_has_target(devs.drop_first(), target));
        }
    }
}

/// Scans one device list for the target identity, returning the position
/// of the first match.
pub fn find_in_list(devs: &Vec<DeviceInfo>, target: u64) -> (r: Option<usize>)
    ensures
        match r {
            Some(i) => spec_find_index(devs@, target) == Some(i as int),
            None => spec_find_index(devs@, target) is None,
        },
        r is Some <==> list_has_target(devs@, target),
        r matches Some(i) ==> i < devs@.len() && devs@[i as int].unique_id == target,
{
    proof {
        lemma_find_index_characterizes(devs@, target);
    }
    let mut i: usize = 0;
    while i < devs.len()
        invariant
            i <= devs.len(),
            forall|j: int| 0 <= j < i ==> devs@[j].unique_id != target,
        decreases devs.len() - i,
    {
        if devs[i].unique_id == target {
            proof {
                lemma_find_prefix(devs@, target, i as int);
            }
            return Some(i);
        }
        i = i + 1;
    }
    proof {
        if list_has_target(devs@, target) {
            let w = choose|w: int| 0 <= w < devs@.len() && devs@[w].unique_id == target;
            assert(devs@[w].unique_id != target);
        }
    }
    None
}

/// When no position before `i` matches and position `i` does, `i` is the
/// first match.
proof fn lemma_find_prefix(devs: Seq<DeviceInfo>, target: u64, i: int)
    requires
        0 <= i < devs.len(),
        devs[i].unique_id == target,
        forall|j: int| 0 <= j < i ==> devs[j].unique_id != target,
    ensures
        spec_find_index(devs, target) == Some(i),
    decreases i,
{
    if i == 0 {
    } else {
        assert(forall|j: int|
            0 <= j < i - 1 ==> devs.drop_first()[j] == devs[j + 1]);
        assert(devs.drop_first()[i - 1] == devs[i]);
        lemma_find_prefix(devs.drop_first(), target, i - 1);
    }
}

/// What one locator attempt decides: the index of the matching device in
/// the snapshot just taken, an order to sleep before the next attempt, or
/// terminal failure once the budget is spent.
#[derive(Debug)]
pub enum LocateStep {
    Found(usize),
    Retry(u64),
    NotFound,
}

/// The polling state of one locate call: the identity looked for, the
/// retry policy, and how many attempts were already spent.
#[derive(Debug)]
pub struct Locator {
    pub target: u64,
    pub interval_ms: u64,
    pub ceiling: u32,
    pub attempts: u32,
}

impl Locator {
    /// A locator may keep polling while attempts remain under its ceiling.
    pub open spec fn wf(&self) -> bool {
        self.attempts <= self.ceiling
    }

    /// Starts a locate call with a fresh attempt budget.
    pub fn new(target: u64, ceiling: u32, interval_ms: u64) -> (r: Locator)
        ensures
            r.target == target,
            r.ceiling == ceiling,
            r.interval_ms == interval_ms,
            r.attempts == 0,
            r.wf(),
    {
        Locator { target, interval_ms, ceiling, attempts: 0 }
    }

    /// Judges one enumeration snapshot.  A snapshot holding the target
    /// yields `Found` with the position of the first match; otherwise the
    /// attempt is spent, and the locator orders one interval of sleep while
    /// the budget lasts and reports `NotFound` once it is gone.
    pub fn step(&mut self, snapshot: Option<&Vec<DeviceInfo>>) -> (r: LocateStep)
        requires
            old(self).wf(),
            old(self).attempts < old(self).ceiling,
        ensures
            final(self).wf(),
            final(self).target == old(self).target,
            final(self).interval_ms == old(self).interval_ms,
            final(self).ceiling == old(self).ceiling,
            ({
                let has = snapshot matches Some(devs) && list_has_target(devs@, old(self).target);
                &&& (r is Found <==> has)
                &&& (r matches LocateStep::Found(i) ==> snapshot matches Some(devs)
                    && spec_find_index(devs@, old(self).target) == Some(i as int)
                    && i < devs@.len()
                    && devs@[i as int].unique_id == old(self).target)
                &&& (has ==> final(self).attempts == old(self).attempts)
                &&& ((!has) ==> final(self).attempts == old(self).attempts + 1)
                &&& (r matches LocateStep::Retry(ms) ==> ms == old(self).interval_ms)
                &&& (r is Retry <==> (!has) && old(self).attempts + 1 < old(self).ceiling)
                &&& (r is NotFound <==> (!has) && old(self).attempts + 1 == old(self).ceiling)
            }),
    {
        if let Some(devs) = snapshot {
            if let Some(i) = find_in_list(devs, self.target) {
                return LocateStep::Found(i);
            }
        }
        self.attempts = self.attempts + 1;
        if self.attempts < self.ceiling {
            LocateStep::Retry(self.interval_ms)
        } else {
            LocateStep::NotFound
        }
    }
}

/// The outcome of a locate call replayed against recorded snapshots:
/// either the attempt that found the device and the device's position in
/// that snapshot, or failure with every attempt of the budget spent.
#[derive(Debug)]
pub enum LocateOutcome {
    Located { attempt: usize, device: usize },
    NotFound { attempts_spent: u32 },
}

/// Replays a whole locate call over a recorded run of snapshots, one per
/// attempt; attempts past the end of the recording count as failed
/// enumeration calls.
///
/// The outcome is `Located` exactly when some snapshot among the first
/// `ceiling` holds the target, at the earliest such attempt; otherwise the
/// call fails only after the full polling budget was spent.
pub fn locate_in(target: u64, ceiling: u32, interval_ms: u64, snapshots: Vec<Option<Vec<DeviceInfo>>>)
    -> (r: LocateOutcome)
    requires
        ceiling >= 1,
    ensures
        ({
            let n = ceiling as int;
            match r {
                LocateOutcome::Located { attempt, device } => {
                    &&& attempt < n
                    &&& attempt < snapshots@.len()
                    &&& snapshot_has_target(snapshots@[attempt as int], target)
                    &&& (snapshots@[attempt as int] matches Some(devs)
                        && spec_find_index(devs@, target) == Some(device as int))
                    &&& forall|j: int| 0 <= j < attempt
                        ==> !snapshot_has_target(#[trigger] snapshots@[j], target)
                },
                LocateOutcome::NotFound { attempts_spent } => {
                    &&& attempts_spent == ceiling
                    &&& forall|j: int| 0 <= j < n && j < snapshots@.len()
                        ==> !snapshot_has_target(#[trigger] snapshots@[j], target)
                },
            }
        }),
{
    let mut loc = Locator::new(target, ceiling, interval_ms);
    let mut attempt: usize = 0;
    loop
        invariant
            loc.wf(),
            loc.target == target,
            loc.ceiling == ceiling,
            loc.attempts == attempt,
            attempt < ceiling,
            forall|j: int| 0 <= j < attempt && j < snapshots@.len()
                ==> !snapshot_has_target(#[trigger] snapshots@[j], target),
        decreases ceiling - attempt,
    {
        let snap: Option<&Vec<DeviceInfo>> = if attempt < snapshots.len() {
            match &snapshots[attempt] {
                Some(devs) => Some(devs),
                None => None,
            }
        } else {
            None
        };
        let step = loc.step(snap);
        match step {
            LocateStep::Found(device) => {
                return LocateOutcome::Located { attempt, device };
            },
            LocateStep::Retry(_ms) => {
                attempt = attempt + 1;
            },
            LocateStep::NotFound => {
                return LocateOutcome::NotFound { attempts_spent: ceiling };
            },
        }
    }
}

} // verus!
