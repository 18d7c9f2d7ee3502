//! Resolving a device by display name with bounded retries.
//!
//! Discovery is flaky — above all on the wireless channel — so a missed name
//! is treated as transient and discovery is retried, while a connect failure
//! after a match is terminal.  Each retry runs a full discovery and
//! re-resolves every name from scratch.  Discovery itself is backend work, so
//! the retry loop is driven from the hosting layer: `NameSearch` holds the
//! loop's whole state, `next_step` says whether another discovery attempt is
//! permitted, and `on_discovery` takes one attempt's outcome and decides —
//! connect the first matching device, retry, or abort with the attempt's own
//! error.
//!
//! `search_spec` states the result of the entire loop as a function of the
//! target, the retry bound, and the sequence of discovery outcomes; the
//! proof functions below pin the retry semantics against it.

use vstd::prelude::*;

use crate::connection::Connection;
use crate::device::Device;
use crate::device::name_ok_spec;
use crate::device::name_spec;
use crate::error::LedgerUtilityError;

verus! {

/// Whether every discovered device can be named — an iteration resolves all
/// names before matching, and a single unreadable device aborts the call.
pub open spec fn names_ok(devs: Seq<Device>) -> bool {
    forall|i: int| 0 <= i < devs.len() ==> name_ok_spec(#[trigger] devs[i])
}

/// Whether some discovered device's display name equals the target exactly
/// (case-sensitive).
pub open spec fn has_match(devs: Seq<Device>, target: Seq<char>) -> bool {
    exists|i: int| 0 <= i < devs.len() && name_spec(#[trigger] devs[i]) == target
}

/// The position of the first device whose display name equals the target.
pub open spec fn match_index(devs: Seq<Device>, target: Seq<char>) -> int
    recommends
        has_match(devs, target),
    decreases devs.len(),
{
    if devs.len() == 0 {
        0
    } else if name_spec(devs[0]) == target {
        0
    } else {
        1 + match_index(devs.drop_first(), target)
    }
}

/// When a match exists, `match_index` points at a matching device and at no
/// earlier position does one match.
pub proof fn lemma_match_index(devs: Seq<Device>, target: Seq<char>)
    requires
        has_match(devs, target),
    ensures
        0 <= match_index(devs, target) < devs.len(),
        name_spec(devs[match_index(devs, target)]) == target,
        forall|j: int|
            0 <= j < match_index(devs, target) ==> name_spec(#[trigger] devs[j]) != target,
    decreases devs.len(),
{
    let w = choose|w: int| 0 <= w < devs.len() && name_spec(#[trigger] devs[w]) == target;
    if name_spec(devs[0]) == target {
    } else {
        assert(devs.drop_first()[w - 1] == devs[w]);
        assert(has_match(devs.drop_first(), target));
        lemma_match_index(devs.drop_first(), target);
        let mi = match_index(devs.drop_first(), target);
        assert(devs[1 + mi] == devs.drop_first()[mi]);
        assert forall|j: int|
            0 <= j < match_index(devs, target) implies name_spec(#[trigger] devs[j])
            != target by {
            if j > 0 {
                assert(devs[j] == devs.drop_first()[j - 1]);
            }
        }
    }
}

/// The position of the first name in `names` equal to `target`, exactly and
/// case-sensitively; `None` when no name matches.
fn position_of(names: &Vec<String>, target: &String) -> (r: Option<usize>)
    ensures
        r matches Some(at) ==> at < names@.len() && names@[at as int]@ == target@ && (forall|
            j: int,
        |
            0 <= j < at ==> (#[trigger] names@[j])@ != target@),
        r is None ==> forall|j: int| 0 <= j < names@.len() ==> (#[trigger] names@[j])@ != target@,
{
    let mut i: usize = 0;
    while i < names.len()
        invariant
            i <= names@.len(),
            forall|j: int| 0 <= j < i ==> (#[trigger] names@[j])@ != target@,
        decreases names@.len() - i,
    {
        if names[i] == *target {
            return Some(i);
        }
        i = i + 1;
    }
    None
}

/// What the search asks the hosting layer to do next.
#[derive(Debug, Clone, Copy, PartialEq, Eq, Structural)]
pub enum SearchStep {
    /// Run one full discovery across every enabled channel and report its
    /// outcome through `on_discovery`.
    Discover,
    /// Every permitted attempt was used: fail with `DeviceNotFound`.
    GiveUp,
}

/// What one discovery outcome led to.
#[derive(Debug)]
pub enum SearchOutcome {
    /// A device resolved to the target name: consume it through
    /// `Connection::connect` and return that call's result, success or
    /// failure, without further retries.
    Connect(Device),
    /// No device matched this time; the attempt is spent, ask `next_step`
    /// again.
    Retry,
    /// The attempt itself failed — a backend error or an unnameable device —
    /// and the whole call fails with this error immediately.
    Abort(LedgerUtilityError),
}

/// The state of one bounded search-by-name: the exact display name wanted
/// and how many discovery attempts may still be made.
#[derive(Debug)]
pub struct NameSearch {
    /// The display name a device must resolve to, compared exactly.
    pub target: String,
    /// How many discovery attempts are still permitted.
    pub remaining: u8,
}

impl NameSearch {
    /// Starts a search for `target` with at most `retries` discovery
    /// attempts.
    pub fn new(target: String, retries: u8) -> (s: NameSearch)
        ensures
            s.target == target,
            s.remaining == retries,
    {
        NameSearch { target, remaining: retries }
    }

    /// Whether another discovery attempt is permitted.  With no attempts
    /// left the search gives up — in particular a search started with zero
    /// retries gives up before any discovery at all.
    pub fn next_step(&self) -> (step: SearchStep)
        ensures
            step == SearchStep::Discover <==> self.remaining > 0,
            step == SearchStep::GiveUp <==> self.remaining == 0,
    {
        if self.remaining > 0 {
            SearchStep::Discover
        } else {
            SearchStep::GiveUp
        }
    }

    /// Decides on one discovery attempt's outcome.
    ///
    /// A failed discovery aborts with that error.  Otherwise every name is
    /// resolved first; a device that cannot be named aborts the call.  The
    /// first device whose name equals the target exactly is removed from the
    /// candidate list (the order among the rest is not preserved) and handed
    /// back for connecting.  With no match the attempt is spent and the
    /// caller may try again.
    #[verifier::loop_isolation(false)]
    pub fn on_discovery(&mut self, discovered: Result<Vec<Device>, LedgerUtilityError>) -> (r:
        SearchOutcome)
        requires
            old(self).remaining > 0,
        ensures
            final(self).target == old(self).target,
            discovered matches Err(e) ==> r == SearchOutcome::Abort(e) && final(self).remaining
                == old(self).remaining,
            discovered matches Ok(devs) && !names_ok(devs@) ==> r == SearchOutcome::Abort(
                LedgerUtilityError::MetadataUnavailable,
            ) && final(self).remaining == old(self).remaining,
            discovered matches Ok(devs) ==> (names_ok(devs@) && has_match(
                devs@,
                old(self).target@,
            ) ==> r == SearchOutcome::Connect(devs@[match_index(devs@, old(self).target@)])
                && final(self).remaining == old(self).remaining),
            discovered matches Ok(devs) && names_ok(devs@) && !has_match(devs@, old(self).target@)
                ==> r == SearchOutcome::Retry && final(self).remaining == old(self).remaining - 1,
    {
        match discovered {
            Err(e) => SearchOutcome::Abort(e),
            Ok(mut devs) => {
                let mut names: Vec<String> = Vec::new();
                let mut i: usize = 0;
                while i < devs.len()
                    invariant
                        i <= devs@.len(),
                        names@.len() == i,
                        forall|j: int| 0 <= j < i ==> name_ok_spec(#[trigger] devs@[j]),
                        forall|j: int|
                            0 <= j < i ==> names@[j]@ == name_spec(#[trigger] devs@[j]),
                    decreases devs@.len() - i,
                {
                    match devs[i].name() {
                        Ok(n) => names.push(n),
                        Err(e) => {
                            return SearchOutcome::Abort(e);
                        },
                    }
                    i = i + 1;
                }
                match position_of(&names, &self.target) {
                    Some(at) => {
                        proof {
                            assert(name_spec(devs@[at as int]) == self.target@);
                            assert(has_match(devs@, self.target@));
                            lemma_match_index(devs@, self.target@);
                            let mi = match_index(devs@, self.target@);
                            if mi < at as int {
                                assert(name_spec(devs@[mi]) != self.target@);
                            }
                            if mi > at as int {
                                assert(name_spec(devs@[at as int]) != self.target@);
                            }
                            assert(mi == at as int);
                        }
                        let device = devs.swap_remove(at);
                        SearchOutcome::Connect(device)
                    },
                    None => {
                        proof {
                            assert(!has_match(devs@, self.target@));
                        }
                        self.remaining = self.remaining - 1;
                        SearchOutcome::Retry
                    },
                }
            },
        }
    }
}

impl Connection {
    /// Starts the connect-by-name retry loop: repeat up to `num_retries`
    /// times — discover, resolve every name, connect the first exact match —
    /// and fail with `DeviceNotFound` once every attempt is spent.
    ///
    /// Discovery and connecting are backend work, so the loop is driven from
    /// the hosting layer: it asks the returned search what to do next and
    /// feeds each discovery outcome back in.  `search_spec` states the
    /// result of that whole loop.
    pub fn connect_with_name(&self, device_name: String, num_retries: u8) -> (s: NameSearch)
        ensures
            s.target == device_name,
            s.remaining == num_retries,
    {
        NameSearch::new(device_name, num_retries)
    }
}

/// The verdict of a whole search: the device to connect, the error that
/// aborted the loop, or `DeviceNotFound` after all attempts were spent.
#[derive(Debug)]
pub enum SearchVerdict {
    Found(Device),
    Aborted(LedgerUtilityError),
    NotFound,
}

/// Whether one discovery outcome completes an attempt cleanly without a
/// match: enumeration succeeded, every device could be named, none matched.
pub open spec fn clean_no_match(
    target: Seq<char>,
    outcome: Result<Seq<Device>, LedgerUtilityError>,
) -> bool {
    outcome matches Ok(devs) && names_ok(devs) && !has_match(devs, target)
}

/// The result of the whole retry loop, as a function of the target, the
/// retry bound, and what the successive discovery attempts would return.
/// Only the first `retries` outcomes can ever be consulted, and fewer when
/// an attempt finds a match or aborts.
pub open spec fn search_spec(
    target: Seq<char>,
    retries: nat,
    outcomes: Seq<Result<Seq<Device>, LedgerUtilityError>>,
) -> SearchVerdict
    recommends
        outcomes.len() >= retries,
    decreases retries,
{
    if retries == 0 || outcomes.len() == 0 {
        SearchVerdict::NotFound
    } else {
        match outcomes[0] {
            Err(e) => SearchVerdict::Aborted(e),
            Ok(devs) => if !names_ok(devs) {
                SearchVerdict::Aborted(LedgerUtilityError::MetadataUnavailable)
            } else if has_match(devs, target) {
                SearchVerdict::Found(devs[match_index(devs, target)])
            } else {
                search_spec(target, (retries - 1) as nat, outcomes.drop_first())
            },
        }
    }
}

/// One `on_discovery` step agrees with `search_spec`: each step either
/// settles the loop's result exactly as the spec's first case does, or
/// spends one attempt and leaves the rest of the loop to the remaining
/// outcomes.
pub proof fn lemma_step_unfolds_search(
    target: Seq<char>,
    retries: nat,
    outcomes: Seq<Result<Seq<Device>, LedgerUtilityError>>,
)
    requires
        retries > 0,
        outcomes.len() > 0,
    ensures
        outcomes[0] matches Err(e) ==> search_spec(target, retries, outcomes)
            == SearchVerdict::Aborted(e),
        outcomes[0] matches Ok(devs) && !names_ok(devs) ==> search_spec(target, retries, outcomes)
            == SearchVerdict::Aborted(LedgerUtilityError::MetadataUnavailable),
        outcomes[0] matches Ok(devs) ==> (names_ok(devs) && has_match(devs, target) ==> search_spec(
            target,
            retries,
            outcomes,
        ) == SearchVerdict::Found(devs[match_index(devs, target)])),
        clean_no_match(target, outcomes[0]) ==> search_spec(target, retries, outcomes)
            == search_spec(target, (retries - 1) as nat, outcomes.drop_first()),
{
}

/// A search permitted zero attempts reports `DeviceNotFound`, and does so
/// without consulting any discovery outcome: the verdict is the same
/// whatever discovery would have returned.
pub proof fn lemma_zero_retries_not_found(
    target: Seq<char>,
    outcomes1: Seq<Result<Seq<Device>, LedgerUtilityError>>,
    outcomes2: Seq<Result<Seq<Device>, LedgerUtilityError>>,
)
    ensures
        search_spec(target, 0, outcomes1) == SearchVerdict::NotFound,
        search_spec(target, 0, outcomes1) == search_spec(target, 0, outcomes2),
{
}

/// When the first discovery snapshot already holds a device with the target
/// name, the search finds that device on the first attempt, and the verdict
/// does not depend on how many further retries were permitted.
pub proof fn lemma_first_snapshot_match(
    target: Seq<char>,
    retries: nat,
    outcomes: Seq<Result<Seq<Device>, LedgerUtilityError>>,
    devs: Seq<Device>,
)
    requires
        retries > 0,
        outcomes.len() > 0,
        outcomes[0] == Result::<Seq<Device>, LedgerUtilityError>::Ok(devs),
        names_ok(devs),
        has_match(devs, target),
    ensures
        search_spec(target, retries, outcomes) == SearchVerdict::Found(
            devs[match_index(devs, target)],
        ),
{
}

/// The search reports `DeviceNotFound` exactly when every permitted attempt
/// completes cleanly without a name match — never when some attempt finds a
/// match, and never when an attempt aborts first.
pub proof fn lemma_not_found_iff_all_attempts_miss(
    target: Seq<char>,
    retries: nat,
    outcomes: Seq<Result<Seq<Device>, LedgerUtilityError>>,
)
    requires
        outcomes.len() >= retries,
    ensures
        search_spec(target, retries, outcomes) == SearchVerdict::NotFound <==> (forall|i: int|
            0 <= i < retries ==> clean_no_match(target, #[trigger] outcomes[i])),
    decreases retries,
{
    if retries == 0 {
    } else if clean_no_match(target, outcomes[0]) {
        lemma_not_found_iff_all_attempts_miss(target, (retries - 1) as nat, outcomes.drop_first());
        assert forall|i: int|
            0 <= i < retries - 1 implies outcomes.drop_first()[i] == outcomes[i + 1] by {}
        if search_spec(target, retries, outcomes) == SearchVerdict::NotFound {
            assert forall|i: int|
                0 <= i < retries implies clean_no_match(target, #[trigger] outcomes[i]) by {
                if i > 0 {
                    assert(clean_no_match(target, outcomes.drop_first()[i - 1]));
                }
            }
        } else {
            assert(exists|i: int|
                0 <= i < retries - 1 && !clean_no_match(target, #[trigger] outcomes.drop_first()[i]));
            let w = choose|i: int|
                0 <= i < retries - 1 && !clean_no_match(target, #[trigger] outcomes.drop_first()[i]);
            assert(!clean_no_match(target, outcomes[w + 1]));
        }
    } else {
        assert(search_spec(target, retries, outcomes) != SearchVerdict::NotFound);
        assert(!clean_no_match(target, outcomes[0]));
    }
}

} // verus!
