//! The handle registry: integer tokens for open resources.
//!
//! A caller across the boundary never holds a resource, only the id under
//! which the registry keeps it. Ids are issued from a counter that starts
//! at 1 and is never set back, so closing a handle does not make its id
//! available again.

use crate::engine::{
    engine_result, engine_result_text, malformed_command_text, result_text,
    unencodable_error_text, unencodable_output_text, EngineOutcome,
};
use crate::envelope::internal_error_text;
use std::collections::HashMap;
use vstd::prelude::*;

verus! {

/// The id issued `k` opens after the id `first`: the counter goes up by one
/// with each successful open and wraps at the end of the 64-bit range.
pub open spec fn nth_id(first: u64, k: nat) -> u64 {
    ((first as nat + k) % 0x1_0000_0000_0000_0000) as u64
}

/// The id issued after `id`.
pub open spec fn id_after(id: u64) -> u64 {
    if id == u64::MAX {
        0
    } else {
        (id + 1) as u64
    }
}

/// The reason given when an id names no open handle.
pub open spec fn invalid_handle_text() -> Seq<char> {
    "invalid handle"@
}

/// Registry of the open resources, each under the handle id it was issued.
/// Its view is the map from open ids to their resources.
pub struct HandleRegistry<R> {
    next_id: u64,
    handles: HashMap<u64, R>,
}

impl<R> View for HandleRegistry<R> {
    type V = Map<u64, R>;

    closed spec fn view(&self) -> Map<u64, R> {
        self.handles@
    }
}

impl<R> HandleRegistry<R> {
    /// The id that the next successful open will issue.
    pub closed spec fn next_id(&self) -> u64 {
        self.next_id
    }

    /// Whether `id` names an open handle.
    pub open spec fn is_open(&self, id: u64) -> bool {
        self@.contains_key(id)
    }

    /// Every open id was issued by the counter and the counter has not
    /// wrapped: open ids lie from 1 up to, not including, the next id.
    pub open spec fn well_formed(&self) -> bool {
        &&& self.next_id() >= 1
        &&& forall|id: u64| self.is_open(id) ==> 1 <= id < self.next_id()
    }

    /// How a registry changes when the outcome `opened` of opening a
    /// resource is registered. A resource is kept under the next id, which
    /// is the result, and the counter moves on. A failure is handed back
    /// and changes nothing: no id is used up.
    pub open spec fn registered(
        before: Self,
        opened: Result<R, String>,
        after: Self,
        result: Result<u64, String>,
    ) -> bool {
        match opened {
            Ok(resource) => {
                &&& result == Ok::<u64, String>(before.next_id())
                &&& after@ == before@.insert(before.next_id(), resource)
                &&& after.next_id() == id_after(before.next_id())
            },
            Err(reason) => {
                &&& result == Err::<u64, String>(reason)
                &&& after@ == before@
                &&& after.next_id() == before.next_id()
            },
        }
    }

    /// An empty registry whose first id is 1.
    pub fn new() -> (registry: Self)
        ensures
            registry@ == Map::<u64, R>::empty(),
            registry.next_id() == 1,
            registry.well_formed(),
    {
        HandleRegistry { next_id: 1, handles: HashMap::new() }
    }

    /// Registers the outcome of opening a resource.
    pub fn register(&mut self, opened: Result<R, String>) -> (result: Result<u64, String>)
        ensures
            Self::registered(*old(self), opened, *final(self), result),
    {
        broadcast use vstd::std_specs::hash::group_hash_axioms;

        match opened {
            Ok(resource) => {
                let id: u64 = self.next_id;
                self.next_id = if id == u64::MAX {
                    0
                } else {
                    id + 1
                };
                self.handles.insert(id, resource);
                Ok(id)
            },
            Err(reason) => Err(reason),
        }
    }

    /// Opens the resource at `path` with `opener` and registers it.
    pub fn open<F>(&mut self, path: &str, opener: F) -> (result: Result<u64, String>) where
        F: FnOnce(&str) -> Result<R, String>,

        requires
            opener.requires((path,)),
        ensures
            exists|opened: Result<R, String>|
                opener.ensures((path,), opened) && Self::registered(
                    *old(self),
                    opened,
                    *final(self),
                    result,
                ),
    {
        let opened = opener(path);
        self.register(opened)
    }

    /// Opens an in-memory resource with `opener` and registers it.
    pub fn open_memory<F>(&mut self, opener: F) -> (result: Result<u64, String>) where
        F: FnOnce() -> Result<R, String>,

        requires
            opener.requires(()),
        ensures
            exists|opened: Result<R, String>|
                opener.ensures((), opened) && Self::registered(
                    *old(self),
                    opened,
                    *final(self),
                    result,
                ),
    {
        let opened = opener();
        self.register(opened)
    }

    /// Borrows the resource behind `id`, if `id` is open.
    pub fn lookup(&self, id: u64) -> (found: Option<&R>)
        ensures
            found == (if self.is_open(id) {
                Some(&self@[id])
            } else {
                None
            }),
    {
        broadcast use vstd::std_specs::hash::group_hash_axioms;

        self.handles.get(&id)
    }

    /// Closes `id`: its resource is removed and dropped. An id that is not
    /// open is ignored. The counter is untouched, so the id is not issued
    /// again.
    pub fn close(&mut self, id: u64)
        ensures
            final(self)@ == old(self)@.remove(id),
            final(self).next_id() == old(self).next_id(),
            !old(self).is_open(id) ==> final(self)@ == old(self)@,
            old(self).well_formed() ==> final(self).well_formed(),
    {
        broadcast use vstd::std_specs::hash::group_hash_axioms;

        self.handles.remove(&id);
        assert(!old(self).is_open(id) ==> self@ =~= old(self)@);
        assert(old(self).well_formed() ==> self.well_formed()) by {
            if old(self).well_formed() {
                assert forall|other: u64| self.is_open(other) implies 1 <= other
                    < self.next_id() by {
                    assert(old(self).is_open(other));
                }
            }
        }
    }

    /// Hands one command to the engine behind `id`, if `id` is open, and
    /// gives back what the engine reported. For an id that is not open the
    /// engine is not asked and there is no outcome.
    pub fn dispatch<F>(&self, id: u64, command_json: &str, run: F) -> (reported: Option<
        EngineOutcome,
    >) where F: FnOnce(&R, &str) -> EngineOutcome
        requires
            self.is_open(id) ==> run.requires((&self@[id], command_json)),
        ensures
            reported is Some <==> self.is_open(id),
            reported matches Some(outcome) ==> run.ensures((&self@[id], command_json), outcome),
    {
        match self.lookup(id) {
            Some(resource) => Some(run(resource, command_json)),
            None => None,
        }
    }

    /// Runs one command against the resource behind `id`. The handle is
    /// looked up first: for an id that is not open the command is not
    /// looked at and the result is the invalid-handle reason. Otherwise
    /// `run` hands the command to the engine, and the result is what
    /// `engine_result` makes of the outcome.
    pub fn execute<F>(&self, id: u64, command_json: &str, run: F) -> (result: Result<
        String,
        String,
    >) where F: FnOnce(&R, &str) -> EngineOutcome
        requires
            self.is_open(id) ==> run.requires((&self@[id], command_json)),
        ensures
            !self.is_open(id) ==> result_text(result) == Err::<Seq<char>, Seq<char>>(
                invalid_handle_text(),
            ),
            self.is_open(id) ==> exists|outcome: EngineOutcome|
                run.ensures((&self@[id], command_json), outcome) && result_text(result)
                    == engine_result_text(outcome),
    {
        match self.dispatch(id, command_json, run) {
            Some(outcome) => engine_result(outcome),
            None => Err("invalid handle".to_owned()),
        }
    }
}

/// The invalid-handle reason is the registry's own: for an open handle no
/// outcome of the engine gives it, unless the engine's encoded error is
/// that very text (which is no error structure). So an execution returns
/// the invalid-handle reason for an id that is not open, and for no other.
pub proof fn lemma_invalid_handle_reason_is_the_registrys(outcome: EngineOutcome)
    requires
        !(outcome matches EngineOutcome::EngineError(json) && json@ == invalid_handle_text()),
    ensures
        engine_result_text(outcome) != Err::<Seq<char>, Seq<char>>(invalid_handle_text()),
{
    reveal_strlit("invalid handle");
    match outcome {
        EngineOutcome::Output(_) => {},
        EngineOutcome::EngineError(_) => {},
        EngineOutcome::MalformedCommand(detail) => {
            reveal_strlit("invalid command JSON: ");
            assert(malformed_command_text(detail@)[8] == 'c');
            assert(invalid_handle_text()[8] == 'h');
        },
        EngineOutcome::UnencodableError(detail) => {
            reveal_strlit("{\"Internal\":{\"reason\":");
            assert(internal_error_text(detail@)[0] == '{');
            assert(unencodable_error_text(detail@)[0] == '{');
            assert(invalid_handle_text()[0] == 'i');
        },
        EngineOutcome::UnencodableOutput(detail) => {
            reveal_strlit("failed to serialize output: ");
            assert(unencodable_output_text(detail@)[0] == 'f');
            assert(invalid_handle_text()[0] == 'i');
        },
    }
}

/// The ids that follow one another: the first is the starting id, and each
/// next one is the id after the one before.
pub proof fn lemma_nth_id_step(first: u64, k: nat)
    ensures
        nth_id(first, 0) == first,
        nth_id(first, k + 1) == id_after(nth_id(first, k)),
{
    let m = 0x1_0000_0000_0000_0000int;
    let x = first as int + k as int;
    assert(first as int % m == first as int) by {
        vstd::arithmetic::div_mod::lemma_small_mod(first as nat, m as nat);
    }
    assert((x + 1) % m == (if x % m == m - 1 {
        0
    } else {
        x % m + 1
    })) by {
        vstd::arithmetic::div_mod::lemma_fundamental_div_mod(x, m);
        vstd::arithmetic::div_mod::lemma_mod_bound(x, m);
        if x % m == m - 1 {
            vstd::arithmetic::div_mod::lemma_fundamental_div_mod_converse(x + 1, m, x / m + 1, 0);
        } else {
            vstd::arithmetic::div_mod::lemma_fundamental_div_mod_converse(
                x + 1,
                m,
                x / m,
                x % m + 1,
            );
        }
    }
}

/// No id is issued twice: of the 2^64 ids issued one after another from any
/// starting id, every two differ.
pub proof fn lemma_issued_ids_distinct(first: u64, i: nat, j: nat)
    requires
        i < j,
        j - i < 0x1_0000_0000_0000_0000,
    ensures
        nth_id(first, i) != nth_id(first, j),
{
    let m = 0x1_0000_0000_0000_0000int;
    let x = first as int + i as int;
    let y = first as int + j as int;
    vstd::arithmetic::div_mod::lemma_fundamental_div_mod(x, m);
    vstd::arithmetic::div_mod::lemma_fundamental_div_mod(y, m);
    vstd::arithmetic::div_mod::lemma_mod_bound(x, m);
    vstd::arithmetic::div_mod::lemma_mod_bound(y, m);
    if x % m == y % m {
        let d = y / m - x / m;
        assert(y - x == m * d) by (nonlinear_arith)
            requires
                x == m * (x / m) + x % m,
                y == m * (y / m) + y % m,
                x % m == y % m,
                d == y / m - x / m,
        ;
        assert(false) by (nonlinear_arith)
            requires
                y - x == m * d,
                0 < y - x < m,
        ;
    }
}

/// A run of successful opens, one after another: each state follows from
/// the one before by registering the next resource under the next id.
pub open spec fn opened_in_turn<R>(
    states: Seq<HandleRegistry<R>>,
    resources: Seq<R>,
    ids: Seq<u64>,
) -> bool {
    &&& states.len() == resources.len() + 1
    &&& ids.len() == resources.len()
    &&& forall|k: int|
        0 <= k < resources.len() ==> HandleRegistry::registered(
            #[trigger] states[k],
            Ok(resources[k]),
            states[k + 1],
            Ok(ids[k]),
        )
}

/// However many handles are opened one after another, as many ids are
/// issued as handles were opened, the `k`-th of them is the `k`-th id after
/// the starting one, every two of them differ, and at the end of the run
/// each of them is open and names the resource it was issued for.
pub proof fn lemma_opens_issue_distinct_ids<R>(
    states: Seq<HandleRegistry<R>>,
    resources: Seq<R>,
    ids: Seq<u64>,
)
    requires
        opened_in_turn(states, resources, ids),
        ids.len() <= 0x1_0000_0000_0000_0000,
    ensures
        forall|k: int| 0 <= k < ids.len() ==> ids[k] == nth_id(states[0].next_id(), k as nat),
        forall|k: int|
            0 <= k <= ids.len() ==> (#[trigger] states[k]).next_id() == nth_id(
                states[0].next_id(),
                k as nat,
            ),
        forall|i: int, j: int| 0 <= i < j < ids.len() ==> ids[i] != ids[j],
        forall|k: int|
            0 <= k < ids.len() ==> states[ids.len() as int].is_open(#[trigger] ids[k])
                && states[ids.len() as int]@[ids[k]] == resources[k],
{
    let first = states[0].next_id();
    assert forall|k: int| 0 <= k < ids.len() implies states[ids.len() as int].is_open(
        #[trigger] ids[k],
    ) && states[ids.len() as int]@[ids[k]] == resources[k] by {
        lemma_opened_stays_open(states, resources, ids, k, ids.len() as int);
    }
    lemma_counter_after_opens(states, resources, ids, ids.len() as int);
    assert forall|k: int| 0 <= k <= ids.len() implies (#[trigger] states[k]).next_id() == nth_id(
        first,
        k as nat,
    ) by {
        lemma_counter_after_opens(states, resources, ids, k);
    }
    assert forall|k: int| 0 <= k < ids.len() implies ids[k] == nth_id(first, k as nat) by {
        assert(HandleRegistry::registered(states[k], Ok(resources[k]), states[k + 1], Ok(ids[k])));
    }
    assert forall|i: int, j: int| 0 <= i < j < ids.len() implies ids[i] != ids[j] by {
        lemma_issued_ids_distinct(first, i as nat, j as nat);
    }
}

/// A handle opened in a run is still open, with its resource, after any
/// number of further opens of that run.
proof fn lemma_opened_stays_open<R>(
    states: Seq<HandleRegistry<R>>,
    resources: Seq<R>,
    ids: Seq<u64>,
    k: int,
    n: int,
)
    requires
        opened_in_turn(states, resources, ids),
        ids.len() <= 0x1_0000_0000_0000_0000,
        0 <= k < n <= ids.len(),
    ensures
        states[n].is_open(ids[k]),
        states[n]@[ids[k]] == resources[k],
    decreases n,
{
    assert(HandleRegistry::registered(
        states[n - 1],
        Ok(resources[n - 1]),
        states[n],
        Ok(ids[n - 1]),
    ));
    if n > k + 1 {
        lemma_opened_stays_open(states, resources, ids, k, n - 1);
        lemma_counter_after_opens(states, resources, ids, k);
        lemma_counter_after_opens(states, resources, ids, n - 1);
        assert(HandleRegistry::registered(states[k], Ok(resources[k]), states[k + 1], Ok(ids[k])));
        lemma_issued_ids_distinct(states[0].next_id(), k as nat, (n - 1) as nat);
    }
}

/// After `k` opens of a run the counter stands at the `k`-th id after the
/// starting one.
proof fn lemma_counter_after_opens<R>(
    states: Seq<HandleRegistry<R>>,
    resources: Seq<R>,
    ids: Seq<u64>,
    k: int,
)
    requires
        opened_in_turn(states, resources, ids),
        0 <= k <= ids.len(),
    ensures
        states[k].next_id() == nth_id(states[0].next_id(), k as nat),
    decreases k,
{
    if k == 0 {
        lemma_nth_id_step(states[0].next_id(), 0);
    } else {
        lemma_counter_after_opens(states, resources, ids, k - 1);
        lemma_nth_id_step(states[0].next_id(), (k - 1) as nat);
        assert(HandleRegistry::registered(
            states[k - 1],
            Ok(resources[k - 1]),
            states[k],
            Ok(ids[k - 1]),
        ));
    }
}

/// While the counter has not wrapped, ids go up: an id issued later is
/// greater than every id issued before it.
pub proof fn lemma_issued_ids_increase(first: u64, i: nat, j: nat)
    requires
        i < j,
        first as nat + j <= u64::MAX,
    ensures
        nth_id(first, i) < nth_id(first, j),
{
    vstd::arithmetic::div_mod::lemma_small_mod(
        first as nat + i,
        0x1_0000_0000_0000_0000nat,
    );
    vstd::arithmetic::div_mod::lemma_small_mod(
        first as nat + j,
        0x1_0000_0000_0000_0000nat,
    );
}

/// In a well-formed registry the id that a successful open issues was not
/// open before, so no open handle is replaced and the number of open
/// handles goes up by one.
pub proof fn lemma_open_issues_fresh_id<R>(
    before: HandleRegistry<R>,
    resource: R,
    after: HandleRegistry<R>,
    result: Result<u64, String>,
)
    requires
        before.well_formed(),
        HandleRegistry::registered(before, Ok(resource), after, result),
    ensures
        result == Ok::<u64, String>(before.next_id()),
        !before.is_open(before.next_id()),
        after.is_open(before.next_id()),
        after@[before.next_id()] == resource,
        forall|id: u64| id != before.next_id() ==> after.is_open(id) == before.is_open(id),
        forall|id: u64| before.is_open(id) ==> after@[id] == before@[id],
{
}

/// Registering keeps a registry well-formed as long as the counter has not
/// reached the end of the 64-bit range.
pub proof fn lemma_registered_keeps_well_formed<R>(
    before: HandleRegistry<R>,
    opened: Result<R, String>,
    after: HandleRegistry<R>,
    result: Result<u64, String>,
)
    requires
        before.well_formed(),
        before.next_id() < u64::MAX,
        HandleRegistry::registered(before, opened, after, result),
    ensures
        after.well_formed(),
{
    assert forall|id: u64| after.is_open(id) implies 1 <= id < after.next_id() by {
        if opened is Err || id != before.next_id() {
            assert(before.is_open(id));
        }
    }
}

/// Closing is idempotent: a second close of the same id changes nothing,
/// and neither does closing an id that is not open.
pub proof fn lemma_close_idempotent<R>(open_handles: Map<u64, R>, id: u64)
    ensures
        open_handles.remove(id).remove(id) == open_handles.remove(id),
        !open_handles.contains_key(id) ==> open_handles.remove(id) == open_handles,
        !open_handles.remove(id).contains_key(id),
{
    assert(open_handles.remove(id).remove(id) =~= open_handles.remove(id));
    if !open_handles.contains_key(id) {
        assert(open_handles.remove(id) =~= open_handles);
    }
}

/// A closed id stays closed when other handles are opened afterwards: the
/// ids issued later differ from it, as long as the counter has not wrapped.
pub proof fn lemma_closed_id_not_reissued<R>(
    before: HandleRegistry<R>,
    closed: u64,
    opened: Result<R, String>,
    after: HandleRegistry<R>,
    result: Result<u64, String>,
)
    requires
        before.well_formed(),
        1 <= closed < before.next_id(),
        !before.is_open(closed),
        HandleRegistry::registered(before, opened, after, result),
    ensures
        !after.is_open(closed),
        result != Ok::<u64, String>(closed),
{
}

} // verus!
