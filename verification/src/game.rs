//! Bookkeeping of the game state that is exported to the engine: the API
//! version, the edict table's size and use, and the client table.

use vstd::prelude::*;

verus! {

/// Version of the game API this module implements.
pub const GAME_API_VERSION: i32 = 3;

/// Number of edicts the game allocates; the engine never changes it.
pub const MAX_EDICTS: i32 = 1024;

/// Memory tag of everything the game allocates for one game.
pub const TAG_GAME: i32 = 768;

/// The numbers the game exports to the engine, and the size of the client
/// table the game allocated.
#[derive(Clone, Copy, Debug, PartialEq, Eq)]
pub struct GameState {
    pub apiversion: i32,
    pub edict_size: i32,
    pub num_edicts: i32,
    pub max_edicts: i32,
    pub max_clients: isize,
}

/// How many records of each table `init` asks the engine to allocate.
#[derive(Clone, Copy, Debug, PartialEq, Eq)]
pub struct InitAllocation {
    pub edicts: i32,
    pub clients: i32,
}

/// The client slot that index `i` names in a table of `max_clients`
/// clients, if it names one.
pub open spec fn slot_of(i: int, max_clients: int) -> Option<usize> {
    if 0 <= i < max_clients {
        Some(i as usize)
    } else {
        None
    }
}

impl GameState {
    /// The state before `init`: API version 3, no edict in use, room for
    /// 1024 edicts of `edict_size` bytes each, and no client table.
    pub fn new(edict_size: i32) -> (g: GameState)
        ensures
            g.apiversion == GAME_API_VERSION,
            g.edict_size == edict_size,
            g.num_edicts == 0,
            g.max_edicts == MAX_EDICTS,
            g.max_clients == 0,
    {
        GameState {
            apiversion: GAME_API_VERSION,
            edict_size,
            num_edicts: 0,
            max_edicts: MAX_EDICTS,
            max_clients: 0,
        }
    }

    /// `self` with a client table of `n` slots.
    pub open spec fn after_init(self, n: i32) -> GameState {
        GameState { max_clients: n as isize, ..self }
    }

    /// `self` with the edicts in use counted: the world and one per client.
    pub open spec fn after_count(self) -> GameState {
        GameState { num_edicts: (self.max_clients + 1) as i32, ..self }
    }

    /// Sets the game up for `max_clients` clients: the client table gets
    /// that many slots, and the engine is asked for the full edict table and
    /// for the client table.
    pub fn init(&mut self, max_clients: i32) -> (a: InitAllocation)
        ensures
            *final(self) == old(self).after_init(max_clients),
            a == (InitAllocation { edicts: old(self).max_edicts, clients: max_clients }),
            final(self).max_clients == max_clients,
            final(self).num_edicts == old(self).num_edicts,
            final(self).apiversion == old(self).apiversion,
            final(self).edict_size == old(self).edict_size,
            final(self).max_edicts == old(self).max_edicts,
            a.edicts == old(self).max_edicts,
            a.clients == max_clients,
    {
        self.max_clients = max_clients as isize;
        InitAllocation { edicts: self.max_edicts, clients: max_clients }
    }

    /// Counts the edicts in use once the tables are allocated: the world and
    /// one per client.
    pub fn count_edicts_in_use(&mut self)
        requires
            i32::MIN <= old(self).max_clients < i32::MAX,
        ensures
            *final(self) == old(self).after_count(),
            final(self).num_edicts == old(self).max_clients + 1,
            final(self).max_clients == old(self).max_clients,
            final(self).apiversion == old(self).apiversion,
            final(self).edict_size == old(self).edict_size,
            final(self).max_edicts == old(self).max_edicts,
    {
        self.num_edicts = (self.max_clients as i32) + 1;
    }

    /// The slot of client `i`: `Some(i)` when `0 <= i < max_clients`, else
    /// `None`.
    pub fn client_slot(&self, i: isize) -> (r: Option<usize>)
        ensures
            r == slot_of(i as int, self.max_clients as int),
    {
        if i < self.max_clients && i >= 0 {
            Some(i as usize)
        } else {
            None
        }
    }
}

/// After `init` with `n` clients, exactly the indices `0 <= i < n` name a
/// client slot, and each names its own (whatever `n` is); in particular the
/// first client to connect (index 0) has a slot exactly when `n > 0`. When
/// the edicts in use are then counted, they are `n + 1`.
pub proof fn lemma_init_opens_slots(g: GameState, n: i32, i: int)
    ensures
        slot_of(i, g.after_init(n).max_clients as int) is Some <==> 0 <= i < n,
        slot_of(i, g.after_init(n).max_clients as int) matches Some(s) ==> s == i,
        slot_of(0, g.after_init(n).max_clients as int) is Some <==> n > 0,
        n < i32::MAX ==> g.after_init(n).after_count().num_edicts == n + 1,
        g.after_init(n).after_count().max_clients == n,
{
}

/// `init` with `n` clients sizes the client table to `n` and changes
/// nothing else: no edict is counted, and the API version, the edict size
/// and the edict limit stay as they were, whatever the state and `n`.
pub proof fn lemma_init_changes_only_client_table(g: GameState, n: i32)
    ensures
        g.after_init(n).max_clients == n,
        g.after_init(n).num_edicts == g.num_edicts,
        g.after_init(n).apiversion == g.apiversion,
        g.after_init(n).edict_size == g.edict_size,
        g.after_init(n).max_edicts == g.max_edicts,
{
}

/// Counting the edicts in use sets their number to one more than the
/// clients (within the engine's `int`) and changes nothing else: the client
/// table, the API version, the edict size and the edict limit stay.
pub proof fn lemma_count_changes_only_edicts_in_use(g: GameState)
    ensures
        i32::MIN <= g.max_clients < i32::MAX ==> g.after_count().num_edicts == g.max_clients + 1,
        g.after_count().max_clients == g.max_clients,
        g.after_count().apiversion == g.apiversion,
        g.after_count().edict_size == g.edict_size,
        g.after_count().max_edicts == g.max_edicts,
{
}

/// A fresh state followed by `init(n)` and the count is version 3, the given
/// edict size, room for 1024 edicts, `n` client slots and `n + 1` edicts in
/// use.
pub proof fn lemma_fresh_init_count(edict_size: i32, n: i32)
    requires
        n < i32::MAX,
    ensures
        ({
            let g = GameState {
                apiversion: GAME_API_VERSION,
                edict_size,
                num_edicts: 0,
                max_edicts: MAX_EDICTS,
                max_clients: 0,
            }.after_init(n).after_count();
            &&& g.apiversion == 3
            &&& g.edict_size == edict_size
            &&& g.max_edicts == 1024
            &&& g.max_clients == n
            &&& g.num_edicts == n + 1
        }),
{
}

/// Number of bytes to ask the engine for when allocating `count` records of
/// `elem_size` bytes each, in the engine's `int` (the product is cut to 32
/// bits as the engine's interface does).
pub fn tag_malloc_bytes(elem_size: usize, count: i32) -> (r: i32)
    requires
        elem_size * (count as usize) <= usize::MAX,
    ensures
        r == (elem_size * (count as usize)) as i32,
{
    (elem_size * (count as usize)) as i32
}

} // verus!
