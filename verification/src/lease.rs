//! Lease pool: a bounded table of IPv4 address leases. Slot `i` of the
//! pool stands for the address `base + i`, so no two entries can ever
//! share an address by construction; the invariant kept on top of that
//! is that no two occupied slots belong to the same client. Expired
//! entries are reclaimed in place: a slot whose lease has run out may be
//! granted to a new client.

use vstd::prelude::*;

verus! {

/// The well-known lease-service (DHCP server) port.
pub const LEASE_SERVICE_PORT: u16 = 67;

/// Milliseconds to sleep before retrying the bind-and-serve cycle after
/// a protocol or transport error.
pub const LEASE_RETRY_INTERVAL_MS: u64 = 500;

/// One lease: who holds the slot's address, and until when.
#[derive(Clone, Copy, PartialEq, Eq, Structural, Debug)]
pub struct LeaseEntry {
    pub client: u64,
    pub expires_at: u64,
}

/// The slot is held by this client.
pub open spec fn slot_is_client(s: Option<LeaseEntry>, client: u64) -> bool {
    match s {
        Option::Some(e) => e.client == client,
        Option::None => false,
    }
}

/// The slot holds no lease that is still running at `now`.
pub open spec fn slot_reclaimable(s: Option<LeaseEntry>, now: u64) -> bool {
    match s {
        Option::Some(e) => e.expires_at <= now,
        Option::None => true,
    }
}

/// The slot may be granted to `client` at `now`: it is empty, already
/// the client's own, or expired.
pub open spec fn slot_grantable(s: Option<LeaseEntry>, client: u64, now: u64) -> bool {
    slot_reclaimable(s, now) || slot_is_client(s, client)
}

/// Two slots are held by the same client.
pub open spec fn same_client(a: Option<LeaseEntry>, b: Option<LeaseEntry>) -> bool {
    match (a, b) {
        (Option::Some(x), Option::Some(y)) => x.client == y.client,
        _ => false,
    }
}

/// A bounded pool of leases. Capacity is fixed at construction: the
/// slot vector is never grown or shrunk.
pub struct LeasePool {
    pub slots: Vec<Option<LeaseEntry>>,
    pub base: u32,
    pub lease_time_ms: u64,
}

impl LeasePool {
    /// The address slot `i` stands for.
    pub open spec fn spec_addr(self, i: int) -> int {
        self.base + i
    }

    /// Every slot's address fits in 32 bits, and no client holds two
    /// slots.
    pub open spec fn wf(self) -> bool {
        &&& self.base + self.slots@.len() <= u32::MAX + 1
        &&& forall|i: int, j: int|
                0 <= i < j < self.slots@.len()
                    ==> !same_client(#[trigger] self.slots@[i], #[trigger] self.slots@[j])
    }

    /// Some slot may be granted to `client` at `now`.
    pub open spec fn has_room(self, client: u64, now: u64) -> bool {
        exists|i: int|
            0 <= i < self.slots@.len() && #[trigger] slot_grantable(
                self.slots@[i],
                client,
                now,
            )
    }

    /// An empty pool of `capacity` slots for the addresses
    /// `base ..= base + capacity - 1`.
    pub fn new(base: u32, capacity: usize, lease_time_ms: u64) -> (p: LeasePool)
        requires
            base + capacity <= u32::MAX + 1,
        ensures
            p.wf(),
            p.base == base,
            p.lease_time_ms == lease_time_ms,
            p.slots@.len() == capacity,
            forall|i: int| 0 <= i < capacity ==> #[trigger] p.slots@[i] is None,
    {
        let mut slots: Vec<Option<LeaseEntry>> = Vec::new();
        let mut k: usize = 0;
        while k < capacity
            invariant
                k <= capacity,
                slots@.len() == k,
                forall|i: int| 0 <= i < k ==> #[trigger] slots@[i] is None,
            decreases capacity - k,
        {
            slots.push(Option::None);
            k = k + 1;
        }
        LeasePool { slots, base, lease_time_ms }
    }

    /// Grant `client` an address at `now`, or renew the one it already
    /// holds. A slot is taken only if it is empty, expired, or already
    /// the client's own — never one another client's running lease
    /// occupies — and the grant succeeds exactly when such a slot
    /// exists. On success the whole pool is unchanged but for that one
    /// slot.
    pub fn allocate(&mut self, client: u64, now: u64) -> (r: Option<u32>)
        requires
            old(self).wf(),
            now + old(self).lease_time_ms <= u64::MAX,
        ensures
            final(self).wf(),
            final(self).base == old(self).base,
            final(self).lease_time_ms == old(self).lease_time_ms,
            final(self).slots@.len() == old(self).slots@.len(),
            r is Some <==> old(self).has_room(client, now),
            match r {
                Option::Some(a) => exists|i: int|
                    0 <= i < old(self).slots@.len() && a == old(self).base + i
                        && slot_grantable(#[trigger] old(self).slots@[i], client, now)
                        && final(self).slots@ == old(self).slots@.update(
                        i,
                        Option::Some(
                            LeaseEntry {
                                client,
                                expires_at: (now + old(self).lease_time_ms) as u64,
                            },
                        ),
                    ),
                Option::None => final(self).slots@ == old(self).slots@,
            },
    {
        let expires_at: u64 = now + self.lease_time_ms;
        let entry = LeaseEntry { client, expires_at };
        let n = self.slots.len();

        // First pass: renew the client's own slot if it has one.
        let mut i: usize = 0;
        while i < n
            invariant
                *self == *old(self),
                n == self.slots@.len(),
                i <= n,
                entry == (LeaseEntry {
                    client,
                    expires_at: (now + self.lease_time_ms) as u64,
                }),
                old(self).wf(),
                now + old(self).lease_time_ms <= u64::MAX,
                forall|k: int| 0 <= k < i ==> !slot_is_client(#[trigger] self.slots@[k], client),
            decreases n - i,
        {
            if let Option::Some(e) = self.slots[i] {
                if e.client == client {
                    proof {
                        assert(forall|j: int|
                            0 <= j < self.slots@.len() && j != i ==> !same_client(
                                #[trigger] self.slots@[j],
                                self.slots@[i as int],
                            ));
                        assert(slot_grantable(old(self).slots@[i as int], client, now));
                    }
                    self.slots.set(i, Option::Some(entry));
                    return Option::Some(self.base + i as u32);
                }
            }
            i = i + 1;
        }

        // Second pass: take the first empty or expired slot.
        let mut j: usize = 0;
        while j < n
            invariant
                *self == *old(self),
                n == self.slots@.len(),
                j <= n,
                entry == (LeaseEntry {
                    client,
                    expires_at: (now + self.lease_time_ms) as u64,
                }),
                old(self).wf(),
                now + old(self).lease_time_ms <= u64::MAX,
                forall|k: int| 0 <= k < n ==> !slot_is_client(#[trigger] self.slots@[k], client),
                forall|k: int| 0 <= k < j ==> !slot_reclaimable(#[trigger] self.slots@[k], now),
            decreases n - j,
        {
            let take = match self.slots[j] {
                Option::None => true,
                Option::Some(e) => e.expires_at <= now,
            };
            if take {
                proof {
                    assert(slot_grantable(old(self).slots@[j as int], client, now));
                }
                self.slots.set(j, Option::Some(entry));
                return Option::Some(self.base + j as u32);
            }
            j = j + 1;
        }

        proof {
            assert(forall|k: int|
                0 <= k < self.slots@.len() ==> !slot_grantable(
                    #[trigger] self.slots@[k],
                    client,
                    now,
                ));
        }
        Option::None
    }

    /// Give up the client's lease, if it holds one. At most one slot is
    /// cleared; every other slot is untouched.
    pub fn release(&mut self, client: u64) -> (found: bool)
        requires
            old(self).wf(),
        ensures
            final(self).wf(),
            final(self).base == old(self).base,
            final(self).lease_time_ms == old(self).lease_time_ms,
            final(self).slots@.len() == old(self).slots@.len(),
            found <==> exists|i: int|
                0 <= i < old(self).slots@.len() && slot_is_client(
                    #[trigger] old(self).slots@[i],
                    client,
                ),
            if found {
                exists|i: int|
                    0 <= i < old(self).slots@.len() && slot_is_client(
                        #[trigger] old(self).slots@[i],
                        client,
                    ) && final(self).slots@ == old(self).slots@.update(i, Option::<LeaseEntry>::None)
            } else {
                final(self).slots@ == old(self).slots@
            },
    {
        let n = self.slots.len();
        let mut i: usize = 0;
        while i < n
            invariant
                *self == *old(self),
                n == self.slots@.len(),
                i <= n,
                old(self).wf(),
                forall|k: int| 0 <= k < i ==> !slot_is_client(#[trigger] self.slots@[k], client),
            decreases n - i,
        {
            if let Option::Some(e) = self.slots[i] {
                if e.client == client {
                    self.slots.set(i, Option::None);
                    return true;
                }
            }
            i = i + 1;
        }
        false
    }

    /// No two slots — active or not — ever stand for the same address:
    /// two concurrently active entries in particular never share one.
    pub proof fn lemma_active_addresses_distinct(self, i: int, j: int)
        requires
            self.wf(),
            0 <= i < self.slots@.len(),
            0 <= j < self.slots@.len(),
            i != j,
        ensures
            self.spec_addr(i) != self.spec_addr(j),
    {
    }

    /// Expired entries are reassignable: a pool holding an expired or
    /// empty slot always has room for any client.
    pub proof fn lemma_expired_entry_reassignable(self, i: int, client: u64, now: u64)
        requires
            self.wf(),
            0 <= i < self.slots@.len(),
            slot_reclaimable(self.slots@[i], now),
        ensures
            self.has_room(client, now),
    {
        assert(slot_grantable(self.slots@[i], client, now));
    }
}


/// The lease service's settings: the device's own address is all it
/// takes, for it advertises itself as both lease authority and default
/// gateway.
pub struct LeaseServerConfig {
    pub own_addr: u32,
}

impl LeaseServerConfig {
    /// The gateway/router metadata reported to clients: always the
    /// device's own configured address.
    pub fn advertised_gateway(&self) -> (g: u32)
        ensures
            g == self.own_addr,
    {
        self.own_addr
    }

    /// The lease authority reported to clients: likewise the device
    /// itself.
    pub fn advertised_authority(&self) -> (a: u32)
        ensures
            a == self.own_addr,
    {
        self.own_addr
    }
}

/// Where the lease-serving loop stands.
#[derive(Clone, Copy, PartialEq, Eq, Structural, Debug)]
pub enum LeaseServerPhase {
    /// Binding the connectionless endpoint on the lease-service port.
    Binding,
    /// Running the protocol handler against the bound endpoint.
    Serving,
    /// Sleeping out the retry interval after an error.
    Backoff,
}

/// What the runtime observed while performing the pending action.
#[derive(Clone, Copy, PartialEq, Eq, Structural, Debug)]
pub enum LeaseServerEvent {
    BindOk,
    BindFailed,
    /// The protocol handler returned with an error; malformed client
    /// input never reaches this — it is dropped inside the handler.
    ServeFailed,
    BackoffElapsed,
}

/// The single thing the runtime must do next.
#[derive(Clone, Copy, PartialEq, Eq, Structural, Debug)]
pub enum LeaseServerAction {
    /// Bind on `LEASE_SERVICE_PORT`.
    Bind,
    /// Run the protocol handler until it errs.
    Serve,
    /// Sleep `LEASE_RETRY_INTERVAL_MS`.
    Sleep,
}

/// The action each phase is waiting on.
pub open spec fn lease_pending_action(p: LeaseServerPhase) -> LeaseServerAction {
    match p {
        LeaseServerPhase::Binding => LeaseServerAction::Bind,
        LeaseServerPhase::Serving => LeaseServerAction::Serve,
        LeaseServerPhase::Backoff => LeaseServerAction::Sleep,
    }
}

/// The serve loop's transition table: errors send the whole
/// bind-and-serve cycle through one backoff sleep — recovery is of the
/// cycle, not of single packets — and nothing ever stops the loop.
pub open spec fn spec_lease_step(p: LeaseServerPhase, e: LeaseServerEvent) -> (
    LeaseServerPhase,
    LeaseServerAction,
) {
    match (p, e) {
        (LeaseServerPhase::Binding, LeaseServerEvent::BindOk) => (
            LeaseServerPhase::Serving,
            LeaseServerAction::Serve,
        ),
        (LeaseServerPhase::Binding, LeaseServerEvent::BindFailed) => (
            LeaseServerPhase::Backoff,
            LeaseServerAction::Sleep,
        ),
        (LeaseServerPhase::Serving, LeaseServerEvent::ServeFailed) => (
            LeaseServerPhase::Backoff,
            LeaseServerAction::Sleep,
        ),
        (LeaseServerPhase::Backoff, LeaseServerEvent::BackoffElapsed) => (
            LeaseServerPhase::Binding,
            LeaseServerAction::Bind,
        ),
        _ => (p, lease_pending_action(p)),
    }
}

/// The lease server's loop state.
pub struct LeaseServer {
    pub phase: LeaseServerPhase,
}

impl LeaseServer {
    pub fn new() -> (s: LeaseServer)
        ensures
            s.phase == LeaseServerPhase::Binding,
    {
        LeaseServer { phase: LeaseServerPhase::Binding }
    }

    /// Consume one event; answer with the next action.
    pub fn step(&mut self, event: &LeaseServerEvent) -> (a: LeaseServerAction)
        ensures
            (final(self).phase, a) == spec_lease_step(old(self).phase, *event),
    {
        let (p, a) = match (self.phase, *event) {
            (LeaseServerPhase::Binding, LeaseServerEvent::BindOk) => (
                LeaseServerPhase::Serving,
                LeaseServerAction::Serve,
            ),
            (LeaseServerPhase::Binding, LeaseServerEvent::BindFailed) => (
                LeaseServerPhase::Backoff,
                LeaseServerAction::Sleep,
            ),
            (LeaseServerPhase::Serving, LeaseServerEvent::ServeFailed) => (
                LeaseServerPhase::Backoff,
                LeaseServerAction::Sleep,
            ),
            (LeaseServerPhase::Backoff, LeaseServerEvent::BackoffElapsed) => (
                LeaseServerPhase::Binding,
                LeaseServerAction::Bind,
            ),
            (p, _) => (
                p,
                match p {
                    LeaseServerPhase::Binding => LeaseServerAction::Bind,
                    LeaseServerPhase::Serving => LeaseServerAction::Serve,
                    LeaseServerPhase::Backoff => LeaseServerAction::Sleep,
                },
            ),
        };
        self.phase = p;
        a
    }
}

/// Every error, wherever in the cycle it strikes, takes exactly one
/// backoff sleep before the cycle binds and serves again: the server
/// never dies and never spins.
pub proof fn lemma_error_recovery_cycles(p0: LeaseServerPhase, e: LeaseServerEvent)
    requires
        e is BindFailed || e is ServeFailed,
    ensures
        ({
            let (p1, a1) = spec_lease_step(p0, e);
            &&& (p1 is Backoff) ==> ({
                let (p2, a2) = spec_lease_step(p1, LeaseServerEvent::BackoffElapsed);
                let (p3, a3) = spec_lease_step(p2, LeaseServerEvent::BindOk);
                a2 == LeaseServerAction::Bind && p3 is Serving && a3 == LeaseServerAction::Serve
            })
        }),
{
}

} // verus!
