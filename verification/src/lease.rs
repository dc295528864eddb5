//! The blob-ledger lease manager.
//!
//! A ledger whose state is a single blob doubles as an exclusive lock: the
//! payload is stored together with a 64-bit lease identifier (`0` meaning "no
//! lease held"), and every acquisition, renewal, theft, and release is one
//! compare-and-swap push on the ledger. Safety comes from the push alone —
//! two holders cannot both advance the same tip — while the lease exists only
//! for liveness: a waiter that has watched the same lease go unrenewed for
//! the configured duration may steal it.
//!
//! The polling decisions of the acquisition loop live in `poll_decision`; a
//! caller that drives a real remote performs the fetches and sleeps itself
//! and feeds the observations back in. The guard operations are verified
//! against the ledger model, which describes every remote interaction through
//! the spec-level transitions of `crate::ledger`.

use vstd::prelude::*;

use crate::codec::CodecError;
use crate::codec::LedgerTree;
use crate::codec::TreeEntryV;
use crate::codec::decode;
use crate::codec::encode;
use crate::codec::lemma_codec_round_trip;
use crate::codec::spec_decode;
use crate::codec::spec_encode;
use crate::ledger::ModelCommitV;
use crate::ledger::RemoteLedger;
use crate::ledger::chain_ok;
use crate::ledger::lemma_monotonic_history;
use crate::ledger::push_next;
use crate::ledger::tip_of;

verus! {

// ---------------------------------------------------------------------------
// Timing configuration and the polling decision
// ---------------------------------------------------------------------------

/// Timing configuration of the lease manager: how often to poll a held
/// ledger, and how long a lease may go unrenewed before it may be stolen.
#[derive(Clone, Copy, Debug, PartialEq, Eq, Structural)]
pub struct LeaseConfig {
    pub poll_ms: u64,
    pub lease_ms: u64,
}

impl LeaseConfig {
    /// A configuration that polls every `poll_ms` and steals a lease left
    /// unrenewed for `lease_ms`.
    pub fn new(poll_ms: u64, lease_ms: u64) -> (r: LeaseConfig)
        ensures
            r.poll_ms == poll_ms,
            r.lease_ms == lease_ms,
    {
        LeaseConfig { poll_ms, lease_ms }
    }
}

/// What the acquisition loop does next after one fetch of the remote lease.
#[derive(Clone, Copy, Debug, PartialEq, Eq, Structural)]
pub enum PollStep {
    /// Exit the polling loop and claim the ledger now.
    Claim,
    /// Keep waiting: remember `observed` as the lease being waited on,
    /// restart the wait timer if `reset`, and sleep `sleep_ms` before the
    /// next poll.
    Wait { observed: u64, reset: bool, sleep_ms: u64 },
}

/// The smaller of two durations.
pub open spec fn spec_min(a: u64, b: u64) -> u64 {
    if a <= b {
        a
    } else {
        b
    }
}

/// The decision of the polling loop, given the lease just fetched, the lease
/// it has been waiting on, and the time waited so far: a free ledger is
/// claimed at once; a lease that changed hands restarts the wait; a lease
/// unrenewed for the whole lease duration is stolen; otherwise the loop
/// sleeps until the next poll, but never past the lease's expiry.
pub open spec fn spec_poll_step(
    remote_lease: u64,
    observed_lease: u64,
    elapsed_ms: u64,
    cfg: LeaseConfig,
) -> PollStep {
    if remote_lease == 0 {
        PollStep::Claim
    } else {
        let eff = if remote_lease == observed_lease {
            elapsed_ms
        } else {
            0
        };
        if eff >= cfg.lease_ms {
            PollStep::Claim
        } else {
            PollStep::Wait {
                observed: remote_lease,
                reset: remote_lease != observed_lease,
                sleep_ms: spec_min(cfg.poll_ms, (cfg.lease_ms - eff) as u64),
            }
        }
    }
}

/// One polling decision of the acquisition loop.
pub fn poll_decision(remote_lease: u64, observed_lease: u64, elapsed_ms: u64, cfg: &LeaseConfig) -> (r:
    PollStep)
    ensures
        r == spec_poll_step(remote_lease, observed_lease, elapsed_ms, *cfg),
        remote_lease == 0 ==> r == PollStep::Claim,
        remote_lease == observed_lease && elapsed_ms >= cfg.lease_ms ==> r == PollStep::Claim,
{
    if remote_lease == 0 {
        return PollStep::Claim;
    }
    let eff = if remote_lease == observed_lease {
        elapsed_ms
    } else {
        0
    };
    if eff >= cfg.lease_ms {
        PollStep::Claim
    } else {
        let remaining = cfg.lease_ms - eff;
        let sleep_ms = if cfg.poll_ms <= remaining {
            cfg.poll_ms
        } else {
            remaining
        };
        PollStep::Wait { observed: remote_lease, reset: remote_lease != observed_lease, sleep_ms }
    }
}

/// Theft after timeout: once the same nonzero lease has been observed
/// unrenewed for at least the configured lease duration, the next poll
/// claims the ledger. That the claim hands back the last-persisted payload
/// is stated by `steal`; the wall-clock bound on when a waiter reaches this
/// point depends on its clock and sleeps, which live with the caller.
pub proof fn lemma_theft_after_timeout(
    remote_lease: u64,
    observed_lease: u64,
    elapsed_ms: u64,
    cfg: LeaseConfig,
)
    requires
        remote_lease == observed_lease,
        elapsed_ms >= cfg.lease_ms,
    ensures
        spec_poll_step(remote_lease, observed_lease, elapsed_ms, cfg) == PollStep::Claim,
{
}

// ---------------------------------------------------------------------------
// Fresh leases
// ---------------------------------------------------------------------------

/// Relies on `rand::random`: a value drawn from the thread-local generator.
/// Nothing is promised of the result.
#[verifier::external_body]
fn random_u64() -> u64 {
    rand::random::<u64>()
}

/// A fresh nonzero lease identifier, drawn at random. A zero draw — which
/// would read as "no lease held" — is redrawn; after a bounded run of zero
/// draws the identifier falls back to `1`.
pub fn fresh_lease() -> (r: u64)
    ensures
        r != 0,
{
    let mut tries: usize = 0;
    while tries < 16
        invariant
            tries <= 16,
        decreases 16 - tries,
    {
        let x = random_u64();
        if x != 0 {
            return x;
        }
        tries = tries + 1;
    }
    1
}

// ---------------------------------------------------------------------------
// The decoded state of a ledger
// ---------------------------------------------------------------------------

/// What a fetch of a ledger with history `h` decodes to: an absent branch
/// reads as an empty payload with no lease; otherwise the tip commit's tree
/// is decoded.
pub open spec fn ledger_state(h: Seq<ModelCommitV>) -> Result<(Seq<u8>, u64), CodecError> {
    if h.len() == 0 {
        Ok((Seq::empty(), 0))
    } else {
        spec_decode(h.last().tree)
    }
}

/// The tip commit's tree, if any, has at least one entry. Every tree this
/// protocol pushes has exactly one; an empty tree is a foreign state the
/// decoder does not accept.
pub open spec fn tip_tree_present(h: Seq<ModelCommitV>) -> bool {
    h.len() > 0 ==> h.last().tree.len() >= 1
}

/// Fetch and decode the current state of a ledger: the tip commit (absent
/// when no branch exists), the payload, and the lease it carries.
pub fn fetch_state(remote: &RemoteLedger) -> (r: Result<(Option<u64>, Vec<u8>, u64), CodecError>)
    requires
        remote.wf(),
        tip_tree_present(remote@),
    ensures
        match r {
            Ok(p) => ledger_state(remote@) == Ok::<(Seq<u8>, u64), CodecError>((p.1@, p.2)) && p.0
                == tip_of(remote@),
            Err(e) => ledger_state(remote@) == Err::<(Seq<u8>, u64), CodecError>(e),
        },
{
    match remote.fetch() {
        None => Ok((None, Vec::new(), 0)),
        Some((id, tree)) => match decode(tree) {
            Err(e) => Err(e),
            Ok((data, lease)) => Ok((Some(id), data, lease)),
        },
    }
}

// ---------------------------------------------------------------------------
// The guard
// ---------------------------------------------------------------------------

/// Why a guard operation failed.
#[derive(Clone, Copy, Debug, PartialEq, Eq, Structural)]
pub enum LeaseError {
    /// The compare-and-swap push was rejected: some other party advanced the
    /// ledger past this guard's commit, so the lease is lost and the guard is
    /// no longer valid.
    LostLease,
}

/// Why an acquisition attempt did not produce a guard.
#[derive(Clone, Copy, Debug, PartialEq, Eq, Structural)]
pub enum AcquireError {
    /// The ledger carries this nonzero lease; the caller must wait for it to
    /// be released or to expire.
    Held(u64),
    /// The tip tree did not decode.
    Format(CodecError),
}

/// Mathematical image of a guard.
#[verifier::ext_equal]
pub struct LeaseGuardV {
    pub lease: u64,
    pub commit: u64,
    pub data: Seq<u8>,
}

/// An acquired lease: the holder's current lease identifier, the commit its
/// last successful push produced, and the payload as of that push. Every
/// mutation is a compare-and-swap push against that commit, so any third
/// party that advanced the ledger in the meantime makes the next operation
/// fail with a lost lease.
#[derive(Clone)]
pub struct LeaseGuard {
    lease: u64,
    commit: u64,
    data: Vec<u8>,
}

impl View for LeaseGuard {
    type V = LeaseGuardV;

    closed spec fn view(&self) -> LeaseGuardV {
        LeaseGuardV { lease: self.lease, commit: self.commit, data: self.data@ }
    }
}

impl LeaseGuard {
    /// The payload cached at the last successful push.
    pub fn data(&self) -> (r: &[u8])
        ensures
            r@ == self@.data,
    {
        self.data.as_slice()
    }

    /// Replace the payload and rotate to the caller's fresh lease, by a
    /// compare-and-swap push against the commit this guard last produced.
    /// Accepted exactly when that commit is still the tip; rejection means
    /// the lease is lost, and leaves the ledger untouched.
    pub fn update(&mut self, remote: &mut RemoteLedger, new_data: &[u8], new_lease: u64) -> (r:
        Result<(), LeaseError>)
        requires
            new_lease != 0,
            old(remote).wf(),
            old(remote)@.len() < u64::MAX,
        ensures
            final(remote).wf(),
            r is Ok <==> tip_of(old(remote)@) == Some(old(self)@.commit),
            r is Ok ==> final(remote)@ == push_next(old(remote)@, spec_encode(new_data@, new_lease))
                && final(self)@ == (LeaseGuardV {
                lease: new_lease,
                commit: (old(remote)@.len() + 1) as u64,
                data: new_data@,
            }),
            r is Err ==> final(remote)@ == old(remote)@ && final(self)@ == (LeaseGuardV {
                lease: new_lease,
                ..old(self)@
            }),
    {
        self.lease = new_lease;
        let tb = encode(new_data, new_lease);
        match remote.push(Some(self.commit), tb) {
            Some(id) => {
                self.commit = id;
                self.data = vstd::slice::slice_to_vec(new_data);
                Ok(())
            },
            None => Err(LeaseError::LostLease),
        }
    }

    /// Renew the lease: keep the payload, rotate to the caller's fresh
    /// lease. The push advances the tip, which both signals liveness to
    /// waiters and invalidates the compare-and-swap parent of any party
    /// working from the old tip.
    pub fn renew(&mut self, remote: &mut RemoteLedger, new_lease: u64) -> (r: Result<
        (),
        LeaseError,
    >)
        requires
            new_lease != 0,
            old(remote).wf(),
            old(remote)@.len() < u64::MAX,
        ensures
            final(remote).wf(),
            r is Ok <==> tip_of(old(remote)@) == Some(old(self)@.commit),
            r is Ok ==> final(remote)@ == push_next(
                old(remote)@,
                spec_encode(old(self)@.data, new_lease),
            ) && final(self)@ == (LeaseGuardV {
                lease: new_lease,
                commit: (old(remote)@.len() + 1) as u64,
                data: old(self)@.data,
            }),
            r is Err ==> final(remote)@ == old(remote)@ && final(self)@ == (LeaseGuardV {
                lease: new_lease,
                ..old(self)@
            }),
    {
        self.lease = new_lease;
        let tb = encode(self.data.as_slice(), new_lease);
        match remote.push(Some(self.commit), tb) {
            Some(id) => {
                self.commit = id;
                Ok(())
            },
            None => Err(LeaseError::LostLease),
        }
    }

    /// Release the lease: push the cached payload back with lease `0`.
    /// Accepted exactly when this guard's commit is still the tip.
    pub fn release(self, remote: &mut RemoteLedger) -> (r: Result<(), LeaseError>)
        requires
            old(remote).wf(),
            old(remote)@.len() < u64::MAX,
        ensures
            final(remote).wf(),
            r is Ok <==> tip_of(old(remote)@) == Some(self@.commit),
            r is Ok ==> final(remote)@ == push_next(old(remote)@, spec_encode(self@.data, 0)),
            r is Err ==> final(remote)@ == old(remote)@,
    {
        let tb = encode(self.data.as_slice(), 0);
        match remote.push(Some(self.commit), tb) {
            Some(_) => Ok(()),
            None => Err(LeaseError::LostLease),
        }
    }

    /// Write a final payload and release the lease in one push: the ledger
    /// is left carrying `new_data` with lease `0`.
    pub fn update_and_release(self, remote: &mut RemoteLedger, new_data: &[u8]) -> (r: Result<
        (),
        LeaseError,
    >)
        requires
            old(remote).wf(),
            old(remote)@.len() < u64::MAX,
        ensures
            final(remote).wf(),
            r is Ok <==> tip_of(old(remote)@) == Some(self@.commit),
            r is Ok ==> final(remote)@ == push_next(old(remote)@, spec_encode(new_data@, 0)),
            r is Err ==> final(remote)@ == old(remote)@,
    {
        let tb = encode(new_data, 0);
        match remote.push(Some(self.commit), tb) {
            Some(_) => Ok(()),
            None => Err(LeaseError::LostLease),
        }
    }
}

// ---------------------------------------------------------------------------
// Acquisition
// ---------------------------------------------------------------------------

/// Claim the ledger regardless of the lease it carries — the theft path,
/// taken once `poll_decision` says `Claim`: the observed payload is kept and
/// put under the caller's fresh lease.
pub fn steal(remote: &mut RemoteLedger, new_lease: u64) -> (r: Result<LeaseGuard, CodecError>)
    requires
        new_lease != 0,
        old(remote).wf(),
        old(remote)@.len() < u64::MAX,
        tip_tree_present(old(remote)@),
    ensures
        final(remote).wf(),
        match r {
            Ok(g) => ledger_state(old(remote)@) matches Ok(s) && g@ == (LeaseGuardV {
                lease: new_lease,
                commit: (old(remote)@.len() + 1) as u64,
                data: s.0,
            }) && final(remote)@ == push_next(old(remote)@, spec_encode(s.0, new_lease)),
            Err(e) => ledger_state(old(remote)@) == Err::<(Seq<u8>, u64), CodecError>(e)
                && final(remote)@ == old(remote)@,
        },
{
    let (commit, data, _lease) = match fetch_state(remote) {
        Err(e) => {
            return Err(e);
        },
        Ok(p) => p,
    };
    let tb = encode(data.as_slice(), new_lease);
    match remote.push(commit, tb) {
        Some(id) => Ok(LeaseGuard { lease: new_lease, commit: id, data }),
        None => {
            // The push names the tip just fetched, and nothing moved it in
            // between: rejection is impossible here.
            proof {
                assert(false);
            }
            Err(CodecError::BadEntryName)
        },
    }
}

/// One acquisition attempt: fetch and decode the ledger, and claim it if no
/// lease is held, keeping the observed payload under the caller's fresh
/// lease. A held ledger is reported with the lease seen; the caller decides,
/// through `poll_decision`, whether to wait or to steal.
pub fn try_acquire(remote: &mut RemoteLedger, new_lease: u64) -> (r: Result<
    LeaseGuard,
    AcquireError,
>)
    requires
        new_lease != 0,
        old(remote).wf(),
        old(remote)@.len() < u64::MAX,
        tip_tree_present(old(remote)@),
    ensures
        final(remote).wf(),
        match r {
            Ok(g) => ledger_state(old(remote)@) matches Ok(s) && s.1 == 0 && g@ == (LeaseGuardV {
                lease: new_lease,
                commit: (old(remote)@.len() + 1) as u64,
                data: s.0,
            }) && final(remote)@ == push_next(old(remote)@, spec_encode(s.0, new_lease)),
            Err(AcquireError::Held(l)) => l != 0 && (ledger_state(old(remote)@) matches Ok(s)
                && s.1 == l) && final(remote)@ == old(remote)@,
            Err(AcquireError::Format(e)) => ledger_state(old(remote)@) == Err::<
                (Seq<u8>, u64),
                CodecError,
            >(e) && final(remote)@ == old(remote)@,
        },
{
    let lease = match fetch_state(remote) {
        Err(e) => {
            return Err(AcquireError::Format(e));
        },
        Ok(p) => p.2,
    };
    if lease != 0 {
        return Err(AcquireError::Held(lease));
    }
    match steal(remote, new_lease) {
        Ok(g) => Ok(g),
        Err(e) => Err(AcquireError::Format(e)),
    }
}

// ---------------------------------------------------------------------------
// Laws of the lease protocol
// ---------------------------------------------------------------------------

/// Lost-lease detection: when some party's push lands on the tip a guard has
/// cached — a renew, an update, or a release — the tip moves past that
/// commit, so every other guard that cached the same tip has its next
/// compare-and-swap rejected.
pub proof fn lemma_lost_lease_detection(h: Seq<ModelCommitV>, c: u64, tree: Seq<TreeEntryV>)
    requires
        chain_ok(h),
        h.len() < u64::MAX,
        tip_of(h) == Some(c),
    ensures
        tip_of(push_next(h, tree)) != Some(c),
{
    assert(h.last().id == h.len());
}

/// Update-and-release leaves no lease behind: from any state, the history
/// `update_and_release(x)` produces reads as payload `x` with lease `0`, so
/// a fresh acquisition claims at once and comes back holding `x` under its
/// new nonzero lease.
pub proof fn lemma_update_and_release_enables_lock(
    h: Seq<ModelCommitV>,
    x: Seq<u8>,
    new_lease: u64,
)
    requires
        chain_ok(h),
        h.len() + 1 < u64::MAX,
        new_lease != 0,
    ensures
        ({
            let released = push_next(h, spec_encode(x, 0));
            let acquired = push_next(released, spec_encode(x, new_lease));
            &&& ledger_state(released) == Ok::<(Seq<u8>, u64), CodecError>((x, 0))
            &&& chain_ok(released)
            &&& ledger_state(acquired) == Ok::<(Seq<u8>, u64), CodecError>((x, new_lease))
        }),
{
    lemma_monotonic_history(h, spec_encode(x, 0));
    lemma_codec_round_trip(x, 0);
    lemma_monotonic_history(push_next(h, spec_encode(x, 0)), spec_encode(x, new_lease));
    lemma_codec_round_trip(x, new_lease);
}

} // verus!
