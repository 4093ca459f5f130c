//! The reaper: the periodic sweep that deletes expired pending records.

use vstd::prelude::*;
use crate::constants::{CONTINUE_TIMEOUT, SHORT_TIMEOUT};
use crate::store::{unexpired, Stores, StoresView};

verus! {

/// What a sweep at second `now` leaves of the stores: in every store of
/// pending records, those that are not expired under the timeout of the
/// flow that owns the store. Escalation grants are no pending records and
/// are left alone.
pub open spec fn swept(s: StoresView, now: u64) -> StoresView {
    StoresView {
        pending_logins: unexpired(s.pending_logins, now, CONTINUE_TIMEOUT),
        pending_mfas: unexpired(s.pending_mfas, now, CONTINUE_TIMEOUT),
        active_escalations: s.active_escalations,
        pending_registers1: unexpired(s.pending_registers1, now, SHORT_TIMEOUT),
        pending_registers2: unexpired(s.pending_registers2, now, SHORT_TIMEOUT),
        pending_mfa_setups: unexpired(s.pending_mfa_setups, now, CONTINUE_TIMEOUT),
        pending_forgots1: unexpired(s.pending_forgots1, now, SHORT_TIMEOUT),
        pending_forgots2: unexpired(s.pending_forgots2, now, SHORT_TIMEOUT),
        pending_updates: unexpired(s.pending_updates, now, SHORT_TIMEOUT),
        pending_passkey_logins: unexpired(s.pending_passkey_logins, now, CONTINUE_TIMEOUT),
        pending_passkey_registers: unexpired(s.pending_passkey_registers, now, CONTINUE_TIMEOUT),
    }
}

/// Sweeps every store of pending records at second `now`. It is the only
/// operation that walks a store in full.
pub fn run(stores: &mut Stores, now: u64)
    ensures
        final(stores)@ == swept(old(stores)@, now),
{
    stores.pending_logins.sweep(now, CONTINUE_TIMEOUT);
    stores.pending_mfas.sweep(now, CONTINUE_TIMEOUT);
    stores.pending_registers1.sweep(now, SHORT_TIMEOUT);
    stores.pending_registers2.sweep(now, SHORT_TIMEOUT);
    stores.pending_mfa_setups.sweep(now, CONTINUE_TIMEOUT);
    stores.pending_forgots1.sweep(now, SHORT_TIMEOUT);
    stores.pending_forgots2.sweep(now, SHORT_TIMEOUT);
    stores.pending_updates.sweep(now, SHORT_TIMEOUT);
    stores.pending_passkey_logins.sweep(now, CONTINUE_TIMEOUT);
    stores.pending_passkey_registers.sweep(now, CONTINUE_TIMEOUT);
}

/// After the reaper has run at second `now`, a pending login that is older
/// than an hour and a pending registration that is older than ten minutes
/// are gone from their stores, and so it is with every other store of
/// pending records under the timeout of its flow.
pub proof fn reaper_leaves_no_expired_record(s: StoresView, now: u64, token: Seq<char>)
    ensures
        swept(s, now).pending_logins.contains_key(token) ==> now - s.pending_logins[token].time()
            <= CONTINUE_TIMEOUT,
        swept(s, now).pending_mfas.contains_key(token) ==> now - s.pending_mfas[token].time()
            <= CONTINUE_TIMEOUT,
        swept(s, now).pending_mfa_setups.contains_key(token) ==> now
            - s.pending_mfa_setups[token].time() <= CONTINUE_TIMEOUT,
        swept(s, now).pending_passkey_logins.contains_key(token) ==> now
            - s.pending_passkey_logins[token].time() <= CONTINUE_TIMEOUT,
        swept(s, now).pending_passkey_registers.contains_key(token) ==> now
            - s.pending_passkey_registers[token].time() <= CONTINUE_TIMEOUT,
        swept(s, now).pending_registers1.contains_key(token) ==> now
            - s.pending_registers1[token].time() <= SHORT_TIMEOUT,
        swept(s, now).pending_registers2.contains_key(token) ==> now
            - s.pending_registers2[token].time() <= SHORT_TIMEOUT,
        swept(s, now).pending_forgots1.contains_key(token) ==> now
            - s.pending_forgots1[token].time() <= SHORT_TIMEOUT,
        swept(s, now).pending_forgots2.contains_key(token) ==> now
            - s.pending_forgots2[token].time() <= SHORT_TIMEOUT,
        swept(s, now).pending_updates.contains_key(token) ==> now - s.pending_updates[token].time()
            <= SHORT_TIMEOUT,
{
}

} // verus!
