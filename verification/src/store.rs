//! The pending-session store: a registry of short-lived records, each
//! reachable only through its continuation token.
//!
//! The registry itself is a `dashmap::DashMap`. Its methods are called
//! through the private functions at the end of this file, whose contracts
//! are taken on trust; everything else here is proved from them.

use vstd::prelude::*;
use dashmap::DashMap;
use crate::routes::forgot::{PendingForgot, PendingForgotView};
use crate::routes::login::{
    ActiveEscalation, ActiveEscalationView, PendingLogin, PendingLoginView, PendingMfa,
    PendingMfaView,
};
use crate::routes::mfa::{PendingMfaSetup, PendingMfaSetupView};
use crate::routes::register::{PendingRegister, PendingRegisterView};
use crate::routes::update_password::{PendingUpdate, PendingUpdateView};

verus! {

/// `dashmap::DashMap`. Nothing is known of a value of it but what
/// [`entries`] names.
#[verifier::external_type_specification]
#[verifier::external_body]
#[verifier::reject_recursive_types(K)]
#[verifier::reject_recursive_types(V)]
#[verifier::reject_recursive_types(S)]
pub struct ExDashMap<K, V, S>(DashMap<K, V, S>);

/// A record of an unfinished ceremony, one variant per flow.
#[derive(Clone, Debug, PartialEq, Eq)]
pub enum Pending {
    Register(PendingRegister),
    Login(PendingLogin),
    Mfa(PendingMfa),
    Escalation(ActiveEscalation),
    PasskeyLogin(crate::routes::login_passkey::PendingLogin),
    PasskeyRegister(crate::routes::register_passkey::PendingRegister),
    MfaSetup(PendingMfaSetup),
    Forgot(PendingForgot),
    Update(PendingUpdate),
}

/// Mathematical content of a [`Pending`].
pub ghost enum PendingView {
    Register(PendingRegisterView),
    Login(PendingLoginView),
    Mfa(PendingMfaView),
    Escalation(ActiveEscalationView),
    PasskeyLogin(crate::routes::login_passkey::PendingLoginView),
    PasskeyRegister(crate::routes::register_passkey::PendingRegisterView),
    MfaSetup(PendingMfaSetupView),
    Forgot(PendingForgotView),
    Update(PendingUpdateView),
}

impl PendingView {
    /// Second at which the record was created.
    pub open spec fn time(self) -> u64 {
        match self {
            PendingView::Register(p) => p.time,
            PendingView::Login(p) => p.time,
            PendingView::Mfa(p) => p.time,
            PendingView::Escalation(p) => p.time,
            PendingView::PasskeyLogin(p) => p.time,
            PendingView::PasskeyRegister(p) => p.time,
            PendingView::MfaSetup(p) => p.time,
            PendingView::Forgot(p) => p.time,
            PendingView::Update(p) => p.time,
        }
    }
}

impl View for Pending {
    type V = PendingView;

    open spec fn view(&self) -> PendingView {
        match self {
            Pending::Register(p) => PendingView::Register(p@),
            Pending::Login(p) => PendingView::Login(p@),
            Pending::Mfa(p) => PendingView::Mfa(p@),
            Pending::Escalation(p) => PendingView::Escalation(p@),
            Pending::PasskeyLogin(p) => PendingView::PasskeyLogin(p@),
            Pending::PasskeyRegister(p) => PendingView::PasskeyRegister(p@),
            Pending::MfaSetup(p) => PendingView::MfaSetup(p@),
            Pending::Forgot(p) => PendingView::Forgot(p@),
            Pending::Update(p) => PendingView::Update(p@),
        }
    }
}

impl Pending {
    /// Second at which the record was created.
    pub fn time(&self) -> (t: u64)
        ensures
            t == self@.time(),
    {
        match self {
            Pending::Register(p) => p.time,
            Pending::Login(p) => p.time,
            Pending::Mfa(p) => p.time,
            Pending::Escalation(p) => p.time,
            Pending::PasskeyLogin(p) => p.time,
            Pending::PasskeyRegister(p) => p.time,
            Pending::MfaSetup(p) => p.time,
            Pending::Forgot(p) => p.time,
            Pending::Update(p) => p.time,
        }
    }
}

/// Content of an optional record.
pub open spec fn pending_opt(o: Option<Pending>) -> Option<PendingView> {
    match o {
        Some(p) => Some(p@),
        None => None,
    }
}

/// A store as a map from token to record.
pub type Records = Map<Seq<char>, PendingView>;

/// A record created at `created` is expired at `now` under `timeout` when
/// its age, `now - created`, exceeds the timeout.
pub open spec fn expired(now: u64, created: u64, timeout: u64) -> bool {
    now - created > timeout
}

/// The record that an access at `now` finds under `token`: the stored one,
/// unless it is expired under `timeout`.
pub open spec fn live(m: Records, token: Seq<char>, now: u64, timeout: u64) -> Option<PendingView> {
    if m.contains_key(token) && !expired(now, m[token].time(), timeout) {
        Some(m[token])
    } else {
        None
    }
}

/// What an access at `now` leaves of the store: the record under `token`
/// is deleted where it is expired, and nothing else changes.
pub open spec fn after_access(m: Records, token: Seq<char>, now: u64, timeout: u64) -> Records {
    if m.contains_key(token) && expired(now, m[token].time(), timeout) {
        m.remove(token)
    } else {
        m
    }
}

/// The records that are not expired at `now` under `timeout`.
pub open spec fn unexpired(m: Records, now: u64, timeout: u64) -> Records {
    Map::new(
        |k: Seq<char>| m.contains_key(k) && !expired(now, m[k].time(), timeout),
        |k: Seq<char>| m[k],
    )
}

/// A record that is expired stays expired: no later reading of the clock
/// brings it back.
pub proof fn expiry_is_monotonic(now: u64, later: u64, created: u64, timeout: u64)
    requires
        expired(now, created, timeout),
        now <= later,
    ensures
        expired(later, created, timeout),
{
}

/// A record that is older than its flow's timeout is rejected by the next
/// access, whether or not a sweep has run, and that access deletes it.
pub proof fn expired_record_is_rejected(m: Records, token: Seq<char>, now: u64, timeout: u64)
    requires
        m.contains_key(token),
        now - m[token].time() > timeout,
    ensures
        live(m, token, now, timeout) is None,
        !after_access(m, token, now, timeout).contains_key(token),
{
}

/// After a sweep the store holds no record that is older than the timeout,
/// and every record that is not older is still there, unchanged.
pub proof fn sweep_leaves_the_unexpired(m: Records, token: Seq<char>, now: u64, timeout: u64)
    ensures
        unexpired(m, now, timeout).contains_key(token) <==> m.contains_key(token) && now
            - m[token].time() <= timeout,
        unexpired(m, now, timeout).contains_key(token) ==> unexpired(m, now, timeout)[token]
            == m[token],
{
}

/// A token whose record was removed finds nothing, at whatever time and
/// under whatever timeout.
pub proof fn removed_token_is_not_live(m: Records, token: Seq<char>, now: u64, timeout: u64)
    ensures
        live(m.remove(token), token, now, timeout) is None,
        after_access(m.remove(token), token, now, timeout) == m.remove(token),
{
}

/// Whether a record created at `created` is expired at `now`.
pub fn is_expired(now: u64, created: u64, timeout: u64) -> (e: bool)
    ensures
        e == expired(now, created, timeout),
{
    now > created && now - created > timeout
}

/// A registry of pending records keyed by continuation token.
pub struct PendingStore {
    map: DashMap<String, Pending>,
}

impl View for PendingStore {
    type V = Records;

    closed spec fn view(&self) -> Records {
        entries(self.map)
    }
}

impl PendingStore {
    /// An empty store.
    pub fn new() -> (s: PendingStore)
        ensures
            s@ == Records::empty(),
    {
        let s = PendingStore { map: map_new() };
        assert(s@ =~= Records::empty());
        s
    }

    /// Inserts `record` under `token` unless the token is already taken.
    /// A taken token is never overwritten: the store is left as it was and
    /// the result is `false`.
    pub fn put(&mut self, token: String, record: Pending) -> (inserted: bool)
        ensures
            inserted == !old(self)@.contains_key(token@),
            inserted ==> final(self)@ == old(self)@.insert(token@, record@),
            !inserted ==> final(self)@ == old(self)@,
    {
        if map_contains(&self.map, &token) {
            false
        } else {
            let _ = map_insert(&mut self.map, token, record);
            true
        }
    }

    /// Whether a record is held under `token`, whatever its age.
    pub fn holds(&self, token: &String) -> (b: bool)
        ensures
            b == self@.contains_key(token@),
    {
        map_contains(&self.map, token)
    }

    /// The record under `token`, whatever its age.
    pub fn get(&self, token: &String) -> (r: Option<Pending>)
        ensures
            pending_opt(r) == (if self@.contains_key(token@) {
                Some(self@[token@])
            } else {
                None
            }),
    {
        map_get(&self.map, token)
    }

    /// The record that an access at second `now` would find under `token`,
    /// without the access: nothing is deleted.
    pub fn peek(&self, token: &String, now: u64, timeout: u64) -> (r: Option<Pending>)
        ensures
            pending_opt(r) == live(self@, token@, now, timeout),
    {
        match map_get(&self.map, token) {
            Some(record) => if is_expired(now, record.time(), timeout) {
                None
            } else {
                Some(record)
            },
            None => None,
        }
    }

    /// Deletes the record under `token`, if there is one.
    pub fn remove(&mut self, token: &String)
        ensures
            final(self)@ == old(self)@.remove(token@),
    {
        let _ = map_remove(&mut self.map, token);
    }

    /// Makes the store hold under `token` what `record` says: that record,
    /// or nothing.
    pub fn set(&mut self, token: &String, record: Option<Pending>)
        ensures
            final(self)@ == (match record {
                Some(r) => old(self)@.insert(token@, r@),
                None => old(self)@.remove(token@),
            }),
    {
        match record {
            Some(r) => {
                let _ = map_insert(&mut self.map, token.clone(), r);
            },
            None => {
                let _ = map_remove(&mut self.map, token);
            },
        }
    }

    /// Reads the record under `token` at second `now` for a flow whose
    /// records live `timeout` seconds. An expired record is deleted on the
    /// spot and reported as absent.
    pub fn access(&mut self, token: &String, now: u64, timeout: u64) -> (r: Option<Pending>)
        ensures
            pending_opt(r) == live(old(self)@, token@, now, timeout),
            final(self)@ == after_access(old(self)@, token@, now, timeout),
    {
        match map_get(&self.map, token) {
            None => None,
            Some(record) => {
                if is_expired(now, record.time(), timeout) {
                    let _ = map_remove(&mut self.map, token);
                    None
                } else {
                    Some(record)
                }
            },
        }
    }

    /// Every token in the store, each once, in no particular order.
    pub fn iterate(&self) -> (tokens: Vec<String>)
        ensures
            forall|i: int| 0 <= i < tokens.len() ==> self@.contains_key(#[trigger] tokens[i]@),
            forall|k: Seq<char>|
                self@.contains_key(k) ==> exists|i: int|
                    0 <= i < tokens.len() && #[trigger] tokens[i]@ == k,
            forall|i: int, j: int|
                0 <= i < j < tokens.len() ==> #[trigger] tokens[i]@ != #[trigger] tokens[j]@,
    {
        map_keys(&self.map)
    }

    /// Deletes every record that is expired at `now` under `timeout` and
    /// keeps all the others as they are.
    pub fn sweep(&mut self, now: u64, timeout: u64)
        ensures
            final(self)@ == unexpired(old(self)@, now, timeout),
    {
        let tokens = map_keys(&self.map);
        let ghost before = self@;
        let mut i: usize = 0;
        while i < tokens.len()
            invariant
                0 <= i <= tokens.len(),
                forall|j: int| 0 <= j < tokens.len() ==> before.contains_key(#[trigger] tokens[j]@),
                forall|k: Seq<char>|
                    before.contains_key(k) ==> exists|j: int|
                        0 <= j < tokens.len() && #[trigger] tokens[j]@ == k,
                forall|k: Seq<char>| #[trigger]
                    self@.contains_key(k) ==> before.contains_key(k) && self@[k] == before[k],
                forall|k: Seq<char>|
                    before.contains_key(k) && !expired(now, before[k].time(), timeout)
                        ==> #[trigger] self@.contains_key(k),
                forall|j: int|
                    0 <= j < i && expired(now, before[#[trigger] tokens[j]@].time(), timeout)
                        ==> !self@.contains_key(tokens[j]@),
            decreases tokens.len() - i,
        {
            let token = &tokens[i];
            let ghost prev = self@;
            match map_get(&self.map, token) {
                None => {},
                Some(record) => {
                    if is_expired(now, record.time(), timeout) {
                        let _ = map_remove(&mut self.map, token);
                        assert(self@ == prev.remove(token@));
                        assert(record@ == prev[token@]);
                        assert(prev[token@] == before[token@]);
                    } else {
                        assert(self@ == prev);
                    }
                },
            }
            i = i + 1;
        }
        assert(self@ =~= unexpired(before, now, timeout)) by {
            assert forall|k: Seq<char>| #[trigger]
                self@.contains_key(k) implies unexpired(before, now, timeout).contains_key(k) by {
                let j = choose|j: int| 0 <= j < tokens.len() && #[trigger] tokens[j]@ == k;
                assert(tokens[j]@ == k);
            }
        }
    }
}

/// Every store of the service. Each flow keeps its records in stores of
/// its own; a token is looked up only where its stage put it.
pub struct Stores {
    pub pending_logins: PendingStore,
    pub pending_mfas: PendingStore,
    pub active_escalations: PendingStore,
    pub pending_registers1: PendingStore,
    pub pending_registers2: PendingStore,
    pub pending_mfa_setups: PendingStore,
    pub pending_forgots1: PendingStore,
    pub pending_forgots2: PendingStore,
    pub pending_updates: PendingStore,
    pub pending_passkey_logins: PendingStore,
    pub pending_passkey_registers: PendingStore,
}

/// Mathematical content of [`Stores`]: one map per store.
pub ghost struct StoresView {
    pub pending_logins: Records,
    pub pending_mfas: Records,
    pub active_escalations: Records,
    pub pending_registers1: Records,
    pub pending_registers2: Records,
    pub pending_mfa_setups: Records,
    pub pending_forgots1: Records,
    pub pending_forgots2: Records,
    pub pending_updates: Records,
    pub pending_passkey_logins: Records,
    pub pending_passkey_registers: Records,
}

impl View for Stores {
    type V = StoresView;

    open spec fn view(&self) -> StoresView {
        StoresView {
            pending_logins: self.pending_logins@,
            pending_mfas: self.pending_mfas@,
            active_escalations: self.active_escalations@,
            pending_registers1: self.pending_registers1@,
            pending_registers2: self.pending_registers2@,
            pending_mfa_setups: self.pending_mfa_setups@,
            pending_forgots1: self.pending_forgots1@,
            pending_forgots2: self.pending_forgots2@,
            pending_updates: self.pending_updates@,
            pending_passkey_logins: self.pending_passkey_logins@,
            pending_passkey_registers: self.pending_passkey_registers@,
        }
    }
}

impl Stores {
    /// Stores that hold nothing.
    pub fn new() -> (s: Stores)
        ensures
            s@ == (StoresView {
                pending_logins: Records::empty(),
                pending_mfas: Records::empty(),
                active_escalations: Records::empty(),
                pending_registers1: Records::empty(),
                pending_registers2: Records::empty(),
                pending_mfa_setups: Records::empty(),
                pending_forgots1: Records::empty(),
                pending_forgots2: Records::empty(),
                pending_updates: Records::empty(),
                pending_passkey_logins: Records::empty(),
                pending_passkey_registers: Records::empty(),
            }),
    {
        Stores {
            pending_logins: PendingStore::new(),
            pending_mfas: PendingStore::new(),
            active_escalations: PendingStore::new(),
            pending_registers1: PendingStore::new(),
            pending_registers2: PendingStore::new(),
            pending_mfa_setups: PendingStore::new(),
            pending_forgots1: PendingStore::new(),
            pending_forgots2: PendingStore::new(),
            pending_updates: PendingStore::new(),
            pending_passkey_logins: PendingStore::new(),
            pending_passkey_registers: PendingStore::new(),
        }
    }
}

/// The stores of the service, by name.
#[derive(Clone, Copy, Debug, PartialEq, Eq, Structural)]
pub enum Flow {
    PendingLogins,
    PendingMfas,
    ActiveEscalations,
    PendingRegisters1,
    PendingRegisters2,
    PendingMfaSetups,
    PendingForgots1,
    PendingForgots2,
    PendingUpdates,
    PendingPasskeyLogins,
    PendingPasskeyRegisters,
}

impl StoresView {
    /// The content of one store.
    pub open spec fn of(self, flow: Flow) -> Records {
        match flow {
            Flow::PendingLogins => self.pending_logins,
            Flow::PendingMfas => self.pending_mfas,
            Flow::ActiveEscalations => self.active_escalations,
            Flow::PendingRegisters1 => self.pending_registers1,
            Flow::PendingRegisters2 => self.pending_registers2,
            Flow::PendingMfaSetups => self.pending_mfa_setups,
            Flow::PendingForgots1 => self.pending_forgots1,
            Flow::PendingForgots2 => self.pending_forgots2,
            Flow::PendingUpdates => self.pending_updates,
            Flow::PendingPasskeyLogins => self.pending_passkey_logins,
            Flow::PendingPasskeyRegisters => self.pending_passkey_registers,
        }
    }

    /// These stores with the content of one store replaced.
    pub open spec fn with(self, flow: Flow, records: Records) -> StoresView {
        match flow {
            Flow::PendingLogins => StoresView { pending_logins: records, ..self },
            Flow::PendingMfas => StoresView { pending_mfas: records, ..self },
            Flow::ActiveEscalations => StoresView { active_escalations: records, ..self },
            Flow::PendingRegisters1 => StoresView { pending_registers1: records, ..self },
            Flow::PendingRegisters2 => StoresView { pending_registers2: records, ..self },
            Flow::PendingMfaSetups => StoresView { pending_mfa_setups: records, ..self },
            Flow::PendingForgots1 => StoresView { pending_forgots1: records, ..self },
            Flow::PendingForgots2 => StoresView { pending_forgots2: records, ..self },
            Flow::PendingUpdates => StoresView { pending_updates: records, ..self },
            Flow::PendingPasskeyLogins => StoresView { pending_passkey_logins: records, ..self },
            Flow::PendingPasskeyRegisters => StoresView {
                pending_passkey_registers: records,
                ..self
            },
        }
    }
}

/// What one store held under one token at some moment: a record, or
/// nothing. A caller that is to write to the persistent store after a
/// transition keeps this from before the transition, and where its write
/// fails has it put back, so that a transition that could not be
/// completed leaves the stores as they were.
#[derive(Clone, Debug, PartialEq, Eq)]
pub struct Held {
    pub flow: Flow,
    pub token: String,
    pub record: Option<Pending>,
}

/// Mathematical content of a [`Held`].
pub ghost struct HeldView {
    pub flow: Flow,
    pub token: Seq<char>,
    pub record: Option<PendingView>,
}

impl View for Held {
    type V = HeldView;

    open spec fn view(&self) -> HeldView {
        HeldView { flow: self.flow, token: self.token@, record: pending_opt(self.record) }
    }
}

/// What the store `flow` holds under `token`.
pub open spec fn held(s: StoresView, flow: Flow, token: Seq<char>) -> HeldView {
    HeldView {
        flow,
        token,
        record: if s.of(flow).contains_key(token) {
            Some(s.of(flow)[token])
        } else {
            None
        },
    }
}

/// The stores once `h` is put back: its store holds under its token what
/// `h` says, a record or nothing, and nothing else changes.
pub open spec fn put_back(s: StoresView, h: HeldView) -> StoresView {
    s.with(
        h.flow,
        match h.record {
            Some(r) => s.of(h.flow).insert(h.token, r),
            None => s.of(h.flow).remove(h.token),
        },
    )
}

/// The records `post` with the slot `token` as it is in `pre`.
pub open spec fn slot_restored(post: Records, pre: Records, token: Seq<char>) -> Records {
    if pre.contains_key(token) {
        post.insert(token, pre[token])
    } else {
        post.remove(token)
    }
}

/// Putting back what was held undoes every change under that token: where
/// the stores differ from what they were in one store and under one token
/// at most, they are what they were once that is put back.
pub proof fn putting_back_restores(pre: StoresView, post: StoresView, flow: Flow, token: Seq<char>)
    requires
        post == pre.with(flow, post.of(flow)),
        forall|k: Seq<char>|
            k != token ==> (#[trigger] post.of(flow).contains_key(k) <==> pre.of(
                flow,
            ).contains_key(k)),
        forall|k: Seq<char>|
            k != token && pre.of(flow).contains_key(k) ==> #[trigger] post.of(flow)[k] == pre.of(
                flow,
            )[k],
    ensures
        put_back(post, held(pre, flow, token)) == pre,
{
    let back = put_back(post, held(pre, flow, token));
    assert(back.of(flow) =~= pre.of(flow));
    assert(back == pre.with(flow, back.of(flow)));
}

impl Stores {
    /// One store, by name.
    fn store(&self, flow: Flow) -> (s: &PendingStore)
        ensures
            s@ == self@.of(flow),
    {
        match flow {
            Flow::PendingLogins => &self.pending_logins,
            Flow::PendingMfas => &self.pending_mfas,
            Flow::ActiveEscalations => &self.active_escalations,
            Flow::PendingRegisters1 => &self.pending_registers1,
            Flow::PendingRegisters2 => &self.pending_registers2,
            Flow::PendingMfaSetups => &self.pending_mfa_setups,
            Flow::PendingForgots1 => &self.pending_forgots1,
            Flow::PendingForgots2 => &self.pending_forgots2,
            Flow::PendingUpdates => &self.pending_updates,
            Flow::PendingPasskeyLogins => &self.pending_passkey_logins,
            Flow::PendingPasskeyRegisters => &self.pending_passkey_registers,
        }
    }

    /// What the store `flow` holds under `token` now: see [`held`].
    pub fn held(&self, flow: Flow, token: &String) -> (h: Held)
        ensures
            h@ == held(self@, flow, token@),
    {
        Held { flow, token: token.clone(), record: self.store(flow).get(token) }
    }

    /// Puts back what was held: see [`put_back`].
    pub fn put_back(&mut self, h: Held)
        ensures
            final(self)@ == put_back(old(self)@, h@),
    {
        match h.flow {
            Flow::PendingLogins => self.pending_logins.set(&h.token, h.record),
            Flow::PendingMfas => self.pending_mfas.set(&h.token, h.record),
            Flow::ActiveEscalations => self.active_escalations.set(&h.token, h.record),
            Flow::PendingRegisters1 => self.pending_registers1.set(&h.token, h.record),
            Flow::PendingRegisters2 => self.pending_registers2.set(&h.token, h.record),
            Flow::PendingMfaSetups => self.pending_mfa_setups.set(&h.token, h.record),
            Flow::PendingForgots1 => self.pending_forgots1.set(&h.token, h.record),
            Flow::PendingForgots2 => self.pending_forgots2.set(&h.token, h.record),
            Flow::PendingUpdates => self.pending_updates.set(&h.token, h.record),
            Flow::PendingPasskeyLogins => self.pending_passkey_logins.set(&h.token, h.record),
            Flow::PendingPasskeyRegisters => self.pending_passkey_registers.set(
                &h.token,
                h.record,
            ),
        }
    }
}

/// The records that a `DashMap` holds, by the content of their keys.
pub uninterp spec fn entries(m: DashMap<String, Pending>) -> Map<Seq<char>, PendingView>;

/// `DashMap::new`: a map that holds nothing.
#[verifier::external_body]
fn map_new() -> (fresh: DashMap<String, Pending>)
    ensures
        forall|k: Seq<char>| !entries(fresh).contains_key(k),
{
    DashMap::new()
}

/// `DashMap::contains_key`: whether a record is held under `key`.
#[verifier::external_body]
fn map_contains(m: &DashMap<String, Pending>, key: &String) -> (b: bool)
    ensures
        b == entries(*m).contains_key(key@),
{
    m.contains_key(key)
}

/// `DashMap::insert`: afterwards `key` holds `value`, whatever it held
/// before, and the other keys are untouched. Returns what `key` held.
#[verifier::external_body]
fn map_insert(m: &mut DashMap<String, Pending>, key: String, value: Pending) -> (prev: Option<
    Pending,
>)
    ensures
        entries(*final(m)) == entries(*old(m)).insert(key@, value@),
        pending_opt(prev) == (if entries(*old(m)).contains_key(key@) {
            Some(entries(*old(m))[key@])
        } else {
            None
        }),
{
    m.insert(key, value)
}

/// `DashMap::get`, handing out a clone of the value: the record under
/// `key`, or `None` where there is none.
#[verifier::external_body]
fn map_get(m: &DashMap<String, Pending>, key: &String) -> (r: Option<Pending>)
    ensures
        pending_opt(r) == (if entries(*m).contains_key(key@) {
            Some(entries(*m)[key@])
        } else {
            None
        }),
{
    m.get(key).map(|e| e.value().clone())
}

/// `DashMap::remove`: afterwards nothing is held under `key`, and the other
/// keys are untouched. Returns the entry that was removed.
#[verifier::external_body]
fn map_remove(m: &mut DashMap<String, Pending>, key: &String) -> (r: Option<(String, Pending)>)
    ensures
        entries(*final(m)) == entries(*old(m)).remove(key@),
        r is Some == entries(*old(m)).contains_key(key@),
        r matches Some(e) ==> e.0@ == key@ && e.1@ == entries(*old(m))[key@],
{
    m.remove(key)
}

/// `DashMap::iter`, handing out a clone of each key: every key of the map
/// once, in the order in which the map happens to be walked.
#[verifier::external_body]
fn map_keys(m: &DashMap<String, Pending>) -> (keys: Vec<String>)
    ensures
        forall|i: int| 0 <= i < keys.len() ==> entries(*m).contains_key(#[trigger] keys[i]@),
        forall|k: Seq<char>|
            entries(*m).contains_key(k) ==> exists|i: int|
                0 <= i < keys.len() && #[trigger] keys[i]@ == k,
        forall|i: int, j: int|
            0 <= i < j < keys.len() ==> #[trigger] keys[i]@ != #[trigger] keys[j]@,
{
    m.iter().map(|e| e.key().clone()).collect()
}

} // verus!
