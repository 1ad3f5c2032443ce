//! Admin controls: the allow-list, the emergency pause and the action log.

use vstd::prelude::*;
use crate::constants::MAX_LOG_ENTRIES;
use crate::errors::IcpiError;
use crate::principal::{principal_parse, Principal};
use crate::strings::text;

verus! {

/// The system's own canister, which triggers timed operations.
pub const ADMIN_BACKEND: &'static str = "ev6xm-haaaa-aaaap-qqcza-cai";

/// The deployer.
pub const ADMIN_DEPLOYER: &'static str =
    "67ktx-ln42b-uzmo5-bdiyn-gu62c-cd4h4-a5qt3-2w3rs-cixdl-iaso2-mqe";

/// Whether the principal with the given bytes is on the allow-list.
pub open spec fn is_admin(caller: Seq<u8>) -> bool {
    principal_parse(ADMIN_BACKEND@) == Some(caller) || principal_parse(ADMIN_DEPLOYER@) == Some(
        caller,
    )
}

/// The texts of the principals on the allow-list.
pub fn admin_principals() -> (r: Vec<&'static str>)
    ensures
        r@.len() == 2,
        r@[0]@ == ADMIN_BACKEND@,
        r@[1]@ == ADMIN_DEPLOYER@,
{
    let mut v: Vec<&'static str> = Vec::new();
    v.push(ADMIN_BACKEND);
    v.push(ADMIN_DEPLOYER);
    v
}

/// The entry is the principal `caller`.
pub open spec fn admits(entry: Option<Principal>, caller: Seq<u8>) -> bool {
    match entry {
        Some(p) => p@ == caller,
        None => false,
    }
}

/// `caller` is one of the principals that parsed.
pub open spec fn listed(admins: Seq<Option<Principal>>, caller: Seq<u8>) -> bool {
    exists|i: int| 0 <= i < admins.len() && admits(#[trigger] admins[i], caller)
}

/// Succeeds exactly when `caller` is one of `admins`, the principals that the
/// texts of the allow-list parsed to; a text that did not parse admits no one.
pub fn check_admin(admins: &[Option<Principal>], caller: &Principal) -> (r: Result<(), IcpiError>)
    ensures
        listed(admins@, caller@) ==> r is Ok,
        !listed(admins@, caller@) ==> (r matches Err(IcpiError::Other(msg)) && msg@
            == "Authorization failed: caller is not an admin principal"@),
{
    let mut i: usize = 0;
    while i < admins.len()
        invariant
            i <= admins@.len(),
            forall|j: int| 0 <= j < i ==> !admits(#[trigger] admins@[j], caller@),
        decreases admins@.len() - i,
    {
        match &admins[i] {
            Some(admin) => {
                if admin.same(caller) {
                    return Ok(());
                }
            },
            None => {},
        }
        i = i + 1;
    }
    Err(IcpiError::Other(text("Authorization failed: caller is not an admin principal")))
}

/// Succeeds exactly when `caller` is on the allow-list.
pub fn require_admin(caller: &Principal) -> (r: Result<(), IcpiError>)
    ensures
        is_admin(caller@) ==> r is Ok,
        !is_admin(caller@) ==> r matches Err(IcpiError::Other(_)),
{
    let mut admins: Vec<Option<Principal>> = Vec::new();
    admins.push(Principal::from_text(ADMIN_BACKEND));
    admins.push(Principal::from_text(ADMIN_DEPLOYER));
    proof {
        if listed(admins@, caller@) {
            let i = choose|i: int| 0 <= i < admins@.len() && admits(#[trigger] admins@[i], caller@);
            assert(i == 0 || i == 1);
        }
        if is_admin(caller@) {
            if principal_parse(ADMIN_BACKEND@) == Some(caller@) {
                assert(admits(admins@[0], caller@));
            } else {
                assert(admits(admins@[1], caller@));
            }
        }
    }
    check_admin(admins.as_slice(), caller)
}

/// One entry of the admin log.
#[derive(Debug)]
pub struct AdminAction {
    pub timestamp: u64,
    pub admin: Principal,
    pub action: String,
}

/// An entry of the admin log as plain values.
pub struct AdminActionView {
    pub timestamp: u64,
    pub admin: Seq<u8>,
    pub action: Seq<char>,
}

impl View for AdminAction {
    type V = AdminActionView;

    open spec fn view(&self) -> AdminActionView {
        AdminActionView { timestamp: self.timestamp, admin: self.admin@, action: self.action@ }
    }
}

impl Clone for AdminAction {
    fn clone(&self) -> (r: AdminAction)
        ensures
            r@ == self@,
    {
        AdminAction {
            timestamp: self.timestamp,
            admin: self.admin.duplicate(),
            action: self.action.clone(),
        }
    }
}

/// The entries of a log as plain values.
pub open spec fn log_view(log: Seq<AdminAction>) -> Seq<AdminActionView> {
    Seq::new(log.len(), |i: int| log[i]@)
}

/// The last `limit` entries of a log.
pub open spec fn last_entries(log: Seq<AdminActionView>, limit: int) -> Seq<AdminActionView> {
    if log.len() > limit {
        log.subrange(log.len() - limit, log.len() as int)
    } else {
        log
    }
}

/// The pause flag and the log of admin actions.
#[derive(Debug)]
pub struct AdminState {
    paused: bool,
    log: Vec<AdminAction>,
}

impl AdminState {
    pub closed spec fn paused(&self) -> bool {
        self.paused
    }

    /// The log, oldest entry first.
    pub closed spec fn log(&self) -> Seq<AdminActionView> {
        log_view(self.log@)
    }

    /// The log never holds more than 1000 entries.
    pub closed spec fn wf(&self) -> bool {
        self.log@.len() <= MAX_LOG_ENTRIES
    }

    /// Not paused, with an empty log.
    pub fn new() -> (r: AdminState)
        ensures
            r.wf(),
            !r.paused(),
            r.log().len() == 0,
    {
        AdminState { paused: false, log: Vec::new() }
    }
}

/// Record an admin action. Only the last 1000 entries are kept.
pub fn log_admin_action(state: &mut AdminState, now: u64, caller: &Principal, action: String)
    requires
        old(state).wf(),
    ensures
        final(state).wf(),
        final(state).paused() == old(state).paused(),
        final(state).log() == last_entries(
            old(state).log().push(
                AdminActionView { timestamp: now, admin: caller@, action: action@ },
            ),
            MAX_LOG_ENTRIES as int,
        ),
        final(state).log().len() <= MAX_LOG_ENTRIES,
{
    let ghost before = state.log();
    let ghost entry = AdminActionView { timestamp: now, admin: caller@, action: action@ };
    state.log.push(AdminAction { timestamp: now, admin: caller.duplicate(), action });
    proof {
        assert(state.log() =~= before.push(entry));
    }
    if state.log.len() > MAX_LOG_ENTRIES {
        let ghost full = state.log();
        state.log.remove(0);
        proof {
            assert(full.len() == MAX_LOG_ENTRIES + 1);
            assert(state.log() =~= full.subrange(1, full.len() as int));
        }
    }
}

/// Fails while the system is paused.
pub fn check_not_paused(state: &AdminState) -> (r: Result<(), IcpiError>)
    ensures
        !state.paused() ==> r is Ok,
        state.paused() ==> (r matches Err(IcpiError::Other(msg)) && msg@
            == "System is emergency paused"@),
{
    if state.paused {
        Err(IcpiError::Other(text("System is emergency paused")))
    } else {
        Ok(())
    }
}

/// Set or clear the emergency pause.
pub fn set_pause(state: &mut AdminState, paused: bool)
    ensures
        final(state).paused() == paused,
        final(state).log() == old(state).log(),
        final(state).wf() == old(state).wf(),
{
    state.paused = paused;
}

/// Whether the system is paused.
pub fn is_paused(state: &AdminState) -> (r: bool)
    ensures
        r == state.paused(),
{
    state.paused
}

/// A copy of the admin log, oldest entry first.
pub fn get_admin_log(state: &AdminState) -> (r: Vec<AdminAction>)
    ensures
        log_view(r@) == state.log(),
{
    let mut out: Vec<AdminAction> = Vec::new();
    let mut i: usize = 0;
    while i < state.log.len()
        invariant
            i <= state.log@.len(),
            out@.len() == i,
            forall|j: int| 0 <= j < i ==> out@[j]@ == state.log@[j]@,
        decreases state.log@.len() - i,
    {
        out.push(state.log[i].clone());
        i = i + 1;
    }
    proof {
        assert(log_view(out@) =~= state.log());
    }
    out
}

} // verus!
