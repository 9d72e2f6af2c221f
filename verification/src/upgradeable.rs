//! The version of a contract and its pause switch.

use vstd::prelude::*;

verus! {

#[derive(Copy, Clone, Debug, Eq, PartialEq, PartialOrd, Ord, Structural)]
pub enum UpgradeError {
    UpgradeFailed,
    Unauthorized,
    ContractPaused,
    AlreadyPaused,
    NotPaused,
    MigrationFailed,
    VersionMismatch,
}

/// The version of a contract that was never upgraded.
pub const CONTRACT_VERSION: u32 = 1;

/// What is stored of the upgrade lifecycle; `None` where nothing was stored
/// yet.
#[derive(Copy, Clone, Debug, Eq, PartialEq, Structural)]
pub struct UpgradeState {
    pub version: Option<u32>,
    pub paused: Option<bool>,
}

impl UpgradeState {
    /// Whether the contract is paused; it is not where nothing was stored.
    pub open spec fn paused(&self) -> bool {
        self.paused == Some(true)
    }

    /// The current version; the initial one where nothing was stored.
    pub open spec fn current_version(&self) -> u32 {
        match self.version {
            Some(version) => version,
            None => 1,
        }
    }

    /// The state of a contract of which nothing was stored yet.
    pub fn new() -> (state: UpgradeState)
        ensures
            state == (UpgradeState { version: None, paused: None }),
    {
        UpgradeState { version: None, paused: None }
    }
}

/// Whether the contract is paused.
pub fn is_paused(state: &UpgradeState) -> (paused: bool)
    ensures
        paused == state.paused(),
{
    match state.paused {
        Some(paused) => paused,
        None => false,
    }
}

/// The current version of the contract.
pub fn get_version(state: &UpgradeState) -> (version: u32)
    ensures
        version == state.current_version(),
{
    match state.version {
        Some(version) => version,
        None => CONTRACT_VERSION,
    }
}

/// Stores the initial version and an open pause switch.
pub fn init_version(state: &mut UpgradeState)
    ensures
        *final(state) == (UpgradeState { version: Some(1u32), paused: Some(false) }),
{
    state.version = Some(CONTRACT_VERSION);
    state.paused = Some(false);
}

/// Pauses the contract: `AlreadyPaused` where it is paused.
pub fn pause(state: &mut UpgradeState) -> (r: Result<(), UpgradeError>)
    ensures
        old(state).paused() ==> r == Err::<(), UpgradeError>(UpgradeError::AlreadyPaused)
            && *final(state) == *old(state),
        !old(state).paused() ==> r == Ok::<(), UpgradeError>(()) && *final(state) == (UpgradeState {
            paused: Some(true),
            ..*old(state)
        }),
{
    if is_paused(state) {
        return Err(UpgradeError::AlreadyPaused);
    }
    state.paused = Some(true);
    Ok(())
}

/// Lifts the pause: `NotPaused` where the contract is not paused.
pub fn unpause(state: &mut UpgradeState) -> (r: Result<(), UpgradeError>)
    ensures
        !old(state).paused() ==> r == Err::<(), UpgradeError>(UpgradeError::NotPaused)
            && *final(state) == *old(state),
        old(state).paused() ==> r == Ok::<(), UpgradeError>(()) && *final(state) == (UpgradeState {
            paused: Some(false),
            ..*old(state)
        }),
{
    if !is_paused(state) {
        return Err(UpgradeError::NotPaused);
    }
    state.paused = Some(false);
    Ok(())
}

/// Records an upgrade of the contract's code: the contract is paused and
/// its version goes up by one. The pause lasts until `migrate`.
pub fn upgrade(state: &mut UpgradeState) -> (r: Result<(), UpgradeError>)
    requires
        old(state).current_version() < u32::MAX,
    ensures
        r == Ok::<(), UpgradeError>(()),
        *final(state) == (UpgradeState {
            version: Some((old(state).current_version() + 1) as u32),
            paused: Some(true),
        }),
{
    state.paused = Some(true);
    let current = get_version(state);
    let new_version = current + 1;
    state.version = Some(new_version);
    Ok(())
}

/// Completes a migration: lifts the pause and returns the version.
pub fn migrate(state: &mut UpgradeState) -> (r: Result<u32, UpgradeError>)
    ensures
        r == Ok::<u32, UpgradeError>(old(state).current_version()),
        *final(state) == (UpgradeState { paused: Some(false), ..*old(state) }),
{
    state.paused = Some(false);
    let version = get_version(state);
    Ok(version)
}

} // verus!
