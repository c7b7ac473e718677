//! The per-device connection lifecycle: when a device with several audio
//! profiles counts as ready, when to ask again for the missing ones, and when
//! to give it up.
//!
//! Each transition is a pure function of the device's record and the event,
//! stated by a spec function of the same shape. Time comes in as millisecond
//! timestamps; timers are armed and cancelled by the caller on request, and
//! each armed timer carries a token so that a timer that was replaced or
//! cancelled cannot act when it fires.
use vstd::prelude::*;

use crate::profile::ProfileSet;

verus! {

/// Grace given to the initiating device to connect its remaining profiles.
pub const CONNECT_MISSING_PROFILES_TIMEOUT_SEC: u64 = 6;

/// Time after the first profile connection by which all profiles must be up.
pub const PROFILE_DISCOVERY_TIMEOUT_SEC: u64 = 10;

pub const MS_PER_SEC: u64 = 1000;

#[derive(Clone, Copy, Debug, PartialEq, Eq, Structural)]
pub enum DeviceConnectionStates {
    /// Some profile is connected, initiated from either side.
    ConnectingBeforeRetry,
    /// The host asked for the missing profiles after the grace period.
    ConnectingAfterRetry,
    /// All profiles (AVRCP aside) are connected and the device was announced.
    FullyConnected,
    /// Working towards disconnection of each connected profile.
    Disconnecting,
}

/// An armed fallback timer of a device.
#[derive(Clone, Copy, Debug, PartialEq, Eq, Structural)]
pub struct PendingTask {
    pub token: u64,
    /// Time of the profile event that started this connection session.
    pub first_conn_ts: u64,
}

/// What the coordinator keeps of a device between its first profile
/// connection and the loss of its last one.
pub struct DeviceLifecycle {
    pub state: DeviceConnectionStates,
    /// `Some` while a fallback timer is armed; `None` once the device was
    /// announced, given up, or lost a critical profile.
    pub pending: Option<PendingTask>,
    /// Device-added notifications sent in this session.
    pub announced: Ghost<nat>,
    /// Device-removed notifications sent in this session.
    pub removed: Ghost<nat>,
}

/// The two deadlines of a fallback timer.
#[derive(Clone, Copy, Debug, PartialEq, Eq, Structural)]
pub enum FallbackStage {
    /// Ask again for the missing profiles.
    Retry,
    /// Give the device up.
    GiveUp,
}

/// What a profile change asks of the caller besides the new record.
#[derive(Clone, Copy, Debug, PartialEq, Eq, Structural)]
pub enum LifecycleAction {
    Nothing,
    /// Arm a fallback timer: fire `Retry` at `retry_at` (when given), and after it
    /// `GiveUp` at `give_up_at`, both with `token`.
    Arm { token: u64, retry_at: Option<u64>, give_up_at: u64 },
    /// Announce the device to the upper layer.
    Announce,
}

/// A profile change's result: a timer to cancel first, and an action.
#[derive(Clone, Copy, Debug, PartialEq, Eq, Structural)]
pub struct LifecycleStep {
    pub cancel: Option<u64>,
    pub action: LifecycleAction,
}

/// What a critical profile loss asks of the caller.
#[derive(Clone, Copy, Debug, PartialEq, Eq, Structural)]
pub struct CriticalStep {
    pub cancel: Option<u64>,
    /// Tell the upper layer that the device is gone.
    pub notify_removed: bool,
}

/// What a fallback timer asks of the caller when it fires.
#[derive(Clone, Copy, Debug, PartialEq, Eq, Structural)]
pub enum FallbackAction {
    Nothing,
    /// Connect the missing profiles.
    Connect,
    /// Disconnect the device.
    Disconnect,
}

pub open spec fn sat_add(a: u64, b: u64) -> u64 {
    if a + b > u64::MAX {
        u64::MAX
    } else {
        (a + b) as u64
    }
}

pub open spec fn retry_deadline(first_conn_ts: u64) -> u64 {
    sat_add(first_conn_ts, (CONNECT_MISSING_PROFILES_TIMEOUT_SEC * MS_PER_SEC) as u64)
}

pub open spec fn give_up_deadline(first_conn_ts: u64) -> u64 {
    sat_add(first_conn_ts, (PROFILE_DISCOVERY_TIMEOUT_SEC * MS_PER_SEC) as u64)
}

/// No missing profile but possibly AVRCP: the device counts as fully connected.
pub open spec fn nothing_missing(missing: ProfileSet) -> bool {
    missing.spec_is_empty() || missing.spec_is_avrcp_only()
}

impl DeviceLifecycle {
    /// The record's states agree with its timer and notification counts.
    pub open spec fn inv(&self) -> bool {
        &&& (self.state is ConnectingBeforeRetry || self.state is ConnectingAfterRetry) <==> self.pending is Some
        &&& self.pending is Some ==> self.announced@ == 0 && self.removed@ == 0
        &&& self.state is FullyConnected ==> self.announced@ == 1 && self.removed@ == 0
        &&& self.announced@ <= 1
        &&& self.removed@ <= self.announced@
    }
}

/// Record and step after the connected profiles of a device changed.
/// `cleared`: no profile is left; `missing`: the audio profiles that the
/// device offers and has not connected; `now`: the time of the event;
/// `token`: the token for a timer armed now.
#[verifier::opaque]
pub open spec fn profile_change_spec(
    rec: Option<DeviceLifecycle>,
    cleared: bool,
    missing: ProfileSet,
    now: u64,
    token: u64,
) -> (Option<DeviceLifecycle>, LifecycleStep) {
    if rec is Some && rec->0.pending is None && !cleared {
        // Announced, given up or disconnecting: only the loss of the last
        // profile changes anything.
        (rec, LifecycleStep { cancel: None, action: LifecycleAction::Nothing })
    } else {
        let cancel = if rec is Some && rec->0.pending is Some {
            Some(rec->0.pending->0.token)
        } else {
            None
        };
        let first = if rec is Some && rec->0.pending is Some {
            rec->0.pending->0.first_conn_ts
        } else {
            now
        };
        if cleared {
            (None, LifecycleStep { cancel, action: LifecycleAction::Nothing })
        } else {
            let announced = if rec is Some { rec->0.announced@ } else { 0 };
            let removed = if rec is Some { rec->0.removed@ } else { 0 };
            let state0 = if rec is Some {
                rec->0.state
            } else {
                DeviceConnectionStates::ConnectingBeforeRetry
            };
            let state = if nothing_missing(missing) {
                DeviceConnectionStates::FullyConnected
            } else {
                state0
            };
            match state {
                DeviceConnectionStates::ConnectingBeforeRetry => (
                    Some(
                        DeviceLifecycle {
                            state,
                            pending: Some(PendingTask { token, first_conn_ts: first }),
                            announced: Ghost(announced),
                            removed: Ghost(removed),
                        },
                    ),
                    LifecycleStep {
                        cancel,
                        action: LifecycleAction::Arm {
                            token,
                            retry_at: Some(retry_deadline(first)),
                            give_up_at: give_up_deadline(first),
                        },
                    },
                ),
                DeviceConnectionStates::ConnectingAfterRetry => (
                    Some(
                        DeviceLifecycle {
                            state,
                            pending: Some(PendingTask { token, first_conn_ts: first }),
                            announced: Ghost(announced),
                            removed: Ghost(removed),
                        },
                    ),
                    LifecycleStep {
                        cancel,
                        action: LifecycleAction::Arm {
                            token,
                            retry_at: None,
                            give_up_at: give_up_deadline(first),
                        },
                    },
                ),
                DeviceConnectionStates::FullyConnected => (
                    Some(
                        DeviceLifecycle {
                            state,
                            pending: None,
                            announced: Ghost(announced + 1),
                            removed: Ghost(removed),
                        },
                    ),
                    LifecycleStep { cancel, action: LifecycleAction::Announce },
                ),
                DeviceConnectionStates::Disconnecting => (
                    Some(
                        DeviceLifecycle {
                            state,
                            pending: None,
                            announced: Ghost(announced),
                            removed: Ghost(removed),
                        },
                    ),
                    LifecycleStep { cancel, action: LifecycleAction::Nothing },
                ),
            }
        }
    }
}

/// Record and step after a device lost a profile that it cannot be used
/// without.
pub open spec fn critical_loss_spec(rec: Option<DeviceLifecycle>) -> (
    Option<DeviceLifecycle>,
    CriticalStep,
) {
    match rec {
        None => (rec, CriticalStep { cancel: None, notify_removed: false }),
        Some(l) => if l.state is Disconnecting {
            (rec, CriticalStep { cancel: None, notify_removed: false })
        } else {
            match l.pending {
                Some(p) => (
                    Some(
                        DeviceLifecycle {
                            state: DeviceConnectionStates::Disconnecting,
                            pending: None,
                            ..l
                        },
                    ),
                    CriticalStep { cancel: Some(p.token), notify_removed: false },
                ),
                None => (
                    Some(
                        DeviceLifecycle {
                            state: DeviceConnectionStates::Disconnecting,
                            removed: Ghost(l.removed@ + 1),
                            ..l
                        },
                    ),
                    CriticalStep { cancel: None, notify_removed: true },
                ),
            }
        },
    }
}

/// Record and action when the fallback timer with `token` reaches `stage`.
pub open spec fn fallback_spec(
    rec: Option<DeviceLifecycle>,
    token: u64,
    stage: FallbackStage,
) -> (Option<DeviceLifecycle>, FallbackAction) {
    match rec {
        Some(l) => if l.pending is Some && l.pending->0.token == token {
            match stage {
                FallbackStage::Retry => (
                    Some(
                        DeviceLifecycle {
                            state: DeviceConnectionStates::ConnectingAfterRetry,
                            ..l
                        },
                    ),
                    FallbackAction::Connect,
                ),
                FallbackStage::GiveUp => (
                    Some(
                        DeviceLifecycle {
                            state: DeviceConnectionStates::Disconnecting,
                            pending: None,
                            ..l
                        },
                    ),
                    FallbackAction::Disconnect,
                ),
            }
        } else {
            (rec, FallbackAction::Nothing)
        },
        None => (rec, FallbackAction::Nothing),
    }
}

pub open spec fn rec_inv(rec: Option<DeviceLifecycle>) -> bool {
    rec matches Some(l) ==> l.inv()
}

/// Decides what a change of a device's connected profiles does to its
/// record: arms, re-arms or cancels its fallback timer, and announces it
/// once nothing but AVRCP is missing.
pub fn profile_change(
    rec: Option<DeviceLifecycle>,
    cleared: bool,
    missing: ProfileSet,
    now: u64,
    token: u64,
) -> (r: (Option<DeviceLifecycle>, LifecycleStep))
    requires
        rec_inv(rec),
    ensures
        r == profile_change_spec(rec, cleared, missing, now, token),
        rec_inv(r.0),
{
    reveal(profile_change_spec);
    let (cancel, first) = match &rec {
        Some(l) => match l.pending {
            Some(p) => (Some(p.token), p.first_conn_ts),
            None => {
                if !cleared {
                    return (rec, LifecycleStep { cancel: None, action: LifecycleAction::Nothing });
                }
                (None, now)
            },
        },
        None => (None, now),
    };
    if cleared {
        return (None, LifecycleStep { cancel, action: LifecycleAction::Nothing });
    }
    let (state0, announced, removed) = match rec {
        Some(l) => (l.state, l.announced, l.removed),
        None => (DeviceConnectionStates::ConnectingBeforeRetry, Ghost(0nat), Ghost(0nat)),
    };
    let state = if missing.is_empty() || missing.is_avrcp_only() {
        DeviceConnectionStates::FullyConnected
    } else {
        state0
    };
    let retry_ms = CONNECT_MISSING_PROFILES_TIMEOUT_SEC * MS_PER_SEC;
    let give_up_ms = PROFILE_DISCOVERY_TIMEOUT_SEC * MS_PER_SEC;
    match state {
        DeviceConnectionStates::ConnectingBeforeRetry => (
            Some(
                DeviceLifecycle {
                    state,
                    pending: Some(PendingTask { token, first_conn_ts: first }),
                    announced,
                    removed,
                },
            ),
            LifecycleStep {
                cancel,
                action: LifecycleAction::Arm {
                    token,
                    retry_at: Some(first.saturating_add(retry_ms)),
                    give_up_at: first.saturating_add(give_up_ms),
                },
            },
        ),
        DeviceConnectionStates::ConnectingAfterRetry => (
            Some(
                DeviceLifecycle {
                    state,
                    pending: Some(PendingTask { token, first_conn_ts: first }),
                    announced,
                    removed,
                },
            ),
            LifecycleStep {
                cancel,
                action: LifecycleAction::Arm {
                    token,
                    retry_at: None,
                    give_up_at: first.saturating_add(give_up_ms),
                },
            },
        ),
        DeviceConnectionStates::FullyConnected => (
            Some(
                DeviceLifecycle {
                    state,
                    pending: None,
                    announced: Ghost(announced@ + 1),
                    removed,
                },
            ),
            LifecycleStep { cancel, action: LifecycleAction::Announce },
        ),
        DeviceConnectionStates::Disconnecting => (
            Some(DeviceLifecycle { state, pending: None, announced, removed }),
            LifecycleStep { cancel, action: LifecycleAction::Nothing },
        ),
    }
}

/// Decides what the loss of a critical profile does to a device's record:
/// a device not yet announced has its timer cancelled silently, an announced
/// one is reported removed.
pub fn critical_loss(rec: Option<DeviceLifecycle>) -> (r: (Option<DeviceLifecycle>, CriticalStep))
    requires
        rec_inv(rec),
    ensures
        r == critical_loss_spec(rec),
        rec_inv(r.0),
{
    match rec {
        None => (rec, CriticalStep { cancel: None, notify_removed: false }),
        Some(l) => {
            if l.state == DeviceConnectionStates::Disconnecting {
                return (Some(l), CriticalStep { cancel: None, notify_removed: false });
            }
            match l.pending {
                Some(p) => (
                    Some(
                        DeviceLifecycle {
                            state: DeviceConnectionStates::Disconnecting,
                            pending: None,
                            announced: l.announced,
                            removed: l.removed,
                        },
                    ),
                    CriticalStep { cancel: Some(p.token), notify_removed: false },
                ),
                None => (
                    Some(
                        DeviceLifecycle {
                            state: DeviceConnectionStates::Disconnecting,
                            pending: None,
                            announced: l.announced,
                            removed: Ghost(l.removed@ + 1),
                        },
                    ),
                    CriticalStep { cancel: None, notify_removed: true },
                ),
            }
        },
    }
}

/// Decides what a firing fallback timer does: only the timer that is armed
/// for the device acts.
pub fn fallback(rec: Option<DeviceLifecycle>, token: u64, stage: FallbackStage) -> (r: (
    Option<DeviceLifecycle>,
    FallbackAction,
))
    requires
        rec_inv(rec),
    ensures
        r == fallback_spec(rec, token, stage),
        rec_inv(r.0),
{
    match rec {
        Some(l) => {
            let armed = match l.pending {
                Some(p) => p.token == token,
                None => false,
            };
            if !armed {
                return (Some(l), FallbackAction::Nothing);
            }
            match stage {
                FallbackStage::Retry => (
                    Some(
                        DeviceLifecycle {
                            state: DeviceConnectionStates::ConnectingAfterRetry,
                            pending: l.pending,
                            announced: l.announced,
                            removed: l.removed,
                        },
                    ),
                    FallbackAction::Connect,
                ),
                FallbackStage::GiveUp => (
                    Some(
                        DeviceLifecycle {
                            state: DeviceConnectionStates::Disconnecting,
                            pending: None,
                            announced: l.announced,
                            removed: l.removed,
                        },
                    ),
                    FallbackAction::Disconnect,
                ),
            }
        },
        None => (rec, FallbackAction::Nothing),
    }
}

/// A device in the fully-connected state was announced exactly once in its
/// session and not reported removed since.
pub proof fn lemma_fully_connected_announced_once(l: DeviceLifecycle)
    requires
        l.inv(),
        l.state is FullyConnected,
    ensures
        l.announced@ == 1,
        l.removed@ == 0,
{
}

/// A profile change announces a device only when it had not been announced
/// in its session, and a critical loss reports removed only a device that was
/// announced and not yet reported removed.
pub proof fn lemma_notifications_balanced(
    rec: Option<DeviceLifecycle>,
    cleared: bool,
    missing: ProfileSet,
    now: u64,
    token: u64,
)
    requires
        rec_inv(rec),
    ensures
        profile_change_spec(rec, cleared, missing, now, token).1.action is Announce ==> (rec is None
            || rec->0.announced@ == 0) && profile_change_spec(rec, cleared, missing, now, token).0
            ->0.announced@ == 1,
        critical_loss_spec(rec).1.notify_removed ==> rec->0.announced@ == 1 && rec->0.removed@ == 0
            && critical_loss_spec(rec).0->0.removed@ == 1,
{
    reveal(profile_change_spec);
}

/// Once a device is disconnecting, profile events leave it as it is until
/// its last profile is gone.
pub proof fn lemma_disconnecting_is_sticky(
    l: DeviceLifecycle,
    missing: ProfileSet,
    now: u64,
    token: u64,
)
    requires
        l.inv(),
        l.state is Disconnecting,
    ensures
        profile_change_spec(Some(l), false, missing, now, token) == (
            Some(l),
            LifecycleStep { cancel: None, action: LifecycleAction::Nothing },
        ),
{
    reveal(profile_change_spec);
}

/// A profile change that arms a timer first cancels the one armed before,
/// and keeps the session's first connection time; a timer whose token is not
/// the armed one changes nothing when it fires.
pub proof fn lemma_one_timer_per_device(
    rec: Option<DeviceLifecycle>,
    cleared: bool,
    missing: ProfileSet,
    now: u64,
    token: u64,
    fired: u64,
    stage: FallbackStage,
)
    requires
        rec_inv(rec),
    ensures
        ({
            let (next, step) = profile_change_spec(rec, cleared, missing, now, token);
            &&& (rec is Some && rec->0.pending is Some) ==> step.cancel == Some(
                rec->0.pending->0.token,
            ) && (next is Some && next->0.pending is Some ==> next->0.pending->0.first_conn_ts
                == rec->0.pending->0.first_conn_ts)
            &&& step.action is Arm <==> (next is Some && next->0.pending is Some)
            &&& step.action matches LifecycleAction::Arm { token: t, .. } ==> t == token
                && next->0.pending->0.token == token
        }),
        (rec is None || rec->0.pending is None || rec->0.pending->0.token != fired)
            ==> fallback_spec(rec, fired, stage) == (rec, FallbackAction::Nothing),
{
    reveal(profile_change_spec);
}

} // verus!
