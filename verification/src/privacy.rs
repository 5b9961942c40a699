//! Privacy mode: capture that leaves the operator's overlay window out of
//! the picture, granted to one connection at a time.

use crate::clock::{secs, spec_secs};
use crate::error::CaptureError;
use vstd::prelude::*;

verus! {

/// Seconds for which excluding the overlay window is tried.
pub const EXCLUDE_RETRY_SECS: u64 = 5;

/// Milliseconds between two tries to exclude the overlay window.
pub const EXCLUDE_RETRY_PAUSE_MILLIS: u64 = 500;

/// Whether the platform's magnifier was initialised, once per process.
#[derive(Clone, Copy, Debug, PartialEq, Eq, Structural)]
pub struct MagInitializer {
    pub is_succeeded: bool,
}

impl MagInitializer {
    /// Records how the platform's initialisation went; `None` where the
    /// platform has no magnifier.
    pub fn new(platform_init: Option<bool>) -> (m: MagInitializer)
        ensures
            m.is_succeeded == (platform_init == Some(true)),
    {
        let mut m = MagInitializer { is_succeeded: false };
        if let Some(ok) = platform_init {
            m.is_succeeded = ok;
        }
        m
    }

    /// Whether the platform's magnifier is to be released at shutdown.
    pub fn uninit_due(&self) -> (due: bool)
        ensures
            due == self.is_succeeded,
    {
        self.is_succeeded
    }

    /// Records the shutdown. `released` says how releasing the magnifier
    /// went, where it was due; a release that failed leaves the record as
    /// it was.
    pub fn uninit(&mut self, released: bool) -> (r: Result<(), CaptureError>)
        ensures
            old(self).is_succeeded && !released ==> r == Err::<(), CaptureError>(
                CaptureError::ReleaseMagnifier,
            ) && *final(self) == *old(self),
            !(old(self).is_succeeded && !released) ==> r == Ok::<(), CaptureError>(())
                && !final(self).is_succeeded,
    {
        if self.is_succeeded && !released {
            return Err(CaptureError::ReleaseMagnifier);
        }
        self.is_succeeded = false;
        Ok(())
    }
}

/// Whether the platform is to be asked if it supports privacy capture:
/// only where its magnifier was initialised.
pub fn support_query_due(platform_init: Option<bool>) -> (due: bool)
    ensures
        due == (platform_init == Some(true)),
{
    match platform_init {
        Some(ok) => ok,
        None => false,
    }
}

/// Whether privacy capture can be had: the magnifier was initialised and
/// the platform reports it as supported.
pub fn is_capturer_mag_supported(initializer: &MagInitializer, platform_supported: bool) -> (r:
    bool)
    ensures
        r == (initializer.is_succeeded && platform_supported),
{
    if !initializer.is_succeeded {
        return false;
    }
    platform_supported
}

/// The capability flag for privacy mode: probed once, then kept.
#[derive(Clone, Copy, Debug, PartialEq, Eq, Structural)]
pub struct PrivacyCapability {
    pub initializer: MagInitializer,
    /// `None` until the platform was probed.
    pub supported: Option<bool>,
}

impl PrivacyCapability {
    /// The flag before the platform was probed.
    pub fn new() -> (c: PrivacyCapability)
        ensures
            c.supported.is_none(),
            !c.initializer.is_succeeded,
    {
        PrivacyCapability { initializer: MagInitializer { is_succeeded: false }, supported: None }
    }

    /// The flag after a probe: the first probe decides, later ones change
    /// nothing.
    pub open spec fn probed(self, platform_init: Option<bool>, platform_supported: bool) -> Self {
        if self.supported.is_some() {
            self
        } else {
            PrivacyCapability {
                initializer: MagInitializer { is_succeeded: platform_init == Some(true) },
                supported: Some(platform_init == Some(true) && platform_supported),
            }
        }
    }

    /// Whether the platform has yet to be probed.
    pub fn needs_init(&self) -> (due: bool)
        ensures
            due == self.supported.is_none(),
    {
        self.supported.is_none()
    }

    /// Takes the result of probing the platform. Only the first probe counts.
    pub fn init_once(&mut self, platform_init: Option<bool>, platform_supported: bool)
        ensures
            *final(self) == old(self).probed(platform_init, platform_supported),
    {
        if self.supported.is_none() {
            self.initializer = MagInitializer::new(platform_init);
            self.supported = Some(is_capturer_mag_supported(&self.initializer, platform_supported));
        }
    }

    /// Whether privacy mode can be had; not before the platform was probed.
    pub fn is_available(&self) -> (r: bool)
        ensures
            r == (self.supported == Some(true)),
    {
        match self.supported {
            Some(s) => s,
            None => false,
        }
    }

    /// Records the shutdown, as `MagInitializer::uninit` does.
    pub fn teardown(&mut self, released: bool) -> (r: Result<(), CaptureError>)
        ensures
            final(self).supported == old(self).supported,
            old(self).initializer.is_succeeded && !released ==> r == Err::<(), CaptureError>(
                CaptureError::ReleaseMagnifier,
            ) && *final(self) == *old(self),
            !(old(self).initializer.is_succeeded && !released) ==> r == Ok::<(), CaptureError>(())
                && !final(self).initializer.is_succeeded,
    {
        self.initializer.uninit(released)
    }
}

/// Whether privacy mode is supported on this machine.
pub fn is_privacy_mode_supported(capability: &PrivacyCapability) -> (r: bool)
    ensures
        r == (capability.supported == Some(true)),
{
    capability.is_available()
}

/// The connection that holds privacy mode; 0 stands for none.
#[derive(Clone, Copy, Debug, PartialEq, Eq, Structural)]
pub struct PrivacyModeOwner {
    pub conn_id: i32,
}

/// Hands privacy mode to connection `conn_id`; 0 releases it.
pub fn set_privacy_mode_conn_id(owner: &mut PrivacyModeOwner, conn_id: i32)
    ensures
        final(owner).conn_id == conn_id,
{
    owner.conn_id = conn_id;
}

/// The connection that holds privacy mode; 0 where none does.
pub fn get_privacy_mode_conn_id(owner: &PrivacyModeOwner) -> (conn_id: i32)
    ensures
        conn_id == owner.conn_id,
{
    owner.conn_id
}

/// What a session finds when it looks at the owner of privacy mode.
#[derive(Clone, Copy, Debug, PartialEq, Eq, Structural)]
pub enum PrivacyCheck {
    /// The owner is the one the session's capturer was built for.
    Unchanged,
    /// The owner is another one: the session ends. Where a holder was
    /// superseded, every connection but `notify_others_than`, the new
    /// holder, is told that another connection has taken privacy mode over.
    Changed { notify_others_than: Option<i32> },
}

/// What a session built for `privacy_mode_id` finds with `owner` holding
/// privacy mode. A takeover is announced only where the session was built
/// for a holder and somebody else holds privacy mode now: a session built
/// for nobody has no holder to be superseded, and a release supersedes
/// nobody.
pub open spec fn spec_check_privacy_mode_changed(
    owner: PrivacyModeOwner,
    privacy_mode_id: i32,
) -> PrivacyCheck {
    if privacy_mode_id == owner.conn_id {
        PrivacyCheck::Unchanged
    } else if privacy_mode_id != 0 && owner.conn_id != 0 {
        PrivacyCheck::Changed { notify_others_than: Some(owner.conn_id) }
    } else {
        PrivacyCheck::Changed { notify_others_than: None }
    }
}

/// Looks whether privacy mode still belongs to the connection that the
/// session's capturer was built for.
pub fn check_privacy_mode_changed(owner: &PrivacyModeOwner, privacy_mode_id: i32) -> (r:
    PrivacyCheck)
    ensures
        r == spec_check_privacy_mode_changed(*owner, privacy_mode_id),
{
    let privacy_mode_id_2 = owner.conn_id;
    if privacy_mode_id != privacy_mode_id_2 {
        if privacy_mode_id != 0 && privacy_mode_id_2 != 0 {
            return PrivacyCheck::Changed { notify_others_than: Some(privacy_mode_id_2) };
        }
        return PrivacyCheck::Changed { notify_others_than: None };
    }
    PrivacyCheck::Unchanged
}

/// What came of one try to exclude the overlay window.
#[derive(Clone, Copy, Debug, PartialEq, Eq, Structural)]
pub enum ExcludeOutcome {
    /// The window is excluded.
    Excluded,
    /// The window was not found yet.
    NotYet,
    /// The platform reported an error.
    Failed,
}

/// What has just happened while a capturer is constructed. `elapsed` is the
/// time since the privacy capturer was created, in microseconds.
#[derive(Clone, Copy, Debug, PartialEq, Eq, Structural)]
pub enum CapturerEvent {
    /// Construction begins, for the holder of privacy mode `privacy_mode_id`.
    Start { privacy_mode_id: i32 },
    /// Whether privacy mode is supported was looked up.
    SupportKnown { privacy_supported: bool },
    /// The privacy capturer was created, or not.
    MagnifierCreated { ok: bool },
    /// Excluding the overlay window was tried.
    ExcludeTried { outcome: ExcludeOutcome },
    /// The pause before the next try is over.
    Paused { elapsed: u64 },
    /// The standard capturer was created, or not.
    StandardCreated { ok: bool },
}

/// What to do next while a capturer is constructed.
#[derive(Clone, Copy, Debug, PartialEq, Eq, Structural)]
pub enum CapturerAction {
    /// Look up whether privacy mode is supported; report `SupportKnown`.
    QuerySupport,
    /// Create the privacy capturer for the display.
    CreateMagnifier,
    /// Create the standard capturer for the display.
    CreateStandard,
    /// Try to exclude the overlay window.
    TryExclude,
    /// Pause for `millis` milliseconds, then report `Paused`.
    Pause { millis: u64 },
    /// The capturer is ready.
    Ready,
    /// Construction has failed.
    Fail(CaptureError),
}

/// The next step of constructing a capturer. The privacy capturer is built
/// for a holder of privacy mode where the platform supports it, which is
/// looked up for a holder only; excluding
/// the overlay window is tried again every half second for five seconds,
/// and a definite error ends it at once.
pub open spec fn spec_create_capturer_step(event: CapturerEvent) -> CapturerAction {
    match event {
        CapturerEvent::Start { privacy_mode_id } => if privacy_mode_id > 0 {
            CapturerAction::QuerySupport
        } else {
            CapturerAction::CreateStandard
        },
        CapturerEvent::SupportKnown { privacy_supported } => if privacy_supported {
            CapturerAction::CreateMagnifier
        } else {
            CapturerAction::CreateStandard
        },
        CapturerEvent::MagnifierCreated { ok } => if ok {
            CapturerAction::TryExclude
        } else {
            CapturerAction::Fail(CaptureError::CreateMagnifier)
        },
        CapturerEvent::ExcludeTried { outcome } => match outcome {
            ExcludeOutcome::Excluded => CapturerAction::Ready,
            ExcludeOutcome::NotYet => CapturerAction::Pause { millis: EXCLUDE_RETRY_PAUSE_MILLIS },
            ExcludeOutcome::Failed => CapturerAction::Fail(CaptureError::ExcludeWindow),
        },
        CapturerEvent::Paused { elapsed } => if spec_secs(elapsed) < EXCLUDE_RETRY_SECS {
            CapturerAction::TryExclude
        } else {
            CapturerAction::Fail(CaptureError::ExcludeTimedOut)
        },
        CapturerEvent::StandardCreated { ok } => if ok {
            CapturerAction::Ready
        } else {
            CapturerAction::Fail(CaptureError::CreateCapturer)
        },
    }
}

/// The next step of constructing a capturer, after `event`.
pub fn create_capturer(event: CapturerEvent) -> (action: CapturerAction)
    ensures
        action == spec_create_capturer_step(event),
{
    match event {
        CapturerEvent::Start { privacy_mode_id } => {
            if privacy_mode_id > 0 {
                CapturerAction::QuerySupport
            } else {
                CapturerAction::CreateStandard
            }
        },
        CapturerEvent::SupportKnown { privacy_supported } => {
            if privacy_supported {
                CapturerAction::CreateMagnifier
            } else {
                CapturerAction::CreateStandard
            }
        },
        CapturerEvent::MagnifierCreated { ok } => {
            if ok {
                CapturerAction::TryExclude
            } else {
                CapturerAction::Fail(CaptureError::CreateMagnifier)
            }
        },
        CapturerEvent::ExcludeTried { outcome } => match outcome {
            ExcludeOutcome::NotYet => CapturerAction::Pause { millis: EXCLUDE_RETRY_PAUSE_MILLIS },
            ExcludeOutcome::Failed => CapturerAction::Fail(CaptureError::ExcludeWindow),
            ExcludeOutcome::Excluded => CapturerAction::Ready,
        },
        CapturerEvent::Paused { elapsed } => {
            if secs(elapsed) < EXCLUDE_RETRY_SECS {
                CapturerAction::TryExclude
            } else {
                CapturerAction::Fail(CaptureError::ExcludeTimedOut)
            }
        },
        CapturerEvent::StandardCreated { ok } => {
            if ok {
                CapturerAction::Ready
            } else {
                CapturerAction::Fail(CaptureError::CreateCapturer)
            }
        },
    }
}

} // verus!
