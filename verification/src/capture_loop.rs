//! The capture loop: select a display, build capturer and encoder, then
//! capture, encode, broadcast and pace, tick after tick, until something
//! asks for a fresh start.
//!
//! The loop is a state machine. It performs no outside work itself: each
//! step takes what the last piece of outside work brought, with the clock
//! reading at which it was observed, and says what is to be done next.

use crate::clock::{elapsed, millis, spec_elapsed, spec_millis};
use crate::display::{
    check_display_changed,
    ensuer_close_idd_display,
    first_primary,
    get_current_display,
    get_display_num,
    spec_display_changed,
    Display,
    DisplaySelection,
};
use crate::encoder::{default_encoder_threads, encoder_config, spec_encoder_config, spec_encoder_threads, Config};
use crate::error::{CaptureError, EncodeError};
use crate::frame_controller::{
    AckEvent,
    ControllerView,
    VideoFrameController,
    WaitStep,
    ACK_TIMEOUT_MILLIS,
};
use crate::message::{
    append_frames,
    create_msg,
    spec_create_frames,
    EncodeFrame,
    Message,
    SwitchDisplay,
    VP9,
};
use crate::privacy::{
    check_privacy_mode_changed,
    spec_check_privacy_mode_changed,
    PrivacyCheck,
};
use crate::quality::{bitrate_fits, effective_quality, get_image_quality};
use crate::state::{SharedCaptureState, SharedSnapshot};
use std::collections::HashSet;
use vstd::prelude::*;

verus! {

broadcast use vstd::std_specs::hash::group_hash_axioms;

/// The name of the service.
pub const NAME: &'static str = "video";

/// The time allowed for one capture, in milliseconds, while frames arrive.
pub const WAIT_BASE: u32 = 17;

/// The period of one frame at thirty frames a second, in microseconds.
pub const FRAME_PERIOD_MICROS: u64 = 33_333;

/// Milliseconds after which the number of displays is looked at again.
pub const DISPLAY_CHECK_MILLIS: u64 = 1000;

/// Captures in a row that may come back empty before the capturer is told
/// to fall back.
pub const FALLBACK_AFTER_MISSES: i32 = 3;

/// Where the loop stands: the outside work it is waiting for.
#[derive(Clone, Copy, Debug, PartialEq, Eq, Structural)]
pub enum Phase {
    /// Nothing has been asked for yet.
    Start,
    /// The number of displays, for the care of the virtual display.
    Cleanup,
    /// The enumeration of displays from which one is selected.
    Selecting,
    /// The construction of the capturer.
    CreatingCapturer,
    /// The construction of the encoder.
    CreatingEncoder,
    /// The announcement of the display.
    Announcing,
    /// The state of the service, before a capture.
    Polling,
    /// The enumeration that tells whether the number of displays changed.
    CheckingDisplays,
    /// A frame.
    Capturing,
    /// The capturer's switch to its fallback path.
    Downgrading,
    /// The enumeration that tells whether a failed capture is explained
    /// by a change of displays.
    ExplainingFailure,
    /// Whether the subscribers changed.
    CheckingSubscribers,
    /// The packets of the frame.
    Encoding,
    /// The packets that the encoder held back.
    Flushing,
    /// The connections that received the frame.
    Broadcasting,
    /// An acknowledgement.
    AwaitingAck,
    /// The end of the pause that fills the frame period.
    Sleeping,
    /// The session is over.
    Ended,
}

/// Why a session ends to start over.
#[derive(Clone, Copy, Debug, PartialEq, Eq, Structural)]
pub enum RestartReason {
    /// A fresh start was asked for.
    SwitchPending,
    /// Another display was chosen.
    DisplaySwitched,
    /// Privacy mode belongs to another connection than at the start.
    PrivacyModeChanged,
    /// The effective quality is another than at the start.
    QualityChanged,
    /// The desktop session changed.
    DesktopChanged,
    /// The displays are others than at the start.
    DisplaysChanged,
    /// The subscribers changed while a frame was under way.
    SubscribersChanged,
}

/// Why a session ends with a failure.
#[derive(Clone, Copy, Debug, PartialEq, Eq, Structural)]
pub enum LoopError {
    Capture(CaptureError),
    Encode(EncodeError),
    /// An event arrived that the loop was not waiting for.
    UnexpectedEvent,
}

/// What came of one capture.
#[derive(Clone, Copy, Debug, PartialEq, Eq, Structural)]
pub enum FrameOutcome {
    /// A frame was captured.
    Captured,
    /// No frame was ready in the time allowed; `is_fallback` says whether
    /// the capturer is on its fallback path.
    WouldBlock { is_fallback: bool },
    /// The capture failed.
    Failed,
}

/// What the last piece of outside work brought.
#[derive(Debug)]
pub enum Event {
    /// The session is to begin.
    Begin,
    /// The number of displays as the operating system has them, and
    /// whether the virtual display device exists.
    DisplayCount { count: Result<usize, CaptureError>, device_created: bool },
    /// An enumeration of the displays.
    Displays(Result<Vec<Display>, CaptureError>),
    /// The capturer was constructed, or not.
    CapturerCreated(Result<(), CaptureError>),
    /// The encoder was constructed, or not.
    EncoderCreated { ok: bool },
    /// The announcement went out.
    Announced,
    /// Whether the service is still wanted, and whether the desktop
    /// session changed.
    Polled { active: bool, desktop_changed: bool },
    /// A capture came back.
    Frame(FrameOutcome),
    /// The capturer is on its fallback path now.
    Downgraded,
    /// Whether subscribers were added since the last frame.
    Subscribers { changed: bool },
    /// The packets of the frame, or `None` where encoding failed.
    Encoded(Option<Vec<EncodeFrame>>),
    /// The packets that the encoder held back, or `None` where flushing
    /// failed.
    Flushed(Option<Vec<EncodeFrame>>),
    /// The connections that received the frame.
    Sent(HashSet<i32>),
    /// One receive on the acknowledgement channel came back.
    Ack(AckEvent),
    /// The pause is over.
    Slept,
}

/// The outside work to be done next.
#[derive(Clone, Copy, Debug, PartialEq, Eq, Structural)]
pub enum Action {
    /// Count the displays and look whether the virtual display device
    /// exists; report `DisplayCount`.
    QueryDisplayCount,
    /// Enumerate the displays, after removing the virtual display device
    /// where `close_virtual_display` says so; report `Displays`.
    Enumerate { close_virtual_display: bool },
    /// Construct the capturer for display `current` of the enumeration, for
    /// the holder of privacy mode `privacy_mode_id`; report `CapturerCreated`.
    CreateCapturer { privacy_mode_id: i32, current: usize },
    /// Construct the encoder; report `EncoderCreated`.
    CreateEncoder { config: Config, threads: u32 },
    /// Tell all connections of the display; report `Announced`.
    Announce(SwitchDisplay),
    /// Look whether the service is still wanted and whether the desktop
    /// session changed; report `Polled`.
    Poll,
    /// Capture a frame within `wait_millis`; report `Frame`.
    Capture { wait_millis: u32 },
    /// Tell the capturer to fall back; report `Downgraded`.
    Downgrade,
    /// Look whether subscribers were added; report `Subscribers`.
    SnapshotSubscribers,
    /// Encode the captured frame with presentation time `pts_millis`;
    /// report `Encoded`.
    Encode { pts_millis: i64 },
    /// Flush the encoder; report `Flushed`.
    Flush,
    /// Take the video message from the loop and broadcast it; report `Sent`.
    SendVideoFrame,
    /// Receive on the acknowledgement channel for at most
    /// `timeout_millis`; report `Ack`.
    AwaitAck { timeout_millis: u64 },
    /// Pause for `micros` microseconds; report `Slept`.
    Sleep { micros: u64 },
    /// The service is no longer wanted: the session ends.
    Finish,
    /// The session ends to start over. Where `notify_others_than` holds a
    /// connection, the new holder of privacy mode, every other connection
    /// is first told that privacy mode was taken over.
    Restart { reason: RestartReason, notify_others_than: Option<i32> },
    /// The session ends with a failure.
    Fail(LoopError),
}

/// What a session knows of itself, as plain values.
#[derive(Clone, Copy, Debug, PartialEq, Eq, Structural)]
pub struct CaptureSession {
    pub phase: Phase,
    /// The number of displays at the start.
    pub ndisplay: usize,
    /// The index of the display captured.
    pub current: usize,
    /// Origin and size of the display captured.
    pub x: i32,
    pub y: i32,
    pub width: usize,
    pub height: usize,
    /// The holder of privacy mode that the capturer was built for.
    pub privacy_mode_id: i32,
    /// The effective quality that the encoder was built for.
    pub quality: i32,
    /// The time allowed for the next capture, in milliseconds.
    pub wait: u32,
    /// Empty captures counted toward the fallback; 0 once a frame came.
    pub try_gdi: i32,
    /// Clock reading at which capturing began.
    pub start: u64,
    /// Clock reading at which the displays were last counted.
    pub last_check_displays: u64,
    /// Clock reading at which the tick under way began.
    pub tick: u64,
    /// The number of encoder threads.
    pub threads: u32,
}

/// The capture loop of one session.
pub struct CaptureLoop {
    pub session: CaptureSession,
    pub frame_controller: VideoFrameController,
    /// The packets of the frame under way.
    pub frames: Vec<VP9>,
}

/// The capture loop as plain values.
pub struct LoopView {
    pub session: CaptureSession,
    pub controller: ControllerView,
    pub frames: Seq<VP9>,
}

impl View for CaptureLoop {
    type V = LoopView;

    open spec fn view(&self) -> LoopView {
        LoopView {
            session: self.session,
            controller: self.frame_controller@,
            frames: self.frames@,
        }
    }
}

/// What one step leaves behind: the loop, what it wrote of the shared
/// state, and the work to be done next.
pub struct Outcome {
    pub session: CaptureSession,
    pub controller: ControllerView,
    pub frames: Seq<VP9>,
    pub selection: DisplaySelection,
    pub switch: bool,
    pub action: Action,
}

/// The frame controller of a session that has not begun.
pub open spec fn initial_controller() -> ControllerView {
    ControllerView {
        cur: 0,
        armed: Set::empty(),
        fetched: Set::empty(),
        wait_begin: 0,
        wait_timeout: 0,
    }
}

/// A session that has not begun, with `threads` encoder threads.
pub open spec fn initial_session(threads: u32) -> CaptureSession {
    CaptureSession {
        phase: Phase::Start,
        ndisplay: 0,
        current: 0,
        x: 0,
        y: 0,
        width: 0,
        height: 0,
        privacy_mode_id: 0,
        quality: 0,
        wait: WAIT_BASE,
        try_gdi: 1,
        start: 0,
        last_check_displays: 0,
        tick: 0,
        threads,
    }
}

/// The step that changes nothing but the phase.
pub open spec fn go(l: LoopView, s: SharedSnapshot, phase: Phase, action: Action) -> Outcome {
    Outcome {
        session: CaptureSession { phase, ..l.session },
        controller: l.controller,
        frames: l.frames,
        selection: s.selection,
        switch: s.switch,
        action,
    }
}

/// The step that ends the session.
pub open spec fn end(l: LoopView, s: SharedSnapshot, action: Action) -> Outcome {
    go(l, s, Phase::Ended, action)
}

/// The step that ends the session to start over, with the switch flag set
/// where `announce` says that the display is to be announced anew.
pub open spec fn restart(
    l: LoopView,
    s: SharedSnapshot,
    reason: RestartReason,
    announce: bool,
) -> Outcome {
    Outcome {
        switch: s.switch || announce,
        ..end(l, s, Action::Restart { reason, notify_others_than: None })
    }
}

/// The step that ends the session with a failure.
pub open spec fn fail(l: LoopView, s: SharedSnapshot, error: LoopError) -> Outcome {
    end(l, s, Action::Fail(error))
}

/// After the displays were counted: the enumeration is asked for, with
/// the virtual display removed first where there is no display at all, or
/// more than one and the device exists.
pub open spec fn on_display_count(
    l: LoopView,
    s: SharedSnapshot,
    count: Result<usize, CaptureError>,
    device_created: bool,
) -> Outcome {
    match count {
        Err(e) => fail(l, s, LoopError::Capture(e)),
        Ok(n) => go(
            l,
            s,
            Phase::Selecting,
            Action::Enumerate { close_virtual_display: n == 0 || (n > 1 && device_created) },
        ),
    }
}

/// Selecting: the display chosen is captured, or the first primary one
/// where the choice is out of range, which is then kept as the choice. The
/// capturer is built for whoever holds privacy mode now.
pub open spec fn on_selected(
    l: LoopView,
    s: SharedSnapshot,
    enumerated: Result<Vec<Display>, CaptureError>,
) -> Outcome {
    match enumerated {
        Err(e) => fail(l, s, LoopError::Capture(e)),
        Ok(ds) => if ds.len() == 0 {
            fail(l, s, LoopError::Capture(CaptureError::NoDisplays))
        } else {
            let current = s.selection.resolved(ds.len() as nat, first_primary(ds@)) as usize;
            let display = ds@[current as int];
            Outcome {
                session: CaptureSession {
                    phase: Phase::CreatingCapturer,
                    ndisplay: ds.len(),
                    current,
                    x: display.x,
                    y: display.y,
                    width: display.width,
                    height: display.height,
                    privacy_mode_id: s.privacy_mode.conn_id,
                    ..l.session
                },
                controller: l.controller,
                frames: l.frames,
                selection: DisplaySelection { current, ..s.selection },
                switch: s.switch,
                action: Action::CreateCapturer {
                    privacy_mode_id: s.privacy_mode.conn_id,
                    current,
                },
            }
        },
    }
}

/// After the capturer was built: the encoder is configured for the
/// display's size and the effective quality of the moment.
pub open spec fn on_capturer_created(
    l: LoopView,
    s: SharedSnapshot,
    created: Result<(), CaptureError>,
) -> Outcome {
    let q = effective_quality(s.qualities);
    match created {
        Err(e) => fail(l, s, LoopError::Capture(e)),
        Ok(_) => if !bitrate_fits(l.session.width, l.session.height, q) {
            fail(l, s, LoopError::Encode(EncodeError::Bitrate))
        } else {
            Outcome {
                session: CaptureSession {
                    phase: Phase::CreatingEncoder,
                    quality: q,
                    ..l.session
                },
                ..go(
                    l,
                    s,
                    Phase::CreatingEncoder,
                    Action::CreateEncoder {
                        config: spec_encoder_config(l.session.width, l.session.height, q),
                        threads: l.session.threads,
                    },
                )
            }
        },
    }
}

/// The announcement of the display that a session captures.
pub open spec fn announcement(session: CaptureSession) -> SwitchDisplay {
    SwitchDisplay {
        display: session.current as i32,
        x: session.x,
        y: session.y,
        width: session.width as i32,
        height: session.height as i32,
    }
}

/// After the encoder was built at `now`: capturing begins. Where a switch
/// was pending the display is announced first, and the flag is cleared.
pub open spec fn on_encoder_created(l: LoopView, s: SharedSnapshot, ok: bool, now: u64) -> Outcome {
    if !ok {
        fail(l, s, LoopError::Encode(EncodeError::Create))
    } else {
        let session = CaptureSession {
            wait: WAIT_BASE,
            try_gdi: 1,
            start: now,
            last_check_displays: now,
            ..l.session
        };
        Outcome {
            session: CaptureSession {
                phase: if s.switch {
                    Phase::Announcing
                } else {
                    Phase::Polling
                },
                ..session
            },
            controller: l.controller,
            frames: l.frames,
            selection: s.selection,
            switch: false,
            action: if s.switch {
                Action::Announce(announcement(session))
            } else {
                Action::Poll
            },
        }
    }
}

/// The capture of a tick: the viewers count as active at the tick's
/// beginning, nobody is armed, and a frame is asked for within the
/// session's time allowed.
pub open spec fn begin_capture(l: LoopView, s: SharedSnapshot) -> Outcome {
    Outcome {
        session: CaptureSession { phase: Phase::Capturing, ..l.session },
        controller: l.controller.reset(),
        frames: l.frames,
        selection: DisplaySelection { last_active: l.session.tick, ..s.selection },
        switch: s.switch,
        action: Action::Capture { wait_millis: l.session.wait },
    }
}

/// The beginning of a tick at `now`, once nothing asks for a fresh start:
/// the displays are counted where that was last done more than a second
/// ago, else a frame is captured.
pub open spec fn begin_tick(l: LoopView, s: SharedSnapshot, now: u64) -> Outcome {
    if spec_millis(spec_elapsed(now, l.session.last_check_displays)) > DISPLAY_CHECK_MILLIS {
        Outcome {
            session: CaptureSession {
                phase: Phase::CheckingDisplays,
                tick: now,
                last_check_displays: now,
                ..l.session
            },
            ..go(l, s, Phase::CheckingDisplays, Action::Enumerate { close_virtual_display: false })
        }
    } else {
        begin_capture(LoopView { session: CaptureSession { tick: now, ..l.session }, ..l }, s)
    }
}

/// The beginning of a tick at `now`: the session ends where the service
/// is no longer wanted, and starts over where a fresh start is pending,
/// another display was chosen, privacy mode changed hands, the effective
/// quality changed or the desktop session changed, in this order.
pub open spec fn on_polled(
    l: LoopView,
    s: SharedSnapshot,
    active: bool,
    desktop_changed: bool,
    now: u64,
) -> Outcome {
    if !active {
        end(l, s, Action::Finish)
    } else if s.switch {
        restart(l, s, RestartReason::SwitchPending, false)
    } else if l.session.current != s.selection.current {
        restart(l, s, RestartReason::DisplaySwitched, true)
    } else {
        match spec_check_privacy_mode_changed(s.privacy_mode, l.session.privacy_mode_id) {
            PrivacyCheck::Changed { notify_others_than } => end(
                l,
                s,
                Action::Restart { reason: RestartReason::PrivacyModeChanged, notify_others_than },
            ),
            PrivacyCheck::Unchanged => if effective_quality(s.qualities) != l.session.quality {
                restart(l, s, RestartReason::QualityChanged, false)
            } else if desktop_changed {
                restart(l, s, RestartReason::DesktopChanged, false)
            } else {
                begin_tick(l, s, now)
            },
        }
    }
}

/// The number of displays in an enumeration, 0 where it failed.
pub open spec fn display_count(enumerated: Result<Vec<Display>, CaptureError>) -> usize {
    match enumerated {
        Ok(ds) => ds.len(),
        Err(_) => 0,
    }
}

/// After the displays were counted in a tick: another number than at the
/// start ends the session and asks for the announcement; else a frame is
/// captured.
pub open spec fn on_displays_checked(
    l: LoopView,
    s: SharedSnapshot,
    enumerated: Result<Vec<Display>, CaptureError>,
) -> Outcome {
    if l.session.ndisplay != display_count(enumerated) {
        restart(l, s, RestartReason::DisplaysChanged, true)
    } else {
        begin_capture(l, s)
    }
}

/// The time allowed for the next capture after one that came back empty
/// `waited` milliseconds into the tick: what is left of the base, never
/// less than nothing.
pub open spec fn shrunk_wait(waited: u64) -> u32 {
    if waited >= WAIT_BASE {
        0
    } else {
        (WAIT_BASE - waited) as u32
    }
}

/// Whether the capturer is told to fall back after an empty capture: the
/// count is running, the capturer is not on its fallback path, and more
/// than three captures came back empty.
pub open spec fn falls_back(try_gdi: i32, is_fallback: bool) -> bool {
    try_gdi > 0 && !is_fallback && try_gdi > FALLBACK_AFTER_MISSES
}

/// The count of empty captures after one more.
pub open spec fn counted_miss(try_gdi: i32, is_fallback: bool) -> i32 {
    if try_gdi > 0 && !is_fallback {
        if try_gdi > FALLBACK_AFTER_MISSES {
            1
        } else {
            (try_gdi + 1) as i32
        }
    } else {
        try_gdi
    }
}

/// After a capture came back at `now`.
pub open spec fn on_frame(l: LoopView, s: SharedSnapshot, outcome: FrameOutcome, now: u64) -> Outcome {
    match outcome {
        FrameOutcome::Captured => go(l, s, Phase::CheckingSubscribers, Action::SnapshotSubscribers),
        FrameOutcome::WouldBlock { is_fallback } => {
            let downgrade = falls_back(l.session.try_gdi, is_fallback);
            Outcome {
                session: CaptureSession {
                    phase: if downgrade {
                        Phase::Downgrading
                    } else {
                        Phase::Polling
                    },
                    wait: shrunk_wait(spec_millis(spec_elapsed(now, l.session.tick))),
                    try_gdi: counted_miss(l.session.try_gdi, is_fallback),
                    ..l.session
                },
                ..go(
                    l,
                    s,
                    Phase::Polling,
                    if downgrade {
                        Action::Downgrade
                    } else {
                        Action::Poll
                    },
                )
            }
        },
        FrameOutcome::Failed => go(
            l,
            s,
            Phase::ExplainingFailure,
            Action::Enumerate { close_virtual_display: false },
        ),
    }
}

/// After a failed capture: a change of displays explains it and the
/// session starts over; else the failure ends the session.
pub open spec fn on_failure_explained(
    l: LoopView,
    s: SharedSnapshot,
    enumerated: Result<Vec<Display>, CaptureError>,
) -> Outcome {
    let changed = match enumerated {
        Ok(ds) => spec_display_changed(
            ds@,
            l.session.ndisplay,
            l.session.current,
            l.session.width,
            l.session.height,
        ),
        Err(_) => false,
    };
    if changed {
        restart(l, s, RestartReason::DisplaysChanged, true)
    } else {
        fail(l, s, LoopError::Capture(CaptureError::Capture))
    }
}

/// The presentation time of the frame of a tick: whole milliseconds from
/// the start of capturing to the tick's beginning.
pub open spec fn presentation_millis(session: CaptureSession) -> i64 {
    spec_millis(spec_elapsed(session.tick, session.start)) as i64
}

/// After the subscribers were looked at: new ones end the session, so that
/// old and new ones share one encoder state; else the frame is encoded.
pub open spec fn on_subscribers(l: LoopView, s: SharedSnapshot, changed: bool) -> Outcome {
    if changed {
        restart(l, s, RestartReason::SubscribersChanged, false)
    } else {
        go(l, s, Phase::Encoding, Action::Encode { pts_millis: presentation_millis(l.session) })
    }
}

/// After the frame was encoded: its packets are kept and the encoder is
/// flushed.
pub open spec fn on_encoded(l: LoopView, s: SharedSnapshot, encoded: Option<Vec<EncodeFrame>>) -> Outcome {
    match encoded {
        None => fail(l, s, LoopError::Encode(EncodeError::Encode)),
        Some(frames) => Outcome {
            frames: spec_create_frames(frames@),
            ..go(l, s, Phase::Flushing, Action::Flush)
        },
    }
}

/// The end of a tick at `now`: a pause for what is left of the frame
/// period, or the next tick at once.
pub open spec fn pace(l: LoopView, s: SharedSnapshot, now: u64) -> Outcome {
    let spent = spec_elapsed(now, l.session.tick);
    if spent < FRAME_PERIOD_MICROS {
        go(l, s, Phase::Sleeping, Action::Sleep { micros: (FRAME_PERIOD_MICROS - spent) as u64 })
    } else {
        go(l, s, Phase::Polling, Action::Poll)
    }
}

/// How the wait goes on after `step`, at `now`.
pub open spec fn after_wait_step(l: LoopView, s: SharedSnapshot, step: WaitStep, now: u64) -> Outcome {
    match step {
        WaitStep::Receive { timeout_millis } => go(
            l,
            s,
            Phase::AwaitingAck,
            Action::AwaitAck { timeout_millis },
        ),
        WaitStep::Finished => pace(l, s, now),
    }
}

/// After the frame went out to `ids` at `now`: they are armed and waited for, for three
/// seconds at most; a frame that reached nobody is not waited for. The
/// count toward the fallback stops.
pub open spec fn on_sent(l: LoopView, s: SharedSnapshot, ids: Set<i32>, now: u64) -> Outcome {
    let armed = l.controller.set_send(l.session.tick, ids);
    let waiting = LoopView {
        session: CaptureSession { try_gdi: 0, ..l.session },
        controller: armed.begin_wait(now, ACK_TIMEOUT_MILLIS),
        frames: l.frames,
    };
    after_wait_step(
        waiting,
        s,
        armed.first_step(now, ACK_TIMEOUT_MILLIS),
        now,
    )
}

/// After the encoder was flushed at `now`: the packets held back join
/// those of the frame; they go out together, and where there is none the
/// tick goes on as after a frame that reached nobody.
pub open spec fn on_flushed(
    l: LoopView,
    s: SharedSnapshot,
    flushed: Option<Vec<EncodeFrame>>,
    now: u64,
) -> Outcome {
    match flushed {
        None => fail(l, s, LoopError::Encode(EncodeError::Flush)),
        Some(more) => {
            let all = LoopView { frames: l.frames + spec_create_frames(more@), ..l };
            if all.frames.len() > 0 {
                go(all, s, Phase::Broadcasting, Action::SendVideoFrame)
            } else {
                on_sent(all, s, Set::empty(), now)
            }
        },
    }
}

/// After a receive on the acknowledgement channel came back at `now`.
pub open spec fn on_ack(l: LoopView, s: SharedSnapshot, event: AckEvent, now: u64) -> Outcome {
    after_wait_step(
        LoopView { controller: l.controller.acknowledged(event), ..l },
        s,
        l.controller.step_after(event, now),
        now,
    )
}

/// One step of the capture loop: what `event`, observed at `now`, makes of
/// the loop `l` under the shared state `s`. An event that the loop was not
/// waiting for ends the session with a failure.
pub open spec fn spec_step(l: LoopView, s: SharedSnapshot, event: Event, now: u64) -> Outcome {
    let phase = l.session.phase;
    match event {
        Event::Begin if phase == Phase::Start => go(l, s, Phase::Cleanup, Action::QueryDisplayCount),
        Event::DisplayCount { count, device_created } if phase == Phase::Cleanup => on_display_count(
            l,
            s,
            count,
            device_created,
        ),
        Event::Displays(enumerated) if phase == Phase::Selecting => on_selected(l, s, enumerated),
        Event::Displays(enumerated) if phase == Phase::CheckingDisplays => on_displays_checked(
            l,
            s,
            enumerated,
        ),
        Event::Displays(enumerated) if phase == Phase::ExplainingFailure => on_failure_explained(
            l,
            s,
            enumerated,
        ),
        Event::CapturerCreated(created) if phase == Phase::CreatingCapturer => on_capturer_created(
            l,
            s,
            created,
        ),
        Event::EncoderCreated { ok } if phase == Phase::CreatingEncoder => on_encoder_created(
            l,
            s,
            ok,
            now,
        ),
        Event::Announced if phase == Phase::Announcing => go(l, s, Phase::Polling, Action::Poll),
        Event::Polled { active, desktop_changed } if phase == Phase::Polling => on_polled(
            l,
            s,
            active,
            desktop_changed,
            now,
        ),
        Event::Frame(outcome) if phase == Phase::Capturing => on_frame(l, s, outcome, now),
        Event::Downgraded if phase == Phase::Downgrading => go(l, s, Phase::Polling, Action::Poll),
        Event::Subscribers { changed } if phase == Phase::CheckingSubscribers => on_subscribers(
            l,
            s,
            changed,
        ),
        Event::Encoded(encoded) if phase == Phase::Encoding => on_encoded(l, s, encoded),
        Event::Flushed(flushed) if phase == Phase::Flushing => on_flushed(l, s, flushed, now),
        Event::Sent(ids) if phase == Phase::Broadcasting => on_sent(l, s, ids@, now),
        Event::Ack(ack) if phase == Phase::AwaitingAck => on_ack(l, s, ack, now),
        Event::Slept if phase == Phase::Sleeping => go(l, s, Phase::Polling, Action::Poll),
        _ => fail(l, s, LoopError::UnexpectedEvent),
    }
}

/// Whether the loop `post`, the shared state `shared` and `action` are
/// what outcome `o` says, with the rest of the shared state as in `before`.
pub open spec fn realizes(
    o: Outcome,
    post: CaptureLoop,
    before: SharedCaptureState,
    shared: SharedCaptureState,
    action: Action,
) -> bool {
    &&& post@ == (LoopView { session: o.session, controller: o.controller, frames: o.frames })
    &&& shared.selection == o.selection
    &&& shared.switch.pending == o.switch
    &&& shared.test_latencies == before.test_latencies
    &&& shared.image_qualities == before.image_qualities
    &&& shared.privacy_mode == before.privacy_mode
    &&& shared.privacy_capability == before.privacy_capability
    &&& action == o.action
}

/// Whether the loop `post` and `action` are what outcome `o` says.
pub open spec fn realizes_loop(o: Outcome, post: CaptureLoop, action: Action) -> bool {
    &&& post@ == (LoopView { session: o.session, controller: o.controller, frames: o.frames })
    &&& action == o.action
}

impl CaptureLoop {
    /// The loop of a session that has not begun, with `threads` encoder
    /// threads.
    pub fn with_threads(threads: u32) -> (l: CaptureLoop)
        ensures
            l@ == (LoopView {
                session: initial_session(threads),
                controller: initial_controller(),
                frames: Seq::empty(),
            }),
    {
        CaptureLoop {
            session: CaptureSession {
                phase: Phase::Start,
                ndisplay: 0,
                current: 0,
                x: 0,
                y: 0,
                width: 0,
                height: 0,
                privacy_mode_id: 0,
                quality: 0,
                wait: WAIT_BASE,
                try_gdi: 1,
                start: 0,
                last_check_displays: 0,
                tick: 0,
                threads,
            },
            frame_controller: VideoFrameController::new(0),
            frames: Vec::new(),
        }
    }

    /// Whether the session is over.
    pub fn is_ended(&self) -> (ended: bool)
        ensures
            ended == (self.session.phase == Phase::Ended),
    {
        self.session.phase == Phase::Ended
    }

    /// Hands out the video message of the frame under way, and keeps none
    /// of its packets.
    pub fn take_video_message(&mut self) -> (msg: Message)
        ensures
            msg matches Message::VideoFrame(vp9s) && vp9s@ == old(self).frames@,
            final(self)@ == (LoopView { frames: Seq::empty(), ..old(self)@ }),
    {
        let mut frames: Vec<VP9> = Vec::new();
        std::mem::swap(&mut frames, &mut self.frames);
        create_msg(frames)
    }

    /// Moves on to `phase` and asks for `action`.
    fn go(&mut self, phase: Phase, action: Action) -> (r: Action)
        ensures
            r == action,
            final(self)@ == (LoopView {
                session: CaptureSession { phase, ..old(self).session },
                ..old(self)@
            }),
    {
        self.session.phase = phase;
        action
    }

    /// Ends the session to start over; see the spec function of this name.
    fn restart(
        &mut self,
        shared: &mut SharedCaptureState,
        reason: RestartReason,
        announce: bool,
    ) -> (action: Action)
        ensures
            realizes(
                restart(old(self)@, old(shared).snapshot(), reason, announce),
                *final(self),
                *old(shared),
                *final(shared),
                action,
            ),
    {
        if announce {
            shared.switch.pending = true;
        }
        self.go(Phase::Ended, Action::Restart { reason, notify_others_than: None })
    }

    /// Begins the capture of a tick; see the spec function of this name.
    fn begin_capture(&mut self, shared: &mut SharedCaptureState) -> (action: Action)
        ensures
            realizes(
                begin_capture(old(self)@, old(shared).snapshot()),
                *final(self),
                *old(shared),
                *final(shared),
                action,
            ),
    {
        shared.selection.last_active = self.session.tick;
        self.frame_controller.reset();
        self.go(Phase::Capturing, Action::Capture { wait_millis: self.session.wait })
    }

    /// Ends a tick at `now`; see the spec function of this name.
    fn pace(&mut self, s: Ghost<SharedSnapshot>, now: u64) -> (action: Action)
        ensures
            realizes_loop(pace(old(self)@, s@, now), *final(self), action),
    {
        let spent = elapsed(now, self.session.tick);
        if spent < FRAME_PERIOD_MICROS {
            self.go(Phase::Sleeping, Action::Sleep { micros: FRAME_PERIOD_MICROS - spent })
        } else {
            self.go(Phase::Polling, Action::Poll)
        }
    }

    /// Goes on after a step of the wait for acknowledgements.
    fn after_wait_step(&mut self, s: Ghost<SharedSnapshot>, step: WaitStep, now: u64) -> (action:
        Action)
        ensures
            realizes_loop(after_wait_step(old(self)@, s@, step, now), *final(self), action),
    {
        match step {
            WaitStep::Receive { timeout_millis } => self.go(
                Phase::AwaitingAck,
                Action::AwaitAck { timeout_millis },
            ),
            WaitStep::Finished => self.pace(s, now),
        }
    }

    /// Takes the connections that received the frame.
    fn on_sent(&mut self, s: Ghost<SharedSnapshot>, ids: HashSet<i32>, now: u64) -> (action:
        Action)
        ensures
            realizes_loop(on_sent(old(self)@, s@, ids@, now), *final(self), action),
    {
        self.frame_controller.set_send(self.session.tick, ids);
        self.session.try_gdi = 0;
        let step = self.frame_controller.begin_wait(now, ACK_TIMEOUT_MILLIS);
        self.after_wait_step(s, step, now)
    }

    /// Takes the enumeration from which a display is selected.
    fn on_selected(
        &mut self,
        shared: &mut SharedCaptureState,
        enumerated: Result<Vec<Display>, CaptureError>,
    ) -> (action: Action)
        ensures
            realizes(
                on_selected(old(self)@, old(shared).snapshot(), enumerated),
                *final(self),
                *old(shared),
                *final(shared),
                action,
            ),
    {
        match get_current_display(&mut shared.selection, enumerated) {
            Err(e) => self.go(Phase::Ended, Action::Fail(LoopError::Capture(e))),
            Ok((n, current, display)) => {
                let privacy_mode_id = shared.privacy_mode.conn_id;
                self.session.ndisplay = n;
                self.session.current = current;
                self.session.x = display.x;
                self.session.y = display.y;
                self.session.width = display.width;
                self.session.height = display.height;
                self.session.privacy_mode_id = privacy_mode_id;
                self.go(
                    Phase::CreatingCapturer,
                    Action::CreateCapturer { privacy_mode_id, current },
                )
            },
        }
    }

    /// Takes the result of constructing the capturer.
    fn on_capturer_created(
        &mut self,
        shared: &SharedCaptureState,
        created: Result<(), CaptureError>,
    ) -> (action: Action)
        ensures
            ({
                let o = on_capturer_created(old(self)@, shared.snapshot(), created);
                &&& final(self)@ == (LoopView {
                    session: o.session,
                    controller: o.controller,
                    frames: o.frames,
                })
                &&& action == o.action
            }),
    {
        if let Err(e) = created {
            return self.go(Phase::Ended, Action::Fail(LoopError::Capture(e)));
        }
        let q = get_image_quality(&shared.image_qualities);
        match encoder_config(self.session.width, self.session.height, q) {
            Err(e) => self.go(Phase::Ended, Action::Fail(LoopError::Encode(e))),
            Ok(config) => {
                self.session.quality = q;
                self.go(
                    Phase::CreatingEncoder,
                    Action::CreateEncoder { config, threads: self.session.threads },
                )
            },
        }
    }

    /// Takes the result of constructing the encoder.
    fn on_encoder_created(&mut self, shared: &mut SharedCaptureState, ok: bool, now: u64) -> (action:
        Action)
        ensures
            realizes(
                on_encoder_created(old(self)@, old(shared).snapshot(), ok, now),
                *final(self),
                *old(shared),
                *final(shared),
                action,
            ),
    {
        if !ok {
            return self.go(Phase::Ended, Action::Fail(LoopError::Encode(EncodeError::Create)));
        }
        self.session.wait = WAIT_BASE;
        self.session.try_gdi = 1;
        self.session.start = now;
        self.session.last_check_displays = now;
        if shared.switch.pending {
            shared.switch.pending = false;
            let announcement = SwitchDisplay {
                display: #[verifier::truncate]
                (self.session.current as i32),
                x: self.session.x,
                y: self.session.y,
                width: #[verifier::truncate]
                (self.session.width as i32),
                height: #[verifier::truncate]
                (self.session.height as i32),
            };
            self.go(Phase::Announcing, Action::Announce(announcement))
        } else {
            self.go(Phase::Polling, Action::Poll)
        }
    }

    /// Takes the state of the service at the beginning of a tick.
    fn on_polled(
        &mut self,
        shared: &mut SharedCaptureState,
        active: bool,
        desktop_changed: bool,
        now: u64,
    ) -> (action: Action)
        ensures
            realizes(
                on_polled(old(self)@, old(shared).snapshot(), active, desktop_changed, now),
                *final(self),
                *old(shared),
                *final(shared),
                action,
            ),
    {
        if !active {
            return self.go(Phase::Ended, Action::Finish);
        }
        if shared.switch.pending {
            return self.restart(shared, RestartReason::SwitchPending, false);
        }
        if self.session.current != shared.selection.current {
            return self.restart(shared, RestartReason::DisplaySwitched, true);
        }
        if let PrivacyCheck::Changed { notify_others_than } = check_privacy_mode_changed(
            &shared.privacy_mode,
            self.session.privacy_mode_id,
        ) {
            return self.go(
                Phase::Ended,
                Action::Restart { reason: RestartReason::PrivacyModeChanged, notify_others_than },
            );
        }
        if get_image_quality(&shared.image_qualities) != self.session.quality {
            return self.restart(shared, RestartReason::QualityChanged, false);
        }
        if desktop_changed {
            return self.restart(shared, RestartReason::DesktopChanged, false);
        }
        self.session.tick = now;
        if millis(elapsed(now, self.session.last_check_displays)) > DISPLAY_CHECK_MILLIS {
            self.session.last_check_displays = now;
            return self.go(
                Phase::CheckingDisplays,
                Action::Enumerate { close_virtual_display: false },
            );
        }
        self.begin_capture(shared)
    }

    /// Takes what came of a capture.
    fn on_frame(&mut self, s: Ghost<SharedSnapshot>, outcome: FrameOutcome, now: u64) -> (action:
        Action)
        ensures
            realizes_loop(on_frame(old(self)@, s@, outcome, now), *final(self), action),
    {
        match outcome {
            FrameOutcome::Captured => self.go(
                Phase::CheckingSubscribers,
                Action::SnapshotSubscribers,
            ),
            FrameOutcome::WouldBlock { is_fallback } => {
                let waited = millis(elapsed(now, self.session.tick));
                self.session.wait = if waited >= WAIT_BASE as u64 {
                    0
                } else {
                    WAIT_BASE - waited as u32
                };
                let mut downgrade = false;
                if self.session.try_gdi > 0 && !is_fallback {
                    if self.session.try_gdi > FALLBACK_AFTER_MISSES {
                        downgrade = true;
                        self.session.try_gdi = 0;
                    }
                    self.session.try_gdi += 1;
                }
                if downgrade {
                    self.go(Phase::Downgrading, Action::Downgrade)
                } else {
                    self.go(Phase::Polling, Action::Poll)
                }
            },
            FrameOutcome::Failed => self.go(
                Phase::ExplainingFailure,
                Action::Enumerate { close_virtual_display: false },
            ),
        }
    }

    /// Takes the packets that the encoder held back.
    fn on_flushed(
        &mut self,
        s: Ghost<SharedSnapshot>,
        flushed: Option<Vec<EncodeFrame>>,
        now: u64,
    ) -> (action: Action)
        ensures
            realizes_loop(on_flushed(old(self)@, s@, flushed, now), *final(self), action),
    {
        match flushed {
            None => self.go(Phase::Ended, Action::Fail(LoopError::Encode(EncodeError::Flush))),
            Some(more) => {
                append_frames(&mut self.frames, more);
                if self.frames.len() > 0 {
                    self.go(Phase::Broadcasting, Action::SendVideoFrame)
                } else {
                    let nobody: HashSet<i32> = HashSet::new();
                    self.on_sent(s, nobody, now)
                }
            },
        }
    }

    /// Takes `event`, observed at clock reading `now`, and says what is to
    /// be done next.
    pub fn step(&mut self, shared: &mut SharedCaptureState, event: Event, now: u64) -> (action:
        Action)
        ensures
            realizes(
                spec_step(old(self)@, old(shared).snapshot(), event, now),
                *final(self),
                *old(shared),
                *final(shared),
                action,
            ),
    {
        let phase = self.session.phase;
        let ghost s = shared.snapshot();
        match event {
            Event::Begin => {
                if phase == Phase::Start {
                    return self.go(Phase::Cleanup, Action::QueryDisplayCount);
                }
            },
            Event::DisplayCount { count, device_created } => {
                if phase == Phase::Cleanup {
                    return match count {
                        Err(e) => self.go(Phase::Ended, Action::Fail(LoopError::Capture(e))),
                        Ok(n) => self.go(
                            Phase::Selecting,
                            Action::Enumerate {
                                close_virtual_display: ensuer_close_idd_display(n, device_created),
                            },
                        ),
                    };
                }
            },
            Event::Displays(enumerated) => {
                if phase == Phase::Selecting {
                    return self.on_selected(shared, enumerated);
                } else if phase == Phase::CheckingDisplays {
                    if self.session.ndisplay != get_display_num(&enumerated) {
                        return self.restart(shared, RestartReason::DisplaysChanged, true);
                    }
                    return self.begin_capture(shared);
                } else if phase == Phase::ExplainingFailure {
                    if check_display_changed(
                        self.session.ndisplay,
                        self.session.current,
                        self.session.width,
                        self.session.height,
                        &enumerated,
                    ) {
                        return self.restart(shared, RestartReason::DisplaysChanged, true);
                    }
                    return self.go(
                        Phase::Ended,
                        Action::Fail(LoopError::Capture(CaptureError::Capture)),
                    );
                }
            },
            Event::CapturerCreated(created) => {
                if phase == Phase::CreatingCapturer {
                    return self.on_capturer_created(shared, created);
                }
            },
            Event::EncoderCreated { ok } => {
                if phase == Phase::CreatingEncoder {
                    return self.on_encoder_created(shared, ok, now);
                }
            },
            Event::Announced => {
                if phase == Phase::Announcing {
                    return self.go(Phase::Polling, Action::Poll);
                }
            },
            Event::Polled { active, desktop_changed } => {
                if phase == Phase::Polling {
                    return self.on_polled(shared, active, desktop_changed, now);
                }
            },
            Event::Frame(outcome) => {
                if phase == Phase::Capturing {
                    return self.on_frame(Ghost(s), outcome, now);
                }
            },
            Event::Downgraded => {
                if phase == Phase::Downgrading {
                    return self.go(Phase::Polling, Action::Poll);
                }
            },
            Event::Subscribers { changed } => {
                if phase == Phase::CheckingSubscribers {
                    if changed {
                        return self.restart(shared, RestartReason::SubscribersChanged, false);
                    }
                    let pts = millis(elapsed(self.session.tick, self.session.start));
                    return self.go(Phase::Encoding, Action::Encode { pts_millis: pts as i64 });
                }
            },
            Event::Encoded(encoded) => {
                if phase == Phase::Encoding {
                    return match encoded {
                        None => self.go(
                            Phase::Ended,
                            Action::Fail(LoopError::Encode(EncodeError::Encode)),
                        ),
                        Some(frames) => {
                            self.frames.clear();
                            append_frames(&mut self.frames, frames);
                            assert(self.frames@ =~= spec_create_frames(frames@));
                            self.go(Phase::Flushing, Action::Flush)
                        },
                    };
                }
            },
            Event::Flushed(flushed) => {
                if phase == Phase::Flushing {
                    return self.on_flushed(Ghost(s), flushed, now);
                }
            },
            Event::Sent(ids) => {
                if phase == Phase::Broadcasting {
                    return self.on_sent(Ghost(s), ids, now);
                }
            },
            Event::Ack(ack) => {
                if phase == Phase::AwaitingAck {
                    let step = self.frame_controller.blocking_wait_next(ack, now);
                    return self.after_wait_step(Ghost(s), step, now);
                }
            },
            Event::Slept => {
                if phase == Phase::Sleeping {
                    return self.go(Phase::Polling, Action::Poll);
                }
            },
        }
        self.go(Phase::Ended, Action::Fail(LoopError::UnexpectedEvent))
    }
}

/// The capture loop of a session that has not begun, for this machine:
/// the encoder gets half of the processing units available.
pub fn new() -> (l: CaptureLoop)
    ensures
        exists|cpus: usize| l@.session == initial_session(#[trigger] spec_encoder_threads(cpus)),
        l@.controller == initial_controller(),
        l@.frames == Seq::<VP9>::empty(),
{
    CaptureLoop::with_threads(default_encoder_threads())
}

/// A session ends as soon as privacy mode belongs to another connection
/// than the one its capturer was built for. Where the session was built
/// for a holder and somebody else holds privacy mode now, every connection
/// but the new holder is told that it was taken over; a session built for
/// nobody, and a release, end the session without a notice.
pub proof fn lemma_privacy_takeover_ends_session(
    l: LoopView,
    s: SharedSnapshot,
    desktop_changed: bool,
    now: u64,
)
    requires
        l.session.phase == Phase::Polling,
        !s.switch,
        l.session.current == s.selection.current,
        l.session.privacy_mode_id != s.privacy_mode.conn_id,
    ensures
        spec_step(l, s, Event::Polled { active: true, desktop_changed }, now).action
            == (Action::Restart {
            reason: RestartReason::PrivacyModeChanged,
            notify_others_than: if l.session.privacy_mode_id != 0 && s.privacy_mode.conn_id != 0 {
                Some(s.privacy_mode.conn_id)
            } else {
                None
            },
        }),
        spec_step(l, s, Event::Polled { active: true, desktop_changed }, now).session.phase
            == Phase::Ended,
{
}

/// A tick that took less than the frame period ends in a pause for the
/// rest of it; a longer one ends in the next tick at once.
pub proof fn lemma_pacing_fills_the_frame_period(l: LoopView, s: SharedSnapshot, now: u64)
    ensures
        spec_elapsed(now, l.session.tick) < FRAME_PERIOD_MICROS ==> pace(l, s, now).action == (
        Action::Sleep { micros: (FRAME_PERIOD_MICROS - spec_elapsed(now, l.session.tick)) as u64 }),
        spec_elapsed(now, l.session.tick) >= FRAME_PERIOD_MICROS ==> pace(l, s, now).action
            == Action::Poll,
{
}

/// Before each capture nobody is armed: the controller is reset.
pub proof fn lemma_capture_awaits_nobody(l: LoopView, s: SharedSnapshot, event: Event, now: u64)
    requires
        spec_step(l, s, event, now).action is Capture,
    ensures
        spec_step(l, s, event, now).controller.armed.is_empty(),
        spec_step(l, s, event, now).session.phase == Phase::Capturing,
{
}

} // verus!
