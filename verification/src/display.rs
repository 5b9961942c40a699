//! The displays of the machine, which of them is captured, and when the
//! set of displays has changed under a running session.

use crate::clock::{elapsed, secs, spec_elapsed, spec_secs};
use crate::error::CaptureError;
use vstd::prelude::*;

verus! {

/// The index that stands for "no display chosen".
pub const UNSET_DISPLAY: usize = usize::MAX;

/// Seconds without a viewer after which the choice of display is dropped.
pub const INACTIVITY_RESET_SECS: u64 = 30;

/// One display, as the operating system described it.
#[derive(Clone, Debug, PartialEq, Eq)]
pub struct Display {
    pub x: i32,
    pub y: i32,
    pub width: usize,
    pub height: usize,
    pub primary: bool,
    pub online: bool,
    pub name: String,
}

/// What viewers are told of a display.
#[derive(Clone, Debug, PartialEq, Eq)]
pub struct DisplayInfo {
    pub x: i32,
    pub y: i32,
    pub width: i32,
    pub height: i32,
    pub name: String,
    pub online: bool,
}

/// The display that is captured, and when a viewer last needed it.
#[derive(Clone, Copy, Debug, PartialEq, Eq, Structural)]
pub struct DisplaySelection {
    /// Index into the latest enumeration, or `UNSET_DISPLAY`.
    pub current: usize,
    /// Clock reading of the last capture tick.
    pub last_active: u64,
}

/// What viewers are told of display `d`.
pub open spec fn display_info(d: Display) -> DisplayInfo {
    DisplayInfo {
        x: d.x,
        y: d.y,
        width: d.width as i32,
        height: d.height as i32,
        name: d.name,
        online: d.online,
    }
}

/// What viewers are told of each display, in the order of enumeration.
pub open spec fn display_infos(ds: Seq<Display>) -> Seq<DisplayInfo> {
    Seq::new(ds.len(), |i: int| display_info(ds[i]))
}

/// Whether some display is marked primary.
pub open spec fn has_primary(ds: Seq<Display>) -> bool {
    exists|i: int| 0 <= i < ds.len() && ds[i].primary
}

/// Whether `p` is the index of the first primary display, or 0 where none
/// is primary.
pub open spec fn is_first_primary(ds: Seq<Display>, p: int) -> bool {
    if has_primary(ds) {
        &&& 0 <= p < ds.len()
        &&& ds[p].primary
        &&& forall|j: int| 0 <= j < p ==> !ds[j].primary
    } else {
        p == 0
    }
}

/// Whether `p` is the index of the last primary display, or 0 where none
/// is primary.
pub open spec fn is_last_primary(ds: Seq<Display>, p: int) -> bool {
    if has_primary(ds) {
        &&& 0 <= p < ds.len()
        &&& ds[p].primary
        &&& forall|j: int| p < j < ds.len() ==> !ds[j].primary
    } else {
        p == 0
    }
}

/// The index of the first primary display, or 0 where none is primary.
pub open spec fn first_primary(ds: Seq<Display>) -> int {
    choose|p: int| is_first_primary(ds, p)
}

/// The index of the last primary display, or 0 where none is primary.
pub open spec fn last_primary(ds: Seq<Display>) -> int {
    choose|p: int| is_last_primary(ds, p)
}

/// Only one index is the first primary display's.
pub proof fn lemma_first_primary_unique(ds: Seq<Display>, p: int)
    requires
        is_first_primary(ds, p),
    ensures
        first_primary(ds) == p,
{
    let c = first_primary(ds);
    assert(is_first_primary(ds, c));
    if has_primary(ds) {
        if c < p {
            assert(!ds[c].primary);
        } else if p < c {
            assert(!ds[p].primary);
        }
    }
}

/// Only one index is the last primary display's.
pub proof fn lemma_last_primary_unique(ds: Seq<Display>, p: int)
    requires
        is_last_primary(ds, p),
    ensures
        last_primary(ds) == p,
{
    let c = last_primary(ds);
    assert(is_last_primary(ds, c));
    if has_primary(ds) {
        if c < p {
            assert(!ds[p].primary);
        } else if p < c {
            assert(!ds[c].primary);
        }
    }
}

impl DisplaySelection {
    /// No display chosen; last active at `now`.
    pub open spec fn spec_new(now: u64) -> DisplaySelection {
        DisplaySelection { current: UNSET_DISPLAY, last_active: now }
    }

    /// No display chosen; last active at `now`.
    #[verifier::when_used_as_spec(spec_new)]
    pub fn new(now: u64) -> (s: DisplaySelection)
        ensures
            s == Self::spec_new(now),
    {
        DisplaySelection { current: UNSET_DISPLAY, last_active: now }
    }

    /// Whether no viewer has needed the display for thirty seconds at `now`.
    pub open spec fn is_stale(self, now: u64) -> bool {
        spec_secs(spec_elapsed(now, self.last_active)) >= INACTIVITY_RESET_SECS
    }

    /// The selection with the choice dropped where it is stale at `now`.
    pub open spec fn refreshed(self, now: u64) -> DisplaySelection {
        if self.is_stale(now) {
            DisplaySelection { current: UNSET_DISPLAY, ..self }
        } else {
            self
        }
    }

    /// The index that a choice `self.current` resolves to among `n`
    /// displays: itself where it is in range, else `fallback`.
    pub open spec fn resolved(self, n: nat, fallback: int) -> int {
        if self.current < n {
            self.current as int
        } else {
            fallback
        }
    }

    /// Drops the choice of display where it is stale at `now`.
    pub fn reset_if_stale(&mut self, now: u64)
        ensures
            *final(self) == old(self).refreshed(now),
    {
        if secs(elapsed(now, self.last_active)) >= INACTIVITY_RESET_SECS {
            self.current = UNSET_DISPLAY;
        }
    }
}

/// The index of the first primary display, or 0 where none is primary.
pub fn first_primary_index(displays: &Vec<Display>) -> (p: usize)
    ensures
        p == first_primary(displays@),
        displays.len() > 0 ==> p < displays.len(),
{
    let mut i: usize = 0;
    while i < displays.len()
        invariant
            i <= displays.len(),
            forall|j: int| 0 <= j < i ==> !displays@[j].primary,
        decreases displays.len() - i,
    {
        if displays[i].primary {
            proof {
                lemma_first_primary_unique(displays@, i as int);
            }
            return i;
        }
        i += 1;
    }
    proof {
        lemma_first_primary_unique(displays@, 0);
    }
    0
}

/// The index of the last primary display, or 0 where none is primary.
pub fn last_primary_index(displays: &Vec<Display>) -> (p: usize)
    ensures
        p == last_primary(displays@),
        displays.len() > 0 ==> p < displays.len(),
{
    let mut primary: usize = 0;
    let mut i: usize = 0;
    while i < displays.len()
        invariant
            i <= displays.len(),
            primary < displays.len() || primary == 0,
            (exists|j: int| 0 <= j < i && displays@[j].primary) ==> {
                &&& primary < i
                &&& displays@[primary as int].primary
                &&& forall|j: int| primary < j < i ==> !displays@[j].primary
            },
            !(exists|j: int| 0 <= j < i && displays@[j].primary) ==> primary == 0,
        decreases displays.len() - i,
    {
        if displays[i].primary {
            primary = i;
        }
        i += 1;
    }
    proof {
        lemma_last_primary_unique(displays@, primary as int);
    }
    primary
}

/// What viewers are told of each display, in the order of enumeration.
pub fn describe_displays(displays: &Vec<Display>) -> (infos: Vec<DisplayInfo>)
    ensures
        infos@ == display_infos(displays@),
{
    let mut infos: Vec<DisplayInfo> = Vec::new();
    let mut i: usize = 0;
    while i < displays.len()
        invariant
            i <= displays.len(),
            infos.len() == i,
            forall|j: int| 0 <= j < i ==> infos@[j] == display_info(displays@[j]),
        decreases displays.len() - i,
    {
        let d = &displays[i];
        infos.push(
            DisplayInfo {
                x: d.x,
                y: d.y,
                width: #[verifier::truncate]
                (d.width as i32),
                height: #[verifier::truncate]
                (d.height as i32),
                name: d.name.clone(),
                online: d.online,
            },
        );
        i += 1;
    }
    assert(infos@ =~= display_infos(displays@));
    infos
}

/// The number of displays in an enumeration, 0 where it failed.
pub fn get_display_num(enumerated: &Result<Vec<Display>, CaptureError>) -> (n: usize)
    ensures
        n == match *enumerated {
            Ok(ds) => ds.len(),
            Err(_) => 0,
        },
{
    match enumerated {
        Ok(d) => d.len(),
        Err(_) => 0,
    }
}

/// The index of the first primary display of an enumeration; 0 where none
/// is primary or the enumeration failed.
pub fn get_primary(enumerated: &Result<Vec<Display>, CaptureError>) -> (p: usize)
    ensures
        p == match *enumerated {
            Ok(ds) => first_primary(ds@),
            Err(_) => 0,
        },
{
    match enumerated {
        Ok(all) => first_primary_index(all),
        Err(_) => 0,
    }
}

/// Whether the displays `ds` differ from a session's baseline: another
/// count, or a primary display at another index or of another size.
pub open spec fn spec_display_changed(
    ds: Seq<Display>,
    last_n: usize,
    last_current: usize,
    last_width: usize,
    last_height: usize,
) -> bool {
    ||| ds.len() != last_n
    ||| exists|i: int|
        0 <= i < ds.len() && ds[i].primary && (i != last_current || ds[i].width != last_width
            || ds[i].height != last_height)
}

/// Whether the displays differ from a session's baseline. An enumeration
/// that failed counts as no change.
pub fn check_display_changed(
    last_n: usize,
    last_current: usize,
    last_width: usize,
    last_height: usize,
    enumerated: &Result<Vec<Display>, CaptureError>,
) -> (changed: bool)
    ensures
        changed == match *enumerated {
            Ok(ds) => spec_display_changed(ds@, last_n, last_current, last_width, last_height),
            Err(_) => false,
        },
{
    let displays = match enumerated {
        Ok(d) => d,
        Err(_) => {
            return false;
        },
    };
    let n = displays.len();
    if n != last_n {
        return true;
    }
    let mut i: usize = 0;
    while i < n
        invariant
            i <= n,
            n == displays.len(),
            n == last_n,
            *enumerated matches Ok(ds) && ds == *displays,
            forall|j: int|
                0 <= j < i && displays@[j].primary ==> j == last_current && displays@[j].width
                    == last_width && displays@[j].height == last_height,
        decreases n - i,
    {
        let d = &displays[i];
        assert(*d == displays@[i as int]);
        if d.primary {
            if i != last_current {
                return true;
            }
            if d.width != last_width || d.height != last_height {
                return true;
            }
        }
        i += 1;
    }
    false
}

/// Lists the displays for a viewer: the index of the chosen display and
/// what is told of each. A choice that is stale at `now` is dropped first;
/// a choice out of range becomes the last primary display and is kept.
pub fn get_displays(
    selection: &mut DisplaySelection,
    now: u64,
    enumerated: Result<Vec<Display>, CaptureError>,
) -> (r: Result<(usize, Vec<DisplayInfo>), CaptureError>)
    ensures
        final(selection).last_active == old(selection).last_active,
        match enumerated {
            Err(e) => r == Err::<(usize, Vec<DisplayInfo>), CaptureError>(e) && *final(selection)
                == old(selection).refreshed(now),
            Ok(ds) => {
                &&& r matches Ok((current, infos))
                &&& infos@ == display_infos(ds@)
                &&& current == old(selection).refreshed(now).resolved(
                    ds.len() as nat,
                    last_primary(ds@),
                )
                &&& ds.len() > 0 ==> current < ds.len()
                &&& final(selection).current == current
            },
        },
{
    selection.reset_if_stale(now);
    let all = match enumerated {
        Ok(all) => all,
        Err(e) => {
            return Err(e);
        },
    };
    let primary = last_primary_index(&all);
    let displays = describe_displays(&all);
    if selection.current >= displays.len() {
        selection.current = primary;
    }
    Ok((selection.current, displays))
}

/// What `switch_display` leaves as the chosen index: the index asked for
/// where the enumeration holds it, else what listing the displays leaves.
pub open spec fn spec_switch_display(
    selection: DisplaySelection,
    i: i32,
    now: u64,
    enumerated: Result<Vec<Display>, CaptureError>,
) -> DisplaySelection {
    match enumerated {
        Err(_) => selection.refreshed(now),
        Ok(ds) => DisplaySelection {
            current: if 0 <= i < ds.len() {
                i as usize
            } else {
                selection.refreshed(now).resolved(ds.len() as nat, last_primary(ds@)) as usize
            },
            last_active: selection.last_active,
        },
    }
}

/// Chooses display `i` for capture. Nothing is chosen where the
/// enumeration failed or holds no such index.
pub fn switch_display(
    selection: &mut DisplaySelection,
    i: i32,
    now: u64,
    enumerated: Result<Vec<Display>, CaptureError>,
)
    ensures
        *final(selection) == spec_switch_display(*old(selection), i, now, enumerated),
{
    if let Ok((_, displays)) = get_displays(selection, now, enumerated) {
        if i >= 0 && (i as usize) < displays.len() {
            selection.current = i as usize;
        }
    }
}

/// Chooses the first primary display of the enumeration for capture.
pub fn switch_to_primary(
    selection: &mut DisplaySelection,
    now: u64,
    enumerated: Result<Vec<Display>, CaptureError>,
)
    ensures
        *final(selection) == spec_switch_display(
            *old(selection),
            match enumerated {
                Ok(ds) => first_primary(ds@) as i32,
                Err(_) => 0,
            },
            now,
            enumerated,
        ),
{
    let p = get_primary(&enumerated);
    switch_display(selection, #[verifier::truncate] (p as i32), now, enumerated);
}

/// The display that a session captures: the number of displays, the index
/// of the chosen one, and the display itself. A choice out of range becomes
/// the first primary display and is kept.
pub fn get_current_display(
    selection: &mut DisplaySelection,
    enumerated: Result<Vec<Display>, CaptureError>,
) -> (r: Result<(usize, usize, Display), CaptureError>)
    ensures
        final(selection).last_active == old(selection).last_active,
        match enumerated {
            Err(e) => r == Err::<(usize, usize, Display), CaptureError>(e) && *final(selection)
                == *old(selection),
            Ok(ds) => if ds.len() == 0 {
                r == Err::<(usize, usize, Display), CaptureError>(CaptureError::NoDisplays)
                    && *final(selection) == *old(selection)
            } else {
                &&& r matches Ok((n, current, display))
                &&& n == ds.len()
                &&& current == old(selection).resolved(ds.len() as nat, first_primary(ds@))
                &&& current < ds.len()
                &&& display == ds@[current as int]
                &&& final(selection).current == current
            },
        },
{
    let mut displays = match enumerated {
        Ok(all) => all,
        Err(e) => {
            return Err(e);
        },
    };
    if displays.len() == 0 {
        return Err(CaptureError::NoDisplays);
    }
    let n = displays.len();
    let mut current = selection.current;
    if current >= n {
        current = first_primary_index(&displays);
        selection.current = current;
    }
    let display = displays.remove(current);
    Ok((n, current, display))
}

/// What to do about the virtual display device while enumerating.
#[derive(Clone, Copy, Debug, PartialEq, Eq, Structural)]
pub enum ProvisionAction {
    /// Install the virtual display device.
    CreateDevice,
    /// Plug a monitor into the virtual display device.
    PlugInMonitor,
    /// Push the default modes to the plugged monitor.
    UpdateMonitorModes,
    /// Remove the virtual display device, then use the displays found.
    CloseDevice,
    /// Enumerate the displays once more and use what comes back.
    QueryAgain,
    /// Use the displays found.
    Done,
}

/// What has just happened while enumerating.
#[derive(Clone, Copy, Debug, PartialEq, Eq, Structural)]
pub enum ProvisionEvent {
    /// The displays were enumerated: how many, and whether the virtual
    /// display device exists.
    Queried { count: usize, device_created: bool },
    /// Installing the device was tried; whether the device exists now.
    CreateAttempted { device_created: bool },
    /// Plugging a monitor was tried; whether it succeeded.
    PlugAttempted { ok: bool },
    /// Pushing the modes was tried.
    ModesUpdated,
}

/// The next step of an enumeration. With no display at all a virtual one
/// is provided; with more than one display the virtual device is removed.
pub open spec fn spec_try_get_displays_step(event: ProvisionEvent) -> ProvisionAction {
    match event {
        ProvisionEvent::Queried { count, device_created } => if count == 0 {
            if device_created {
                ProvisionAction::PlugInMonitor
            } else {
                ProvisionAction::CreateDevice
            }
        } else if count > 1 && device_created {
            ProvisionAction::CloseDevice
        } else {
            ProvisionAction::Done
        },
        ProvisionEvent::CreateAttempted { device_created } => if device_created {
            ProvisionAction::PlugInMonitor
        } else {
            ProvisionAction::QueryAgain
        },
        ProvisionEvent::PlugAttempted { ok } => if ok {
            ProvisionAction::UpdateMonitorModes
        } else {
            ProvisionAction::QueryAgain
        },
        ProvisionEvent::ModesUpdated => ProvisionAction::QueryAgain,
    }
}

/// The next step of an enumeration, after `event`.
pub fn try_get_displays_step(event: ProvisionEvent) -> (action: ProvisionAction)
    ensures
        action == spec_try_get_displays_step(event),
{
    match event {
        ProvisionEvent::Queried { count, device_created } => {
            if count == 0 {
                if !device_created {
                    ProvisionAction::CreateDevice
                } else {
                    ProvisionAction::PlugInMonitor
                }
            } else if count > 1 {
                if device_created {
                    ProvisionAction::CloseDevice
                } else {
                    ProvisionAction::Done
                }
            } else {
                ProvisionAction::Done
            }
        },
        ProvisionEvent::CreateAttempted { device_created } => {
            if device_created {
                ProvisionAction::PlugInMonitor
            } else {
                ProvisionAction::QueryAgain
            }
        },
        ProvisionEvent::PlugAttempted { ok } => {
            if ok {
                ProvisionAction::UpdateMonitorModes
            } else {
                ProvisionAction::QueryAgain
            }
        },
        ProvisionEvent::ModesUpdated => ProvisionAction::QueryAgain,
    }
}

/// Whether the virtual display device is to be removed before a session
/// starts: always with no display at all, and with more than one display
/// where the device exists.
pub fn ensuer_close_idd_display(num_displays: usize, device_created: bool) -> (close: bool)
    ensures
        close == (num_displays == 0 || (num_displays > 1 && device_created)),
{
    if num_displays == 0 {
        true
    } else if num_displays > 1 {
        device_created
    } else {
        false
    }
}

/// Once the choice of display is stale it is dropped, and the next listing
/// resolves it to the last primary display of the enumeration.
pub proof fn lemma_stale_selection_resolves_to_primary(
    selection: DisplaySelection,
    now: u64,
    ds: Seq<Display>,
)
    requires
        selection.is_stale(now),
        ds.len() < usize::MAX,
    ensures
        selection.refreshed(now).current == UNSET_DISPLAY,
        selection.refreshed(now).resolved(ds.len(), last_primary(ds)) == last_primary(ds),
{
}

} // verus!
