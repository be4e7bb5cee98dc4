//! The capture session: a state machine over the display connection, the
//! crosshair cursor and the exclusive pointer grab. The session owns all
//! three resources together; it enters `Grabbed` only when every one of
//! them was acquired, and `teardown` releases them all, from any state.
//! The driver performing the actual display-server calls reports their
//! outcomes to these transitions.

use vstd::prelude::*;

verus! {

/// Where the capture session stands.
#[derive(Clone, Copy, Debug, PartialEq, Eq, Structural)]
pub enum Phase {
    /// Nothing acquired yet.
    Idle,
    /// Connection open, crosshair installed, exclusive pointer grab held.
    Grabbed,
    /// Grab held; blocked on the event queue until a button press.
    AwaitingInput,
    /// A button press arrived and its coordinates were recorded; the grab
    /// is still held.
    Captured,
    /// Every resource released; terminal.
    Released,
}

/// Absolute screen coordinates of a pointer event; never negative.
#[derive(Clone, Copy, Debug, PartialEq, Eq, Structural)]
pub struct ScreenPoint {
    pub x: i32,
    pub y: i32,
}

/// One capture session. At most one exists per invocation, so the
/// process holds at most one pointer grab at a time.
pub struct Session {
    /// Current phase of the session.
    pub phase: Phase,
    /// The point of the button press, once one was captured.
    pub point: Option<ScreenPoint>,
}

impl Session {
    /// The exclusive system-wide pointer grab is held exactly in the
    /// phases between a successful grab and the teardown.
    pub open spec fn holds_grab(self) -> bool {
        self.phase == Phase::Grabbed || self.phase == Phase::AwaitingInput || self.phase
            == Phase::Captured
    }

    /// The display connection is open exactly while the grab is: the
    /// session acquires connection, cursor and grab together and releases
    /// them together.
    pub open spec fn connection_open(self) -> bool {
        self.holds_grab()
    }

    /// A fresh session: nothing acquired, nothing captured.
    pub fn new() -> (s: Session)
        ensures
            s.phase == Phase::Idle,
            !s.holds_grab(),
            !s.connection_open(),
            s.point == Option::<ScreenPoint>::None,
    {
        Session { phase: Phase::Idle, point: None }
    }

    /// Records the outcome of acquiring the connection, the crosshair
    /// cursor and the pointer grab. On success the session holds them
    /// all; on failure it is already released (acquisition failure is
    /// fatal, and whatever was partially acquired must be given back at
    /// once).
    pub fn grab_attempt(&mut self, granted: bool) -> (ok: bool)
        requires
            old(self).phase == Phase::Idle,
        ensures
            ok == granted,
            granted ==> final(self).phase == Phase::Grabbed,
            !granted ==> final(self).phase == Phase::Released,
            final(self).holds_grab() == granted,
            final(self).connection_open() == granted,
            final(self).point == old(self).point,
    {
        if granted {
            self.phase = Phase::Grabbed;
        } else {
            self.phase = Phase::Released;
        }
        granted
    }

    /// Enters the blocking wait on the event queue, keeping the grab.
    pub fn begin_wait(&mut self)
        requires
            old(self).phase == Phase::Grabbed,
        ensures
            final(self).phase == Phase::AwaitingInput,
            final(self).holds_grab(),
            final(self).connection_open(),
            final(self).point == old(self).point,
    {
        self.phase = Phase::AwaitingInput;
    }

    /// Judges one delivered event. A button press ends the wait and
    /// records its coordinates; any other event is discarded and the wait
    /// goes on. The grab is held either way.
    pub fn on_event(&mut self, is_button_press: bool, x: i32, y: i32) -> (captured: bool)
        requires
            old(self).phase == Phase::AwaitingInput,
            is_button_press ==> x >= 0 && y >= 0,
        ensures
            captured == is_button_press,
            is_button_press ==> final(self).phase == Phase::Captured && final(self).point
                == Some(ScreenPoint { x, y }),
            !is_button_press ==> final(self).phase == Phase::AwaitingInput && final(self).point
                == old(self).point,
            final(self).holds_grab(),
            final(self).connection_open(),
    {
        if is_button_press {
            self.phase = Phase::Captured;
            self.point = Some(ScreenPoint { x, y });
            true
        } else {
            false
        }
    }

    /// Releases the grab, the cursor and the connection, from any state;
    /// a captured point survives the teardown. Afterward nothing is held,
    /// so another actor's grab attempt can succeed.
    pub fn teardown(&mut self)
        ensures
            final(self).phase == Phase::Released,
            !final(self).holds_grab(),
            !final(self).connection_open(),
            final(self).point == old(self).point,
    {
        self.phase = Phase::Released;
    }

    /// The captured coordinates, if a button press was seen.
    pub fn captured_point(&self) -> (p: Option<ScreenPoint>)
        ensures
            p == self.point,
    {
        self.point
    }
}

/// Resource reversibility: a session that reached `Released` holds
/// neither the pointer grab nor the display connection, so a subsequent
/// grab attempt — by this process or any other — is not blocked by it.
pub proof fn lemma_released_holds_nothing(s: Session)
    requires
        s.phase == Phase::Released,
    ensures
        !s.holds_grab(),
        !s.connection_open(),
{
}

} // verus!
