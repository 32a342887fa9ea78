//! Disk II mechanical noise events: motor start and stop, head seeks.

use vstd::prelude::*;

verus! {

/// Mechanical noise events for Disk II.
#[derive(Debug, Clone, Copy, PartialEq, Eq, Structural)]
pub enum MechanicalEvent {
    MotorStart,
    TrackSeek,
    MotorStop,
}

/// Tracks Disk II motor and head position to report mechanical events.
pub struct DiskMechTracker {
    pub motor_was_on: bool,
    pub last_half_track: u8,
}

/// The event a check reports, given the tracker's state before it.
pub open spec fn mech_event(motor_was_on: bool, last_half_track: u8, motor_on: bool, half_track: u8) -> Option<MechanicalEvent> {
    if !motor_was_on && motor_on {
        Some(MechanicalEvent::MotorStart)
    } else if motor_was_on && !motor_on {
        Some(MechanicalEvent::MotorStop)
    } else if motor_on && half_track != last_half_track {
        Some(MechanicalEvent::TrackSeek)
    } else {
        None
    }
}

impl DiskMechTracker {
    /// Motor off, head at half-track 0.
    pub fn new() -> (t: Self)
        ensures
            !t.motor_was_on && t.last_half_track == 0,
    {
        DiskMechTracker { motor_was_on: false, last_half_track: 0 }
    }

    /// Compare the drive's motor and head with what was last seen, report
    /// what changed (motor start before stop before seek), and remember the
    /// new state.
    pub fn check(&mut self, motor_on: bool, half_track: u8) -> (event: Option<MechanicalEvent>)
        ensures
            event == mech_event(old(self).motor_was_on, old(self).last_half_track, motor_on, half_track),
            final(self).motor_was_on == motor_on,
            final(self).last_half_track == half_track,
    {
        if !self.motor_was_on && motor_on {
            self.motor_was_on = true;
            self.last_half_track = half_track;
            return Some(MechanicalEvent::MotorStart);
        }

        if self.motor_was_on && !motor_on {
            self.motor_was_on = false;
            self.last_half_track = half_track;
            return Some(MechanicalEvent::MotorStop);
        }

        if motor_on && half_track != self.last_half_track {
            self.last_half_track = half_track;
            return Some(MechanicalEvent::TrackSeek);
        }

        self.motor_was_on = motor_on;
        self.last_half_track = half_track;
        None
    }

    /// Forget what was seen: motor off, head at half-track 0.
    pub fn reset(&mut self)
        ensures
            !final(self).motor_was_on && final(self).last_half_track == 0,
    {
        self.motor_was_on = false;
        self.last_half_track = 0;
    }
}

/// A second check with an unchanged drive reports nothing.
pub proof fn lemma_check_is_quiet_without_change(motor_on: bool, half_track: u8)
    ensures
        mech_event(motor_on, half_track, motor_on, half_track) is None,
{
}

impl Default for DiskMechTracker {
    /// A tracker that has seen the motor off and the head on track 0.
    fn default() -> (t: Self)
        ensures
            !t.motor_was_on && t.last_half_track == 0,
    {
        DiskMechTracker::new()
    }
}

} // verus!
