//! Reading the location on Windows: when to read, what counts as a fix, what to
//! report.

use vstd::prelude::*;

use crate::session::bridge::Fix;

verus! {

/// Seconds between fixes.
///
/// The service's own GPS tick is as long, so asking any faster would only produce
/// readings that overwrite each other unread.
pub const REFRESH_SECONDS: u64 = 10;

/// How old a cached reading may be, in units of 100 ns.
pub const MAX_AGE_TICKS: i64 = 50_000_000;

/// How long to wait for a reading, in units of 100 ns.
pub const TIMEOUT_TICKS: i64 = 300_000_000;

/// The bits of a double-precision zero: of either sign.
pub open spec fn is_zero(bits: u64) -> bool {
    bits == 0 || bits == 0x8000_0000_0000_0000
}

/// Whether a coordinate is zero, by its bits.
fn zero(bits: u64) -> (yes: bool)
    ensures
        yes == is_zero(bits),
{
    bits == 0 || bits == 0x8000_0000_0000_0000
}

/// What the sensor answered.
#[derive(Debug, Clone, Copy, PartialEq, Eq)]
pub enum SensorAnswer {
    /// A position.
    Position { fix: Fix },
    /// A failure.
    Failure,
}

/// The fix in an answer, where there is one: a position other than (0, 0).
pub open spec fn fix_of(answer: SensorAnswer) -> Option<Fix> {
    match answer {
        SensorAnswer::Position { fix } => if is_zero(fix.latitude) && is_zero(fix.longitude) {
            None
        } else {
            Some(fix)
        },
        SensorAnswer::Failure => None,
    }
}

/// The fix in an answer.
///
/// A successful call can still carry no position: the sensor can be initialising,
/// or have no data. Reporting (0, 0) as a fix would put the device in the Gulf of
/// Guinea, so this is treated as a failure instead.
pub fn fix_in(answer: SensorAnswer) -> (fix: Option<Fix>)
    ensures
        fix == fix_of(answer),
{
    match answer {
        SensorAnswer::Position { fix } => if zero(fix.latitude) && zero(fix.longitude) {
            None
        } else {
            Some(fix)
        },
        SensorAnswer::Failure => None,
    }
}

/// What is reported in the log.
#[derive(Debug, Clone, Copy, PartialEq, Eq)]
pub enum LocationNotice {
    /// The location is switched off in the system settings.
    SwitchedOff,
    /// There was no fix. Further failures will be silent.
    Failed,
    /// There is a fix again.
    Recovered,
    /// There is a fix.
    Located { fix: Fix },
}

/// Reads the location.
#[derive(Debug, Clone, Copy, PartialEq, Eq)]
pub struct LocationManager {
    /// The last fix.
    pub latest: Option<Fix>,
    /// A thread is to go on reading.
    pub running: bool,
}

/// The last fix once there was an answer, or none in it.
pub open spec fn latest_after(latest: Option<Fix>, fix: Option<Fix>) -> Option<Fix> {
    if fix is Some {
        fix
    } else {
        latest
    }
}

/// Something that happens to a location manager.
pub enum LocationEvent {
    Started,
    Stopped,
    /// The user was asked for the permission to read.
    Asked { granted: bool },
    /// The thread ended with an error.
    Failed,
    /// The sensor answered.
    Answered { answer: SensorAnswer },
}

/// The manager after one event.
pub open spec fn after_event(manager: LocationManager, event: LocationEvent) -> LocationManager {
    match event {
        LocationEvent::Started => LocationManager { running: true, ..manager },
        LocationEvent::Stopped => LocationManager { running: false, ..manager },
        LocationEvent::Asked { granted } => if granted {
            manager
        } else {
            LocationManager { running: false, ..manager }
        },
        LocationEvent::Failed => LocationManager { running: false, ..manager },
        LocationEvent::Answered { answer } => LocationManager {
            latest: latest_after(manager.latest, fix_of(answer)),
            ..manager
        },
    }
}

/// A start that comes next starts a thread.
pub open spec fn start_spawns(manager: LocationManager) -> bool {
    !manager.running
}

impl LocationManager {
    /// A manager that does not read yet.
    pub fn new() -> (manager: LocationManager)
        ensures
            manager == (LocationManager { latest: None, running: false }),
    {
        LocationManager { latest: None, running: false }
    }

    /// Start reading. Says whether a thread is to be started: a second start
    /// would leave two threads racing to write the same slot.
    pub fn start(&mut self) -> (spawn: bool)
        ensures
            spawn == start_spawns(*old(self)),
            *final(self) == after_event(*old(self), LocationEvent::Started),
    {
        let spawn = !self.running;
        self.running = true;
        spawn
    }

    /// The last fix.
    pub fn current_location(&self) -> (fix: Option<Fix>)
        ensures
            fix == self.latest,
    {
        self.latest
    }

    /// Stop reading.
    pub fn stop(&mut self)
        ensures
            *final(self) == after_event(*old(self), LocationEvent::Stopped),
    {
        self.running = false;
    }

    /// The user was asked for the permission to read. Says whether the thread goes on:
    /// a refusal ends it.
    pub fn on_permission(&mut self, granted: bool) -> (on: bool)
        ensures
            on == granted,
            *final(self) == after_event(*old(self), LocationEvent::Asked { granted }),
    {
        if !granted {
            self.on_ended();
        }
        granted
    }

    /// The thread ended by itself, so that a later start is not refused as already
    /// running. The last fix stays.
    pub fn on_ended(&mut self)
        ensures
            *final(self) == after_event(*old(self), LocationEvent::Failed),
            !final(self).running,
            final(self).latest == old(self).latest,
    {
        self.running = false;
    }
}

/// One thread's readings.
#[derive(Debug, Clone, Copy, PartialEq, Eq)]
pub struct LocationRun {
    /// The current run of failures has been reported.
    pub reported_failure: bool,
}

/// What is reported when the sensor answered.
pub open spec fn answer_notices(reported_failure: bool, fix: Option<Fix>) -> Seq<LocationNotice> {
    match fix {
        Some(fix) => if reported_failure {
            seq![LocationNotice::Recovered, LocationNotice::Located { fix }]
        } else {
            seq![LocationNotice::Located { fix }]
        },
        None => if reported_failure {
            seq![]
        } else {
            seq![LocationNotice::Failed]
        },
    }
}

impl LocationRun {
    /// A thread that has not read yet.
    pub fn new() -> (run: LocationRun)
        ensures
            !run.reported_failure,
    {
        LocationRun { reported_failure: false }
    }

    /// The location is switched off. That is a setting rather than a fault, and
    /// worth naming, once.
    pub fn on_switched_off(&mut self) -> (notice: Option<LocationNotice>)
        ensures
            final(self).reported_failure,
            notice == if old(self).reported_failure {
                None
            } else {
                Some(LocationNotice::SwitchedOff)
            },
    {
        let reported = self.reported_failure;
        self.reported_failure = true;
        if reported {
            None
        } else {
            Some(LocationNotice::SwitchedOff)
        }
    }

    /// The sensor answered. Only the first failure of a run is reported: a machine
    /// without a sensor would otherwise write a line for as long as it is on.
    pub fn on_answer(&mut self, manager: &mut LocationManager, fix: Option<Fix>) -> (notices: Vec<
        LocationNotice,
    >)
        ensures
            final(self).reported_failure == (fix is None),
            *final(manager) == (LocationManager {
                latest: latest_after(old(manager).latest, fix),
                ..*old(manager)
            }),
            notices@ == answer_notices(old(self).reported_failure, fix),
    {
        let mut notices: Vec<LocationNotice> = Vec::new();
        match fix {
            Some(fix) => {
                if self.reported_failure {
                    notices.push(LocationNotice::Recovered);
                }
                self.reported_failure = false;
                manager.latest = Some(fix);
                notices.push(LocationNotice::Located { fix });
            },
            None => {
                if !self.reported_failure {
                    self.reported_failure = true;
                    notices.push(LocationNotice::Failed);
                }
            },
        }
        assert(notices@ =~= answer_notices(old(self).reported_failure, fix));
        notices
    }
}

// ---------------------------------------------------------------------------
// Laws
// ---------------------------------------------------------------------------

/// The manager after all that happened, in order.
pub open spec fn after_events(
    manager: LocationManager,
    events: Seq<LocationEvent>,
) -> LocationManager
    decreases events.len(),
{
    if events.len() == 0 {
        manager
    } else {
        after_event(after_events(manager, events.drop_last()), events.last())
    }
}

/// The event ends the reading: a stop, a refusal or an error.
pub open spec fn ends_reading(event: LocationEvent) -> bool {
    event is Stopped || event is Failed || event == (LocationEvent::Asked { granted: false })
}

/// While the location is being read, further starts start no second thread and change
/// nothing, whatever the sensor answers meanwhile.
pub proof fn a_second_start_does_nothing(manager: LocationManager, events: Seq<LocationEvent>)
    requires
        manager.running,
        forall|i: int| 0 <= i < events.len() ==> !ends_reading(#[trigger] events[i]),
    ensures
        !start_spawns(after_events(manager, events)),
        after_event(after_events(manager, events), LocationEvent::Started) == after_events(
            manager,
            events,
        ),
    decreases events.len(),
{
    if events.len() > 0 {
        let ahead = events.drop_last();
        assert forall|i: int| 0 <= i < ahead.len() implies !ends_reading(#[trigger] ahead[i]) by {
            assert(ahead[i] == events[i]);
        }
        a_second_start_does_nothing(manager, ahead);
        assert(!ends_reading(events[events.len() - 1]));
    }
}

/// After the permission was refused or the reading ended with an error, a later start
/// reads anew; and the last fix stays until there is another.
pub proof fn an_ended_run_can_start_again(manager: LocationManager, event: LocationEvent)
    requires
        ends_reading(event),
    ensures
        start_spawns(after_event(manager, event)),
        after_event(after_event(manager, event), LocationEvent::Started).running,
        after_event(manager, event).latest == manager.latest,
{
}

/// A failed reading, and one of (0, 0), never changes the location.
pub proof fn readings_without_a_position_change_nothing(
    manager: LocationManager,
    answer: SensorAnswer,
)
    requires
        answer is Failure || (is_zero(answer->fix.latitude) && is_zero(answer->fix.longitude)),
    ensures
        after_event(manager, LocationEvent::Answered { answer }) == manager,
{
}

/// A run of failures is reported once, and its end is reported: after a failure a
/// further failure is silent, and a fix says that the location has recovered.
pub proof fn failures_are_reported_once(fix: Fix)
    ensures
        answer_notices(false, None) == seq![LocationNotice::Failed],
        answer_notices(true, None).len() == 0,
        answer_notices(true, Some(fix)).contains(LocationNotice::Recovered),
        !answer_notices(false, Some(fix)).contains(LocationNotice::Recovered),
{
    assert(answer_notices(true, Some(fix))[0] == LocationNotice::Recovered);
}

/// A position becomes the location as it was read, unless both of its coordinates are
/// zero, of either sign. Nothing else changes the location, and a reading changes nothing
/// else.
pub proof fn positions_become_the_location(manager: LocationManager, event: LocationEvent)
    ensures
        ({
            let after = after_event(manager, event);
            &&& event matches LocationEvent::Answered {
                answer: SensorAnswer::Position { fix },
            } ==> {
                let nowhere = (fix.latitude == 0 || fix.latitude == 0x8000_0000_0000_0000) && (
                fix.longitude == 0 || fix.longitude == 0x8000_0000_0000_0000);
                after.latest == (if nowhere { manager.latest } else { Some(fix) })
            }
            &&& !(event matches LocationEvent::Answered { answer: SensorAnswer::Position { .. } })
                ==> after.latest == manager.latest
            &&& event is Answered ==> after.running == manager.running
        }),
{
}

/// Reading goes on from a start to a stop, a refusal or an error.
pub proof fn reading_goes_on_until_it_ends(manager: LocationManager, event: LocationEvent)
    ensures
        ({
            let after = after_event(manager, event);
            &&& event is Started ==> after.running
            &&& event is Stopped || event is Failed ==> !after.running
            &&& event == (LocationEvent::Asked { granted: false }) ==> !after.running
            &&& event == (LocationEvent::Asked { granted: true }) ==> after.running
                == manager.running
            &&& start_spawns(manager) <==> !manager.running
        }),
{
}

/// Every fix is reported, a recovery ahead of the first one behind a failure, and of a run
/// of failures the first.
pub proof fn fixes_are_reported(reported_failure: bool, fix: Option<Fix>)
    ensures
        ({
            let notices = answer_notices(reported_failure, fix);
            &&& fix matches Some(f) ==> notices.len() > 0 && notices.last() == (
            LocationNotice::Located { fix: f })
            &&& notices.contains(LocationNotice::Recovered) <==> reported_failure && fix is Some
            &&& notices.contains(LocationNotice::Failed) <==> !reported_failure && fix is None
            &&& !notices.contains(LocationNotice::SwitchedOff)
            &&& fix is None && reported_failure ==> notices.len() == 0
        }),
{
    let notices = answer_notices(reported_failure, fix);
    if reported_failure && fix is Some {
        assert(notices[0] == LocationNotice::Recovered);
    }
    if !reported_failure && fix is None {
        assert(notices[0] == LocationNotice::Failed);
    }
}

} // verus!
