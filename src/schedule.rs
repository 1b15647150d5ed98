use vstd::prelude::*;

use crate::announcements::{is_announcement_of, AnnouncementList};
use crate::category::Category;

verus! {

/// The fixed offset east of UTC, in seconds, of the clock that the trigger
/// times are read on (UTC+11).
pub const UTC_OFFSET_SECS: i32 = 39600;

/// The category whose trigger time is `hour:minute`, if any: 08:45 for the
/// morning announcements, 23:00 for curfew.
pub open spec fn due_at(hour: u32, minute: u32) -> Option<Category> {
    if hour == 8 && minute == 45 {
        Some(Category::Morning)
    } else if hour == 23 && minute == 0 {
        Some(Category::Curfew)
    } else {
        None
    }
}

/// The category due at `hour:minute`, if any.
pub fn due_category(hour: u32, minute: u32) -> (r: Option<Category>)
    ensures
        r == due_at(hour, minute),
{
    if hour == 8 && minute == 45 {
        Some(Category::Morning)
    } else if hour == 23 && minute == 0 {
        Some(Category::Curfew)
    } else {
        None
    }
}

/// What one wake-up of the announcement loop broadcasts at `hour:minute`:
/// nothing off the trigger times, else an announcement of the due category.
pub fn tick_at(hour: u32, minute: u32, morning: &AnnouncementList, curfew: &AnnouncementList) -> (r:
    Option<String>)
    ensures
        due_at(hour, minute) is None ==> r is None,
        due_at(hour, minute) == Some(Category::Morning) ==> (r is Some && is_announcement_of(
            morning@,
            r->Some_0@,
        )),
        due_at(hour, minute) == Some(Category::Curfew) ==> (r is Some && is_announcement_of(
            curfew@,
            r->Some_0@,
        )),
{
    match due_category(hour, minute) {
        Some(Category::Morning) => Some(morning.make_announcement()),
        Some(Category::Curfew) => Some(curfew.make_announcement()),
        None => None,
    }
}

/// Relies on chrono's `Utc::now`, `FixedOffset::east_opt` and
/// `Timelike::{hour, minute}`: the hour (0 to 23) and minute (0 to 59) of the
/// current time at `offset_secs` east of UTC. `east_opt` accepts offsets under
/// one day.
#[verifier::external_body]
fn clock_hour_minute(offset_secs: i32) -> (r: (u32, u32))
    requires
        -86400 < offset_secs < 86400,
    ensures
        r.0 < 24,
        r.1 < 60,
{
    let offset = chrono::FixedOffset::east_opt(offset_secs).unwrap();
    let now = chrono::Utc::now().with_timezone(&offset);
    (chrono::Timelike::hour(&now), chrono::Timelike::minute(&now))
}

/// One wake-up of the announcement loop on the current time at UTC+11:
/// nothing, or an announcement of the morning or of the curfew list.
pub fn tick(morning: &AnnouncementList, curfew: &AnnouncementList) -> (r: Option<String>)
    ensures
        r is Some ==> is_announcement_of(morning@, r->Some_0@) || is_announcement_of(
            curfew@,
            r->Some_0@,
        ),
{
    let (hour, minute) = clock_hour_minute(UTC_OFFSET_SECS);
    tick_at(hour, minute, morning, curfew)
}

/// What a request to start the announcement loop led to.
#[derive(Clone, Copy, Debug, PartialEq, Eq, Structural)]
pub enum StartOutcome {
    /// The loop was idle: it is to be launched now.
    Started,
    /// The loop runs already: nothing is launched.
    AlreadyRunning,
}

/// The outcome of a start request on a loop that is running or not.
pub open spec fn start_outcome(running: bool) -> StartOutcome {
    if running {
        StartOutcome::AlreadyRunning
    } else {
        StartOutcome::Started
    }
}

/// How many loops an outcome launches.
pub open spec fn launches(o: StartOutcome) -> nat {
    match o {
        StartOutcome::Started => 1,
        StartOutcome::AlreadyRunning => 0,
    }
}

/// The state of the announcement loop: idle until started, then running for
/// good.
pub struct Scheduler {
    running: bool,
}

impl Scheduler {
    /// Whether the loop has been started.
    pub closed spec fn spec_running(&self) -> bool {
        self.running
    }

    /// An idle scheduler.
    pub fn new() -> (r: Self)
        ensures
            !r.spec_running(),
    {
        Scheduler { running: false }
    }

    /// Whether the loop has been started.
    pub fn is_running(&self) -> (r: bool)
        ensures
            r == self.spec_running(),
    {
        self.running
    }

    /// Marks the loop as running; says whether it was to be launched now.
    pub fn start(&mut self) -> (r: StartOutcome)
        ensures
            final(self).spec_running(),
            r == start_outcome(old(self).spec_running()),
    {
        let r = if self.running {
            StartOutcome::AlreadyRunning
        } else {
            StartOutcome::Started
        };
        self.running = true;
        r
    }
}

/// The reply to a start request.
pub fn start_reply(o: StartOutcome) -> (r: &'static str)
    ensures
        r@ == match o {
            StartOutcome::Started => "loop should've started!"@,
            StartOutcome::AlreadyRunning => "loop already running!"@,
        },
{
    match o {
        StartOutcome::Started => "loop should've started!",
        StartOutcome::AlreadyRunning => "loop already running!",
    }
}

/// Two start requests in a row leave exactly one loop running: the loops
/// running before, plus those each request launches, make one.
pub proof fn lemma_start_twice_runs_one_loop(s: Scheduler)
    ensures
        ({
            let first = start_outcome(s.spec_running());
            let second = start_outcome(true);
            (if s.spec_running() { 1nat } else { 0nat }) + launches(first) + launches(second) == 1
                && second == StartOutcome::AlreadyRunning
        }),
{
}

} // verus!
