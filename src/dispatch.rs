//! The decisions of one dispatch: open a connection, issue the planned calls,
//! flush and synchronize on success, and release the connection exactly once
//! on every path that opened it.
//!
//! A driver outside the library performs each `Action` that `Dispatch::step`
//! returns and hands back what the display server answered as a `Reply`,
//! until the action is `Finish`.
use crate::event::{copy_error, wrong_platform, EventType, SimulateError};
use crate::plan::{
    char_plan, foreign_raw_key, keysym_of, plan_of, translate, unresolved_key, NativeCall, Plan,
    INJECTION_KEYCODE,
};
use vstd::prelude::*;

verus! {

/// Where a dispatch stands.
#[derive(Clone, Copy, Debug, PartialEq, Eq, Structural)]
pub enum Phase {
    /// Nothing done yet.
    Start,
    /// Waiting for the connection to open.
    Connecting,
    /// Waiting for the status of the last issued call.
    Sending,
    /// Waiting for the output buffer to be flushed.
    Flushing,
    /// Waiting for the round trip with the display server.
    Syncing,
    /// Waiting for the connection to close.
    Releasing,
    /// The result has been handed out.
    Done,
}

/// What the driver reports after performing an action.
#[derive(Clone, Copy, Debug, PartialEq, Eq, Structural)]
pub enum Reply {
    /// Nothing performed yet: the first reply of a dispatch.
    Begin,
    /// Whether the connection opened.
    Opened(bool),
    /// The status code that an issued call returned (0 is failure).
    Status(i32),
    /// A flush, a synchronization or a release was performed.
    Completed,
}

/// What the driver is to perform next.
#[derive(Debug, PartialEq, Eq)]
pub enum Action {
    /// Open a connection to the default display.
    Open,
    /// Issue one native call on the open connection.
    Issue(NativeCall),
    /// Flush the output buffer.
    Flush,
    /// Wait until the display server has processed every request.
    Sync,
    /// Close the connection.
    Release,
    /// The dispatch is over, with this result.
    Finish(Result<(), SimulateError>),
}

/// The plan of a translation that succeeded.
pub open spec fn planned(t: Result<Plan, SimulateError>) -> Option<Plan> {
    match t {
        Ok(p) => Some(p),
        Err(_) => None,
    }
}

/// What a dispatch reports if its connection opens and nothing has been sent.
pub open spec fn pending_outcome(t: Result<Plan, SimulateError>) -> Result<(), SimulateError> {
    match t {
        Ok(_) => Ok(()),
        Err(e) => Err(e),
    }
}

/// The status that a reply stands for while a call's status is awaited: its
/// status code, or failure for any other reply.
pub open spec fn status_of(r: Reply) -> i32 {
    match r {
        Reply::Status(s) => s,
        _ => 0,
    }
}

/// The result of sending a plan whose calls returned `st`: success exactly
/// when the combined status is not 0.
pub open spec fn sent_outcome(p: Plan, st: Seq<i32>) -> Result<(), SimulateError> {
    if p.combined(st) != 0 {
        Ok(())
    } else {
        Err(SimulateError::SendInput)
    }
}

/// One dispatch over one connection.
pub struct Dispatch {
    pub phase: Phase,
    /// The calls to make, where the translation succeeded.
    pub plan: Option<Plan>,
    /// The result handed out at the end.
    pub outcome: Result<(), SimulateError>,
    /// The number of calls issued.
    pub next: u128,
    /// The combined status of the replies so far.
    pub status: i32,
    /// Whether a connection was opened.
    pub acquired: bool,
    /// How many times the connection was released.
    pub releases: u32,
    /// The translation that the dispatch was made from.
    pub translated: Ghost<Result<Plan, SimulateError>>,
    /// The statuses received, one for each issued call that has answered.
    pub statuses: Ghost<Seq<i32>>,
}

impl Dispatch {
    /// Every call of the plan has answered, and the result follows from the
    /// statuses; or the translation failed and the result is its error.
    pub open spec fn settled(self) -> bool {
        match self.translated@ {
            Ok(p) => self.statuses@.len() == p.count() && self.outcome == sent_outcome(
                p,
                self.statuses@,
            ),
            Err(e) => self.outcome == Err::<(), SimulateError>(e),
        }
    }

    /// An upper bound on the number of steps left before `Done`.
    pub open spec fn remaining(self) -> nat {
        let calls: nat = match self.plan {
            Some(p) => p.count(),
            None => 0,
        };
        match self.phase {
            Phase::Start => calls + 5,
            Phase::Connecting => calls + 4,
            Phase::Sending => (calls - self.next + 4) as nat,
            Phase::Flushing => 3,
            Phase::Syncing => 2,
            Phase::Releasing => 1,
            Phase::Done => 0,
        }
    }

    /// The invariant of a dispatch.
    pub open spec fn wf(self) -> bool {
        &&& self.plan == planned(self.translated@)
        &&& self.releases <= 1
        &&& match self.phase {
            Phase::Start | Phase::Connecting => {
                &&& !self.acquired
                &&& self.releases == 0
                &&& self.statuses@.len() == 0
                &&& self.next == 0
                &&& self.outcome == pending_outcome(self.translated@)
            },
            Phase::Sending => {
                &&& self.acquired
                &&& self.releases == 0
                &&& self.plan is Some
                &&& 1 <= self.next <= self.plan.unwrap().count()
                &&& self.statuses@.len() + 1 == self.next
                &&& self.status == self.plan.unwrap().combined(self.statuses@)
                &&& self.outcome == Ok::<(), SimulateError>(())
            },
            Phase::Flushing | Phase::Syncing => {
                &&& self.acquired
                &&& self.releases == 0
                &&& self.settled()
                &&& self.outcome == Ok::<(), SimulateError>(())
            },
            Phase::Releasing => {
                &&& self.acquired
                &&& self.releases == 1
                &&& self.settled()
            },
            Phase::Done => {
                &&& self.releases == (if self.acquired {
                    1nat
                } else {
                    0nat
                })
                &&& self.acquired ==> self.settled()
                &&& !self.acquired ==> self.outcome == Err::<(), SimulateError>(
                    SimulateError::NoDisplay,
                )
            },
        }
    }

    /// A dispatch of a translation's result, before anything is done.
    pub fn new(translated: Result<Plan, SimulateError>) -> (d: Dispatch)
        ensures
            d.wf(),
            d.phase is Start,
            d.translated@ == translated,
            !d.acquired,
            d.releases == 0,
    {
        let ghost t = translated;
        let (plan, outcome) = match translated {
            Ok(p) => (Some(p), Ok(())),
            Err(e) => (None, Err(e)),
        };
        Dispatch {
            phase: Phase::Start,
            plan,
            outcome,
            next: 0,
            status: 0,
            acquired: false,
            releases: 0,
            translated: Ghost(t),
            statuses: Ghost(Seq::empty()),
        }
    }

    /// A dispatch of one event; `resolved` is what the key table gave for the
    /// event's symbolic key, if it has one.
    pub fn for_event(event: &EventType, resolved: Option<u32>) -> (d: Dispatch)
        ensures
            d.wf(),
            d.phase is Start,
            foreign_raw_key(*event) ==> (d.translated@ matches Err(e) && wrong_platform(e)),
            unresolved_key(*event, resolved) ==> d.translated@ == Err::<Plan, SimulateError>(
                SimulateError::NoCode,
            ),
            !foreign_raw_key(*event) && !unresolved_key(*event, resolved) ==> d.translated@ == Ok::<
                Plan,
                SimulateError,
            >(plan_of(*event, resolved)),
    {
        Dispatch::new(translate(event, resolved))
    }

    /// A dispatch that injects one character, pressed or released.
    pub fn for_char(c: char, pressed: bool) -> (d: Dispatch)
        ensures
            d.wf(),
            d.phase is Start,
            d.translated@ == Ok::<Plan, SimulateError>(
                Plan::Remapped { keycode: INJECTION_KEYCODE, keysym: keysym_of(c), pressed },
            ),
    {
        Dispatch::new(Ok(char_plan(c, pressed)))
    }

    fn proceed(&mut self) -> (a: Action)
        requires
            old(self).acquired,
            old(self).releases == 0,
            old(self).plan == planned(old(self).translated@),
            old(self).plan is Some,
            old(self).statuses@.len() == old(self).next,
            old(self).next <= old(self).plan.unwrap().count(),
            old(self).status == old(self).plan.unwrap().combined(old(self).statuses@),
            old(self).outcome == Ok::<(), SimulateError>(()),
        ensures
            final(self).wf(),
            final(self).translated == old(self).translated,
            final(self).statuses == old(self).statuses,
            final(self).acquired,
            a matches Action::Issue(c) ==> final(self).phase is Sending && final(self).next
                == old(self).next + 1 && c == old(self).plan.unwrap().call(old(self).next as int),
            a is Flush ==> final(self).phase is Flushing,
            a is Release ==> final(self).phase is Releasing && old(self).releases == 0
                && final(self).releases == 1 && final(self).outcome is Err,
            a is Issue || a is Flush || a is Release,
    {
        let p = self.plan.unwrap();
        if self.next < p.len() {
            let c = p.call_at(self.next);
            self.next = self.next + 1;
            self.phase = Phase::Sending;
            Action::Issue(c)
        } else if self.status != 0 {
            self.phase = Phase::Flushing;
            Action::Flush
        } else {
            self.outcome = Err(SimulateError::SendInput);
            self.releases = 1;
            self.phase = Phase::Releasing;
            Action::Release
        }
    }

    /// Takes the driver's reply to the last action and says what to perform
    /// next.
    pub fn step(&mut self, reply: Reply) -> (a: Action)
        requires
            old(self).wf(),
        ensures
            final(self).wf(),
            final(self).translated == old(self).translated,
            final(self).acquired == (old(self).acquired || old(self).phase is Connecting && reply
                == Reply::Opened(true)),
            old(self).phase is Sending ==> final(self).statuses@ == old(self).statuses@.push(
                status_of(reply),
            ),
            !(old(self).phase is Sending) ==> final(self).statuses == old(self).statuses,
            a is Open <==> old(self).phase is Start,
            a is Open ==> final(self).phase is Connecting,
            old(self).phase is Connecting && reply != Reply::Opened(true) ==> a == Action::Finish(
                Err(SimulateError::NoDisplay),
            ),
            a matches Action::Issue(c) ==> final(self).phase is Sending && final(self).next
                == old(self).next + 1 && c == final(self).plan.unwrap().call(old(self).next as int),
            a is Issue || a is Flush || a is Sync ==> final(self).acquired && final(self).releases
                == 0,
            a is Issue ==> old(self).translated@ is Ok,
            a is Flush ==> final(self).phase is Flushing,
            a is Sync <==> old(self).phase is Flushing,
            a is Sync ==> final(self).phase is Syncing,
            a is Release ==> final(self).phase is Releasing && old(self).releases == 0
                && final(self).releases == 1,
            !(a is Release) ==> final(self).releases == old(self).releases,
            a is Release && final(self).outcome is Ok ==> old(self).phase is Syncing,
            a matches Action::Finish(r) ==> final(self).phase is Done && r == final(self).outcome,
            old(self).phase is Done ==> *final(self) == *old(self),
            !(old(self).phase is Done) ==> final(self).remaining() < old(self).remaining(),
    {
        match self.phase {
            Phase::Start => {
                self.phase = Phase::Connecting;
                Action::Open
            },
            Phase::Connecting => {
                if reply == Reply::Opened(true) {
                    self.acquired = true;
                    if let Some(p) = self.plan {
                        self.status = p.start_status();
                        self.proceed()
                    } else {
                        self.releases = 1;
                        self.phase = Phase::Releasing;
                        Action::Release
                    }
                } else {
                    self.outcome = Err(SimulateError::NoDisplay);
                    self.phase = Phase::Done;
                    Action::Finish(Err(SimulateError::NoDisplay))
                }
            },
            Phase::Sending => {
                let s: i32 = match reply {
                    Reply::Status(s) => s,
                    _ => 0,
                };
                let p = self.plan.unwrap();
                proof {
                    let st = self.statuses@.push(s);
                    assert(st.drop_last() =~= self.statuses@);
                }
                if p.status_counts(self.next - 1) {
                    self.status = self.status & s;
                }
                self.statuses = Ghost(self.statuses@.push(s));
                self.proceed()
            },
            Phase::Flushing => {
                self.phase = Phase::Syncing;
                Action::Sync
            },
            Phase::Syncing => {
                self.releases = 1;
                self.phase = Phase::Releasing;
                Action::Release
            },
            Phase::Releasing => {
                self.phase = Phase::Done;
                Action::Finish(copy_outcome(&self.outcome))
            },
            Phase::Done => Action::Finish(copy_outcome(&self.outcome)),
        }
    }
}

fn copy_outcome(r: &Result<(), SimulateError>) -> (c: Result<(), SimulateError>)
    ensures
        c == *r,
{
    match r {
        Ok(u) => Ok(*u),
        Err(e) => Err(copy_error(e)),
    }
}

/// Injecting characters by code point is not available on this backend: the
/// call always fails with `SendInput`.
pub fn simulate_unicode(unicode: u16) -> (r: Result<(), SimulateError>)
    ensures
        r == Err::<(), SimulateError>(SimulateError::SendInput),
{
    Err(SimulateError::SendInput)
}

} // verus!
