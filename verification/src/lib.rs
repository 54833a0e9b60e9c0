pub mod auparse;

use vstd::prelude::*;
use crate::auparse::types::AUDIT_SYSTEM_BOOT;

verus! {

/// What the parser reported at one point of a scan for boot events.
pub enum ScanEvent {
    /// The status of advancing to the next event (positive when there is one).
    Advanced(i32),
    /// The record type number of the current event.
    Typed(u32),
    /// The timestamp, in seconds since the UNIX epoch, of the current event.
    Timed(i64),
}

/// What a scan for boot events does next.
pub enum ScanAction {
    /// Advance the parser to the next event.
    Advance,
    /// Read the record type of the current event.
    ReadType,
    /// Read the timestamp of the current event.
    ReadTime,
    /// Yield a boot entry with this time, in whole seconds since the UNIX epoch.
    Yield(u64),
    /// There are no more events: the scan ends without an entry.
    End,
}

/// The action that follows a scan event: after a successful advance, read the type; past the
/// last event (or on an error), end; at a boot event, read its time, and at any other, advance
/// again; with the time of a boot event, yield it.
pub open spec fn spec_scan_step(event: ScanEvent) -> ScanAction {
    match event {
        ScanEvent::Advanced(status) => if status > 0 {
            ScanAction::ReadType
        } else {
            ScanAction::End
        },
        ScanEvent::Typed(event_type) => if event_type == AUDIT_SYSTEM_BOOT {
            ScanAction::ReadTime
        } else {
            ScanAction::Advance
        },
        ScanEvent::Timed(timestamp) => ScanAction::Yield(timestamp as u64),
    }
}

/// One decision of a scan for the next boot event, which starts with `ScanAction::Advance`.
/// A boot's timestamp must not lie before the epoch (a time before it cannot be an entry's time).
pub fn scan_step(event: ScanEvent) -> (a: ScanAction)
    requires
        event matches ScanEvent::Timed(t) ==> t >= 0,
    ensures
        a == spec_scan_step(event),
        event matches ScanEvent::Advanced(status) ==> (status > 0 ==> a is ReadType),
        event matches ScanEvent::Advanced(status) ==> (status <= 0 ==> a is End),
        event matches ScanEvent::Typed(v) ==> (v == AUDIT_SYSTEM_BOOT ==> a is ReadTime),
        event matches ScanEvent::Typed(v) ==> (v != AUDIT_SYSTEM_BOOT ==> a is Advance),
        event matches ScanEvent::Timed(t) ==> (a matches ScanAction::Yield(secs) && secs == t),
{
    match event {
        ScanEvent::Advanced(status) => if status > 0 {
            ScanAction::ReadType
        } else {
            ScanAction::End
        },
        ScanEvent::Typed(event_type) => if event_type == AUDIT_SYSTEM_BOOT {
            ScanAction::ReadTime
        } else {
            ScanAction::Advance
        },
        ScanEvent::Timed(timestamp) => ScanAction::Yield(timestamp as u64),
    }
}

/// The times of the boot events among `events` (record type number and timestamp of each, in
/// the parser's order), in that order.
pub open spec fn boot_times(events: Seq<(u32, i64)>) -> Seq<u64>
    decreases events.len(),
{
    if events.len() == 0 {
        Seq::empty()
    } else if events[0].0 == AUDIT_SYSTEM_BOOT {
        seq![events[0].1 as u64] + boot_times(events.drop_first())
    } else {
        boot_times(events.drop_first())
    }
}

/// The scan decisions, whatever the inputs: an advance with a positive status reads the type and
/// any other ends; a boot type reads the time and every other type advances past the event
/// (so no other type ever ends the scan or yields); a time yields that time.
pub proof fn lemma_scan_step_decisions(status: i32, event_type: u32, timestamp: i64)
    ensures
        status > 0 ==> spec_scan_step(ScanEvent::Advanced(status)) is ReadType,
        status <= 0 ==> spec_scan_step(ScanEvent::Advanced(status)) is End,
        event_type == AUDIT_SYSTEM_BOOT ==> spec_scan_step(ScanEvent::Typed(event_type)) is ReadTime,
        event_type != AUDIT_SYSTEM_BOOT ==> spec_scan_step(ScanEvent::Typed(event_type)) is Advance,
        spec_scan_step(ScanEvent::Timed(timestamp)) == ScanAction::Yield(timestamp as u64),
{
}

/// The first boot event among `events`, told directly from the record types: its time, with
/// the events after it; `None` with no events left when there is no boot event.
pub open spec fn first_boot(events: Seq<(u32, i64)>) -> (Option<u64>, Seq<(u32, i64)>)
    decreases events.len(),
{
    if events.len() == 0 {
        (None, events)
    } else if events[0].0 == AUDIT_SYSTEM_BOOT {
        (Some(events[0].1 as u64), events.drop_first())
    } else {
        first_boot(events.drop_first())
    }
}

/// A parser driven by the actions that `spec_scan_step` returns, as the scan loop does: with
/// `remaining` events still to come and `current` the event it stands on, it carries out
/// `action` (advancing reports 1 and moves to the next event while one is left, and reports 0
/// otherwise; reading the type or time reports the current event's), for at most `fuel` steps.
/// `Yield(t)` gives `t` as the result and `End` gives none, at whatever step they come.
pub open spec fn drive(
    remaining: Seq<(u32, i64)>,
    current: (u32, i64),
    action: ScanAction,
    fuel: nat,
) -> (Option<u64>, Seq<(u32, i64)>)
    decreases fuel,
{
    match action {
        ScanAction::Yield(t) => (Some(t), remaining),
        ScanAction::End => (None, remaining),
        ScanAction::Advance => if fuel == 0 {
            (None, remaining)
        } else if remaining.len() > 0 {
            drive(
                remaining.drop_first(),
                remaining[0],
                spec_scan_step(ScanEvent::Advanced(1)),
                (fuel - 1) as nat,
            )
        } else {
            drive(remaining, current, spec_scan_step(ScanEvent::Advanced(0)), (fuel - 1) as nat)
        },
        ScanAction::ReadType => if fuel == 0 {
            (None, remaining)
        } else {
            drive(remaining, current, spec_scan_step(ScanEvent::Typed(current.0)), (fuel - 1) as nat)
        },
        ScanAction::ReadTime => if fuel == 0 {
            (None, remaining)
        } else {
            drive(remaining, current, spec_scan_step(ScanEvent::Timed(current.1)), (fuel - 1) as nat)
        },
    }
}

/// A scan started with `ScanAction::Advance` and given enough steps (two per event and three
/// more) stops at the first boot event and yields its time, leaving the events after it; with
/// no boot event it ends with nothing, having gone through every event.
pub proof fn lemma_drive_finds_first_boot(events: Seq<(u32, i64)>, current: (u32, i64), fuel: nat)
    requires
        fuel >= 2 * events.len() + 3,
    ensures
        drive(events, current, ScanAction::Advance, fuel) == first_boot(events),
    decreases events.len(),
{
    if events.len() > 0 {
        let e = events[0];
        let f1 = (fuel - 1) as nat;
        assert(drive(events, current, ScanAction::Advance, fuel) == drive(
            events.drop_first(),
            e,
            ScanAction::ReadType,
            f1,
        ));
        if e.0 == AUDIT_SYSTEM_BOOT {
            let f2 = (f1 - 1) as nat;
            assert(drive(events.drop_first(), e, ScanAction::ReadType, f1) == drive(
                events.drop_first(),
                e,
                ScanAction::ReadTime,
                f2,
            ));
            assert(drive(events.drop_first(), e, ScanAction::ReadTime, f2) == drive(
                events.drop_first(),
                e,
                ScanAction::Yield(e.1 as u64),
                (f2 - 1) as nat,
            ));
        } else {
            let f2 = (f1 - 1) as nat;
            assert(drive(events.drop_first(), e, ScanAction::ReadType, f1) == drive(
                events.drop_first(),
                e,
                ScanAction::Advance,
                f2,
            ));
            lemma_drive_finds_first_boot(events.drop_first(), e, f2);
        }
    } else {
        assert(drive(events, current, ScanAction::Advance, fuel) == drive(
            events,
            current,
            ScanAction::End,
            (fuel - 1) as nat,
        ));
    }
}

/// What one scan from `ScanAction::Advance` gives on a parser whose remaining events are
/// `events`, carried out as `drive` does, with the events left after it.
pub open spec fn scan_run(events: Seq<(u32, i64)>) -> (Option<u64>, Seq<(u32, i64)>) {
    drive(events, (0, 0), ScanAction::Advance, 2 * events.len() + 3)
}

/// The first boot's time is the first of the boot times, and the boot times after it are those
/// of the events it leaves; with no boot event there are no boot times and nothing is left.
pub proof fn lemma_first_boot_splits_boot_times(events: Seq<(u32, i64)>)
    ensures
        match first_boot(events) {
            (Some(t), rest) => {
                &&& rest.len() < events.len()
                &&& boot_times(events) == seq![t] + boot_times(rest)
            },
            (None, rest) => {
                &&& boot_times(events) == Seq::<u64>::empty()
                &&& rest.len() == 0
            },
        },
    decreases events.len(),
{
    if events.len() > 0 && events[0].0 != AUDIT_SYSTEM_BOOT {
        lemma_first_boot_splits_boot_times(events.drop_first());
    }
}

/// One scan yields the time of the first boot event and leaves the events after it, so the
/// boot times from there on are the rest; when there is no boot event it yields nothing and
/// leaves nothing.
pub proof fn lemma_scan_yields_next_boot(events: Seq<(u32, i64)>)
    ensures
        scan_run(events) == first_boot(events),
        match scan_run(events) {
            (Some(t), rest) => {
                &&& rest.len() < events.len()
                &&& boot_times(events) == seq![t] + boot_times(rest)
            },
            (None, rest) => {
                &&& boot_times(events) == Seq::<u64>::empty()
                &&& rest.len() == 0
            },
        },
{
    lemma_drive_finds_first_boot(events, (0, 0), 2 * events.len() + 3);
    lemma_first_boot_splits_boot_times(events);
}

/// Events of any type other than boot in front of a log change nothing of what a scan yields.
pub proof fn lemma_scan_skips_non_boot(e: (u32, i64), events: Seq<(u32, i64)>)
    requires
        e.0 != AUDIT_SYSTEM_BOOT,
    ensures
        scan_run(seq![e] + events) == scan_run(events),
{
    lemma_scan_yields_next_boot(seq![e] + events);
    lemma_scan_yields_next_boot(events);
    assert((seq![e] + events).drop_first() =~= events);
}

/// The times that scans repeated until one yields nothing give, in order.
pub open spec fn scan_all(events: Seq<(u32, i64)>) -> Seq<u64>
    decreases events.len(),
{
    match scan_run(events) {
        (Some(t), rest) => if rest.len() < events.len() {
            seq![t] + scan_all(rest)
        } else {
            seq![t]
        },
        (None, _) => Seq::empty(),
    }
}

/// Scanning over and over, as successive calls for the next boot do, yields exactly the times of
/// the boot events, each once, in the parser's order, and nothing of any other event.
pub proof fn lemma_scans_yield_all_boots(events: Seq<(u32, i64)>)
    ensures
        scan_all(events) == boot_times(events),
    decreases events.len(),
{
    lemma_scan_yields_next_boot(events);
    match scan_run(events) {
        (Some(t), rest) => {
            lemma_scans_yield_all_boots(rest);
        },
        (None, _) => {},
    }
}

} // verus!
