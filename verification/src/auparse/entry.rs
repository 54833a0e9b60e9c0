use vstd::prelude::*;
use crate::auparse::types::{Type, type_of_code};

verus! {

/// One parsed audit event.
///
/// `time` is the event's timestamp, in whole seconds since the UNIX epoch.
#[derive(Debug)]
pub struct Entry {
    pub etype: Type,
    pub time: u64,
    pub pid: i32,
    pub uid: i32,
    pub gid: i32,
}

/// Whether the parser's status after advancing to the next event says that an event is there
/// (the parser answers 1 for an event, 0 at the end and -1 on an error).
pub open spec fn spec_has_event(status: i32) -> bool {
    status == 1
}

impl Entry {
    /// Whether, after advancing the parser to its next event with the given status, there is an
    /// event to parse.
    pub fn has_next(status: i32) -> (b: bool)
        ensures
            b == spec_has_event(status),
    {
        status == 1
    }

    /// Builds the entry of the current event from what the parser reports of it: its record type
    /// number, its timestamp in seconds, and its `pid`, `uid` and `gid` fields.
    ///
    /// The timestamp must not lie before the epoch (a time before it cannot be an entry's time).
    pub fn parse(type_id: u32, timestamp: i64, pid: i32, uid: i32, gid: i32) -> (e: Entry)
        requires
            timestamp >= 0,
        ensures
            e.etype == type_of_code(type_id),
            e.time == timestamp,
            e.pid == pid,
            e.uid == uid,
            e.gid == gid,
    {
        let etype: Type = Type::from(type_id);
        Entry { etype, time: timestamp as u64, pid, uid, gid }
    }
}

} // verus!
