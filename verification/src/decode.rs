//! The notification decoder: from the raw buffer that the operating system
//! filled to the ordered list of change events.
//!
//! The buffer holds a chain of variable-length records. Each record starts
//! with three little-endian 32-bit fields: the offset from this record to the
//! next one (zero in the last record), an action code, and the length in
//! bytes of the name that follows as UTF-16 code units.

use crate::event::{event_views, EventView, WatchEvent, WatchEventKind};
use vstd::prelude::*;
use vstd::string::*;

verus! {

/// Bytes taken by the three fixed fields of a record.
pub const HEADER_LEN: usize = 12;

/// Action code: a file or directory was added.
pub const ACTION_ADDED: u32 = 1;

/// Action code: a file or directory was removed.
pub const ACTION_REMOVED: u32 = 2;

/// Action code: a file or directory was modified.
pub const ACTION_MODIFIED: u32 = 3;

/// Action code: the old name of a renamed file or directory.
pub const ACTION_RENAMED_OLD_NAME: u32 = 4;

/// Action code: the new name of a renamed file or directory.
pub const ACTION_RENAMED_NEW_NAME: u32 = 5;

/// The separator that is put between the watch root and a name.
pub const SEPARATOR: char = '\\';

/// What one record says: its action code and its name in UTF-16 code units.
pub struct RawRecord {
    pub action: u32,
    pub name: Seq<u16>,
}

/// What a buffer holds: the records that could be read, in order, and whether
/// reading stopped at a record that does not fit.
pub struct RawChain {
    pub records: Seq<RawRecord>,
    pub truncated: bool,
}

/// The result of decoding one buffer.
#[derive(Debug, Clone)]
pub struct Decoded {
    /// The events, in the order of their records.
    pub events: Vec<WatchEvent>,
    /// Whether a record failed the bound check, so that the rest of the
    /// buffer was skipped.
    pub anomaly: bool,
}

/// The text that a sequence of UTF-16 code units decodes to, with the
/// replacement character in place of each unpaired surrogate.
pub uninterp spec fn utf16_lossy(units: Seq<u16>) -> Seq<char>;

/// Whether a code unit is one half of a surrogate pair.
pub open spec fn is_surrogate(unit: u16) -> bool {
    0xD800 <= unit <= 0xDFFF
}

/// Whether no code unit of a name is a surrogate, so that each one is a
/// character by itself.
pub open spec fn is_plain(units: Seq<u16>) -> bool {
    forall|i: int| 0 <= i < units.len() ==> !is_surrogate(#[trigger] units[i])
}

/// The text of a name without surrogates: one character for each code unit,
/// with the code unit's number.
pub open spec fn plain_text(units: Seq<u16>) -> Seq<char> {
    Seq::new(units.len(), |i: int| units[i] as char)
}

/// The text of a name: character by character where it has no surrogates,
/// and what the lossy decoding gives where it has.
pub open spec fn name_text(units: Seq<u16>) -> Seq<char> {
    if is_plain(units) {
        plain_text(units)
    } else {
        utf16_lossy(units)
    }
}

/// The little-endian 32-bit number at `at`.
pub open spec fn le_u32_at(buf: Seq<u8>, at: int) -> int {
    buf[at] as int + 256 * (buf[at + 1] as int) + 65536 * (buf[at + 2] as int) + 16777216 * (
    buf[at + 3] as int)
}

/// The little-endian 16-bit code unit at `at`.
pub open spec fn le_u16_at(buf: Seq<u8>, at: int) -> int {
    buf[at] as int + 256 * (buf[at + 1] as int)
}

/// Offset from the record at `off` to the next one; zero in the last record.
pub open spec fn next_offset(buf: Seq<u8>, off: int) -> int {
    le_u32_at(buf, off)
}

/// Action code of the record at `off`.
pub open spec fn action_code(buf: Seq<u8>, off: int) -> int {
    le_u32_at(buf, off + 4)
}

/// Length in bytes of the name of the record at `off`.
pub open spec fn name_byte_len(buf: Seq<u8>, off: int) -> int {
    le_u32_at(buf, off + 8)
}

/// The `count` code units that start at byte `start`.
pub open spec fn units_at(buf: Seq<u8>, start: int, count: int) -> Seq<u16> {
    Seq::new(count as nat, |i: int| le_u16_at(buf, start + 2 * i) as u16)
}

/// The name of the record at `off`: half as many code units as its length in
/// bytes.
pub open spec fn name_units(buf: Seq<u8>, off: int) -> Seq<u16> {
    units_at(buf, off + 12, name_byte_len(buf, off) / 2)
}

/// The bound check: the record at `off` lies within the first `len` bytes,
/// header and name, and its offset to the next record does not lead past
/// them.
pub open spec fn record_fits(buf: Seq<u8>, len: int, off: int) -> bool {
    &&& 0 <= off
    &&& off + 12 <= len
    &&& off + 12 + name_byte_len(buf, off) <= len
    &&& off + next_offset(buf, off) <= len
}

/// The record at `off`.
pub open spec fn record_at(buf: Seq<u8>, off: int) -> RawRecord {
    RawRecord { action: action_code(buf, off) as u32, name: name_units(buf, off) }
}

/// The chain of records that starts at `off` within the first `len` bytes.
/// It ends after a record whose offset to the next is zero, or before a
/// record that fails the bound check.
pub open spec fn chain_from(buf: Seq<u8>, len: int, off: int) -> RawChain
    decreases len - off,
{
    if !record_fits(buf, len, off) {
        RawChain { records: Seq::empty(), truncated: true }
    } else if next_offset(buf, off) <= 0 {
        RawChain { records: seq![record_at(buf, off)], truncated: false }
    } else {
        let rest = chain_from(buf, len, off + next_offset(buf, off));
        RawChain { records: seq![record_at(buf, off)] + rest.records, truncated: rest.truncated }
    }
}

/// How many of the bytes of a buffer count: the length that was reported, or
/// the buffer's own where that is shorter.
pub open spec fn counted_len(buf: Seq<u8>, len: int) -> int {
    if len < buf.len() {
        len
    } else {
        buf.len() as int
    }
}

/// What a buffer of which `len` bytes were filled holds. An empty one holds
/// nothing and is in order.
pub open spec fn chain_of(buf: Seq<u8>, len: int) -> RawChain {
    if counted_len(buf, len) <= 0 {
        RawChain { records: Seq::empty(), truncated: false }
    } else {
        chain_from(buf, counted_len(buf, len), 0)
    }
}

/// The kind that an action code stands for. A code that is not known counts
/// as a modification.
pub open spec fn kind_of(action: u32) -> WatchEventKind {
    if action == ACTION_ADDED {
        WatchEventKind::Create
    } else if action == ACTION_REMOVED {
        WatchEventKind::Remove
    } else if action == ACTION_RENAMED_OLD_NAME || action == ACTION_RENAMED_NEW_NAME {
        WatchEventKind::Rename
    } else {
        WatchEventKind::Modify
    }
}

/// Whether `c` separates the parts of a path.
pub open spec fn is_separator(c: char) -> bool {
    c == '\\' || c == '/'
}

/// The watch root joined with a name: one separator between the two, none
/// added where the root already ends in one.
pub open spec fn joined(root: Seq<char>, name: Seq<char>) -> Seq<char> {
    if root.len() > 0 && is_separator(root.last()) {
        root + name
    } else {
        root + seq![SEPARATOR] + name
    }
}

/// The event that a record under `root` stands for, given the text of its
/// name.
pub open spec fn event_named(root: Seq<char>, action: u32, name: Seq<char>) -> EventView {
    EventView { path: joined(root, name), kind: kind_of(action) }
}

/// The event that a record under `root` stands for.
pub open spec fn event_of(root: Seq<char>, rec: RawRecord) -> EventView {
    event_named(root, rec.action, name_text(rec.name))
}

/// The events that a list of records under `root` stands for, in order.
pub open spec fn events_of(root: Seq<char>, records: Seq<RawRecord>) -> Seq<EventView> {
    Seq::new(records.len(), |i: int| event_of(root, records[i]))
}

/// Maps an action code to the kind of change.
pub fn kind_of_action(action: u32) -> (kind: WatchEventKind)
    ensures
        kind == kind_of(action),
{
    if action == ACTION_ADDED {
        WatchEventKind::Create
    } else if action == ACTION_REMOVED {
        WatchEventKind::Remove
    } else if action == ACTION_RENAMED_OLD_NAME || action == ACTION_RENAMED_NEW_NAME {
        WatchEventKind::Rename
    } else {
        WatchEventKind::Modify
    }
}

/// Joins the watch root with a name relative to it.
pub fn join_path(root: &str, name: &str) -> (path: String)
    ensures
        path@ == joined(root@, name@),
{
    let n: usize = root.unicode_len();
    let mut ends_in_separator: bool = false;
    if n > 0 {
        let last: char = root.get_char(n - 1);
        ends_in_separator = last == '\\' || last == '/';
    }
    let mut path = String::from_str(root);
    if !ends_in_separator {
        proof {
            reveal_strlit("\\");
        }
        path.append("\\");
        assert(path@ =~= root@ + seq![SEPARATOR]);
    }
    path.append(name);
    path
}

/// Builds the event for a record under `root` whose name decoded to `name`.
pub fn make_event(root: &str, action: u32, name: &str) -> (ev: WatchEvent)
    ensures
        ev@ == event_named(root@, action, name@),
{
    WatchEvent { path: join_path(root, name), kind: kind_of_action(action) }
}

/// Reads the little-endian 32-bit number at `at`.
pub fn read_u32(buf: &[u8], at: usize) -> (v: u32)
    requires
        at + 4 <= buf@.len(),
    ensures
        v == le_u32_at(buf@, at as int),
{
    let b0: u32 = buf[at] as u32;
    let b1: u32 = buf[at + 1] as u32;
    let b2: u32 = buf[at + 2] as u32;
    let b3: u32 = buf[at + 3] as u32;
    b0 + 256 * b1 + 65536 * b2 + 16777216 * b3
}

/// Reads `count` little-endian code units that start at byte `start`.
pub fn read_units(buf: &[u8], start: usize, count: usize) -> (units: Vec<u16>)
    requires
        start + 2 * count <= buf@.len(),
    ensures
        units@ == units_at(buf@, start as int, count as int),
{
    let total: usize = buf.len();
    let mut units: Vec<u16> = Vec::new();
    let mut i: usize = 0;
    while i < count
        invariant
            i <= count,
            total == buf@.len(),
            start + 2 * count <= total,
            units@.len() == i,
            forall|k: int| 0 <= k < i ==> units@[k] == le_u16_at(buf@, start + 2 * k) as u16,
        decreases count - i,
    {
        let lo: u16 = buf[start + 2 * i] as u16;
        let hi: u16 = buf[start + 2 * i + 1] as u16;
        units.push(lo + 256 * hi);
        i += 1;
    }
    assert(units@ =~= units_at(buf@, start as int, count as int));
    units
}

/// `String::from_utf16_lossy` of std: the text of the code units, each
/// unpaired surrogate replaced by U+FFFD. The contract claims that code
/// units without a surrogate among them give one character each, with the
/// code unit's number. Of any other input it only names the text: it claims
/// that the result is a function of the code units alone.
#[verifier::external_body]
fn decode_utf16_lossy(units: &[u16]) -> (text: String)
    ensures
        text@ == utf16_lossy(units@),
        is_plain(units@) ==> text@ == plain_text(units@),
{
    String::from_utf16_lossy(units)
}

/// Decodes the first `len` bytes of `buf` into the events of its records, in
/// their order, each path being `root` joined with the record's name.
///
/// Decoding ends after the record whose offset to the next is zero. A record
/// that fails the bound check ends it too: that record and what follows give
/// no event, and `anomaly` is set. Nothing is read beyond `len` bytes or the
/// end of `buf`.
pub fn decode_notifications(root: &str, buf: &[u8], len: usize) -> (out: Decoded)
    ensures
        event_views(out.events@) == events_of(root@, chain_of(buf@, len as int).records),
        out.events@.len() == chain_of(buf@, len as int).records.len(),
        forall|i: int|
            0 <= i < out.events@.len() ==> (#[trigger] out.events@[i])@ == event_of(
                root@,
                chain_of(buf@, len as int).records[i],
            ),
        out.anomaly == chain_of(buf@, len as int).truncated,
{
    let limit: usize = if len < buf.len() {
        len
    } else {
        buf.len()
    };
    let mut events: Vec<WatchEvent> = Vec::new();
    if limit == 0 {
        assert(event_views(events@) =~= events_of(root@, chain_of(buf@, len as int).records));
        return Decoded { events, anomaly: false };
    }
    let ghost whole = chain_from(buf@, limit as int, 0);
    let ghost mut done: Seq<RawRecord> = Seq::empty();
    let mut anomaly: bool = false;
    let mut off: usize = 0;
    loop
        invariant_except_break
            whole.records == done + chain_from(buf@, limit as int, off as int).records,
            whole.truncated == chain_from(buf@, limit as int, off as int).truncated,
            event_views(events@) == events_of(root@, done),
            !anomaly,
        invariant
            limit <= buf@.len(),
            off <= limit,
            whole == chain_from(buf@, limit as int, 0),
        ensures
            event_views(events@) == events_of(root@, whole.records),
            anomaly == whole.truncated,
        decreases limit - off,
    {
        if limit - off < HEADER_LEN {
            anomaly = true;
            assert(whole.records =~= done);
            break ;
        }
        let next: u32 = read_u32(buf, off);
        let action: u32 = read_u32(buf, off + 4);
        let name_len: u32 = read_u32(buf, off + 8);
        let room: usize = limit - off;
        if name_len as usize > room - HEADER_LEN || next as usize > room {
            anomaly = true;
            assert(whole.records =~= done);
            break ;
        }
        let units = read_units(buf, off + HEADER_LEN, (name_len / 2) as usize);
        let name = decode_utf16_lossy(units.as_slice());
        let ev = make_event(root, action, name.as_str());
        let ghost rec = record_at(buf@, off as int);
        assert(ev@ == event_of(root@, rec));
        let ghost before = events@;
        events.push(ev);
        proof {
            assert(event_views(before).len() == before.len());
            assert(events_of(root@, done).len() == done.len());
            assert(event_views(events@) =~= events_of(root@, done.push(rec))) by {
                assert forall|i: int| 0 <= i < events@.len() implies event_views(events@)[i]
                    == events_of(root@, done.push(rec))[i] by {
                    if i < before.len() {
                        assert(event_views(before)[i] == events_of(root@, done)[i]);
                    }
                }
            }
            assert(done.push(rec) =~= done + seq![rec]);
        }
        if next == 0 {
            proof {
                assert(whole.records =~= done.push(rec));
            }
            break ;
        }
        proof {
            let rest = chain_from(buf@, limit as int, off as int + next as int);
            assert(whole.records =~= done.push(rec) + rest.records);
            done = done.push(rec);
        }
        off = off + next as usize;
    }
    proof {
        assert(event_views(events@).len() == events@.len());
        assert(events_of(root@, whole.records).len() == whole.records.len());
        assert forall|i: int| 0 <= i < events@.len() implies (#[trigger] events@[i])@ == event_of(
            root@,
            whole.records[i],
        ) by {
            assert(event_views(events@)[i] == events_of(root@, whole.records)[i]);
        }
    }
    Decoded { events, anomaly }
}

} // verus!
