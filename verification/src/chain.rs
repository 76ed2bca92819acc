//! What the decoder yields on buffers of a known shape: a chain of records
//! that is complete, one that breaks off at a record that does not fit, and a
//! rename reported as two records.

use crate::decode::{
    chain_from, chain_of, counted_len, event_of, events_of, is_plain, is_surrogate, joined,
    kind_of, name_text, next_offset, plain_text, record_at, record_fits, RawChain, RawRecord,
    ACTION_RENAMED_NEW_NAME, ACTION_RENAMED_OLD_NAME,
};
use crate::event::WatchEventKind;
use vstd::prelude::*;

verus! {

/// Whether `records` lie one after the other from `off` within the first
/// `len` bytes, each passing the bound check and leading by a nonzero offset
/// to the next, the last of them leading to `end`.
pub open spec fn chain_reaches(
    buf: Seq<u8>,
    len: int,
    off: int,
    records: Seq<RawRecord>,
    end: int,
) -> bool
    decreases records.len(),
{
    if records.len() == 0 {
        off == end
    } else {
        &&& record_fits(buf, len, off)
        &&& record_at(buf, off) == records[0]
        &&& next_offset(buf, off) > 0
        &&& chain_reaches(buf, len, off + next_offset(buf, off), records.skip(1), end)
    }
}

/// The chain from `off` is the records up to `end`, then the chain from
/// `end`.
pub proof fn lemma_chain_splits(
    buf: Seq<u8>,
    len: int,
    off: int,
    records: Seq<RawRecord>,
    end: int,
)
    requires
        chain_reaches(buf, len, off, records, end),
    ensures
        chain_from(buf, len, off).records == records + chain_from(buf, len, end).records,
        chain_from(buf, len, off).truncated == chain_from(buf, len, end).truncated,
    decreases records.len(),
{
    if records.len() == 0 {
        assert(chain_from(buf, len, off).records =~= records + chain_from(buf, len, end).records);
    } else {
        let next = off + next_offset(buf, off);
        lemma_chain_splits(buf, len, next, records.skip(1), end);
        assert(records =~= seq![records[0]] + records.skip(1));
        assert(chain_from(buf, len, off).records =~= records + chain_from(
            buf,
            len,
            end,
        ).records);
    }
}

/// A buffer that holds a complete chain of records gives one event for each
/// record, in the order of the records, with the kind that belongs to the
/// record's action code and the root joined with the record's name as its
/// path; no anomaly is flagged. The chain is `earlier` followed by the record
/// at `last`, whose offset to the next is zero.
pub proof fn law_one_event_per_record(
    root: Seq<char>,
    buf: Seq<u8>,
    len: int,
    earlier: Seq<RawRecord>,
    last: int,
)
    requires
        chain_reaches(buf, counted_len(buf, len), 0, earlier, last),
        record_fits(buf, counted_len(buf, len), last),
        next_offset(buf, last) == 0,
    ensures
        chain_of(buf, len) == (RawChain {
            records: earlier.push(record_at(buf, last)),
            truncated: false,
        }),
        events_of(root, chain_of(buf, len).records).len() == earlier.len() + 1,
        forall|i: int|
            0 <= i <= earlier.len() ==> {
                let ev = #[trigger] events_of(root, chain_of(buf, len).records)[i];
                let rec = earlier.push(record_at(buf, last))[i];
                &&& ev == event_of(root, rec)
                &&& ev.kind == kind_of(rec.action)
                &&& ev.path == joined(root, name_text(rec.name))
            },
{
    let limit = counted_len(buf, len);
    lemma_chain_splits(buf, limit, 0, earlier, last);
    assert(chain_from(buf, limit, 0).records =~= earlier.push(record_at(buf, last)));
}

/// A record that fails the bound check ends decoding: the events are exactly
/// those of the records before it, and the anomaly is flagged.
pub proof fn law_stops_at_unfit_record(
    root: Seq<char>,
    buf: Seq<u8>,
    len: int,
    earlier: Seq<RawRecord>,
    bad: int,
)
    requires
        0 < counted_len(buf, len),
        chain_reaches(buf, counted_len(buf, len), 0, earlier, bad),
        !record_fits(buf, counted_len(buf, len), bad),
    ensures
        chain_of(buf, len) == (RawChain { records: earlier, truncated: true }),
        events_of(root, chain_of(buf, len).records) == events_of(root, earlier),
{
    let limit = counted_len(buf, len);
    lemma_chain_splits(buf, limit, 0, earlier, bad);
    assert(chain_from(buf, limit, 0).records =~= earlier);
}

/// A record whose offset to the next one leads past the bytes that were
/// filled ends decoding without an event of its own: the events are exactly
/// those of the records before it.
pub proof fn law_stops_at_overlong_offset(
    root: Seq<char>,
    buf: Seq<u8>,
    len: int,
    earlier: Seq<RawRecord>,
    bad: int,
)
    requires
        0 < counted_len(buf, len),
        chain_reaches(buf, counted_len(buf, len), 0, earlier, bad),
        bad + next_offset(buf, bad) > counted_len(buf, len),
    ensures
        chain_of(buf, len) == (RawChain { records: earlier, truncated: true }),
        events_of(root, chain_of(buf, len).records) == events_of(root, earlier),
        events_of(root, chain_of(buf, len).records).len() == earlier.len(),
{
    law_stops_at_unfit_record(root, buf, len, earlier, bad);
}

/// The same root joined with two names gives the same path only for the same
/// name.
pub proof fn lemma_joined_is_injective(root: Seq<char>, a: Seq<char>, b: Seq<char>)
    ensures
        joined(root, a) == joined(root, b) <==> a == b,
{
    if joined(root, a) == joined(root, b) {
        let head = joined(root, Seq::<char>::empty());
        assert(joined(root, a) =~= head + a);
        assert(joined(root, b) =~= head + b);
        assert((head + a).subrange(head.len() as int, (head + a).len() as int) =~= a);
        assert((head + b).subrange(head.len() as int, (head + b).len() as int) =~= b);
    }
}

/// Two names without surrogates have the same text only if they are the same
/// name.
pub proof fn lemma_plain_text_is_injective(a: Seq<u16>, b: Seq<u16>)
    requires
        is_plain(a),
        is_plain(b),
        plain_text(a) == plain_text(b),
    ensures
        a == b,
{
    assert(plain_text(a).len() == a.len());
    assert(plain_text(b).len() == b.len());
    assert forall|i: int| 0 <= i < a.len() implies a[i] == b[i] by {
        assert(plain_text(a)[i] == a[i] as char);
        assert(plain_text(b)[i] == b[i] as char);
        assert(!is_surrogate(a[i]) && !is_surrogate(b[i]));
        assert(a[i] as char as int == a[i] as int);
        assert(b[i] as char as int == b[i] as int);
    }
    assert(a =~= b);
}

/// A rename comes as a record with the old name directly followed by one with
/// the new name. The two give two events of kind `Rename`, in that order, the
/// first with the old name in its path and the second with the new one. The
/// two paths differ exactly when the two names have different text, and so
/// whenever two names without surrogates differ.
pub proof fn law_rename_gives_two_events(root: Seq<char>, records: Seq<RawRecord>, i: int)
    requires
        0 <= i,
        i + 1 < records.len(),
        records[i].action == ACTION_RENAMED_OLD_NAME,
        records[i + 1].action == ACTION_RENAMED_NEW_NAME,
    ensures
        events_of(root, records).len() == records.len(),
        events_of(root, records)[i].kind == WatchEventKind::Rename,
        events_of(root, records)[i + 1].kind == WatchEventKind::Rename,
        events_of(root, records)[i].path == joined(root, name_text(records[i].name)),
        events_of(root, records)[i + 1].path == joined(root, name_text(records[i + 1].name)),
        events_of(root, records)[i].path != events_of(root, records)[i + 1].path <==> name_text(
            records[i].name,
        ) != name_text(records[i + 1].name),
        is_plain(records[i].name) && is_plain(records[i + 1].name) && records[i].name
            != records[i + 1].name ==> events_of(root, records)[i].path != events_of(
            root,
            records,
        )[i + 1].path,
{
    if is_plain(records[i].name) && is_plain(records[i + 1].name) && name_text(records[i].name)
        == name_text(records[i + 1].name) {
        lemma_plain_text_is_injective(records[i].name, records[i + 1].name);
    }
    lemma_joined_is_injective(
        root,
        name_text(records[i].name),
        name_text(records[i + 1].name),
    );
}

} // verus!
