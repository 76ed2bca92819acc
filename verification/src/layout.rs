//! How records are written into a notification buffer, and that the decoder
//! reads back exactly what was written.

use crate::decode::{
    action_code, chain_from, chain_of, event_of, events_of, le_u16_at, le_u32_at, name_byte_len,
    name_units, next_offset, record_at, record_fits, units_at, RawChain, RawRecord,
};
use vstd::prelude::*;

verus! {

/// The four bytes of a 32-bit number, lowest first.
pub open spec fn le_bytes_u32(x: int) -> Seq<u8> {
    seq![
        (x % 256) as u8,
        (x / 256 % 256) as u8,
        (x / 65536 % 256) as u8,
        (x / 16777216 % 256) as u8,
    ]
}

/// The bytes of a name: two for each code unit, the lower one first.
pub open spec fn le_bytes_units(name: Seq<u16>) -> Seq<u8> {
    Seq::new(
        2 * name.len(),
        |k: int|
            if k % 2 == 0 {
                (name[k / 2] % 256) as u8
            } else {
                (name[k / 2] / 256) as u8
            },
    )
}

/// The bytes that a record takes: the header and the name.
pub open spec fn record_len(rec: RawRecord) -> int {
    12 + 2 * (rec.name.len() as int)
}

/// One record as it is written, with `next` as its offset to the next one.
pub open spec fn written_record(rec: RawRecord, next: int) -> Seq<u8> {
    le_bytes_u32(next) + le_bytes_u32(rec.action as int) + le_bytes_u32(
        2 * (rec.name.len() as int),
    ) + le_bytes_units(rec.name)
}

/// Records written one after the other, each leading to the next and the
/// last with the offset zero.
pub open spec fn written(records: Seq<RawRecord>) -> Seq<u8>
    decreases records.len(),
{
    if records.len() == 0 {
        Seq::empty()
    } else if records.len() == 1 {
        written_record(records[0], 0)
    } else {
        written_record(records[0], record_len(records[0])) + written(records.skip(1))
    }
}

/// Whether each record is short enough for its length to be written in 32
/// bits.
pub open spec fn writable(records: Seq<RawRecord>) -> bool {
    forall|i: int| 0 <= i < records.len() ==> record_len(#[trigger] records[i]) < 0x1_0000_0000
}

/// A number below 2^32 is read back from its four bytes.
pub proof fn lemma_u32_reads_back(buf: Seq<u8>, at: int, x: int)
    requires
        0 <= x < 0x1_0000_0000,
        0 <= at,
        at + 4 <= buf.len(),
        buf.subrange(at, at + 4) == le_bytes_u32(x),
    ensures
        le_u32_at(buf, at) == x,
{
    let b = le_bytes_u32(x);
    assert(buf[at] == buf.subrange(at, at + 4)[0]);
    assert(buf[at + 1] == buf.subrange(at, at + 4)[1]);
    assert(buf[at + 2] == buf.subrange(at, at + 4)[2]);
    assert(buf[at + 3] == buf.subrange(at, at + 4)[3]);
    assert(b[0] == (x % 256) as u8);
    assert(b[1] == (x / 256 % 256) as u8);
    assert(b[2] == (x / 65536 % 256) as u8);
    assert(b[3] == (x / 16777216 % 256) as u8);
}

/// A record that stands written at `off` is read there field by field.
pub proof fn lemma_record_reads_back(buf: Seq<u8>, off: int, rec: RawRecord, next: int)
    requires
        0 <= off,
        0 <= next < 0x1_0000_0000,
        record_len(rec) < 0x1_0000_0000,
        off + record_len(rec) <= buf.len(),
        buf.subrange(off, off + record_len(rec)) == written_record(rec, next),
    ensures
        next_offset(buf, off) == next,
        name_byte_len(buf, off) == 2 * rec.name.len(),
        record_at(buf, off) == rec,
{
    let w = written_record(rec, next);
    let n = rec.name.len() as int;
    assert(w.len() == 12 + 2 * n);
    assert forall|k: int| 0 <= k < 12 + 2 * n implies buf[off + k] == w[k] by {
        assert(buf.subrange(off, off + record_len(rec))[k] == buf[off + k]);
    }
    let f0 = buf.subrange(off, off + 4);
    let f1 = buf.subrange(off + 4, off + 8);
    let f2 = buf.subrange(off + 8, off + 12);
    let w0 = le_bytes_u32(next);
    let w1 = le_bytes_u32(rec.action as int);
    let w2 = le_bytes_u32(2 * n);
    assert(f0 =~= w0) by {
        assert forall|k: int| 0 <= k < 4 implies #[trigger] f0[k] == w0[k] by {
            assert(buf[off + k] == w[k]);
        }
    }
    assert(f1 =~= w1) by {
        assert forall|k: int| 0 <= k < 4 implies #[trigger] f1[k] == w1[k] by {
            assert(buf[off + (4 + k)] == w[4 + k]);
        }
    }
    assert(f2 =~= w2) by {
        assert forall|k: int| 0 <= k < 4 implies #[trigger] f2[k] == w2[k] by {
            assert(buf[off + (8 + k)] == w[8 + k]);
        }
    }
    lemma_u32_reads_back(buf, off, next);
    lemma_u32_reads_back(buf, off + 4, rec.action as int);
    lemma_u32_reads_back(buf, off + 8, 2 * n);
    assert(action_code(buf, off) == rec.action);
    assert(name_byte_len(buf, off) / 2 == n);
    assert forall|i: int| 0 <= i < n implies name_units(buf, off)[i] == rec.name[i] by {
        let lo = 12 + 2 * i;
        assert(buf[off + lo] == w[lo]);
        assert(buf[off + (lo + 1)] == w[lo + 1]);
        assert(w[lo] == le_bytes_units(rec.name)[2 * i]);
        assert(w[lo + 1] == le_bytes_units(rec.name)[2 * i + 1]);
        assert((2 * i) / 2 == i && (2 * i) % 2 == 0);
        assert((2 * i + 1) / 2 == i && (2 * i + 1) % 2 == 1);
        assert(units_at(buf, off + 12, n)[i] == le_u16_at(buf, off + 12 + 2 * i) as u16);
    }
    assert(name_units(buf, off) =~= rec.name);
}

/// Records that stand written from `off` to the end of the counted bytes
/// are the chain that is read from `off`.
pub proof fn lemma_written_reads_back(buf: Seq<u8>, len: int, off: int, records: Seq<RawRecord>)
    requires
        records.len() > 0,
        writable(records),
        0 <= off,
        len == off + written(records).len(),
        len <= buf.len(),
        buf.subrange(off, len) == written(records),
    ensures
        chain_from(buf, len, off) == (RawChain { records, truncated: false }),
    decreases records.len(),
{
    let rec = records[0];
    let size = record_len(rec);
    if records.len() == 1 {
        assert(written(records).len() == size);
        lemma_record_reads_back(buf, off, rec, 0);
        assert(chain_from(buf, len, off).records =~= records);
    } else {
        let rest = records.skip(1);
        let head = written_record(rec, size);
        assert(head.len() == size);
        assert(written(records) =~= head + written(rest));
        let tail = written(rest);
        let got_head = buf.subrange(off, off + size);
        let got_tail = buf.subrange(off + size, len);
        assert(got_head =~= head) by {
            assert forall|k: int| 0 <= k < size implies #[trigger] got_head[k] == head[k] by {
                assert(buf.subrange(off, len)[k] == buf[off + k]);
            }
        }
        assert(got_tail =~= tail) by {
            assert forall|k: int| 0 <= k < tail.len() implies #[trigger] got_tail[k]
                == tail[k] by {
                assert(buf.subrange(off, len)[size + k] == buf[off + (size + k)]);
            }
        }
        lemma_record_reads_back(buf, off, rec, size);
        assert(writable(rest)) by {
            assert forall|i: int| 0 <= i < rest.len() implies record_len(#[trigger] rest[i])
                < 0x1_0000_0000 by {
                assert(rest[i] == records[i + 1]);
            }
        }
        lemma_written_reads_back(buf, len, off + size, rest);
        assert(record_fits(buf, len, off));
        assert(chain_from(buf, len, off).records =~= seq![rec] + rest);
        assert(seq![rec] + rest =~= records);
    }
}

/// Whatever records are written into a buffer, the decoder gives one event
/// for each of them, in their order, and flags no anomaly: the event of the
/// i-th record is the i-th event.
pub proof fn law_decoding_follows_the_records(
    root: Seq<char>,
    buf: Seq<u8>,
    len: int,
    records: Seq<RawRecord>,
)
    requires
        records.len() > 0,
        writable(records),
        len == written(records).len(),
        len <= buf.len(),
        buf.subrange(0, len) == written(records),
    ensures
        chain_of(buf, len) == (RawChain { records, truncated: false }),
        events_of(root, chain_of(buf, len).records).len() == records.len(),
        forall|i: int|
            0 <= i < records.len() ==> (#[trigger] events_of(root, chain_of(buf, len).records)[i])
                == event_of(root, records[i]),
{
    assert(written(records).len() >= 12) by {
        if records.len() > 1 {
            assert(written_record(records[0], record_len(records[0])).len() >= 12);
        }
    }
    lemma_written_reads_back(buf, len, 0, records);
}

} // verus!
