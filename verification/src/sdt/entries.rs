//! Framing of the entries that follow the fixed part of a variable-length table.
//!
//! Each entry starts with a sub-header that gives its type and its length,
//! the sub-header included. Firmware declares these lengths, so none is
//! trusted: a walk over the entries stops at the first entry that does not
//! lie inside the table or is too short for what its type must hold.

use crate::bytes::{le_u16, read_u16};
use vstd::prelude::*;

verus! {

/// The two entry formats in use. They differ in the width of the length
/// field and in the types that they define.
#[derive(Clone, Copy, Debug, PartialEq, Eq, Structural)]
pub enum EntryFormat {
    /// Entries of the resource affinity table: a type byte, then a 16-bit
    /// little-endian length.
    Affinity,
    /// Entries of the interrupt-controller table: a type byte, then a
    /// length byte.
    InterruptController,
}

impl EntryFormat {
    /// The size of the sub-header in front of every entry.
    pub open spec fn header_size(self) -> nat {
        match self {
            EntryFormat::Affinity => 3,
            EntryFormat::InterruptController => 2,
        }
    }

    /// The least length that an entry of type `typ` may declare: the size
    /// of the fixed layout of a type that is decoded, the size of the
    /// sub-header for any other.
    pub open spec fn least_length(self, typ: u8) -> nat {
        match self {
            EntryFormat::Affinity => match typ {
                0 => 17,
                1 => 41,
                2 => 25,
                3 => 19,
                4 => 13,
                5 => 33,
                _ => 3,
            },
            EntryFormat::InterruptController => match typ {
                0 => 8,
                1 => 12,
                5 => 12,
                9 => 16,
                0x10 => 16,
                _ => 2,
            },
        }
    }

    /// The length that the sub-header at `at` declares for its entry.
    pub open spec fn declared_length(self, table: Seq<u8>, at: int) -> nat {
        match self {
            EntryFormat::Affinity => le_u16(table, at + 1),
            EntryFormat::InterruptController => table[at + 1] as nat,
        }
    }

    pub fn header_len(self) -> (size: usize)
        ensures
            size == self.header_size(),
    {
        match self {
            EntryFormat::Affinity => 3,
            EntryFormat::InterruptController => 2,
        }
    }

    pub fn least_len(self, typ: u8) -> (least: usize)
        ensures
            least == self.least_length(typ),
            least >= self.header_size(),
    {
        match self {
            EntryFormat::Affinity => {
                if typ == 0 {
                    17
                } else if typ == 1 {
                    41
                } else if typ == 2 {
                    25
                } else if typ == 3 {
                    19
                } else if typ == 4 {
                    13
                } else if typ == 5 {
                    33
                } else {
                    3
                }
            },
            EntryFormat::InterruptController => {
                if typ == 0 {
                    8
                } else if typ == 1 {
                    12
                } else if typ == 5 {
                    12
                } else if typ == 9 {
                    16
                } else if typ == 0x10 {
                    16
                } else {
                    2
                }
            },
        }
    }
}

/// Whether a well-formed entry starts at offset `at` of `table`: its
/// sub-header lies inside the table, its declared length is enough for its
/// type, and the entry ends inside the table.
pub open spec fn entry_at(table: Seq<u8>, at: int, format: EntryFormat) -> bool {
    &&& 0 <= at
    &&& at + format.header_size() <= table.len()
    &&& format.least_length(table[at]) <= format.declared_length(table, at)
    &&& at + format.declared_length(table, at) <= table.len()
}

/// The offset at which a walk over the entries that starts at `at` stops:
/// the end of the table, or the first offset at which no well-formed entry
/// starts.
pub open spec fn walk_end(table: Seq<u8>, at: int, format: EntryFormat) -> int
    decreases table.len() - at,
{
    if entry_at(table, at, format) {
        walk_end(table, at + format.declared_length(table, at), format)
    } else {
        at
    }
}

/// The offsets of the entries that a walk from `at` visits, in order.
pub open spec fn entry_offsets(table: Seq<u8>, at: int, format: EntryFormat) -> Seq<int>
    decreases table.len() - at,
{
    if entry_at(table, at, format) {
        seq![at] + entry_offsets(table, at + format.declared_length(table, at), format)
    } else {
        Seq::empty()
    }
}

/// Whether entries of the given lengths, laid end to end from `at`, are
/// each well formed and together fill the table to its last byte.
pub open spec fn tiles(table: Seq<u8>, at: int, format: EntryFormat, lengths: Seq<nat>) -> bool
    decreases lengths.len(),
{
    if lengths.len() == 0 {
        at == table.len()
    } else {
        &&& entry_at(table, at, format)
        &&& format.declared_length(table, at) == lengths[0]
        &&& tiles(table, at + lengths[0], format, lengths.drop_first())
    }
}

/// The sum of a sequence of lengths.
pub open spec fn total(lengths: Seq<nat>) -> nat
    decreases lengths.len(),
{
    if lengths.len() == 0 {
        0
    } else {
        lengths[0] + total(lengths.drop_first())
    }
}

/// Reads the sub-header at `at` and checks it against the table. Returns
/// the type and the length of the entry that starts there, or nothing if
/// no well-formed entry does.
pub fn next_entry(table: &[u8], at: usize, format: EntryFormat) -> (entry: Option<(u8, usize)>)
    ensures
        match entry {
            Some((typ, length)) => {
                &&& entry_at(table@, at as int, format)
                &&& typ == table@[at as int]
                &&& length == format.declared_length(table@, at as int)
            },
            None => !entry_at(table@, at as int, format),
        },
{
    let header_len = format.header_len();
    if at > table.len() || table.len() - at < header_len {
        return None;
    }
    let typ = table[at];
    let length: usize = match format {
        EntryFormat::Affinity => read_u16(table, at + 1) as usize,
        EntryFormat::InterruptController => table[at + 1] as usize,
    };
    if length < format.least_len(typ) || length > table.len() - at {
        return None;
    }
    Some((typ, length))
}

/// A walk never moves backwards and never leaves the table; every entry
/// that it visits lies inside the table and before the point where the
/// walk stops.
pub proof fn lemma_walk_stays_inside(table: Seq<u8>, at: int, format: EntryFormat)
    requires
        0 <= at <= table.len(),
    ensures
        at <= walk_end(table, at, format) <= table.len(),
        !entry_at(table, walk_end(table, at, format), format),
        forall|i: int|
            0 <= i < entry_offsets(table, at, format).len() ==> {
                let start = #[trigger] entry_offsets(table, at, format)[i];
                &&& at <= start
                &&& entry_at(table, start, format)
                &&& start + format.declared_length(table, start) <= walk_end(table, at, format)
            },
    decreases table.len() - at,
{
    if entry_at(table, at, format) {
        let next = at + format.declared_length(table, at);
        lemma_walk_stays_inside(table, next, format);
        let rest = entry_offsets(table, next, format);
        assert forall|i: int| 0 <= i < entry_offsets(table, at, format).len() implies {
            let start = #[trigger] entry_offsets(table, at, format)[i];
            &&& at <= start
            &&& entry_at(table, start, format)
            &&& start + format.declared_length(table, start) <= walk_end(table, at, format)
        } by {
            if i > 0 {
                assert(entry_offsets(table, at, format)[i] == rest[i - 1]);
            }
        }
    }
}

/// Each entry that a walk visits starts where the one before it ended: no
/// byte is skipped and none is visited twice.
pub proof fn lemma_walk_is_contiguous(table: Seq<u8>, at: int, format: EntryFormat)
    requires
        0 <= at <= table.len(),
    ensures
        entry_offsets(table, at, format).len() > 0 ==> entry_offsets(table, at, format)[0] == at,
        forall|i: int|
            0 <= i < entry_offsets(table, at, format).len() - 1 ==> {
                let start = #[trigger] entry_offsets(table, at, format)[i];
                entry_offsets(table, at, format)[i + 1] == start + format.declared_length(
                    table,
                    start,
                )
            },
        entry_offsets(table, at, format).len() > 0 ==> {
            let last = entry_offsets(table, at, format).last();
            walk_end(table, at, format) == last + format.declared_length(table, last)
        },
        entry_offsets(table, at, format).len() == 0 ==> walk_end(table, at, format) == at,
    decreases table.len() - at,
{
    if entry_at(table, at, format) {
        let next = at + format.declared_length(table, at);
        lemma_walk_is_contiguous(table, next, format);
        let all = entry_offsets(table, at, format);
        let rest = entry_offsets(table, next, format);
        assert(all == seq![at] + rest);
        assert forall|i: int| 0 <= i < all.len() - 1 implies {
            let start = #[trigger] all[i];
            all[i + 1] == start + format.declared_length(table, start)
        } by {
            assert(all[i + 1] == rest[i]);
            if i > 0 {
                assert(all[i] == rest[i - 1]);
            }
        }
        if rest.len() > 0 {
            assert(all.last() == rest.last());
        }
    }
}

/// A walk over a stream of well-formed entries that fill the table visits
/// exactly those entries and stops at the end of the table: the lengths of
/// the steps are the entries' lengths, each step is positive, and together
/// the steps cover every byte from the start to the end, once.
pub proof fn lemma_valid_stream_is_consumed(
    table: Seq<u8>,
    at: int,
    format: EntryFormat,
    lengths: Seq<nat>,
)
    requires
        0 <= at <= table.len(),
        tiles(table, at, format, lengths),
    ensures
        walk_end(table, at, format) == table.len(),
        entry_offsets(table, at, format).len() == lengths.len(),
        forall|i: int|
            0 <= i < lengths.len() ==> {
                let start = #[trigger] entry_offsets(table, at, format)[i];
                &&& format.declared_length(table, start) == lengths[i]
                &&& 0 < lengths[i] <= table.len() - start
            },
        at + total(lengths) == table.len(),
    decreases lengths.len(),
{
    if lengths.len() == 0 {
    } else {
        let next = at + lengths[0];
        lemma_valid_stream_is_consumed(table, next, format, lengths.drop_first());
        let all = entry_offsets(table, at, format);
        let rest = entry_offsets(table, next, format);
        assert(all == seq![at] + rest);
        assert forall|i: int| 0 <= i < lengths.len() implies {
            let start = #[trigger] all[i];
            &&& format.declared_length(table, start) == lengths[i]
            &&& 0 < lengths[i] <= table.len() - start
        } by {
            if i > 0 {
                assert(all[i] == rest[i - 1]);
                assert(lengths[i] == lengths.drop_first()[i - 1]);
            }
        }
    }
}

/// A walk that comes to an offset where no well-formed entry starts stops
/// there: nothing at or behind that offset is visited.
pub proof fn lemma_malformed_entry_stops_walk(
    table: Seq<u8>,
    at: int,
    format: EntryFormat,
    bad: int,
)
    requires
        0 <= at <= table.len(),
        !entry_at(table, bad, format),
        walk_reaches(table, at, format, bad),
    ensures
        at <= bad <= table.len(),
        walk_end(table, at, format) == bad,
        forall|i: int|
            0 <= i < entry_offsets(table, at, format).len() ==> {
                let start = #[trigger] entry_offsets(table, at, format)[i];
                start + format.declared_length(table, start) <= bad
            },
    decreases table.len() - at,
{
    lemma_walk_stays_inside(table, at, format);
    if at != bad {
        lemma_malformed_entry_stops_walk(
            table,
            at + format.declared_length(table, at),
            format,
            bad,
        );
    }
}

/// Whether a walk from `at` comes to stand at offset `target`, be it to
/// visit an entry there or to stop there.
pub open spec fn walk_reaches(table: Seq<u8>, at: int, format: EntryFormat, target: int) -> bool
    decreases table.len() - at,
{
    if at == target {
        true
    } else if entry_at(table, at, format) {
        walk_reaches(table, at + format.declared_length(table, at), format, target)
    } else {
        false
    }
}

/// A walk that stops at a malformed entry has read nothing from that entry
/// on: the table cut off at that entry gives the same walk.
pub proof fn lemma_walk_reads_nothing_behind_stop(
    table: Seq<u8>,
    at: int,
    format: EntryFormat,
    bad: int,
)
    requires
        0 <= at <= table.len(),
        !entry_at(table, bad, format),
        walk_reaches(table, at, format, bad),
    ensures
        at <= bad <= table.len(),
        entry_offsets(table.subrange(0, bad), at, format) == entry_offsets(table, at, format),
        walk_end(table.subrange(0, bad), at, format) == bad,
    decreases table.len() - at,
{
    lemma_malformed_entry_stops_walk(table, at, format, bad);
    let cut = table.subrange(0, bad);
    if at != bad {
        let next = at + format.declared_length(table, at);
        lemma_malformed_entry_stops_walk(table, next, format, bad);
        lemma_walk_reads_nothing_behind_stop(table, next, format, bad);
        assert(cut[at] == table[at]);
        assert(cut[at + 1] == table[at + 1]);
        assert(cut[at + 2] == table[at + 2] || format == EntryFormat::InterruptController);
        assert(format.declared_length(cut, at) == format.declared_length(table, at));
        assert(entry_at(cut, at, format));
    }
}

} // verus!
