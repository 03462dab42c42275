//! The data model of the store: the row table as a mathematical map, what
//! each statement of the store means on it, and the laws that follow for the
//! store's own encoding and decoding.
//!
//! The engine keeps the real table in the database file. The map here is what
//! that table holds at one moment, as far as a single handle without other
//! writers can tell.

use vstd::prelude::*;
use crate::codec::is_packing_of;
use crate::engine::ListedRow;
use crate::error::Error;
use crate::filedb::{kept_pairs, lookup_spec, release_time_spec, StoredBlob};
use crate::retention::{bounds_expired, horizon_seconds, is_expired};
use crate::timestamp::TimeStamp;

verus! {

/// The primary key of a row: the key text and the whole seconds.
pub type RowKey = (Seq<char>, int);

/// The row table: for each primary key the data column, `None` for SQL `NULL`.
pub type Table = Map<RowKey, Option<Seq<u8>>>;

/// The primary key under which `key` at `t` is stored and looked up.
pub open spec fn row_key(key: Seq<char>, t: TimeStamp) -> RowKey {
    (key, t.row_seconds())
}

/// The primary key of a row that a write hands to the engine.
pub open spec fn key_of(row: StoredBlob) -> RowKey {
    (row.key@, row.time_stamp as int)
}

/// The table holds a row under `key` at `t`.
pub open spec fn has_row(table: Table, key: Seq<char>, t: TimeStamp) -> bool {
    table.dom().contains(row_key(key, t))
}

/// The table after the insert statement has added `row`.
pub open spec fn after_insert(table: Table, row: StoredBlob) -> Table {
    table.insert(key_of(row), Some(row.data@))
}

/// The engine's answer to the retrieve statement for `key` at `t`.
pub open spec fn answer(table: Table, key: Seq<char>, t: TimeStamp) -> Option<Option<Seq<u8>>> {
    if has_row(table, key, t) {
        Some(table[row_key(key, t)])
    } else {
        None
    }
}

/// The table after the cleanup statement has deleted the rows stamped below
/// `cutoff`.
pub open spec fn after_sweep(table: Table, cutoff: int) -> Table {
    table.restrict(Set::new(|k: RowKey| k.1 >= cutoff))
}

/// Round trip: once a write of `data` under `key` at `t` has been stored, a
/// lookup under the same key and time stamp returns exactly `data`, whatever
/// the table held before and whatever `data` is, the empty payload included.
pub proof fn round_trip(
    table: Table,
    key: Seq<char>,
    t: TimeStamp,
    data: Seq<u8>,
    row: StoredBlob,
    r: Result<Option<Vec<u8>>, Error>,
)
    requires
        row.stores(key, t, data),
        lookup_spec(key, t, answer(after_insert(table, row), key, t), r),
    ensures
        r matches Ok(Some(payload)) && payload@ == data,
{
    assert(key_of(row) == row_key(key, t));
    assert(is_packing_of(row.data@, data));
}

/// Second resolution: time stamps that differ only below the second address
/// the same row, on the write side and on the read side.
pub proof fn sub_second_is_ignored(
    table: Table,
    key: Seq<char>,
    a: TimeStamp,
    b: TimeStamp,
    data: Seq<u8>,
    row: StoredBlob,
)
    requires
        a.same_second(b),
    ensures
        row_key(key, a) == row_key(key, b),
        answer(table, key, a) == answer(table, key, b),
        row.stores(key, a, data) == row.stores(key, b, data),
{
}

/// Missing lookup: where no row was ever written under `key` at `t`, the
/// lookup fails with `TimeStampNotAvailable` for this key and time stamp. It
/// is neither another error nor a success without payload.
pub proof fn missing_lookup_fails(
    table: Table,
    key: Seq<char>,
    t: TimeStamp,
    r: Result<Option<Vec<u8>>, Error>,
)
    requires
        !has_row(table, key, t),
        lookup_spec(key, t, answer(table, key, t), r),
    ensures
        r matches Err(Error::TimeStampNotAvailable(k, at)) && k@ == key && at == t,
{
}

/// `NULL` is not absence: a row that holds SQL `NULL` is read as success
/// without payload, an absent row as an error, and no result is both.
pub proof fn null_is_not_absent(
    table: Table,
    key: Seq<char>,
    t: TimeStamp,
    r: Result<Option<Vec<u8>>, Error>,
)
    requires
        lookup_spec(key, t, answer(table, key, t), r),
    ensures
        has_row(table, key, t) && table[row_key(key, t)] is None ==> r matches Ok(None),
        !has_row(table, key, t) ==> r is Err,
        r matches Ok(None) ==> has_row(table, key, t) && table[row_key(key, t)] is None,
{
}

/// Retention: a sweep at `now` with the bound `cutoff` removes exactly the
/// rows that are older than the horizon. A row within the horizon is
/// answered after the sweep as it was before.
pub proof fn sweep_purges_expired(table: Table, now: TimeStamp, cutoff: i64, key: Seq<char>, t: TimeStamp)
    requires
        bounds_expired(cutoff, now),
    ensures
        is_expired(t.row_seconds(), now.row_seconds()) ==> !has_row(
            after_sweep(table, cutoff as int),
            key,
            t,
        ),
        !is_expired(t.row_seconds(), now.row_seconds()) ==> answer(
            after_sweep(table, cutoff as int),
            key,
            t,
        ) == answer(table, key, t),
{
    assert(t.secs < cutoff <==> is_expired(t.secs as int, now.row_seconds()));
}

/// Retention at release: when a handle is released while the clock reads
/// `clock`, and the sweep runs with the bound `cutoff` taken at that reading,
/// no row that lies more than the horizon before the reading is left, and
/// every row that does not is answered as before, with its data.
pub proof fn release_keeps_the_horizon(
    table: Table,
    clock: u64,
    cutoff: i64,
    key: Seq<char>,
    t: TimeStamp,
)
    requires
        release_time_spec(Some(clock)) matches Some(now) && bounds_expired(cutoff, now),
    ensures
        t.row_seconds() + horizon_seconds() < clock ==> !has_row(
            after_sweep(table, cutoff as int),
            key,
            t,
        ),
        t.row_seconds() + horizon_seconds() >= clock ==> answer(
            after_sweep(table, cutoff as int),
            key,
            t,
        ) == answer(table, key, t),
{
    let now = release_time_spec(Some(clock))->Some_0;
    sweep_purges_expired(table, now, cutoff, key, t);
}

/// The table after the rows of `written` have been inserted, first to last.
pub open spec fn after_writes(table: Table, written: Seq<StoredBlob>) -> Table
    decreases written.len(),
{
    if written.len() == 0 {
        table
    } else {
        after_insert(after_writes(table, written.drop_last()), written.last())
    }
}

/// No two rows of `written` share a primary key.
pub open spec fn distinct_keys(written: Seq<StoredBlob>) -> bool {
    forall|i: int, j: int|
        0 <= i < j < written.len() ==> key_of(#[trigger] written[i]) != key_of(
            #[trigger] written[j],
        )
}

/// The primary key of a listed row that decoded.
pub open spec fn listed_key(row: ListedRow) -> RowKey {
    match row {
        Ok((key, secs)) => (key@, secs as int),
        Err(_) => (Seq::empty(), 0),
    }
}

/// The engine's answer to the list statement on `table`: every row of the
/// table once, in any order, each decoded.
pub open spec fn yields_table(yielded: Seq<ListedRow>, table: Table) -> bool {
    &&& forall|i: int| 0 <= i < yielded.len() ==> (#[trigger] yielded[i]) is Ok
    &&& forall|i: int, j: int|
        0 <= i < j < yielded.len() ==> listed_key(#[trigger] yielded[i]) != listed_key(
            #[trigger] yielded[j],
        )
    &&& forall|i: int| 0 <= i < yielded.len() ==> table.dom().contains(listed_key(#[trigger] yielded[i]))
    &&& forall|k: RowKey| #[trigger]
        table.dom().contains(k) ==> exists|i: int|
            0 <= i < yielded.len() && listed_key(#[trigger] yielded[i]) == k
}

/// The pair under which a listing reports a written row.
pub open spec fn listed_pair(row: StoredBlob) -> (Seq<char>, TimeStamp) {
    (row.key@, TimeStamp { secs: row.time_stamp, nanos: 0 })
}

/// The primary keys of the table after `written` are those it had before
/// and those of the written rows.
pub proof fn keys_after_writes(table: Table, written: Seq<StoredBlob>, k: RowKey)
    ensures
        after_writes(table, written).dom().contains(k) <==> (table.dom().contains(k) || exists|
            i: int,
        |
            0 <= i < written.len() && key_of(#[trigger] written[i]) == k),
    decreases written.len(),
{
    if written.len() > 0 {
        let front = written.drop_last();
        keys_after_writes(table, front, k);
        if after_writes(table, written).dom().contains(k) {
            if key_of(written.last()) == k {
                assert(key_of(written[written.len() - 1]) == k);
            } else if !table.dom().contains(k) {
                let i = choose|i: int| 0 <= i < front.len() && key_of(#[trigger] front[i]) == k;
                assert(key_of(written[i]) == k);
            }
        }
        if exists|i: int| 0 <= i < written.len() && key_of(#[trigger] written[i]) == k {
            let i = choose|i: int| 0 <= i < written.len() && key_of(#[trigger] written[i]) == k;
            if i < written.len() - 1 {
                assert(key_of(front[i]) == k);
            }
        }
    }
}

/// A listing in which every row decoded keeps every row, in order.
pub proof fn decoded_rows_are_kept(yielded: Seq<ListedRow>)
    requires
        forall|i: int| 0 <= i < yielded.len() ==> (#[trigger] yielded[i]) is Ok,
    ensures
        kept_pairs(yielded).len() == yielded.len(),
        forall|i: int|
            0 <= i < yielded.len() ==> (#[trigger] kept_pairs(yielded)[i]).0 == listed_key(
                yielded[i],
            ).0 && kept_pairs(yielded)[i].1.secs as int == listed_key(yielded[i]).1
                && kept_pairs(yielded)[i].1.nanos == 0,
    decreases yielded.len(),
{
    if yielded.len() > 0 {
        let front = yielded.drop_last();
        decoded_rows_are_kept(front);
        assert(yielded.last() is Ok);
        assert forall|i: int| 0 <= i < yielded.len() implies (#[trigger] kept_pairs(yielded)[i]).0
            == listed_key(yielded[i]).0 && kept_pairs(yielded)[i].1.secs as int == listed_key(
            yielded[i],
        ).1 && kept_pairs(yielded)[i].1.nanos == 0 by {
            if i < front.len() {
                assert(kept_pairs(yielded)[i] == kept_pairs(front)[i]);
                assert(front[i] == yielded[i]);
            }
        }
    }
}

/// Listing: after rows with pairwise distinct primary keys have been written
/// to an empty table, a listing of that table reports exactly as many pairs
/// as rows were written, and the pairs are those of the written rows, in
/// whatever order the engine yields them.
pub proof fn listing_matches_writes(written: Seq<StoredBlob>, yielded: Seq<ListedRow>)
    requires
        distinct_keys(written),
        yields_table(yielded, after_writes(Map::empty(), written)),
    ensures
        kept_pairs(yielded).len() == written.len(),
        forall|i: int|
            0 <= i < written.len() ==> kept_pairs(yielded).contains(
                listed_pair(#[trigger] written[i]),
            ),
        forall|j: int|
            0 <= j < yielded.len() ==> exists|i: int|
                0 <= i < written.len() && listed_pair(#[trigger] written[i]) == (
                #[trigger] kept_pairs(yielded)[j]),
{
    let table = after_writes(Map::empty(), written);
    let wrote = written.map_values(|row: StoredBlob| key_of(row));
    let listed = yielded.map_values(|row: ListedRow| listed_key(row));
    decoded_rows_are_kept(yielded);

    assert forall|k: RowKey| wrote.to_set().contains(k) <==> listed.to_set().contains(k) by {
        keys_after_writes(Map::empty(), written, k);
        if wrote.to_set().contains(k) {
            let i = choose|i: int| 0 <= i < wrote.len() && wrote[i] == k;
            assert(key_of(written[i]) == k);
            assert(table.dom().contains(k));
            let j = choose|j: int| 0 <= j < yielded.len() && listed_key(#[trigger] yielded[j]) == k;
            assert(listed[j] == k);
        }
        if listed.to_set().contains(k) {
            let j = choose|j: int| 0 <= j < listed.len() && listed[j] == k;
            assert(listed_key(yielded[j]) == k);
            assert(table.dom().contains(k));
            let i = choose|i: int| 0 <= i < written.len() && key_of(#[trigger] written[i]) == k;
            assert(wrote[i] == k);
        }
    }
    assert(wrote.to_set() =~= listed.to_set());
    assert(wrote.no_duplicates()) by {
        assert forall|i: int, j: int|
            0 <= i < wrote.len() && 0 <= j < wrote.len() && i != j implies wrote[i] != wrote[j] by {
            if i < j {
                assert(key_of(written[i]) != key_of(written[j]));
            } else {
                assert(key_of(written[j]) != key_of(written[i]));
            }
        }
    }
    assert(listed.no_duplicates()) by {
        assert forall|i: int, j: int|
            0 <= i < listed.len() && 0 <= j < listed.len() && i != j implies listed[i]
            != listed[j] by {
            if i < j {
                assert(listed_key(yielded[i]) != listed_key(yielded[j]));
            } else {
                assert(listed_key(yielded[j]) != listed_key(yielded[i]));
            }
        }
    }
    wrote.unique_seq_to_set();
    listed.unique_seq_to_set();

    assert forall|i: int| 0 <= i < written.len() implies kept_pairs(yielded).contains(
        listed_pair(#[trigger] written[i]),
    ) by {
        let k = key_of(written[i]);
        keys_after_writes(Map::empty(), written, k);
        assert(table.dom().contains(k));
        let j = choose|j: int| 0 <= j < yielded.len() && listed_key(#[trigger] yielded[j]) == k;
        assert(kept_pairs(yielded)[j].1 == TimeStamp { secs: written[i].time_stamp, nanos: 0 });
        assert(kept_pairs(yielded)[j] == listed_pair(written[i]));
    }
    assert forall|j: int| 0 <= j < yielded.len() implies exists|i: int|
        0 <= i < written.len() && listed_pair(#[trigger] written[i]) == (#[trigger] kept_pairs(
            yielded,
        )[j]) by {
        let k = listed_key(yielded[j]);
        keys_after_writes(Map::empty(), written, k);
        assert(table.dom().contains(k));
        let i = choose|i: int| 0 <= i < written.len() && key_of(#[trigger] written[i]) == k;
        assert(kept_pairs(yielded)[j].1 == TimeStamp { secs: written[i].time_stamp, nanos: 0 });
        assert(listed_pair(written[i]) == kept_pairs(yielded)[j]);
    }
}

} // verus!
