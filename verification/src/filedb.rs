//! The store itself: one handle over one database connection.

use vstd::prelude::*;
use crate::codec::{compress, expand, is_packing_of, restored, zlib_packed};
use crate::engine::{
    clock_seconds, execute_bound, execute_plain, execute_row, open_database, query_blob,
    query_keys, ListedRow,
};
use crate::error::{Error, Origin};
use crate::retention::retention_cutoff;
use crate::timestamp::TimeStamp;

verus! {

/// Creates the row table unless it exists. Key and time stamp together are
/// the primary key; the data column is nullable.
pub const INIT_QUERY: &'static str =
    "CREATE TABLE IF NOT EXISTS files (key TEXT NOT NULL, time_stamp INTEGER NOT NULL, data BLOB, PRIMARY KEY (key, time_stamp))";

/// Adds one row. A second row under the same key and time stamp is refused by
/// the primary key: rows are never replaced in place.
pub const INSERT_QUERY: &'static str =
    "INSERT INTO files (key, time_stamp, data) VALUES (?1, ?2, ?3)";

/// Reads the data of the row under a key and time stamp.
pub const RETRIEVE_QUERY: &'static str =
    "SELECT data FROM files WHERE key = ?1 AND time_stamp = ?2";

/// Reads key and time stamp of every row.
pub const LIST_QUERY: &'static str = "SELECT key, time_stamp FROM files";

/// Deletes the rows stamped before a bound.
pub const CLEANUP_QUERY: &'static str = "DELETE FROM files WHERE time_stamp < ?1";

/// What [`release_time`] returns.
pub open spec fn release_time_spec(clock: Option<u64>) -> Option<TimeStamp> {
    match clock {
        Some(secs) => if secs <= i64::MAX {
            Some(TimeStamp { secs: secs as i64, nanos: 0 })
        } else {
            None
        },
        None => None,
    }
}

/// The time at which a released handle sweeps, given the system clock's
/// reading in whole seconds since the epoch: that second, where the clock has
/// a reading and it fits the range of row time stamps; otherwise none, and
/// the sweep is left out.
pub fn release_time(clock: Option<u64>) -> (now: Option<TimeStamp>)
    ensures
        now == release_time_spec(clock),
    opens_invariants none
    no_unwind
{
    match clock {
        Some(secs) => {
            if secs <= i64::MAX as u64 {
                Some(TimeStamp::from_seconds(secs as i64))
            } else {
                None
            }
        },
        None => None,
    }
}

/// A handle to a file database on the local file system.
///
/// The handle owns its connection. When it is released, rows older than the
/// retention horizon are purged, best effort.
pub struct FileDB {
    conn: rusqlite::Connection,
}

/// What a write hands to the engine: the row key and the compressed payload.
#[derive(Debug)]
pub struct StoredBlob {
    pub key: String,
    pub time_stamp: i64,
    pub data: Vec<u8>,
}

impl StoredBlob {
    /// This row is the stored form of `data` under `key` at `t`: same key,
    /// the time stamp cut to whole seconds, and the encoder's stream for
    /// `data`, which is never empty and unpacks to `data`.
    pub open spec fn stores(self, key: Seq<char>, t: TimeStamp, data: Seq<u8>) -> bool {
        &&& self.key@ == key
        &&& self.time_stamp as int == t.row_seconds()
        &&& zlib_packed(data) == Some(self.data@)
        &&& self.data@.len() > 0
        &&& is_packing_of(self.data@, data)
    }
}

/// What [`stored_row`] returns, up to the text of a failure: the row that
/// stores `data` where the encoder produces a stream for it, a codec failure
/// where it does not.
pub open spec fn stored_row_spec(
    key: Seq<char>,
    t: TimeStamp,
    data: Seq<u8>,
    r: Result<StoredBlob, Error>,
) -> bool {
    match zlib_packed(data) {
        Some(_) => r matches Ok(row) && row.stores(key, t, data),
        None => r matches Err(e) && e.origin_spec() == Some(Origin::Codec),
    }
}

/// Builds the row that a write of `data` under `key` at `time_stamp` stores.
///
/// The only failure is one reported by the codec.
pub fn stored_row(key: &str, time_stamp: TimeStamp, data: &[u8]) -> (r: Result<StoredBlob, Error>)
    ensures
        stored_row_spec(key@, time_stamp, data@, r),
{
    match compress(data) {
        Ok(packed) => Ok(
            StoredBlob { key: key.to_owned(), time_stamp: time_stamp.seconds(), data: packed },
        ),
        Err(e) => Err(e),
    }
}

/// What the store makes of an answer of the engine: the answer itself where
/// the engine succeeded, the engine failure with the answer's text where it
/// did not.
pub fn engine_answer<T>(answer: Result<T, String>) -> (r: Result<T, Error>)
    ensures
        match answer {
            Ok(value) => r == Ok::<T, Error>(value),
            Err(text) => r == Err::<T, Error>(Error::InternalError(Origin::Engine, text)),
        },
    opens_invariants none
    no_unwind
{
    match answer {
        Ok(value) => Ok(value),
        Err(text) => Err(Error::engine_failure(text)),
    }
}

/// What a write returns when the engine answered `answer` to the insert
/// statement: success whatever the count, or the engine's failure.
pub fn acknowledged(answer: Result<usize, String>) -> (r: Result<(), Error>)
    ensures
        match answer {
            Ok(_) => r == Ok::<(), Error>(()),
            Err(text) => r == Err::<(), Error>(Error::InternalError(Origin::Engine, text)),
        },
{
    match engine_answer(answer) {
        Ok(_) => Ok(()),
        Err(e) => Err(e),
    }
}

/// What the engine may answer to a lookup of one row, as plain values:
/// `None` where no row matches, `Some(None)` where the row holds SQL `NULL`,
/// `Some(Some(bytes))` where it holds a blob.
pub open spec fn blob_view(found: Option<Option<Vec<u8>>>) -> Option<Option<Seq<u8>>> {
    match found {
        None => None,
        Some(None) => Some(None),
        Some(Some(bytes)) => Some(Some(bytes@)),
    }
}

/// What a lookup under `key` at `t` returns when the engine answered `found`.
///
/// * no row: the "time stamp not available" error, carrying key and time stamp;
/// * a row holding `NULL`: success without a payload;
/// * a row holding a blob: the payload that the blob stands for, or a codec
///   failure where it stands for none.
pub open spec fn lookup_spec(
    key: Seq<char>,
    t: TimeStamp,
    found: Option<Option<Seq<u8>>>,
    r: Result<Option<Vec<u8>>, Error>,
) -> bool {
    match found {
        None => r matches Err(Error::TimeStampNotAvailable(k, at)) && k@ == key && at == t,
        Some(None) => r matches Ok(None),
        Some(Some(packed)) => match restored(packed) {
            Some(data) => r matches Ok(Some(payload)) && payload@ == data,
            None => r matches Err(e) && e.origin_spec() == Some(Origin::Codec),
        },
    }
}

/// Turns the engine's answer to a lookup into the result of the lookup.
pub fn decode_lookup(key: &str, time_stamp: TimeStamp, found: Option<Option<Vec<u8>>>) -> (r:
    Result<Option<Vec<u8>>, Error>)
    ensures
        lookup_spec(key@, time_stamp, blob_view(found), r),
{
    match found {
        None => Err(Error::TimeStampNotAvailable(key.to_owned(), time_stamp)),
        Some(None) => Ok(None),
        Some(Some(packed)) => {
            match expand(packed.as_slice()) {
                Ok(payload) => Ok(Some(payload)),
                Err(e) => Err(e),
            }
        },
    }
}

/// The pairs of a listing as plain values.
pub open spec fn pairs_view(pairs: Seq<(String, TimeStamp)>) -> Seq<(Seq<char>, TimeStamp)> {
    pairs.map_values(|p: (String, TimeStamp)| (p.0@, p.1))
}

/// The pairs that a listing keeps of the rows that the engine yielded: every
/// row that decoded, in the engine's order, with its time stamp at second
/// resolution. Rows that failed to decode are passed over.
pub open spec fn kept_pairs(rows: Seq<ListedRow>) -> Seq<(Seq<char>, TimeStamp)>
    decreases rows.len(),
{
    if rows.len() == 0 {
        Seq::empty()
    } else {
        let before = kept_pairs(rows.drop_last());
        match rows.last() {
            Ok((key, secs)) => before.push((key@, TimeStamp { secs, nanos: 0 })),
            Err(_) => before,
        }
    }
}

/// A listing never reports more pairs than the engine yielded rows, and every
/// pair that it reports is at second resolution.
pub proof fn kept_pairs_are_whole_seconds(rows: Seq<ListedRow>)
    ensures
        kept_pairs(rows).len() <= rows.len(),
        forall|i: int| 0 <= i < kept_pairs(rows).len() ==> (#[trigger] kept_pairs(rows)[i]).1.nanos == 0,
    decreases rows.len(),
{
    if rows.len() > 0 {
        kept_pairs_are_whole_seconds(rows.drop_last());
    }
}

/// Best-effort enumeration: keeps the rows that decoded and passes over the
/// others instead of failing the whole listing.
pub fn decode_listing(rows: &Vec<ListedRow>) -> (pairs: Vec<(String, TimeStamp)>)
    ensures
        pairs_view(pairs@) == kept_pairs(rows@),
{
    let mut pairs: Vec<(String, TimeStamp)> = Vec::new();
    let mut i: usize = 0;
    while i < rows.len()
        invariant
            i <= rows.len(),
            pairs_view(pairs@) == kept_pairs(rows@.take(i as int)),
        decreases rows.len() - i,
    {
        let ghost before = pairs@;
        match &rows[i] {
            Ok((key, secs)) => {
                pairs.push((key.clone(), TimeStamp::from_seconds(*secs)));
            },
            Err(_) => {},
        }
        proof {
            assert(rows@.take(i + 1).drop_last() == rows@.take(i as int));
            assert(rows@.take(i + 1).last() == rows@[i as int]);
            if rows@[i as int] is Ok {
                assert(pairs_view(pairs@) == pairs_view(before).push(pairs_view(pairs@).last()));
            }
        }
        i = i + 1;
    }
    proof {
        assert(rows@.take(rows.len() as int) == rows@);
    }
    pairs
}

impl FileDB {
    /// Connect to a file database stored at the provided path.
    ///
    /// The file is created if it is absent, and the row table is created
    /// unless it exists. Whether either succeeds is for the engine to say;
    /// every failure is one of the engine, passed on as [`engine_answer`]
    /// gives it.
    pub fn connect(path: &std::path::Path) -> (r: Result<FileDB, Error>)
        ensures
            r matches Err(e) ==> e.origin_spec() == Some(Origin::Engine),
    {
        let conn = match engine_answer(open_database(path)) {
            Ok(conn) => conn,
            Err(e) => {
                return Err(e);
            },
        };
        match engine_answer(execute_plain(&conn, INIT_QUERY)) {
            Ok(_) => Ok(FileDB { conn }),
            Err(e) => Err(e),
        }
    }

    /// Every result that a write of `data` can have. Where the encoder
    /// produces no stream for `data`, the write fails with the codec's
    /// failure and the engine is not asked. Where it produces one, the engine
    /// decides: the write succeeds, or fails with the engine's failure.
    pub open spec fn write_result(data: Seq<u8>, r: Result<(), Error>) -> bool {
        match zlib_packed(data) {
            None => r matches Err(e) && e.origin_spec() == Some(Origin::Codec),
            Some(_) => match r {
                Ok(_) => true,
                Err(e) => e.origin_spec() == Some(Origin::Engine),
            },
        }
    }

    /// Add a file to the database.
    ///
    /// The engine is handed the row that [`stored_row`] builds: `key`, the
    /// time stamp cut to whole seconds, and `data` compressed. Its answer is
    /// passed on as [`acknowledged`] gives it; a row already stored under the
    /// same key and second makes the engine refuse the write.
    pub fn add_file(&self, key: &str, time_stamp: TimeStamp, data: &[u8]) -> (r: Result<(), Error>)
        ensures
            Self::write_result(data@, r),
    {
        let row = match stored_row(key, time_stamp, data) {
            Ok(row) => row,
            Err(e) => {
                return Err(e);
            },
        };
        acknowledged(
            execute_row(
                &self.conn,
                INSERT_QUERY,
                row.key.as_str(),
                row.time_stamp,
                row.data.as_slice(),
            ),
        )
    }

    /// Every result that a lookup under `key` at `t` can have: an engine
    /// failure, or what [`lookup_spec`] gives for one of the engine's answers.
    pub open spec fn retrieval(key: Seq<char>, t: TimeStamp, r: Result<Option<Vec<u8>>, Error>) -> bool {
        ||| r matches Err(e) && e.origin_spec() == Some(Origin::Engine)
        ||| exists|found: Option<Option<Seq<u8>>>| lookup_spec(key, t, found, r)
    }

    /// Retrieve a file from the database.
    ///
    /// The engine is asked for the row under `key` and the time stamp cut to
    /// whole seconds. The payload comes back unpacked; `None` says that the
    /// row is there and holds `NULL`. Where no row matches, the error is
    /// `TimeStampNotAvailable` with this key and time stamp.
    pub fn retrieve_file(&self, key: &str, time_stamp: TimeStamp) -> (r: Result<
        Option<Vec<u8>>,
        Error,
    >)
        ensures
            Self::retrieval(key@, time_stamp, r),
    {
        match query_blob(&self.conn, RETRIEVE_QUERY, key, time_stamp.seconds()) {
            Ok(found) => {
                let r = decode_lookup(key, time_stamp, found);
                assert(lookup_spec(key@, time_stamp, blob_view(found), r));
                r
            },
            Err(text) => Err(Error::engine_failure(text)),
        }
    }

    /// Every listing that can come back: the pairs kept of some rows that the
    /// engine yielded, each at second resolution.
    pub open spec fn listing(pairs: Seq<(String, TimeStamp)>) -> bool {
        &&& exists|rows: Seq<ListedRow>| pairs_view(pairs) == kept_pairs(rows)
        &&& forall|i: int| 0 <= i < pairs.len() ==> (#[trigger] pairs[i]).1.nanos == 0
    }

    /// List all files in the database.
    ///
    /// Returns key and time stamp of every row that decoded, in whatever
    /// order the engine yielded the rows; every time stamp is at second
    /// resolution. A row that fails to decode is passed over.
    pub fn list_all(&self) -> (r: Result<Vec<(String, TimeStamp)>, Error>)
        ensures
            r matches Ok(pairs) ==> Self::listing(pairs@),
            r matches Err(e) ==> e.origin_spec() == Some(Origin::Engine),
    {
        match query_keys(&self.conn, LIST_QUERY) {
            Ok(rows) => {
                let pairs = decode_listing(&rows);
                proof {
                    kept_pairs_are_whole_seconds(rows@);
                    assert forall|i: int| 0 <= i < pairs@.len() implies (#[trigger] pairs@[i]).1.nanos
                        == 0 by {
                        assert(pairs_view(pairs@)[i].1 == pairs@[i].1);
                    }
                }
                Ok(pairs)
            },
            Err(text) => Err(Error::engine_failure(text)),
        }
    }

    /// Purges the rows that are older than the retention horizon at `now`:
    /// the engine is told to delete every row stamped below
    /// [`retention_cutoff`]`(now)`. Its answer is passed on as
    /// [`engine_answer`] gives it: the engine's count of deleted rows, or its
    /// failure.
    pub fn purge_expired(&self, now: TimeStamp) -> (r: Result<usize, Error>)
        ensures
            r matches Err(e) ==> e.origin_spec() == Some(Origin::Engine),
        opens_invariants none
        no_unwind
    {
        let cutoff: i64 = retention_cutoff(now);
        engine_answer(execute_bound(&self.conn, CLEANUP_QUERY, cutoff))
    }

    /// The sweep that runs when the handle is released: purges at the time
    /// that [`release_time`] makes of the system clock's reading, and
    /// swallows any failure. Without such a time nothing is purged.
    fn release(&self)
        opens_invariants none
        no_unwind
    {
        match release_time(clock_seconds()) {
            Some(now) => {
                let _swept = self.purge_expired(now);
            },
            None => {},
        }
    }
}

impl Drop for FileDB {
    /// Runs the retention sweep, once, whichever way the handle's life ends.
    /// A failure of the sweep is swallowed.
    fn drop(&mut self)
        opens_invariants none
        no_unwind
    {
        self.release();
    }
}

} // verus!
