//! The mock query result: summary metadata, a column list with its
//! name-to-ordinal table, and a one-shot pull sequence of buffered
//! row-or-error entries.
//!
//! The buffer is drained from its tail: each pull removes and returns the
//! entry supplied last, so a buffer loaded as `[A, B, C]` yields `C`, `B`,
//! `A`. That order is this type's contract, stated on `next` and tested.
//! Exhaustion is terminal: once the buffer is empty (or was never supplied),
//! every further pull yields nothing.

use vstd::prelude::*;
use crate::columns::build_column_indexes;
use crate::columns::index_table_of;
use crate::columns::table_absent;
use crate::columns::table_found_at;
use crate::columns::table_lookup;
use crate::error::MockResult;
use crate::row::MockRow;

verus! {

/// A mock result set, produced fully populated by a caller-supplied callback
/// and consumed by repeated pulls.
#[derive(Debug)]
pub struct MockQueryResult {
    /// How many rows the mocked operation claims to have affected.
    pub affected_rows: u64,
    /// The last insert id the mocked operation claims.
    pub last_insert_id: u64,
    /// The warning count the mocked operation claims.
    pub warnings: u16,
    /// The opaque info bytes of the mocked operation.
    pub info: Vec<u8>,
    /// The name-to-ordinal table for `columns`, built once at construction.
    pub column_indexes: Vec<(String, usize)>,
    /// The column list of this result set.
    pub columns: Vec<mysql::Column>,
    /// Whether further result sets follow this one.
    pub more_results_exists: bool,
    /// The buffered row-or-error entries still to be pulled, if a buffer was
    /// supplied at all.
    pub rows: Option<Vec<MockResult<MockRow>>>,
}

impl MockQueryResult {
    /// Assembles a result set and builds its name-to-ordinal table from the
    /// column list.
    pub fn new(
        affected_rows: u64,
        last_insert_id: u64,
        warnings: u16,
        info: Vec<u8>,
        columns: Vec<mysql::Column>,
        more_results_exists: bool,
        rows: Option<Vec<MockResult<MockRow>>>,
    ) -> (r: MockQueryResult)
        ensures
            r.affected_rows == affected_rows,
            r.last_insert_id == last_insert_id,
            r.warnings == warnings,
            r.info == info,
            r.columns == columns,
            r.more_results_exists == more_results_exists,
            r.rows == rows,
            index_table_of(r.column_indexes@, columns@),
    {
        let column_indexes = build_column_indexes(&columns);
        MockQueryResult {
            affected_rows,
            last_insert_id,
            warnings,
            info,
            column_indexes,
            columns,
            more_results_exists,
            rows,
        }
    }

    /// Pulls the next buffered entry, draining the buffer from its tail: the
    /// entry supplied last comes out first. Yields nothing once the buffer is
    /// exhausted, and forever after; a result set built without a buffer
    /// yields nothing from the start.
    pub fn next(&mut self) -> (r: Option<MockResult<MockRow>>)
        ensures
            final(self).affected_rows == old(self).affected_rows,
            final(self).last_insert_id == old(self).last_insert_id,
            final(self).warnings == old(self).warnings,
            final(self).info == old(self).info,
            final(self).column_indexes == old(self).column_indexes,
            final(self).columns == old(self).columns,
            final(self).more_results_exists == old(self).more_results_exists,
            match old(self).rows {
                None => r is None && final(self).rows is None,
                Some(buf) => {
                    if buf@.len() == 0 {
                        &&& r is None
                        &&& (final(self).rows matches Some(b) && b@ == buf@)
                    } else {
                        &&& r == Some(buf@.last())
                        &&& (final(self).rows matches Some(b) && b@ == buf@.drop_last())
                    }
                },
            },
    {
        match self.rows.take() {
            None => None,
            Some(mut buf) => {
                let r = buf.pop();
                self.rows = Some(buf);
                r
            },
        }
    }

    /// The affected-row count, as supplied.
    pub fn affected_rows(&self) -> (r: u64)
        ensures
            r == self.affected_rows,
    {
        self.affected_rows
    }

    /// The last insert id, as supplied.
    pub fn last_insert_id(&self) -> (r: u64)
        ensures
            r == self.last_insert_id,
    {
        self.last_insert_id
    }

    /// The warning count, as supplied.
    pub fn warnings(&self) -> (r: u16)
        ensures
            r == self.warnings,
    {
        self.warnings
    }

    /// A copy of the info bytes.
    pub fn info(&self) -> (r: Vec<u8>)
        ensures
            r@ == self.info@,
    {
        let mut out: Vec<u8> = Vec::new();
        let mut i: usize = 0;
        while i < self.info.len()
            invariant
                i <= self.info@.len(),
                out@ == self.info@.take(i as int),
            decreases self.info@.len() - i,
        {
            out.push(self.info[i]);
            proof {
                assert(out@ =~= self.info@.take(i + 1));
            }
            i = i + 1;
        }
        proof {
            assert(self.info@.take(self.info@.len() as int) =~= self.info@);
        }
        out
    }

    /// The ordinal of the first column named `name`, read off the
    /// name-to-ordinal table; `None` when no column bears the name.
    pub fn column_index(&self, name: &str) -> (r: Option<usize>)
        ensures
            match r {
                Some(ix) => exists|k: int|
                    table_found_at(self.column_indexes@, name@, k) && (
                    #[trigger] self.column_indexes@[k]).1 == ix,
                None => table_absent(self.column_indexes@, name@),
            },
    {
        table_lookup(&self.column_indexes, name)
    }

    /// A copy of the name-to-ordinal table, not a shared view.
    pub fn column_indexes(&self) -> (r: Vec<(String, usize)>)
        ensures
            r@ == self.column_indexes@,
    {
        let mut out: Vec<(String, usize)> = Vec::new();
        let mut k: usize = 0;
        while k < self.column_indexes.len()
            invariant
                k <= self.column_indexes@.len(),
                out@ == self.column_indexes@.take(k as int),
            decreases self.column_indexes@.len() - k,
        {
            let name = self.column_indexes[k].0.clone();
            out.push((name, self.column_indexes[k].1));
            proof {
                assert(out@ =~= self.column_indexes@.take(k + 1));
            }
            k = k + 1;
        }
        proof {
            assert(self.column_indexes@.take(self.column_indexes@.len() as int)
                =~= self.column_indexes@);
        }
        out
    }

    /// A read-only view of the column list.
    pub fn columns_ref(&self) -> (r: &Vec<mysql::Column>)
        ensures
            r@ == self.columns@,
    {
        &self.columns
    }

    /// Whether further result sets follow, as supplied.
    pub fn more_results_exists(&self) -> (r: bool)
        ensures
            r == self.more_results_exists,
    {
        self.more_results_exists
    }
}

} // verus!
