//! The mock row: an ordered, fixed-width record of optional values plus a
//! shared column list, with two extraction modes and a request log.
//!
//! Extraction takes a column index in either of two forms, a numeric ordinal
//! or a column name; a name resolves to the first column bearing it. Every
//! successful resolution of a present slot appends one `(column, kind)` entry
//! to the request log before the value conversion runs; a failed resolution
//! or an absent slot appends nothing. A `get` leaves the slot as it was, a
//! `take` clears it for good.

use vstd::prelude::*;
use crate::boundary::clone_column;
use crate::boundary::clone_value;
use crate::columns::find_column;
use crate::columns::lemma_name_found_at_unique;
use crate::columns::name_found_at;
use crate::columns::resolve_name;
use std::sync::Arc;

verus! {

/// The kind of access recorded in a row's request log: a non-consuming read
/// (`Get`) or a consuming read (`Take`).
#[derive(Copy, Clone, Debug, Eq, PartialEq, Hash, Structural)]
pub enum RowRequestType {
    Get,
    Take,
}

/// A column index, in either of its two forms: a numeric ordinal, or a column
/// name to resolve against the column list.
pub trait ColumnIndex {
    /// The index this form resolves to against `cols`, if any.
    spec fn resolve_spec(&self, cols: Seq<mysql::Column>) -> Option<int>;

    /// Resolves this form against `cols`.
    fn idx(&self, cols: &Vec<mysql::Column>) -> (r: Option<usize>)
        ensures
            r matches Some(i) ==> self.resolve_spec(cols@) == Some(i as int) && i < cols@.len(),
            r is None ==> self.resolve_spec(cols@) is None,
    ;
}

impl ColumnIndex for usize {
    /// An ordinal resolves to itself while it is within the column list.
    open spec fn resolve_spec(&self, cols: Seq<mysql::Column>) -> Option<int> {
        if *self < cols.len() {
            Some(*self as int)
        } else {
            None
        }
    }

    fn idx(&self, cols: &Vec<mysql::Column>) -> (r: Option<usize>) {
        if *self < cols.len() {
            Some(*self)
        } else {
            None
        }
    }
}

impl ColumnIndex for &str {
    /// A name resolves to the first column bearing it.
    open spec fn resolve_spec(&self, cols: Seq<mysql::Column>) -> Option<int> {
        resolve_name(cols, self@)
    }

    fn idx(&self, cols: &Vec<mysql::Column>) -> (r: Option<usize>) {
        let r = find_column(cols, self);
        proof {
            if let Some(i) = r {
                let c = choose|k: int| name_found_at(cols@, self@, k);
                lemma_name_found_at_unique(cols@, self@, c, i as int);
            }
        }
        r
    }
}

/// A mock row: one optional value slot per column, a column list shared with
/// every row of the same result, and the ordered log of extraction requests
/// served so far.
#[derive(Clone, Debug, PartialEq)]
pub struct MockRow {
    /// The value slots, index-aligned with `columns`; a slot flips to `None`
    /// when a consuming read takes it.
    pub values: Vec<Option<mysql::Value>>,
    /// The column list, shared read-only across all rows of one result.
    pub columns: Arc<Vec<mysql::Column>>,
    /// The ordered log of extraction requests this row has served.
    pub requests: Vec<(mysql::Column, RowRequestType)>,
}

/// What one extraction call did to a row: on a resolved index with a present
/// slot it returned a value and logged one `(column, kind)` entry; otherwise
/// it returned nothing and logged nothing. The slots end as `after` says.
pub open spec fn extraction_ensures<T>(
    pre: MockRow,
    post: MockRow,
    resolved: Option<int>,
    kind: RowRequestType,
    r: Option<T>,
    after: Seq<Option<mysql::Value>>,
) -> bool {
    &&& post.columns == pre.columns
    &&& match resolved {
        Some(i) => {
            if 0 <= i < pre.values@.len() && pre.values@[i] is Some {
                &&& r is Some
                &&& post.values@ == after
                &&& post.requests@ == pre.requests@.push((pre.columns@[i], kind))
            } else {
                &&& r is None
                &&& post.values == pre.values
                &&& post.requests == pre.requests
            }
        },
        None => {
            &&& r is None
            &&& post.values == pre.values
            &&& post.requests == pre.requests
        },
    }
}

/// A non-consuming read leaves the slot it served untouched: after a `Get`
/// extraction that resolved to `i` and found the slot present, the slot still
/// holds the very value it held before, so a later `get` or `take` at `i`
/// still finds it.
pub proof fn lemma_got_slot_stays_present<T>(
    pre: MockRow,
    post: MockRow,
    i: int,
    got: Option<T>,
)
    requires
        0 <= i < pre.values@.len(),
        pre.values@[i] is Some,
        extraction_ensures(pre, post, Some(i), RowRequestType::Get, got, pre.values@),
    ensures
        got is Some,
        post.values@[i] == pre.values@[i],
        post.values@[i] is Some,
{
}

/// A consuming read clears the slot for good: after a `Take` extraction that
/// resolved to `i` and found the slot present, any further extraction that
/// resolves to `i` returns nothing, logs nothing and changes nothing.
pub proof fn lemma_taken_slot_stays_absent<T1, T2>(
    first: MockRow,
    mid: MockRow,
    last: MockRow,
    i: int,
    taken: Option<T1>,
    later: Option<T2>,
    kind: RowRequestType,
)
    requires
        0 <= i < first.values@.len(),
        first.values@[i] is Some,
        extraction_ensures(
            first,
            mid,
            Some(i),
            RowRequestType::Take,
            taken,
            first.values@.update(i, None::<mysql::Value>),
        ),
        extraction_ensures(mid, last, Some(i), kind, later, last.values@),
    ensures
        taken is Some,
        mid.values@[i] is None,
        later is None,
        last.values == mid.values,
        last.requests == mid.requests,
        last.columns == mid.columns,
{
}

impl MockRow {
    /// Makes a row over `columns` with one value slot per column and an empty
    /// request log.
    pub fn new(values: Vec<Option<mysql::Value>>, columns: Arc<Vec<mysql::Column>>) -> (r:
        MockRow)
        requires
            values@.len() == columns@.len(),
        ensures
            r.values == values,
            r.columns == columns,
            r.requests@ == Seq::<(mysql::Column, RowRequestType)>::empty(),
    {
        MockRow { values, columns, requests: Vec::new() }
    }

    /// The fixed width of the row.
    pub fn len(&self) -> (r: usize)
        ensures
            r == self.values@.len(),
    {
        self.values.len()
    }

    /// Read-only access to the raw slot at a numeric index, without logging
    /// and without consuming.
    pub fn as_ref(&self, index: usize) -> (r: Option<&mysql::Value>)
        ensures
            match r {
                Some(v) => index < self.values@.len() && self.values@[index as int] == Some(*v),
                None => index >= self.values@.len() || self.values@[index as int] is None,
            },
    {
        if index < self.values.len() {
            match &self.values[index] {
                Some(v) => Some(v),
                None => None,
            }
        } else {
            None
        }
    }

    /// Non-consuming strict read: resolves the index, logs a `Get` on a
    /// present slot, and hands a copy of the value to the strict conversion,
    /// which aborts on a type mismatch. The slots are left untouched.
    pub fn get<T: mysql::prelude::FromValue, I: ColumnIndex>(&mut self, index: I) -> (r: Option<
        T,
    >)
        ensures
            final(self).values == old(self).values,
            extraction_ensures(
                *old(self),
                *final(self),
                index.resolve_spec(old(self).columns@),
                RowRequestType::Get,
                r,
                old(self).values@,
            ),
    {
        match index.idx(&*self.columns) {
            Some(i) => {
                if i < self.values.len() {
                    match &self.values[i] {
                        Some(v) => {
                            let value = clone_value(v);
                            let col = clone_column(&(*self.columns)[i]);
                            self.requests.push((col, RowRequestType::Get));
                            Some(mysql::from_value::<T>(value))
                        },
                        None => None,
                    }
                } else {
                    None
                }
            },
            None => None,
        }
    }

    /// Non-consuming fallible read: as `get`, but a type mismatch comes back
    /// as `Err` instead of aborting. The log entry is appended before the
    /// conversion runs, so it records the access whichever way the conversion
    /// goes.
    pub fn get_opt<T: mysql::prelude::FromValue, I: ColumnIndex>(&mut self, index: I) -> (r:
        Option<Result<T, mysql::FromValueError>>)
        ensures
            final(self).values == old(self).values,
            extraction_ensures(
                *old(self),
                *final(self),
                index.resolve_spec(old(self).columns@),
                RowRequestType::Get,
                r,
                old(self).values@,
            ),
    {
        match index.idx(&*self.columns) {
            Some(i) => {
                if i < self.values.len() {
                    match &self.values[i] {
                        Some(v) => {
                            let value = clone_value(v);
                            let col = clone_column(&(*self.columns)[i]);
                            self.requests.push((col, RowRequestType::Get));
                            Some(mysql::from_value_opt::<T>(value))
                        },
                        None => None,
                    }
                } else {
                    None
                }
            },
            None => None,
        }
    }

    /// Consuming strict read: as `get`, but the slot is cleared for good, so
    /// any later read at the same index finds it absent. Logs a `Take`.
    pub fn take<T: mysql::prelude::FromValue, I: ColumnIndex>(&mut self, index: I) -> (r: Option<
        T,
    >)
        ensures
            match index.resolve_spec(old(self).columns@) {
                Some(i) => 0 <= i < old(self).values@.len() && old(self).values@[i] is Some
                    ==> final(self).values@ == old(self).values@.update(i, None::<mysql::Value>),
                None => true,
            },
            extraction_ensures(
                *old(self),
                *final(self),
                index.resolve_spec(old(self).columns@),
                RowRequestType::Take,
                r,
                final(self).values@,
            ),
    {
        match index.idx(&*self.columns) {
            Some(i) => {
                if i < self.values.len() && self.values[i].is_some() {
                    let taken = self.values[i].take();
                    proof {
                        assert(self.values@ =~= old(self).values@.update(
                            i as int,
                            None::<mysql::Value>,
                        ));
                    }
                    match taken {
                        Some(value) => {
                            let col = clone_column(&(*self.columns)[i]);
                            self.requests.push((col, RowRequestType::Take));
                            Some(mysql::from_value::<T>(value))
                        },
                        None => vstd::pervasive::unreached(),
                    }
                } else {
                    None
                }
            },
            None => None,
        }
    }

    /// Consuming fallible read: as `take`, but a type mismatch comes back as
    /// `Err` instead of aborting. The slot is cleared and the `Take` logged
    /// either way.
    pub fn take_opt<T: mysql::prelude::FromValue, I: ColumnIndex>(&mut self, index: I) -> (r:
        Option<Result<T, mysql::FromValueError>>)
        ensures
            match index.resolve_spec(old(self).columns@) {
                Some(i) => 0 <= i < old(self).values@.len() && old(self).values@[i] is Some
                    ==> final(self).values@ == old(self).values@.update(i, None::<mysql::Value>),
                None => true,
            },
            extraction_ensures(
                *old(self),
                *final(self),
                index.resolve_spec(old(self).columns@),
                RowRequestType::Take,
                r,
                final(self).values@,
            ),
    {
        match index.idx(&*self.columns) {
            Some(i) => {
                if i < self.values.len() && self.values[i].is_some() {
                    let taken = self.values[i].take();
                    proof {
                        assert(self.values@ =~= old(self).values@.update(
                            i as int,
                            None::<mysql::Value>,
                        ));
                    }
                    match taken {
                        Some(value) => {
                            let col = clone_column(&(*self.columns)[i]);
                            self.requests.push((col, RowRequestType::Take));
                            Some(mysql::from_value_opt::<T>(value))
                        },
                        None => vstd::pervasive::unreached(),
                    }
                } else {
                    None
                }
            },
            None => None,
        }
    }

    /// Dissolves the row into its raw values, in column order. A row with a
    /// taken slot cannot be dissolved: a consumed column is gone for good, so
    /// that call is ruled out up front and aborts at run time if forced.
    pub fn unwrap(self) -> (r: Vec<mysql::Value>)
        requires
            forall|i: int| 0 <= i < self.values@.len() ==> self.values@[i] is Some,
        ensures
            r@.len() == self.values@.len(),
            forall|i: int| 0 <= i < r@.len() ==> r@[i] == self.values@[i]->0,
    {
        let mut out: Vec<mysql::Value> = Vec::new();
        let mut i: usize = 0;
        while i < self.values.len()
            invariant
                i <= self.values@.len(),
                out@.len() == i,
                forall|i: int| 0 <= i < self.values@.len() ==> self.values@[i] is Some,
                forall|j: int| 0 <= j < i ==> out@[j] == self.values@[j]->0,
            decreases self.values@.len() - i,
        {
            match &self.values[i] {
                Some(v) => out.push(clone_value(v)),
                None => vstd::pervasive::unreached(),
            }
            i = i + 1;
        }
        out
    }
}

} // verus!
