//! The mock prepared statement: static parameter and column metadata, a
//! name-to-ordinal table built once, the held query text, and one optional
//! callback per statement-level operation.
//!
//! `execute` and `first_exec` hand `(held query text, parameters)` to the
//! matching callback and return its result verbatim. Invoking one whose
//! callback is unset is a test-authoring defect and aborts: the contracts
//! rule that call out, and the body aborts at run time if it is forced.

use vstd::prelude::*;
use crate::columns::build_column_indexes;
use crate::columns::index_table_of;
use crate::columns::table_absent;
use crate::columns::table_found_at;
use crate::columns::table_lookup;
use crate::error::MockResult;
use crate::result_set::MockQueryResult;
use crate::row::MockRow;

verus! {

/// A mock prepared statement. `FE` produces a query result from the query
/// text and parameters; `FFE` produces an optional first row from the same.
pub struct MockStmt<FE, FFE> {
    /// The parameter-column list, if the author supplied one.
    pub params: Option<Vec<mysql::Column>>,
    /// The result-column list, if the author supplied one.
    pub columns: Option<Vec<mysql::Column>>,
    /// The name-to-ordinal table for `columns`, built once at construction;
    /// empty when no column list was supplied.
    pub column_indexes: Vec<(String, usize)>,
    /// The callback behind `execute`, if configured.
    pub fn_execute: Option<FE>,
    /// The callback behind `first_exec`, if configured.
    pub fn_first_exec: Option<FFE>,
    /// The query text this statement was prepared from.
    pub query: String,
}

impl<FE, FFE> MockStmt<FE, FFE> {
    /// Assembles a statement and builds its name-to-ordinal table from the
    /// result-column list, when there is one.
    pub fn new(
        params: Option<Vec<mysql::Column>>,
        columns: Option<Vec<mysql::Column>>,
        fn_execute: Option<FE>,
        fn_first_exec: Option<FFE>,
        query: String,
    ) -> (r: MockStmt<FE, FFE>)
        ensures
            r.params == params,
            r.columns == columns,
            r.fn_execute == fn_execute,
            r.fn_first_exec == fn_first_exec,
            r.query == query,
            match columns {
                Some(cs) => index_table_of(r.column_indexes@, cs@),
                None => r.column_indexes@.len() == 0,
            },
    {
        let column_indexes = match &columns {
            Some(cs) => build_column_indexes(cs),
            None => Vec::new(),
        };
        MockStmt { params, columns, column_indexes, fn_execute, fn_first_exec, query }
    }

    /// The parameter metadata as a read-only view; absent metadata stays
    /// absent, never fabricated.
    pub fn params_ref(&self) -> (r: Option<&Vec<mysql::Column>>)
        ensures
            match r {
                Some(v) => self.params matches Some(p) && *v == p,
                None => self.params is None,
            },
    {
        self.params.as_ref()
    }

    /// The result-column metadata as a read-only view; absent metadata stays
    /// absent, never fabricated.
    pub fn columns_ref(&self) -> (r: Option<&Vec<mysql::Column>>)
        ensures
            match r {
                Some(v) => self.columns matches Some(p) && *v == p,
                None => self.columns is None,
            },
    {
        self.columns.as_ref()
    }

    /// The ordinal of the first column named `name`, read off the
    /// name-to-ordinal table; `None` when no column bears the name.
    pub fn column_index(&self, name: &str) -> (r: Option<usize>)
        ensures
            match r {
                Some(ix) => exists|k: int|
                    table_found_at(self.column_indexes@, name@, k) && (
                    #[trigger] self.column_indexes@[k]).1 == ix,
                None => table_absent(self.column_indexes@, name@),
            },
    {
        table_lookup(&self.column_indexes, name)
    }

    /// Hands `(held query text, params)` to the configured `execute`
    /// callback and returns its result verbatim. A statement without that
    /// callback must not be executed.
    pub fn execute(&self, params: mysql::Params) -> (r: MockResult<MockQueryResult>)
        where
            FE: Fn(String, mysql::Params) -> MockResult<MockQueryResult>,
        requires
            self.fn_execute is Some,
            call_requires(self.fn_execute->0, (self.query, params)),
        ensures
            call_ensures(self.fn_execute->0, (self.query, params), r),
    {
        match &self.fn_execute {
            Some(f) => f(self.query.clone(), params),
            None => vstd::pervasive::unreached(),
        }
    }

    /// Hands `(held query text, params)` to the configured `first_exec`
    /// callback and returns its result verbatim. A statement without that
    /// callback must not be executed.
    pub fn first_exec(&self, params: mysql::Params) -> (r: MockResult<Option<MockRow>>)
        where
            FFE: Fn(String, mysql::Params) -> MockResult<Option<MockRow>>,
        requires
            self.fn_first_exec is Some,
            call_requires(self.fn_first_exec->0, (self.query, params)),
        ensures
            call_ensures(self.fn_first_exec->0, (self.query, params), r),
    {
        match &self.fn_first_exec {
            Some(f) => f(self.query.clone(), params),
            None => vstd::pervasive::unreached(),
        }
    }
}

} // verus!
