//! The mock connection: one independent optional callback per
//! connection-level operation, and nothing else.
//!
//! Each operation forwards its arguments unchanged to the matching callback
//! and returns its result verbatim. No operation has a default: invoking one
//! whose callback slot is unset is a test-authoring defect, so the contracts
//! rule that call out and the body aborts at run time if it is forced.

use vstd::prelude::*;
use crate::error::MockResult;
use crate::result_set::MockQueryResult;
use crate::row::MockRow;
use crate::stmt::MockStmt;

verus! {

/// A mock connection: five independent optional callback slots, one per
/// operation, each set (if at all) before the connection is used.
pub struct MockConnection<FQ, FF, FP, FPE, FFE> {
    /// The callback behind `query`, if configured.
    pub fn_query: Option<FQ>,
    /// The callback behind `first`, if configured.
    pub fn_first: Option<FF>,
    /// The callback behind `prepare`, if configured.
    pub fn_prepare: Option<FP>,
    /// The callback behind `prep_exec`, if configured.
    pub fn_prep_exec: Option<FPE>,
    /// The callback behind `first_exec`, if configured.
    pub fn_first_exec: Option<FFE>,
}

impl<FQ, FF, FP, FPE, FFE> MockConnection<FQ, FF, FP, FPE, FFE> {
    /// Hands the query text to the configured `query` callback and returns
    /// its result verbatim. A connection without that callback must not be
    /// asked to run a query.
    pub fn query(&self, query: String) -> (r: MockResult<MockQueryResult>)
        where
            FQ: Fn(String) -> MockResult<MockQueryResult>,
        requires
            self.fn_query is Some,
            call_requires(self.fn_query->0, (query,)),
        ensures
            call_ensures(self.fn_query->0, (query,), r),
    {
        match &self.fn_query {
            Some(f) => f(query),
            None => vstd::pervasive::unreached(),
        }
    }

    /// Hands the query text to the configured `first` callback and returns
    /// its optional-row result verbatim. A connection without that callback
    /// must not be asked for a first row.
    pub fn first(&self, query: String) -> (r: MockResult<Option<MockRow>>)
        where
            FF: Fn(String) -> MockResult<Option<MockRow>>,
        requires
            self.fn_first is Some,
            call_requires(self.fn_first->0, (query,)),
        ensures
            call_ensures(self.fn_first->0, (query,), r),
    {
        match &self.fn_first {
            Some(f) => f(query),
            None => vstd::pervasive::unreached(),
        }
    }

    /// Hands the query text to the configured `prepare` callback and returns
    /// the statement it produced verbatim. A connection without that
    /// callback must not be asked to prepare.
    pub fn prepare<SE, SFE>(&self, query: String) -> (r: MockResult<MockStmt<SE, SFE>>)
        where
            FP: Fn(String) -> MockResult<MockStmt<SE, SFE>>,
        requires
            self.fn_prepare is Some,
            call_requires(self.fn_prepare->0, (query,)),
        ensures
            call_ensures(self.fn_prepare->0, (query,), r),
    {
        match &self.fn_prepare {
            Some(f) => f(query),
            None => vstd::pervasive::unreached(),
        }
    }

    /// Hands the query text and parameters to the configured `prep_exec`
    /// callback and returns its result verbatim. A connection without that
    /// callback must not be asked to prepare-and-execute.
    pub fn prep_exec(&self, query: String, params: mysql::Params) -> (r: MockResult<
        MockQueryResult,
    >)
        where
            FPE: Fn(String, mysql::Params) -> MockResult<MockQueryResult>,
        requires
            self.fn_prep_exec is Some,
            call_requires(self.fn_prep_exec->0, (query, params)),
        ensures
            call_ensures(self.fn_prep_exec->0, (query, params), r),
    {
        match &self.fn_prep_exec {
            Some(f) => f(query, params),
            None => vstd::pervasive::unreached(),
        }
    }

    /// Hands the query text and parameters to the configured `first_exec`
    /// callback and returns its optional-row result verbatim. A connection
    /// without that callback must not be asked for a first row of an
    /// execution.
    pub fn first_exec(&self, query: String, params: mysql::Params) -> (r: MockResult<
        Option<MockRow>,
    >)
        where
            FFE: Fn(String, mysql::Params) -> MockResult<Option<MockRow>>,
        requires
            self.fn_first_exec is Some,
            call_requires(self.fn_first_exec->0, (query, params)),
        ensures
            call_ensures(self.fn_first_exec->0, (query, params), r),
    {
        match &self.fn_first_exec {
            Some(f) => f(query, params),
            None => vstd::pervasive::unreached(),
        }
    }
}

} // verus!
