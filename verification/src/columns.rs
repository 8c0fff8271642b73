//! Column-name resolution.
//!
//! A statement and a query result both carry an ordered column list and answer
//! name lookups against it. The lookup is case-sensitive and finds the first
//! column bearing the name; a missing name is reported as `None`, never as a
//! failure.

use vstd::prelude::*;
use crate::boundary::col_name;
use crate::boundary::column_name;

verus! {

/// The column at index `i` of `cols` bears `name`, and no earlier column does.
pub open spec fn name_found_at(cols: Seq<mysql::Column>, name: Seq<char>, i: int) -> bool {
    &&& 0 <= i < cols.len()
    &&& column_name(cols[i]) == name
    &&& forall|j: int| 0 <= j < i ==> column_name(#[trigger] cols[j]) != name
}

/// No column of `cols` bears `name`.
pub open spec fn name_absent(cols: Seq<mysql::Column>, name: Seq<char>) -> bool {
    forall|j: int| 0 <= j < cols.len() ==> column_name(#[trigger] cols[j]) != name
}

/// At most one index is the first bearer of a name.
pub proof fn lemma_name_found_at_unique(
    cols: Seq<mysql::Column>,
    name: Seq<char>,
    i: int,
    j: int,
)
    requires
        name_found_at(cols, name, i),
        name_found_at(cols, name, j),
    ensures
        i == j,
{
    if i < j {
        assert(column_name(cols[i]) != name);
    }
    if j < i {
        assert(column_name(cols[j]) != name);
    }
}

/// The index of the first column of `cols` bearing `name`, if any.
pub open spec fn resolve_name(cols: Seq<mysql::Column>, name: Seq<char>) -> Option<int> {
    if exists|i: int| name_found_at(cols, name, i) {
        Some(choose|i: int| name_found_at(cols, name, i))
    } else {
        None
    }
}

/// Finds the first column of `cols` named `name`.
pub fn find_column(cols: &Vec<mysql::Column>, name: &str) -> (r: Option<usize>)
    ensures
        match r {
            Some(i) => name_found_at(cols@, name@, i as int),
            None => name_absent(cols@, name@),
        },
{
    let want: String = name.to_owned();
    let mut i: usize = 0;
    while i < cols.len()
        invariant
            i <= cols@.len(),
            want@ == name@,
            forall|j: int| 0 <= j < i ==> column_name(#[trigger] cols@[j]) != name@,
        decreases cols@.len() - i,
    {
        let cn = col_name(&cols[i]);
        if cn == want {
            return Some(i);
        }
        i = i + 1;
    }
    None
}

/// The name-to-ordinal table of `cols`: one `(name, ordinal)` entry per
/// column, in column order.
pub open spec fn index_table_of(t: Seq<(String, usize)>, cols: Seq<mysql::Column>) -> bool {
    &&& t.len() == cols.len()
    &&& forall|k: int|
        0 <= k < t.len() ==> (#[trigger] t[k]).0@ == column_name(cols[k]) && t[k].1 == k
}

/// Builds the name-to-ordinal table for `cols`.
pub fn build_column_indexes(cols: &Vec<mysql::Column>) -> (t: Vec<(String, usize)>)
    ensures
        index_table_of(t@, cols@),
{
    let mut t: Vec<(String, usize)> = Vec::new();
    let mut i: usize = 0;
    while i < cols.len()
        invariant
            i <= cols@.len(),
            t@.len() == i,
            forall|k: int|
                0 <= k < i ==> (#[trigger] t@[k]).0@ == column_name(cols@[k]) && t@[k].1 == k,
        decreases cols@.len() - i,
    {
        let n = col_name(&cols[i]);
        t.push((n, i));
        i = i + 1;
    }
    t
}

/// Entry `k` of the table bears `name`, and no earlier entry does.
pub open spec fn table_found_at(t: Seq<(String, usize)>, name: Seq<char>, k: int) -> bool {
    &&& 0 <= k < t.len()
    &&& t[k].0@ == name
    &&& forall|j: int| 0 <= j < k ==> (#[trigger] t[j]).0@ != name
}

/// No entry of the table bears `name`.
pub open spec fn table_absent(t: Seq<(String, usize)>, name: Seq<char>) -> bool {
    forall|k: int| 0 <= k < t.len() ==> (#[trigger] t[k]).0@ != name
}

/// Looks `name` up in a name-to-ordinal table: the ordinal stored in the first
/// entry bearing the name, or `None` when no entry does.
pub fn table_lookup(t: &Vec<(String, usize)>, name: &str) -> (r: Option<usize>)
    ensures
        match r {
            Some(ix) => exists|k: int|
                table_found_at(t@, name@, k) && (#[trigger] t@[k]).1 == ix,
            None => table_absent(t@, name@),
        },
{
    let want: String = name.to_owned();
    let mut k: usize = 0;
    while k < t.len()
        invariant
            k <= t@.len(),
            want@ == name@,
            forall|j: int| 0 <= j < k ==> (#[trigger] t@[j]).0@ != name@,
        decreases t@.len() - k,
    {
        if t[k].0 == want {
            return Some(t[k].1);
        }
        k = k + 1;
    }
    None
}

/// On a table built from `cols`, a lookup finds exactly the first column
/// bearing the name and returns that column's ordinal; a name no column bears
/// is absent from the table as well.
pub proof fn lemma_built_table_lookup(
    t: Seq<(String, usize)>,
    cols: Seq<mysql::Column>,
    name: Seq<char>,
)
    requires
        index_table_of(t, cols),
    ensures
        forall|i: int| name_found_at(cols, name, i) ==> table_found_at(t, name, i) && (
        #[trigger] t[i]).1 == i,
        name_absent(cols, name) ==> table_absent(t, name),
{
}

/// The converse direction: whatever ordinal a lookup on a built table hands
/// out for `name`, it is the index of the first column bearing `name`. With
/// the ensures of `table_lookup` this pins a name lookup on a constructed
/// statement or result set to exactly one answer.
pub proof fn lemma_lookup_on_built_table(
    t: Seq<(String, usize)>,
    cols: Seq<mysql::Column>,
    name: Seq<char>,
    i: int,
    k: int,
)
    requires
        index_table_of(t, cols),
        table_found_at(t, name, k),
        name_found_at(cols, name, i),
    ensures
        k == i,
        t[k].1 == i,
{
    assert forall|j: int| 0 <= j < k implies column_name(#[trigger] cols[j]) != name by {
        assert(t[j].0@ != name);
    }
    assert(name_found_at(cols, name, k));
    lemma_name_found_at_unique(cols, name, i, k);
}

} // verus!
