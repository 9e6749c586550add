//! Trusted declarations for the database client's query and row objects.
//!
//! Verified code fills a `tiberius::Query` with SQL text and positional
//! parameters, and reads a `tiberius::Row` column by column.  Both types are
//! opaque here; what they carry is named by the spec functions below, and
//! each wrapper states over those names what the client library's source
//! shows of the one call its body makes.

use vstd::prelude::*;

use crate::model::ParamData;

verus! {

/// Declares the client's query object: SQL text plus the parameters bound so
/// far.
#[verifier::external_type_specification]
#[verifier::external_body]
pub struct ExQuery<'a>(tiberius::Query<'a>);

/// The SQL text a query object was created with.
pub uninterp spec fn query_sql(q: tiberius::Query) -> Seq<char>;

/// The positional parameters bound to a query object so far, oldest first.
pub uninterp spec fn query_binds(q: tiberius::Query) -> Seq<ParamData>;

/// Relies on `tiberius::Query::new`: the object stores the given SQL and an
/// empty parameter list.
#[verifier::external_body]
pub(crate) fn query_new(sql: String) -> (q: tiberius::Query<'static>)
    ensures
        query_sql(q) == sql@,
        query_binds(q) == Seq::<ParamData>::empty(),
{
    tiberius::Query::new(sql)
}

/// Relies on `tiberius::Query::bind`: the text is appended to the parameter
/// list and nothing else changes.
#[verifier::external_body]
pub(crate) fn query_bind_text<'a>(q: &mut tiberius::Query<'a>, v: &'a str)
    ensures
        query_sql(*final(q)) == query_sql(*old(q)),
        query_binds(*final(q)) == query_binds(*old(q)).push(ParamData::Text(v@)),
{
    q.bind(v)
}

/// Relies on `tiberius::Query::bind`: the integer is appended to the
/// parameter list and nothing else changes.
#[verifier::external_body]
pub(crate) fn query_bind_i64(q: &mut tiberius::Query<'_>, v: i64)
    ensures
        query_sql(*final(q)) == query_sql(*old(q)),
        query_binds(*final(q)) == query_binds(*old(q)).push(ParamData::Int(v)),
{
    q.bind(v)
}

/// Declares the client's row object: named columns, each readable under the
/// types the wire value supports.
#[verifier::external_type_specification]
#[verifier::external_body]
pub struct ExRow(tiberius::Row);

/// The number of columns in a row.
pub uninterp spec fn row_col_count(r: tiberius::Row) -> nat;

/// The declared name of column `i`, or the empty string where the row has no
/// such column.
pub uninterp spec fn row_col_name(r: tiberius::Row, i: int) -> Seq<char>;

/// What reading column `i` as text yields: `None` where the value is NULL or
/// does not read as text.
pub uninterp spec fn row_text(r: tiberius::Row, i: int) -> Option<Seq<char>>;

/// What reading column `i` as a 32-bit integer yields.
pub uninterp spec fn row_i32(r: tiberius::Row, i: int) -> Option<i32>;

/// What reading column `i` as a 64-bit integer yields.
pub uninterp spec fn row_i64(r: tiberius::Row, i: int) -> Option<i64>;

/// What reading column `i` as a boolean yields.
pub uninterp spec fn row_bool(r: tiberius::Row, i: int) -> Option<bool>;

/// Relies on `tiberius::Row::len`: the number of columns in the row.
#[verifier::external_body]
pub(crate) fn row_len(r: &tiberius::Row) -> (n: usize)
    ensures
        n as nat == row_col_count(*r),
{
    r.len()
}

/// Relies on `tiberius::Row::columns` and `tiberius::Column::name`: the
/// declared name of column `i`; the empty string where `i` is out of range.
#[verifier::external_body]
pub(crate) fn row_name_at(r: &tiberius::Row, i: usize) -> (name: String)
    ensures
        name@ == row_col_name(*r, i as int),
{
    match r.columns().get(i) {
        Some(c) => c.name().to_string(),
        None => String::new(),
    }
}

/// Relies on `tiberius::Row::try_get::<&str>`: the column read as text, with
/// NULL and a failed conversion both folded to `None`.
#[verifier::external_body]
pub(crate) fn row_text_at(r: &tiberius::Row, i: usize) -> (v: Option<String>)
    requires
        i < row_col_count(*r),
    ensures
        v.deep_view() == row_text(*r, i as int),
{
    match r.try_get::<&str, usize>(i) {
        Ok(Some(s)) => Some(s.to_string()),
        Ok(None) => None,
        Err(_) => None,
    }
}

/// Relies on `tiberius::Row::try_get::<i32>`: the column read as a 32-bit
/// integer, with NULL and a failed conversion both folded to `None`.
#[verifier::external_body]
pub(crate) fn row_i32_at(r: &tiberius::Row, i: usize) -> (v: Option<i32>)
    requires
        i < row_col_count(*r),
    ensures
        v == row_i32(*r, i as int),
{
    match r.try_get::<i32, usize>(i) {
        Ok(Some(n)) => Some(n),
        Ok(None) => None,
        Err(_) => None,
    }
}

/// Relies on `tiberius::Row::try_get::<i64>`: the column read as a 64-bit
/// integer, with NULL and a failed conversion both folded to `None`.
#[verifier::external_body]
pub(crate) fn row_i64_at(r: &tiberius::Row, i: usize) -> (v: Option<i64>)
    requires
        i < row_col_count(*r),
    ensures
        v == row_i64(*r, i as int),
{
    match r.try_get::<i64, usize>(i) {
        Ok(Some(n)) => Some(n),
        Ok(None) => None,
        Err(_) => None,
    }
}

/// Relies on `tiberius::Row::try_get::<bool>`: the column read as a boolean,
/// with NULL and a failed conversion both folded to `None`.
#[verifier::external_body]
pub(crate) fn row_bool_at(r: &tiberius::Row, i: usize) -> (v: Option<bool>)
    requires
        i < row_col_count(*r),
    ensures
        v == row_bool(*r, i as int),
{
    match r.try_get::<bool, usize>(i) {
        Ok(Some(b)) => Some(b),
        Ok(None) => None,
        Err(_) => None,
    }
}

} // verus!
