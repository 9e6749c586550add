//! The engine's own reading of one result row, and its projection into a
//! schema-less record.
//!
//! A cell is kept as the outcomes of the typed reads the engine attempts on
//! it; the coercion cascade then picks the first read that succeeded, in the
//! fixed order text, 32-bit integer, 64-bit integer, and falls back to null.
//! A failed read never fails the invocation: it only turns that column null.

use vstd::prelude::*;

use crate::db::{
    row_bool, row_bool_at, row_col_count, row_col_name, row_i32, row_i32_at, row_i64, row_i64_at,
    row_len, row_name_at, row_text, row_text_at,
};
use crate::text::str_eq;

verus! {

/// The mathematical reading of one cell: what each typed read yields.
pub struct CellModel {
    pub text: Option<Seq<char>>,
    pub int32: Option<i32>,
    pub int64: Option<i64>,
    pub boolean: Option<bool>,
}

/// The mathematical reading of one named cell.
pub struct NamedCellModel {
    pub name: Seq<char>,
    pub cell: CellModel,
}

/// The outcomes of the typed reads attempted on one cell.
#[derive(Clone)]
pub struct CellProbe {
    pub text: Option<String>,
    pub int32: Option<i32>,
    pub int64: Option<i64>,
    pub boolean: Option<bool>,
}

impl View for CellProbe {
    type V = CellModel;

    open spec fn view(&self) -> CellModel {
        CellModel {
            text: self.text.deep_view(),
            int32: self.int32,
            int64: self.int64,
            boolean: self.boolean,
        }
    }
}

/// One column of a row: its declared name and the reads of its value.
#[derive(Clone)]
pub struct NamedCell {
    pub name: String,
    pub probe: CellProbe,
}

impl View for NamedCell {
    type V = NamedCellModel;

    open spec fn view(&self) -> NamedCellModel {
        NamedCellModel { name: self.name@, cell: self.probe@ }
    }
}

/// The readings of a cell sequence.
pub open spec fn spec_cells(s: Seq<NamedCell>) -> Seq<NamedCellModel> {
    s.map_values(|c: NamedCell| c@)
}

/// The value a projected column ends up with.
pub enum FieldData {
    Text(Seq<char>),
    Int32(i32),
    Int64(i64),
    Null,
}

/// One projected column value: text, an integer, or null.
#[derive(Clone)]
pub enum FieldValue {
    Text(String),
    Int32(i32),
    Int64(i64),
    Null,
}

impl View for FieldValue {
    type V = FieldData;

    open spec fn view(&self) -> FieldData {
        match self {
            FieldValue::Text(s) => FieldData::Text(s@),
            FieldValue::Int32(n) => FieldData::Int32(*n),
            FieldValue::Int64(n) => FieldData::Int64(*n),
            FieldValue::Null => FieldData::Null,
        }
    }
}

/// The coercion cascade: the first read that succeeded wins, text before the
/// 32-bit integer, that before the 64-bit one; where every read failed the
/// column becomes null.  Text is tried first by design, so a numeric-looking
/// column that reads as text stays text.
pub open spec fn spec_coerce(c: CellModel) -> FieldData {
    match c.text {
        Some(s) => FieldData::Text(s),
        None => match c.int32 {
            Some(n) => FieldData::Int32(n),
            None => match c.int64 {
                Some(n) => FieldData::Int64(n),
                None => FieldData::Null,
            },
        },
    }
}

/// Applies the coercion cascade to one cell.
pub fn coerce_cell(c: &CellProbe) -> (v: FieldValue)
    ensures
        v@ == spec_coerce(c@),
{
    match &c.text {
        Some(s) => FieldValue::Text(s.clone()),
        None => match &c.int32 {
            Some(n) => FieldValue::Int32(*n),
            None => match &c.int64 {
                Some(n) => FieldValue::Int64(*n),
                None => FieldValue::Null,
            },
        },
    }
}

/// The name-to-value mapping a pair sequence denotes: a later pair for the
/// same name wins.
pub open spec fn spec_pairs_map(s: Seq<(Seq<char>, FieldData)>) -> Map<Seq<char>, FieldData>
    decreases s.len(),
{
    if s.len() == 0 {
        Map::empty()
    } else {
        spec_pairs_map(s.drop_last()).insert(s.last().0, s.last().1)
    }
}

/// The pair readings of a record's fields.
pub open spec fn spec_field_pairs(s: Seq<(String, FieldValue)>) -> Seq<(Seq<char>, FieldData)> {
    s.map_values(|p: (String, FieldValue)| (p.0@, p.1@))
}

/// A schema-less record: column names mapped to projected values.
#[derive(Clone)]
pub struct Record {
    pub fields: Vec<(String, FieldValue)>,
}

impl View for Record {
    type V = Map<Seq<char>, FieldData>;

    open spec fn view(&self) -> Map<Seq<char>, FieldData> {
        spec_pairs_map(spec_field_pairs(self.fields@))
    }
}

/// In a pair sequence whose tail holds no pair for `k`, looking `k` up means
/// looking it up in the head.
proof fn lemma_pairs_map_skip_tail(s: Seq<(Seq<char>, FieldData)>, i: int, k: Seq<char>)
    requires
        0 <= i <= s.len(),
        forall|j: int| i <= j < s.len() ==> (#[trigger] s[j]).0 != k,
    ensures
        spec_pairs_map(s).contains_key(k) == spec_pairs_map(s.subrange(0, i)).contains_key(k),
        spec_pairs_map(s).contains_key(k) ==> spec_pairs_map(s)[k] == spec_pairs_map(
            s.subrange(0, i),
        )[k],
    decreases s.len() - i,
{
    if i == s.len() {
        assert(s.subrange(0, i) =~= s);
    } else {
        let shorter = s.drop_last();
        assert(shorter.subrange(0, i) =~= s.subrange(0, i));
        lemma_pairs_map_skip_tail(shorter, i, k);
    }
}

impl Record {
    /// An empty record.
    pub fn new() -> (r: Record)
        ensures
            r@ == Map::<Seq<char>, FieldData>::empty(),
            r.fields@.len() == 0,
    {
        Record { fields: Vec::new() }
    }

    /// Stores a value under a name, replacing what the name held before.
    pub fn set(&mut self, name: String, value: FieldValue)
        ensures
            final(self)@ == old(self)@.insert(name@, value@),
    {
        let ghost pairs0 = spec_field_pairs(self.fields@);
        self.fields.push((name, value));
        proof {
            let pairs1 = spec_field_pairs(self.fields@);
            assert(pairs1.drop_last() =~= pairs0);
        }
    }

    /// Looks a name up: the value it maps to, or nothing.
    pub fn get(&self, name: &str) -> (r: Option<&FieldValue>)
        ensures
            match r {
                Some(v) => self@.contains_key(name@) && v@ == self@[name@],
                None => !self@.contains_key(name@),
            },
    {
        let ghost pairs = spec_field_pairs(self.fields@);
        let mut i: usize = self.fields.len();
        while i > 0
            invariant
                i <= self.fields@.len(),
                pairs == spec_field_pairs(self.fields@),
                forall|j: int| i <= j < pairs.len() ==> (#[trigger] pairs[j]).0 != name@,
            decreases i,
        {
            i = i - 1;
            if str_eq(self.fields[i].0.as_str(), name) {
                proof {
                    lemma_pairs_map_skip_tail(pairs, i + 1, name@);
                    let head = pairs.subrange(0, i + 1 as int);
                    assert(head.drop_last() =~= pairs.subrange(0, i as int));
                    assert(head.last() == pairs[i as int]);
                }
                return Some(&self.fields[i].1);
            }
        }
        proof {
            lemma_pairs_map_skip_tail(pairs, 0, name@);
            assert(pairs.subrange(0, 0) =~= Seq::<(Seq<char>, FieldData)>::empty());
        }
        None
    }
}

/// The projection of a data row: each column coerced and stored under its
/// name, a later column winning over an earlier one with the same name.
pub open spec fn spec_project(cells: Seq<NamedCellModel>) -> Map<Seq<char>, FieldData>
    decreases cells.len(),
{
    if cells.len() == 0 {
        Map::empty()
    } else {
        spec_project(cells.drop_last()).insert(
            cells.last().name,
            spec_coerce(cells.last().cell),
        )
    }
}

/// Projects a data row into a record.
pub fn project_row(cells: &Vec<NamedCell>) -> (rec: Record)
    ensures
        rec@ == spec_project(spec_cells(cells@)),
{
    let ghost m = spec_cells(cells@);
    let mut rec = Record::new();
    let mut i: usize = 0;
    while i < cells.len()
        invariant
            i <= cells@.len(),
            m == spec_cells(cells@),
            m.len() == cells@.len(),
            rec@ == spec_project(m.subrange(0, i as int)),
        decreases cells@.len() - i,
    {
        let value = coerce_cell(&cells[i].probe);
        rec.set(cells[i].name.clone(), value);
        proof {
            let cur = m.subrange(0, i + 1 as int);
            assert(cur.drop_last() =~= m.subrange(0, i as int));
            assert(cur.last() == m[i as int]);
        }
        i += 1;
    }
    proof {
        assert(m.subrange(0, m.len() as int) =~= m);
    }
    rec
}

/// The engine's reading of a client row: every column's name and typed reads.
pub open spec fn spec_row_model(r: tiberius::Row) -> Seq<NamedCellModel> {
    Seq::new(
        row_col_count(r),
        |i: int|
            NamedCellModel {
                name: row_col_name(r, i),
                cell: CellModel {
                    text: row_text(r, i),
                    int32: row_i32(r, i),
                    int64: row_i64(r, i),
                    boolean: row_bool(r, i),
                },
            },
    )
}

/// Reads a client row column by column into the engine's own cells.
pub fn read_row(r: &tiberius::Row) -> (cells: Vec<NamedCell>)
    ensures
        spec_cells(cells@) == spec_row_model(*r),
{
    let n = row_len(r);
    let mut cells: Vec<NamedCell> = Vec::new();
    let mut i: usize = 0;
    while i < n
        invariant
            i <= n,
            n as nat == row_col_count(*r),
            cells@.len() == i,
            spec_cells(cells@) =~= spec_row_model(*r).subrange(0, i as int),
        decreases n - i,
    {
        let cell = NamedCell {
            name: row_name_at(r, i),
            probe: CellProbe {
                text: row_text_at(r, i),
                int32: row_i32_at(r, i),
                int64: row_i64_at(r, i),
                boolean: row_bool_at(r, i),
            },
        };
        cells.push(cell);
        proof {
            let m2 = spec_row_model(*r);
            assert(cells@.len() == i + 1);
            assert forall|j: int| 0 <= j < i + 1 implies spec_cells(cells@)[j] == m2.subrange(
                0,
                i + 1 as int,
            )[j] by {
                assert(spec_cells(cells@)[j] == cells@[j]@);
                assert(m2.subrange(0, i + 1 as int)[j] == m2[j]);
                if j < i {
                    assert(cells@[j]@ == m2.subrange(0, i as int)[j]);
                }
            }
            assert(spec_cells(cells@) =~= m2.subrange(0, i + 1 as int));
        }
        i += 1;
    }
    proof {
        assert(spec_row_model(*r).subrange(0, n as int) =~= spec_row_model(*r));
    }
    cells
}

} // verus!
