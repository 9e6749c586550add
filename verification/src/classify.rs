//! The row classifier: a state machine over the result stream of one
//! invocation.
//!
//! Each row is classified on its own.  A row whose first column is named
//! `retStatus` is the status footer: its first two columns become the outcome
//! flag and message, read with the lenient defaults `false` and `"Unknown"`.
//! Every other row is a data row, projected into a record; only the latest
//! projection is kept.  Metadata events change nothing.  A stream fault ends
//! classification at once with a negative outcome that carries the fault's
//! text and no data, whatever was collected before.

use vstd::prelude::*;

use crate::rows::{
    project_row, read_row, spec_cells, spec_project, spec_row_model, FieldData, NamedCell,
    NamedCellModel, Record,
};
use crate::text::str_eq;

verus! {

/// The mathematical outcome of one invocation.
pub struct OutcomeModel {
    pub success: bool,
    pub message: Seq<char>,
    pub data: Option<Map<Seq<char>, FieldData>>,
}

/// The normalized outcome of one invocation: flag, message, and the last
/// projected data row, if any.
pub struct Outcome {
    pub success: bool,
    pub message: String,
    pub data: Option<Record>,
}

impl View for Outcome {
    type V = OutcomeModel;

    open spec fn view(&self) -> OutcomeModel {
        OutcomeModel {
            success: self.success,
            message: self.message@,
            data: match self.data {
                Some(r) => Some(r@),
                None => None,
            },
        }
    }
}

/// The mathematical reading of one stream event.
pub enum EventModel {
    Row(Seq<NamedCellModel>),
    Metadata,
    Fault(Seq<char>),
}

/// One event of the result stream: a row, a metadata notice, or a stream
/// fault with its description.
pub enum StreamEvent {
    Row(Vec<NamedCell>),
    Metadata,
    Fault(String),
}

impl View for StreamEvent {
    type V = EventModel;

    open spec fn view(&self) -> EventModel {
        match self {
            StreamEvent::Row(cells) => EventModel::Row(spec_cells(cells@)),
            StreamEvent::Metadata => EventModel::Metadata,
            StreamEvent::Fault(m) => EventModel::Fault(m@),
        }
    }
}

/// The readings of an event sequence.
pub open spec fn spec_events(s: Seq<StreamEvent>) -> Seq<EventModel> {
    s.map_values(|e: StreamEvent| e@)
}

/// Whether a row is the status footer: its first column is named
/// `retStatus`.
pub open spec fn spec_is_status_row(row: Seq<NamedCellModel>) -> bool {
    row.len() > 0 && row[0].name == "retStatus"@
}

/// The flag a status row carries: its first column read as a boolean,
/// `false` where that read failed or the column is missing.
pub open spec fn spec_status_flag(row: Seq<NamedCellModel>) -> bool {
    if row.len() > 0 {
        match row[0].cell.boolean {
            Some(b) => b,
            None => false,
        }
    } else {
        false
    }
}

/// The message a status row carries: its second column read as text,
/// `"Unknown"` where that read failed or the column is missing.
pub open spec fn spec_status_msg(row: Seq<NamedCellModel>) -> Seq<char> {
    if row.len() > 1 {
        match row[1].cell.text {
            Some(s) => s,
            None => "Unknown"@,
        }
    } else {
        "Unknown"@
    }
}

/// How one row changes the outcome under construction: a status row rewrites
/// flag and message, a data row rewrites the record.
pub open spec fn spec_step(st: OutcomeModel, row: Seq<NamedCellModel>) -> OutcomeModel {
    if spec_is_status_row(row) {
        OutcomeModel { success: spec_status_flag(row), message: spec_status_msg(row), data: st.data }
    } else {
        OutcomeModel { success: st.success, message: st.message, data: Some(spec_project(row)) }
    }
}

/// The outcome before any row arrived: failure, empty message, no data.
pub open spec fn spec_init() -> OutcomeModel {
    OutcomeModel { success: false, message: Seq::empty(), data: None }
}

/// What a stream fault yields, whatever was collected before it.
pub open spec fn spec_fault(message: Seq<char>) -> OutcomeModel {
    OutcomeModel { success: false, message, data: None }
}

/// Runs the classifier from a given state over the rest of the stream.
pub open spec fn spec_run(st: OutcomeModel, events: Seq<EventModel>) -> OutcomeModel
    decreases events.len(),
{
    if events.len() == 0 {
        st
    } else {
        match events[0] {
            EventModel::Row(row) => spec_run(spec_step(st, row), events.skip(1)),
            EventModel::Metadata => spec_run(st, events.skip(1)),
            EventModel::Fault(m) => spec_fault(m),
        }
    }
}

/// The outcome of a whole stream, from the initial state.
pub open spec fn spec_classify(events: Seq<EventModel>) -> OutcomeModel {
    spec_run(spec_init(), events)
}

/// The classifier's state while a stream is being consumed.
pub struct Classifier {
    pub status: bool,
    pub message: String,
    pub data: Option<Record>,
}

impl View for Classifier {
    type V = OutcomeModel;

    open spec fn view(&self) -> OutcomeModel {
        OutcomeModel {
            success: self.status,
            message: self.message@,
            data: match self.data {
                Some(r) => Some(r@),
                None => None,
            },
        }
    }
}

impl Classifier {
    /// A classifier that has seen nothing.
    pub fn new() -> (r: Classifier)
        ensures
            r@ == spec_init(),
    {
        Classifier { status: false, message: String::new(), data: None }
    }

    /// Classifies one row.
    pub fn consume_row(&mut self, cells: &Vec<NamedCell>)
        ensures
            final(self)@ == spec_step(old(self)@, spec_cells(cells@)),
    {
        let is_status = cells.len() > 0 && str_eq(cells[0].name.as_str(), "retStatus");
        if is_status {
            self.status = match &cells[0].probe.boolean {
                Some(b) => *b,
                None => false,
            };
            self.message = if cells.len() > 1 {
                match &cells[1].probe.text {
                    Some(s) => s.clone(),
                    None => "Unknown".to_owned(),
                }
            } else {
                "Unknown".to_owned()
            };
        } else {
            self.data = Some(project_row(cells));
        }
    }

    /// Classifies one row of the database client.
    pub fn consume_client_row(&mut self, row: &tiberius::Row)
        ensures
            final(self)@ == spec_step(old(self)@, spec_row_model(*row)),
    {
        let cells = read_row(row);
        self.consume_row(&cells);
    }

    /// The outcome once the stream is exhausted.
    pub fn finish(self) -> (r: Outcome)
        ensures
            r@ == self@,
    {
        Outcome { success: self.status, message: self.message, data: self.data }
    }
}

/// The outcome a stream fault forces: failure, the fault's text, no data.
pub fn fault_outcome(message: String) -> (r: Outcome)
    ensures
        r@ == spec_fault(message@),
{
    Outcome { success: false, message, data: None }
}

/// Classifies a whole event sequence: what consuming the stream to
/// completion returns.
pub fn classify_stream(events: &Vec<StreamEvent>) -> (r: Outcome)
    ensures
        r@ == spec_classify(spec_events(events@)),
{
    let ghost evs = spec_events(events@);
    let mut cl = Classifier::new();
    let mut i: usize = 0;
    proof {
        assert(evs.skip(0) =~= evs);
    }
    while i < events.len()
        invariant
            i <= events@.len(),
            evs == spec_events(events@),
            evs.len() == events@.len(),
            spec_run(cl@, evs.skip(i as int)) == spec_classify(evs),
        decreases events@.len() - i,
    {
        proof {
            assert(evs.skip(i as int)[0] == evs[i as int]);
            assert(evs.skip(i as int).skip(1) =~= evs.skip(i + 1 as int));
        }
        match &events[i] {
            StreamEvent::Row(cells) => {
                cl.consume_row(cells);
            },
            StreamEvent::Metadata => {},
            StreamEvent::Fault(m) => {
                return fault_outcome(m.clone());
            },
        }
        i += 1;
    }
    proof {
        assert(evs.skip(evs.len() as int) =~= Seq::<EventModel>::empty());
    }
    cl.finish()
}

/// Whether a stream holds no fault event.
pub open spec fn spec_fault_free(events: Seq<EventModel>) -> bool {
    forall|i: int|
        0 <= i < events.len() ==> !((#[trigger] events[i]) matches EventModel::Fault(_))
}

/// The last data row of a stream, if it has one.
pub open spec fn spec_last_data_row(events: Seq<EventModel>) -> Option<Seq<NamedCellModel>>
    decreases events.len(),
{
    if events.len() == 0 {
        None
    } else {
        match spec_last_data_row(events.skip(1)) {
            Some(r) => Some(r),
            None => match events[0] {
                EventModel::Row(r) => if !spec_is_status_row(r) {
                    Some(r)
                } else {
                    None
                },
                _ => None,
            },
        }
    }
}

/// The last status row of a stream, if it has one.
pub open spec fn spec_last_status_row(events: Seq<EventModel>) -> Option<Seq<NamedCellModel>>
    decreases events.len(),
{
    if events.len() == 0 {
        None
    } else {
        match spec_last_status_row(events.skip(1)) {
            Some(r) => Some(r),
            None => match events[0] {
                EventModel::Row(r) => if spec_is_status_row(r) {
                    Some(r)
                } else {
                    None
                },
                _ => None,
            },
        }
    }
}

/// Law: classification is per-row, not position-dependent.  Over a stream
/// without faults, the outcome's data is the projection of the last data row
/// wherever the status row stands, and the flag and message come from the
/// last status row wherever the data rows stand; without such a row, each
/// part keeps the starting state's value.
pub proof fn lemma_classification_per_row(st: OutcomeModel, events: Seq<EventModel>)
    requires
        spec_fault_free(events),
    ensures
        spec_run(st, events).data == (match spec_last_data_row(events) {
            Some(r) => Some(spec_project(r)),
            None => st.data,
        }),
        spec_run(st, events).success == (match spec_last_status_row(events) {
            Some(r) => spec_status_flag(r),
            None => st.success,
        }),
        spec_run(st, events).message == (match spec_last_status_row(events) {
            Some(r) => spec_status_msg(r),
            None => st.message,
        }),
    decreases events.len(),
{
    if events.len() > 0 {
        let rest = events.skip(1);
        assert forall|j: int| 0 <= j < rest.len() implies !((#[trigger] rest[j])
            matches EventModel::Fault(_)) by {
            assert(rest[j] == events[j + 1]);
        }
        match events[0] {
            EventModel::Row(r) => {
                lemma_classification_per_row(spec_step(st, r), rest);
            },
            EventModel::Metadata => {
                lemma_classification_per_row(st, rest);
            },
            EventModel::Fault(_) => {
                assert(events[0] matches EventModel::Fault(_));
            },
        }
    }
}

/// In a stream that ends with a status row and then a data row, those two
/// are its last status row and its last data row.
proof fn lemma_last_rows_of_footer_pair(
    prefix: Seq<EventModel>,
    status_row: Seq<NamedCellModel>,
    data_row: Seq<NamedCellModel>,
)
    requires
        spec_is_status_row(status_row),
        !spec_is_status_row(data_row),
    ensures
        spec_last_data_row(prefix + seq![EventModel::Row(status_row), EventModel::Row(data_row)])
            == Some(data_row),
        spec_last_status_row(prefix + seq![EventModel::Row(status_row), EventModel::Row(data_row)])
            == Some(status_row),
    decreases prefix.len(),
{
    let all = prefix + seq![EventModel::Row(status_row), EventModel::Row(data_row)];
    if prefix.len() == 0 {
        reveal_with_fuel(spec_last_data_row, 3);
        reveal_with_fuel(spec_last_status_row, 3);
        let tail = all.skip(1);
        assert(tail =~= seq![EventModel::Row(data_row)]);
        assert(tail.skip(1) =~= Seq::<EventModel>::empty());
        assert(all[0] == EventModel::Row(status_row));
    } else {
        assert(all.skip(1) =~= prefix.skip(1) + seq![
            EventModel::Row(status_row),
            EventModel::Row(data_row),
        ]);
        lemma_last_rows_of_footer_pair(prefix.skip(1), status_row, data_row);
    }
}

/// In a stream that ends with two data rows, the later one is its last data
/// row.
proof fn lemma_last_row_of_data_pair(
    prefix: Seq<EventModel>,
    first: Seq<NamedCellModel>,
    second: Seq<NamedCellModel>,
)
    requires
        !spec_is_status_row(second),
    ensures
        spec_last_data_row(prefix + seq![EventModel::Row(first), EventModel::Row(second)])
            == Some(second),
    decreases prefix.len(),
{
    let all = prefix + seq![EventModel::Row(first), EventModel::Row(second)];
    if prefix.len() == 0 {
        reveal_with_fuel(spec_last_data_row, 3);
        let tail = all.skip(1);
        assert(tail =~= seq![EventModel::Row(second)]);
        assert(tail.skip(1) =~= Seq::<EventModel>::empty());
        assert(all[0] == EventModel::Row(first));
    } else {
        assert(all.skip(1) =~= prefix.skip(1) + seq![
            EventModel::Row(first),
            EventModel::Row(second),
        ]);
        lemma_last_row_of_data_pair(prefix.skip(1), first, second);
    }
}

/// Law: a status row is terminal-status information wherever it stands.  If
/// it arrives before a data row, the data row's projection is still the
/// outcome's data, and the flag and message still come from that status row.
pub proof fn lemma_status_row_position_independent(
    prefix: Seq<EventModel>,
    status_row: Seq<NamedCellModel>,
    data_row: Seq<NamedCellModel>,
)
    requires
        spec_fault_free(prefix),
        spec_last_status_row(prefix) is None,
        spec_last_data_row(prefix) is None,
        spec_is_status_row(status_row),
        !spec_is_status_row(data_row),
    ensures
        ({
            let o = spec_classify(
                prefix + seq![EventModel::Row(status_row), EventModel::Row(data_row)],
            );
            &&& o.data == Some(spec_project(data_row))
            &&& o.success == spec_status_flag(status_row)
            &&& o.message == spec_status_msg(status_row)
        }),
{
    let all = prefix + seq![EventModel::Row(status_row), EventModel::Row(data_row)];
    assert forall|j: int| 0 <= j < all.len() implies !((#[trigger] all[j])
        matches EventModel::Fault(_)) by {
        if j < prefix.len() {
            assert(all[j] == prefix[j]);
        }
    }
    lemma_last_rows_of_footer_pair(prefix, status_row, data_row);
    lemma_classification_per_row(spec_init(), all);
}

/// Law: last write wins across data rows.  Whatever two data rows hold for a
/// shared column name, the outcome's data is the projection of the one that
/// arrived second.
pub proof fn lemma_last_data_row_wins(
    prefix: Seq<EventModel>,
    first: Seq<NamedCellModel>,
    second: Seq<NamedCellModel>,
)
    requires
        spec_fault_free(prefix),
        !spec_is_status_row(second),
    ensures
        spec_classify(prefix + seq![EventModel::Row(first), EventModel::Row(second)]).data
            == Some(spec_project(second)),
{
    let all = prefix + seq![EventModel::Row(first), EventModel::Row(second)];
    assert forall|j: int| 0 <= j < all.len() implies !((#[trigger] all[j])
        matches EventModel::Fault(_)) by {
        if j < prefix.len() {
            assert(all[j] == prefix[j]);
        }
    }
    lemma_last_row_of_data_pair(prefix, first, second);
    lemma_classification_per_row(spec_init(), all);
}

} // verus!
