use bigdecimal::BigDecimal;
use uuid::Uuid;
use vstd::prelude::*;
use crate::error::CustomError;
use crate::error::StoreFailure;
use crate::operation::EventView;
use crate::operation::OperationView;
use crate::operation::ReplyView;
use crate::operation::Request;
use crate::record::MeasurementsModel;
use crate::tables::Tables;

verus! {

/// The operation that `MeasurementsModel::find_all` starts.
pub open spec fn listing() -> OperationView {
    OperationView::Connect(Request::FindAll)
}

/// The operation that `MeasurementsModel::find` starts.
pub open spec fn fetching(id: Uuid) -> OperationView {
    OperationView::Connect(Request::Find(id))
}

/// The operation that `MeasurementsModel::create` starts.
pub open spec fn creating(sensor_id: Uuid, value: BigDecimal) -> OperationView {
    OperationView::Connect(Request::Create { sensor_id, value })
}

/// The operation that `MeasurementsModel::delete` starts.
pub open spec fn deleting(id: Uuid) -> OperationView {
    OperationView::Connect(Request::Delete(id))
}

/// A failure at any step ends the operation at once, with a data-access error
/// that carries the cause unchanged. No step follows it: nothing is retried,
/// and nothing that was written before is taken back.
pub proof fn failure_ends_operation(operation: OperationView, failure: StoreFailure)
    requires
        !operation.is_done(),
    ensures
        operation.accepts(EventView::Failed(failure)),
        operation.on_event(EventView::Failed(failure)) == OperationView::Done(
            Err(CustomError::DataAccessError(failure)),
        ),
{
}

/// A finished operation stays as it is, whatever is reported to it.
pub proof fn done_is_final(outcome: Result<ReplyView, CustomError>, event: EventView)
    ensures
        !OperationView::Done(outcome).accepts(event),
        OperationView::Done(outcome).on_event(event) == OperationView::Done(outcome),
{
}

/// Every operation is done after at most three reports, and each report that
/// it accepts brings it nearer to its end.
pub proof fn operation_ends(operation: OperationView, event: EventView)
    requires
        operation.accepts(event),
    ensures
        operation.remaining() <= 3,
        operation.on_event(event).remaining() < operation.remaining(),
        operation.remaining() == 0 <==> operation.is_done(),
{
}

/// Listing: with a connection the repository asks for every row, and hands on
/// the rows in the order in which the store gave them.
pub proof fn listing_decides(rows: Seq<MeasurementsModel>)
    ensures
        listing().on_event(EventView::Connected) == OperationView::LoadAll,
        OperationView::LoadAll.on_event(EventView::Loaded(rows)) == OperationView::Done(
            Ok(ReplyView::Records(rows)),
        ),
{
}

/// Fetching: with a connection the repository asks for the row with the
/// identifier; it hands on the row that the store selected, and answers
/// `NotFound` where the store selected none.
pub proof fn fetching_decides(id: Uuid, row: MeasurementsModel)
    ensures
        fetching(id).on_event(EventView::Connected) == OperationView::Select(id),
        OperationView::Select(id).on_event(EventView::Selected(Some(row))) == OperationView::Done(
            Ok(ReplyView::Record(row)),
        ),
        OperationView::Select(id).on_event(EventView::Selected(None)) == OperationView::Done(
            Err(CustomError::NotFound),
        ),
{
}

/// Creating: with a connection the repository asks for the insert of sensor
/// reference and value; once the row is written it asks for that same sensor
/// to be touched; once the sensor is touched the written row is the result.
pub proof fn creating_decides(sensor_id: Uuid, value: BigDecimal, row: MeasurementsModel)
    ensures
        creating(sensor_id, value).on_event(EventView::Connected) == (OperationView::Insert {
            sensor_id,
            value,
        }),
        (OperationView::Insert { sensor_id, value }).on_event(EventView::Inserted(row)) == (
        OperationView::Touch { sensor_id, row }),
        (OperationView::Touch { sensor_id, row }).on_event(EventView::Touched)
            == OperationView::Done(Ok(ReplyView::Record(row))),
{
}

/// Deleting: with a connection the repository asks for the delete, and hands
/// on the number of rows removed; none removed is a success as well.
pub proof fn deleting_decides(id: Uuid, count: usize)
    ensures
        deleting(id).on_event(EventView::Connected) == OperationView::Delete(id),
        OperationView::Delete(id).on_event(EventView::Deleted(count)) == OperationView::Done(
            Ok(ReplyView::Deleted(count)),
        ),
{
}

/// The sensor is touched only for a row that was written: the one step that
/// leads to a touch is an insert that the store reported as done, and the
/// touch is for the sensor of the request.
pub proof fn touch_follows_insert(operation: OperationView, event: EventView)
    requires
        operation.accepts(event),
        operation.on_event(event) is Touch,
    ensures
        operation is Insert,
        event is Inserted,
        operation.on_event(event)->Touch_sensor_id == operation->Insert_sensor_id,
        operation.on_event(event)->Touch_row == event->Inserted_0,
{
}

/// Whatever operation is run, the tables obey the constraints of the schema
/// afterwards if they did before.
pub proof fn run_keeps_constraints(tables: Tables, operation: OperationView)
    requires
        tables.wf(),
    ensures
        tables.run(operation).1.wf(),
    decreases operation.remaining(),
{
    if !operation.is_done() {
        step_keeps_constraints(tables, operation);
        run_keeps_constraints(
            tables.after(operation),
            operation.on_event(tables.answer(operation)),
        );
    }
}

/// One step of the store keeps the constraints of the schema, and its report
/// is one that the step accepts.
pub proof fn step_keeps_constraints(tables: Tables, step: OperationView)
    requires
        tables.wf(),
        !step.is_done(),
    ensures
        tables.after(step).wf(),
        step.accepts(tables.answer(step)),
{
    match step {
        OperationView::Insert { sensor_id, value } => {
            if let EventView::Inserted(row) = tables.inserted(sensor_id, value) {
                let after = tables.after(step);
                assert(after.rows == tables.rows.push(row));
                assert(!tables.has_row(row.id));
                assert forall|i: int, j: int| 0 <= i < j < after.rows.len() implies after.rows[i].id
                    != after.rows[j].id by {
                    if j == tables.rows.len() {
                        assert(tables.rows[i].id != row.id);
                    }
                }
            }
        },
        OperationView::Delete(id) => {
            if tables.has_row(id) {
                let p = tables.position(id);
                let after = tables.after(step);
                assert(after.rows == tables.rows.remove(p));
                assert forall|i: int| 0 <= i < after.rows.len() implies after.rows[i] == tables.rows[if i
                    < p {
                    i
                } else {
                    i + 1
                }] by {}
            }
        },
        _ => {},
    }
}

/// Listing and fetching read only: the tables are afterwards what they were.
pub proof fn reading_changes_nothing(tables: Tables, id: Uuid)
    ensures
        tables.run(listing()).1 == tables,
        tables.run(fetching(id)).1 == tables,
{
    reveal_with_fuel(Tables::run, 4);
}

/// Creating for a sensor that exists, where the store has an unused identity
/// at hand, yields the record with the identifier and the timestamp that the
/// store assigned, the given value and the given sensor; fetching that
/// identifier afterwards yields the same record.
pub proof fn created_is_found(tables: Tables, sensor_id: Uuid, value: BigDecimal)
    requires
        tables.wf(),
        tables.sensors.contains(sensor_id),
        tables.upcoming.len() > 0,
        !tables.has_row(tables.upcoming[0].0),
    ensures
        ({
            let record = MeasurementsModel {
                id: tables.upcoming[0].0,
                value,
                sensor_id,
                created_at: tables.upcoming[0].1,
            };
            let (created, after) = tables.run(creating(sensor_id, value));
            &&& created == Ok::<ReplyView, CustomError>(ReplyView::Record(record))
            &&& after.rows == tables.rows.push(record)
            &&& after.run(fetching(record.id)) == (
                Ok::<ReplyView, CustomError>(ReplyView::Record(record)),
                after,
            )
        }),
{
    reveal_with_fuel(Tables::run, 5);
    let record = MeasurementsModel {
        id: tables.upcoming[0].0,
        value,
        sensor_id,
        created_at: tables.upcoming[0].1,
    };
    let insert = OperationView::Insert { sensor_id, value };
    assert(tables.inserted(sensor_id, value) == EventView::Inserted(record));
    let after = tables.after(insert);
    step_keeps_constraints(tables, insert);
    assert(after.rows == tables.rows.push(record));
    assert(after.sensors.contains(sensor_id));
    assert(tables.run(creating(sensor_id, value)) == (
        Ok::<ReplyView, CustomError>(ReplyView::Record(record)),
        after,
    ));
    stored_row_is_selected(after, tables.rows.len() as int);
}

/// In tables that obey the constraints, the row that stands at a position is
/// the row that its identifier selects.
pub proof fn stored_row_is_selected(tables: Tables, at: int)
    requires
        tables.wf(),
        0 <= at < tables.rows.len(),
    ensures
        tables.has_row(tables.rows[at].id),
        tables.position(tables.rows[at].id) == at,
        tables.row(tables.rows[at].id) == Some(tables.rows[at]),
{
    let id = tables.rows[at].id;
    assert(tables.has_row(id));
    let p = tables.position(id);
    if p < at {
        assert(tables.rows[p].id != tables.rows[at].id);
    } else if p > at {
        assert(tables.rows[at].id != tables.rows[p].id);
    }
}

/// Creating for a sensor that does not exist fails with a data-access error,
/// and no row is written.
pub proof fn create_needs_sensor(tables: Tables, sensor_id: Uuid, value: BigDecimal)
    requires
        !tables.sensors.contains(sensor_id),
    ensures
        ({
            let (created, after) = tables.run(creating(sensor_id, value));
            &&& created matches Err(CustomError::DataAccessError(_))
            &&& tables.upcoming.len() > 0 ==> created == Err::<ReplyView, CustomError>(
                CustomError::DataAccessError(StoreFailure::ConstraintViolation),
            )
            &&& after.rows == tables.rows
            &&& after.sensors == tables.sensors
        }),
{
    reveal_with_fuel(Tables::run, 5);
}

/// Fetching an identifier that no row has fails with `NotFound`.
pub proof fn missing_is_not_found(tables: Tables, id: Uuid)
    requires
        !tables.has_row(id),
    ensures
        tables.run(fetching(id)) == (Err::<ReplyView, CustomError>(CustomError::NotFound), tables),
{
    reveal_with_fuel(Tables::run, 4);
}

/// Fetching an identifier that a row has yields that row.
pub proof fn stored_is_found(tables: Tables, at: int)
    requires
        tables.wf(),
        0 <= at < tables.rows.len(),
    ensures
        tables.run(fetching(tables.rows[at].id)) == (
            Ok::<ReplyView, CustomError>(ReplyView::Record(tables.rows[at])),
            tables,
        ),
{
    reveal_with_fuel(Tables::run, 4);
    stored_row_is_selected(tables, at);
}

/// Deleting a stored measurement reports one row removed; fetching its
/// identifier afterwards fails with `NotFound`, and every other row is still
/// there, in the order it had.
pub proof fn deleted_is_gone(tables: Tables, id: Uuid)
    requires
        tables.wf(),
        tables.has_row(id),
    ensures
        ({
            let (deleted, after) = tables.run(deleting(id));
            &&& deleted == Ok::<ReplyView, CustomError>(ReplyView::Deleted(1))
            &&& after.rows == tables.rows.remove(tables.position(id))
            &&& !after.has_row(id)
            &&& after.run(fetching(id)) == (
                Err::<ReplyView, CustomError>(CustomError::NotFound),
                after,
            )
        }),
{
    reveal_with_fuel(Tables::run, 4);
    let p = tables.position(id);
    let after = tables.after(OperationView::Delete(id));
    assert(after.rows == tables.rows.remove(p));
    assert(tables.run(deleting(id)).1 == after);
    assert(!after.has_row(id)) by {
        assert forall|i: int| 0 <= i < after.rows.len() implies after.rows[i].id != id by {
            if i < p {
                assert(after.rows[i] == tables.rows[i]);
                assert(tables.rows[i].id != tables.rows[p].id);
            } else {
                assert(after.rows[i] == tables.rows[i + 1]);
                assert(tables.rows[p].id != tables.rows[i + 1].id);
            }
        }
    }
    missing_is_not_found(after, id);
}

/// Deleting an identifier that no row has reports no row removed, is no
/// error, and changes nothing.
pub proof fn delete_of_missing_is_no_error(tables: Tables, id: Uuid)
    requires
        !tables.has_row(id),
    ensures
        tables.run(deleting(id)) == (Ok::<ReplyView, CustomError>(ReplyView::Deleted(0)), tables),
{
    reveal_with_fuel(Tables::run, 4);
}

/// Listing yields every stored row; of a table without rows, an empty
/// sequence.
pub proof fn listing_yields_rows(tables: Tables)
    ensures
        tables.run(listing()) == (
            Ok::<ReplyView, CustomError>(ReplyView::Records(tables.rows)),
            tables,
        ),
        tables.rows.len() == 0 ==> tables.run(listing()).0 == Ok::<ReplyView, CustomError>(
            ReplyView::Records(Seq::empty()),
        ),
{
    reveal_with_fuel(Tables::run, 4);
    if tables.rows.len() == 0 {
        assert(tables.rows =~= Seq::empty());
    }
}

/// The results of creating one measurement after another, for each pair of
/// sensor and value in `requests`, and the tables that are left.
pub open spec fn create_each(tables: Tables, requests: Seq<(Uuid, BigDecimal)>) -> (
    Seq<Result<ReplyView, CustomError>>,
    Tables,
)
    decreases requests.len(),
{
    if requests.len() == 0 {
        (Seq::empty(), tables)
    } else {
        let (earlier, then) = create_each(tables, requests.drop_last());
        let (created, after) = then.run(creating(requests.last().0, requests.last().1));
        (earlier.push(created), after)
    }
}

/// After any number of creates that all succeeded on a table without rows,
/// listing yields exactly as many records as were created, and each of them
/// is the record that its create returned.
pub proof fn creates_are_listed(tables: Tables, requests: Seq<(Uuid, BigDecimal)>)
    requires
        tables.wf(),
        tables.rows.len() == 0,
        forall|i: int|
            0 <= i < requests.len() ==> (#[trigger] create_each(tables, requests).0[i]) is Ok,
    ensures
        ({
            let (created, after) = create_each(tables, requests);
            let listed = after.run(listing()).0;
            &&& created.len() == requests.len()
            &&& listed == Ok::<ReplyView, CustomError>(ReplyView::Records(after.rows))
            &&& after.rows.len() == requests.len()
            &&& forall|i: int|
                0 <= i < requests.len() ==> created[i] == Ok::<ReplyView, CustomError>(
                    ReplyView::Record(#[trigger] after.rows[i]),
                )
        }),
{
    creates_add_rows(tables, requests);
    listing_yields_rows(create_each(tables, requests).1);
}

/// Each create that succeeds adds the record that it returns at the end of the
/// rows, and one that fails adds none.
pub proof fn creates_add_rows(tables: Tables, requests: Seq<(Uuid, BigDecimal)>)
    requires
        tables.wf(),
        tables.rows.len() == 0,
        forall|i: int|
            0 <= i < requests.len() ==> (#[trigger] create_each(tables, requests).0[i]) is Ok,
    ensures
        ({
            let (created, after) = create_each(tables, requests);
            &&& after.wf()
            &&& created.len() == requests.len()
            &&& after.rows.len() == requests.len()
            &&& forall|i: int|
                0 <= i < requests.len() ==> created[i] == Ok::<ReplyView, CustomError>(
                    ReplyView::Record(#[trigger] after.rows[i]),
                )
        }),
    decreases requests.len(),
{
    if requests.len() > 0 {
        let (earlier, then) = create_each(tables, requests.drop_last());
        let (sensor_id, value) = requests.last();
        let (created, after) = then.run(creating(sensor_id, value));
        let all = create_each(tables, requests).0;
        assert(all == earlier.push(created));
        creates_have_results(tables, requests.drop_last());
        assert forall|i: int| 0 <= i < requests.drop_last().len() implies (
        #[trigger] create_each(tables, requests.drop_last()).0[i]) is Ok by {
            assert(all[i] == earlier[i]);
        }
        creates_add_rows(tables, requests.drop_last());
        run_keeps_constraints(then, creating(sensor_id, value));
        assert(all[requests.len() - 1] == created);
        create_writes_what_it_returns(then, sensor_id, value);
    }
}

/// There is one result for each request.
pub proof fn creates_have_results(tables: Tables, requests: Seq<(Uuid, BigDecimal)>)
    ensures
        create_each(tables, requests).0.len() == requests.len(),
    decreases requests.len(),
{
    if requests.len() > 0 {
        creates_have_results(tables, requests.drop_last());
    }
}

/// A create succeeds exactly where it writes a row: then the record that it
/// returns is the one row added, at the end; where it fails the rows are what
/// they were.
pub proof fn create_writes_what_it_returns(tables: Tables, sensor_id: Uuid, value: BigDecimal)
    ensures
        ({
            let (created, after) = tables.run(creating(sensor_id, value));
            match created {
                Ok(reply) => reply matches ReplyView::Record(record) && after.rows
                    == tables.rows.push(record) && record.sensor_id == sensor_id && record.value
                    == value,
                Err(error) => error is DataAccessError && after.rows == tables.rows,
            }
        }),
{
    reveal_with_fuel(Tables::run, 5);
}

} // verus!
