use bigdecimal::BigDecimal;
use chrono::NaiveDate;
use chrono::NaiveDateTime;
use measurements::error::CustomError;
use measurements::error::StoreFailure;
use measurements::operation::Event;
use measurements::operation::Operation;
use measurements::operation::Reply;
use measurements::record::MeasurementsModel;
use measurements::store::MemoryStore;
use uuid::Uuid;

fn uuid(n: u128) -> Uuid {
    Uuid::from_u128(n)
}

fn decimal(text: &str) -> BigDecimal {
    text.parse::<BigDecimal>().unwrap()
}

fn at(hour: u32, minute: u32) -> NaiveDateTime {
    NaiveDate::from_ymd_opt(2024, 5, 17).unwrap().and_hms_opt(hour, minute, 0).unwrap()
}

fn record(reply: Result<Reply, CustomError>) -> MeasurementsModel {
    match reply {
        Ok(Reply::Record(row)) => row,
        other => panic!("expected a record, got {:?}", other),
    }
}

fn records(reply: Result<Reply, CustomError>) -> Vec<MeasurementsModel> {
    match reply {
        Ok(Reply::Records(rows)) => rows,
        other => panic!("expected records, got {:?}", other),
    }
}

#[test]
fn create_get_delete_get() {
    let sensor = uuid(0x5e11);
    let mut store = MemoryStore::new();
    store.add_sensor(sensor);
    store.will_assign(uuid(1), at(8, 30));

    let created = record(store.run(MeasurementsModel::create(sensor, decimal("12.5"))));
    assert_eq!(created.sensor_id, sensor);
    assert_eq!(created.value, decimal("12.5"));
    assert_eq!(created.id, uuid(1));
    assert_eq!(created.created_at, at(8, 30));

    let fetched = record(store.run(MeasurementsModel::find(created.id)));
    assert_eq!(fetched, created);

    assert_eq!(store.run(MeasurementsModel::delete(created.id)), Ok(Reply::Deleted(1)));
    assert_eq!(store.run(MeasurementsModel::find(created.id)), Err(CustomError::NotFound));
}

#[test]
fn create_returns_value_sensor_and_assigned_identity() {
    let sensor = uuid(7);
    let mut store = MemoryStore::new();
    store.add_sensor(sensor);
    store.will_assign(uuid(100), at(9, 0));
    store.will_assign(uuid(101), at(9, 1));

    let first = record(store.run(MeasurementsModel::create(sensor, decimal("-0.001"))));
    let second = record(store.run(MeasurementsModel::create(sensor, decimal("98765432109876543210.5"))));

    assert_eq!(
        first,
        MeasurementsModel { id: uuid(100), value: decimal("-0.001"), sensor_id: sensor, created_at: at(9, 0) }
    );
    assert_eq!(
        second,
        MeasurementsModel {
            id: uuid(101),
            value: decimal("98765432109876543210.5"),
            sensor_id: sensor,
            created_at: at(9, 1),
        }
    );
    assert_eq!(record(store.run(MeasurementsModel::find(uuid(100)))), first);
    assert_eq!(record(store.run(MeasurementsModel::find(uuid(101)))), second);
}

#[test]
fn create_for_unknown_sensor_is_a_data_access_error() {
    let mut store = MemoryStore::new();
    store.add_sensor(uuid(1));
    store.will_assign(uuid(50), at(10, 0));

    let outcome = store.run(MeasurementsModel::create(uuid(2), decimal("3")));
    assert_eq!(outcome, Err(CustomError::DataAccessError(StoreFailure::ConstraintViolation)));
    assert_eq!(store.run(MeasurementsModel::find_all()), Ok(Reply::Records(vec![])));
    assert_eq!(store.run(MeasurementsModel::find(uuid(50))), Err(CustomError::NotFound));
}

#[test]
fn create_with_a_taken_identifier_is_a_data_access_error() {
    let sensor = uuid(1);
    let mut store = MemoryStore::new();
    store.add_sensor(sensor);
    store.will_assign(uuid(9), at(10, 0));
    store.will_assign(uuid(9), at(10, 5));

    let first = record(store.run(MeasurementsModel::create(sensor, decimal("1"))));
    let second = store.run(MeasurementsModel::create(sensor, decimal("2")));
    assert_eq!(second, Err(CustomError::DataAccessError(StoreFailure::ConstraintViolation)));
    assert_eq!(records(store.run(MeasurementsModel::find_all())), vec![first]);
}

#[test]
fn create_without_an_identity_at_hand_is_a_data_access_error() {
    let sensor = uuid(1);
    let mut store = MemoryStore::new();
    store.add_sensor(sensor);
    let outcome = store.run(MeasurementsModel::create(sensor, decimal("1")));
    assert_eq!(outcome, Err(CustomError::DataAccessError(StoreFailure::Unreachable)));
    assert_eq!(store.run(MeasurementsModel::find_all()), Ok(Reply::Records(vec![])));
}

#[test]
fn find_of_missing_identifier_is_not_found() {
    let sensor = uuid(1);
    let mut store = MemoryStore::new();
    assert_eq!(store.run(MeasurementsModel::find(uuid(5))), Err(CustomError::NotFound));

    store.add_sensor(sensor);
    store.will_assign(uuid(4), at(11, 0));
    record(store.run(MeasurementsModel::create(sensor, decimal("1"))));
    assert_eq!(store.run(MeasurementsModel::find(uuid(5))), Err(CustomError::NotFound));
}

#[test]
fn find_picks_the_row_with_the_identifier() {
    let sensor = uuid(1);
    let mut store = MemoryStore::new();
    store.add_sensor(sensor);
    store.will_assign(uuid(10), at(11, 0));
    store.will_assign(uuid(11), at(11, 1));
    store.will_assign(uuid(12), at(11, 2));
    let a = record(store.run(MeasurementsModel::create(sensor, decimal("1.1"))));
    let b = record(store.run(MeasurementsModel::create(sensor, decimal("2.2"))));
    let c = record(store.run(MeasurementsModel::create(sensor, decimal("3.3"))));

    assert_eq!(record(store.run(MeasurementsModel::find(uuid(11)))), b);
    assert_eq!(record(store.run(MeasurementsModel::find(uuid(12)))), c);
    assert_eq!(record(store.run(MeasurementsModel::find(uuid(10)))), a);
    assert_ne!(a.value, b.value);
}

#[test]
fn delete_of_missing_identifier_removes_nothing() {
    let sensor = uuid(1);
    let mut store = MemoryStore::new();
    assert_eq!(store.run(MeasurementsModel::delete(uuid(3))), Ok(Reply::Deleted(0)));

    store.add_sensor(sensor);
    store.will_assign(uuid(2), at(12, 0));
    let kept = record(store.run(MeasurementsModel::create(sensor, decimal("4"))));
    assert_eq!(store.run(MeasurementsModel::delete(uuid(3))), Ok(Reply::Deleted(0)));
    assert_eq!(records(store.run(MeasurementsModel::find_all())), vec![kept]);
}

#[test]
fn delete_removes_only_the_row_with_the_identifier() {
    let sensor = uuid(1);
    let mut store = MemoryStore::new();
    store.add_sensor(sensor);
    store.will_assign(uuid(10), at(11, 0));
    store.will_assign(uuid(11), at(11, 1));
    store.will_assign(uuid(12), at(11, 2));
    let a = record(store.run(MeasurementsModel::create(sensor, decimal("1"))));
    let b = record(store.run(MeasurementsModel::create(sensor, decimal("2"))));
    let c = record(store.run(MeasurementsModel::create(sensor, decimal("3"))));

    assert_eq!(store.run(MeasurementsModel::delete(b.id)), Ok(Reply::Deleted(1)));
    assert_eq!(store.run(MeasurementsModel::find(b.id)), Err(CustomError::NotFound));
    assert_eq!(records(store.run(MeasurementsModel::find_all())), vec![a, c]);
    assert_eq!(store.run(MeasurementsModel::delete(b.id)), Ok(Reply::Deleted(0)));
}

#[test]
fn list_of_empty_table_is_empty() {
    let mut store = MemoryStore::new();
    assert_eq!(store.run(MeasurementsModel::find_all()), Ok(Reply::Records(vec![])));
    store.add_sensor(uuid(1));
    assert_eq!(store.run(MeasurementsModel::find_all()), Ok(Reply::Records(vec![])));
}

#[test]
fn list_holds_every_created_record() {
    let sensors = [uuid(1), uuid(2)];
    let mut store = MemoryStore::new();
    store.add_sensor(sensors[0]);
    store.add_sensor(sensors[1]);
    let mut created = Vec::new();
    for n in 0..5u32 {
        store.will_assign(uuid(1000 + n as u128), at(13, n));
        let value = decimal(&format!("{}.25", n));
        created.push(record(store.run(MeasurementsModel::create(sensors[(n % 2) as usize], value))));
    }
    let listed = records(store.run(MeasurementsModel::find_all()));
    assert_eq!(listed.len(), 5);
    for row in &created {
        assert!(listed.contains(row));
    }
    assert_eq!(listed, created);
}

#[test]
fn has_sensor_tells_sensors_apart() {
    let mut store = MemoryStore::new();
    assert!(!store.has_sensor(&uuid(1)));
    store.add_sensor(uuid(1));
    assert!(store.has_sensor(&uuid(1)));
    assert!(!store.has_sensor(&uuid(2)));
}

#[test]
fn failed_touch_leaves_the_row_written() {
    let sensor = uuid(1);
    let mut store = MemoryStore::new();
    store.add_sensor(sensor);
    store.will_assign(uuid(77), at(14, 0));

    let mut operation = MeasurementsModel::create(sensor, decimal("6.5"));
    let connected = store.perform(&operation);
    assert_eq!(connected, Event::Connected);
    operation = operation.on_event(connected);
    let inserted = store.perform(&operation);
    operation = operation.on_event(inserted);
    let written = match &operation {
        Operation::Touch { sensor_id, row } => {
            assert_eq!(*sensor_id, sensor);
            row.clone()
        }
        other => panic!("expected the touch, got {:?}", other),
    };
    operation = operation.on_event(Event::Failed(StoreFailure::Unreachable));
    assert_eq!(
        operation,
        Operation::Done(Err(CustomError::DataAccessError(StoreFailure::Unreachable)))
    );
    assert_eq!(record(store.run(MeasurementsModel::find(uuid(77)))), written);
}

#[test]
fn perform_answers_each_step() {
    let sensor = uuid(1);
    let mut store = MemoryStore::new();
    store.add_sensor(sensor);
    store.will_assign(uuid(5), at(15, 0));
    let row = MeasurementsModel { id: uuid(5), value: decimal("2"), sensor_id: sensor, created_at: at(15, 0) };

    assert_eq!(store.perform(&Operation::LoadAll), Event::Loaded(vec![]));
    assert_eq!(store.perform(&Operation::Select(uuid(5))), Event::Selected(None));
    assert_eq!(
        store.perform(&Operation::Insert { sensor_id: sensor, value: decimal("2") }),
        Event::Inserted(row.clone())
    );
    assert_eq!(store.perform(&Operation::Select(uuid(5))), Event::Selected(Some(row.clone())));
    assert_eq!(store.perform(&Operation::LoadAll), Event::Loaded(vec![row.clone()]));
    assert_eq!(store.perform(&Operation::Touch { sensor_id: sensor, row: row.clone() }), Event::Touched);
    assert_eq!(
        store.perform(&Operation::Touch { sensor_id: uuid(2), row: row.clone() }),
        Event::Failed(StoreFailure::ConstraintViolation)
    );
    assert_eq!(store.perform(&Operation::Delete(uuid(6))), Event::Deleted(0));
    assert_eq!(store.perform(&Operation::Delete(uuid(5))), Event::Deleted(1));
    assert_eq!(store.perform(&Operation::LoadAll), Event::Loaded(vec![]));
}
