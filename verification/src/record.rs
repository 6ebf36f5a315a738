use bigdecimal::BigDecimal;
use chrono::NaiveDateTime;
use uuid::Uuid;
use vstd::prelude::*;
use crate::operation::Operation;
use crate::operation::OperationView;
use crate::operation::Request;
use crate::outside::copy_value;

verus! {

/// One sensor reading as the backing table holds it.
///
/// `id` and `created_at` are assigned by the store when the row is written;
/// `sensor_id` refers to the sensor that the reading belongs to, by identifier
/// only.
#[derive(Debug, PartialEq)]
pub struct MeasurementsModel {
    pub id: Uuid,
    pub value: BigDecimal,
    pub sensor_id: Uuid,
    pub created_at: NaiveDateTime,
}

impl Clone for MeasurementsModel {
    fn clone(&self) -> (copy: Self)
        ensures
            copy == *self,
    {
        MeasurementsModel {
            id: self.id,
            value: copy_value(&self.value),
            sensor_id: self.sensor_id,
            created_at: self.created_at,
        }
    }
}

impl MeasurementsModel {
    /// The columns of a row, in the order of the table's schema.
    pub open spec fn columns(self) -> (Uuid, BigDecimal, Uuid, NaiveDateTime) {
        (self.id, self.value, self.sensor_id, self.created_at)
    }

    /// Builds the record from the columns of a row: `id`, `value`,
    /// `sensor_id`, `created_at`.
    pub fn from_row(row: (Uuid, BigDecimal, Uuid, NaiveDateTime)) -> (record: Self)
        ensures
            record.columns() == row,
    {
        MeasurementsModel { id: row.0, value: row.1, sensor_id: row.2, created_at: row.3 }
    }

    /// Takes the record apart into the columns of its row.
    pub fn into_row(self) -> (row: (Uuid, BigDecimal, Uuid, NaiveDateTime))
        ensures
            row == self.columns(),
    {
        (self.id, self.value, self.sensor_id, self.created_at)
    }

    /// Starts the listing of every measurement. The operation asks for a
    /// connection, then for all rows, and hands them on in the store's order.
    pub fn find_all() -> (operation: Operation)
        ensures
            operation@ == OperationView::Connect(Request::FindAll),
    {
        Operation::Connect(Request::FindAll)
    }

    /// Starts the fetch of the measurement with identifier `id`. The operation
    /// asks for a connection, then for the first row with that identifier; it
    /// ends with that row, or with `NotFound` where no row matched.
    pub fn find(id: Uuid) -> (operation: Operation)
        ensures
            operation@ == OperationView::Connect(Request::Find(id)),
    {
        Operation::Connect(Request::Find(id))
    }

    /// Starts the creation of a measurement of sensor `sensor_id` with value
    /// `value`. The operation asks for a connection, then for the insert, then
    /// for the sensor to be touched; it ends with the row that the store wrote.
    /// Where the touch fails the operation fails, and the row stays written.
    pub fn create(sensor_id: Uuid, value: BigDecimal) -> (operation: Operation)
        ensures
            operation@ == OperationView::Connect(Request::Create { sensor_id, value }),
    {
        Operation::Connect(Request::Create { sensor_id, value })
    }

    /// Starts the removal of the measurement with identifier `id`. The
    /// operation asks for a connection, then for the delete, and ends with the
    /// number of rows removed; none removed is no error.
    pub fn delete(id: Uuid) -> (operation: Operation)
        ensures
            operation@ == OperationView::Connect(Request::Delete(id)),
    {
        Operation::Connect(Request::Delete(id))
    }
}

} // verus!
