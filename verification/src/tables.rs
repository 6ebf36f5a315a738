use bigdecimal::BigDecimal;
use chrono::NaiveDateTime;
use uuid::Uuid;
use vstd::prelude::*;
use crate::error::CustomError;
use crate::error::StoreFailure;
use crate::operation::EventView;
use crate::operation::OperationView;
use crate::operation::ReplyView;
use crate::record::MeasurementsModel;

verus! {

/// The backing tables as the repository relies on them: which sensors exist,
/// the rows of the measurements table, and the identities that the store is
/// going to assign to the rows written next.
///
/// This is the reference against which the repository's operations are stated:
/// a store that is reachable, keeps `id` unique, refuses a row whose sensor
/// does not exist, and assigns identifier and timestamp itself.
pub ghost struct Tables {
    /// The identifiers of the sensors that exist.
    pub sensors: Set<Uuid>,
    /// The measurements, oldest first.
    pub rows: Seq<MeasurementsModel>,
    /// Identifier and timestamp for each of the next rows, in the order in
    /// which the store hands them out.
    pub upcoming: Seq<(Uuid, NaiveDateTime)>,
}

impl Tables {
    /// No sensor, no measurement, nothing to assign.
    pub open spec fn empty() -> Tables {
        Tables { sensors: Set::empty(), rows: Seq::empty(), upcoming: Seq::empty() }
    }

    /// The constraints of the schema: no two measurements share an identifier,
    /// and every measurement belongs to a sensor that exists.
    pub open spec fn wf(self) -> bool {
        &&& forall|i: int, j: int|
            0 <= i < j < self.rows.len() ==> self.rows[i].id != self.rows[j].id
        &&& forall|i: int|
            0 <= i < self.rows.len() ==> self.sensors.contains(#[trigger] self.rows[i].sensor_id)
    }

    /// Whether a measurement with this identifier is stored.
    pub open spec fn has_row(self, id: Uuid) -> bool {
        exists|i: int| 0 <= i < self.rows.len() && self.rows[i].id == id
    }

    /// Where the measurement with this identifier stands, if one is stored.
    pub open spec fn position(self, id: Uuid) -> int {
        choose|i: int| 0 <= i < self.rows.len() && self.rows[i].id == id
    }

    /// The measurement with this identifier, if one is stored.
    pub open spec fn row(self, id: Uuid) -> Option<MeasurementsModel> {
        if self.has_row(id) {
            Some(self.rows[self.position(id)])
        } else {
            None
        }
    }

    /// How the store answers an insert for `sensor_id` with `value`: with the
    /// new row, which carries the next identity, where one is at hand, the
    /// sensor exists and the identifier is not taken.
    pub open spec fn inserted(self, sensor_id: Uuid, value: BigDecimal) -> EventView {
        if self.upcoming.len() == 0 {
            EventView::Failed(StoreFailure::Unreachable)
        } else if !self.sensors.contains(sensor_id) || self.has_row(self.upcoming[0].0) {
            EventView::Failed(StoreFailure::ConstraintViolation)
        } else {
            EventView::Inserted(
                MeasurementsModel {
                    id: self.upcoming[0].0,
                    value,
                    sensor_id,
                    created_at: self.upcoming[0].1,
                },
            )
        }
    }

    /// What the store reports when it carries out `step`, a step that is
    /// pending. Acquiring a connection always succeeds, and a sensor can be
    /// touched where it exists.
    pub open spec fn answer(self, step: OperationView) -> EventView
        recommends
            !step.is_done(),
    {
        match step {
            OperationView::Connect(_) => EventView::Connected,
            OperationView::LoadAll => EventView::Loaded(self.rows),
            OperationView::Select(id) => EventView::Selected(self.row(id)),
            OperationView::Insert { sensor_id, value } => self.inserted(sensor_id, value),
            OperationView::Touch { sensor_id, row } => if self.sensors.contains(sensor_id) {
                EventView::Touched
            } else {
                EventView::Failed(StoreFailure::ConstraintViolation)
            },
            OperationView::Delete(id) => EventView::Deleted(
                if self.has_row(id) {
                    1
                } else {
                    0
                },
            ),
            OperationView::Done(_) => EventView::Connected,
        }
    }

    /// The tables after the store carried out `step`. Only an insert and a
    /// delete change them: an insert uses up the next identity and, where it
    /// succeeds, adds its row at the end; a delete takes out the row with the
    /// identifier.
    pub open spec fn after(self, step: OperationView) -> Tables {
        match step {
            OperationView::Insert { sensor_id, value } => match self.inserted(sensor_id, value) {
                EventView::Inserted(row) => Tables {
                    rows: self.rows.push(row),
                    upcoming: self.upcoming.drop_first(),
                    ..self
                },
                _ => if self.upcoming.len() == 0 {
                    self
                } else {
                    Tables { upcoming: self.upcoming.drop_first(), ..self }
                },
            },
            OperationView::Delete(id) => if self.has_row(id) {
                Tables { rows: self.rows.remove(self.position(id)), ..self }
            } else {
                self
            },
            _ => self,
        }
    }

    /// The result of `operation` when each of its steps is carried out on
    /// these tables, and the tables that are left.
    pub open spec fn run(self, operation: OperationView) -> (Result<ReplyView, CustomError>, Tables)
        decreases operation.remaining(),
    {
        match operation {
            OperationView::Done(outcome) => (outcome, self),
            _ => self.after(operation).run(operation.on_event(self.answer(operation))),
        }
    }

    /// The tables with one more sensor.
    pub open spec fn with_sensor(self, sensor_id: Uuid) -> Tables {
        Tables { sensors: self.sensors.insert(sensor_id), ..self }
    }

    /// The tables with one more identity to assign, after those already
    /// waiting.
    pub open spec fn with_identity(self, id: Uuid, created_at: NaiveDateTime) -> Tables {
        Tables { upcoming: self.upcoming.push((id, created_at)), ..self }
    }
}

} // verus!
