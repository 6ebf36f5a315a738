use chrono::NaiveDateTime;
use uuid::Uuid;
use vstd::prelude::*;
use crate::error::CustomError;
use crate::error::StoreFailure;
use crate::operation::outcome_view;
use crate::operation::Event;
use crate::operation::Operation;
use crate::operation::Reply;
use crate::outside::copy_value;
use crate::outside::same_id;
use crate::record::MeasurementsModel;
use crate::tables::Tables;

verus! {

/// A store held in memory that answers the steps of an operation as the
/// backing tables do. It stands in for the database where the repository is
/// exercised on its own.
///
/// Identifiers and timestamps are not made up here: the store assigns the
/// identities it was given with [`MemoryStore::will_assign`], oldest first.
pub struct MemoryStore {
    sensors: Vec<Uuid>,
    rows: Vec<MeasurementsModel>,
    upcoming: Vec<(Uuid, NaiveDateTime)>,
}

impl View for MemoryStore {
    type V = Tables;

    closed spec fn view(&self) -> Tables {
        Tables { sensors: self.sensors@.to_set(), rows: self.rows@, upcoming: self.upcoming@ }
    }
}

impl MemoryStore {
    /// The constraints of the schema hold of the store's tables. A new store
    /// has this, and every method keeps it.
    pub open spec fn wf(&self) -> bool {
        self@.wf()
    }

    /// A store without sensors and without measurements.
    pub fn new() -> (store: Self)
        ensures
            store@ == Tables::empty(),
            store.wf(),
    {
        let store = MemoryStore { sensors: Vec::new(), rows: Vec::new(), upcoming: Vec::new() };
        assert(store@.sensors =~= Set::empty());
        store
    }

    /// Lets the sensor `sensor_id` exist.
    pub fn add_sensor(&mut self, sensor_id: Uuid)
        requires
            old(self).wf(),
        ensures
            final(self)@ == old(self)@.with_sensor(sensor_id),
            final(self).wf(),
    {
        let ghost before = self.sensors@;
        self.sensors.push(sensor_id);
        proof {
            before.lemma_push_to_set_commute(sensor_id);
            assert(self@.rows == old(self)@.rows);
        }
    }

    /// Queues the identifier and the timestamp that a row written later is
    /// going to get.
    pub fn will_assign(&mut self, id: Uuid, created_at: NaiveDateTime)
        requires
            old(self).wf(),
        ensures
            final(self)@ == old(self)@.with_identity(id, created_at),
            final(self).wf(),
    {
        self.upcoming.push((id, created_at));
        assert(self@.rows == old(self)@.rows);
    }

    /// Whether the sensor exists.
    pub fn has_sensor(&self, sensor_id: &Uuid) -> (known: bool)
        ensures
            known == self@.sensors.contains(*sensor_id),
    {
        let mut i: usize = 0;
        while i < self.sensors.len()
            invariant
                i <= self.sensors.len(),
                forall|k: int| 0 <= k < i ==> self.sensors@[k] != *sensor_id,
            decreases self.sensors.len() - i,
        {
            if same_id(&self.sensors[i], sensor_id) {
                assert(self.sensors@.contains(*sensor_id));
                return true;
            }
            i = i + 1;
        }
        false
    }

    /// Where the measurement with this identifier stands among the rows.
    fn locate(&self, id: &Uuid) -> (at: Option<usize>)
        requires
            self.wf(),
        ensures
            match at {
                Some(i) => self@.has_row(*id) && i == self@.position(*id) && i < self.rows@.len(),
                None => !self@.has_row(*id),
            },
    {
        let mut i: usize = 0;
        while i < self.rows.len()
            invariant
                self.wf(),
                i <= self.rows.len(),
                forall|k: int| 0 <= k < i ==> self.rows@[k].id != *id,
            decreases self.rows.len() - i,
        {
            if same_id(&self.rows[i].id, id) {
                assert(self@.has_row(*id));
                let ghost p = self@.position(*id);
                assert(p == i) by {
                    if p < i {
                    } else if p > i {
                    }
                }
                return Some(i);
            }
            i = i + 1;
        }
        None
    }

    /// A copy of every row, oldest first.
    fn copy_rows(&self) -> (rows: Vec<MeasurementsModel>)
        ensures
            rows@ == self@.rows,
    {
        let mut rows: Vec<MeasurementsModel> = Vec::new();
        let mut i: usize = 0;
        while i < self.rows.len()
            invariant
                i <= self.rows.len(),
                rows@ == self.rows@.subrange(0, i as int),
            decreases self.rows.len() - i,
        {
            rows.push(self.rows[i].clone());
            assert(rows@ =~= self.rows@.subrange(0, i + 1));
            i = i + 1;
        }
        assert(rows@ =~= self.rows@);
        rows
    }

    /// Carries out the pending step of an operation and reports what
    /// happened.
    pub fn perform(&mut self, step: &Operation) -> (event: Event)
        requires
            old(self).wf(),
            !step@.is_done(),
        ensures
            event@ == old(self)@.answer(step@),
            final(self)@ == old(self)@.after(step@),
            step@.accepts(event@),
            final(self).wf(),
    {
        match step {
            Operation::Connect(_) => Event::Connected,
            Operation::LoadAll => Event::Loaded(self.copy_rows()),
            Operation::Select(id) => match self.locate(id) {
                Some(i) => Event::Selected(Some(self.rows[i].clone())),
                None => Event::Selected(None),
            },
            Operation::Insert { sensor_id, value } => {
                if self.upcoming.len() == 0 {
                    return Event::Failed(StoreFailure::Unreachable);
                }
                let ghost before = self@;
                let (id, created_at) = self.upcoming.remove(0);
                assert(self.upcoming@ =~= before.upcoming.drop_first());
                if !self.has_sensor(sensor_id) || self.locate(&id).is_some() {
                    return Event::Failed(StoreFailure::ConstraintViolation);
                }
                let row = MeasurementsModel {
                    id,
                    value: copy_value(value),
                    sensor_id: *sensor_id,
                    created_at,
                };
                self.rows.push(row.clone());
                Event::Inserted(row)
            },
            Operation::Touch { sensor_id, row: _ } => {
                if self.has_sensor(sensor_id) {
                    Event::Touched
                } else {
                    Event::Failed(StoreFailure::ConstraintViolation)
                }
            },
            Operation::Delete(id) => match self.locate(id) {
                Some(i) => {
                    self.rows.remove(i);
                    Event::Deleted(1)
                },
                None => Event::Deleted(0),
            },
            // Left out above: a finished operation has no step to carry out.
            Operation::Done(_) => Event::Connected,
        }
    }

    /// Carries an operation through to its end against this store.
    pub fn run(&mut self, operation: Operation) -> (outcome: Result<Reply, CustomError>)
        requires
            old(self).wf(),
        ensures
            outcome_view(outcome) == old(self)@.run(operation@).0,
            final(self)@ == old(self)@.run(operation@).1,
            final(self).wf(),
    {
        let mut pending = operation;
        loop
            invariant
                self.wf(),
                self@.run(pending@) == old(self)@.run(operation@),
            decreases pending@.remaining(),
        {
            match pending {
                Operation::Done(outcome) => {
                    return outcome;
                },
                step => {
                    let event = self.perform(&step);
                    pending = step.on_event(event);
                },
            }
        }
    }
}

} // verus!
