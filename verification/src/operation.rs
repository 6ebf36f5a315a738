use bigdecimal::BigDecimal;
use uuid::Uuid;
use vstd::prelude::*;
use crate::error::CustomError;
use crate::error::StoreFailure;
use crate::record::MeasurementsModel;

verus! {

/// What a caller asks of the repository.
#[derive(Debug, PartialEq)]
pub enum Request {
    /// Every measurement of the table.
    FindAll,
    /// The measurement with this identifier.
    Find(Uuid),
    /// A new measurement of this sensor, with this value.
    Create { sensor_id: Uuid, value: BigDecimal },
    /// Removal of the measurement with this identifier.
    Delete(Uuid),
}

/// What the outside reports back after it has carried out the pending step of
/// an operation.
#[derive(Debug, PartialEq)]
pub enum Event {
    /// A connection was acquired.
    Connected,
    /// The rows of the table, in the order the store chose.
    Loaded(Vec<MeasurementsModel>),
    /// The first row that matched the identifier, if any did.
    Selected(Option<MeasurementsModel>),
    /// The row as the store wrote it, with the identifier and the timestamp
    /// that the store assigned.
    Inserted(MeasurementsModel),
    /// The sensor's last activity was recorded.
    Touched,
    /// The number of rows that the store removed.
    Deleted(usize),
    /// The connection or the store failed at the pending step.
    Failed(StoreFailure),
}

/// What a finished operation hands to its caller.
#[derive(Debug, PartialEq)]
pub enum Reply {
    Records(Vec<MeasurementsModel>),
    Record(MeasurementsModel),
    Deleted(usize),
}

/// An operation of the repository on its way: the step that the outside has to
/// carry out next, or the result once nothing is left to do.
///
/// The repository decides, the outside acts. Whoever drives an operation carries
/// out the pending step against the store, reports what happened with
/// [`Operation::on_event`], and goes on until the operation is `Done`.
#[derive(Debug, PartialEq)]
pub enum Operation {
    /// Acquire a connection on behalf of the request.
    Connect(Request),
    /// Load every row of the measurements table.
    LoadAll,
    /// Fetch the first row whose identifier is the given one.
    Select(Uuid),
    /// Insert a row with this sensor reference and value, let the store assign
    /// identifier and timestamp, and report the row that was written.
    Insert { sensor_id: Uuid, value: BigDecimal },
    /// Record the sensor's last activity; `row` is the measurement that was
    /// written for it and is already committed.
    Touch { sensor_id: Uuid, row: MeasurementsModel },
    /// Remove the rows whose identifier is the given one.
    Delete(Uuid),
    /// Nothing is left to do.
    Done(Result<Reply, CustomError>),
}

/// Mathematical form of [`Event`].
pub ghost enum EventView {
    Connected,
    Loaded(Seq<MeasurementsModel>),
    Selected(Option<MeasurementsModel>),
    Inserted(MeasurementsModel),
    Touched,
    Deleted(usize),
    Failed(StoreFailure),
}

/// Mathematical form of [`Reply`].
pub ghost enum ReplyView {
    Records(Seq<MeasurementsModel>),
    Record(MeasurementsModel),
    Deleted(usize),
}

/// Mathematical form of [`Operation`].
pub ghost enum OperationView {
    Connect(Request),
    LoadAll,
    Select(Uuid),
    Insert { sensor_id: Uuid, value: BigDecimal },
    Touch { sensor_id: Uuid, row: MeasurementsModel },
    Delete(Uuid),
    Done(Result<ReplyView, CustomError>),
}

impl View for Event {
    type V = EventView;

    open spec fn view(&self) -> EventView {
        match *self {
            Event::Connected => EventView::Connected,
            Event::Loaded(rows) => EventView::Loaded(rows@),
            Event::Selected(row) => EventView::Selected(row),
            Event::Inserted(row) => EventView::Inserted(row),
            Event::Touched => EventView::Touched,
            Event::Deleted(count) => EventView::Deleted(count),
            Event::Failed(failure) => EventView::Failed(failure),
        }
    }
}

impl View for Reply {
    type V = ReplyView;

    open spec fn view(&self) -> ReplyView {
        match *self {
            Reply::Records(rows) => ReplyView::Records(rows@),
            Reply::Record(row) => ReplyView::Record(row),
            Reply::Deleted(count) => ReplyView::Deleted(count),
        }
    }
}

/// The mathematical form of an operation's result.
pub open spec fn outcome_view(outcome: Result<Reply, CustomError>) -> Result<ReplyView, CustomError> {
    match outcome {
        Ok(reply) => Ok(reply@),
        Err(error) => Err(error),
    }
}

impl View for Operation {
    type V = OperationView;

    open spec fn view(&self) -> OperationView {
        match *self {
            Operation::Connect(request) => OperationView::Connect(request),
            Operation::LoadAll => OperationView::LoadAll,
            Operation::Select(id) => OperationView::Select(id),
            Operation::Insert { sensor_id, value } => OperationView::Insert { sensor_id, value },
            Operation::Touch { sensor_id, row } => OperationView::Touch { sensor_id, row },
            Operation::Delete(id) => OperationView::Delete(id),
            Operation::Done(outcome) => OperationView::Done(outcome_view(outcome)),
        }
    }
}

impl Request {
    /// The step that serves the request once a connection is there.
    pub open spec fn first_step(self) -> OperationView {
        match self {
            Request::FindAll => OperationView::LoadAll,
            Request::Find(id) => OperationView::Select(id),
            Request::Create { sensor_id, value } => OperationView::Insert { sensor_id, value },
            Request::Delete(id) => OperationView::Delete(id),
        }
    }
}

impl OperationView {
    /// Whether the operation has its result.
    pub open spec fn is_done(self) -> bool {
        self is Done
    }

    /// Whether `event` is a report on the pending step: a failure answers any
    /// step, every other event answers the one step that asks for it, and
    /// nothing answers a finished operation.
    pub open spec fn accepts(self, event: EventView) -> bool {
        match self {
            OperationView::Connect(_) => event is Connected || event is Failed,
            OperationView::LoadAll => event is Loaded || event is Failed,
            OperationView::Select(_) => event is Selected || event is Failed,
            OperationView::Insert { .. } => event is Inserted || event is Failed,
            OperationView::Touch { .. } => event is Touched || event is Failed,
            OperationView::Delete(_) => event is Deleted || event is Failed,
            OperationView::Done(_) => false,
        }
    }

    /// The operation after `event` was reported on its pending step.
    ///
    /// A failure ends the operation with a data-access error that carries the
    /// cause as reported. A connection leads to the request's own step. Rows
    /// and counts are handed on as the store gave them; a fetch that matched
    /// nothing is `NotFound`. A written row is kept while the sensor is
    /// touched, and is the result once the touch succeeded. An event that the
    /// pending step does not accept changes nothing.
    pub open spec fn on_event(self, event: EventView) -> OperationView {
        match (self, event) {
            (OperationView::Done(outcome), _) => OperationView::Done(outcome),
            (_, EventView::Failed(failure)) => OperationView::Done(
                Err(CustomError::DataAccessError(failure)),
            ),
            (OperationView::Connect(request), EventView::Connected) => request.first_step(),
            (OperationView::LoadAll, EventView::Loaded(rows)) => OperationView::Done(
                Ok(ReplyView::Records(rows)),
            ),
            (OperationView::Select(_), EventView::Selected(Some(row))) => OperationView::Done(
                Ok(ReplyView::Record(row)),
            ),
            (OperationView::Select(_), EventView::Selected(None)) => OperationView::Done(
                Err(CustomError::NotFound),
            ),
            (OperationView::Insert { sensor_id, value }, EventView::Inserted(row)) => OperationView::Touch {
                sensor_id,
                row,
            },
            (OperationView::Touch { sensor_id, row }, EventView::Touched) => OperationView::Done(
                Ok(ReplyView::Record(row)),
            ),
            (OperationView::Delete(_), EventView::Deleted(count)) => OperationView::Done(
                Ok(ReplyView::Deleted(count)),
            ),
            _ => self,
        }
    }

    /// The largest number of events that can still be reported before the
    /// operation is done.
    pub open spec fn remaining(self) -> nat {
        match self {
            OperationView::Connect(Request::Create { .. }) => 3,
            OperationView::Connect(_) => 2,
            OperationView::Insert { .. } => 2,
            OperationView::LoadAll => 1,
            OperationView::Select(_) => 1,
            OperationView::Touch { .. } => 1,
            OperationView::Delete(_) => 1,
            OperationView::Done(_) => 0,
        }
    }
}

impl Operation {
    /// Whether the operation has its result.
    pub fn is_done(&self) -> (done: bool)
        ensures
            done == self@.is_done(),
    {
        match self {
            Operation::Done(_) => true,
            _ => false,
        }
    }

    /// Whether `event` is a report on the pending step.
    pub fn accepts(&self, event: &Event) -> (accepted: bool)
        ensures
            accepted == self@.accepts(event@),
    {
        match self {
            Operation::Done(_) => false,
            Operation::Connect(_) => matches!(event, Event::Connected | Event::Failed(_)),
            Operation::LoadAll => matches!(event, Event::Loaded(_) | Event::Failed(_)),
            Operation::Select(_) => matches!(event, Event::Selected(_) | Event::Failed(_)),
            Operation::Insert { .. } => matches!(event, Event::Inserted(_) | Event::Failed(_)),
            Operation::Touch { .. } => matches!(event, Event::Touched | Event::Failed(_)),
            Operation::Delete(_) => matches!(event, Event::Deleted(_) | Event::Failed(_)),
        }
    }

    /// Takes the report on the pending step and decides how the operation goes
    /// on. A report that the pending step does not accept is passed over: the
    /// operation stays as it is.
    pub fn on_event(self, event: Event) -> (next: Operation)
        ensures
            next@ == self@.on_event(event@),
            self@.accepts(event@) ==> next@.remaining() < self@.remaining(),
            !self@.accepts(event@) ==> next@ == self@,
    {
        match (self, event) {
            (Operation::Done(outcome), _) => Operation::Done(outcome),
            (_, Event::Failed(failure)) => Operation::Done(Err(CustomError::DataAccessError(failure))),
            (Operation::Connect(request), Event::Connected) => match request {
                Request::FindAll => Operation::LoadAll,
                Request::Find(id) => Operation::Select(id),
                Request::Create { sensor_id, value } => Operation::Insert { sensor_id, value },
                Request::Delete(id) => Operation::Delete(id),
            },
            (Operation::LoadAll, Event::Loaded(rows)) => Operation::Done(Ok(Reply::Records(rows))),
            (Operation::Select(_), Event::Selected(Some(row))) => Operation::Done(Ok(Reply::Record(row))),
            (Operation::Select(_), Event::Selected(None)) => Operation::Done(Err(CustomError::NotFound)),
            (Operation::Insert { sensor_id, value: _ }, Event::Inserted(row)) => Operation::Touch {
                sensor_id,
                row,
            },
            (Operation::Touch { sensor_id: _, row }, Event::Touched) => Operation::Done(Ok(Reply::Record(row))),
            (Operation::Delete(_), Event::Deleted(count)) => Operation::Done(Ok(Reply::Deleted(count))),
            (operation, _) => operation,
        }
    }

    /// The result of a finished operation; `None` while a step is pending.
    pub fn into_outcome(self) -> (outcome: Option<Result<Reply, CustomError>>)
        ensures
            match outcome {
                Some(result) => self@ == OperationView::Done(outcome_view(result)),
                None => !self@.is_done(),
            },
    {
        match self {
            Operation::Done(result) => Some(result),
            _ => None,
        }
    }
}

} // verus!
