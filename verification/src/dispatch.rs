use vstd::prelude::*;

use crate::channel::{ChannelHandler, DeliveryError};
use crate::model::{Employee, Envelope, Message};

verus! {

/// A failure scoped to one employee's delivery attempt; recorded in the
/// batch result, never escalated.
#[derive(Clone, Debug, PartialEq, Eq)]
pub enum ItemFailure {
    /// No configured handler covers this employee's address variant.
    NoApplicableChannel,
    /// The selected handler's delivery attempt failed.
    Delivery(DeliveryError),
}

/// One per-employee outcome of a batch pass.
#[derive(Clone, Debug, PartialEq, Eq)]
pub enum Outcome {
    Success,
    Failure(ItemFailure),
}

/// The one batch-aborting failure: the roster could not be fetched.
#[derive(Clone, Debug, PartialEq, Eq)]
pub enum DispatchError {
    SourceUnavailable(String),
}

/// Supplies the roster; an external collaborator asked exactly once per
/// batch pass.
pub trait EmployeeRepository {
    fn get_employees(&self) -> Result<Vec<Employee>, String>;
}

/// Some handler in the configured list covers the address `to`.
pub open spec fn some_handler_matches<H: ChannelHandler>(
    handlers: Seq<H>,
    to: crate::model::Address,
) -> bool {
    exists|j: int| 0 <= j < handlers.len() && (#[trigger] handlers[j]).can_handle_spec(to)
}

/// The outcome a delivery attempt turns into: delivery never panics and
/// never aborts the batch, it only records what the transport answered.
pub open spec fn outcome_of(res: Result<(), DeliveryError>) -> Outcome {
    match res {
        Ok(_) => Outcome::Success,
        Err(e) => Outcome::Failure(ItemFailure::Delivery(e)),
    }
}

/// What the engine owes employee `e` in the batch result: without a
/// covering handler exactly `NoApplicableChannel`, with one a recorded
/// delivery attempt.
pub open spec fn outcome_obeys<H: ChannelHandler>(
    handlers: Seq<H>,
    e: Employee,
    o: Outcome,
) -> bool {
    if some_handler_matches(handlers, e.address) {
        o == Outcome::Success || (o matches Outcome::Failure(ItemFailure::Delivery(_)))
    } else {
        o == Outcome::Failure(ItemFailure::NoApplicableChannel)
    }
}

/// Build the one envelope for an employee: their own address, the fixed
/// greeting.
pub fn prepare(employee: &Employee) -> (env: Envelope)
    ensures
        env.to == employee.address,
        env.message.subject@ == "Happy birthday"@,
        env.message.body@ == "Happy birthday"@,
{
    Envelope { to: employee.address.clone(), message: Message::greeting() }
}

/// The index of the first handler whose capability covers the envelope;
/// configuration order is the tie-break when several would.
fn select_handler<H: ChannelHandler>(handlers: &Vec<H>, envelope: &Envelope) -> (r: Option<
    usize,
>)
    ensures
        match r {
            Some(j) => j < handlers@.len() && handlers@[j as int].can_handle_spec(envelope.to)
                && forall|k: int|
                0 <= k < j ==> !(#[trigger] handlers@[k]).can_handle_spec(envelope.to),
            None => forall|k: int|
                0 <= k < handlers@.len() ==> !(#[trigger] handlers@[k]).can_handle_spec(
                    envelope.to,
                ),
        },
{
    let n = handlers.len();
    let mut i: usize = 0;
    while i < n
        invariant
            n == handlers@.len(),
            i <= n,
            forall|k: int| 0 <= k < i ==> !(#[trigger] handlers@[k]).can_handle_spec(envelope.to),
        decreases n - i,
    {
        if handlers[i].can_handle(envelope) {
            return Some(i);
        }
        i = i + 1;
    }
    None
}

/// One delivery attempt: pick the first covering handler and send. A
/// missing handler or a failed delivery is data, never a panic.
pub fn dispatch_one<H: ChannelHandler>(handlers: &Vec<H>, envelope: &Envelope) -> (o: Outcome)
    ensures
        some_handler_matches(handlers@, envelope.to) ==> (o == Outcome::Success || (
        o matches Outcome::Failure(ItemFailure::Delivery(_)))),
        !some_handler_matches(handlers@, envelope.to) ==> o == Outcome::Failure(
            ItemFailure::NoApplicableChannel,
        ),
{
    match select_handler(handlers, envelope) {
        Some(j) => {
            let res = handlers[j].send(envelope);
            proof {
                assert(some_handler_matches(handlers@, envelope.to));
            }
            record_delivery(res)
        },
        None => Outcome::Failure(ItemFailure::NoApplicableChannel),
    }
}

/// Record what one delivery attempt answered, exactly.
pub fn record_delivery(res: Result<(), DeliveryError>) -> (o: Outcome)
    ensures
        o == outcome_of(res),
{
    match res {
        Ok(_) => Outcome::Success,
        Err(e) => Outcome::Failure(ItemFailure::Delivery(e)),
    }
}

/// One batch pass over an already-fetched roster: one envelope and one
/// outcome per employee, in roster order; one item's failure never
/// touches its siblings.
pub fn dispatch_roster<H: ChannelHandler>(employees: &Vec<Employee>, handlers: &Vec<H>) -> (r:
    Vec<Outcome>)
    ensures
        r@.len() == employees@.len(),
        forall|i: int|
            0 <= i < r@.len() ==> outcome_obeys(handlers@, employees@[i], #[trigger] r@[i]),
{
    let n = employees.len();
    let mut outcomes: Vec<Outcome> = Vec::new();
    let mut i: usize = 0;
    while i < n
        invariant
            n == employees@.len(),
            i <= n,
            outcomes@.len() == i,
            forall|k: int|
                0 <= k < i ==> outcome_obeys(handlers@, employees@[k], #[trigger] outcomes@[k]),
        decreases n - i,
    {
        let envelope = prepare(&employees[i]);
        let o = dispatch_one(handlers, &envelope);
        outcomes.push(o);
        i = i + 1;
    }
    outcomes
}

/// Turn the source's answer into the batch result: a fetch failure aborts
/// the whole pass with `SourceUnavailable` and no per-item outcome, a
/// fetched roster is dispatched in full.
pub fn dispatch_fetched<H: ChannelHandler>(
    fetched: Result<Vec<Employee>, String>,
    handlers: &Vec<H>,
) -> (r: Result<Vec<Outcome>, DispatchError>)
    ensures
        fetched matches Ok(employees) ==> (r matches Ok(outcomes) && outcomes@.len()
            == employees@.len() && forall|i: int|
            0 <= i < outcomes@.len() ==> outcome_obeys(
                handlers@,
                employees@[i],
                #[trigger] outcomes@[i],
            )),
        fetched matches Err(cause) ==> r == Err::<Vec<Outcome>, DispatchError>(
            DispatchError::SourceUnavailable(cause),
        ),
{
    match fetched {
        Ok(employees) => Ok(dispatch_roster(&employees, handlers)),
        Err(cause) => Err(DispatchError::SourceUnavailable(cause)),
    }
}

/// The dispatch engine: owns its roster source for one pass at a time.
pub struct BirthdayService<R: EmployeeRepository> {
    pub employee_repository: R,
}

impl<R: EmployeeRepository> BirthdayService<R> {
    /// One "send birthday greetings" pass: fetch the roster once, then
    /// dispatch every employee. What the source answers is out of this
    /// crate's hands, so the exact batch contract lives in
    /// `dispatch_fetched`, which this call hands the answer to.
    pub fn send_greetings<H: ChannelHandler>(&self, handlers: &Vec<H>) -> (r: Result<
        Vec<Outcome>,
        DispatchError,
    >)
        ensures
            r matches Err(e) ==> e matches DispatchError::SourceUnavailable(_),
    {
        let fetched = self.employee_repository.get_employees();
        dispatch_fetched(fetched, handlers)
    }
}

} // verus!
