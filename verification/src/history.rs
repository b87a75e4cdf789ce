//! Sequences of operations on the model: what a tracker has been through.

use crate::store::Store;
use vstd::prelude::*;

verus! {

/// One call of a mutating operation, with the time at which it ran.
pub enum Call {
    Register { name: Seq<u8>, manufacturer: Seq<u8>, location: Seq<u8>, now: u64 },
    AddStep { product_id: u64, location: Seq<u8>, handler: Seq<u8>, notes: Seq<u8>, now: u64 },
    Deliver { product_id: u64, consumer_location: Seq<u8>, now: u64 },
}

impl Store {
    /// Whether `call` can run: the counter it would raise is not exhausted.
    /// A delivery can always run; it fails where the product is not found.
    pub open spec fn permits(self, call: Call) -> bool {
        match call {
            Call::Register { .. } => self.can_register(),
            Call::AddStep { .. } => self.can_add_step(),
            Call::Deliver { .. } => true,
        }
    }

    /// The storage after `call`.
    pub open spec fn apply(self, call: Call) -> Store {
        match call {
            Call::Register { name, manufacturer, location, now } => self.register_product(
                name,
                manufacturer,
                location,
                now,
            ),
            Call::AddStep { product_id, location, handler, notes, now } => self.add_supply_step(
                product_id,
                location,
                handler,
                notes,
                now,
            ),
            Call::Deliver { product_id, consumer_location, now } => self.mark_delivered(
                product_id,
                consumer_location,
                now,
            ),
        }
    }

    /// The storage after `calls`, first to last.
    pub open spec fn run(self, calls: Seq<Call>) -> Store
        decreases calls.len(),
    {
        if calls.len() == 0 {
            self
        } else {
            self.run(calls.drop_last()).apply(calls.last())
        }
    }

    /// Whether each of `calls` can run when its turn comes.
    pub open spec fn permits_all(self, calls: Seq<Call>) -> bool {
        forall|k: int| 0 <= k < calls.len() ==> self.run(calls.take(k)).permits(#[trigger] calls[k])
    }
}

/// How many of `calls` register a product.
pub open spec fn registrations(calls: Seq<Call>) -> nat
    decreases calls.len(),
{
    if calls.len() == 0 {
        0
    } else {
        registrations(calls.drop_last()) + if calls.last() is Register {
            1nat
        } else {
            0nat
        }
    }
}

/// How many of `calls` record a supply step.
pub open spec fn recorded_steps(calls: Seq<Call>) -> nat
    decreases calls.len(),
{
    if calls.len() == 0 {
        0
    } else {
        recorded_steps(calls.drop_last()) + if calls.last() is AddStep {
            1nat
        } else {
            0nat
        }
    }
}

} // verus!
