//! The mathematical model of the tracker's storage: two counters and two
//! keyed collections, with one transition for each operation.

use crate::record::{
    ProductData, StepData, STATUS_DELIVERED, STATUS_IN_TRANSIT, STATUS_REGISTERED,
};
use vstd::prelude::*;
use vstd::string::StringSliceAdditionalSpecFns;

verus! {

/// Everything the tracker keeps: how many products and steps have been
/// numbered so far, and the records by identifier.
pub struct Store {
    pub product_count: u64,
    pub step_count: u64,
    pub products: Map<u64, ProductData>,
    pub steps: Map<u64, StepData>,
}

impl Store {
    /// The storage of a tracker that has never been used.
    pub open spec fn empty() -> Store {
        Store { product_count: 0, step_count: 0, products: Map::empty(), steps: Map::empty() }
    }

    /// Whether the next product can still be numbered.
    pub open spec fn can_register(self) -> bool {
        self.product_count < u64::MAX
    }

    /// Whether the next supply step can still be numbered.
    pub open spec fn can_add_step(self) -> bool {
        self.step_count < u64::MAX
    }

    /// The identifier that the next registered product gets.
    pub open spec fn next_product_id(self) -> u64
        recommends
            self.can_register(),
    {
        (self.product_count + 1) as u64
    }

    /// The identifier that the next supply step gets.
    pub open spec fn next_step_id(self) -> u64
        recommends
            self.can_add_step(),
    {
        (self.step_count + 1) as u64
    }

    /// The product stored under `id`, or the record that stands for an absent
    /// product where nothing is stored there.
    pub open spec fn view_product(self, id: u64) -> ProductData {
        if self.products.contains_key(id) {
            self.products[id]
        } else {
            ProductData::not_found()
        }
    }

    /// The storage after a product has been registered at time `now`: the
    /// product counter goes up by one and the new product is stored under the
    /// new count, with status `Registered`.
    pub open spec fn register_product(
        self,
        name: Seq<u8>,
        manufacturer: Seq<u8>,
        location: Seq<u8>,
        now: u64,
    ) -> Store
        recommends
            self.can_register(),
    {
        let id = self.next_product_id();
        Store {
            product_count: id,
            products: self.products.insert(
                id,
                ProductData {
                    product_id: id,
                    name: name,
                    manufacturer: manufacturer,
                    current_location: location,
                    status: STATUS_REGISTERED.spec_bytes(),
                    timestamp: now,
                },
            ),
            ..self
        }
    }

    /// The storage after a supply step has been recorded at time `now`: the
    /// step counter goes up by one and the step is stored under the new count.
    /// Where a product is found under `product_id`, it moves to `location`
    /// with status `In Transit`; where none is found, no product changes and
    /// none is created.
    pub open spec fn add_supply_step(
        self,
        product_id: u64,
        location: Seq<u8>,
        handler: Seq<u8>,
        notes: Seq<u8>,
        now: u64,
    ) -> Store
        recommends
            self.can_add_step(),
    {
        let id = self.next_step_id();
        let product = self.view_product(product_id);
        Store {
            step_count: id,
            steps: self.steps.insert(
                id,
                StepData {
                    step_id: id,
                    product_id: product_id,
                    location: location,
                    handler: handler,
                    timestamp: now,
                    notes: notes,
                },
            ),
            products: if product.is_found() {
                self.products.insert(
                    product_id,
                    product.moved(location, STATUS_IN_TRANSIT.spec_bytes(), now),
                )
            } else {
                self.products
            },
            ..self
        }
    }

    /// Whether marking `product_id` as delivered succeeds: a product is found
    /// under that identifier.
    pub open spec fn can_deliver(self, product_id: u64) -> bool {
        self.view_product(product_id).is_found()
    }

    /// The storage after `product_id` has been marked as delivered at
    /// `consumer_location` at time `now`. Where no product is found, nothing
    /// changes.
    pub open spec fn mark_delivered(
        self,
        product_id: u64,
        consumer_location: Seq<u8>,
        now: u64,
    ) -> Store {
        if self.can_deliver(product_id) {
            Store {
                products: self.products.insert(
                    product_id,
                    self.view_product(product_id).moved(
                        consumer_location,
                        STATUS_DELIVERED.spec_bytes(),
                        now,
                    ),
                ),
                ..self
            }
        } else {
            self
        }
    }

    /// What holds of every storage that only the tracker's operations have
    /// written: each record is stored under its own identifier, and the
    /// identifiers in use are exactly those handed out so far, from 1 up to
    /// the counter.
    pub open spec fn well_formed(self) -> bool {
        &&& forall|id: u64|
            self.products.contains_key(id) <==> 1 <= id <= self.product_count
        &&& forall|id: u64|
            self.products.contains_key(id) ==> (#[trigger] self.products[id]).product_id == id
        &&& forall|id: u64| self.steps.contains_key(id) <==> 1 <= id <= self.step_count
        &&& forall|id: u64|
            self.steps.contains_key(id) ==> (#[trigger] self.steps[id]).step_id == id
    }
}

} // verus!
