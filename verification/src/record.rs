//! The records that the tracker keeps, the keys it keeps them under, and the
//! plain values that contracts speak of in their place.

use crate::host::{held_by, text_of};
use vstd::prelude::*;
use vstd::string::StringSliceAdditionalSpecFns;

verus! {

/// Status text of a product that has been registered and not moved yet.
pub const STATUS_REGISTERED: &'static str = "Registered";

/// Status text of a product that at least one supply step has moved.
pub const STATUS_IN_TRANSIT: &'static str = "In Transit";

/// Status text of a product that has reached its consumer.
pub const STATUS_DELIVERED: &'static str = "Delivered";

/// Text of every field of the record that stands for an absent product.
pub const NOT_FOUND: &'static str = "Not_Found";

/// Symbol that goes before the identifier in the storage key of a product.
pub const PRODUCT_TAG: &'static str = "Product";

/// Symbol that goes before the identifier in the storage key of a step.
pub const STEP_TAG: &'static str = "Step";

/// What a [`Product`] holds, as plain values: host strings by their bytes.
pub struct ProductData {
    pub product_id: u64,
    pub name: Seq<u8>,
    pub manufacturer: Seq<u8>,
    pub current_location: Seq<u8>,
    pub status: Seq<u8>,
    pub timestamp: u64,
}

/// What a [`SupplyStep`] holds, as plain values: host strings by their bytes.
pub struct StepData {
    pub step_id: u64,
    pub product_id: u64,
    pub location: Seq<u8>,
    pub handler: Seq<u8>,
    pub timestamp: u64,
    pub notes: Seq<u8>,
}

/// A product and where it currently is.
///
/// `product_id` is 0 only in the record that stands for an absent product;
/// stored products carry the identifier they are stored under.
#[derive(Clone, Debug, PartialEq, Eq)]
pub struct Product {
    pub product_id: u64,
    pub name: soroban_sdk::String,
    pub manufacturer: soroban_sdk::String,
    pub current_location: soroban_sdk::String,
    pub status: soroban_sdk::String,
    pub timestamp: u64,
}

/// One movement or transfer of a product along the chain.
#[derive(Clone, Debug, PartialEq, Eq)]
pub struct SupplyStep {
    pub step_id: u64,
    pub product_id: u64,
    pub location: soroban_sdk::String,
    pub handler: soroban_sdk::String,
    pub timestamp: u64,
    pub notes: soroban_sdk::String,
}

/// Storage key of a product, by its identifier.
#[derive(Clone, Copy, Debug, PartialEq, Eq)]
pub enum ProductBook {
    Product(u64),
}

/// Storage key of a supply step, by its identifier.
#[derive(Clone, Copy, Debug, PartialEq, Eq)]
pub enum StepBook {
    Step(u64),
}

impl View for Product {
    type V = ProductData;

    open spec fn view(&self) -> ProductData {
        ProductData {
            product_id: self.product_id,
            name: text_of(self.name),
            manufacturer: text_of(self.manufacturer),
            current_location: text_of(self.current_location),
            status: text_of(self.status),
            timestamp: self.timestamp,
        }
    }
}

impl View for SupplyStep {
    type V = StepData;

    open spec fn view(&self) -> StepData {
        StepData {
            step_id: self.step_id,
            product_id: self.product_id,
            location: text_of(self.location),
            handler: text_of(self.handler),
            timestamp: self.timestamp,
            notes: text_of(self.notes),
        }
    }
}

impl Product {
    /// Whether the host behind `env` holds the four strings of the product.
    pub open spec fn held_by(&self, env: soroban_sdk::Env) -> bool {
        &&& held_by(self.name, env)
        &&& held_by(self.manufacturer, env)
        &&& held_by(self.current_location, env)
        &&& held_by(self.status, env)
    }
}

impl SupplyStep {
    /// Whether the host behind `env` holds the three strings of the step.
    pub open spec fn held_by(&self, env: soroban_sdk::Env) -> bool {
        &&& held_by(self.location, env)
        &&& held_by(self.handler, env)
        &&& held_by(self.notes, env)
    }
}

impl ProductBook {
    /// The identifier that the key is made from.
    pub open spec fn key_id(self) -> u64 {
        match self {
            ProductBook::Product(id) => id,
        }
    }

    /// The symbol that the key starts with.
    pub fn tag(&self) -> (r: &'static str)
        ensures
            r@ == PRODUCT_TAG@,
    {
        match self {
            ProductBook::Product(_) => PRODUCT_TAG,
        }
    }

    /// The identifier that the key ends with.
    pub fn id(&self) -> (r: u64)
        ensures
            r == self.key_id(),
    {
        match self {
            ProductBook::Product(id) => *id,
        }
    }
}

impl StepBook {
    /// The identifier that the key is made from.
    pub open spec fn key_id(self) -> u64 {
        match self {
            StepBook::Step(id) => id,
        }
    }

    /// The symbol that the key starts with.
    pub fn tag(&self) -> (r: &'static str)
        ensures
            r@ == STEP_TAG@,
    {
        match self {
            StepBook::Step(_) => STEP_TAG,
        }
    }

    /// The identifier that the key ends with.
    pub fn id(&self) -> (r: u64)
        ensures
            r == self.key_id(),
    {
        match self {
            StepBook::Step(id) => *id,
        }
    }
}

impl ProductData {
    /// The record that stands for an absent product: identifier 0, every text
    /// field `Not_Found`, timestamp 0.
    pub open spec fn not_found() -> ProductData {
        ProductData {
            product_id: 0,
            name: NOT_FOUND.spec_bytes(),
            manufacturer: NOT_FOUND.spec_bytes(),
            current_location: NOT_FOUND.spec_bytes(),
            status: NOT_FOUND.spec_bytes(),
            timestamp: 0,
        }
    }

    /// Whether the record describes a product, as opposed to an absent one.
    pub open spec fn is_found(self) -> bool {
        self.product_id != 0
    }

    /// The record after the product has moved to `location` at time `now`,
    /// with `status` as its new status. Identity, name and manufacturer stay.
    pub open spec fn moved(self, location: Seq<u8>, status: Seq<u8>, now: u64) -> ProductData {
        ProductData { current_location: location, status: status, timestamp: now, ..self }
    }
}

} // verus!
