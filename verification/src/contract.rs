//! The four operations of the tracker, each proved to move the storage as
//! its transition in [`crate::store`] says.

use crate::host::{
    extend_retention, held_by, host_of, host_text, in_contract, is_symbol_text, ledger_sequence,
    ledger_time, read_counter, read_product, retention_of, stored_counters, stored_products,
    stored_steps, text_of, write_counter, write_product, write_step,
};
use crate::record::{
    Product, ProductBook, StepBook, SupplyStep, NOT_FOUND, PRODUCT_TAG, STATUS_DELIVERED,
    STATUS_IN_TRANSIT, STATUS_REGISTERED, STEP_TAG,
};
use crate::store::Store;
use vstd::prelude::*;

verus! {

/// Symbol under which the number of registered products is stored.
pub const PRODUCT_COUNT: &'static str = "P_COUNT";

/// Symbol under which the number of recorded supply steps is stored.
pub const STEP_COUNT: &'static str = "S_COUNT";

/// Retention, in ledgers, at or below which a write prolongs the storage.
pub const RETENTION_THRESHOLD: u32 = 5000;

/// Retention, in ledgers, that a write prolongs the storage to.
pub const RETENTION_TARGET: u32 = 5000;

/// The counter stored under the symbol `name`; 0 where none is stored.
pub open spec fn counter_of(env: soroban_sdk::Env, name: Seq<char>) -> u64 {
    if stored_counters(env).contains_key(name) {
        stored_counters(env)[name]
    } else {
        0
    }
}

/// What the storage behind `env` holds, as the model sees it: the two
/// counters under their symbols, the products under keys that start with
/// `Product`, the steps under keys that start with `Step`.
pub open spec fn store_of(env: soroban_sdk::Env) -> Store {
    Store {
        product_count: counter_of(env, PRODUCT_COUNT@),
        step_count: counter_of(env, STEP_COUNT@),
        products: Map::new(
            |id: u64| stored_products(env).contains_key((PRODUCT_TAG@, id)),
            |id: u64| stored_products(env)[(PRODUCT_TAG@, id)],
        ),
        steps: Map::new(
            |id: u64| stored_steps(env).contains_key((STEP_TAG@, id)),
            |id: u64| stored_steps(env)[(STEP_TAG@, id)],
        ),
    }
}

/// What holds of every environment that a well-run network hands to a
/// running contract: a contract is running, its instance is still kept, and
/// the network's last allowed ledger has a sequence number. None of it can
/// be tested from within the contract.
pub open spec fn is_kept(env: soroban_sdk::Env) -> bool {
    &&& in_contract(env)
    &&& retention_of(env).is_live()
    &&& retention_of(env).has_limit()
}

/// Whether the storage behind `env` can be written and then prolonged: the
/// contract is kept, and the ledger that the retention target points to has
/// a sequence number.
pub open spec fn can_write(env: soroban_sdk::Env) -> bool {
    &&& is_kept(env)
    &&& retention_of(env).fits(RETENTION_TARGET)
}

/// What every successful write leaves behind, besides the storage itself:
/// the same running contract on the same host, and a retention prolonged to
/// the target where no more than the threshold remained.
pub open spec fn prolonged(before: soroban_sdk::Env, after: soroban_sdk::Env) -> bool {
    &&& in_contract(after)
    &&& host_of(after) == host_of(before)
    &&& retention_of(after) == retention_of(before).extended(
        RETENTION_THRESHOLD,
        RETENTION_TARGET,
    )
}

/// The counter names and the key tags are symbol text, the two names differ
/// and the two tags differ.
proof fn lemma_names()
    ensures
        is_symbol_text(PRODUCT_COUNT@),
        is_symbol_text(STEP_COUNT@),
        is_symbol_text(PRODUCT_TAG@),
        is_symbol_text(STEP_TAG@),
        PRODUCT_COUNT@ != STEP_COUNT@,
        PRODUCT_TAG@ != STEP_TAG@,
{
    reveal_strlit("P_COUNT");
    reveal_strlit("S_COUNT");
    reveal_strlit("Product");
    reveal_strlit("Step");
    assert(PRODUCT_COUNT@[0] == 'P');
    assert(STEP_COUNT@[0] == 'S');
    assert(PRODUCT_TAG@[0] == 'P');
    assert(STEP_TAG@[0] == 'S');
}

/// Why an operation failed.
#[derive(Clone, Copy, Debug, PartialEq, Eq)]
pub enum SupplyChainError {
    /// No product is stored under the given identifier.
    NotFound,
}

impl SupplyChainError {
    /// The message that goes with the error.
    pub fn message(&self) -> (r: &'static str)
        ensures
            r@ == "Product not found!"@,
    {
        match self {
            SupplyChainError::NotFound => "Product not found!",
        }
    }
}

/// The tracker. It holds no data of its own: every operation works on the
/// storage behind the environment it is given.
pub struct SupplyChainContract;

impl SupplyChainContract {
    /// Reads how many products have been registered so far: the stored
    /// counter, or 0 where none is stored.
    pub fn product_count(env: &soroban_sdk::Env) -> (n: u64)
        requires
            in_contract(*env),
        ensures
            n == store_of(*env).product_count,
    {
        proof {
            lemma_names();
        }
        match read_counter(env, PRODUCT_COUNT) {
            Some(n) => n,
            None => 0,
        }
    }

    /// Reads how many supply steps have been recorded so far: the stored
    /// counter, or 0 where none is stored.
    pub fn step_count(env: &soroban_sdk::Env) -> (n: u64)
        requires
            in_contract(*env),
        ensures
            n == store_of(*env).step_count,
    {
        proof {
            lemma_names();
        }
        match read_counter(env, STEP_COUNT) {
            Some(n) => n,
            None => 0,
        }
    }

    /// Tells whether the ledger that the retention target points to still
    /// has a sequence number, as every write needs it to.
    pub fn can_extend_retention(env: &soroban_sdk::Env) -> (r: bool)
        ensures
            r == retention_of(*env).fits(RETENTION_TARGET),
    {
        ledger_sequence(env) <= u32::MAX - RETENTION_TARGET
    }

    /// Registers a new product at time `now` and returns its identifier, the
    /// next one in sequence. The product starts out as `Registered` at
    /// `location`. No field is checked: empty text is accepted. Product and
    /// counter are written, then retention is prolonged.
    pub fn register_product_at(
        env: &mut soroban_sdk::Env,
        name: soroban_sdk::String,
        manufacturer: soroban_sdk::String,
        location: soroban_sdk::String,
        now: u64,
    ) -> (id: u64)
        requires
            can_write(*old(env)),
            held_by(name, *old(env)),
            held_by(manufacturer, *old(env)),
            held_by(location, *old(env)),
            store_of(*old(env)).can_register(),
        ensures
            id == store_of(*old(env)).next_product_id(),
            store_of(*final(env)) == store_of(*old(env)).register_product(
                text_of(name),
                text_of(manufacturer),
                text_of(location),
                now,
            ),
            prolonged(*old(env), *final(env)),
    {
        proof {
            lemma_names();
        }
        let count: u64 = Self::product_count(env);
        let id: u64 = count + 1;
        let product = Product {
            product_id: id,
            name: name,
            manufacturer: manufacturer,
            current_location: location,
            status: host_text(env, STATUS_REGISTERED),
            timestamp: now,
        };
        let key = ProductBook::Product(id);
        write_product(env, key.tag(), key.id(), &product);
        write_counter(env, PRODUCT_COUNT, id);
        extend_retention(env, RETENTION_THRESHOLD, RETENTION_TARGET);
        proof {
            let after = store_of(*old(env)).register_product(
                text_of(name),
                text_of(manufacturer),
                text_of(location),
                now,
            );
            assert(store_of(*env).products =~= after.products);
            assert(store_of(*env).steps =~= after.steps);
        }
        id
    }

    /// Registers a new product, stamped with the ledger's current time, and
    /// returns its identifier. The time is the host's to give: the product is
    /// stored with whatever time came back.
    pub fn register_product(
        env: &mut soroban_sdk::Env,
        name: soroban_sdk::String,
        manufacturer: soroban_sdk::String,
        location: soroban_sdk::String,
    ) -> (id: u64)
        requires
            can_write(*old(env)),
            held_by(name, *old(env)),
            held_by(manufacturer, *old(env)),
            held_by(location, *old(env)),
            store_of(*old(env)).can_register(),
        ensures
            id == store_of(*old(env)).next_product_id(),
            store_of(*final(env)) == store_of(*old(env)).register_product(
                text_of(name),
                text_of(manufacturer),
                text_of(location),
                store_of(*final(env)).products[id].timestamp,
            ),
            prolonged(*old(env), *final(env)),
    {
        let now: u64 = ledger_time(env);
        Self::register_product_at(env, name, manufacturer, location, now)
    }

    /// Registers a new product where that can be done. Returns `None`, and
    /// leaves the environment as it was, exactly when the product counter
    /// has reached the largest `u64` or the retention target points past the
    /// last ledger sequence number.
    pub fn try_register_product(
        env: &mut soroban_sdk::Env,
        name: soroban_sdk::String,
        manufacturer: soroban_sdk::String,
        location: soroban_sdk::String,
    ) -> (r: Option<u64>)
        requires
            is_kept(*old(env)),
            held_by(name, *old(env)),
            held_by(manufacturer, *old(env)),
            held_by(location, *old(env)),
        ensures
            r is Some <==> store_of(*old(env)).can_register() && retention_of(*old(env)).fits(
                RETENTION_TARGET,
            ),
            r is Some ==> r->0 == store_of(*old(env)).next_product_id() && store_of(*final(env))
                == store_of(*old(env)).register_product(
                text_of(name),
                text_of(manufacturer),
                text_of(location),
                store_of(*final(env)).products[r->0].timestamp,
            ) && prolonged(*old(env), *final(env)),
            r is None ==> *final(env) == *old(env),
    {
        if Self::product_count(env) < u64::MAX && Self::can_extend_retention(env) {
            Some(Self::register_product(env, name, manufacturer, location))
        } else {
            None
        }
    }

    /// Looks a product up. Where no product is stored under `product_id`,
    /// the result is the record that stands for an absent product:
    /// identifier 0, every text field `Not_Found`, timestamp 0. Callers tell
    /// the two apart by the identifier.
    pub fn view_product(env: &soroban_sdk::Env, product_id: u64) -> (product: Product)
        requires
            in_contract(*env),
        ensures
            product@ == store_of(*env).view_product(product_id),
            product.held_by(*env),
    {
        proof {
            lemma_names();
        }
        let key = ProductBook::Product(product_id);
        match read_product(env, key.tag(), key.id()) {
            Some(product) => product,
            None => Product {
                product_id: 0,
                name: host_text(env, NOT_FOUND),
                manufacturer: host_text(env, NOT_FOUND),
                current_location: host_text(env, NOT_FOUND),
                status: host_text(env, NOT_FOUND),
                timestamp: 0,
            },
        }
    }

    /// Records a supply step at time `now` and returns its identifier, the
    /// next one in sequence over all products. Where a product is found under
    /// `product_id`, it moves to `location` and becomes `In Transit`. Where
    /// none is found, the step is recorded all the same and no product is
    /// touched or created. Step and counter are written, then retention is
    /// prolonged.
    pub fn add_supply_step_at(
        env: &mut soroban_sdk::Env,
        product_id: u64,
        location: soroban_sdk::String,
        handler: soroban_sdk::String,
        notes: soroban_sdk::String,
        now: u64,
    ) -> (id: u64)
        requires
            can_write(*old(env)),
            held_by(location, *old(env)),
            held_by(handler, *old(env)),
            held_by(notes, *old(env)),
            store_of(*old(env)).can_add_step(),
        ensures
            id == store_of(*old(env)).next_step_id(),
            store_of(*final(env)) == store_of(*old(env)).add_supply_step(
                product_id,
                text_of(location),
                text_of(handler),
                text_of(notes),
                now,
            ),
            prolonged(*old(env), *final(env)),
    {
        proof {
            lemma_names();
        }
        let count: u64 = Self::step_count(env);
        let id: u64 = count + 1;
        let mut product = Self::view_product(env, product_id);
        if product.product_id != 0 {
            product.current_location = location.clone();
            product.status = host_text(env, STATUS_IN_TRANSIT);
            product.timestamp = now;
            let key = ProductBook::Product(product_id);
            write_product(env, key.tag(), key.id(), &product);
        }
        let step = SupplyStep {
            step_id: id,
            product_id: product_id,
            location: location,
            handler: handler,
            timestamp: now,
            notes: notes,
        };
        let key = StepBook::Step(id);
        write_step(env, key.tag(), key.id(), &step);
        write_counter(env, STEP_COUNT, id);
        extend_retention(env, RETENTION_THRESHOLD, RETENTION_TARGET);
        proof {
            let after = store_of(*old(env)).add_supply_step(
                product_id,
                text_of(location),
                text_of(handler),
                text_of(notes),
                now,
            );
            assert(store_of(*env).products =~= after.products);
            assert(store_of(*env).steps =~= after.steps);
        }
        id
    }

    /// Records a supply step, stamped with the ledger's current time, and
    /// returns its identifier. The step is stored with whatever time came
    /// back, and so is the product it moved, if there is one.
    pub fn add_supply_step(
        env: &mut soroban_sdk::Env,
        product_id: u64,
        location: soroban_sdk::String,
        handler: soroban_sdk::String,
        notes: soroban_sdk::String,
    ) -> (id: u64)
        requires
            can_write(*old(env)),
            held_by(location, *old(env)),
            held_by(handler, *old(env)),
            held_by(notes, *old(env)),
            store_of(*old(env)).can_add_step(),
        ensures
            id == store_of(*old(env)).next_step_id(),
            store_of(*final(env)) == store_of(*old(env)).add_supply_step(
                product_id,
                text_of(location),
                text_of(handler),
                text_of(notes),
                store_of(*final(env)).steps[id].timestamp,
            ),
            prolonged(*old(env), *final(env)),
    {
        let now: u64 = ledger_time(env);
        Self::add_supply_step_at(env, product_id, location, handler, notes, now)
    }

    /// Records a supply step where that can be done. Returns `None`, and
    /// leaves the environment as it was, exactly when the step counter has
    /// reached the largest `u64` or the retention target points past the
    /// last ledger sequence number.
    pub fn try_add_supply_step(
        env: &mut soroban_sdk::Env,
        product_id: u64,
        location: soroban_sdk::String,
        handler: soroban_sdk::String,
        notes: soroban_sdk::String,
    ) -> (r: Option<u64>)
        requires
            is_kept(*old(env)),
            held_by(location, *old(env)),
            held_by(handler, *old(env)),
            held_by(notes, *old(env)),
        ensures
            r is Some <==> store_of(*old(env)).can_add_step() && retention_of(*old(env)).fits(
                RETENTION_TARGET,
            ),
            r is Some ==> r->0 == store_of(*old(env)).next_step_id() && store_of(*final(env))
                == store_of(*old(env)).add_supply_step(
                product_id,
                text_of(location),
                text_of(handler),
                text_of(notes),
                store_of(*final(env)).steps[r->0].timestamp,
            ) && prolonged(*old(env), *final(env)),
            r is None ==> *final(env) == *old(env),
    {
        if Self::step_count(env) < u64::MAX && Self::can_extend_retention(env) {
            Some(Self::add_supply_step(env, product_id, location, handler, notes))
        } else {
            None
        }
    }

    /// Marks a product as delivered at `consumer_location` at time `now`:
    /// the product is written, then retention is prolonged. Fails with
    /// `NotFound`, and leaves the environment as it was, exactly when no
    /// product is found under `product_id`.
    pub fn mark_delivered_at(
        env: &mut soroban_sdk::Env,
        product_id: u64,
        consumer_location: soroban_sdk::String,
        now: u64,
    ) -> (r: Result<(), SupplyChainError>)
        requires
            in_contract(*old(env)),
            held_by(consumer_location, *old(env)),
            store_of(*old(env)).can_deliver(product_id) ==> can_write(*old(env)),
        ensures
            r is Ok <==> store_of(*old(env)).can_deliver(product_id),
            r is Ok ==> store_of(*final(env)) == store_of(*old(env)).mark_delivered(
                product_id,
                text_of(consumer_location),
                now,
            ) && prolonged(*old(env), *final(env)),
            r is Err ==> r == Err::<(), SupplyChainError>(SupplyChainError::NotFound) && *final(env)
                == *old(env),
    {
        proof {
            lemma_names();
        }
        let mut product = Self::view_product(env, product_id);
        if product.product_id != 0 {
            product.current_location = consumer_location;
            product.status = host_text(env, STATUS_DELIVERED);
            product.timestamp = now;
            let key = ProductBook::Product(product_id);
            write_product(env, key.tag(), key.id(), &product);
            extend_retention(env, RETENTION_THRESHOLD, RETENTION_TARGET);
            proof {
                let after = store_of(*old(env)).mark_delivered(
                    product_id,
                    text_of(consumer_location),
                    now,
                );
                assert(store_of(*env).products =~= after.products);
                assert(store_of(*env).steps =~= after.steps);
            }
            Ok(())
        } else {
            Err(SupplyChainError::NotFound)
        }
    }

    /// Marks a product as delivered at `consumer_location`, stamped with the
    /// ledger's current time. Fails with `NotFound`, and leaves the
    /// environment as it was, exactly when no product is found under
    /// `product_id`.
    pub fn mark_delivered(
        env: &mut soroban_sdk::Env,
        product_id: u64,
        consumer_location: soroban_sdk::String,
    ) -> (r: Result<(), SupplyChainError>)
        requires
            in_contract(*old(env)),
            held_by(consumer_location, *old(env)),
            store_of(*old(env)).can_deliver(product_id) ==> can_write(*old(env)),
        ensures
            r is Ok <==> store_of(*old(env)).can_deliver(product_id),
            r is Ok ==> store_of(*final(env)) == store_of(*old(env)).mark_delivered(
                product_id,
                text_of(consumer_location),
                store_of(*final(env)).products[product_id].timestamp,
            ) && prolonged(*old(env), *final(env)),
            r is Err ==> r == Err::<(), SupplyChainError>(SupplyChainError::NotFound) && *final(env)
                == *old(env),
    {
        let now: u64 = ledger_time(env);
        Self::mark_delivered_at(env, product_id, consumer_location, now)
    }

    /// Marks a product as delivered where that can be done. Returns `None`,
    /// and leaves the environment as it was, exactly when the product is
    /// found but the retention target points past the last ledger sequence
    /// number. Otherwise the result is that of `mark_delivered`: `NotFound`
    /// exactly when no product is found under `product_id`.
    pub fn try_mark_delivered(
        env: &mut soroban_sdk::Env,
        product_id: u64,
        consumer_location: soroban_sdk::String,
    ) -> (r: Option<Result<(), SupplyChainError>>)
        requires
            in_contract(*old(env)),
            held_by(consumer_location, *old(env)),
            store_of(*old(env)).can_deliver(product_id) ==> is_kept(*old(env)),
        ensures
            r is None <==> store_of(*old(env)).can_deliver(product_id) && !retention_of(
                *old(env),
            ).fits(RETENTION_TARGET),
            r is None ==> *final(env) == *old(env),
            r is Some ==> (r->0 is Ok <==> store_of(*old(env)).can_deliver(product_id)),
            r is Some && r->0 is Ok ==> store_of(*final(env)) == store_of(
                *old(env),
            ).mark_delivered(
                product_id,
                text_of(consumer_location),
                store_of(*final(env)).products[product_id].timestamp,
            ) && prolonged(*old(env), *final(env)),
            r is Some && r->0 is Err ==> r->0 == Err::<(), SupplyChainError>(
                SupplyChainError::NotFound,
            ) && *final(env) == *old(env),
    {
        if Self::can_extend_retention(env) || Self::view_product(env, product_id).product_id == 0 {
            Some(Self::mark_delivered(env, product_id, consumer_location))
        } else {
            None
        }
    }
}

} // verus!
