//! What the operations guarantee together, proved over the model.
//!
//! Every operation in [`crate::contract`] moves the storage exactly as its
//! transition in [`crate::store`] says, so what is proved here of the
//! transitions holds of the operations.

use crate::history::{recorded_steps, registrations, Call};
use crate::host::Retention;
use crate::record::{
    ProductData, StepData, NOT_FOUND, STATUS_DELIVERED, STATUS_IN_TRANSIT, STATUS_REGISTERED,
};
use crate::store::Store;
use vstd::prelude::*;
use vstd::string::StringSliceAdditionalSpecFns;

verus! {

/// A tracker that has never been used is well formed.
pub proof fn law_empty_is_well_formed()
    ensures
        Store::empty().well_formed(),
{
}

/// Every operation keeps the storage well formed: records stay under their
/// own identifiers, and the identifiers in use stay those from 1 up to the
/// counter. In particular the record that stands for an absent product,
/// whose identifier is 0, is never stored.
pub proof fn law_well_formed_is_kept(s: Store, call: Call)
    requires
        s.well_formed(),
        s.permits(call),
    ensures
        s.apply(call).well_formed(),
        forall|id: u64| s.apply(call).products.contains_key(id) ==> s.apply(call).products[id].is_found(),
{
    let t = s.apply(call);
    assert forall|id: u64| t.products.contains_key(id) implies (#[trigger] t.products[id]).product_id
        == id by {
        if s.products.contains_key(id) {
            assert(s.products[id].product_id == id);
        }
    }
    assert forall|id: u64| t.steps.contains_key(id) implies (#[trigger] t.steps[id]).step_id
        == id by {
        if s.steps.contains_key(id) {
            assert(s.steps[id].step_id == id);
        }
    }
}

/// Product identifiers are handed out in sequence: the first registration
/// on a fresh tracker returns 1, and each registration returns one more than
/// the one before it, whatever other operations ran in between. So the
/// identifiers returned are strictly increasing, without gaps or repeats.
///
/// Stated of a history `calls` on a fresh tracker whose `k`-th call is a
/// registration: it returns the number of registrations before it, plus one.
pub proof fn law_product_ids_are_sequential(calls: Seq<Call>, k: int)
    requires
        Store::empty().permits_all(calls),
        0 <= k < calls.len(),
        calls[k] is Register,
    ensures
        Store::empty().run(calls.take(k)).next_product_id() == registrations(calls.take(k)) + 1,
        Store::empty().run(calls.take(k + 1)).product_count == registrations(calls.take(k)) + 1,
{
    lemma_permits_all_take(Store::empty(), calls, k);
    lemma_counters_count_calls(calls.take(k));
    assert(Store::empty().run(calls.take(k)).permits(calls[k]));
    assert(calls.take(k + 1).drop_last() == calls.take(k));
    assert(calls.take(k + 1).last() == calls[k]);
}

/// Where nothing but registrations runs on a fresh tracker, the first
/// returns 1, the second 2, and so on: the `k`-th, counted from 0, returns
/// `k + 1`.
pub proof fn law_registrations_alone_count_from_one(calls: Seq<Call>, k: int)
    requires
        Store::empty().permits_all(calls),
        forall|i: int| 0 <= i < calls.len() ==> #[trigger] calls[i] is Register,
        0 <= k < calls.len(),
    ensures
        Store::empty().run(calls.take(k)).next_product_id() == k + 1,
{
    law_product_ids_are_sequential(calls, k);
    lemma_registrations_alone(calls.take(k));
}

/// Step identifiers are handed out in sequence over all products: a step
/// recorded on a fresh tracker returns the number of steps recorded before
/// it, plus one, whether or not its product is registered.
pub proof fn law_step_ids_are_sequential(calls: Seq<Call>, k: int)
    requires
        Store::empty().permits_all(calls),
        0 <= k < calls.len(),
        calls[k] is AddStep,
    ensures
        Store::empty().run(calls.take(k)).next_step_id() == recorded_steps(calls.take(k)) + 1,
        Store::empty().run(calls.take(k + 1)).step_count == recorded_steps(calls.take(k)) + 1,
{
    lemma_permits_all_take(Store::empty(), calls, k);
    lemma_counters_count_calls(calls.take(k));
    assert(Store::empty().run(calls.take(k)).permits(calls[k]));
    assert(calls.take(k + 1).drop_last() == calls.take(k));
    assert(calls.take(k + 1).last() == calls[k]);
}

/// On a fresh tracker, after any history, the counters say how many
/// products were registered and how many steps were recorded, and the
/// storage is well formed.
pub proof fn law_history_is_well_formed(calls: Seq<Call>)
    requires
        Store::empty().permits_all(calls),
    ensures
        Store::empty().run(calls).well_formed(),
        Store::empty().run(calls).product_count == registrations(calls),
        Store::empty().run(calls).step_count == recorded_steps(calls),
{
    lemma_counters_count_calls(calls);
}

/// A product that has just been registered is found under the identifier
/// that the registration returned, with the given name, manufacturer and
/// location, and with status `Registered`.
pub proof fn law_view_after_register(
    s: Store,
    name: Seq<u8>,
    manufacturer: Seq<u8>,
    location: Seq<u8>,
    now: u64,
)
    requires
        s.can_register(),
    ensures
        s.register_product(name, manufacturer, location, now).view_product(s.next_product_id())
            == (ProductData {
            product_id: s.next_product_id(),
            name: name,
            manufacturer: manufacturer,
            current_location: location,
            status: STATUS_REGISTERED.spec_bytes(),
            timestamp: now,
        }),
        s.next_product_id() != 0,
{
}

/// A supply step for a registered product moves it: afterwards the product
/// is at the step's location with status `In Transit`, stamped with the
/// step's time. Its identifier, name and manufacturer stay as they were.
pub proof fn law_step_moves_registered_product(
    s: Store,
    product_id: u64,
    location: Seq<u8>,
    handler: Seq<u8>,
    notes: Seq<u8>,
    now: u64,
)
    requires
        s.well_formed(),
        1 <= product_id <= s.product_count,
    ensures
        s.add_supply_step(product_id, location, handler, notes, now).view_product(product_id)
            == s.view_product(product_id).moved(location, STATUS_IN_TRANSIT.spec_bytes(), now),
        s.add_supply_step(product_id, location, handler, notes, now).view_product(
            product_id,
        ).product_id == product_id,
{
    assert(s.products.contains_key(product_id));
    assert(s.products[product_id].product_id == product_id);
}

/// A supply step for a product that is not registered is recorded all the
/// same, under the next step identifier, and touches no product: looking the
/// product up afterwards still gives the record that stands for an absent
/// product.
pub proof fn law_step_for_unknown_product(
    s: Store,
    product_id: u64,
    location: Seq<u8>,
    handler: Seq<u8>,
    notes: Seq<u8>,
    now: u64,
)
    requires
        s.can_add_step(),
        !s.products.contains_key(product_id),
    ensures
        ({
            let t = s.add_supply_step(product_id, location, handler, notes, now);
            &&& t.step_count == s.step_count + 1
            &&& t.steps.contains_key(s.next_step_id())
            &&& t.steps[s.next_step_id()] == (StepData {
                step_id: s.next_step_id(),
                product_id: product_id,
                location: location,
                handler: handler,
                timestamp: now,
                notes: notes,
            })
            &&& t.products == s.products
            &&& t.product_count == s.product_count
            &&& t.view_product(product_id) == ProductData::not_found()
        }),
{
}

/// Marking a registered product as delivered puts it at the consumer's
/// location with status `Delivered`. Doing it again succeeds too: the status
/// stays `Delivered` and the location becomes the new one.
pub proof fn law_delivery_can_be_repeated(
    s: Store,
    product_id: u64,
    first_location: Seq<u8>,
    first_time: u64,
    second_location: Seq<u8>,
    second_time: u64,
)
    requires
        s.well_formed(),
        1 <= product_id <= s.product_count,
    ensures
        ({
            let once = s.mark_delivered(product_id, first_location, first_time);
            let twice = once.mark_delivered(product_id, second_location, second_time);
            &&& s.can_deliver(product_id)
            &&& once.view_product(product_id) == s.view_product(product_id).moved(
                first_location,
                STATUS_DELIVERED.spec_bytes(),
                first_time,
            )
            &&& once.can_deliver(product_id)
            &&& twice.view_product(product_id) == s.view_product(product_id).moved(
                second_location,
                STATUS_DELIVERED.spec_bytes(),
                second_time,
            )
        }),
{
    assert(s.products.contains_key(product_id));
    assert(s.products[product_id].product_id == product_id);
}

/// Marking a product as delivered fails exactly where no product is found
/// under the identifier, and then the storage is as it was.
pub proof fn law_failed_delivery_changes_nothing(
    s: Store,
    product_id: u64,
    consumer_location: Seq<u8>,
    now: u64,
)
    requires
        !s.can_deliver(product_id),
    ensures
        s.mark_delivered(product_id, consumer_location, now) == s,
{
}

/// In a well-formed storage the identifiers under which nothing was ever
/// written are 0 and those above the product counter. Looking one of them up
/// gives the record that stands for an absent product, and marking it as
/// delivered fails.
pub proof fn law_view_of_unwritten_product(s: Store, product_id: u64)
    requires
        s.well_formed(),
        product_id == 0 || product_id > s.product_count,
    ensures
        s.view_product(product_id) == ProductData::not_found(),
        !s.view_product(product_id).is_found(),
        !s.can_deliver(product_id),
{
}

/// The step log only grows: no operation changes or removes a step that is
/// already recorded.
pub proof fn law_steps_are_append_only(s: Store, call: Call, step_id: u64)
    requires
        s.well_formed(),
        s.permits(call),
        s.steps.contains_key(step_id),
    ensures
        s.apply(call).steps.contains_key(step_id),
        s.apply(call).steps[step_id] == s.steps[step_id],
{
}

/// No operation removes a product or changes its identifier, name or
/// manufacturer.
pub proof fn law_product_identity_is_kept(s: Store, call: Call, product_id: u64)
    requires
        s.well_formed(),
        s.permits(call),
        s.products.contains_key(product_id),
    ensures
        s.apply(call).products.contains_key(product_id),
        s.apply(call).products[product_id].product_id == s.products[product_id].product_id,
        s.apply(call).products[product_id].name == s.products[product_id].name,
        s.apply(call).products[product_id].manufacturer == s.products[product_id].manufacturer,
{
    assert(s.products[product_id].product_id == product_id);
}

/// No operation lowers a counter.
pub proof fn law_counters_never_decrease(s: Store, call: Call)
    requires
        s.permits(call),
    ensures
        s.product_count <= s.apply(call).product_count <= s.product_count + 1,
        s.step_count <= s.apply(call).step_count <= s.step_count + 1,
{
}

/// A request to prolong retention never shortens it and leaves the current
/// ledger and the network's limit alone. After a request whose threshold is
/// its target, as every write of the tracker makes it, the instance is kept
/// for at least the target, or for as long as the network allows if that is
/// less; and the next write can prolong again.
pub proof fn law_retention_is_prolonged(r: Retention, target: u32)
    requires
        r.is_live(),
        r.has_limit(),
        r.fits(target),
    ensures
        r.extended(target, target).sequence == r.sequence,
        r.extended(target, target).max_live_until == r.max_live_until,
        r.extended(target, target).remaining() >= r.remaining(),
        r.extended(target, target).remaining() >= target || r.extended(
            target,
            target,
        ).remaining() >= r.most(),
        r.extended(target, target).is_live(),
        r.extended(target, target).has_limit(),
        r.extended(target, target).fits(target),
{
}

/// Whether `status` is one of the three statuses of a stored product.
pub open spec fn is_status(status: Seq<u8>) -> bool {
    ||| status == STATUS_REGISTERED.spec_bytes()
    ||| status == STATUS_IN_TRANSIT.spec_bytes()
    ||| status == STATUS_DELIVERED.spec_bytes()
}

/// Where every stored product has one of the three statuses, it still has
/// after any operation.
pub proof fn law_status_stays_known(s: Store, call: Call)
    requires
        s.well_formed(),
        s.permits(call),
        forall|id: u64| s.products.contains_key(id) ==> is_status(#[trigger] s.products[id].status),
    ensures
        forall|id: u64|
            s.apply(call).products.contains_key(id) ==> is_status(
                #[trigger] s.apply(call).products[id].status,
            ),
{
    let t = s.apply(call);
    assert forall|id: u64| t.products.contains_key(id) implies is_status(
        #[trigger] t.products[id].status,
    ) by {
        if s.products.contains_key(id) {
            assert(is_status(s.products[id].status));
        }
    }
}

/// The three statuses are told apart by their text, and none of them is
/// the text of the record that stands for an absent product.
pub proof fn law_statuses_are_distinct()
    ensures
        STATUS_REGISTERED.spec_bytes() != STATUS_IN_TRANSIT.spec_bytes(),
        STATUS_REGISTERED.spec_bytes() != STATUS_DELIVERED.spec_bytes(),
        STATUS_IN_TRANSIT.spec_bytes() != STATUS_DELIVERED.spec_bytes(),
        !is_status(NOT_FOUND.spec_bytes()),
{
    reveal_strlit("Registered");
    reveal_strlit("In Transit");
    reveal_strlit("Delivered");
    reveal_strlit("Not_Found");
    assert(STATUS_REGISTERED@[0] == 'R');
    assert(STATUS_IN_TRANSIT@[0] == 'I');
    assert(STATUS_DELIVERED@[0] == 'D');
    assert(NOT_FOUND@[0] == 'N');
    vstd::utf8::encode_utf8_decode_utf8(STATUS_REGISTERED@);
    vstd::utf8::encode_utf8_decode_utf8(STATUS_IN_TRANSIT@);
    vstd::utf8::encode_utf8_decode_utf8(STATUS_DELIVERED@);
    vstd::utf8::encode_utf8_decode_utf8(NOT_FOUND@);
}

proof fn lemma_registrations_alone(calls: Seq<Call>)
    requires
        forall|i: int| 0 <= i < calls.len() ==> #[trigger] calls[i] is Register,
    ensures
        registrations(calls) == calls.len(),
    decreases calls.len(),
{
    if calls.len() > 0 {
        assert(calls.last() is Register);
        lemma_registrations_alone(calls.drop_last());
    }
}

proof fn lemma_permits_all_take(s: Store, calls: Seq<Call>, n: int)
    requires
        s.permits_all(calls),
        0 <= n <= calls.len(),
    ensures
        s.permits_all(calls.take(n)),
{
    assert forall|k: int| 0 <= k < calls.take(n).len() implies s.run(calls.take(n).take(k)).permits(
        #[trigger] calls.take(n)[k],
    ) by {
        assert(calls.take(n).take(k) == calls.take(k));
        assert(calls.take(n)[k] == calls[k]);
    }
}

proof fn lemma_counters_count_calls(calls: Seq<Call>)
    requires
        Store::empty().permits_all(calls),
    ensures
        Store::empty().run(calls).well_formed(),
        Store::empty().run(calls).product_count == registrations(calls),
        Store::empty().run(calls).step_count == recorded_steps(calls),
    decreases calls.len(),
{
    if calls.len() > 0 {
        let n = calls.len() - 1;
        assert(calls.drop_last() == calls.take(n));
        lemma_permits_all_take(Store::empty(), calls, n);
        lemma_counters_count_calls(calls.drop_last());
        let s = Store::empty().run(calls.drop_last());
        assert(s.permits(calls[n]));
        law_well_formed_is_kept(s, calls.last());
    }
}

} // verus!
