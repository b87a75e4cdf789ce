//! The boundary to the Soroban SDK.
//!
//! Nothing in this file is proved. Each item says what is taken on trust of
//! the SDK function it names. Where the SDK function fails on some input, the
//! item's `requires` leaves that input out. One thing no `requires` can say:
//! the host ends an invocation whose resource budget is spent, as a machine
//! does when memory runs out.

use crate::record::{Product, ProductData, StepData, SupplyStep};
use soroban_sdk::{IntoVal, Symbol, TryIntoVal, Val};
use vstd::prelude::*;
use vstd::string::StringSliceAdditionalSpecFns;

verus! {

/// `soroban_sdk::Env`, the handle to the host that runs the contract. Opaque
/// here: what stands behind it is spoken of through the names below.
#[verifier::external_type_specification]
#[verifier::external_body]
pub struct ExEnv(soroban_sdk::Env);

/// `soroban_sdk::String`, a string of bytes held by a host. Opaque here: its
/// bytes are spoken of through [`text_of`], its host through [`home_of`].
#[verifier::external_type_specification]
#[verifier::external_body]
pub struct ExHostString(soroban_sdk::String);

/// How long the host keeps the instance of the running contract, in ledger
/// sequence numbers.
pub struct Retention {
    /// Sequence number of the current ledger.
    pub sequence: u32,
    /// Last ledger in which the contract instance is still kept.
    pub live_until: u32,
    /// Last ledger that the network lets any entry be kept until, as the
    /// host computes it: the current sequence number plus the network's
    /// longest lifetime, less one. `None` where that sum has no sequence
    /// number, which the host takes for a fault in the network's settings.
    pub max_live_until: Option<u32>,
}

impl Retention {
    /// Whether the instance is still kept in the current ledger.
    pub open spec fn is_live(self) -> bool {
        self.sequence <= self.live_until
    }

    /// Whether the network's last allowed ledger has a sequence number.
    pub open spec fn has_limit(self) -> bool {
        self.max_live_until is Some
    }

    /// Whether a ledger `extend_to` ledgers from now has a sequence number.
    pub open spec fn fits(self, extend_to: u32) -> bool {
        self.sequence + extend_to <= u32::MAX
    }

    /// How many ledgers after the current one the instance is still kept.
    pub open spec fn remaining(self) -> int {
        self.live_until - self.sequence
    }

    /// The most that `remaining` can be made to be, where the network's
    /// last allowed ledger has a sequence number.
    pub open spec fn most(self) -> int
        recommends
            self.has_limit(),
    {
        self.max_live_until->0 - self.sequence
    }

    /// The retention after a request to keep the instance for `extend_to`
    /// more ledgers where no more than `threshold` remain. The request is
    /// cut down to what the network allows, and it never shortens. Where
    /// the network's last allowed ledger has no sequence number the host
    /// takes no request, and nothing is said here.
    pub open spec fn extended(self, threshold: u32, extend_to: u32) -> Retention
        recommends
            self.has_limit(),
    {
        let limit = self.max_live_until->0;
        let target = if self.sequence + extend_to <= limit {
            self.sequence + extend_to
        } else {
            limit as int
        };
        if self.has_limit() && self.remaining() <= threshold && target > self.live_until {
            Retention { live_until: target as u32, ..self }
        } else {
            self
        }
    }
}

/// The bytes that a host string holds.
pub uninterp spec fn text_of(s: soroban_sdk::String) -> Seq<u8>;

/// Which host holds a string. Two strings with the same value here are held
/// by the same host.
pub uninterp spec fn home_of(s: soroban_sdk::String) -> int;

/// Which host an environment is a handle to, in the values of [`home_of`].
pub uninterp spec fn host_of(env: soroban_sdk::Env) -> int;

/// Whether the host is running a contract through this environment. Only
/// then is there an instance storage to read and write. The host runs no
/// contract whose code it no longer keeps.
pub uninterp spec fn in_contract(env: soroban_sdk::Env) -> bool;

/// The current ledger, how long the instance of the running contract is
/// kept, and the last ledger that the network allows.
pub uninterp spec fn retention_of(env: soroban_sdk::Env) -> Retention;

/// The integers in the running contract's instance storage: each entry
/// whose key is a symbol and whose value is a `u64`, by the symbol's
/// characters.
pub uninterp spec fn stored_counters(env: soroban_sdk::Env) -> Map<Seq<char>, u64>;

/// The products in the running contract's instance storage: each entry
/// whose key is the pair of a symbol and a `u64` and whose value is a map
/// that holds the six fields of a product under their names, by the
/// symbol's characters and the integer.
pub uninterp spec fn stored_products(env: soroban_sdk::Env) -> Map<(Seq<char>, u64), ProductData>;

/// The supply steps in the running contract's instance storage: each entry
/// whose key is the pair of a symbol and a `u64` and whose value is a map
/// that holds the six fields of a step under their names, by the symbol's
/// characters and the integer.
pub uninterp spec fn stored_steps(env: soroban_sdk::Env) -> Map<(Seq<char>, u64), StepData>;

/// Whether `c` may occur in a symbol: a letter, a digit or an underscore.
pub open spec fn is_symbol_char(c: char) -> bool {
    ||| 'a' <= c <= 'z'
    ||| 'A' <= c <= 'Z'
    ||| '0' <= c <= '9'
    ||| c == '_'
}

/// Whether `s` can be made into a symbol: at most 32 characters, each of
/// them a letter, a digit or an underscore.
pub open spec fn is_symbol_text(s: Seq<char>) -> bool {
    &&& s.len() <= 32
    &&& forall|i: int| 0 <= i < s.len() ==> is_symbol_char(#[trigger] s[i])
}

/// Whether `s` is held by the host behind `env`. Only such a string can be
/// stored through `env`.
pub open spec fn held_by(s: soroban_sdk::String, env: soroban_sdk::Env) -> bool {
    home_of(s) == host_of(env)
}

/// `Clone::clone` of `soroban_sdk::String`: the copy is a handle to the same
/// object of the same host, so it holds the same bytes.
pub assume_specification[ <soroban_sdk::String as Clone>::clone ](
    s: &soroban_sdk::String,
) -> (r: soroban_sdk::String)
    ensures
        text_of(r) == text_of(*s),
        home_of(r) == home_of(*s),
;

/// `soroban_sdk::String::from_str`: makes a string from the UTF-8 bytes of
/// `s`, held by the host behind `env`.
#[verifier::external_body]
pub(crate) fn host_text(env: &soroban_sdk::Env, s: &str) -> (r: soroban_sdk::String)
    ensures
        text_of(r) == s.spec_bytes(),
        held_by(r, *env),
{
    soroban_sdk::String::from_str(env, s)
}

/// `soroban_sdk::ledger::Ledger::timestamp`: the close time of the current
/// ledger. It is whatever the host says; nothing is claimed of it.
#[verifier::external_body]
pub(crate) fn ledger_time(env: &soroban_sdk::Env) -> u64 {
    env.ledger().timestamp()
}

/// `soroban_sdk::ledger::Ledger::sequence`: the sequence number of the
/// current ledger.
#[verifier::external_body]
pub(crate) fn ledger_sequence(env: &soroban_sdk::Env) -> (r: u32)
    ensures
        r == retention_of(*env).sequence,
{
    env.ledger().sequence()
}

/// `soroban_sdk::storage::Instance::get` with the symbol `name` as key,
/// asked for the raw value, which is then offered to `TryIntoVal::try_into_val`:
/// the stored integer, or `None` where the key is absent or holds something
/// else. `Symbol::new` accepts `name` because it is symbol text.
#[verifier::external_body]
pub(crate) fn read_counter(env: &soroban_sdk::Env, name: &str) -> (r: Option<u64>)
    requires
        in_contract(*env),
        is_symbol_text(name@),
    ensures
        r == (if stored_counters(*env).contains_key(name@) {
            Some(stored_counters(*env)[name@])
        } else {
            None
        }),
{
    let raw: Option<Val> = env.storage().instance().get(&Symbol::new(env, name));
    raw?.try_into_val(env).ok()
}

/// `soroban_sdk::storage::Instance::set` with the symbol `name` as key and
/// a `u64` as value: the key holds `value` afterwards and no other key
/// changes. A symbol is no pair, so no product and no step is touched.
#[verifier::external_body]
pub(crate) fn write_counter(env: &mut soroban_sdk::Env, name: &str, value: u64)
    requires
        in_contract(*old(env)),
        is_symbol_text(name@),
    ensures
        stored_counters(*final(env)) == stored_counters(*old(env)).insert(name@, value),
        stored_products(*final(env)) == stored_products(*old(env)),
        stored_steps(*final(env)) == stored_steps(*old(env)),
        in_contract(*final(env)),
        host_of(*final(env)) == host_of(*old(env)),
        retention_of(*final(env)) == retention_of(*old(env)),
{
    env.storage().instance().set(&Symbol::new(env, name), &value)
}

/// `soroban_sdk::storage::Instance::get` with the pair of the symbol `tag`
/// and `id` as key, asked for the raw value, which is then taken apart as a
/// map of fields: the stored product, or `None` where the key is absent or
/// holds something else. The strings of the product are held by the host
/// behind `env`.
#[verifier::external_body]
pub(crate) fn read_product(env: &soroban_sdk::Env, tag: &str, id: u64) -> (r: Option<Product>)
    requires
        in_contract(*env),
        is_symbol_text(tag@),
    ensures
        r is Some <==> stored_products(*env).contains_key((tag@, id)),
        r is Some ==> r->0@ == stored_products(*env)[(tag@, id)] && r->0.held_by(*env),
{
    let raw: Option<Val> = env.storage().instance().get(&(Symbol::new(env, tag), id));
    let fields: soroban_sdk::Map<Symbol, Val> = raw?.try_into_val(env).ok()?;
    let field = |name: &str| fields.get(Symbol::new(env, name));
    Some(Product {
        product_id: field("product_id")?.try_into_val(env).ok()?,
        name: field("name")?.try_into_val(env).ok()?,
        manufacturer: field("manufacturer")?.try_into_val(env).ok()?,
        current_location: field("current_location")?.try_into_val(env).ok()?,
        status: field("status")?.try_into_val(env).ok()?,
        timestamp: field("timestamp")?.try_into_val(env).ok()?,
    })
}

/// `soroban_sdk::storage::Instance::set` with the pair of the symbol `tag`
/// and `id` as key and, as value, the map of the product's six fields under
/// their names (`soroban_sdk::Map::from_array`): the key holds `product`
/// afterwards, so it holds no step, and no other key changes.
#[verifier::external_body]
pub(crate) fn write_product(env: &mut soroban_sdk::Env, tag: &str, id: u64, product: &Product)
    requires
        in_contract(*old(env)),
        is_symbol_text(tag@),
        product.held_by(*old(env)),
    ensures
        stored_products(*final(env)) == stored_products(*old(env)).insert((tag@, id), product@),
        stored_steps(*final(env)) == stored_steps(*old(env)).remove((tag@, id)),
        stored_counters(*final(env)) == stored_counters(*old(env)),
        in_contract(*final(env)),
        host_of(*final(env)) == host_of(*old(env)),
        retention_of(*final(env)) == retention_of(*old(env)),
{
    let fields = soroban_sdk::Map::<Symbol, Val>::from_array(env, [
        (Symbol::new(env, "product_id"), product.product_id.into_val(env)),
        (Symbol::new(env, "name"), product.name.to_val()),
        (Symbol::new(env, "manufacturer"), product.manufacturer.to_val()),
        (Symbol::new(env, "current_location"), product.current_location.to_val()),
        (Symbol::new(env, "status"), product.status.to_val()),
        (Symbol::new(env, "timestamp"), product.timestamp.into_val(env)),
    ]);
    env.storage().instance().set(&(Symbol::new(env, tag), id), &fields)
}

/// `soroban_sdk::storage::Instance::set` with the pair of the symbol `tag`
/// and `id` as key and, as value, the map of the step's six fields under
/// their names (`soroban_sdk::Map::from_array`): the key holds `step`
/// afterwards, so it holds no product, and no other key changes.
#[verifier::external_body]
pub(crate) fn write_step(env: &mut soroban_sdk::Env, tag: &str, id: u64, step: &SupplyStep)
    requires
        in_contract(*old(env)),
        is_symbol_text(tag@),
        step.held_by(*old(env)),
    ensures
        stored_steps(*final(env)) == stored_steps(*old(env)).insert((tag@, id), step@),
        stored_products(*final(env)) == stored_products(*old(env)).remove((tag@, id)),
        stored_counters(*final(env)) == stored_counters(*old(env)),
        in_contract(*final(env)),
        host_of(*final(env)) == host_of(*old(env)),
        retention_of(*final(env)) == retention_of(*old(env)),
{
    let fields = soroban_sdk::Map::<Symbol, Val>::from_array(env, [
        (Symbol::new(env, "step_id"), step.step_id.into_val(env)),
        (Symbol::new(env, "product_id"), step.product_id.into_val(env)),
        (Symbol::new(env, "location"), step.location.to_val()),
        (Symbol::new(env, "handler"), step.handler.to_val()),
        (Symbol::new(env, "timestamp"), step.timestamp.into_val(env)),
        (Symbol::new(env, "notes"), step.notes.to_val()),
    ]);
    env.storage().instance().set(&(Symbol::new(env, tag), id), &fields)
}

/// `soroban_sdk::storage::Instance::extend_ttl`: where the contract
/// instance is kept for no more than `threshold` further ledgers, the host
/// keeps it until `extend_to` ledgers from now, or until the last ledger the
/// network allows if that comes first. It does the same for the entry of
/// the contract's code, of which nothing is said here. What is stored does
/// not change.
/// The host rejects a threshold above `extend_to`, an instance that is no
/// longer kept, and a network whose last allowed ledger has no sequence
/// number; hosts of older protocols reject an `extend_to` that leads past
/// the last sequence number.
#[verifier::external_body]
pub(crate) fn extend_retention(env: &mut soroban_sdk::Env, threshold: u32, extend_to: u32)
    requires
        in_contract(*old(env)),
        threshold <= extend_to,
        retention_of(*old(env)).is_live(),
        retention_of(*old(env)).has_limit(),
        retention_of(*old(env)).fits(extend_to),
    ensures
        retention_of(*final(env)) == retention_of(*old(env)).extended(threshold, extend_to),
        stored_counters(*final(env)) == stored_counters(*old(env)),
        stored_products(*final(env)) == stored_products(*old(env)),
        stored_steps(*final(env)) == stored_steps(*old(env)),
        in_contract(*final(env)),
        host_of(*final(env)) == host_of(*old(env)),
{
    env.storage().instance().extend_ttl(threshold, extend_to)
}

} // verus!
