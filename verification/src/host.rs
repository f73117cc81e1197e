//! The host's types and the few host calls that the ledger makes.
//!
//! Nothing in this file is proved. Each contract restates what the Soroban
//! SDK documents for the one call that the body makes; the ledger's proofs
//! rest on them.
//!
//! `Address` and `Symbol` are opaque here. Of two of them the ledger only asks
//! whether they are equal, and that is what `==` means for them in every
//! contract of this crate. The SDK compares them by what they stand for, also
//! where they come from two environments.
//!
//! A host vector or map takes handles of its own `Env` only. So each function
//! below that puts an `Address` or a `Symbol` into one, or looks one up,
//! first brings it into the `Env` of the vector or map: it is turned into its
//! `ScVal` and that into a value of that `Env`, which stands for the same
//! address or label.
//!
//! A host that has used up its budget ends the whole invocation, as a machine
//! that has used up its memory does; no contract speaks of that.

use soroban_sdk::xdr::ScVal;
use soroban_sdk::{Address, Env, Symbol, TryFromVal};
use vstd::prelude::*;

verus! {

/// The host environment.
#[verifier::external_type_specification]
#[verifier::external_body]
pub struct ExEnv(Env);

/// The identity of an account or a contract.
#[verifier::external_type_specification]
#[verifier::external_body]
pub struct ExAddress(Address);

/// A short label.
#[verifier::external_type_specification]
#[verifier::external_body]
pub struct ExSymbol(Symbol);

/// A map that the host keeps.
#[verifier::external_type_specification]
#[verifier::external_body]
#[verifier::reject_recursive_types(K)]
#[verifier::reject_recursive_types(V)]
pub struct ExHostMap<K, V>(soroban_sdk::Map<K, V>);

/// A vector that the host keeps.
#[verifier::external_type_specification]
#[verifier::external_body]
#[verifier::reject_recursive_types(T)]
pub struct ExHostVec<T>(soroban_sdk::Vec<T>);

/// One record as the host keeps it: donor, amount, category, region,
/// organization, time of recording, whether delivery is confirmed, and the
/// delivery token.
pub type Row = (Address, i128, Symbol, Symbol, Symbol, u64, bool, Option<Symbol>);

/// What a host vector of rows holds: its entries in order, each as the row
/// that it is, or as `None` where what the host holds in that place is no
/// row.
pub uninterp spec fn rows(v: soroban_sdk::Vec<Row>) -> Seq<Option<Row>>;

/// What a host map from labels to counts holds: each label under which an
/// `i128` is stored, with that number.
pub uninterp spec fn tally(m: soroban_sdk::Map<Symbol, i128>) -> Map<Symbol, int>;

/// `Symbol::eq`. Symbols compare by their characters, so the answer is `true`
/// exactly for two symbols that are the same label.
#[verifier::external_body]
pub(crate) fn same_symbol(a: &Symbol, b: &Symbol) -> (r: bool)
    ensures
        r == (*a == *b),
{
    a == b
}

/// `Address::eq`. Addresses compare by the account or contract they name, so
/// the answer is `true` exactly for two addresses that are the same.
#[verifier::external_body]
pub(crate) fn same_address(a: &Address, b: &Address) -> (r: bool)
    ensures
        r == (*a == *b),
{
    a == b
}

/// `Symbol::clone`. The copy is the same label.
#[verifier::external_body]
pub(crate) fn copy_symbol(s: &Symbol) -> (r: Symbol)
    ensures
        r == *s,
{
    s.clone()
}

/// `Address::clone`. The copy is the same address.
#[verifier::external_body]
pub(crate) fn copy_address(a: &Address) -> (r: Address)
    ensures
        r == *a,
{
    a.clone()
}

/// `Ledger::timestamp`, on `Env::ledger`: the close time of the ledger that
/// the host is working on, in seconds. Nothing is claimed of the number.
#[verifier::external_body]
pub(crate) fn ledger_time(env: &Env) -> (now: u64) {
    env.ledger().timestamp()
}

/// `Map::new`. The new map has no entry.
#[verifier::external_body]
pub(crate) fn empty_counts(env: &Env) -> (r: soroban_sdk::Map<Symbol, i128>)
    ensures
        forall|label: Symbol| !tally(r).contains_key(label),
{
    soroban_sdk::Map::new(env)
}

/// `Map::try_get`, with `label` brought into the map's `Env`. The answer is
/// the number stored under `label`, or `None` where nothing is stored under
/// it. Where the host holds something under the label that is no `i128`,
/// `try_get` reports an error, and that is answered with `None` too: `tally`
/// has no entry for such a label.
#[verifier::external_body]
pub(crate) fn count_of(m: &soroban_sdk::Map<Symbol, i128>, label: &Symbol) -> (r: Option<i128>)
    ensures
        r.is_some() == tally(*m).contains_key(*label),
        r.is_some() ==> r.unwrap() == tally(*m)[*label],
{
    let key = Symbol::try_from_val(m.env(), &ScVal::from(label)).unwrap();
    match m.try_get(key) {
        Ok(found) => found,
        Err(_) => None,
    }
}

/// `Map::set`, with `label` brought into the map's `Env`. Afterwards `count`
/// is stored under `label`, in place of what was stored there before, and
/// every other entry is as it was.
#[verifier::external_body]
pub(crate) fn set_count(m: &mut soroban_sdk::Map<Symbol, i128>, label: Symbol, count: i128)
    ensures
        tally(*final(m)) == tally(*old(m)).insert(label, count as int),
{
    let key = Symbol::try_from_val(m.env(), &ScVal::from(&label)).unwrap();
    m.set(key, count)
}

/// `Map::clone`. The copy holds the same entries.
#[verifier::external_body]
pub(crate) fn copy_counts(m: &soroban_sdk::Map<Symbol, i128>) -> (r: soroban_sdk::Map<Symbol, i128>)
    ensures
        tally(r) == tally(*m),
{
    m.clone()
}

/// `Vec::new`. The new vector has no entry.
#[verifier::external_body]
pub(crate) fn no_rows(env: &Env) -> (r: soroban_sdk::Vec<Row>)
    ensures
        rows(r).len() == 0,
{
    soroban_sdk::Vec::new(env)
}

/// `Vec::len`. The number of entries.
#[verifier::external_body]
pub(crate) fn row_count(v: &soroban_sdk::Vec<Row>) -> (n: u32)
    ensures
        n == rows(*v).len(),
{
    v.len()
}

/// `Vec::try_get`, for a position that holds a row or that the vector does
/// not have. The answer is the row at position `i`, or `None` where the
/// vector has no such position. An entry that is no row is left out: on some
/// of them `try_get` reports an error, on others it panics.
#[verifier::external_body]
pub(crate) fn row_at(v: &soroban_sdk::Vec<Row>, i: u32) -> (r: Option<Row>)
    requires
        i < rows(*v).len() ==> rows(*v)[i as int].is_some(),
    ensures
        r == (if i < rows(*v).len() {
            rows(*v)[i as int]
        } else {
            None
        }),
{
    match v.try_get(i) {
        Ok(found) => found,
        Err(_) => None,
    }
}

/// `Vec::push_back`, with the address and the labels of `row` brought into
/// the vector's `Env`. Afterwards the vector is one entry longer, `row`
/// stands in the last position, and every other entry is where it was. A host
/// vector holds fewer than 2^32 entries.
#[verifier::external_body]
pub(crate) fn add_row(v: &mut soroban_sdk::Vec<Row>, row: Row)
    requires
        rows(*old(v)).len() < u32::MAX,
    ensures
        rows(*final(v)) == rows(*old(v)).push(Some(row)),
{
    let e = v.env().clone();
    let donor = Address::try_from_val(&e, &ScVal::from(&row.0)).unwrap();
    let category = Symbol::try_from_val(&e, &ScVal::from(&row.2)).unwrap();
    let region = Symbol::try_from_val(&e, &ScVal::from(&row.3)).unwrap();
    let organization = Symbol::try_from_val(&e, &ScVal::from(&row.4)).unwrap();
    let token = row.7.map(|t| Symbol::try_from_val(&e, &ScVal::from(&t)).unwrap());
    v.push_back((donor, row.1, category, region, organization, row.5, row.6, token))
}

/// `Vec::set`, which panics for a position that the vector does not have,
/// with the address and the labels of `row` brought into the vector's `Env`.
/// Afterwards `row` stands at position `i`, and every other entry is as it
/// was.
#[verifier::external_body]
pub(crate) fn put_row(v: &mut soroban_sdk::Vec<Row>, i: u32, row: Row)
    requires
        i < rows(*old(v)).len(),
    ensures
        rows(*final(v)) == rows(*old(v)).update(i as int, Some(row)),
{
    let e = v.env().clone();
    let donor = Address::try_from_val(&e, &ScVal::from(&row.0)).unwrap();
    let category = Symbol::try_from_val(&e, &ScVal::from(&row.2)).unwrap();
    let region = Symbol::try_from_val(&e, &ScVal::from(&row.3)).unwrap();
    let organization = Symbol::try_from_val(&e, &ScVal::from(&row.4)).unwrap();
    let token = row.7.map(|t| Symbol::try_from_val(&e, &ScVal::from(&t)).unwrap());
    v.set(i, (donor, row.1, category, region, organization, row.5, row.6, token))
}

} // verus!
