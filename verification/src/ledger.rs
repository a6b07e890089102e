//! The stake table: what each address has put up as collateral.
//!
//! The table is a hash-array-mapped trie of `fvm_ipld_hamt`, keyed by the byte
//! form of the address, over a block store of its own in memory. The trie is
//! that crate's: this module states what its operations do to the entries.

use fvm_ipld_blockstore::MemoryBlockstore;
use fvm_ipld_hamt::{BytesKey, Hamt};
use fvm_shared::econ::TokenAmount;
use vstd::prelude::*;

use crate::amount::atto;
use crate::error::StateError;
use crate::types::Address;

verus! {

/// `fvm_ipld_hamt::Error`: why an operation on the trie failed. Nothing is
/// known of a value.
#[verifier::external_type_specification]
#[verifier::external_body]
pub struct ExHamtError(fvm_ipld_hamt::Error);

/// The width, in bits, of the index of a node of the trie.
pub const HAMT_BIT_WIDTH: u32 = 5;

/// A trie from addresses to token amounts.
///
/// The type of the trie lies in a private module of its crate, where a
/// declaration cannot reach it; so the trie is held here, unseen by the verifier.
#[verifier::external_body]
pub struct StakeTable {
    hamt: Hamt<MemoryBlockstore, TokenAmount>,
}

/// The entries of the table: for each address that has one, the number of
/// indivisible units of its amount.
pub uninterp spec fn entries(t: StakeTable) -> Map<Address, int>;

/// Whether the table refuses to look up the address. Whether a lookup fails
/// depends on the table and the key alone: the trie and its store are in
/// memory and belong to the table.
pub uninterp spec fn get_rejects(t: StakeTable, a: Address) -> bool;

/// Whether the table refuses to write an entry for the address. Whether a
/// write fails depends on the table and the key alone.
pub uninterp spec fn set_rejects(t: StakeTable, a: Address) -> bool;

/// Whether the table refuses no lookup and no write, whatever the address.
pub open spec fn accepts_all(t: StakeTable) -> bool {
    forall|a: Address|
        #![trigger get_rejects(t, a)]
        #![trigger set_rejects(t, a)]
        !get_rejects(t, a) && !set_rejects(t, a)
}

/// The entries of a table that has none.
pub open spec fn no_entries() -> Map<Address, int> {
    Map::empty()
}

impl View for StakeTable {
    type V = Map<Address, int>;

    open spec fn view(&self) -> Map<Address, int> {
        entries(*self)
    }
}

/// `Hamt::new_with_bit_width` over a new `MemoryBlockstore`: a trie without
/// entries. Where a node's index is one to eight bits wide, the trie refuses
/// no lookup and no write: its root has no child to go down into.
#[verifier::external_body]
fn table_new(bit_width: u32) -> (t: StakeTable)
    ensures
        entries(t) == no_entries(),
        1 <= bit_width <= 8 ==> accepts_all(t),
{
    StakeTable { hamt: Hamt::new_with_bit_width(MemoryBlockstore::default(), bit_width) }
}

/// `Hamt::get` under the key of the address: where it succeeds, a copy of the
/// amount of the entry, or `None` where the address has no entry. The key of
/// an address is the byte form of the ID address, which no two IDs share. It
/// fails where the table refuses the lookup, and nowhere else.
#[verifier::external_body]
fn table_get(t: &StakeTable, addr: &Address) -> (r: Result<
    Option<TokenAmount>,
    fvm_ipld_hamt::Error,
>)
    ensures
        match r {
            Ok(Some(v)) => entries(*t).contains_key(*addr) && entries(*t)[*addr] == atto(v),
            Ok(None) => !entries(*t).contains_key(*addr),
            Err(_) => true,
        },
        r is Err <==> get_rejects(*t, *addr),
{
    let key = BytesKey::from(fvm_shared::address::Address::new_id(addr.id).to_bytes());
    Ok(t.hamt.get(&key)?.cloned())
}

/// `Hamt::set` under the key of the address, which is the byte form of the
/// ID address: where it succeeds, the entry of the address holds the amount
/// and the other entries are as they were. It fails where the table refuses
/// the write, and nowhere else; where it fails nothing is known of the table.
#[verifier::external_body]
fn table_set(t: &mut StakeTable, addr: &Address, amount: TokenAmount) -> (r: Result<
    (),
    fvm_ipld_hamt::Error,
>)
    ensures
        r is Ok ==> entries(*final(t)) == entries(*old(t)).insert(*addr, atto(amount)),
        r is Err <==> set_rejects(*old(t), *addr),
{
    let key = BytesKey::from(fvm_shared::address::Address::new_id(addr.id).to_bytes());
    t.hamt.set(key, amount)?;
    Ok(())
}

impl StakeTable {
    /// The table without entries, which refuses no lookup and no write.
    pub fn new() -> (t: StakeTable)
        ensures
            t@ == Map::<Address, int>::empty(),
            accepts_all(t),
    {
        table_new(HAMT_BIT_WIDTH)
    }

    /// The stake of an address: `None` where the address has no entry. The
    /// lookup fails where the table refuses it, and nowhere else.
    pub fn get(&self, addr: &Address) -> (r: Result<Option<TokenAmount>, StateError>)
        ensures
            match r {
                Ok(Some(v)) => self@.contains_key(*addr) && atto(v) == self@[*addr],
                Ok(None) => !self@.contains_key(*addr),
                Err(e) => e == StateError::Store,
            },
            r is Err <==> get_rejects(*self, *addr),
    {
        match table_get(self, addr) {
            Ok(found) => Ok(found),
            Err(_) => Err(StateError::Store),
        }
    }

    /// Writes the stake of an address. The write fails where the table
    /// refuses it, and nowhere else; where it fails nothing is known of the
    /// entries.
    pub fn set(&mut self, addr: &Address, amount: TokenAmount) -> (r: Result<(), StateError>)
        ensures
            match r {
                Ok(()) => final(self)@ == old(self)@.insert(*addr, atto(amount)),
                Err(e) => e == StateError::Store,
            },
            r is Err <==> set_rejects(*old(self), *addr),
    {
        match table_set(self, addr, amount) {
            Ok(()) => Ok(()),
            Err(_) => Err(StateError::Store),
        }
    }
}

} // verus!
