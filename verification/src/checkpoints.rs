//! The two tables of the checkpoint protocol: the checkpoints that the subnet
//! has committed, by epoch, and the votes that are waiting for a quorum, by
//! the content address of the checkpoint they are for.
//!
//! Both are hash-array-mapped tries of `fvm_ipld_hamt`, as the stake table
//! is, each over a block store of its own in memory. A trie holds values that
//! it can encode: a checkpoint lies in it as the tuple of its fields, the
//! votes as the list of the voters' IDs. This module states what the
//! operations of the tries do to the entries.

use fvm_ipld_blockstore::MemoryBlockstore;
use fvm_ipld_hamt::{BytesKey, Hamt};
use vstd::prelude::*;

use crate::error::StateError;
use crate::ledger::HAMT_BIT_WIDTH;
use crate::types::{Address, ChainEpoch, Checkpoint, CheckpointView, Cid, SubnetID, Votes};

verus! {

/// The committed checkpoints, at most one for an epoch: a trie from the
/// bytes of an epoch to the fields of a checkpoint.
///
/// The type of the trie lies in a private module of its crate, where a
/// declaration cannot reach it; so the trie is held here, unseen by the verifier.
#[verifier::external_body]
pub struct Checkpoints {
    hamt: Hamt<MemoryBlockstore, (Vec<u64>, i64, Vec<u8>, Vec<u8>, Vec<u8>, Vec<u8>)>,
}

/// The entries of the table of checkpoints: for each epoch that has one, its
/// checkpoint.
pub uninterp spec fn committed(t: Checkpoints) -> Map<ChainEpoch, CheckpointView>;

/// Whether the table refuses to look up the epoch. Whether a lookup fails
/// depends on the table and the key alone: the trie and its store are in
/// memory and belong to the table.
pub uninterp spec fn lookup_rejects(t: Checkpoints, epoch: ChainEpoch) -> bool;

/// Whether the table refuses to write a checkpoint for the epoch. Whether a
/// write fails depends on the table and the key alone.
pub uninterp spec fn commit_rejects(t: Checkpoints, epoch: ChainEpoch) -> bool;

/// The entries of a table without checkpoints.
pub open spec fn no_checkpoints() -> Map<ChainEpoch, CheckpointView> {
    Map::empty()
}

impl View for Checkpoints {
    type V = Map<ChainEpoch, CheckpointView>;

    open spec fn view(&self) -> Map<ChainEpoch, CheckpointView> {
        committed(*self)
    }
}

/// `Hamt::new_with_bit_width` over a new `MemoryBlockstore`: a trie without
/// entries. Where a node's index is one to eight bits wide, the trie refuses
/// no lookup and no write: its root has no child to go down into.
#[verifier::external_body]
fn commits_new(bit_width: u32) -> (t: Checkpoints)
    ensures
        committed(t) == no_checkpoints(),
        1 <= bit_width <= 8 ==> t.accepts_all(),
{
    Checkpoints { hamt: Hamt::new_with_bit_width(MemoryBlockstore::default(), bit_width) }
}

/// `Hamt::get` under the key of the epoch: where it succeeds, the checkpoint
/// made of the fields of the entry, or `None` where the epoch has no entry.
/// The key of an epoch is its eight bytes, which no two epochs share. It
/// fails where the table refuses the lookup, and nowhere else.
#[verifier::external_body]
fn commits_get(t: &Checkpoints, epoch: ChainEpoch) -> (r: Result<
    Option<Checkpoint>,
    fvm_ipld_hamt::Error,
>)
    ensures
        match r {
            Ok(Some(ch)) => committed(*t).contains_key(epoch) && committed(*t)[epoch] == ch@,
            Ok(None) => !committed(*t).contains_key(epoch),
            Err(_) => true,
        },
        r is Err <==> lookup_rejects(*t, epoch),
{
    let key = BytesKey::from(epoch.to_ne_bytes().to_vec());
    Ok(t.hamt.get(&key)?.map(|f| Checkpoint {
        source: SubnetID { route: f.0.iter().map(|id| Address { id: *id }).collect() },
        epoch: f.1,
        prev_check: Cid { bytes: f.2.clone() },
        payload: f.3.clone(),
        cid: Cid { bytes: f.4.clone() },
        signature: f.5.clone(),
    }))
}

/// `Hamt::set` of the fields of the checkpoint under the key of its epoch,
/// which is the eight bytes of the epoch: where it succeeds, the entry of the
/// epoch holds the checkpoint and the other entries are as they were. It
/// fails where the table refuses the write, and nowhere else; where it fails
/// nothing is known of the table.
#[verifier::external_body]
fn commits_set(t: &mut Checkpoints, ch: Checkpoint) -> (r: Result<(), fvm_ipld_hamt::Error>)
    ensures
        r is Ok ==> committed(*final(t)) == committed(*old(t)).insert(ch.epoch, ch@),
        r is Err <==> commit_rejects(*old(t), ch.epoch),
{
    let key = BytesKey::from(ch.epoch.to_ne_bytes().to_vec());
    let route: Vec<u64> = ch.source.route.iter().map(|a| a.id).collect();
    let fields = (route, ch.epoch, ch.prev_check.bytes, ch.payload, ch.cid.bytes, ch.signature);
    t.hamt.set(key, fields)?;
    Ok(())
}

impl Checkpoints {
    /// Whether the table refuses no lookup and no write, whatever the epoch.
    pub open spec fn accepts_all(self) -> bool {
        forall|e: ChainEpoch|
            #![trigger lookup_rejects(self, e)]
            #![trigger commit_rejects(self, e)]
            !lookup_rejects(self, e) && !commit_rejects(self, e)
    }

    /// The table without checkpoints, which refuses no lookup and no write.
    pub fn new() -> (t: Checkpoints)
        ensures
            t@ == Map::<ChainEpoch, CheckpointView>::empty(),
            t.accepts_all(),
    {
        commits_new(HAMT_BIT_WIDTH)
    }

    /// The checkpoint of an epoch: `None` where the epoch has none. The
    /// lookup fails where the table refuses it, and nowhere else.
    pub fn get(&self, epoch: ChainEpoch) -> (r: Result<Option<Checkpoint>, StateError>)
        ensures
            match r {
                Ok(Some(ch)) => self@.contains_key(epoch) && self@[epoch] == ch@,
                Ok(None) => !self@.contains_key(epoch),
                Err(e) => e == StateError::Store,
            },
            r is Err <==> lookup_rejects(*self, epoch),
    {
        match commits_get(self, epoch) {
            Ok(found) => Ok(found),
            Err(_) => Err(StateError::Store),
        }
    }

    /// Puts a checkpoint under its epoch, in place of the one that the epoch
    /// had, if it had one. The write fails where the table refuses it, and
    /// nowhere else; where it fails nothing is known of the entries.
    pub fn insert(&mut self, ch: Checkpoint) -> (r: Result<(), StateError>)
        ensures
            match r {
                Ok(()) => final(self)@ == old(self)@.insert(ch.epoch, ch@),
                Err(e) => e == StateError::Store,
            },
            r is Err <==> commit_rejects(*old(self), ch.epoch),
    {
        match commits_set(self, ch) {
            Ok(()) => Ok(()),
            Err(_) => Err(StateError::Store),
        }
    }
}

/// The votes that wait for a quorum: a trie from the bytes of the content
/// address of a checkpoint to the IDs of those who have voted for it.
///
/// The trie is held unseen by the verifier, as that of the checkpoints is.
#[verifier::external_body]
pub struct WindowChecks {
    hamt: Hamt<MemoryBlockstore, Vec<u64>>,
}

/// The entries of the table of votes: for each content address that has a
/// row, the voters in the order of their votes.
pub uninterp spec fn pending(t: WindowChecks) -> Map<Seq<u8>, Seq<Address>>;

/// Whether the table refuses to look up the content address. Whether a
/// lookup fails depends on the table and the key alone.
pub uninterp spec fn row_get_rejects(t: WindowChecks, cid: Seq<u8>) -> bool;

/// Whether the table refuses to write a row for the content address. Whether
/// a write fails depends on the table and the key alone.
pub uninterp spec fn row_set_rejects(t: WindowChecks, cid: Seq<u8>) -> bool;

/// Whether the table refuses to take out the row of the content address.
/// Whether a removal fails depends on the table and the key alone.
pub uninterp spec fn row_delete_rejects(t: WindowChecks, cid: Seq<u8>) -> bool;

/// The entries of a table without votes.
pub open spec fn no_votes() -> Map<Seq<u8>, Seq<Address>> {
    Map::empty()
}

impl View for WindowChecks {
    type V = Map<Seq<u8>, Seq<Address>>;

    open spec fn view(&self) -> Map<Seq<u8>, Seq<Address>> {
        pending(*self)
    }
}

/// `Hamt::new_with_bit_width` over a new `MemoryBlockstore`: a trie without
/// entries. Where a node's index is one to eight bits wide, the trie refuses
/// no lookup, no write and no removal: its root has no child to go down into.
#[verifier::external_body]
fn rows_new(bit_width: u32) -> (t: WindowChecks)
    ensures
        pending(t) == no_votes(),
        1 <= bit_width <= 8 ==> t.accepts_all(),
{
    WindowChecks { hamt: Hamt::new_with_bit_width(MemoryBlockstore::default(), bit_width) }
}

/// `Hamt::get` under the bytes of the content address: where it succeeds,
/// the voters of the row, or `None` where the content address has no row. It
/// fails where the table refuses the lookup, and nowhere else.
#[verifier::external_body]
fn rows_get(t: &WindowChecks, cid: &Cid) -> (r: Result<Option<Votes>, fvm_ipld_hamt::Error>)
    ensures
        match r {
            Ok(Some(v)) => pending(*t).contains_key(cid@) && pending(*t)[cid@] == v@,
            Ok(None) => !pending(*t).contains_key(cid@),
            Err(_) => true,
        },
        r is Err <==> row_get_rejects(*t, cid@),
{
    let key = BytesKey::from(cid.bytes.clone());
    Ok(t.hamt.get(&key)?.map(|ids| Votes {
        validators: ids.iter().map(|id| Address { id: *id }).collect(),
    }))
}

/// `Hamt::set` of the voters' IDs under the bytes of the content address:
/// where it succeeds, the row of the content address holds the voters and the
/// other rows are as they were. It fails where the table refuses the write,
/// and nowhere else; where it fails nothing is known of the table.
#[verifier::external_body]
fn rows_set(t: &mut WindowChecks, cid: &Cid, votes: Votes) -> (r: Result<
    (),
    fvm_ipld_hamt::Error,
>)
    ensures
        r is Ok ==> pending(*final(t)) == pending(*old(t)).insert(cid@, votes@),
        r is Err <==> row_set_rejects(*old(t), cid@),
{
    let key = BytesKey::from(cid.bytes.clone());
    let ids: Vec<u64> = votes.validators.iter().map(|a| a.id).collect();
    t.hamt.set(key, ids)?;
    Ok(())
}

/// `Hamt::delete` under the bytes of the content address: where it succeeds,
/// the content address has no row and the other rows are as they were,
/// whether it had a row or not. It fails where the table refuses the removal,
/// and nowhere else; where it fails nothing is known of the table.
#[verifier::external_body]
fn rows_delete(t: &mut WindowChecks, cid: &Cid) -> (r: Result<(), fvm_ipld_hamt::Error>)
    ensures
        r is Ok ==> pending(*final(t)) == pending(*old(t)).remove(cid@),
        r is Err <==> row_delete_rejects(*old(t), cid@),
{
    let key = BytesKey::from(cid.bytes.clone());
    t.hamt.delete(&key)?;
    Ok(())
}

impl WindowChecks {
    /// Whether the table refuses no lookup, no write and no removal,
    /// whatever the content address.
    pub open spec fn accepts_all(self) -> bool {
        forall|c: Seq<u8>|
            #![trigger row_get_rejects(self, c)]
            #![trigger row_set_rejects(self, c)]
            #![trigger row_delete_rejects(self, c)]
            !row_get_rejects(self, c) && !row_set_rejects(self, c) && !row_delete_rejects(
                self,
                c,
            )
    }

    /// The table without votes, which refuses nothing.
    pub fn new() -> (t: WindowChecks)
        ensures
            t@ == Map::<Seq<u8>, Seq<Address>>::empty(),
            t.accepts_all(),
    {
        rows_new(HAMT_BIT_WIDTH)
    }

    /// The votes for a checkpoint: `None` where it has no row. The lookup
    /// fails where the table refuses it, and nowhere else.
    pub fn get(&self, cid: &Cid) -> (r: Result<Option<Votes>, StateError>)
        ensures
            match r {
                Ok(Some(v)) => self@.contains_key(cid@) && self@[cid@] == v@,
                Ok(None) => !self@.contains_key(cid@),
                Err(e) => e == StateError::Store,
            },
            r is Err <==> row_get_rejects(*self, cid@),
    {
        match rows_get(self, cid) {
            Ok(found) => Ok(found),
            Err(_) => Err(StateError::Store),
        }
    }

    /// Writes the votes for a checkpoint, in place of those that it had. The
    /// write fails where the table refuses it, and nowhere else; where it
    /// fails nothing is known of the rows.
    pub fn set(&mut self, cid: &Cid, votes: Votes) -> (r: Result<(), StateError>)
        ensures
            match r {
                Ok(()) => final(self)@ == old(self)@.insert(cid@, votes@),
                Err(e) => e == StateError::Store,
            },
            r is Err <==> row_set_rejects(*old(self), cid@),
    {
        match rows_set(self, cid, votes) {
            Ok(()) => Ok(()),
            Err(_) => Err(StateError::Store),
        }
    }

    /// Takes out the votes for a checkpoint, if it has any. The removal
    /// fails where the table refuses it, and nowhere else; where it fails
    /// nothing is known of the rows.
    pub fn delete(&mut self, cid: &Cid) -> (r: Result<(), StateError>)
        ensures
            match r {
                Ok(()) => final(self)@ == old(self)@.remove(cid@),
                Err(e) => e == StateError::Store,
            },
            r is Err <==> row_delete_rejects(*old(self), cid@),
    {
        match rows_delete(self, cid) {
            Ok(()) => Ok(()),
            Err(_) => Err(StateError::Store),
        }
    }
}

} // verus!
