//! The checkpointed key-value store: committed storage under a stack of
//! checkpoints that can be reverted or committed.

use vstd::prelude::*;

use crate::addressing::AddressView;
use crate::addressing::NeutronShortAddress;
use crate::bytes::bytes_equal;
use crate::bytes::copy_bytes;
use crate::callstack::add_gas;
use crate::callstack::gas_minus;
use crate::callstack::gas_plus;
use crate::callstack::gas_times;
use crate::callstack::mul_gas;
use crate::callstack::sub_gas;
use crate::callstack::bytes_result_is;
use crate::callstack::CallStackView;
use crate::callstack::ContractCallStack;
use crate::callstack::GasSchedule;
use crate::neutronerror::NeutronError;
use crate::neutronerror::RecoverableError;
use crate::neutronerror::UnrecoverableError;
use crate::syscall_interfaces::storage::GLOBAL_STORAGE_FEATURE;

verus! {

/// The space byte of the state that contracts keep for themselves (`'_'`).
pub const NEUTRONDB_USER_SPACE: u8 = 0x5F;

/// The costs that the store charges under the storage feature.
#[derive(Clone, Copy, Debug, PartialEq, Eq, Structural)]
pub enum DBGasCost {
    ReadUncached,
    ReadUncachedByte,
    ReadCachedByte,
    WriteUncached,
    WriteUncachedByte,
    WriteKeyByte,
    WriteCached,
    WriteCachedByte,
    RefundUncachedByte,
    RefundCachedByte,
}

impl DBGasCost {
    /// The identifier of the cost within the storage feature.
    pub open spec fn spec_id(self) -> u32 {
        match self {
            DBGasCost::ReadUncached => 1,
            DBGasCost::ReadUncachedByte => 2,
            DBGasCost::ReadCachedByte => 3,
            DBGasCost::WriteUncached => 4,
            DBGasCost::WriteUncachedByte => 5,
            DBGasCost::WriteKeyByte => 6,
            DBGasCost::WriteCached => 7,
            DBGasCost::WriteCachedByte => 8,
            DBGasCost::RefundUncachedByte => 9,
            DBGasCost::RefundCachedByte => 10,
        }
    }

    /// The identifier of the cost within the storage feature.
    #[verifier::when_used_as_spec(spec_id)]
    pub fn id(self) -> (n: u32)
        ensures
            n == self.spec_id(),
    {
        match self {
            DBGasCost::ReadUncached => 1,
            DBGasCost::ReadUncachedByte => 2,
            DBGasCost::ReadCachedByte => 3,
            DBGasCost::WriteUncached => 4,
            DBGasCost::WriteUncachedByte => 5,
            DBGasCost::WriteKeyByte => 6,
            DBGasCost::WriteCached => 7,
            DBGasCost::WriteCachedByte => 8,
            DBGasCost::RefundUncachedByte => 9,
            DBGasCost::RefundCachedByte => 10,
        }
    }
}

/// The cost in force on `stack` for one of the store's costs.
pub open spec fn db_cost(stack: CallStackView, which: DBGasCost) -> i64 {
    stack.cost(GLOBAL_STORAGE_FEATURE, which.spec_id())
}

/// The charge for reading `size` bytes that the current checkpoint does
/// not hold.
pub open spec fn read_uncached_charge(stack: CallStackView, size: nat) -> i64 {
    gas_plus(
        db_cost(stack, DBGasCost::ReadUncached),
        gas_times(db_cost(stack, DBGasCost::ReadUncachedByte), size),
    )
}

/// The charge for reading `size` bytes that the current checkpoint holds.
pub open spec fn read_cached_charge(stack: CallStackView, size: nat) -> i64 {
    gas_times(db_cost(stack, DBGasCost::ReadCachedByte), size)
}

/// The charge for writing a key that the current checkpoint does not hold.
pub open spec fn write_uncached_charge(
    stack: CallStackView,
    key_size: nat,
    value_size: nat,
    old_size: nat,
) -> i64 {
    gas_minus(
        gas_plus(
            gas_plus(
                db_cost(stack, DBGasCost::WriteUncached),
                gas_times(db_cost(stack, DBGasCost::WriteUncachedByte), value_size),
            ),
            gas_times(db_cost(stack, DBGasCost::WriteKeyByte), key_size),
        ),
        gas_times(db_cost(stack, DBGasCost::RefundUncachedByte), old_size),
    )
}

/// The charge for writing a key that the current checkpoint holds.
pub open spec fn write_cached_charge(stack: CallStackView, value_size: nat, old_size: nat) -> i64 {
    gas_minus(
        gas_plus(
            db_cost(stack, DBGasCost::WriteCached),
            gas_times(db_cost(stack, DBGasCost::WriteCachedByte), value_size),
        ),
        gas_times(db_cost(stack, DBGasCost::RefundCachedByte), old_size),
    )
}

fn gas_cost<S: GasSchedule>(stack: &ContractCallStack<S>, which: DBGasCost) -> (c: i64)
    ensures
        c == db_cost(stack@, which),
{
    stack.gas_cost(GLOBAL_STORAGE_FEATURE, which.id())
}

/// Computes `read_uncached_charge`.
pub fn gas_cost_read_uncached<S: GasSchedule>(stack: &ContractCallStack<S>, size: usize) -> (c: i64)
    ensures
        c == read_uncached_charge(stack@, size as nat),
{
    add_gas(
        gas_cost(stack, DBGasCost::ReadUncached),
        mul_gas(gas_cost(stack, DBGasCost::ReadUncachedByte), size),
    )
}

/// Computes `read_cached_charge`.
pub fn gas_cost_read_cached<S: GasSchedule>(stack: &ContractCallStack<S>, size: usize) -> (c: i64)
    ensures
        c == read_cached_charge(stack@, size as nat),
{
    mul_gas(gas_cost(stack, DBGasCost::ReadCachedByte), size)
}

/// Computes `write_uncached_charge`.
pub fn gas_cost_write_uncached<S: GasSchedule>(
    stack: &ContractCallStack<S>,
    key_size: usize,
    value_size: usize,
    old_size: usize,
) -> (c: i64)
    ensures
        c == write_uncached_charge(stack@, key_size as nat, value_size as nat, old_size as nat),
{
    sub_gas(
        add_gas(
            add_gas(
                gas_cost(stack, DBGasCost::WriteUncached),
                mul_gas(gas_cost(stack, DBGasCost::WriteUncachedByte), value_size),
            ),
            mul_gas(gas_cost(stack, DBGasCost::WriteKeyByte), key_size),
        ),
        mul_gas(gas_cost(stack, DBGasCost::RefundUncachedByte), old_size),
    )
}

/// Computes `write_cached_charge`.
pub fn gas_cost_write_cached<S: GasSchedule>(
    stack: &ContractCallStack<S>,
    value_size: usize,
    old_size: usize,
) -> (c: i64)
    ensures
        c == write_cached_charge(stack@, value_size as nat, old_size as nat),
{
    sub_gas(
        add_gas(
            gas_cost(stack, DBGasCost::WriteCached),
            mul_gas(gas_cost(stack, DBGasCost::WriteCachedByte), value_size),
        ),
        mul_gas(gas_cost(stack, DBGasCost::RefundCachedByte), old_size),
    )
}

/// What a value of the store is kept under: a short address and a key.
pub struct StateKey {
    pub address: AddressView,
    pub key: Seq<u8>,
}

/// One layer of the store: the values that it holds, by key.
pub type LayerView = Map<StateKey, Seq<u8>>;

#[derive(Debug)]
struct StateEntry {
    address: NeutronShortAddress,
    key: Vec<u8>,
    value: Vec<u8>,
}

impl StateEntry {
    spec fn state_key(self) -> StateKey {
        StateKey { address: self.address@, key: self.key@ }
    }
}

spec fn holds(entries: Seq<StateEntry>, k: StateKey) -> bool {
    exists|i: int| 0 <= i < entries.len() && (#[trigger] entries[i]).state_key() == k
}

spec fn position(entries: Seq<StateEntry>, k: StateKey) -> int {
    choose|i: int| 0 <= i < entries.len() && (#[trigger] entries[i]).state_key() == k
}

spec fn entries_map(entries: Seq<StateEntry>) -> LayerView {
    Map::new(|k: StateKey| holds(entries, k), |k: StateKey| entries[position(entries, k)].value@)
}

spec fn distinct(entries: Seq<StateEntry>) -> bool {
    forall|i: int, j: int|
        0 <= i < j < entries.len() ==> (#[trigger] entries[i]).state_key() != (
        #[trigger] entries[j]).state_key()
}

proof fn lemma_entry(entries: Seq<StateEntry>, i: int)
    requires
        distinct(entries),
        0 <= i < entries.len(),
    ensures
        entries_map(entries).contains_key(entries[i].state_key()),
        entries_map(entries)[entries[i].state_key()] == entries[i].value@,
{
    let k = entries[i].state_key();
    assert(holds(entries, k));
    let p = position(entries, k);
    assert(p == i) by {
        if p < i {
            assert(entries[p].state_key() != entries[i].state_key());
        } else if i < p {
            assert(entries[i].state_key() != entries[p].state_key());
        }
    }
}

proof fn lemma_pushed(entries: Seq<StateEntry>, e: StateEntry)
    requires
        distinct(entries),
        !holds(entries, e.state_key()),
    ensures
        distinct(entries.push(e)),
        entries_map(entries.push(e)) == entries_map(entries).insert(e.state_key(), e.value@),
{
    let after = entries.push(e);
    assert forall|i: int, j: int| 0 <= i < j < after.len() implies (#[trigger] after[i]).state_key()
        != (#[trigger] after[j]).state_key() by {
        if j == entries.len() {
            assert(after[i] == entries[i]);
            if entries[i].state_key() == e.state_key() {
                assert(holds(entries, e.state_key()));
            }
        } else {
            assert(after[i] == entries[i]);
            assert(after[j] == entries[j]);
        }
    }
    let want = entries_map(entries).insert(e.state_key(), e.value@);
    assert forall|k: StateKey| #[trigger] entries_map(after).contains_key(k) <==> want.contains_key(
        k,
    ) by {
        if holds(after, k) {
            let p = position(after, k);
            if p < entries.len() {
                assert(entries[p].state_key() == k);
            }
        }
        if holds(entries, k) {
            let p = position(entries, k);
            assert(after[p].state_key() == k);
        }
        if k == e.state_key() {
            assert(after[entries.len() as int].state_key() == k);
        }
    }
    assert forall|k: StateKey| #[trigger] entries_map(after).contains_key(k) implies entries_map(
        after,
    )[k] == want[k] by {
        let p = position(after, k);
        lemma_entry(after, p);
        if p < entries.len() {
            assert(after[p] == entries[p]);
            lemma_entry(entries, p);
        }
    }
    assert(entries_map(after) =~= want);
}

proof fn lemma_updated(entries: Seq<StateEntry>, i: int, e: StateEntry)
    requires
        distinct(entries),
        0 <= i < entries.len(),
        e.state_key() == entries[i].state_key(),
    ensures
        distinct(entries.update(i, e)),
        entries_map(entries.update(i, e)) == entries_map(entries).insert(e.state_key(), e.value@),
{
    let after = entries.update(i, e);
    assert forall|a: int, b: int| 0 <= a < b < after.len() implies (#[trigger] after[a]).state_key()
        != (#[trigger] after[b]).state_key() by {
        assert(after[a].state_key() == entries[a].state_key());
        assert(after[b].state_key() == entries[b].state_key());
    }
    let want = entries_map(entries).insert(e.state_key(), e.value@);
    assert forall|k: StateKey| #[trigger] entries_map(after).contains_key(k) <==> want.contains_key(
        k,
    ) by {
        if holds(after, k) {
            let p = position(after, k);
            assert(entries[p].state_key() == k);
        }
        if holds(entries, k) {
            let p = position(entries, k);
            assert(after[p].state_key() == k);
        }
        if k == e.state_key() {
            assert(after[i].state_key() == k);
        }
    }
    assert forall|k: StateKey| #[trigger] entries_map(after).contains_key(k) implies entries_map(
        after,
    )[k] == want[k] by {
        let p = position(after, k);
        lemma_entry(after, p);
        if p != i {
            assert(after[p] == entries[p]);
            lemma_entry(entries, p);
        }
    }
    assert(entries_map(after) =~= want);
}

/// One layer of the store. No key occurs twice in it.
#[derive(Debug)]
struct Layer {
    entries: Vec<StateEntry>,
}

impl View for Layer {
    type V = LayerView;

    closed spec fn view(&self) -> LayerView {
        entries_map(self.entries@)
    }
}

impl Clone for Layer {
    fn clone(&self) -> (copy: Layer)
        ensures
            copy@ == self@,
    {
        self.duplicate()
    }
}

impl Layer {
    #[verifier::type_invariant]
    spec fn keys_distinct(self) -> bool {
        distinct(self.entries@)
    }

    fn new() -> (layer: Layer)
        ensures
            layer@ == LayerView::empty(),
    {
        let layer = Layer { entries: Vec::new() };
        assert(layer@ =~= LayerView::empty());
        layer
    }

    fn duplicate(&self) -> (copy: Layer)
        ensures
            copy@ == self@,
    {
        let mut copy = Layer::new();
        copy.absorb(self);
        assert(copy@ =~= self@);
        copy
    }

    fn find(&self, address: &NeutronShortAddress, key: &[u8]) -> (found: Option<usize>)
        ensures
            match found {
                Some(i) => {
                    &&& i < self.entries@.len()
                    &&& self.entries@[i as int].state_key() == (StateKey {
                        address: address@,
                        key: key@,
                    })
                },
                None => !holds(self.entries@, StateKey { address: address@, key: key@ }),
            },
    {
        let ghost k = StateKey { address: address@, key: key@ };
        let mut i: usize = 0;
        while i < self.entries.len()
            invariant
                i <= self.entries@.len(),
                k == (StateKey { address: address@, key: key@ }),
                forall|j: int| 0 <= j < i ==> (#[trigger] self.entries@[j]).state_key() != k,
            decreases self.entries.len() - i,
        {
            let entry = &self.entries[i];
            if entry.address.same(address) && bytes_equal(entry.key.as_slice(), key) {
                return Some(i);
            }
            i += 1;
        }
        None
    }

    /// The value that the layer holds under the key, if any.
    fn get(&self, address: &NeutronShortAddress, key: &[u8]) -> (value: Option<&Vec<u8>>)
        ensures
            match value {
                Some(v) => {
                    &&& self@.contains_key(StateKey { address: address@, key: key@ })
                    &&& self@[StateKey { address: address@, key: key@ }] == v@
                },
                None => !self@.contains_key(StateKey { address: address@, key: key@ }),
            },
    {
        proof {
            use_type_invariant(self);
        }
        match self.find(address, key) {
            Some(i) => {
                proof {
                    lemma_entry(self.entries@, i as int);
                }
                Some(&self.entries[i].value)
            },
            None => None,
        }
    }

    /// Sets the value under the key; the other keys stay.
    fn put(&mut self, address: &NeutronShortAddress, key: &[u8], value: &[u8])
        ensures
            final(self)@ == old(self)@.insert(StateKey { address: address@, key: key@ }, value@),
    {
        proof {
            use_type_invariant(&*self);
        }
        let found = self.find(address, key);
        let entry = StateEntry { address: *address, key: copy_bytes(key), value: copy_bytes(value) };
        let mut entries: Vec<StateEntry> = Vec::new();
        core::mem::swap(&mut self.entries, &mut entries);
        match found {
            Some(i) => {
                proof {
                    lemma_updated(entries@, i as int, entry);
                }
                entries[i] = entry;
            },
            None => {
                proof {
                    lemma_pushed(entries@, entry);
                }
                entries.push(entry);
            },
        }
        core::mem::swap(&mut self.entries, &mut entries);
    }

    /// Takes over every value of `other`; where both hold a key, that of
    /// `other` wins.
    fn absorb(&mut self, other: &Layer)
        ensures
            final(self)@ == old(self)@.union_prefer_right(other@),
    {
        proof {
            use_type_invariant(other);
        }
        let mut j: usize = 0;
        assert(entries_map(other.entries@.subrange(0, 0)) =~= LayerView::empty());
        assert(self@ =~= old(self)@.union_prefer_right(LayerView::empty()));
        while j < other.entries.len()
            invariant
                j <= other.entries@.len(),
                distinct(other.entries@),
                self@ == old(self)@.union_prefer_right(
                    entries_map(other.entries@.subrange(0, j as int)),
                ),
            decreases other.entries.len() - j,
        {
            let entry = &other.entries[j];
            let ghost head = other.entries@.subrange(0, j as int);
            let ghost before = self@;
            proof {
                assert(distinct(head)) by {
                    assert forall|a: int, b: int| 0 <= a < b < head.len() implies (
                    #[trigger] head[a]).state_key() != (#[trigger] head[b]).state_key() by {
                        assert(head[a] == other.entries@[a]);
                        assert(head[b] == other.entries@[b]);
                    }
                }
                assert(!holds(head, entry.state_key())) by {
                    if holds(head, entry.state_key()) {
                        let p = position(head, entry.state_key());
                        assert(head[p] == other.entries@[p]);
                        assert(other.entries@[p].state_key() != other.entries@[j as int].state_key());
                    }
                }
                lemma_pushed(head, *entry);
                assert(head.push(*entry) =~= other.entries@.subrange(0, j + 1));
            }
            self.put(&entry.address, entry.key.as_slice(), entry.value.as_slice());
            assert(self@ =~= old(self)@.union_prefer_right(
                entries_map(other.entries@.subrange(0, j + 1)),
            ));
            j += 1;
        }
        assert(other.entries@.subrange(0, other.entries@.len() as int) =~= other.entries@);
    }
}

/// What a store is: the committed storage, and the checkpoints from the
/// oldest to the current one.
#[verifier::ext_equal]
pub struct DbView {
    pub storage: LayerView,
    pub checkpoints: Seq<LayerView>,
}

/// The value under `k` in the topmost of `layers` that holds the key.
pub open spec fn find_in_layers(layers: Seq<LayerView>, k: StateKey) -> Option<Seq<u8>>
    decreases layers.len(),
{
    if layers.len() == 0 {
        None
    } else if layers.last().contains_key(k) {
        Some(layers.last()[k])
    } else {
        find_in_layers(layers.drop_last(), k)
    }
}

/// All of `layers` merged into one; where several hold a key, the value of
/// the topmost wins.
pub open spec fn flatten(layers: Seq<LayerView>) -> LayerView
    decreases layers.len(),
{
    if layers.len() == 0 {
        LayerView::empty()
    } else {
        flatten(layers.drop_last()).union_prefer_right(layers.last())
    }
}

impl DbView {
    /// The value that a read of `k` finds: that of the topmost checkpoint
    /// that holds the key, else that of the committed storage.
    pub open spec fn lookup(self, k: StateKey) -> Option<Seq<u8>> {
        match find_in_layers(self.checkpoints, k) {
            Some(v) => Some(v),
            None => self.storage.get(k),
        }
    }

    /// Whether the current checkpoint holds `k`.
    pub open spec fn cached(self, k: StateKey) -> bool {
        self.checkpoints.len() > 0 && self.checkpoints.last().contains_key(k)
    }

    /// The store with a new, empty checkpoint on top.
    pub open spec fn checkpointed(self) -> DbView {
        DbView { checkpoints: self.checkpoints.push(LayerView::empty()), ..self }
    }

    /// The store without its current checkpoint.
    pub open spec fn reverted(self) -> DbView {
        DbView { checkpoints: self.checkpoints.drop_last(), ..self }
    }

    /// The store with all its checkpoints merged into a single one.
    pub open spec fn collapsed(self) -> DbView {
        DbView { checkpoints: seq![flatten(self.checkpoints)], ..self }
    }

    /// The store without checkpoints; the committed storage stays.
    pub open spec fn cleared(self) -> DbView {
        DbView { checkpoints: Seq::empty(), ..self }
    }

    /// The store after a commit: what the checkpoints hold is merged into
    /// the committed storage key by key, and no checkpoint is left.
    pub open spec fn committed(self) -> DbView {
        DbView {
            storage: self.storage.union_prefer_right(flatten(self.checkpoints)),
            checkpoints: Seq::empty(),
        }
    }

    /// The store with `v` under `k` in the current checkpoint.
    pub open spec fn with_value(self, k: StateKey, v: Seq<u8>) -> DbView {
        DbView {
            checkpoints: self.checkpoints.update(
                self.checkpoints.len() - 1,
                self.checkpoints.last().insert(k, v),
            ),
            ..self
        }
    }

    /// The charge for reading `k`, which holds `v`.
    pub open spec fn read_charge(self, stack: CallStackView, k: StateKey, v: Seq<u8>) -> i64 {
        if self.cached(k) {
            read_cached_charge(stack, v.len())
        } else {
            read_uncached_charge(stack, v.len())
        }
    }

    /// The charge for writing `v` under `k`.
    pub open spec fn write_charge(self, stack: CallStackView, k: StateKey, v: Seq<u8>) -> i64 {
        if self.cached(k) {
            write_cached_charge(stack, v.len(), self.checkpoints.last()[k].len())
        } else {
            write_uncached_charge(stack, k.key.len(), v.len(), 0)
        }
    }

    /// What reading `k` does to the call stack and what it returns: a key
    /// that nothing holds fails and charges nothing; else the read is
    /// charged, and the value is returned unless the gas ran out.
    pub open spec fn read(self, stack: CallStackView, k: StateKey) -> (
        CallStackView,
        Result<Seq<u8>, NeutronError>,
    ) {
        match self.lookup(k) {
            None => (stack, Err(NeutronError::Unrecoverable(UnrecoverableError::StateOutOfRent))),
            Some(v) => {
                let charged = stack.charge(self.read_charge(stack, k, v));
                if charged.out_of_gas() {
                    (charged, Err(NeutronError::Recoverable(RecoverableError::OutOfGas)))
                } else {
                    (charged, Ok(v))
                }
            },
        }
    }

    /// What writing `v` under `k` does to the store and to the call stack,
    /// and what it returns: without a checkpoint it fails and nothing
    /// changes; else the write is charged, and the value is in the current
    /// checkpoint unless the gas ran out.
    pub open spec fn write(self, stack: CallStackView, k: StateKey, v: Seq<u8>) -> (
        DbView,
        CallStackView,
        Result<(), NeutronError>,
    ) {
        if self.checkpoints.len() == 0 {
            (
                self,
                stack,
                Err(NeutronError::Unrecoverable(UnrecoverableError::DatabaseWritingError)),
            )
        } else {
            let charged = stack.charge(self.write_charge(stack, k, v));
            if charged.out_of_gas() {
                (self, charged, Err(NeutronError::Recoverable(RecoverableError::OutOfGas)))
            } else {
                (self.with_value(k, v), charged, Ok(()))
            }
        }
    }
}

/// A store of contract state that can be checkpointed.
pub trait NeutronDB {
    fn read_key<S: GasSchedule>(
        &mut self,
        stack: &mut ContractCallStack<S>,
        address: &NeutronShortAddress,
        key: &[u8],
    ) -> Result<Vec<u8>, NeutronError>;

    fn write_key<S: GasSchedule>(
        &mut self,
        stack: &mut ContractCallStack<S>,
        address: &NeutronShortAddress,
        key: &[u8],
        value: &[u8],
    ) -> Result<(), NeutronError>;

    /// Creates a checkpoint to which the state can be reverted, and returns
    /// the number of checkpoints.
    fn checkpoint(&mut self) -> Result<u32, NeutronError>;

    /// Collapses all checkpoints into a single one.
    fn collapse_checkpoints(&mut self) -> Result<(), NeutronError>;

    /// Discards what was written since the last checkpoint, and returns the
    /// number of checkpoints that are left.
    fn revert_checkpoint(&mut self) -> Result<u32, NeutronError>;

    fn clear_checkpoints(&mut self);

    /// Commits all checkpoints to the storage.
    fn commit(&mut self) -> Result<(), NeutronError>;
}

spec fn layer_views(layers: Seq<Layer>) -> Seq<LayerView> {
    Seq::new(layers.len(), |i: int| layers[i]@)
}

/// The store kept in memory.
#[derive(Debug)]
pub struct ProtoDB {
    storage: Layer,
    checkpoints: Vec<Layer>,
}

impl View for ProtoDB {
    type V = DbView;

    closed spec fn view(&self) -> DbView {
        DbView { storage: self.storage@, checkpoints: layer_views(self.checkpoints@) }
    }
}

impl Default for ProtoDB {
    fn default() -> (db: ProtoDB)
        ensures
            db@.storage == LayerView::empty(),
            db@.checkpoints.len() == 0,
    {
        ProtoDB { storage: Layer::new(), checkpoints: Vec::new() }
    }
}

impl Clone for ProtoDB {
    fn clone(&self) -> (copy: ProtoDB)
        ensures
            copy@ == self@,
    {
        let mut checkpoints: Vec<Layer> = Vec::new();
        let mut i: usize = 0;
        while i < self.checkpoints.len()
            invariant
                i <= self.checkpoints@.len(),
                checkpoints@.len() == i,
                forall|j: int| 0 <= j < i ==> (#[trigger] checkpoints@[j])@ == self.checkpoints@[j]@,
            decreases self.checkpoints.len() - i,
        {
            let layer = self.checkpoints[i].duplicate();
            checkpoints.push(layer);
            i += 1;
        }
        let copy = ProtoDB { storage: self.storage.duplicate(), checkpoints };
        assert(copy@.checkpoints =~= self@.checkpoints);
        copy
    }
}

impl NeutronDB for ProtoDB {
    fn read_key<S: GasSchedule>(
        &mut self,
        stack: &mut ContractCallStack<S>,
        address: &NeutronShortAddress,
        key: &[u8],
    ) -> (r: Result<Vec<u8>, NeutronError>)
        ensures
            final(self)@ == old(self)@,
            final(stack)@ == old(self)@.read(
                old(stack)@,
                StateKey { address: address@, key: key@ },
            ).0,
            bytes_result_is(
                r,
                old(self)@.read(old(stack)@, StateKey { address: address@, key: key@ }).1,
            ),
    {
        let ghost k = StateKey { address: address@, key: key@ };
        let ghost layers = self@.checkpoints;
        let n = self.checkpoints.len();
        let mut i: usize = n;
        assert(layers.subrange(0, n as int) =~= layers);
        while i > 0
            invariant
                i <= n,
                n == self.checkpoints@.len(),
                *self == *old(self),
                *stack == *old(stack),
                layers == self@.checkpoints,
                k == (StateKey { address: address@, key: key@ }),
                find_in_layers(layers, k) == find_in_layers(layers.subrange(0, i as int), k),
                i < n ==> !layers.last().contains_key(k),
            decreases i,
        {
            let ghost head = layers.subrange(0, i as int);
            assert(head.last() == layers[i - 1]);
            assert(head.drop_last() =~= layers.subrange(0, i - 1));
            match self.checkpoints[i - 1].get(address, key) {
                Some(v) => {
                    let value = copy_bytes(v.as_slice());
                    let cost = if i == n {
                        gas_cost_read_cached(stack, value.len())
                    } else {
                        gas_cost_read_uncached(stack, value.len())
                    };
                    stack.charge_gas(cost)?;
                    return Ok(value);
                },
                None => {},
            }
            i -= 1;
        }
        assert(layers.subrange(0, 0).len() == 0);
        match self.storage.get(address, key) {
            Some(v) => {
                let value = copy_bytes(v.as_slice());
                let cost = gas_cost_read_uncached(stack, value.len());
                stack.charge_gas(cost)?;
                Ok(value)
            },
            None => Err(NeutronError::Unrecoverable(UnrecoverableError::StateOutOfRent)),
        }
    }

    fn write_key<S: GasSchedule>(
        &mut self,
        stack: &mut ContractCallStack<S>,
        address: &NeutronShortAddress,
        key: &[u8],
        value: &[u8],
    ) -> (r: Result<(), NeutronError>)
        ensures
            final(self)@ == old(self)@.write(
                old(stack)@,
                StateKey { address: address@, key: key@ },
                value@,
            ).0,
            final(stack)@ == old(self)@.write(
                old(stack)@,
                StateKey { address: address@, key: key@ },
                value@,
            ).1,
            r == old(self)@.write(
                old(stack)@,
                StateKey { address: address@, key: key@ },
                value@,
            ).2,
    {
        let n = self.checkpoints.len();
        if n == 0 {
            return Err(NeutronError::Unrecoverable(UnrecoverableError::DatabaseWritingError));
        }
        let cost = match self.checkpoints[n - 1].get(address, key) {
            Some(old_value) => gas_cost_write_cached(stack, value.len(), old_value.len()),
            None => gas_cost_write_uncached(stack, key.len(), value.len(), 0),
        };
        stack.charge_gas(cost)?;
        let ghost before = self@;
        let mut top = self.checkpoints.pop().unwrap();
        top.put(address, key, value);
        self.checkpoints.push(top);
        assert(self@.checkpoints =~= before.checkpoints.update(
            n - 1,
            before.checkpoints.last().insert(StateKey { address: address@, key: key@ }, value@),
        ));
        Ok(())
    }

    fn checkpoint(&mut self) -> (r: Result<u32, NeutronError>)
        ensures
            final(self)@ == old(self)@.checkpointed(),
            r == Ok::<u32, NeutronError>(final(self)@.checkpoints.len() as u32),
    {
        let ghost before = self@;
        self.checkpoints.push(Layer::new());
        assert(self@.checkpoints =~= before.checkpoints.push(LayerView::empty()));
        Ok(self.checkpoints.len() as u32)
    }

    fn revert_checkpoint(&mut self) -> (r: Result<u32, NeutronError>)
        ensures
            old(self)@.checkpoints.len() == 0 ==> final(self)@ == old(self)@ && r == Err::<
                u32,
                NeutronError,
            >(NeutronError::Unrecoverable(UnrecoverableError::DatabaseCommitError)),
            old(self)@.checkpoints.len() > 0 ==> final(self)@ == old(self)@.reverted() && r == Ok::<
                u32,
                NeutronError,
            >(final(self)@.checkpoints.len() as u32),
    {
        let ghost before = self@;
        match self.checkpoints.pop() {
            None => Err(NeutronError::Unrecoverable(UnrecoverableError::DatabaseCommitError)),
            Some(_) => {
                assert(self@.checkpoints =~= before.checkpoints.drop_last());
                Ok(self.checkpoints.len() as u32)
            },
        }
    }

    fn collapse_checkpoints(&mut self) -> (r: Result<(), NeutronError>)
        ensures
            r is Ok,
            final(self)@ == old(self)@.collapsed(),
    {
        let ghost layers = self@.checkpoints;
        let mut merged = Layer::new();
        let mut i: usize = 0;
        while i < self.checkpoints.len()
            invariant
                i <= self.checkpoints@.len(),
                *self == *old(self),
                layers == self@.checkpoints,
                merged@ == flatten(layers.subrange(0, i as int)),
            decreases self.checkpoints.len() - i,
        {
            let ghost head = layers.subrange(0, i + 1);
            assert(head.last() == layers[i as int]);
            assert(head.drop_last() =~= layers.subrange(0, i as int));
            merged.absorb(&self.checkpoints[i]);
            i += 1;
        }
        assert(layers.subrange(0, layers.len() as int) =~= layers);
        self.checkpoints.clear();
        self.checkpoints.push(merged);
        assert(self@.checkpoints =~= seq![flatten(layers)]);
        Ok(())
    }

    fn commit(&mut self) -> (r: Result<(), NeutronError>)
        ensures
            r is Ok,
            final(self)@ == old(self)@.committed(),
    {
        let ghost before = self@;
        let _ = self.collapse_checkpoints();
        assert(self@.checkpoints.len() == 1);
        assert(self@.checkpoints[0] == flatten(before.checkpoints));
        assert(self.checkpoints@[0]@ == self@.checkpoints[0]);
        let merged = self.checkpoints.pop().unwrap();
        self.storage.absorb(&merged);
        self.clear_checkpoints();
        Ok(())
    }

    fn clear_checkpoints(&mut self)
        ensures
            final(self)@ == old(self)@.cleared(),
    {
        self.checkpoints.clear();
        assert(self@.checkpoints =~= Seq::<LayerView>::empty());
    }
}

impl DbView {
    /// The store with each of `writes` set in the current checkpoint, in
    /// order.
    pub open spec fn with_values(self, writes: Seq<(StateKey, Seq<u8>)>) -> DbView
        decreases writes.len(),
    {
        if writes.len() == 0 {
            self
        } else {
            self.with_values(writes.drop_last()).with_value(writes.last().0, writes.last().1)
        }
    }
}

/// What the layers hold merged is what a search from the top finds.
pub proof fn lemma_flatten_finds(layers: Seq<LayerView>, k: StateKey)
    ensures
        flatten(layers).get(k) == find_in_layers(layers, k),
    decreases layers.len(),
{
    if layers.len() > 0 {
        lemma_flatten_finds(layers.drop_last(), k);
    }
}

/// With a checkpoint open, a value that was written is the value that is
/// read.
pub proof fn lemma_read_after_write(db: DbView, stack: CallStackView, k: StateKey, v: Seq<u8>)
    requires
        db.checkpoints.len() > 0,
    ensures
        db.with_value(k, v).lookup(k) == Some(v),
        db.write(stack, k, v).2 is Ok ==> db.write(stack, k, v).0.lookup(k) == Some(v),
        db.write(stack, k, v).2 is Ok ==> (db.write(stack, k, v).0.read(
            db.write(stack, k, v).1,
            k,
        ).1 matches Ok(found) ==> found == v),
        db.write(stack, k, v).2 is Ok ==> (db.write(stack, k, v).0.read(
            db.write(stack, k, v).1,
            k,
        ).1 matches Err(e) ==> e == NeutronError::Recoverable(RecoverableError::OutOfGas)),
{
}

/// Of two writes to the same key in the same checkpoint the second wins,
/// and a write leaves every other key as it was.
pub proof fn lemma_second_write_wins(
    db: DbView,
    k: StateKey,
    first: Seq<u8>,
    second: Seq<u8>,
    other: StateKey,
)
    requires
        db.checkpoints.len() > 0,
    ensures
        db.with_value(k, first).with_value(k, second) == db.with_value(k, second),
        db.with_value(k, first).with_value(k, second).lookup(k) == Some(second),
        other != k ==> db.with_value(k, first).lookup(other) == db.lookup(other),
{
    let once = db.with_value(k, first);
    let twice = once.with_value(k, second);
    let direct = db.with_value(k, second);
    assert(twice.checkpoints.last() =~= direct.checkpoints.last());
    assert(twice.checkpoints =~= direct.checkpoints);
    assert(twice =~= direct);
    assert(once.checkpoints.drop_last() =~= db.checkpoints.drop_last());
}

/// Writes touch the current checkpoint only.
pub proof fn lemma_writes_stay_in_checkpoint(db: DbView, writes: Seq<(StateKey, Seq<u8>)>)
    requires
        db.checkpoints.len() > 0,
    ensures
        db.with_values(writes).storage == db.storage,
        db.with_values(writes).checkpoints.len() == db.checkpoints.len(),
        db.with_values(writes).checkpoints.drop_last() == db.checkpoints.drop_last(),
    decreases writes.len(),
{
    if writes.len() > 0 {
        lemma_writes_stay_in_checkpoint(db, writes.drop_last());
        let before = db.with_values(writes.drop_last());
        let after = db.with_values(writes);
        assert(after.checkpoints.drop_last() =~= before.checkpoints.drop_last());
    }
}

/// A checkpoint, any writes and a revert leave the store as it was before
/// the checkpoint, so that every key reads as it did then.
pub proof fn lemma_revert_restores(db: DbView, writes: Seq<(StateKey, Seq<u8>)>, k: StateKey)
    ensures
        db.checkpointed().with_values(writes).reverted() == db,
        db.checkpointed().with_values(writes).reverted().lookup(k) == db.lookup(k),
{
    let opened = db.checkpointed();
    lemma_writes_stay_in_checkpoint(opened, writes);
    assert(opened.checkpoints.drop_last() =~= db.checkpoints);
    assert(opened.with_values(writes).reverted() =~= db);
}

/// A revert discards the current checkpoint and nothing else.
pub proof fn lemma_revert_one_write(db: DbView, stack: CallStackView, k: StateKey, v: Seq<u8>)
    ensures
        db.checkpointed().write(stack, k, v).0.reverted() == db,
{
    let opened = db.checkpointed();
    assert(opened.checkpoints.drop_last() =~= db.checkpoints);
    assert(opened.with_value(k, v).checkpoints.drop_last() =~= db.checkpoints);
    assert(opened.write(stack, k, v).0.reverted() =~= db);
}

/// A commit after a collapse is the commit, and a collapse changes nothing
/// of a single checkpoint nor of a store that was collapsed.
pub proof fn lemma_collapse(db: DbView)
    ensures
        db.collapsed().committed() == db.committed(),
        db.checkpoints.len() == 1 ==> db.collapsed() == db,
        db.collapsed().collapsed() == db.collapsed(),
{
    let once = db.collapsed();
    assert(once.checkpoints.drop_last() =~= Seq::<LayerView>::empty());
    assert(flatten(once.checkpoints) =~= flatten(db.checkpoints)) by {
        assert(flatten(once.checkpoints.drop_last()) =~= LayerView::empty());
    }
    assert(once.committed() =~= db.committed());
    assert(once.collapsed() =~= once);
    if db.checkpoints.len() == 1 {
        assert(db.checkpoints.drop_last() =~= Seq::<LayerView>::empty());
        assert(flatten(db.checkpoints) =~= db.checkpoints[0]);
        assert(once.checkpoints =~= db.checkpoints);
        assert(once =~= db);
    }
}

/// A commit keeps every read: a key that a checkpoint held is in the
/// storage with its latest value, and a key that no checkpoint held is
/// what it was in the storage.
pub proof fn lemma_commit_merges(db: DbView, k: StateKey)
    ensures
        db.committed().lookup(k) == db.lookup(k),
        db.committed().storage.get(k) == db.lookup(k),
        find_in_layers(db.checkpoints, k) is None ==> db.committed().storage.get(k)
            == db.storage.get(k),
        db.committed().checkpoints.len() == 0,
{
    lemma_flatten_finds(db.checkpoints, k);
}

/// A revert without a checkpoint fails and changes nothing; the same holds
/// of a write.
pub proof fn lemma_nothing_without_checkpoint(
    db: DbView,
    stack: CallStackView,
    k: StateKey,
    v: Seq<u8>,
)
    requires
        db.checkpoints.len() == 0,
    ensures
        db.write(stack, k, v) == (
            db,
            stack,
            Err::<(), NeutronError>(
                NeutronError::Unrecoverable(UnrecoverableError::DatabaseWritingError),
            ),
        ),
        db.lookup(k) == db.storage.get(k),
        db.lookup(k) is None ==> db.read(stack, k) == (
            stack,
            Err::<Seq<u8>, NeutronError>(
                NeutronError::Unrecoverable(UnrecoverableError::StateOutOfRent),
            ),
        ),
{
}

} // verus!
