//! An in-memory state store: account writes kept as a journal, with
//! checkpoints that a revert goes back to.

use vstd::prelude::*;

use crate::primitives::{lemma_u256_canonical, u256_max, u256_of, zero_word, Address, B256, U256};

verus! {

/// What the store holds for one account.
#[derive(Clone, Copy, Debug, PartialEq, Eq, Structural)]
pub struct AccountInfo {
    pub balance: U256,
    pub nonce: u64,
    pub code_hash: B256,
}

/// The account of an address that was never written.
pub open spec fn empty_account() -> AccountInfo {
    AccountInfo { balance: U256 { high: 0, low: 0 }, nonce: 0, code_hash: zero_word() }
}

/// Account writes, in the order in which they are applied.
pub type Changeset = Vec<(Address, AccountInfo)>;

/// The accounts that a journal of writes leaves: the last write to an
/// address wins.
pub open spec fn accounts_of(journal: Seq<(Address, AccountInfo)>) -> Map<Address, AccountInfo>
    decreases journal.len(),
{
    if journal.len() == 0 {
        Map::empty()
    } else {
        accounts_of(journal.drop_last()).insert(journal.last().0, journal.last().1)
    }
}

/// The account that a journal gives an address, an empty one where none was
/// written.
pub open spec fn account_in(journal: Seq<(Address, AccountInfo)>, address: Address) -> AccountInfo {
    if accounts_of(journal).contains_key(address) {
        accounts_of(journal)[address]
    } else {
        empty_account()
    }
}

/// The value-level content of a [`StateStore`].
pub struct StoreModel {
    /// Every write since the store was made.
    pub journal: Seq<(Address, AccountInfo)>,
    /// Journal lengths at the open checkpoints, oldest first.
    pub checkpoints: Seq<usize>,
}

impl StoreModel {
    pub open spec fn accounts(self) -> Map<Address, AccountInfo> {
        accounts_of(self.journal)
    }

    pub open spec fn account(self, address: Address) -> AccountInfo {
        account_in(self.journal, address)
    }

    /// The store after a changeset is applied.
    pub open spec fn applied(self, changes: Seq<(Address, AccountInfo)>) -> StoreModel {
        StoreModel { journal: self.journal + changes, checkpoints: self.checkpoints }
    }

    /// The store with a checkpoint taken.
    pub open spec fn checkpointed(self) -> StoreModel {
        StoreModel { journal: self.journal, checkpoints: self.checkpoints.push(self.journal.len() as usize) }
    }

    /// The store gone back to its last checkpoint, which is closed.
    pub open spec fn reverted(self) -> StoreModel {
        StoreModel {
            journal: self.journal.subrange(0, self.checkpoints.last() as int),
            checkpoints: self.checkpoints.drop_last(),
        }
    }

    /// Checkpoints are in order and none lies past the end of the journal.
    pub open spec fn wf(self) -> bool {
        &&& forall|i: int, j: int|
            0 <= i <= j < self.checkpoints.len() ==> #[trigger] self.checkpoints[i] <= #[trigger] self.checkpoints[j]
        &&& forall|i: int| 0 <= i < self.checkpoints.len() ==> #[trigger] self.checkpoints[i] <= self.journal.len()
    }
}

/// Why the store refused an operation.
#[derive(Clone, Copy, Debug, PartialEq, Eq, Structural)]
pub enum StateError {
    /// A revert with no open checkpoint.
    NoCheckpoint,
    /// A balance would pass the largest value.
    BalanceOverflow,
}

/// Account state, with checkpoints.
#[derive(Debug)]
pub struct StateStore {
    journal: Vec<(Address, AccountInfo)>,
    checkpoints: Vec<usize>,
}

impl View for StateStore {
    type V = StoreModel;

    closed spec fn view(&self) -> StoreModel {
        StoreModel { journal: self.journal@, checkpoints: self.checkpoints@ }
    }
}

/// The last write to an address in a journal gives its account.
proof fn lemma_last_write(journal: Seq<(Address, AccountInfo)>, address: Address, i: int)
    requires
        0 <= i < journal.len(),
        journal[i].0 == address,
        forall|j: int| i < j < journal.len() ==> journal[j].0 != address,
    ensures
        accounts_of(journal).contains_key(address),
        accounts_of(journal)[address] == journal[i].1,
    decreases journal.len(),
{
    if i < journal.len() - 1 {
        lemma_last_write(journal.drop_last(), address, i);
    }
}

/// An address never written has no account in the journal.
proof fn lemma_never_written(journal: Seq<(Address, AccountInfo)>, address: Address)
    requires
        forall|j: int| 0 <= j < journal.len() ==> journal[j].0 != address,
    ensures
        !accounts_of(journal).contains_key(address),
    decreases journal.len(),
{
    if journal.len() > 0 {
        lemma_never_written(journal.drop_last(), address);
    }
}

impl StateStore {
    pub closed spec fn wf(&self) -> bool {
        self@.wf()
    }

    /// A store with no accounts and no checkpoint.
    pub fn new() -> (r: StateStore)
        ensures
            r.wf(),
            r@.journal == Seq::<(Address, AccountInfo)>::empty(),
            r@.checkpoints == Seq::<usize>::empty(),
    {
        StateStore { journal: Vec::new(), checkpoints: Vec::new() }
    }

    /// Number of open checkpoints.
    pub fn checkpoint_count(&self) -> (r: usize)
        ensures
            r == self@.checkpoints.len(),
    {
        self.checkpoints.len()
    }

    /// The account of an address, if one was ever written.
    pub fn basic(&self, address: Address) -> (r: Option<AccountInfo>)
        ensures
            r == (if self@.accounts().contains_key(address) {
                Some(self@.accounts()[address])
            } else {
                None
            }),
    {
        let mut i: usize = self.journal.len();
        while i > 0
            invariant
                i <= self.journal@.len(),
                forall|j: int| i <= j < self.journal@.len() ==> self.journal@[j].0 != address,
            decreases i,
        {
            if self.journal[i - 1].0 == address {
                proof {
                    lemma_last_write(self.journal@, address, i - 1);
                }
                return Some(self.journal[i - 1].1);
            }
            i = i - 1;
        }
        proof {
            lemma_never_written(self.journal@, address);
        }
        None
    }

    /// The balance of an address, zero where none was written.
    pub fn balance(&self, address: Address) -> (r: U256)
        ensures
            r == self@.account(address).balance,
    {
        match self.basic(address) {
            Some(info) => info.balance,
            None => U256::zero(),
        }
    }

    /// Writes one account.
    pub fn insert_account(&mut self, address: Address, info: AccountInfo)
        requires
            old(self).wf(),
        ensures
            final(self).wf(),
            final(self)@ == old(self)@.applied(seq![(address, info)]),
    {
        self.journal.push((address, info));
        proof {
            assert(self.journal@ =~= old(self).journal@ + seq![(address, info)]);
            assert(self@.checkpoints == old(self)@.checkpoints);
            assert(self@.wf());
        }
    }

    /// Applies a changeset, write by write.
    pub fn apply(&mut self, changes: &Changeset)
        requires
            old(self).wf(),
        ensures
            final(self).wf(),
            final(self)@ == old(self)@.applied(changes@),
    {
        let mut i: usize = 0;
        while i < changes.len()
            invariant
                i <= changes@.len(),
                self.wf(),
                self@ == old(self)@.applied(changes@.subrange(0, i as int)),
            decreases changes@.len() - i,
        {
            let (address, info) = changes[i];
            self.insert_account(address, info);
            proof {
                assert(changes@.subrange(0, i + 1) =~= changes@.subrange(0, i as int) + seq![(address, info)]);
                assert(old(self)@.journal + changes@.subrange(0, i as int) + seq![(address, info)]
                    =~= old(self)@.journal + changes@.subrange(0, i + 1));
            }
            i = i + 1;
        }
        proof {
            assert(changes@.subrange(0, changes@.len() as int) =~= changes@);
        }
    }

    /// Opens a checkpoint at the current state.
    pub fn checkpoint(&mut self)
        requires
            old(self).wf(),
        ensures
            final(self).wf(),
            final(self)@ == old(self)@.checkpointed(),
            final(self)@.checkpoints.last() == old(self)@.journal.len(),
    {
        let len = self.journal.len();
        self.checkpoints.push(len);
        proof {
            assert(forall|i: int| 0 <= i < old(self).checkpoints@.len() ==> #[trigger] self.checkpoints@[i] == old(self).checkpoints@[i]);
            assert(self@.checkpoints == old(self)@.checkpoints.push(len));
            assert(self@.wf());
        }
    }

    /// Goes back to the last open checkpoint and closes it.
    pub fn revert(&mut self) -> (r: Result<(), StateError>)
        requires
            old(self).wf(),
        ensures
            final(self).wf(),
            r is Err <==> old(self)@.checkpoints.len() == 0,
            r == Err::<(), StateError>(StateError::NoCheckpoint) ==> final(self)@ == old(self)@,
            r is Ok ==> final(self)@ == old(self)@.reverted(),
    {
        match self.checkpoints.pop() {
            None => Err(StateError::NoCheckpoint),
            Some(len) => {
                self.journal.truncate(len);
                proof {
                    assert(self.checkpoints@ =~= old(self)@.checkpoints.drop_last());
                    assert(self.journal@ =~= old(self)@.journal.subrange(0, len as int));
                }
                Ok(())
            },
        }
    }

    /// Adds an amount to the balance of an account, keeping its nonce and code.
    pub fn modify_account(&mut self, address: Address, amount: U256) -> (r: Result<(), StateError>)
        requires
            old(self).wf(),
        ensures
            final(self).wf(),
            r is Err <==> old(self)@.account(address).balance.value() + amount.value() > u256_max(),
            r is Err ==> r == Err::<(), StateError>(StateError::BalanceOverflow) && final(self)@ == old(self)@,
            r is Ok ==> final(self)@ == old(self)@.applied(
                seq![(address, AccountInfo {
                    balance: u256_of(old(self)@.account(address).balance.value() + amount.value()),
                    ..old(self)@.account(address)
                })],
            ),
    {
        let info = match self.basic(address) {
            Some(info) => info,
            None => AccountInfo { balance: U256::zero(), nonce: 0, code_hash: B256::zero() },
        };
        match info.balance.checked_add(amount) {
            None => Err(StateError::BalanceOverflow),
            Some(balance) => {
                proof {
                    lemma_u256_canonical(balance, info.balance.value() + amount.value());
                }
                self.insert_account(address, AccountInfo { balance, ..info });
                Ok(())
            },
        }
    }
}

/// The store after changesets are applied one after another.
pub open spec fn applied_all(m: StoreModel, changes: Seq<Seq<(Address, AccountInfo)>>) -> StoreModel
    decreases changes.len(),
{
    if changes.len() == 0 {
        m
    } else {
        applied_all(m, changes.drop_last()).applied(changes.last())
    }
}

/// Changesets applied after a checkpoint leave the checkpoints alone and
/// only extend the journal.
proof fn lemma_applied_all_extends(m: StoreModel, changes: Seq<Seq<(Address, AccountInfo)>>)
    ensures
        applied_all(m, changes).checkpoints == m.checkpoints,
        applied_all(m, changes).journal.len() >= m.journal.len(),
        applied_all(m, changes).journal.subrange(0, m.journal.len() as int) == m.journal,
    decreases changes.len(),
{
    if changes.len() > 0 {
        lemma_applied_all_extends(m, changes.drop_last());
        let prev = applied_all(m, changes.drop_last());
        assert((prev.journal + changes.last()).subrange(0, m.journal.len() as int)
            =~= prev.journal.subrange(0, m.journal.len() as int));
    }
}

/// Taking a checkpoint, applying any number of changesets and reverting
/// gives back the store as it was before the checkpoint.
pub proof fn lemma_revert_undoes_changesets(m: StoreModel, changes: Seq<Seq<(Address, AccountInfo)>>)
    requires
        m.journal.len() <= usize::MAX,
    ensures
        applied_all(m.checkpointed(), changes).reverted() == m,
{
    lemma_applied_all_extends(m.checkpointed(), changes);
    let after = applied_all(m.checkpointed(), changes);
    assert(after.checkpoints.drop_last() =~= m.checkpoints);
    assert(after.journal.subrange(0, after.checkpoints.last() as int) =~= m.journal);
}

} // verus!
