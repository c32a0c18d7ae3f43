//! Made-up accounts for tests: an identifier and the states that the account
//! goes through, all derived from one seed.

use crate::account::{
    account_id_for, account_id_from_seed, account_seed, account_seed_for, AccountId,
    AccountStorageType, AccountType,
};
use crate::digest::{as_bytes, digest_bytes, hash, rpo256, zero_elements, Digest};
use vstd::pervasive::unreached;
use vstd::prelude::*;

verus! {

/// The state with number `index` of a mock account: the first is all zeros
/// for a new account and the hash of the seed for any other; every later
/// state is the hash of the bytes of the state before it.
pub open spec fn mock_state(init_seed: Seq<u8>, new_account: bool, index: nat) -> Seq<u64>
    decreases index,
{
    if index == 0 {
        if new_account {
            zero_elements()
        } else {
            rpo256(init_seed)
        }
    } else {
        rpo256(digest_bytes(mock_state(init_seed, new_account, (index - 1) as nat)))
    }
}

/// The identifier of a mock account: that of a regular account with
/// updatable code and its state off the chain, with code and storage both
/// empty, for the seed that the ledger finds from `init_seed`.
pub open spec fn mock_account_id(init_seed: Seq<u8>) -> u64 {
    let seed = account_seed_for(
        init_seed,
        AccountType::RegularAccountUpdatableCode,
        AccountStorageType::OffChain,
        zero_elements(),
        zero_elements(),
    );
    account_id_for(seed, zero_elements(), zero_elements())->Ok_0
}

/// The seed that stands for the account with number `index`: the number's
/// four bytes, highest first, and 28 zeros.
pub open spec fn init_seed_of(index: u32) -> Seq<u8> {
    Seq::new(
        32,
        |i: int|
            if i == 0 {
                (index / 0x100_0000) as u8
            } else if i == 1 {
                (index / 0x1_0000 % 0x100) as u8
            } else if i == 2 {
                (index / 0x100 % 0x100) as u8
            } else if i == 3 {
                (index % 0x100) as u8
            } else {
                0u8
            },
    )
}

/// Two numbers that differ stand for two seeds that differ.
pub proof fn law_each_number_has_its_seed(first: u32, second: u32)
    requires
        first != second,
    ensures
        init_seed_of(first) != init_seed_of(second),
{
    if init_seed_of(first) == init_seed_of(second) {
        assert(init_seed_of(first)[0] == init_seed_of(second)[0]);
        assert(init_seed_of(first)[1] == init_seed_of(second)[1]);
        assert(init_seed_of(first)[2] == init_seed_of(second)[2]);
        assert(init_seed_of(first)[3] == init_seed_of(second)[3]);
        assert(first == second);
    }
}

/// The state with number `index` of the mock account made from `init_seed`.
pub fn derive_state(init_seed: &[u8; 32], new_account: bool, index: usize) -> (state: Digest)
    ensures
        state.elements@ == mock_state(init_seed@, new_account, index as nat),
{
    let mut state = if new_account {
        Digest::default()
    } else {
        hash(init_seed.as_slice())
    };
    let mut i: usize = 0;
    while i < index
        invariant
            i <= index,
            state.elements@ == mock_state(init_seed@, new_account, i as nat),
        decreases index - i,
    {
        let previous = as_bytes(&state);
        state = hash(previous.as_slice());
        i += 1;
    }
    state
}

/// A mock private account. It starts in state `states[0]`, is modified to
/// state `states[1]`, and so on.
#[derive(Clone, Copy, Debug)]
pub struct MockPrivateAccount<const NUM_STATES: usize> {
    pub id: AccountId,
    /// The states that the account goes through, in order.
    pub states: [Digest; NUM_STATES],
}

impl<const NUM_STATES: usize> MockPrivateAccount<NUM_STATES> {
    /// Whether this is the mock account made from `init_seed`.
    pub open spec fn is_made_from(&self, init_seed: Seq<u8>, new_account: bool) -> bool {
        &&& self.id.value == mock_account_id(init_seed)
        &&& forall|i: int|
            0 <= i < NUM_STATES ==> (#[trigger] self.states[i]).elements@ == mock_state(
                init_seed,
                new_account,
                i as nat,
            )
    }

    /// Whether this is the mock account with number `index`.
    pub open spec fn has_number(&self, index: u32) -> bool {
        self.is_made_from(init_seed_of(index), index == 0)
    }

    /// The mock account made from `init_seed`. A new account starts from
    /// the state that is all zeros; an account with no states has none to
    /// start from.
    pub fn new(init_seed: [u8; 32], new_account: bool) -> (account: Self)
        ensures
            account.is_made_from(init_seed@, new_account),
    {
        let empty = Digest::default();
        let id = match account_seed(
            init_seed,
            AccountType::RegularAccountUpdatableCode,
            AccountStorageType::OffChain,
            empty,
            empty,
        ) {
            Ok(seed) => match account_id_from_seed(seed, empty, empty) {
                Ok(id) => id,
                Err(_) => unreached(),
            },
            Err(_) => unreached(),
        };
        let mut states = [empty;NUM_STATES];
        if !new_account && NUM_STATES > 0 {
            states[0] = hash(init_seed.as_slice());
        }
        let mut idx: usize = 1;
        while idx < NUM_STATES
            invariant
                1 <= idx,
                forall|i: int|
                    0 <= i < idx && i < NUM_STATES ==> (#[trigger] states[i]).elements@
                        == mock_state(init_seed@, new_account, i as nat),
            decreases NUM_STATES - idx,
        {
            let previous = as_bytes(&states[idx - 1]);
            states[idx] = hash(previous.as_slice());
            idx += 1;
        }
        MockPrivateAccount { id, states }
    }

    /// The mock account with number `index`. Each number has a seed of its
    /// own; number 0 stands for a new account.
    pub fn from_index(index: u32) -> (account: Self)
        ensures
            account.has_number(index),
    {
        let mut init_seed = [0u8;32];
        assert(index >> 24 == index / 0x100_0000 && index >> 24 < 0x100) by (bit_vector);
        assert((index >> 16) & 0xff == index / 0x1_0000 % 0x100) by (bit_vector);
        assert((index >> 8) & 0xff == index / 0x100 % 0x100) by (bit_vector);
        assert(index & 0xff == index % 0x100) by (bit_vector);
        init_seed[0] = (index >> 24) as u8;
        init_seed[1] = ((index >> 16) & 0xff) as u8;
        init_seed[2] = ((index >> 8) & 0xff) as u8;
        init_seed[3] = (index & 0xff) as u8;
        assert(init_seed@ =~= init_seed_of(index));
        Self::new(init_seed, index == 0)
    }
}

/// The mock account with number `index`: the one account made from the
/// seed of that number, new where the number is 0.
pub open spec fn mock_account<const NUM_STATES: usize>(index: u32) -> MockPrivateAccount<NUM_STATES> {
    choose|account: MockPrivateAccount<NUM_STATES>| #[trigger] account.has_number(index)
}

impl<const NUM_STATES: usize> From<u32> for MockPrivateAccount<NUM_STATES> {
    /// The mock account with number `index`. Each number has a seed of its
    /// own; number 0 stands for a new account.
    fn from(index: u32) -> (account: Self) {
        let account = Self::from_index(index);
        proof {
            let other = mock_account::<NUM_STATES>(index);
            assert(account.has_number(index));
            assert(other.has_number(index));
            assert forall|i: int| 0 <= i < NUM_STATES implies account.states[i]
                == other.states[i] by {
                assert(account.states[i].elements =~= other.states[i].elements);
            }
            assert(account.states =~= other.states);
        }
        account
    }
}

impl<const NUM_STATES: usize> vstd::std_specs::convert::FromSpecImpl<u32> for MockPrivateAccount<NUM_STATES> {
    open spec fn obeys_from_spec() -> bool {
        true
    }

    open spec fn from_spec(index: u32) -> Self {
        mock_account::<NUM_STATES>(index)
    }
}

} // verus!
