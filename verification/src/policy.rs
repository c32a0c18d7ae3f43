//! The amounts that a faucet is willing to hand out.

use vstd::prelude::*;

verus! {

/// The amounts offered where nothing else is configured.
pub const TOKEN_AMOUNT_OPTIONS: [u64; 3] = [100, 500, 1000];

/// The permitted amounts, in the order in which they are shown to clients.
#[derive(Clone, Debug, PartialEq, Eq)]
pub struct AssetAmountPolicy {
    options: Vec<u64>,
}

impl View for AssetAmountPolicy {
    type V = Seq<u64>;

    closed spec fn view(&self) -> Seq<u64> {
        self.options@
    }
}

impl AssetAmountPolicy {
    /// A policy that permits exactly the given amounts.
    pub fn new(options: Vec<u64>) -> (policy: AssetAmountPolicy)
        ensures
            policy@ == options@,
    {
        AssetAmountPolicy { options }
    }

    /// The policy made of [`TOKEN_AMOUNT_OPTIONS`].
    pub fn standard() -> (policy: AssetAmountPolicy)
        ensures
            policy@ == TOKEN_AMOUNT_OPTIONS@,
    {
        let mut options: Vec<u64> = Vec::new();
        let mut i: usize = 0;
        while i < 3
            invariant
                i <= 3,
                options@ == TOKEN_AMOUNT_OPTIONS@.take(i as int),
            decreases 3 - i,
        {
            options.push(TOKEN_AMOUNT_OPTIONS[i]);
            i += 1;
        }
        AssetAmountPolicy { options }
    }

    /// Whether `amount` is one of the permitted amounts.
    pub fn permits(&self, amount: u64) -> (permitted: bool)
        ensures
            permitted == self@.contains(amount),
    {
        let mut i: usize = 0;
        while i < self.options.len()
            invariant
                i <= self.options.len(),
                forall|j: int| 0 <= j < i ==> self.options@[j] != amount,
            decreases self.options.len() - i,
        {
            if self.options[i] == amount {
                return true;
            }
            i += 1;
        }
        false
    }

    /// The permitted amounts, in order.
    pub fn options(&self) -> (options: Vec<u64>)
        ensures
            options@ == self@,
    {
        let mut options: Vec<u64> = Vec::new();
        let mut i: usize = 0;
        while i < self.options.len()
            invariant
                i <= self.options.len(),
                options@ == self.options@.take(i as int),
            decreases self.options.len() - i,
        {
            options.push(self.options[i]);
            i += 1;
        }
        options
    }
}

} // verus!
