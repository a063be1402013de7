//! Account balances as opaque IEEE-754 bit patterns.

use vstd::prelude::*;

verus! {

/// A balance reported by the accounting engine.
///
/// The engine does no arithmetic on balances: it carries them from the
/// extractor to the sink. A balance is therefore held as the 64 bits of its
/// double-precision encoding, which callers obtain with `f64::to_bits` and
/// turn back with `f64::from_bits`.
#[derive(Clone, Copy, Debug, PartialEq, Eq, Structural)]
pub struct Balance {
    pub bits: u64,
}

impl Balance {
    /// The bit pattern of positive zero, the value sent when a payload carries
    /// no meaningful number.
    pub open spec fn zero_bits() -> u64 {
        0
    }

    /// Wraps the bit pattern of a double-precision balance.
    pub fn from_bits(bits: u64) -> (b: Balance)
        ensures
            b.bits == bits,
    {
        Balance { bits }
    }

    /// The balance that stands for "no number": positive zero.
    pub fn zero() -> (b: Balance)
        ensures
            b.bits == Self::zero_bits(),
    {
        Balance { bits: 0 }
    }

    /// The bit pattern of this balance.
    pub fn to_bits(&self) -> (bits: u64)
        ensures
            bits == self.bits,
    {
        self.bits
    }
}

/// One account record of a response document.
#[derive(Clone, Debug, PartialEq, Eq)]
pub struct AccountData {
    pub account_full_name: String,
    pub number: String,
    pub account_type: String,
    pub balance: Balance,
}

/// The mathematical content of [`AccountData`].
pub struct AccountDataView {
    pub account_full_name: Seq<char>,
    pub number: Seq<char>,
    pub account_type: Seq<char>,
    pub balance: Balance,
}

impl View for AccountData {
    type V = AccountDataView;

    open spec fn view(&self) -> AccountDataView {
        AccountDataView {
            account_full_name: self.account_full_name@,
            number: self.number@,
            account_type: self.account_type@,
            balance: self.balance,
        }
    }
}

} // verus!
