//! Plain-value models of the EVM data that the execution core reads: addresses,
//! hashes, protocol versions, configuration, transaction and block environments.

use vstd::prelude::*;

verus! {

/// A 160-bit account address, as its high 32 bits and low 128 bits.
#[derive(Clone, Copy, Debug, PartialEq, Eq, Structural, Hash)]
pub struct Address {
    pub high: u32,
    pub low: u128,
}

/// A 256-bit hash or word, as its high and low 128 bits.
#[derive(Clone, Copy, Debug, PartialEq, Eq, Structural, Hash)]
pub struct B256 {
    pub high: u128,
    pub low: u128,
}

/// A 256-bit unsigned integer, as its high and low 128 bits.
#[derive(Clone, Copy, Debug, PartialEq, Eq, Structural, Hash)]
pub struct U256 {
    pub high: u128,
    pub low: u128,
}

/// 2^128, the weight of the high half of a [`U256`].
pub open spec fn half_base() -> int {
    u128::MAX as int + 1
}

/// The largest value of a [`U256`].
pub open spec fn u256_max() -> int {
    half_base() * half_base() - 1
}

/// The [`U256`] of a value in range.
pub open spec fn u256_of(n: int) -> U256 {
    U256 { high: (n / half_base()) as u128, low: (n % half_base()) as u128 }
}

impl U256 {
    /// The number that the two halves stand for.
    pub open spec fn value(self) -> int {
        self.high * half_base() + self.low
    }

    /// Zero.
    pub fn zero() -> (r: U256)
        ensures
            r == (U256 { high: 0, low: 0 }),
            r.value() == 0,
    {
        U256 { high: 0, low: 0 }
    }

    /// The value of a `u128`.
    pub fn from_u128(n: u128) -> (r: U256)
        ensures
            r.value() == n,
    {
        U256 { high: 0, low: n }
    }

    /// The sum, or `None` where it passes the largest value.
    pub fn checked_add(self, other: U256) -> (r: Option<U256>)
        ensures
            r is None <==> self.value() + other.value() > u256_max(),
            r matches Some(s) ==> s.value() == self.value() + other.value(),
    {
        let carry = self.low > u128::MAX - other.low;
        let low: u128 = if carry {
            self.low - (u128::MAX - other.low) - 1
        } else {
            self.low + other.low
        };
        let c: u128 = if carry { 1 } else { 0 };
        let ghost b = half_base();
        let ghost sum = self.value() + other.value();
        assert(low + c * b == self.low + other.low);
        assert(sum == (self.high + other.high + c) * b + low) by (nonlinear_arith)
            requires
                sum == self.high * b + self.low + other.high * b + other.low,
                low + c * b == self.low + other.low,
        ;
        match self.high.checked_add(other.high) {
            None => {
                let ghost x = self.high + other.high + c;
                assert(x * b >= b * b) by (nonlinear_arith)
                    requires
                        x >= b,
                        b >= 0,
                ;
                None
            },
            Some(h) => match h.checked_add(c) {
                None => {
                    let ghost x = self.high + other.high + c;
                    assert(x * b >= b * b) by (nonlinear_arith)
                        requires
                            x >= b,
                            b >= 0,
                    ;
                    None
                },
                Some(high) => {
                    assert(sum <= u256_max()) by (nonlinear_arith)
                        requires
                            sum == high * b + low,
                            high <= b - 1,
                            low <= b - 1,
                            u256_max() == b * b - 1,
                    ;
                    Some(U256 { high, low })
                },
            },
        }
    }
}

/// Two words with one value are the same word, and a value in range has a word.
pub proof fn lemma_u256_canonical(a: U256, n: int)
    requires
        a.value() == n,
    ensures
        0 <= n <= u256_max(),
        u256_of(n) == a,
{
    assert(0 <= a.high * half_base()) by (nonlinear_arith)
        requires 0 <= a.high;
    assert(a.high * half_base() <= (half_base() - 1) * half_base()) by (nonlinear_arith)
        requires a.high <= half_base() - 1;
    vstd::arithmetic::div_mod::lemma_fundamental_div_mod_converse(n, half_base(), a.high as int, a.low as int);
}

/// A value in range is the value of its word.
pub proof fn lemma_u256_of_value(n: int)
    requires
        0 <= n <= u256_max(),
    ensures
        u256_of(n).value() == n,
{
    let b = half_base();
    vstd::arithmetic::div_mod::lemma_fundamental_div_mod(n, b);
    vstd::arithmetic::div_mod::lemma_mod_pos_bound(n, b);
    vstd::arithmetic::div_mod::lemma_div_pos_is_pos(n, b);
    let q = n / b;
    let r = n % b;
    assert(q <= b - 1) by (nonlinear_arith)
        requires
            n == b * q + r,
            0 <= r,
            n <= b * b - 1,
            b > 0,
    ;
    assert(u256_of(n).value() == q * b + r);
}

impl Address {
    /// The all-zero address.
    pub fn zero() -> (r: Address)
        ensures
            r == zero_address(),
    {
        Address { high: 0, low: 0 }
    }
}

impl B256 {
    /// The all-zero word.
    pub fn zero() -> (r: B256)
        ensures
            r == zero_word(),
    {
        B256 { high: 0, low: 0 }
    }
}

pub open spec fn zero_address() -> Address {
    Address { high: 0, low: 0 }
}

pub open spec fn zero_word() -> B256 {
    B256 { high: 0, low: 0 }
}

/// Protocol rule sets, in the order in which they were activated.
#[derive(Clone, Copy, Debug, PartialEq, Eq, Structural)]
pub enum SpecId {
    Frontier,
    FrontierThawing,
    Homestead,
    DaoFork,
    Tangerine,
    SpuriousDragon,
    Byzantium,
    Constantinople,
    Petersburg,
    Istanbul,
    MuirGlacier,
    Berlin,
    London,
    ArrowGlacier,
    GrayGlacier,
    Merge,
    Shanghai,
    Cancun,
    Latest,
}

/// Position of a rule set in activation order.
pub open spec fn spec_rank(spec: SpecId) -> nat {
    match spec {
        SpecId::Frontier => 0,
        SpecId::FrontierThawing => 1,
        SpecId::Homestead => 2,
        SpecId::DaoFork => 3,
        SpecId::Tangerine => 4,
        SpecId::SpuriousDragon => 5,
        SpecId::Byzantium => 6,
        SpecId::Constantinople => 7,
        SpecId::Petersburg => 8,
        SpecId::Istanbul => 9,
        SpecId::MuirGlacier => 10,
        SpecId::Berlin => 11,
        SpecId::London => 12,
        SpecId::ArrowGlacier => 13,
        SpecId::GrayGlacier => 14,
        SpecId::Merge => 15,
        SpecId::Shanghai => 16,
        SpecId::Cancun => 17,
        SpecId::Latest => 18,
    }
}

/// A rule set at or after the merge, which asks every block for a
/// random-beacon value.
pub open spec fn post_merge(spec: SpecId) -> bool {
    spec_rank(spec) >= spec_rank(SpecId::Merge)
}

impl SpecId {
    /// Whether this rule set is at or after the merge.
    pub fn is_post_merge(&self) -> (r: bool)
        ensures
            r == post_merge(*self),
    {
        match self {
            SpecId::Merge | SpecId::Shanghai | SpecId::Cancun | SpecId::Latest => true,
            _ => false,
        }
    }
}

/// Configuration of the interpreter.
#[derive(Clone, Copy, Debug, PartialEq, Eq, Structural)]
pub struct CfgEnv {
    pub chain_id: u64,
    pub spec_id: SpecId,
    /// Skip the check that the caller can pay for the transaction, and treat
    /// the accounts that it names as existing.
    pub disable_balance_check: bool,
}

/// The block that a transaction runs in, as the interpreter sees it.
#[derive(Clone, Copy, Debug, PartialEq, Eq, Structural)]
pub struct BlockEnv {
    pub number: u64,
    pub coinbase: Address,
    pub timestamp: u64,
    pub difficulty: U256,
    pub basefee: U256,
    pub gas_limit: u64,
    /// The random-beacon value; required after the merge.
    pub prevrandao: Option<B256>,
}

/// A transaction, as the interpreter runs it.
#[derive(Clone, Debug)]
pub struct TxEnv {
    pub caller: Address,
    pub gas_limit: u64,
    pub gas_price: U256,
    /// The callee, or `None` for a contract creation.
    pub transact_to: Option<Address>,
    pub value: U256,
    pub data: Vec<u8>,
    pub nonce: Option<u64>,
}

/// The value-level content of a [`TxEnv`].
pub struct TxModel {
    pub caller: Address,
    pub gas_limit: u64,
    pub gas_price: U256,
    pub transact_to: Option<Address>,
    pub value: U256,
    pub data: Seq<u8>,
    pub nonce: Option<u64>,
}

impl View for TxEnv {
    type V = TxModel;

    open spec fn view(&self) -> TxModel {
        TxModel {
            caller: self.caller,
            gas_limit: self.gas_limit,
            gas_price: self.gas_price,
            transact_to: self.transact_to,
            value: self.value,
            data: self.data@,
            nonce: self.nonce,
        }
    }
}

impl TxEnv {
    /// A copy of the transaction with the same content.
    pub fn duplicate(&self) -> (r: TxEnv)
        ensures
            r@ == self@,
    {
        let mut data: Vec<u8> = Vec::new();
        let mut i: usize = 0;
        while i < self.data.len()
            invariant
                i <= self.data.len(),
                data@ == self.data@.subrange(0, i as int),
            decreases self.data.len() - i,
        {
            data.push(self.data[i]);
            i = i + 1;
        }
        assert(data@ =~= self.data@);
        TxEnv {
            caller: self.caller,
            gas_limit: self.gas_limit,
            gas_price: self.gas_price,
            transact_to: self.transact_to,
            value: self.value,
            data,
            nonce: self.nonce,
        }
    }
}

/// How an execution ended.
#[derive(Clone, Copy, Debug, PartialEq, Eq, Structural)]
pub enum ExitStatus {
    Stop,
    Return,
    SelfDestruct,
    Revert,
    OutOfGas,
    Halt,
}

/// The outcome of one transaction.
#[derive(Clone, Copy, Debug, PartialEq, Eq, Structural)]
pub struct ExecutionResult {
    pub status: ExitStatus,
    /// Gas consumed by the transaction.
    pub gas_used: u64,
    /// Gas refunded to the caller.
    pub gas_refunded: u64,
    /// Number of logs emitted.
    pub logs: u64,
}

} // verus!
