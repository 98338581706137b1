//! The Azman token: balances, allowances, the treasury and the safety fund,
//! and the fee and penalty flows that the escrow and governance contracts
//! drive through it.
use crate::common;
use crate::common::{slot_of, AccountId};
use vstd::prelude::*;

verus! {

broadcast use vstd::std_specs::hash::group_hash_axioms;

/// Number of decimal places of the token.
pub const DECIMALS: u32 = 7;
/// One whole token in base units.
pub const DECIMAL_FACTOR: i128 = 10_000_000;
/// Denominator of fee rates given in basis points.
pub const BPS_DENOMINATOR: i128 = 10000;
/// Amount minted when a proposal fails: the developer's and the fund's shares together.
pub const PROPOSAL_PENALTY_AMOUNT: i128 = 10 * DECIMAL_FACTOR;
/// Share of a failed-proposal penalty credited to the developer.
pub const DEVELOPER_SHARE: i128 = 5 * DECIMAL_FACTOR;
/// Share of a failed-proposal penalty credited to the safety fund.
pub const SAFETY_FUND_SHARE: i128 = 5 * DECIMAL_FACTOR;
/// Platform fee rate in basis points until the admin sets one.
pub const DEFAULT_PLATFORM_FEE_RATE_BPS: i128 = 100;
/// Insurance fee rate in basis points until the admin sets one.
pub const DEFAULT_INSURANCE_FEE_RATE_BPS: i128 = 100;
/// Highest fee rate, in basis points, that the admin may set.
pub const MAX_FEE_RATE_BPS: i128 = 1000;

/// Why the token refused a request. A refused request changes nothing.
#[derive(Clone, Copy, Debug, PartialEq, Eq, Structural)]
pub enum TokenError {
    AlreadyInitialized,
    /// A configured address that the request needs has not been set.
    NotInitialized,
    /// The governance contract has not been set.
    GovernanceNotSet,
    /// The caller is not the account that the request must come from.
    Unauthorized,
    AmountNotPositive,
    NegativeAmount,
    SelfTransfer,
    InsufficientBalance,
    ExpirationInPast,
    NoAllowance,
    AllowanceExpired,
    InsufficientAllowance,
    InsufficientTreasuryBalance,
    InsufficientFeeBalance,
    InsufficientSafetyFund,
    BurnExceedsSupply,
    NegativeRate,
    RateTooHigh,
    /// A figure would leave its integer range.
    Overflow,
}

/// The two accounts that an allowance is between.
#[derive(Clone, Copy, Debug, PartialEq, Eq, Structural)]
pub struct AllowanceDataKey {
    pub from: AccountId,
    pub spender: AccountId,
}

impl AllowanceDataKey {
    /// The slot under which this allowance is kept.
    pub fn slot(&self) -> (s: u128)
        ensures
            s == common::pair_slot(self.from, self.spender),
    {
        slot_of(self.from, self.spender)
    }
}

/// An allowance: how much a spender may still move, and the ledger from which it no longer holds.
#[derive(Clone, Copy, Debug, PartialEq, Eq, Structural)]
pub struct AllowanceValue {
    pub amount: i128,
    pub expiration_ledger: u32,
}

/// The token's configuration entries: each is absent until it is written.
#[derive(Clone, Copy, Debug, PartialEq, Eq, Structural)]
pub struct TokenConfig {
    pub admin: Option<AccountId>,
    pub mithaq_contract: Option<AccountId>,
    pub governance_contract: Option<AccountId>,
    pub safety_fund: Option<AccountId>,
    pub treasury: Option<AccountId>,
    pub circulating_supply: Option<i128>,
    pub platform_fee_rate_bps: Option<i128>,
    pub insurance_fee_rate_bps: Option<i128>,
}

/// The whole state of the Azman token.
pub struct AzmanToken {
    pub config: TokenConfig,
    /// Balances; an account that is absent holds zero.
    pub balances: std::collections::HashMap<AccountId, i128>,
    /// Allowances, under the slot of (owner, spender).
    pub allowances: std::collections::HashMap<u128, AllowanceValue>,
}

/// The check that a request comes from the configured account `stored`.
pub open spec fn caller_error(stored: Option<AccountId>, caller: AccountId) -> Option<TokenError> {
    match stored {
        None => Some(TokenError::NotInitialized),
        Some(a) => if a != caller {
            Some(TokenError::Unauthorized)
        } else {
            None
        },
    }
}

fn check_caller(stored: Option<AccountId>, caller: AccountId) -> (r: Option<TokenError>)
    ensures
        r == caller_error(stored, caller),
{
    match stored {
        None => Some(TokenError::NotInitialized),
        Some(a) => if a != caller {
            Some(TokenError::Unauthorized)
        } else {
            None
        },
    }
}

impl AzmanToken {
    /// The balance of `id`.
    pub open spec fn balance_of(&self, id: AccountId) -> int {
        common::bal(self.balances@, id)
    }

    /// The circulating supply: zero until it is written.
    pub open spec fn supply(&self) -> int {
        match self.config.circulating_supply {
            Some(s) => s as int,
            None => 0,
        }
    }

    /// The platform fee rate in basis points.
    pub open spec fn platform_rate(&self) -> int {
        match self.config.platform_fee_rate_bps {
            Some(r) => r as int,
            None => DEFAULT_PLATFORM_FEE_RATE_BPS as int,
        }
    }

    /// The insurance fee rate in basis points.
    pub open spec fn insurance_rate(&self) -> int {
        match self.config.insurance_fee_rate_bps {
            Some(r) => r as int,
            None => DEFAULT_INSURANCE_FEE_RATE_BPS as int,
        }
    }

    /// The allowance that `from` has granted `spender`, if one was ever set.
    pub open spec fn allowance_entry(&self, from: AccountId, spender: AccountId) -> Option<
        AllowanceValue,
    > {
        if self.allowances@.contains_key(common::pair_slot(from, spender)) {
            Some(self.allowances@[common::pair_slot(from, spender)])
        } else {
            None
        }
    }

    /// The state with only its balances replaced.
    pub open spec fn same_but_balances(&self, other: &AzmanToken) -> bool {
        &&& self.config == other.config
        &&& self.allowances@ == other.allowances@
    }

    /// A token whose storage holds nothing yet.
    pub fn new() -> (t: AzmanToken)
        ensures
            t.config == (TokenConfig {
                admin: None,
                mithaq_contract: None,
                governance_contract: None,
                safety_fund: None,
                treasury: None,
                circulating_supply: None,
                platform_fee_rate_bps: None,
                insurance_fee_rate_bps: None,
            }),
            t.balances@ == Map::<AccountId, i128>::empty(),
            t.allowances@ == Map::<u128, AllowanceValue>::empty(),
    {
        AzmanToken {
            config: TokenConfig {
                admin: None,
                mithaq_contract: None,
                governance_contract: None,
                safety_fund: None,
                treasury: None,
                circulating_supply: None,
                platform_fee_rate_bps: None,
                insurance_fee_rate_bps: None,
            },
            balances: std::collections::HashMap::new(),
            allowances: std::collections::HashMap::new(),
        }
    }

    fn read_balance(&self, id: AccountId) -> (b: i128)
        ensures
            b as int == self.balance_of(id),
    {
        match self.balances.get(&id) {
            Some(v) => *v,
            None => 0,
        }
    }

    fn read_supply(&self) -> (s: i128)
        ensures
            s as int == self.supply(),
    {
        match self.config.circulating_supply {
            Some(s) => s,
            None => 0,
        }
    }

    /// Sets up the token: the admin holds the initial treasury supply and is the treasury.
    pub fn initialize_token(
        &mut self,
        admin: AccountId,
        mithaq_contract: AccountId,
        governance_contract: AccountId,
        safety_fund: AccountId,
        initial_treasury_supply: i128,
    ) -> (res: Result<(), TokenError>)
        ensures
            old(self).config.admin is Some ==> res == Err::<(), TokenError>(
                TokenError::AlreadyInitialized,
            ) && *final(self) == *old(self),
            old(self).config.admin is None ==> {
                &&& res == Ok::<(), TokenError>(())
                &&& final(self).config == (TokenConfig {
                    admin: Some(admin),
                    mithaq_contract: Some(mithaq_contract),
                    governance_contract: Some(governance_contract),
                    safety_fund: Some(safety_fund),
                    treasury: Some(admin),
                    circulating_supply: Some(0),
                    platform_fee_rate_bps: Some(DEFAULT_PLATFORM_FEE_RATE_BPS),
                    insurance_fee_rate_bps: Some(DEFAULT_INSURANCE_FEE_RATE_BPS),
                })
                &&& final(self).balances@ == old(self).balances@.insert(
                    admin,
                    initial_treasury_supply,
                )
                &&& final(self).allowances@ == old(self).allowances@
            },
    {
        if self.config.admin.is_some() {
            return Err(TokenError::AlreadyInitialized);
        }
        self.config = TokenConfig {
            admin: Some(admin),
            mithaq_contract: Some(mithaq_contract),
            governance_contract: Some(governance_contract),
            safety_fund: Some(safety_fund),
            treasury: Some(admin),
            circulating_supply: Some(0),
            platform_fee_rate_bps: Some(DEFAULT_PLATFORM_FEE_RATE_BPS),
            insurance_fee_rate_bps: Some(DEFAULT_INSURANCE_FEE_RATE_BPS),
        };
        self.balances.insert(admin, initial_treasury_supply);
        Ok(())
    }

    /// The token's name.
    pub fn name() -> (s: &'static str)
        ensures
            s@ == "Azman"@,
    {
        "Azman"
    }

    /// The token's ticker symbol.
    pub fn symbol() -> (s: &'static str)
        ensures
            s@ == "AZM"@,
    {
        "AZM"
    }

    /// Number of decimal places.
    pub fn decimals() -> (d: u32)
        ensures
            d == DECIMALS,
    {
        DECIMALS
    }

    /// The circulating supply.
    pub fn total_supply(&self) -> (s: i128)
        ensures
            s as int == self.supply(),
    {
        self.read_supply()
    }

    /// The balance of `id`.
    pub fn balance(&self, id: AccountId) -> (b: i128)
        ensures
            b as int == self.balance_of(id),
    {
        self.read_balance(id)
    }

    /// The first check that a transfer fails, in the order the token makes them.
    pub open spec fn transfer_error(&self, from: AccountId, to: AccountId, amount: i128) -> Option<
        TokenError,
    > {
        if amount <= 0 {
            Some(TokenError::AmountNotPositive)
        } else if from == to {
            Some(TokenError::SelfTransfer)
        } else if self.balance_of(from) < amount {
            Some(TokenError::InsufficientBalance)
        } else if !common::fits_i128(self.balance_of(to) + amount) {
            Some(TokenError::Overflow)
        } else {
            None
        }
    }

    /// Moves `amount` from `from` to `to`.
    pub fn transfer(&mut self, from: AccountId, to: AccountId, amount: i128) -> (res: Result<
        (),
        TokenError,
    >)
        ensures
            match old(self).transfer_error(from, to, amount) {
                Some(e) => res == Err::<(), TokenError>(e) && *final(self) == *old(self),
                None => {
                    &&& res == Ok::<(), TokenError>(())
                    &&& final(self).balances@ == common::moved(old(self).balances@, from, to, amount as int)
                    &&& final(self).same_but_balances(old(self))
                },
            },
    {
        if amount <= 0 {
            return Err(TokenError::AmountNotPositive);
        }
        if from == to {
            return Err(TokenError::SelfTransfer);
        }
        let from_balance = self.read_balance(from);
        if from_balance < amount {
            return Err(TokenError::InsufficientBalance);
        }
        let to_balance = self.read_balance(to);
        let credited = match to_balance.checked_add(amount) {
            Some(x) => x,
            None => {
                return Err(TokenError::Overflow);
            },
        };
        self.balances.insert(from, from_balance - amount);
        self.balances.insert(to, credited);
        Ok(())
    }

    /// Lets `spender` move up to `amount` of `from`'s tokens until `expiration_ledger`.
    pub fn approve(
        &mut self,
        from: AccountId,
        spender: AccountId,
        amount: i128,
        expiration_ledger: u32,
        current_ledger: u32,
    ) -> (res: Result<(), TokenError>)
        ensures
            amount < 0 ==> res == Err::<(), TokenError>(TokenError::NegativeAmount) && *final(self)
                == *old(self),
            amount >= 0 && expiration_ledger <= current_ledger ==> res == Err::<(), TokenError>(
                TokenError::ExpirationInPast,
            ) && *final(self) == *old(self),
            amount >= 0 && expiration_ledger > current_ledger ==> {
                &&& res == Ok::<(), TokenError>(())
                &&& final(self).allowances@ == old(self).allowances@.insert(
                    common::pair_slot(from, spender),
                    AllowanceValue { amount, expiration_ledger },
                )
                &&& final(self).config == old(self).config
                &&& final(self).balances@ == old(self).balances@
            },
    {
        if amount < 0 {
            return Err(TokenError::NegativeAmount);
        }
        if expiration_ledger <= current_ledger {
            return Err(TokenError::ExpirationInPast);
        }
        let key = AllowanceDataKey { from, spender };
        self.allowances.insert(key.slot(), AllowanceValue { amount, expiration_ledger });
        Ok(())
    }

    /// What `spender` may still move of `from`'s tokens: zero once the allowance has expired.
    pub open spec fn allowance_at(&self, from: AccountId, spender: AccountId, current_ledger: u32) -> i128 {
        match self.allowance_entry(from, spender) {
            Some(a) => if a.expiration_ledger > current_ledger {
                a.amount
            } else {
                0
            },
            None => 0,
        }
    }

    /// The allowance of `spender` over `from`'s tokens at ledger `current_ledger`.
    pub fn allowance(&self, from: AccountId, spender: AccountId, current_ledger: u32) -> (a: i128)
        ensures
            a == self.allowance_at(from, spender, current_ledger),
    {
        match self.allowances.get(&slot_of(from, spender)) {
            Some(v) => if v.expiration_ledger > current_ledger {
                v.amount
            } else {
                0
            },
            None => 0,
        }
    }

    /// The first check that a delegated transfer fails.
    pub open spec fn transfer_from_error(
        &self,
        spender: AccountId,
        from: AccountId,
        to: AccountId,
        amount: i128,
        current_ledger: u32,
    ) -> Option<TokenError> {
        if amount <= 0 {
            Some(TokenError::AmountNotPositive)
        } else if from == to {
            Some(TokenError::SelfTransfer)
        } else {
            match self.allowance_entry(from, spender) {
                None => Some(TokenError::NoAllowance),
                Some(a) => if a.expiration_ledger <= current_ledger {
                    Some(TokenError::AllowanceExpired)
                } else if a.amount < amount {
                    Some(TokenError::InsufficientAllowance)
                } else if self.balance_of(from) < amount {
                    Some(TokenError::InsufficientBalance)
                } else if !common::fits_i128(self.balance_of(to) + amount) {
                    Some(TokenError::Overflow)
                } else {
                    None
                },
            }
        }
    }

    /// `spender` moves `amount` of `from`'s tokens to `to`, drawing on its allowance.
    pub fn transfer_from(
        &mut self,
        spender: AccountId,
        from: AccountId,
        to: AccountId,
        amount: i128,
        current_ledger: u32,
    ) -> (res: Result<(), TokenError>)
        ensures
            match old(self).transfer_from_error(spender, from, to, amount, current_ledger) {
                Some(e) => res == Err::<(), TokenError>(e) && *final(self) == *old(self),
                None => {
                    let a = old(self).allowance_entry(from, spender).unwrap();
                    &&& res == Ok::<(), TokenError>(())
                    &&& final(self).balances@ == common::moved(
                        old(self).balances@,
                        from,
                        to,
                        amount as int,
                    )
                    &&& final(self).allowances@ == old(self).allowances@.insert(
                        common::pair_slot(from, spender),
                        AllowanceValue {
                            amount: (a.amount - amount) as i128,
                            expiration_ledger: a.expiration_ledger,
                        },
                    )
                    &&& final(self).config == old(self).config
                },
            },
    {
        if amount <= 0 {
            return Err(TokenError::AmountNotPositive);
        }
        if from == to {
            return Err(TokenError::SelfTransfer);
        }
        let key = slot_of(from, spender);
        let current = match self.allowances.get(&key) {
            Some(v) => *v,
            None => {
                return Err(TokenError::NoAllowance);
            },
        };
        if current.expiration_ledger <= current_ledger {
            return Err(TokenError::AllowanceExpired);
        }
        if current.amount < amount {
            return Err(TokenError::InsufficientAllowance);
        }
        let from_balance = self.read_balance(from);
        if from_balance < amount {
            return Err(TokenError::InsufficientBalance);
        }
        let to_balance = self.read_balance(to);
        let credited = match to_balance.checked_add(amount) {
            Some(x) => x,
            None => {
                return Err(TokenError::Overflow);
            },
        };
        self.allowances.insert(
            key,
            AllowanceValue {
                amount: current.amount - amount,
                expiration_ledger: current.expiration_ledger,
            },
        );
        self.balances.insert(from, from_balance - amount);
        self.balances.insert(to, credited);
        Ok(())
    }

    /// The first check that a release from the treasury fails.
    pub open spec fn release_error(&self, caller: AccountId, to: AccountId, amount: i128) -> Option<
        TokenError,
    > {
        if self.config.admin is None || self.config.mithaq_contract is None {
            Some(TokenError::NotInitialized)
        } else if caller != self.config.admin.unwrap() && caller
            != self.config.mithaq_contract.unwrap() {
            Some(TokenError::Unauthorized)
        } else if amount <= 0 {
            Some(TokenError::AmountNotPositive)
        } else if self.config.treasury is None {
            Some(TokenError::NotInitialized)
        } else if self.balance_of(self.config.treasury.unwrap()) < amount {
            Some(TokenError::InsufficientTreasuryBalance)
        } else if !common::fits_i128(
            common::bal(
                common::debit(self.balances@, self.config.treasury.unwrap(), amount as int),
                to,
            ) + amount,
        ) || !common::fits_i128(self.supply() + amount) {
            Some(TokenError::Overflow)
        } else {
            None
        }
    }

    /// Releases `amount` from the treasury to `to`; the circulating supply grows by `amount`.
    pub fn release_from_treasury(&mut self, authorized_caller: AccountId, to: AccountId, amount: i128) -> (res: Result<
        (),
        TokenError,
    >)
        ensures
            match old(self).release_error(authorized_caller, to, amount) {
                Some(e) => res == Err::<(), TokenError>(e) && *final(self) == *old(self),
                None => {
                    &&& res == Ok::<(), TokenError>(())
                    &&& final(self).balances@ == common::moved(
                        old(self).balances@,
                        old(self).config.treasury.unwrap(),
                        to,
                        amount as int,
                    )
                    &&& final(self).config == (TokenConfig {
                        circulating_supply: Some((old(self).supply() + amount) as i128),
                        ..old(self).config
                    })
                    &&& final(self).allowances@ == old(self).allowances@
                },
            },
    {
        let (admin, mithaq) = match (self.config.admin, self.config.mithaq_contract) {
            (Some(a), Some(m)) => (a, m),
            _ => {
                return Err(TokenError::NotInitialized);
            },
        };
        if authorized_caller != admin && authorized_caller != mithaq {
            return Err(TokenError::Unauthorized);
        }
        if amount <= 0 {
            return Err(TokenError::AmountNotPositive);
        }
        let treasury = match self.config.treasury {
            Some(t) => t,
            None => {
                return Err(TokenError::NotInitialized);
            },
        };
        let treasury_balance = self.read_balance(treasury);
        if treasury_balance < amount {
            return Err(TokenError::InsufficientTreasuryBalance);
        }
        let to_balance: i128 = if to == treasury {
            treasury_balance - amount
        } else {
            self.read_balance(to)
        };
        let credited = match to_balance.checked_add(amount) {
            Some(x) => x,
            None => {
                return Err(TokenError::Overflow);
            },
        };
        let supply = match self.read_supply().checked_add(amount) {
            Some(x) => x,
            None => {
                return Err(TokenError::Overflow);
            },
        };
        self.balances.insert(treasury, treasury_balance - amount);
        self.balances.insert(to, credited);
        self.config.circulating_supply = Some(supply);
        Ok(())
    }

    /// The first check that a seizure by governance fails.
    pub open spec fn seize_error(&self, governance_contract: AccountId, from: AccountId, amount: i128) -> Option<
        TokenError,
    > {
        match self.config.governance_contract {
            None => Some(TokenError::GovernanceNotSet),
            Some(g) => if governance_contract != g {
                Some(TokenError::Unauthorized)
            } else if amount <= 0 {
                Some(TokenError::AmountNotPositive)
            } else if self.balance_of(from) < amount {
                Some(TokenError::InsufficientBalance)
            } else if !common::fits_i128(
                common::bal(common::debit(self.balances@, from, amount as int), governance_contract)
                    + amount,
            ) {
                Some(TokenError::Overflow)
            } else {
                None
            },
        }
    }

    /// The governance contract takes `amount` of `from`'s tokens into its own balance.
    pub fn seize_for_governance(&mut self, governance_contract: AccountId, from: AccountId, amount: i128) -> (res: Result<
        (),
        TokenError,
    >)
        ensures
            match old(self).seize_error(governance_contract, from, amount) {
                Some(e) => res == Err::<(), TokenError>(e) && *final(self) == *old(self),
                None => {
                    &&& res == Ok::<(), TokenError>(())
                    &&& final(self).balances@ == common::moved(
                        old(self).balances@,
                        from,
                        governance_contract,
                        amount as int,
                    )
                    &&& final(self).same_but_balances(old(self))
                },
            },
    {
        let stored = match self.config.governance_contract {
            Some(g) => g,
            None => {
                return Err(TokenError::GovernanceNotSet);
            },
        };
        if governance_contract != stored {
            return Err(TokenError::Unauthorized);
        }
        if amount <= 0 {
            return Err(TokenError::AmountNotPositive);
        }
        let from_balance = self.read_balance(from);
        if from_balance < amount {
            return Err(TokenError::InsufficientBalance);
        }
        let gov_balance: i128 = if governance_contract == from {
            from_balance - amount
        } else {
            self.read_balance(governance_contract)
        };
        let credited = match gov_balance.checked_add(amount) {
            Some(x) => x,
            None => {
                return Err(TokenError::Overflow);
            },
        };
        self.balances.insert(from, from_balance - amount);
        self.balances.insert(governance_contract, credited);
        Ok(())
    }

    /// The platform and insurance fees due on `total_amount` at the current rates, each
    /// rounded toward zero.
    pub open spec fn fee_parts(&self, total_amount: i128) -> (int, int) {
        (
            common::tdiv(total_amount * self.platform_rate(), BPS_DENOMINATOR as int),
            common::tdiv(total_amount * self.insurance_rate(), BPS_DENOMINATOR as int),
        )
    }

    /// Balances after the payer pays both fees and the treasury receives the platform fee
    /// when it is positive.
    pub open spec fn fees_paid_to_treasury(&self, payer: AccountId, total_amount: i128) -> Map<
        AccountId,
        i128,
    > {
        let (pf, inf) = self.fee_parts(total_amount);
        let b1 = common::debit(self.balances@, payer, pf + inf);
        if pf > 0 {
            common::credit(b1, self.config.treasury.unwrap(), pf)
        } else {
            b1
        }
    }

    /// Balances after the fees are charged: the payer pays both, the treasury receives the
    /// platform fee and the safety fund the insurance fee, each only when it is positive.
    pub open spec fn fees_balances(&self, payer: AccountId, total_amount: i128) -> Map<AccountId, i128> {
        let (pf, inf) = self.fee_parts(total_amount);
        let b2 = self.fees_paid_to_treasury(payer, total_amount);
        if inf > 0 {
            common::credit(b2, self.config.safety_fund.unwrap(), inf)
        } else {
            b2
        }
    }

    /// The first check that charging contract fees fails, in the order the token makes them.
    pub open spec fn fees_error(&self, mithaq_contract: AccountId, payer: AccountId, total_amount: i128) -> Option<
        TokenError,
    > {
        let (pf, inf) = self.fee_parts(total_amount);
        let b1 = common::debit(self.balances@, payer, pf + inf);
        let b2 = self.fees_paid_to_treasury(payer, total_amount);
        if caller_error(self.config.mithaq_contract, mithaq_contract) is Some {
            caller_error(self.config.mithaq_contract, mithaq_contract)
        } else if !common::fits_i128(total_amount * self.platform_rate())
            || !common::fits_i128(total_amount * self.insurance_rate())
            || !common::fits_i128(pf + inf) {
            Some(TokenError::Overflow)
        } else if pf + inf == 0 {
            None
        } else if self.balance_of(payer) < pf + inf {
            Some(TokenError::InsufficientFeeBalance)
        } else if !common::fits_i128(self.balance_of(payer) - (pf + inf)) {
            Some(TokenError::Overflow)
        } else if pf > 0 && self.config.treasury is None {
            Some(TokenError::NotInitialized)
        } else if pf > 0 && (!common::fits_i128(common::bal(b1, self.config.treasury.unwrap()) + pf)
            || !common::fits_i128(self.supply() - pf)) {
            Some(TokenError::Overflow)
        } else if inf > 0 && self.config.safety_fund is None {
            Some(TokenError::NotInitialized)
        } else if inf > 0 && !common::fits_i128(
            common::bal(b2, self.config.safety_fund.unwrap()) + inf,
        ) {
            Some(TokenError::Overflow)
        } else {
            None
        }
    }

    /// Charges the platform and insurance fees on a contract of `total_amount` to `payer`.
    /// Returns the two fees, or `None` when they come to zero and nothing is charged. The
    /// platform fee leaves circulation.
    pub fn process_contract_fees(&mut self, mithaq_contract: AccountId, payer: AccountId, total_amount: i128) -> (res:
        Result<Option<(i128, i128)>, TokenError>)
        ensures
            ({
                let (pf, inf) = old(self).fee_parts(total_amount);
                match old(self).fees_error(mithaq_contract, payer, total_amount) {
                    Some(e) => res == Err::<Option<(i128, i128)>, TokenError>(e) && *final(self)
                        == *old(self),
                    None => if pf + inf == 0 {
                        res == Ok::<Option<(i128, i128)>, TokenError>(None) && *final(self)
                            == *old(self)
                    } else {
                        &&& res == Ok::<Option<(i128, i128)>, TokenError>(
                            Some((pf as i128, inf as i128)),
                        )
                        &&& final(self).balances@ == old(self).fees_balances(payer, total_amount)
                        &&& final(self).config == if pf > 0 {
                            TokenConfig {
                                circulating_supply: Some((old(self).supply() - pf) as i128),
                                ..old(self).config
                            }
                        } else {
                            old(self).config
                        }
                        &&& final(self).allowances@ == old(self).allowances@
                    },
                }
            }),
    {
        if let Some(e) = check_caller(self.config.mithaq_contract, mithaq_contract) {
            return Err(e);
        }
        let platform_rate: i128 = match self.config.platform_fee_rate_bps {
            Some(r) => r,
            None => DEFAULT_PLATFORM_FEE_RATE_BPS,
        };
        let insurance_rate: i128 = match self.config.insurance_fee_rate_bps {
            Some(r) => r,
            None => DEFAULT_INSURANCE_FEE_RATE_BPS,
        };
        let platform_fee = match total_amount.checked_mul(platform_rate) {
            Some(x) => x / BPS_DENOMINATOR,
            None => {
                return Err(TokenError::Overflow);
            },
        };
        let insurance_fee = match total_amount.checked_mul(insurance_rate) {
            Some(x) => x / BPS_DENOMINATOR,
            None => {
                return Err(TokenError::Overflow);
            },
        };
        assert(self.fee_parts(total_amount) == (platform_fee as int, insurance_fee as int));
        let total_fee = match platform_fee.checked_add(insurance_fee) {
            Some(x) => x,
            None => {
                return Err(TokenError::Overflow);
            },
        };
        if total_fee == 0 {
            return Ok(None);
        }
        let payer_balance = self.read_balance(payer);
        if payer_balance < total_fee {
            return Err(TokenError::InsufficientFeeBalance);
        }
        let payer_after = match payer_balance.checked_sub(total_fee) {
            Some(x) => x,
            None => {
                return Err(TokenError::Overflow);
            },
        };
        let ghost b1 = self.balances@.insert(payer, payer_after);
        let mut treasury_entry: Option<(AccountId, i128, i128)> = None;
        if platform_fee > 0 {
            let treasury = match self.config.treasury {
                Some(t) => t,
                None => {
                    return Err(TokenError::NotInitialized);
                },
            };
            let treasury_balance: i128 = if treasury == payer {
                payer_after
            } else {
                self.read_balance(treasury)
            };
            assert(treasury_balance == common::bal(b1, treasury));
            let credited = match treasury_balance.checked_add(platform_fee) {
                Some(x) => x,
                None => {
                    return Err(TokenError::Overflow);
                },
            };
            let supply = match self.read_supply().checked_sub(platform_fee) {
                Some(x) => x,
                None => {
                    return Err(TokenError::Overflow);
                },
            };
            treasury_entry = Some((treasury, credited, supply));
        }
        let ghost b2 = match treasury_entry {
            Some((t, v, _)) => b1.insert(t, v),
            None => b1,
        };
        assert(b2 == self.fees_paid_to_treasury(payer, total_amount));
        let mut fund_entry: Option<(AccountId, i128)> = None;
        if insurance_fee > 0 {
            let fund = match self.config.safety_fund {
                Some(f) => f,
                None => {
                    return Err(TokenError::NotInitialized);
                },
            };
            let fund_balance: i128 = match treasury_entry {
                Some((t, v, _)) => if fund == t {
                    v
                } else if fund == payer {
                    payer_after
                } else {
                    self.read_balance(fund)
                },
                None => if fund == payer {
                    payer_after
                } else {
                    self.read_balance(fund)
                },
            };
            assert(fund_balance == common::bal(b2, fund));
            let credited = match fund_balance.checked_add(insurance_fee) {
                Some(x) => x,
                None => {
                    return Err(TokenError::Overflow);
                },
            };
            fund_entry = Some((fund, credited));
        }
        self.balances.insert(payer, payer_after);
        if let Some((treasury, credited, supply)) = treasury_entry {
            self.balances.insert(treasury, credited);
            self.config.circulating_supply = Some(supply);
        }
        if let Some((fund, credited)) = fund_entry {
            self.balances.insert(fund, credited);
        }
        Ok(Some((platform_fee, insurance_fee)))
    }

    /// The first check that paying out a failed proposal's penalty fails.
    pub open spec fn penalty_error(&self, mithaq_contract: AccountId, developer: AccountId) -> Option<
        TokenError,
    > {
        let b1 = common::credit(self.balances@, developer, DEVELOPER_SHARE as int);
        if caller_error(self.config.mithaq_contract, mithaq_contract) is Some {
            caller_error(self.config.mithaq_contract, mithaq_contract)
        } else if !common::fits_i128(self.balance_of(developer) + DEVELOPER_SHARE) {
            Some(TokenError::Overflow)
        } else if self.config.safety_fund is None {
            Some(TokenError::NotInitialized)
        } else if !common::fits_i128(
            common::bal(b1, self.config.safety_fund.unwrap()) + SAFETY_FUND_SHARE,
        ) || !common::fits_i128(self.supply() + PROPOSAL_PENALTY_AMOUNT) {
            Some(TokenError::Overflow)
        } else {
            None
        }
    }

    /// Pays out a failed proposal's penalty: the developer's share and the safety fund's
    /// share are minted into circulation.
    pub fn process_failed_proposal_penalty(&mut self, mithaq_contract: AccountId, developer: AccountId) -> (res:
        Result<(), TokenError>)
        ensures
            match old(self).penalty_error(mithaq_contract, developer) {
                Some(e) => res == Err::<(), TokenError>(e) && *final(self) == *old(self),
                None => {
                    &&& res == Ok::<(), TokenError>(())
                    &&& final(self).balances@ == common::credit(
                        common::credit(old(self).balances@, developer, DEVELOPER_SHARE as int),
                        old(self).config.safety_fund.unwrap(),
                        SAFETY_FUND_SHARE as int,
                    )
                    &&& final(self).config == (TokenConfig {
                        circulating_supply: Some(
                            (old(self).supply() + PROPOSAL_PENALTY_AMOUNT) as i128,
                        ),
                        ..old(self).config
                    })
                    &&& final(self).allowances@ == old(self).allowances@
                },
            },
    {
        if let Some(e) = check_caller(self.config.mithaq_contract, mithaq_contract) {
            return Err(e);
        }
        let dev_balance = match self.read_balance(developer).checked_add(DEVELOPER_SHARE) {
            Some(x) => x,
            None => {
                return Err(TokenError::Overflow);
            },
        };
        let fund = match self.config.safety_fund {
            Some(f) => f,
            None => {
                return Err(TokenError::NotInitialized);
            },
        };
        let fund_before: i128 = if fund == developer {
            dev_balance
        } else {
            self.read_balance(fund)
        };
        let fund_balance = match fund_before.checked_add(SAFETY_FUND_SHARE) {
            Some(x) => x,
            None => {
                return Err(TokenError::Overflow);
            },
        };
        let supply = match self.read_supply().checked_add(PROPOSAL_PENALTY_AMOUNT) {
            Some(x) => x,
            None => {
                return Err(TokenError::Overflow);
            },
        };
        self.balances.insert(developer, dev_balance);
        self.balances.insert(fund, fund_balance);
        self.config.circulating_supply = Some(supply);
        Ok(())
    }

    /// The first check that a claim on the safety fund fails.
    pub open spec fn claim_error(&self, mithaq_contract: AccountId, to: AccountId, amount: i128) -> Option<
        TokenError,
    > {
        if caller_error(self.config.mithaq_contract, mithaq_contract) is Some {
            caller_error(self.config.mithaq_contract, mithaq_contract)
        } else if amount <= 0 {
            Some(TokenError::AmountNotPositive)
        } else if self.config.safety_fund is None {
            Some(TokenError::NotInitialized)
        } else if self.balance_of(self.config.safety_fund.unwrap()) < amount {
            Some(TokenError::InsufficientSafetyFund)
        } else if !common::fits_i128(
            common::bal(
                common::debit(self.balances@, self.config.safety_fund.unwrap(), amount as int),
                to,
            ) + amount,
        ) {
            Some(TokenError::Overflow)
        } else {
            None
        }
    }

    /// Pays `amount` from the safety fund to `to`, on the escrow contract's request.
    pub fn claim_from_safety_fund(&mut self, mithaq_contract: AccountId, to: AccountId, amount: i128) -> (res:
        Result<(), TokenError>)
        ensures
            match old(self).claim_error(mithaq_contract, to, amount) {
                Some(e) => res == Err::<(), TokenError>(e) && *final(self) == *old(self),
                None => {
                    &&& res == Ok::<(), TokenError>(())
                    &&& final(self).balances@ == common::moved(
                        old(self).balances@,
                        old(self).config.safety_fund.unwrap(),
                        to,
                        amount as int,
                    )
                    &&& final(self).same_but_balances(old(self))
                },
            },
    {
        if let Some(e) = check_caller(self.config.mithaq_contract, mithaq_contract) {
            return Err(e);
        }
        if amount <= 0 {
            return Err(TokenError::AmountNotPositive);
        }
        let fund = match self.config.safety_fund {
            Some(f) => f,
            None => {
                return Err(TokenError::NotInitialized);
            },
        };
        let fund_balance = self.read_balance(fund);
        if fund_balance < amount {
            return Err(TokenError::InsufficientSafetyFund);
        }
        let to_balance: i128 = if to == fund {
            fund_balance - amount
        } else {
            self.read_balance(to)
        };
        let credited = match to_balance.checked_add(amount) {
            Some(x) => x,
            None => {
                return Err(TokenError::Overflow);
            },
        };
        self.balances.insert(fund, fund_balance - amount);
        self.balances.insert(to, credited);
        Ok(())
    }

    /// The first check that a burn fails.
    pub open spec fn burn_error(&self, from: AccountId, amount: i128) -> Option<TokenError> {
        if amount <= 0 {
            Some(TokenError::AmountNotPositive)
        } else if self.balance_of(from) < amount {
            Some(TokenError::InsufficientBalance)
        } else if self.supply() < amount {
            Some(TokenError::BurnExceedsSupply)
        } else {
            None
        }
    }

    /// Destroys `amount` of `from`'s tokens, taking them out of circulation.
    pub fn burn(&mut self, from: AccountId, amount: i128) -> (res: Result<(), TokenError>)
        ensures
            match old(self).burn_error(from, amount) {
                Some(e) => res == Err::<(), TokenError>(e) && *final(self) == *old(self),
                None => {
                    &&& res == Ok::<(), TokenError>(())
                    &&& final(self).balances@ == common::debit(
                        old(self).balances@,
                        from,
                        amount as int,
                    )
                    &&& final(self).config == (TokenConfig {
                        circulating_supply: Some((old(self).supply() - amount) as i128),
                        ..old(self).config
                    })
                    &&& final(self).allowances@ == old(self).allowances@
                },
            },
    {
        if amount <= 0 {
            return Err(TokenError::AmountNotPositive);
        }
        let from_balance = self.read_balance(from);
        if from_balance < amount {
            return Err(TokenError::InsufficientBalance);
        }
        let supply = self.read_supply();
        if supply < amount {
            return Err(TokenError::BurnExceedsSupply);
        }
        self.balances.insert(from, from_balance - amount);
        self.config.circulating_supply = Some(supply - amount);
        Ok(())
    }

    /// The admin points the token at a new escrow contract.
    pub fn update_mithaq_contract(&mut self, admin: AccountId, new_contract: AccountId) -> (res:
        Result<(), TokenError>)
        ensures
            match caller_error(old(self).config.admin, admin) {
                Some(e) => res == Err::<(), TokenError>(e) && *final(self) == *old(self),
                None => {
                    &&& res == Ok::<(), TokenError>(())
                    &&& final(self).config == (TokenConfig {
                        mithaq_contract: Some(new_contract),
                        ..old(self).config
                    })
                    &&& final(self).balances@ == old(self).balances@
                    &&& final(self).allowances@ == old(self).allowances@
                },
            },
    {
        if let Some(e) = check_caller(self.config.admin, admin) {
            return Err(e);
        }
        self.config.mithaq_contract = Some(new_contract);
        Ok(())
    }

    /// The admin hands the admin role to `new_admin`.
    pub fn update_admin(&mut self, current_admin: AccountId, new_admin: AccountId) -> (res: Result<
        (),
        TokenError,
    >)
        ensures
            match caller_error(old(self).config.admin, current_admin) {
                Some(e) => res == Err::<(), TokenError>(e) && *final(self) == *old(self),
                None => {
                    &&& res == Ok::<(), TokenError>(())
                    &&& final(self).config == (TokenConfig {
                        admin: Some(new_admin),
                        ..old(self).config
                    })
                    &&& final(self).balances@ == old(self).balances@
                    &&& final(self).allowances@ == old(self).allowances@
                },
            },
    {
        if let Some(e) = check_caller(self.config.admin, current_admin) {
            return Err(e);
        }
        self.config.admin = Some(new_admin);
        Ok(())
    }

    /// The first check that setting the fee rates fails.
    pub open spec fn fee_rates_error(&self, admin: AccountId, platform_rate_bps: i128, insurance_rate_bps: i128) -> Option<
        TokenError,
    > {
        if caller_error(self.config.admin, admin) is Some {
            caller_error(self.config.admin, admin)
        } else if platform_rate_bps < 0 || insurance_rate_bps < 0 {
            Some(TokenError::NegativeRate)
        } else if platform_rate_bps > MAX_FEE_RATE_BPS || insurance_rate_bps > MAX_FEE_RATE_BPS {
            Some(TokenError::RateTooHigh)
        } else {
            None
        }
    }

    /// The admin sets both fee rates, each between zero and the maximum rate.
    pub fn set_fee_rates(&mut self, admin: AccountId, platform_rate_bps: i128, insurance_rate_bps: i128) -> (res:
        Result<(), TokenError>)
        ensures
            match old(self).fee_rates_error(admin, platform_rate_bps, insurance_rate_bps) {
                Some(e) => res == Err::<(), TokenError>(e) && *final(self) == *old(self),
                None => {
                    &&& res == Ok::<(), TokenError>(())
                    &&& final(self).config == (TokenConfig {
                        platform_fee_rate_bps: Some(platform_rate_bps),
                        insurance_fee_rate_bps: Some(insurance_rate_bps),
                        ..old(self).config
                    })
                    &&& final(self).balances@ == old(self).balances@
                    &&& final(self).allowances@ == old(self).allowances@
                },
            },
    {
        if let Some(e) = check_caller(self.config.admin, admin) {
            return Err(e);
        }
        if platform_rate_bps < 0 || insurance_rate_bps < 0 {
            return Err(TokenError::NegativeRate);
        }
        if platform_rate_bps > MAX_FEE_RATE_BPS || insurance_rate_bps > MAX_FEE_RATE_BPS {
            return Err(TokenError::RateTooHigh);
        }
        self.config.platform_fee_rate_bps = Some(platform_rate_bps);
        self.config.insurance_fee_rate_bps = Some(insurance_rate_bps);
        Ok(())
    }

    /// The admin points the token at a new governance contract.
    pub fn set_governance_contract(&mut self, admin: AccountId, contract: AccountId) -> (res: Result<
        (),
        TokenError,
    >)
        ensures
            match caller_error(old(self).config.admin, admin) {
                Some(e) => res == Err::<(), TokenError>(e) && *final(self) == *old(self),
                None => {
                    &&& res == Ok::<(), TokenError>(())
                    &&& final(self).config == (TokenConfig {
                        governance_contract: Some(contract),
                        ..old(self).config
                    })
                    &&& final(self).balances@ == old(self).balances@
                    &&& final(self).allowances@ == old(self).allowances@
                },
            },
    {
        if let Some(e) = check_caller(self.config.admin, admin) {
            return Err(e);
        }
        self.config.governance_contract = Some(contract);
        Ok(())
    }

    /// The treasury account, once set.
    pub fn get_treasury(&self) -> (r: Option<AccountId>)
        ensures
            r == self.config.treasury,
    {
        self.config.treasury
    }

    /// The safety fund account, once set.
    pub fn get_safety_fund(&self) -> (r: Option<AccountId>)
        ensures
            r == self.config.safety_fund,
    {
        self.config.safety_fund
    }

    /// The escrow contract, once set.
    pub fn get_mithaq_contract(&self) -> (r: Option<AccountId>)
        ensures
            r == self.config.mithaq_contract,
    {
        self.config.mithaq_contract
    }

    /// The admin, once set.
    pub fn get_token_admin(&self) -> (r: Option<AccountId>)
        ensures
            r == self.config.admin,
    {
        self.config.admin
    }

    /// The governance contract, once set.
    pub fn get_governance_contract(&self) -> (r: Option<AccountId>)
        ensures
            r == self.config.governance_contract,
    {
        self.config.governance_contract
    }

    /// The platform and insurance fee rates in basis points.
    pub fn get_fee_rates(&self) -> (r: (i128, i128))
        ensures
            r.0 as int == self.platform_rate(),
            r.1 as int == self.insurance_rate(),
    {
        let platform: i128 = match self.config.platform_fee_rate_bps {
            Some(x) => x,
            None => DEFAULT_PLATFORM_FEE_RATE_BPS,
        };
        let insurance: i128 = match self.config.insurance_fee_rate_bps {
            Some(x) => x,
            None => DEFAULT_INSURANCE_FEE_RATE_BPS,
        };
        (platform, insurance)
    }
}

/// A movement between two different accounts takes `amount` from the sender, gives it to the
/// receiver, keeps their combined balance, and leaves every other balance as it was.
pub proof fn law_movement_conserves(
    m: Map<AccountId, i128>,
    from: AccountId,
    to: AccountId,
    amount: int,
    other: AccountId,
)
    requires
        from != to,
        common::fits_i128(common::bal(m, from) - amount),
        common::fits_i128(common::bal(m, to) + amount),
    ensures
        common::bal(common::moved(m, from, to, amount), from) == common::bal(m, from) - amount,
        common::bal(common::moved(m, from, to, amount), to) == common::bal(m, to) + amount,
        common::bal(common::moved(m, from, to, amount), from) + common::bal(
            common::moved(m, from, to, amount),
            to,
        ) == common::bal(m, from) + common::bal(m, to),
        other != from && other != to ==> common::bal(common::moved(m, from, to, amount), other)
            == common::bal(m, other),
{
}

/// An accepted transfer keeps the sum of the two balances and touches no other account.
pub proof fn law_transfer_conserves(t: AzmanToken, from: AccountId, to: AccountId, amount: i128, other: AccountId)
    requires
        t.transfer_error(from, to, amount) is None,
    ensures
        common::bal(common::moved(t.balances@, from, to, amount as int), from) + common::bal(
            common::moved(t.balances@, from, to, amount as int),
            to,
        ) == t.balance_of(from) + t.balance_of(to),
        other != from && other != to ==> common::bal(
            common::moved(t.balances@, from, to, amount as int),
            other,
        ) == t.balance_of(other),
{
    law_movement_conserves(t.balances@, from, to, amount as int, other);
}

/// After an approval, the allowance reads back the approved amount until its expiration
/// ledger and zero from then on; the allowances between other pairs of accounts do not
/// change.
pub proof fn law_approval_reads_back(
    t: AzmanToken,
    t2: AzmanToken,
    from: AccountId,
    spender: AccountId,
    amount: i128,
    expiration_ledger: u32,
    ledger: u32,
    other_from: AccountId,
    other_spender: AccountId,
)
    requires
        t2.allowances@ == t.allowances@.insert(
            common::pair_slot(from, spender),
            AllowanceValue { amount, expiration_ledger },
        ),
    ensures
        t2.allowance_at(from, spender, ledger) == if expiration_ledger > ledger {
            amount
        } else {
            0
        },
        (other_from, other_spender) != (from, spender) ==> t2.allowance_at(
            other_from,
            other_spender,
            ledger,
        ) == t.allowance_at(other_from, other_spender, ledger),
{
    common::lemma_pair_slot_injective(from, spender, other_from, other_spender);
}

/// Charging fees on a nonnegative amount at nonnegative rates creates no tokens: the payer
/// pays the two fees together, the treasury receives the platform fee and the safety fund the
/// insurance fee, and no other balance changes, whether or not these accounts coincide.
pub proof fn law_fees_conserve(
    t: AzmanToken,
    mithaq_contract: AccountId,
    payer: AccountId,
    total_amount: i128,
    k: AccountId,
)
    requires
        t.fees_error(mithaq_contract, payer, total_amount) is None,
        total_amount >= 0,
        t.platform_rate() >= 0,
        t.insurance_rate() >= 0,
    ensures
        ({
            let (pf, inf) = t.fee_parts(total_amount);
            &&& pf >= 0
            &&& inf >= 0
            &&& common::bal(t.fees_balances(payer, total_amount), k) - t.balance_of(k) == (if k
                == t.config.treasury.unwrap() {
                pf
            } else {
                0
            }) + (if k == t.config.safety_fund.unwrap() {
                inf
            } else {
                0
            }) - (if k == payer {
                pf + inf
            } else {
                0
            })
        }),
{
    let (pf, inf) = t.fee_parts(total_amount);
    assert(total_amount * t.platform_rate() >= 0) by (nonlinear_arith)
        requires
            total_amount >= 0,
            t.platform_rate() >= 0,
    ;
    assert(total_amount * t.insurance_rate() >= 0) by (nonlinear_arith)
        requires
            total_amount >= 0,
            t.insurance_rate() >= 0,
    ;
    assert(pf >= 0 && inf >= 0);
}

} // verus!
