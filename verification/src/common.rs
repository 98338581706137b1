use vstd::prelude::*;

verus! {

/// An account or contract address, held as a plain identifier.
pub type AccountId = u64;

/// A byte string: the library's form of the platform's text values.
pub type Text = Vec<u8>;

/// Division that rounds toward zero, as integer division does on the machine.
pub open spec fn tdiv(a: int, b: int) -> int {
    if a >= 0 {
        a / b
    } else {
        -((-a) / b)
    }
}

/// The largest value of an `i128`, as a mathematical integer.
pub open spec fn fits_i128(x: int) -> bool {
    i128::MIN <= x <= i128::MAX
}

/// The balance that a map of balances holds for `k`: absent accounts hold zero.
pub open spec fn bal(m: Map<AccountId, i128>, k: AccountId) -> int {
    if m.contains_key(k) {
        m[k] as int
    } else {
        0
    }
}

/// `m` with `amount` added to the balance of `k`.
pub open spec fn credit(m: Map<AccountId, i128>, k: AccountId, amount: int) -> Map<AccountId, i128> {
    m.insert(k, (bal(m, k) + amount) as i128)
}

/// `m` with `amount` taken from the balance of `k`.
pub open spec fn debit(m: Map<AccountId, i128>, k: AccountId, amount: int) -> Map<AccountId, i128> {
    m.insert(k, (bal(m, k) - amount) as i128)
}

/// `m` after `amount` moved from `from` to `to`: the debit is made first, then the credit.
pub open spec fn moved(m: Map<AccountId, i128>, from: AccountId, to: AccountId, amount: int) -> Map<
    AccountId,
    i128,
> {
    credit(debit(m, from, amount), to, amount)
}

/// The slot under which a pair of accounts is kept in a map keyed by one integer.
pub open spec fn pair_slot(a: AccountId, b: AccountId) -> u128 {
    (a as int * 0x1_0000_0000_0000_0000 + b as int) as u128
}

/// Computes the slot of the pair `(a, b)`.
pub fn slot_of(a: AccountId, b: AccountId) -> (s: u128)
    ensures
        s == pair_slot(a, b),
        s as int == a as int * 0x1_0000_0000_0000_0000 + b as int,
{
    (a as u128) * 0x1_0000_0000_0000_0000u128 + (b as u128)
}

/// Distinct pairs of accounts have distinct slots.
pub proof fn lemma_pair_slot_injective(a: AccountId, b: AccountId, c: AccountId, d: AccountId)
    ensures
        pair_slot(a, b) == pair_slot(c, d) <==> (a == c && b == d),
{
    assert(a as int * 0x1_0000_0000_0000_0000 + b as int == c as int * 0x1_0000_0000_0000_0000
        + d as int ==> a == c && b == d) by (nonlinear_arith);
}

/// Whether two byte strings hold the same bytes.
pub fn texts_equal(a: &Text, b: &Text) -> (r: bool)
    ensures
        r == (a@ == b@),
{
    if a.len() != b.len() {
        return false;
    }
    let n = a.len();
    let mut i: usize = 0;
    while i < n
        invariant
            n == a.len(),
            n == b.len(),
            i <= n,
            forall|j: int| 0 <= j < i ==> a@[j] == b@[j],
        decreases n - i,
    {
        if a[i] != b[i] {
            return false;
        }
        i = i + 1;
    }
    assert(a@ =~= b@);
    true
}

/// A copy of a byte string.
pub fn copy_text(t: &Text) -> (r: Text)
    ensures
        r@ == t@,
{
    let r = t.clone();
    assert(r@ =~= t@);
    r
}

} // verus!

verus! {

/// Whether `t` holds exactly the bytes of `lit`.
pub fn text_matches(t: &Text, lit: &[u8]) -> (r: bool)
    ensures
        r == (t@ == lit@),
{
    if t.len() != lit.len() {
        return false;
    }
    let n = t.len();
    let mut i: usize = 0;
    while i < n
        invariant
            n == t.len(),
            n == lit@.len(),
            i <= n,
            forall|j: int| 0 <= j < i ==> t@[j] == lit@[j],
        decreases n - i,
    {
        if t[i] != lit[i] {
            return false;
        }
        i = i + 1;
    }
    assert(t@ =~= lit@);
    true
}

/// A movement of tokens that a contract asks its token to carry out.
#[derive(Clone, Copy, Debug, PartialEq, Eq, Structural)]
pub enum Movement {
    /// `amount` of `token` moves from `from` into the contract.
    ToContract { token: AccountId, from: AccountId, amount: i128 },
    /// `amount` of `token` moves out of the contract to `to`.
    FromContract { token: AccountId, to: AccountId, amount: i128 },
}

} // verus!
