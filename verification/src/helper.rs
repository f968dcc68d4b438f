//! Coin arithmetic: denomination-checked addition and summation over
//! non-negative amounts. The only place monetary arithmetic happens.

use vstd::prelude::*;

use crate::error::ContractError;
use crate::ATOM_DENOM;
use vstd::string::StringExecFns;

verus! {

/// An amount of a single denomination.
#[derive(Debug, PartialEq, Eq)]
pub struct Coin {
    pub denom: String,
    pub amount: u128,
}

impl Coin {
    pub fn new(amount: u128, denom: &str) -> (c: Coin)
        ensures
            c.amount == amount,
            c.denom@ == denom@,
    {
        Coin { denom: denom.to_string(), amount }
    }
}

impl Clone for Coin {
    fn clone(&self) -> (c: Self)
        ensures
            c == *self,
    {
        Coin { denom: self.denom.clone(), amount: self.amount }
    }
}

/// Every coin in the sequence has this denomination.
pub open spec fn all_denom(coins: Seq<Coin>, denom: Seq<char>) -> bool {
    forall|i: int| 0 <= i < coins.len() ==> coins[i].denom@ == denom
}

/// The mathematical sum of the amounts, free of any width limit.
pub open spec fn sum_amounts(coins: Seq<Coin>) -> int
    decreases coins.len(),
{
    if coins.len() == 0 {
        0
    } else {
        sum_amounts(coins.drop_last()) + coins.last().amount
    }
}

proof fn lemma_sum_take_succ(coins: Seq<Coin>, i: int)
    requires
        0 <= i < coins.len(),
    ensures
        sum_amounts(coins.take(i + 1)) == sum_amounts(coins.take(i)) + coins[i].amount,
{
    assert(coins.take(i + 1).drop_last() =~= coins.take(i));
    assert(coins.take(i + 1).last() == coins[i]);
}

proof fn lemma_sum_take_le(coins: Seq<Coin>, i: int)
    requires
        0 <= i <= coins.len(),
    ensures
        sum_amounts(coins.take(i)) <= sum_amounts(coins),
    decreases coins.len() - i,
{
    if i < coins.len() {
        lemma_sum_take_succ(coins, i);
        lemma_sum_take_le(coins, i + 1);
    } else {
        assert(coins.take(i) =~= coins);
    }
}

/// Denomination-checked addition; the amounts must not overflow.
pub fn add_coin(first: &Coin, second: &Coin) -> (r: Result<Coin, ContractError>)
    ensures
        r is Ok <==> (first.denom@ == second.denom@
            && first.amount + second.amount <= u128::MAX),
        r is Ok ==> (r->Ok_0.denom == first.denom
            && r->Ok_0.amount == first.amount + second.amount),
        first.denom@ != second.denom@
            ==> (r matches Err(e) && e.is_coin_operation(first.denom@, second.denom@)),
        (first.denom@ == second.denom@ && first.amount + second.amount > u128::MAX)
            ==> (r matches Err(e) && e is OverflowErr),
{
    if first.denom == second.denom {
        match first.amount.checked_add(second.amount) {
            Some(amount) => Ok(Coin { denom: first.denom.clone(), amount }),
            None => Err(ContractError::OverflowErr {}),
        }
    } else {
        Err(ContractError::CoinOperationErr {
            first: first.denom.clone(),
            second: second.denom.clone(),
        })
    }
}

/// Checks that every attached coin has the supported denomination.
pub fn validiate_denom(coins: &[Coin], denom: &str) -> (r: Result<(), ContractError>)
    ensures
        r is Ok <==> all_denom(coins@, denom@),
        !all_denom(coins@, denom@)
            ==> (r matches Err(e) && e.is_coin_supported_only(denom@)),
{
    let expected: String = denom.to_string();
    let mut i: usize = 0;
    while i < coins.len()
        invariant
            0 <= i <= coins@.len(),
            expected@ == denom@,
            forall|j: int| 0 <= j < i ==> coins@[j].denom@ == denom@,
        decreases coins@.len() - i,
    {
        if !(coins[i].denom == expected) {
            return Err(ContractError::CoinSupportedOnlyErr { denom: expected });
        }
        i = i + 1;
    }
    Ok(())
}

/// Validates the denomination of every coin, then folds them with
/// [`add_coin`] starting at zero.
pub fn collect_coins(coins: &[Coin], denom: &str) -> (r: Result<Coin, ContractError>)
    ensures
        r is Ok <==> (all_denom(coins@, denom@) && sum_amounts(coins@) <= u128::MAX),
        r is Ok ==> (r->Ok_0.denom@ == denom@ && r->Ok_0.amount == sum_amounts(coins@)),
        !all_denom(coins@, denom@)
            ==> (r matches Err(e) && e.is_coin_supported_only(denom@)),
        (all_denom(coins@, denom@) && sum_amounts(coins@) > u128::MAX)
            ==> (r matches Err(e) && e is OverflowErr),
{
    if let Err(e) = validiate_denom(coins, denom) {
        return Err(e);
    }
    let mut acc = Coin::new(0, denom);
    let mut i: usize = 0;
    while i < coins.len()
        invariant
            0 <= i <= coins@.len(),
            all_denom(coins@, denom@),
            acc.denom@ == denom@,
            acc.amount == sum_amounts(coins@.take(i as int)),
        decreases coins@.len() - i,
    {
        proof {
            lemma_sum_take_succ(coins@, i as int);
            assert(coins@[i as int].denom@ == denom@);
        }
        match add_coin(&acc, &coins[i]) {
            Ok(next) => {
                acc = next;
            },
            Err(_) => {
                proof {
                    lemma_sum_take_le(coins@, i as int + 1);
                }
                return Err(ContractError::OverflowErr {});
            },
        }
        i = i + 1;
    }
    proof {
        assert(coins@.take(coins@.len() as int) =~= coins@);
    }
    Ok(acc)
}

/// The decimal digit character for `d`.
pub open spec fn dec_char(d: int) -> char {
    if d == 0 {
        '0'
    } else if d == 1 {
        '1'
    } else if d == 2 {
        '2'
    } else if d == 3 {
        '3'
    } else if d == 4 {
        '4'
    } else if d == 5 {
        '5'
    } else if d == 6 {
        '6'
    } else if d == 7 {
        '7'
    } else if d == 8 {
        '8'
    } else {
        '9'
    }
}

/// The decimal digits of `n`, most significant first, no leading zeros.
pub open spec fn dec_str(n: u128) -> Seq<char>
    decreases n,
{
    if n < 10 {
        seq![dec_char(n as int)]
    } else {
        dec_str(n / 10) + seq![dec_char((n % 10) as int)]
    }
}

fn dec_digit_str(d: u128) -> (s: &'static str)
    requires
        d < 10,
    ensures
        s@ == seq![dec_char(d as int)],
{
    let s: &'static str = match d {
        0 => "0",
        1 => "1",
        2 => "2",
        3 => "3",
        4 => "4",
        5 => "5",
        6 => "6",
        7 => "7",
        8 => "8",
        _ => "9",
    };
    proof {
        reveal_strlit("0");
        reveal_strlit("1");
        reveal_strlit("2");
        reveal_strlit("3");
        reveal_strlit("4");
        reveal_strlit("5");
        reveal_strlit("6");
        reveal_strlit("7");
        reveal_strlit("8");
        reveal_strlit("9");
        assert(s@ =~= seq![dec_char(d as int)]);
    }
    s
}

/// Renders `n` in decimal, for observability attributes.
pub fn u128_to_string(n: u128) -> (s: String)
    ensures
        s@ == dec_str(n),
    decreases n,
{
    if n < 10 {
        dec_digit_str(n).to_string()
    } else {
        let mut s = u128_to_string(n / 10);
        s.append(dec_digit_str(n % 10));
        s
    }
}

/// Ten units of the supported denomination.
pub fn ten_atom() -> (c: Coin)
    ensures
        c.amount == 10,
        c.denom@ == ATOM_DENOM@,
{
    Coin::new(10, ATOM_DENOM)
}

/// Zero units of the supported denomination.
pub fn zero_atom() -> (c: Coin)
    ensures
        c.amount == 0,
        c.denom@ == ATOM_DENOM@,
{
    Coin::new(0, ATOM_DENOM)
}

} // verus!
