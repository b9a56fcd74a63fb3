//! The arithmetic that the secure-computation cluster runs on secret-shared
//! inputs, stated on plain values. Overflow fails closed: a circuit that would
//! leave the unsigned 64-bit domain yields no output.
use vstd::prelude::*;

verus! {

/// The scale of the rebalance price: a price of 1000 means one unit of token B
/// per unit of token A.
pub const PRICE_SCALE: u64 = 1000;

/// Input of the deposit circuit.
#[derive(Clone, Copy, Debug, PartialEq, Eq)]
pub struct DepositInput {
    pub amount_a: u64,
    pub amount_b: u64,
    pub tick_lower: i32,
    pub tick_upper: i32,
}

/// A position as the deposit circuit returns it.
#[derive(Clone, Copy, Debug, PartialEq, Eq)]
pub struct PositionData {
    pub amount_a: u64,
    pub amount_b: u64,
    pub tick_lower: i32,
    pub tick_upper: i32,
    pub liquidity: u64,
}

/// Input of the rebalance circuit.
#[derive(Clone, Copy, Debug, PartialEq, Eq)]
pub struct RebalanceInput {
    pub current_amount_a: u64,
    pub current_amount_b: u64,
    pub current_tick_lower: i32,
    pub current_tick_upper: i32,
    pub new_tick_lower: i32,
    pub new_tick_upper: i32,
    pub current_price_x64: u64,
}

/// Output of the rebalance circuit.
#[derive(Clone, Copy, Debug, PartialEq, Eq)]
pub struct RebalanceOutput {
    pub new_amount_a: u64,
    pub new_amount_b: u64,
    pub new_tick_lower: i32,
    pub new_tick_upper: i32,
    pub new_liquidity: u64,
}

/// Input of the view circuit.
#[derive(Clone, Copy, Debug, PartialEq, Eq)]
pub struct ViewInput {
    pub amount_a: u64,
    pub amount_b: u64,
    pub tick_lower: i32,
    pub tick_upper: i32,
    pub liquidity: u64,
}

/// Output of the view circuit.
#[derive(Clone, Copy, Debug, PartialEq, Eq)]
pub struct ViewOutput {
    pub amount_a: u64,
    pub amount_b: u64,
    pub tick_lower: i32,
    pub tick_upper: i32,
    pub liquidity: u64,
}

/// Whether `x` is a value of the unsigned 64-bit domain.
pub open spec fn fits_u64(x: int) -> bool {
    0 <= x <= u64::MAX
}

/// Liquidity of a deposit: the sum of both amounts.
pub open spec fn deposit_liquidity(input: DepositInput) -> int {
    input.amount_a + input.amount_b
}

/// Value of the A side, in units of B.
pub open spec fn rebalance_value_a(input: RebalanceInput) -> int {
    (input.current_amount_a as int * input.current_price_x64 as int) / PRICE_SCALE as int
}

pub open spec fn rebalance_total(input: RebalanceInput) -> int {
    rebalance_value_a(input) + input.current_amount_b
}

pub open spec fn rebalance_half(input: RebalanceInput) -> int {
    rebalance_total(input) / 2
}

/// The new amount of A: half the value converted back at the price, or nothing at a zero price.
pub open spec fn rebalance_new_amount_a(input: RebalanceInput) -> int {
    if input.current_price_x64 > 0 {
        (rebalance_half(input) * PRICE_SCALE as int) / input.current_price_x64 as int
    } else {
        0
    }
}

pub open spec fn rebalance_new_liquidity(input: RebalanceInput) -> int {
    rebalance_new_amount_a(input) + rebalance_half(input)
}

/// Every intermediate value of the rebalance stays in the unsigned 64-bit domain.
pub open spec fn rebalance_in_range(input: RebalanceInput) -> bool {
    &&& fits_u64(input.current_amount_a as int * input.current_price_x64 as int)
    &&& fits_u64(rebalance_total(input))
    &&& input.current_price_x64 > 0 ==> fits_u64(rebalance_half(input) * PRICE_SCALE as int)
    &&& fits_u64(rebalance_new_liquidity(input))
}

/// Deposit: records the position with its liquidity, the sum of both amounts.
pub fn encrypted_deposit(input: DepositInput) -> (r: Option<PositionData>)
    ensures
        r.is_some() == fits_u64(deposit_liquidity(input)),
        r matches Some(p) ==> {
            &&& p.amount_a == input.amount_a
            &&& p.amount_b == input.amount_b
            &&& p.tick_lower == input.tick_lower
            &&& p.tick_upper == input.tick_upper
            &&& p.liquidity == deposit_liquidity(input)
        },
{
    let liquidity = match input.amount_a.checked_add(input.amount_b) {
        Some(l) => l,
        None => return None,
    };
    Some(PositionData {
        amount_a: input.amount_a,
        amount_b: input.amount_b,
        tick_lower: input.tick_lower,
        tick_upper: input.tick_upper,
        liquidity,
    })
}

/// Rebalance: splits the position's value evenly between both tokens at the
/// current price, and moves it to the new tick range.
pub fn encrypted_rebalance(input: RebalanceInput) -> (r: Option<RebalanceOutput>)
    ensures
        r.is_some() == rebalance_in_range(input),
        r matches Some(o) ==> {
            &&& o.new_amount_a == rebalance_new_amount_a(input)
            &&& o.new_amount_b == rebalance_half(input)
            &&& o.new_tick_lower == input.new_tick_lower
            &&& o.new_tick_upper == input.new_tick_upper
            &&& o.new_liquidity == rebalance_new_liquidity(input)
        },
{
    let product = match input.current_amount_a.checked_mul(input.current_price_x64) {
        Some(p) => p,
        None => return None,
    };
    let value_a = product / PRICE_SCALE;
    let total_value = match value_a.checked_add(input.current_amount_b) {
        Some(t) => t,
        None => return None,
    };
    let half = total_value / 2;
    let new_amount_b = half;
    let new_amount_a = if input.current_price_x64 > 0 {
        let scaled = match half.checked_mul(PRICE_SCALE) {
            Some(s) => s,
            None => return None,
        };
        scaled / input.current_price_x64
    } else {
        0
    };
    let new_liquidity = match new_amount_a.checked_add(new_amount_b) {
        Some(l) => l,
        None => return None,
    };
    Some(RebalanceOutput {
        new_amount_a,
        new_amount_b,
        new_tick_lower: input.new_tick_lower,
        new_tick_upper: input.new_tick_upper,
        new_liquidity,
    })
}

/// View: hands the position's attributes on unchanged, for another recipient.
pub fn view_position(input: ViewInput) -> (r: ViewOutput)
    ensures
        r.amount_a == input.amount_a,
        r.amount_b == input.amount_b,
        r.tick_lower == input.tick_lower,
        r.tick_upper == input.tick_upper,
        r.liquidity == input.liquidity,
{
    ViewOutput {
        amount_a: input.amount_a,
        amount_b: input.amount_b,
        tick_lower: input.tick_lower,
        tick_upper: input.tick_upper,
        liquidity: input.liquidity,
    }
}

/// At a zero price the rebalance always succeeds and leaves no amount of A,
/// whatever the other inputs.
pub proof fn lemma_zero_price_rebalance(input: RebalanceInput)
    requires
        input.current_price_x64 == 0,
    ensures
        rebalance_in_range(input),
        rebalance_new_amount_a(input) == 0,
{
    assert(input.current_amount_a as int * 0 == 0);
}

} // verus!
