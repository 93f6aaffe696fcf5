//! The constant-product rule `x * y = k`, before any fee, and the
//! proportional conversion between pool shares and the two assets.

use vstd::prelude::*;
use crate::curve::division::{
    ceil_div,
    divide_rounded,
    lemma_ceil_div_bounds,
    lemma_div_mod_parts,
    round_div,
    RoundDirection,
};
use crate::error::ErrorCode;

verus! {

/// The destination reserve that keeps the product once `source_amount` has
/// joined the source reserve: `x * y / (x + source_amount)`, rounded down.
pub open spec fn destination_reserve_after_input(
    source_amount: nat,
    swap_source_amount: nat,
    swap_destination_amount: nat,
) -> nat
    recommends
        swap_source_amount + source_amount > 0,
{
    (swap_source_amount * swap_destination_amount) / (swap_source_amount + source_amount)
}

/// What a swap of `source_amount` hands out, before any fee: the
/// destination reserve less what must stay.  Nothing going into an empty
/// source reserve, and an output of zero, are both turned down.
pub open spec fn swap_base_input_without_fees_spec(
    source_amount: nat,
    swap_source_amount: nat,
    swap_destination_amount: nat,
) -> Result<nat, ErrorCode> {
    if swap_source_amount + source_amount == 0 {
        Err(ErrorCode::ZeroTradingOutput)
    } else {
        let kept = destination_reserve_after_input(
            source_amount,
            swap_source_amount,
            swap_destination_amount,
        );
        if kept >= swap_destination_amount {
            Err(ErrorCode::ZeroTradingOutput)
        } else {
            Ok((swap_destination_amount - kept) as nat)
        }
    }
}

/// The source reserve that keeps the product once `destination_amount` has
/// left the destination reserve: `x * y / (y - destination_amount)`,
/// rounded up.
pub open spec fn source_reserve_for_output(
    destination_amount: nat,
    swap_source_amount: nat,
    swap_destination_amount: nat,
) -> nat
    recommends
        destination_amount < swap_destination_amount,
{
    ceil_div(
        swap_source_amount * swap_destination_amount,
        (swap_destination_amount - destination_amount) as nat,
    )
}

/// What must come in, before any fee, for `destination_amount` to go out.
/// The whole destination reserve, or more, cannot be asked for.
pub open spec fn swap_base_output_without_fees_spec(
    destination_amount: nat,
    swap_source_amount: nat,
    swap_destination_amount: nat,
) -> Result<nat, ErrorCode> {
    if destination_amount >= swap_destination_amount {
        Err(ErrorCode::InsufficientLiquidity)
    } else {
        Ok(
            (source_reserve_for_output(
                destination_amount,
                swap_source_amount,
                swap_destination_amount,
            ) - swap_source_amount) as nat,
        )
    }
}

/// The amounts of the two assets that stand behind a number of pool shares.
pub struct TradingTokenAmounts {
    pub token_0_amount: nat,
    pub token_1_amount: nat,
}

/// The amounts of the two assets that stand behind a number of pool shares,
/// as the machine carries them.
#[derive(Clone, Copy, Debug, PartialEq, Eq)]
pub struct TradingTokenResult {
    /// Amount of the first asset.
    pub token_0_amount: u128,
    /// Amount of the second asset.
    pub token_1_amount: u128,
}

impl View for TradingTokenResult {
    type V = TradingTokenAmounts;

    open spec fn view(&self) -> TradingTokenAmounts {
        TradingTokenAmounts {
            token_0_amount: self.token_0_amount as nat,
            token_1_amount: self.token_1_amount as nat,
        }
    }
}

/// The share of each reserve that `lp_token_amount` out of `lp_token_supply`
/// shares stands for, each rounded as `round_direction` says.  A pool
/// without shares, and a conversion that yields nothing of either asset,
/// are turned down.
pub open spec fn lp_tokens_to_trading_tokens_spec(
    lp_token_amount: nat,
    lp_token_supply: nat,
    swap_token_0_amount: nat,
    swap_token_1_amount: nat,
    round_direction: RoundDirection,
) -> Result<TradingTokenAmounts, ErrorCode> {
    if lp_token_supply == 0 {
        Err(ErrorCode::ZeroComputedAmount)
    } else {
        let token_0_amount = round_div(
            lp_token_amount * swap_token_0_amount,
            lp_token_supply,
            round_direction,
        );
        let token_1_amount = round_div(
            lp_token_amount * swap_token_1_amount,
            lp_token_supply,
            round_direction,
        );
        if token_0_amount == 0 && token_1_amount == 0 {
            Err(ErrorCode::ZeroComputedAmount)
        } else {
            Ok(TradingTokenAmounts { token_0_amount, token_1_amount })
        }
    }
}

/// [`swap_base_input_without_fees_spec`] on 128-bit values: where the
/// product of the reserves or the new source reserve does not fit, nothing
/// is computed.
pub open spec fn swap_base_input_without_fees_checked(
    source_amount: u128,
    swap_source_amount: u128,
    swap_destination_amount: u128,
) -> Result<nat, ErrorCode> {
    if swap_source_amount * swap_destination_amount > u128::MAX || swap_source_amount
        + source_amount > u128::MAX {
        Err(ErrorCode::ArithmeticOverflow)
    } else {
        swap_base_input_without_fees_spec(
            source_amount as nat,
            swap_source_amount as nat,
            swap_destination_amount as nat,
        )
    }
}

/// [`swap_base_output_without_fees_spec`] on 128-bit values: a request
/// within the reserve is still turned down where the product of the
/// reserves does not fit.
pub open spec fn swap_base_output_without_fees_checked(
    destination_amount: u128,
    swap_source_amount: u128,
    swap_destination_amount: u128,
) -> Result<nat, ErrorCode> {
    if destination_amount < swap_destination_amount && swap_source_amount
        * swap_destination_amount > u128::MAX {
        Err(ErrorCode::ArithmeticOverflow)
    } else {
        swap_base_output_without_fees_spec(
            destination_amount as nat,
            swap_source_amount as nat,
            swap_destination_amount as nat,
        )
    }
}

/// [`lp_tokens_to_trading_tokens_spec`] on 128-bit values: with shares
/// outstanding, the conversion is still turned down where a product of the
/// share amount and a reserve does not fit.
pub open spec fn lp_tokens_to_trading_tokens_checked(
    lp_token_amount: u128,
    lp_token_supply: u128,
    swap_token_0_amount: u128,
    swap_token_1_amount: u128,
    round_direction: RoundDirection,
) -> Result<TradingTokenAmounts, ErrorCode> {
    if lp_token_supply > 0 && (lp_token_amount * swap_token_0_amount > u128::MAX
        || lp_token_amount * swap_token_1_amount > u128::MAX) {
        Err(ErrorCode::ArithmeticOverflow)
    } else {
        lp_tokens_to_trading_tokens_spec(
            lp_token_amount as nat,
            lp_token_supply as nat,
            swap_token_0_amount as nat,
            swap_token_1_amount as nat,
            round_direction,
        )
    }
}

/// The destination reserve never grows when something comes in.
pub proof fn lemma_destination_reserve_after_input_bound(
    source_amount: nat,
    swap_source_amount: nat,
    swap_destination_amount: nat,
)
    requires
        swap_source_amount + source_amount > 0,
    ensures
        destination_reserve_after_input(source_amount, swap_source_amount, swap_destination_amount)
            <= swap_destination_amount,
{
    let k = swap_source_amount * swap_destination_amount;
    let d = swap_source_amount + source_amount;
    let q = k / d;
    lemma_div_mod_parts(k, d);
    assert(q <= swap_destination_amount) by (nonlinear_arith)
        requires
            d > 0,
            q * d <= k,
            k == swap_source_amount * swap_destination_amount,
            d == swap_source_amount + source_amount,
    ;
}

/// The source reserve never shrinks when something goes out.
pub proof fn lemma_source_reserve_for_output_bound(
    destination_amount: nat,
    swap_source_amount: nat,
    swap_destination_amount: nat,
)
    requires
        destination_amount < swap_destination_amount,
    ensures
        source_reserve_for_output(destination_amount, swap_source_amount, swap_destination_amount)
            >= swap_source_amount,
{
    let k = swap_source_amount * swap_destination_amount;
    let d = (swap_destination_amount - destination_amount) as nat;
    let c = ceil_div(k, d);
    lemma_ceil_div_bounds(k, d);
    assert(c >= swap_source_amount) by (nonlinear_arith)
        requires
            d > 0,
            c * d >= k,
            k == swap_source_amount * swap_destination_amount,
            d <= swap_destination_amount,
    ;
}

/// The product rule and the share conversion.
pub struct ConstantProductCurve {}

impl ConstantProductCurve {
    /// The amount that leaves the destination reserve when `source_amount`
    /// joins the source reserve, before any fee.  What stays is
    /// `x * y / (x + source_amount)`, rounded down.
    pub fn swap_base_input_without_fees(
        source_amount: u128,
        swap_source_amount: u128,
        swap_destination_amount: u128,
    ) -> (destination_amount_swapped: Result<u128, ErrorCode>)
        ensures
            match destination_amount_swapped {
                Ok(amount) => swap_base_input_without_fees_checked(
                    source_amount,
                    swap_source_amount,
                    swap_destination_amount,
                ) == Ok::<nat, ErrorCode>(amount as nat),
                Err(e) => swap_base_input_without_fees_checked(
                    source_amount,
                    swap_source_amount,
                    swap_destination_amount,
                ) == Err::<nat, ErrorCode>(e),
            },
    {
        let product: u128 = match swap_source_amount.checked_mul(swap_destination_amount) {
            Some(product) => product,
            None => { return Err(ErrorCode::ArithmeticOverflow); },
        };
        let divisor: u128 = match swap_source_amount.checked_add(source_amount) {
            Some(divisor) => divisor,
            None => { return Err(ErrorCode::ArithmeticOverflow); },
        };
        if divisor == 0 {
            return Err(ErrorCode::ZeroTradingOutput);
        }
        let kept: u128 = product / divisor;
        proof {
            lemma_destination_reserve_after_input_bound(
                source_amount as nat,
                swap_source_amount as nat,
                swap_destination_amount as nat,
            );
        }
        if kept >= swap_destination_amount {
            Err(ErrorCode::ZeroTradingOutput)
        } else {
            Ok(swap_destination_amount - kept)
        }
    }

    /// The amount that must join the source reserve, before any fee, for
    /// `destination_amount` to leave the destination reserve.  The source
    /// reserve must reach `x * y / (y - destination_amount)`, rounded up.
    pub fn swap_base_output_without_fees(
        destination_amount: u128,
        swap_source_amount: u128,
        swap_destination_amount: u128,
    ) -> (source_amount_swapped: Result<u128, ErrorCode>)
        ensures
            match source_amount_swapped {
                Ok(amount) => swap_base_output_without_fees_checked(
                    destination_amount,
                    swap_source_amount,
                    swap_destination_amount,
                ) == Ok::<nat, ErrorCode>(amount as nat),
                Err(e) => swap_base_output_without_fees_checked(
                    destination_amount,
                    swap_source_amount,
                    swap_destination_amount,
                ) == Err::<nat, ErrorCode>(e),
            },
    {
        if destination_amount >= swap_destination_amount {
            return Err(ErrorCode::InsufficientLiquidity);
        }
        let product: u128 = match swap_source_amount.checked_mul(swap_destination_amount) {
            Some(product) => product,
            None => { return Err(ErrorCode::ArithmeticOverflow); },
        };
        let needed: u128 = divide_rounded(
            product,
            swap_destination_amount - destination_amount,
            RoundDirection::Ceiling,
        );
        proof {
            lemma_source_reserve_for_output_bound(
                destination_amount as nat,
                swap_source_amount as nat,
                swap_destination_amount as nat,
            );
        }
        Ok(needed - swap_source_amount)
    }

    /// The amounts of the two assets that `lp_token_amount` shares stand
    /// for, out of `lp_token_supply` shares over the two reserves.
    pub fn lp_tokens_to_trading_tokens(
        lp_token_amount: u128,
        lp_token_supply: u128,
        swap_token_0_amount: u128,
        swap_token_1_amount: u128,
        round_direction: RoundDirection,
    ) -> (amounts: Result<TradingTokenResult, ErrorCode>)
        ensures
            match amounts {
                Ok(result) => lp_tokens_to_trading_tokens_checked(
                    lp_token_amount,
                    lp_token_supply,
                    swap_token_0_amount,
                    swap_token_1_amount,
                    round_direction,
                ) == Ok::<TradingTokenAmounts, ErrorCode>(result@),
                Err(e) => lp_tokens_to_trading_tokens_checked(
                    lp_token_amount,
                    lp_token_supply,
                    swap_token_0_amount,
                    swap_token_1_amount,
                    round_direction,
                ) == Err::<TradingTokenAmounts, ErrorCode>(e),
            },
    {
        if lp_token_supply == 0 {
            return Err(ErrorCode::ZeroComputedAmount);
        }
        let product_0: u128 = match lp_token_amount.checked_mul(swap_token_0_amount) {
            Some(product) => product,
            None => { return Err(ErrorCode::ArithmeticOverflow); },
        };
        let product_1: u128 = match lp_token_amount.checked_mul(swap_token_1_amount) {
            Some(product) => product,
            None => { return Err(ErrorCode::ArithmeticOverflow); },
        };
        let token_0_amount: u128 = divide_rounded(product_0, lp_token_supply, round_direction);
        let token_1_amount: u128 = divide_rounded(product_1, lp_token_supply, round_direction);
        if token_0_amount == 0 && token_1_amount == 0 {
            Err(ErrorCode::ZeroComputedAmount)
        } else {
            Ok(TradingTokenResult { token_0_amount, token_1_amount })
        }
    }
}

} // verus!
