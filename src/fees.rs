use vstd::prelude::*;

verus! {

/// Percentage of a settled total that the platform keeps.
pub const PLATFORM_FEE_PERCENT: u64 = 10;

/// The platform's share of a settled total, rounded down.
pub open spec fn platform_share(total: nat) -> nat {
    total * 10 / 100
}

/// How a settled total is divided between the item owner and the platform.
#[derive(Clone, Copy, Debug, PartialEq, Eq)]
pub struct FeeSplit {
    pub owner_share: u64,
    pub platform_share: u64,
}

/// Splits `total` into the platform fee and the owner's remainder; any
/// rounding remainder stays with the owner.
pub fn split_fee(total: u64) -> (r: FeeSplit)
    ensures
        r.platform_share == platform_share(total as nat),
        r.owner_share + r.platform_share == total,
{
    let wide: u128 = total as u128;
    assert(wide * 10 <= u128::MAX) by (nonlinear_arith)
        requires
            wide <= u64::MAX,
    ;
    let fee_wide: u128 = wide * (PLATFORM_FEE_PERCENT as u128) / 100;
    proof {
        assert(fee_wide <= total) by (nonlinear_arith)
            requires
                fee_wide == (total as int) * 10 / 100,
        ;
    }
    let system_fee = fee_wide as u64;
    FeeSplit { owner_share: total - system_fee, platform_share: system_fee }
}

/// A split never loses or creates funds: the two shares add up to the total,
/// and the owner never receives less than the platform.
pub proof fn lemma_split_is_exact(total: u64)
    ensures
        platform_share(total as nat) <= total,
        (total - platform_share(total as nat)) + platform_share(total as nat) == total,
        platform_share(total as nat) <= total - platform_share(total as nat),
{
    assert(platform_share(total as nat) <= total / 2) by (nonlinear_arith)
        requires
            platform_share(total as nat) == (total as int) * 10 / 100,
    ;
}

} // verus!
