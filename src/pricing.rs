use vstd::prelude::*;

verus! {

/// Hours in one day of rental.
pub const HOURS_PER_DAY: u64 = 24;

/// Cost of renting for `hours` at the hourly rate alone.
pub open spec fn hourly_total(price_per_hour: nat, hours: nat) -> nat {
    price_per_hour * hours
}

/// Cost of renting for `hours` as whole days at the daily rate plus the
/// remaining hours at the hourly rate.
pub open spec fn daily_total(price_per_hour: nat, price_per_day: nat, hours: nat) -> nat {
    price_per_day * (hours / 24) + price_per_hour * (hours % 24)
}

/// The price of a rental: the cheaper of the two schemes.
pub open spec fn rental_price(price_per_hour: nat, price_per_day: nat, hours: nat) -> nat {
    let h = hourly_total(price_per_hour, hours);
    let d = daily_total(price_per_hour, price_per_day, hours);
    if h > d { d } else { h }
}

/// Whether every product and sum of the computation fits in a `u64`.
pub open spec fn price_fits(price_per_hour: nat, price_per_day: nat, hours: nat) -> bool {
    &&& hourly_total(price_per_hour, hours) <= u64::MAX
    &&& price_per_day * (hours / 24) <= u64::MAX
    &&& daily_total(price_per_hour, price_per_day, hours) <= u64::MAX
}

/// Computes the rental price with every operation checked; `None` when one
/// of them overflows.
pub fn checked_rental_price(price_per_hour: u64, price_per_day: u64, hours: u64) -> (r: Option<
    u64,
>)
    ensures
        r is Some <==> price_fits(price_per_hour as nat, price_per_day as nat, hours as nat),
        r matches Some(p) ==> p == rental_price(
            price_per_hour as nat,
            price_per_day as nat,
            hours as nat,
        ),
{
    let total_hour_price = match price_per_hour.checked_mul(hours) {
        Some(v) => v,
        None => return None,
    };
    let days = hours / HOURS_PER_DAY;
    let remaining_hours = hours % HOURS_PER_DAY;
    let daily_rate_total = match price_per_day.checked_mul(days) {
        Some(v) => v,
        None => return None,
    };
    proof {
        assert(price_per_hour * remaining_hours <= price_per_hour * hours) by (nonlinear_arith)
            requires
                remaining_hours <= hours,
        ;
    }
    let hourly_rate_for_remaining = price_per_hour * remaining_hours;
    let total_day_price = match daily_rate_total.checked_add(hourly_rate_for_remaining) {
        Some(v) => v,
        None => return None,
    };
    if total_hour_price > total_day_price {
        Some(total_day_price)
    } else {
        Some(total_hour_price)
    }
}

} // verus!
