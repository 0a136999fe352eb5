use vstd::prelude::*;
use crate::fees::{platform_share, split_fee};
use crate::item_registration::{byte_len, set_availability, ItemAccount};
use crate::key::Key;
use crate::pricing::{checked_rental_price, price_fits, rental_price};

verus! {

/// Seconds in one hour of rental.
pub const SECONDS_PER_HOUR: u64 = 3600;

/// The rental engine's failures.
#[derive(Clone, Copy, Debug, PartialEq, Eq)]
pub enum ErrorCode {
    InvalidRentalState,
    InvalidStartTime,
    InvalidRentalDuration,
    ItemNotAvailable,
    ArithmeticOverflow,
    RentalNotYetConcluded,
    InvalidSystemAccount,
    Unauthorized,
    AccountMismatch,
    InsufficientFunds,
}

/// Where a rental stands: it starts Active and ends Completed or Cancelled.
#[derive(Clone, Copy, Debug, PartialEq, Eq, Structural)]
pub enum RentalState {
    Active,
    Completed,
    Cancelled,
}

/// One rental of one item by one renter.
#[derive(Clone, Copy, Debug, PartialEq, Eq)]
pub struct RentalTransaction {
    pub item: Key,
    pub renter: Key,
    pub owner: Key,
    pub start_time: i64,
    pub end_time: i64,
    pub total_price: u64,
    pub state: RentalState,
}

/// A signing party and the native balance that storage deposits return to.
#[derive(Clone, Copy, Debug, PartialEq, Eq)]
pub struct Party {
    pub key: Key,
    pub lamports: u64,
}

/// A fund account in the rental currency, held by `owner`.
#[derive(Clone, Copy, Debug, PartialEq, Eq)]
pub struct TokenAccount {
    pub owner: Key,
    pub mint: Key,
    pub amount: u64,
}

/// The custody holding of one rental: its spending authority is the pair
/// (`item`, `renter`) and no party's key; `deposit` is the storage deposit
/// returned when it closes.
#[derive(Clone, Copy, Debug, PartialEq, Eq)]
pub struct Custody {
    pub mint: Key,
    pub item: Key,
    pub renter: Key,
    pub amount: u64,
    pub deposit: u64,
    pub is_open: bool,
}

/// The platform's identity: the owner that the fee account must have.
#[derive(Clone, Copy, Debug, PartialEq, Eq)]
pub struct PlatformConfig {
    pub platform: Key,
}

/// The 32 bytes that a textual base58 address decodes to, or `None` when it
/// is no such address.
pub uninterp spec fn decoded_address(s: Seq<char>) -> Option<Seq<u8>>;

/// Relies on `Pubkey::from_str` (solana-program, through anchor_lang): an
/// address of more than 44 bytes is refused, any other is decoded from
/// base58 and accepted when it yields exactly 32 bytes.
#[verifier::external_body]
fn parse_address(s: &str) -> (r: Option<Key>)
    ensures
        r matches Some(k) ==> decoded_address(s@) == Some(k@),
        r is None ==> decoded_address(s@) is None,
        byte_len(s@) > 44 ==> r is None,
{
    <anchor_lang::solana_program::pubkey::Pubkey as std::str::FromStr>::from_str(s).ok().map(
        |p| Key::new(p.to_bytes()),
    )
}

impl PlatformConfig {
    /// A configuration whose platform identity is `platform`.
    pub fn new(platform: Key) -> (r: PlatformConfig)
        ensures
            r.platform == platform,
    {
        PlatformConfig { platform }
    }

    /// The configuration whose platform identity is written as a base58
    /// address; an address that does not decode to 32 bytes is refused.
    pub fn from_address(address: &str) -> (r: Result<PlatformConfig, ErrorCode>)
        ensures
            r matches Ok(c) ==> decoded_address(address@) == Some(c.platform@),
            r is Err <==> decoded_address(address@) is None,
            r matches Err(e) ==> e == ErrorCode::InvalidSystemAccount,
    {
        match parse_address(address) {
            Some(k) => Ok(PlatformConfig::new(k)),
            None => Err(ErrorCode::InvalidSystemAccount),
        }
    }
}

/// Whether `c` is open, in currency `mint`, under the authority of the pair
/// (`item`, `renter`).
pub open spec fn custody_bound_to(c: Custody, mint: Key, item: Key, renter: Key) -> bool {
    &&& c.is_open
    &&& c.mint@ == mint@
    &&& c.item@ == item@
    &&& c.renter@ == renter@
}

/// The same holding after it is emptied and closed.
pub open spec fn closed(c: Custody) -> Custody {
    Custody { amount: 0, deposit: 0, is_open: false, ..c }
}

impl Custody {
    fn is_bound_to(&self, mint: &Key, item: &Key, renter: &Key) -> (r: bool)
        ensures
            r == custody_bound_to(*self, *mint, *item, *renter),
    {
        self.is_open && self.mint.same_as(mint) && self.item.same_as(item) && self.renter.same_as(
            renter,
        )
    }
}

/// The price of renting for `hours`: the cheaper of the hourly and the daily
/// scheme, with every operation checked.
pub fn calculate_total_price(price_per_hour: u64, price_per_day: u64, hours: u64) -> (r: Result<
    u64,
    ErrorCode,
>)
    ensures
        r is Ok <==> price_fits(price_per_hour as nat, price_per_day as nat, hours as nat),
        r matches Ok(p) ==> p == rental_price(
            price_per_hour as nat,
            price_per_day as nat,
            hours as nat,
        ),
        r matches Err(e) ==> e == ErrorCode::ArithmeticOverflow,
{
    match checked_rental_price(price_per_hour, price_per_day, hours) {
        Some(p) => Ok(p),
        None => Err(ErrorCode::ArithmeticOverflow),
    }
}

/// The accounts that `initiate_rental` works on: both signing parties, the
/// item and its address, the record slot (empty until a rental is made), the
/// currency, the renter's funding account and the freshly opened custody.
#[derive(Clone, Debug, PartialEq, Eq)]
pub struct InitiateRental {
    pub renter: Party,
    pub owner: Party,
    pub item_key: Key,
    pub item_account: ItemAccount,
    pub rental_transaction: Option<RentalTransaction>,
    pub usdc_mint: Key,
    pub renter_usdc: TokenAccount,
    pub escrow_usdc: Custody,
}

/// The end of a rental of `hours` hours starting at `start_time`.
pub open spec fn rental_end(start_time: i64, hours: u64) -> int {
    start_time + hours * SECONDS_PER_HOUR
}

/// The first failure that starting this rental at time `now` meets, if any.
pub open spec fn initiate_error(ctx: InitiateRental, hours: u64, start_time: i64, now: i64) -> Option<
    ErrorCode,
> {
    let item = ctx.item_account;
    let price = rental_price(item.price_per_hour as nat, item.price_per_day as nat, hours as nat);
    if start_time < now {
        Some(ErrorCode::InvalidStartTime)
    } else if hours == 0 {
        Some(ErrorCode::InvalidRentalDuration)
    } else if !item.is_available {
        Some(ErrorCode::ItemNotAvailable)
    } else if ctx.owner.key@ != item.owner@ {
        Some(ErrorCode::Unauthorized)
    } else if ctx.rental_transaction is Some {
        Some(ErrorCode::InvalidRentalState)
    } else if !price_fits(item.price_per_hour as nat, item.price_per_day as nat, hours as nat)
        || hours * SECONDS_PER_HOUR > i64::MAX || rental_end(start_time, hours) > i64::MAX {
        Some(ErrorCode::ArithmeticOverflow)
    } else if ctx.renter_usdc.mint@ != ctx.usdc_mint@ || ctx.renter_usdc.owner@
        != ctx.renter.key@ || !custody_bound_to(
        ctx.escrow_usdc,
        ctx.usdc_mint,
        ctx.item_key,
        ctx.renter.key,
    ) || ctx.escrow_usdc.amount != 0 {
        Some(ErrorCode::AccountMismatch)
    } else if ctx.renter_usdc.amount < price {
        Some(ErrorCode::InsufficientFunds)
    } else {
        None
    }
}

/// The accounts after a rental is started: the record is Active, the price
/// has moved from the renter into custody, and the item is unavailable.
pub open spec fn initiated(ctx: InitiateRental, hours: u64, start_time: i64) -> InitiateRental {
    let item = ctx.item_account;
    let price = rental_price(item.price_per_hour as nat, item.price_per_day as nat, hours as nat);
    InitiateRental {
        item_account: ItemAccount { is_available: false, ..item },
        rental_transaction: Some(
            RentalTransaction {
                item: ctx.item_key,
                renter: ctx.renter.key,
                owner: ctx.owner.key,
                start_time,
                end_time: rental_end(start_time, hours) as i64,
                total_price: price as u64,
                state: RentalState::Active,
            },
        ),
        renter_usdc: TokenAccount { amount: (ctx.renter_usdc.amount - price) as u64, ..ctx.renter_usdc },
        escrow_usdc: Custody { amount: price as u64, ..ctx.escrow_usdc },
        ..ctx
    }
}

/// Starts a rental of the item for `hours` hours from `start_time`, `now`
/// being the current time: it locks the price in custody and makes the item
/// unavailable, or fails with every account unchanged.
pub fn initiate_rental(ctx: &mut InitiateRental, hours: u64, start_time: i64, now: i64) -> (r:
    Result<(), ErrorCode>)
    ensures
        r matches Err(e) ==> initiate_error(*old(ctx), hours, start_time, now) == Some(e)
            && *final(ctx) == *old(ctx),
        r is Ok ==> initiate_error(*old(ctx), hours, start_time, now) is None && *final(ctx)
            == initiated(*old(ctx), hours, start_time),
{
    if start_time < now {
        return Err(ErrorCode::InvalidStartTime);
    }
    if hours == 0 {
        return Err(ErrorCode::InvalidRentalDuration);
    }
    if !ctx.item_account.is_available {
        return Err(ErrorCode::ItemNotAvailable);
    }
    if !ctx.owner.key.same_as(&ctx.item_account.owner) {
        return Err(ErrorCode::Unauthorized);
    }
    if ctx.rental_transaction.is_some() {
        return Err(ErrorCode::InvalidRentalState);
    }
    let total_price = match calculate_total_price(
        ctx.item_account.price_per_hour,
        ctx.item_account.price_per_day,
        hours,
    ) {
        Ok(p) => p,
        Err(e) => return Err(e),
    };
    if hours > (i64::MAX as u64) / SECONDS_PER_HOUR {
        return Err(ErrorCode::ArithmeticOverflow);
    }
    let duration_seconds = (hours * SECONDS_PER_HOUR) as i64;
    let end_time = match start_time.checked_add(duration_seconds) {
        Some(t) => t,
        None => return Err(ErrorCode::ArithmeticOverflow),
    };
    if !ctx.renter_usdc.mint.same_as(&ctx.usdc_mint) || !ctx.renter_usdc.owner.same_as(
        &ctx.renter.key,
    ) || !ctx.escrow_usdc.is_bound_to(&ctx.usdc_mint, &ctx.item_key, &ctx.renter.key)
        || ctx.escrow_usdc.amount != 0 {
        return Err(ErrorCode::AccountMismatch);
    }
    if ctx.renter_usdc.amount < total_price {
        return Err(ErrorCode::InsufficientFunds);
    }
    ctx.renter_usdc.amount = ctx.renter_usdc.amount - total_price;
    ctx.escrow_usdc.amount = total_price;
    ctx.rental_transaction = Some(
        RentalTransaction {
            item: ctx.item_key,
            renter: ctx.renter.key,
            owner: ctx.owner.key,
            start_time,
            end_time,
            total_price,
            state: RentalState::Active,
        },
    );
    if set_availability(&mut ctx.item_account, &ctx.owner.key, false).is_err() {
        return Err(ErrorCode::Unauthorized);
    }
    Ok(())
}

/// The accounts that `complete_rental` works on: the signing owner, the
/// record, the item and its address, the currency, the owner's and the
/// platform's receiving accounts, and the custody.
#[derive(Clone, Debug, PartialEq, Eq)]
pub struct CompleteRental {
    pub owner: Party,
    pub rental_transaction: RentalTransaction,
    pub item_key: Key,
    pub item_account: ItemAccount,
    pub usdc_mint: Key,
    pub owner_usdc: TokenAccount,
    pub system_usdc: TokenAccount,
    pub escrow_usdc: Custody,
}

/// Whether `escrow` is the open custody of `rental`, in currency `mint`,
/// holding exactly the rental's price.
pub open spec fn custody_of(escrow: Custody, rental: RentalTransaction, mint: Key) -> bool {
    &&& custody_bound_to(escrow, mint, rental.item, rental.renter)
    &&& escrow.amount == rental.total_price
}

/// The first failure that completing this rental at time `now` meets, if any.
pub open spec fn complete_error(ctx: CompleteRental, config: PlatformConfig, now: i64) -> Option<
    ErrorCode,
> {
    let rental = ctx.rental_transaction;
    let fee = platform_share(rental.total_price as nat);
    if ctx.system_usdc.owner@ != config.platform@ || ctx.system_usdc.mint@ != ctx.usdc_mint@ {
        Some(ErrorCode::InvalidSystemAccount)
    } else if ctx.owner.key@ != rental.owner@ || ctx.owner.key@ != ctx.item_account.owner@ {
        Some(ErrorCode::Unauthorized)
    } else if rental.state != RentalState::Active {
        Some(ErrorCode::InvalidRentalState)
    } else if now < rental.end_time {
        Some(ErrorCode::RentalNotYetConcluded)
    } else if ctx.item_key@ != rental.item@ || ctx.owner_usdc.mint@ != ctx.usdc_mint@ || !custody_of(
        ctx.escrow_usdc,
        rental,
        ctx.usdc_mint,
    ) {
        Some(ErrorCode::AccountMismatch)
    } else if ctx.owner_usdc.amount + (rental.total_price - fee) > u64::MAX
        || ctx.system_usdc.amount + fee > u64::MAX || ctx.owner.lamports
        + ctx.escrow_usdc.deposit > u64::MAX {
        Some(ErrorCode::ArithmeticOverflow)
    } else {
        None
    }
}

/// The accounts after settlement: the owner's share and the platform's fee
/// are paid out of custody, the custody is closed with its deposit returned
/// to the owner, the record is Completed and the item available.
pub open spec fn completed(ctx: CompleteRental) -> CompleteRental {
    let total = ctx.rental_transaction.total_price;
    let fee = platform_share(total as nat);
    CompleteRental {
        owner: Party { lamports: (ctx.owner.lamports + ctx.escrow_usdc.deposit) as u64, ..ctx.owner },
        rental_transaction: RentalTransaction {
            state: RentalState::Completed,
            ..ctx.rental_transaction
        },
        item_account: ItemAccount { is_available: true, ..ctx.item_account },
        owner_usdc: TokenAccount {
            amount: (ctx.owner_usdc.amount + (total - fee)) as u64,
            ..ctx.owner_usdc
        },
        system_usdc: TokenAccount { amount: (ctx.system_usdc.amount + fee) as u64, ..ctx.system_usdc },
        escrow_usdc: closed(ctx.escrow_usdc),
        ..ctx
    }
}

/// Settles an Active rental whose window has elapsed at time `now`: pays the
/// owner and the platform out of custody, closes it and makes the item
/// available again, or fails with every account unchanged.
pub fn complete_rental(ctx: &mut CompleteRental, config: &PlatformConfig, now: i64) -> (r: Result<
    (),
    ErrorCode,
>)
    ensures
        r matches Err(e) ==> complete_error(*old(ctx), *config, now) == Some(e) && *final(ctx)
            == *old(ctx),
        r is Ok ==> complete_error(*old(ctx), *config, now) is None && *final(ctx) == completed(
            *old(ctx),
        ),
{
    if !ctx.system_usdc.owner.same_as(&config.platform) || !ctx.system_usdc.mint.same_as(
        &ctx.usdc_mint,
    ) {
        return Err(ErrorCode::InvalidSystemAccount);
    }
    if !ctx.owner.key.same_as(&ctx.rental_transaction.owner) || !ctx.owner.key.same_as(
        &ctx.item_account.owner,
    ) {
        return Err(ErrorCode::Unauthorized);
    }
    if ctx.rental_transaction.state != RentalState::Active {
        return Err(ErrorCode::InvalidRentalState);
    }
    if now < ctx.rental_transaction.end_time {
        return Err(ErrorCode::RentalNotYetConcluded);
    }
    if !ctx.item_key.same_as(&ctx.rental_transaction.item) || !ctx.owner_usdc.mint.same_as(
        &ctx.usdc_mint,
    ) || !ctx.escrow_usdc.is_bound_to(
        &ctx.usdc_mint,
        &ctx.rental_transaction.item,
        &ctx.rental_transaction.renter,
    ) || ctx.escrow_usdc.amount != ctx.rental_transaction.total_price {
        return Err(ErrorCode::AccountMismatch);
    }
    let split = split_fee(ctx.rental_transaction.total_price);
    let owner_total = match ctx.owner_usdc.amount.checked_add(split.owner_share) {
        Some(v) => v,
        None => return Err(ErrorCode::ArithmeticOverflow),
    };
    let system_total = match ctx.system_usdc.amount.checked_add(split.platform_share) {
        Some(v) => v,
        None => return Err(ErrorCode::ArithmeticOverflow),
    };
    let owner_lamports = match ctx.owner.lamports.checked_add(ctx.escrow_usdc.deposit) {
        Some(v) => v,
        None => return Err(ErrorCode::ArithmeticOverflow),
    };
    ctx.owner_usdc.amount = owner_total;
    ctx.system_usdc.amount = system_total;
    ctx.escrow_usdc.amount = 0;
    ctx.escrow_usdc.deposit = 0;
    ctx.escrow_usdc.is_open = false;
    ctx.owner.lamports = owner_lamports;
    ctx.rental_transaction.state = RentalState::Completed;
    if set_availability(&mut ctx.item_account, &ctx.owner.key, true).is_err() {
        return Err(ErrorCode::Unauthorized);
    }
    Ok(())
}

/// The accounts that `cancel_rental` works on: both signing parties, the
/// record, the item and its address, the currency, the renter's receiving
/// account and the custody.
#[derive(Clone, Debug, PartialEq, Eq)]
pub struct CancelRental {
    pub renter: Party,
    pub owner: Party,
    pub rental_transaction: RentalTransaction,
    pub item_key: Key,
    pub item_account: ItemAccount,
    pub usdc_mint: Key,
    pub renter_usdc: TokenAccount,
    pub escrow_usdc: Custody,
}

/// The first failure that cancelling this rental meets, if any. The time
/// plays no part: an Active rental may be cancelled at any moment.
pub open spec fn cancel_error(ctx: CancelRental) -> Option<ErrorCode> {
    let rental = ctx.rental_transaction;
    if ctx.renter.key@ != rental.renter@ || ctx.owner.key@ != rental.owner@ || ctx.owner.key@
        != ctx.item_account.owner@ {
        Some(ErrorCode::Unauthorized)
    } else if rental.state != RentalState::Active {
        Some(ErrorCode::InvalidRentalState)
    } else if ctx.item_key@ != rental.item@ || ctx.renter_usdc.mint@ != ctx.usdc_mint@
        || !custody_of(ctx.escrow_usdc, rental, ctx.usdc_mint) {
        Some(ErrorCode::AccountMismatch)
    } else if ctx.renter_usdc.amount + rental.total_price > u64::MAX || ctx.renter.lamports
        + ctx.escrow_usdc.deposit > u64::MAX {
        Some(ErrorCode::ArithmeticOverflow)
    } else {
        None
    }
}

/// The accounts after a cancellation: the whole price is refunded to the
/// renter, the custody is closed with its deposit returned to the renter, the
/// record is Cancelled and the item available.
pub open spec fn cancelled(ctx: CancelRental) -> CancelRental {
    CancelRental {
        renter: Party {
            lamports: (ctx.renter.lamports + ctx.escrow_usdc.deposit) as u64,
            ..ctx.renter
        },
        rental_transaction: RentalTransaction {
            state: RentalState::Cancelled,
            ..ctx.rental_transaction
        },
        item_account: ItemAccount { is_available: true, ..ctx.item_account },
        renter_usdc: TokenAccount {
            amount: (ctx.renter_usdc.amount + ctx.rental_transaction.total_price) as u64,
            ..ctx.renter_usdc
        },
        escrow_usdc: closed(ctx.escrow_usdc),
        ..ctx
    }
}

/// Cancels an Active rental: refunds the whole price to the renter, closes
/// the custody and makes the item available again, or fails with every
/// account unchanged.
pub fn cancel_rental(ctx: &mut CancelRental) -> (r: Result<(), ErrorCode>)
    ensures
        r matches Err(e) ==> cancel_error(*old(ctx)) == Some(e) && *final(ctx) == *old(ctx),
        r is Ok ==> cancel_error(*old(ctx)) is None && *final(ctx) == cancelled(*old(ctx)),
{
    if !ctx.renter.key.same_as(&ctx.rental_transaction.renter) || !ctx.owner.key.same_as(
        &ctx.rental_transaction.owner,
    ) || !ctx.owner.key.same_as(&ctx.item_account.owner) {
        return Err(ErrorCode::Unauthorized);
    }
    if ctx.rental_transaction.state != RentalState::Active {
        return Err(ErrorCode::InvalidRentalState);
    }
    if !ctx.item_key.same_as(&ctx.rental_transaction.item) || !ctx.renter_usdc.mint.same_as(
        &ctx.usdc_mint,
    ) || !ctx.escrow_usdc.is_bound_to(
        &ctx.usdc_mint,
        &ctx.rental_transaction.item,
        &ctx.rental_transaction.renter,
    ) || ctx.escrow_usdc.amount != ctx.rental_transaction.total_price {
        return Err(ErrorCode::AccountMismatch);
    }
    let refund_total = match ctx.renter_usdc.amount.checked_add(ctx.rental_transaction.total_price) {
        Some(v) => v,
        None => return Err(ErrorCode::ArithmeticOverflow),
    };
    let renter_lamports = match ctx.renter.lamports.checked_add(ctx.escrow_usdc.deposit) {
        Some(v) => v,
        None => return Err(ErrorCode::ArithmeticOverflow),
    };
    ctx.renter_usdc.amount = refund_total;
    ctx.escrow_usdc.amount = 0;
    ctx.escrow_usdc.deposit = 0;
    ctx.escrow_usdc.is_open = false;
    ctx.renter.lamports = renter_lamports;
    ctx.rental_transaction.state = RentalState::Cancelled;
    if set_availability(&mut ctx.item_account, &ctx.owner.key, true).is_err() {
        return Err(ErrorCode::Unauthorized);
    }
    Ok(())
}

/// A start time before the present, a zero duration or an unavailable item
/// is always refused.
pub proof fn lemma_initiate_rejects_invalid_requests(
    ctx: InitiateRental,
    hours: u64,
    start_time: i64,
    now: i64,
)
    requires
        start_time < now || hours == 0 || !ctx.item_account.is_available,
    ensures
        initiate_error(ctx, hours, start_time, now) is Some,
{
}

/// A rental that starts locks its price, which is positive when the item's
/// rates are, in custody: the renter pays exactly what custody receives, and
/// the window ends after it starts.
pub proof fn lemma_initiate_locks_price(ctx: InitiateRental, hours: u64, start_time: i64, now: i64)
    requires
        initiate_error(ctx, hours, start_time, now) is None,
        ctx.item_account.price_per_hour > 0,
        ctx.item_account.price_per_day > 0,
    ensures
        ({
            let after = initiated(ctx, hours, start_time);
            let rental = after.rental_transaction->Some_0;
            &&& rental.total_price > 0
            &&& rental.end_time > rental.start_time
            &&& rental.state == RentalState::Active
            &&& after.escrow_usdc.amount == rental.total_price
            &&& ctx.renter_usdc.amount - after.renter_usdc.amount == rental.total_price
            &&& !after.item_account.is_available
        }),
{
    let pph = ctx.item_account.price_per_hour as nat;
    let ppd = ctx.item_account.price_per_day as nat;
    let h = hours as nat;
    assert(pph * h > 0) by (nonlinear_arith)
        requires
            pph > 0,
            h > 0,
    ;
    if h / 24 > 0 {
        assert(ppd * (h / 24) > 0) by (nonlinear_arith)
            requires
                ppd > 0,
                h / 24 > 0,
        ;
    } else {
        assert(h % 24 == h);
    }
    assert(pph * (h % 24) >= 0) by (nonlinear_arith);
    assert(ppd * (h / 24) >= 0) by (nonlinear_arith);
}

/// A rental cannot be completed before its window has elapsed, nor unless
/// it is Active: a completed or cancelled rental is never settled again.
pub proof fn lemma_complete_rejects_early_or_settled(
    ctx: CompleteRental,
    config: PlatformConfig,
    now: i64,
)
    requires
        now < ctx.rental_transaction.end_time || ctx.rental_transaction.state
            != RentalState::Active,
    ensures
        complete_error(ctx, config, now) is Some,
{
}

/// A cancelled or completed rental cannot be cancelled.
pub proof fn lemma_cancel_rejects_settled(ctx: CancelRental)
    requires
        ctx.rental_transaction.state != RentalState::Active,
    ensures
        cancel_error(ctx) is Some,
{
}

/// Settling twice fails: once a completion has succeeded, completing the
/// same rental again fails with a state error, whatever the time.
pub proof fn lemma_complete_is_once(
    ctx: CompleteRental,
    config: PlatformConfig,
    now: i64,
    later: i64,
)
    requires
        complete_error(ctx, config, now) is None,
    ensures
        complete_error(completed(ctx), config, later) == Some(ErrorCode::InvalidRentalState),
{
}

/// Settlement moves exactly the custody's balance: the owner's share and the
/// platform's fee add up to the rental's price, the fee is a tenth of it
/// rounded down, and the custody ends empty and closed.
pub proof fn lemma_complete_conserves_funds(ctx: CompleteRental, config: PlatformConfig, now: i64)
    requires
        complete_error(ctx, config, now) is None,
    ensures
        ({
            let after = completed(ctx);
            let total = ctx.rental_transaction.total_price;
            &&& (after.owner_usdc.amount - ctx.owner_usdc.amount) + (after.system_usdc.amount
                - ctx.system_usdc.amount) == total
            &&& after.system_usdc.amount - ctx.system_usdc.amount == total * 10 / 100
            &&& total == ctx.escrow_usdc.amount
            &&& after.escrow_usdc.amount == 0
            &&& !after.escrow_usdc.is_open
            &&& after.owner.lamports == ctx.owner.lamports + ctx.escrow_usdc.deposit
        }),
{
}

/// An Active rental whose accounts are its own can be cancelled at any
/// moment, before or after its end time, and the renter gets the whole price
/// back.
pub proof fn lemma_cancel_any_time(ctx: CancelRental)
    requires
        ctx.rental_transaction.state == RentalState::Active,
        ctx.renter.key@ == ctx.rental_transaction.renter@,
        ctx.owner.key@ == ctx.rental_transaction.owner@,
        ctx.owner.key@ == ctx.item_account.owner@,
        ctx.item_key@ == ctx.rental_transaction.item@,
        ctx.renter_usdc.mint@ == ctx.usdc_mint@,
        custody_of(ctx.escrow_usdc, ctx.rental_transaction, ctx.usdc_mint),
        ctx.renter_usdc.amount + ctx.rental_transaction.total_price <= u64::MAX,
        ctx.renter.lamports + ctx.escrow_usdc.deposit <= u64::MAX,
    ensures
        cancel_error(ctx) is None,
        cancelled(ctx).renter_usdc.amount == ctx.renter_usdc.amount
            + ctx.rental_transaction.total_price,
        cancelled(ctx).escrow_usdc.amount == 0,
        cancelled(ctx).rental_transaction.state == RentalState::Cancelled,
        cancelled(ctx).item_account.is_available,
{
}

} // verus!
