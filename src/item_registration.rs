use vstd::prelude::*;
use crate::key::Key;
use crate::pricing::{checked_rental_price, price_fits, rental_price};

verus! {

/// Longest item name accepted, in bytes.
pub const MAX_NAME_LENGTH: usize = 60;

/// Longest item description accepted, in bytes.
pub const MAX_DESCRIPTION_LENGTH: usize = 250;

/// Most item ids the registry tracks at once.
pub const MAX_REGISTRY_ITEMS: usize = 1000;

/// Longest metadata URI accepted, in bytes.
pub const MAX_METADATA_URI_LENGTH: usize = 200;

/// Length in bytes of the UTF-8 encoding of a string.
pub open spec fn byte_len(s: Seq<char>) -> nat {
    vstd::utf8::encode_utf8(s).len()
}

/// The catalog's failures.
#[derive(Clone, Copy, Debug, PartialEq, Eq)]
pub enum ErrorCode {
    NameTooLong,
    DescriptionTooLong,
    InvalidPrice,
    RegistryFull,
    ItemNotFound,
    Unauthorized,
    MetadataUriTooLong,
    PriceCalculationOverflow,
}

/// A rentable item as the catalog stores it.
#[derive(Clone, Debug, PartialEq, Eq)]
pub struct ItemAccount {
    pub owner: Key,
    pub item_id: u64,
    pub name: String,
    pub description: String,
    pub price_per_hour: u64,
    pub price_per_day: u64,
    pub is_available: bool,
    pub metadata_uri: String,
}

/// The set of item ids currently listed, and the id counter.
#[derive(Clone, Debug, PartialEq, Eq)]
pub struct ItemRegistry {
    pub next_item_id: u64,
    pub item_ids: Vec<u64>,
}

impl ItemRegistry {
    /// Bounded size, no id listed twice, every listed id already handed out.
    pub open spec fn wf(&self) -> bool {
        &&& self.item_ids@.len() <= MAX_REGISTRY_ITEMS
        &&& self.item_ids@.no_duplicates()
        &&& forall|i: int|
            0 <= i < self.item_ids@.len() ==> 1 <= #[trigger] self.item_ids@[i]
                <= self.next_item_id
    }
}

/// The accounts that `initialize_registry` works on.
#[derive(Clone, Debug, PartialEq, Eq)]
pub struct InitializeRegistry {
    pub item_registry: ItemRegistry,
}

/// The accounts that `register_item` works on: the signing owner, the new
/// item's storage and the registry.
#[derive(Clone, Debug, PartialEq, Eq)]
pub struct RegisterItem {
    pub owner: Key,
    pub item_account: ItemAccount,
    pub item_registry: ItemRegistry,
}

/// The accounts that `update_item` works on.
#[derive(Clone, Debug, PartialEq, Eq)]
pub struct UpdateItem {
    pub owner: Key,
    pub item_account: ItemAccount,
}

/// The accounts that `remove_item` works on.
#[derive(Clone, Debug, PartialEq, Eq)]
pub struct RemoveItem {
    pub owner: Key,
    pub item_account: ItemAccount,
    pub item_registry: ItemRegistry,
}

/// The accounts that `set_item_availability` works on.
#[derive(Clone, Debug, PartialEq, Eq)]
pub struct SetItemAvailabilityCpiAccounts {
    pub item_account: ItemAccount,
    pub owner: Key,
}

/// Byte length of a string, as `str::len` gives it.
fn text_len(s: &String) -> (r: usize)
    ensures
        r == byte_len(s@),
{
    s.as_str().as_bytes().len()
}

/// Empties the registry and restarts the id counter.
pub fn initialize_registry(ctx: &mut InitializeRegistry) -> (r: Result<(), ErrorCode>)
    ensures
        r is Ok,
        final(ctx).item_registry.next_item_id == 0,
        final(ctx).item_registry.item_ids@ == Seq::<u64>::empty(),
        final(ctx).item_registry.wf(),
{
    ctx.item_registry.next_item_id = 0;
    ctx.item_registry.item_ids = Vec::new();
    Ok(())
}

/// The first failure that registering an item with these fields meets, if any.
pub open spec fn register_error(
    registry: ItemRegistry,
    name: Seq<char>,
    description: Seq<char>,
    price_per_hour: u64,
    price_per_day: u64,
    metadata_uri: Seq<char>,
) -> Option<ErrorCode> {
    if byte_len(name) > MAX_NAME_LENGTH {
        Some(ErrorCode::NameTooLong)
    } else if byte_len(description) > MAX_DESCRIPTION_LENGTH {
        Some(ErrorCode::DescriptionTooLong)
    } else if byte_len(metadata_uri) > MAX_METADATA_URI_LENGTH {
        Some(ErrorCode::MetadataUriTooLong)
    } else if price_per_hour == 0 || price_per_day == 0 {
        Some(ErrorCode::InvalidPrice)
    } else if registry.item_ids@.len() >= MAX_REGISTRY_ITEMS || registry.next_item_id
        == u64::MAX {
        Some(ErrorCode::RegistryFull)
    } else {
        None
    }
}

/// Lists a new item owned by the signer under the next id, available for rent.
pub fn register_item(
    ctx: &mut RegisterItem,
    name: String,
    description: String,
    price_per_hour: u64,
    price_per_day: u64,
    metadata_uri: String,
) -> (r: Result<(), ErrorCode>)
    requires
        old(ctx).item_registry.wf(),
    ensures
        final(ctx).item_registry.wf(),
        final(ctx).owner == old(ctx).owner,
        r matches Err(e) ==> register_error(
            old(ctx).item_registry,
            name@,
            description@,
            price_per_hour,
            price_per_day,
            metadata_uri@,
        ) == Some(e) && *final(ctx) == *old(ctx),
        r is Ok ==> {
            let id = (old(ctx).item_registry.next_item_id + 1) as u64;
            &&& register_error(
                old(ctx).item_registry,
                name@,
                description@,
                price_per_hour,
                price_per_day,
                metadata_uri@,
            ) is None
            &&& final(ctx).item_registry.next_item_id == id
            &&& final(ctx).item_registry.item_ids@ == old(ctx).item_registry.item_ids@.push(id)
            &&& final(ctx).item_account.owner == old(ctx).owner
            &&& final(ctx).item_account.item_id == id
            &&& final(ctx).item_account.name@ == name@
            &&& final(ctx).item_account.description@ == description@
            &&& final(ctx).item_account.price_per_hour == price_per_hour
            &&& final(ctx).item_account.price_per_day == price_per_day
            &&& final(ctx).item_account.is_available
            &&& final(ctx).item_account.metadata_uri@ == metadata_uri@
        },
{
    if text_len(&name) > MAX_NAME_LENGTH {
        return Err(ErrorCode::NameTooLong);
    }
    if text_len(&description) > MAX_DESCRIPTION_LENGTH {
        return Err(ErrorCode::DescriptionTooLong);
    }
    if text_len(&metadata_uri) > MAX_METADATA_URI_LENGTH {
        return Err(ErrorCode::MetadataUriTooLong);
    }
    if price_per_hour == 0 || price_per_day == 0 {
        return Err(ErrorCode::InvalidPrice);
    }
    if ctx.item_registry.item_ids.len() >= MAX_REGISTRY_ITEMS || ctx.item_registry.next_item_id
        == u64::MAX {
        return Err(ErrorCode::RegistryFull);
    }
    let item_id = ctx.item_registry.next_item_id + 1;
    ctx.item_registry.next_item_id = item_id;
    ctx.item_registry.item_ids.push(item_id);
    ctx.item_account = ItemAccount {
        owner: ctx.owner,
        item_id,
        name,
        description,
        price_per_hour,
        price_per_day,
        is_available: true,
        metadata_uri,
    };
    Ok(())
}

/// The first failure that updating an item with these optional fields meets,
/// if any.
pub open spec fn update_error(
    signer: Key,
    item: ItemAccount,
    name: Option<String>,
    description: Option<String>,
    price_per_hour: Option<u64>,
    price_per_day: Option<u64>,
    metadata_uri: Option<String>,
) -> Option<ErrorCode> {
    if signer@ != item.owner@ {
        Some(ErrorCode::Unauthorized)
    } else if name matches Some(n) && byte_len(n@) > MAX_NAME_LENGTH {
        Some(ErrorCode::NameTooLong)
    } else if description matches Some(d) && byte_len(d@) > MAX_DESCRIPTION_LENGTH {
        Some(ErrorCode::DescriptionTooLong)
    } else if price_per_hour == Some(0u64) || price_per_day == Some(0u64) {
        Some(ErrorCode::InvalidPrice)
    } else if metadata_uri matches Some(u) && byte_len(u@) > MAX_METADATA_URI_LENGTH {
        Some(ErrorCode::MetadataUriTooLong)
    } else {
        None
    }
}

/// Whether a text field holds the new value where one was given and the old
/// value otherwise.
pub open spec fn text_updated(before: String, given: Option<String>, after: String) -> bool {
    match given {
        Some(v) => after@ == v@,
        None => after == before,
    }
}

/// Replaces the fields that are given, after checking every one of them; the
/// item is left as it was when any check fails.
pub fn update_item(
    ctx: &mut UpdateItem,
    name: Option<String>,
    description: Option<String>,
    price_per_hour: Option<u64>,
    price_per_day: Option<u64>,
    is_available: Option<bool>,
    metadata_uri: Option<String>,
) -> (r: Result<(), ErrorCode>)
    ensures
        final(ctx).owner == old(ctx).owner,
        r matches Err(e) ==> update_error(
            old(ctx).owner,
            old(ctx).item_account,
            name,
            description,
            price_per_hour,
            price_per_day,
            metadata_uri,
        ) == Some(e) && *final(ctx) == *old(ctx),
        r is Ok ==> {
            let before = old(ctx).item_account;
            let after = final(ctx).item_account;
            &&& update_error(
                old(ctx).owner,
                before,
                name,
                description,
                price_per_hour,
                price_per_day,
                metadata_uri,
            ) is None
            &&& after.owner == before.owner
            &&& after.item_id == before.item_id
            &&& text_updated(before.name, name, after.name)
            &&& text_updated(before.description, description, after.description)
            &&& text_updated(before.metadata_uri, metadata_uri, after.metadata_uri)
            &&& after.price_per_hour == (match price_per_hour {
                Some(p) => p,
                None => before.price_per_hour,
            })
            &&& after.price_per_day == (match price_per_day {
                Some(p) => p,
                None => before.price_per_day,
            })
            &&& after.is_available == (match is_available {
                Some(a) => a,
                None => before.is_available,
            })
        },
{
    if !ctx.owner.same_as(&ctx.item_account.owner) {
        return Err(ErrorCode::Unauthorized);
    }
    if let Some(n) = &name {
        if text_len(n) > MAX_NAME_LENGTH {
            return Err(ErrorCode::NameTooLong);
        }
    }
    if let Some(d) = &description {
        if text_len(d) > MAX_DESCRIPTION_LENGTH {
            return Err(ErrorCode::DescriptionTooLong);
        }
    }
    if price_per_hour == Some(0u64) || price_per_day == Some(0u64) {
        return Err(ErrorCode::InvalidPrice);
    }
    if let Some(u) = &metadata_uri {
        if text_len(u) > MAX_METADATA_URI_LENGTH {
            return Err(ErrorCode::MetadataUriTooLong);
        }
    }
    if let Some(n) = name {
        ctx.item_account.name = n;
    }
    if let Some(d) = description {
        ctx.item_account.description = d;
    }
    if let Some(p) = price_per_hour {
        ctx.item_account.price_per_hour = p;
    }
    if let Some(p) = price_per_day {
        ctx.item_account.price_per_day = p;
    }
    if let Some(a) = is_available {
        ctx.item_account.is_available = a;
    }
    if let Some(u) = metadata_uri {
        ctx.item_account.metadata_uri = u;
    }
    Ok(())
}

/// Takes the signer's item out of the registry's tracked ids; the order of
/// the remaining ids is not kept.
pub fn remove_item(ctx: &mut RemoveItem) -> (r: Result<(), ErrorCode>)
    requires
        old(ctx).item_registry.wf(),
    ensures
        final(ctx).item_registry.wf(),
        final(ctx).owner == old(ctx).owner,
        final(ctx).item_account == old(ctx).item_account,
        final(ctx).item_registry.next_item_id == old(ctx).item_registry.next_item_id,
        old(ctx).owner@ != old(ctx).item_account.owner@ ==> r == Err::<(), ErrorCode>(
            ErrorCode::Unauthorized,
        ),
        old(ctx).owner@ == old(ctx).item_account.owner@ && !old(
            ctx,
        ).item_registry.item_ids@.contains(old(ctx).item_account.item_id) ==> r == Err::<
            (),
            ErrorCode,
        >(ErrorCode::ItemNotFound),
        r is Ok <==> old(ctx).owner@ == old(ctx).item_account.owner@ && old(
            ctx,
        ).item_registry.item_ids@.contains(old(ctx).item_account.item_id),
        r is Err ==> *final(ctx) == *old(ctx),
        r is Ok ==> {
            let id = old(ctx).item_account.item_id;
            let before = old(ctx).item_registry.item_ids@;
            let after = final(ctx).item_registry.item_ids@;
            &&& old(ctx).owner@ == old(ctx).item_account.owner@
            &&& before.contains(id)
            &&& after.len() + 1 == before.len()
            &&& forall|x: u64| after.contains(x) <==> (before.contains(x) && x != id)
        },
{
    if !ctx.owner.same_as(&ctx.item_account.owner) {
        return Err(ErrorCode::Unauthorized);
    }
    let item_id = ctx.item_account.item_id;
    let n = ctx.item_registry.item_ids.len();
    let mut pos: usize = 0;
    while pos < n
        invariant
            n == ctx.item_registry.item_ids@.len(),
            pos <= n,
            forall|j: int| 0 <= j < pos ==> ctx.item_registry.item_ids@[j] != item_id,
        ensures
            pos < n ==> ctx.item_registry.item_ids@[pos as int] == item_id,
            forall|j: int| 0 <= j < pos ==> ctx.item_registry.item_ids@[j] != item_id,
        decreases n - pos,
    {
        if ctx.item_registry.item_ids[pos] == item_id {
            break;
        }
        pos = pos + 1;
    }
    if pos == n {
        return Err(ErrorCode::ItemNotFound);
    }
    let ghost before = ctx.item_registry.item_ids@;
    ctx.item_registry.item_ids.swap_remove(pos);
    proof {
        let after = ctx.item_registry.item_ids@;
        assert forall|x: u64| after.contains(x) <==> (before.contains(x) && x != item_id) by {
            if after.contains(x) {
                let k = choose|k: int| 0 <= k < after.len() && after[k] == x;
                if k == pos {
                    assert(before[before.len() - 1] == x);
                    assert(before.len() - 1 != pos);
                } else {
                    assert(before[k] == x);
                }
            }
            if before.contains(x) && x != item_id {
                let k = choose|k: int| 0 <= k < before.len() && before[k] == x;
                if k == before.len() - 1 {
                    assert(k != pos);
                    assert(after[pos as int] == x);
                } else {
                    assert(k != pos);
                    assert(after[k] == x);
                }
            }
        }
        assert forall|i: int, j: int|
            0 <= i < after.len() && 0 <= j < after.len() && i != j implies after[i]
            != after[j] by {
            let ii = if i == pos { before.len() - 1 } else { i };
            let jj = if j == pos { before.len() - 1 } else { j };
            assert(after[i] == before[ii]);
            assert(after[j] == before[jj]);
        }
        assert forall|i: int| 0 <= i < after.len() implies 1 <= #[trigger] after[i]
            <= ctx.item_registry.next_item_id by {
            let ii = if i == pos { before.len() - 1 } else { i };
            assert(after[i] == before[ii]);
        }
    }
    Ok(())
}

/// Marks `item` available or not on behalf of `signer`, who must own it.
pub fn set_availability(item: &mut ItemAccount, signer: &Key, available: bool) -> (r: Result<
    (),
    ErrorCode,
>)
    ensures
        r is Ok <==> signer@ == old(item).owner@,
        r matches Err(e) ==> e == ErrorCode::Unauthorized && *final(item) == *old(item),
        r is Ok ==> *final(item) == (ItemAccount { is_available: available, ..*old(item) }),
{
    if !signer.same_as(&item.owner) {
        return Err(ErrorCode::Unauthorized);
    }
    item.is_available = available;
    Ok(())
}

/// Marks the item available or not; only its owner may do so.
pub fn set_item_availability(ctx: &mut SetItemAvailabilityCpiAccounts, available: bool) -> (r:
    Result<(), ErrorCode>)
    ensures
        final(ctx).owner == old(ctx).owner,
        r is Ok <==> old(ctx).owner@ == old(ctx).item_account.owner@,
        r matches Err(e) ==> e == ErrorCode::Unauthorized && *final(ctx) == *old(ctx),
        r is Ok ==> final(ctx).item_account == (ItemAccount {
            is_available: available,
            ..old(ctx).item_account
        }),
{
    set_availability(&mut ctx.item_account, &ctx.owner, available)
}

impl ItemAccount {
    /// The price of renting this item for `hours`: the cheaper of the hourly
    /// and the daily scheme.
    pub fn calculate_total_price(&self, hours: u64) -> (r: Result<u64, ErrorCode>)
        ensures
            r is Ok <==> price_fits(
                self.price_per_hour as nat,
                self.price_per_day as nat,
                hours as nat,
            ),
            r matches Ok(p) ==> p == rental_price(
                self.price_per_hour as nat,
                self.price_per_day as nat,
                hours as nat,
            ),
            r matches Err(e) ==> e == ErrorCode::PriceCalculationOverflow,
    {
        match checked_rental_price(self.price_per_hour, self.price_per_day, hours) {
            Some(p) => Ok(p),
            None => Err(ErrorCode::PriceCalculationOverflow),
        }
    }
}

} // verus!
