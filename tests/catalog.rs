use rental_escrow::item_registration::{
    initialize_registry, register_item, remove_item, set_item_availability, update_item,
    ErrorCode, InitializeRegistry, ItemAccount, ItemRegistry, RegisterItem, RemoveItem,
    SetItemAvailabilityCpiAccounts, UpdateItem,
};
use rental_escrow::key::Key;

fn owner() -> Key {
    Key::new([1u8; 32])
}

fn stranger() -> Key {
    Key::new([2u8; 32])
}

fn blank_item() -> ItemAccount {
    ItemAccount {
        owner: Key::new([0u8; 32]),
        item_id: 0,
        name: String::new(),
        description: String::new(),
        price_per_hour: 0,
        price_per_day: 0,
        is_available: false,
        metadata_uri: String::new(),
    }
}

fn empty_registry() -> ItemRegistry {
    let mut ctx = InitializeRegistry {
        item_registry: ItemRegistry { next_item_id: 42, item_ids: vec![3, 4] },
    };
    assert_eq!(initialize_registry(&mut ctx), Ok(()));
    ctx.item_registry
}

fn register(ctx: &mut RegisterItem, name: &str) -> Result<(), ErrorCode> {
    register_item(
        ctx,
        String::from(name),
        String::from("a sturdy item"),
        10,
        100,
        String::from("ipfs://item"),
    )
}

#[test]
fn initialize_empties_the_registry() {
    let r = empty_registry();
    assert_eq!(r.next_item_id, 0);
    assert!(r.item_ids.is_empty());
}

#[test]
fn register_assigns_consecutive_ids() {
    let mut ctx =
        RegisterItem { owner: owner(), item_account: blank_item(), item_registry: empty_registry() };
    assert_eq!(register(&mut ctx, "tent"), Ok(()));
    assert_eq!(ctx.item_account.item_id, 1);
    assert_eq!(ctx.item_account.owner, owner());
    assert_eq!(ctx.item_account.name, "tent");
    assert_eq!(ctx.item_account.price_per_hour, 10);
    assert_eq!(ctx.item_account.price_per_day, 100);
    assert!(ctx.item_account.is_available);
    assert_eq!(register(&mut ctx, "kayak"), Ok(()));
    assert_eq!(ctx.item_account.item_id, 2);
    assert_eq!(ctx.item_registry.item_ids, vec![1, 2]);
    assert_eq!(ctx.item_registry.next_item_id, 2);
}

#[test]
fn register_rejects_long_fields() {
    let mut ctx =
        RegisterItem { owner: owner(), item_account: blank_item(), item_registry: empty_registry() };
    let before = ctx.clone();
    assert_eq!(register(&mut ctx, &"n".repeat(61)), Err(ErrorCode::NameTooLong));
    assert_eq!(ctx, before);
    assert_eq!(register(&mut ctx, &"n".repeat(60)), Ok(()));
    let r = register_item(&mut ctx, String::from("a"), "d".repeat(251), 1, 1, String::new());
    assert_eq!(r, Err(ErrorCode::DescriptionTooLong));
    let r = register_item(&mut ctx, String::from("a"), String::new(), 1, 1, "u".repeat(201));
    assert_eq!(r, Err(ErrorCode::MetadataUriTooLong));
}

#[test]
fn register_counts_bytes_not_characters() {
    let mut ctx =
        RegisterItem { owner: owner(), item_account: blank_item(), item_registry: empty_registry() };
    // 31 two-byte characters: 62 bytes
    assert_eq!(register(&mut ctx, &"é".repeat(31)), Err(ErrorCode::NameTooLong));
    assert_eq!(register(&mut ctx, &"é".repeat(30)), Ok(()));
}

#[test]
fn register_rejects_zero_prices() {
    let mut ctx =
        RegisterItem { owner: owner(), item_account: blank_item(), item_registry: empty_registry() };
    let r = register_item(&mut ctx, String::from("a"), String::new(), 0, 5, String::new());
    assert_eq!(r, Err(ErrorCode::InvalidPrice));
    let r = register_item(&mut ctx, String::from("a"), String::new(), 5, 0, String::new());
    assert_eq!(r, Err(ErrorCode::InvalidPrice));
}

#[test]
fn register_rejects_a_full_registry() {
    let ids: Vec<u64> = (1..=1000).collect();
    let mut ctx = RegisterItem {
        owner: owner(),
        item_account: blank_item(),
        item_registry: ItemRegistry { next_item_id: 1000, item_ids: ids },
    };
    assert_eq!(register(&mut ctx, "one too many"), Err(ErrorCode::RegistryFull));
    assert_eq!(ctx.item_registry.item_ids.len(), 1000);
}

#[test]
fn update_changes_only_given_fields() {
    let mut reg =
        RegisterItem { owner: owner(), item_account: blank_item(), item_registry: empty_registry() };
    register(&mut reg, "tent").unwrap();
    let mut ctx = UpdateItem { owner: owner(), item_account: reg.item_account };
    let r = update_item(&mut ctx, None, Some(String::from("new")), Some(12), None, Some(false), None);
    assert_eq!(r, Ok(()));
    assert_eq!(ctx.item_account.name, "tent");
    assert_eq!(ctx.item_account.description, "new");
    assert_eq!(ctx.item_account.price_per_hour, 12);
    assert_eq!(ctx.item_account.price_per_day, 100);
    assert!(!ctx.item_account.is_available);
    assert_eq!(ctx.item_account.metadata_uri, "ipfs://item");
}

#[test]
fn update_is_all_or_nothing() {
    let mut reg =
        RegisterItem { owner: owner(), item_account: blank_item(), item_registry: empty_registry() };
    register(&mut reg, "tent").unwrap();
    let mut ctx = UpdateItem { owner: owner(), item_account: reg.item_account };
    let before = ctx.clone();
    let r = update_item(&mut ctx, Some(String::from("x")), None, None, Some(0), None, None);
    assert_eq!(r, Err(ErrorCode::InvalidPrice));
    assert_eq!(ctx, before);
    let r = update_item(&mut ctx, None, None, None, None, None, Some("u".repeat(201)));
    assert_eq!(r, Err(ErrorCode::MetadataUriTooLong));
    let r = update_item(&mut ctx, Some("n".repeat(61)), None, None, None, None, None);
    assert_eq!(r, Err(ErrorCode::NameTooLong));
    let r = update_item(&mut ctx, None, Some("d".repeat(251)), None, None, None, None);
    assert_eq!(r, Err(ErrorCode::DescriptionTooLong));
    assert_eq!(ctx, before);
}

#[test]
fn update_requires_the_owner() {
    let mut reg =
        RegisterItem { owner: owner(), item_account: blank_item(), item_registry: empty_registry() };
    register(&mut reg, "tent").unwrap();
    let mut ctx = UpdateItem { owner: stranger(), item_account: reg.item_account };
    let r = update_item(&mut ctx, None, None, Some(1), None, None, None);
    assert_eq!(r, Err(ErrorCode::Unauthorized));
    assert_eq!(ctx.item_account.price_per_hour, 10);
}

#[test]
fn remove_takes_the_id_out() {
    let mut reg =
        RegisterItem { owner: owner(), item_account: blank_item(), item_registry: empty_registry() };
    register(&mut reg, "a").unwrap();
    let first = reg.item_account.clone();
    register(&mut reg, "b").unwrap();
    register(&mut reg, "c").unwrap();
    let mut ctx = RemoveItem { owner: owner(), item_account: first, item_registry: reg.item_registry };
    assert_eq!(remove_item(&mut ctx), Ok(()));
    let mut ids = ctx.item_registry.item_ids.clone();
    ids.sort();
    assert_eq!(ids, vec![2, 3]);
    assert_eq!(remove_item(&mut ctx), Err(ErrorCode::ItemNotFound));
}

#[test]
fn remove_requires_the_owner() {
    let mut reg =
        RegisterItem { owner: owner(), item_account: blank_item(), item_registry: empty_registry() };
    register(&mut reg, "a").unwrap();
    let mut ctx =
        RemoveItem { owner: stranger(), item_account: reg.item_account, item_registry: reg.item_registry };
    assert_eq!(remove_item(&mut ctx), Err(ErrorCode::Unauthorized));
    assert_eq!(ctx.item_registry.item_ids, vec![1]);
}

#[test]
fn availability_is_set_by_the_owner_only() {
    let mut reg =
        RegisterItem { owner: owner(), item_account: blank_item(), item_registry: empty_registry() };
    register(&mut reg, "a").unwrap();
    let mut ctx = SetItemAvailabilityCpiAccounts { item_account: reg.item_account, owner: owner() };
    assert_eq!(set_item_availability(&mut ctx, false), Ok(()));
    assert!(!ctx.item_account.is_available);
    ctx.owner = stranger();
    assert_eq!(set_item_availability(&mut ctx, true), Err(ErrorCode::Unauthorized));
    assert!(!ctx.item_account.is_available);
}
