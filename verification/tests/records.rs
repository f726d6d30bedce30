use anchor_lang::prelude::ProgramError;
use bulldozer::collections::{Account, Instruction, InstructionAccount, InstructionAccountStats, Signer};
use bulldozer::delete_instruction::{handler, DeleteInstruction};
use bulldozer::enums::{AccountKinds, AccountModifiers};
use bulldozer::errors::ErrorCode;
use bulldozer::keys::Key;
use bulldozer::sysvar::{timestamp_of, unix_timestamp};
use bulldozer::utils::{fund_rent_for_account, has_enough_funds};

fn account() -> InstructionAccount {
    InstructionAccount {
        authority: Key::new([0; 32]),
        workspace: Key::new([0; 32]),
        application: Key::new([0; 32]),
        instruction: Key::new([0; 32]),
        name: String::new(),
        kind: AccountKinds::Signer { id: 1 },
        modifier: None,
        collection: Some(Key::new([8; 32])),
        payer: None,
        close: None,
        space: Some(40),
        created_at: 5,
        updated_at: 6,
        instruction_account_stats_bump: 0,
    }
}

#[test]
fn keys_are_equal_when_their_bytes_are() {
    let mut bytes = [7u8; 32];
    let a = Key::new(bytes);
    assert_eq!(a, Key::new([7u8; 32]));
    assert_eq!(a.to_bytes(), bytes);
    bytes[31] = 8;
    assert_ne!(a, Key::new(bytes));
    bytes[31] = 7;
    bytes[0] = 0;
    assert_ne!(a, Key::new(bytes));
}

#[test]
fn kind_zero_with_a_collection_is_a_document() {
    let collection = Key::new([4; 32]);
    assert_eq!(AccountKinds::create(0, Some(collection)), Ok(AccountKinds::Document { id: 0, collection }));
}

#[test]
fn kind_zero_without_a_collection_is_invalid() {
    assert_eq!(AccountKinds::create(0, None), Err(ErrorCode::InvalidAccountKind));
}

#[test]
fn kind_one_is_a_signer_with_or_without_a_collection() {
    assert_eq!(AccountKinds::create(1, None), Ok(AccountKinds::Signer { id: 1 }));
    assert_eq!(AccountKinds::create(1, Some(Key::new([4; 32]))), Ok(AccountKinds::Signer { id: 1 }));
}

#[test]
fn other_kinds_are_invalid() {
    assert_eq!(AccountKinds::create(2, None), Err(ErrorCode::InvalidAccountKind));
    assert_eq!(AccountKinds::create(2, Some(Key::new([4; 32]))), Err(ErrorCode::InvalidAccountKind));
    assert_eq!(AccountKinds::create(255, Some(Key::new([4; 32]))), Err(ErrorCode::InvalidAccountKind));
}

#[test]
fn counter_starts_at_zero_and_moves_by_one() {
    let mut stats = InstructionAccountStats { quantity_of_relations: 17 };
    stats.initialize();
    assert_eq!(stats.quantity_of_relations, 0);
    stats.increase_relation_quantity();
    stats.increase_relation_quantity();
    assert_eq!(stats.quantity_of_relations, 2);
    stats.decrease_relation_quantity();
    assert_eq!(stats.quantity_of_relations, 1);
}

#[test]
fn stored_sizes() {
    assert_eq!(InstructionAccountStats::space(), 9);
    assert_eq!(InstructionAccount::space(), 295);
}

#[test]
fn initialize_fills_the_account_and_keeps_the_rest() {
    let mut node = account();
    node.initialize(
        String::from("payer"),
        Key::new([1; 32]),
        Key::new([2; 32]),
        Key::new([3; 32]),
        Key::new([4; 32]),
        AccountKinds::Document { id: 0, collection: Key::new([5; 32]) },
        Some(AccountModifiers::Mut { id: 1 }),
        254,
    );
    let expected = InstructionAccount {
        authority: Key::new([1; 32]),
        workspace: Key::new([2; 32]),
        application: Key::new([3; 32]),
        instruction: Key::new([4; 32]),
        name: String::from("payer"),
        kind: AccountKinds::Document { id: 0, collection: Key::new([5; 32]) },
        modifier: Some(AccountModifiers::Mut { id: 1 }),
        instruction_account_stats_bump: 254,
        ..account()
    };
    assert_eq!(node, expected);
}

#[test]
fn rename_and_change_settings_touch_their_fields_only() {
    let mut node = account();
    node.rename(String::from("vault"));
    assert_eq!(node, InstructionAccount { name: String::from("vault"), ..account() });
    node.change_settings(AccountKinds::Signer { id: 1 }, Some(AccountModifiers::Init { id: 0 }));
    assert_eq!(
        node,
        InstructionAccount {
            name: String::from("vault"),
            modifier: Some(AccountModifiers::Init { id: 0 }),
            ..account()
        }
    );
}

#[test]
fn timestamps_are_set_as_given() {
    let mut node = account();
    node.set_timestamps(77);
    assert_eq!(node, InstructionAccount { created_at: 77, updated_at: 77, ..account() });
    node.set_updated_at(99);
    assert_eq!(node, InstructionAccount { created_at: 77, updated_at: 99, ..account() });
}

#[test]
fn timestamps_from_the_clock_or_nothing() {
    let mut node = account();
    match node.initialize_timestamp() {
        Ok(()) => assert_eq!(node, InstructionAccount { updated_at: node.created_at, ..account() }),
        Err(e) => {
            assert_eq!(e, ErrorCode::ClockUnavailable);
            assert_eq!(node, account());
        }
    }
    let mut node = account();
    match node.bump_timestamp() {
        Ok(()) => assert_eq!(node.created_at, 5),
        Err(e) => {
            assert_eq!(e, ErrorCode::ClockUnavailable);
            assert_eq!(node, account());
        }
    }
}

#[test]
fn a_reading_of_the_clock_in_the_library_s_terms() {
    assert_eq!(timestamp_of(Ok(1_700_000_000)), Ok(1_700_000_000));
    assert_eq!(timestamp_of(Ok(-1)), Ok(-1));
    assert_eq!(timestamp_of(Err(ProgramError::UnsupportedSysvar)), Err(ErrorCode::ClockUnavailable));
    assert_eq!(timestamp_of(Err(ProgramError::InvalidArgument)), Err(ErrorCode::ClockUnavailable));
    match unix_timestamp() {
        Ok(_) => {}
        Err(e) => assert_eq!(e, ErrorCode::ClockUnavailable),
    }
}

#[test]
fn funds_are_enough_when_the_spare_balance_covers_the_deposit() {
    assert!(has_enough_funds(2_400, 1_500, 900));
    assert!(!has_enough_funds(2_399, 1_500, 900));
    assert!(has_enough_funds(900, 0, 900));
    assert!(!has_enough_funds(899, 0, 900));
    assert!(!has_enough_funds(0, 1, 0));
    assert!(has_enough_funds(u64::MAX, u64::MAX, 0));
    assert!(!has_enough_funds(u64::MAX, u64::MAX, 1));
}

#[test]
fn funding_moves_the_amount_or_nothing() {
    let mut budget = 2_000u64;
    let mut receiver = 30u64;
    assert_eq!(fund_rent_for_account(&mut budget, &mut receiver, 1_500), Ok(()));
    assert_eq!((budget, receiver), (500, 1_530));
    assert_eq!(
        fund_rent_for_account(&mut budget, &mut receiver, 501),
        Err(ErrorCode::BudgetHasUnsufficientFunds)
    );
    assert_eq!((budget, receiver), (500, 1_530));
    assert_eq!(fund_rent_for_account(&mut budget, &mut receiver, 500), Ok(()));
    assert_eq!((budget, receiver), (0, 2_030));
}

fn instruction_to_delete(authority: u8) -> DeleteInstruction {
    DeleteInstruction {
        instruction: Account {
            key: Key::new([3; 32]),
            lamports: 2_000,
            data: Instruction {
                authority: Key::new([authority; 32]),
                workspace: Key::new([1; 32]),
                application: Key::new([2; 32]),
                name: String::from("transfer"),
                body: String::from("{}"),
            },
        },
        authority: Signer { key: Key::new([9; 32]), lamports: 30 },
    }
}

#[test]
fn the_authority_deletes_its_instruction_and_gets_the_deposit() {
    let mut accounts = instruction_to_delete(9);
    assert_eq!(handler(&mut accounts), Ok(()));
    assert_eq!(accounts.authority.lamports, 2_030);
    assert_eq!(accounts.instruction.lamports, 0);
    assert_eq!(accounts.authority.key, Key::new([9; 32]));
    assert_eq!(accounts.instruction.key, instruction_to_delete(9).instruction.key);
    assert_eq!(accounts.instruction.data, instruction_to_delete(9).instruction.data);
}

#[test]
fn nobody_else_deletes_an_instruction() {
    let mut accounts = instruction_to_delete(8);
    assert_eq!(handler(&mut accounts), Err(ErrorCode::InstructionDoesNotBelongToAuthority));
    assert_eq!(accounts, instruction_to_delete(8));
}

#[test]
fn a_refused_deletion_of_an_instruction_needs_no_room_for_the_deposit() {
    let mut accounts = instruction_to_delete(8);
    accounts.authority.lamports = u64::MAX;
    let before = accounts.clone();
    assert_eq!(handler(&mut accounts), Err(ErrorCode::InstructionDoesNotBelongToAuthority));
    assert_eq!(accounts, before);
}
