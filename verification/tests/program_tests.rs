use shared_interfaces::address::{Address, Env};
use shared_interfaces::admin::AdminManaged;
use shared_interfaces::error::CommonError;
use shared_interfaces::pause::Pausable;
use shared_interfaces::program::{
    amounts_all_positive, same_bytes, total_exceeds, ProgramEscrow, ProgramEscrowTrait,
};
use soroban_sdk::TryFromVal;
use shared_interfaces::transfer::{Direction, Transfer};
use shared_interfaces::version::Versioned;

fn admin() -> Address {
    Address::account(0, 1)
}

fn token() -> Address {
    Address::contract(0, 2)
}

fn alice() -> Address {
    Address::account(1, 10)
}

fn bob() -> Address {
    Address::account(1, 11)
}

fn carol() -> Address {
    Address::contract(1, 12)
}

fn env() -> Env {
    Env::new(admin(), 1_000)
}

fn id(text: &str) -> soroban_sdk::String {
    soroban_sdk::String::from_str(&soroban_sdk::Env::default(), text)
}

fn amounts(items: &[i128]) -> soroban_sdk::Vec<i128> {
    soroban_sdk::Vec::from_slice(&soroban_sdk::Env::default(), items)
}

fn funded(amount: i128) -> ProgramEscrow {
    let mut escrow = ProgramEscrow::new();
    assert_eq!(escrow.init_program(env(), id("test"), admin(), token()), Ok(()));
    assert_eq!(escrow.lock_program_funds(env(), amount), Ok(()));
    escrow
}

#[test]
fn test_program_init_works_once() {
    let mut escrow = ProgramEscrow::new();
    assert!(!escrow.program_exists(env(), id("test")));
    assert_eq!(escrow.get_remaining_balance(env()), 0);
    assert_eq!(escrow.get_admin(env()), None);
    assert_eq!(escrow.get_token(), None);

    assert_eq!(escrow.init_program(env(), id("test"), admin(), token()), Ok(()));
    assert!(escrow.program_exists(env(), id("test")));
    assert!(!escrow.program_exists(env(), id("other")));
    assert!(!escrow.program_exists(env(), id("")));
    assert_eq!(escrow.get_admin(env()), Some(admin()));
    assert_eq!(escrow.get_token(), Some(token()));
    assert_eq!(escrow.get_remaining_balance(env()), 0);

    assert_eq!(
        escrow.init_program(env(), id("test"), alice(), alice()),
        Err(CommonError::AlreadyInitialized)
    );
    assert_eq!(
        escrow.init_program(env(), id("other"), alice(), alice()),
        Err(CommonError::AlreadyInitialized)
    );
    assert!(!escrow.program_exists(env(), id("other")));
    assert_eq!(escrow.get_admin(env()), Some(admin()));
    assert_eq!(escrow.get_token(), Some(token()));
}

#[test]
fn test_lock_program_funds() {
    let mut escrow = funded(1_000);
    assert_eq!(escrow.get_remaining_balance(env()), 1_000);
    assert_eq!(escrow.lock_program_funds(env(), 1), Ok(()));
    assert_eq!(escrow.get_remaining_balance(env()), 1_001);
    assert_eq!(escrow.lock_program_funds(env(), 0), Err(CommonError::InvalidAmount));
    assert_eq!(escrow.lock_program_funds(env(), -5), Err(CommonError::InvalidAmount));
    assert_eq!(escrow.get_remaining_balance(env()), 1_001);
}

#[test]
fn test_lock_program_funds_needs_program() {
    let mut escrow = ProgramEscrow::new();
    assert_eq!(escrow.lock_program_funds(env(), 5), Err(CommonError::NotInitialized));
    assert_eq!(escrow.lock_program_funds(env(), 0), Err(CommonError::InvalidAmount));
    assert_eq!(escrow.get_remaining_balance(env()), 0);
}

#[test]
fn test_lock_program_funds_at_the_limit() {
    let mut escrow = funded(i128::MAX - 1);
    assert_eq!(escrow.lock_program_funds(env(), 2), Err(CommonError::InvalidAmount));
    assert_eq!(escrow.get_remaining_balance(env()), i128::MAX - 1);
    assert_eq!(escrow.lock_program_funds(env(), 1), Ok(()));
    assert_eq!(escrow.get_remaining_balance(env()), i128::MAX);
    assert_eq!(escrow.lock_program_funds(env(), 1), Err(CommonError::InvalidAmount));
    assert_eq!(escrow.get_remaining_balance(env()), i128::MAX);
}

#[test]
fn test_lock_program_funds_paused() {
    let mut escrow = funded(10);
    assert_eq!(escrow.set_paused(env(), Some(true), None, None), Ok(()));
    assert_eq!(escrow.lock_program_funds(env(), 5), Err(CommonError::Paused));
    assert_eq!(escrow.lock_program_funds(env(), 0), Err(CommonError::Paused));
    assert_eq!(escrow.get_remaining_balance(env()), 10);
    assert_eq!(
        escrow.single_payout(env(), alice(), 4),
        Ok(Transfer::payout(token(), alice(), 4))
    );
}

#[test]
fn test_single_payout() {
    let mut escrow = funded(1_000);
    assert_eq!(
        escrow.single_payout(env(), alice(), 100),
        Ok(Transfer {
            token: token(),
            direction: Direction::OutOfCustody,
            party: alice(),
            amount: 100,
        })
    );
    assert_eq!(escrow.get_remaining_balance(env()), 900);
    assert_eq!(
        escrow.single_payout(env(), bob(), 901),
        Err(CommonError::InsufficientBalance)
    );
    assert_eq!(escrow.single_payout(env(), bob(), 0), Err(CommonError::InvalidAmount));
    assert_eq!(escrow.single_payout(env(), bob(), -1), Err(CommonError::InvalidAmount));
    assert_eq!(escrow.get_remaining_balance(env()), 900);
    assert_eq!(
        escrow.single_payout(env(), bob(), 900),
        Ok(Transfer::payout(token(), bob(), 900))
    );
    assert_eq!(escrow.get_remaining_balance(env()), 0);
    assert_eq!(
        escrow.single_payout(env(), bob(), 1),
        Err(CommonError::InsufficientBalance)
    );
}

#[test]
fn test_payouts_before_a_program_is_registered() {
    let mut escrow = ProgramEscrow::new();
    assert_eq!(escrow.get_remaining_balance(env()), 0);
    assert_eq!(
        escrow.single_payout(env(), alice(), 1),
        Err(CommonError::InsufficientBalance)
    );
    assert_eq!(escrow.single_payout(env(), alice(), 0), Err(CommonError::InvalidAmount));
    assert_eq!(
        escrow.batch_payout(env(), vec![alice()], amounts(&[5])),
        Err(CommonError::InsufficientBalance)
    );
    assert_eq!(
        escrow.batch_payout(env(), vec![alice()], amounts(&[0])),
        Err(CommonError::InvalidAmount)
    );
    assert_eq!(
        escrow.batch_payout(env(), Vec::new(), amounts(&[])),
        Err(CommonError::NotInitialized)
    );
    assert_eq!(escrow.get_remaining_balance(env()), 0);
}

#[test]
fn test_overdrawn_batch_with_a_bad_amount() {
    let mut escrow = funded(10);
    assert_eq!(
        escrow.batch_payout(env(), vec![alice(), bob()], amounts(&[0, 11])),
        Err(CommonError::InsufficientBalance)
    );
    assert_eq!(
        escrow.batch_payout(env(), vec![alice(), bob()], amounts(&[-1, 12])),
        Err(CommonError::InsufficientBalance)
    );
    assert_eq!(
        escrow.batch_payout(env(), vec![alice(), bob()], amounts(&[12, -1])),
        Err(CommonError::InsufficientBalance)
    );
    assert_eq!(
        escrow.batch_payout(env(), vec![alice(), bob()], amounts(&[12, -2])),
        Err(CommonError::InvalidAmount)
    );
    assert_eq!(
        escrow.batch_payout(env(), vec![alice(), bob()], amounts(&[0, 10])),
        Err(CommonError::InvalidAmount)
    );
    assert_eq!(
        escrow.batch_payout(env(), vec![alice(), bob(), carol(), alice()], amounts(&[i128::MAX, i128::MAX, i128::MIN, i128::MIN])),
        Err(CommonError::InvalidAmount)
    );
    assert_eq!(
        escrow.batch_payout(env(), vec![alice(), bob(), carol()], amounts(&[i128::MAX, i128::MIN, 12])),
        Err(CommonError::InsufficientBalance)
    );
    assert_eq!(escrow.get_remaining_balance(env()), 10);
    assert_eq!(
        escrow.single_payout(env(), alice(), 11),
        Err(CommonError::InsufficientBalance)
    );
    assert_eq!(escrow.get_remaining_balance(env()), 10);
}

#[test]
fn test_total_exceeds() {
    assert!(!total_exceeds(&Vec::new(), 0));
    assert!(total_exceeds(&Vec::new(), -1));
    assert!(!total_exceeds(&vec![1, 2, 3], 6));
    assert!(total_exceeds(&vec![1, 2, 3], 5));
    assert!(total_exceeds(&vec![i128::MAX, 1], i128::MAX));
    assert!(total_exceeds(&vec![i128::MAX, i128::MAX, i128::MAX], i128::MAX));
    assert!(!total_exceeds(&vec![i128::MAX, i128::MAX, i128::MIN], i128::MAX - 1));
    assert!(total_exceeds(&vec![i128::MAX, i128::MAX, i128::MIN], i128::MAX - 2));
    assert!(!total_exceeds(&vec![i128::MIN, i128::MIN], i128::MIN));
    assert!(!total_exceeds(&vec![i128::MIN, -1], i128::MIN));
    assert!(!total_exceeds(&vec![i128::MIN, 0], i128::MIN));
    assert!(total_exceeds(&vec![i128::MIN, 1], i128::MIN));
    assert!(total_exceeds(&vec![i128::MAX, i128::MAX, i128::MIN, i128::MIN], -3));
    assert!(!total_exceeds(&vec![i128::MAX, i128::MAX, i128::MIN, i128::MIN], -2));
    assert!(!total_exceeds(&vec![i128::MIN, i128::MIN, i128::MAX, i128::MAX], -2));
    assert!(total_exceeds(&vec![i128::MIN, i128::MIN, i128::MAX, i128::MAX, 1], -2));
}

#[test]
fn test_batch_payout_pays_all() {
    let mut escrow = funded(1_000);
    assert_eq!(
        escrow.batch_payout(env(), vec![alice(), bob(), carol()], amounts(&[100, 250, 50])),
        Ok(vec![
            Transfer::payout(token(), alice(), 100),
            Transfer::payout(token(), bob(), 250),
            Transfer::payout(token(), carol(), 50),
        ])
    );
    assert_eq!(escrow.get_remaining_balance(env()), 600);
    assert_eq!(
        escrow.batch_payout(env(), vec![alice(), alice()], amounts(&[300, 300])),
        Ok(vec![
            Transfer::payout(token(), alice(), 300),
            Transfer::payout(token(), alice(), 300),
        ])
    );
    assert_eq!(escrow.get_remaining_balance(env()), 0);
}

#[test]
fn test_batch_payout_empty() {
    let mut escrow = funded(1_000);
    assert_eq!(escrow.batch_payout(env(), Vec::new(), amounts(&[])), Ok(Vec::new()));
    assert_eq!(escrow.get_remaining_balance(env()), 1_000);
}

#[test]
fn test_batch_payout_length_mismatch_changes_nothing() {
    let mut escrow = funded(1_000);
    assert_eq!(
        escrow.batch_payout(env(), vec![alice(), bob()], amounts(&[100])),
        Err(CommonError::InvalidAmount)
    );
    assert_eq!(escrow.get_remaining_balance(env()), 1_000);
    assert_eq!(
        escrow.batch_payout(env(), vec![alice()], amounts(&[100, 200])),
        Err(CommonError::InvalidAmount)
    );
    assert_eq!(
        escrow.batch_payout(env(), Vec::new(), amounts(&[100])),
        Err(CommonError::InvalidAmount)
    );
    assert_eq!(
        escrow.batch_payout(env(), vec![alice(), bob()], amounts(&[5_000])),
        Err(CommonError::InvalidAmount)
    );
    assert_eq!(escrow.get_remaining_balance(env()), 1_000);
}

#[test]
fn test_batch_payout_overdrawn_pays_nobody() {
    let mut escrow = funded(1_000);
    assert_eq!(
        escrow.batch_payout(env(), vec![alice(), bob(), carol()], amounts(&[500, 400, 101])),
        Err(CommonError::InsufficientBalance)
    );
    assert_eq!(escrow.get_remaining_balance(env()), 1_000);
    assert_eq!(
        escrow.batch_payout(env(), vec![alice(), bob()], amounts(&[i128::MAX, i128::MAX])),
        Err(CommonError::InsufficientBalance)
    );
    assert_eq!(escrow.get_remaining_balance(env()), 1_000);
    assert_eq!(
        escrow.batch_payout(env(), vec![alice(), bob(), carol()], amounts(&[500, 400, 100])),
        Ok(vec![
            Transfer::payout(token(), alice(), 500),
            Transfer::payout(token(), bob(), 400),
            Transfer::payout(token(), carol(), 100),
        ])
    );
    assert_eq!(escrow.get_remaining_balance(env()), 0);
}

#[test]
fn test_batch_payout_rejects_non_positive_amounts() {
    let mut escrow = funded(1_000);
    assert_eq!(
        escrow.batch_payout(env(), vec![alice(), bob()], amounts(&[100, 0])),
        Err(CommonError::InvalidAmount)
    );
    assert_eq!(
        escrow.batch_payout(env(), vec![alice(), bob()], amounts(&[-100, 200])),
        Err(CommonError::InvalidAmount)
    );
    assert_eq!(
        escrow.batch_payout(env(), vec![alice(), bob()], amounts(&[500, -1])),
        Err(CommonError::InvalidAmount)
    );
    assert_eq!(
        escrow.batch_payout(env(), vec![alice(), bob()], amounts(&[5_000, -1])),
        Err(CommonError::InsufficientBalance)
    );
    assert_eq!(escrow.get_remaining_balance(env()), 1_000);
}

#[test]
fn test_payouts_paused() {
    let mut escrow = funded(1_000);
    assert_eq!(escrow.set_paused(env(), None, Some(true), None), Ok(()));
    assert_eq!(escrow.single_payout(env(), alice(), 1), Err(CommonError::Paused));
    assert_eq!(
        escrow.batch_payout(env(), vec![alice()], amounts(&[1])),
        Err(CommonError::Paused)
    );
    assert_eq!(
        escrow.batch_payout(env(), vec![alice()], amounts(&[1, 2])),
        Err(CommonError::Paused)
    );
    assert_eq!(escrow.get_remaining_balance(env()), 1_000);
    assert_eq!(escrow.lock_program_funds(env(), 1), Ok(()));
    assert_eq!(escrow.set_paused(env(), None, Some(false), None), Ok(()));
    assert!(escrow.single_payout(env(), alice(), 1).is_ok());
    assert_eq!(escrow.get_remaining_balance(env()), 1_000);
}

#[test]
fn test_program_pause_and_admin() {
    let mut escrow = funded(10);
    let outsider = Env::new(alice(), 0);
    assert_eq!(
        escrow.set_paused(outsider, Some(true), None, None),
        Err(CommonError::Unauthorized)
    );
    assert!(!escrow.is_lock_paused(&env()));
    assert_eq!(escrow.transfer_admin(outsider, alice()), Err(CommonError::Unauthorized));
    assert_eq!(escrow.get_admin(env()), Some(admin()));
    assert_eq!(escrow.transfer_admin(env(), alice()), Ok(()));
    assert_eq!(escrow.get_admin(env()), Some(alice()));
    assert_eq!(escrow.set_paused(outsider, None, None, Some(true)), Ok(()));
    assert!(escrow.is_refund_paused(&env()));
    assert!(!escrow.is_release_paused(&env()));
    assert!(!escrow.is_lock_paused(&env()));

    let mut fresh = ProgramEscrow::new();
    assert_eq!(fresh.transfer_admin(env(), alice()), Err(CommonError::NotInitialized));
}

#[test]
fn test_amounts_all_positive() {
    assert!(amounts_all_positive(&Vec::new()));
    assert!(amounts_all_positive(&vec![1, 2, i128::MAX]));
    assert!(!amounts_all_positive(&vec![1, 0, 3]));
    assert!(!amounts_all_positive(&vec![1, 2, -3]));
    assert!(!amounts_all_positive(&vec![i128::MIN]));
}

#[test]
fn test_program_escrow_versions() {
    let escrow = ProgramEscrow::new();
    assert_eq!(escrow.get_version(env()), 1);
    assert_eq!(escrow.get_interface_version(env()), (1, 0, 0));
}

#[test]
fn test_program_id_is_read_byte_by_byte() {
    let mut escrow = ProgramEscrow::new();
    assert_eq!(escrow.init_program(env(), id("program-7"), admin(), token()), Ok(()));
    assert!(escrow.program_exists(env(), id("program-7")));
    assert!(!escrow.program_exists(env(), id("program-8")));
    assert!(!escrow.program_exists(env(), id("program-")));
    assert!(!escrow.program_exists(env(), id("program-77")));
    assert!(!escrow.program_exists(env(), id("Program-7")));
    assert!(escrow.serves_program(&b"program-7".to_vec()));
    assert!(!escrow.serves_program(&b"program-8".to_vec()));
    assert!(!escrow.serves_program(&Vec::new()));
}

#[test]
fn test_register_and_serve_by_bytes() {
    let mut escrow = ProgramEscrow::new();
    assert!(!escrow.serves_program(&vec![1, 2, 3]));
    assert_eq!(escrow.register_program(vec![1, 2, 3], admin(), token()), Ok(()));
    assert!(escrow.serves_program(&vec![1, 2, 3]));
    assert!(!escrow.serves_program(&vec![1, 2]));
    assert!(!escrow.serves_program(&vec![1, 2, 4]));
    assert!(!escrow.serves_program(&vec![1, 2, 3, 0]));
    assert_eq!(
        escrow.register_program(vec![9], alice(), alice()),
        Err(CommonError::AlreadyInitialized)
    );
    assert!(escrow.serves_program(&vec![1, 2, 3]));
    assert!(!escrow.serves_program(&vec![9]));
    assert_eq!(escrow.get_admin(env()), Some(admin()));
}

#[test]
fn test_same_bytes() {
    assert!(same_bytes(&Vec::new(), &Vec::new()));
    assert!(same_bytes(&vec![0, 255, 7], &vec![0, 255, 7]));
    assert!(!same_bytes(&vec![0, 255, 7], &vec![0, 255, 8]));
    assert!(!same_bytes(&vec![1, 255, 7], &vec![0, 255, 7]));
    assert!(!same_bytes(&vec![0, 255], &vec![0, 255, 7]));
    assert!(!same_bytes(&vec![0], &Vec::new()));
}

#[test]
fn test_pay_batch_on_plain_amounts() {
    let mut escrow = funded(1_000);
    assert_eq!(
        escrow.pay_batch(vec![alice(), bob()], vec![100, 250]),
        Ok(vec![
            Transfer::payout(token(), alice(), 100),
            Transfer::payout(token(), bob(), 250),
        ])
    );
    assert_eq!(escrow.get_remaining_balance(env()), 650);
    assert_eq!(
        escrow.pay_batch(vec![alice(), bob()], vec![0, 651]),
        Err(CommonError::InsufficientBalance)
    );
    assert_eq!(
        escrow.pay_batch(vec![alice(), bob()], vec![0, 650]),
        Err(CommonError::InvalidAmount)
    );
    assert_eq!(escrow.pay_batch(vec![alice()], vec![1, 2]), Err(CommonError::InvalidAmount));
    assert_eq!(escrow.get_remaining_balance(env()), 650);
}

#[test]
fn test_batch_payout_reads_the_host_list_in_order() {
    let mut escrow = funded(1_000);
    assert_eq!(
        escrow.batch_payout(env(), vec![alice(), bob(), carol()], amounts(&[3, 1, 2])),
        Ok(vec![
            Transfer::payout(token(), alice(), 3),
            Transfer::payout(token(), bob(), 1),
            Transfer::payout(token(), carol(), 2),
        ])
    );
    assert_eq!(escrow.get_remaining_balance(env()), 994);
}

#[test]
fn test_batch_payout_on_a_list_that_holds_no_amounts() {
    let host = soroban_sdk::Env::default();
    let small = soroban_sdk::Vec::from_array(&host, [7u32, 8u32]);
    let list = soroban_sdk::Vec::<i128>::try_from_val(&host, &small.to_val()).unwrap();
    let mut escrow = funded(1_000);
    assert_eq!(
        escrow.batch_payout(env(), vec![alice(), bob()], list.clone()),
        Err(CommonError::InvalidAmount)
    );
    assert_eq!(escrow.get_remaining_balance(env()), 1_000);
    assert_eq!(escrow.set_paused(env(), None, Some(true), None), Ok(()));
    assert_eq!(
        escrow.batch_payout(env(), vec![alice(), bob()], list),
        Err(CommonError::Paused)
    );
    assert_eq!(escrow.get_remaining_balance(env()), 1_000);
}
