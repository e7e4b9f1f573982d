use shared_interfaces::address::{Address, AddressKind, Env};
use shared_interfaces::admin::{check_admin, transfer_admin_role};
use shared_interfaces::bounty_model::EscrowRecord;
use shared_interfaces::error::CommonError;
use shared_interfaces::pause::{set_pause_flags, PauseFlags};
use shared_interfaces::status::EscrowStatus;
use shared_interfaces::transfer::{Direction, Transfer};

fn admin() -> Address {
    Address::account(0, 1)
}

fn other() -> Address {
    Address::account(0, 2)
}

#[test]
fn test_addresses() {
    let a = Address::account(5, 6);
    assert_eq!(a, Address { kind: AddressKind::Account, hi: 5, lo: 6 });
    let c = Address::contract(5, 6);
    assert_eq!(c, Address { kind: AddressKind::Contract, hi: 5, lo: 6 });
    assert_ne!(a, c);
    assert_ne!(Address::account(5, 6), Address::account(6, 5));
    let env = Env::new(a, 42);
    assert_eq!(env.caller, a);
    assert_eq!(env.timestamp, 42);
}

#[test]
fn test_transfers() {
    assert_eq!(
        Transfer::deposit(admin(), other(), 5),
        Transfer { token: admin(), direction: Direction::IntoCustody, party: other(), amount: 5 }
    );
    assert_eq!(
        Transfer::payout(admin(), other(), 5),
        Transfer { token: admin(), direction: Direction::OutOfCustody, party: other(), amount: 5 }
    );
}

#[test]
fn test_pause_flags_partial_update() {
    let flags = PauseFlags::unpaused();
    assert_eq!(flags, PauseFlags { lock: false, release: false, refund: false });
    let flags = flags.updated(Some(true), None, None);
    assert_eq!(flags, PauseFlags { lock: true, release: false, refund: false });
    let flags = flags.updated(None, Some(true), Some(false));
    assert_eq!(flags, PauseFlags { lock: true, release: true, refund: false });
    let flags = flags.updated(None, None, None);
    assert_eq!(flags, PauseFlags { lock: true, release: true, refund: false });
    let flags = flags.updated(Some(false), Some(false), Some(true));
    assert_eq!(flags, PauseFlags { lock: false, release: false, refund: true });
}

#[test]
fn test_set_pause_flags() {
    let flags = PauseFlags { lock: false, release: true, refund: false };
    assert_eq!(
        set_pause_flags(Some(admin()), admin(), flags, Some(true), None, None),
        (PauseFlags { lock: true, release: true, refund: false }, Ok(()))
    );
    assert_eq!(
        set_pause_flags(Some(admin()), other(), flags, Some(true), None, None),
        (flags, Err(CommonError::Unauthorized))
    );
    assert_eq!(
        set_pause_flags(None, admin(), flags, Some(true), None, None),
        (flags, Err(CommonError::Unauthorized))
    );
}

#[test]
fn test_admin_role() {
    assert!(check_admin(Some(admin()), admin()));
    assert!(!check_admin(Some(admin()), other()));
    assert!(!check_admin(None, admin()));
    assert_eq!(transfer_admin_role(Some(admin()), admin(), other()), (Some(other()), Ok(())));
    assert_eq!(
        transfer_admin_role(Some(admin()), other(), other()),
        (Some(admin()), Err(CommonError::Unauthorized))
    );
    assert_eq!(
        transfer_admin_role(None, admin(), other()),
        (None, Err(CommonError::NotInitialized))
    );
}

#[test]
fn test_status_moves() {
    assert!(!EscrowStatus::Locked.is_terminal());
    assert!(!EscrowStatus::PartiallyReleased.is_terminal());
    assert!(EscrowStatus::Released.is_terminal());
    assert!(EscrowStatus::Refunded.is_terminal());

    assert!(EscrowStatus::Locked.can_release());
    assert!(EscrowStatus::PartiallyReleased.can_release());
    assert!(!EscrowStatus::Released.can_release());
    assert!(!EscrowStatus::Refunded.can_release());

    assert!(EscrowStatus::Locked.can_refund());
    assert!(!EscrowStatus::PartiallyReleased.can_refund());
    assert!(!EscrowStatus::Released.can_refund());
    assert!(!EscrowStatus::Refunded.can_refund());

    assert!(EscrowStatus::Locked.can_become(EscrowStatus::Released));
    assert!(EscrowStatus::Locked.can_become(EscrowStatus::Refunded));
    assert!(EscrowStatus::Locked.can_become(EscrowStatus::PartiallyReleased));
    assert!(!EscrowStatus::Locked.can_become(EscrowStatus::Locked));
    assert!(EscrowStatus::PartiallyReleased.can_become(EscrowStatus::PartiallyReleased));
    assert!(EscrowStatus::PartiallyReleased.can_become(EscrowStatus::Released));
    assert!(!EscrowStatus::PartiallyReleased.can_become(EscrowStatus::Refunded));
    assert!(!EscrowStatus::PartiallyReleased.can_become(EscrowStatus::Locked));
    assert!(!EscrowStatus::Released.can_become(EscrowStatus::Refunded));
    assert!(!EscrowStatus::Released.can_become(EscrowStatus::Released));
    assert!(!EscrowStatus::Released.can_become(EscrowStatus::Locked));
    assert!(!EscrowStatus::Refunded.can_become(EscrowStatus::Released));
    assert!(!EscrowStatus::Refunded.can_become(EscrowStatus::Locked));
}

#[test]
fn test_record_deadline() {
    let record = EscrowRecord {
        amount: 5,
        depositor: admin(),
        deadline: Some(100),
        status: EscrowStatus::Locked,
    };
    assert!(!record.is_due(99));
    assert!(record.is_due(100));
    assert!(record.is_due(u64::MAX));
    let open_ended = EscrowRecord { deadline: None, ..record };
    assert!(!open_ended.is_due(0));
    assert!(!open_ended.is_due(u64::MAX));
}
