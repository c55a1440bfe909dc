use subdex::error::Error;
use subdex::xcmp::{AssetDeposit, Module, XCMPMessage};

const ALICE: u64 = 11;
const BOB: u64 = 12;

#[test]
fn non_zero_balance_guard() {
    assert_eq!(Module::ensure_non_zero_balance(1), Ok(()));
    assert_eq!(Module::ensure_non_zero_balance(u64::MAX), Ok(()));
    assert_eq!(Module::ensure_non_zero_balance(0), Err(Error::AmountShouldBeGreaterThanZero));
}

#[test]
fn unknown_asset_does_not_exist() {
    let module = Module::new(1);
    assert_eq!(module.ensure_asset_id_exists(100, None), Err(Error::AssetIdDoesNotExist));
    assert_eq!(module.ensure_asset_id_exists(100, Some(4)), Err(Error::AssetIdDoesNotExist));
    assert_eq!(module.next_asset_id, 1);
    assert!(module.asset_id_by_para_asset_id.is_empty());
}

#[test]
fn first_transfer_of_an_asset_registers_it() {
    let mut module = Module::new(7);
    let msg = XCMPMessage::TransferToken(ALICE, 500, Some(3));
    let deposit = module.handle_xcmp_message(200, &msg).unwrap();
    assert_eq!(
        deposit,
        AssetDeposit {
            para_id: 200,
            para_asset_id: Some(3),
            dest: ALICE,
            asset_id: 7,
            amount: 500,
            registered: true,
        }
    );
    assert_eq!(module.next_asset_id, 8);
    assert_eq!(module.ensure_asset_id_exists(200, Some(3)), Ok(7));
    assert_eq!(module.ensure_asset_id_exists(200, None), Err(Error::AssetIdDoesNotExist));
    assert_eq!(module.ensure_asset_id_exists(201, Some(3)), Err(Error::AssetIdDoesNotExist));
}

#[test]
fn later_transfers_use_the_registered_id() {
    let mut module = Module::new(7);
    module.handle_xcmp_message(200, &XCMPMessage::TransferToken(ALICE, 500, Some(3))).unwrap();
    let before = module.asset_id_by_para_asset_id.clone();
    let deposit = module.handle_xcmp_message(200, &XCMPMessage::TransferToken(BOB, 20, Some(3))).unwrap();
    assert_eq!(
        deposit,
        AssetDeposit {
            para_id: 200,
            para_asset_id: Some(3),
            dest: BOB,
            asset_id: 7,
            amount: 20,
            registered: false,
        }
    );
    assert_eq!(module.next_asset_id, 8);
    assert_eq!(module.asset_id_by_para_asset_id, before);
}

#[test]
fn each_asset_of_each_parachain_gets_its_own_id() {
    let mut module = Module::new(0);
    let main_of_200 = module.handle_xcmp_message(200, &XCMPMessage::TransferToken(ALICE, 1, None)).unwrap();
    let third_of_200 = module.handle_xcmp_message(200, &XCMPMessage::TransferToken(ALICE, 1, Some(3))).unwrap();
    let main_of_300 = module.handle_xcmp_message(300, &XCMPMessage::TransferToken(ALICE, 1, None)).unwrap();
    let third_of_300 = module.handle_xcmp_message(300, &XCMPMessage::TransferToken(ALICE, 1, Some(3))).unwrap();
    assert_eq!(main_of_200.asset_id, 0);
    assert_eq!(third_of_200.asset_id, 1);
    assert_eq!(main_of_300.asset_id, 2);
    assert_eq!(third_of_300.asset_id, 3);
    assert_eq!(module.next_asset_id, 4);
    assert_eq!(module.ensure_asset_id_exists(200, None), Ok(0));
    assert_eq!(module.ensure_asset_id_exists(200, Some(3)), Ok(1));
    assert_eq!(module.ensure_asset_id_exists(300, None), Ok(2));
    assert_eq!(module.ensure_asset_id_exists(300, Some(3)), Ok(3));
    assert_eq!(module.asset_id_by_para_asset_id.len(), 4);
}

#[test]
fn registry_stops_when_ids_run_out() {
    let mut module = Module::new(u64::MAX);
    let outcome = module.handle_xcmp_message(200, &XCMPMessage::TransferToken(ALICE, 1, None));
    assert_eq!(outcome, Err(Error::OverflowOccured));
    assert_eq!(module.next_asset_id, u64::MAX);
    assert!(module.asset_id_by_para_asset_id.is_empty());
    let mut module = Module::new(u64::MAX - 1);
    let deposit = module.handle_xcmp_message(200, &XCMPMessage::TransferToken(ALICE, 1, None)).unwrap();
    assert_eq!(deposit.asset_id, u64::MAX - 1);
    assert_eq!(module.next_asset_id, u64::MAX);
    let known = module.handle_xcmp_message(200, &XCMPMessage::TransferToken(BOB, 2, None)).unwrap();
    assert_eq!(known.asset_id, u64::MAX - 1);
    assert!(!known.registered);
}
