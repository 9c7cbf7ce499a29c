use mi_reth_evm::system_calls::{
    deploy_multicall3_contract, multicall3_address, multicall3_deployment_target, AccountInfo,
    AccountStatus, Multicall3Error, MULTICALL3_HARDFORK_CHAIN_ID, MULTICALL3_REPLACEMENT_BLOCK,
};
use mi_reth_evm::{B256, U256};

const MULTICALL3_ADDRESS_BYTES: [u8; 20] = [
    0xca, 0x11, 0xbd, 0xe0, 0x59, 0x77, 0xb3, 0x63, 0x11, 0x67, 0x02, 0x88, 0x62, 0xbe, 0x2a,
    0x17, 0x39, 0x76, 0xca, 0x11,
];

/// Keccak-256 of the empty byte string.
const KECCAK_EMPTY: [u8; 32] = [
    0xc5, 0xd2, 0x46, 0x01, 0x86, 0xf7, 0x23, 0x3c, 0x92, 0x7e, 0x7d, 0xb2, 0xdc, 0xc7, 0x03,
    0xc0, 0xe5, 0x00, 0xb6, 0x53, 0xca, 0x82, 0x27, 0x3b, 0x7b, 0xfa, 0xd8, 0x04, 0x5d, 0x85,
    0xa4, 0x70,
];

fn block(n: u64) -> U256 {
    U256::from_limbs([n, 0, 0, 0])
}

fn sample_code() -> Vec<u8> {
    vec![0x60, 0x80, 0x60, 0x40, 0x52, 0x34, 0x80, 0x15]
}

fn existing_account(balance: [u64; 4]) -> AccountInfo {
    AccountInfo {
        balance: U256::from_limbs(balance),
        nonce: 7,
        code_hash: B256 { bytes: [0x11; 32] },
        account_id: Some(3),
        code: Some(vec![0xfe]),
    }
}

#[test]
fn constants_match_the_devnet_hardfork() {
    assert_eq!(MULTICALL3_HARDFORK_CHAIN_ID, 124816);
    assert_eq!(MULTICALL3_REPLACEMENT_BLOCK, 786000);
    assert_eq!(multicall3_address().bytes, MULTICALL3_ADDRESS_BYTES);
}

#[test]
fn hook_fires_at_the_replacement_block_of_the_devnet() {
    let target = multicall3_deployment_target(124816, &block(786000));
    assert_eq!(target.map(|a| a.bytes), Some(MULTICALL3_ADDRESS_BYTES));
}

#[test]
fn hook_is_a_noop_on_other_blocks() {
    assert!(multicall3_deployment_target(124816, &block(785999)).is_none());
    assert!(multicall3_deployment_target(124816, &block(786001)).is_none());
    assert!(multicall3_deployment_target(124816, &block(0)).is_none());
    assert!(multicall3_deployment_target(124816, &block(u64::MAX)).is_none());
}

#[test]
fn hook_is_a_noop_on_other_chains() {
    assert!(multicall3_deployment_target(1, &block(786000)).is_none());
    assert!(multicall3_deployment_target(124815, &block(786000)).is_none());
    assert!(multicall3_deployment_target(124817, &block(786000)).is_none());
}

#[test]
fn block_numbers_beyond_u64_saturate_and_do_not_fire() {
    // 786000 + 2^64 and 786000 + 2^192: the low limb alone would match.
    let high = U256::from_limbs([786000, 1, 0, 0]);
    assert_eq!(high.saturating_to_u64(), u64::MAX);
    assert!(multicall3_deployment_target(124816, &high).is_none());
    let top = U256::from_limbs([786000, 0, 0, 1]);
    assert_eq!(top.saturating_to_u64(), u64::MAX);
    assert!(multicall3_deployment_target(124816, &top).is_none());
    assert_eq!(block(786000).saturating_to_u64(), 786000);
    assert_eq!(U256::zero().saturating_to_u64(), 0);
}

#[test]
fn deployment_on_a_missing_account_starts_with_zero_balance() {
    let code = sample_code();
    let loaded: Result<Option<AccountInfo>, String> = Ok(None);
    let d = deploy_multicall3_contract(loaded, &code).expect("load succeeded");
    assert_eq!(d.address.bytes, MULTICALL3_ADDRESS_BYTES);
    let info = &d.account.info;
    assert_eq!(info.balance, U256::zero());
    assert_eq!(info.nonce, 1);
    assert_eq!(info.code.as_deref(), Some(&code[..]));
    assert_eq!(info.account_id, None);
    assert_eq!(info.code_hash.bytes, alloy_primitives::keccak256(&code).0);
    assert_eq!(d.account.transaction_id, 0);
}

#[test]
fn deployment_keeps_the_balance_and_overwrites_nonce_and_code() {
    let code = sample_code();
    let balance = [5, 0, 9, 0];
    let loaded: Result<Option<AccountInfo>, String> = Ok(Some(existing_account(balance)));
    let d = deploy_multicall3_contract(loaded, &code).expect("load succeeded");
    let info = &d.account.info;
    assert_eq!(info.balance, U256::from_limbs(balance));
    assert_eq!(info.nonce, 1);
    assert_eq!(info.account_id, None);
    assert_eq!(info.code.as_deref(), Some(&code[..]));
    assert_ne!(info.code_hash.bytes, [0x11; 32]);
}

#[test]
fn written_account_is_touched_created_with_equal_original_info() {
    let code = sample_code();
    let loaded: Result<Option<AccountInfo>, ()> = Ok(Some(existing_account([42, 0, 0, 0])));
    let d = deploy_multicall3_contract(loaded, &code).expect("load succeeded");
    let status = d.account.status;
    assert_eq!(
        status,
        AccountStatus {
            created: true,
            created_local: false,
            self_destructed: false,
            self_destructed_local: false,
            touched: true,
            loaded_as_not_existing: false,
            cold: false,
        }
    );
    let (info, orig) = (&d.account.info, &d.account.original_info);
    assert_eq!(info.balance, orig.balance);
    assert_eq!(info.nonce, orig.nonce);
    assert_eq!(info.code_hash, orig.code_hash);
    assert_eq!(info.account_id, orig.account_id);
    assert_eq!(info.code, orig.code);
}

#[test]
fn code_hash_is_the_keccak_digest_of_the_code() {
    let empty: Vec<u8> = Vec::new();
    let loaded: Result<Option<AccountInfo>, ()> = Ok(None);
    let d = deploy_multicall3_contract(loaded, &empty).expect("load succeeded");
    assert_eq!(d.account.info.code_hash.bytes, KECCAK_EMPTY);

    let code = sample_code();
    let loaded: Result<Option<AccountInfo>, ()> = Ok(None);
    let d = deploy_multicall3_contract(loaded, &code).expect("load succeeded");
    assert_eq!(d.account.info.code_hash.bytes, alloy_primitives::keccak256(&code).0);
    assert_ne!(d.account.info.code_hash.bytes, KECCAK_EMPTY);
}

#[test]
fn failed_load_reports_the_load_error() {
    let code = sample_code();
    let loaded: Result<Option<AccountInfo>, String> = Err("disk".to_string());
    let r = deploy_multicall3_contract(loaded, &code);
    let err = r.err().expect("a failed load is an error");
    assert_eq!(err, Multicall3Error::AccountLoad);
    assert_eq!(err.message(), "failed to load Multicall3 account into cache");
}

#[test]
fn redeploying_onto_the_written_account_writes_the_same_account() {
    let code = sample_code();
    let loaded: Result<Option<AccountInfo>, ()> = Ok(Some(existing_account([1, 2, 3, 4])));
    let first = deploy_multicall3_contract(loaded, &code).expect("load succeeded");
    let reloaded: Result<Option<AccountInfo>, ()> = Ok(Some(first.account.info));
    let second = deploy_multicall3_contract(reloaded, &code).expect("load succeeded");
    let (a, b) = (&first.account.original_info, &second.account.info);
    assert_eq!(second.address, first.address);
    assert_eq!(a.balance, b.balance);
    assert_eq!(a.nonce, b.nonce);
    assert_eq!(a.code_hash, b.code_hash);
    assert_eq!(a.account_id, b.account_id);
    assert_eq!(a.code, b.code);
    assert_eq!(second.account.status, first.account.status);
    assert_eq!(second.account.transaction_id, first.account.transaction_id);
}

#[test]
fn write_depends_on_the_prior_account_only_through_its_balance() {
    let code = sample_code();
    let mut other = existing_account([8, 0, 0, 0]);
    other.nonce = 99;
    other.code = None;
    other.code_hash = B256 { bytes: [0; 32] };
    let a = deploy_multicall3_contract::<()>(Ok(Some(existing_account([8, 0, 0, 0]))), &code)
        .expect("load succeeded");
    let b = deploy_multicall3_contract::<()>(Ok(Some(other)), &code).expect("load succeeded");
    assert_eq!(a.account.info.balance, b.account.info.balance);
    assert_eq!(a.account.info.nonce, b.account.info.nonce);
    assert_eq!(a.account.info.code_hash, b.account.info.code_hash);
    assert_eq!(a.account.info.code, b.account.info.code);
}
