//! The one-time Multicall3 bytecode write.
//!
//! At block 786 000 on chain 124816 (the Mitosis devnet) the well-known
//! Multicall3 address receives the canonical Multicall3 bytecode, so that
//! tooling that relies on that address works without a deployment
//! transaction.  The write is gated by chain id and block number: the hook is
//! called on every block and is a no-op everywhere else.
//!
//! The hook runs in two steps around the database.  First
//! [`multicall3_deployment_target`] decides from the chain id and the block
//! number whether this block is the one; only then is the account at the
//! target address loaded, and [`deploy_multicall3_contract`] turns the result
//! of that load into the account to commit, or into the error to report.

use vstd::prelude::*;

use crate::hash::{keccak256, keccak256_digest};
use crate::primitives::{Address, B256, U256};

verus! {

/// Chain id of the Mitosis devnet, the only chain on which the hook fires.
pub const MULTICALL3_HARDFORK_CHAIN_ID: u64 = 124816;

/// Number of the block at which the Multicall3 bytecode is written.
pub const MULTICALL3_REPLACEMENT_BLOCK: u64 = 786000;

/// The canonical Multicall3 address, `0xca11bde05977b3631167028862be2a173976ca11`.
pub open spec fn multicall3_address_bytes() -> Seq<u8> {
    seq![
        0xcau8, 0x11u8, 0xbdu8, 0xe0u8, 0x59u8, 0x77u8, 0xb3u8, 0x63u8, 0x11u8, 0x67u8,
        0x02u8, 0x88u8, 0x62u8, 0xbeu8, 0x2au8, 0x17u8, 0x39u8, 0x76u8, 0xcau8, 0x11u8,
    ]
}

/// The canonical Multicall3 address.
pub fn multicall3_address() -> (a: Address)
    ensures
        a@ == multicall3_address_bytes(),
{
    Address {
        bytes: [
            0xca, 0x11, 0xbd, 0xe0, 0x59, 0x77, 0xb3, 0x63, 0x11, 0x67, 0x02, 0x88, 0x62, 0xbe,
            0x2a, 0x17, 0x39, 0x76, 0xca, 0x11,
        ],
    }
}

/// A block number as the hook reads it: the 256-bit number converted to a
/// `u64`, saturating at `u64::MAX`.
pub open spec fn saturated_block_number(block_number: nat) -> nat {
    if block_number <= u64::MAX {
        block_number
    } else {
        u64::MAX as nat
    }
}

/// Whether the hook writes the bytecode on a block of the given chain with
/// the given number.
pub open spec fn hook_fires(chain_id: u64, block_number: nat) -> bool {
    &&& chain_id == MULTICALL3_HARDFORK_CHAIN_ID
    &&& saturated_block_number(block_number) == MULTICALL3_REPLACEMENT_BLOCK
}

/// Decides whether the current block is the one that receives the Multicall3
/// bytecode, and if so returns the address whose account must be loaded
/// before the write.
pub fn multicall3_deployment_target(chain_id: u64, block_number: &U256) -> (r: Option<Address>)
    ensures
        r is Some <==> hook_fires(chain_id, block_number@),
        r matches Some(a) ==> a@ == multicall3_address_bytes(),
{
    if chain_id != MULTICALL3_HARDFORK_CHAIN_ID {
        return None;
    }
    if block_number.saturating_to_u64() != MULTICALL3_REPLACEMENT_BLOCK {
        return None;
    }
    Some(multicall3_address())
}

/// The status flags that revm keeps on an account.
#[derive(Clone, Copy, Debug, PartialEq, Eq)]
pub struct AccountStatus {
    pub created: bool,
    pub created_local: bool,
    pub self_destructed: bool,
    pub self_destructed_local: bool,
    pub touched: bool,
    pub loaded_as_not_existing: bool,
    pub cold: bool,
}

impl AccountStatus {
    /// The status `Touched | Created`, with every other flag clear.
    pub open spec fn touched_and_created_spec() -> AccountStatus {
        AccountStatus {
            created: true,
            created_local: false,
            self_destructed: false,
            self_destructed_local: false,
            touched: true,
            loaded_as_not_existing: false,
            cold: false,
        }
    }

    /// The status `Touched | Created`, with every other flag clear.
    pub fn touched_and_created() -> (r: AccountStatus)
        ensures
            r == AccountStatus::touched_and_created_spec(),
    {
        AccountStatus {
            created: true,
            created_local: false,
            self_destructed: false,
            self_destructed_local: false,
            touched: true,
            loaded_as_not_existing: false,
            cold: false,
        }
    }
}

/// Basic information of an account: balance, nonce and code.
///
/// The code is held as its raw bytes; `None` means that it is to be fetched
/// by its hash.
pub struct AccountInfo {
    pub balance: U256,
    pub nonce: u64,
    pub code_hash: B256,
    pub account_id: Option<usize>,
    pub code: Option<Vec<u8>>,
}

/// The mathematical value of an [`AccountInfo`].
pub struct AccountInfoView {
    pub balance: U256,
    pub nonce: u64,
    pub code_hash: Seq<u8>,
    pub account_id: Option<usize>,
    pub code: Option<Seq<u8>>,
}

impl View for AccountInfo {
    type V = AccountInfoView;

    open spec fn view(&self) -> AccountInfoView {
        AccountInfoView {
            balance: self.balance,
            nonce: self.nonce,
            code_hash: self.code_hash@,
            account_id: self.account_id,
            code: match self.code {
                Some(c) => Some(c@),
                None => None,
            },
        }
    }
}

/// An account as it is committed to the state.  The hook writes accounts
/// with no storage slots, so no storage is held here.
pub struct Account {
    pub info: AccountInfo,
    pub original_info: AccountInfo,
    pub transaction_id: usize,
    pub status: AccountStatus,
}

/// The mathematical value of an [`Account`].
pub struct AccountView {
    pub info: AccountInfoView,
    pub original_info: AccountInfoView,
    pub transaction_id: usize,
    pub status: AccountStatus,
}

impl View for Account {
    type V = AccountView;

    open spec fn view(&self) -> AccountView {
        AccountView {
            info: self.info@,
            original_info: self.original_info@,
            transaction_id: self.transaction_id,
            status: self.status,
        }
    }
}

/// The write that the hook commits: one account at one address.
pub struct Multicall3Deployment {
    pub address: Address,
    pub account: Account,
}

/// The mathematical value of a [`Multicall3Deployment`].
pub struct Multicall3DeploymentView {
    pub address: Seq<u8>,
    pub account: AccountView,
}

impl View for Multicall3Deployment {
    type V = Multicall3DeploymentView;

    open spec fn view(&self) -> Multicall3DeploymentView {
        Multicall3DeploymentView { address: self.address@, account: self.account@ }
    }
}

/// Why the hook failed.
#[derive(Clone, Copy, Debug, PartialEq, Eq)]
pub enum Multicall3Error {
    /// The account at the Multicall3 address could not be loaded.
    AccountLoad,
}

impl Multicall3Error {
    /// The message with which the block execution fails.
    pub fn message(&self) -> (r: &'static str)
        ensures
            r@ == "failed to load Multicall3 account into cache"@,
    {
        match self {
            Multicall3Error::AccountLoad => "failed to load Multicall3 account into cache",
        }
    }
}

/// The balance that the deployed account keeps: that of the account found
/// at the address, or zero where there was none.
pub open spec fn kept_balance(existing: Option<AccountInfo>) -> U256 {
    match existing {
        Some(a) => a.balance,
        None => U256::zero_spec(),
    }
}

/// The account information written: the given balance, nonce 1 (a deployed
/// contract), the bytecode and its Keccak-256 hash.
pub open spec fn multicall3_info_spec(balance: U256, code: Seq<u8>) -> AccountInfoView {
    AccountInfoView {
        balance,
        nonce: 1,
        code_hash: keccak256_digest(code),
        account_id: None,
        code: Some(code),
    }
}

/// The account written: the same information as current and as original
/// information, transaction id 0, status `Touched | Created`.
pub open spec fn multicall3_account_spec(balance: U256, code: Seq<u8>) -> AccountView {
    AccountView {
        info: multicall3_info_spec(balance, code),
        original_info: multicall3_info_spec(balance, code),
        transaction_id: 0,
        status: AccountStatus::touched_and_created_spec(),
    }
}

/// The whole write: the Multicall3 address and its new account.
pub open spec fn multicall3_deployment_spec(balance: U256, code: Seq<u8>) -> Multicall3DeploymentView {
    Multicall3DeploymentView {
        address: multicall3_address_bytes(),
        account: multicall3_account_spec(balance, code),
    }
}


/// The status has exactly the flags `Touched` and `Created` set.
pub open spec fn status_is_touched_and_created(s: AccountStatus) -> bool {
    &&& s.touched
    &&& s.created
    &&& !s.created_local
    &&& !s.self_destructed
    &&& !s.self_destructed_local
    &&& !s.loaded_as_not_existing
    &&& !s.cold
}

/// What the written account information holds, field by field, in terms of
/// the load result and the bytecode: the loaded balance (zero when nothing
/// was found), nonce 1, no account id, all of the bytecode as code and its
/// Keccak-256 digest as code hash.
pub open spec fn written_info_is<E>(
    info: AccountInfo,
    loaded: Result<Option<AccountInfo>, E>,
    code: Seq<u8>,
) -> bool {
    &&& match loaded {
        Ok(Some(a)) => info.balance == a.balance,
        _ => info.balance@ == 0,
    }
    &&& info.nonce == 1
    &&& info.account_id is None
    &&& info.code matches Some(c) && c@ == code
    &&& info.code_hash@ == keccak256_digest(code)
}

fn multicall3_info(balance: U256, bytecode: &[u8], code_hash: B256) -> (r: AccountInfo)
    requires
        code_hash@ == keccak256_digest(bytecode@),
    ensures
        r@ == multicall3_info_spec(balance, bytecode@),
{
    let code = vstd::slice::slice_to_vec(bytecode);
    AccountInfo { balance, nonce: 1, code_hash, account_id: None, code: Some(code) }
}

/// Turns the result of loading the account at the Multicall3 address into
/// the write to commit.
///
/// A failed load is reported as [`Multicall3Error::AccountLoad`] and nothing
/// is written.  Otherwise the account keeps the balance it had (zero where it
/// did not exist) and receives the bytecode, its hash and nonce 1.
pub fn deploy_multicall3_contract<E>(
    loaded: Result<Option<AccountInfo>, E>,
    bytecode: &[u8],
) -> (r: Result<Multicall3Deployment, Multicall3Error>)
    ensures
        match loaded {
            Err(_) => r matches Err(e) && e == Multicall3Error::AccountLoad,
            Ok(existing) => r matches Ok(d) && d@ == multicall3_deployment_spec(
                kept_balance(existing),
                bytecode@,
            ),
        },
        r matches Ok(d) ==> {
            &&& loaded is Ok
            &&& d.address@ == multicall3_address_bytes()
            &&& written_info_is(d.account.info, loaded, bytecode@)
            &&& written_info_is(d.account.original_info, loaded, bytecode@)
            &&& d.account.transaction_id == 0
            &&& status_is_touched_and_created(d.account.status)
        },
{
    let existing = match loaded {
        Ok(existing) => existing,
        Err(_) => return Err(Multicall3Error::AccountLoad),
    };
    let code_hash = keccak256(bytecode);
    let balance = match existing {
        Some(a) => a.balance,
        None => U256::zero(),
    };
    let info = multicall3_info(balance, bytecode, code_hash);
    let original_info = multicall3_info(balance, bytecode, code_hash);
    let account = Account {
        info,
        original_info,
        transaction_id: 0,
        status: AccountStatus::touched_and_created(),
    };
    Ok(Multicall3Deployment { address: multicall3_address(), account })
}

/// The hook is a no-op everywhere but at one block of one chain: it fires
/// exactly on chain 124816 at block 786 000.  In particular a block number too
/// large for a `u64`, which the hook reads as `u64::MAX`, never makes it fire.
pub proof fn lemma_hook_fires_only_at_target(chain_id: u64, block_number: nat)
    ensures
        hook_fires(chain_id, block_number) <==> (chain_id == MULTICALL3_HARDFORK_CHAIN_ID
            && block_number == MULTICALL3_REPLACEMENT_BLOCK),
{
}

/// The account written holds the bytecode, and its code hash is the
/// Keccak-256 digest of that bytecode; its original information is the same
/// as its current information.
pub proof fn lemma_written_code_hash_matches_code(balance: U256, code: Seq<u8>)
    ensures
        ({
            let account = multicall3_account_spec(balance, code);
            &&& account.info.code == Some(code)
            &&& account.info.code_hash == keccak256_digest(code)
            &&& account.original_info == account.info
        }),
{
}

/// The write depends on the account found at the address only through its
/// balance: its nonce, code and code hash are overwritten.
pub proof fn lemma_write_depends_only_on_balance(
    first: AccountInfo,
    second: AccountInfo,
    code: Seq<u8>,
)
    requires
        first.balance == second.balance,
    ensures
        multicall3_deployment_spec(kept_balance(Some(first)), code)
            == multicall3_deployment_spec(kept_balance(Some(second)), code),
{
}

/// Running the hook again on the state that it produced writes the same
/// account once more: loading the written account and deploying again gives
/// an identical write.
pub proof fn lemma_redeploy_is_stable(balance: U256, code: Seq<u8>, reloaded: AccountInfo)
    requires
        reloaded@ == multicall3_info_spec(balance, code),
    ensures
        multicall3_deployment_spec(kept_balance(Some(reloaded)), code)
            == multicall3_deployment_spec(balance, code),
{
}

/// The write goes to the account that was loaded: the address that the guard
/// names when the hook fires is the address of the committed account.
pub proof fn lemma_write_targets_loaded_address(
    chain_id: u64,
    block_number: nat,
    balance: U256,
    code: Seq<u8>,
)
    requires
        hook_fires(chain_id, block_number),
    ensures
        multicall3_deployment_spec(balance, code).address == multicall3_address_bytes(),
{
}

/// The write never changes the account's balance: whatever the balance `b`
/// that was loaded, the written account, current and original information
/// alike, holds exactly `b`.
pub proof fn lemma_write_keeps_balance(b: U256, code: Seq<u8>)
    ensures
        multicall3_deployment_spec(b, code).account.info.balance == b,
        multicall3_deployment_spec(b, code).account.original_info.balance == b,
        multicall3_deployment_spec(b, code).account.info.balance@ == b@,
{
}

/// The written account is a deployed contract: its nonce is 1 whatever the
/// balance and whatever the bytecode, however long.
pub proof fn lemma_write_sets_nonce_one(b: U256, code: Seq<u8>)
    ensures
        multicall3_deployment_spec(b, code).account.info.nonce == 1,
        multicall3_deployment_spec(b, code).account.original_info.nonce == 1,
{
}

/// The written account is always marked touched and created, and carries no
/// other flag, whatever the balance and the bytecode, so that the commit
/// does not skip it.
pub proof fn lemma_write_is_touched_and_created(b: U256, code: Seq<u8>)
    ensures
        status_is_touched_and_created(multicall3_deployment_spec(b, code).account.status),
        multicall3_deployment_spec(b, code).account.status.touched,
        multicall3_deployment_spec(b, code).account.status.created,
{
}

/// Two writes of the same bytecode differ only in balance: nonce, code,
/// code hash, account id, transaction id and status agree for any two
/// balances.
pub proof fn lemma_writes_differ_only_in_balance(b1: U256, b2: U256, code: Seq<u8>)
    ensures
        ({
            let w1 = multicall3_deployment_spec(b1, code).account;
            let w2 = multicall3_deployment_spec(b2, code).account;
            &&& w1.info.nonce == w2.info.nonce
            &&& w1.info.code == w2.info.code
            &&& w1.info.code_hash == w2.info.code_hash
            &&& w1.info.account_id == w2.info.account_id
            &&& w1.transaction_id == w2.transaction_id
            &&& w1.status == w2.status
        }),
{
}

} // verus!
