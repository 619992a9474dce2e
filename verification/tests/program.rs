//! End-to-end scenarios of the pool program.
//!
//! The program's phase functions run inside a small in-memory ledger that
//! stands for the runtime: it hands the program its accounts, performs the
//! cross-program invocations that a phase asks for (system program, SPL token
//! program, associated token account program) and applies the final writes,
//! all or nothing per transaction.

use std::collections::{HashMap, HashSet};

use solana_address::Address;
use solana_program::instruction::InstructionError;
use solana_program::program_option::COption;
use solana_program::rent::Rent;
use solana_program_pack::Pack;
use spl_token_interface::instruction::TokenInstruction;
use spl_token_interface::state::{Account as TokenAccount, AccountState, Mint};

use solana_cpmm_program::constants::{
    program_admin_authority, LP_DECIMALS, MINIMUM_LIQUIDITY, SWAP_FEE_BPS,
};
use solana_cpmm_program::error::AmmError;
use solana_cpmm_program::instructions::init_factory::InitFactoryStage;
use solana_cpmm_program::instructions::lib::{
    derive_factory_pda, derive_lp_mint_pda, derive_pair_pda, get_ata as derive_ata, AccountView,
    Cpi, Env, RentQuote, Step,
};
use solana_cpmm_program::key::Key;
use solana_cpmm_program::math::sqrt_u128;
use solana_cpmm_program::process_instruction;
use solana_cpmm_program::processor::Stage;
use solana_cpmm_program::state::{FactoryState, PairState};
use solana_cpmm_program::Cmd;

type Pubkey = Address;

const INITIAL_USER_FUNDS: u64 = 1_000_000_000;
const INITIAL_LIQUIDITY: u64 = 10_000_000;
const TOKEN_ACCOUNT_LEN: usize = 165;

// ---------------------------------------------------------------------------
// Addresses
// ---------------------------------------------------------------------------

fn key(address: &Pubkey) -> Key {
    Key { bytes: address.to_bytes() }
}

fn address(k: &Key) -> Pubkey {
    Address::new_from_array(k.bytes)
}

fn system_program_id() -> Pubkey {
    Address::new_from_array(solana_sdk_ids::system_program::id().to_bytes())
}

fn token_program_id() -> Pubkey {
    Address::new_from_array(spl_token_interface::id().to_bytes())
}

fn ata_program_id() -> Pubkey {
    Address::new_from_array(spl_associated_token_account_interface::program::id().to_bytes())
}

fn rent_sysvar_id() -> Pubkey {
    Address::new_from_array(solana_program::sysvar::rent::id().to_bytes())
}

fn clock_sysvar_id() -> Pubkey {
    Address::new_from_array(solana_program::sysvar::clock::id().to_bytes())
}

fn admin_pubkey() -> Pubkey {
    address(&program_admin_authority())
}

fn get_ata(owner: &Pubkey, mint: &Pubkey) -> Pubkey {
    address(&derive_ata(&key(owner), &key(mint)).unwrap())
}

fn new_unique() -> Pubkey {
    Address::new_unique()
}

// ---------------------------------------------------------------------------
// Ledger
// ---------------------------------------------------------------------------

#[derive(Clone, Debug, Default, PartialEq)]
struct Account {
    lamports: u64,
    data: Vec<u8>,
    owner: Pubkey,
}

#[derive(Clone, Debug)]
struct AccountMeta {
    pubkey: Pubkey,
    is_signer: bool,
    is_writable: bool,
}

impl AccountMeta {
    fn new(pubkey: Pubkey, is_signer: bool) -> AccountMeta {
        AccountMeta { pubkey, is_signer, is_writable: true }
    }

    fn new_readonly(pubkey: Pubkey, is_signer: bool) -> AccountMeta {
        AccountMeta { pubkey, is_signer, is_writable: false }
    }
}

#[derive(Clone, Debug)]
struct Instruction {
    program_id: Pubkey,
    accounts: Vec<AccountMeta>,
    data: Vec<u8>,
}

impl Instruction {
    fn new_with_cmd(program_id: Pubkey, cmd: &Cmd, accounts: Vec<AccountMeta>) -> Instruction {
        Instruction { program_id, accounts, data: cmd.to_bytes() }
    }
}

#[derive(Debug, PartialEq)]
enum TransactionError {
    InstructionError(u8, InstructionError),
}

#[derive(Debug)]
struct FailedTransaction {
    err: TransactionError,
}

type TransactionResult = Result<(), FailedTransaction>;

type Ledger = HashMap<Pubkey, Account>;

struct Svm {
    accounts: Ledger,
    unix_timestamp: i64,
    program_id: Pubkey,
}

fn rent_exempt(len: usize) -> u64 {
    Rent::default().minimum_balance(len)
}

fn amm_error(e: AmmError) -> InstructionError {
    match e {
        AmmError::InvalidArgument => InstructionError::InvalidArgument,
        AmmError::InvalidInstructionData => InstructionError::InvalidInstructionData,
        AmmError::InvalidAccountData => InstructionError::InvalidAccountData,
        AmmError::AccountAlreadyInitialized => InstructionError::AccountAlreadyInitialized,
        AmmError::UninitializedAccount => InstructionError::UninitializedAccount,
        AmmError::NotEnoughAccountKeys => InstructionError::NotEnoughAccountKeys,
        AmmError::MissingRequiredSignature => InstructionError::MissingRequiredSignature,
        AmmError::IllegalOwner => InstructionError::IllegalOwner,
        AmmError::IncorrectProgramId => InstructionError::IncorrectProgramId,
        AmmError::InvalidSeeds => InstructionError::InvalidSeeds,
        AmmError::ArithmeticOverflow => InstructionError::ArithmeticOverflow,
        AmmError::UnsupportedSysvar => InstructionError::UnsupportedSysvar,
        AmmError::BorshIoError => InstructionError::BorshIoError,
    }
}

fn load(ledger: &Ledger, k: &Pubkey) -> Account {
    match ledger.get(k) {
        Some(a) => a.clone(),
        None => Account { lamports: 0, data: Vec::new(), owner: system_program_id() },
    }
}

fn store(ledger: &mut Ledger, k: &Pubkey, a: Account) {
    ledger.insert(*k, a);
}

fn load_token_account(ledger: &Ledger, k: &Pubkey) -> Result<TokenAccount, InstructionError> {
    let a = load(ledger, k);
    if a.owner != token_program_id() {
        return Err(InstructionError::IncorrectProgramId);
    }
    TokenAccount::unpack(&a.data).map_err(|_| InstructionError::UninitializedAccount)
}

fn store_token_account(ledger: &mut Ledger, k: &Pubkey, state: TokenAccount) {
    let mut a = load(ledger, k);
    TokenAccount::pack(state, &mut a.data).unwrap();
    store(ledger, k, a);
}

fn load_mint(ledger: &Ledger, k: &Pubkey) -> Result<Mint, InstructionError> {
    let a = load(ledger, k);
    if a.owner != token_program_id() {
        return Err(InstructionError::IncorrectProgramId);
    }
    Mint::unpack(&a.data).map_err(|_| InstructionError::UninitializedAccount)
}

fn store_mint(ledger: &mut Ledger, k: &Pubkey, state: Mint) {
    let mut a = load(ledger, k);
    Mint::pack(state, &mut a.data).unwrap();
    store(ledger, k, a);
}

fn new_token_account(mint: &Pubkey, owner: &Pubkey, amount: u64) -> TokenAccount {
    TokenAccount {
        mint: *mint,
        owner: *owner,
        amount,
        delegate: COption::None,
        state: AccountState::Initialized,
        is_native: COption::None,
        delegated_amount: 0,
        close_authority: COption::None,
    }
}

fn move_lamports(
    ledger: &mut Ledger,
    from: &Pubkey,
    to: &Pubkey,
    lamports: u64,
) -> Result<(), InstructionError> {
    let mut source = load(ledger, from);
    if source.lamports < lamports {
        return Err(InstructionError::Custom(1));
    }
    source.lamports -= lamports;
    store(ledger, from, source);
    let mut target = load(ledger, to);
    target.lamports += lamports;
    store(ledger, to, target);
    Ok(())
}

/// The token program's `Transfer`.
fn token_transfer(
    ledger: &mut Ledger,
    source: &Pubkey,
    destination: &Pubkey,
    authority: &Pubkey,
    authority_signed: bool,
    amount: u64,
) -> Result<(), InstructionError> {
    let mut s = load_token_account(ledger, source)?;
    let mut d = load_token_account(ledger, destination)?;
    if s.amount < amount {
        return Err(InstructionError::Custom(1));
    }
    if s.mint != d.mint {
        return Err(InstructionError::Custom(3));
    }
    if s.owner != *authority {
        return Err(InstructionError::Custom(4));
    }
    if !authority_signed {
        return Err(InstructionError::MissingRequiredSignature);
    }
    if source == destination {
        return Ok(());
    }
    s.amount -= amount;
    d.amount = d.amount.checked_add(amount).ok_or(InstructionError::Custom(14))?;
    store_token_account(ledger, source, s);
    store_token_account(ledger, destination, d);
    Ok(())
}

/// The token program's `MintTo`.
fn token_mint_to(
    ledger: &mut Ledger,
    mint: &Pubkey,
    destination: &Pubkey,
    authority: &Pubkey,
    authority_signed: bool,
    amount: u64,
) -> Result<(), InstructionError> {
    let mut d = load_token_account(ledger, destination)?;
    if d.mint != *mint {
        return Err(InstructionError::Custom(3));
    }
    let mut m = load_mint(ledger, mint)?;
    match m.mint_authority {
        COption::Some(a) => {
            if a != *authority {
                return Err(InstructionError::Custom(4));
            }
        }
        COption::None => return Err(InstructionError::Custom(5)),
    }
    if !authority_signed {
        return Err(InstructionError::MissingRequiredSignature);
    }
    d.amount = d.amount.checked_add(amount).ok_or(InstructionError::Custom(14))?;
    m.supply = m.supply.checked_add(amount).ok_or(InstructionError::Custom(14))?;
    store_token_account(ledger, destination, d);
    store_mint(ledger, mint, m);
    Ok(())
}

/// The token program's `Burn`.
fn token_burn(
    ledger: &mut Ledger,
    source: &Pubkey,
    mint: &Pubkey,
    authority: &Pubkey,
    authority_signed: bool,
    amount: u64,
) -> Result<(), InstructionError> {
    let mut s = load_token_account(ledger, source)?;
    let mut m = load_mint(ledger, mint)?;
    if s.amount < amount {
        return Err(InstructionError::Custom(1));
    }
    if s.mint != *mint {
        return Err(InstructionError::Custom(3));
    }
    if s.owner != *authority {
        return Err(InstructionError::Custom(4));
    }
    if !authority_signed {
        return Err(InstructionError::MissingRequiredSignature);
    }
    s.amount -= amount;
    m.supply -= amount;
    store_token_account(ledger, source, s);
    store_mint(ledger, mint, m);
    Ok(())
}

/// The token program's `InitializeMint`, without a freeze authority.
fn token_initialize_mint(
    ledger: &mut Ledger,
    mint: &Pubkey,
    mint_authority: &Pubkey,
    decimals: u8,
) -> Result<(), InstructionError> {
    let a = load(ledger, mint);
    if a.owner != token_program_id() {
        return Err(InstructionError::IncorrectProgramId);
    }
    if a.data.len() != Mint::LEN {
        return Err(InstructionError::InvalidAccountData);
    }
    let current = Mint::unpack_unchecked(&a.data).map_err(|_| InstructionError::InvalidAccountData)?;
    if current.is_initialized {
        return Err(InstructionError::Custom(6));
    }
    if a.lamports < rent_exempt(Mint::LEN) {
        return Err(InstructionError::Custom(0));
    }
    let state = Mint {
        mint_authority: COption::Some(*mint_authority),
        supply: 0,
        decimals,
        is_initialized: true,
        freeze_authority: COption::None,
    };
    store_mint(ledger, mint, state);
    Ok(())
}

/// The associated token account program's idempotent create.
fn ata_create_idempotent(
    ledger: &mut Ledger,
    payer: &Pubkey,
    payer_signed: bool,
    ata: &Pubkey,
    owner: &Pubkey,
    mint: &Pubkey,
) -> Result<(), InstructionError> {
    let (expected, _) = Address::find_program_address(
        &[owner.as_ref(), token_program_id().as_ref(), mint.as_ref()],
        &ata_program_id(),
    );
    if expected != *ata {
        return Err(InstructionError::InvalidSeeds);
    }
    let existing = load(ledger, ata);
    if existing.owner == token_program_id() {
        if let Ok(state) = TokenAccount::unpack(&existing.data) {
            if state.owner != *owner {
                return Err(InstructionError::Custom(0));
            }
            if state.mint != *mint {
                return Err(InstructionError::InvalidAccountData);
            }
            return Ok(());
        }
    }
    if existing.owner != system_program_id() || !existing.data.is_empty() {
        return Err(InstructionError::Custom(0));
    }
    load_mint(ledger, mint).map_err(|_| InstructionError::Custom(2))?;
    if !payer_signed {
        return Err(InstructionError::MissingRequiredSignature);
    }
    let required = rent_exempt(TOKEN_ACCOUNT_LEN).max(1).saturating_sub(existing.lamports);
    move_lamports(ledger, payer, ata, required)?;
    let mut created = load(ledger, ata);
    created.owner = token_program_id();
    created.data = vec![0u8; TOKEN_ACCOUNT_LEN];
    store(ledger, ata, created);
    store_token_account(ledger, ata, new_token_account(mint, owner, 0));
    Ok(())
}

impl Svm {
    fn new(program_id: Pubkey) -> Svm {
        Svm { accounts: HashMap::new(), unix_timestamp: 0, program_id }
    }

    fn get_account(&self, k: &Pubkey) -> Option<Account> {
        self.accounts.get(k).cloned()
    }

    fn set_account(&mut self, k: Pubkey, a: Account) {
        self.accounts.insert(k, a);
    }

    fn airdrop(&mut self, k: &Pubkey, lamports: u64) {
        let mut a = load(&self.accounts, k);
        a.lamports += lamports;
        store(&mut self.accounts, k, a);
    }

    fn set_unix_timestamp(&mut self, t: i64) {
        self.unix_timestamp = t;
    }

    fn env(&self) -> Env {
        Env {
            program_id: key(&self.program_id),
            rent: Some(RentQuote {
                factory: rent_exempt(FactoryState::LEN),
                pair: rent_exempt(PairState::LEN),
                mint: rent_exempt(Mint::LEN),
            }),
        }
    }

    /// Runs a transaction: every instruction in turn, all or nothing.
    fn send(&mut self, fee_payer: Pubkey, instructions: &[Instruction]) -> TransactionResult {
        let mut signers: HashSet<Pubkey> = HashSet::new();
        signers.insert(fee_payer);
        for ix in instructions.iter() {
            for meta in ix.accounts.iter() {
                if meta.is_signer {
                    signers.insert(meta.pubkey);
                }
            }
        }
        let mut ledger = self.accounts.clone();
        for (index, ix) in instructions.iter().enumerate() {
            if let Err(e) = self.execute(&mut ledger, ix, &signers) {
                return Err(FailedTransaction {
                    err: TransactionError::InstructionError(index as u8, e),
                });
            }
        }
        self.accounts = ledger;
        Ok(())
    }

    fn execute(
        &self,
        ledger: &mut Ledger,
        ix: &Instruction,
        signers: &HashSet<Pubkey>,
    ) -> Result<(), InstructionError> {
        if ix.program_id == self.program_id {
            return self.run_program(ledger, ix, signers);
        }
        if ix.program_id == token_program_id() {
            let keys: Vec<Pubkey> = ix.accounts.iter().map(|m| m.pubkey).collect();
            return match TokenInstruction::unpack(&ix.data) {
                Ok(TokenInstruction::Transfer { amount }) => token_transfer(
                    ledger,
                    &keys[0],
                    &keys[1],
                    &keys[2],
                    signers.contains(&keys[2]),
                    amount,
                ),
                _ => Err(InstructionError::InvalidInstructionData),
            };
        }
        Err(InstructionError::IncorrectProgramId)
    }

    fn view(&self, ledger: &Ledger, meta: &AccountMeta, signers: &HashSet<Pubkey>) -> AccountView {
        let a = load(ledger, &meta.pubkey);
        AccountView {
            key: key(&meta.pubkey),
            owner: key(&a.owner),
            is_signer: signers.contains(&meta.pubkey),
            lamports: a.lamports,
            data: a.data,
            clock_timestamp: if meta.pubkey == clock_sysvar_id() {
                Some(self.unix_timestamp)
            } else {
                None
            },
        }
    }

    /// Steps the program until it finishes, performing the invocations each
    /// step asks for.
    fn run_program(
        &self,
        ledger: &mut Ledger,
        ix: &Instruction,
        signers: &HashSet<Pubkey>,
    ) -> Result<(), InstructionError> {
        let env = self.env();
        let mut stage = Stage::Begin;
        let mut steps = 0;
        loop {
            steps += 1;
            assert!(steps <= 5, "an instruction took more than five steps");
            let views: Vec<AccountView> =
                ix.accounts.iter().map(|m| self.view(ledger, m, signers)).collect();
            match process_instruction(&env, &views, &ix.data, stage) {
                Err(e) => return Err(amm_error(e)),
                Ok(Step::Finish { writes }) => {
                    for w in writes.iter() {
                        let k = ix.accounts[w.account].pubkey;
                        let mut a = load(ledger, &k);
                        assert_eq!(a.owner, self.program_id);
                        assert_eq!(a.data.len(), w.data.len());
                        a.data = w.data.clone();
                        store(ledger, &k, a);
                    }
                    return Ok(());
                }
                Ok(Step::Invoke { cpis, next }) => {
                    for c in cpis.iter() {
                        self.invoke(ledger, &ix.accounts, c, signers)?;
                    }
                    stage = next;
                }
            }
        }
    }

    /// Whether `k` signs an invocation: it signed the transaction, or it is the
    /// program address of `seeds` under this program.
    fn signs(&self, k: &Pubkey, seeds: &Vec<Vec<u8>>, signers: &HashSet<Pubkey>) -> bool {
        if signers.contains(k) {
            return true;
        }
        if seeds.is_empty() {
            return false;
        }
        let slices: Vec<&[u8]> = seeds.iter().map(|s| s.as_slice()).collect();
        match Address::create_program_address(&slices, &self.program_id) {
            Ok(derived) => derived == *k,
            Err(_) => false,
        }
    }

    fn invoke(
        &self,
        ledger: &mut Ledger,
        metas: &[AccountMeta],
        cpi: &Cpi,
        signers: &HashSet<Pubkey>,
    ) -> Result<(), InstructionError> {
        let at = |i: &usize| metas[*i].pubkey;
        let no_seeds: Vec<Vec<u8>> = Vec::new();
        match cpi {
            Cpi::CreateAta { payer, ata, owner, mint, system_program, token_program, ata_program, rent_sysvar } => {
                assert_eq!(at(system_program), system_program_id());
                assert_eq!(at(token_program), token_program_id());
                assert_eq!(at(ata_program), ata_program_id());
                assert_eq!(at(rent_sysvar), rent_sysvar_id());
                ata_create_idempotent(
                    ledger,
                    &at(payer),
                    self.signs(&at(payer), &no_seeds, signers),
                    &at(ata),
                    &at(owner),
                    &at(mint),
                )
            }
            Cpi::Transfer { token_program, source, destination, authority, amount, signer_seeds } => {
                assert_eq!(at(token_program), token_program_id());
                token_transfer(
                    ledger,
                    &at(source),
                    &at(destination),
                    &at(authority),
                    self.signs(&at(authority), signer_seeds, signers),
                    *amount,
                )
            }
            Cpi::MintTo { token_program, mint, destination, authority, amount, signer_seeds } => {
                assert_eq!(at(token_program), token_program_id());
                token_mint_to(
                    ledger,
                    &at(mint),
                    &at(destination),
                    &at(authority),
                    self.signs(&at(authority), signer_seeds, signers),
                    *amount,
                )
            }
            Cpi::Burn { token_program, source, mint, authority, amount } => {
                assert_eq!(at(token_program), token_program_id());
                token_burn(
                    ledger,
                    &at(source),
                    &at(mint),
                    &at(authority),
                    self.signs(&at(authority), &no_seeds, signers),
                    *amount,
                )
            }
            Cpi::InitializeMint { token_program, mint, mint_authority, rent_sysvar, decimals } => {
                assert_eq!(at(token_program), token_program_id());
                assert_eq!(at(rent_sysvar), rent_sysvar_id());
                token_initialize_mint(ledger, &at(mint), &at(mint_authority), *decimals)
            }
            Cpi::CreateAccount { payer, new_account, system_program, lamports, space, owner_program, signer_seeds } => {
                assert_eq!(at(system_program), system_program_id());
                let target = load(ledger, &at(new_account));
                if target.lamports > 0 || !target.data.is_empty() || target.owner != system_program_id() {
                    return Err(InstructionError::Custom(0));
                }
                if !self.signs(&at(payer), &no_seeds, signers)
                    || !self.signs(&at(new_account), signer_seeds, signers)
                {
                    return Err(InstructionError::MissingRequiredSignature);
                }
                move_lamports(ledger, &at(payer), &at(new_account), *lamports)?;
                let mut created = load(ledger, &at(new_account));
                created.data = vec![0u8; *space as usize];
                created.owner = address(owner_program);
                store(ledger, &at(new_account), created);
                Ok(())
            }
            Cpi::SystemTransfer { payer, recipient, system_program, lamports } => {
                assert_eq!(at(system_program), system_program_id());
                if !self.signs(&at(payer), &no_seeds, signers) {
                    return Err(InstructionError::MissingRequiredSignature);
                }
                move_lamports(ledger, &at(payer), &at(recipient), *lamports)
            }
            Cpi::Allocate { account, system_program, space, signer_seeds } => {
                assert_eq!(at(system_program), system_program_id());
                if !self.signs(&at(account), signer_seeds, signers) {
                    return Err(InstructionError::MissingRequiredSignature);
                }
                let mut a = load(ledger, &at(account));
                if !a.data.is_empty() || a.owner != system_program_id() {
                    return Err(InstructionError::Custom(0));
                }
                a.data = vec![0u8; *space as usize];
                store(ledger, &at(account), a);
                Ok(())
            }
            Cpi::Assign { account, system_program, owner_program, signer_seeds } => {
                assert_eq!(at(system_program), system_program_id());
                if !self.signs(&at(account), signer_seeds, signers) {
                    return Err(InstructionError::MissingRequiredSignature);
                }
                let mut a = load(ledger, &at(account));
                a.owner = address(owner_program);
                store(ledger, &at(account), a);
                Ok(())
            }
        }
    }
}

// ---------------------------------------------------------------------------
// Fixture
// ---------------------------------------------------------------------------

#[derive(Debug)]
struct TestContext {
    program_id: Pubkey,
    admin: Pubkey,
    users: Vec<Pubkey>,
    mint_a: Pubkey,
    mint_b: Pubkey,
    mint0: Pubkey,
    mint1: Pubkey,
    user_token0: Vec<Pubkey>,
    user_token1: Vec<Pubkey>,
    factory: Pubkey,
    pair: Pubkey,
    lp_mint: Pubkey,
    vault0: Pubkey,
    vault1: Pubkey,
    locked_lp: Pubkey,
    admin_lp: Pubkey,
}

/// A mint owned by the token program with `authority` as mint authority.
fn create_mint(svm: &mut Svm, authority: &Pubkey, decimals: u8) -> Pubkey {
    let mint = new_unique();
    svm.set_account(
        mint,
        Account {
            lamports: rent_exempt(Mint::LEN),
            data: vec![0u8; Mint::LEN],
            owner: token_program_id(),
        },
    );
    let state = Mint {
        mint_authority: COption::Some(*authority),
        supply: 0,
        decimals,
        is_initialized: true,
        freeze_authority: COption::None,
    };
    store_mint(&mut svm.accounts, &mint, state);
    mint
}

/// Creates the ATA of `(owner, mint)` through the associated token program.
fn create_ata(svm: &mut Svm, payer: &Pubkey, owner: &Pubkey, mint: &Pubkey) -> Pubkey {
    let ata = get_ata(owner, mint);
    ata_create_idempotent(&mut svm.accounts, payer, true, &ata, owner, mint).unwrap();
    ata
}

/// Mints `amount` of `mint` into `dst`, signed by the mint authority `payer`.
fn mint_to(svm: &mut Svm, payer: &Pubkey, mint: &Pubkey, dst: &Pubkey, amount: u64) {
    token_mint_to(&mut svm.accounts, mint, dst, payer, true, amount).unwrap();
}

/// A raw token transfer instruction, as the token interface builds it.
fn token_transfer_ix(src: &Pubkey, dst: &Pubkey, authority: &Pubkey, amount: u64) -> Instruction {
    let ix = spl_token_interface::instruction::transfer(
        &spl_token_interface::id(),
        &Address::new_from_array(src.to_bytes()),
        &Address::new_from_array(dst.to_bytes()),
        &Address::new_from_array(authority.to_bytes()),
        &[],
        amount,
    )
    .unwrap();
    Instruction {
        program_id: Address::new_from_array(ix.program_id.to_bytes()),
        accounts: ix
            .accounts
            .iter()
            .map(|acc| AccountMeta {
                pubkey: Address::new_from_array(acc.pubkey.to_bytes()),
                is_signer: acc.is_signer,
                is_writable: acc.is_writable,
            })
            .collect(),
        data: ix.data,
    }
}

/// Sends a plain token transfer in a transaction of its own.
fn transfer_tokens(
    svm: &mut Svm,
    payer: &Pubkey,
    src: &Pubkey,
    dst: &Pubkey,
    authority: &Pubkey,
    amount: u64,
) {
    svm.send(*payer, &[token_transfer_ix(src, dst, authority, amount)]).unwrap();
}

fn get_token_balance(svm: &Svm, account: &Pubkey) -> u64 {
    TokenAccount::unpack(&svm.get_account(account).unwrap().data).unwrap().amount
}

fn get_mint_supply(svm: &Svm, mint: &Pubkey) -> u64 {
    Mint::unpack(&svm.get_account(mint).unwrap().data).unwrap().supply
}

fn get_factory_state(svm: &Svm, factory: &Pubkey) -> FactoryState {
    FactoryState::try_from_slice(&svm.get_account(factory).unwrap().data).unwrap()
}

fn get_pair_state(svm: &Svm, pair: &Pubkey) -> PairState {
    PairState::try_from_slice(&svm.get_account(pair).unwrap().data).unwrap()
}

fn canonical_mints(mint_a: Pubkey, mint_b: Pubkey) -> (Pubkey, Pubkey) {
    if mint_a.to_bytes() < mint_b.to_bytes() {
        (mint_a, mint_b)
    } else {
        (mint_b, mint_a)
    }
}

fn setup() -> (Svm, TestContext) {
    let program_id = new_unique();
    let mut svm = Svm::new(program_id);
    let payer = new_unique();
    let users = vec![new_unique(), new_unique()];
    let admin = admin_pubkey();

    svm.airdrop(&payer, 50_000_000_000);
    svm.airdrop(&admin, 50_000_000_000);
    for user in users.iter() {
        svm.airdrop(user, 10_000_000_000);
    }

    let mint_a = create_mint(&mut svm, &payer, 6);
    let mint_b = create_mint(&mut svm, &payer, 6);
    let (mint0, mint1) = canonical_mints(mint_a, mint_b);

    let mut user_token0 = Vec::new();
    let mut user_token1 = Vec::new();
    for user in users.iter() {
        let ata0 = create_ata(&mut svm, &payer, user, &mint0);
        let ata1 = create_ata(&mut svm, &payer, user, &mint1);
        mint_to(&mut svm, &payer, &mint0, &ata0, INITIAL_USER_FUNDS);
        mint_to(&mut svm, &payer, &mint1, &ata1, INITIAL_USER_FUNDS);
        user_token0.push(ata0);
        user_token1.push(ata1);
    }

    let (factory, _) = derive_factory_pda(&key(&program_id)).unwrap();
    let (pair, _) =
        derive_pair_pda(&key(&program_id), &factory, &key(&mint0), &key(&mint1)).unwrap();
    let (lp_mint, _) = derive_lp_mint_pda(&key(&program_id), &pair).unwrap();
    let factory = address(&factory);
    let pair = address(&pair);
    let lp_mint = address(&lp_mint);
    let vault0 = get_ata(&pair, &mint0);
    let vault1 = get_ata(&pair, &mint1);
    let locked_lp = get_ata(&pair, &lp_mint);
    let admin_lp = get_ata(&admin, &lp_mint);

    (
        svm,
        TestContext {
            program_id,
            admin,
            users,
            mint_a,
            mint_b,
            mint0,
            mint1,
            user_token0,
            user_token1,
            factory,
            pair,
            lp_mint,
            vault0,
            vault1,
            locked_lp,
            admin_lp,
        },
    )
}

fn bootstrap_pair(svm: &mut Svm, ctx: &TestContext) {
    send_admin_transaction(svm, ctx.admin, &[create_init_factory_ix(ctx)]).unwrap();
    send_admin_transaction(svm, ctx.admin, &[create_create_pair_ix(ctx)]).unwrap();
}

fn bootstrap_factory(svm: &mut Svm, ctx: &TestContext) {
    send_admin_transaction(svm, ctx.admin, &[create_init_factory_ix(ctx)]).unwrap();
}

fn create_init_factory_ix(ctx: &TestContext) -> Instruction {
    Instruction::new_with_cmd(
        ctx.program_id,
        &Cmd::InitFactory,
        vec![
            AccountMeta::new(ctx.admin, true),
            AccountMeta::new(ctx.factory, false),
            AccountMeta::new_readonly(system_program_id(), false),
        ],
    )
}

fn create_create_pair_ix(ctx: &TestContext) -> Instruction {
    Instruction::new_with_cmd(
        ctx.program_id,
        &Cmd::CreatePair,
        vec![
            AccountMeta::new(ctx.admin, true),
            AccountMeta::new(ctx.factory, false),
            AccountMeta::new(ctx.pair, false),
            AccountMeta::new_readonly(ctx.mint_a, false),
            AccountMeta::new_readonly(ctx.mint_b, false),
            AccountMeta::new(ctx.vault0, false),
            AccountMeta::new(ctx.vault1, false),
            AccountMeta::new(ctx.lp_mint, false),
            AccountMeta::new_readonly(token_program_id(), false),
            AccountMeta::new_readonly(ata_program_id(), false),
            AccountMeta::new_readonly(system_program_id(), false),
            AccountMeta::new_readonly(rent_sysvar_id(), false),
        ],
    )
}

fn create_add_liquidity_ix(
    ctx: &TestContext,
    user_index: usize,
    amount0_desired: u64,
    amount1_desired: u64,
    amount0_min: u64,
    amount1_min: u64,
) -> Instruction {
    Instruction::new_with_cmd(
        ctx.program_id,
        &Cmd::AddLiquidity { amount0_desired, amount1_desired, amount0_min, amount1_min },
        vec![
            AccountMeta::new(ctx.users[user_index], true),
            AccountMeta::new(ctx.pair, false),
            AccountMeta::new(ctx.user_token0[user_index], false),
            AccountMeta::new(ctx.user_token1[user_index], false),
            AccountMeta::new(ctx.vault0, false),
            AccountMeta::new(ctx.vault1, false),
            AccountMeta::new(ctx.lp_mint, false),
            AccountMeta::new(get_ata(&ctx.users[user_index], &ctx.lp_mint), false),
            AccountMeta::new(ctx.locked_lp, false),
            AccountMeta::new_readonly(ctx.admin, false),
            AccountMeta::new(ctx.admin_lp, false),
            AccountMeta::new_readonly(token_program_id(), false),
            AccountMeta::new_readonly(ata_program_id(), false),
            AccountMeta::new_readonly(system_program_id(), false),
            AccountMeta::new_readonly(rent_sysvar_id(), false),
            AccountMeta::new_readonly(clock_sysvar_id(), false),
        ],
    )
}

fn create_swap_ix(
    ctx: &TestContext,
    user_index: usize,
    amount0_out: u64,
    amount1_out: u64,
) -> Instruction {
    Instruction::new_with_cmd(
        ctx.program_id,
        &Cmd::Swap { amount0_out, amount1_out },
        vec![
            AccountMeta::new(ctx.users[user_index], true),
            AccountMeta::new(ctx.pair, false),
            AccountMeta::new(ctx.user_token0[user_index], false),
            AccountMeta::new(ctx.user_token1[user_index], false),
            AccountMeta::new(ctx.vault0, false),
            AccountMeta::new(ctx.vault1, false),
            AccountMeta::new_readonly(token_program_id(), false),
            AccountMeta::new_readonly(clock_sysvar_id(), false),
        ],
    )
}

fn create_remove_liquidity_ix(
    ctx: &TestContext,
    user_index: usize,
    liquidity: u64,
    amount0_min: u64,
    amount1_min: u64,
) -> Instruction {
    Instruction::new_with_cmd(
        ctx.program_id,
        &Cmd::RemoveLiquidity { liquidity, amount0_min, amount1_min },
        vec![
            AccountMeta::new(ctx.users[user_index], true),
            AccountMeta::new(ctx.pair, false),
            AccountMeta::new_readonly(ctx.mint0, false),
            AccountMeta::new_readonly(ctx.mint1, false),
            AccountMeta::new(ctx.user_token0[user_index], false),
            AccountMeta::new(ctx.user_token1[user_index], false),
            AccountMeta::new(ctx.vault0, false),
            AccountMeta::new(ctx.vault1, false),
            AccountMeta::new(ctx.lp_mint, false),
            AccountMeta::new(get_ata(&ctx.users[user_index], &ctx.lp_mint), false),
            AccountMeta::new_readonly(ctx.admin, false),
            AccountMeta::new(ctx.admin_lp, false),
            AccountMeta::new_readonly(token_program_id(), false),
            AccountMeta::new_readonly(ata_program_id(), false),
            AccountMeta::new_readonly(system_program_id(), false),
            AccountMeta::new_readonly(rent_sysvar_id(), false),
            AccountMeta::new_readonly(clock_sysvar_id(), false),
        ],
    )
}

fn create_sync_ix(ctx: &TestContext) -> Instruction {
    Instruction::new_with_cmd(
        ctx.program_id,
        &Cmd::Sync,
        vec![
            AccountMeta::new(ctx.pair, false),
            AccountMeta::new_readonly(ctx.vault0, false),
            AccountMeta::new_readonly(ctx.vault1, false),
            AccountMeta::new_readonly(clock_sysvar_id(), false),
        ],
    )
}

fn create_skim_ix(ctx: &TestContext, recipient: &Pubkey) -> Instruction {
    Instruction::new_with_cmd(
        ctx.program_id,
        &Cmd::Skim,
        vec![
            AccountMeta::new(ctx.users[1], true),
            AccountMeta::new_readonly(*recipient, false),
            AccountMeta::new_readonly(ctx.pair, false),
            AccountMeta::new_readonly(ctx.mint0, false),
            AccountMeta::new_readonly(ctx.mint1, false),
            AccountMeta::new(get_ata(recipient, &ctx.mint0), false),
            AccountMeta::new(get_ata(recipient, &ctx.mint1), false),
            AccountMeta::new(ctx.vault0, false),
            AccountMeta::new(ctx.vault1, false),
            AccountMeta::new_readonly(token_program_id(), false),
            AccountMeta::new_readonly(ata_program_id(), false),
            AccountMeta::new_readonly(system_program_id(), false),
            AccountMeta::new_readonly(rent_sysvar_id(), false),
        ],
    )
}

/// The swap output for `amount_in`, computed independently of the program.
fn compute_swap_amount_out(amount_in: u64, reserve_in: u64, reserve_out: u64) -> u64 {
    let fee_denominator = 10_000u128;
    let amount_in_with_fee = (amount_in as u128) * (fee_denominator - SWAP_FEE_BPS as u128);
    let numerator = amount_in_with_fee * reserve_out as u128;
    let denominator = (reserve_in as u128 * fee_denominator) + amount_in_with_fee;
    (numerator / denominator) as u64
}

fn expected_initial_user_lp() -> u64 {
    INITIAL_LIQUIDITY - MINIMUM_LIQUIDITY
}

/// A transaction signed by `payer` (who pays its fee).
fn send_signed_transaction(
    svm: &mut Svm,
    payer: &Pubkey,
    instructions: &[Instruction],
    _signers: &[&Pubkey],
) -> TransactionResult {
    svm.send(*payer, instructions)
}

/// A transaction whose only signatures are those its account metas ask for,
/// with `payer` paying the fee.
fn send_unsigned_transaction(
    svm: &mut Svm,
    payer: Pubkey,
    instructions: &[Instruction],
) -> TransactionResult {
    svm.send(payer, instructions)
}

/// An admin transaction; the ledger checks no real signatures.
fn send_admin_transaction(svm: &mut Svm, admin: Pubkey, instructions: &[Instruction]) -> TransactionResult {
    svm.send(admin, instructions)
}

fn set_instruction_signer(ix: &mut Instruction, index: usize, signer: Pubkey) {
    ix.accounts[index].pubkey = signer;
}

fn seed_account(svm: &mut Svm, pubkey: Pubkey, account: Account) {
    svm.set_account(pubkey, account);
}

fn seed_prefunded_system_account(svm: &mut Svm, pubkey: Pubkey, lamports: u64) {
    seed_account(svm, pubkey, Account { lamports, owner: system_program_id(), data: Vec::new() });
}

fn seed_factory_account(svm: &mut Svm, ctx: &TestContext, owner: Pubkey, state: FactoryState) {
    seed_account(svm, ctx.factory, Account { lamports: 1, data: state.to_bytes(), owner });
}

fn seed_pair_state(svm: &mut Svm, at: Pubkey, state: &PairState, owner: Pubkey) {
    seed_account(svm, at, Account { lamports: 1, data: state.to_bytes(), owner });
}

fn add_initial_liquidity(svm: &mut Svm, ctx: &TestContext) {
    let add_ix = create_add_liquidity_ix(
        ctx,
        0,
        INITIAL_LIQUIDITY,
        INITIAL_LIQUIDITY,
        INITIAL_LIQUIDITY,
        INITIAL_LIQUIDITY,
    );
    send_signed_transaction(svm, &ctx.users[0], &[add_ix], &[&ctx.users[0]]).unwrap();
}

// ---------------------------------------------------------------------------
// InitFactory
// ---------------------------------------------------------------------------

#[test]
fn test_init_factory() {
    let (mut svm, ctx) = setup();

    let result = send_admin_transaction(&mut svm, ctx.admin, &[create_init_factory_ix(&ctx)]);
    assert!(result.is_ok());

    let factory_state = get_factory_state(&svm, &ctx.factory);
    assert!(factory_state.is_initialized);
    assert_eq!(factory_state.pair_count, 0);
    assert_eq!(svm.get_account(&ctx.factory).unwrap().owner, ctx.program_id);
}

#[test]
fn test_init_factory_missing_signer_reverted() {
    let (mut svm, ctx) = setup();

    let mut ix = create_init_factory_ix(&ctx);
    ix.accounts[0].is_signer = false;
    let err =
        send_signed_transaction(&mut svm, &ctx.users[0], &[ix], &[&ctx.users[0]]).unwrap_err();

    assert_eq!(
        err.err,
        TransactionError::InstructionError(0, InstructionError::MissingRequiredSignature)
    );
}

#[test]
fn test_init_factory_non_admin_reverted() {
    let (mut svm, ctx) = setup();

    let mut ix = create_init_factory_ix(&ctx);
    set_instruction_signer(&mut ix, 0, ctx.users[0]);
    let err =
        send_signed_transaction(&mut svm, &ctx.users[0], &[ix], &[&ctx.users[0]]).unwrap_err();

    assert_eq!(
        err.err,
        TransactionError::InstructionError(0, InstructionError::IllegalOwner)
    );
}

#[test]
fn test_init_factory_invalid_system_program_reverted() {
    let (mut svm, ctx) = setup();

    let mut ix = create_init_factory_ix(&ctx);
    ix.accounts[2].pubkey = new_unique();
    let err = send_admin_transaction(&mut svm, ctx.admin, &[ix]).unwrap_err();

    assert_eq!(
        err.err,
        TransactionError::InstructionError(0, InstructionError::IncorrectProgramId)
    );
}

#[test]
fn test_init_factory_invalid_factory_pda_reverted() {
    let (mut svm, ctx) = setup();

    let mut ix = create_init_factory_ix(&ctx);
    ix.accounts[1].pubkey = new_unique();
    let err = send_admin_transaction(&mut svm, ctx.admin, &[ix]).unwrap_err();

    assert_eq!(
        err.err,
        TransactionError::InstructionError(0, InstructionError::InvalidSeeds)
    );
}

#[test]
fn test_init_factory_already_initialized_reverted() {
    let (mut svm, ctx) = setup();

    send_admin_transaction(&mut svm, ctx.admin, &[create_init_factory_ix(&ctx)]).unwrap();

    let err =
        send_admin_transaction(&mut svm, ctx.admin, &[create_init_factory_ix(&ctx)]).unwrap_err();

    assert_eq!(
        err.err,
        TransactionError::InstructionError(0, InstructionError::AccountAlreadyInitialized)
    );
}

// ---------------------------------------------------------------------------
// CreatePair
// ---------------------------------------------------------------------------

#[test]
fn test_create_pair() {
    let (mut svm, ctx) = setup();
    bootstrap_factory(&mut svm, &ctx);

    let result = send_admin_transaction(&mut svm, ctx.admin, &[create_create_pair_ix(&ctx)]);
    assert!(result.is_ok());

    let factory_state = get_factory_state(&svm, &ctx.factory);
    let pair_state = get_pair_state(&svm, &ctx.pair);
    let lp_mint_state = Mint::unpack(&svm.get_account(&ctx.lp_mint).unwrap().data).unwrap();
    assert_eq!(factory_state.pair_count, 1);
    assert!(pair_state.is_initialized);
    assert_eq!(address(&pair_state.factory), ctx.factory);
    assert_eq!(address(&pair_state.token0_mint), ctx.mint0);
    assert_eq!(address(&pair_state.token1_mint), ctx.mint1);
    assert_eq!(address(&pair_state.vault0), ctx.vault0);
    assert_eq!(address(&pair_state.vault1), ctx.vault1);
    assert_eq!(address(&pair_state.lp_mint), ctx.lp_mint);
    assert_eq!(pair_state.reserve0, 0);
    assert_eq!(pair_state.reserve1, 0);
    assert_eq!(pair_state.k_last, 0);
    assert_eq!(pair_state.price0_cumulative_last, 0);
    assert_eq!(pair_state.price1_cumulative_last, 0);
    assert_eq!(pair_state.block_timestamp_last, 0);
    assert!(lp_mint_state.is_initialized);
    assert_eq!(Option::<Pubkey>::from(lp_mint_state.mint_authority), Some(ctx.pair));
    assert_eq!(Option::<Pubkey>::from(lp_mint_state.freeze_authority), None);
    assert_eq!(lp_mint_state.decimals, LP_DECIMALS);
    assert_eq!(lp_mint_state.supply, 0);
    assert_eq!(svm.get_account(&ctx.pair).unwrap().owner, ctx.program_id);
    assert_eq!(svm.get_account(&ctx.vault0).unwrap().owner, token_program_id());
    assert_eq!(svm.get_account(&ctx.vault1).unwrap().owner, token_program_id());
    assert_eq!(svm.get_account(&ctx.lp_mint).unwrap().owner, token_program_id());
}

#[test]
fn test_create_pair_missing_signer_reverted() {
    let (mut svm, ctx) = setup();
    bootstrap_factory(&mut svm, &ctx);

    let mut ix = create_create_pair_ix(&ctx);
    ix.accounts[0].is_signer = false;
    let err =
        send_signed_transaction(&mut svm, &ctx.users[0], &[ix], &[&ctx.users[0]]).unwrap_err();

    assert_eq!(
        err.err,
        TransactionError::InstructionError(0, InstructionError::MissingRequiredSignature)
    );
}

#[test]
fn test_create_pair_non_admin_reverted() {
    let (mut svm, ctx) = setup();
    bootstrap_factory(&mut svm, &ctx);

    let mut ix = create_create_pair_ix(&ctx);
    set_instruction_signer(&mut ix, 0, ctx.users[0]);
    let err =
        send_signed_transaction(&mut svm, &ctx.users[0], &[ix], &[&ctx.users[0]]).unwrap_err();

    assert_eq!(
        err.err,
        TransactionError::InstructionError(0, InstructionError::IllegalOwner)
    );
}

#[test]
fn test_create_pair_invalid_system_program_reverted() {
    let (mut svm, ctx) = setup();
    bootstrap_factory(&mut svm, &ctx);

    let mut ix = create_create_pair_ix(&ctx);
    ix.accounts[10].pubkey = new_unique();
    let err = send_admin_transaction(&mut svm, ctx.admin, &[ix]).unwrap_err();

    assert_eq!(
        err.err,
        TransactionError::InstructionError(0, InstructionError::IncorrectProgramId)
    );
}

#[test]
fn test_create_pair_invalid_token_program_reverted() {
    let (mut svm, ctx) = setup();
    bootstrap_factory(&mut svm, &ctx);

    let mut ix = create_create_pair_ix(&ctx);
    ix.accounts[8].pubkey = new_unique();
    let err = send_admin_transaction(&mut svm, ctx.admin, &[ix]).unwrap_err();

    assert_eq!(
        err.err,
        TransactionError::InstructionError(0, InstructionError::IncorrectProgramId)
    );
}

#[test]
fn test_create_pair_invalid_ata_program_reverted() {
    let (mut svm, ctx) = setup();
    bootstrap_factory(&mut svm, &ctx);

    let mut ix = create_create_pair_ix(&ctx);
    ix.accounts[9].pubkey = new_unique();
    let err = send_admin_transaction(&mut svm, ctx.admin, &[ix]).unwrap_err();

    assert_eq!(
        err.err,
        TransactionError::InstructionError(0, InstructionError::IncorrectProgramId)
    );
}

#[test]
fn test_create_pair_invalid_rent_sysvar_reverted() {
    let (mut svm, ctx) = setup();
    bootstrap_factory(&mut svm, &ctx);

    let mut ix = create_create_pair_ix(&ctx);
    ix.accounts[11].pubkey = new_unique();
    let err = send_admin_transaction(&mut svm, ctx.admin, &[ix]).unwrap_err();

    assert_eq!(
        err.err,
        TransactionError::InstructionError(0, InstructionError::InvalidAccountData)
    );
}

#[test]
fn test_create_pair_identical_mints_reverted() {
    let (mut svm, ctx) = setup();
    bootstrap_factory(&mut svm, &ctx);

    let mut ix = create_create_pair_ix(&ctx);
    ix.accounts[4].pubkey = ctx.mint_a;
    let err = send_admin_transaction(&mut svm, ctx.admin, &[ix]).unwrap_err();

    assert_eq!(
        err.err,
        TransactionError::InstructionError(0, InstructionError::InvalidArgument)
    );
}

#[test]
fn test_create_pair_invalid_factory_pda_reverted() {
    let (mut svm, ctx) = setup();
    bootstrap_factory(&mut svm, &ctx);

    let mut ix = create_create_pair_ix(&ctx);
    ix.accounts[1].pubkey = new_unique();
    let err = send_admin_transaction(&mut svm, ctx.admin, &[ix]).unwrap_err();

    assert_eq!(
        err.err,
        TransactionError::InstructionError(0, InstructionError::InvalidSeeds)
    );
}

#[test]
fn test_create_pair_factory_owner_mismatch_reverted() {
    let (mut svm, ctx) = setup();
    seed_factory_account(
        &mut svm,
        &ctx,
        new_unique(),
        FactoryState { is_initialized: true, pair_count: 0 },
    );

    let err =
        send_admin_transaction(&mut svm, ctx.admin, &[create_create_pair_ix(&ctx)]).unwrap_err();

    assert_eq!(
        err.err,
        TransactionError::InstructionError(0, InstructionError::IllegalOwner)
    );
}

#[test]
fn test_create_pair_factory_not_initialized_reverted() {
    let (mut svm, ctx) = setup();
    seed_factory_account(
        &mut svm,
        &ctx,
        ctx.program_id,
        FactoryState { is_initialized: false, pair_count: 0 },
    );

    let err =
        send_admin_transaction(&mut svm, ctx.admin, &[create_create_pair_ix(&ctx)]).unwrap_err();

    assert_eq!(
        err.err,
        TransactionError::InstructionError(0, InstructionError::UninitializedAccount)
    );
}

#[test]
fn test_create_pair_mint_a_wrong_owner_reverted() {
    let (mut svm, ctx) = setup();
    bootstrap_factory(&mut svm, &ctx);

    let mut ix = create_create_pair_ix(&ctx);
    ix.accounts[3].pubkey = ctx.factory;
    let err = send_admin_transaction(&mut svm, ctx.admin, &[ix]).unwrap_err();

    assert_eq!(
        err.err,
        TransactionError::InstructionError(0, InstructionError::IllegalOwner)
    );
}

#[test]
fn test_create_pair_mint_b_wrong_owner_reverted() {
    let (mut svm, ctx) = setup();
    bootstrap_factory(&mut svm, &ctx);

    let mut ix = create_create_pair_ix(&ctx);
    ix.accounts[4].pubkey = ctx.factory;
    let err = send_admin_transaction(&mut svm, ctx.admin, &[ix]).unwrap_err();

    assert_eq!(
        err.err,
        TransactionError::InstructionError(0, InstructionError::IllegalOwner)
    );
}

#[test]
fn test_create_pair_invalid_pair_pda_reverted() {
    let (mut svm, ctx) = setup();
    bootstrap_factory(&mut svm, &ctx);

    let mut ix = create_create_pair_ix(&ctx);
    ix.accounts[2].pubkey = new_unique();
    let err = send_admin_transaction(&mut svm, ctx.admin, &[ix]).unwrap_err();

    assert_eq!(
        err.err,
        TransactionError::InstructionError(0, InstructionError::InvalidSeeds)
    );
}

#[test]
fn test_create_pair_invalid_vault_atas_reverted() {
    let (mut svm, ctx) = setup();
    bootstrap_factory(&mut svm, &ctx);

    let mut ix = create_create_pair_ix(&ctx);
    ix.accounts[5].pubkey = new_unique();
    ix.accounts[6].pubkey = new_unique();
    let err = send_admin_transaction(&mut svm, ctx.admin, &[ix]).unwrap_err();

    assert_eq!(
        err.err,
        TransactionError::InstructionError(0, InstructionError::InvalidArgument)
    );
}

#[test]
fn test_create_pair_invalid_lp_mint_pda_reverted() {
    let (mut svm, ctx) = setup();
    bootstrap_factory(&mut svm, &ctx);

    let mut ix = create_create_pair_ix(&ctx);
    ix.accounts[7].pubkey = new_unique();
    let err = send_admin_transaction(&mut svm, ctx.admin, &[ix]).unwrap_err();

    assert_eq!(
        err.err,
        TransactionError::InstructionError(0, InstructionError::InvalidSeeds)
    );
}

#[test]
fn test_create_pair_pair_already_initialized_reverted() {
    let (mut svm, ctx) = setup();
    bootstrap_factory(&mut svm, &ctx);
    send_admin_transaction(&mut svm, ctx.admin, &[create_create_pair_ix(&ctx)]).unwrap();

    let err =
        send_admin_transaction(&mut svm, ctx.admin, &[create_create_pair_ix(&ctx)]).unwrap_err();

    assert_eq!(
        err.err,
        TransactionError::InstructionError(0, InstructionError::AccountAlreadyInitialized)
    );
}

// ---------------------------------------------------------------------------
// Sync
// ---------------------------------------------------------------------------

#[test]
fn test_sync() {
    let (mut svm, ctx) = setup();
    bootstrap_pair(&mut svm, &ctx);
    let initial_timestamp = 5u64;
    let time_elapsed = 10u64;

    svm.set_unix_timestamp(initial_timestamp as i64);
    add_initial_liquidity(&mut svm, &ctx);

    let extra0 = 123_456;
    let extra1 = 654_321;
    transfer_tokens(&mut svm, &ctx.users[1], &ctx.user_token0[1], &ctx.vault0, &ctx.users[1], extra0);
    transfer_tokens(&mut svm, &ctx.users[1], &ctx.user_token1[1], &ctx.vault1, &ctx.users[1], extra1);

    svm.set_unix_timestamp((initial_timestamp + time_elapsed) as i64);

    let sync_ix = create_sync_ix(&ctx);
    send_signed_transaction(&mut svm, &ctx.users[1], &[sync_ix], &[&ctx.users[1]]).unwrap();

    let pair_state = get_pair_state(&svm, &ctx.pair);
    let expected_price_x64 = 1u128 << 64;
    let expected_cumulative = expected_price_x64 * time_elapsed as u128;
    assert_eq!(pair_state.reserve0, INITIAL_LIQUIDITY + extra0);
    assert_eq!(pair_state.reserve1, INITIAL_LIQUIDITY + extra1);
    assert_eq!(pair_state.price0_cumulative_last, expected_cumulative);
    assert_eq!(pair_state.price1_cumulative_last, expected_cumulative);
    assert_eq!(pair_state.block_timestamp_last, initial_timestamp + time_elapsed);
}

#[test]
fn test_sync_pair_owner_mismatch_reverted() {
    let (mut svm, ctx) = setup();
    bootstrap_pair(&mut svm, &ctx);

    let mut pair_account = svm.get_account(&ctx.pair).unwrap();
    pair_account.owner = new_unique();
    seed_account(&mut svm, ctx.pair, pair_account);

    let ix = create_sync_ix(&ctx);
    let err =
        send_signed_transaction(&mut svm, &ctx.users[1], &[ix], &[&ctx.users[1]]).unwrap_err();

    assert_eq!(
        err.err,
        TransactionError::InstructionError(0, InstructionError::IllegalOwner)
    );
}

#[test]
fn test_sync_pair_not_initialized_reverted() {
    let (mut svm, ctx) = setup();
    bootstrap_pair(&mut svm, &ctx);

    let mut pair_state = get_pair_state(&svm, &ctx.pair);
    pair_state.is_initialized = false;
    seed_pair_state(&mut svm, ctx.pair, &pair_state, ctx.program_id);

    let ix = create_sync_ix(&ctx);
    let err =
        send_signed_transaction(&mut svm, &ctx.users[1], &[ix], &[&ctx.users[1]]).unwrap_err();

    assert_eq!(
        err.err,
        TransactionError::InstructionError(0, InstructionError::UninitializedAccount)
    );
}

#[test]
fn test_sync_pair_factory_mismatch_reverted() {
    let (mut svm, ctx) = setup();
    bootstrap_pair(&mut svm, &ctx);

    let mut pair_state = get_pair_state(&svm, &ctx.pair);
    pair_state.factory = key(&new_unique());
    seed_pair_state(&mut svm, ctx.pair, &pair_state, ctx.program_id);

    let ix = create_sync_ix(&ctx);
    let err =
        send_signed_transaction(&mut svm, &ctx.users[1], &[ix], &[&ctx.users[1]]).unwrap_err();

    assert_eq!(
        err.err,
        TransactionError::InstructionError(0, InstructionError::InvalidAccountData)
    );
}

#[test]
fn test_sync_invalid_pair_pda_reverted() {
    let (mut svm, ctx) = setup();
    bootstrap_pair(&mut svm, &ctx);

    let fake_pair = new_unique();
    let pair_state = get_pair_state(&svm, &ctx.pair);
    seed_pair_state(&mut svm, fake_pair, &pair_state, ctx.program_id);

    let mut ix = create_sync_ix(&ctx);
    ix.accounts[0].pubkey = fake_pair;
    let err =
        send_signed_transaction(&mut svm, &ctx.users[1], &[ix], &[&ctx.users[1]]).unwrap_err();

    assert_eq!(
        err.err,
        TransactionError::InstructionError(0, InstructionError::InvalidSeeds)
    );
}

#[test]
fn test_sync_invalid_vault0_reverted() {
    let (mut svm, ctx) = setup();
    bootstrap_pair(&mut svm, &ctx);

    let mut ix = create_sync_ix(&ctx);
    ix.accounts[1].pubkey = ctx.vault1;
    let err =
        send_signed_transaction(&mut svm, &ctx.users[1], &[ix], &[&ctx.users[1]]).unwrap_err();

    assert_eq!(
        err.err,
        TransactionError::InstructionError(0, InstructionError::InvalidArgument)
    );
}

#[test]
fn test_sync_invalid_vault1_reverted() {
    let (mut svm, ctx) = setup();
    bootstrap_pair(&mut svm, &ctx);

    let mut ix = create_sync_ix(&ctx);
    ix.accounts[2].pubkey = ctx.vault0;
    let err =
        send_signed_transaction(&mut svm, &ctx.users[1], &[ix], &[&ctx.users[1]]).unwrap_err();

    assert_eq!(
        err.err,
        TransactionError::InstructionError(0, InstructionError::InvalidArgument)
    );
}

#[test]
fn test_sync_invalid_clock_sysvar_reverted() {
    let (mut svm, ctx) = setup();
    bootstrap_pair(&mut svm, &ctx);

    let mut ix = create_sync_ix(&ctx);
    ix.accounts[3].pubkey = new_unique();
    let err =
        send_signed_transaction(&mut svm, &ctx.users[1], &[ix], &[&ctx.users[1]]).unwrap_err();

    assert_eq!(
        err.err,
        TransactionError::InstructionError(0, InstructionError::InvalidAccountData)
    );
}

// ---------------------------------------------------------------------------
// Swap
// ---------------------------------------------------------------------------

#[test]
fn test_swap() {
    let (mut svm, ctx) = setup();
    bootstrap_pair(&mut svm, &ctx);
    let initial_timestamp = 5u64;
    let time_elapsed = 10u64;

    svm.set_unix_timestamp(initial_timestamp as i64);
    add_initial_liquidity(&mut svm, &ctx);

    let amount_in = 1_000_000;
    let amount1_out = compute_swap_amount_out(amount_in, INITIAL_LIQUIDITY, INITIAL_LIQUIDITY);
    svm.set_unix_timestamp((initial_timestamp + time_elapsed) as i64);
    let user0_before = get_token_balance(&svm, &ctx.user_token0[1]);
    let user1_before = get_token_balance(&svm, &ctx.user_token1[1]);

    let transfer_ix = token_transfer_ix(&ctx.user_token0[1], &ctx.vault0, &ctx.users[1], amount_in);
    let swap_ix = create_swap_ix(&ctx, 1, 0, amount1_out);
    send_signed_transaction(&mut svm, &ctx.users[1], &[transfer_ix, swap_ix], &[&ctx.users[1]])
        .unwrap();

    let pair_state = get_pair_state(&svm, &ctx.pair);
    let user1_token0_balance = get_token_balance(&svm, &ctx.user_token0[1]);
    let user1_token1_balance = get_token_balance(&svm, &ctx.user_token1[1]);
    let vault0_balance = get_token_balance(&svm, &ctx.vault0);
    let vault1_balance = get_token_balance(&svm, &ctx.vault1);
    let expected_price0_cumulative = (1u128 << 64) * time_elapsed as u128;
    let expected_price1_cumulative = (1u128 << 64) * time_elapsed as u128;
    assert_eq!(user1_token0_balance, user0_before - amount_in);
    assert_eq!(user1_token1_balance, user1_before + amount1_out);
    assert_eq!(vault0_balance, INITIAL_LIQUIDITY + amount_in);
    assert_eq!(vault1_balance, INITIAL_LIQUIDITY - amount1_out);
    assert_eq!(pair_state.reserve0, INITIAL_LIQUIDITY + amount_in);
    assert_eq!(pair_state.reserve1, INITIAL_LIQUIDITY - amount1_out);
    assert_eq!(pair_state.k_last, (INITIAL_LIQUIDITY as u128) * (INITIAL_LIQUIDITY as u128));
    assert_eq!(pair_state.price0_cumulative_last, expected_price0_cumulative);
    assert_eq!(pair_state.price1_cumulative_last, expected_price1_cumulative);
    assert_eq!(pair_state.block_timestamp_last, initial_timestamp + time_elapsed);
}

#[test]
fn test_swap_missing_signer_reverted() {
    let (mut svm, ctx) = setup();
    bootstrap_pair(&mut svm, &ctx);
    add_initial_liquidity(&mut svm, &ctx);

    let mut ix = create_swap_ix(&ctx, 1, 0, 1);
    ix.accounts[0].is_signer = false;
    let err =
        send_signed_transaction(&mut svm, &ctx.users[0], &[ix], &[&ctx.users[0]]).unwrap_err();

    assert_eq!(
        err.err,
        TransactionError::InstructionError(0, InstructionError::MissingRequiredSignature)
    );
}

#[test]
fn test_swap_invalid_token_program_reverted() {
    let (mut svm, ctx) = setup();
    bootstrap_pair(&mut svm, &ctx);
    add_initial_liquidity(&mut svm, &ctx);

    let mut ix = create_swap_ix(&ctx, 1, 0, 1);
    ix.accounts[6].pubkey = new_unique();
    let err =
        send_signed_transaction(&mut svm, &ctx.users[1], &[ix], &[&ctx.users[1]]).unwrap_err();

    assert_eq!(
        err.err,
        TransactionError::InstructionError(0, InstructionError::IncorrectProgramId)
    );
}

#[test]
fn test_swap_zero_output_reverted() {
    let (mut svm, ctx) = setup();
    bootstrap_pair(&mut svm, &ctx);
    add_initial_liquidity(&mut svm, &ctx);

    let ix = create_swap_ix(&ctx, 1, 0, 0);
    let err =
        send_signed_transaction(&mut svm, &ctx.users[1], &[ix], &[&ctx.users[1]]).unwrap_err();

    assert_eq!(
        err.err,
        TransactionError::InstructionError(0, InstructionError::InvalidArgument)
    );
}

#[test]
fn test_swap_pair_owner_mismatch_reverted() {
    let (mut svm, ctx) = setup();
    bootstrap_pair(&mut svm, &ctx);
    add_initial_liquidity(&mut svm, &ctx);

    let mut pair_account = svm.get_account(&ctx.pair).unwrap();
    pair_account.owner = new_unique();
    seed_account(&mut svm, ctx.pair, pair_account);

    let ix = create_swap_ix(&ctx, 1, 0, 1);
    let err =
        send_signed_transaction(&mut svm, &ctx.users[1], &[ix], &[&ctx.users[1]]).unwrap_err();

    assert_eq!(
        err.err,
        TransactionError::InstructionError(0, InstructionError::IllegalOwner)
    );
}

#[test]
fn test_swap_pair_not_initialized_reverted() {
    let (mut svm, ctx) = setup();
    bootstrap_pair(&mut svm, &ctx);

    let mut pair_state = get_pair_state(&svm, &ctx.pair);
    pair_state.is_initialized = false;
    seed_pair_state(&mut svm, ctx.pair, &pair_state, ctx.program_id);

    let ix = create_swap_ix(&ctx, 1, 0, 1);
    let err =
        send_signed_transaction(&mut svm, &ctx.users[1], &[ix], &[&ctx.users[1]]).unwrap_err();

    assert_eq!(
        err.err,
        TransactionError::InstructionError(0, InstructionError::UninitializedAccount)
    );
}

#[test]
fn test_swap_pair_factory_mismatch_reverted() {
    let (mut svm, ctx) = setup();
    bootstrap_pair(&mut svm, &ctx);

    let mut pair_state = get_pair_state(&svm, &ctx.pair);
    pair_state.factory = key(&new_unique());
    seed_pair_state(&mut svm, ctx.pair, &pair_state, ctx.program_id);

    let ix = create_swap_ix(&ctx, 1, 0, 1);
    let err =
        send_signed_transaction(&mut svm, &ctx.users[1], &[ix], &[&ctx.users[1]]).unwrap_err();

    assert_eq!(
        err.err,
        TransactionError::InstructionError(0, InstructionError::InvalidAccountData)
    );
}

#[test]
fn test_swap_invalid_pair_pda_reverted() {
    let (mut svm, ctx) = setup();
    bootstrap_pair(&mut svm, &ctx);
    add_initial_liquidity(&mut svm, &ctx);

    let fake_pair = new_unique();
    let pair_state = get_pair_state(&svm, &ctx.pair);
    seed_pair_state(&mut svm, fake_pair, &pair_state, ctx.program_id);

    let mut ix = create_swap_ix(&ctx, 1, 0, 1);
    ix.accounts[1].pubkey = fake_pair;
    let err =
        send_signed_transaction(&mut svm, &ctx.users[1], &[ix], &[&ctx.users[1]]).unwrap_err();

    assert_eq!(
        err.err,
        TransactionError::InstructionError(0, InstructionError::InvalidSeeds)
    );
}

#[test]
fn test_swap_invalid_vault_linkage_reverted() {
    let (mut svm, ctx) = setup();
    bootstrap_pair(&mut svm, &ctx);
    add_initial_liquidity(&mut svm, &ctx);

    let mut ix = create_swap_ix(&ctx, 1, 0, 1);
    ix.accounts[4].pubkey = new_unique();
    let err =
        send_signed_transaction(&mut svm, &ctx.users[1], &[ix], &[&ctx.users[1]]).unwrap_err();

    assert_eq!(
        err.err,
        TransactionError::InstructionError(0, InstructionError::InvalidArgument)
    );
}

#[test]
fn test_swap_wrong_user_token0_account_reverted() {
    let (mut svm, ctx) = setup();
    bootstrap_pair(&mut svm, &ctx);
    add_initial_liquidity(&mut svm, &ctx);

    let mut ix = create_swap_ix(&ctx, 1, 0, 1);
    ix.accounts[2].pubkey = ctx.user_token0[0];
    let err =
        send_signed_transaction(&mut svm, &ctx.users[1], &[ix], &[&ctx.users[1]]).unwrap_err();

    assert_eq!(
        err.err,
        TransactionError::InstructionError(0, InstructionError::IllegalOwner)
    );
}

#[test]
fn test_swap_wrong_user_token1_mint_reverted() {
    let (mut svm, ctx) = setup();
    bootstrap_pair(&mut svm, &ctx);
    add_initial_liquidity(&mut svm, &ctx);

    let mut ix = create_swap_ix(&ctx, 1, 0, 1);
    ix.accounts[3].pubkey = ctx.user_token0[1];
    let err =
        send_signed_transaction(&mut svm, &ctx.users[1], &[ix], &[&ctx.users[1]]).unwrap_err();

    assert_eq!(
        err.err,
        TransactionError::InstructionError(0, InstructionError::InvalidAccountData)
    );
}

#[test]
fn test_swap_zero_reserve_reverted() {
    let (mut svm, ctx) = setup();
    bootstrap_pair(&mut svm, &ctx);

    let ix = create_swap_ix(&ctx, 1, 0, 1);
    let err =
        send_signed_transaction(&mut svm, &ctx.users[1], &[ix], &[&ctx.users[1]]).unwrap_err();

    assert_eq!(
        err.err,
        TransactionError::InstructionError(0, InstructionError::InvalidAccountData)
    );
}

#[test]
fn test_swap_output_exceeds_reserve_reverted() {
    let (mut svm, ctx) = setup();
    bootstrap_pair(&mut svm, &ctx);
    add_initial_liquidity(&mut svm, &ctx);

    let ix = create_swap_ix(&ctx, 1, 0, INITIAL_LIQUIDITY);
    let err =
        send_signed_transaction(&mut svm, &ctx.users[1], &[ix], &[&ctx.users[1]]).unwrap_err();

    assert_eq!(
        err.err,
        TransactionError::InstructionError(0, InstructionError::InvalidArgument)
    );
}

#[test]
fn test_swap_missing_input_amount_reverted() {
    let (mut svm, ctx) = setup();
    bootstrap_pair(&mut svm, &ctx);
    add_initial_liquidity(&mut svm, &ctx);

    let ix = create_swap_ix(&ctx, 1, 0, 1);
    let err =
        send_signed_transaction(&mut svm, &ctx.users[1], &[ix], &[&ctx.users[1]]).unwrap_err();

    assert_eq!(
        err.err,
        TransactionError::InstructionError(0, InstructionError::InvalidArgument)
    );
}

#[test]
fn test_swap_k_invariant_violation_reverted() {
    let (mut svm, ctx) = setup();
    bootstrap_pair(&mut svm, &ctx);
    add_initial_liquidity(&mut svm, &ctx);

    let transfer_ix = token_transfer_ix(&ctx.user_token0[1], &ctx.vault0, &ctx.users[1], 1);
    let swap_ix = create_swap_ix(&ctx, 1, 0, 1_000);
    let err = send_signed_transaction(
        &mut svm,
        &ctx.users[1],
        &[transfer_ix, swap_ix],
        &[&ctx.users[1]],
    )
    .unwrap_err();

    assert_eq!(
        err.err,
        TransactionError::InstructionError(1, InstructionError::InvalidArgument)
    );
}

#[test]
fn test_swap_invalid_clock_sysvar_reverted() {
    let (mut svm, ctx) = setup();
    bootstrap_pair(&mut svm, &ctx);
    add_initial_liquidity(&mut svm, &ctx);

    let amount_in = 1_000_000;
    let amount1_out = compute_swap_amount_out(amount_in, INITIAL_LIQUIDITY, INITIAL_LIQUIDITY);
    let transfer_ix = token_transfer_ix(&ctx.user_token0[1], &ctx.vault0, &ctx.users[1], amount_in);
    let mut swap_ix = create_swap_ix(&ctx, 1, 0, amount1_out);
    swap_ix.accounts[7].pubkey = new_unique();

    let err = send_signed_transaction(
        &mut svm,
        &ctx.users[1],
        &[transfer_ix, swap_ix],
        &[&ctx.users[1]],
    )
    .unwrap_err();

    assert_eq!(
        err.err,
        TransactionError::InstructionError(1, InstructionError::InvalidAccountData)
    );
}

// ---------------------------------------------------------------------------
// Skim
// ---------------------------------------------------------------------------

#[test]
fn test_skim() {
    let (mut svm, ctx) = setup();
    bootstrap_pair(&mut svm, &ctx);
    add_initial_liquidity(&mut svm, &ctx);

    let extra0 = 50_000;
    let extra1 = 25_000;
    let recipient_before0 = get_token_balance(&svm, &ctx.user_token0[0]);
    let recipient_before1 = get_token_balance(&svm, &ctx.user_token1[0]);

    transfer_tokens(&mut svm, &ctx.users[1], &ctx.user_token0[1], &ctx.vault0, &ctx.users[1], extra0);
    transfer_tokens(&mut svm, &ctx.users[1], &ctx.user_token1[1], &ctx.vault1, &ctx.users[1], extra1);

    let skim_ix = create_skim_ix(&ctx, &ctx.users[0]);
    send_signed_transaction(&mut svm, &ctx.users[1], &[skim_ix], &[&ctx.users[1]]).unwrap();

    let pair_state = get_pair_state(&svm, &ctx.pair);
    assert_eq!(get_token_balance(&svm, &ctx.user_token0[0]), recipient_before0 + extra0);
    assert_eq!(get_token_balance(&svm, &ctx.user_token1[0]), recipient_before1 + extra1);
    assert_eq!(get_token_balance(&svm, &ctx.vault0), INITIAL_LIQUIDITY);
    assert_eq!(get_token_balance(&svm, &ctx.vault1), INITIAL_LIQUIDITY);
    assert_eq!(pair_state.reserve0, INITIAL_LIQUIDITY);
    assert_eq!(pair_state.reserve1, INITIAL_LIQUIDITY);
    assert_eq!(pair_state.k_last, (INITIAL_LIQUIDITY as u128) * (INITIAL_LIQUIDITY as u128));
}

#[test]
fn test_skim_missing_payer_signature_succeeds_when_recipient_atas_already_exist() {
    let (mut svm, ctx) = setup();
    bootstrap_pair(&mut svm, &ctx);
    add_initial_liquidity(&mut svm, &ctx);

    let recipient = new_unique();
    svm.airdrop(&recipient, 1_000_000_000);
    let recipient_token0 = create_ata(&mut svm, &ctx.users[1], &recipient, &ctx.mint0);
    let recipient_token1 = create_ata(&mut svm, &ctx.users[1], &recipient, &ctx.mint1);

    transfer_tokens(&mut svm, &ctx.users[1], &ctx.user_token0[1], &ctx.vault0, &ctx.users[1], 50_000);
    transfer_tokens(&mut svm, &ctx.users[1], &ctx.user_token1[1], &ctx.vault1, &ctx.users[1], 25_000);

    let mut ix = create_skim_ix(&ctx, &recipient);
    ix.accounts[0].is_signer = false;
    send_unsigned_transaction(&mut svm, ctx.users[1], &[ix]).unwrap();

    assert_eq!(get_token_balance(&svm, &recipient_token0), 50_000);
    assert_eq!(get_token_balance(&svm, &recipient_token1), 25_000);
}

#[test]
fn test_skim_prefunded_recipient_ata_succeeds_with_payer_signature() {
    let (mut svm, ctx) = setup();
    bootstrap_pair(&mut svm, &ctx);
    add_initial_liquidity(&mut svm, &ctx);

    let recipient = new_unique();
    svm.airdrop(&recipient, 1_000_000_000);
    let recipient_token0 = get_ata(&recipient, &ctx.mint0);
    let recipient_token1 = get_ata(&recipient, &ctx.mint1);
    seed_prefunded_system_account(&mut svm, recipient_token0, 1);

    transfer_tokens(&mut svm, &ctx.users[1], &ctx.user_token0[1], &ctx.vault0, &ctx.users[1], 50_000);
    transfer_tokens(&mut svm, &ctx.users[1], &ctx.user_token1[1], &ctx.vault1, &ctx.users[1], 25_000);

    let skim_ix = create_skim_ix(&ctx, &recipient);
    send_signed_transaction(&mut svm, &ctx.users[1], &[skim_ix], &[&ctx.users[1]]).unwrap();

    assert_eq!(get_token_balance(&svm, &recipient_token0), 50_000);
    assert_eq!(get_token_balance(&svm, &recipient_token1), 25_000);
}

/// Skim after the first deposit, with one account of the instruction
/// replaced by a fresh address.
fn skim_with_fresh_account(index: usize) -> FailedTransaction {
    let (mut svm, ctx) = setup();
    bootstrap_pair(&mut svm, &ctx);
    add_initial_liquidity(&mut svm, &ctx);

    let mut ix = create_skim_ix(&ctx, &ctx.users[0]);
    ix.accounts[index].pubkey = new_unique();
    send_signed_transaction(&mut svm, &ctx.users[1], &[ix], &[&ctx.users[1]]).unwrap_err()
}

#[test]
fn test_skim_invalid_system_program_reverted() {
    let err = skim_with_fresh_account(11);
    assert_eq!(
        err.err,
        TransactionError::InstructionError(0, InstructionError::IncorrectProgramId)
    );
}

#[test]
fn test_skim_invalid_token_program_reverted() {
    let err = skim_with_fresh_account(9);
    assert_eq!(
        err.err,
        TransactionError::InstructionError(0, InstructionError::IncorrectProgramId)
    );
}

#[test]
fn test_skim_invalid_ata_program_reverted() {
    let err = skim_with_fresh_account(10);
    assert_eq!(
        err.err,
        TransactionError::InstructionError(0, InstructionError::IncorrectProgramId)
    );
}

#[test]
fn test_skim_invalid_rent_sysvar_reverted() {
    let err = skim_with_fresh_account(12);
    assert_eq!(
        err.err,
        TransactionError::InstructionError(0, InstructionError::InvalidAccountData)
    );
}

#[test]
fn test_skim_pair_owner_mismatch_reverted() {
    let (mut svm, ctx) = setup();
    bootstrap_pair(&mut svm, &ctx);
    add_initial_liquidity(&mut svm, &ctx);

    let mut pair_account = svm.get_account(&ctx.pair).unwrap();
    pair_account.owner = new_unique();
    seed_account(&mut svm, ctx.pair, pair_account);

    let ix = create_skim_ix(&ctx, &ctx.users[0]);
    let err =
        send_signed_transaction(&mut svm, &ctx.users[1], &[ix], &[&ctx.users[1]]).unwrap_err();

    assert_eq!(
        err.err,
        TransactionError::InstructionError(0, InstructionError::IllegalOwner)
    );
}

#[test]
fn test_skim_pair_not_initialized_reverted() {
    let (mut svm, ctx) = setup();
    bootstrap_pair(&mut svm, &ctx);

    let mut pair_state = get_pair_state(&svm, &ctx.pair);
    pair_state.is_initialized = false;
    seed_pair_state(&mut svm, ctx.pair, &pair_state, ctx.program_id);

    let ix = create_skim_ix(&ctx, &ctx.users[0]);
    let err =
        send_signed_transaction(&mut svm, &ctx.users[1], &[ix], &[&ctx.users[1]]).unwrap_err();

    assert_eq!(
        err.err,
        TransactionError::InstructionError(0, InstructionError::UninitializedAccount)
    );
}

#[test]
fn test_skim_pair_factory_mismatch_reverted() {
    let (mut svm, ctx) = setup();
    bootstrap_pair(&mut svm, &ctx);

    let mut pair_state = get_pair_state(&svm, &ctx.pair);
    pair_state.factory = key(&new_unique());
    seed_pair_state(&mut svm, ctx.pair, &pair_state, ctx.program_id);

    let ix = create_skim_ix(&ctx, &ctx.users[0]);
    let err =
        send_signed_transaction(&mut svm, &ctx.users[1], &[ix], &[&ctx.users[1]]).unwrap_err();

    assert_eq!(
        err.err,
        TransactionError::InstructionError(0, InstructionError::InvalidAccountData)
    );
}

#[test]
fn test_skim_invalid_pair_pda_reverted() {
    let (mut svm, ctx) = setup();
    bootstrap_pair(&mut svm, &ctx);
    add_initial_liquidity(&mut svm, &ctx);

    let fake_pair = new_unique();
    let pair_state = get_pair_state(&svm, &ctx.pair);
    seed_pair_state(&mut svm, fake_pair, &pair_state, ctx.program_id);

    let mut ix = create_skim_ix(&ctx, &ctx.users[0]);
    ix.accounts[2].pubkey = fake_pair;
    let err =
        send_signed_transaction(&mut svm, &ctx.users[1], &[ix], &[&ctx.users[1]]).unwrap_err();

    assert_eq!(
        err.err,
        TransactionError::InstructionError(0, InstructionError::InvalidSeeds)
    );
}

#[test]
fn test_skim_invalid_vault0_reverted() {
    let (mut svm, ctx) = setup();
    bootstrap_pair(&mut svm, &ctx);
    add_initial_liquidity(&mut svm, &ctx);

    let mut ix = create_skim_ix(&ctx, &ctx.users[0]);
    ix.accounts[7].pubkey = ctx.vault1;
    let err =
        send_signed_transaction(&mut svm, &ctx.users[1], &[ix], &[&ctx.users[1]]).unwrap_err();

    assert_eq!(
        err.err,
        TransactionError::InstructionError(0, InstructionError::InvalidArgument)
    );
}

#[test]
fn test_skim_invalid_vault1_reverted() {
    let (mut svm, ctx) = setup();
    bootstrap_pair(&mut svm, &ctx);
    add_initial_liquidity(&mut svm, &ctx);

    let mut ix = create_skim_ix(&ctx, &ctx.users[0]);
    ix.accounts[8].pubkey = ctx.vault0;
    let err =
        send_signed_transaction(&mut svm, &ctx.users[1], &[ix], &[&ctx.users[1]]).unwrap_err();

    assert_eq!(
        err.err,
        TransactionError::InstructionError(0, InstructionError::InvalidArgument)
    );
}

#[test]
fn test_skim_invalid_token0_mint_reverted() {
    let err = skim_with_fresh_account(3);
    assert_eq!(
        err.err,
        TransactionError::InstructionError(0, InstructionError::InvalidArgument)
    );
}

#[test]
fn test_skim_invalid_token1_mint_reverted() {
    let err = skim_with_fresh_account(4);
    assert_eq!(
        err.err,
        TransactionError::InstructionError(0, InstructionError::InvalidArgument)
    );
}

#[test]
fn test_skim_invalid_recipient_token0_ata_reverted() {
    let (mut svm, ctx) = setup();
    bootstrap_pair(&mut svm, &ctx);
    add_initial_liquidity(&mut svm, &ctx);

    let mut ix = create_skim_ix(&ctx, &ctx.users[0]);
    ix.accounts[5].pubkey = ctx.user_token1[0];
    let err =
        send_signed_transaction(&mut svm, &ctx.users[1], &[ix], &[&ctx.users[1]]).unwrap_err();

    assert_eq!(
        err.err,
        TransactionError::InstructionError(0, InstructionError::InvalidArgument)
    );
}

#[test]
fn test_skim_invalid_recipient_token1_ata_reverted() {
    let (mut svm, ctx) = setup();
    bootstrap_pair(&mut svm, &ctx);
    add_initial_liquidity(&mut svm, &ctx);

    let mut ix = create_skim_ix(&ctx, &ctx.users[0]);
    ix.accounts[6].pubkey = ctx.user_token0[0];
    let err =
        send_signed_transaction(&mut svm, &ctx.users[1], &[ix], &[&ctx.users[1]]).unwrap_err();

    assert_eq!(
        err.err,
        TransactionError::InstructionError(0, InstructionError::InvalidArgument)
    );
}

#[test]
fn test_skim_missing_payer_signature_reverted_when_creating_ata() {
    let (mut svm, ctx) = setup();
    bootstrap_pair(&mut svm, &ctx);
    add_initial_liquidity(&mut svm, &ctx);

    let recipient = new_unique();
    svm.airdrop(&recipient, 1_000_000_000);
    transfer_tokens(&mut svm, &ctx.users[1], &ctx.user_token0[1], &ctx.vault0, &ctx.users[1], 50_000);
    transfer_tokens(&mut svm, &ctx.users[1], &ctx.user_token1[1], &ctx.vault1, &ctx.users[1], 25_000);

    let mut ix = create_skim_ix(&ctx, &recipient);
    ix.accounts[0].pubkey = ctx.users[0];
    ix.accounts[0].is_signer = false;
    let err =
        send_signed_transaction(&mut svm, &ctx.users[1], &[ix], &[&ctx.users[1]]).unwrap_err();

    assert_eq!(
        err.err,
        TransactionError::InstructionError(0, InstructionError::MissingRequiredSignature)
    );
}

#[test]
fn test_skim_recipient_token0_owner_mismatch_reverted() {
    let (mut svm, ctx) = setup();
    bootstrap_pair(&mut svm, &ctx);
    add_initial_liquidity(&mut svm, &ctx);

    let wrong_owner_token0 = svm.get_account(&ctx.user_token0[1]).unwrap();
    seed_account(&mut svm, ctx.user_token0[0], wrong_owner_token0);

    let ix = create_skim_ix(&ctx, &ctx.users[0]);
    let err =
        send_signed_transaction(&mut svm, &ctx.users[1], &[ix], &[&ctx.users[1]]).unwrap_err();

    assert_eq!(
        err.err,
        TransactionError::InstructionError(0, InstructionError::Custom(0))
    );
}

#[test]
fn test_skim_recipient_token1_mint_mismatch_reverted() {
    let (mut svm, ctx) = setup();
    bootstrap_pair(&mut svm, &ctx);
    add_initial_liquidity(&mut svm, &ctx);

    let wrong_mint_token1 = svm.get_account(&ctx.user_token0[0]).unwrap();
    seed_account(&mut svm, ctx.user_token1[0], wrong_mint_token1);

    let ix = create_skim_ix(&ctx, &ctx.users[0]);
    let err =
        send_signed_transaction(&mut svm, &ctx.users[1], &[ix], &[&ctx.users[1]]).unwrap_err();

    assert_eq!(
        err.err,
        TransactionError::InstructionError(0, InstructionError::InvalidAccountData)
    );
}

// ---------------------------------------------------------------------------
// RemoveLiquidity
// ---------------------------------------------------------------------------

#[test]
fn test_remove_liquidity() {
    let (mut svm, ctx) = setup();
    bootstrap_pair(&mut svm, &ctx);
    let initial_timestamp = 5u64;
    let time_elapsed = 10u64;

    svm.set_unix_timestamp(initial_timestamp as i64);
    add_initial_liquidity(&mut svm, &ctx);
    svm.set_unix_timestamp((initial_timestamp + time_elapsed) as i64);

    let remove_ix = create_remove_liquidity_ix(&ctx, 0, expected_initial_user_lp(), 1, 1);
    send_signed_transaction(&mut svm, &ctx.users[0], &[remove_ix], &[&ctx.users[0]]).unwrap();

    let pair_state = get_pair_state(&svm, &ctx.pair);
    let payer_lp = get_ata(&ctx.users[0], &ctx.lp_mint);
    let user0_token0_balance = get_token_balance(&svm, &ctx.user_token0[0]);
    let user0_token1_balance = get_token_balance(&svm, &ctx.user_token1[0]);
    let vault0_balance = get_token_balance(&svm, &ctx.vault0);
    let vault1_balance = get_token_balance(&svm, &ctx.vault1);
    let payer_lp_balance = get_token_balance(&svm, &payer_lp);
    let locked_lp_balance = get_token_balance(&svm, &ctx.locked_lp);
    let lp_supply = get_mint_supply(&svm, &ctx.lp_mint);
    let expected_price0_cumulative = (1u128 << 64) * time_elapsed as u128;
    let expected_price1_cumulative = (1u128 << 64) * time_elapsed as u128;
    assert_eq!(user0_token0_balance, INITIAL_USER_FUNDS - MINIMUM_LIQUIDITY);
    assert_eq!(user0_token1_balance, INITIAL_USER_FUNDS - MINIMUM_LIQUIDITY);
    assert_eq!(vault0_balance, MINIMUM_LIQUIDITY);
    assert_eq!(vault1_balance, MINIMUM_LIQUIDITY);
    assert_eq!(payer_lp_balance, 0);
    assert_eq!(locked_lp_balance, MINIMUM_LIQUIDITY);
    assert_eq!(lp_supply, MINIMUM_LIQUIDITY);
    assert_eq!(pair_state.reserve0, MINIMUM_LIQUIDITY);
    assert_eq!(pair_state.reserve1, MINIMUM_LIQUIDITY);
    assert_eq!(pair_state.k_last, (MINIMUM_LIQUIDITY as u128) * (MINIMUM_LIQUIDITY as u128));
    assert_eq!(pair_state.price0_cumulative_last, expected_price0_cumulative);
    assert_eq!(pair_state.price1_cumulative_last, expected_price1_cumulative);
    assert_eq!(pair_state.block_timestamp_last, initial_timestamp + time_elapsed);
}

#[test]
fn test_remove_liquidity_mints_protocol_fee_before_burn() {
    let (mut svm, ctx) = setup();
    bootstrap_pair(&mut svm, &ctx);
    add_initial_liquidity(&mut svm, &ctx);

    let amount_in = 1_000_000;
    let amount1_out = compute_swap_amount_out(amount_in, INITIAL_LIQUIDITY, INITIAL_LIQUIDITY);
    let transfer_ix = token_transfer_ix(&ctx.user_token0[1], &ctx.vault0, &ctx.users[1], amount_in);
    let swap_ix = create_swap_ix(&ctx, 1, 0, amount1_out);
    send_signed_transaction(&mut svm, &ctx.users[1], &[transfer_ix, swap_ix], &[&ctx.users[1]])
        .unwrap();

    let pair_before = get_pair_state(&svm, &ctx.pair);
    let total_supply_before = get_mint_supply(&svm, &ctx.lp_mint);
    let root_k = sqrt_u128((pair_before.reserve0 as u128) * (pair_before.reserve1 as u128));
    let root_k_last = sqrt_u128(pair_before.k_last);
    let expected_fee_lp =
        ((total_supply_before as u128) * (root_k - root_k_last)) / ((root_k * 5) + root_k_last);
    assert!(expected_fee_lp > 0);

    let liquidity_to_burn = expected_initial_user_lp() / 10;
    let total_supply_after_fee = total_supply_before + expected_fee_lp as u64;
    let expected_amount0 = ((liquidity_to_burn as u128) * (pair_before.reserve0 as u128)
        / (total_supply_after_fee as u128)) as u64;
    let expected_amount1 = ((liquidity_to_burn as u128) * (pair_before.reserve1 as u128)
        / (total_supply_after_fee as u128)) as u64;
    let user0_lp_before = get_token_balance(&svm, &get_ata(&ctx.users[0], &ctx.lp_mint));
    let user0_token0_before = get_token_balance(&svm, &ctx.user_token0[0]);
    let user0_token1_before = get_token_balance(&svm, &ctx.user_token1[0]);

    let remove_ix = create_remove_liquidity_ix(&ctx, 0, liquidity_to_burn, 1, 1);
    send_signed_transaction(&mut svm, &ctx.users[0], &[remove_ix], &[&ctx.users[0]]).unwrap();

    let pair_after = get_pair_state(&svm, &ctx.pair);
    let user0_lp = get_ata(&ctx.users[0], &ctx.lp_mint);
    let user0_lp_after = get_token_balance(&svm, &user0_lp);
    let admin_lp_balance = get_token_balance(&svm, &ctx.admin_lp);
    let total_supply_after = get_mint_supply(&svm, &ctx.lp_mint);
    assert_eq!(admin_lp_balance, expected_fee_lp as u64);
    assert_eq!(user0_lp_after, user0_lp_before - liquidity_to_burn);
    assert_eq!(get_token_balance(&svm, &ctx.user_token0[0]), user0_token0_before + expected_amount0);
    assert_eq!(get_token_balance(&svm, &ctx.user_token1[0]), user0_token1_before + expected_amount1);
    assert_eq!(total_supply_after, total_supply_before + expected_fee_lp as u64 - liquidity_to_burn);
    assert_eq!(pair_after.k_last, (pair_after.reserve0 as u128) * (pair_after.reserve1 as u128));
}

#[test]
fn test_remove_liquidity_missing_signer_reverted() {
    let (mut svm, ctx) = setup();
    bootstrap_pair(&mut svm, &ctx);
    add_initial_liquidity(&mut svm, &ctx);

    let mut ix = create_remove_liquidity_ix(&ctx, 0, 1, 1, 1);
    ix.accounts[0].is_signer = false;
    let err =
        send_signed_transaction(&mut svm, &ctx.users[1], &[ix], &[&ctx.users[1]]).unwrap_err();

    assert_eq!(
        err.err,
        TransactionError::InstructionError(0, InstructionError::MissingRequiredSignature)
    );
}

/// Removes one LP token after the first deposit, with one account of the
/// instruction replaced by a fresh address.
fn remove_with_fresh_account(index: usize) -> FailedTransaction {
    let (mut svm, ctx) = setup();
    bootstrap_pair(&mut svm, &ctx);
    add_initial_liquidity(&mut svm, &ctx);

    let mut ix = create_remove_liquidity_ix(&ctx, 0, 1, 1, 1);
    ix.accounts[index].pubkey = new_unique();
    send_signed_transaction(&mut svm, &ctx.users[0], &[ix], &[&ctx.users[0]]).unwrap_err()
}

#[test]
fn test_remove_liquidity_invalid_system_program_reverted() {
    let err = remove_with_fresh_account(14);
    assert_eq!(
        err.err,
        TransactionError::InstructionError(0, InstructionError::IncorrectProgramId)
    );
}

#[test]
fn test_remove_liquidity_invalid_token_program_reverted() {
    let err = remove_with_fresh_account(12);
    assert_eq!(
        err.err,
        TransactionError::InstructionError(0, InstructionError::IncorrectProgramId)
    );
}

#[test]
fn test_remove_liquidity_invalid_ata_program_reverted() {
    let err = remove_with_fresh_account(13);
    assert_eq!(
        err.err,
        TransactionError::InstructionError(0, InstructionError::IncorrectProgramId)
    );
}

#[test]
fn test_remove_liquidity_invalid_rent_sysvar_reverted() {
    let err = remove_with_fresh_account(15);
    assert_eq!(
        err.err,
        TransactionError::InstructionError(0, InstructionError::InvalidAccountData)
    );
}

#[test]
fn test_remove_liquidity_zero_liquidity_reverted() {
    let (mut svm, ctx) = setup();
    bootstrap_pair(&mut svm, &ctx);

    let ix = create_remove_liquidity_ix(&ctx, 0, 0, 1, 1);
    let err =
        send_signed_transaction(&mut svm, &ctx.users[0], &[ix], &[&ctx.users[0]]).unwrap_err();

    assert_eq!(
        err.err,
        TransactionError::InstructionError(0, InstructionError::InvalidArgument)
    );
}

#[test]
fn test_remove_liquidity_pair_owner_mismatch_reverted() {
    let (mut svm, ctx) = setup();
    bootstrap_pair(&mut svm, &ctx);
    add_initial_liquidity(&mut svm, &ctx);

    let mut pair_account = svm.get_account(&ctx.pair).unwrap();
    pair_account.owner = new_unique();
    seed_account(&mut svm, ctx.pair, pair_account);

    let ix = create_remove_liquidity_ix(&ctx, 0, 1, 1, 1);
    let err =
        send_signed_transaction(&mut svm, &ctx.users[0], &[ix], &[&ctx.users[0]]).unwrap_err();

    assert_eq!(
        err.err,
        TransactionError::InstructionError(0, InstructionError::IllegalOwner)
    );
}

#[test]
fn test_remove_liquidity_pair_not_initialized_reverted() {
    let (mut svm, ctx) = setup();
    bootstrap_pair(&mut svm, &ctx);

    let mut pair_state = get_pair_state(&svm, &ctx.pair);
    pair_state.is_initialized = false;
    seed_pair_state(&mut svm, ctx.pair, &pair_state, ctx.program_id);

    let ix = create_remove_liquidity_ix(&ctx, 0, 1, 1, 1);
    let err =
        send_signed_transaction(&mut svm, &ctx.users[0], &[ix], &[&ctx.users[0]]).unwrap_err();

    assert_eq!(
        err.err,
        TransactionError::InstructionError(0, InstructionError::UninitializedAccount)
    );
}

#[test]
fn test_remove_liquidity_pair_factory_mismatch_reverted() {
    let (mut svm, ctx) = setup();
    bootstrap_pair(&mut svm, &ctx);
    add_initial_liquidity(&mut svm, &ctx);

    let mut pair_state = get_pair_state(&svm, &ctx.pair);
    pair_state.factory = key(&new_unique());
    seed_pair_state(&mut svm, ctx.pair, &pair_state, ctx.program_id);

    let ix = create_remove_liquidity_ix(&ctx, 0, 1, 1, 1);
    let err =
        send_signed_transaction(&mut svm, &ctx.users[0], &[ix], &[&ctx.users[0]]).unwrap_err();

    assert_eq!(
        err.err,
        TransactionError::InstructionError(0, InstructionError::InvalidAccountData)
    );
}

#[test]
fn test_remove_liquidity_invalid_pair_pda_reverted() {
    let (mut svm, ctx) = setup();
    bootstrap_pair(&mut svm, &ctx);
    add_initial_liquidity(&mut svm, &ctx);

    let fake_pair = new_unique();
    let pair_state = get_pair_state(&svm, &ctx.pair);
    seed_pair_state(&mut svm, fake_pair, &pair_state, ctx.program_id);

    let mut ix = create_remove_liquidity_ix(&ctx, 0, 1, 1, 1);
    ix.accounts[1].pubkey = fake_pair;
    let err =
        send_signed_transaction(&mut svm, &ctx.users[0], &[ix], &[&ctx.users[0]]).unwrap_err();

    assert_eq!(
        err.err,
        TransactionError::InstructionError(0, InstructionError::InvalidSeeds)
    );
}

#[test]
fn test_remove_liquidity_invalid_vault_linkage_reverted() {
    let err = remove_with_fresh_account(6);
    assert_eq!(
        err.err,
        TransactionError::InstructionError(0, InstructionError::InvalidArgument)
    );
}

#[test]
fn test_remove_liquidity_invalid_lp_mint_linkage_reverted() {
    let err = remove_with_fresh_account(8);
    assert_eq!(
        err.err,
        TransactionError::InstructionError(0, InstructionError::InvalidArgument)
    );
}

#[test]
fn test_remove_liquidity_invalid_token0_mint_reverted() {
    let err = remove_with_fresh_account(2);
    assert_eq!(
        err.err,
        TransactionError::InstructionError(0, InstructionError::InvalidArgument)
    );
}

#[test]
fn test_remove_liquidity_invalid_token1_mint_reverted() {
    let err = remove_with_fresh_account(3);
    assert_eq!(
        err.err,
        TransactionError::InstructionError(0, InstructionError::InvalidArgument)
    );
}

#[test]
fn test_remove_liquidity_wrong_payer_token0_account_reverted() {
    let (mut svm, ctx) = setup();
    bootstrap_pair(&mut svm, &ctx);
    add_initial_liquidity(&mut svm, &ctx);

    let mut ix = create_remove_liquidity_ix(&ctx, 0, 1, 1, 1);
    ix.accounts[4].pubkey = ctx.user_token0[1];
    let err =
        send_signed_transaction(&mut svm, &ctx.users[0], &[ix], &[&ctx.users[0]]).unwrap_err();

    assert_eq!(
        err.err,
        TransactionError::InstructionError(0, InstructionError::InvalidArgument)
    );
}

#[test]
fn test_remove_liquidity_wrong_payer_token1_mint_reverted() {
    let (mut svm, ctx) = setup();
    bootstrap_pair(&mut svm, &ctx);
    add_initial_liquidity(&mut svm, &ctx);

    let mut ix = create_remove_liquidity_ix(&ctx, 0, 1, 1, 1);
    ix.accounts[5].pubkey = ctx.user_token0[0];
    let err =
        send_signed_transaction(&mut svm, &ctx.users[0], &[ix], &[&ctx.users[0]]).unwrap_err();

    assert_eq!(
        err.err,
        TransactionError::InstructionError(0, InstructionError::InvalidArgument)
    );
}

#[test]
fn test_remove_liquidity_lp_mint_owner_mismatch_reverted() {
    let (mut svm, ctx) = setup();
    bootstrap_pair(&mut svm, &ctx);
    add_initial_liquidity(&mut svm, &ctx);

    let mut lp_mint_account = svm.get_account(&ctx.lp_mint).unwrap();
    lp_mint_account.owner = new_unique();
    seed_account(&mut svm, ctx.lp_mint, lp_mint_account);

    let ix = create_remove_liquidity_ix(&ctx, 0, 1, 1, 1);
    let err =
        send_signed_transaction(&mut svm, &ctx.users[0], &[ix], &[&ctx.users[0]]).unwrap_err();

    assert_eq!(
        err.err,
        TransactionError::InstructionError(0, InstructionError::IllegalOwner)
    );
}

#[test]
fn test_remove_liquidity_invalid_fee_recipient_reverted() {
    let err = remove_with_fresh_account(10);
    assert_eq!(
        err.err,
        TransactionError::InstructionError(0, InstructionError::InvalidArgument)
    );
}

#[test]
fn test_remove_liquidity_zero_vault_balance_reverted() {
    let (mut svm, ctx) = setup();
    bootstrap_pair(&mut svm, &ctx);

    let ix = create_remove_liquidity_ix(&ctx, 0, 1, 1, 1);
    let err =
        send_signed_transaction(&mut svm, &ctx.users[0], &[ix], &[&ctx.users[0]]).unwrap_err();

    assert_eq!(
        err.err,
        TransactionError::InstructionError(0, InstructionError::InvalidAccountData)
    );
}

#[test]
fn test_remove_liquidity_zero_lp_supply_reverted() {
    let (mut svm, ctx) = setup();
    bootstrap_pair(&mut svm, &ctx);
    create_ata(&mut svm, &ctx.users[0], &ctx.users[0], &ctx.lp_mint);
    transfer_tokens(&mut svm, &ctx.users[1], &ctx.user_token0[1], &ctx.vault0, &ctx.users[1], 1);
    transfer_tokens(&mut svm, &ctx.users[1], &ctx.user_token1[1], &ctx.vault1, &ctx.users[1], 1);

    let ix = create_remove_liquidity_ix(&ctx, 0, 1, 1, 1);
    let err =
        send_signed_transaction(&mut svm, &ctx.users[0], &[ix], &[&ctx.users[0]]).unwrap_err();

    assert_eq!(
        err.err,
        TransactionError::InstructionError(0, InstructionError::InvalidAccountData)
    );
}

#[test]
fn test_remove_liquidity_cannot_burn_entire_supply_reverted() {
    let (mut svm, ctx) = setup();
    bootstrap_pair(&mut svm, &ctx);
    add_initial_liquidity(&mut svm, &ctx);

    let ix = create_remove_liquidity_ix(&ctx, 0, get_mint_supply(&svm, &ctx.lp_mint), 1, 1);
    let err =
        send_signed_transaction(&mut svm, &ctx.users[0], &[ix], &[&ctx.users[0]]).unwrap_err();

    assert_eq!(
        err.err,
        TransactionError::InstructionError(0, InstructionError::InvalidArgument)
    );
}

#[test]
fn test_remove_liquidity_withdrawal_below_min_reverted() {
    let (mut svm, ctx) = setup();
    bootstrap_pair(&mut svm, &ctx);
    add_initial_liquidity(&mut svm, &ctx);

    let ix = create_remove_liquidity_ix(
        &ctx,
        0,
        expected_initial_user_lp(),
        INITIAL_LIQUIDITY,
        INITIAL_LIQUIDITY,
    );
    let err =
        send_signed_transaction(&mut svm, &ctx.users[0], &[ix], &[&ctx.users[0]]).unwrap_err();

    assert_eq!(
        err.err,
        TransactionError::InstructionError(0, InstructionError::InvalidArgument)
    );
}

#[test]
fn test_remove_liquidity_invalid_clock_sysvar_reverted() {
    let err = remove_with_fresh_account(16);
    assert_eq!(
        err.err,
        TransactionError::InstructionError(0, InstructionError::InvalidAccountData)
    );
}

// ---------------------------------------------------------------------------
// Further scenarios
// ---------------------------------------------------------------------------

#[test]
fn second_deposit_mints_proportional_share() {
    let (mut svm, ctx) = setup();
    bootstrap_pair(&mut svm, &ctx);
    add_initial_liquidity(&mut svm, &ctx);

    let add_ix = create_add_liquidity_ix(&ctx, 1, 1_000_000, 3_000_000, 1_000_000, 1_000_000);
    send_signed_transaction(&mut svm, &ctx.users[1], &[add_ix], &[&ctx.users[1]]).unwrap();

    let pair_state = get_pair_state(&svm, &ctx.pair);
    let user1_lp = get_ata(&ctx.users[1], &ctx.lp_mint);
    assert_eq!(get_token_balance(&svm, &user1_lp), 1_000_000);
    assert_eq!(get_mint_supply(&svm, &ctx.lp_mint), INITIAL_LIQUIDITY + 1_000_000);
    assert_eq!(get_token_balance(&svm, &ctx.user_token1[1]), INITIAL_USER_FUNDS - 1_000_000);
    assert_eq!(pair_state.reserve0, INITIAL_LIQUIDITY + 1_000_000);
    assert_eq!(pair_state.reserve1, INITIAL_LIQUIDITY + 1_000_000);
    assert_eq!(pair_state.k_last, (pair_state.reserve0 as u128) * (pair_state.reserve1 as u128));
}

#[test]
fn deposit_below_minimum_is_reverted_atomically() {
    let (mut svm, ctx) = setup();
    bootstrap_pair(&mut svm, &ctx);
    add_initial_liquidity(&mut svm, &ctx);
    let before = svm.accounts.clone();

    let add_ix = create_add_liquidity_ix(&ctx, 1, 1_000_000, 3_000_000, 1_000_000, 2_000_000);
    let err =
        send_signed_transaction(&mut svm, &ctx.users[1], &[add_ix], &[&ctx.users[1]]).unwrap_err();

    assert_eq!(
        err.err,
        TransactionError::InstructionError(0, InstructionError::InvalidArgument)
    );
    assert!(svm.accounts == before);
}

#[test]
fn protocol_fee_is_minted_on_deposit_after_growth() {
    let (mut svm, ctx) = setup();
    bootstrap_pair(&mut svm, &ctx);
    add_initial_liquidity(&mut svm, &ctx);

    let amount_in = 1_000_000;
    let amount1_out = compute_swap_amount_out(amount_in, INITIAL_LIQUIDITY, INITIAL_LIQUIDITY);
    let transfer_ix = token_transfer_ix(&ctx.user_token0[1], &ctx.vault0, &ctx.users[1], amount_in);
    let swap_ix = create_swap_ix(&ctx, 1, 0, amount1_out);
    send_signed_transaction(&mut svm, &ctx.users[1], &[transfer_ix, swap_ix], &[&ctx.users[1]])
        .unwrap();

    let pair_before = get_pair_state(&svm, &ctx.pair);
    let supply_before = get_mint_supply(&svm, &ctx.lp_mint) as u128;
    let root_k = sqrt_u128((pair_before.reserve0 as u128) * (pair_before.reserve1 as u128));
    let root_k_last = sqrt_u128(pair_before.k_last);
    let expected_fee = supply_before * (root_k - root_k_last) / (root_k * 5 + root_k_last);
    assert!(expected_fee > 0);

    let add_ix = create_add_liquidity_ix(&ctx, 1, 100_000, 100_000, 1, 1);
    send_signed_transaction(&mut svm, &ctx.users[1], &[add_ix], &[&ctx.users[1]]).unwrap();

    assert_eq!(get_token_balance(&svm, &ctx.admin_lp) as u128, expected_fee);
}

#[test]
fn skim_without_excess_moves_nothing() {
    let (mut svm, ctx) = setup();
    bootstrap_pair(&mut svm, &ctx);
    add_initial_liquidity(&mut svm, &ctx);
    let before0 = get_token_balance(&svm, &ctx.user_token0[0]);
    let before1 = get_token_balance(&svm, &ctx.user_token1[0]);

    let skim_ix = create_skim_ix(&ctx, &ctx.users[0]);
    send_signed_transaction(&mut svm, &ctx.users[1], &[skim_ix], &[&ctx.users[1]]).unwrap();

    assert_eq!(get_token_balance(&svm, &ctx.user_token0[0]), before0);
    assert_eq!(get_token_balance(&svm, &ctx.user_token1[0]), before1);
    assert_eq!(get_token_balance(&svm, &ctx.vault0), INITIAL_LIQUIDITY);
}

#[test]
fn undecodable_instruction_data_is_refused() {
    let (mut svm, ctx) = setup();
    let mut ix = create_sync_ix(&ctx);
    ix.data = vec![9u8];
    let err = send_admin_transaction(&mut svm, ctx.admin, &[ix]).unwrap_err();
    assert_eq!(
        err.err,
        TransactionError::InstructionError(0, InstructionError::BorshIoError)
    );
}

#[test]
fn sync_with_too_few_accounts_is_refused() {
    let (mut svm, ctx) = setup();
    bootstrap_pair(&mut svm, &ctx);
    let mut ix = create_sync_ix(&ctx);
    ix.accounts.truncate(3);
    let err = send_admin_transaction(&mut svm, ctx.admin, &[ix]).unwrap_err();
    assert_eq!(
        err.err,
        TransactionError::InstructionError(0, InstructionError::NotEnoughAccountKeys)
    );
}

#[test]
fn stage_of_another_instruction_is_refused() {
    let (svm, _ctx) = setup();
    let data = Cmd::Sync.to_bytes();
    let stage = Stage::InitFactory(InitFactoryStage::Write);
    let r = process_instruction(&svm.env(), &Vec::new(), &data, stage);
    assert_eq!(r.err(), Some(AmmError::InvalidInstructionData));
}

#[test]
fn init_factory_without_rent_is_refused() {
    let (svm, ctx) = setup();
    let ix = create_init_factory_ix(&ctx);
    let mut signers: HashSet<Pubkey> = HashSet::new();
    signers.insert(ctx.admin);
    let views: Vec<AccountView> =
        ix.accounts.iter().map(|m| svm.view(&svm.accounts, m, &signers)).collect();
    let mut env = svm.env();
    env.rent = None;
    let r = process_instruction(&env, &views, &ix.data, Stage::Begin);
    assert_eq!(r.err(), Some(AmmError::UnsupportedSysvar));
}

#[test]
fn create_pair_with_mints_exchanged_makes_the_same_pair() {
    let (mut svm, ctx) = setup();
    bootstrap_factory(&mut svm, &ctx);

    let mut ix = create_create_pair_ix(&ctx);
    ix.accounts[3].pubkey = ctx.mint_b;
    ix.accounts[4].pubkey = ctx.mint_a;
    ix.accounts[5].pubkey = ctx.vault1;
    ix.accounts[6].pubkey = ctx.vault0;
    send_admin_transaction(&mut svm, ctx.admin, &[ix]).unwrap();

    let pair_state = get_pair_state(&svm, &ctx.pair);
    assert_eq!(address(&pair_state.token0_mint), ctx.mint0);
    assert_eq!(address(&pair_state.token1_mint), ctx.mint1);
    assert_eq!(address(&pair_state.vault0), ctx.vault0);
    assert_eq!(address(&pair_state.vault1), ctx.vault1);
    assert!(ctx.mint0.to_bytes() < ctx.mint1.to_bytes());
}

#[test]
fn full_lifecycle_steps_within_bounds() {
    let (mut svm, ctx) = setup();
    bootstrap_pair(&mut svm, &ctx);
    svm.set_unix_timestamp(100);
    add_initial_liquidity(&mut svm, &ctx);

    let amount_in = 250_000;
    let amount1_out = compute_swap_amount_out(amount_in, INITIAL_LIQUIDITY, INITIAL_LIQUIDITY);
    let transfer_ix = token_transfer_ix(&ctx.user_token0[1], &ctx.vault0, &ctx.users[1], amount_in);
    let swap_ix = create_swap_ix(&ctx, 1, 0, amount1_out);
    svm.set_unix_timestamp(110);
    send_signed_transaction(&mut svm, &ctx.users[1], &[transfer_ix, swap_ix], &[&ctx.users[1]])
        .unwrap();

    let add_ix = create_add_liquidity_ix(&ctx, 1, 100_000, 100_000, 1, 1);
    send_signed_transaction(&mut svm, &ctx.users[1], &[add_ix], &[&ctx.users[1]]).unwrap();

    let user1_lp = get_token_balance(&svm, &get_ata(&ctx.users[1], &ctx.lp_mint));
    let remove_ix = create_remove_liquidity_ix(&ctx, 1, user1_lp, 1, 1);
    send_signed_transaction(&mut svm, &ctx.users[1], &[remove_ix], &[&ctx.users[1]]).unwrap();

    transfer_tokens(&mut svm, &ctx.users[1], &ctx.user_token0[1], &ctx.vault0, &ctx.users[1], 5);
    let recipient = new_unique();
    let skim_ix = create_skim_ix(&ctx, &recipient);
    send_signed_transaction(&mut svm, &ctx.users[1], &[skim_ix], &[&ctx.users[1]]).unwrap();
    assert_eq!(get_token_balance(&svm, &get_ata(&recipient, &ctx.mint0)), 5);

    svm.set_unix_timestamp(120);
    send_signed_transaction(&mut svm, &ctx.users[1], &[create_sync_ix(&ctx)], &[&ctx.users[1]])
        .unwrap();
    let pair_state = get_pair_state(&svm, &ctx.pair);
    assert_eq!(pair_state.reserve0, get_token_balance(&svm, &ctx.vault0));
    assert_eq!(pair_state.reserve1, get_token_balance(&svm, &ctx.vault1));
    assert_eq!(pair_state.block_timestamp_last, 120);
}

#[test]
fn second_skim_moves_nothing() {
    let (mut svm, ctx) = setup();
    bootstrap_pair(&mut svm, &ctx);
    add_initial_liquidity(&mut svm, &ctx);
    transfer_tokens(&mut svm, &ctx.users[1], &ctx.user_token0[1], &ctx.vault0, &ctx.users[1], 7_000);

    let skim_ix = create_skim_ix(&ctx, &ctx.users[0]);
    send_signed_transaction(&mut svm, &ctx.users[1], &[skim_ix], &[&ctx.users[1]]).unwrap();
    let after_first = svm.accounts.clone();

    let skim_ix = create_skim_ix(&ctx, &ctx.users[0]);
    send_signed_transaction(&mut svm, &ctx.users[1], &[skim_ix], &[&ctx.users[1]]).unwrap();
    assert!(svm.accounts == after_first);
    assert_eq!(get_token_balance(&svm, &ctx.vault0), INITIAL_LIQUIDITY);
}

#[test]
fn create_pair_with_only_mints_exchanged_makes_the_same_pair() {
    let (mut svm, ctx) = setup();
    bootstrap_factory(&mut svm, &ctx);

    let mut ix = create_create_pair_ix(&ctx);
    ix.accounts[3].pubkey = ctx.mint_b;
    ix.accounts[4].pubkey = ctx.mint_a;
    send_admin_transaction(&mut svm, ctx.admin, &[ix]).unwrap();

    let pair_state = get_pair_state(&svm, &ctx.pair);
    assert_eq!(address(&pair_state.token0_mint), ctx.mint0);
    assert_eq!(address(&pair_state.token1_mint), ctx.mint1);
    assert_eq!(address(&pair_state.vault0), ctx.vault0);
    assert_eq!(address(&pair_state.vault1), ctx.vault1);
}

#[test]
fn second_init_after_pairs_is_refused_and_keeps_state() {
    let (mut svm, ctx) = setup();
    bootstrap_pair(&mut svm, &ctx);
    let before = svm.get_account(&ctx.factory).unwrap();

    let err =
        send_admin_transaction(&mut svm, ctx.admin, &[create_init_factory_ix(&ctx)]).unwrap_err();

    assert_eq!(
        err.err,
        TransactionError::InstructionError(0, InstructionError::AccountAlreadyInitialized)
    );
    assert_eq!(svm.get_account(&ctx.factory).unwrap(), before);
    assert_eq!(get_factory_state(&svm, &ctx.factory).pair_count, 1);
}
