use vstd::prelude::*;

use crate::address::{
    bump_search,
    canonical_address,
    create_program_address,
    program_address,
    seeds_view,
    try_find_program_address,
    Address,
};
use crate::error::MigrateError;
use crate::strategy::{pow10, withdraw_amount_spec, Strategy};

verus! {

/// The tag that opens every vault's seeds: the bytes of `vault`.
pub open spec fn vault_tag() -> Seq<u8> {
    seq![118u8, 97u8, 117u8, 108u8, 116u8]
}

fn vault_tag_bytes() -> (r: Vec<u8>)
    ensures
        r@ == vault_tag(),
{
    let mut v: Vec<u8> = Vec::new();
    v.push(118u8);
    v.push(97u8);
    v.push(117u8);
    v.push(108u8);
    v.push(116u8);
    assert(v@ =~= vault_tag());
    v
}

/// What a vault's address is derived from: the tag, its creator and its
/// mint pair. Creation and every withdrawal rebuild the seeds here.
#[derive(Clone, Copy, Debug)]
pub struct VaultSeeds {
    pub admin: Address,
    pub mint_from: Address,
    pub mint_to: Address,
}

impl VaultSeeds {
    /// The seeds without the bump.
    pub open spec fn seed_list(&self) -> Seq<Seq<u8>> {
        seq![vault_tag(), self.admin@, self.mint_from@, self.mint_to@]
    }

    /// The seeds with which the vault signs: those of `seed_list` and the bump.
    pub open spec fn signer_seed_list(&self, bump: u8) -> Seq<Seq<u8>> {
        self.seed_list().push(seq![bump])
    }

    pub fn seeds(&self) -> (r: Vec<Vec<u8>>)
        ensures
            seeds_view(r@) == self.seed_list(),
    {
        let mut v: Vec<Vec<u8>> = Vec::new();
        v.push(vault_tag_bytes());
        v.push(self.admin.to_vec());
        v.push(self.mint_from.to_vec());
        v.push(self.mint_to.to_vec());
        assert(seeds_view(v@) =~= self.seed_list());
        v
    }

    pub fn signer_seeds(&self, bump: u8) -> (r: Vec<Vec<u8>>)
        ensures
            seeds_view(r@) == self.signer_seed_list(bump),
    {
        let mut v = self.seeds();
        let mut b: Vec<u8> = Vec::new();
        b.push(bump);
        proof {
            assert(b@ =~= seq![bump]);
        }
        let ghost before = v@;
        v.push(b);
        assert(seeds_view(v@) =~= seeds_view(before).push(seq![bump]));
        v
    }

    /// The canonical vault address of these seeds and its bump.
    pub fn find_address(&self, program_id: &Address) -> (r: Option<(Address, u8)>)
        ensures
            match r {
                Some((a, b)) => canonical_address(self.seed_list(), program_id@) == Some((a@, b)),
                None => canonical_address(self.seed_list(), program_id@) is None,
            },
    {
        let seeds = self.seeds();
        try_find_program_address(&seeds, program_id)
    }

    /// The address that these seeds with `bump` derive: the identity as
    /// which the vault signs.
    pub fn signer_address(&self, bump: u8, program_id: &Address) -> (r: Option<Address>)
        ensures
            match r {
                Some(a) => program_address(self.signer_seed_list(bump), program_id@) == Some(a@),
                None => program_address(self.signer_seed_list(bump), program_id@) is None,
            },
    {
        let seeds = self.signer_seeds(bump);
        let ghost s = self.signer_seed_list(bump);
        assert(s[0].len() == 5);
        assert(s[1].len() == 32);
        assert(s[2].len() == 32);
        assert(s[3].len() == 32);
        assert(s[4].len() == 1);
        create_program_address(&seeds, program_id)
    }
}

/// The configuration record of a vault. Immutable once created.
#[derive(Clone, Copy, Debug)]
pub struct Vault {
    pub admin: Address,
    pub mint_from: Address,
    pub mint_to: Address,
    pub strategy: Strategy,
    pub bump: [u8; 1],
}

impl Vault {
    pub open spec fn seeds_spec(&self) -> VaultSeeds {
        VaultSeeds { admin: self.admin, mint_from: self.mint_from, mint_to: self.mint_to }
    }

    pub fn seeds(&self) -> (r: VaultSeeds)
        ensures
            r == self.seeds_spec(),
    {
        VaultSeeds { admin: self.admin, mint_from: self.mint_from, mint_to: self.mint_to }
    }
}

/// A custody account: a balance of one mint held by one owner.
#[derive(Clone, Copy, Debug)]
pub struct TokenAccount {
    pub owner: Address,
    pub mint: Address,
    pub amount: u64,
}

/// A token type and its total issued supply.
#[derive(Clone, Copy, Debug)]
pub struct Mint {
    pub key: Address,
    pub supply: u64,
}

/// The record of one executed migration.
#[derive(Clone, Copy, Debug)]
pub struct MigrateEvent {
    pub user: Address,
    pub mint_from: Address,
    pub mint_to: Address,
    pub deposit_amount: u64,
    pub withdraw_amount: u64,
}

/// The accounts of a migration, as the ledger presents them: the user, both
/// mints, the user's and the vault's custody accounts, and the vault record
/// with the address it is presented at.
#[derive(Clone, Copy, Debug)]
pub struct Migrate {
    pub program_id: Address,
    pub user: Address,
    pub mint_from: Mint,
    pub mint_to: Mint,
    pub user_from_ta: TokenAccount,
    pub user_to_ta: TokenAccount,
    pub vault_from_ata: TokenAccount,
    pub vault_to_ata: TokenAccount,
    pub vault_key: Address,
    pub vault: Vault,
}

impl Migrate {
    /// Every presented account belongs where it should: the mints are the
    /// vault's own pair, each custody account has the expected owner and mint,
    /// and the vault's seeds with its bump derive the vault's address. The
    /// four custody accounts are distinct, as distinct mints and a user other
    /// than the vault make them.
    pub open spec fn accounts_valid(&self) -> bool {
        &&& self.vault.mint_from@ == self.mint_from.key@
        &&& self.vault.mint_to@ == self.mint_to.key@
        &&& self.mint_from.key@ != self.mint_to.key@
        &&& self.user@ != self.vault_key@
        &&& self.user_from_ta.owner@ == self.user@
        &&& self.user_from_ta.mint@ == self.mint_from.key@
        &&& self.user_to_ta.owner@ == self.user@
        &&& self.user_to_ta.mint@ == self.mint_to.key@
        &&& self.vault_from_ata.owner@ == self.vault_key@
        &&& self.vault_from_ata.mint@ == self.mint_from.key@
        &&& self.vault_to_ata.owner@ == self.vault_key@
        &&& self.vault_to_ata.mint@ == self.mint_to.key@
        &&& program_address(self.vault.seeds_spec().signer_seed_list(self.vault.bump[0]), self.program_id@)
            == Some(self.vault_key@)
    }

    /// The circulating supply of the old token: what the vault holds of it
    /// counts as burnt.
    pub open spec fn supply_from_spec(&self) -> u64 {
        if self.mint_from.supply >= self.vault_from_ata.amount {
            (self.mint_from.supply - self.vault_from_ata.amount) as u64
        } else {
            0
        }
    }

    /// The outcome of migrating `amount`: the withdrawal, or why the
    /// instruction is refused. Account checks come first, then the strategy,
    /// then the deposit leg, then the withdrawal leg.
    pub open spec fn migrate_spec(&self, amount: u64) -> Result<u64, MigrateError> {
        if !self.accounts_valid() {
            Err(MigrateError::AccountMismatch)
        } else {
            match withdraw_amount_spec(self.vault.strategy, amount, self.supply_from_spec(), self.vault_to_ata.amount) {
                Err(e) => Err(e),
                Ok(w) => if self.user_from_ta.amount < amount {
                    Err(MigrateError::InsufficientFunds)
                } else if self.vault_from_ata.amount + amount > u64::MAX {
                    Err(MigrateError::ArithmeticOverflow)
                } else if self.vault_to_ata.amount < w {
                    Err(MigrateError::InsufficientFunds)
                } else if self.user_to_ta.amount + w > u64::MAX {
                    Err(MigrateError::ArithmeticOverflow)
                } else {
                    Ok(w)
                },
            }
        }
    }

    /// No mint has more in these accounts than it has issued.
    pub open spec fn balances_within_supply(&self) -> bool {
        &&& self.user_from_ta.amount + self.vault_from_ata.amount <= self.mint_from.supply
        &&& self.user_to_ta.amount + self.vault_to_ata.amount <= self.mint_to.supply
    }

    /// The accounts after `amount` of the old token moved from the user to
    /// the vault.
    pub open spec fn deposited(&self, amount: u64) -> Migrate {
        Migrate {
            user_from_ta: TokenAccount { amount: (self.user_from_ta.amount - amount) as u64, ..self.user_from_ta },
            vault_from_ata: TokenAccount { amount: (self.vault_from_ata.amount + amount) as u64, ..self.vault_from_ata },
            ..*self
        }
    }

    /// The accounts after `w` of the new token moved from the vault to the
    /// user.
    pub open spec fn withdrawn(&self, w: u64) -> Migrate {
        Migrate {
            vault_to_ata: TokenAccount { amount: (self.vault_to_ata.amount - w) as u64, ..self.vault_to_ata },
            user_to_ta: TokenAccount { amount: (self.user_to_ta.amount + w) as u64, ..self.user_to_ta },
            ..*self
        }
    }

    /// The accounts after a deposit of `amount` and a withdrawal of `w`.
    pub open spec fn migrated(&self, amount: u64, w: u64) -> Migrate {
        self.deposited(amount).withdrawn(w)
    }

    /// The record of a migration of `amount` that withdrew `w`.
    pub open spec fn event_spec(&self, amount: u64, w: u64) -> MigrateEvent {
        MigrateEvent {
            user: self.user,
            mint_from: self.mint_from.key,
            mint_to: self.mint_to.key,
            deposit_amount: amount,
            withdraw_amount: w,
        }
    }

    fn validate(&self) -> (r: Result<(), MigrateError>)
        ensures
            r is Ok <==> self.accounts_valid(),
            r is Err ==> r == Err::<(), MigrateError>(MigrateError::AccountMismatch),
    {
        let from_key = self.mint_from.key;
        let to_key = self.mint_to.key;
        let fits = self.vault.mint_from == from_key && self.vault.mint_to == to_key && !(from_key == to_key)
            && !(self.user == self.vault_key) && self.user_from_ta.owner == self.user
            && self.user_from_ta.mint == from_key && self.user_to_ta.owner == self.user
            && self.user_to_ta.mint == to_key && self.vault_from_ata.owner == self.vault_key
            && self.vault_from_ata.mint == from_key && self.vault_to_ata.owner == self.vault_key
            && self.vault_to_ata.mint == to_key;
        if !fits {
            return Err(MigrateError::AccountMismatch);
        }
        match self.vault.seeds().signer_address(self.vault.bump[0], &self.program_id) {
            Some(a) => if a == self.vault_key {
                Ok(())
            } else {
                Err(MigrateError::AccountMismatch)
            },
            None => Err(MigrateError::AccountMismatch),
        }
    }

    /// The circulating supply of the old token.
    fn supply_from(&self) -> (r: u64)
        ensures
            r == self.supply_from_spec(),
    {
        self.mint_from.supply.saturating_sub(self.vault_from_ata.amount)
    }

    /// What the pool holds of the new token.
    fn supply_to(&self) -> (r: u64)
        ensures
            r == self.vault_to_ata.amount,
    {
        self.vault_to_ata.amount
    }

    fn withdraw_amount(&self, amount: u64) -> (r: Result<u64, MigrateError>)
        ensures
            r == withdraw_amount_spec(self.vault.strategy, amount, self.supply_from_spec(), self.vault_to_ata.amount),
    {
        self.vault.strategy.withdraw_amount(amount, self.supply_from(), self.supply_to())
    }

    /// Moves `amount` of the old token from the user into the vault.
    fn deposit_tokens(&mut self, amount: u64) -> (r: Result<(), MigrateError>)
        ensures
            old(self).user_from_ta.amount < amount ==> r == Err::<(), MigrateError>(MigrateError::InsufficientFunds)
                && *final(self) == *old(self),
            old(self).user_from_ta.amount >= amount && old(self).vault_from_ata.amount + amount > u64::MAX
                ==> r == Err::<(), MigrateError>(MigrateError::ArithmeticOverflow) && *final(self) == *old(self),
            old(self).user_from_ta.amount >= amount && old(self).vault_from_ata.amount + amount <= u64::MAX
                ==> r == Ok::<(), MigrateError>(()) && *final(self) == old(self).deposited(amount),
    {
        if self.user_from_ta.amount < amount {
            return Err(MigrateError::InsufficientFunds);
        }
        match self.vault_from_ata.amount.checked_add(amount) {
            None => Err(MigrateError::ArithmeticOverflow),
            Some(total) => {
                self.user_from_ta.amount = self.user_from_ta.amount - amount;
                self.vault_from_ata.amount = total;
                Ok(())
            },
        }
    }

    /// Moves `withdraw_amount` of the new token from the vault to the user,
    /// on the vault's authority.
    fn withdraw_tokens(&mut self, withdraw_amount: u64) -> (r: Result<(), MigrateError>)
        ensures
            old(self).vault_to_ata.amount < withdraw_amount ==> r == Err::<(), MigrateError>(MigrateError::InsufficientFunds)
                && *final(self) == *old(self),
            old(self).vault_to_ata.amount >= withdraw_amount && old(self).user_to_ta.amount + withdraw_amount > u64::MAX
                ==> r == Err::<(), MigrateError>(MigrateError::ArithmeticOverflow) && *final(self) == *old(self),
            old(self).vault_to_ata.amount >= withdraw_amount && old(self).user_to_ta.amount + withdraw_amount <= u64::MAX
                ==> r == Ok::<(), MigrateError>(()) && *final(self) == old(self).withdrawn(withdraw_amount),
    {
        if self.vault_to_ata.amount < withdraw_amount {
            return Err(MigrateError::InsufficientFunds);
        }
        match self.user_to_ta.amount.checked_add(withdraw_amount) {
            None => Err(MigrateError::ArithmeticOverflow),
            Some(total) => {
                self.vault_to_ata.amount = self.vault_to_ata.amount - withdraw_amount;
                self.user_to_ta.amount = total;
                Ok(())
            },
        }
    }

    fn emit_migrate_event(&self, amount: u64, withdraw_amount: u64) -> (r: MigrateEvent)
        ensures
            r == self.event_spec(amount, withdraw_amount),
    {
        MigrateEvent {
            user: self.user,
            mint_from: self.mint_from.key,
            mint_to: self.mint_to.key,
            deposit_amount: amount,
            withdraw_amount,
        }
    }

    /// Migrates `amount` of the old token: checks the accounts, computes the
    /// withdrawal, deposits `amount` into the vault and withdraws the
    /// computed amount to the user, and returns the record of it.
    ///
    /// All or nothing: on any error every balance is as it was.
    pub fn migrate(&mut self, amount: u64) -> (r: Result<MigrateEvent, MigrateError>)
        ensures
            match old(self).migrate_spec(amount) {
                Ok(w) => r == Ok::<MigrateEvent, MigrateError>(old(self).event_spec(amount, w))
                    && *final(self) == old(self).migrated(amount, w),
                Err(e) => r == Err::<MigrateEvent, MigrateError>(e) && *final(self) == *old(self),
            },
    {
        match self.validate() {
            Err(e) => {
                return Err(e);
            },
            Ok(()) => {},
        }
        let withdraw_amount = match self.withdraw_amount(amount) {
            Err(e) => {
                return Err(e);
            },
            Ok(w) => w,
        };
        let snapshot = *self;
        match self.deposit_tokens(amount) {
            Err(e) => {
                return Err(e);
            },
            Ok(()) => {},
        }
        match self.withdraw_tokens(withdraw_amount) {
            Err(e) => {
                *self = snapshot;
                return Err(e);
            },
            Ok(()) => {},
        }
        Ok(self.emit_migrate_event(amount, withdraw_amount))
    }
}

/// The accounts of a vault's creation: the creator, the administrator the
/// deployment admits (`None`: anyone may create), the two pool accounts,
/// and the address the vault record is to be created at, with the record
/// found there if one already exists.
#[derive(Clone, Copy, Debug)]
pub struct Initialize {
    pub program_id: Address,
    pub admin: Address,
    pub authorized_admin: Option<Address>,
    pub vault_from_ata: TokenAccount,
    pub vault_to_ata: TokenAccount,
    pub vault_key: Address,
    pub vault: Option<Vault>,
}

impl Initialize {
    /// The accounts once the vault record holds this configuration.
    pub open spec fn created(&self, mint_from: Address, mint_to: Address, strategy: Strategy, bump: [u8; 1]) -> Initialize {
        Initialize {
            vault: Some(Vault { admin: self.admin, mint_from, mint_to, strategy, bump }),
            ..*self
        }
    }

    /// The outcome of creating a vault for the pair: the bump of its
    /// address, or why creation is refused. The creator must be the admitted
    /// administrator; the two mints must differ (a vault over one mint could
    /// never migrate); the presented vault address must be the canonical one
    /// derived from the tag, the creator and the pair; the pool accounts must
    /// be the vault's own for the pair; the pool of the new token must be
    /// funded; and no vault record may exist there yet.
    pub open spec fn initialize_spec(&self, mint_from: Address, mint_to: Address) -> Result<u8, MigrateError> {
        let seeds = VaultSeeds { admin: self.admin, mint_from, mint_to };
        if self.authorized_admin is Some && self.authorized_admin->0@ != self.admin@ {
            Err(MigrateError::AccountMismatch)
        } else if mint_from@ == mint_to@ {
            Err(MigrateError::AccountMismatch)
        } else {
            match canonical_address(seeds.seed_list(), self.program_id@) {
                None => Err(MigrateError::PreconditionUnmet),
                Some((a, bump)) => if a != self.vault_key@ {
                    Err(MigrateError::AccountMismatch)
                } else if !(self.vault_from_ata.owner@ == self.vault_key@ && self.vault_from_ata.mint@ == mint_from@
                    && self.vault_to_ata.owner@ == self.vault_key@ && self.vault_to_ata.mint@ == mint_to@) {
                    Err(MigrateError::AccountMismatch)
                } else if self.vault_to_ata.amount == 0 {
                    Err(MigrateError::PreconditionUnmet)
                } else if self.vault is Some {
                    Err(MigrateError::PreconditionUnmet)
                } else {
                    Ok(bump)
                },
            }
        }
    }

    /// Creates the vault for the pair `mint_from`, `mint_to` with
    /// `strategy`, at the canonical address of the creator and the pair.
    /// Every condition of `initialize_spec` is checked here; a refused
    /// creation writes nothing, and an existing record is never overwritten.
    pub fn initialize(&mut self, mint_from: Address, mint_to: Address, strategy: Strategy) -> (r: Result<(), MigrateError>)
        ensures
            match old(self).initialize_spec(mint_from, mint_to) {
                Ok(bump) => r == Ok::<(), MigrateError>(())
                    && *final(self) == old(self).created(mint_from, mint_to, strategy, [bump]),
                Err(e) => r == Err::<(), MigrateError>(e) && *final(self) == *old(self),
            },
    {
        match self.authorized_admin {
            Some(a) => if !(a == self.admin) {
                return Err(MigrateError::AccountMismatch);
            },
            None => {},
        }
        if mint_from == mint_to {
            return Err(MigrateError::AccountMismatch);
        }
        let seeds = VaultSeeds { admin: self.admin, mint_from, mint_to };
        let (derived, bump) = match seeds.find_address(&self.program_id) {
            None => {
                return Err(MigrateError::PreconditionUnmet);
            },
            Some(found) => found,
        };
        if !(derived == self.vault_key) {
            return Err(MigrateError::AccountMismatch);
        }
        let key = self.vault_key;
        if !(self.vault_from_ata.owner == key && self.vault_from_ata.mint == mint_from
            && self.vault_to_ata.owner == key && self.vault_to_ata.mint == mint_to) {
            return Err(MigrateError::AccountMismatch);
        }
        if self.vault_to_ata.amount == 0 {
            return Err(MigrateError::PreconditionUnmet);
        }
        if self.vault.is_some() {
            return Err(MigrateError::PreconditionUnmet);
        }
        self.vault = Some(Vault { admin: self.admin, mint_from, mint_to, strategy, bump: [bump] });
        Ok(())
    }
}

/// Creates the vault for the pair `mint_from`, `mint_to` with `strategy`
/// through the accounts of `accounts`.
pub fn initialize(accounts: &mut Initialize, mint_from: Address, mint_to: Address, strategy: Strategy) -> (r: Result<(), MigrateError>)
    ensures
        match old(accounts).initialize_spec(mint_from, mint_to) {
            Ok(bump) => r == Ok::<(), MigrateError>(())
                && *final(accounts) == old(accounts).created(mint_from, mint_to, strategy, [bump]),
            Err(e) => r == Err::<(), MigrateError>(e) && *final(accounts) == *old(accounts),
        },
{
    accounts.initialize(mint_from, mint_to, strategy)
}

/// Migrates `amount` of the old token through the vault of `accounts`.
pub fn migrate(accounts: &mut Migrate, amount: u64) -> (r: Result<MigrateEvent, MigrateError>)
    ensures
        match old(accounts).migrate_spec(amount) {
            Ok(w) => r == Ok::<MigrateEvent, MigrateError>(old(accounts).event_spec(amount, w))
                && *final(accounts) == old(accounts).migrated(amount, w),
            Err(e) => r == Err::<MigrateEvent, MigrateError>(e) && *final(accounts) == *old(accounts),
        },
{
    accounts.migrate(amount)
}

/// Deriving a vault's address depends on its seeds and program alone: equal
/// inputs give the same canonical address and bump, and the same signing
/// address for every bump.
pub proof fn vault_address_is_deterministic(seeds_a: VaultSeeds, seeds_b: VaultSeeds, program_a: Address, program_b: Address, bump: u8)
    requires
        seeds_a.admin@ == seeds_b.admin@,
        seeds_a.mint_from@ == seeds_b.mint_from@,
        seeds_a.mint_to@ == seeds_b.mint_to@,
        program_a@ == program_b@,
    ensures
        canonical_address(seeds_a.seed_list(), program_a@) == canonical_address(seeds_b.seed_list(), program_b@),
        program_address(seeds_a.signer_seed_list(bump), program_a@) == program_address(seeds_b.signer_seed_list(bump), program_b@),
{
    assert(seeds_a.seed_list() =~= seeds_b.seed_list());
    assert(seeds_a.signer_seed_list(bump) =~= seeds_b.signer_seed_list(bump));
}

/// Creation where a vault record already exists fails; so once a vault is
/// created at an address, every later creation there fails.
pub proof fn creation_at_existing_vault_fails(
    accounts: Initialize,
    mint_from: Address,
    mint_to: Address,
    strategy: Strategy,
    bump: [u8; 1],
    next_mint_from: Address,
    next_mint_to: Address,
)
    ensures
        accounts.vault is Some ==> accounts.initialize_spec(next_mint_from, next_mint_to) is Err,
        accounts.created(mint_from, mint_to, strategy, bump).initialize_spec(next_mint_from, next_mint_to) is Err,
{
}

/// A migration whose computed withdrawal exceeds what the pool holds is
/// refused, and so, by the contract of `Migrate::migrate`, leaves every
/// balance as it was.
pub proof fn overdrawn_pool_is_refused(accounts: Migrate, amount: u64, w: u64)
    requires
        withdraw_amount_spec(accounts.vault.strategy, amount, accounts.supply_from_spec(), accounts.vault_to_ata.amount)
            == Ok::<u64, MigrateError>(w),
        w > accounts.vault_to_ata.amount,
    ensures
        accounts.migrate_spec(amount) is Err,
{
}

proof fn lemma_bump_search_derives(seeds: Seq<Seq<u8>>, program_id: Seq<u8>, bump: nat)
    ensures
        match bump_search(seeds, program_id, bump) {
            Some((a, b)) => program_address(seeds.push(seq![b]), program_id) == Some(a),
            None => true,
        },
    decreases bump,
{
    if bump > 0 {
        lemma_bump_search_derives(seeds, program_id, (bump - 1) as nat);
    }
}

/// A vault created at an address signs as that address: the seeds of its
/// record, with its recorded bump, derive exactly the address it was
/// created at.
pub proof fn created_vault_signs_as_its_address(
    accounts: Initialize,
    mint_from: Address,
    mint_to: Address,
    strategy: Strategy,
)
    requires
        accounts.initialize_spec(mint_from, mint_to) is Ok,
    ensures
        ({
            let bump = accounts.initialize_spec(mint_from, mint_to)->Ok_0;
            let vault = accounts.created(mint_from, mint_to, strategy, [bump]).vault->0;
            program_address(vault.seeds_spec().signer_seed_list(vault.bump[0]), accounts.program_id@)
                == Some(accounts.vault_key@)
        }),
{
    let seeds = VaultSeeds { admin: accounts.admin, mint_from, mint_to };
    lemma_bump_search_derives(seeds.seed_list(), accounts.program_id@, 255);
    let bump = accounts.initialize_spec(mint_from, mint_to)->Ok_0;
    let vault = accounts.created(mint_from, mint_to, strategy, [bump]).vault->0;
    assert(vault.bump[0] == bump);
    assert(vault.seeds_spec().seed_list() =~= seeds.seed_list());
}

/// End to end, on accounts that belong to their vault and hold no more of
/// each mint than it has issued, for a user who holds at least 10 of the old
/// token: a deposit of 10 withdraws 10 under `Fixed(0)`, 100 under `Fixed(1)`,
/// 1 under `Fixed(-1)`, is refused under `Fixed(-3)` (it would withdraw
/// nothing), and withdraws 10 pro rata from a pool of 100 against a
/// circulating supply of 100; each wherever the pool holds the withdrawal.
pub proof fn migrations_end_to_end(accounts: Migrate)
    requires
        accounts.accounts_valid(),
        accounts.balances_within_supply(),
        accounts.user_from_ta.amount >= 10,
    ensures
        accounts.vault.strategy == (Strategy::Fixed { e: 0 }) && accounts.vault_to_ata.amount >= 10
            ==> accounts.migrate_spec(10) == Ok::<u64, MigrateError>(10),
        accounts.vault.strategy == (Strategy::Fixed { e: 1 }) && accounts.vault_to_ata.amount >= 100
            ==> accounts.migrate_spec(10) == Ok::<u64, MigrateError>(100),
        accounts.vault.strategy == (Strategy::Fixed { e: -1i8 }) && accounts.vault_to_ata.amount >= 1
            ==> accounts.migrate_spec(10) == Ok::<u64, MigrateError>(1),
        accounts.vault.strategy == (Strategy::Fixed { e: -3i8 })
            ==> accounts.migrate_spec(10) == Err::<u64, MigrateError>(MigrateError::PolicyRejection),
        accounts.vault.strategy == Strategy::ProRata && accounts.supply_from_spec() == 100
            && accounts.vault_to_ata.amount == 100 ==> accounts.migrate_spec(10) == Ok::<u64, MigrateError>(10),
{
    reveal_with_fuel(pow10, 4);
    assert(pow10(1) == 10);
    assert(pow10(3) == 1000);
}

} // verus!
