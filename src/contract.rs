use vstd::prelude::*;
use near_contract_standards::non_fungible_token::metadata::NFT_METADATA_SPEC;
use near_contract_standards::non_fungible_token::NonFungibleToken;
use crate::gate::{
    may_mint, may_transfer, mint_authorized, operator_accounts, transfer_authorized, AllowList,
};
use crate::ledger::{
    claim_region, is_account_id, ledger_displays, ledger_len, ledger_owner_lists, ledger_tokens, ledger_tokens_for_owner, ledger_mint, ledger_new,
    ledger_owner, ledger_owners, ledger_supply_for_owner, lemma_owned_after_insert, ledger_token, ledger_transfer, owned_by,
    rank, valid_account, fits_key, fits_log, fits_value,
};
use vstd::string::StrSliceExecFns;
use crate::token::{DisplayModel, TokenDisplay, TokenRecord};
use crate::plant::{MetadataModel, PlantMetadata};
use crate::registry::MetadataRegistry;

verus! {

/// Why a call was refused. A refused call changes nothing.
#[derive(Clone, Copy, Debug, PartialEq, Eq, Structural)]
pub enum ContractError {
    /// The caller may not mint, or may not move this token.
    AuthorizationError,
    /// No token has the given id.
    NotFoundError,
    /// A token with the given id exists already.
    DuplicateError,
    /// An account name is not a well-formed account id.
    InvalidAccount,
    /// The receiver of a transfer owns the token already.
    ReceiverIsOwner,
    /// The contract's storage region holds a ledger already.
    StorageInUse,
    /// A token id, a stored text or a memo is longer than the runtime admits.
    TooLong,
    /// A page starts past the end of the listing, or asks for no tokens.
    InvalidPage,
}

/// Whether the texts a mint stores fit the runtime's limits.
pub open spec fn mint_fits(token_id: Seq<char>, m: MetadataModel, issued_at: Seq<char>) -> bool {
    &&& fits_key(token_id)
    &&& fits_value(m.name)
    &&& fits_value(m.glb_file_url)
    &&& fits_value(issued_at)
}

/// Whether `s` has at most `max` characters.
fn within(s: &String, max: usize) -> (r: bool)
    ensures
        r == (s@.len() <= max),
{
    s.as_str().unicode_len() <= max
}

/// The display block that a token minted with plant record `m` at time
/// `issued_at` carries.
pub open spec fn display_for(m: MetadataModel, issued_at: Seq<char>) -> DisplayModel {
    DisplayModel {
        title: Some(m.name),
        description: Some("Plant NFT"@),
        media: Some(m.glb_file_url),
        copies: Some(1),
        issued_at: Some(issued_at),
    }
}

/// The storage prefix under which a contract keeps its ledger.
pub const LEDGER_PREFIX: u8 = 110;

/// The key byte of each of the ledger's tables, after the prefix.
pub const OWNERS_TAG: u8 = 116;
pub const METADATA_TAG: u8 = 109;
pub const ENUMERATION_TAG: u8 = 101;
pub const APPROVAL_TAG: u8 = 97;

/// A storage key: `prefix` followed by `tag`.
fn key_of(prefix: &Vec<u8>, tag: u8) -> (r: Vec<u8>)
    ensures
        r@ == prefix@.push(tag),
{
    let mut r = prefix.clone();
    r.push(tag);
    r
}

/// The collection's fixed descriptor.
pub struct CollectionInfo {
    pub spec: String,
    pub name: String,
    pub symbol: String,
}

/// Relies on near_contract_standards' NFT_METADATA_SPEC: the metadata
/// standard's version string.
#[verifier::external_body]
fn metadata_spec() -> (r: String)
    ensures
        r@ == "nft-1.0.0"@,
{
    NFT_METADATA_SPEC.to_string()
}

/// A plant registry over a token ledger, with a fixed transfer allow-list.
pub struct Contract {
    tokens: NonFungibleToken,
    owner_id: String,
    metadata: MetadataRegistry,
    approved_accounts: AllowList,
    minted: Ghost<Set<Seq<char>>>,
}

impl Contract {
    /// Token id to owner account name, as the ledger holds it.
    pub closed spec fn owners(&self) -> Map<Seq<char>, Seq<char>> {
        ledger_owners(self.tokens)
    }

    /// Token id to plant record, as the registry holds it.
    pub closed spec fn plants(&self) -> Map<Seq<char>, MetadataModel> {
        self.metadata@
    }

    /// The accounts that may move tokens they do not own.
    pub closed spec fn allowed(&self) -> Set<Seq<char>> {
        self.approved_accounts@
    }

    /// The ids of the mints that succeeded.
    pub closed spec fn minted(&self) -> Set<Seq<char>> {
        self.minted@
    }

    /// Token id to display block, as the ledger holds it.
    pub closed spec fn displays(&self) -> Map<Seq<char>, DisplayModel> {
        ledger_displays(self.tokens)
    }

    /// The tokens that `account` owns, in the order of the ledger's per-owner
    /// index.
    pub closed spec fn owner_list(&self, account: Seq<char>) -> Seq<Seq<char>> {
        ledger_owner_lists(self.tokens)[account]
    }

    /// The account that may mint.
    pub closed spec fn owner(&self) -> Seq<char> {
        self.owner_id@
    }

    /// The registry has an entry for exactly the tokens of the ledger, and
    /// every account the ledger names is well formed.
    pub closed spec fn wf(&self) -> bool {
        &&& self.metadata.wf()
        &&& self.metadata@.dom() == ledger_owners(self.tokens).dom()
        &&& self.metadata@.dom() == self.minted@
        &&& ledger_displays(self.tokens).dom() == ledger_owners(self.tokens).dom()
        &&& ledger_owners(self.tokens).dom().finite()
        &&& forall|t: Seq<char>| #[trigger] ledger_owners(self.tokens).contains_key(t) ==> fits_key(t)
        &&& is_account_id(self.owner_id@)
        &&& forall|t: Seq<char>| #[trigger]
            ledger_owners(self.tokens).contains_key(t) ==> is_account_id(
                ledger_owners(self.tokens)[t],
            )
    }

    /// A contract owned by `owner_id` whose allow-list holds the default
    /// operator accounts. A storage that holds a contract already is refused.
    pub fn new(owner_id: String) -> (r: Result<Self, ContractError>)
        ensures
            r is Ok ==> is_account_id(owner_id@),
            !is_account_id(owner_id@) ==> r == Err::<Self, ContractError>(
                ContractError::InvalidAccount,
            ),
            is_account_id(owner_id@) && r is Err ==> r == Err::<Self, ContractError>(
                ContractError::StorageInUse,
            ),
            r matches Ok(c) ==> c.wf() && c.owner() == owner_id@ && c.allowed()
                == operator_accounts() && c.owners().dom() == Set::<Seq<char>>::empty()
                && c.plants().dom() == Set::<Seq<char>>::empty() && c.minted() == Set::<
                Seq<char>,
            >::empty(),
    {
        Self::with_allow_list(owner_id, AllowList::operators())
    }

    /// A contract owned by `owner_id` with the given allow-list.
    pub fn with_allow_list(owner_id: String, approved_accounts: AllowList) -> (r: Result<
        Self,
        ContractError,
    >)
        ensures
            r is Ok ==> is_account_id(owner_id@),
            !is_account_id(owner_id@) ==> r == Err::<Self, ContractError>(
                ContractError::InvalidAccount,
            ),
            is_account_id(owner_id@) && r is Err ==> r == Err::<Self, ContractError>(
                ContractError::StorageInUse,
            ),
            r matches Ok(c) ==> c.wf() && c.owner() == owner_id@ && c.allowed()
                == approved_accounts@ && c.owners().dom() == Set::<Seq<char>>::empty()
                && c.plants().dom() == Set::<Seq<char>>::empty() && c.minted() == Set::<
                Seq<char>,
            >::empty(),
    {
        if !valid_account(&owner_id) {
            return Err(ContractError::InvalidAccount);
        }
        let prefix: Vec<u8> = vec![LEDGER_PREFIX];
        let region = match claim_region(prefix.clone()) {
            Some(g) => g,
            None => {
                return Err(ContractError::StorageInUse);
            },
        };
        let owners_key = key_of(&prefix, OWNERS_TAG);
        let metadata_key = key_of(&prefix, METADATA_TAG);
        let enumeration_key = key_of(&prefix, ENUMERATION_TAG);
        let approval_key = key_of(&prefix, APPROVAL_TAG);
        proof {
            assert(owners_key@.drop_last() =~= prefix@);
            assert(metadata_key@.drop_last() =~= prefix@);
            assert(enumeration_key@.drop_last() =~= prefix@);
            assert(approval_key@.drop_last() =~= prefix@);
            let tags = seq![owners_key@.last(), metadata_key@.last(), enumeration_key@.last(), approval_key@.last()];
            assert(tags =~= seq![OWNERS_TAG, METADATA_TAG, ENUMERATION_TAG, APPROVAL_TAG]);
            assert(tags.no_duplicates());
        }
        let tokens = ledger_new(
            region,
            owners_key,
            metadata_key,
            enumeration_key,
            approval_key,
            &owner_id,
        );
        let metadata = MetadataRegistry::new();
        let r = Contract {
            tokens,
            owner_id,
            metadata,
            approved_accounts,
            minted: Ghost(Set::empty()),
        };
        assert(ledger_owners(r.tokens).dom().finite());
        Ok(r)
    }

    /// Mints `token_id` to `receiver_id` on behalf of `caller`, and records its
    /// plant metadata. Only the contract's owner may mint; a taken id or a
    /// malformed receiver is refused. `issued_at` is the block time as text.
    pub fn nft_mint(
        &mut self,
        caller: &String,
        token_id: String,
        plant_metadata: PlantMetadata,
        receiver_id: String,
        issued_at: String,
    ) -> (r: Result<TokenRecord, ContractError>)
        requires
            old(self).wf(),
        ensures
            final(self).wf(),
            final(self).owner() == old(self).owner(),
            final(self).allowed() == old(self).allowed(),
            r is Ok <==> may_mint(caller@, old(self).owner()) && mint_fits(
                token_id@,
                plant_metadata@,
                issued_at@,
            ) && !old(self).owners().contains_key(token_id@) && is_account_id(receiver_id@),
            !may_mint(caller@, old(self).owner()) ==> r == Err::<TokenRecord, ContractError>(
                ContractError::AuthorizationError,
            ),
            may_mint(caller@, old(self).owner()) && !mint_fits(
                token_id@,
                plant_metadata@,
                issued_at@,
            ) ==> r == Err::<TokenRecord, ContractError>(ContractError::TooLong),
            may_mint(caller@, old(self).owner()) && mint_fits(
                token_id@,
                plant_metadata@,
                issued_at@,
            ) && old(self).owners().contains_key(token_id@) ==> r == Err::<
                TokenRecord,
                ContractError,
            >(ContractError::DuplicateError),
            may_mint(caller@, old(self).owner()) && mint_fits(
                token_id@,
                plant_metadata@,
                issued_at@,
            ) && !old(self).owners().contains_key(token_id@) && !is_account_id(receiver_id@)
                ==> r == Err::<TokenRecord, ContractError>(
                ContractError::InvalidAccount,
            ),
            r is Ok ==> final(self).owners() == old(self).owners().insert(
                token_id@,
                receiver_id@,
            ) && final(self).plants() == old(self).plants().insert(
                token_id@,
                plant_metadata@,
            ),
            r is Ok ==> final(self).displays() == old(self).displays().insert(
                token_id@,
                display_for(plant_metadata@, issued_at@),
            ),
            r matches Ok(t) ==> t.token_id@ == token_id@ && t.owner_id@ == receiver_id@
                && t.display is Some && t.display.unwrap()@ == display_for(plant_metadata@, issued_at@),
            r is Err ==> final(self).owners() == old(self).owners() && final(self).plants()
                == old(self).plants() && final(self).displays() == old(self).displays(),
            r is Ok ==> final(self).minted() == old(self).minted().insert(token_id@),
            r is Err ==> final(self).minted() == old(self).minted(),
            r is Ok ==> final(self).owners().dom().len() == old(self).owners().dom().len() + 1,
            r is Ok ==> owned_by(final(self).owners(), receiver_id@).len() == owned_by(
                old(self).owners(),
                receiver_id@,
            ).len() + 1,
            old(self).owners().contains_key(token_id@) ==> r is Err && final(self).owners()
                == old(self).owners() && final(self).plants() == old(self).plants(),
            caller@ != old(self).owner() ==> r == Err::<TokenRecord, ContractError>(
                ContractError::AuthorizationError,
            ) && final(self).owners() == old(self).owners() && final(self).plants() == old(
                self,
            ).plants(),
    {
        if !mint_authorized(caller, &self.owner_id) {
            return Err(ContractError::AuthorizationError);
        }
        if !within(&token_id, 400) || !within(&plant_metadata.name, 100_000) || !within(
            &plant_metadata.glb_file_url,
            100_000,
        ) || !within(&issued_at, 100_000) {
            return Err(ContractError::TooLong);
        }
        if ledger_owner(&self.tokens, &token_id).is_some() {
            return Err(ContractError::DuplicateError);
        }
        if !valid_account(&receiver_id) {
            return Err(ContractError::InvalidAccount);
        }
        let display = TokenDisplay {
            title: Some(plant_metadata.name.clone()),
            description: Some(String::from_str("Plant NFT")),
            media: Some(plant_metadata.glb_file_url.clone()),
            copies: Some(1),
            issued_at: Some(issued_at),
        };
        assert(display@ =~= display_for(plant_metadata@, issued_at@));
        proof {
            reveal_strlit("Plant NFT");
        }
        let ghost before = ledger_owners(self.tokens);
        self.minted = Ghost(self.minted@.insert(token_id@));
        let stored = self.metadata.put(token_id.clone(), plant_metadata);
        assert(stored);
        let token = ledger_mint(&mut self.tokens, token_id, &receiver_id, display);
        assert(self.metadata@.dom() =~= ledger_owners(self.tokens).dom());
        assert(ledger_displays(self.tokens).dom() =~= ledger_owners(self.tokens).dom());
        proof {
            lemma_owned_after_insert(before, token_id@, receiver_id@, receiver_id@);
            assert(!owned_by(before, receiver_id@).contains(token_id@));
            assert(owned_by(before, receiver_id@).finite());
        }
        Ok(token)
    }

    /// The plant record of `token_id`, or `None` when no such token was minted.
    pub fn get_plant_metadata(&self, token_id: String) -> (r: Option<PlantMetadata>)
        requires
            self.wf(),
        ensures
            r is None <==> !self.plants().contains_key(token_id@),
            r matches Some(m) ==> m@ == self.plants()[token_id@],
    {
        self.metadata.get(&token_id)
    }

    /// Moves `token_id` to `receiver_id` on behalf of `caller`. The token's
    /// owner and the allow-listed accounts may do so; anyone else is refused.
    pub fn nft_transfer(
        &mut self,
        caller: &String,
        receiver_id: String,
        token_id: String,
        approval_id: Option<u64>,
        memo: Option<String>,
    ) -> (r: Result<(), ContractError>)
        requires
            old(self).wf(),
        ensures
            final(self).wf(),
            final(self).owner() == old(self).owner(),
            final(self).allowed() == old(self).allowed(),
            final(self).plants() == old(self).plants(),
            final(self).displays() == old(self).displays(),
            final(self).minted() == old(self).minted(),
            final(self).owners().dom() == old(self).owners().dom(),
            r is Ok ==> owned_by(final(self).owners(), receiver_id@).len() == owned_by(
                old(self).owners(),
                receiver_id@,
            ).len() + 1 && owned_by(final(self).owners(), old(self).owners()[token_id@]).len()
                == owned_by(old(self).owners(), old(self).owners()[token_id@]).len() - 1,
            r is Ok <==> old(self).owners().contains_key(token_id@) && may_transfer(
                caller@,
                old(self).owners()[token_id@],
                old(self).allowed(),
            ) && fits_log(memo) && is_account_id(receiver_id@) && receiver_id@ != old(
                self,
            ).owners()[token_id@],
            !old(self).owners().contains_key(token_id@) ==> r == Err::<(), ContractError>(
                ContractError::NotFoundError,
            ),
            old(self).owners().contains_key(token_id@) && !may_transfer(
                caller@,
                old(self).owners()[token_id@],
                old(self).allowed(),
            ) ==> r == Err::<(), ContractError>(ContractError::AuthorizationError),
            old(self).owners().contains_key(token_id@) && may_transfer(
                caller@,
                old(self).owners()[token_id@],
                old(self).allowed(),
            ) && !fits_log(memo) ==> r == Err::<(), ContractError>(ContractError::TooLong),
            old(self).owners().contains_key(token_id@) && may_transfer(
                caller@,
                old(self).owners()[token_id@],
                old(self).allowed(),
            ) && fits_log(memo) && !is_account_id(receiver_id@) ==> r == Err::<(), ContractError>(
                ContractError::InvalidAccount,
            ),
            old(self).owners().contains_key(token_id@) && may_transfer(
                caller@,
                old(self).owners()[token_id@],
                old(self).allowed(),
            ) && fits_log(memo) && is_account_id(receiver_id@) && receiver_id@ == old(
                self,
            ).owners()[token_id@] ==> r == Err::<(), ContractError>(ContractError::ReceiverIsOwner),
            r is Ok ==> final(self).owners() == old(self).owners().insert(
                token_id@,
                receiver_id@,
            ),
            r is Err ==> final(self).owners() == old(self).owners(),
            old(self).owners().contains_key(token_id@) && caller@ == old(self).owners()[token_id@]
                && fits_log(memo) && is_account_id(receiver_id@) && receiver_id@ != caller@ ==> r is Ok
                && final(self).owners()[token_id@] == receiver_id@,
            old(self).owners().contains_key(token_id@) && caller@ != old(self).owners()[token_id@]
                && !old(self).allowed().contains(caller@) ==> r == Err::<(), ContractError>(
                ContractError::AuthorizationError,
            ) && final(self).owners() == old(self).owners(),
            old(self).owners().contains_key(token_id@) && old(self).allowed().contains(caller@)
                && fits_log(memo) && is_account_id(receiver_id@) && receiver_id@ != old(
                self,
            ).owners()[token_id@] ==> r is Ok && final(self).owners()[token_id@] == receiver_id@,
    {
        if !within(&token_id, 400) {
            return Err(ContractError::NotFoundError);
        }
        let owner = match ledger_owner(&self.tokens, &token_id) {
            Some(o) => o,
            None => {
                return Err(ContractError::NotFoundError);
            },
        };
        if !transfer_authorized(caller, &owner, &self.approved_accounts) {
            return Err(ContractError::AuthorizationError);
        }
        let memo_too_long = match &memo {
            Some(m) => !within(m, 2000),
            None => false,
        };
        if memo_too_long {
            return Err(ContractError::TooLong);
        }
        if !valid_account(&receiver_id) {
            return Err(ContractError::InvalidAccount);
        }
        if receiver_id == owner {
            return Err(ContractError::ReceiverIsOwner);
        }
        let ghost before = ledger_owners(self.tokens);
        ledger_transfer(&mut self.tokens, &owner, &receiver_id, &token_id, approval_id, memo);
        proof {
            lemma_owned_after_insert(before, token_id@, receiver_id@, receiver_id@);
            lemma_owned_after_insert(before, token_id@, receiver_id@, owner@);
            assert(owned_by(before, receiver_id@).finite());
            assert(owned_by(before, owner@).finite());
            assert(owned_by(before, owner@).contains(token_id@));
            assert(!owned_by(before, receiver_id@).contains(token_id@));
            assert(self.owners().dom() =~= before.dom());
        }
        assert(self.metadata@.dom() =~= ledger_owners(self.tokens).dom());
        assert(ledger_displays(self.tokens).dom() =~= ledger_owners(self.tokens).dom());
        Ok(())
    }

    /// The ledger's record of `token_id`, present exactly when it exists.
    pub fn nft_token(&self, token_id: String) -> (r: Option<TokenRecord>)
        requires
            self.wf(),
        ensures
            r is Some <==> self.owners().contains_key(token_id@),
            r matches Some(t) ==> t.token_id@ == token_id@ && t.owner_id@ == self.owners()[token_id@]
                && t.display is Some && t.display.unwrap()@ == self.displays()[token_id@],
    {
        if !within(&token_id, 400) {
            return None;
        }
        ledger_token(&self.tokens, &token_id)
    }

    /// The owner of `token_id`, when it exists.
    pub fn owner_of(&self, token_id: &String) -> (r: Option<String>)
        requires
            self.wf(),
        ensures
            r is Some <==> self.owners().contains_key(token_id@),
            r matches Some(o) ==> o@ == self.owners()[token_id@],
    {
        if !within(token_id, 400) {
            return None;
        }
        ledger_owner(&self.tokens, token_id)
    }

    /// How many tokens exist.
    pub fn nft_total_supply(&self) -> (r: u64)
        ensures
            r == self.owners().dom().len(),
    {
        ledger_len(&self.tokens)
    }

    /// A page of tokens in ascending id order: at most `limit` (no bound when
    /// absent) from position `from_index` (0 when absent). The token at
    /// position `i` of the page has exactly `from_index + i` ids before it. A
    /// start past the end or a limit of zero is refused.
    pub fn nft_tokens(&self, from_index: Option<u128>, limit: Option<u64>) -> (r: Result<
        Vec<TokenRecord>,
        ContractError,
    >)
        requires
            self.wf(),
        ensures
            ({
                let n = self.owners().dom().len() as int;
                let from = match from_index {
                    Some(f) => f as int,
                    None => 0,
                };
                let lim = match limit {
                    Some(l) => l as int,
                    None => usize::MAX as int,
                };
                &&& (r is Err <==> from > n || lim == 0 || from > usize::MAX)
                &&& (r is Err ==> r == Err::<Vec<TokenRecord>, ContractError>(
                    ContractError::InvalidPage,
                ))
                &&& (r matches Ok(v) ==> {
                    &&& v@.len() == vstd::math::min(vstd::math::min(lim, usize::MAX as int), n - from)
                    &&& forall|i: int|
                        0 <= i < v@.len() ==> {
                            let t = #[trigger] v@[i];
                            &&& self.owners().contains_key(t.token_id@)
                            &&& rank(self.owners().dom(), t.token_id@) == from + i
                            &&& t.owner_id@ == self.owners()[t.token_id@]
                            &&& t.display is Some && t.display.unwrap()@ == self.displays()[t.token_id@]
                        }
                    &&& forall|i: int, j: int|
                        0 <= i < j < v@.len() ==> (#[trigger] v@[i]).token_id@ != (
                        #[trigger] v@[j]).token_id@
                })
            }),
    {
        let n = ledger_len(&self.tokens);
        let from: u128 = match from_index {
            Some(f) => f,
            None => 0,
        };
        let lim: usize = match limit {
            Some(l) => if l as u128 > usize::MAX as u128 {
                usize::MAX
            } else {
                l as usize
            },
            None => usize::MAX,
        };
        if from > n as u128 || lim == 0 || from > usize::MAX as u128 {
            return Err(ContractError::InvalidPage);
        }
        let v = ledger_tokens(&self.tokens, from, lim as u64);
        proof {
            assert forall|a: int, b: int|
                0 <= a < b < v@.len() implies (#[trigger] v@[a]).token_id@
                    != (#[trigger] v@[b]).token_id@ by {
                assert(rank(self.owners().dom(), v@[a].token_id@) == from + a);
                assert(rank(self.owners().dom(), v@[b].token_id@) == from + b);
            }
        }
        Ok(v)
    }

    /// A page of the tokens that `account_id` owns, in the order of the
    /// ledger's per-owner index: at most `limit` (no bound when absent) from
    /// position `from_index` (0 when absent). An account with no tokens gets an
    /// empty page; otherwise a start at or past the end or a limit of zero is
    /// refused.
    pub fn nft_tokens_for_owner(
        &self,
        account_id: &String,
        from_index: Option<u128>,
        limit: Option<u64>,
    ) -> (r: Result<Vec<TokenRecord>, ContractError>)
        requires
            self.wf(),
        ensures
            ({
                let n = owned_by(self.owners(), account_id@).len() as int;
                let from = match from_index {
                    Some(f) => f as int,
                    None => 0,
                };
                let lim = match limit {
                    Some(l) => l as int,
                    None => usize::MAX as int,
                };
                &&& (r is Err <==> n > 0 && (lim == 0 || from >= n || from > usize::MAX))
                &&& (r is Err ==> r == Err::<Vec<TokenRecord>, ContractError>(
                    ContractError::InvalidPage,
                ))
                &&& (r matches Ok(v) ==> {
                    &&& v@.len() == if n == 0 {
                        0
                    } else {
                        vstd::math::min(vstd::math::min(lim, usize::MAX as int), n - from)
                    }
                    &&& forall|i: int|
                        0 <= i < v@.len() ==> {
                            let t = #[trigger] v@[i];
                            &&& t.token_id@ == self.owner_list(account_id@)[from + i]
                            &&& owned_by(self.owners(), account_id@).contains(t.token_id@)
                            &&& t.owner_id@ == account_id@
                            &&& t.display is Some && t.display.unwrap()@ == self.displays()[t.token_id@]
                        }
                    &&& forall|i: int, j: int|
                        0 <= i < j < v@.len() ==> (#[trigger] v@[i]).token_id@ != (
                        #[trigger] v@[j]).token_id@
                })
            }),
    {
        if !valid_account(account_id) {
            assert(owned_by(self.owners(), account_id@) =~= Set::<Seq<char>>::empty());
            return Ok(Vec::new());
        }
        let n = ledger_supply_for_owner(&self.tokens, account_id);
        if n == 0 {
            return Ok(Vec::new());
        }
        let from: u128 = match from_index {
            Some(f) => f,
            None => 0,
        };
        let lim: usize = match limit {
            Some(l) => if l as u128 > usize::MAX as u128 {
                usize::MAX
            } else {
                l as usize
            },
            None => usize::MAX,
        };
        if from >= n || lim == 0 || from > usize::MAX as u128 {
            return Err(ContractError::InvalidPage);
        }
        let v = ledger_tokens_for_owner(&self.tokens, account_id, from, lim as u64);
        proof {
            let list = ledger_owner_lists(self.tokens)[account_id@];
            assert forall|a: int, b: int|
                0 <= a < b < v@.len() implies (#[trigger] v@[a]).token_id@
                    != (#[trigger] v@[b]).token_id@ by {
                assert(v@[b].token_id@ == list[from + b]);
                assert(list[from + b] != v@[a].token_id@);
            }
        }
        Ok(v)
    }

    /// How many tokens `account_id` owns.
    pub fn nft_supply_for_owner(&self, account_id: &String) -> (r: u128)
        requires
            self.wf(),
        ensures
            r == owned_by(self.owners(), account_id@).len(),
    {
        if !valid_account(account_id) {
            assert(owned_by(self.owners(), account_id@) =~= Set::<Seq<char>>::empty());
            return 0;
        }
        ledger_supply_for_owner(&self.tokens, account_id)
    }

    /// The collection's fixed descriptor.
    pub fn nft_metadata(&self) -> (r: CollectionInfo)
        ensures
            r.spec@ == "nft-1.0.0"@,
            r.name@ == "Plant NFT Collection"@,
            r.symbol@ == "PLANT"@,
    {
        CollectionInfo {
            spec: metadata_spec(),
            name: String::from_str("Plant NFT Collection"),
            symbol: String::from_str("PLANT"),
        }
    }

    /// Every token of the ledger has a plant record, and every plant record
    /// belongs to a token of the ledger: a record exists exactly for the
    /// tokens that were minted.
    pub proof fn lemma_records_match_tokens(&self)
        requires
            self.wf(),
        ensures
            forall|t: Seq<char>| #[trigger]
                self.plants().contains_key(t) <==> self.owners().contains_key(t),
    {
    }

    /// Over any run of calls from a new contract, a plant record exists for
    /// an id exactly when a mint of that id succeeded: a new contract has no
    /// mint behind it, a successful mint adds its id, and every failed call
    /// and every transfer leaves the set alone.
    pub proof fn lemma_records_are_minted(&self)
        requires
            self.wf(),
        ensures
            forall|t: Seq<char>| #[trigger]
                self.plants().contains_key(t) <==> self.minted().contains(t),
    {
    }
}

} // verus!
