use vstd::prelude::*;
use crate::token::{DisplayModel, TokenDisplay, TokenRecord};
use near_contract_standards::non_fungible_token::metadata::TokenMetadata;
use near_contract_standards::non_fungible_token::NonFungibleToken;
use near_sdk::json_types::U128;
use near_contract_standards::non_fungible_token::enumeration::NonFungibleTokenEnumeration;
use near_sdk::AccountId;

verus! {

#[verifier::external_type_specification]
#[verifier::external_body]
pub struct ExNonFungibleToken(NonFungibleToken);

/// The ownership table of a token ledger: token id to owner account name.
pub uninterp spec fn ledger_owners(l: NonFungibleToken) -> Map<Seq<char>, Seq<char>>;

/// The display table of a token ledger: token id to its display block.
pub uninterp spec fn ledger_displays(l: NonFungibleToken) -> Map<Seq<char>, DisplayModel>;

/// Whether token id `a` comes before `b`: code point by code point, a proper
/// prefix first. This is the order of `String`'s `Ord`, which compares the
/// UTF-8 bytes, and UTF-8 keeps the order of code points.
pub open spec fn id_lt(a: Seq<char>, b: Seq<char>) -> bool
    decreases a.len(),
{
    if a.len() == 0 {
        b.len() > 0
    } else if b.len() == 0 {
        false
    } else if a[0] != b[0] {
        (a[0] as u32) < (b[0] as u32)
    } else {
        id_lt(a.drop_first(), b.drop_first())
    }
}

/// How many of `ids` come before `k`.
pub open spec fn rank(ids: Set<Seq<char>>, k: Seq<char>) -> nat {
    ids.filter(|x: Seq<char>| id_lt(x, k)).len()
}

/// The tokens that `account` owns.
pub open spec fn owned_by(owners: Map<Seq<char>, Seq<char>>, account: Seq<char>) -> Set<Seq<char>> {
    owners.dom().filter(|t: Seq<char>| owners[t] == account)
}

/// Giving token `k` to `v` adds `k` to what `v` owns and takes it from
/// everyone else.
pub proof fn lemma_owned_after_insert(
    m: Map<Seq<char>, Seq<char>>,
    k: Seq<char>,
    v: Seq<char>,
    a: Seq<char>,
)
    ensures
        v == a ==> owned_by(m.insert(k, v), a) == owned_by(m, a).insert(k),
        v != a ==> owned_by(m.insert(k, v), a) == owned_by(m, a).remove(k),
{
    if v == a {
        assert(owned_by(m.insert(k, v), a) =~= owned_by(m, a).insert(k));
    } else {
        assert(owned_by(m.insert(k, v), a) =~= owned_by(m, a).remove(k));
    }
}

/// Whether a token id is short enough for every storage key the ledger
/// builds from it: the runtime refuses keys over 2048 bytes, a character takes
/// at most 4 bytes, and the longest prefix the ledger adds is under 50 bytes.
pub open spec fn fits_key(id: Seq<char>) -> bool {
    id.len() <= 400
}

/// Whether a stored text is short enough for the runtime's 4 MiB limit on a
/// stored value, with four such texts in one display block.
pub open spec fn fits_value(s: Seq<char>) -> bool {
    s.len() <= 100_000
}

/// Whether an optional stored text fits.
pub open spec fn opt_fits_value(o: Option<String>) -> bool {
    o is None || fits_value(o.unwrap()@)
}

/// Whether a transfer memo leaves the transfer's log line under the runtime's
/// 16384-byte limit: a character takes at most 6 bytes once escaped, and the
/// rest of the line (a token id that fits a key, two account ids) stays
/// under 3000 bytes.
pub open spec fn fits_log(memo: Option<String>) -> bool {
    memo is None || memo.unwrap()@.len() <= 2000
}

/// Whether `c` is one of the separators `-`, `_` and `.`.
pub open spec fn is_separator(c: char) -> bool {
    c == '-' || c == '_' || c == '.'
}

/// Whether `c` may stand in an account id.
pub open spec fn is_account_char(c: char) -> bool {
    ('a' <= c && c <= 'z') || ('0' <= c && c <= '9') || is_separator(c)
}

/// Whether a string is a well-formed account id: 2 to 64 characters of
/// `a-z`, `0-9`, `-`, `_` and `.`, with no separator first, last, or next to
/// another.
pub open spec fn is_account_id(s: Seq<char>) -> bool {
    &&& 2 <= s.len() <= 64
    &&& forall|i: int| 0 <= i < s.len() ==> is_account_char(#[trigger] s[i])
    &&& !is_separator(s[0])
    &&& !is_separator(s[s.len() - 1])
    &&& forall|i: int| 0 <= i < s.len() - 1 ==> !(is_separator(#[trigger] s[i]) && is_separator(s[i + 1]))
}

/// Relies on near_sdk::AccountId::validate: whether the string is an account id.
#[verifier::external_body]
pub fn valid_account(s: &String) -> (r: bool)
    ensures
        r == is_account_id(s@),
{
    AccountId::validate(s).is_ok()
}

/// A storage region that no ledger of this storage has used: its key was
/// absent when it was claimed, and claiming writes it. Only `claim_region`
/// makes one, and `ledger_new` consumes it.
pub struct StorageRegion {
    prefix: Vec<u8>,
}

impl StorageRegion {
    pub closed spec fn prefix(&self) -> Seq<u8> {
        self.prefix@
    }
}

/// Relies on near_sdk::env::storage_write, which reports whether the key held
/// a value already: a region is handed out only when its key was free.
#[verifier::external_body]
pub(crate) fn claim_region(prefix: Vec<u8>) -> (r: Option<StorageRegion>)
    ensures
        r matches Some(g) ==> g.prefix() == prefix@,
{
    let taken = near_sdk::env::storage_write(&prefix, b"ledger");
    (!taken).then_some(StorageRegion { prefix })
}

/// Relies on NonFungibleToken::new: a ledger with no tokens, owned by
/// `owner`, with its tables and the metadata, enumeration and approval
/// extensions under the given keys. Each key is the region's prefix and one
/// more byte, the four bytes differ, and the region was unused, so no entry
/// lies under any of them yet.
#[verifier::external_body]
pub(crate) fn ledger_new(
    region: StorageRegion,
    owners_key: Vec<u8>,
    metadata_key: Vec<u8>,
    enumeration_key: Vec<u8>,
    approval_key: Vec<u8>,
    owner: &String,
) -> (r: NonFungibleToken)
    requires
        is_account_id(owner@),
        owners_key@.len() == region.prefix().len() + 1,
        metadata_key@.len() == region.prefix().len() + 1,
        enumeration_key@.len() == region.prefix().len() + 1,
        approval_key@.len() == region.prefix().len() + 1,
        owners_key@.drop_last() == region.prefix(),
        metadata_key@.drop_last() == region.prefix(),
        enumeration_key@.drop_last() == region.prefix(),
        approval_key@.drop_last() == region.prefix(),
        seq![owners_key@.last(), metadata_key@.last(), enumeration_key@.last(), approval_key@.last()].no_duplicates(),
    ensures
        ledger_owners(r).dom() == Set::<Seq<char>>::empty(),
        ledger_displays(r).dom() == Set::<Seq<char>>::empty(),
{
    let owner_id: AccountId = owner.parse().unwrap();
    NonFungibleToken::new(owners_key, owner_id, Some(metadata_key), Some(enumeration_key), Some(approval_key))
}

/// Relies on NonFungibleToken's `owner_by_id` table (TreeMap::get): the owner
/// of `token_id`, when the token exists. The runtime aborts on a key over its
/// limit, which `requires` leaves out.
#[verifier::external_body]
pub(crate) fn ledger_owner(l: &NonFungibleToken, token_id: &String) -> (r: Option<String>)
    requires
        fits_key(token_id@),
    ensures
        r is Some <==> ledger_owners(*l).contains_key(token_id@),
        r matches Some(o) ==> o@ == ledger_owners(*l)[token_id@],
{
    l.owner_by_id.get(token_id).map(String::from)
}

/// Relies on NonFungibleToken::internal_mint_with_refund with no refund: it
/// records `owner` as the owner of the new token `token_id`, stores the
/// display block built from the given fields, and returns the token with
/// that block. It panics on an id that is already taken, and the runtime
/// aborts on a key or a value over its limits, which `requires` leaves out.
#[verifier::external_body]
pub(crate) fn ledger_mint(
    l: &mut NonFungibleToken,
    token_id: String,
    owner: &String,
    display: TokenDisplay,
) -> (r: TokenRecord)
    requires
        !ledger_owners(*old(l)).contains_key(token_id@),
        is_account_id(owner@),
        fits_key(token_id@),
        opt_fits_value(display.title),
        opt_fits_value(display.description),
        opt_fits_value(display.media),
        opt_fits_value(display.issued_at),
    ensures
        ledger_owners(*final(l)) == ledger_owners(*old(l)).insert(token_id@, owner@),
        ledger_displays(*final(l)) == ledger_displays(*old(l)).insert(token_id@, display@),
        r.token_id@ == token_id@,
        r.owner_id@ == owner@,
        r.display == Some(display),
{
    let d = display;
    let md = TokenMetadata { title: d.title, description: d.description, media: d.media, copies: d.copies, issued_at: d.issued_at, ..Default::default() };
    let t = l.internal_mint_with_refund(token_id, owner.parse().unwrap(), Some(md), None);
    let display = t.metadata.map(|m| TokenDisplay { title: m.title, description: m.description, media: m.media, copies: m.copies, issued_at: m.issued_at });
    TokenRecord { token_id: t.token_id, owner_id: t.owner_id.to_string(), display }
}

/// Relies on NonFungibleToken::internal_transfer called with the token's
/// owner as sender: it clears the token's approvals, makes `receiver` its
/// owner, leaves its display block alone and logs the transfer. It panics on
/// an unknown token or a receiver that already owns it, and the runtime
/// aborts on a key or a log line over its limits, which `requires` leaves out; the per-owner index it also updates holds every owner that
/// the ledger's own mint recorded.
#[verifier::external_body]
pub(crate) fn ledger_transfer(
    l: &mut NonFungibleToken,
    owner: &String,
    receiver: &String,
    token_id: &String,
    approval_id: Option<u64>,
    memo: Option<String>,
)
    requires
        ledger_owners(*old(l)).contains_key(token_id@),
        ledger_owners(*old(l))[token_id@] == owner@,
        owner@ != receiver@,
        is_account_id(owner@),
        is_account_id(receiver@),
        fits_key(token_id@),
        fits_log(memo),
    ensures
        ledger_owners(*final(l)) == ledger_owners(*old(l)).insert(token_id@, receiver@),
        ledger_displays(*final(l)) == ledger_displays(*old(l)),
{
    let owner_id: AccountId = owner.parse().unwrap();
    let receiver_id: AccountId = receiver.parse().unwrap();
    l.internal_transfer(&owner_id, &receiver_id, token_id, approval_id, memo);
}

/// Relies on NonFungibleToken's `nft_token`: the token's id, owner and stored
/// display block, present exactly when the token exists. The runtime aborts
/// on a key over its limit, which `requires` leaves out.
#[verifier::external_body]
pub(crate) fn ledger_token(l: &NonFungibleToken, token_id: &String) -> (r: Option<TokenRecord>)
    requires
        fits_key(token_id@),
    ensures
        r is Some <==> ledger_owners(*l).contains_key(token_id@),
        r matches Some(t) ==> t.token_id@ == token_id@ && t.owner_id@ == ledger_owners(*l)[token_id@]
            && (ledger_displays(*l).contains_key(token_id@) ==> t.display is Some && t.display.unwrap()@ == ledger_displays(*l)[token_id@]),
{
    near_contract_standards::non_fungible_token::core::NonFungibleTokenCore::nft_token(l, token_id.clone()).map(|t| TokenRecord {
        token_id: t.token_id,
        owner_id: t.owner_id.to_string(),
        display: t.metadata.map(|m| TokenDisplay { title: m.title, description: m.description, media: m.media, copies: m.copies, issued_at: m.issued_at }),
    })
}

/// Relies on the length of NonFungibleToken's `owner_by_id` table
/// (TreeMap::len): the number of tokens.
#[verifier::external_body]
pub(crate) fn ledger_len(l: &NonFungibleToken) -> (r: u64)
    ensures
        r == ledger_owners(*l).dom().len(),
{
    l.owner_by_id.len()
}

/// Relies on NonFungibleToken's `nft_supply_for_owner`, which counts the
/// account's entry in the per-owner index that mint and transfer keep.
#[verifier::external_body]
pub(crate) fn ledger_supply_for_owner(l: &NonFungibleToken, account: &String) -> (r: u128)
    requires
        is_account_id(account@),
    ensures
        r == owned_by(ledger_owners(*l), account@).len(),
{
    let account_id: AccountId = account.parse().unwrap();
    l.nft_supply_for_owner(account_id).0
}

/// Relies on NonFungibleToken's `nft_tokens`, which walks the `owner_by_id`
/// table (a TreeMap, ascending ids) from position `from_index` and takes at
/// most `limit` tokens. It panics on a start past the end or a limit of zero,
/// and casts both to `usize`, which `requires` keeps in range.
#[verifier::external_body]
pub(crate) fn ledger_tokens(l: &NonFungibleToken, from_index: u128, limit: u64) -> (r: Vec<TokenRecord>)
    requires
        from_index <= ledger_owners(*l).dom().len(),
        0 < limit <= usize::MAX,
        from_index <= usize::MAX,
        forall|t: Seq<char>| #[trigger] ledger_owners(*l).contains_key(t) ==> fits_key(t),
    ensures
        r@.len() == vstd::math::min(limit as int, ledger_owners(*l).dom().len() - from_index),
        forall|i: int|
            0 <= i < r@.len() ==> {
                let t = #[trigger] r@[i];
                &&& ledger_owners(*l).contains_key(t.token_id@)
                &&& rank(ledger_owners(*l).dom(), t.token_id@) == from_index + i
                &&& t.owner_id@ == ledger_owners(*l)[t.token_id@]
                &&& (ledger_displays(*l).contains_key(t.token_id@) ==> t.display is Some
                    && t.display.unwrap()@ == ledger_displays(*l)[t.token_id@])
            },
{
    l.nft_tokens(Some(U128(from_index)), Some(limit)).into_iter().map(|t| TokenRecord {
        token_id: t.token_id,
        owner_id: t.owner_id.to_string(),
        display: t.metadata.map(|m| TokenDisplay { title: m.title, description: m.description, media: m.media, copies: m.copies, issued_at: m.issued_at }),
    }).collect()
}

/// The per-owner index of a token ledger: account name to the ids it owns,
/// in the index's order.
pub uninterp spec fn ledger_owner_lists(l: NonFungibleToken) -> Map<Seq<char>, Seq<Seq<char>>>;

/// Relies on NonFungibleToken's `nft_tokens_for_owner`, which walks the
/// account's set in the per-owner index (an UnorderedSet, which mint and
/// transfer keep equal to the tokens the account owns, each once) from
/// position `from_index` and takes at most `limit` tokens. It panics on a
/// start at or past the end or a limit of zero, and casts both to `usize`,
/// which `requires` keeps in range.
#[verifier::external_body]
pub(crate) fn ledger_tokens_for_owner(
    l: &NonFungibleToken,
    account: &String,
    from_index: u128,
    limit: u64,
) -> (r: Vec<TokenRecord>)
    requires
        is_account_id(account@),
        from_index < owned_by(ledger_owners(*l), account@).len(),
        0 < limit <= usize::MAX,
        from_index <= usize::MAX,
        forall|t: Seq<char>| #[trigger] ledger_owners(*l).contains_key(t) ==> fits_key(t),
    ensures
        r@.len() == vstd::math::min(
            limit as int,
            owned_by(ledger_owners(*l), account@).len() - from_index,
        ),
        from_index + r@.len() <= ledger_owner_lists(*l)[account@].len(),
        forall|i: int, j: int|
            0 <= i < r@.len() && 0 <= j < ledger_owner_lists(*l)[account@].len() && j != from_index
                + i ==> #[trigger] ledger_owner_lists(*l)[account@][j] != (#[trigger] r@[i]).token_id@,
        forall|i: int|
            0 <= i < r@.len() ==> {
                let t = #[trigger] r@[i];
                &&& t.token_id@ == ledger_owner_lists(*l)[account@][from_index + i]
                &&& owned_by(ledger_owners(*l), account@).contains(t.token_id@)
                &&& t.owner_id@ == account@
                &&& (ledger_displays(*l).contains_key(t.token_id@) ==> t.display is Some
                    && t.display.unwrap()@ == ledger_displays(*l)[t.token_id@])
            },
{
    let account_id: AccountId = account.parse().unwrap();
    l.nft_tokens_for_owner(account_id, Some(U128(from_index)), Some(limit)).into_iter().map(|t| TokenRecord {
        token_id: t.token_id,
        owner_id: t.owner_id.to_string(),
        display: t.metadata.map(|m| TokenDisplay { title: m.title, description: m.description, media: m.media, copies: m.copies, issued_at: m.issued_at }),
    }).collect()
}

} // verus!
