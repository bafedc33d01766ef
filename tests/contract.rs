use plant_nft::contract::{Contract, ContractError};
use plant_nft::gate::{mint_authorized, transfer_authorized, AllowList};
use plant_nft::ledger::valid_account;
use plant_nft::plant::{PlantMetadata, PlantParameter, PlantParameters};
use plant_nft::registry::MetadataRegistry;

fn param(score: u8, why: &str) -> PlantParameter {
    PlantParameter { score, explanation: why.to_string() }
}

fn plant(name: &str, price: &str) -> PlantMetadata {
    PlantMetadata {
        glb_file_url: "https://example.org/fern.glb".to_string(),
        parameters: PlantParameters {
            color_vibrancy: param(90, "deep green"),
            leaf_area_index: param(70, "dense"),
            wilting: param(5, "none"),
            spotting: param(10, "few spots"),
            symmetry: param(80, "even"),
        },
        name: name.to_string(),
        wallet_id: "wallet.testnet".to_string(),
        price: price.to_string(),
    }
}

fn s(x: &str) -> String {
    x.to_string()
}

fn fresh() -> Contract {
    Contract::new(s("a.testnet")).unwrap()
}

#[test]
fn fern_scenario() {
    let mut c = fresh();
    let token = c
        .nft_mint(&s("a.testnet"), s("token-1"), plant("Fern", "1000000000000000000000"), s("b.testnet"), s("7"))
        .unwrap();
    assert_eq!(token.token_id, "token-1");
    assert_eq!(token.owner_id, "b.testnet");
    let md = token.display.unwrap();
    assert_eq!(md.title.as_deref(), Some("Fern"));
    assert_eq!(md.description.as_deref(), Some("Plant NFT"));
    assert_eq!(md.media.as_deref(), Some("https://example.org/fern.glb"));
    assert_eq!(md.copies, Some(1));
    assert_eq!(md.issued_at.as_deref(), Some("7"));

    let m = c.get_plant_metadata(s("token-1")).unwrap();
    assert_eq!(m.name, "Fern");
    assert_eq!(m.price, "1000000000000000000000");
    assert_eq!(m.parameters.symmetry.score, 80);

    let r = c.nft_transfer(&s("c.testnet"), s("d.testnet"), s("token-1"), None, None);
    assert_eq!(r, Err(ContractError::AuthorizationError));
    assert_eq!(c.owner_of(&s("token-1")), Some(s("b.testnet")));

    let r = c.nft_transfer(&s("hackcanada.testnet"), s("d.testnet"), s("token-1"), None, None);
    assert_eq!(r, Ok(()));
    assert_eq!(c.owner_of(&s("token-1")), Some(s("d.testnet")));
    let t = c.nft_token(s("token-1")).unwrap();
    assert_eq!(t.token_id, "token-1");
    assert_eq!(t.owner_id, "d.testnet");
    assert_eq!(t.display.unwrap().title.as_deref(), Some("Fern"));
    assert!(c.nft_token(s("token-2")).is_none());
}

#[test]
fn second_contract_in_one_storage_is_refused() {
    let mut c = fresh();
    c.nft_mint(&s("a.testnet"), s("t1"), plant("Fern", "1"), s("b.testnet"), s("1")).unwrap();
    assert_eq!(Contract::new(s("a.testnet")).err(), Some(ContractError::StorageInUse));
    assert_eq!(c.owner_of(&s("t1")), Some(s("b.testnet")));
}

#[test]
fn first_page_holds_one_token() {
    let mut c = fresh();
    c.nft_mint(&s("a.testnet"), s("token-1"), plant("Fern", "1"), s("b.testnet"), s("1")).unwrap();
    c.nft_mint(&s("a.testnet"), s("token-2"), plant("Moss", "2"), s("b.testnet"), s("2")).unwrap();
    assert_eq!(c.nft_total_supply(), 2);
    let page = c.nft_tokens(Some(0), Some(1)).unwrap();
    assert_eq!(page.len(), 1);
    assert_eq!(page[0].token_id, "token-1");
    assert_eq!(page[0].owner_id, "b.testnet");
    assert_eq!(page[0].display.as_ref().unwrap().title.as_deref(), Some("Fern"));
    assert_eq!(c.nft_tokens(None, None).unwrap().len(), 2);
    assert_eq!(c.nft_tokens(Some(1), Some(5)).unwrap()[0].token_id, "token-2");
    assert!(c.nft_tokens(Some(2), None).unwrap().is_empty());
    assert_eq!(c.nft_tokens(Some(3), None).err(), Some(ContractError::InvalidPage));
    assert_eq!(c.nft_tokens(Some(0), Some(0)).err(), Some(ContractError::InvalidPage));
}

#[test]
fn owner_transfers_own_token() {
    let mut c = fresh();
    c.nft_mint(&s("a.testnet"), s("t"), plant("Fern", "1"), s("b.testnet"), s("1")).unwrap();
    assert_eq!(c.nft_transfer(&s("b.testnet"), s("e.testnet"), s("t"), None, None), Ok(()));
    assert_eq!(c.owner_of(&s("t")), Some(s("e.testnet")));
    assert!(c.get_plant_metadata(s("t")).is_some());
}

#[test]
fn duplicate_mint_changes_nothing() {
    let mut c = fresh();
    c.nft_mint(&s("a.testnet"), s("t"), plant("Fern", "1"), s("b.testnet"), s("1")).unwrap();
    let r = c.nft_mint(&s("a.testnet"), s("t"), plant("Moss", "2"), s("e.testnet"), s("2"));
    assert_eq!(r.err(), Some(ContractError::DuplicateError));
    assert_eq!(c.get_plant_metadata(s("t")).unwrap().name, "Fern");
    assert_eq!(c.owner_of(&s("t")), Some(s("b.testnet")));
    assert_eq!(c.nft_total_supply(), 1);
}

#[test]
fn stranger_cannot_mint() {
    let mut c = fresh();
    let r = c.nft_mint(&s("b.testnet"), s("t"), plant("Fern", "1"), s("b.testnet"), s("1"));
    assert_eq!(r.err(), Some(ContractError::AuthorizationError));
    assert!(c.get_plant_metadata(s("t")).is_none());
    assert!(c.nft_token(s("t")).is_none());
    assert_eq!(c.nft_total_supply(), 0);
}

#[test]
fn mint_refuses_malformed_receiver() {
    let mut c = fresh();
    let r = c.nft_mint(&s("a.testnet"), s("t"), plant("Fern", "1"), s("Not An Account!"), s("1"));
    assert_eq!(r.err(), Some(ContractError::InvalidAccount));
    assert!(c.get_plant_metadata(s("t")).is_none());
}

#[test]
fn transfer_errors() {
    let mut c = fresh();
    assert_eq!(
        c.nft_transfer(&s("b.testnet"), s("d.testnet"), s("missing"), None, None),
        Err(ContractError::NotFoundError)
    );
    c.nft_mint(&s("a.testnet"), s("t"), plant("Fern", "1"), s("b.testnet"), s("1")).unwrap();
    assert_eq!(
        c.nft_transfer(&s("b.testnet"), s("BAD ID"), s("t"), None, None),
        Err(ContractError::InvalidAccount)
    );
    assert_eq!(
        c.nft_transfer(&s("b.testnet"), s("b.testnet"), s("t"), None, None),
        Err(ContractError::ReceiverIsOwner)
    );
    assert_eq!(c.owner_of(&s("t")), Some(s("b.testnet")));
}

#[test]
fn contract_owner_is_not_a_token_owner() {
    let mut c = fresh();
    c.nft_mint(&s("a.testnet"), s("t"), plant("Fern", "1"), s("b.testnet"), s("1")).unwrap();
    assert_eq!(
        c.nft_transfer(&s("a.testnet"), s("d.testnet"), s("t"), None, None),
        Err(ContractError::AuthorizationError)
    );
}

#[test]
fn new_refuses_malformed_owner() {
    assert_eq!(Contract::new(s("NOT VALID")).err(), Some(ContractError::InvalidAccount));
}

#[test]
fn unknown_token_has_no_record() {
    let c = fresh();
    assert!(c.get_plant_metadata(s("nothing")).is_none());
    assert!(c.owner_of(&s("nothing")).is_none());
    assert!(c.nft_tokens(None, None).unwrap().is_empty());
}

#[test]
fn collection_descriptor() {
    let c = fresh();
    let m = c.nft_metadata();
    assert_eq!(m.spec, "nft-1.0.0");
    assert_eq!(m.name, "Plant NFT Collection");
    assert_eq!(m.symbol, "PLANT");
}

#[test]
fn custom_allow_list() {
    let mut c = Contract::with_allow_list(s("a.testnet"), AllowList::new(vec![s("op.testnet")])).unwrap();
    c.nft_mint(&s("a.testnet"), s("t"), plant("Fern", "1"), s("b.testnet"), s("1")).unwrap();
    assert_eq!(
        c.nft_transfer(&s("hackcanada.testnet"), s("d.testnet"), s("t"), None, None),
        Err(ContractError::AuthorizationError)
    );
    assert_eq!(c.nft_transfer(&s("op.testnet"), s("d.testnet"), s("t"), Some(3), Some(s("memo"))), Ok(()));
    assert_eq!(c.owner_of(&s("t")), Some(s("d.testnet")));
}

#[test]
fn gate_decisions() {
    let ops = AllowList::operators();
    assert!(ops.contains(&s("lebronjamesnear.testnet")));
    assert!(ops.contains(&s("lhlrahman.testnet")));
    assert!(ops.contains(&s("hackcanada.testnet")));
    assert!(!ops.contains(&s("c.testnet")));
    assert!(transfer_authorized(&s("b"), &s("b"), &ops));
    assert!(transfer_authorized(&s("lhlrahman.testnet"), &s("b"), &ops));
    assert!(!transfer_authorized(&s("c"), &s("b"), &ops));
    assert!(mint_authorized(&s("a"), &s("a")));
    assert!(!mint_authorized(&s("b"), &s("a")));
}

#[test]
fn registry_keeps_first_record() {
    let mut r = MetadataRegistry::new();
    assert!(r.put(s("x"), plant("Fern", "1")));
    assert!(r.put(s("y"), plant("Moss", "2")));
    assert!(!r.put(s("x"), plant("Ivy", "3")));
    assert_eq!(r.get(&s("x")).unwrap().name, "Fern");
    assert_eq!(r.get(&s("y")).unwrap().price, "2");
    assert!(r.contains(&s("y")));
    assert!(r.get(&s("z")).is_none());
}

#[test]
fn account_validity() {
    assert!(valid_account(&s("alice.near")));
    assert!(!valid_account(&s("Alice")));
    assert!(!valid_account(&s("")));
}

#[test]
fn record_copy_keeps_fields() {
    let p = plant("Fern", "5");
    let q = p.duplicate();
    assert_eq!(q.name, "Fern");
    assert_eq!(q.parameters.wilting.score, 5);
    assert_eq!(q.parameters.spotting.explanation, "few spots");
}

#[test]
fn ids_come_in_ascending_order() {
    let mut c = fresh();
    c.nft_mint(&s("a.testnet"), s("token-2"), plant("Moss", "2"), s("b.testnet"), s("1")).unwrap();
    c.nft_mint(&s("a.testnet"), s("token-1"), plant("Fern", "1"), s("b.testnet"), s("2")).unwrap();
    c.nft_mint(&s("a.testnet"), s("token-10"), plant("Ivy", "3"), s("b.testnet"), s("3")).unwrap();
    let ids: Vec<String> = c.nft_tokens(None, None).unwrap().into_iter().map(|t| t.token_id).collect();
    assert_eq!(ids, vec![s("token-1"), s("token-10"), s("token-2")]);
    assert_eq!(c.nft_tokens(Some(0), Some(1)).unwrap()[0].token_id, "token-1");
    assert_eq!(c.nft_tokens(Some(2), Some(9)).unwrap()[0].token_id, "token-2");
    assert_eq!(c.nft_tokens(Some(4), None).err(), Some(ContractError::InvalidPage));
}

#[test]
fn supply_per_owner() {
    let mut c = fresh();
    c.nft_mint(&s("a.testnet"), s("t1"), plant("Fern", "1"), s("b.testnet"), s("1")).unwrap();
    c.nft_mint(&s("a.testnet"), s("t2"), plant("Moss", "2"), s("b.testnet"), s("2")).unwrap();
    c.nft_mint(&s("a.testnet"), s("t3"), plant("Ivy", "3"), s("e.testnet"), s("3")).unwrap();
    assert_eq!(c.nft_supply_for_owner(&s("b.testnet")), 2);
    assert_eq!(c.nft_supply_for_owner(&s("e.testnet")), 1);
    assert_eq!(c.nft_supply_for_owner(&s("z.testnet")), 0);
    assert_eq!(c.nft_supply_for_owner(&s("NOT VALID")), 0);
    c.nft_transfer(&s("b.testnet"), s("e.testnet"), s("t1"), None, None).unwrap();
    assert_eq!(c.nft_supply_for_owner(&s("b.testnet")), 1);
    assert_eq!(c.nft_supply_for_owner(&s("e.testnet")), 2);
}

#[test]
fn tokens_of_one_owner() {
    let mut c = fresh();
    c.nft_mint(&s("a.testnet"), s("t1"), plant("Fern", "1"), s("b.testnet"), s("1")).unwrap();
    c.nft_mint(&s("a.testnet"), s("t2"), plant("Moss", "2"), s("e.testnet"), s("2")).unwrap();
    c.nft_mint(&s("a.testnet"), s("t3"), plant("Ivy", "3"), s("b.testnet"), s("3")).unwrap();
    let mut ids: Vec<String> = c.nft_tokens_for_owner(&s("b.testnet"), None, None).unwrap().into_iter().map(|t| t.token_id).collect();
    ids.sort();
    assert_eq!(ids, vec![s("t1"), s("t3")]);
    let page = c.nft_tokens_for_owner(&s("b.testnet"), Some(1), Some(1)).unwrap();
    assert_eq!(page.len(), 1);
    assert_eq!(page[0].owner_id, "b.testnet");
    let first = c.nft_tokens_for_owner(&s("b.testnet"), Some(0), Some(1)).unwrap();
    assert_ne!(first[0].token_id, page[0].token_id);
    assert_eq!(c.nft_tokens_for_owner(&s("b.testnet"), Some(2), None).err(), Some(ContractError::InvalidPage));
    assert_eq!(c.nft_tokens_for_owner(&s("b.testnet"), None, Some(0)).err(), Some(ContractError::InvalidPage));
    assert!(c.nft_tokens_for_owner(&s("z.testnet"), Some(5), Some(0)).unwrap().is_empty());
    assert!(c.nft_tokens_for_owner(&s("BAD"), None, None).unwrap().is_empty());
}

#[test]
fn overlong_inputs_are_refused() {
    let mut c = fresh();
    let long_id = "x".repeat(401);
    let r = c.nft_mint(&s("a.testnet"), long_id.clone(), plant("Fern", "1"), s("b.testnet"), s("1"));
    assert_eq!(r.err(), Some(ContractError::TooLong));
    let long_name = "n".repeat(100_001);
    let r = c.nft_mint(&s("a.testnet"), s("t"), plant(&long_name, "1"), s("b.testnet"), s("1"));
    assert_eq!(r.err(), Some(ContractError::TooLong));
    assert!(c.nft_token(long_id.clone()).is_none());
    assert!(c.owner_of(&long_id).is_none());
    assert_eq!(
        c.nft_transfer(&s("b.testnet"), s("d.testnet"), long_id, None, None),
        Err(ContractError::NotFoundError)
    );
    let edge_id = "y".repeat(400);
    c.nft_mint(&s("a.testnet"), edge_id.clone(), plant("Fern", "1"), s("b.testnet"), s("1")).unwrap();
    assert_eq!(
        c.nft_transfer(&s("b.testnet"), s("d.testnet"), edge_id.clone(), None, Some("m".repeat(2001))),
        Err(ContractError::TooLong)
    );
    assert_eq!(c.nft_transfer(&s("b.testnet"), s("d.testnet"), edge_id.clone(), None, Some("m".repeat(2000))), Ok(()));
    assert_eq!(c.owner_of(&edge_id), Some(s("d.testnet")));
}
