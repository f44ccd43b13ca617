use mc_components::audited_mint::AuditedMint;
use mc_components::error::Error;
use mc_components::gnosis::{AuditedSafeConfig, AuditedToken, EthAddr, GnosisSafeDeposit};
use mc_components::mint_tx::{MintTx, TokenId};

fn addr(last: u8) -> EthAddr {
    let mut bytes = [0u8; 20];
    bytes[0] = 0xab;
    bytes[19] = last;
    EthAddr { bytes }
}

fn test_config() -> AuditedSafeConfig {
    AuditedSafeConfig {
        safe_addr: addr(1),
        tokens: vec![AuditedToken { token_id: TokenId::from(1), eth_token_contract_addr: addr(2) }],
    }
}

fn nonce_for(seed: u8) -> Vec<u8> {
    (0..8).map(|i| seed.wrapping_mul(31).wrapping_add(i)).collect()
}

/// A deposit of `amount` of the audited token into the audited safe.
fn create_deposit(amount: u64, seed: u8) -> GnosisSafeDeposit {
    GnosisSafeDeposit::new(None, addr(1), addr(2), amount, hex::encode(nonce_for(seed)))
}

/// Stores the deposit: it gets an id.
fn insert_deposit(deposit: &mut GnosisSafeDeposit, id: i32) {
    deposit.set_id(id);
}

/// Stores a MintTx of `amount` of token 1 with the nonce of `seed`, as the
/// database would: with the next id.
fn insert_mint_tx(table: &mut Vec<MintTx>, amount: u64, token_id: u64, seed: u8) -> MintTx {
    let mut tx = MintTx::from_core_mint_tx(
        5,
        None,
        token_id,
        amount,
        &nonce_for(seed),
        "recipient".to_string(),
        100,
        vec![1, 2, 3],
    );
    tx.set_inserted_id(table.len() as i32 + 1);
    table.push(tx.clone());
    tx
}

#[test]
fn test_attempt_match_deposit_with_mint_happy_flow() {
    let config = test_config();
    let mut mint_txs = Vec::new();
    let mut audited = Vec::new();

    let mut deposit1 = create_deposit(100, 1);
    let mut deposit2 = create_deposit(200, 2);
    insert_deposit(&mut deposit1, 1);
    insert_deposit(&mut deposit2, 2);

    // Initially the tables are empty.
    assert!(matches!(
        AuditedMint::attempt_match_deposit_with_mint(&deposit1, &config, &mint_txs, &mut audited),
        Err(Error::NotFound)
    ));
    assert!(matches!(
        AuditedMint::attempt_match_deposit_with_mint(&deposit1, &config, &mint_txs, &mut audited),
        Err(Error::NotFound)
    ));
    assert!(audited.is_empty());

    // Insert the first MintTx, we should get a match now.
    let mint_tx1 = insert_mint_tx(&mut mint_txs, 100, 1, 1);
    assert_eq!(
        mint_tx1,
        AuditedMint::attempt_match_deposit_with_mint(&deposit1, &config, &mint_txs, &mut audited)
            .unwrap()
    );
    assert_eq!(
        audited,
        vec![AuditedMint { id: None, mint_tx_id: 1, gnosis_safe_deposit_id: 1 }]
    );
    assert!(matches!(
        AuditedMint::attempt_match_deposit_with_mint(&deposit2, &config, &mint_txs, &mut audited),
        Err(Error::NotFound)
    ));

    // Insert the second MintTx, we should get a match on both.
    let mint_tx2 = insert_mint_tx(&mut mint_txs, 200, 1, 2);
    assert!(matches!(
        AuditedMint::attempt_match_deposit_with_mint(&deposit1, &config, &mint_txs, &mut audited),
        Err(Error::AlreadyExists(_))
    ));
    assert_eq!(
        mint_tx2,
        AuditedMint::attempt_match_deposit_with_mint(&deposit2, &config, &mint_txs, &mut audited)
            .unwrap()
    );

    // Trying again should return AlreadyExists
    match AuditedMint::attempt_match_deposit_with_mint(&deposit2, &config, &mint_txs, &mut audited) {
        Err(Error::AlreadyExists(msg)) => {
            assert_eq!(msg, "GnosisSafeDeposit id=2 already matched with mint_tx_id=2")
        }
        other => panic!("unexpected {:?}", other),
    }
    assert_eq!(audited.len(), 2);
}

#[test]
fn test_attempt_match_deposit_with_mint_amount_mismatch() {
    let config = test_config();
    let mut mint_txs = Vec::new();
    let mut audited = Vec::new();
    let mut deposit1 = create_deposit(100, 1);
    insert_deposit(&mut deposit1, 1);

    insert_mint_tx(&mut mint_txs, 101, 1, 1);
    match AuditedMint::attempt_match_deposit_with_mint(&deposit1, &config, &mint_txs, &mut audited) {
        Err(Error::DepositAndMintMismatch(msg)) => assert_eq!(
            msg,
            format!(
                "MintTx amount=101 does not match GnosisSafeDeposit amount=100 (nonce={})",
                hex::encode(nonce_for(1))
            )
        ),
        other => panic!("unexpected {:?}", other),
    }
    // Nothing was recorded.
    assert!(audited.is_empty());
}

#[test]
fn test_attempt_match_deposit_with_mint_unsaved_object() {
    let config = test_config();
    let mut mint_txs = Vec::new();
    let mut audited = Vec::new();
    let deposit1 = create_deposit(100, 1);
    insert_mint_tx(&mut mint_txs, 100, 1, 1);
    assert!(matches!(
        AuditedMint::attempt_match_deposit_with_mint(&deposit1, &config, &mint_txs, &mut audited),
        Err(Error::ObjectNotSaved)
    ));
    assert!(audited.is_empty());
}

#[test]
fn test_attempt_match_deposit_with_mint_mismatched_safe_address() {
    let mut config = test_config();
    let mut mint_txs = Vec::new();
    let mut audited = Vec::new();
    let mut deposit1 = create_deposit(100, 1);
    insert_deposit(&mut deposit1, 1);
    insert_mint_tx(&mut mint_txs, 100, 1, 1);

    config.safe_addr = EthAddr { bytes: [0u8; 20] };
    match AuditedMint::attempt_match_deposit_with_mint(&deposit1, &config, &mint_txs, &mut audited) {
        Err(Error::Other(msg)) => assert_eq!(
            msg,
            "Gnosis safe deposit address 0xab00000000000000000000000000000000000001 does not match audited safe address 0x0000000000000000000000000000000000000000"
        ),
        other => panic!("unexpected {:?}", other),
    }
    assert!(audited.is_empty());
}

#[test]
fn test_attempt_match_deposit_with_mint_mismatched_token_id() {
    let mut config = test_config();
    let mut mint_txs = Vec::new();
    let mut audited = Vec::new();
    let mut deposit1 = create_deposit(100, 1);
    insert_deposit(&mut deposit1, 1);
    insert_mint_tx(&mut mint_txs, 100, 1, 1);

    config.tokens[0].token_id = TokenId::from(123);
    match AuditedMint::attempt_match_deposit_with_mint(&deposit1, &config, &mint_txs, &mut audited) {
        Err(Error::DepositAndMintMismatch(msg)) => assert_eq!(
            msg,
            format!(
                "MintTx token_id=1 does not match audited token_=id123 (nonce={})",
                hex::encode(nonce_for(1))
            )
        ),
        other => panic!("unexpected {:?}", other),
    }
    assert!(audited.is_empty());
}

#[test]
fn test_attempt_match_deposit_with_mint_mismatched_token_address() {
    let mut config = test_config();
    let mut mint_txs = Vec::new();
    let mut audited = Vec::new();
    let mut deposit1 = create_deposit(100, 1);
    insert_deposit(&mut deposit1, 1);
    insert_mint_tx(&mut mint_txs, 100, 1, 1);

    config.tokens[0].eth_token_contract_addr = EthAddr { bytes: [0u8; 20] };
    match AuditedMint::attempt_match_deposit_with_mint(&deposit1, &config, &mint_txs, &mut audited) {
        Err(Error::Other(msg)) => assert_eq!(
            msg,
            "Gnosis safe deposit token address 0xab00000000000000000000000000000000000002 is not audited"
        ),
        other => panic!("unexpected {:?}", other),
    }
    assert!(audited.is_empty());
}

#[test]
fn test_find_unaudited_mint_tx_by_nonce() {
    let mut mint_txs = Vec::new();
    let mut audited = Vec::new();
    let nonce1 = hex::encode(nonce_for(1));
    let nonce2 = hex::encode(nonce_for(2));

    // Not inserted yet: not found.
    assert!(MintTx::find_unaudited_mint_tx_by_nonce(&nonce1, &mint_txs, &audited).is_none());
    assert!(MintTx::find_unaudited_mint_tx_by_nonce(&nonce2, &mint_txs, &audited).is_none());

    // Insert the first MintTx, it should now be found.
    let sql_mint_tx1 = insert_mint_tx(&mut mint_txs, 100, 1, 1);
    assert_eq!(
        MintTx::find_unaudited_mint_tx_by_nonce(&nonce1, &mint_txs, &audited).unwrap(),
        sql_mint_tx1
    );
    assert!(MintTx::find_unaudited_mint_tx_by_nonce(&nonce2, &mint_txs, &audited).is_none());

    // Insert the second MintTx, they should both be found.
    let sql_mint_tx2 = insert_mint_tx(&mut mint_txs, 100, 1, 2);
    assert_eq!(
        MintTx::find_unaudited_mint_tx_by_nonce(&nonce1, &mint_txs, &audited).unwrap(),
        sql_mint_tx1
    );
    assert_eq!(
        MintTx::find_unaudited_mint_tx_by_nonce(&nonce2, &mint_txs, &audited).unwrap(),
        sql_mint_tx2
    );
    assert_eq!(MintTx::find_unaudited_mint_txs(&mint_txs, &audited), mint_txs);

    // Mark the first MintTx as audited. We should no longer be able to find it.
    audited.push(AuditedMint {
        id: None,
        mint_tx_id: sql_mint_tx1.id().unwrap(),
        gnosis_safe_deposit_id: 1,
    });
    assert!(MintTx::find_unaudited_mint_tx_by_nonce(&nonce1, &mint_txs, &audited).is_none());
    assert_eq!(
        MintTx::find_unaudited_mint_tx_by_nonce(&nonce2, &mint_txs, &audited).unwrap(),
        sql_mint_tx2
    );
    assert_eq!(MintTx::find_unaudited_mint_txs(&mint_txs, &audited), vec![sql_mint_tx2.clone()]);

    // Mark the second mint as audited. We should no longer be able to find it.
    audited.push(AuditedMint {
        id: None,
        mint_tx_id: sql_mint_tx2.id().unwrap(),
        gnosis_safe_deposit_id: 2,
    });
    assert!(MintTx::find_unaudited_mint_tx_by_nonce(&nonce1, &mint_txs, &audited).is_none());
    assert!(MintTx::find_unaudited_mint_tx_by_nonce(&nonce2, &mint_txs, &audited).is_none());
    assert!(MintTx::find_unaudited_mint_txs(&mint_txs, &audited).is_empty());
}

#[test]
fn matched_mint_is_not_matched_again_by_another_deposit() {
    let config = test_config();
    let mut mint_txs = Vec::new();
    let mut audited = Vec::new();
    let mut deposit1 = create_deposit(100, 1);
    let mut deposit1_again = create_deposit(100, 1);
    insert_deposit(&mut deposit1, 1);
    insert_deposit(&mut deposit1_again, 9);
    insert_mint_tx(&mut mint_txs, 100, 1, 1);
    assert!(
        AuditedMint::attempt_match_deposit_with_mint(&deposit1, &config, &mint_txs, &mut audited)
            .is_ok()
    );
    assert!(matches!(
        AuditedMint::attempt_match_deposit_with_mint(
            &deposit1_again,
            &config,
            &mint_txs,
            &mut audited
        ),
        Err(Error::NotFound)
    ));
    assert_eq!(audited.len(), 1);
}

#[test]
fn mint_tx_columns_read_back_what_was_written() {
    let tx = MintTx::from_core_mint_tx(
        u64::MAX,
        Some(4),
        7,
        u64::MAX - 1,
        &[0x0a, 0xff, 0x00, 0x9c],
        "b58".to_string(),
        1 << 63,
        vec![9, 8],
    );
    assert_eq!(tx.id(), None);
    assert_eq!(tx.block_index(), u64::MAX);
    assert_eq!(tx.token_id(), TokenId(7));
    assert_eq!(tx.amount(), u64::MAX - 1);
    assert_eq!(tx.nonce_hex(), "0aff009c");
    assert_eq!(tx.recipient_b58_address(), "b58");
    assert_eq!(tx.tombstone_block(), 1 << 63);
    assert_eq!(tx.mint_config_id(), Some(4));
    assert_eq!(tx.protobuf(), &[9, 8]);

    let mut stored = tx.clone();
    stored.set_inserted_id(12);
    assert_eq!(stored.id(), Some(12));
    assert_eq!(stored.nonce_hex(), "0aff009c");

    let row = MintTx::from_row(
        Some(12),
        -1,
        7,
        -2,
        "0aff009c".to_string(),
        "b58".to_string(),
        i64::MIN,
        vec![9, 8],
        Some(4),
    );
    assert_eq!(row, stored);
}

#[test]
fn audited_token_lookup_takes_the_first_match() {
    let config = AuditedSafeConfig {
        safe_addr: addr(1),
        tokens: vec![
            AuditedToken { token_id: TokenId(1), eth_token_contract_addr: addr(3) },
            AuditedToken { token_id: TokenId(2), eth_token_contract_addr: addr(4) },
            AuditedToken { token_id: TokenId(3), eth_token_contract_addr: addr(4) },
        ],
    };
    assert_eq!(config.get_token_by_eth_contract_addr(&addr(4)).unwrap().token_id, TokenId(2));
    assert_eq!(config.get_token_by_eth_contract_addr(&addr(3)).unwrap().token_id, TokenId(1));
    assert!(config.get_token_by_eth_contract_addr(&addr(5)).is_none());
}

#[test]
fn eth_addr_text_and_equality() {
    assert_eq!(addr(0x1f).to_hex_string(), "0xab0000000000000000000000000000000000001f");
    assert!(addr(1) == addr(1));
    assert!(addr(1) != addr(2));
}

#[test]
fn deposit_getters() {
    let mut d = GnosisSafeDeposit::new(None, addr(1), addr(2), 55, "00ff".to_string());
    assert_eq!(d.id(), None);
    d.set_id(3);
    assert_eq!(d.id(), Some(3));
    assert!(d.safe_address() == &addr(1));
    assert!(d.token_address() == &addr(2));
    assert_eq!(d.amount(), 55);
    assert_eq!(d.expected_mc_mint_tx_nonce_hex(), "00ff");
}

#[test]
fn matching_removes_only_the_matched_mint_from_the_unaudited_list() {
    let config = test_config();
    let mut mint_txs = Vec::new();
    let mut audited = Vec::new();
    let mut deposit2 = create_deposit(200, 2);
    insert_deposit(&mut deposit2, 7);
    let tx1 = insert_mint_tx(&mut mint_txs, 100, 1, 1);
    let tx2 = insert_mint_tx(&mut mint_txs, 200, 1, 2);
    let tx3 = insert_mint_tx(&mut mint_txs, 300, 1, 3);
    let before = MintTx::find_unaudited_mint_txs(&mint_txs, &audited);
    assert_eq!(before, vec![tx1.clone(), tx2.clone(), tx3.clone()]);
    let matched =
        AuditedMint::attempt_match_deposit_with_mint(&deposit2, &config, &mint_txs, &mut audited)
            .unwrap();
    assert_eq!(matched, tx2);
    assert_eq!(MintTx::find_unaudited_mint_txs(&mint_txs, &audited), vec![tx1, tx3]);
}

#[test]
fn newly_stored_mint_joins_the_unaudited_list() {
    let mut mint_txs = Vec::new();
    let tx1 = insert_mint_tx(&mut mint_txs, 100, 1, 1);
    let audited =
        vec![AuditedMint { id: None, mint_tx_id: tx1.id().unwrap(), gnosis_safe_deposit_id: 1 }];
    let before = MintTx::find_unaudited_mint_txs(&mint_txs, &audited);
    assert!(before.is_empty());
    let tx2 = insert_mint_tx(&mut mint_txs, 200, 1, 2);
    assert_eq!(MintTx::find_unaudited_mint_txs(&mint_txs, &audited), vec![tx2]);
}
