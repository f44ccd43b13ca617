//! Matching deposits into the audited Gnosis safe with MintTxs.
use crate::error::Error;
use crate::gnosis::{
    spec_token_from, AuditedSafeConfig, AuditedToken, EthAddr, GnosisSafeDeposit,
    GnosisSafeDepositView,
};
use crate::mint_tx::{
    is_audited, is_unaudited_with_nonce, lemma_lookup_by_nonce_finds_first_unmatched,
    mint_tx_views, spec_unaudited, spec_unaudited_by_nonce, MintTx, MintTxView, TokenId,
};
use crate::number_text::{decimal_text, i32_text, u64_text};
use vstd::prelude::*;
use vstd::string::StringExecFns;

verus! {

/// A row of the `audited_mints` table: a MintTx matched with the Gnosis safe
/// deposit that backs it.
#[derive(Clone, Debug, PartialEq, Eq, Hash, Structural)]
pub struct AuditedMint {
    /// Id (required to keep Diesel happy).
    pub id: Option<i32>,
    /// Id pointing to the MintTx table.
    pub mint_tx_id: i32,
    /// Id pointing to the GnosisSafeDeposit table.
    pub gnosis_safe_deposit_id: i32,
}

/// How an attempt to match a deposit with a MintTx ends.
pub enum MatchOutcome {
    /// The deposit is matched with this MintTx.
    Matched(MintTxView),
    /// The deposit has not been saved, so it has no id.
    DepositNotSaved,
    /// The deposit went into another safe than the audited one.
    SafeMismatch,
    /// The deposited token is not among the audited tokens of the safe.
    TokenNotAudited,
    /// A row of `audited_mints` already points at the deposit: this one is
    /// the first.
    DepositAlreadyMatched(AuditedMint),
    /// No MintTx has the deposit's nonce without being matched already.
    NoMintTx,
    /// The MintTx with the deposit's nonce mints another amount.
    AmountMismatch(MintTxView),
    /// The MintTx with the deposit's nonce mints another token than this
    /// audited one.
    TokenMismatch(MintTxView, AuditedToken),
}

/// The first row of `audited_mints`, from index `i` on, that points at the
/// deposit with this id.
pub open spec fn spec_match_of_deposit_from(
    deposit_id: i32,
    audited_mints: Seq<AuditedMint>,
    i: int,
) -> Option<AuditedMint>
    decreases audited_mints.len() - i,
{
    if i < 0 || i >= audited_mints.len() {
        None
    } else if audited_mints[i].gnosis_safe_deposit_id == deposit_id {
        Some(audited_mints[i])
    } else {
        spec_match_of_deposit_from(deposit_id, audited_mints, i + 1)
    }
}

/// A row is found from index `i` on exactly when one from there on points at
/// the deposit, and the row found does.
pub proof fn lemma_match_of_deposit_from(deposit_id: i32, audited_mints: Seq<AuditedMint>, i: int)
    requires
        0 <= i,
    ensures
        spec_match_of_deposit_from(deposit_id, audited_mints, i) is Some <==> exists|j: int|
            i <= j < audited_mints.len() && audited_mints[j].gnosis_safe_deposit_id == deposit_id,
        spec_match_of_deposit_from(deposit_id, audited_mints, i) matches Some(row)
            ==> row.gnosis_safe_deposit_id == deposit_id,
    decreases audited_mints.len() - i,
{
    if i < audited_mints.len() {
        lemma_match_of_deposit_from(deposit_id, audited_mints, i + 1);
        if exists|j: int|
            i <= j < audited_mints.len() && audited_mints[j].gnosis_safe_deposit_id == deposit_id {
            let j = choose|j: int|
                i <= j < audited_mints.len() && audited_mints[j].gnosis_safe_deposit_id
                    == deposit_id;
            if j > i {
                assert(i + 1 <= j < audited_mints.len());
            }
        }
    }
}

/// How matching the deposit against the tables ends: the checks are made in
/// this order, and the first that fails decides.
pub open spec fn spec_match_outcome(
    deposit: GnosisSafeDepositView,
    config: AuditedSafeConfig,
    mint_txs: Seq<MintTxView>,
    audited_mints: Seq<AuditedMint>,
) -> MatchOutcome {
    match deposit.id {
        None => MatchOutcome::DepositNotSaved,
        Some(deposit_id) => if deposit.safe_addr@ != config.safe_addr@ {
            MatchOutcome::SafeMismatch
        } else {
            match config.spec_token_by_eth_contract_addr(deposit.token_addr) {
                None => MatchOutcome::TokenNotAudited,
                Some(token) => match spec_match_of_deposit_from(deposit_id, audited_mints, 0) {
                    Some(existing) => MatchOutcome::DepositAlreadyMatched(existing),
                    None => match spec_unaudited_by_nonce(
                        mint_txs,
                        deposit.expected_mc_mint_tx_nonce_hex,
                        audited_mints,
                    ) {
                        None => MatchOutcome::NoMintTx,
                        Some(tx) => if tx.amount as u64 != deposit.amount {
                            MatchOutcome::AmountMismatch(tx)
                        } else if token.token_id != TokenId(tx.token_id as u64) {
                            MatchOutcome::TokenMismatch(tx, token)
                        } else {
                            MatchOutcome::Matched(tx)
                        },
                    },
                },
            }
        },
    }
}

/// The row that records the match of the deposit with this id and the MintTx.
pub open spec fn spec_match_row(tx: MintTxView, deposit_id: i32) -> AuditedMint {
    AuditedMint { id: None, mint_tx_id: tx.id->0, gnosis_safe_deposit_id: deposit_id }
}

/// Every MintTx in the table has an id, which the database gives it on insert.
pub open spec fn all_saved(mint_txs: Seq<MintTx>) -> bool {
    forall|i: int| 0 <= i < mint_txs.len() ==> (#[trigger] mint_txs[i])@.id is Some
}

/// What an attempt returns, and does to `audited_mints`, given how it ends.
pub open spec fn match_result_agrees(
    outcome: MatchOutcome,
    deposit: GnosisSafeDepositView,
    config: AuditedSafeConfig,
    old_audited: Seq<AuditedMint>,
    new_audited: Seq<AuditedMint>,
    res: Result<MintTx, Error>,
) -> bool {
    match outcome {
        MatchOutcome::Matched(tx) => {
            &&& res matches Ok(m) && m@ == tx
            &&& new_audited == old_audited.push(spec_match_row(tx, deposit.id->0))
        },
        _ => {
            &&& new_audited == old_audited
            &&& match outcome {
                MatchOutcome::DepositNotSaved => res matches Err(Error::ObjectNotSaved),
                MatchOutcome::SafeMismatch => res matches Err(Error::Other(msg)) && msg@
                    == safe_mismatch_text(deposit.safe_addr, config.safe_addr),
                MatchOutcome::TokenNotAudited => res matches Err(Error::Other(msg)) && msg@
                    == token_not_audited_text(deposit.token_addr),
                MatchOutcome::DepositAlreadyMatched(existing) => res matches Err(
                    Error::AlreadyExists(msg),
                ) && msg@ == already_matched_text(existing),
                MatchOutcome::NoMintTx => res matches Err(Error::NotFound),
                MatchOutcome::AmountMismatch(tx) => res matches Err(
                    Error::DepositAndMintMismatch(msg),
                ) && msg@ == amount_mismatch_text(
                    tx.amount as u64,
                    deposit.amount,
                    deposit.expected_mc_mint_tx_nonce_hex,
                ),
                MatchOutcome::TokenMismatch(tx, token) => res matches Err(
                    Error::DepositAndMintMismatch(msg),
                ) && msg@ == token_mismatch_text(
                    TokenId(tx.token_id as u64),
                    token.token_id,
                    deposit.expected_mc_mint_tx_nonce_hex,
                ),
                MatchOutcome::Matched(_) => false,
            }
        },
    }
}

fn text(s: &str) -> (res: String)
    ensures
        res@ == s@,
{
    String::from_str(s)
}

/// The message of a deposit into another safe than the audited one.
pub open spec fn safe_mismatch_text(deposit_addr: EthAddr, safe_addr: EthAddr) -> Seq<char> {
    "Gnosis safe deposit address "@ + deposit_addr.text() + " does not match audited safe address "@
        + safe_addr.text()
}

/// The message of a deposit of a token that the safe does not audit.
pub open spec fn token_not_audited_text(token_addr: EthAddr) -> Seq<char> {
    "Gnosis safe deposit token address "@ + token_addr.text() + " is not audited"@
}

fn safe_mismatch_message(deposit_addr: &EthAddr, safe_addr: &EthAddr) -> (res: String)
    ensures
        res@ == safe_mismatch_text(*deposit_addr, *safe_addr),
{
    text("Gnosis safe deposit address ").concat(deposit_addr.to_hex_string().as_str()).concat(
        " does not match audited safe address ",
    ).concat(safe_addr.to_hex_string().as_str())
}

fn token_not_audited_message(token_addr: &EthAddr) -> (res: String)
    ensures
        res@ == token_not_audited_text(*token_addr),
{
    text("Gnosis safe deposit token address ").concat(token_addr.to_hex_string().as_str()).concat(
        " is not audited",
    )
}

/// The message of a deposit that a row of `audited_mints` already points at.
pub open spec fn already_matched_text(existing: AuditedMint) -> Seq<char> {
    "GnosisSafeDeposit id="@ + decimal_text(existing.gnosis_safe_deposit_id as int)
        + " already matched with mint_tx_id="@ + decimal_text(existing.mint_tx_id as int)
}

/// The message of a MintTx that mints another amount than was deposited.
pub open spec fn amount_mismatch_text(
    mint_amount: u64,
    deposit_amount: u64,
    nonce_hex: Seq<char>,
) -> Seq<char> {
    "MintTx amount="@ + decimal_text(mint_amount as int)
        + " does not match GnosisSafeDeposit amount="@ + decimal_text(deposit_amount as int)
        + " (nonce="@ + nonce_hex + ")"@
}

/// The message of a MintTx that mints another token than the audited one.
pub open spec fn token_mismatch_text(
    mint_token: TokenId,
    audited_token: TokenId,
    nonce_hex: Seq<char>,
) -> Seq<char> {
    "MintTx token_id="@ + decimal_text(mint_token.0 as int) + " does not match audited token_=id"@
        + decimal_text(audited_token.0 as int) + " (nonce="@ + nonce_hex + ")"@
}

fn already_matched_message(existing: &AuditedMint) -> (res: String)
    ensures
        res@ == already_matched_text(*existing),
{
    text("GnosisSafeDeposit id=").concat(i32_text(existing.gnosis_safe_deposit_id).as_str()).concat(
        " already matched with mint_tx_id=",
    ).concat(i32_text(existing.mint_tx_id).as_str())
}

fn amount_mismatch_message(mint_amount: u64, deposit_amount: u64, nonce_hex: &str) -> (res: String)
    ensures
        res@ == amount_mismatch_text(mint_amount, deposit_amount, nonce_hex@),
{
    text("MintTx amount=").concat(u64_text(mint_amount).as_str()).concat(
        " does not match GnosisSafeDeposit amount=",
    ).concat(u64_text(deposit_amount).as_str()).concat(" (nonce=").concat(nonce_hex).concat(")")
}

fn token_mismatch_message(mint_token: TokenId, audited_token: TokenId, nonce_hex: &str) -> (res:
    String)
    ensures
        res@ == token_mismatch_text(mint_token, audited_token, nonce_hex@),
{
    text("MintTx token_id=").concat(u64_text(mint_token.0).as_str()).concat(
        " does not match audited token_=id",
    ).concat(u64_text(audited_token.0).as_str()).concat(" (nonce=").concat(nonce_hex).concat(")")
}

impl AuditedMint {
    /// The first row of `audited_mints` that points at the deposit with this id.
    fn find_match_of_deposit(deposit_id: i32, audited_mints: &Vec<AuditedMint>) -> (res: Option<
        &AuditedMint,
    >)
        ensures
            (match res {
                Some(row) => Some(*row),
                None => None,
            }) == spec_match_of_deposit_from(deposit_id, audited_mints@, 0),
    {
        let mut j: usize = 0;
        while j < audited_mints.len()
            invariant
                j <= audited_mints@.len(),
                spec_match_of_deposit_from(deposit_id, audited_mints@, 0)
                    == spec_match_of_deposit_from(deposit_id, audited_mints@, j as int),
            decreases audited_mints@.len() - j,
        {
            if audited_mints[j].gnosis_safe_deposit_id == deposit_id {
                return Some(&audited_mints[j]);
            }
            j = j + 1;
        }
        None
    }

    /// Attempt to find a matching MintTx for a given GnosisSafeDeposit, and if
    /// successful return the MintTx and record the match in `audited_mints`.
    /// Note that each MintTx can be matched to at most one GnosisSafeDeposit,
    /// so calling this repeatedly over the same deposit will fail.
    pub fn attempt_match_deposit_with_mint(
        deposit: &GnosisSafeDeposit,
        config: &AuditedSafeConfig,
        mint_txs: &Vec<MintTx>,
        audited_mints: &mut Vec<AuditedMint>,
    ) -> (res: Result<MintTx, Error>)
        requires
            all_saved(mint_txs@),
        ensures
            match_result_agrees(
                spec_match_outcome(deposit@, *config, mint_tx_views(mint_txs@), old(audited_mints)@),
                deposit@,
                *config,
                old(audited_mints)@,
                final(audited_mints)@,
                res,
            ),
    {
        // We only operate on objects that were saved to the database.
        let deposit_id = match deposit.id() {
            Some(id) => id,
            None => return Err(Error::ObjectNotSaved),
        };

        // The deposit safe needs to match the audited safe configuration.
        if deposit.safe_address() != &config.safe_addr {
            return Err(
                Error::Other(safe_mismatch_message(deposit.safe_address(), &config.safe_addr)),
            );
        }
        // Get the audited token information
        let audited_token = match config.get_token_by_eth_contract_addr(deposit.token_address()) {
            Some(token) => token,
            None => return Err(Error::Other(token_not_audited_message(deposit.token_address()))),
        };

        // Currently we only support 1:1 mapping between deposits and mints, so ensure
        // that there isn't already a match for this deposit.
        if let Some(existing_match) = AuditedMint::find_match_of_deposit(deposit_id, audited_mints) {
            return Err(Error::AlreadyExists(already_matched_message(existing_match)));
        }
        // See if we can find a MintTx that matches the expected nonce and has not been
        // associated with a deposit.

        let mint_tx = match MintTx::find_unaudited_mint_tx_by_nonce(
            deposit.expected_mc_mint_tx_nonce_hex(),
            mint_txs,
            audited_mints,
        ) {
            Some(tx) => tx,
            None => return Err(Error::NotFound),
        };

        // Found a mint, check to see if the amount matches the deposit.
        if mint_tx.amount() != deposit.amount() {
            return Err(
                Error::DepositAndMintMismatch(
                    amount_mismatch_message(
                        mint_tx.amount(),
                        deposit.amount(),
                        deposit.expected_mc_mint_tx_nonce_hex(),
                    ),
                ),
            );
        }
        // Check and see if the tokens match.
        if audited_token.token_id != mint_tx.token_id() {
            return Err(
                Error::DepositAndMintMismatch(
                    token_mismatch_message(
                        mint_tx.token_id(),
                        audited_token.token_id,
                        deposit.expected_mc_mint_tx_nonce_hex(),
                    ),
                ),
            );
        }
        // Associate the deposit with the mint.

        let mint_tx_id = match mint_tx.id() {
            Some(id) => id,
            None => {
                proof {
                    let views = mint_tx_views(mint_txs@);
                    let pred = |tx: MintTxView|
                        is_unaudited_with_nonce(
                            tx,
                            deposit@.expected_mc_mint_tx_nonce_hex,
                            old(audited_mints)@,
                        );
                    let found = views.filter(pred);
                    assert(found.len() > 0 && found[0] == mint_tx@);
                    assert(found.contains(found[0]));
                    views.lemma_filter_contains_rev(pred, found[0]);
                    let k = choose|k: int| 0 <= k < views.len() && views[k] == mint_tx@;
                    assert(views[k] == mint_txs@[k]@);
                    assert(mint_txs@[k]@.id is Some);
                }
                return Err(Error::NotFound);
            },
        };
        audited_mints.push(AuditedMint { id: None, mint_tx_id, gnosis_safe_deposit_id: deposit_id });
        Ok(mint_tx)
    }
}

/// Every MintTx of the sequence has an id.
pub open spec fn all_views_saved(mint_txs: Seq<MintTxView>) -> bool {
    forall|i: int| 0 <= i < mint_txs.len() ==> (#[trigger] mint_txs[i]).id is Some
}

/// A MintTx found by nonce is one of the table's, has that nonce, and is not
/// yet matched; and when none is found, no MintTx of the table is such.
pub proof fn lemma_unaudited_by_nonce_is_sound(
    mint_txs: Seq<MintTxView>,
    nonce_hex: Seq<char>,
    audited_mints: Seq<AuditedMint>,
)
    ensures
        spec_unaudited_by_nonce(mint_txs, nonce_hex, audited_mints) matches Some(tx) ==> {
            &&& mint_txs.contains(tx)
            &&& is_unaudited_with_nonce(tx, nonce_hex, audited_mints)
        },
        spec_unaudited_by_nonce(mint_txs, nonce_hex, audited_mints) is None ==> forall|i: int|
            0 <= i < mint_txs.len() ==> !is_unaudited_with_nonce(
                #[trigger] mint_txs[i],
                nonce_hex,
                audited_mints,
            ),
{
    let pred = |tx: MintTxView| is_unaudited_with_nonce(tx, nonce_hex, audited_mints);
    let found = mint_txs.filter(pred);
    broadcast use vstd::seq_lib::group_filter_ensures;

    if found.len() > 0 {
        assert(found.contains(found[0]));
        mint_txs.lemma_filter_contains_rev(pred, found[0]);
        assert(pred(found[0]));
    } else {
        assert forall|i: int| 0 <= i < mint_txs.len() implies !is_unaudited_with_nonce(
            #[trigger] mint_txs[i],
            nonce_hex,
            audited_mints,
        ) by {
            if pred(mint_txs[i]) {
                assert(found.contains(mint_txs[i]));
            }
        }
    }
}

/// A deposit is matched only with a MintTx of the table that was not yet
/// matched, that has the nonce the deposit expects, that mints the deposited
/// amount, and that mints the token the safe audits for the deposited token.
pub proof fn lemma_match_agrees_with_deposit(
    deposit: GnosisSafeDepositView,
    config: AuditedSafeConfig,
    mint_txs: Seq<MintTxView>,
    audited_mints: Seq<AuditedMint>,
)
    ensures
        spec_match_outcome(deposit, config, mint_txs, audited_mints) matches MatchOutcome::Matched(
            tx,
        ) ==> {
            &&& mint_txs.contains(tx)
            &&& !is_audited(tx, audited_mints)
            &&& tx.nonce_hex == deposit.expected_mc_mint_tx_nonce_hex
            &&& tx.amount as u64 == deposit.amount
            &&& deposit.safe_addr@ == config.safe_addr@
            &&& config.spec_token_by_eth_contract_addr(deposit.token_addr) matches Some(token)
                && token.token_id == TokenId(tx.token_id as u64)
        },
{
    lemma_unaudited_by_nonce_is_sound(
        mint_txs,
        deposit.expected_mc_mint_tx_nonce_hex,
        audited_mints,
    );
}

/// Once a deposit is matched and the match recorded, matching the same
/// deposit again fails: each deposit is matched at most once.
pub proof fn lemma_deposit_matched_at_most_once(
    deposit: GnosisSafeDepositView,
    config: AuditedSafeConfig,
    mint_txs: Seq<MintTxView>,
    audited_mints: Seq<AuditedMint>,
)
    requires
        spec_match_outcome(deposit, config, mint_txs, audited_mints) is Matched,
    ensures
        spec_match_outcome(
            deposit,
            config,
            mint_txs,
            audited_mints.push(
                spec_match_row(
                    spec_match_outcome(deposit, config, mint_txs, audited_mints)->Matched_0,
                    deposit.id->0,
                ),
            ),
        ) is DepositAlreadyMatched,
{
    let tx = spec_match_outcome(deposit, config, mint_txs, audited_mints)->Matched_0;
    let after = audited_mints.push(spec_match_row(tx, deposit.id->0));
    assert(after[audited_mints.len() as int].gnosis_safe_deposit_id == deposit.id->0);
    lemma_match_of_deposit_from(deposit.id->0, after, 0);
}

/// Recording a match marks the matched MintTx as matched and leaves every
/// other MintTx as it was.
pub proof fn lemma_recording_marks_only_the_mint(
    tx: MintTxView,
    deposit_id: i32,
    other: MintTxView,
    audited_mints: Seq<AuditedMint>,
)
    requires
        tx.id is Some,
    ensures
        is_audited(other, audited_mints.push(spec_match_row(tx, deposit_id))) <==> (is_audited(
            other,
            audited_mints,
        ) || (other.id is Some && other.id == tx.id)),
{
    let after = audited_mints.push(spec_match_row(tx, deposit_id));
    if other.id is Some {
        let id = other.id->0;
        if is_audited(other, audited_mints) {
            let j = choose|j: int| 0 <= j < audited_mints.len() && audited_mints[j].mint_tx_id == id;
            assert(after[j] == audited_mints[j]);
        }
        if other.id == tx.id {
            assert(after[audited_mints.len() as int].mint_tx_id == id);
        }
        if is_audited(other, after) {
            let j = choose|j: int| 0 <= j < after.len() && after[j].mint_tx_id == id;
            if j < audited_mints.len() {
                assert(after[j] == audited_mints[j]);
            }
        }
    }
}

/// Once a MintTx is matched with a deposit and the match recorded, no deposit
/// is matched with it again: each MintTx is matched at most once.
pub proof fn lemma_mint_matched_at_most_once(
    deposit: GnosisSafeDepositView,
    other_deposit: GnosisSafeDepositView,
    config: AuditedSafeConfig,
    mint_txs: Seq<MintTxView>,
    audited_mints: Seq<AuditedMint>,
)
    requires
        all_views_saved(mint_txs),
        spec_match_outcome(deposit, config, mint_txs, audited_mints) is Matched,
    ensures
        spec_match_outcome(
            other_deposit,
            config,
            mint_txs,
            audited_mints.push(
                spec_match_row(
                    spec_match_outcome(deposit, config, mint_txs, audited_mints)->Matched_0,
                    deposit.id->0,
                ),
            ),
        ) != MatchOutcome::Matched(
            spec_match_outcome(deposit, config, mint_txs, audited_mints)->Matched_0,
        ),
{
    let tx = spec_match_outcome(deposit, config, mint_txs, audited_mints)->Matched_0;
    let after = audited_mints.push(spec_match_row(tx, deposit.id->0));
    lemma_match_agrees_with_deposit(deposit, config, mint_txs, audited_mints);
    let k = choose|k: int| 0 <= k < mint_txs.len() && mint_txs[k] == tx;
    assert(mint_txs[k].id is Some);
    lemma_recording_marks_only_the_mint(tx, deposit.id->0, tx, audited_mints);
    lemma_match_agrees_with_deposit(other_deposit, config, mint_txs, after);
}

/// The MintTx a deposit is matched with is among the unmatched MintTxs before
/// the match is recorded, and no longer after.
pub proof fn lemma_matched_mint_leaves_unaudited(
    deposit: GnosisSafeDepositView,
    config: AuditedSafeConfig,
    mint_txs: Seq<MintTxView>,
    audited_mints: Seq<AuditedMint>,
)
    requires
        all_views_saved(mint_txs),
        spec_match_outcome(deposit, config, mint_txs, audited_mints) is Matched,
    ensures
        spec_unaudited(mint_txs, audited_mints).contains(
            spec_match_outcome(deposit, config, mint_txs, audited_mints)->Matched_0,
        ),
        !spec_unaudited(
            mint_txs,
            audited_mints.push(
                spec_match_row(
                    spec_match_outcome(deposit, config, mint_txs, audited_mints)->Matched_0,
                    deposit.id->0,
                ),
            ),
        ).contains(spec_match_outcome(deposit, config, mint_txs, audited_mints)->Matched_0),
{
    broadcast use vstd::seq_lib::group_filter_ensures;

    let tx = spec_match_outcome(deposit, config, mint_txs, audited_mints)->Matched_0;
    let after = audited_mints.push(spec_match_row(tx, deposit.id->0));
    lemma_match_agrees_with_deposit(deposit, config, mint_txs, audited_mints);
    let k = choose|k: int| 0 <= k < mint_txs.len() && mint_txs[k] == tx;
    assert(mint_txs[k].id is Some);
    lemma_recording_marks_only_the_mint(tx, deposit.id->0, tx, audited_mints);
    let before_pred = |t: MintTxView| !is_audited(t, audited_mints);
    let after_pred = |t: MintTxView| !is_audited(t, after);
    assert(before_pred(mint_txs[k]));
    mint_txs.lemma_filter_contains(before_pred, k);
    let left = mint_txs.filter(after_pred);
    if left.contains(tx) {
        let j = choose|j: int| 0 <= j < left.len() && left[j] == tx;
        mint_txs.lemma_filter_pred(after_pred, j);
    }
}

/// Filtering the first `n` elements with `p2`, which agrees with `p` but on
/// the element at `m`, that `p` keeps and `p2` drops, gives what filtering
/// with `p` gives, without that element once it is among the first `n`.
proof fn lemma_filter_drops_one<A>(
    s: Seq<A>,
    p: spec_fn(A) -> bool,
    p2: spec_fn(A) -> bool,
    m: int,
    n: int,
)
    requires
        0 <= m < s.len(),
        p(s[m]),
        !p2(s[m]),
        forall|i: int| 0 <= i < s.len() && i != m ==> p2(#[trigger] s[i]) == p(s[i]),
        0 <= n <= s.len(),
    ensures
        n <= m ==> s.take(n).filter(p2) == s.take(n).filter(p),
        n > m ==> s.take(n).filter(p).len() > s.take(m).filter(p).len(),
        n > m ==> s.take(n).filter(p2) == s.take(n).filter(p).remove(
            s.take(m).filter(p).len() as int,
        ),
    decreases n,
{
    reveal(Seq::filter);
    if n > 0 {
        lemma_filter_drops_one(s, p, p2, m, n - 1);
        let cur = s.take(n);
        let prev = s.take(n - 1);
        assert(cur.drop_last() =~= prev);
        assert(cur.last() == s[n - 1]);
        let k = s.take(m).filter(p).len() as int;
        if n - 1 < m {
            assert(p2(s[n - 1]) == p(s[n - 1]));
        } else if n - 1 == m {
            assert(prev =~= s.take(m));
            assert(cur.filter(p) == prev.filter(p).push(s[m]));
            assert(cur.filter(p).remove(k) =~= prev.filter(p));
        } else {
            assert(p2(s[n - 1]) == p(s[n - 1]));
            let x = prev.filter(p);
            if p(s[n - 1]) {
                assert(x.push(s[n - 1]).remove(k) =~= x.remove(k).push(s[n - 1]));
            }
        }
    }
}

/// Every MintTx of the sequence has an id of its own.
pub open spec fn ids_distinct(mint_txs: Seq<MintTxView>) -> bool {
    forall|i: int, j: int|
        0 <= i < mint_txs.len() && 0 <= j < mint_txs.len() && i != j ==> (#[trigger] mint_txs[i]).id
            != (#[trigger] mint_txs[j]).id
}

/// Recording a match removes the matched MintTx from the unmatched MintTxs and
/// leaves the others as they were, in order.
pub proof fn lemma_match_removes_only_the_mint(
    deposit: GnosisSafeDepositView,
    config: AuditedSafeConfig,
    mint_txs: Seq<MintTxView>,
    audited_mints: Seq<AuditedMint>,
)
    requires
        all_views_saved(mint_txs),
        ids_distinct(mint_txs),
        spec_match_outcome(deposit, config, mint_txs, audited_mints) is Matched,
    ensures
        ({
            let tx = spec_match_outcome(deposit, config, mint_txs, audited_mints)->Matched_0;
            let before = spec_unaudited(mint_txs, audited_mints);
            let after = spec_unaudited(
                mint_txs,
                audited_mints.push(spec_match_row(tx, deposit.id->0)),
            );
            exists|k: int| 0 <= k < before.len() && before[k] == tx && after == before.remove(k)
        }),
{
    let tx = spec_match_outcome(deposit, config, mint_txs, audited_mints)->Matched_0;
    let after_rows = audited_mints.push(spec_match_row(tx, deposit.id->0));
    let p = |t: MintTxView| !is_audited(t, audited_mints);
    let p2 = |t: MintTxView| !is_audited(t, after_rows);
    lemma_match_agrees_with_deposit(deposit, config, mint_txs, audited_mints);
    let m = choose|m: int| 0 <= m < mint_txs.len() && mint_txs[m] == tx;
    assert(mint_txs[m].id is Some);
    lemma_recording_marks_only_the_mint(tx, deposit.id->0, tx, audited_mints);
    assert forall|i: int| 0 <= i < mint_txs.len() && i != m implies p2(
        #[trigger] mint_txs[i],
    ) == p(mint_txs[i]) by {
        lemma_recording_marks_only_the_mint(tx, deposit.id->0, mint_txs[i], audited_mints);
        assert(mint_txs[i].id != mint_txs[m].id);
    }
    lemma_filter_drops_one(mint_txs, p, p2, m, mint_txs.len() as int);
    assert(mint_txs.take(mint_txs.len() as int) =~= mint_txs);
    let k = mint_txs.take(m).filter(p).len() as int;
    let before = mint_txs.filter(p);
    reveal(Seq::filter);
    assert(mint_txs.take(m + 1).drop_last() =~= mint_txs.take(m));
    assert(mint_txs.take(m + 1).filter(p) == mint_txs.take(m).filter(p).push(tx));
    assert(mint_txs =~= mint_txs.take(m + 1) + mint_txs.skip(m + 1));
    Seq::filter_distributes_over_add(mint_txs.take(m + 1), mint_txs.skip(m + 1), p);
    assert(before == mint_txs.take(m + 1).filter(p) + mint_txs.skip(m + 1).filter(p));
    assert(before[k] == tx);
    assert(mint_txs.filter(p2) == before.remove(k));
    assert(p =~= (|t: MintTxView| !is_audited(t, audited_mints)));
    assert(p2 =~= (|t: MintTxView| !is_audited(t, after_rows)));
    assert(spec_unaudited(mint_txs, audited_mints) == before);
    assert(spec_unaudited(mint_txs, after_rows) == mint_txs.filter(p2));
}

/// The token found for an address is the first of `tokens`, from `i0` on,
/// whose Ethereum contract is at that address.
proof fn lemma_token_from_first(tokens: Seq<AuditedToken>, addr: EthAddr, i0: int, i: int)
    requires
        0 <= i0 <= i < tokens.len(),
        tokens[i].eth_token_contract_addr@ == addr@,
        forall|i2: int| 0 <= i2 < i ==> (#[trigger] tokens[i2]).eth_token_contract_addr@ != addr@,
    ensures
        spec_token_from(tokens, addr, i0) == Some(tokens[i]),
    decreases i - i0,
{
    if i0 < i {
        lemma_token_from_first(tokens, addr, i0 + 1, i);
    }
}

/// A deposit is matched with a MintTx whenever every check passes: the
/// deposit is saved and went into the audited safe; the first audited token
/// whose contract is the deposited token's (wherever it stands among the
/// safe's tokens) is the token the MintTx mints; no row of `audited_mints`
/// has the deposit's id as its `gnosis_safe_deposit_id`; and the MintTx is the
/// first of the table with the deposit's nonce whose id no row has as its
/// `mint_tx_id`, and it mints the deposited amount. The rows' other columns
/// play no part.
pub proof fn lemma_match_when_every_check_passes(
    deposit: GnosisSafeDepositView,
    config: AuditedSafeConfig,
    mint_txs: Seq<MintTxView>,
    audited_mints: Seq<AuditedMint>,
    i: int,
    k: int,
)
    requires
        deposit.id is Some,
        deposit.safe_addr@ == config.safe_addr@,
        0 <= i < config.tokens@.len(),
        config.tokens@[i].eth_token_contract_addr@ == deposit.token_addr@,
        forall|i2: int|
            0 <= i2 < i ==> (#[trigger] config.tokens@[i2]).eth_token_contract_addr@
                != deposit.token_addr@,
        forall|j: int|
            0 <= j < audited_mints.len() ==> (#[trigger] audited_mints[j]).gnosis_safe_deposit_id
                != deposit.id->0,
        0 <= k < mint_txs.len(),
        mint_txs[k].nonce_hex == deposit.expected_mc_mint_tx_nonce_hex,
        forall|j: int|
            0 <= j < audited_mints.len() ==> Some(#[trigger] audited_mints[j].mint_tx_id)
                != mint_txs[k].id,
        forall|k2: int|
            0 <= k2 < k ==> !((#[trigger] mint_txs[k2]).nonce_hex
                == deposit.expected_mc_mint_tx_nonce_hex && forall|j: int|
                0 <= j < audited_mints.len() ==> Some(#[trigger] audited_mints[j].mint_tx_id)
                    != mint_txs[k2].id),
        mint_txs[k].amount as u64 == deposit.amount,
        config.tokens@[i].token_id == TokenId(mint_txs[k].token_id as u64),
    ensures
        spec_match_outcome(deposit, config, mint_txs, audited_mints) == MatchOutcome::Matched(
            mint_txs[k],
        ),
{
    lemma_token_from_first(config.tokens@, deposit.token_addr, 0, i);
    lemma_match_of_deposit_from(deposit.id->0, audited_mints, 0);
    lemma_lookup_by_nonce_finds_first_unmatched(
        mint_txs,
        deposit.expected_mc_mint_tx_nonce_hex,
        audited_mints,
        k,
    );
}

/// A deposit is taken as matched already only by a row of `audited_mints`
/// that has the deposit's id as its `gnosis_safe_deposit_id`; the message
/// names such a row.
pub proof fn lemma_already_matched_only_by_deposit_row(
    deposit: GnosisSafeDepositView,
    config: AuditedSafeConfig,
    mint_txs: Seq<MintTxView>,
    audited_mints: Seq<AuditedMint>,
)
    ensures
        spec_match_outcome(deposit, config, mint_txs, audited_mints) matches MatchOutcome::DepositAlreadyMatched(
            row,
        ) ==> {
            &&& deposit.id == Some(row.gnosis_safe_deposit_id)
            &&& audited_mints.contains(row)
        },
        (deposit.id is Some && deposit.safe_addr@ == config.safe_addr@
            && config.spec_token_by_eth_contract_addr(deposit.token_addr) is Some && exists|j: int|
            0 <= j < audited_mints.len() && (#[trigger] audited_mints[j]).gnosis_safe_deposit_id
                == deposit.id->0) ==> spec_match_outcome(
            deposit,
            config,
            mint_txs,
            audited_mints,
        ) is DepositAlreadyMatched,
{
    if let Some(d) = deposit.id {
        lemma_match_of_deposit_from_is_in(d, audited_mints, 0);
        lemma_match_of_deposit_from(d, audited_mints, 0);
    }
}

/// A row found from index `i` on is one of the rows.
proof fn lemma_match_of_deposit_from_is_in(deposit_id: i32, audited_mints: Seq<AuditedMint>, i: int)
    requires
        0 <= i,
    ensures
        spec_match_of_deposit_from(deposit_id, audited_mints, i) matches Some(row)
            ==> audited_mints.contains(row),
    decreases audited_mints.len() - i,
{
    if i < audited_mints.len() {
        lemma_match_of_deposit_from_is_in(deposit_id, audited_mints, i + 1);
    }
}

} // verus!
