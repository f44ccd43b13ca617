//! The auditor's record of a MintTx seen on the MobileCoin chain, and the
//! queries that look for the records not yet matched with a deposit.
use crate::audited_mint::AuditedMint;
use crate::hex_text::{encode_hex, hex_lower};
use vstd::prelude::*;
use vstd::std_specs::convert::FromSpecImpl;

verus! {

broadcast use vstd::seq_lib::group_seq_properties;

/// A MobileCoin token id.
#[derive(Clone, Copy, Debug, Default, PartialEq, Eq, Hash, Structural)]
pub struct TokenId(pub u64);

impl From<u64> for TokenId {
    fn from(id: u64) -> (res: Self) {
        TokenId(id)
    }
}

impl FromSpecImpl<u64> for TokenId {
    open spec fn obeys_from_spec() -> bool {
        true
    }

    open spec fn from_spec(id: u64) -> Self {
        TokenId(id)
    }
}

/// The auditor's record of a MintTx, as stored in the `mint_txs` table.
#[derive(Debug, Default, PartialEq, Eq, Hash)]
pub struct MintTx {
    /// Auto incrementing primary key.
    id: Option<i32>,
    /// The block index at which this mint tx appreared.
    block_index: i64,
    /// The token id this mint tx is for.
    token_id: i64,
    /// The amount being minted.
    amount: i64,
    /// The nonce, as hex-encoded bytes.
    nonce_hex: String,
    /// The recipient of the mint.
    recipient_b58_address: String,
    /// Tombstone block.
    tombstone_block: i64,
    /// The protobuf-serialized MintTx.
    protobuf: Vec<u8>,
    /// The mint config id, when we are able to match it with one.
    mint_config_id: Option<i32>,
}

/// The values of a stored MintTx, column by column.
pub struct MintTxView {
    pub id: Option<i32>,
    pub block_index: i64,
    pub token_id: i64,
    pub amount: i64,
    pub nonce_hex: Seq<char>,
    pub recipient_b58_address: Seq<char>,
    pub tombstone_block: i64,
    pub protobuf: Seq<u8>,
    pub mint_config_id: Option<i32>,
}

impl View for MintTx {
    type V = MintTxView;

    closed spec fn view(&self) -> MintTxView {
        MintTxView {
            id: self.id,
            block_index: self.block_index,
            token_id: self.token_id,
            amount: self.amount,
            nonce_hex: self.nonce_hex@,
            recipient_b58_address: self.recipient_b58_address@,
            tombstone_block: self.tombstone_block,
            protobuf: self.protobuf@,
            mint_config_id: self.mint_config_id,
        }
    }
}

impl Clone for MintTx {
    fn clone(&self) -> (res: Self)
        ensures
            res@ == self@,
    {
        let protobuf = self.protobuf.clone();
        assert(protobuf@ =~= self.protobuf@);
        MintTx {
            id: self.id,
            block_index: self.block_index,
            token_id: self.token_id,
            amount: self.amount,
            nonce_hex: self.nonce_hex.clone(),
            recipient_b58_address: self.recipient_b58_address.clone(),
            tombstone_block: self.tombstone_block,
            protobuf,
            mint_config_id: self.mint_config_id,
        }
    }
}

/// The values of a sequence of stored MintTxs.
pub open spec fn mint_tx_views(txs: Seq<MintTx>) -> Seq<MintTxView> {
    txs.map_values(|tx: MintTx| tx@)
}

/// Whether a row of the `audited_mints` table points at the MintTx: a MintTx
/// without an id is pointed at by none.
pub open spec fn is_audited(tx: MintTxView, audited_mints: Seq<AuditedMint>) -> bool {
    match tx.id {
        Some(id) => exists|j: int| 0 <= j < audited_mints.len() && audited_mints[j].mint_tx_id == id,
        None => false,
    }
}

/// The MintTxs that no row of `audited_mints` points at, in table order.
pub open spec fn spec_unaudited(txs: Seq<MintTxView>, audited_mints: Seq<AuditedMint>) -> Seq<
    MintTxView,
> {
    txs.filter(|tx: MintTxView| !is_audited(tx, audited_mints))
}

/// Whether the MintTx has the given nonce and no row of `audited_mints`
/// points at it.
pub open spec fn is_unaudited_with_nonce(
    tx: MintTxView,
    nonce_hex: Seq<char>,
    audited_mints: Seq<AuditedMint>,
) -> bool {
    tx.nonce_hex == nonce_hex && !is_audited(tx, audited_mints)
}

/// The first MintTx, in table order, that has the given nonce and that no
/// row of `audited_mints` points at.
pub open spec fn spec_unaudited_by_nonce(
    txs: Seq<MintTxView>,
    nonce_hex: Seq<char>,
    audited_mints: Seq<AuditedMint>,
) -> Option<MintTxView> {
    let found = txs.filter(|tx: MintTxView| is_unaudited_with_nonce(tx, nonce_hex, audited_mints));
    if found.len() > 0 {
        Some(found[0])
    } else {
        None
    }
}

impl MintTx {
    /// A MintTx with the given column values, as read back from the table.
    pub fn from_row(
        id: Option<i32>,
        block_index: i64,
        token_id: i64,
        amount: i64,
        nonce_hex: String,
        recipient_b58_address: String,
        tombstone_block: i64,
        protobuf: Vec<u8>,
        mint_config_id: Option<i32>,
    ) -> (res: Self)
        ensures
            res@ == (MintTxView {
                id,
                block_index,
                token_id,
                amount,
                nonce_hex: nonce_hex@,
                recipient_b58_address: recipient_b58_address@,
                tombstone_block,
                protobuf: protobuf@,
                mint_config_id,
            }),
    {
        MintTx {
            id,
            block_index,
            token_id,
            amount,
            nonce_hex,
            recipient_b58_address,
            tombstone_block,
            protobuf,
            mint_config_id,
        }
    }

    /// The record of a MintTx not yet stored, made from the parts of the
    /// MintTx: the unsigned integers are stored as the signed integers of the
    /// same bits, and the nonce as its lower-case hex text.
    pub fn from_core_mint_tx(
        block_index: u64,
        mint_config_id: Option<i32>,
        token_id: u64,
        amount: u64,
        nonce: &[u8],
        recipient_b58_address: String,
        tombstone_block: u64,
        protobuf: Vec<u8>,
    ) -> (res: Self)
        ensures
            res@ == (MintTxView {
                id: None,
                block_index: block_index as i64,
                token_id: token_id as i64,
                amount: amount as i64,
                nonce_hex: hex_lower(nonce@),
                recipient_b58_address: recipient_b58_address@,
                tombstone_block: tombstone_block as i64,
                protobuf: protobuf@,
                mint_config_id,
            }),
    {
        MintTx {
            id: None,
            block_index: block_index as i64,
            token_id: token_id as i64,
            amount: amount as i64,
            nonce_hex: encode_hex(nonce),
            recipient_b58_address,
            tombstone_block: tombstone_block as i64,
            protobuf,
            mint_config_id,
        }
    }

    /// Records the id that the database gave the MintTx when it was inserted.
    pub fn set_inserted_id(&mut self, id: i32)
        ensures
            final(self)@ == (MintTxView { id: Some(id), ..old(self)@ }),
    {
        self.id = Some(id);
    }

    /// Get id.
    pub fn id(&self) -> (res: Option<i32>)
        ensures
            res == self@.id,
    {
        self.id
    }

    /// Get block index.
    pub fn block_index(&self) -> (res: u64)
        ensures
            res == self@.block_index as u64,
    {
        self.block_index as u64
    }

    /// Get token id.
    pub fn token_id(&self) -> (res: TokenId)
        ensures
            res == TokenId(self@.token_id as u64),
    {
        TokenId::from(self.token_id as u64)
    }

    /// Get amount.
    pub fn amount(&self) -> (res: u64)
        ensures
            res == self@.amount as u64,
    {
        self.amount as u64
    }

    /// Get nonce.
    pub fn nonce_hex(&self) -> (res: &str)
        ensures
            res@ == self@.nonce_hex,
    {
        self.nonce_hex.as_str()
    }

    /// Get recipient b58 address.
    pub fn recipient_b58_address(&self) -> (res: &str)
        ensures
            res@ == self@.recipient_b58_address,
    {
        self.recipient_b58_address.as_str()
    }

    /// Get tombstone block.
    pub fn tombstone_block(&self) -> (res: u64)
        ensures
            res == self@.tombstone_block as u64,
    {
        self.tombstone_block as u64
    }

    /// Get mint config id, when we are able to match it with one.
    pub fn mint_config_id(&self) -> (res: Option<i32>)
        ensures
            res == self@.mint_config_id,
    {
        self.mint_config_id
    }

    /// Get the protobuf-serialized MintTx.
    pub fn protobuf(&self) -> (res: &[u8])
        ensures
            res@ == self@.protobuf,
    {
        self.protobuf.as_slice()
    }

    /// Whether a row of `audited_mints` points at this MintTx.
    pub fn is_audited_in(&self, audited_mints: &Vec<AuditedMint>) -> (res: bool)
        ensures
            res == is_audited(self@, audited_mints@),
    {
        match self.id {
            None => false,
            Some(id) => {
                let mut j: usize = 0;
                while j < audited_mints.len()
                    invariant
                        j <= audited_mints@.len(),
                        self@.id == Some(id),
                        forall|k: int| 0 <= k < j ==> audited_mints@[k].mint_tx_id != id,
                    decreases audited_mints@.len() - j,
                {
                    if audited_mints[j].mint_tx_id == id {
                        return true;
                    }
                    j = j + 1;
                }
                false
            },
        }
    }

    /// Find all MintTxs of `mint_txs` that do not have a matching entry in
    /// `audited_mints`, in table order.
    pub fn find_unaudited_mint_txs(mint_txs: &Vec<MintTx>, audited_mints: &Vec<AuditedMint>) -> (res:
        Vec<MintTx>)
        ensures
            mint_tx_views(res@) == spec_unaudited(mint_tx_views(mint_txs@), audited_mints@),
    {
        let ghost views = mint_tx_views(mint_txs@);
        let ghost pred = |tx: MintTxView| !is_audited(tx, audited_mints@);
        let mut res: Vec<MintTx> = Vec::new();
        let mut i: usize = 0;
        while i < mint_txs.len()
            invariant
                i <= mint_txs@.len(),
                views == mint_tx_views(mint_txs@),
                pred == (|tx: MintTxView| !is_audited(tx, audited_mints@)),
                mint_tx_views(res@) =~= views.take(i as int).filter(pred),
            decreases mint_txs@.len() - i,
        {
            reveal(Seq::filter);
            assert(views.take(i + 1).drop_last() =~= views.take(i as int));
            if !mint_txs[i].is_audited_in(audited_mints) {
                let tx = mint_txs[i].clone();
                res.push(tx);
            }
            i = i + 1;
        }
        assert(views.take(mint_txs@.len() as int) =~= views);
        res
    }

    /// Find the first MintTx of `mint_txs` that has the given nonce and no
    /// matching entry in `audited_mints`.
    pub fn find_unaudited_mint_tx_by_nonce(
        nonce_hex: &str,
        mint_txs: &Vec<MintTx>,
        audited_mints: &Vec<AuditedMint>,
    ) -> (res: Option<MintTx>)
        ensures
            (match res {
                Some(tx) => Some(tx@),
                None => None,
            }) == spec_unaudited_by_nonce(mint_tx_views(mint_txs@), nonce_hex@, audited_mints@),
    {
        let ghost views = mint_tx_views(mint_txs@);
        let ghost pred = |tx: MintTxView| is_unaudited_with_nonce(tx, nonce_hex@, audited_mints@);
        let wanted = String::from_str(nonce_hex);
        let mut i: usize = 0;
        while i < mint_txs.len()
            invariant
                i <= mint_txs@.len(),
                wanted@ == nonce_hex@,
                views == mint_tx_views(mint_txs@),
                pred == (|tx: MintTxView| is_unaudited_with_nonce(tx, nonce_hex@, audited_mints@)),
                views.take(i as int).filter(pred).len() == 0,
            decreases mint_txs@.len() - i,
        {
            reveal(Seq::filter);
            assert(views.take(i + 1).drop_last() =~= views.take(i as int));
            if mint_txs[i].nonce_hex == wanted && !mint_txs[i].is_audited_in(audited_mints) {
                assert(views =~= views.take(i + 1) + views.skip(i + 1));
                assert(views.take(i + 1).filter(pred) =~= seq![views[i as int]]);
                return Some(mint_txs[i].clone());
            }
            i = i + 1;
        }
        assert(views.take(mint_txs@.len() as int) =~= views);
        None
    }
}

/// A record made from the parts of a MintTx reads back, through the getters,
/// the unsigned values it was made from: storing them as signed integers of
/// the same bits loses nothing.
pub proof fn lemma_core_values_read_back(
    tx: MintTxView,
    block_index: u64,
    token_id: u64,
    amount: u64,
    tombstone_block: u64,
)
    requires
        tx.block_index == block_index as i64,
        tx.token_id == token_id as i64,
        tx.amount == amount as i64,
        tx.tombstone_block == tombstone_block as i64,
    ensures
        tx.block_index as u64 == block_index,
        TokenId(tx.token_id as u64) == TokenId(token_id),
        tx.amount as u64 == amount,
        tx.tombstone_block as u64 == tombstone_block,
{
    assert(forall|x: u64| #![trigger (x as i64)] (x as i64) as u64 == x) by (bit_vector);
}

/// A newly stored MintTx that no row of `audited_mints` points at joins the
/// unmatched MintTxs, after those already there.
pub proof fn lemma_stored_mint_is_unaudited(
    mint_txs: Seq<MintTxView>,
    audited_mints: Seq<AuditedMint>,
    tx: MintTxView,
)
    requires
        tx.id is Some,
        forall|j: int| 0 <= j < audited_mints.len() ==> Some(audited_mints[j].mint_tx_id) != tx.id,
    ensures
        !is_audited(tx, audited_mints),
        spec_unaudited(mint_txs.push(tx), audited_mints) == spec_unaudited(mint_txs, audited_mints).push(
            tx,
        ),
{
    reveal(Seq::filter);
    assert(mint_txs.push(tx).drop_last() =~= mint_txs);
}

/// A MintTx with an id is matched exactly when some row of `audited_mints`
/// has that id as its `mint_tx_id`; the row's own id and its deposit id play
/// no part. A MintTx without an id is never matched.
pub proof fn lemma_audited_means_pointed_at(tx: MintTxView, audited_mints: Seq<AuditedMint>)
    ensures
        tx.id is None ==> !is_audited(tx, audited_mints),
        tx.id matches Some(id) ==> (is_audited(tx, audited_mints) <==> exists|j: int|
            0 <= j < audited_mints.len() && #[trigger] audited_mints[j].mint_tx_id == id),
{
}

/// The filter finds the first element that the predicate keeps.
proof fn lemma_filter_first<A>(s: Seq<A>, p: spec_fn(A) -> bool, k: int)
    requires
        0 <= k < s.len(),
        p(s[k]),
        forall|j: int| 0 <= j < k ==> !p(#[trigger] s[j]),
    ensures
        s.filter(p).len() > 0,
        s.filter(p)[0] == s[k],
{
    broadcast use vstd::seq_lib::group_filter_ensures;

    let front = s.take(k);
    let back = s.skip(k + 1);
    if front.filter(p).len() > 0 {
        assert(front.filter(p).contains(front.filter(p)[0]));
        front.lemma_filter_contains_rev(p, front.filter(p)[0]);
        let j = choose|j: int| 0 <= j < front.len() && front[j] == front.filter(p)[0];
        assert(p(s[j]));
    }
    assert(s =~= front + (seq![s[k]] + back));
    Seq::filter_distributes_over_add(front, seq![s[k]] + back, p);
    back.lemma_filter_prepend(s[k], p);
    assert(front.filter(p) =~= Seq::<A>::empty());
}

/// The unmatched MintTxs are exactly the MintTxs of the table that have no id,
/// or whose id no row of `audited_mints` has as its `mint_tx_id`.
pub proof fn lemma_unaudited_are_those_not_pointed_at(
    mint_txs: Seq<MintTxView>,
    audited_mints: Seq<AuditedMint>,
)
    ensures
        forall|t: MintTxView|
            #[trigger] spec_unaudited(mint_txs, audited_mints).contains(t) <==> (mint_txs.contains(t)
                && !(t.id is Some && exists|j: int|
                0 <= j < audited_mints.len() && audited_mints[j].mint_tx_id == t.id->0)),
{
    broadcast use vstd::seq_lib::group_filter_ensures;

    let p = |tx: MintTxView| !is_audited(tx, audited_mints);
    assert forall|t: MintTxView|
        #[trigger] spec_unaudited(mint_txs, audited_mints).contains(t) <==> (mint_txs.contains(t)
            && !(t.id is Some && exists|j: int|
            0 <= j < audited_mints.len() && audited_mints[j].mint_tx_id == t.id->0)) by {
        lemma_audited_means_pointed_at(t, audited_mints);
        let f = mint_txs.filter(p);
        if f.contains(t) {
            mint_txs.lemma_filter_contains_rev(p, t);
            let q = choose|q: int| 0 <= q < f.len() && f[q] == t;
            assert(p(f[q]));
        }
        if mint_txs.contains(t) && p(t) {
            let i = choose|i: int| 0 <= i < mint_txs.len() && mint_txs[i] == t;
            assert(f.contains(mint_txs[i]));
        }
    }
}

/// Looking up by nonce finds the first MintTx of the table that has the nonce
/// and that no row of `audited_mints` points at by `mint_tx_id`, whatever its
/// other columns and whatever the rows' other columns; and finds none only
/// when there is no such MintTx.
pub proof fn lemma_lookup_by_nonce_finds_first_unmatched(
    mint_txs: Seq<MintTxView>,
    nonce_hex: Seq<char>,
    audited_mints: Seq<AuditedMint>,
    k: int,
)
    requires
        0 <= k < mint_txs.len(),
        mint_txs[k].nonce_hex == nonce_hex,
        forall|j: int|
            0 <= j < audited_mints.len() ==> Some(#[trigger] audited_mints[j].mint_tx_id)
                != mint_txs[k].id,
        forall|k2: int|
            0 <= k2 < k ==> !((#[trigger] mint_txs[k2]).nonce_hex == nonce_hex && forall|j: int|
                0 <= j < audited_mints.len() ==> Some(#[trigger] audited_mints[j].mint_tx_id)
                    != mint_txs[k2].id),
    ensures
        spec_unaudited_by_nonce(mint_txs, nonce_hex, audited_mints) == Some(mint_txs[k]),
{
    let p = |tx: MintTxView| is_unaudited_with_nonce(tx, nonce_hex, audited_mints);
    lemma_audited_means_pointed_at(mint_txs[k], audited_mints);
    assert(p(mint_txs[k]));
    assert forall|k2: int| 0 <= k2 < k implies !p(#[trigger] mint_txs[k2]) by {
        lemma_audited_means_pointed_at(mint_txs[k2], audited_mints);
        if mint_txs[k2].nonce_hex == nonce_hex && !is_audited(mint_txs[k2], audited_mints) {
            assert forall|j: int| 0 <= j < audited_mints.len() implies Some(
                #[trigger] audited_mints[j].mint_tx_id,
            ) != mint_txs[k2].id by {}
        }
    }
    lemma_filter_first(mint_txs, p, k);
}

/// Looking up by nonce finds nothing only when every MintTx of the table with
/// that nonce has an id that some row of `audited_mints` has as its
/// `mint_tx_id`.
pub proof fn lemma_lookup_by_nonce_none_means_all_matched(
    mint_txs: Seq<MintTxView>,
    nonce_hex: Seq<char>,
    audited_mints: Seq<AuditedMint>,
)
    requires
        spec_unaudited_by_nonce(mint_txs, nonce_hex, audited_mints) is None,
    ensures
        forall|k: int|
            0 <= k < mint_txs.len() && (#[trigger] mint_txs[k]).nonce_hex == nonce_hex ==> (
            mint_txs[k].id is Some && exists|j: int|
                0 <= j < audited_mints.len() && audited_mints[j].mint_tx_id == mint_txs[k].id->0),
{
    broadcast use vstd::seq_lib::group_filter_ensures;

    let p = |tx: MintTxView| is_unaudited_with_nonce(tx, nonce_hex, audited_mints);
    assert forall|k: int|
        0 <= k < mint_txs.len() && (#[trigger] mint_txs[k]).nonce_hex == nonce_hex implies (
        mint_txs[k].id is Some && exists|j: int|
            0 <= j < audited_mints.len() && audited_mints[j].mint_tx_id == mint_txs[k].id->0) by {
        lemma_audited_means_pointed_at(mint_txs[k], audited_mints);
        if p(mint_txs[k]) {
            assert(mint_txs.filter(p).contains(mint_txs[k]));
        }
    }
}

} // verus!
