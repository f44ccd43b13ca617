//! The Gnosis safe side of the mint auditor: Ethereum addresses, the audited
//! safe configuration, and the deposits observed into a safe.
use crate::hex_text::{encode_hex, hex_lower};
use crate::mint_tx::TokenId;
use vstd::prelude::*;
use vstd::std_specs::cmp::PartialEqSpecImpl;
use vstd::string::StringExecFns;

verus! {

/// An Ethereum address: twenty bytes.
#[derive(Clone, Copy, Debug, Eq, Hash)]
pub struct EthAddr {
    pub bytes: [u8; 20],
}

impl View for EthAddr {
    type V = Seq<u8>;

    open spec fn view(&self) -> Seq<u8> {
        self.bytes@
    }
}

impl PartialEq for EthAddr {
    fn eq(&self, other: &Self) -> (res: bool) {
        let mut i: usize = 0;
        while i < 20
            invariant
                i <= 20,
                self.bytes@.len() == 20,
                other.bytes@.len() == 20,
                forall|j: int| 0 <= j < i ==> self.bytes@[j] == other.bytes@[j],
            decreases 20 - i,
        {
            if self.bytes[i] != other.bytes[i] {
                return false;
            }
            i = i + 1;
        }
        assert(self.bytes@ =~= other.bytes@);
        true
    }
}

impl PartialEqSpecImpl for EthAddr {
    open spec fn obeys_eq_spec() -> bool {
        true
    }

    open spec fn eq_spec(&self, other: &Self) -> bool {
        self@ == other@
    }
}

impl EthAddr {
    /// The text of the address: `0x` followed by its bytes in lower-case hex.
    pub open spec fn text(&self) -> Seq<char> {
        seq!['0', 'x'] + hex_lower(self.bytes@)
    }

    /// Writes the address as `0x` followed by its bytes in lower-case hex.
    pub fn to_hex_string(&self) -> (res: String)
        ensures
            res@ == self.text(),
    {
        let digits = encode_hex(self.bytes.as_slice());
        let prefix = String::from_str("0x");
        proof {
            reveal_strlit("0x");
        }
        prefix.concat(digits.as_str())
    }
}

/// A token that the auditor tracks: its MobileCoin token id and the contract
/// address of its counterpart on Ethereum.
#[derive(Clone, Copy, Debug, PartialEq, Eq, Hash)]
pub struct AuditedToken {
    pub token_id: TokenId,
    pub eth_token_contract_addr: EthAddr,
}

/// The configuration of one audited Gnosis safe.
#[derive(Clone, Debug, PartialEq, Eq, Hash)]
pub struct AuditedSafeConfig {
    /// The address of the safe.
    pub safe_addr: EthAddr,
    /// The tokens held in the safe that are audited.
    pub tokens: Vec<AuditedToken>,
}

/// The first token of `tokens`, from index `i` on, whose Ethereum contract is
/// at `addr`.
pub open spec fn spec_token_from(tokens: Seq<AuditedToken>, addr: EthAddr, i: int) -> Option<
    AuditedToken,
>
    decreases tokens.len() - i,
{
    if i < 0 || i >= tokens.len() {
        None
    } else if tokens[i].eth_token_contract_addr@ == addr@ {
        Some(tokens[i])
    } else {
        spec_token_from(tokens, addr, i + 1)
    }
}

impl AuditedSafeConfig {
    /// The first audited token whose Ethereum contract is at `addr`.
    pub open spec fn spec_token_by_eth_contract_addr(&self, addr: EthAddr) -> Option<AuditedToken> {
        spec_token_from(self.tokens@, addr, 0)
    }

    /// Looks up the audited token whose Ethereum contract is at `addr`; the
    /// first one where several are.
    pub fn get_token_by_eth_contract_addr(&self, addr: &EthAddr) -> (res: Option<&AuditedToken>)
        ensures
            (match res {
                Some(t) => Some(*t),
                None => None,
            }) == self.spec_token_by_eth_contract_addr(*addr),
    {
        let mut i: usize = 0;
        while i < self.tokens.len()
            invariant
                i <= self.tokens@.len(),
                spec_token_from(self.tokens@, *addr, 0) == spec_token_from(self.tokens@, *addr, i as int),
            decreases self.tokens@.len() - i,
        {
            if self.tokens[i].eth_token_contract_addr == *addr {
                return Some(&self.tokens[i]);
            }
            i = i + 1;
        }
        None
    }
}

/// A deposit into a Gnosis safe, as far as the auditor reads it.
#[derive(Clone, Debug, PartialEq, Eq, Hash)]
pub struct GnosisSafeDeposit {
    id: Option<i32>,
    safe_addr: EthAddr,
    token_addr: EthAddr,
    amount: u64,
    expected_mc_mint_tx_nonce_hex: String,
}

/// The values of a deposit.
pub struct GnosisSafeDepositView {
    pub id: Option<i32>,
    pub safe_addr: EthAddr,
    pub token_addr: EthAddr,
    pub amount: u64,
    pub expected_mc_mint_tx_nonce_hex: Seq<char>,
}

impl View for GnosisSafeDeposit {
    type V = GnosisSafeDepositView;

    closed spec fn view(&self) -> GnosisSafeDepositView {
        GnosisSafeDepositView {
            id: self.id,
            safe_addr: self.safe_addr,
            token_addr: self.token_addr,
            amount: self.amount,
            expected_mc_mint_tx_nonce_hex: self.expected_mc_mint_tx_nonce_hex@,
        }
    }
}

impl GnosisSafeDeposit {
    /// A deposit with the given values; `id` is `None` until it is stored.
    pub fn new(
        id: Option<i32>,
        safe_addr: EthAddr,
        token_addr: EthAddr,
        amount: u64,
        expected_mc_mint_tx_nonce_hex: String,
    ) -> (res: Self)
        ensures
            res@ == (GnosisSafeDepositView {
                id,
                safe_addr,
                token_addr,
                amount,
                expected_mc_mint_tx_nonce_hex: expected_mc_mint_tx_nonce_hex@,
            }),
    {
        GnosisSafeDeposit { id, safe_addr, token_addr, amount, expected_mc_mint_tx_nonce_hex }
    }

    /// Get id, present once the deposit is stored.
    pub fn id(&self) -> (res: Option<i32>)
        ensures
            res == self@.id,
    {
        self.id
    }

    /// Get the address of the safe the deposit went into.
    pub fn safe_address(&self) -> (res: &EthAddr)
        ensures
            *res == self@.safe_addr,
    {
        &self.safe_addr
    }

    /// Get the contract address of the deposited token.
    pub fn token_address(&self) -> (res: &EthAddr)
        ensures
            *res == self@.token_addr,
    {
        &self.token_addr
    }

    /// Get the deposited amount.
    pub fn amount(&self) -> (res: u64)
        ensures
            res == self@.amount,
    {
        self.amount
    }

    /// Get the nonce, in hex, of the MintTx that this deposit is to back.
    pub fn expected_mc_mint_tx_nonce_hex(&self) -> (res: &str)
        ensures
            res@ == self@.expected_mc_mint_tx_nonce_hex,
    {
        self.expected_mc_mint_tx_nonce_hex.as_str()
    }

    /// Records the id under which the deposit was stored.
    pub fn set_id(&mut self, id: i32)
        ensures
            final(self)@ == (GnosisSafeDepositView { id: Some(id), ..old(self)@ }),
    {
        self.id = Some(id);
    }
}

} // verus!
