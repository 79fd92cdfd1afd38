//! Transactions as the server returns them.
use vstd::prelude::*;

verus! {

/// A wrapper transaction and its fee.
pub struct WrapperTxInfo {
    /// The hash that identifies the transaction.
    pub hash: Vec<u8>,
    /// The block that holds the transaction.
    pub block_id: Vec<u8>,
    /// Who pays the fee, as an encoded address.
    pub fee_payer: Option<String>,
    /// The fee paid per unit of gas.
    pub fee_amount_per_gas_unit: Option<String>,
    pub fee_token: Option<String>,
    /// The gas limit.
    pub gas_limit_multiplier: Option<i64>,
    pub atomic: Option<bool>,
    pub return_code: Option<i32>,
}

/// A vote on a governance proposal.
pub struct VoteProposalTx {
    pub id: i64,
    pub vote: String,
    pub voter: String,
    pub delegations: Vec<String>,
    pub tx_id: Vec<u8>,
}

impl VoteProposalTx {
    /// A vote from the columns of its database row; the delegations come from
    /// another table, so the list starts empty.
    pub fn from_row_values(id: i64, vote: String, voter: String, tx_id: Vec<u8>) -> (r: VoteProposalTx)
        ensures
            r.id == id,
            r.vote == vote,
            r.voter == voter,
            r.tx_id == tx_id,
            r.delegations@.len() == 0,
    {
        VoteProposalTx { id, vote, voter, delegations: Vec::new(), tx_id }
    }
}

/// A transfer, from the view of transfer transactions.
pub struct TransferTxInfo {
    /// The hash that identifies the transaction.
    pub txid: Vec<u8>,
    pub source: Option<String>,
    pub target: Option<String>,
    pub token: Option<String>,
    pub amount: Option<String>,
    pub shielded: Option<String>,
    pub memo: Option<Vec<u8>>,
}

} // verus!
