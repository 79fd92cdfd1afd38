//! The rows that the indexer writes for transactions, and how the data of an
//! inner transaction is turned into JSON according to its type.
use vstd::prelude::*;

use crate::text::{hex_encode, lower_hex, str_equal};

verus! {

/// A wrapper transaction as the indexer stores it.
pub struct WrapperTxDB {
    pub hash: Vec<u8>,
    pub block_id: Vec<u8>,
    pub fee_payer: Option<String>,
    pub fee_amount_per_gas_unit: Option<String>,
    pub fee_token: Option<String>,
    pub fee_gas_limit_multiplier: Option<i64>,
    pub atomic: bool,
    pub return_code: Option<i32>,
}

/// The type as which the data of an inner transaction is read before it is
/// written as JSON.
#[derive(Debug, Clone, Copy, PartialEq, Eq, Structural)]
pub enum TxDataKind {
    /// Data holding a transparent transfer.
    Transfer,
    /// Data holding a bond.
    Bond,
    /// Data holding an unbond.
    Unbond,
    /// Data holding a transfer to Ethereum through the bridge pool.
    PendingTransfer,
    /// Data holding a vote on a governance proposal.
    VoteProposalData,
    /// Data holding a public key.
    PublicKey,
    /// Data holding an address.
    Address,
    /// Data holding a change of a steward's commission.
    UpdateStewardCommission,
    /// Data holding a new account.
    InitAccount,
    /// Data holding an account update.
    UpdateAccount,
    /// Data holding a new validator.
    BecomeValidator,
    /// Data holding a change of a validator's consensus key.
    ConsensusKeyChange,
    /// Data holding a change of a validator's commission rate.
    CommissionChange,
    /// Data holding a change of a validator's metadata.
    MetaDataChange,
    /// Data holding a withdrawal, or a claim of rewards.
    Withdraw,
    /// Data holding a new governance proposal.
    InitProposalData,
    /// Data holding a redelegation.
    Redelegation,
}

/// What becomes of the data of an inner transaction: it is read as one of
/// the chain's data types and written as JSON, it is kept as hexadecimal text
/// (a JSON string), or the JSON value is null.
#[derive(Debug)]
pub enum TxDecoding {
    Decode(TxDataKind),
    Hex(String),
    Null,
}

/// The data type of the inner transactions whose type name is `name`; none
/// for a name that has no data type (`tx_ibc` and unknown names).
pub open spec fn tx_data_kind_of(name: Seq<char>) -> Option<TxDataKind> {
    if name == "tx_transfer"@ {
        Some(TxDataKind::Transfer)
    } else if name == "tx_bond"@ {
        Some(TxDataKind::Bond)
    } else if name == "tx_unbond"@ {
        Some(TxDataKind::Unbond)
    } else if name == "tx_bridge_pool"@ {
        Some(TxDataKind::PendingTransfer)
    } else if name == "tx_vote_proposal"@ {
        Some(TxDataKind::VoteProposalData)
    } else if name == "tx_reveal_pk"@ {
        Some(TxDataKind::PublicKey)
    } else if name == "tx_resign_steward"@ {
        Some(TxDataKind::Address)
    } else if name == "tx_update_steward_commission"@ {
        Some(TxDataKind::UpdateStewardCommission)
    } else if name == "tx_init_account"@ {
        Some(TxDataKind::InitAccount)
    } else if name == "tx_update_account"@ {
        Some(TxDataKind::UpdateAccount)
    } else if name == "tx_become_validator"@ {
        Some(TxDataKind::BecomeValidator)
    } else if name == "tx_change_consensus_key"@ {
        Some(TxDataKind::ConsensusKeyChange)
    } else if name == "tx_change_validator_commission"@ {
        Some(TxDataKind::CommissionChange)
    } else if name == "tx_change_validator_metadata"@ {
        Some(TxDataKind::MetaDataChange)
    } else if name == "tx_claim_rewards"@ {
        Some(TxDataKind::Withdraw)
    } else if name == "tx_deactivate_validator"@ {
        Some(TxDataKind::Address)
    } else if name == "tx_init_proposal"@ {
        Some(TxDataKind::InitProposalData)
    } else if name == "tx_reactivate_validator"@ {
        Some(TxDataKind::Address)
    } else if name == "tx_unjail_validator"@ {
        Some(TxDataKind::Address)
    } else if name == "tx_redelegate"@ {
        Some(TxDataKind::Redelegation)
    } else if name == "tx_withdraw"@ {
        Some(TxDataKind::Withdraw)
    } else {
        None
    }
}

/// What becomes of the data `data` of an inner transaction of type
/// `type_tx`: IBC transactions keep their data as lowercase hexadecimal text,
/// the known types are read as their data type, and every other type gives
/// null.
pub fn decode_tx(type_tx: &String, data: &Vec<u8>) -> (r: TxDecoding)
    ensures
        type_tx@ == "tx_ibc"@ ==> (r matches TxDecoding::Hex(h) && h@ == lower_hex(data@)),
        type_tx@ != "tx_ibc"@ ==> match tx_data_kind_of(type_tx@) {
            Some(k) => r == TxDecoding::Decode(k),
            None => r is Null,
        },
{
    let t = type_tx.as_str();
    if str_equal(t, "tx_ibc") {
        TxDecoding::Hex(hex_encode(data.as_slice()))
    } else if str_equal(t, "tx_transfer") {
        TxDecoding::Decode(TxDataKind::Transfer)
    } else if str_equal(t, "tx_bond") {
        TxDecoding::Decode(TxDataKind::Bond)
    } else if str_equal(t, "tx_unbond") {
        TxDecoding::Decode(TxDataKind::Unbond)
    } else if str_equal(t, "tx_bridge_pool") {
        TxDecoding::Decode(TxDataKind::PendingTransfer)
    } else if str_equal(t, "tx_vote_proposal") {
        TxDecoding::Decode(TxDataKind::VoteProposalData)
    } else if str_equal(t, "tx_reveal_pk") {
        TxDecoding::Decode(TxDataKind::PublicKey)
    } else if str_equal(t, "tx_resign_steward") {
        TxDecoding::Decode(TxDataKind::Address)
    } else if str_equal(t, "tx_update_steward_commission") {
        TxDecoding::Decode(TxDataKind::UpdateStewardCommission)
    } else if str_equal(t, "tx_init_account") {
        TxDecoding::Decode(TxDataKind::InitAccount)
    } else if str_equal(t, "tx_update_account") {
        TxDecoding::Decode(TxDataKind::UpdateAccount)
    } else if str_equal(t, "tx_become_validator") {
        TxDecoding::Decode(TxDataKind::BecomeValidator)
    } else if str_equal(t, "tx_change_consensus_key") {
        TxDecoding::Decode(TxDataKind::ConsensusKeyChange)
    } else if str_equal(t, "tx_change_validator_commission") {
        TxDecoding::Decode(TxDataKind::CommissionChange)
    } else if str_equal(t, "tx_change_validator_metadata") {
        TxDecoding::Decode(TxDataKind::MetaDataChange)
    } else if str_equal(t, "tx_claim_rewards") {
        TxDecoding::Decode(TxDataKind::Withdraw)
    } else if str_equal(t, "tx_deactivate_validator") {
        TxDecoding::Decode(TxDataKind::Address)
    } else if str_equal(t, "tx_init_proposal") {
        TxDecoding::Decode(TxDataKind::InitProposalData)
    } else if str_equal(t, "tx_reactivate_validator") {
        TxDecoding::Decode(TxDataKind::Address)
    } else if str_equal(t, "tx_unjail_validator") {
        TxDecoding::Decode(TxDataKind::Address)
    } else if str_equal(t, "tx_redelegate") {
        TxDecoding::Decode(TxDataKind::Redelegation)
    } else if str_equal(t, "tx_withdraw") {
        TxDecoding::Decode(TxDataKind::Withdraw)
    } else {
        TxDecoding::Null
    }
}

/// The data type that each transaction type name is read as, as the
/// indexer's decoder has it; `tx_ibc` has none.
pub proof fn tx_type_names_and_their_data()
    ensures
        tx_data_kind_of("tx_transfer"@) == Some(TxDataKind::Transfer),
        tx_data_kind_of("tx_bond"@) == Some(TxDataKind::Bond),
        tx_data_kind_of("tx_unbond"@) == Some(TxDataKind::Unbond),
        tx_data_kind_of("tx_bridge_pool"@) == Some(TxDataKind::PendingTransfer),
        tx_data_kind_of("tx_vote_proposal"@) == Some(TxDataKind::VoteProposalData),
        tx_data_kind_of("tx_reveal_pk"@) == Some(TxDataKind::PublicKey),
        tx_data_kind_of("tx_resign_steward"@) == Some(TxDataKind::Address),
        tx_data_kind_of("tx_update_steward_commission"@) == Some(TxDataKind::UpdateStewardCommission),
        tx_data_kind_of("tx_init_account"@) == Some(TxDataKind::InitAccount),
        tx_data_kind_of("tx_update_account"@) == Some(TxDataKind::UpdateAccount),
        tx_data_kind_of("tx_become_validator"@) == Some(TxDataKind::BecomeValidator),
        tx_data_kind_of("tx_change_consensus_key"@) == Some(TxDataKind::ConsensusKeyChange),
        tx_data_kind_of("tx_change_validator_commission"@) == Some(TxDataKind::CommissionChange),
        tx_data_kind_of("tx_change_validator_metadata"@) == Some(TxDataKind::MetaDataChange),
        tx_data_kind_of("tx_claim_rewards"@) == Some(TxDataKind::Withdraw),
        tx_data_kind_of("tx_deactivate_validator"@) == Some(TxDataKind::Address),
        tx_data_kind_of("tx_init_proposal"@) == Some(TxDataKind::InitProposalData),
        tx_data_kind_of("tx_reactivate_validator"@) == Some(TxDataKind::Address),
        tx_data_kind_of("tx_unjail_validator"@) == Some(TxDataKind::Address),
        tx_data_kind_of("tx_redelegate"@) == Some(TxDataKind::Redelegation),
        tx_data_kind_of("tx_withdraw"@) == Some(TxDataKind::Withdraw),
        tx_data_kind_of("tx_ibc"@) is None,
{
    reveal_strlit("tx_transfer");
    assert("tx_transfer"@.len() == 11 && "tx_transfer"@[3] == 't');
    reveal_strlit("tx_bond");
    assert("tx_bond"@.len() == 7 && "tx_bond"@[3] == 'b');
    reveal_strlit("tx_unbond");
    assert("tx_unbond"@.len() == 9 && "tx_unbond"@[3] == 'u');
    reveal_strlit("tx_bridge_pool");
    assert("tx_bridge_pool"@.len() == 14 && "tx_bridge_pool"@[3] == 'b');
    reveal_strlit("tx_vote_proposal");
    assert("tx_vote_proposal"@.len() == 16 && "tx_vote_proposal"@[3] == 'v');
    reveal_strlit("tx_reveal_pk");
    assert("tx_reveal_pk"@.len() == 12 && "tx_reveal_pk"@[3] == 'r');
    reveal_strlit("tx_resign_steward");
    assert("tx_resign_steward"@.len() == 17 && "tx_resign_steward"@[3] == 'r');
    reveal_strlit("tx_update_steward_commission");
    assert("tx_update_steward_commission"@.len() == 28 && "tx_update_steward_commission"@[3] == 'u');
    reveal_strlit("tx_init_account");
    assert("tx_init_account"@.len() == 15 && "tx_init_account"@[3] == 'i');
    reveal_strlit("tx_update_account");
    assert("tx_update_account"@.len() == 17 && "tx_update_account"@[3] == 'u');
    reveal_strlit("tx_become_validator");
    assert("tx_become_validator"@.len() == 19 && "tx_become_validator"@[3] == 'b');
    reveal_strlit("tx_change_consensus_key");
    assert("tx_change_consensus_key"@.len() == 23 && "tx_change_consensus_key"@[3] == 'c');
    reveal_strlit("tx_change_validator_commission");
    assert("tx_change_validator_commission"@.len() == 30 && "tx_change_validator_commission"@[3] == 'c');
    reveal_strlit("tx_change_validator_metadata");
    assert("tx_change_validator_metadata"@.len() == 28 && "tx_change_validator_metadata"@[3] == 'c');
    reveal_strlit("tx_claim_rewards");
    assert("tx_claim_rewards"@.len() == 16 && "tx_claim_rewards"@[3] == 'c');
    reveal_strlit("tx_deactivate_validator");
    assert("tx_deactivate_validator"@.len() == 23 && "tx_deactivate_validator"@[3] == 'd');
    reveal_strlit("tx_init_proposal");
    assert("tx_init_proposal"@.len() == 16 && "tx_init_proposal"@[3] == 'i');
    reveal_strlit("tx_reactivate_validator");
    assert("tx_reactivate_validator"@.len() == 23 && "tx_reactivate_validator"@[3] == 'r');
    reveal_strlit("tx_unjail_validator");
    assert("tx_unjail_validator"@.len() == 19 && "tx_unjail_validator"@[3] == 'u');
    reveal_strlit("tx_redelegate");
    assert("tx_redelegate"@.len() == 13 && "tx_redelegate"@[3] == 'r');
    reveal_strlit("tx_withdraw");
    assert("tx_withdraw"@.len() == 11 && "tx_withdraw"@[3] == 'w');
    reveal_strlit("tx_ibc");
    assert("tx_ibc"@.len() == 6 && "tx_ibc"@[3] == 'i');
}

} // verus!
