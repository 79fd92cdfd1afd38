//! The database views that the explorer reads: one per kind of inner
//! transaction, each a query over the inner transactions whose code is that
//! of the transaction kind.
use vstd::prelude::*;

use crate::text::{find_last_key, last_key_index, lemma_last_key_index_bounds, replace, replace_all};

verus! {

/// A kind of inner transaction that has a view of its own.
#[derive(Debug, Clone, Copy, PartialEq, Eq, Hash, Structural)]
pub enum ViewType {
    BecomeValidator,
    Bond,
    BridgePool,
    ChangeConsensusKey,
    ChangeValidatorCommission,
    ChangeValidatorMetadata,
    ClaimRewards,
    DeactivateValidator,
    Ibc,
    InitAccount,
    InitProposal,
    ReactivateValidator,
    Redelegate,
    ResignSteward,
    RevealPk,
    Transfer,
    Unbond,
    UnjailValidator,
    UpdateAccount,
    UpdateStewardCommission,
    VoteProposal,
    Withdraw,
}

/// The name of the view of a transaction kind.
pub open spec fn view_name(view_type: ViewType) -> Seq<char> {
    match view_type {
        ViewType::BecomeValidator => "tx_become_validator"@,
        ViewType::Bond => "tx_bond"@,
        ViewType::BridgePool => "tx_bridge_pool"@,
        ViewType::ChangeConsensusKey => "tx_change_consensus_key"@,
        ViewType::ChangeValidatorCommission => "tx_change_validator_comission"@,
        ViewType::ChangeValidatorMetadata => "tx_change_validator_metadata"@,
        ViewType::ClaimRewards => "tx_claim_rewards"@,
        ViewType::DeactivateValidator => "tx_deactivate_validator"@,
        ViewType::Ibc => "tx_ibc"@,
        ViewType::InitAccount => "tx_init_account"@,
        ViewType::InitProposal => "tx_init_proposal"@,
        ViewType::ReactivateValidator => "tx_reactivate_validator"@,
        ViewType::Redelegate => "tx_redelegate"@,
        ViewType::ResignSteward => "tx_resign_steward"@,
        ViewType::RevealPk => "tx_reveal_pk"@,
        ViewType::Transfer => "tx_transfer"@,
        ViewType::Unbond => "tx_unbond"@,
        ViewType::UnjailValidator => "tx_unjail_validator"@,
        ViewType::UpdateAccount => "tx_update_account"@,
        ViewType::UpdateStewardCommission => "tx_update_steward_commission"@,
        ViewType::VoteProposal => "tx_vote_proposal"@,
        ViewType::Withdraw => "tx_withdraw"@,
    }
}

/// The query that defines the view of a transaction kind, with `{network}`
/// standing for the schema of the network and `{code}` for the code hash of
/// the transaction kind.
pub open spec fn query_template(view_type: ViewType) -> Seq<char> {
    match view_type {
        ViewType::BecomeValidator => "SELECT
        hash AS txid,
        data->>'address' AS address,
        data->>'consensus_key' AS consensus_key, 
        data->>'eth_cold_key' AS eth_cold_key, 
        data->>'eth_hot_key' AS eth_hot_key, 
        data->>'protocol_key' AS protocol_key, 
        data->>'commission_rate' AS commission_rate, 
        data->>'max_commission_rate_change' AS max_commission_rate_change, 
        data->>'email' AS email, 
        data->>'description' AS description, 
        data->>'website' AS website, 
        data->>'discord_handle' AS discord_handle, 
        data->>'avatar' AS avatar
        FROM {network}.inner_transactions WHERE code = '\\x{code}';"@,
        ViewType::Bond => "SELECT
        hash AS txid,
        data->>'validator' AS validator,
        data->>'amount' AS amount,
        data->>'source' AS source
        FROM {network}.inner_transactions WHERE code = '\\x{code}';"@,
        ViewType::BridgePool => "SELECT
        hash AS txid,
        data
        FROM {network}.inner_transactions WHERE code = '\\x{code}';"@,
        ViewType::ChangeConsensusKey => "SELECT
        hash AS txid,
        data->>'validator' AS validator,
        data->>'consensus_key' AS consensus_key
        FROM {network}.inner_transactions WHERE code = '\\x{code}';"@,
        ViewType::ChangeValidatorCommission => "SELECT
        hash AS txid,
        data->>'validator' AS validator,
        data->>'new_rate' AS new_rate
        FROM {network}.inner_transactions WHERE code = '\\x{code}';"@,
        ViewType::ChangeValidatorMetadata => "SELECT
        hash AS txid,
        data->>'validator' AS validator,
        data->>'email' AS email,
        data->>'description' AS description,
        data->>'website' AS website,
        data->>'discord_handle' AS discord_handle,
        data->>'avatar' AS avatar,
        data->>'commission_rate' AS commission_rate
        FROM {network}.inner_transactions WHERE code = '\\x{code}';"@,
        ViewType::ClaimRewards => "SELECT
        hash AS txid,
        data->>'validator' AS validator,
        data->>'source' AS source
        FROM {network}.inner_transactions WHERE code = '\\x{code}';"@,
        ViewType::DeactivateValidator => "SELECT
        hash AS txid,
        data AS address
        FROM {network}.inner_transactions WHERE code = '\\x{code}';"@,
        ViewType::Ibc => "SELECT
        hash AS txid,
        data
        FROM {network}.inner_transactions WHERE code = '\\x{code}';"@,
        ViewType::InitAccount => "SELECT
        hash AS txid,
        data->>'public_keys' AS public_keys,
        data->>'vp_code_hash' AS vp_code_hash,
        data->>'threshold' AS threshold
        FROM {network}.inner_transactions WHERE code = '\\x{code}';"@,
        ViewType::InitProposal => "SELECT
        hash AS txid,
        data->>'id' AS id,
        data->>'content' AS content,
        data->>'author' AS author,
        data->>'r#type' AS rtype,
        data->>'voting_start_epoch' AS voting_start_epoch,
        data->>'voting_end_epoch' AS voting_end_epoch,
        data->>'grace_epoch' AS grace_epoch
        FROM {network}.inner_transactions WHERE code = '\\x{code}';"@,
        ViewType::ReactivateValidator => "SELECT
        hash AS txid,
        data AS address
        FROM {network}.inner_transactions WHERE code = '\\x{code}';"@,
        ViewType::Redelegate => "SELECT
        hash AS txid,
        data->>'redel_bond_start' AS redel_bond_start,
        data->>'src_validator' AS src_validator,
        data->>'bond_start' AS bond_start,
        data->>'amount' AS amount
        FROM {network}.inner_transactions WHERE code = '\\x{code}';"@,
        ViewType::ResignSteward => "SELECT
        hash AS txid,
        data AS address
        FROM {network}.inner_transactions WHERE code = '\\x{code}';"@,
        ViewType::RevealPk => "SELECT
        hash AS txid,
        data AS public_key
        FROM {network}.inner_transactions WHERE code = '\\x{code}';"@,
        ViewType::Transfer => "SELECT
        hash AS txid,
        data->'sources'->0->>'owner' AS source,
        data->'targets'->0->>'owner' AS target,
        data->'sources'->0->>'token' AS token,
        data->'sources'->0->>'amount' AS amount,
        data->>'shielded_section_hash' AS shielded,
        memo AS memo
        FROM {network}.inner_transactions WHERE code = '\\x{code}' AND return_code = 0;"@,
        ViewType::Unbond => "SELECT
        hash AS txid,
        data->>'validator' AS validator,
        data->>'amount' AS amount,
        data->>'source' AS source
        FROM {network}.inner_transactions WHERE code = '\\x{code}';"@,
        ViewType::UnjailValidator => "SELECT
        hash AS txid,
        data AS address
        FROM {network}.inner_transactions WHERE code = '\\x{code}';"@,
        ViewType::UpdateAccount => "SELECT
        hash AS txid,
        data->>'addr' AS addr,
        data->>'vp_code_hash' AS vp_code_hash,
        data->>'public_keys' AS public_keys,
        data->>'threshold' AS threshold
        FROM {network}.inner_transactions WHERE code = '\\x{code}';"@,
        ViewType::UpdateStewardCommission => "SELECT
        hash AS txid,
        data->>'steward' AS steward,
        data->>'commission' AS commission 
        FROM {network}.inner_transactions WHERE code = '\\x{code}';"@,
        ViewType::VoteProposal => "SELECT
        hash AS txid,
        data->>'id' AS id,
        data->>'vote' AS vote,
        data->>'voter' AS voter,
        data->>'delegations' AS delegations
        FROM {network}.inner_transactions WHERE code = '\\x{code}' AND return_code = 0;"@,
        ViewType::Withdraw => "SELECT
        hash AS txid,
        data->'validator' AS validator,
        data->'source' AS source
        FROM {network}.inner_transactions WHERE code = '\\x{code}';"@,
    }
}

/// The name of the view of a transaction kind.
fn get_view_name(view_type: &ViewType) -> (r: &'static str)
    ensures
        r@ == view_name(*view_type),
{
    match view_type {
        ViewType::BecomeValidator => "tx_become_validator",
        ViewType::Bond => "tx_bond",
        ViewType::BridgePool => "tx_bridge_pool",
        ViewType::ChangeConsensusKey => "tx_change_consensus_key",
        ViewType::ChangeValidatorCommission => "tx_change_validator_comission",
        ViewType::ChangeValidatorMetadata => "tx_change_validator_metadata",
        ViewType::ClaimRewards => "tx_claim_rewards",
        ViewType::DeactivateValidator => "tx_deactivate_validator",
        ViewType::Ibc => "tx_ibc",
        ViewType::InitAccount => "tx_init_account",
        ViewType::InitProposal => "tx_init_proposal",
        ViewType::ReactivateValidator => "tx_reactivate_validator",
        ViewType::Redelegate => "tx_redelegate",
        ViewType::ResignSteward => "tx_resign_steward",
        ViewType::RevealPk => "tx_reveal_pk",
        ViewType::Transfer => "tx_transfer",
        ViewType::Unbond => "tx_unbond",
        ViewType::UnjailValidator => "tx_unjail_validator",
        ViewType::UpdateAccount => "tx_update_account",
        ViewType::UpdateStewardCommission => "tx_update_steward_commission",
        ViewType::VoteProposal => "tx_vote_proposal",
        ViewType::Withdraw => "tx_withdraw",
    }
}

/// The query that defines the view of a transaction kind.
fn get_query_template(view_type: &ViewType) -> (r: &'static str)
    ensures
        r@ == query_template(*view_type),
{
    match view_type {
        ViewType::BecomeValidator => "SELECT
        hash AS txid,
        data->>'address' AS address,
        data->>'consensus_key' AS consensus_key, 
        data->>'eth_cold_key' AS eth_cold_key, 
        data->>'eth_hot_key' AS eth_hot_key, 
        data->>'protocol_key' AS protocol_key, 
        data->>'commission_rate' AS commission_rate, 
        data->>'max_commission_rate_change' AS max_commission_rate_change, 
        data->>'email' AS email, 
        data->>'description' AS description, 
        data->>'website' AS website, 
        data->>'discord_handle' AS discord_handle, 
        data->>'avatar' AS avatar
        FROM {network}.inner_transactions WHERE code = '\\x{code}';",
        ViewType::Bond => "SELECT
        hash AS txid,
        data->>'validator' AS validator,
        data->>'amount' AS amount,
        data->>'source' AS source
        FROM {network}.inner_transactions WHERE code = '\\x{code}';",
        ViewType::BridgePool => "SELECT
        hash AS txid,
        data
        FROM {network}.inner_transactions WHERE code = '\\x{code}';",
        ViewType::ChangeConsensusKey => "SELECT
        hash AS txid,
        data->>'validator' AS validator,
        data->>'consensus_key' AS consensus_key
        FROM {network}.inner_transactions WHERE code = '\\x{code}';",
        ViewType::ChangeValidatorCommission => "SELECT
        hash AS txid,
        data->>'validator' AS validator,
        data->>'new_rate' AS new_rate
        FROM {network}.inner_transactions WHERE code = '\\x{code}';",
        ViewType::ChangeValidatorMetadata => "SELECT
        hash AS txid,
        data->>'validator' AS validator,
        data->>'email' AS email,
        data->>'description' AS description,
        data->>'website' AS website,
        data->>'discord_handle' AS discord_handle,
        data->>'avatar' AS avatar,
        data->>'commission_rate' AS commission_rate
        FROM {network}.inner_transactions WHERE code = '\\x{code}';",
        ViewType::ClaimRewards => "SELECT
        hash AS txid,
        data->>'validator' AS validator,
        data->>'source' AS source
        FROM {network}.inner_transactions WHERE code = '\\x{code}';",
        ViewType::DeactivateValidator => "SELECT
        hash AS txid,
        data AS address
        FROM {network}.inner_transactions WHERE code = '\\x{code}';",
        ViewType::Ibc => "SELECT
        hash AS txid,
        data
        FROM {network}.inner_transactions WHERE code = '\\x{code}';",
        ViewType::InitAccount => "SELECT
        hash AS txid,
        data->>'public_keys' AS public_keys,
        data->>'vp_code_hash' AS vp_code_hash,
        data->>'threshold' AS threshold
        FROM {network}.inner_transactions WHERE code = '\\x{code}';",
        ViewType::InitProposal => "SELECT
        hash AS txid,
        data->>'id' AS id,
        data->>'content' AS content,
        data->>'author' AS author,
        data->>'r#type' AS rtype,
        data->>'voting_start_epoch' AS voting_start_epoch,
        data->>'voting_end_epoch' AS voting_end_epoch,
        data->>'grace_epoch' AS grace_epoch
        FROM {network}.inner_transactions WHERE code = '\\x{code}';",
        ViewType::ReactivateValidator => "SELECT
        hash AS txid,
        data AS address
        FROM {network}.inner_transactions WHERE code = '\\x{code}';",
        ViewType::Redelegate => "SELECT
        hash AS txid,
        data->>'redel_bond_start' AS redel_bond_start,
        data->>'src_validator' AS src_validator,
        data->>'bond_start' AS bond_start,
        data->>'amount' AS amount
        FROM {network}.inner_transactions WHERE code = '\\x{code}';",
        ViewType::ResignSteward => "SELECT
        hash AS txid,
        data AS address
        FROM {network}.inner_transactions WHERE code = '\\x{code}';",
        ViewType::RevealPk => "SELECT
        hash AS txid,
        data AS public_key
        FROM {network}.inner_transactions WHERE code = '\\x{code}';",
        ViewType::Transfer => "SELECT
        hash AS txid,
        data->'sources'->0->>'owner' AS source,
        data->'targets'->0->>'owner' AS target,
        data->'sources'->0->>'token' AS token,
        data->'sources'->0->>'amount' AS amount,
        data->>'shielded_section_hash' AS shielded,
        memo AS memo
        FROM {network}.inner_transactions WHERE code = '\\x{code}' AND return_code = 0;",
        ViewType::Unbond => "SELECT
        hash AS txid,
        data->>'validator' AS validator,
        data->>'amount' AS amount,
        data->>'source' AS source
        FROM {network}.inner_transactions WHERE code = '\\x{code}';",
        ViewType::UnjailValidator => "SELECT
        hash AS txid,
        data AS address
        FROM {network}.inner_transactions WHERE code = '\\x{code}';",
        ViewType::UpdateAccount => "SELECT
        hash AS txid,
        data->>'addr' AS addr,
        data->>'vp_code_hash' AS vp_code_hash,
        data->>'public_keys' AS public_keys,
        data->>'threshold' AS threshold
        FROM {network}.inner_transactions WHERE code = '\\x{code}';",
        ViewType::UpdateStewardCommission => "SELECT
        hash AS txid,
        data->>'steward' AS steward,
        data->>'commission' AS commission 
        FROM {network}.inner_transactions WHERE code = '\\x{code}';",
        ViewType::VoteProposal => "SELECT
        hash AS txid,
        data->>'id' AS id,
        data->>'vote' AS vote,
        data->>'voter' AS voter,
        data->>'delegations' AS delegations
        FROM {network}.inner_transactions WHERE code = '\\x{code}' AND return_code = 0;",
        ViewType::Withdraw => "SELECT
        hash AS txid,
        data->'validator' AS validator,
        data->'source' AS source
        FROM {network}.inner_transactions WHERE code = '\\x{code}';",
    }
}

/// The query that drops the view of `view_type` in the schema `network`.
pub open spec fn drop_view_query(network: Seq<char>, view_type: ViewType) -> Seq<char> {
    "DROP VIEW IF EXISTS "@ + network + "."@ + view_name(view_type) + ";"@
}

/// The query that creates the view of `view_type` in the schema `network`,
/// for transactions whose code hash is `code`.
pub open spec fn create_view_query(network: Seq<char>, view_type: ViewType, code: Seq<char>) -> Seq<char> {
    let body = replace_all(replace_all(query_template(view_type), "{network}"@, network), "{code}"@, code);
    "CREATE OR REPLACE VIEW "@ + network + "."@ + view_name(view_type) + " AS "@ + body
}

/// Builds the query that drops the view of `view_type` in the schema
/// `network`, if it exists.
pub fn get_drop_view_query(network: &str, view_type: &ViewType) -> (r: String)
    ensures
        r@ == drop_view_query(network@, *view_type),
{
    let mut r = "DROP VIEW IF EXISTS ".to_owned();
    r.append(network);
    r.append(".");
    r.append(get_view_name(view_type));
    r.append(";");
    r
}

/// Builds the query that creates, or replaces, the view of `view_type` in the
/// schema `network`. `checksums` pairs the name of each view with the code
/// hash of its transaction kind, a later pair for a name replacing an earlier
/// one; where it has no code hash for the view, the query is empty.
pub fn get_create_view_query(network: &str, view_type: &ViewType, checksums: &Vec<(String, String)>) -> (r: String)
    ensures
        last_key_index(checksums@, view_name(*view_type)) == -1 ==> r@ == Seq::<char>::empty(),
        last_key_index(checksums@, view_name(*view_type)) >= 0 ==> r@ == create_view_query(
            network@,
            *view_type,
            checksums@[last_key_index(checksums@, view_name(*view_type))].1@,
        ),
{
    let view_name = get_view_name(view_type);
    let query_template = get_query_template(view_type);
    proof {
        lemma_last_key_index_bounds(checksums@, view_name@);
        reveal_strlit("{network}");
        reveal_strlit("{code}");
    }
    match find_last_key(checksums, view_name) {
        Some(i) => {
            let code = checksums[i].1.as_str();
            let with_network = replace(query_template, "{network}", network);
            let query_body = replace(with_network.as_str(), "{code}", code);
            let mut r = "CREATE OR REPLACE VIEW ".to_owned();
            r.append(network);
            r.append(".");
            r.append(view_name);
            r.append(" AS ");
            r.append(query_body.as_str());
            r
        },
        None => String::new(),
    }
}

/// The length of the view name of a transaction kind and its fourth
/// character, which set the names apart.
spec fn name_signature(view_type: ViewType) -> (nat, char) {
    match view_type {
        ViewType::BecomeValidator => (19, 'b'),
        ViewType::Bond => (7, 'b'),
        ViewType::BridgePool => (14, 'b'),
        ViewType::ChangeConsensusKey => (23, 'c'),
        ViewType::ChangeValidatorCommission => (29, 'c'),
        ViewType::ChangeValidatorMetadata => (28, 'c'),
        ViewType::ClaimRewards => (16, 'c'),
        ViewType::DeactivateValidator => (23, 'd'),
        ViewType::Ibc => (6, 'i'),
        ViewType::InitAccount => (15, 'i'),
        ViewType::InitProposal => (16, 'i'),
        ViewType::ReactivateValidator => (23, 'r'),
        ViewType::Redelegate => (13, 'r'),
        ViewType::ResignSteward => (17, 'r'),
        ViewType::RevealPk => (12, 'r'),
        ViewType::Transfer => (11, 't'),
        ViewType::Unbond => (9, 'u'),
        ViewType::UnjailValidator => (19, 'u'),
        ViewType::UpdateAccount => (17, 'u'),
        ViewType::UpdateStewardCommission => (28, 'u'),
        ViewType::VoteProposal => (16, 'v'),
        ViewType::Withdraw => (11, 'w'),
    }
}

proof fn lemma_name_signature(view_type: ViewType)
    ensures
        view_name(view_type).len() == name_signature(view_type).0,
        view_name(view_type)[3] == name_signature(view_type).1,
{
    reveal_strlit("tx_become_validator");
    reveal_strlit("tx_bond");
    reveal_strlit("tx_bridge_pool");
    reveal_strlit("tx_change_consensus_key");
    reveal_strlit("tx_change_validator_comission");
    reveal_strlit("tx_change_validator_metadata");
    reveal_strlit("tx_claim_rewards");
    reveal_strlit("tx_deactivate_validator");
    reveal_strlit("tx_ibc");
    reveal_strlit("tx_init_account");
    reveal_strlit("tx_init_proposal");
    reveal_strlit("tx_reactivate_validator");
    reveal_strlit("tx_redelegate");
    reveal_strlit("tx_resign_steward");
    reveal_strlit("tx_reveal_pk");
    reveal_strlit("tx_transfer");
    reveal_strlit("tx_unbond");
    reveal_strlit("tx_unjail_validator");
    reveal_strlit("tx_update_account");
    reveal_strlit("tx_update_steward_commission");
    reveal_strlit("tx_vote_proposal");
    reveal_strlit("tx_withdraw");
}

/// Each kind of transaction has a view of its own: distinct kinds have
/// distinct view names.
pub proof fn view_names_are_distinct(a: ViewType, b: ViewType)
    requires
        a != b,
    ensures
        view_name(a) != view_name(b),
{
    lemma_name_signature(a);
    lemma_name_signature(b);
    assert(name_signature(a) != name_signature(b));
}

/// The query text of each view as the explorer's database schema defines
/// it, line breaks written as `\n`.
pub open spec fn view_query_text(view_type: ViewType) -> Seq<char> {
    match view_type {
        ViewType::BecomeValidator =>
            "SELECT\n        hash AS txid,\n        data->>'address' AS address,\n        data->>'consensus_key' AS consensus_key, \n        data->>'eth_cold_key' AS eth_cold_key, \n        data->>'eth_hot_key' AS eth_hot_key, \n        data->>'protocol_key' AS protocol_key, \n        data->>'commission_rate' AS commission_rate, \n        data->>'max_commission_rate_change' AS max_commission_rate_change, \n        data->>'email' AS email, \n        data->>'description' AS description, \n        data->>'website' AS website, \n        data->>'discord_handle' AS discord_handle, \n        data->>'avatar' AS avatar\n        FROM {network}.inner_transactions WHERE code = '\\x{code}';"@,
        ViewType::Bond =>
            "SELECT\n        hash AS txid,\n        data->>'validator' AS validator,\n        data->>'amount' AS amount,\n        data->>'source' AS source\n        FROM {network}.inner_transactions WHERE code = '\\x{code}';"@,
        ViewType::BridgePool =>
            "SELECT\n        hash AS txid,\n        data\n        FROM {network}.inner_transactions WHERE code = '\\x{code}';"@,
        ViewType::ChangeConsensusKey =>
            "SELECT\n        hash AS txid,\n        data->>'validator' AS validator,\n        data->>'consensus_key' AS consensus_key\n        FROM {network}.inner_transactions WHERE code = '\\x{code}';"@,
        ViewType::ChangeValidatorCommission =>
            "SELECT\n        hash AS txid,\n        data->>'validator' AS validator,\n        data->>'new_rate' AS new_rate\n        FROM {network}.inner_transactions WHERE code = '\\x{code}';"@,
        ViewType::ChangeValidatorMetadata =>
            "SELECT\n        hash AS txid,\n        data->>'validator' AS validator,\n        data->>'email' AS email,\n        data->>'description' AS description,\n        data->>'website' AS website,\n        data->>'discord_handle' AS discord_handle,\n        data->>'avatar' AS avatar,\n        data->>'commission_rate' AS commission_rate\n        FROM {network}.inner_transactions WHERE code = '\\x{code}';"@,
        ViewType::ClaimRewards =>
            "SELECT\n        hash AS txid,\n        data->>'validator' AS validator,\n        data->>'source' AS source\n        FROM {network}.inner_transactions WHERE code = '\\x{code}';"@,
        ViewType::DeactivateValidator =>
            "SELECT\n        hash AS txid,\n        data AS address\n        FROM {network}.inner_transactions WHERE code = '\\x{code}';"@,
        ViewType::Ibc =>
            "SELECT\n        hash AS txid,\n        data\n        FROM {network}.inner_transactions WHERE code = '\\x{code}';"@,
        ViewType::InitAccount =>
            "SELECT\n        hash AS txid,\n        data->>'public_keys' AS public_keys,\n        data->>'vp_code_hash' AS vp_code_hash,\n        data->>'threshold' AS threshold\n        FROM {network}.inner_transactions WHERE code = '\\x{code}';"@,
        ViewType::InitProposal =>
            "SELECT\n        hash AS txid,\n        data->>'id' AS id,\n        data->>'content' AS content,\n        data->>'author' AS author,\n        data->>'r#type' AS rtype,\n        data->>'voting_start_epoch' AS voting_start_epoch,\n        data->>'voting_end_epoch' AS voting_end_epoch,\n        data->>'grace_epoch' AS grace_epoch\n        FROM {network}.inner_transactions WHERE code = '\\x{code}';"@,
        ViewType::ReactivateValidator =>
            "SELECT\n        hash AS txid,\n        data AS address\n        FROM {network}.inner_transactions WHERE code = '\\x{code}';"@,
        ViewType::Redelegate =>
            "SELECT\n        hash AS txid,\n        data->>'redel_bond_start' AS redel_bond_start,\n        data->>'src_validator' AS src_validator,\n        data->>'bond_start' AS bond_start,\n        data->>'amount' AS amount\n        FROM {network}.inner_transactions WHERE code = '\\x{code}';"@,
        ViewType::ResignSteward =>
            "SELECT\n        hash AS txid,\n        data AS address\n        FROM {network}.inner_transactions WHERE code = '\\x{code}';"@,
        ViewType::RevealPk =>
            "SELECT\n        hash AS txid,\n        data AS public_key\n        FROM {network}.inner_transactions WHERE code = '\\x{code}';"@,
        ViewType::Transfer =>
            "SELECT\n        hash AS txid,\n        data->'sources'->0->>'owner' AS source,\n        data->'targets'->0->>'owner' AS target,\n        data->'sources'->0->>'token' AS token,\n        data->'sources'->0->>'amount' AS amount,\n        data->>'shielded_section_hash' AS shielded,\n        memo AS memo\n        FROM {network}.inner_transactions WHERE code = '\\x{code}' AND return_code = 0;"@,
        ViewType::Unbond =>
            "SELECT\n        hash AS txid,\n        data->>'validator' AS validator,\n        data->>'amount' AS amount,\n        data->>'source' AS source\n        FROM {network}.inner_transactions WHERE code = '\\x{code}';"@,
        ViewType::UnjailValidator =>
            "SELECT\n        hash AS txid,\n        data AS address\n        FROM {network}.inner_transactions WHERE code = '\\x{code}';"@,
        ViewType::UpdateAccount =>
            "SELECT\n        hash AS txid,\n        data->>'addr' AS addr,\n        data->>'vp_code_hash' AS vp_code_hash,\n        data->>'public_keys' AS public_keys,\n        data->>'threshold' AS threshold\n        FROM {network}.inner_transactions WHERE code = '\\x{code}';"@,
        ViewType::UpdateStewardCommission =>
            "SELECT\n        hash AS txid,\n        data->>'steward' AS steward,\n        data->>'commission' AS commission \n        FROM {network}.inner_transactions WHERE code = '\\x{code}';"@,
        ViewType::VoteProposal =>
            "SELECT\n        hash AS txid,\n        data->>'id' AS id,\n        data->>'vote' AS vote,\n        data->>'voter' AS voter,\n        data->>'delegations' AS delegations\n        FROM {network}.inner_transactions WHERE code = '\\x{code}' AND return_code = 0;"@,
        ViewType::Withdraw =>
            "SELECT\n        hash AS txid,\n        data->'validator' AS validator,\n        data->'source' AS source\n        FROM {network}.inner_transactions WHERE code = '\\x{code}';"@,
    }
}

/// The query that defines each view is the schema's text for it.
pub proof fn view_templates_are_the_schema_texts(view_type: ViewType)
    ensures
        query_template(view_type) == view_query_text(view_type),
{
}

/// Whether the query `q` keeps only transactions that succeeded: it ends
/// with the filter on a zero return code.
pub open spec fn keeps_only_successful(q: Seq<char>) -> bool {
    " AND return_code = 0;"@.is_suffix_of(q)
}

/// Only the views of transfers and of votes on proposals keep just the
/// transactions that succeeded; the other views keep every transaction of
/// their kind.
pub proof fn only_transfers_and_votes_filter_on_success(view_type: ViewType)
    ensures
        keeps_only_successful(query_template(view_type)) <==> (view_type == ViewType::Transfer
            || view_type == ViewType::VoteProposal),
{
    reveal_strlit(" AND return_code = 0;");
    let t = query_template(view_type);
    match view_type {
        ViewType::BecomeValidator => {
            reveal_strlit("SELECT\n        hash AS txid,\n        data->>'address' AS address,\n        data->>'consensus_key' AS consensus_key, \n        data->>'eth_cold_key' AS eth_cold_key, \n        data->>'eth_hot_key' AS eth_hot_key, \n        data->>'protocol_key' AS protocol_key, \n        data->>'commission_rate' AS commission_rate, \n        data->>'max_commission_rate_change' AS max_commission_rate_change, \n        data->>'email' AS email, \n        data->>'description' AS description, \n        data->>'website' AS website, \n        data->>'discord_handle' AS discord_handle, \n        data->>'avatar' AS avatar\n        FROM {network}.inner_transactions WHERE code = '\\x{code}';");
        },
        ViewType::Bond => {
            reveal_strlit("SELECT\n        hash AS txid,\n        data->>'validator' AS validator,\n        data->>'amount' AS amount,\n        data->>'source' AS source\n        FROM {network}.inner_transactions WHERE code = '\\x{code}';");
        },
        ViewType::BridgePool => {
            reveal_strlit("SELECT\n        hash AS txid,\n        data\n        FROM {network}.inner_transactions WHERE code = '\\x{code}';");
        },
        ViewType::ChangeConsensusKey => {
            reveal_strlit("SELECT\n        hash AS txid,\n        data->>'validator' AS validator,\n        data->>'consensus_key' AS consensus_key\n        FROM {network}.inner_transactions WHERE code = '\\x{code}';");
        },
        ViewType::ChangeValidatorCommission => {
            reveal_strlit("SELECT\n        hash AS txid,\n        data->>'validator' AS validator,\n        data->>'new_rate' AS new_rate\n        FROM {network}.inner_transactions WHERE code = '\\x{code}';");
        },
        ViewType::ChangeValidatorMetadata => {
            reveal_strlit("SELECT\n        hash AS txid,\n        data->>'validator' AS validator,\n        data->>'email' AS email,\n        data->>'description' AS description,\n        data->>'website' AS website,\n        data->>'discord_handle' AS discord_handle,\n        data->>'avatar' AS avatar,\n        data->>'commission_rate' AS commission_rate\n        FROM {network}.inner_transactions WHERE code = '\\x{code}';");
        },
        ViewType::ClaimRewards => {
            reveal_strlit("SELECT\n        hash AS txid,\n        data->>'validator' AS validator,\n        data->>'source' AS source\n        FROM {network}.inner_transactions WHERE code = '\\x{code}';");
        },
        ViewType::DeactivateValidator => {
            reveal_strlit("SELECT\n        hash AS txid,\n        data AS address\n        FROM {network}.inner_transactions WHERE code = '\\x{code}';");
        },
        ViewType::Ibc => {
            reveal_strlit("SELECT\n        hash AS txid,\n        data\n        FROM {network}.inner_transactions WHERE code = '\\x{code}';");
        },
        ViewType::InitAccount => {
            reveal_strlit("SELECT\n        hash AS txid,\n        data->>'public_keys' AS public_keys,\n        data->>'vp_code_hash' AS vp_code_hash,\n        data->>'threshold' AS threshold\n        FROM {network}.inner_transactions WHERE code = '\\x{code}';");
        },
        ViewType::InitProposal => {
            reveal_strlit("SELECT\n        hash AS txid,\n        data->>'id' AS id,\n        data->>'content' AS content,\n        data->>'author' AS author,\n        data->>'r#type' AS rtype,\n        data->>'voting_start_epoch' AS voting_start_epoch,\n        data->>'voting_end_epoch' AS voting_end_epoch,\n        data->>'grace_epoch' AS grace_epoch\n        FROM {network}.inner_transactions WHERE code = '\\x{code}';");
        },
        ViewType::ReactivateValidator => {
            reveal_strlit("SELECT\n        hash AS txid,\n        data AS address\n        FROM {network}.inner_transactions WHERE code = '\\x{code}';");
        },
        ViewType::Redelegate => {
            reveal_strlit("SELECT\n        hash AS txid,\n        data->>'redel_bond_start' AS redel_bond_start,\n        data->>'src_validator' AS src_validator,\n        data->>'bond_start' AS bond_start,\n        data->>'amount' AS amount\n        FROM {network}.inner_transactions WHERE code = '\\x{code}';");
        },
        ViewType::ResignSteward => {
            reveal_strlit("SELECT\n        hash AS txid,\n        data AS address\n        FROM {network}.inner_transactions WHERE code = '\\x{code}';");
        },
        ViewType::RevealPk => {
            reveal_strlit("SELECT\n        hash AS txid,\n        data AS public_key\n        FROM {network}.inner_transactions WHERE code = '\\x{code}';");
        },
        ViewType::Transfer => {
            reveal_strlit("SELECT\n        hash AS txid,\n        data->'sources'->0->>'owner' AS source,\n        data->'targets'->0->>'owner' AS target,\n        data->'sources'->0->>'token' AS token,\n        data->'sources'->0->>'amount' AS amount,\n        data->>'shielded_section_hash' AS shielded,\n        memo AS memo\n        FROM {network}.inner_transactions WHERE code = '\\x{code}' AND return_code = 0;");
        },
        ViewType::Unbond => {
            reveal_strlit("SELECT\n        hash AS txid,\n        data->>'validator' AS validator,\n        data->>'amount' AS amount,\n        data->>'source' AS source\n        FROM {network}.inner_transactions WHERE code = '\\x{code}';");
        },
        ViewType::UnjailValidator => {
            reveal_strlit("SELECT\n        hash AS txid,\n        data AS address\n        FROM {network}.inner_transactions WHERE code = '\\x{code}';");
        },
        ViewType::UpdateAccount => {
            reveal_strlit("SELECT\n        hash AS txid,\n        data->>'addr' AS addr,\n        data->>'vp_code_hash' AS vp_code_hash,\n        data->>'public_keys' AS public_keys,\n        data->>'threshold' AS threshold\n        FROM {network}.inner_transactions WHERE code = '\\x{code}';");
        },
        ViewType::UpdateStewardCommission => {
            reveal_strlit("SELECT\n        hash AS txid,\n        data->>'steward' AS steward,\n        data->>'commission' AS commission \n        FROM {network}.inner_transactions WHERE code = '\\x{code}';");
        },
        ViewType::VoteProposal => {
            reveal_strlit("SELECT\n        hash AS txid,\n        data->>'id' AS id,\n        data->>'vote' AS vote,\n        data->>'voter' AS voter,\n        data->>'delegations' AS delegations\n        FROM {network}.inner_transactions WHERE code = '\\x{code}' AND return_code = 0;");
        },
        ViewType::Withdraw => {
            reveal_strlit("SELECT\n        hash AS txid,\n        data->'validator' AS validator,\n        data->'source' AS source\n        FROM {network}.inner_transactions WHERE code = '\\x{code}';");
        },
    }
    let f = " AND return_code = 0;"@;
    if view_type == ViewType::Transfer || view_type == ViewType::VoteProposal {
        assert(f =~= t.subrange(t.len() - f.len(), t.len() as int));
    } else {
        assert(t[t.len() - 2] != f[f.len() - 2]);
    }
}

/// Whether `part` occurs in `q` at position `at`.
pub open spec fn occurs_at(q: Seq<char>, part: Seq<char>, at: int) -> bool {
    0 <= at && at + part.len() <= q.len() && q.subrange(at, at + part.len()) == part
}

/// The view of withdrawals reads its `validator` column from the key
/// `validator` of the data and its `source` column from the key `source`.
pub proof fn withdraw_view_columns()
    ensures
        exists|i: int| occurs_at(query_template(ViewType::Withdraw), "data->'validator' AS validator"@, i),
        exists|i: int| occurs_at(query_template(ViewType::Withdraw), "data->'source' AS source"@, i),
{
    reveal_strlit("SELECT\n        hash AS txid,\n        data->'validator' AS validator,\n        data->'source' AS source\n        FROM {network}.inner_transactions WHERE code = '\\x{code}';");
    reveal_strlit("data->'validator' AS validator");
    reveal_strlit("data->'source' AS source");
    let t = query_template(ViewType::Withdraw);
    assert(t.subrange(37, 67) =~= "data->'validator' AS validator"@);
    assert(occurs_at(t, "data->'validator' AS validator"@, 37));
    assert(t.subrange(77, 101) =~= "data->'source' AS source"@);
    assert(occurs_at(t, "data->'source' AS source"@, 77));
}

/// The name of the view of each transaction kind, as the explorer's database
/// schema has it (the view of commission changes is spelled with one `m`).
pub proof fn view_names_of_the_schema()
    ensures
        view_name(ViewType::BecomeValidator) == "tx_become_validator"@,
        view_name(ViewType::Bond) == "tx_bond"@,
        view_name(ViewType::BridgePool) == "tx_bridge_pool"@,
        view_name(ViewType::ChangeConsensusKey) == "tx_change_consensus_key"@,
        view_name(ViewType::ChangeValidatorCommission) == "tx_change_validator_comission"@,
        view_name(ViewType::ChangeValidatorMetadata) == "tx_change_validator_metadata"@,
        view_name(ViewType::ClaimRewards) == "tx_claim_rewards"@,
        view_name(ViewType::DeactivateValidator) == "tx_deactivate_validator"@,
        view_name(ViewType::Ibc) == "tx_ibc"@,
        view_name(ViewType::InitAccount) == "tx_init_account"@,
        view_name(ViewType::InitProposal) == "tx_init_proposal"@,
        view_name(ViewType::ReactivateValidator) == "tx_reactivate_validator"@,
        view_name(ViewType::Redelegate) == "tx_redelegate"@,
        view_name(ViewType::ResignSteward) == "tx_resign_steward"@,
        view_name(ViewType::RevealPk) == "tx_reveal_pk"@,
        view_name(ViewType::Transfer) == "tx_transfer"@,
        view_name(ViewType::Unbond) == "tx_unbond"@,
        view_name(ViewType::UnjailValidator) == "tx_unjail_validator"@,
        view_name(ViewType::UpdateAccount) == "tx_update_account"@,
        view_name(ViewType::UpdateStewardCommission) == "tx_update_steward_commission"@,
        view_name(ViewType::VoteProposal) == "tx_vote_proposal"@,
        view_name(ViewType::Withdraw) == "tx_withdraw"@,
{
}

} // verus!
