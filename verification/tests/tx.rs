use namada_indexer::indexer::tx::{decode_tx, TxDataKind, TxDecoding};
use namada_indexer::utils::{stored_value, tx_type_name, TxKind};

fn kind(name: &str) -> Option<TxDataKind> {
    match decode_tx(&name.to_string(), &vec![1, 2]) {
        TxDecoding::Decode(k) => Some(k),
        _ => None,
    }
}

#[test]
fn decode_tx_picks_the_data_type() {
    assert_eq!(kind("tx_transfer"), Some(TxDataKind::Transfer));
    assert_eq!(kind("tx_bond"), Some(TxDataKind::Bond));
    assert_eq!(kind("tx_unbond"), Some(TxDataKind::Unbond));
    assert_eq!(kind("tx_bridge_pool"), Some(TxDataKind::PendingTransfer));
    assert_eq!(kind("tx_vote_proposal"), Some(TxDataKind::VoteProposalData));
    assert_eq!(kind("tx_reveal_pk"), Some(TxDataKind::PublicKey));
    assert_eq!(kind("tx_resign_steward"), Some(TxDataKind::Address));
    assert_eq!(kind("tx_update_steward_commission"), Some(TxDataKind::UpdateStewardCommission));
    assert_eq!(kind("tx_init_account"), Some(TxDataKind::InitAccount));
    assert_eq!(kind("tx_update_account"), Some(TxDataKind::UpdateAccount));
    assert_eq!(kind("tx_become_validator"), Some(TxDataKind::BecomeValidator));
    assert_eq!(kind("tx_change_consensus_key"), Some(TxDataKind::ConsensusKeyChange));
    assert_eq!(kind("tx_change_validator_commission"), Some(TxDataKind::CommissionChange));
    assert_eq!(kind("tx_change_validator_metadata"), Some(TxDataKind::MetaDataChange));
    assert_eq!(kind("tx_claim_rewards"), Some(TxDataKind::Withdraw));
    assert_eq!(kind("tx_deactivate_validator"), Some(TxDataKind::Address));
    assert_eq!(kind("tx_init_proposal"), Some(TxDataKind::InitProposalData));
    assert_eq!(kind("tx_reactivate_validator"), Some(TxDataKind::Address));
    assert_eq!(kind("tx_unjail_validator"), Some(TxDataKind::Address));
    assert_eq!(kind("tx_redelegate"), Some(TxDataKind::Redelegation));
    assert_eq!(kind("tx_withdraw"), Some(TxDataKind::Withdraw));
}

#[test]
fn decode_tx_keeps_ibc_data_as_hex() {
    match decode_tx(&"tx_ibc".to_string(), &vec![0xde, 0xad, 0x00, 0x0f]) {
        TxDecoding::Hex(h) => assert_eq!(h, "dead000f"),
        other => panic!("{other:?}"),
    }
    match decode_tx(&"tx_ibc".to_string(), &vec![]) {
        TxDecoding::Hex(h) => assert_eq!(h, ""),
        other => panic!("{other:?}"),
    }
}

#[test]
fn decode_tx_gives_null_for_unknown_types() {
    assert!(matches!(decode_tx(&"tx_unknown".to_string(), &vec![]), TxDecoding::Null));
    assert!(matches!(decode_tx(&"".to_string(), &vec![]), TxDecoding::Null));
    assert!(matches!(decode_tx(&"TX_BOND".to_string(), &vec![]), TxDecoding::Null));
}

#[test]
fn tx_type_names() {
    assert_eq!(tx_type_name(&TxKind::Raw), "Raw");
    assert_eq!(tx_type_name(&TxKind::Wrapper), "Wrapper");
    assert_eq!(tx_type_name(&TxKind::Protocol), "Protocol");
}

#[test]
fn stored_value_treats_empty_as_absent() {
    assert_eq!(stored_value(vec![]), None);
    assert_eq!(stored_value(vec![0]), Some(vec![0]));
}
