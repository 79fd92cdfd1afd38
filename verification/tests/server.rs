use namada_indexer::server::endpoints::account::{account_code_hashes, account_thresholds};
use namada_indexer::server::endpoints::validator::{
    classify_validator_address, order_by_stake, validator_page, validator_state_name, ValidatorAddress,
    ValidatorStateKind,
};
use namada_indexer::server::proposals::{tally_result_name, tally_type_name, TallyKind, TallyOutcome};
use namada_indexer::server::tx::VoteProposalTx;

#[test]
fn tally_names() {
    assert_eq!(tally_result_name(&TallyOutcome::Passed), "passed");
    assert_eq!(tally_result_name(&TallyOutcome::Rejected), "rejected");
    assert_eq!(tally_type_name(&TallyKind::TwoThirds), "TwoThirds");
    assert_eq!(tally_type_name(&TallyKind::OneHalfOverOneThird), "OneHalfOverOneThird");
    assert_eq!(tally_type_name(&TallyKind::LessOneHalfOverOneThirdNay), "LessOneHalfOverOneThirdNay");
}

#[test]
fn validator_state_names() {
    assert_eq!(validator_state_name(&Some(ValidatorStateKind::Consensus)), "consensus");
    assert_eq!(validator_state_name(&Some(ValidatorStateKind::BelowCapacity)), "below_capacity");
    assert_eq!(validator_state_name(&Some(ValidatorStateKind::BelowThreshold)), "below_threshold");
    assert_eq!(validator_state_name(&Some(ValidatorStateKind::Inactive)), "inactive");
    assert_eq!(validator_state_name(&Some(ValidatorStateKind::Jailed)), "jailed");
    assert_eq!(validator_state_name(&None), "unknown");
}

#[test]
fn validator_addresses() {
    match classify_validator_address("tnam1qxyz") {
        ValidatorAddress::Namada(a) => assert_eq!(a, "tnam1qxyz"),
        other => panic!("{other:?}"),
    }
    match classify_validator_address("ab12cdé") {
        ValidatorAddress::Tendermint(t) => assert_eq!(t, "AB12CDé"),
        other => panic!("{other:?}"),
    }
    match classify_validator_address("TNAM1") {
        ValidatorAddress::Tendermint(t) => assert_eq!(t, "TNAM1"),
        other => panic!("{other:?}"),
    }
}

#[test]
fn validators_are_ranked_by_stake() {
    let stakes = vec![(0u128, 5u128), (0, 9), (1, 0), (0, 5), (0, 9)];
    assert_eq!(order_by_stake(&stakes), vec![2, 1, 4, 0, 3]);
    assert_eq!(order_by_stake(&vec![]), Vec::<usize>::new());
}

#[test]
fn validator_pages() {
    let order = vec![2usize, 1, 4, 0, 3];
    let p = validator_page(&order, 1, 2);
    assert_eq!((p.validators.clone(), p.page, p.per_page, p.total), (vec![2, 1], 1, 2, 5));
    let p = validator_page(&order, 3, 2);
    assert_eq!((p.validators.clone(), p.page), (vec![3], 3));
    let p = validator_page(&order, 0, 2);
    assert_eq!((p.validators.clone(), p.page), (vec![2, 1], 1));
    let p = validator_page(&order, 9, 2);
    assert_eq!((p.validators.clone(), p.page), (vec![], 9));
}

#[test]
fn thresholds_and_code_hashes() {
    assert_eq!(account_thresholds(&vec![1, 300, -1, 255]), vec![1, 44, 255, 255]);
    assert_eq!(account_code_hashes(&vec![vec![0xab, 0x01], vec![]]), vec!["ab01".to_string(), "".to_string()]);
}

#[test]
fn vote_from_row_values_has_no_delegations() {
    let v = VoteProposalTx::from_row_values(4, "yay".to_string(), "tnam1v".to_string(), vec![1]);
    assert_eq!(v.id, 4);
    assert_eq!(v.vote, "yay");
    assert_eq!(v.voter, "tnam1v");
    assert_eq!(v.tx_id, vec![1]);
    assert!(v.delegations.is_empty());
}
