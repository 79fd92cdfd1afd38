use namada_indexer::views::{get_create_view_query, get_drop_view_query, ViewType};

const BOND_TEMPLATE: &str = "SELECT
        hash AS txid,
        data->>'validator' AS validator,
        data->>'amount' AS amount,
        data->>'source' AS source
        FROM {network}.inner_transactions WHERE code = '\\x{code}';";

fn checksums() -> Vec<(String, String)> {
    vec![
        ("tx_bond".to_string(), "ab12".to_string()),
        ("tx_transfer".to_string(), "cd34".to_string()),
        ("tx_change_validator_commission".to_string(), "ef56".to_string()),
    ]
}

#[test]
fn drop_view_query_names_schema_and_view() {
    assert_eq!(get_drop_view_query("public", &ViewType::Bond), "DROP VIEW IF EXISTS public.tx_bond;");
    assert_eq!(
        get_drop_view_query("shielded", &ViewType::ChangeValidatorCommission),
        "DROP VIEW IF EXISTS shielded.tx_change_validator_comission;"
    );
    assert_eq!(get_drop_view_query("", &ViewType::Ibc), "DROP VIEW IF EXISTS .tx_ibc;");
}

#[test]
fn create_view_query_fills_the_template() {
    let q = get_create_view_query("public", &ViewType::Bond, &checksums());
    let body = BOND_TEMPLATE.replace("{network}", "public").replace("{code}", "ab12");
    assert_eq!(q, format!("CREATE OR REPLACE VIEW public.tx_bond AS {}", body));
    assert!(q.contains("FROM public.inner_transactions WHERE code = '\\xab12';"));
    assert!(!q.contains("{network}"));
    assert!(!q.contains("{code}"));
}

#[test]
fn create_view_query_for_transfer_keeps_return_code_filter() {
    let q = get_create_view_query("main", &ViewType::Transfer, &checksums());
    assert!(q.starts_with("CREATE OR REPLACE VIEW main.tx_transfer AS SELECT"));
    assert!(q.ends_with("FROM main.inner_transactions WHERE code = '\\xcd34' AND return_code = 0;"));
}

#[test]
fn create_view_query_is_empty_without_checksum() {
    assert_eq!(get_create_view_query("public", &ViewType::Unbond, &checksums()), "");
    assert_eq!(get_create_view_query("public", &ViewType::Bond, &vec![]), "");
    // the view of commission changes is named with a single `m`
    assert_eq!(get_create_view_query("public", &ViewType::ChangeValidatorCommission, &checksums()), "");
}

#[test]
fn create_view_query_uses_last_checksum_of_a_name() {
    let mut c = checksums();
    c.push(("tx_bond".to_string(), "ffff".to_string()));
    let q = get_create_view_query("n", &ViewType::Bond, &c);
    assert!(q.contains("code = '\\xffff';"));
}

#[test]
fn network_holding_code_placeholder_is_replaced_again() {
    let q = get_create_view_query("x{code}", &ViewType::Bond, &checksums());
    let body = BOND_TEMPLATE.replace("{network}", "x{code}").replace("{code}", "ab12");
    assert_eq!(q, format!("CREATE OR REPLACE VIEW x{{code}}.tx_bond AS {}", body));
}

#[test]
fn every_view_has_its_own_name() {
    let all = [
        ViewType::BecomeValidator, ViewType::Bond, ViewType::BridgePool, ViewType::ChangeConsensusKey,
        ViewType::ChangeValidatorCommission, ViewType::ChangeValidatorMetadata, ViewType::ClaimRewards,
        ViewType::DeactivateValidator, ViewType::Ibc, ViewType::InitAccount, ViewType::InitProposal,
        ViewType::ReactivateValidator, ViewType::Redelegate, ViewType::ResignSteward, ViewType::RevealPk,
        ViewType::Transfer, ViewType::Unbond, ViewType::UnjailValidator, ViewType::UpdateAccount,
        ViewType::UpdateStewardCommission, ViewType::VoteProposal, ViewType::Withdraw,
    ];
    let names: std::collections::HashSet<String> = all.iter().map(|v| get_drop_view_query("p", v)).collect();
    assert_eq!(names.len(), all.len());
}
