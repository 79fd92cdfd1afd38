use namada_indexer::indexer::block_result::{
    BatchResults, BlockResult, EventKind, InnerTxOutcome, InnerTxReport, RawEvent,
    TransactionExitStatus, TxAttributes, TxEventStatusCode,
};
use namada_indexer::indexer::id::Id;

fn pair(k: &str, v: &str) -> (String, String) {
    (k.to_string(), v.to_string())
}

fn hash(s: &str) -> Id {
    Id::Hash(s.to_string())
}

fn outcome(id: &str, accepted: Option<bool>) -> InnerTxOutcome {
    InnerTxOutcome {
        id: hash(id),
        report: accepted.map(|a| InnerTxReport { accepted: a, vp_errors: vec![] }),
    }
}

fn applied_attributes(h: &str, code: &str, batch: &str) -> Vec<(String, String)> {
    vec![
        pair("code", code),
        pair("gas_used", "120"),
        pair("hash", h),
        pair("height", "7"),
        pair("batch", batch),
        pair("info", "done"),
    ]
}

/// Reads the batch attribute written as `id=accepted;id=accepted`.
fn decode_batch(s: &String) -> BatchResults {
    let outcomes: Vec<InnerTxOutcome> = s
        .split(';')
        .filter(|p| !p.is_empty())
        .map(|p| {
            let (id, ok) = p.split_once('=').unwrap();
            outcome(id, Some(ok == "true"))
        })
        .collect();
    BatchResults::from_outcomes(&outcomes)
}

fn raw(kind: &str, attributes: Vec<(String, String)>) -> RawEvent {
    RawEvent { kind: kind.to_string(), attributes }
}

#[test]
fn event_kind_from_text() {
    assert_eq!(EventKind::from(&"tx/applied".to_string()), EventKind::Applied);
    assert_eq!(EventKind::from(&"tx/other".to_string()), EventKind::Unknown);
    assert_eq!(EventKind::from(&"".to_string()), EventKind::Unknown);
    assert_eq!(EventKind::from(&"TX/APPLIED".to_string()), EventKind::Unknown);
}

#[test]
fn status_code_from_text() {
    assert_eq!(TxEventStatusCode::from("0"), TxEventStatusCode::Success);
    assert_eq!(TxEventStatusCode::from("1"), TxEventStatusCode::Success);
    assert_eq!(TxEventStatusCode::from("2"), TxEventStatusCode::Fail);
    assert_eq!(TxEventStatusCode::from("01"), TxEventStatusCode::Fail);
    assert_eq!(TxEventStatusCode::from(""), TxEventStatusCode::Fail);
    assert_eq!(TxEventStatusCode::default(), TxEventStatusCode::Fail);
}

#[test]
fn exit_status_from_code_and_text() {
    assert_eq!(TransactionExitStatus::from(TxEventStatusCode::Success), TransactionExitStatus::Applied);
    assert_eq!(TransactionExitStatus::from(TxEventStatusCode::Fail), TransactionExitStatus::Rejected);
    assert_eq!(TransactionExitStatus::from(TxEventStatusCode::default()), TransactionExitStatus::Rejected);
    assert_eq!(TransactionExitStatus::Applied.to_string(), "Applied");
    assert_eq!(TransactionExitStatus::Rejected.to_string(), "Rejected");
}

#[test]
fn batch_results_keep_last_outcome() {
    let outcomes = vec![
        outcome("aa", Some(true)),
        outcome("bb", Some(false)),
        outcome("cc", None),
        outcome("aa", Some(false)),
        outcome("bb", Some(true)),
    ];
    let batch = BatchResults::from_outcomes(&outcomes);
    assert!(!batch.is_successful(&hash("aa")));
    assert!(batch.is_successful(&hash("bb")));
    assert!(!batch.is_successful(&hash("cc")));
    assert!(!batch.is_successful(&hash("dd")));
    assert!(!batch.is_successful(&Id::Account("bb".to_string())));
}

#[test]
fn empty_batch_has_no_success() {
    assert!(!BatchResults::new().is_successful(&hash("aa")));
    assert!(!BatchResults::default().is_successful(&hash("aa")));
}

#[test]
fn batch_results_with_errors() {
    let outcomes = vec![InnerTxOutcome {
        id: hash("aa"),
        report: Some(InnerTxReport {
            accepted: true,
            vp_errors: vec![(Id::Account("tnam1".to_string()), "denied".to_string())],
        }),
    }];
    let batch = BatchResults::from_outcomes(&outcomes);
    assert!(batch.is_successful(&hash("aa")));
}

#[test]
fn deserialize_unknown_event_gives_nothing() {
    let attrs = vec![pair("code", "0")];
    assert!(TxAttributes::deserialize(&EventKind::Unknown, &attrs, &decode_batch).is_none());
    assert!(TxAttributes::deserialize(&EventKind::Unknown, &vec![], &decode_batch).is_none());
}

#[test]
fn deserialize_applied_event() {
    let attrs = applied_attributes("ABCdef", "0", "x1=true;x2=false");
    let a = TxAttributes::deserialize(&EventKind::Applied, &attrs, &decode_batch).unwrap();
    assert_eq!(a.code, TxEventStatusCode::Success);
    assert_eq!(a.gas, 120);
    assert_eq!(a.hash, hash("abcdef"));
    assert_eq!(a.height, 7);
    assert_eq!(a.info, "done");
    assert!(a.batch.is_successful(&hash("x1")));
    assert!(!a.batch.is_successful(&hash("x2")));
}

#[test]
fn deserialize_keeps_last_value_of_a_key() {
    let mut attrs = applied_attributes("aa", "0", "");
    attrs.push(pair("code", "5"));
    attrs.push(pair("gas_used", "+99"));
    let a = TxAttributes::deserialize(&EventKind::Applied, &attrs, &decode_batch).unwrap();
    assert_eq!(a.code, TxEventStatusCode::Fail);
    assert_eq!(a.gas, 99);
}

fn block() -> BlockResult {
    let end = vec![
        raw("tx/other", applied_attributes("w0", "0", "")),
        raw("tx/applied", applied_attributes("w1", "1", "i1=true;i2=false")),
        raw("tx/applied", applied_attributes("w2", "3", "")),
        raw("tx/applied", applied_attributes("w1", "4", "i1=false;i2=true")),
    ];
    BlockResult::from_events(12, None, Some(end), &decode_batch)
}

#[test]
fn block_result_reads_events() {
    let b = block();
    assert_eq!(b.height, 12);
    assert!(b.begin_events.is_empty());
    assert_eq!(b.end_events.len(), 4);
    assert_eq!(b.end_events[0].kind, EventKind::Unknown);
    assert!(b.end_events[0].attributes.is_none());
    assert_eq!(b.end_events[1].kind, EventKind::Applied);
    assert_eq!(b.end_events[1].attributes.as_ref().unwrap().hash, hash("w1"));
}

#[test]
fn wrapper_status_is_decided_by_first_event() {
    let b = block();
    assert_eq!(b.is_wrapper_tx_applied(&hash("w1")), TransactionExitStatus::Applied);
    assert_eq!(b.is_wrapper_tx_applied(&hash("w2")), TransactionExitStatus::Rejected);
    assert_eq!(b.is_wrapper_tx_applied(&hash("w0")), TransactionExitStatus::Rejected);
    assert_eq!(b.is_wrapper_tx_applied(&hash("w9")), TransactionExitStatus::Rejected);
}

#[test]
fn inner_status_is_decided_by_first_event() {
    let b = block();
    assert_eq!(b.is_inner_tx_accepted(&hash("w1"), &hash("i1")), TransactionExitStatus::Applied);
    assert_eq!(b.is_inner_tx_accepted(&hash("w1"), &hash("i2")), TransactionExitStatus::Rejected);
    assert_eq!(b.is_inner_tx_accepted(&hash("w1"), &hash("i3")), TransactionExitStatus::Rejected);
    assert_eq!(b.is_inner_tx_accepted(&hash("w2"), &hash("i1")), TransactionExitStatus::Rejected);
    assert_eq!(b.is_inner_tx_accepted(&hash("w9"), &hash("i1")), TransactionExitStatus::Rejected);
}

#[test]
fn begin_events_are_read_too() {
    let begin = vec![raw("tx/applied", applied_attributes("b1", "0", ""))];
    let b = BlockResult::from_events(3, Some(begin), None, &decode_batch);
    assert_eq!(b.begin_events.len(), 1);
    assert!(b.end_events.is_empty());
    assert_eq!(b.is_wrapper_tx_applied(&hash("b1")), TransactionExitStatus::Rejected);
}

#[test]
fn readable_events() {
    assert!(raw("tx/applied", applied_attributes("a", "0", "")).is_readable());
    assert!(raw("tx/other", vec![]).is_readable());
    assert!(!raw("tx/applied", vec![]).is_readable());
    let mut attrs = applied_attributes("a", "0", "");
    attrs.push(pair("height", "seven"));
    assert!(!raw("tx/applied", attrs).is_readable());
    let mut attrs = applied_attributes("a", "0", "");
    attrs.retain(|(k, _)| k != "info");
    assert!(!raw("tx/applied", attrs).is_readable());
}

#[test]
fn default_block_result_is_empty() {
    let b = BlockResult::default();
    assert_eq!(b.height, 0);
    assert!(b.begin_events.is_empty() && b.end_events.is_empty());
    assert_eq!(b.is_wrapper_tx_applied(&hash("a")), TransactionExitStatus::Rejected);
}
