//! Small readings of what the node returns.
use vstd::prelude::*;

verus! {

/// The type of a transaction: raw, wrapped, or a protocol transaction.
#[derive(Debug, Clone, Copy, PartialEq, Eq, Structural)]
pub enum TxKind {
    Raw,
    Wrapper,
    Protocol,
}

/// The name of a transaction type.
pub open spec fn tx_kind_name(tx_type: TxKind) -> Seq<char> {
    match tx_type {
        TxKind::Raw => "Raw"@,
        TxKind::Wrapper => "Wrapper"@,
        TxKind::Protocol => "Protocol"@,
    }
}

/// The name of the type of a transaction: `Raw`, `Wrapper` or `Protocol`.
pub fn tx_type_name(tx_type: &TxKind) -> (r: String)
    ensures
        r@ == tx_kind_name(*tx_type),
{
    match tx_type {
        TxKind::Raw => "Raw".to_owned(),
        TxKind::Wrapper => "Wrapper".to_owned(),
        TxKind::Protocol => "Protocol".to_owned(),
    }
}

/// The value that a storage query returned: empty data means that nothing
/// is stored under the key.
pub fn stored_value(data: Vec<u8>) -> (r: Option<Vec<u8>>)
    ensures
        data@.len() == 0 ==> r is None,
        data@.len() > 0 ==> r == Some(data),
{
    if data.len() == 0 {
        None
    } else {
        Some(data)
    }
}

/// The names of the transaction types.
pub proof fn tx_kind_names()
    ensures
        tx_kind_name(TxKind::Raw) =~= seq!['R', 'a', 'w'],
        tx_kind_name(TxKind::Wrapper) =~= seq!['W', 'r', 'a', 'p', 'p', 'e', 'r'],
        tx_kind_name(TxKind::Protocol) =~= seq!['P', 'r', 'o', 't', 'o', 'c', 'o', 'l'],
{
    reveal_strlit("Raw");
    reveal_strlit("Wrapper");
    reveal_strlit("Protocol");
}

} // verus!
