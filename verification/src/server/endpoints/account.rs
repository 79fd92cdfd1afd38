//! What the server makes of an account's update history.
use vstd::prelude::*;

use crate::text::{hex_encode, lower_hex};

verus! {

/// The signature thresholds of an account, as the database stores them
/// (32-bit integers), cut to their low byte as the server reports them.
pub fn account_thresholds(stored: &Vec<i32>) -> (r: Vec<u8>)
    ensures
        r@.len() == stored@.len(),
        forall|i: int| 0 <= i < stored@.len() ==> r@[i] == #[trigger] stored@[i] as u8,
{
    let mut r: Vec<u8> = Vec::new();
    let n = stored.len();
    let mut k: usize = 0;
    while k < n
        invariant
            n == stored.len(),
            k <= n,
            r@.len() == k,
            forall|i: int| 0 <= i < k ==> r@[i] == #[trigger] stored@[i] as u8,
        decreases n - k,
    {
        let v = stored[k];
        r.push(v as u8);
        k = k + 1;
    }
    r
}

/// The validity predicate code hashes of an account, each written in
/// lowercase hexadecimal.
pub fn account_code_hashes(stored: &Vec<Vec<u8>>) -> (r: Vec<String>)
    ensures
        r@.len() == stored@.len(),
        forall|i: int| 0 <= i < stored@.len() ==> (#[trigger] r@[i])@ == lower_hex(stored@[i]@),
{
    let mut r: Vec<String> = Vec::new();
    let n = stored.len();
    let mut k: usize = 0;
    while k < n
        invariant
            n == stored.len(),
            k <= n,
            r@.len() == k,
            forall|i: int| 0 <= i < k ==> (#[trigger] r@[i])@ == lower_hex(stored@[i]@),
        decreases n - k,
    {
        r.push(hex_encode(stored[k].as_slice()));
        k = k + 1;
    }
    r
}

} // verus!
