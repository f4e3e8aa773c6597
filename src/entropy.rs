use vstd::prelude::*;
use crate::wallet::AccountId;

verus! {

/// Relies on rand's `OsRng::try_fill_bytes` (getrandom): it fills eight bytes
/// from the operating system's entropy source or returns that source's error.
/// Nothing is promised of the bytes, so nothing is stated of the word.
#[verifier::external_body]
fn os_random_word() -> (r: Option<u64>) {
    let mut b = [0u8; 8];
    match rand::RngCore::try_fill_bytes(&mut rand::rngs::OsRng, &mut b) {
        Ok(()) => Some(u64::from_le_bytes(b)),
        Err(_) => None,
    }
}

/// The identifier made of four drawn words, or `None` when any draw failed.
pub fn assemble_id(w0: Option<u64>, w1: Option<u64>, w2: Option<u64>, w3: Option<u64>) -> (r: Option<AccountId>)
    ensures
        r == (if w0 is Some && w1 is Some && w2 is Some && w3 is Some {
            Some(AccountId { w0: w0->0, w1: w1->0, w2: w2->0, w3: w3->0 })
        } else {
            None::<AccountId>
        }),
{
    match (w0, w1, w2, w3) {
        (Some(w0), Some(w1), Some(w2), Some(w3)) => Some(AccountId { w0, w1, w2, w3 }),
        _ => None,
    }
}

/// Draws a 256-bit candidate identifier from the operating system's entropy
/// source; `None` when that source fails. The words drawn are not known
/// beforehand, so only their assembly is specified (by `assemble_id`).
pub(crate) fn draw_account_id() -> (r: Option<AccountId>) {
    let w0 = os_random_word();
    let w1 = os_random_word();
    let w2 = os_random_word();
    let w3 = os_random_word();
    assemble_id(w0, w1, w2, w3)
}

} // verus!
