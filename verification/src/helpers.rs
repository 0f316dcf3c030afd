//! The proof verifier for cryptographic attestations and small utilities.
//!
//! Real attestation cryptography lives behind this boundary: the engine only
//! consumes an accept/reject answer, so the verifier can be swapped without
//! touching the settlement logic.  The implementation here is the
//! deterministic development double the host ships with.

use vstd::prelude::*;
use vstd::string::StrSliceExecFns;
use vstd::string::StringExecFns;

use crate::error::ContractError;
use crate::text::contains_seq;
use crate::text::contains_str;

verus! {

/// The character of one decimal digit `d`.
pub open spec fn digit_char(d: int) -> char {
    ((48 + d) as u8) as char
}

/// The decimal representation of `n`, most significant digit first.
pub open spec fn dec_rep(n: nat) -> Seq<char>
    decreases n,
{
    if n < 10 {
        seq![digit_char(n as int)]
    } else {
        dec_rep(n / 10).push(digit_char((n % 10) as int))
    }
}

fn digit_str(d: u64) -> (s: &'static str)
    requires
        d < 10,
    ensures
        s@ == seq![digit_char(d as int)],
{
    if d == 0 {
        proof {
            reveal_strlit("0");
            assert("0"@ =~= seq![digit_char(0int)]);
        }
        "0"
    } else if d == 1 {
        proof {
            reveal_strlit("1");
            assert("1"@ =~= seq![digit_char(1int)]);
        }
        "1"
    } else if d == 2 {
        proof {
            reveal_strlit("2");
            assert("2"@ =~= seq![digit_char(2int)]);
        }
        "2"
    } else if d == 3 {
        proof {
            reveal_strlit("3");
            assert("3"@ =~= seq![digit_char(3int)]);
        }
        "3"
    } else if d == 4 {
        proof {
            reveal_strlit("4");
            assert("4"@ =~= seq![digit_char(4int)]);
        }
        "4"
    } else if d == 5 {
        proof {
            reveal_strlit("5");
            assert("5"@ =~= seq![digit_char(5int)]);
        }
        "5"
    } else if d == 6 {
        proof {
            reveal_strlit("6");
            assert("6"@ =~= seq![digit_char(6int)]);
        }
        "6"
    } else if d == 7 {
        proof {
            reveal_strlit("7");
            assert("7"@ =~= seq![digit_char(7int)]);
        }
        "7"
    } else if d == 8 {
        proof {
            reveal_strlit("8");
            assert("8"@ =~= seq![digit_char(8int)]);
        }
        "8"
    } else {
        proof {
            reveal_strlit("9");
            assert("9"@ =~= seq![digit_char(9int)]);
        }
        "9"
    }
}

fn u64_to_dec(n: u64) -> (s: String)
    ensures
        s@ == dec_rep(n as nat),
    decreases n,
{
    if n < 10 {
        String::from_str(digit_str(n))
    } else {
        let mut s = u64_to_dec(n / 10);
        s.append(digit_str(n % 10));
        proof {
            assert(s@ =~= dec_rep((n / 10) as nat).push(digit_char((n % 10) as int)));
        }
        s
    }
}

/// Content identifier for a piece of evidence kept off-store: the identifier
/// depends only on the length of the data.
pub fn hash_data(data: &str) -> (r: String)
    ensures
        r@ == "hash_"@ + dec_rep(data@.len()),
{
    let mut s = String::from_str("hash_");
    let n = data.unicode_len();
    let d = u64_to_dec(n as u64);
    s.append(d.as_str());
    s
}

/// The attestation verifier: structural checks, then a deterministic
/// accept/reject decision on the attestation blob alone.  Malformed input
/// (an empty blob or endpoint) is an error distinct from a trust failure,
/// which is the `Ok(false)` answer.
pub fn verify_zktls(proof_blob: &str, endpoint: &str) -> (r: Result<bool, ContractError>)
    ensures
        r is Err <==> (proof_blob@.len() == 0 || endpoint@.len() == 0),
        r is Err ==> r == Result::<bool, ContractError>::Err(ContractError::InvalidProof {}),
        r is Ok ==> r->Ok_0 == (contains_seq(proof_blob@, "valid"@) || proof_blob@.len() > 10),
{
    if proof_blob.unicode_len() == 0 || endpoint.unicode_len() == 0 {
        return Err(ContractError::InvalidProof {});
    }
    let valid = contains_str(proof_blob, "valid") || proof_blob.unicode_len() > 10;
    Ok(valid)
}

} // verus!
