//! Token-factory denom derivation and chain-address well-formedness.
use vstd::prelude::*;
use vstd::string::*;

use crate::errors::ContractError;

verus! {

/// The fully-qualified denom a contract at `addr` owns for `sub`.
pub open spec fn denom_of(addr: Seq<char>, sub: Seq<char>) -> Seq<char> {
    "factory/"@ + addr + "/"@ + sub
}

/// The model of a well-formed chain address: the chain's account prefix
/// followed by at least one data character, within the length bech32 allows.
pub open spec fn valid_addr(s: Seq<char>) -> bool {
    &&& 5 <= s.len() <= 90
    &&& s.subrange(0, 4) == "sei1"@
}

/// Derives `factory/<addr>/<sub>`, the pure string function of the
/// issuing contract's address and the chosen sub-denomination.
pub fn derive_denom(addr: &str, sub: &str) -> (r: String)
    ensures
        r@ == denom_of(addr@, sub@),
{
    let mut s = String::from_str("factory/");
    s.append(addr);
    s.append("/");
    s.append(sub);
    proof {
        assert(s@ =~= denom_of(addr@, sub@));
    }
    s
}

/// Accepts exactly the well-formed chain addresses; anything else is
/// `InvalidAddress`.
pub fn validate_addr(addr: &str) -> (r: Result<(), ContractError>)
    ensures
        r is Ok <==> valid_addr(addr@),
        r is Err ==> r == Err::<(), ContractError>(ContractError::InvalidAddress),
{
    let n = addr.unicode_len();
    if n < 5 || n > 90 {
        return Err(ContractError::InvalidAddress);
    }
    if crate::strutil::match_lit_at(addr, 0, "sei1") {
        proof {
            reveal_strlit("sei1");
        }
        Ok(())
    } else {
        proof {
            reveal_strlit("sei1");
        }
        Err(ContractError::InvalidAddress)
    }
}

} // verus!
