//! Contract version records and the migration gate.
//!
//! A contract stores its name and semantic-version string; `migrate` only
//! proceeds from the same contract name and a strictly older version, the
//! comparison being the byte-wise lexicographic order of the version
//! strings.

use vstd::prelude::*;
use crate::store::{bytes_eq, clone_bytes};

verus! {

/// Byte-wise lexicographic strict order.
pub open spec fn lex_lt(a: Seq<u8>, b: Seq<u8>) -> bool
    decreases a.len(),
{
    if b.len() == 0 {
        false
    } else if a.len() == 0 {
        true
    } else if a.first() < b.first() {
        true
    } else if a.first() > b.first() {
        false
    } else {
        lex_lt(a.drop_first(), b.drop_first())
    }
}

/// Compares two byte strings lexicographically.
pub fn bytes_lt(a: &Vec<u8>, b: &Vec<u8>) -> (r: bool)
    ensures
        r == lex_lt(a@, b@),
{
    let alen = a.len();
    let blen = b.len();
    let mut i: usize = 0;
    proof {
        assert(a@.skip(0) =~= a@);
        assert(b@.skip(0) =~= b@);
    }
    while i < alen && i < blen
        invariant
            i <= alen,
            i <= blen,
            alen == a@.len(),
            blen == b@.len(),
            lex_lt(a@, b@) == lex_lt(a@.skip(i as int), b@.skip(i as int)),
        decreases alen - i,
    {
        let x = a[i];
        let y = b[i];
        proof {
            assert(a@.skip(i as int).first() == a@[i as int]);
            assert(b@.skip(i as int).first() == b@[i as int]);
        }
        if x < y {
            return true;
        }
        if x > y {
            return false;
        }
        proof {
            assert(a@.skip(i as int).drop_first() =~= a@.skip(i + 1));
            assert(b@.skip(i as int).drop_first() =~= b@.skip(i + 1));
        }
        i += 1;
    }
    proof {
        if i == alen {
            assert(a@.skip(i as int).len() == 0);
        } else {
            assert(b@.skip(i as int).len() == 0);
        }
    }
    i == alen && i < blen
}

/// The stored name and version of a contract.
pub struct ContractVersion {
    pub name: Vec<u8>,
    pub version: Vec<u8>,
}

/// Why a migration is refused.
#[derive(Clone, Copy, PartialEq, Eq, Structural, Debug)]
pub enum MigrateError {
    /// The stored contract name differs: only the same contract type may be
    /// upgraded.
    WrongContract,
    /// The stored version is not older than the proposed one.
    NotNewer,
}

/// Gate for a migration: the stored record must carry the same contract
/// name, and a version strictly older than the proposed one.  On success
/// the stored record is replaced.
pub fn check_migrate(stored: &mut ContractVersion, name: &Vec<u8>, version: &Vec<u8>) -> (r: Result<
    (),
    MigrateError,
>)
    ensures
        match r {
            Ok(_) => {
                &&& old(stored).name@ == name@
                &&& lex_lt(old(stored).version@, version@)
                &&& final(stored).name@ == name@
                &&& final(stored).version@ == version@
            },
            Err(e) => {
                &&& final(stored).name@ == old(stored).name@
                &&& final(stored).version@ == old(stored).version@
                &&& (e == MigrateError::WrongContract) == (old(stored).name@ != name@)
                &&& e == MigrateError::NotNewer ==> old(stored).name@ == name@ && !lex_lt(
                    old(stored).version@,
                    version@,
                )
            },
        },
{
    if !bytes_eq(&stored.name, name) {
        return Err(MigrateError::WrongContract);
    }
    if !bytes_lt(&stored.version, version) {
        return Err(MigrateError::NotNewer);
    }
    stored.name = clone_bytes(name);
    stored.version = clone_bytes(version);
    Ok(())
}

} // verus!
