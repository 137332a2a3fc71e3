//! Which signers an instruction lists beside its authority.
use crate::pubkey::Pubkey;
use vstd::prelude::*;

verus! {

/// True when `signers` is not empty and holds nothing but `authority`: as
/// a set, it is exactly `{authority}`.
pub open spec fn only_authority(authority: Pubkey, signers: Seq<Pubkey>) -> bool {
    signers.len() > 0 && forall|i: int| 0 <= i < signers.len() ==> signers[i] == authority
}

/// The co-signers to list in an instruction that `authority` authorizes,
/// when the caller signs with `signers`: none where the authority signs
/// alone, else all of `signers`, in the caller's order.
pub open spec fn multisig_signers(authority: Pubkey, signers: Seq<Pubkey>) -> Seq<Pubkey> {
    if only_authority(authority, signers) {
        Seq::empty()
    } else {
        signers
    }
}

/// Tells whether the caller signs with the authority alone.
pub fn signs_alone(authority: &Pubkey, signing_pubkeys: &Vec<Pubkey>) -> (r: bool)
    ensures
        r == only_authority(*authority, signing_pubkeys@),
{
    if signing_pubkeys.len() == 0 {
        return false;
    }
    let mut i: usize = 0;
    while i < signing_pubkeys.len()
        invariant
            i <= signing_pubkeys.len(),
            forall|j: int| 0 <= j < i ==> signing_pubkeys@[j] == *authority,
        decreases signing_pubkeys.len() - i,
    {
        if signing_pubkeys[i] != *authority {
            return false;
        }
        i += 1;
    }
    true
}

/// The co-signers to list in an instruction: see `multisig_signers`.
pub fn get_multisig_signers(authority: &Pubkey, signing_pubkeys: &Vec<Pubkey>) -> (r: Vec<Pubkey>)
    ensures
        r@ == multisig_signers(*authority, signing_pubkeys@),
{
    let mut out: Vec<Pubkey> = Vec::new();
    if signs_alone(authority, signing_pubkeys) {
        return out;
    }
    let mut i: usize = 0;
    while i < signing_pubkeys.len()
        invariant
            i <= signing_pubkeys.len(),
            out@ == signing_pubkeys@.subrange(0, i as int),
        decreases signing_pubkeys.len() - i,
    {
        out.push(signing_pubkeys[i]);
        i += 1;
    }
    assert(signing_pubkeys@.subrange(0, signing_pubkeys@.len() as int) == signing_pubkeys@);
    out
}

/// For every authority and every signer list that is not empty: no
/// co-signer is listed exactly when the signers are, as a set, the authority
/// alone; in every other case the signers are listed unchanged and in order.
pub proof fn lemma_signer_set_rule(authority: Pubkey, signers: Seq<Pubkey>)
    requires
        signers.len() > 0,
    ensures
        multisig_signers(authority, signers) == Seq::<Pubkey>::empty() <==> signers.to_set()
            == set![authority],
        signers.to_set() != set![authority] ==> multisig_signers(authority, signers) == signers,
{
    if only_authority(authority, signers) {
        assert forall|k: Pubkey| signers.to_set().contains(k) <==> set![authority].contains(
            k,
        ) by {
            if k == authority {
                assert(signers[0] == authority);
                assert(signers.contains(k));
            }
        }
        assert(signers.to_set() =~= set![authority]);
    } else {
        let i = choose|i: int| 0 <= i < signers.len() && signers[i] != authority;
        assert(signers.contains(signers[i]));
        assert(signers.to_set().contains(signers[i]));
        assert(!set![authority].contains(signers[i]));
        assert(multisig_signers(authority, signers).len() > 0);
    }
}

/// Tells whether `keys` holds `key`.
pub fn contains_key(keys: &Vec<Pubkey>, key: &Pubkey) -> (r: bool)
    ensures
        r == keys@.contains(*key),
{
    let mut i: usize = 0;
    while i < keys.len()
        invariant
            i <= keys.len(),
            forall|j: int| 0 <= j < i ==> keys@[j] != *key,
        decreases keys.len() - i,
    {
        if keys[i] == *key {
            return true;
        }
        i += 1;
    }
    false
}

/// True when every key of `required` is among `present`.
pub open spec fn all_present(required: Seq<Pubkey>, present: Seq<Pubkey>) -> bool {
    forall|i: int| 0 <= i < required.len() ==> present.contains(#[trigger] required[i])
}

/// Tells whether every key of `required` is among `present`.
pub fn contains_all(present: &Vec<Pubkey>, required: &Vec<Pubkey>) -> (r: bool)
    ensures
        r == all_present(required@, present@),
{
    let mut i: usize = 0;
    while i < required.len()
        invariant
            i <= required.len(),
            forall|j: int| 0 <= j < i ==> present@.contains(#[trigger] required@[j]),
        decreases required.len() - i,
    {
        if !contains_key(present, &required[i]) {
            return false;
        }
        i += 1;
    }
    true
}

} // verus!
