//! The credential ledger: mints at most one soulbound credential per
//! identity, allocates monotonic token numbers that are never reused, and
//! answers pure lookups by token identifier.

use vstd::prelude::*;
use vstd::string::StringExecFns;
use crate::encoding::{dec_of, lemma_dec_of_injective, push_decimal};

verus! {

/// A soulbound credential: permanently bound to its owner, immutable after
/// minting, never deleted.
#[derive(Debug)]
pub struct NftMetadata {
    pub token_id: String,
    pub name: String,
    pub description: String,
    pub issued_at: u64,
    pub verification_hash: String,
    pub owner: String,
}

/// The mathematical content of a credential.
pub ghost struct CredentialView {
    pub token_id: Seq<char>,
    pub name: Seq<char>,
    pub description: Seq<char>,
    pub issued_at: u64,
    pub verification_hash: Seq<char>,
    pub owner: Seq<char>,
}

impl NftMetadata {
    /// A copy equal to `self`.
    pub fn duplicate(&self) -> (r: NftMetadata)
        ensures
            r == *self,
    {
        NftMetadata {
            token_id: self.token_id.clone(),
            name: self.name.clone(),
            description: self.description.clone(),
            issued_at: self.issued_at,
            verification_hash: self.verification_hash.clone(),
            owner: self.owner.clone(),
        }
    }
}

impl View for NftMetadata {
    type V = CredentialView;

    open spec fn view(&self) -> CredentialView {
        CredentialView {
            token_id: self.token_id@,
            name: self.name@,
            description: self.description@,
            issued_at: self.issued_at,
            verification_hash: self.verification_hash@,
            owner: self.owner@,
        }
    }
}

/// The token identifier carrying sequence number `seq_no`.
pub open spec fn token_id_of(seq_no: nat) -> Seq<char> {
    "T"@ + dec_of(seq_no)
}

/// Distinct sequence numbers give distinct token identifiers.
pub proof fn lemma_token_id_injective(a: nat, b: nat)
    requires
        token_id_of(a) == token_id_of(b),
    ensures
        a == b,
{
    reveal_strlit("T");
    assert(dec_of(a) =~= token_id_of(a).subrange(1, token_id_of(a).len() as int));
    assert(dec_of(b) =~= token_id_of(b).subrange(1, token_id_of(b).len() as int));
    lemma_dec_of_injective(a, b);
}

/// Whether some credential in `s` is owned by `owner`.
pub open spec fn has_owner(s: Seq<CredentialView>, owner: Seq<char>) -> bool {
    exists|i: int| 0 <= i < s.len() && (#[trigger] s[i].owner) == owner
}

/// Whether some credential in `s` carries the token identifier `token_id`.
pub open spec fn has_token(s: Seq<CredentialView>, token_id: Seq<char>) -> bool {
    exists|i: int| 0 <= i < s.len() && (#[trigger] s[i].token_id) == token_id
}

/// No two credentials in `s` share an owner.
pub open spec fn distinct_owners(s: Seq<CredentialView>) -> bool {
    forall|i: int, j: int|
        0 <= i < j < s.len() ==> (#[trigger] s[i].owner) != (#[trigger] s[j].owner)
}

/// Credential `i` carries the token identifier with sequence number `i`:
/// tokens are allocated in strictly increasing order, starting at zero.
pub open spec fn tokens_canonical(s: Seq<CredentialView>) -> bool {
    forall|i: int| 0 <= i < s.len() ==> (#[trigger] s[i].token_id) == token_id_of(i as nat)
}

/// An identity owns at most one credential: two credentials of one owner in
/// a ledger with distinct owners are the same credential.
pub proof fn lemma_owner_unique(s: Seq<CredentialView>, i: int, j: int)
    requires
        distinct_owners(s),
        0 <= i < s.len(),
        0 <= j < s.len(),
        s[i].owner == s[j].owner,
    ensures
        i == j,
{
}

/// Minting is idempotent for a credentialed identity: any two credentials
/// owned by one identity carry the same token identifier, so repeated
/// mints for that identity return the same token.
pub proof fn lemma_mint_idempotent(s: Seq<CredentialView>, i: int, j: int)
    requires
        distinct_owners(s),
        0 <= i < s.len(),
        0 <= j < s.len(),
        s[i].owner == s[j].owner,
    ensures
        s[i].token_id == s[j].token_id,
{
    lemma_owner_unique(s, i, j);
}

/// Token identifiers are never shared: in a canonical ledger, credentials
/// at distinct positions carry distinct token identifiers.
pub proof fn lemma_tokens_distinct(s: Seq<CredentialView>, i: int, j: int)
    requires
        tokens_canonical(s),
        0 <= i < s.len(),
        0 <= j < s.len(),
        i != j,
    ensures
        s[i].token_id != s[j].token_id,
{
    if s[i].token_id == s[j].token_id {
        lemma_token_id_injective(i as nat, j as nat);
    }
}

/// The next token identifier to be allocated was never used: token numbers
/// are never reused across the ledger's lifetime.
pub proof fn lemma_fresh_token_unused(s: Seq<CredentialView>)
    requires
        tokens_canonical(s),
    ensures
        !has_token(s, token_id_of(s.len() as nat)),
{
    assert forall|i: int| 0 <= i < s.len() implies (#[trigger] s[i].token_id) != token_id_of(
        s.len() as nat,
    ) by {
        if s[i].token_id == token_id_of(s.len() as nat) {
            lemma_token_id_injective(i as nat, s.len() as nat);
        }
    }
}

/// The store of minted credentials, in minting order, together with the
/// next token sequence number.
pub struct CredentialLedger {
    items: Vec<NftMetadata>,
    next_token: u64,
}

impl View for CredentialLedger {
    type V = Seq<CredentialView>;

    closed spec fn view(&self) -> Seq<CredentialView> {
        self.items@.map_values(|c: NftMetadata| c@)
    }
}

impl CredentialLedger {
    /// Owners are pairwise distinct, token identifiers are canonical, and
    /// the next token number is the number of credentials minted so far.
    pub open spec fn wf(&self) -> bool {
        &&& distinct_owners(self@)
        &&& tokens_canonical(self@)
        &&& self.token_count() == self@.len()
    }

    /// How many tokens have been allocated so far.
    pub closed spec fn token_count(&self) -> int {
        self.next_token as int
    }

    /// An empty ledger.
    pub fn new() -> (r: CredentialLedger)
        ensures
            r@ =~= Seq::<CredentialView>::empty(),
            r.wf(),
    {
        CredentialLedger { items: Vec::new(), next_token: 0 }
    }

    /// How many credentials have been minted.
    pub fn minted_count(&self) -> (n: u64)
        requires
            self.wf(),
        ensures
            n == self@.len(),
    {
        self.next_token
    }

    /// The position of the credential owned by `identity`, if any.
    fn find_owner(&self, identity: &String) -> (r: Option<usize>)
        ensures
            r is None ==> !has_owner(self@, identity@),
            r matches Some(i) ==> i < self@.len() && self@[i as int].owner == identity@,
    {
        let n = self.items.len();
        let mut k: usize = 0;
        while k < n
            invariant
                n == self.items.len(),
                k <= n,
                forall|j: int| 0 <= j < k ==> (#[trigger] self@[j].owner) != identity@,
            decreases n - k,
        {
            if self.items[k].owner == *identity {
                return Some(k);
            }
            k += 1;
        }
        None
    }

    /// Returns `identity`'s credential, minting it first if the identity
    /// holds none: an atomic check-then-act with no suspension inside it.
    /// The boolean says whether the credential already existed. Minting
    /// allocates the next token number; an existing credential is returned
    /// unchanged, so repeated calls for one identity return the same token.
    pub fn mint_or_get(&mut self, identity: &String, verification_hash: &String, now: u64) -> (r:
        (NftMetadata, bool))
        requires
            old(self).wf(),
            old(self)@.len() < u64::MAX,
        ensures
            final(self).wf(),
            has_owner(old(self)@, identity@) ==> r.1 && final(self)@ == old(self)@ && (
            exists|i: int|
                0 <= i < old(self)@.len() && (#[trigger] old(self)@[i].owner) == identity@
                    && r.0@ == old(self)@[i]),
            !has_owner(old(self)@, identity@) ==> !r.1 && r.0@ == (CredentialView {
                token_id: token_id_of(old(self)@.len() as nat),
                name: "PoPAI Verified Human"@,
                description:
                    "This token certifies that the holder has successfully passed a PoPAI liveness and uniqueness challenge."@,
                issued_at: now,
                verification_hash: verification_hash@,
                owner: identity@,
            }) && final(self)@ == old(self)@.push(r.0@),
            has_owner(final(self)@, identity@),
    {
        match self.find_owner(identity) {
            Some(i) => {
                let c = self.items[i].duplicate();
                (c, true)
            },
            None => {
                let mut token_id = String::from_str("T");
                push_decimal(&mut token_id, self.next_token);
                proof {
                    assert(token_id@ =~= token_id_of(old(self)@.len() as nat));
                }
                let c = NftMetadata {
                    token_id,
                    name: String::from_str("PoPAI Verified Human"),
                    description: String::from_str(
                        "This token certifies that the holder has successfully passed a PoPAI liveness and uniqueness challenge.",
                    ),
                    issued_at: now,
                    verification_hash: verification_hash.clone(),
                    owner: identity.clone(),
                };
                let ghost prev = self@;
                self.items.push(c.duplicate());
                self.next_token = self.next_token + 1;
                proof {
                    assert(self@ =~= prev.push(c@));
                    assert(self@[self@.len() - 1].owner == identity@);
                    assert forall|p: int, q: int| 0 <= p < q < self@.len() implies (
                    #[trigger] self@[p].owner) != (#[trigger] self@[q].owner) by {
                        if q < self@.len() - 1 {
                            assert(self@[p] == prev[p]);
                            assert(self@[q] == prev[q]);
                        } else if p < self@.len() - 1 {
                            assert(self@[p] == prev[p]);
                            assert(!has_owner(prev, identity@));
                        }
                    }
                    assert forall|i: int| 0 <= i < self@.len() implies (
                    #[trigger] self@[i].token_id) == token_id_of(i as nat) by {
                        if i < self@.len() - 1 {
                            assert(self@[i] == prev[i]);
                        }
                    }
                }
                (c, false)
            },
        }
    }

    /// A pure lookup by token identifier; NotFound (`None`) if no
    /// credential carries it.
    pub fn get_nft_metadata(&self, token_id: &String) -> (r: Option<NftMetadata>)
        ensures
            r is None ==> !has_token(self@, token_id@),
            r matches Some(c) ==> exists|i: int|
                0 <= i < self@.len() && (#[trigger] self@[i].token_id) == token_id@ && c@
                    == self@[i],
    {
        let n = self.items.len();
        let mut k: usize = 0;
        while k < n
            invariant
                n == self.items.len(),
                k <= n,
                forall|j: int| 0 <= j < k ==> (#[trigger] self@[j].token_id) != token_id@,
            decreases n - k,
        {
            if self.items[k].token_id == *token_id {
                proof {
                    assert(self@[k as int].token_id == token_id@);
                }
                return Some(self.items[k].duplicate());
            }
            k += 1;
        }
        None
    }
}

} // verus!
