//! The content-claim registry: each content identifier maps to at most one
//! owning account at a time.
use vstd::prelude::*;

use crate::support::{DispatchError, DispatchResult};
use vstd::hash_map::StringHashMap;

verus! {

/// The registry a successful claim creation leaves behind, or the reason it
/// fails: content already claimed by anyone, the caller included.
pub open spec fn create_claim_outcome(
    claims: Map<Seq<char>, Seq<char>>,
    caller: Seq<char>,
    claim: Seq<char>,
) -> Result<Map<Seq<char>, Seq<char>>, DispatchError> {
    if claims.contains_key(claim) {
        Err(DispatchError::AlreadyClaimed)
    } else {
        Ok(claims.insert(claim, caller))
    }
}

/// The registry a successful revocation leaves behind, or the reason it
/// fails: no claim recorded, or recorded for an account other than the
/// caller.
pub open spec fn revoke_claim_outcome(
    claims: Map<Seq<char>, Seq<char>>,
    caller: Seq<char>,
    claim: Seq<char>,
) -> Result<Map<Seq<char>, Seq<char>>, DispatchError> {
    if !claims.contains_key(claim) {
        Err(DispatchError::ClaimNotFound)
    } else if claims[claim] != caller {
        Err(DispatchError::NotOwner)
    } else {
        Ok(claims.remove(claim))
    }
}

/// The claim module. It alone may record or remove a claim.
pub struct Pallet {
    claims: StringHashMap<String>,
}

impl View for Pallet {
    type V = Map<Seq<char>, Seq<char>>;

    closed spec fn view(&self) -> Map<Seq<char>, Seq<char>> {
        self.claims@.map_values(|owner: String| owner@)
    }
}

impl Pallet {
    /// An empty registry: nothing has been claimed.
    pub fn new() -> (result: Self)
        ensures
            result@ == Map::<Seq<char>, Seq<char>>::empty(),
    {
        let pallet = Self { claims: StringHashMap::new() };
        proof {
            assert(pallet@ =~= Map::<Seq<char>, Seq<char>>::empty());
        }
        pallet
    }

    /// The owner recorded for `claim`, if any. Pure lookup.
    pub fn get_claim(&self, claim: &String) -> (result: Option<&String>)
        ensures
            (match result {
                Some(owner) => self@.contains_key(claim@) && owner@ == self@[claim@],
                None => !self@.contains_key(claim@),
            }),
    {
        let result = self.claims.get(claim.as_str());
        proof {
            assert(self.claims@.contains_key(claim@) == self@.contains_key(claim@));
        }
        result
    }

    /// Records `caller` as the owner of `claim`; fails with `AlreadyClaimed`,
    /// and records nothing, if any owner is already recorded.
    pub fn create_claim(&mut self, caller: String, claim: String) -> (result: DispatchResult)
        ensures
            (match create_claim_outcome(old(self)@, caller@, claim@) {
                Ok(claims) => result == Ok::<(), DispatchError>(()) && final(self)@ == claims,
                Err(e) => result == Err::<(), DispatchError>(e) && final(self)@ == old(self)@,
            }),
    {
        if self.claims.contains_key(claim.as_str()) {
            return Err(DispatchError::AlreadyClaimed);
        }
        self.claims.insert(claim, caller);
        proof {
            assert(self@ =~= create_claim_outcome(old(self)@, caller@, claim@)->Ok_0);
        }
        Ok(())
    }

    /// Removes the claim on `claim`; fails with `ClaimNotFound` if none is
    /// recorded, with `NotOwner` if it is recorded for an account other than
    /// `caller`. Either the claim is removed or nothing changes.
    pub fn revoke_claim(&mut self, caller: String, claim: String) -> (result: DispatchResult)
        ensures
            (match revoke_claim_outcome(old(self)@, caller@, claim@) {
                Ok(claims) => result == Ok::<(), DispatchError>(()) && final(self)@ == claims,
                Err(e) => result == Err::<(), DispatchError>(e) && final(self)@ == old(self)@,
            }),
    {
        let owner = match self.claims.get(claim.as_str()) {
            Some(owner) => owner,
            None => {
                return Err(DispatchError::ClaimNotFound);
            },
        };
        if !caller.eq(owner) {
            return Err(DispatchError::NotOwner);
        }
        self.claims.remove(claim.as_str());
        proof {
            assert(self@ =~= revoke_claim_outcome(old(self)@, caller@, claim@)->Ok_0);
        }
        Ok(())
    }
}

/// The operations the claim module routes.
pub enum Call {
    CreateClaim { claim: String },
    RevokeClaim { claim: String },
}

impl crate::support::Dispatch for Pallet {
    type Caller = String;

    type Call = Call;

    fn dispatch(&mut self, caller: String, call: Call) -> (result: DispatchResult)
        ensures
            (match call {
                Call::CreateClaim { claim } => match create_claim_outcome(
                    old(self)@,
                    caller@,
                    claim@,
                ) {
                    Ok(claims) => result == Ok::<(), DispatchError>(()) && final(self)@ == claims,
                    Err(e) => result == Err::<(), DispatchError>(e) && final(self)@ == old(self)@,
                },
                Call::RevokeClaim { claim } => match revoke_claim_outcome(
                    old(self)@,
                    caller@,
                    claim@,
                ) {
                    Ok(claims) => result == Ok::<(), DispatchError>(()) && final(self)@ == claims,
                    Err(e) => result == Err::<(), DispatchError>(e) && final(self)@ == old(self)@,
                },
            }),
    {
        match call {
            Call::CreateClaim { claim } => self.create_claim(caller, claim),
            Call::RevokeClaim { claim } => self.revoke_claim(caller, claim),
        }
    }
}

/// Creating a claim on content already claimed fails with `AlreadyClaimed`
/// and retains the original owner, whoever the second caller is.
pub proof fn lemma_create_claim_retains_owner(
    claims: Map<Seq<char>, Seq<char>>,
    first_owner: Seq<char>,
    second_caller: Seq<char>,
    claim: Seq<char>,
)
    requires
        claims.contains_key(claim),
        claims[claim] == first_owner,
    ensures
        create_claim_outcome(claims, second_caller, claim) == Err::<
            Map<Seq<char>, Seq<char>>,
            DispatchError,
        >(DispatchError::AlreadyClaimed),
{
}

/// Revoking a claim as anyone but its recorded owner fails with `NotOwner`;
/// revoking unclaimed content fails with `ClaimNotFound`. By the revoke
/// contract the registry is then unchanged.
pub proof fn lemma_revoke_claim_guards(
    claims: Map<Seq<char>, Seq<char>>,
    caller: Seq<char>,
    claim: Seq<char>,
)
    ensures
        !claims.contains_key(claim) ==> revoke_claim_outcome(claims, caller, claim) == Err::<
            Map<Seq<char>, Seq<char>>,
            DispatchError,
        >(DispatchError::ClaimNotFound),
        claims.contains_key(claim) && claims[claim] != caller ==> revoke_claim_outcome(
            claims,
            caller,
            claim,
        ) == Err::<Map<Seq<char>, Seq<char>>, DispatchError>(DispatchError::NotOwner),
{
}

} // verus!
