use std::collections::HashMap;
use vstd::prelude::*;

verus! {

broadcast use vstd::std_specs::hash::group_hash_axioms;

/// What a signer authorizes: the release of a booking's funds, under a one-time nonce.
#[derive(Clone, Copy, Debug, PartialEq, Eq, Structural)]
pub struct ReleasePayload {
    pub booking_id: u64,
    pub mentee: u64,
    pub mentor: u64,
    pub amount: u128,
    pub token: u64,
    pub nonce: u64,
}

/// A notice that a signer key was added.
#[derive(Clone, Copy, Debug)]
pub struct SignerAdded {
    pub pubkey: [u8; 32],
}

/// A notice that a signer key was removed.
#[derive(Clone, Copy, Debug)]
pub struct SignerRemoved {
    pub pubkey: [u8; 32],
}

/// A notice that a release was authorized by `signer`.
#[derive(Clone, Copy, Debug)]
pub struct ReleaseAuthorized {
    pub booking_id: u64,
    pub mentor: u64,
    pub signer: [u8; 32],
}

#[derive(Clone, Copy, Debug, PartialEq, Eq, Structural)]
pub enum ReleaseAuthError {
    Unauthorized,
    SignatureInvalid,
    NonceAlreadyUsed,
    SignerNotFound,
    SignerAlreadyExists,
    EncodingError,
}

/// A registry of signer keys that authorize fund releases, each nonce once.
pub struct ReleaseAuth {
    admin: u64,
    signers: Vec<[u8; 32]>,
    used_nonces: HashMap<u64, bool>,
    signer_count: u32,
}

/// The abstract state of the release authorizer.
pub struct ReleaseAuthView {
    pub admin: u64,
    pub signers: Set<Seq<u8>>,
    pub used_nonces: Set<u64>,
    pub signer_count: u32,
}

impl View for ReleaseAuth {
    type V = ReleaseAuthView;

    closed spec fn view(&self) -> ReleaseAuthView {
        ReleaseAuthView {
            admin: self.admin,
            signers: Set::new(
                |k: Seq<u8>| exists|i: int| 0 <= i < self.signers@.len() && #[trigger] self.signers@[i]@ == k,
            ),
            used_nonces: Set::new(|n: u64| self.used_nonces@.contains_key(n) && self.used_nonces@[n]),
            signer_count: self.signer_count,
        }
    }
}

/// The key that signed a signature: its first 32 bytes.
pub open spec fn signer_of(signature: Seq<u8>) -> Seq<u8> {
    signature.subrange(0, 32)
}

fn keys_eq(a: &[u8; 32], b: &[u8; 32]) -> (r: bool)
    ensures
        r == (a@ == b@),
{
    let mut i: usize = 0;
    while i < 32
        invariant
            a@.len() == 32,
            b@.len() == 32,
            0 <= i <= 32,
            forall|j: int| 0 <= j < i ==> a@[j] == b@[j],
        decreases 32 - i,
    {
        if a[i] != b[i] {
            return false;
        }
        i = i + 1;
    }
    assert(a@ =~= b@);
    true
}

fn signer_key(signature: &[u8; 65]) -> (r: [u8; 32])
    ensures
        r@ == signer_of(signature@),
{
    let mut k: [u8; 32] = [0u8; 32];
    let mut i: usize = 0;
    while i < 32
        invariant
            signature@.len() == 65,
            k@.len() == 32,
            0 <= i <= 32,
            forall|j: int| 0 <= j < i ==> k@[j] == signature@[j],
        decreases 32 - i,
    {
        k.set(i, signature[i]);
        i = i + 1;
    }
    assert(k@ =~= signature@.subrange(0, 32));
    k
}

impl ReleaseAuth {
    /// No key occurs twice among the signers.
    pub closed spec fn wf(&self) -> bool {
        forall|i: int, j: int|
            0 <= i < j < self.signers@.len() ==> self.signers@[i]@ != self.signers@[j]@
    }

    /// An authorizer administered by `admin`, with no signer and no used nonce.
    pub fn new(admin: u64) -> (r: ReleaseAuth)
        ensures
            r.wf(),
            r@.admin == admin,
            r@.signers == Set::<Seq<u8>>::empty(),
            r@.used_nonces == Set::<u64>::empty(),
            r@.signer_count == 0,
    {
        let r = ReleaseAuth { admin, signers: Vec::new(), used_nonces: HashMap::new(), signer_count: 0 };
        assert(r@.signers =~= Set::<Seq<u8>>::empty());
        assert(r@.used_nonces =~= Set::<u64>::empty());
        r
    }

    fn find(&self, pubkey: &[u8; 32]) -> (r: Option<usize>)
        ensures
            r is None <==> !self@.signers.contains(pubkey@),
            r matches Some(i) ==> i < self.signers@.len() && self.signers@[i as int]@ == pubkey@,
    {
        let mut i: usize = 0;
        while i < self.signers.len()
            invariant
                0 <= i <= self.signers@.len(),
                forall|j: int| 0 <= j < i ==> self.signers@[j]@ != pubkey@,
            decreases self.signers@.len() - i,
        {
            if keys_eq(&self.signers[i], pubkey) {
                assert(self@.signers.contains(pubkey@)) by {
                    assert(self.signers@[i as int]@ == pubkey@);
                }
                return Some(i);
            }
            i = i + 1;
        }
        None
    }

    /// Adds a signer key; only the administrator may, and only a new key.
    pub fn add_signer(&mut self, caller: u64, pubkey: [u8; 32]) -> (r: Result<
        SignerAdded,
        ReleaseAuthError,
    >)
        requires
            old(self).wf(),
        ensures
            final(self).wf(),
            caller != old(self)@.admin ==> r matches Err(ReleaseAuthError::Unauthorized),
            caller == old(self)@.admin && old(self)@.signers.contains(pubkey@) ==> r matches Err(
                ReleaseAuthError::SignerAlreadyExists,
            ),
            caller == old(self)@.admin && !old(self)@.signers.contains(pubkey@) ==> r is Ok
                && final(self)@ == (ReleaseAuthView {
                signers: old(self)@.signers.insert(pubkey@),
                signer_count: if old(self)@.signer_count < u32::MAX {
                    (old(self)@.signer_count + 1) as u32
                } else {
                    u32::MAX
                },
                ..old(self)@
            }),
            r is Err ==> final(self)@ == old(self)@,
    {
        if caller != self.admin {
            return Err(ReleaseAuthError::Unauthorized);
        }
        if self.find(&pubkey).is_some() {
            return Err(ReleaseAuthError::SignerAlreadyExists);
        }
        let ghost before = self.signers@;
        self.signers.push(pubkey);
        self.signer_count = self.signer_count.saturating_add(1);
        assert forall|k: Seq<u8>| #[trigger]
            self@.signers.contains(k) == old(self)@.signers.insert(pubkey@).contains(k) by {
            if k == pubkey@ {
                assert(self.signers@[before.len() as int]@ == k);
            }
            if old(self)@.signers.contains(k) {
                let j = choose|j: int| 0 <= j < before.len() && #[trigger] before[j]@ == k;
                assert(self.signers@[j]@ == k);
            }
            if self@.signers.contains(k) && k != pubkey@ {
                let j = choose|j: int|
                    0 <= j < self.signers@.len() && #[trigger] self.signers@[j]@ == k;
                assert(before[j]@ == k);
            }
        }
        assert(self@.signers =~= old(self)@.signers.insert(pubkey@));
        assert(self@.used_nonces =~= old(self)@.used_nonces);
        Ok(SignerAdded { pubkey })
    }

    /// Removes a signer key; only the administrator may, and only a present key.
    pub fn remove_signer(&mut self, caller: u64, pubkey: [u8; 32]) -> (r: Result<
        SignerRemoved,
        ReleaseAuthError,
    >)
        requires
            old(self).wf(),
        ensures
            final(self).wf(),
            caller != old(self)@.admin ==> r matches Err(ReleaseAuthError::Unauthorized),
            caller == old(self)@.admin && !old(self)@.signers.contains(pubkey@) ==> r matches Err(
                ReleaseAuthError::SignerNotFound,
            ),
            caller == old(self)@.admin && old(self)@.signers.contains(pubkey@) ==> r is Ok
                && final(self)@ == (ReleaseAuthView {
                signers: old(self)@.signers.remove(pubkey@),
                signer_count: if old(self)@.signer_count > 0 {
                    (old(self)@.signer_count - 1) as u32
                } else {
                    0
                },
                ..old(self)@
            }),
            r is Err ==> final(self)@ == old(self)@,
    {
        if caller != self.admin {
            return Err(ReleaseAuthError::Unauthorized);
        }
        let i = match self.find(&pubkey) {
            Some(i) => i,
            None => return Err(ReleaseAuthError::SignerNotFound),
        };
        let ghost before = self.signers@;
        self.signers.remove(i);
        self.signer_count = if self.signer_count > 0 {
            self.signer_count - 1
        } else {
            0
        };
        assert forall|a: int, b: int|
            0 <= a < b < self.signers@.len() implies self.signers@[a]@ != self.signers@[b]@ by {
            let a0 = if a < i { a } else { a + 1 };
            let b0 = if b < i { b } else { b + 1 };
            assert(self.signers@[a] == before[a0]);
            assert(self.signers@[b] == before[b0]);
        }
        assert forall|k: Seq<u8>| #[trigger]
            self@.signers.contains(k) == old(self)@.signers.remove(pubkey@).contains(k) by {
            if self@.signers.contains(k) {
                let j = choose|j: int|
                    0 <= j < self.signers@.len() && #[trigger] self.signers@[j]@ == k;
                let j0 = if j < i { j } else { j + 1 };
                assert(before[j0]@ == k);
                assert(j0 != i);
            }
            if old(self)@.signers.contains(k) && k != pubkey@ {
                let j = choose|j: int| 0 <= j < before.len() && #[trigger] before[j]@ == k;
                assert(j != i);
                if j < i {
                    assert(self.signers@[j]@ == k);
                } else {
                    assert(self.signers@[j - 1]@ == k);
                }
            }
        }
        assert(self@.signers =~= old(self)@.signers.remove(pubkey@));
        assert(self@.used_nonces =~= old(self)@.used_nonces);
        Ok(SignerRemoved { pubkey })
    }

    /// Authorizes a release signed by a registered key under an unused nonce, and uses the
    /// nonce up. The signing key is read from the signature's first 32 bytes.
    pub fn authorize(
        &mut self,
        booking_id: u64,
        mentee: u64,
        mentor: u64,
        amount: u128,
        token: u64,
        nonce: u64,
        signature: [u8; 65],
    ) -> (r: Result<ReleaseAuthorized, ReleaseAuthError>)
        requires
            old(self).wf(),
        ensures
            final(self).wf(),
            old(self)@.used_nonces.contains(nonce) ==> r matches Err(
                ReleaseAuthError::NonceAlreadyUsed,
            ),
            !old(self)@.used_nonces.contains(nonce) && !old(self)@.signers.contains(
                signer_of(signature@),
            ) ==> r matches Err(ReleaseAuthError::SignerNotFound),
            !old(self)@.used_nonces.contains(nonce) && old(self)@.signers.contains(
                signer_of(signature@),
            ) ==> (r matches Ok(e) && e.booking_id == booking_id && e.mentor == mentor
                && e.signer@ == signer_of(signature@)) && final(self)@ == (ReleaseAuthView {
                used_nonces: old(self)@.used_nonces.insert(nonce),
                ..old(self)@
            }),
            r is Err ==> final(self)@ == old(self)@,
    {
        let used = match self.used_nonces.get(&nonce) {
            Some(u) => *u,
            None => false,
        };
        if used {
            return Err(ReleaseAuthError::NonceAlreadyUsed);
        }
        let signer = signer_key(&signature);
        if self.find(&signer).is_none() {
            return Err(ReleaseAuthError::SignerNotFound);
        }
        let ghost before = self@;
        self.used_nonces.insert(nonce, true);
        assert(self@.used_nonces =~= before.used_nonces.insert(nonce));
        assert(self@.signers =~= before.signers);
        Ok(ReleaseAuthorized { booking_id, mentor, signer })
    }

    /// Whether `nonce` was used by an authorization.
    pub fn is_nonce_used(&self, nonce: u64) -> (r: bool)
        ensures
            r == self@.used_nonces.contains(nonce),
    {
        match self.used_nonces.get(&nonce) {
            Some(u) => *u,
            None => false,
        }
    }

    /// Whether `pubkey` is a registered signer.
    pub fn is_signer_authorized(&self, pubkey: [u8; 32]) -> (r: bool)
        ensures
            r == self@.signers.contains(pubkey@),
    {
        self.find(&pubkey).is_some()
    }

    pub fn get_admin(&self) -> (r: u64)
        ensures
            r == self@.admin,
    {
        self.admin
    }

    pub fn get_signer_count(&self) -> (r: u32)
        ensures
            r == self@.signer_count,
    {
        self.signer_count
    }

    /// Hands the administrator role to `new_admin`; only the administrator may.
    pub fn transfer_admin(&mut self, caller: u64, new_admin: u64) -> (r: Result<(), ReleaseAuthError>)
        requires
            old(self).wf(),
        ensures
            final(self).wf(),
            caller != old(self)@.admin ==> (r matches Err(ReleaseAuthError::Unauthorized)
                && final(self)@ == old(self)@),
            caller == old(self)@.admin ==> r is Ok && final(self)@ == (ReleaseAuthView {
                admin: new_admin,
                ..old(self)@
            }),
    {
        if caller != self.admin {
            return Err(ReleaseAuthError::Unauthorized);
        }
        self.admin = new_admin;
        assert(self@.signers =~= old(self)@.signers);
        assert(self@.used_nonces =~= old(self)@.used_nonces);
        Ok(())
    }
}

} // verus!
