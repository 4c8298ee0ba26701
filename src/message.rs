//! The signing identity and the message it publishes: a content-addressed
//! record whose identifier is computed from its fields and whose signature
//! covers that identifier.

use vstd::prelude::*;

use crate::bindings::{
    compute_event_id, derive_public_key, event_id_of, opt_bytes, public_key_of, schnorr_sign,
    schnorr_valid, schnorr_verify, tags_view,
};

verus! {

/// The fields a message identifier is computed over.
pub struct Draft {
    pub author: Vec<u8>,
    pub created_at: u64,
    pub kind: u64,
    pub tags: Vec<Vec<String>>,
    pub content: String,
}

/// The identifier of a draft's fields, if they admit one.
pub open spec fn draft_id(d: Draft) -> Option<Seq<u8>> {
    event_id_of(d.author@, d.created_at, d.kind, tags_view(d.tags@), d.content@)
}

/// Two drafts carry the same fields.
pub open spec fn same_fields(a: Draft, b: Draft) -> bool {
    &&& a.author@ == b.author@
    &&& a.created_at == b.created_at
    &&& a.kind == b.kind
    &&& tags_view(a.tags@) == tags_view(b.tags@)
    &&& a.content@ == b.content@
}

impl Draft {
    /// Computes the identifier over {author, created_at, kind, tags, content};
    /// `None` where the author is not a public key or a tag does not parse.
    pub fn compute_id(&self) -> (r: Option<Vec<u8>>)
        ensures
            opt_bytes(r) == draft_id(*self),
            r is Some ==> r->0@.len() == 32,
    {
        compute_event_id(&self.author, self.created_at, self.kind, &self.tags, self.content.as_str())
    }
}

/// The message identifier is a function of the fields alone: computing it
/// twice from the same author, timestamp, kind, tags and content gives the
/// same value.
pub proof fn lemma_id_deterministic(a: Draft, b: Draft)
    requires
        same_fields(a, b),
    ensures
        draft_id(a) == draft_id(b),
{
}

/// A signed message.
pub struct Message {
    pub id: Vec<u8>,
    pub author: Vec<u8>,
    pub created_at: u64,
    pub kind: u64,
    pub tags: Vec<Vec<String>>,
    pub content: String,
    pub sig: Vec<u8>,
}

/// A message is well formed when its identifier is the one computed from its
/// fields and its signature verifies over that identifier under its author.
pub open spec fn well_formed(m: Message) -> bool {
    &&& event_id_of(m.author@, m.created_at, m.kind, tags_view(m.tags@), m.content@) == Some(m.id@)
    &&& schnorr_valid(m.author@, m.id@, m.sig@)
}

/// Byte-wise equality.
fn bytes_equal(a: &Vec<u8>, b: &Vec<u8>) -> (r: bool)
    ensures
        r == (a@ == b@),
{
    if a.len() != b.len() {
        return false;
    }
    let mut i: usize = 0;
    while i < a.len()
        invariant
            a@.len() == b@.len(),
            i <= a@.len(),
            forall|k: int| 0 <= k < i ==> a@[k] == b@[k],
        decreases a@.len() - i,
    {
        if a[i] != b[i] {
            return false;
        }
        i = i + 1;
    }
    assert(a@ =~= b@);
    true
}

impl Message {
    /// Checks the identifier against the fields, then the signature against
    /// the identifier and the author.
    pub fn verify(&self) -> (r: bool)
        ensures
            r == well_formed(*self),
    {
        let id = compute_event_id(
            &self.author,
            self.created_at,
            self.kind,
            &self.tags,
            self.content.as_str(),
        );
        match id {
            Some(id) => bytes_equal(&id, &self.id) && schnorr_verify(&self.author, &self.id, &self.sig),
            None => false,
        }
    }
}

/// The signing identity: a secret key and the public key derived from it.
pub struct Identity {
    secret: Vec<u8>,
    public_key: Vec<u8>,
}

impl Identity {
    pub closed spec fn secret(&self) -> Seq<u8> {
        self.secret@
    }

    pub closed spec fn public_key_view(&self) -> Seq<u8> {
        self.public_key@
    }

    /// The public key is the one derived from the secret.
    pub open spec fn wf(&self) -> bool {
        public_key_of(self.secret()) == Some(self.public_key_view())
    }

    /// The identity of a secret key; `None` where the bytes are not one.
    pub fn from_secret(secret: Vec<u8>) -> (r: Option<Identity>)
        ensures
            r is Some <==> public_key_of(secret@) is Some,
            r is Some ==> r->0.wf() && r->0.secret() == secret@,
    {
        match derive_public_key(&secret) {
            Some(public_key) => Some(Identity { secret, public_key }),
            None => None,
        }
    }

    pub fn public_key(&self) -> (r: Vec<u8>)
        ensures
            r@ == self.public_key_view(),
    {
        self.public_key.clone()
    }

    /// Signs a digest. A 32-byte digest is always signed; the signature is
    /// 64 bytes and verifies under this identity's public key. Anything but
    /// 32 bytes is refused.
    pub fn sign(&self, digest: &Vec<u8>) -> (r: Option<Vec<u8>>)
        requires
            self.wf(),
        ensures
            r is Some <==> digest@.len() == 32,
            r is Some ==> r->0@.len() == 64,
            r is Some ==> schnorr_valid(self.public_key_view(), digest@, r->0@),
    {
        schnorr_sign(&self.secret, digest)
    }
}

} // verus!
