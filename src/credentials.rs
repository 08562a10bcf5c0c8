//! Key material and account identity of a service account.

use vstd::prelude::*;

verus! {

#[verifier::external_type_specification]
#[verifier::external_body]
pub struct ExSecret(biscuit::jws::Secret);

/// Service-account credentials: identity strings, an optional signing key and the
/// RSA public keys (DER-encoded) used to verify inbound tokens, each under its key id.
pub struct Credentials {
    pub private_key_id: String,
    pub client_email: String,
    pub project_id: String,
    pub api_key: String,
    pub secret: Option<biscuit::jws::Secret>,
    pub pub_keys: Vec<(String, Vec<u8>)>,
}

impl Credentials {
    /// Whether a private signing key has been added.
    pub open spec fn has_signing_key(&self) -> bool {
        self.secret is Some
    }

    /// The key ids of the verification keys, in the order they were added.
    pub open spec fn key_ids(&self) -> Seq<Seq<char>> {
        self.pub_keys@.map_values(|e: (String, Vec<u8>)| e.0@)
    }

    /// The verification key stored under `kid`.
    pub open spec fn verification_key(&self, kid: Seq<char>) -> Option<Seq<u8>> {
        key_lookup(self.pub_keys@, kid)
    }

    /// Credentials with no signing key and no verification keys.
    pub fn new(project_id: String, private_key_id: String, client_email: String, api_key: String) -> (r: Self)
        ensures
            r.project_id == project_id,
            r.private_key_id == private_key_id,
            r.client_email == client_email,
            r.api_key == api_key,
            !r.has_signing_key(),
            r.key_ids() == Seq::<Seq<char>>::empty(),
    {
        let r = Credentials { private_key_id, client_email, project_id, api_key, secret: None, pub_keys: Vec::new() };
        assert(r.key_ids() =~= Seq::<Seq<char>>::empty());
        r
    }

    /// Sets the private key used to sign tokens.
    pub fn add_keypair_key(&mut self, key: biscuit::jws::Secret)
        ensures
            final(self).has_signing_key(),
            final(self).key_ids() == old(self).key_ids(),
            final(self).project_id == old(self).project_id,
            final(self).private_key_id == old(self).private_key_id,
            final(self).client_email == old(self).client_email,
            final(self).api_key == old(self).api_key,
    {
        self.secret = Some(key);
    }

    /// Adds a DER-encoded RSA public key under `kid`, replacing the key stored under the same id.
    pub fn add_jwks_public_key(&mut self, kid: String, key: Vec<u8>)
        ensures
            old(self).key_ids().contains(kid@) ==> final(self).key_ids() == old(self).key_ids(),
            !old(self).key_ids().contains(kid@) ==> final(self).key_ids() == old(self).key_ids().push(kid@),
            final(self).has_signing_key() == old(self).has_signing_key(),
            final(self).project_id == old(self).project_id,
            final(self).private_key_id == old(self).private_key_id,
            final(self).client_email == old(self).client_email,
            final(self).api_key == old(self).api_key,
    {
        let ghost ids = self.key_ids();
        let mut i: usize = 0;
        while i < self.pub_keys.len()
            invariant
                i <= self.pub_keys.len(),
                self.key_ids() == ids,
                self.secret == old(self).secret,
                self.project_id == old(self).project_id,
                self.private_key_id == old(self).private_key_id,
                self.client_email == old(self).client_email,
                self.api_key == old(self).api_key,
                ids == old(self).key_ids(),
                forall|j: int| 0 <= j < i ==> ids[j] != kid@,
            decreases self.pub_keys.len() - i,
        {
            if self.pub_keys[i].0 == kid {
                let ghost before = self.pub_keys@;
                self.pub_keys.set(i, (kid, key));
                assert(self.key_ids() =~= ids) by {
                    assert(before[i as int].0@ == kid@);
                }
                assert(ids[i as int] == kid@);
                return;
            }
            i = i + 1;
        }
        proof {
            assert(!ids.contains(kid@)) by {
                if ids.contains(kid@) {
                    let j = choose|j: int| 0 <= j < ids.len() && ids[j] == kid@;
                    assert(ids[j] != kid@);
                }
            }
        }
        self.pub_keys.push((kid, key));
        assert(self.key_ids() =~= ids.push(kid@));
    }

    /// Whether a signing key is present.
    pub fn signing_key_present(&self) -> (r: bool)
        ensures
            r == self.has_signing_key(),
    {
        self.secret.is_some()
    }

    /// The private signing key, if one was added.
    pub fn signing_key(&self) -> (r: Option<&biscuit::jws::Secret>)
        ensures
            r is Some == self.has_signing_key(),
    {
        self.secret.as_ref()
    }

    /// The verification key stored under `kid`.
    pub fn decode_secret(&self, kid: &String) -> (r: Option<&Vec<u8>>)
        ensures
            r is Some == self.key_ids().contains(kid@),
            match r {
                Some(k) => self.verification_key(kid@) == Some(k@),
                None => self.verification_key(kid@) is None,
            },
    {
        let ghost all = self.pub_keys@;
        assert(all.subrange(0, all.len() as int) =~= all);
        let mut i: usize = 0;
        while i < self.pub_keys.len()
            invariant
                i <= self.pub_keys.len(),
                all == self.pub_keys@,
                forall|j: int| 0 <= j < i ==> self.key_ids()[j] != kid@,
                key_lookup(all, kid@) == key_lookup(all.subrange(i as int, all.len() as int), kid@),
            decreases self.pub_keys.len() - i,
        {
            let ghost rest = all.subrange(i as int, all.len() as int);
            assert(rest.drop_first() =~= all.subrange(i + 1, all.len() as int));
            assert(rest[0] == all[i as int]);
            if self.pub_keys[i].0 == *kid {
                assert(self.key_ids()[i as int] == kid@);
                return Some(&self.pub_keys[i].1);
            }
            i = i + 1;
        }
        proof {
            if self.key_ids().contains(kid@) {
                let j = choose|j: int| 0 <= j < self.key_ids().len() && self.key_ids()[j] == kid@;
                assert(self.key_ids()[j] != kid@);
            }
        }
        None
    }
}

/// The DER length octets of a content of `n` bytes, for contents under 65536 bytes.
pub open spec fn der_length(n: nat) -> Seq<u8> {
    if n < 128 {
        seq![n as u8]
    } else if n < 256 {
        seq![0x81u8, n as u8]
    } else {
        seq![0x82u8, (n / 256) as u8, (n % 256) as u8]
    }
}

/// The DER encoding of a non-negative big-endian integer: a zero octet goes first when the
/// top bit is set.
pub open spec fn der_integer(b: Seq<u8>) -> Seq<u8> {
    let body = if b.len() > 0 && b[0] >= 0x80 {
        seq![0u8] + b
    } else {
        b
    };
    seq![0x02u8] + der_length(body.len()) + body
}

/// The DER encoding of an RSA public key (PKCS#1 `RSAPublicKey`): the sequence of modulus and
/// exponent.
pub open spec fn rsa_public_key_der(n: Seq<u8>, e: Seq<u8>) -> Seq<u8> {
    let content = der_integer(n) + der_integer(e);
    seq![0x30u8] + der_length(content.len()) + content
}

fn append_bytes(dst: &mut Vec<u8>, src: &Vec<u8>)
    ensures
        final(dst)@ == old(dst)@ + src@,
{
    let mut i: usize = 0;
    while i < src.len()
        invariant
            i <= src.len(),
            dst@ == old(dst)@ + src@.subrange(0, i as int),
        decreases src.len() - i,
    {
        dst.push(src[i]);
        i = i + 1;
        assert(dst@ =~= old(dst)@ + src@.subrange(0, i as int));
    }
    assert(src@.subrange(0, src.len() as int) =~= src@);
}

fn push_der_length(dst: &mut Vec<u8>, n: usize)
    requires
        n < 65536,
    ensures
        final(dst)@ == old(dst)@ + der_length(n as nat),
{
    if n < 128 {
        dst.push(n as u8);
    } else if n < 256 {
        dst.push(0x81u8);
        dst.push(n as u8);
    } else {
        dst.push(0x82u8);
        dst.push((n / 256) as u8);
        dst.push((n % 256) as u8);
    }
    assert(dst@ =~= old(dst)@ + der_length(n as nat));
}

fn der_integer_of(b: &Vec<u8>) -> (r: Vec<u8>)
    requires
        b.len() < 30000,
    ensures
        r@ == der_integer(b@),
        r@.len() <= b.len() + 5,
{
    let lead = b.len() > 0 && b[0] >= 0x80;
    let body_len: usize = if lead {
        b.len() + 1
    } else {
        b.len()
    };
    let mut r: Vec<u8> = Vec::new();
    r.push(0x02u8);
    push_der_length(&mut r, body_len);
    if lead {
        r.push(0u8);
    }
    append_bytes(&mut r, b);
    assert(r@ =~= der_integer(b@));
    r
}

/// The DER-encoded RSA public key with modulus `n` and exponent `e`, both big-endian; the form
/// `Credentials::add_jwks_public_key` takes.
pub fn rsa_public_key_from_components(n: &Vec<u8>, e: &Vec<u8>) -> (r: Vec<u8>)
    requires
        n.len() < 30000,
        e.len() < 30000,
        n.len() + e.len() < 60000,
    ensures
        r@ == rsa_public_key_der(n@, e@),
{
    let ni = der_integer_of(n);
    let ei = der_integer_of(e);
    let mut r: Vec<u8> = Vec::new();
    r.push(0x30u8);
    push_der_length(&mut r, ni.len() + ei.len());
    append_bytes(&mut r, &ni);
    append_bytes(&mut r, &ei);
    assert(r@ =~= rsa_public_key_der(n@, e@));
    r
}

/// The key of the first entry under `kid`.
pub open spec fn key_lookup(keys: Seq<(String, Vec<u8>)>, kid: Seq<char>) -> Option<Seq<u8>>
    decreases keys.len(),
{
    if keys.len() == 0 {
        None
    } else if keys[0].0@ == kid {
        Some(keys[0].1@)
    } else {
        key_lookup(keys.drop_first(), kid)
    }
}

} // verus!
