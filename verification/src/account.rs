//! A keypair and the address derived from it.

use vstd::prelude::*;
use vstd::slice::slice_subrange;
use vstd::slice::slice_to_vec;
use secp256k1::PublicKey;
use secp256k1::Secp256k1;
use secp256k1::SecretKey;
use sha3::Digest;
use sha3::Keccak256;
use crate::entropy::thread_seed;
use crate::hex::byte_array_to_hex_prefixed;
use crate::hex::hex_encode_prefixed;
use crate::hex::push_hex_prefixed;
use crate::seed::seed_valid;
use crate::text::byte_list;
use crate::text::decimal;
use crate::text::push_byte_list;
use crate::text::push_decimal;

verus! {

/// `secp256k1::SecretKey`, opaque.
#[verifier::external_type_specification]
#[verifier::external_body]
pub struct ExSecretKey(SecretKey);

/// `secp256k1::PublicKey`, opaque.
#[verifier::external_type_specification]
#[verifier::external_body]
pub struct ExPublicKey(PublicKey);

/// `secp256k1::Error`, opaque.
#[verifier::external_type_specification]
#[verifier::external_body]
pub struct ExKeyError(secp256k1::Error);

/// A `secp256k1::Secp256k1<All>` context, opaque. The context type has a
/// parameter bounded by a trait of the curve library, so it cannot be
/// declared as the other types are and is held in this struct instead.
#[verifier::external_body]
pub struct KeyContext {
    inner: Secp256k1<secp256k1::All>,
}

/// What `SecretKey::from_slice` returns for `bytes`.
pub uninterp spec fn secret_key_parse(bytes: Seq<u8>) -> Result<SecretKey, secp256k1::Error>;

/// What `PublicKey::from_secret_key` returns for `secret`.
pub uninterp spec fn public_key_of(secret: SecretKey) -> PublicKey;

/// What `PublicKey::serialize_uncompressed` returns for `key`.
pub uninterp spec fn uncompressed_encoding(key: PublicKey) -> Seq<u8>;

/// What `Keccak256::digest` returns for `data`.
pub uninterp spec fn keccak256(data: Seq<u8>) -> Seq<u8>;

/// The public key of a seed: its uncompressed encoding without the leading
/// tag byte, sixty-four bytes.
pub open spec fn public_key_bytes(seed: Seq<u8>) -> Seq<u8> {
    uncompressed_encoding(public_key_of(secret_key_parse(seed)->Ok_0)).skip(1)
}

/// The address of a public key: the last twenty bytes of its Keccak-256
/// digest.
pub open spec fn address_bytes(pub_key: Seq<u8>) -> Seq<u8> {
    keccak256(pub_key).skip(12)
}

/// `SecretKey::from_slice`: the key is accepted exactly when the slice has
/// thirty-two bytes whose big-endian number is nonzero and below the group
/// order; the same bytes always give the same outcome.
#[verifier::external_body]
fn parse_secret_key(bytes: &[u8]) -> (r: Result<SecretKey, secp256k1::Error>)
    ensures
        r == secret_key_parse(bytes@),
        r is Ok <==> seed_valid(bytes@),
{
    SecretKey::from_slice(bytes)
}

/// `Secp256k1::new`: a context with all capabilities. Nothing is claimed of
/// it; what is computed in a context does not depend on which one it is.
#[verifier::external_body]
fn new_context() -> KeyContext {
    KeyContext { inner: Secp256k1::new() }
}

/// `PublicKey::from_secret_key`: the public key depends on the secret key
/// alone, not on the context.
#[verifier::external_body]
fn public_key_from_secret(context: &KeyContext, secret: &SecretKey) -> (key: PublicKey)
    ensures
        key == public_key_of(*secret),
{
    PublicKey::from_secret_key(&context.inner, secret)
}

/// `PublicKey::serialize_uncompressed`: the sixty-five bytes depend on the
/// key alone.
#[verifier::external_body]
fn serialize_public_key(key: &PublicKey) -> (bytes: [u8; 65])
    ensures
        bytes@ == uncompressed_encoding(*key),
{
    key.serialize_uncompressed()
}

/// `Keccak256::digest`: thirty-two bytes that depend on the input alone.
#[verifier::external_body]
fn keccak256_digest(data: &[u8]) -> (digest: Vec<u8>)
    ensures
        digest@ == keccak256(data@),
        digest@.len() == 32,
{
    Keccak256::digest(data).to_vec()
}

/// The seed is not a secret key of the curve.
#[derive(Debug, Clone, Copy, PartialEq, Eq)]
pub struct InvalidSeedError {}

/// The three byte strings of an account.
pub ghost struct AccountView {
    pub priv_key: Seq<u8>,
    pub pub_key: Seq<u8>,
    pub address: Seq<u8>,
}

impl AccountView {
    /// The account that a seed determines.
    pub open spec fn derived(seed: Seq<u8>) -> AccountView {
        AccountView {
            priv_key: seed,
            pub_key: public_key_bytes(seed),
            address: address_bytes(public_key_bytes(seed)),
        }
    }

    /// The private key is a secret key of the curve, and the other two
    /// fields are the ones it determines: sixty-four and twenty bytes.
    pub open spec fn wf(self) -> bool {
        &&& seed_valid(self.priv_key)
        &&& self == AccountView::derived(self.priv_key)
        &&& self.pub_key.len() == 64
        &&& self.address.len() == 20
    }

    /// The address as text: `0x` and forty lowercase hexadecimal digits.
    pub open spec fn address_hex(self) -> Seq<char> {
        hex_encode_prefixed(self.address)
    }

    /// Three lines, each field as a list of decimal byte values.
    pub open spec fn text(self) -> Seq<char> {
        "private key: "@ + byte_list(self.priv_key) + "\n public key: "@ + byte_list(self.pub_key)
            + "\n address: "@ + byte_list(self.address) + "\n"@
    }

    /// Three lines, each field in prefixed hexadecimal.
    pub open spec fn hex_text(self) -> Seq<char> {
        "private key: "@ + hex_encode_prefixed(self.priv_key) + "\n public key: "@
            + hex_encode_prefixed(self.pub_key) + "\n address: "@ + hex_encode_prefixed(
            self.address,
        ) + "\n"@
    }

    /// Three lines, each field in prefixed hexadecimal with its length in
    /// bytes.
    pub open spec fn debug_text(self) -> Seq<char> {
        "private key: "@ + hex_encode_prefixed(self.priv_key) + " len: "@ + decimal(
            self.priv_key.len(),
        ) + "\n public key: "@ + hex_encode_prefixed(self.pub_key) + " len: "@ + decimal(
            self.pub_key.len(),
        ) + "\n address: "@ + hex_encode_prefixed(self.address) + " len: "@ + decimal(
            self.address.len(),
        ) + "\n"@
    }
}

/// An account is determined by its private key: two well-formed accounts
/// with the same private key have the same public key and the same address.
pub proof fn law_same_key_same_account(a: AccountView, b: AccountView)
    requires
        a.wf(),
        b.wf(),
        a.priv_key == b.priv_key,
    ensures
        a == b,
        a.address_hex() == b.address_hex(),
{
}

/// A private key with the public key and the address derived from it. The
/// fields never change after construction.
pub struct Account {
    priv_key: Vec<u8>,
    pub_key: Vec<u8>,
    address: Vec<u8>,
}

impl View for Account {
    type V = AccountView;

    closed spec fn view(&self) -> AccountView {
        AccountView { priv_key: self.priv_key@, pub_key: self.pub_key@, address: self.address@ }
    }
}

impl Account {
    /// Every account is well formed.
    #[verifier::type_invariant]
    pub open spec fn wf(&self) -> bool {
        self@.wf()
    }

    /// The account of a seed that is a secret key of the curve.
    pub fn new(priv_key_bytes: &[u8]) -> (account: Account)
        requires
            seed_valid(priv_key_bytes@),
        ensures
            account@ == AccountView::derived(priv_key_bytes@),
            account.wf(),
    {
        match IdentityFactory::new().derive(priv_key_bytes) {
            Ok(account) => account,
            Err(_) => unreached(),
        }
    }

    /// The account of thirty-two bytes drawn from the calling thread's
    /// generator, or the error when those bytes are not a secret key.
    pub fn rand_new() -> (r: Result<Account, InvalidSeedError>)
        ensures
            r matches Ok(account) ==> account.wf(),
    {
        let seed = thread_seed();
        IdentityFactory::new().derive(seed.as_slice())
    }

    /// The private key, thirty-two bytes.
    pub fn priv_key(&self) -> (bytes: &Vec<u8>)
        ensures
            bytes@ == self@.priv_key,
            bytes@.len() == 32,
    {
        proof {
            use_type_invariant(self);
        }
        &self.priv_key
    }

    /// The public key, sixty-four bytes.
    pub fn pub_key(&self) -> (bytes: &Vec<u8>)
        ensures
            bytes@ == self@.pub_key,
            bytes@.len() == 64,
    {
        proof {
            use_type_invariant(self);
        }
        &self.pub_key
    }

    /// The address, twenty bytes.
    pub fn address(&self) -> (bytes: &Vec<u8>)
        ensures
            bytes@ == self@.address,
            bytes@.len() == 20,
    {
        proof {
            use_type_invariant(self);
        }
        &self.address
    }

    /// The private key as `0x` and sixty-four hexadecimal digits.
    pub fn priv_key_as_hex(&self) -> (text: String)
        ensures
            text@ == hex_encode_prefixed(self@.priv_key),
            text@.len() == 66,
    {
        proof {
            use_type_invariant(self);
        }
        byte_array_to_hex_prefixed(&self.priv_key)
    }

    /// The public key as `0x` and one hundred and twenty-eight hexadecimal
    /// digits.
    pub fn pub_key_as_hex(&self) -> (text: String)
        ensures
            text@ == hex_encode_prefixed(self@.pub_key),
            text@.len() == 130,
    {
        proof {
            use_type_invariant(self);
        }
        byte_array_to_hex_prefixed(&self.pub_key)
    }

    /// The address as `0x` and forty hexadecimal digits.
    pub fn address_as_hex(&self) -> (text: String)
        ensures
            text@ == self@.address_hex(),
            text@.len() == 42,
    {
        proof {
            use_type_invariant(self);
        }
        byte_array_to_hex_prefixed(&self.address)
    }
}

impl Account {
    /// The account in three lines, each field as a list of decimal byte
    /// values.
    pub fn to_text(&self) -> (text: String)
        ensures
            text@ == self@.text(),
    {
        let mut text = String::new();
        text.push_str("private key: ");
        push_byte_list(&mut text, self.priv_key.as_slice());
        text.push_str("\n public key: ");
        push_byte_list(&mut text, self.pub_key.as_slice());
        text.push_str("\n address: ");
        push_byte_list(&mut text, self.address.as_slice());
        text.push_str("\n");
        assert(text@ =~= self@.text());
        text
    }

    /// The account in three lines, each field in prefixed hexadecimal.
    pub fn to_hex_text(&self) -> (text: String)
        ensures
            text@ == self@.hex_text(),
    {
        let mut text = String::new();
        text.push_str("private key: ");
        push_hex_prefixed(&mut text, self.priv_key.as_slice());
        text.push_str("\n public key: ");
        push_hex_prefixed(&mut text, self.pub_key.as_slice());
        text.push_str("\n address: ");
        push_hex_prefixed(&mut text, self.address.as_slice());
        text.push_str("\n");
        assert(text@ =~= self@.hex_text());
        text
    }

    /// The account in three lines, each field in prefixed hexadecimal with
    /// its length in bytes.
    pub fn to_debug_text(&self) -> (text: String)
        ensures
            text@ == self@.debug_text(),
    {
        let mut text = String::new();
        text.push_str("private key: ");
        push_hex_with_len(&mut text, &self.priv_key);
        text.push_str("\n public key: ");
        push_hex_with_len(&mut text, &self.pub_key);
        text.push_str("\n address: ");
        push_hex_with_len(&mut text, &self.address);
        text.push_str("\n");
        assert(text@ =~= self@.debug_text());
        text
    }
}

fn push_hex_with_len(out: &mut String, bytes: &Vec<u8>)
    ensures
        final(out)@ == old(out)@ + hex_encode_prefixed(bytes@) + " len: "@ + decimal(
            bytes@.len(),
        ),
{
    push_hex_prefixed(out, bytes.as_slice());
    out.push_str(" len: ");
    push_decimal(out, bytes.len() as u64);
}

impl Clone for Account {
    /// A second account with the same three byte strings.
    fn clone(&self) -> (copy: Account)
        ensures
            copy@ == self@,
    {
        proof {
            use_type_invariant(self);
        }
        Account {
            priv_key: slice_to_vec(self.priv_key.as_slice()),
            pub_key: slice_to_vec(self.pub_key.as_slice()),
            address: slice_to_vec(self.address.as_slice()),
        }
    }
}

/// Derives accounts from seeds. A factory holds the curve context, which is
/// costly to build, so that many seeds can be tried in one.
pub struct IdentityFactory {
    context: KeyContext,
}

impl IdentityFactory {
    /// A factory with a context of its own.
    pub fn new() -> IdentityFactory {
        IdentityFactory { context: new_context() }
    }

    /// The account of `seed`, or the error when `seed` is not a secret key of
    /// the curve.
    pub fn derive(&self, seed: &[u8]) -> (r: Result<Account, InvalidSeedError>)
        ensures
            r is Ok <==> seed_valid(seed@),
            r matches Ok(account) ==> account@ == AccountView::derived(seed@) && account.wf(),
    {
        match parse_secret_key(seed) {
            Ok(secret) => {
                let key = public_key_from_secret(&self.context, &secret);
                let encoded = serialize_public_key(&key);
                let pub_key = slice_to_vec(slice_subrange(encoded.as_slice(), 1, 65));
                assert(pub_key@ =~= public_key_bytes(seed@));
                let digest = keccak256_digest(pub_key.as_slice());
                let address = slice_to_vec(slice_subrange(digest.as_slice(), 12, 32));
                assert(address@ =~= address_bytes(pub_key@));
                Ok(Account { priv_key: slice_to_vec(seed), pub_key, address })
            },
            Err(_) => Err(InvalidSeedError {}),
        }
    }
}

} // verus!
