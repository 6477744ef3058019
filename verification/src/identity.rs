//! The long-term identity: a 32-byte secret key and the public
//! identifier derived from it.
//!
//! The secret is held as plain bytes so that import and export are
//! exact round trips; deriving the public identifier is the transport
//! provider's key arithmetic, relied upon behind a trusted wrapper.

use vstd::prelude::*;

use crate::errors::PvError;

verus! {

/// Length in bytes of a secret key.
pub const SECRET_KEY_LEN: usize = 32;

/// The textual public identifier that the provider derives from a
/// 32-byte secret key: a fixed function of the secret bytes alone.
pub uninterp spec fn public_id_of(secret: Seq<u8>) -> Seq<char>;

/// What creating an identity from optionally supplied secret bytes
/// yields, at the level of the secret it will hold: supplied bytes are
/// kept exactly when there are 32 of them, refused otherwise; absent
/// bytes mean a fresh key, represented here by the `fresh` argument.
pub open spec fn spec_create(bytes: Option<Seq<u8>>, fresh: Seq<u8>) -> Result<Seq<u8>, PvError> {
    match bytes {
        Some(b) => if b.len() == SECRET_KEY_LEN {
            Ok(b)
        } else {
            Err(PvError::InvalidKeyLength)
        },
        None => Ok(fresh),
    }
}

/// A node's long-term identity.
pub struct Identity {
    secret: Vec<u8>,
}

impl View for Identity {
    type V = Seq<u8>;

    closed spec fn view(&self) -> Seq<u8> {
        self.secret@
    }
}

impl Identity {
    /// A well-formed identity holds exactly 32 secret bytes.
    pub open spec fn wf(&self) -> bool {
        self@.len() == SECRET_KEY_LEN
    }

    /// Creates an identity, restoring it from the given secret bytes —
    /// which must number exactly 32, else `InvalidKeyLength` — or from
    /// freshly generated key material when none are given.
    pub fn create(secret_bytes: Option<Vec<u8>>) -> (r: Result<Identity, PvError>)
        ensures
            match r {
                Ok(id) => {
                    &&& id.wf()
                    &&& spec_create(view_of_option(secret_bytes), id@) == Ok::<Seq<u8>, PvError>(
                        id@,
                    )
                    &&& (secret_bytes matches Some(b) ==> id@ == b@)
                },
                Err(e) => {
                    &&& e == PvError::InvalidKeyLength
                    &&& (secret_bytes matches Some(b) && b@.len() != SECRET_KEY_LEN)
                },
            },
            secret_bytes matches Some(b) && b@.len() == SECRET_KEY_LEN ==> r is Ok,
            secret_bytes is None ==> r is Ok,
    {
        match secret_bytes {
            Some(b) => {
                if b.len() == SECRET_KEY_LEN {
                    Ok(Identity { secret: b })
                } else {
                    Err(PvError::InvalidKeyLength)
                }
            },
            None => {
                let secret = generate_secret_key();
                Ok(Identity { secret })
            },
        }
    }

    /// The secret key bytes, for persistence: exactly the 32 bytes the
    /// identity holds, so restoring them recreates the same identity.
    pub fn export_bytes(&self) -> (r: Vec<u8>)
        ensures
            r@ == self@,
    {
        clone_bytes(&self.secret)
    }

    /// The textual form of the public identifier derived from the
    /// secret key: stable across calls, fit for display and equality.
    pub fn public_id(&self) -> (r: String)
        requires
            self.wf(),
        ensures
            r@ == public_id_of(self@),
    {
        derive_public_id(&self.secret)
    }
}

/// The views of optionally supplied bytes, for stating contracts.
pub open spec fn view_of_option(bytes: Option<Vec<u8>>) -> Option<Seq<u8>> {
    match bytes {
        Some(b) => Some(b@),
        None => None,
    }
}

/// Round trip of the secret: an identity created from 32 supplied
/// bytes holds them unchanged, so exporting returns exactly them; any
/// other supplied length is refused as `InvalidKeyLength`.
pub proof fn lemma_create_round_trip(bytes: Seq<u8>, fresh: Seq<u8>)
    ensures
        bytes.len() == SECRET_KEY_LEN ==> spec_create(Some(bytes), fresh) == Ok::<
            Seq<u8>,
            PvError,
        >(bytes),
        bytes.len() != SECRET_KEY_LEN ==> spec_create(Some(bytes), fresh) == Err::<
            Seq<u8>,
            PvError,
        >(PvError::InvalidKeyLength),
{
}

/// Relies on `iroh::SecretKey::generate` (backed by the `rand` crate's
/// default generator): fresh random key material, 32 bytes of it.
/// Nothing is promised of the bytes themselves.
#[verifier::external_body]
fn generate_secret_key() -> (r: Vec<u8>)
    ensures
        r@.len() == SECRET_KEY_LEN,
{
    iroh::SecretKey::generate().to_bytes().to_vec()
}

/// Relies on `iroh::SecretKey::from_bytes` and `PublicKey`'s display
/// form: the public identifier is derived from the 32 secret bytes
/// alone, the same on every call.
#[verifier::external_body]
fn derive_public_id(secret: &Vec<u8>) -> (r: String)
    requires
        secret@.len() == SECRET_KEY_LEN,
    ensures
        r@ == public_id_of(secret@),
{
    let mut arr = [0u8; 32];
    arr.copy_from_slice(secret.as_slice());
    iroh::SecretKey::from_bytes(&arr).public().to_string()
}

/// One-for-one copy of a byte vector.
fn clone_bytes(b: &Vec<u8>) -> (r: Vec<u8>)
    ensures
        r@ == b@,
{
    let mut r: Vec<u8> = Vec::new();
    let mut i: usize = 0;
    while i < b.len()
        invariant
            i <= b@.len(),
            r@ == b@.take(i as int),
        decreases b@.len() - i,
    {
        r.push(b[i]);
        i = i + 1;
        proof {
            assert(b@.take(i as int) =~= b@.take(i - 1) + seq![b@[i - 1]]);
        }
    }
    proof {
        assert(b@.take(b@.len() as int) =~= b@);
    }
    r
}

} // verus!
