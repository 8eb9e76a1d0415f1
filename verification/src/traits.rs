//! Security providers, byte conversion, and the lock and unlock conversions
//! of models and of lists of models.
use vstd::prelude::*;
use vstd::slice::slice_to_vec;
use vstd::utf8::{decode_utf8, encode_utf8, valid_utf8};

use crate::error::Error;
use crate::types::{Decrypted, Verified};

verus! {

/// The bytes of a provider's or a codec's answer, or the error it gave.
pub open spec fn bytes_outcome(r: Result<Vec<u8>, Error>) -> Result<Seq<u8>, Error> {
    match r {
        Ok(v) => Ok(v@),
        Err(e) => Err(e),
    }
}

/// Produces index data from bytes (for example with a keyed hash).
pub trait IndexProvider {
    /// Holds of each answer this provider may give when indexing `data`.
    /// Unless an implementation says more, any answer may come.
    open spec fn index_outcome(&self, data: Seq<u8>, outcome: Result<Seq<u8>, Error>) -> bool {
        true
    }

    /// Produce an index based on some data.
    fn index(&self, data: &[u8]) -> (r: Result<Vec<u8>, Error>)
        ensures
            self.index_outcome(data@, bytes_outcome(r)),
    ;
}

/// Encrypts and decrypts bytes.
pub trait CryptoProvider {
    /// Holds of each answer this provider may give when encrypting `data`.
    /// Unless an implementation says more, any answer may come.
    open spec fn encrypt_outcome(&self, data: Seq<u8>, outcome: Result<Seq<u8>, Error>) -> bool {
        true
    }

    /// Holds of each answer this provider may give when decrypting `data`.
    /// Unless an implementation says more, any answer may come.
    open spec fn decrypt_outcome(&self, data: Seq<u8>, outcome: Result<Seq<u8>, Error>) -> bool {
        true
    }

    /// Encrypt a plaintext byte slice.
    fn encrypt(&self, data: &[u8]) -> (r: Result<Vec<u8>, Error>)
        ensures
            self.encrypt_outcome(data@, bytes_outcome(r)),
    ;

    /// Decrypt an encrypted byte slice back into plaintext bytes.
    fn decrypt(&self, data: &[u8]) -> (r: Result<Vec<u8>, Error>)
        ensures
            self.decrypt_outcome(data@, bytes_outcome(r)),
    ;
}

/// Produces one-way secret hashes (for example password hashes).
pub trait SecretProvider {
    /// Holds of each answer this provider may give when hashing `data`.
    /// Unless an implementation says more, any answer may come.
    open spec fn hash_secret_outcome(&self, data: Seq<u8>, outcome: Result<Seq<u8>, Error>) -> bool {
        true
    }

    /// Produce a one-way secret hash.
    fn hash_secret(&self, data: &[u8]) -> (r: Result<Vec<u8>, Error>)
        ensures
            self.hash_secret_outcome(data@, bytes_outcome(r)),
    ;
}

/// Computes digests of bytes.
pub trait DigestProvider {
    /// Holds of each answer this provider may give when digesting `data`.
    /// Unless an implementation says more, any answer may come.
    open spec fn digest_outcome(&self, data: Seq<u8>, outcome: Result<Seq<u8>, Error>) -> bool {
        true
    }

    /// Compute a digest of the input bytes.
    fn digest(&self, data: &[u8]) -> (r: Result<Vec<u8>, Error>)
        ensures
            self.digest_outcome(data@, bytes_outcome(r)),
    ;
}

/// Signs payloads and verifies signed payloads.
pub trait SignProvider {
    /// Holds of each answer this provider may give when signing `data`.
    /// Unless an implementation says more, any answer may come.
    open spec fn sign_outcome(&self, data: Seq<u8>, outcome: Result<Seq<u8>, Error>) -> bool {
        true
    }

    /// Holds of each answer this provider may give when verifying `data`.
    /// Unless an implementation says more, any answer may come.
    open spec fn verify_signature_outcome(
        &self,
        data: Seq<u8>,
        outcome: Result<Seq<u8>, Error>,
    ) -> bool {
        true
    }

    /// Produce a signed payload from raw bytes.
    fn sign(&self, data: &[u8]) -> (r: Result<Vec<u8>, Error>)
        ensures
            self.sign_outcome(data@, bytes_outcome(r)),
    ;

    /// Verify and recover the signed payload bytes.
    fn verify_signature(&self, data: &[u8]) -> (r: Result<Vec<u8>, Error>)
        ensures
            self.verify_signature_outcome(data@, bytes_outcome(r)),
    ;
}

/// Attaches and verifies message authentication codes.
pub trait MacProvider {
    /// Holds of each answer this provider may give when tagging `data`.
    /// Unless an implementation says more, any answer may come.
    open spec fn tag_outcome(&self, data: Seq<u8>, outcome: Result<Seq<u8>, Error>) -> bool {
        true
    }

    /// Holds of each answer this provider may give when verifying `data`.
    /// Unless an implementation says more, any answer may come.
    open spec fn verify_mac_outcome(&self, data: Seq<u8>, outcome: Result<Seq<u8>, Error>) -> bool {
        true
    }

    /// Attach a MAC tag to raw bytes.
    fn tag(&self, data: &[u8]) -> (r: Result<Vec<u8>, Error>)
        ensures
            self.tag_outcome(data@, bytes_outcome(r)),
    ;

    /// Verify and recover MAC-tagged payload bytes.
    fn verify_mac(&self, data: &[u8]) -> (r: Result<Vec<u8>, Error>)
        ensures
            self.verify_mac_outcome(data@, bytes_outcome(r)),
    ;
}

/// Values that can be serialized into bytes for the providers.
pub trait ToBytes {
    /// Holds of each result that serializing the value may give. Unless an
    /// implementation says more, any result may come.
    open spec fn encodes_to(&self, outcome: Result<Seq<u8>, Error>) -> bool {
        true
    }

    fn to_bytes(&self) -> (r: Result<Vec<u8>, Error>)
        ensures
            self.encodes_to(bytes_outcome(r)),
    ;
}

/// Values that can be read back from bytes.
pub trait FromBytes: Sized {
    /// Holds of each result that reading a value from `bytes` may give.
    /// Unless an implementation says more, any result may come.
    open spec fn decodes(bytes: Seq<u8>, outcome: Result<Self, Error>) -> bool {
        true
    }

    fn from_bytes(bytes: &[u8]) -> (r: Result<Self, Error>)
        ensures
            Self::decodes(bytes@, r),
    ;
}


/// Types that can be transformed into their locked representation.
///
/// Depending on field policy, locking may encrypt, hash, digest, sign or
/// MAC-tag data.
pub trait Lockable<P>: Sized {
    type Output;

    /// Holds of each result that locking this value with `provider` may give.
    /// Unless an implementation says more, any result may come.
    open spec fn lock_outcome(&self, provider: &P, outcome: Result<Self::Output, Error>) -> bool {
        true
    }

    fn lock(self, provider: &P) -> (r: Result<Self::Output, Error>)
        ensures
            self.lock_outcome(provider, r),
    ;
}

/// Types that can be transformed into their unlocked representation.
///
/// Depending on field policy, unlocking may decrypt or verify signed and
/// MAC-tagged bytes, while one-way policies (secret hash and digest) keep
/// their wrapped form.
pub trait Unlockable<P>: Sized {
    type Output;

    /// Holds of each result that unlocking this value with `provider` may
    /// give. Unless an implementation says more, any result may come.
    open spec fn unlock_outcome(&self, provider: &P, outcome: Result<Self::Output, Error>) -> bool {
        true
    }

    fn unlock(self, provider: &P) -> (r: Result<Self::Output, Error>)
        ensures
            self.unlock_outcome(provider, r),
    ;
}

/// Holds when locking `item` with `provider` may succeed.
pub open spec fn may_lock<P, T: Lockable<P>>(item: T, provider: &P) -> bool {
    exists|x| #[trigger] item.lock_outcome(provider, Ok(x))
}

/// Holds when unlocking `item` with `provider` may succeed.
pub open spec fn may_unlock<P, T: Unlockable<P>>(item: T, provider: &P) -> bool {
    exists|x| #[trigger] item.unlock_outcome(provider, Ok(x))
}

/// The outcome of locking a sequence of models one after another, stopping at
/// the first failure: either every model locked, in order, or some model
/// failed after all models before it had locked.
pub open spec fn all_locked<P, T: Lockable<P>>(
    items: Seq<T>,
    provider: &P,
    outcome: Result<Vec<<T as Lockable<P>>::Output>, Error>,
) -> bool {
    match outcome {
        Ok(v) => {
            &&& v@.len() == items.len()
            &&& forall|i: int|
                0 <= i < items.len() ==> #[trigger] items[i].lock_outcome(provider, Ok(v@[i]))
        },
        Err(e) => exists|k: int|
            {
                &&& 0 <= k < items.len()
                &&& #[trigger] items[k].lock_outcome(provider, Err(e))
                &&& forall|i: int| 0 <= i < k ==> #[trigger] may_lock(items[i], provider)
            },
    }
}

/// The outcome of unlocking a sequence of models one after another, stopping
/// at the first failure (see `all_locked`).
pub open spec fn all_unlocked<P, T: Unlockable<P>>(
    items: Seq<T>,
    provider: &P,
    outcome: Result<Vec<<T as Unlockable<P>>::Output>, Error>,
) -> bool {
    match outcome {
        Ok(v) => {
            &&& v@.len() == items.len()
            &&& forall|i: int|
                0 <= i < items.len() ==> #[trigger] items[i].unlock_outcome(provider, Ok(v@[i]))
        },
        Err(e) => exists|k: int|
            {
                &&& 0 <= k < items.len()
                &&& #[trigger] items[k].unlock_outcome(provider, Err(e))
                &&& forall|i: int| 0 <= i < k ==> #[trigger] may_unlock(items[i], provider)
            },
    }
}

impl<P, T: Lockable<P>> Lockable<P> for Vec<T> {
    type Output = Vec<<T as Lockable<P>>::Output>;

    open spec fn lock_outcome(
        &self,
        provider: &P,
        outcome: Result<Vec<<T as Lockable<P>>::Output>, Error>,
    ) -> bool {
        all_locked(self@, provider, outcome)
    }

    fn lock(self, provider: &P) -> (r: Result<Vec<<T as Lockable<P>>::Output>, Error>) {
        let ghost items = self@;
        let mut locked: Vec<<T as Lockable<P>>::Output> = Vec::new();
        for m in it: self.into_iter()
            invariant
                it.seq() == items,
                locked@.len() == it.index(),
                forall|i: int|
                    0 <= i < locked@.len() ==> #[trigger] items[i].lock_outcome(
                        provider,
                        Ok(locked@[i]),
                    ),
        {
            let ghost k = it.index();
            match m.lock(provider) {
                Ok(x) => {
                    locked.push(x);
                },
                Err(e) => {
                    assert forall|i: int| 0 <= i < k implies #[trigger] may_lock(
                        items[i],
                        provider,
                    ) by {
                        assert(items[i].lock_outcome(provider, Ok(locked@[i])));
                    }
                    return Err(e);
                },
            }
        }
        Ok(locked)
    }
}

impl<P, T: Unlockable<P>> Unlockable<P> for Vec<T> {
    type Output = Vec<<T as Unlockable<P>>::Output>;

    open spec fn unlock_outcome(
        &self,
        provider: &P,
        outcome: Result<Vec<<T as Unlockable<P>>::Output>, Error>,
    ) -> bool {
        all_unlocked(self@, provider, outcome)
    }

    fn unlock(self, provider: &P) -> (r: Result<Vec<<T as Unlockable<P>>::Output>, Error>) {
        let ghost items = self@;
        let mut unlocked: Vec<<T as Unlockable<P>>::Output> = Vec::new();
        for m in it: self.into_iter()
            invariant
                it.seq() == items,
                unlocked@.len() == it.index(),
                forall|i: int|
                    0 <= i < unlocked@.len() ==> #[trigger] items[i].unlock_outcome(
                        provider,
                        Ok(unlocked@[i]),
                    ),
        {
            let ghost k = it.index();
            match m.unlock(provider) {
                Ok(x) => {
                    unlocked.push(x);
                },
                Err(e) => {
                    assert forall|i: int| 0 <= i < k implies #[trigger] may_unlock(
                        items[i],
                        provider,
                    ) by {
                        assert(items[i].unlock_outcome(provider, Ok(unlocked@[i])));
                    }
                    return Err(e);
                },
            }
        }
        Ok(unlocked)
    }
}

/// Locking a list of models and unlocking the result gives back the list,
/// in order, when locking and then unlocking each of its models gives that
/// model back.
pub proof fn lemma_vec_round_trip<P, T: Lockable<P>>(
    items: Seq<T>,
    provider: &P,
    locked: Vec<<T as Lockable<P>>::Output>,
    unlocked: Vec<T>,
) where <T as Lockable<P>>::Output: Unlockable<P, Output = T>
    requires
        forall|i: int, l: <T as Lockable<P>>::Output, u: T|
            #![trigger items[i].lock_outcome(provider, Ok(l)), l.unlock_outcome(provider, Ok(u))]
            0 <= i < items.len() && items[i].lock_outcome(provider, Ok(l)) && l.unlock_outcome(
                provider,
                Ok(u),
            ) ==> u == items[i],
        all_locked(items, provider, Ok(locked)),
        all_unlocked(locked@, provider, Ok(unlocked)),
    ensures
        unlocked@ == items,
{
    assert forall|i: int| 0 <= i < items.len() implies #[trigger] unlocked@[i] == items[i] by {
        assert(items[i].lock_outcome(provider, Ok(locked@[i])));
        assert(locked@[i].unlock_outcome(provider, Ok(unlocked@[i])));
    }
    assert(unlocked@ =~= items);
}

/// The text that std gives for bytes that are not valid UTF-8.
pub uninterp spec fn utf8_error_text(bytes: Seq<u8>) -> Seq<char>;

/// Calls `String::from_utf8`. Its documentation states that it succeeds
/// exactly on valid UTF-8, with the string those bytes encode; otherwise the
/// contract claims only that the error's text is determined by the bytes.
#[verifier::external_body]
fn string_from_utf8(bytes: Vec<u8>) -> (r: Result<String, String>)
    ensures
        r is Ok <==> valid_utf8(bytes@),
        r matches Ok(s) ==> s@ == decode_utf8(bytes@),
        r matches Err(m) ==> m@ == utf8_error_text(bytes@),
{
    match String::from_utf8(bytes) {
        Ok(s) => Ok(s),
        Err(e) => Err(e.to_string()),
    }
}

impl ToBytes for String {
    /// A string is serialized as its UTF-8 encoding.
    open spec fn encodes_to(&self, outcome: Result<Seq<u8>, Error>) -> bool {
        outcome == Ok::<Seq<u8>, Error>(encode_utf8(self@))
    }

    fn to_bytes(&self) -> (r: Result<Vec<u8>, Error>) {
        Ok(slice_to_vec(self.as_str().as_bytes()))
    }
}

impl ToBytes for Vec<u8> {
    /// A byte vector is serialized as itself.
    open spec fn encodes_to(&self, outcome: Result<Seq<u8>, Error>) -> bool {
        outcome == Ok::<Seq<u8>, Error>(self@)
    }

    fn to_bytes(&self) -> (r: Result<Vec<u8>, Error>) {
        Ok(slice_to_vec(self.as_slice()))
    }
}

impl<T: ToBytes> ToBytes for Decrypted<T> {
    /// A decrypted value is serialized as the value it holds.
    open spec fn encodes_to(&self, outcome: Result<Seq<u8>, Error>) -> bool {
        self.data.encodes_to(outcome)
    }

    fn to_bytes(&self) -> (r: Result<Vec<u8>, Error>) {
        self.data.to_bytes()
    }
}

impl<T: ToBytes> ToBytes for Verified<T> {
    /// A verified value is serialized as the value it holds.
    open spec fn encodes_to(&self, outcome: Result<Seq<u8>, Error>) -> bool {
        self.data.encodes_to(outcome)
    }

    fn to_bytes(&self) -> (r: Result<Vec<u8>, Error>) {
        self.data.to_bytes()
    }
}

impl FromBytes for String {
    /// Valid UTF-8 is read as the text it encodes; anything else is a
    /// `ByteConversion` error that carries std's description.
    open spec fn decodes(bytes: Seq<u8>, outcome: Result<String, Error>) -> bool {
        match outcome {
            Ok(s) => valid_utf8(bytes) && s@ == decode_utf8(bytes),
            Err(e) => !valid_utf8(bytes) && (e matches Error::ByteConversion(m) && m@
                == utf8_error_text(bytes)),
        }
    }

    fn from_bytes(bytes: &[u8]) -> (r: Result<String, Error>) {
        match string_from_utf8(slice_to_vec(bytes)) {
            Ok(s) => Ok(s),
            Err(m) => Err(Error::ByteConversion(m)),
        }
    }
}

impl FromBytes for Vec<u8> {
    /// Bytes are read as themselves, always successfully.
    open spec fn decodes(bytes: Seq<u8>, outcome: Result<Vec<u8>, Error>) -> bool {
        outcome matches Ok(v) && v@ == bytes
    }

    fn from_bytes(bytes: &[u8]) -> (r: Result<Vec<u8>, Error>) {
        Ok(slice_to_vec(bytes))
    }
}

} // verus!
