//! The per-field transformations of model conversion. A locked model is built
//! field by field: each secured field is serialized, handed to its provider,
//! and the answer is wrapped in the type of its policy. Unlocking decrypts
//! encrypted fields, verifies signed and MAC-tagged fields, and reads the
//! value back; the laws at the end relate the two directions.
use std::ops::Deref;
use vstd::prelude::*;

use crate::error::Error;
use crate::traits::{
    CryptoProvider, DigestProvider, FromBytes, IndexProvider, MacProvider, SecretProvider,
    SignProvider, ToBytes, bytes_outcome,
};
use crate::types::{Decrypted, Digested, Encrypted, Indexed, Secret, Signed, Tagged, Verified};

verus! {

/// The answers that one provider operation may give for given bytes.
pub type ProviderOp = spec_fn(Seq<u8>, Result<Seq<u8>, Error>) -> bool;

/// The bytes of a wrapped result, or its error.
pub open spec fn wrapped_outcome<W: View<V = Seq<u8>>>(r: Result<W, Error>) -> Result<
    Seq<u8>,
    Error,
> {
    match r {
        Ok(w) => Ok(w@),
        Err(e) => Err(e),
    }
}

/// The value held by a decrypted result, or its error.
pub open spec fn data_outcome<T>(r: Result<Decrypted<T>, Error>) -> Result<T, Error> {
    match r {
        Ok(d) => Ok(d.data),
        Err(e) => Err(e),
    }
}

/// The value held by a verified result, or its error.
pub open spec fn verified_outcome<T>(r: Result<Verified<T>, Error>) -> Result<T, Error> {
    match r {
        Ok(d) => Ok(d.data),
        Err(e) => Err(e),
    }
}

/// Indexing with `p`.
pub open spec fn index_op<P: IndexProvider>(p: &P) -> ProviderOp {
    |d: Seq<u8>, o: Result<Seq<u8>, Error>| p.index_outcome(d, o)
}

/// Encrypting with `p`.
pub open spec fn encrypt_op<P: CryptoProvider>(p: &P) -> ProviderOp {
    |d: Seq<u8>, o: Result<Seq<u8>, Error>| p.encrypt_outcome(d, o)
}

/// Decrypting with `p`.
pub open spec fn decrypt_op<P: CryptoProvider>(p: &P) -> ProviderOp {
    |d: Seq<u8>, o: Result<Seq<u8>, Error>| p.decrypt_outcome(d, o)
}

/// Secret-hashing with `p`.
pub open spec fn hash_secret_op<P: SecretProvider>(p: &P) -> ProviderOp {
    |d: Seq<u8>, o: Result<Seq<u8>, Error>| p.hash_secret_outcome(d, o)
}

/// Digesting with `p`.
pub open spec fn digest_op<P: DigestProvider>(p: &P) -> ProviderOp {
    |d: Seq<u8>, o: Result<Seq<u8>, Error>| p.digest_outcome(d, o)
}

/// Signing with `p`.
pub open spec fn sign_op<P: SignProvider>(p: &P) -> ProviderOp {
    |d: Seq<u8>, o: Result<Seq<u8>, Error>| p.sign_outcome(d, o)
}

/// Verifying a signed payload with `p`.
pub open spec fn verify_signature_op<P: SignProvider>(p: &P) -> ProviderOp {
    |d: Seq<u8>, o: Result<Seq<u8>, Error>| p.verify_signature_outcome(d, o)
}

/// MAC-tagging with `p`.
pub open spec fn tag_op<P: MacProvider>(p: &P) -> ProviderOp {
    |d: Seq<u8>, o: Result<Seq<u8>, Error>| p.tag_outcome(d, o)
}

/// Verifying a MAC-tagged payload with `p`.
pub open spec fn verify_mac_op<P: MacProvider>(p: &P) -> ProviderOp {
    |d: Seq<u8>, o: Result<Seq<u8>, Error>| p.verify_mac_outcome(d, o)
}

/// Locking a field through one provider operation: the value is serialized;
/// a serialization error is passed on unchanged, otherwise the answer is one
/// that `op` allows for the serialized bytes.
pub open spec fn field_outcome<S: ToBytes>(value: &S, op: ProviderOp, outcome: Result<
    Seq<u8>,
    Error,
>) -> bool {
    exists|e: Result<Seq<u8>, Error>|
        #[trigger] value.encodes_to(e) && match e {
            Err(err) => outcome == Err::<Seq<u8>, Error>(err),
            Ok(plain) => op(plain, outcome),
        }
}

/// Unlocking a field through one provider operation: an error of `op` is
/// passed on unchanged; otherwise the result is what reading its answer gives.
pub open spec fn read_back_outcome<T: FromBytes>(
    locked: Seq<u8>,
    op: ProviderOp,
    outcome: Result<T, Error>,
) -> bool {
    exists|o: Result<Seq<u8>, Error>|
        #[trigger] op(locked, o) && match o {
            Err(e) => outcome == Err::<T, Error>(e),
            Ok(plain) => T::decodes(plain, outcome),
        }
}

/// Serializes `value` and derives its index with the provider.
pub fn index_field<S: ToBytes, T, P: IndexProvider>(value: &S, provider: &P) -> (r: Result<
    Indexed<T>,
    Error,
>)
    ensures
        field_outcome(
            value,
            index_op(provider),
            wrapped_outcome(r),
        ),
{
    let bytes = match value.to_bytes() {
        Ok(b) => b,
        Err(e) => return Err(e),
    };
    match provider.index(bytes.as_slice()) {
        Ok(b) => Ok(Indexed::new(b)),
        Err(e) => Err(e),
    }
}

/// Serializes `value` and encrypts it with the provider.
pub fn encrypt_field<S: ToBytes, T, P: CryptoProvider>(value: &S, provider: &P) -> (r: Result<
    Encrypted<T>,
    Error,
>)
    ensures
        field_outcome(value, encrypt_op(provider), wrapped_outcome(r)),
{
    let bytes = match value.to_bytes() {
        Ok(b) => b,
        Err(e) => return Err(e),
    };
    match provider.encrypt(bytes.as_slice()) {
        Ok(b) => Ok(Encrypted::new(b)),
        Err(e) => Err(e),
    }
}

/// Serializes `value` and hashes it one-way with the provider.
pub fn hash_secret_field<S: ToBytes, T, P: SecretProvider>(value: &S, provider: &P) -> (r:
    Result<Secret<T>, Error>)
    ensures
        field_outcome(
            value,
            hash_secret_op(provider),
            wrapped_outcome(r),
        ),
{
    let bytes = match value.to_bytes() {
        Ok(b) => b,
        Err(e) => return Err(e),
    };
    match provider.hash_secret(bytes.as_slice()) {
        Ok(b) => Ok(Secret::new(b)),
        Err(e) => Err(e),
    }
}

/// Serializes `value` and computes its digest with the provider.
pub fn digest_field<S: ToBytes, T, P: DigestProvider>(value: &S, provider: &P) -> (r: Result<
    Digested<T>,
    Error,
>)
    ensures
        field_outcome(
            value,
            digest_op(provider),
            wrapped_outcome(r),
        ),
{
    let bytes = match value.to_bytes() {
        Ok(b) => b,
        Err(e) => return Err(e),
    };
    match provider.digest(bytes.as_slice()) {
        Ok(b) => Ok(Digested::new(b)),
        Err(e) => Err(e),
    }
}

/// Serializes `value` and signs it with the provider.
pub fn sign_field<S: ToBytes, T, P: SignProvider>(value: &S, provider: &P) -> (r: Result<
    Signed<T>,
    Error,
>)
    ensures
        field_outcome(
            value,
            sign_op(provider),
            wrapped_outcome(r),
        ),
{
    let bytes = match value.to_bytes() {
        Ok(b) => b,
        Err(e) => return Err(e),
    };
    match provider.sign(bytes.as_slice()) {
        Ok(b) => Ok(Signed::new(b)),
        Err(e) => Err(e),
    }
}

/// Serializes `value` and attaches a MAC tag with the provider.
pub fn tag_field<S: ToBytes, T, P: MacProvider>(value: &S, provider: &P) -> (r: Result<
    Tagged<T>,
    Error,
>)
    ensures
        field_outcome(
            value,
            tag_op(provider),
            wrapped_outcome(r),
        ),
{
    let bytes = match value.to_bytes() {
        Ok(b) => b,
        Err(e) => return Err(e),
    };
    match provider.tag(bytes.as_slice()) {
        Ok(b) => Ok(Tagged::new(b)),
        Err(e) => Err(e),
    }
}

/// Decrypts an encrypted field with the provider and reads the value back.
pub fn decrypt_field<T: FromBytes, P: CryptoProvider>(locked: &Encrypted<T>, provider: &P) -> (r:
    Result<Decrypted<T>, Error>)
    ensures
        read_back_outcome(locked@, decrypt_op(provider), data_outcome(r)),
{
    let answer = provider.decrypt(locked.deref().as_slice());
    assert(decrypt_op(provider)(locked@, bytes_outcome(answer)));
    let plain = match answer {
        Ok(b) => b,
        Err(e) => return Err(e),
    };
    match T::from_bytes(plain.as_slice()) {
        Ok(data) => Ok(Decrypted::new(data)),
        Err(e) => Err(e),
    }
}

/// Verifies a signed field with the provider and reads the payload back.
pub fn verify_signed_field<T: FromBytes, P: SignProvider>(locked: &Signed<T>, provider: &P) -> (r:
    Result<Verified<T>, Error>)
    ensures
        read_back_outcome(locked@, verify_signature_op(provider), verified_outcome(r)),
{
    let answer = provider.verify_signature(locked.deref().as_slice());
    assert(verify_signature_op(provider)(locked@, bytes_outcome(answer)));
    let payload = match answer {
        Ok(b) => b,
        Err(e) => return Err(e),
    };
    match T::from_bytes(payload.as_slice()) {
        Ok(data) => Ok(Verified::new(data)),
        Err(e) => Err(e),
    }
}

/// Verifies a MAC-tagged field with the provider and reads the payload back.
pub fn verify_tagged_field<T: FromBytes, P: MacProvider>(locked: &Tagged<T>, provider: &P) -> (r:
    Result<Verified<T>, Error>)
    ensures
        read_back_outcome(locked@, verify_mac_op(provider), verified_outcome(r)),
{
    let answer = provider.verify_mac(locked.deref().as_slice());
    assert(verify_mac_op(provider)(locked@, bytes_outcome(answer)));
    let payload = match answer {
        Ok(b) => b,
        Err(e) => return Err(e),
    };
    match T::from_bytes(payload.as_slice()) {
        Ok(data) => Ok(Verified::new(data)),
        Err(e) => Err(e),
    }
}

/// Holds when reading back (`open`) what locking (`seal`) produced from some
/// bytes gives exactly those bytes.
pub open spec fn opens_what_it_seals(seal: ProviderOp, open: ProviderOp) -> bool {
    forall|plain: Seq<u8>, locked: Seq<u8>, o: Result<Seq<u8>, Error>|
        #![trigger seal(plain, Ok(locked)), open(locked, o)]
        seal(plain, Ok(locked)) && open(locked, o) ==> o == Ok::<Seq<u8>, Error>(plain)
}

/// Holds when locking (`seal`) what reading back (`open`) gave from some
/// locked bytes gives exactly those locked bytes.
pub open spec fn seals_what_it_opens(seal: ProviderOp, open: ProviderOp) -> bool {
    forall|locked: Seq<u8>, plain: Seq<u8>, o: Result<Seq<u8>, Error>|
        #![trigger open(locked, Ok(plain)), seal(plain, o)]
        open(locked, Ok(plain)) && seal(plain, o) ==> o == Ok::<Seq<u8>, Error>(locked)
}

/// Holds when locking the same bytes always gives the same answer.
pub open spec fn seals_deterministically(seal: ProviderOp) -> bool {
    forall|plain: Seq<u8>, o1: Result<Seq<u8>, Error>, o2: Result<Seq<u8>, Error>|
        #![trigger seal(plain, o1), seal(plain, o2)]
        seal(plain, o1) && seal(plain, o2) ==> o1 == o2
}

/// Holds when reading back the bytes that `value` serializes to gives
/// exactly `value`.
pub open spec fn reads_back<T: ToBytes + FromBytes>(value: T) -> bool {
    forall|plain: Seq<u8>, o: Result<T, Error>|
        #![trigger value.encodes_to(Ok(plain)), T::decodes(plain, o)]
        value.encodes_to(Ok(plain)) && T::decodes(plain, o) ==> o == Ok::<T, Error>(value)
}

/// Holds when every value read from some bytes serializes to exactly those
/// bytes again.
pub open spec fn writes_back<T: ToBytes + FromBytes>() -> bool {
    forall|plain: Seq<u8>, x: T, e: Result<Seq<u8>, Error>|
        #![trigger T::decodes(plain, Ok(x)), x.encodes_to(e)]
        T::decodes(plain, Ok(x)) && x.encodes_to(e) ==> e == Ok::<Seq<u8>, Error>(plain)
}

/// Unlocking undoes locking: when reading back gives the bytes that locking
/// was given, unlocking a locked field yields what reading the value's own
/// serialized bytes yields.
pub proof fn lemma_read_back_undoes_lock<S: ToBytes, T: FromBytes>(
    seal: ProviderOp,
    open: ProviderOp,
    value: &S,
    locked: Seq<u8>,
    unlocked: Result<T, Error>,
)
    requires
        opens_what_it_seals(seal, open),
        field_outcome(value, seal, Ok(locked)),
        read_back_outcome(locked, open, unlocked),
    ensures
        exists|plain: Seq<u8>| #[trigger] value.encodes_to(Ok(plain)) && T::decodes(plain, unlocked),
{
    let e = choose|e: Result<Seq<u8>, Error>|
        #[trigger] value.encodes_to(e) && match e {
            Err(err) => Ok::<Seq<u8>, Error>(locked) == Err::<Seq<u8>, Error>(err),
            Ok(plain) => seal(plain, Ok(locked)),
        };
    let plain = e->Ok_0;
    let o = choose|o: Result<Seq<u8>, Error>|
        #[trigger] open(locked, o) && match o {
            Err(err) => unlocked == Err::<T, Error>(err),
            Ok(p) => T::decodes(p, unlocked),
        };
    assert(seal(plain, Ok(locked)));
    assert(value.encodes_to(Ok(plain)));
}

/// Unlocking a locked field gives back exactly the value that was locked,
/// when reading back gives the bytes that locking was given and the value
/// reads back from its own serialized bytes.
pub proof fn lemma_unlock_gives_back_value<T: ToBytes + FromBytes>(
    seal: ProviderOp,
    open: ProviderOp,
    value: T,
    locked: Seq<u8>,
    unlocked: Result<T, Error>,
)
    requires
        opens_what_it_seals(seal, open),
        reads_back(value),
        field_outcome(&value, seal, Ok(locked)),
        read_back_outcome(locked, open, unlocked),
    ensures
        unlocked == Ok::<T, Error>(value),
{
    lemma_read_back_undoes_lock::<T, T>(seal, open, &value, locked, unlocked);
    let plain = choose|plain: Seq<u8>|
        #[trigger] value.encodes_to(Ok(plain)) && T::decodes(plain, unlocked);
}

/// Locking again what unlocking gave reproduces the locked field, when
/// reading back gives the bytes that locking was given, locking is
/// deterministic, and values read from bytes serialize to those bytes again.
pub proof fn lemma_relock_gives_same_locked<S: ToBytes, T: ToBytes + FromBytes>(
    seal: ProviderOp,
    open: ProviderOp,
    value: &S,
    locked: Seq<u8>,
    unlocked: T,
    relocked: Result<Seq<u8>, Error>,
)
    requires
        opens_what_it_seals(seal, open),
        seals_deterministically(seal),
        writes_back::<T>(),
        field_outcome(value, seal, Ok(locked)),
        read_back_outcome(locked, open, Ok::<T, Error>(unlocked)),
        field_outcome(&unlocked, seal, relocked),
    ensures
        relocked == Ok::<Seq<u8>, Error>(locked),
{
    lemma_read_back_undoes_lock::<S, T>(seal, open, value, locked, Ok(unlocked));
    let plain = choose|plain: Seq<u8>|
        #[trigger] value.encodes_to(Ok(plain)) && T::decodes(plain, Ok::<T, Error>(unlocked));
    let e1 = choose|e: Result<Seq<u8>, Error>|
        #[trigger] value.encodes_to(e) && match e {
            Err(err) => Ok::<Seq<u8>, Error>(locked) == Err::<Seq<u8>, Error>(err),
            Ok(p) => seal(p, Ok(locked)),
        };
    let o = choose|o: Result<Seq<u8>, Error>|
        #[trigger] open(locked, o) && match o {
            Err(err) => Ok::<T, Error>(unlocked) == Err::<T, Error>(err),
            Ok(p) => T::decodes(p, Ok::<T, Error>(unlocked)),
        };
    assert(seal(e1->Ok_0, Ok(locked)));
    assert(o == Ok::<Seq<u8>, Error>(e1->Ok_0));
    let e2 = choose|e: Result<Seq<u8>, Error>|
        #[trigger] unlocked.encodes_to(e) && match e {
            Err(err) => relocked == Err::<Seq<u8>, Error>(err),
            Ok(p) => seal(p, relocked),
        };
    assert(T::decodes(e1->Ok_0, Ok::<T, Error>(unlocked)));
    assert(e2 == Ok::<Seq<u8>, Error>(e1->Ok_0));
    assert(seal(e1->Ok_0, relocked));
}

/// Unlocking a locked field and locking the result again gives back the
/// locked field, when locking what reading back gave reproduces the locked
/// bytes and values read from bytes serialize to those bytes again.
pub proof fn lemma_unlock_relock_keeps_locked<T: ToBytes + FromBytes>(
    seal: ProviderOp,
    open: ProviderOp,
    locked: Seq<u8>,
    unlocked: T,
    relocked: Result<Seq<u8>, Error>,
)
    requires
        seals_what_it_opens(seal, open),
        writes_back::<T>(),
        read_back_outcome(locked, open, Ok::<T, Error>(unlocked)),
        field_outcome(&unlocked, seal, relocked),
    ensures
        relocked == Ok::<Seq<u8>, Error>(locked),
{
    let o = choose|o: Result<Seq<u8>, Error>|
        #[trigger] open(locked, o) && match o {
            Err(err) => Ok::<T, Error>(unlocked) == Err::<T, Error>(err),
            Ok(p) => T::decodes(p, Ok::<T, Error>(unlocked)),
        };
    let plain = o->Ok_0;
    assert(open(locked, Ok(plain)));
    let e = choose|e: Result<Seq<u8>, Error>|
        #[trigger] unlocked.encodes_to(e) && match e {
            Err(err) => relocked == Err::<Seq<u8>, Error>(err),
            Ok(p) => seal(p, relocked),
        };
    assert(T::decodes(plain, Ok::<T, Error>(unlocked)));
    assert(e == Ok::<Seq<u8>, Error>(plain));
    assert(seal(plain, relocked));
}

/// Locking a decrypted or verified field locks the same bytes as locking the
/// value it holds.
pub proof fn lemma_wrapped_value_locks_alike<T: ToBytes>(
    op: ProviderOp,
    value: T,
    outcome: Result<Seq<u8>, Error>,
)
    ensures
        field_outcome(&Decrypted { data: value }, op, outcome) == field_outcome(&value, op, outcome),
        field_outcome(&Verified { data: value }, op, outcome) == field_outcome(&value, op, outcome),
{
    let d = Decrypted { data: value };
    let v = Verified { data: value };
    if field_outcome(&value, op, outcome) {
        let e = choose|e: Result<Seq<u8>, Error>|
            #[trigger] value.encodes_to(e) && match e {
                Err(err) => outcome == Err::<Seq<u8>, Error>(err),
                Ok(plain) => op(plain, outcome),
            };
        assert(d.encodes_to(e));
        assert(v.encodes_to(e));
    }
    if field_outcome(&d, op, outcome) {
        let e = choose|e: Result<Seq<u8>, Error>|
            #[trigger] d.encodes_to(e) && match e {
                Err(err) => outcome == Err::<Seq<u8>, Error>(err),
                Ok(plain) => op(plain, outcome),
            };
        assert(value.encodes_to(e));
    }
    if field_outcome(&v, op, outcome) {
        let e = choose|e: Result<Seq<u8>, Error>|
            #[trigger] v.encodes_to(e) && match e {
                Err(err) => outcome == Err::<Seq<u8>, Error>(err),
                Ok(plain) => op(plain, outcome),
            };
        assert(value.encodes_to(e));
    }
}

/// A string read back from its own serialized bytes is the same text.
pub proof fn lemma_string_bytes_round_trip(s: String, bytes: Seq<u8>, outcome: Result<String, Error>)
    requires
        s.encodes_to(Ok(bytes)),
        String::decodes(bytes, outcome),
    ensures
        outcome matches Ok(t) && t@ == s@,
{
    broadcast use vstd::utf8::encode_utf8_valid_utf8, vstd::utf8::encode_utf8_decode_utf8;

}

/// A string read from bytes serializes to exactly those bytes again, and so
/// does a byte vector.
pub proof fn lemma_strings_and_bytes_write_back()
    ensures
        writes_back::<String>(),
        writes_back::<Vec<u8>>(),
{
    broadcast use vstd::utf8::decode_utf8_encode_utf8;

}

/// A locked string field unlocks to the text that was locked, when reading
/// back gives the bytes that locking was given.
pub proof fn lemma_string_field_round_trip(
    seal: ProviderOp,
    open: ProviderOp,
    value: String,
    locked: Seq<u8>,
    unlocked: Result<String, Error>,
)
    requires
        opens_what_it_seals(seal, open),
        field_outcome(&value, seal, Ok(locked)),
        read_back_outcome(locked, open, unlocked),
    ensures
        unlocked matches Ok(t) && t@ == value@,
{
    lemma_read_back_undoes_lock::<String, String>(seal, open, &value, locked, unlocked);
    let plain = choose|plain: Seq<u8>|
        #[trigger] value.encodes_to(Ok(plain)) && String::decodes(plain, unlocked);
    lemma_string_bytes_round_trip(value, plain, unlocked);
}

} // verus!
