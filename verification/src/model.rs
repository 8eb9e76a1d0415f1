//! Whole-model conversions, field by field. A generated conversion runs one
//! statement per field (see `schema`); here a model is the sequence of its
//! fields' bytes (a field with a policy by its serialized bytes, a plain field
//! by itself), and each conversion is the sequence of the per-field steps that
//! the generated statements take when every one of them succeeds.
use vstd::prelude::*;

use crate::error::Error;
use crate::fields::{
    field_outcome, read_back_outcome,
    decrypt_op, digest_op, encrypt_op, hash_secret_op, index_op, opens_what_it_seals,
    seals_deterministically, seals_what_it_opens, sign_op, tag_op, verify_mac_op,
    verify_signature_op, ProviderOp,
};
use crate::schema::{opened_on_unlock, SecurePolicy};
use crate::traits::{
    FromBytes, ToBytes, CryptoProvider, DigestProvider, IndexProvider, MacProvider, SecretProvider, SignProvider,
};

verus! {

/// The provider operation that locks a field of each policy.
pub open spec fn seals_with<
    P: IndexProvider + CryptoProvider + SecretProvider + DigestProvider + SignProvider + MacProvider,
>(p: &P) -> spec_fn(SecurePolicy) -> ProviderOp {
    |policy: SecurePolicy|
        match policy {
            SecurePolicy::Plain => |d: Seq<u8>, o: Result<Seq<u8>, Error>| false,
            SecurePolicy::Index => index_op(p),
            SecurePolicy::Encrypt => encrypt_op(p),
            SecurePolicy::Secret => hash_secret_op(p),
            SecurePolicy::Digest => digest_op(p),
            SecurePolicy::Sign => sign_op(p),
            SecurePolicy::Mac => tag_op(p),
        }
}

/// The provider operation that reads back a field of each policy that
/// unlocking opens.
pub open spec fn opens_with<P: CryptoProvider + SignProvider + MacProvider>(p: &P) -> spec_fn(
    SecurePolicy,
) -> ProviderOp {
    |policy: SecurePolicy|
        match policy {
            SecurePolicy::Encrypt => decrypt_op(p),
            SecurePolicy::Sign => verify_signature_op(p),
            SecurePolicy::Mac => verify_mac_op(p),
            _ => |d: Seq<u8>, o: Result<Seq<u8>, Error>| false,
        }
}

/// Locking one field of the schema: a plain field is moved, any other is
/// locked by its policy's operation.
pub open spec fn locks_field(
    seal_of: spec_fn(SecurePolicy) -> ProviderOp,
    policy: SecurePolicy,
    plain: Seq<u8>,
    locked: Seq<u8>,
) -> bool {
    if policy == SecurePolicy::Plain {
        locked == plain
    } else {
        seal_of(policy)(plain, Ok(locked))
    }
}

/// Unlocking one field: a field that unlocking opens is read back by its
/// policy's operation, any other is moved.
pub open spec fn unlocks_field(
    open_of: spec_fn(SecurePolicy) -> ProviderOp,
    policy: SecurePolicy,
    locked: Seq<u8>,
    unlocked: Seq<u8>,
) -> bool {
    if opened_on_unlock(policy) {
        open_of(policy)(locked, Ok(unlocked))
    } else {
        unlocked == locked
    }
}

/// Locking one field of the unlocked model: a field that unlocking opened is
/// locked again by its policy's operation, any other is moved.
pub open spec fn relocks_field(
    seal_of: spec_fn(SecurePolicy) -> ProviderOp,
    policy: SecurePolicy,
    unlocked: Seq<u8>,
    relocked: Seq<u8>,
) -> bool {
    if opened_on_unlock(policy) {
        seal_of(policy)(unlocked, Ok(relocked))
    } else {
        relocked == unlocked
    }
}

/// Locking the schema struct into the locked model, every field stepping.
pub open spec fn locks_model(
    seal_of: spec_fn(SecurePolicy) -> ProviderOp,
    policies: Seq<SecurePolicy>,
    plain: Seq<Seq<u8>>,
    locked: Seq<Seq<u8>>,
) -> bool {
    &&& plain.len() == policies.len()
    &&& locked.len() == policies.len()
    &&& forall|i: int|
        0 <= i < policies.len() ==> #[trigger] locks_field(seal_of, policies[i], plain[i], locked[i])
}

/// Unlocking the locked model into the unlocked model, every field stepping.
pub open spec fn unlocks_model(
    open_of: spec_fn(SecurePolicy) -> ProviderOp,
    policies: Seq<SecurePolicy>,
    locked: Seq<Seq<u8>>,
    unlocked: Seq<Seq<u8>>,
) -> bool {
    &&& locked.len() == policies.len()
    &&& unlocked.len() == policies.len()
    &&& forall|i: int|
        0 <= i < policies.len() ==> #[trigger] unlocks_field(
            open_of,
            policies[i],
            locked[i],
            unlocked[i],
        )
}

/// Locking the unlocked model into the locked model, every field stepping.
pub open spec fn relocks_model(
    seal_of: spec_fn(SecurePolicy) -> ProviderOp,
    policies: Seq<SecurePolicy>,
    unlocked: Seq<Seq<u8>>,
    relocked: Seq<Seq<u8>>,
) -> bool {
    &&& unlocked.len() == policies.len()
    &&& relocked.len() == policies.len()
    &&& forall|i: int|
        0 <= i < policies.len() ==> #[trigger] relocks_field(
            seal_of,
            policies[i],
            unlocked[i],
            relocked[i],
        )
}

/// Locking a model and unlocking it gives back the schema's fields: plain
/// fields and the fields that unlocking opens come back as they were locked,
/// and one-way fields (index, secret, digest) hold the locked bytes; this
/// when each opening operation reads back what its locking operation
/// produced.
pub proof fn lemma_model_unlock_undoes_lock(
    seal_of: spec_fn(SecurePolicy) -> ProviderOp,
    open_of: spec_fn(SecurePolicy) -> ProviderOp,
    policies: Seq<SecurePolicy>,
    plain: Seq<Seq<u8>>,
    locked: Seq<Seq<u8>>,
    unlocked: Seq<Seq<u8>>,
)
    requires
        forall|p: SecurePolicy|
            opened_on_unlock(p) ==> opens_what_it_seals(#[trigger] seal_of(p), open_of(p)),
        locks_model(seal_of, policies, plain, locked),
        unlocks_model(open_of, policies, locked, unlocked),
    ensures
        unlocked.len() == policies.len(),
        forall|i: int|
            0 <= i < policies.len() ==> #[trigger] unlocked[i] == if opened_on_unlock(policies[i])
                || policies[i] == SecurePolicy::Plain {
                plain[i]
            } else {
                locked[i]
            },
{
    assert forall|i: int| 0 <= i < policies.len() implies #[trigger] unlocked[i] == if opened_on_unlock(
        policies[i],
    ) || policies[i] == SecurePolicy::Plain {
        plain[i]
    } else {
        locked[i]
    } by {
        let p = policies[i];
        assert(locks_field(seal_of, p, plain[i], locked[i]));
        assert(unlocks_field(open_of, p, locked[i], unlocked[i]));
        if opened_on_unlock(p) {
            assert(opens_what_it_seals(seal_of(p), open_of(p)));
            assert(seal_of(p)(plain[i], Ok(locked[i])));
            assert(open_of(p)(locked[i], Ok(unlocked[i])));
        }
    }
}

/// Locking a model, unlocking it and locking the result again gives the same
/// locked model, when each opening operation reads back what its locking
/// operation produced and those locking operations are deterministic.
pub proof fn lemma_model_relock_gives_same_locked(
    seal_of: spec_fn(SecurePolicy) -> ProviderOp,
    open_of: spec_fn(SecurePolicy) -> ProviderOp,
    policies: Seq<SecurePolicy>,
    plain: Seq<Seq<u8>>,
    locked: Seq<Seq<u8>>,
    unlocked: Seq<Seq<u8>>,
    relocked: Seq<Seq<u8>>,
)
    requires
        forall|p: SecurePolicy|
            opened_on_unlock(p) ==> opens_what_it_seals(#[trigger] seal_of(p), open_of(p)),
        forall|p: SecurePolicy| opened_on_unlock(p) ==> seals_deterministically(#[trigger] seal_of(p)),
        locks_model(seal_of, policies, plain, locked),
        unlocks_model(open_of, policies, locked, unlocked),
        relocks_model(seal_of, policies, unlocked, relocked),
    ensures
        relocked == locked,
{
    lemma_model_unlock_undoes_lock(seal_of, open_of, policies, plain, locked, unlocked);
    assert forall|i: int| 0 <= i < policies.len() implies #[trigger] relocked[i] == locked[i] by {
        let p = policies[i];
        assert(locks_field(seal_of, p, plain[i], locked[i]));
        assert(relocks_field(seal_of, p, unlocked[i], relocked[i]));
        assert(unlocked[i] == if opened_on_unlock(p) || p == SecurePolicy::Plain {
            plain[i]
        } else {
            locked[i]
        });
        if opened_on_unlock(p) {
            assert(seals_deterministically(seal_of(p)));
            assert(seal_of(p)(plain[i], Ok(locked[i])));
            assert(seal_of(p)(plain[i], Ok(relocked[i])));
        }
    }
    assert(relocked =~= locked);
}

/// Unlocking a locked model and locking the result again gives back the
/// locked model, when each locking operation, given what the matching opening
/// operation read back from some locked bytes, gives those bytes.
pub proof fn lemma_model_unlock_relock_keeps_locked(
    seal_of: spec_fn(SecurePolicy) -> ProviderOp,
    open_of: spec_fn(SecurePolicy) -> ProviderOp,
    policies: Seq<SecurePolicy>,
    locked: Seq<Seq<u8>>,
    unlocked: Seq<Seq<u8>>,
    relocked: Seq<Seq<u8>>,
)
    requires
        forall|p: SecurePolicy|
            opened_on_unlock(p) ==> seals_what_it_opens(#[trigger] seal_of(p), open_of(p)),
        unlocks_model(open_of, policies, locked, unlocked),
        relocks_model(seal_of, policies, unlocked, relocked),
    ensures
        relocked == locked,
{
    assert forall|i: int| 0 <= i < policies.len() implies #[trigger] relocked[i] == locked[i] by {
        let p = policies[i];
        assert(unlocks_field(open_of, p, locked[i], unlocked[i]));
        assert(relocks_field(seal_of, p, unlocked[i], relocked[i]));
        if opened_on_unlock(p) {
            assert(seals_what_it_opens(seal_of(p), open_of(p)));
            assert(open_of(p)(locked[i], Ok(unlocked[i])));
            assert(seal_of(p)(unlocked[i], Ok(relocked[i])));
        }
    }
    assert(relocked =~= locked);
}

/// A field function that locked `value` took one step of `locks_model`: from
/// the bytes that the value serializes to, to the locked bytes.
pub proof fn lemma_field_lock_is_model_step<S: ToBytes>(
    seal_of: spec_fn(SecurePolicy) -> ProviderOp,
    policy: SecurePolicy,
    value: &S,
    locked: Seq<u8>,
)
    requires
        policy != SecurePolicy::Plain,
        field_outcome(value, seal_of(policy), Ok(locked)),
    ensures
        exists|plain: Seq<u8>|
            #[trigger] value.encodes_to(Ok(plain)) && locks_field(seal_of, policy, plain, locked),
{
    let e = choose|e: Result<Seq<u8>, Error>|
        #[trigger] value.encodes_to(e) && match e {
            Err(err) => Ok::<Seq<u8>, Error>(locked) == Err::<Seq<u8>, Error>(err),
            Ok(plain) => seal_of(policy)(plain, Ok(locked)),
        };
    assert(value.encodes_to(Ok(e->Ok_0)) && locks_field(seal_of, policy, e->Ok_0, locked));
}

/// A field function that read back `value` from locked bytes took one step of
/// `unlocks_model`: from the locked bytes to the bytes that it read the value
/// from.
pub proof fn lemma_field_read_back_is_model_step<T: FromBytes>(
    open_of: spec_fn(SecurePolicy) -> ProviderOp,
    policy: SecurePolicy,
    locked: Seq<u8>,
    value: T,
)
    requires
        opened_on_unlock(policy),
        read_back_outcome(locked, open_of(policy), Ok::<T, Error>(value)),
    ensures
        exists|plain: Seq<u8>|
            #[trigger] T::decodes(plain, Ok::<T, Error>(value)) && unlocks_field(
                open_of,
                policy,
                locked,
                plain,
            ),
{
    let o = choose|o: Result<Seq<u8>, Error>|
        #[trigger] open_of(policy)(locked, o) && match o {
            Err(err) => Ok::<T, Error>(value) == Err::<T, Error>(err),
            Ok(p) => T::decodes(p, Ok::<T, Error>(value)),
        };
    assert(T::decodes(o->Ok_0, Ok::<T, Error>(value)) && unlocks_field(
        open_of,
        policy,
        locked,
        o->Ok_0,
    ));
}

} // verus!
