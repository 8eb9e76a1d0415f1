//! Type-level security boundaries for data models.
//!
//! A schema struct describes a model whose fields carry security policies
//! (`encrypt`, `secret`, `digest`, `sign`, `mac`, `index`). From it, the
//! `LockSchema` derive generates a locked and an unlocked model, and the
//! conversions between them, which call the field transformations of this
//! library with a user-supplied security provider.

mod codec;
mod error;
mod fields;
mod model;
mod schema;
mod text;
mod traits;
mod types;

pub use wincode;

pub use codec::{generate_from_bytes, generate_to_bytes, FromBytesReceiver, ToBytesReceiver};
pub use error::Error;
pub use fields::{
    decrypt_field, digest_field, encrypt_field, hash_secret_field, index_field, sign_field,
    tag_field, verify_signed_field, verify_tagged_field,
};
pub use schema::{
    gen_locked_model, gen_schema_model_impl, gen_unlocked_model, generate, get_attributes,
    get_derives, get_field_rename, get_field_type, get_policy_providers, LockSchemaReceiver,
    ModelKind, ModelSettings, SchemaData, SecurePolicy, SecureReceiver,
};
pub use traits::{
    CryptoProvider, DigestProvider, FromBytes, IndexProvider, Lockable, MacProvider,
    SecretProvider, SignProvider, ToBytes, Unlockable,
};
pub use types::{Decrypted, Digested, Encrypted, Indexed, Secret, Signed, Tagged, Verified};
