use typelock::{
    CryptoProvider, Decrypted, DigestProvider, Encrypted, FromBytes, IndexProvider, Lockable,
    MacProvider, SecretProvider, SignProvider, ToBytes, Unlockable,
};

pub struct PolicyProvider;

impl IndexProvider for PolicyProvider {
    fn index(&self, data: &[u8]) -> Result<Vec<u8>, typelock::Error> {
        let mut out = b"indexed:".to_vec();
        out.extend_from_slice(data);
        Ok(out)
    }
}

impl CryptoProvider for PolicyProvider {
    fn encrypt(&self, data: &[u8]) -> std::result::Result<Vec<u8>, typelock::Error> {
        let mut out = b"encrypted:".to_vec();
        out.extend_from_slice(data);
        Ok(out)
    }

    fn decrypt(&self, data: &[u8]) -> std::result::Result<Vec<u8>, typelock::Error> {
        data.strip_prefix(b"encrypted:")
            .map(|payload| payload.to_vec())
            .ok_or_else(|| typelock::Error::Decryption("could not decrypt".to_string()))
    }
}

impl SecretProvider for PolicyProvider {
    fn hash_secret(&self, data: &[u8]) -> std::result::Result<Vec<u8>, typelock::Error> {
        let mut out = b"secret:".to_vec();
        out.extend_from_slice(data);
        Ok(out)
    }
}

impl DigestProvider for PolicyProvider {
    fn digest(&self, data: &[u8]) -> Result<Vec<u8>, typelock::Error> {
        let mut out = b"digest:".to_vec();
        out.extend_from_slice(data);
        Ok(out)
    }
}

impl SignProvider for PolicyProvider {
    fn sign(&self, data: &[u8]) -> Result<Vec<u8>, typelock::Error> {
        let mut out = b"sig:".to_vec();
        out.extend_from_slice(data);
        Ok(out)
    }

    fn verify_signature(&self, data: &[u8]) -> Result<Vec<u8>, typelock::Error> {
        data.strip_prefix(b"sig:")
            .map(|payload| payload.to_vec())
            .ok_or_else(|| typelock::Error::SignatureVerification("invalid signature".to_string()))
    }
}

impl MacProvider for PolicyProvider {
    fn tag(&self, data: &[u8]) -> Result<Vec<u8>, typelock::Error> {
        let mut out = b"mac:".to_vec();
        out.extend_from_slice(data);
        Ok(out)
    }

    fn verify_mac(&self, data: &[u8]) -> Result<Vec<u8>, typelock::Error> {
        data.strip_prefix(b"mac:")
            .map(|payload| payload.to_vec())
            .ok_or_else(|| typelock::Error::MacVerification("invalid mac".to_string()))
    }
}

// The schema, with the models and conversions that `LockSchema` generates for
// `#[typelock(locked(name = LockedUser), unlocked(name = UnlockedUser))]`.
#[derive(Clone)]
struct User {
    user_data: UserDataEnvelope,
}

struct UnlockedUser {
    user_data: Decrypted<UserDataEnvelope>,
}

struct LockedUser {
    user_data: Encrypted<UserDataEnvelope>,
}

impl<P> Lockable<P> for User
where
    P: CryptoProvider,
{
    type Output = LockedUser;

    fn lock(self, provider: &P) -> Result<Self::Output, typelock::Error> {
        let user_data = typelock::encrypt_field(&self.user_data, provider)?;
        Ok(LockedUser { user_data })
    }
}

impl<P> Unlockable<P> for LockedUser
where
    P: CryptoProvider,
{
    type Output = UnlockedUser;

    fn unlock(self, provider: &P) -> Result<Self::Output, typelock::Error> {
        let user_data = typelock::decrypt_field(&self.user_data, provider)?;
        Ok(UnlockedUser { user_data })
    }
}

#[derive(Clone)]
enum UserDataEnvelope {
    V1(UserData),
}

#[derive(Clone)]
struct UserData {
    first_name: String,
    last_name: String,
}

// The variant's index, then its fields, as wincode lays out an enum.
impl ToBytes for UserDataEnvelope {
    fn to_bytes(&self) -> Result<Vec<u8>, typelock::Error> {
        let UserDataEnvelope::V1(data) = self;
        typelock::wincode::serialize(&(0u32, data.first_name.clone(), data.last_name.clone()))
            .map_err(|e| typelock::Error::Wincode(e.to_string()))
    }
}

impl FromBytes for UserDataEnvelope {
    fn from_bytes(bytes: &[u8]) -> Result<Self, typelock::Error> {
        let (variant, first_name, last_name): (u32, String, String) =
            typelock::wincode::deserialize(bytes)
                .map_err(|e| typelock::Error::Wincode(e.to_string()))?;
        match variant {
            0 => Ok(UserDataEnvelope::V1(UserData { first_name, last_name })),
            _ => Err(typelock::Error::Wincode("unknown variant".to_string())),
        }
    }
}

#[test]
fn test_enum_encryption() {
    let provider = PolicyProvider;
    let user = User {
        user_data: UserDataEnvelope::V1(UserData {
            first_name: "first_name".to_string(),
            last_name: "last_name".to_string(),
        }),
    };

    let locked_user = user.clone().lock(&provider).unwrap();
    let unlocked_user = locked_user.unlock(&provider).unwrap();

    let (UserDataEnvelope::V1(original), UserDataEnvelope::V1(decrypted)) =
        (&user.user_data, &*unlocked_user.user_data);

    assert_eq!(original.first_name, decrypted.first_name);
    assert_eq!(original.last_name, decrypted.last_name);
}
