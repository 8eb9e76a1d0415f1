use typelock::{
    decrypt_field, digest_field, encrypt_field, gen_locked_model, gen_schema_model_impl,
    gen_unlocked_model, generate, generate_from_bytes, generate_to_bytes, get_attributes,
    get_derives, get_field_rename, get_field_type, get_policy_providers, hash_secret_field,
    index_field, sign_field, tag_field, verify_signed_field, verify_tagged_field, CryptoProvider, Decrypted, DigestProvider, Digested,
    Encrypted, Error, FromBytes, FromBytesReceiver, IndexProvider, Indexed, LockSchemaReceiver,
    Lockable, MacProvider, ModelKind, ModelSettings, SchemaData, Secret, SecretProvider,
    SecurePolicy, SecureReceiver, SignProvider, Signed, Tagged, ToBytes, ToBytesReceiver,
    Unlockable, Verified,
};

/// A provider that prefixes a marker for each operation and refuses inputs
/// that start with `!`.
struct MarkerProvider;

fn marked(marker: &[u8], data: &[u8]) -> Result<Vec<u8>, Error> {
    if data.first() == Some(&b'!') {
        return Err(Error::Encryption("refused".to_string()));
    }
    let mut out = marker.to_vec();
    out.extend_from_slice(data);
    Ok(out)
}

impl IndexProvider for MarkerProvider {
    fn index(&self, data: &[u8]) -> Result<Vec<u8>, Error> {
        marked(b"i:", data)
    }
}

impl CryptoProvider for MarkerProvider {
    fn encrypt(&self, data: &[u8]) -> Result<Vec<u8>, Error> {
        marked(b"e:", data)
    }

    fn decrypt(&self, data: &[u8]) -> Result<Vec<u8>, Error> {
        data.strip_prefix(b"e:")
            .map(|p| p.to_vec())
            .ok_or_else(|| Error::Decryption("bad ciphertext".to_string()))
    }
}

impl SecretProvider for MarkerProvider {
    fn hash_secret(&self, data: &[u8]) -> Result<Vec<u8>, Error> {
        marked(b"h:", data)
    }
}

impl DigestProvider for MarkerProvider {
    fn digest(&self, data: &[u8]) -> Result<Vec<u8>, Error> {
        marked(b"d:", data)
    }
}

impl SignProvider for MarkerProvider {
    fn sign(&self, data: &[u8]) -> Result<Vec<u8>, Error> {
        marked(b"s:", data)
    }

    fn verify_signature(&self, data: &[u8]) -> Result<Vec<u8>, Error> {
        data.strip_prefix(b"s:")
            .map(|p| p.to_vec())
            .ok_or_else(|| Error::SignatureVerification("bad signature".to_string()))
    }
}

impl MacProvider for MarkerProvider {
    fn tag(&self, data: &[u8]) -> Result<Vec<u8>, Error> {
        marked(b"m:", data)
    }

    fn verify_mac(&self, data: &[u8]) -> Result<Vec<u8>, Error> {
        data.strip_prefix(b"m:")
            .map(|p| p.to_vec())
            .ok_or_else(|| Error::MacVerification("bad tag".to_string()))
    }
}

/// A value whose serialization always fails.
struct Unserializable;

impl ToBytes for Unserializable {
    fn to_bytes(&self) -> Result<Vec<u8>, Error> {
        Err(Error::ByteConversion("cannot serialize".to_string()))
    }
}

/// A model of one encrypted string, locked and unlocked.
#[derive(Clone, Debug, PartialEq)]
struct Note {
    text: String,
}

struct LockedNote {
    text: Encrypted<String>,
}

impl<P: CryptoProvider> Lockable<P> for Note {
    type Output = LockedNote;

    fn lock(self, provider: &P) -> Result<LockedNote, Error> {
        let text = encrypt_field(&self.text, provider)?;
        Ok(LockedNote { text })
    }
}

impl<P: CryptoProvider> Unlockable<P> for LockedNote {
    type Output = Note;

    fn unlock(self, provider: &P) -> Result<Note, Error> {
        let text = decrypt_field(&self.text, provider)?;
        Ok(Note { text: text.data })
    }
}

fn receiver(ident: &str, ty: &str, policy: SecurePolicy, rename: Option<&str>) -> SecureReceiver {
    SecureReceiver {
        ident: ident.to_string(),
        vis: "pub".to_string(),
        ty: ty.to_string(),
        policy,
        rename: rename.map(|r| r.to_string()),
    }
}

fn model(name: &str) -> Option<ModelSettings> {
    Some(ModelSettings { name: name.to_string(), derives: None, attributes: None })
}

fn schema(
    fields: Vec<SecureReceiver>,
    unlocked: Option<ModelSettings>,
    locked: Option<ModelSettings>,
) -> LockSchemaReceiver {
    LockSchemaReceiver {
        ident: "Account".to_string(),
        vis: "pub".to_string(),
        data: SchemaData::Struct(fields),
        unlocked,
        locked,
    }
}

const MISSING_LOCKED: &str = "An unlocked model requires a locked model. Add `locked = ...` to the LockSchema derive macro and take a look at the section `## Converting between models` in the readme";

#[test]
fn error_messages_have_variant_prefixes() {
    assert_eq!(Error::ByteConversion("x".to_string()).message(), "Byte conversion error: x");
    assert_eq!(Error::Wincode("x".to_string()).message(), "Wincode codec error: x");
    assert_eq!(Error::Indexing("x".to_string()).message(), "Indexing failed: x");
    assert_eq!(Error::Encryption("x".to_string()).message(), "Encryption failed: x");
    assert_eq!(Error::Decryption("x".to_string()).message(), "Decryption failed: x");
    assert_eq!(Error::Hashing("x".to_string()).message(), "Hashing error: x");
    assert_eq!(Error::Signing("x".to_string()).message(), "Signing failed: x");
    assert_eq!(
        Error::SignatureVerification("x".to_string()).message(),
        "Signature verification failed: x"
    );
    assert_eq!(Error::Mac("x".to_string()).message(), "MAC tagging failed: x");
    assert_eq!(Error::MacVerification("x".to_string()).message(), "MAC verification failed: x");
    assert_eq!(Error::Digest("x".to_string()).message(), "Digest failed: x");
}

#[test]
fn wrappers_hold_what_they_are_given() {
    assert_eq!(*Indexed::<String>::new(vec![1, 2]), vec![1, 2]);
    assert_eq!(*Encrypted::<String>::new(vec![3]), vec![3]);
    assert_eq!(*Secret::<String>::new(vec![4]), vec![4]);
    assert_eq!(*Digested::<String>::new(vec![5]), vec![5]);
    assert_eq!(*Signed::<String>::new(vec![6]), vec![6]);
    assert_eq!(*Tagged::<String>::new(vec![7]), vec![7]);
    let mut d = Decrypted::new("plain".to_string());
    d.push('!');
    assert_eq!(*d, "plain!");
    let v = Verified::new(42u8);
    assert_eq!(*v, 42);
}

#[test]
fn strings_and_bytes_round_trip() {
    let s = "grüße".to_string();
    let bytes = s.to_bytes().unwrap();
    assert_eq!(bytes, "grüße".as_bytes());
    assert_eq!(String::from_bytes(&bytes).unwrap(), s);

    let raw = vec![0u8, 255, 7];
    assert_eq!(raw.to_bytes().unwrap(), raw);
    assert_eq!(Vec::<u8>::from_bytes(&raw).unwrap(), raw);

    assert_eq!(Decrypted::new("abc".to_string()).to_bytes().unwrap(), b"abc");
    assert_eq!(Verified::new("abc".to_string()).to_bytes().unwrap(), b"abc");
}

#[test]
fn invalid_utf8_is_a_byte_conversion_error() {
    match String::from_bytes(&[0x61, 0xff]) {
        Err(Error::ByteConversion(m)) => {
            assert_eq!(m, "invalid utf-8 sequence of 1 bytes from index 1")
        }
        _ => panic!("expected a byte conversion error"),
    }
}

#[test]
fn field_transformations_wrap_provider_answers() {
    let p = MarkerProvider;
    let v = "v".to_string();
    assert_eq!(*index_field::<String, String, _>(&v, &p).unwrap(), b"i:v");
    assert_eq!(*encrypt_field::<String, String, _>(&v, &p).unwrap(), b"e:v");
    assert_eq!(*hash_secret_field::<String, String, _>(&v, &p).unwrap(), b"h:v");
    assert_eq!(*digest_field::<String, String, _>(&v, &p).unwrap(), b"d:v");
    assert_eq!(*sign_field::<String, String, _>(&v, &p).unwrap(), b"s:v");
    assert_eq!(*tag_field::<String, String, _>(&v, &p).unwrap(), b"m:v");

    let locked = Encrypted::<String>::new(b"e:back".to_vec());
    assert_eq!(decrypt_field(&locked, &p).unwrap().data, "back");
}

#[test]
fn field_transformations_pass_errors_on() {
    let p = MarkerProvider;
    match encrypt_field::<Unserializable, String, _>(&Unserializable, &p) {
        Err(Error::ByteConversion(m)) => assert_eq!(m, "cannot serialize"),
        _ => panic!("expected the serialization error"),
    }
    match encrypt_field::<String, String, _>(&"!x".to_string(), &p) {
        Err(Error::Encryption(m)) => assert_eq!(m, "refused"),
        _ => panic!("expected the provider's error"),
    }
    match decrypt_field(&Encrypted::<String>::new(b"nope".to_vec()), &p) {
        Err(Error::Decryption(m)) => assert_eq!(m, "bad ciphertext"),
        _ => panic!("expected the provider's error"),
    }
    match decrypt_field(&Encrypted::<String>::new(vec![b'e', b':', 0xff]), &p) {
        Err(Error::ByteConversion(_)) => {}
        _ => panic!("expected a byte conversion error"),
    }
}

#[test]
fn unlocking_undoes_locking_a_string_field() {
    let p = MarkerProvider;
    let text = "secret words".to_string();
    let locked: Encrypted<String> = encrypt_field(&text, &p).unwrap();
    assert_eq!(decrypt_field(&locked, &p).unwrap().data, text);
}

#[test]
fn relocking_encrypts_the_same_bytes() {
    let p = MarkerProvider;
    let value = "again".to_string();
    let first: Encrypted<String> = encrypt_field(&value, &p).unwrap();
    let unlocked = decrypt_field(&first, &p).unwrap();
    let second: Encrypted<String> = encrypt_field(&unlocked, &p).unwrap();
    assert_eq!(first, second);
}

#[test]
fn locking_a_list_keeps_length_and_order() {
    let p = MarkerProvider;
    let notes = vec![
        Note { text: "a".to_string() },
        Note { text: "b".to_string() },
        Note { text: "c".to_string() },
    ];
    let locked = notes.clone().lock(&p).unwrap();
    assert_eq!(locked.len(), 3);
    assert_eq!(*locked[1].text, b"e:b");
    let unlocked = locked.unlock(&p).unwrap();
    assert_eq!(unlocked, notes);
}

#[test]
fn locking_a_list_stops_at_the_first_failure() {
    let p = MarkerProvider;
    let notes = vec![
        Note { text: "a".to_string() },
        Note { text: "!b".to_string() },
        Note { text: "!c".to_string() },
    ];
    match notes.lock(&p) {
        Err(Error::Encryption(m)) => assert_eq!(m, "refused"),
        _ => panic!("expected the second note's error"),
    }
    let empty: Vec<Note> = Vec::new();
    assert!(empty.lock(&p).unwrap().is_empty());
}

#[test]
fn field_types_per_policy_and_model() {
    let ty = "String".to_string();
    let cases = [
        (SecurePolicy::Plain, "String", "String"),
        (SecurePolicy::Index, "::typelock::Indexed<String>", "::typelock::Indexed<String>"),
        (SecurePolicy::Encrypt, "::typelock::Encrypted<String>", "::typelock::Decrypted<String>"),
        (SecurePolicy::Secret, "::typelock::Secret<String>", "::typelock::Secret<String>"),
        (SecurePolicy::Digest, "::typelock::Digested<String>", "::typelock::Digested<String>"),
        (SecurePolicy::Sign, "::typelock::Signed<String>", "::typelock::Verified<String>"),
        (SecurePolicy::Mac, "::typelock::Tagged<String>", "::typelock::Verified<String>"),
    ];
    for (policy, locked, unlocked) in cases {
        assert_eq!(get_field_type(&ty, &policy, ModelKind::Locked), locked);
        assert_eq!(get_field_type(&ty, &policy, ModelKind::Unlocked), unlocked);
        let opened = matches!(policy, SecurePolicy::Encrypt | SecurePolicy::Sign | SecurePolicy::Mac);
        assert_eq!(locked == unlocked, !opened);
    }
    assert_eq!(SecurePolicy::default(), SecurePolicy::Plain);
}

#[test]
fn field_rename() {
    assert_eq!(get_field_rename(&receiver("password", "String", SecurePolicy::Secret, Some("hash"))), "hash");
    assert_eq!(get_field_rename(&receiver("email", "String", SecurePolicy::Encrypt, None)), "email");
}

#[test]
fn providers_are_listed_once_in_first_use_order() {
    let fields = vec![
        receiver("a", "String", SecurePolicy::Encrypt, None),
        receiver("b", "i64", SecurePolicy::Plain, None),
        receiver("c", "String", SecurePolicy::Mac, None),
        receiver("d", "String", SecurePolicy::Encrypt, None),
        receiver("e", "String", SecurePolicy::Index, None),
    ];
    assert_eq!(
        get_policy_providers(&fields),
        vec![
            "::typelock::CryptoProvider".to_string(),
            "::typelock::MacProvider".to_string(),
            "::typelock::IndexProvider".to_string(),
        ]
    );
    let plain = vec![receiver("b", "i64", SecurePolicy::Plain, None)];
    assert!(get_policy_providers(&plain).is_empty());
}

#[test]
fn derives_and_attributes() {
    let settings = Some(ModelSettings {
        name: "M".to_string(),
        derives: Some(vec!["Debug".to_string(), "Clone".to_string()]),
        attributes: Some(vec!["allow(dead_code)".to_string(), "repr(C)".to_string()]),
    });
    assert_eq!(get_derives(&settings), "#[derive(Debug, Clone)]");
    assert_eq!(get_attributes(&settings), "#[allow(dead_code)]#[repr(C)]");
    assert_eq!(get_derives(&model("M")), "");
    assert_eq!(get_attributes(&model("M")), "");
    assert_eq!(get_derives(&None), "");
}

#[test]
fn refusals() {
    let not_struct = LockSchemaReceiver {
        ident: "E".to_string(),
        vis: String::new(),
        data: SchemaData::Enum,
        unlocked: model("U"),
        locked: model("L"),
    };
    assert_eq!(generate(&not_struct).unwrap_err(), "Only named structs are supported");

    let fields = vec![receiver("a", "String", SecurePolicy::Encrypt, None)];
    let input = schema(fields, model("U"), None);
    assert_eq!(generate(&input).unwrap_err(), MISSING_LOCKED);
    let SchemaData::Struct(fields) = &input.data else { unreachable!() };
    assert_eq!(gen_unlocked_model(&input, fields).unwrap_err(), MISSING_LOCKED);
}

#[test]
fn nothing_is_generated_without_models() {
    let fields = vec![receiver("a", "String", SecurePolicy::Encrypt, None)];
    let input = schema(fields, None, None);
    assert_eq!(generate(&input).unwrap(), "");
    let SchemaData::Struct(fields) = &input.data else { unreachable!() };
    assert_eq!(gen_schema_model_impl(&input, fields).unwrap(), "");
    assert_eq!(gen_locked_model(&input, fields).unwrap(), "");
    assert_eq!(gen_unlocked_model(&input, fields).unwrap(), "");
}

#[test]
fn generated_code_for_a_schema() {
    let fields = vec![
        receiver("id", "i64", SecurePolicy::Plain, None),
        receiver("email", "String", SecurePolicy::Encrypt, None),
        receiver("password", "String", SecurePolicy::Secret, Some("password_hash")),
    ];
    let input = schema(fields, model("AccountUnlocked"), model("AccountLocked"));
    let code = generate(&input).unwrap();
    let expected = [
        "#[allow(unused_variables)] impl<P> ::typelock::Lockable<P> for Account ",
        "where P: ::typelock::CryptoProvider + ::typelock::SecretProvider ",
        "{ type Output = AccountLocked; #[inline] fn lock(self, provider: &P) -> ",
        "::std::result::Result<Self::Output, ::typelock::Error> { ",
        "let id = self.id; ",
        "let email = ::typelock::encrypt_field(&self.email, provider)?; ",
        "let password_hash = ::typelock::hash_secret_field(&self.password, provider)?; ",
        "::std::result::Result::Ok(AccountLocked { id, email, password_hash, }) } } ",
        "pub struct AccountUnlocked { pub id: i64, pub email: ::typelock::Decrypted<String>, ",
        "pub password: ::typelock::Secret<String>, } ",
        "#[allow(unused_variables)] impl<P> ::typelock::Lockable<P> for AccountUnlocked ",
        "where P: ::typelock::CryptoProvider + ::typelock::SecretProvider ",
        "{ type Output = AccountLocked; #[inline] fn lock(self, provider: &P) -> ",
        "::std::result::Result<Self::Output, ::typelock::Error> { ",
        "let id = self.id; ",
        "let email = ::typelock::encrypt_field(&self.email, provider)?; ",
        "let password_hash = self.password; ",
        "::std::result::Result::Ok(AccountLocked { id, email, password_hash, }) } } ",
        "pub struct AccountLocked { pub id: i64, pub email: ::typelock::Encrypted<String>, ",
        "pub password_hash: ::typelock::Secret<String>, } ",
        "#[allow(unused_variables)] impl<P> ::typelock::Unlockable<P> for AccountLocked ",
        "where P: ::typelock::CryptoProvider + ::typelock::SecretProvider ",
        "{ type Output = AccountUnlocked; #[inline] fn unlock(self, provider: &P) -> ",
        "::std::result::Result<Self::Output, ::typelock::Error> { ",
        "let id = self.id; ",
        "let email = ::typelock::decrypt_field(&self.email, provider)?; ",
        "let password = self.password_hash; ",
        "::std::result::Result::Ok(AccountUnlocked { id, email, password, }) } } ",
    ]
    .concat();
    assert_eq!(code, expected);
}

#[test]
fn codec_derives() {
    let to = generate_to_bytes(&ToBytesReceiver { ident: "Data".to_string() }).unwrap();
    assert_eq!(
        to,
        "impl ::typelock::ToBytes for Data { fn to_bytes(&self) -> ::std::result::Result<::std::vec::Vec<u8>, ::typelock::Error> { ::typelock::wincode::serialize(self).map_err(|e| ::typelock::Error::Wincode(e.to_string())) } } "
    );
    let from = generate_from_bytes(&FromBytesReceiver { ident: "Data".to_string() }).unwrap();
    assert_eq!(
        from,
        "impl ::typelock::FromBytes for Data { fn from_bytes(bytes: &[u8]) -> ::std::result::Result<Self, ::typelock::Error> { ::typelock::wincode::deserialize(bytes).map_err(|e| ::typelock::Error::Wincode(e.to_string())) } } "
    );
}

#[test]
fn utf8_errors_convert_to_byte_conversion_errors() {
    let e = String::from_utf8(vec![0xc3]).unwrap_err();
    match Error::from(e) {
        Error::ByteConversion(m) => assert_eq!(m, "incomplete utf-8 byte sequence from index 0"),
        _ => panic!("expected a byte conversion error"),
    }
}

#[test]
fn signed_and_tagged_fields_are_verified_and_read_back() {
    let p = MarkerProvider;
    let signed = Signed::<String>::new(b"s:payload".to_vec());
    assert_eq!(verify_signed_field(&signed, &p).unwrap().data, "payload");
    let tagged = Tagged::<String>::new(b"m:payload".to_vec());
    assert_eq!(verify_tagged_field(&tagged, &p).unwrap().data, "payload");

    match verify_signed_field(&Signed::<String>::new(b"forged".to_vec()), &p) {
        Err(Error::SignatureVerification(m)) => assert_eq!(m, "bad signature"),
        _ => panic!("expected the provider's error"),
    }
    match verify_tagged_field(&Tagged::<String>::new(b"forged".to_vec()), &p) {
        Err(Error::MacVerification(m)) => assert_eq!(m, "bad tag"),
        _ => panic!("expected the provider's error"),
    }
    match verify_signed_field(&Signed::<String>::new(vec![b's', b':', 0xff]), &p) {
        Err(Error::ByteConversion(_)) => {}
        _ => panic!("expected a byte conversion error"),
    }
}

#[test]
fn relocking_a_verified_field_signs_the_same_bytes() {
    let p = MarkerProvider;
    let value = "statement".to_string();
    let signed: Signed<String> = sign_field(&value, &p).unwrap();
    let verified = verify_signed_field(&signed, &p).unwrap();
    let resigned: Signed<String> = sign_field(&verified, &p).unwrap();
    assert_eq!(signed, resigned);

    let tagged: Tagged<String> = tag_field(&value, &p).unwrap();
    let verified = verify_tagged_field(&tagged, &p).unwrap();
    let retagged: Tagged<String> = tag_field(&verified, &p).unwrap();
    assert_eq!(tagged, retagged);
}

#[test]
fn unlocking_and_relocking_keeps_a_locked_field() {
    let p = MarkerProvider;
    let locked = Encrypted::<String>::new(b"e:kept".to_vec());
    let unlocked = decrypt_field(&locked, &p).unwrap();
    let relocked: Encrypted<String> = encrypt_field(&unlocked, &p).unwrap();
    assert_eq!(locked, relocked);
}

#[test]
fn different_errors_have_different_messages() {
    let errors = vec![
        Error::Signing("x".to_string()),
        Error::SignatureVerification("x".to_string()),
        Error::Mac("x".to_string()),
        Error::MacVerification("x".to_string()),
        Error::Decryption("x".to_string()),
        Error::Digest("x".to_string()),
        Error::Digest("y".to_string()),
    ];
    for (i, a) in errors.iter().enumerate() {
        for (j, b) in errors.iter().enumerate() {
            assert_eq!(a.message() == b.message(), i == j);
        }
    }
}
