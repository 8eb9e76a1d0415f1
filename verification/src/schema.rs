//! The `LockSchema` derive: from the description of a schema struct, the
//! source text of its locked and unlocked models and of the conversions
//! between them.
use vstd::prelude::*;

use crate::text::{concat_all, join, join_strings, texts, wrap_each};

verus! {

/// How a field of a schema is secured.
#[derive(Debug, Clone, Copy, PartialEq, Eq, Hash, Structural)]
pub enum SecurePolicy {
    Plain,
    Index,
    Encrypt,
    Secret,
    Digest,
    Sign,
    Mac,
}

impl Default for SecurePolicy {
    /// A field without a policy is stored as it is.
    fn default() -> (r: Self)
        ensures
            r == SecurePolicy::Plain,
    {
        SecurePolicy::Plain
    }
}

/// The two generated models.
#[derive(Debug, Clone, Copy, PartialEq, Eq, Structural)]
pub enum ModelKind {
    Unlocked,
    Locked,
}

/// One named field of the schema struct.
#[derive(Debug)]
pub struct SecureReceiver {
    /// The field's name.
    pub ident: String,
    /// The field's visibility, as written (empty for private fields).
    pub vis: String,
    /// The field's type, as written.
    pub ty: String,
    pub policy: SecurePolicy,
    /// The name of the field in the locked model, when it differs.
    pub rename: Option<String>,
}

/// The settings of one generated model.
#[derive(Debug)]
pub struct ModelSettings {
    /// The model's name.
    pub name: String,
    /// Paths of the derives to put on the model.
    pub derives: Option<Vec<String>>,
    /// Attributes to put on the model, each as written inside `#[...]`.
    pub attributes: Option<Vec<String>>,
}

/// The body of the derive's input: a struct with named fields, or an enum.
#[derive(Debug)]
pub enum SchemaData {
    Struct(Vec<SecureReceiver>),
    Enum,
}

/// The derive's input.
#[derive(Debug)]
pub struct LockSchemaReceiver {
    pub ident: String,
    /// The visibility of the schema struct, as written.
    pub vis: String,
    pub data: SchemaData,
    pub unlocked: Option<ModelSettings>,
    pub locked: Option<ModelSettings>,
}

/// The name of the wrapper type that a policy gives a field in a model, or
/// the empty text where the field keeps its type.
pub open spec fn wrapper_name(policy: SecurePolicy, kind: ModelKind) -> Seq<char> {
    match policy {
        SecurePolicy::Plain => Seq::empty(),
        SecurePolicy::Index => "Indexed"@,
        SecurePolicy::Encrypt => match kind {
            ModelKind::Unlocked => "Decrypted"@,
            ModelKind::Locked => "Encrypted"@,
        },
        SecurePolicy::Secret => "Secret"@,
        SecurePolicy::Digest => "Digested"@,
        SecurePolicy::Sign => match kind {
            ModelKind::Unlocked => "Verified"@,
            ModelKind::Locked => "Signed"@,
        },
        SecurePolicy::Mac => match kind {
            ModelKind::Unlocked => "Verified"@,
            ModelKind::Locked => "Tagged"@,
        },
    }
}

/// The type of a field in a model: its own type where it has no policy,
/// otherwise its own type inside the policy's wrapper.
pub open spec fn field_type_text(base: Seq<char>, policy: SecurePolicy, kind: ModelKind) -> Seq<
    char,
> {
    if policy == SecurePolicy::Plain {
        base
    } else {
        "::typelock::"@ + wrapper_name(policy, kind) + "<"@ + base + ">"@
    }
}

/// The name of a field in the locked model.
pub open spec fn renamed(f: SecureReceiver) -> Seq<char> {
    match f.rename {
        Some(n) => n@,
        None => f.ident@,
    }
}

/// The derive attribute of a model, or the empty text.
pub open spec fn derives_text(settings: Option<ModelSettings>) -> Seq<char> {
    match settings {
        Some(s) => match s.derives {
            Some(d) => "#[derive("@ + join(texts(d@), ", "@) + ")]"@,
            None => Seq::empty(),
        },
        None => Seq::empty(),
    }
}

/// The forwarded attributes of a model, or the empty text.
pub open spec fn attributes_text(settings: Option<ModelSettings>) -> Seq<char> {
    match settings {
        Some(s) => match s.attributes {
            Some(a) => concat_all(a@.map_values(|x: String| "#["@ + x@ + "]"@)),
            None => Seq::empty(),
        },
        None => Seq::empty(),
    }
}

/// The name that a field has in the locked model.
pub fn get_field_rename(f: &SecureReceiver) -> (r: String)
    ensures
        r@ == renamed(*f),
{
    match &f.rename {
        Some(new_name) => new_name.clone(),
        None => f.ident.clone(),
    }
}

/// The type that a field with base type `base_ty` and the given policy has in
/// the model of the given kind.
pub fn get_field_type(base_ty: &String, policy: &SecurePolicy, kind: ModelKind) -> (r: String)
    ensures
        r@ == field_type_text(base_ty@, *policy, kind),
{
    let wrapper: &str = match policy {
        SecurePolicy::Plain => {
            return base_ty.clone();
        },
        SecurePolicy::Index => "Indexed",
        SecurePolicy::Encrypt => match kind {
            ModelKind::Unlocked => "Decrypted",
            ModelKind::Locked => "Encrypted",
        },
        SecurePolicy::Secret => "Secret",
        SecurePolicy::Digest => "Digested",
        SecurePolicy::Sign => match kind {
            ModelKind::Unlocked => "Verified",
            ModelKind::Locked => "Signed",
        },
        SecurePolicy::Mac => match kind {
            ModelKind::Unlocked => "Verified",
            ModelKind::Locked => "Tagged",
        },
    };
    let mut r = "::typelock::".to_owned();
    r.append(wrapper);
    r.append("<");
    r.append(base_ty.as_str());
    r.append(">");
    r
}

/// The derive attribute that a model's settings ask for, if any.
pub fn get_derives(settings: &Option<ModelSettings>) -> (r: String)
    ensures
        r@ == derives_text(*settings),
{
    let Some(settings) = settings else {
        return String::new();
    };
    let Some(derives) = &settings.derives else {
        return String::new();
    };
    let mut r = "#[derive(".to_owned();
    let joined = join_strings(derives, ", ");
    r.append(joined.as_str());
    r.append(")]");
    r
}

/// The attributes that a model's settings forward, if any.
pub fn get_attributes(settings: &Option<ModelSettings>) -> (r: String)
    ensures
        r@ == attributes_text(*settings),
{
    let Some(settings) = settings else {
        return String::new();
    };
    let Some(attributes) = &settings.attributes else {
        return String::new();
    };
    wrap_each(attributes, "#[", "]")
}

/// The path of the provider trait that a policy needs.
pub open spec fn provider_path(policy: SecurePolicy) -> Seq<char> {
    match policy {
        SecurePolicy::Plain => Seq::empty(),
        SecurePolicy::Index => "::typelock::IndexProvider"@,
        SecurePolicy::Encrypt => "::typelock::CryptoProvider"@,
        SecurePolicy::Secret => "::typelock::SecretProvider"@,
        SecurePolicy::Digest => "::typelock::DigestProvider"@,
        SecurePolicy::Sign => "::typelock::SignProvider"@,
        SecurePolicy::Mac => "::typelock::MacProvider"@,
    }
}

/// The policies other than `Plain` that the fields have, each once, in the
/// order in which they first occur.
pub open spec fn needed_policies(fields: Seq<SecureReceiver>) -> Seq<SecurePolicy>
    decreases fields.len(),
{
    if fields.len() == 0 {
        Seq::empty()
    } else {
        let before = needed_policies(fields.drop_last());
        let policy = fields.last().policy;
        if policy == SecurePolicy::Plain || before.contains(policy) {
            before
        } else {
            before.push(policy)
        }
    }
}

/// The provider traits that the fields need, in the order of
/// `needed_policies`.
pub open spec fn provider_list(fields: Seq<SecureReceiver>) -> Seq<Seq<char>> {
    needed_policies(fields).map_values(|p: SecurePolicy| provider_path(p))
}

/// Some field of the schema has a policy that needs the provider at `path`.
pub open spec fn provider_needed(fields: Seq<SecureReceiver>, path: Seq<char>) -> bool {
    exists|i: int|
        0 <= i < fields.len() && fields[i].policy != SecurePolicy::Plain && #[trigger] provider_path(
            fields[i].policy,
        ) == path
}

/// Different policies need different provider traits.
pub proof fn lemma_provider_paths_differ(a: SecurePolicy, b: SecurePolicy)
    requires
        a != SecurePolicy::Plain,
        b != SecurePolicy::Plain,
        a != b,
    ensures
        provider_path(a) != provider_path(b),
{
    reveal_strlit("::typelock::IndexProvider");
    reveal_strlit("::typelock::CryptoProvider");
    reveal_strlit("::typelock::SecretProvider");
    reveal_strlit("::typelock::DigestProvider");
    reveal_strlit("::typelock::SignProvider");
    reveal_strlit("::typelock::MacProvider");
    assert(provider_path(a)[12] != provider_path(b)[12] || provider_path(a)[13] != provider_path(
        b,
    )[13]);
}

fn provider_trait(policy: SecurePolicy) -> (r: String)
    requires
        policy != SecurePolicy::Plain,
    ensures
        r@ == provider_path(policy),
{
    let path: &str = match policy {
        SecurePolicy::Plain => "",
        SecurePolicy::Index => "::typelock::IndexProvider",
        SecurePolicy::Encrypt => "::typelock::CryptoProvider",
        SecurePolicy::Secret => "::typelock::SecretProvider",
        SecurePolicy::Digest => "::typelock::DigestProvider",
        SecurePolicy::Sign => "::typelock::SignProvider",
        SecurePolicy::Mac => "::typelock::MacProvider",
    };
    path.to_owned()
}

fn contains_policy(seen: &Vec<SecurePolicy>, policy: SecurePolicy) -> (r: bool)
    ensures
        r == seen@.contains(policy),
{
    let n = seen.len();
    for i in 0..n
        invariant
            n == seen@.len(),
            forall|j: int| 0 <= j < i ==> seen@[j] != policy,
    {
        if seen[i] == policy {
            return true;
        }
    }
    false
}

/// The provider traits that the schema's fields need, each once: exactly
/// those of the policies other than `Plain` that some field has, in the order
/// in which they first occur.
pub fn get_policy_providers(fields: &Vec<SecureReceiver>) -> (r: Vec<String>)
    ensures
        texts(r@) == provider_list(fields@),
        forall|j: int| 0 <= j < r@.len() ==> provider_needed(fields@, #[trigger] r@[j]@),
        forall|i: int|
            0 <= i < fields@.len() && fields@[i].policy != SecurePolicy::Plain ==> exists|j: int|
                0 <= j < r@.len() && #[trigger] r@[j]@ == provider_path(fields@[i].policy),
        forall|j: int, k: int| 0 <= j < k < r@.len() ==> r@[j]@ != r@[k]@,
{
    let mut seen: Vec<SecurePolicy> = Vec::new();
    let mut r: Vec<String> = Vec::new();
    let n = fields.len();
    for i in 0..n
        invariant
            n == fields@.len(),
            r@.len() == seen@.len(),
            seen@ == needed_policies(fields@.take(i as int)),
            forall|j: int| 0 <= j < r@.len() ==> #[trigger] r@[j]@ == provider_path(seen@[j]),
            forall|j: int| 0 <= j < seen@.len() ==> #[trigger] seen@[j] != SecurePolicy::Plain,
            forall|j: int, k: int| 0 <= j < k < seen@.len() ==> seen@[j] != seen@[k],
            forall|j: int|
                0 <= j < seen@.len() ==> exists|m: int|
                    0 <= m < i && fields@[m].policy == #[trigger] seen@[j],
            forall|m: int|
                0 <= m < i && fields@[m].policy != SecurePolicy::Plain ==> seen@.contains(
                    #[trigger] fields@[m].policy,
                ),
    {
        let policy = fields[i].policy;
        let ghost before = seen@;
        assert(fields@.take(i + 1).drop_last() =~= fields@.take(i as int));
        if policy != SecurePolicy::Plain && !contains_policy(&seen, policy) {
            seen.push(policy);
            r.push(provider_trait(policy));
            assert(seen@[seen@.len() - 1] == policy);
        }
        assert forall|m: int|
            0 <= m < i + 1 && fields@[m].policy != SecurePolicy::Plain implies seen@.contains(
            #[trigger] fields@[m].policy,
        ) by {
            if m < i {
                let j = choose|j: int| 0 <= j < before.len() && before[j] == fields@[m].policy;
                assert(seen@[j] == fields@[m].policy);
            }
        }
    }
    assert(fields@.take(n as int) =~= fields@);
    assert(texts(r@) =~= provider_list(fields@));
    assert forall|j: int| 0 <= j < r@.len() implies provider_needed(fields@, #[trigger] r@[j]@) by {
        let m = choose|m: int| 0 <= m < n && fields@[m].policy == #[trigger] seen@[j];
        assert(provider_path(fields@[m].policy) == r@[j]@);
    }
    assert forall|i: int|
        0 <= i < fields@.len() && fields@[i].policy != SecurePolicy::Plain implies exists|j: int|
            0 <= j < r@.len() && #[trigger] r@[j]@ == provider_path(fields@[i].policy) by {
        assert(seen@.contains(fields@[i].policy));
        let j = choose|j: int| 0 <= j < seen@.len() && seen@[j] == fields@[i].policy;
        assert(r@[j]@ == provider_path(fields@[i].policy));
    }
    assert forall|j: int, k: int| 0 <= j < k < r@.len() implies r@[j]@ != r@[k]@ by {
        lemma_provider_paths_differ(seen@[j], seen@[k]);
    }
    r
}

/// The three conversions that the derive generates.
#[derive(Debug, Clone, Copy, PartialEq, Eq, Structural)]
pub enum Conversion {
    /// From the schema struct to the locked model.
    LockSchema,
    /// From the unlocked model to the locked model.
    LockUnlocked,
    /// From the locked model to the unlocked model.
    Unlock,
}

/// The library function that a conversion applies to a field of the given
/// policy, or `None` where the field is moved across as it is.
pub open spec fn field_call(policy: SecurePolicy, conversion: Conversion) -> Option<Seq<char>> {
    match conversion {
        Conversion::LockSchema => match policy {
            SecurePolicy::Plain => None,
            SecurePolicy::Index => Some("index_field"@),
            SecurePolicy::Encrypt => Some("encrypt_field"@),
            SecurePolicy::Secret => Some("hash_secret_field"@),
            SecurePolicy::Digest => Some("digest_field"@),
            SecurePolicy::Sign => Some("sign_field"@),
            SecurePolicy::Mac => Some("tag_field"@),
        },
        Conversion::LockUnlocked => match policy {
            SecurePolicy::Encrypt => Some("encrypt_field"@),
            SecurePolicy::Sign => Some("sign_field"@),
            SecurePolicy::Mac => Some("tag_field"@),
            _ => None,
        },
        Conversion::Unlock => match policy {
            SecurePolicy::Encrypt => Some("decrypt_field"@),
            SecurePolicy::Sign => Some("verify_signed_field"@),
            SecurePolicy::Mac => Some("verify_tagged_field"@),
            _ => None,
        },
    }
}

/// The name of a field in the model that a conversion reads.
pub open spec fn source_name(f: SecureReceiver, conversion: Conversion) -> Seq<char> {
    match conversion {
        Conversion::Unlock => renamed(f),
        _ => f.ident@,
    }
}

/// The name of a field in the model that a conversion builds.
pub open spec fn target_name(f: SecureReceiver, conversion: Conversion) -> Seq<char> {
    match conversion {
        Conversion::Unlock => f.ident@,
        _ => renamed(f),
    }
}

/// The statement that computes one field of the target model.
pub open spec fn step_text(f: SecureReceiver, conversion: Conversion) -> Seq<char> {
    match field_call(f.policy, conversion) {
        None => "let "@ + target_name(f, conversion) + " = self."@ + source_name(f, conversion)
            + "; "@,
        Some(call) => "let "@ + target_name(f, conversion) + " = ::typelock::"@ + call
            + "(&self."@ + source_name(f, conversion) + ", provider)?; "@,
    }
}

/// The statements of a conversion, one per field.
pub open spec fn steps_text(fields: Seq<SecureReceiver>, conversion: Conversion) -> Seq<char> {
    concat_all(fields.map_values(|f: SecureReceiver| step_text(f, conversion)))
}

/// The fields of the target model's struct expression.
pub open spec fn names_text(fields: Seq<SecureReceiver>, conversion: Conversion) -> Seq<char> {
    concat_all(fields.map_values(|f: SecureReceiver| target_name(f, conversion) + ", "@))
}

/// The name of a field in a model.
pub open spec fn model_field_name(f: SecureReceiver, kind: ModelKind) -> Seq<char> {
    match kind {
        ModelKind::Unlocked => f.ident@,
        ModelKind::Locked => renamed(f),
    }
}

/// The declaration of one field of a model.
pub open spec fn field_decl_text(f: SecureReceiver, kind: ModelKind) -> Seq<char> {
    f.vis@ + " "@ + model_field_name(f, kind) + ": "@ + field_type_text(f.ty@, f.policy, kind)
        + ", "@
}

/// The field declarations of a model.
pub open spec fn decls_text(fields: Seq<SecureReceiver>, kind: ModelKind) -> Seq<char> {
    concat_all(fields.map_values(|f: SecureReceiver| field_decl_text(f, kind)))
}

/// The bound on the provider type of a conversion.
pub open spec fn bounds_text(fields: Seq<SecureReceiver>) -> Seq<char> {
    join(provider_list(fields), " + "@)
}

/// An implementation of `trait_path` (`Lockable` or `Unlockable`) whose
/// method converts `source` into `target` field by field.
pub open spec fn conversion_text(
    trait_path: Seq<char>,
    method: Seq<char>,
    source: Seq<char>,
    target: Seq<char>,
    fields: Seq<SecureReceiver>,
    conversion: Conversion,
) -> Seq<char> {
    "#[allow(unused_variables)] impl<P> "@ + trait_path + "<P> for "@ + source + " where P: "@
        + bounds_text(fields) + " { type Output = "@ + target + "; #[inline] fn "@ + method
        + "(self, provider: &P) -> ::std::result::Result<Self::Output, ::typelock::Error> { "@
        + steps_text(fields, conversion) + "::std::result::Result::Ok("@ + target + " { "@
        + names_text(fields, conversion) + "}) } } "@
}

fn call_name(policy: SecurePolicy, conversion: Conversion) -> (r: Option<&'static str>)
    ensures
        r matches Some(c) ==> field_call(policy, conversion) == Some(c@),
        r is None ==> field_call(policy, conversion) is None,
{
    match conversion {
        Conversion::LockSchema => match policy {
            SecurePolicy::Plain => None,
            SecurePolicy::Index => Some("index_field"),
            SecurePolicy::Encrypt => Some("encrypt_field"),
            SecurePolicy::Secret => Some("hash_secret_field"),
            SecurePolicy::Digest => Some("digest_field"),
            SecurePolicy::Sign => Some("sign_field"),
            SecurePolicy::Mac => Some("tag_field"),
        },
        Conversion::LockUnlocked => match policy {
            SecurePolicy::Encrypt => Some("encrypt_field"),
            SecurePolicy::Sign => Some("sign_field"),
            SecurePolicy::Mac => Some("tag_field"),
            _ => None,
        },
        Conversion::Unlock => match policy {
            SecurePolicy::Encrypt => Some("decrypt_field"),
            SecurePolicy::Sign => Some("verify_signed_field"),
            SecurePolicy::Mac => Some("verify_tagged_field"),
            _ => None,
        },
    }
}

fn render_step(f: &SecureReceiver, conversion: Conversion) -> (r: String)
    ensures
        r@ == step_text(*f, conversion),
{
    let renamed = get_field_rename(f);
    let (target, source) = match conversion {
        Conversion::Unlock => (f.ident.as_str(), renamed.as_str()),
        _ => (renamed.as_str(), f.ident.as_str()),
    };
    let mut r = "let ".to_owned();
    r.append(target);
    match call_name(f.policy, conversion) {
        None => {
            r.append(" = self.");
            r.append(source);
            r.append("; ");
        },
        Some(call) => {
            r.append(" = ::typelock::");
            r.append(call);
            r.append("(&self.");
            r.append(source);
            r.append(", provider)?; ");
        },
    }
    r
}

fn render_steps(fields: &Vec<SecureReceiver>, conversion: Conversion) -> (r: String)
    ensures
        r@ == steps_text(fields@, conversion),
{
    let ghost parts = fields@.map_values(|f: SecureReceiver| step_text(f, conversion));
    let mut r = String::new();
    let n = fields.len();
    for i in 0..n
        invariant
            n == fields@.len(),
            parts == fields@.map_values(|f: SecureReceiver| step_text(f, conversion)),
            r@ == concat_all(parts.take(i as int)),
    {
        let step = render_step(&fields[i], conversion);
        r.append(step.as_str());
        assert(parts.take(i + 1).drop_last() =~= parts.take(i as int));
    }
    assert(parts.take(n as int) =~= parts);
    r
}

fn render_names(fields: &Vec<SecureReceiver>, conversion: Conversion) -> (r: String)
    ensures
        r@ == names_text(fields@, conversion),
{
    let ghost parts = fields@.map_values(
        |f: SecureReceiver| target_name(f, conversion) + ", "@,
    );
    let mut r = String::new();
    let n = fields.len();
    for i in 0..n
        invariant
            n == fields@.len(),
            parts == fields@.map_values(|f: SecureReceiver| target_name(f, conversion) + ", "@),
            r@ == concat_all(parts.take(i as int)),
    {
        let f = &fields[i];
        match conversion {
            Conversion::Unlock => r.append(f.ident.as_str()),
            _ => {
                let name = get_field_rename(f);
                r.append(name.as_str());
            },
        }
        r.append(", ");
        assert(parts.take(i + 1).drop_last() =~= parts.take(i as int));
    }
    assert(parts.take(n as int) =~= parts);
    r
}

fn render_decl(f: &SecureReceiver, kind: ModelKind) -> (r: String)
    ensures
        r@ == field_decl_text(*f, kind),
{
    let mut r = String::new();
    r.append(f.vis.as_str());
    r.append(" ");
    match kind {
        ModelKind::Unlocked => r.append(f.ident.as_str()),
        ModelKind::Locked => {
            let name = get_field_rename(f);
            r.append(name.as_str());
        },
    }
    r.append(": ");
    let ty = get_field_type(&f.ty, &f.policy, kind);
    r.append(ty.as_str());
    r.append(", ");
    r
}

fn render_decls(fields: &Vec<SecureReceiver>, kind: ModelKind) -> (r: String)
    ensures
        r@ == decls_text(fields@, kind),
{
    let ghost parts = fields@.map_values(|f: SecureReceiver| field_decl_text(f, kind));
    let mut r = String::new();
    let n = fields.len();
    for i in 0..n
        invariant
            n == fields@.len(),
            parts == fields@.map_values(|f: SecureReceiver| field_decl_text(f, kind)),
            r@ == concat_all(parts.take(i as int)),
    {
        let decl = render_decl(&fields[i], kind);
        r.append(decl.as_str());
        assert(parts.take(i + 1).drop_last() =~= parts.take(i as int));
    }
    assert(parts.take(n as int) =~= parts);
    r
}

fn render_conversion(
    trait_path: &str,
    method: &str,
    source: &String,
    target: &String,
    fields: &Vec<SecureReceiver>,
    conversion: Conversion,
) -> (r: String)
    ensures
        r@ == conversion_text(trait_path@, method@, source@, target@, fields@, conversion),
{
    let providers = get_policy_providers(fields);
    let bounds = join_strings(&providers, " + ");
    let steps = render_steps(fields, conversion);
    let names = render_names(fields, conversion);
    let mut r = "#[allow(unused_variables)] impl<P> ".to_owned();
    r.append(trait_path);
    r.append("<P> for ");
    r.append(source.as_str());
    r.append(" where P: ");
    r.append(bounds.as_str());
    r.append(" { type Output = ");
    r.append(target.as_str());
    r.append("; #[inline] fn ");
    r.append(method);
    r.append("(self, provider: &P) -> ::std::result::Result<Self::Output, ::typelock::Error> { ");
    r.append(steps.as_str());
    r.append("::std::result::Result::Ok(");
    r.append(target.as_str());
    r.append(" { ");
    r.append(names.as_str());
    r.append("}) } } ");
    r
}

/// The implementation of `Lockable` for the schema struct, which locks every
/// field under its policy; empty where no locked model is asked for.
pub open spec fn schema_impl_text(input: LockSchemaReceiver, fields: Seq<SecureReceiver>) -> Seq<
    char,
> {
    match input.locked {
        Some(locked) => conversion_text(
            "::typelock::Lockable"@,
            "lock"@,
            input.ident@,
            locked.name@,
            fields,
            Conversion::LockSchema,
        ),
        None => Seq::empty(),
    }
}

/// The implementation of `Unlockable` for the locked model; empty unless both
/// models are asked for.
pub open spec fn unlock_impl_text(input: LockSchemaReceiver, fields: Seq<SecureReceiver>) -> Seq<
    char,
> {
    match (input.locked, input.unlocked) {
        (Some(locked), Some(unlocked)) => conversion_text(
            "::typelock::Unlockable"@,
            "unlock"@,
            locked.name@,
            unlocked.name@,
            fields,
            Conversion::Unlock,
        ),
        _ => Seq::empty(),
    }
}

/// The implementation of `Lockable` for the unlocked model; empty unless both
/// models are asked for.
pub open spec fn relock_impl_text(input: LockSchemaReceiver, fields: Seq<SecureReceiver>) -> Seq<
    char,
> {
    match (input.locked, input.unlocked) {
        (Some(locked), Some(unlocked)) => conversion_text(
            "::typelock::Lockable"@,
            "lock"@,
            unlocked.name@,
            locked.name@,
            fields,
            Conversion::LockUnlocked,
        ),
        _ => Seq::empty(),
    }
}

/// A model's struct: its derives, its attributes and its fields.
pub open spec fn model_struct_text(
    vis: Seq<char>,
    settings: Option<ModelSettings>,
    fields: Seq<SecureReceiver>,
    kind: ModelKind,
) -> Seq<char> {
    derives_text(settings) + attributes_text(settings) + vis + " struct "@
        + settings->Some_0.name@ + " { "@ + decls_text(fields, kind) + "} "@
}

/// The locked model and the unlocking of it; empty where no locked model is
/// asked for.
pub open spec fn locked_model_text(input: LockSchemaReceiver, fields: Seq<SecureReceiver>) -> Seq<
    char,
> {
    if input.locked is Some {
        model_struct_text(input.vis@, input.locked, fields, ModelKind::Locked) + unlock_impl_text(
            input,
            fields,
        )
    } else {
        Seq::empty()
    }
}

/// The refusal of an unlocked model without a locked one.
pub open spec fn missing_locked_message() -> Seq<char> {
    "An unlocked model requires a locked model. Add `locked = ...` to the LockSchema derive macro and take a look at the section `## Converting between models` in the readme"@
}

/// The unlocked model and the locking of it; empty where no unlocked model is
/// asked for.
pub open spec fn unlocked_model_text(input: LockSchemaReceiver, fields: Seq<SecureReceiver>) -> Seq<
    char,
> {
    if input.unlocked is Some {
        model_struct_text(input.vis@, input.unlocked, fields, ModelKind::Unlocked)
            + relock_impl_text(input, fields)
    } else {
        Seq::empty()
    }
}

fn render_model_struct(
    vis: &String,
    settings: &Option<ModelSettings>,
    fields: &Vec<SecureReceiver>,
    kind: ModelKind,
) -> (r: String)
    requires
        settings is Some,
    ensures
        r@ == model_struct_text(vis@, *settings, fields@, kind),
{
    let derives = get_derives(settings);
    let attributes = get_attributes(settings);
    let decls = render_decls(fields, kind);
    let mut r = String::new();
    r.append(derives.as_str());
    r.append(attributes.as_str());
    r.append(vis.as_str());
    r.append(" struct ");
    match settings {
        Some(s) => r.append(s.name.as_str()),
        None => {},
    }
    r.append(" { ");
    r.append(decls.as_str());
    r.append("} ");
    r
}

/// The locked model's struct and its `Unlockable` implementation.
pub fn gen_locked_model(input: &LockSchemaReceiver, fields: &Vec<SecureReceiver>) -> (r: Result<
    String,
    String,
>)
    ensures
        r matches Ok(code) && code@ == locked_model_text(*input, fields@),
{
    if input.locked.is_none() {
        return Ok(String::new());
    }
    let locked_impl = match gen_locked_model_impl(input, fields) {
        Ok(code) => code,
        Err(e) => return Err(e),
    };
    let mut r = render_model_struct(&input.vis, &input.locked, fields, ModelKind::Locked);
    r.append(locked_impl.as_str());
    Ok(r)
}

/// The `Unlockable` implementation of the locked model: encrypted fields are
/// decrypted and signed or MAC-tagged fields verified, and their values read
/// back; all others are moved across.
fn gen_locked_model_impl(input: &LockSchemaReceiver, fields: &Vec<SecureReceiver>) -> (r: Result<
    String,
    String,
>)
    ensures
        r matches Ok(code) && code@ == unlock_impl_text(*input, fields@),
{
    let Some(locked) = &input.locked else {
        return Ok(String::new());
    };
    let Some(unlocked) = &input.unlocked else {
        return Ok(String::new());
    };
    Ok(
        render_conversion(
            "::typelock::Unlockable",
            "unlock",
            &locked.name,
            &unlocked.name,
            fields,
            Conversion::Unlock,
        ),
    )
}

/// The `Lockable` implementation of the schema struct: every field is locked
/// under its policy.
pub fn gen_schema_model_impl(input: &LockSchemaReceiver, fields: &Vec<SecureReceiver>) -> (r:
    Result<String, String>)
    ensures
        r matches Ok(code) && code@ == schema_impl_text(*input, fields@),
{
    let Some(locked) = &input.locked else {
        return Ok(String::new());
    };
    Ok(
        render_conversion(
            "::typelock::Lockable",
            "lock",
            &input.ident,
            &locked.name,
            fields,
            Conversion::LockSchema,
        ),
    )
}

/// The unlocked model's struct and its `Lockable` implementation. An
/// unlocked model without a locked one is refused.
pub fn gen_unlocked_model(input: &LockSchemaReceiver, fields: &Vec<SecureReceiver>) -> (r: Result<
    String,
    String,
>)
    ensures
        input.unlocked is Some && input.locked is None ==> (r matches Err(m) && m@
            == missing_locked_message()),
        !(input.unlocked is Some && input.locked is None) ==> (r matches Ok(code) && code@
            == unlocked_model_text(*input, fields@)),
{
    if input.unlocked.is_none() {
        return Ok(String::new());
    }
    let unlocked_impl = match gen_unlocked_model_impl(input, fields) {
        Ok(code) => code,
        Err(e) => return Err(e),
    };
    let mut r = render_model_struct(&input.vis, &input.unlocked, fields, ModelKind::Unlocked);
    r.append(unlocked_impl.as_str());
    Ok(r)
}

/// The `Lockable` implementation of the unlocked model: decrypted fields are
/// encrypted and verified fields signed or MAC-tagged again; all others are
/// moved across.
fn gen_unlocked_model_impl(input: &LockSchemaReceiver, fields: &Vec<SecureReceiver>) -> (r:
    Result<String, String>)
    ensures
        input.unlocked is Some && input.locked is None ==> (r matches Err(m) && m@
            == missing_locked_message()),
        !(input.unlocked is Some && input.locked is None) ==> (r matches Ok(code) && code@
            == relock_impl_text(*input, fields@)),
{
    let Some(unlocked) = &input.unlocked else {
        return Ok(String::new());
    };
    let Some(locked) = &input.locked else {
        return Err(
            "An unlocked model requires a locked model. Add `locked = ...` to the LockSchema derive macro and take a look at the section `## Converting between models` in the readme".to_owned(),
        );
    };
    Ok(
        render_conversion(
            "::typelock::Lockable",
            "lock",
            &unlocked.name,
            &locked.name,
            fields,
            Conversion::LockUnlocked,
        ),
    )
}

/// The refusal of an input that is not a struct with named fields.
pub open spec fn not_a_struct_message() -> Seq<char> {
    "Only named structs are supported"@
}

/// Everything that the derive generates for a schema struct.
pub open spec fn generated_text(input: LockSchemaReceiver, fields: Seq<SecureReceiver>) -> Seq<
    char,
> {
    schema_impl_text(input, fields) + unlocked_model_text(input, fields) + locked_model_text(
        input,
        fields,
    )
}

/// The code that the `LockSchema` derive generates: the `Lockable`
/// implementation of the schema struct, then the unlocked model with its
/// `Lockable` implementation, then the locked model with its `Unlockable`
/// implementation. The input must be a struct with named fields, and an
/// unlocked model needs a locked one.
pub fn generate(input: &LockSchemaReceiver) -> (r: Result<String, String>)
    ensures
        input.data is Enum ==> (r matches Err(m) && m@ == not_a_struct_message()),
        input.data is Struct && input.unlocked is Some && input.locked is None ==> (r matches Err(m)
            && m@ == missing_locked_message()),
        input.data matches SchemaData::Struct(fields) ==> (!(input.unlocked is Some
            && input.locked is None) ==> (r matches Ok(code) && code@ == generated_text(
            *input,
            fields@,
        ))),
{
    let fields = match &input.data {
        SchemaData::Struct(fields) => fields,
        _ => {
            return Err("Only named structs are supported".to_owned());
        },
    };
    let schema_impl = match gen_schema_model_impl(input, fields) {
        Ok(code) => code,
        Err(e) => return Err(e),
    };
    let unlocked_model = match gen_unlocked_model(input, fields) {
        Ok(code) => code,
        Err(e) => return Err(e),
    };
    let locked_model = match gen_locked_model(input, fields) {
        Ok(code) => code,
        Err(e) => return Err(e),
    };
    let mut r = schema_impl;
    r.append(unlocked_model.as_str());
    r.append(locked_model.as_str());
    Ok(r)
}

/// Holds of the policies whose fields the unlocked model holds in readable
/// form: encrypted fields are decrypted, signed and MAC-tagged fields are
/// verified.
pub open spec fn opened_on_unlock(policy: SecurePolicy) -> bool {
    policy == SecurePolicy::Encrypt || policy == SecurePolicy::Sign || policy == SecurePolicy::Mac
}

/// A field has the same type in both models exactly when unlocking does not
/// open it: plain, index, secret and digest fields are carried across as
/// they are, while an encrypted field is `Encrypted` when locked and
/// `Decrypted` when unlocked, and a signed or MAC-tagged field is `Signed` or
/// `Tagged` when locked and `Verified` when unlocked.
pub proof fn lemma_field_types_across_models(base: Seq<char>, policy: SecurePolicy)
    ensures
        (field_type_text(base, policy, ModelKind::Locked) == field_type_text(
            base,
            policy,
            ModelKind::Unlocked,
        )) <==> !opened_on_unlock(policy),
{
    if opened_on_unlock(policy) {
        reveal_strlit("::typelock::");
        reveal_strlit("Encrypted");
        reveal_strlit("Decrypted");
        reveal_strlit("Signed");
        reveal_strlit("Tagged");
        reveal_strlit("Verified");
        assert(field_type_text(base, policy, ModelKind::Locked)[12] != field_type_text(
            base,
            policy,
            ModelKind::Unlocked,
        )[12]);
    }
}

/// Locking the schema calls a provider for every field with a policy.
/// Unlocking opens exactly the encrypted, signed and MAC-tagged fields, each
/// with the operation that reads back what locking produced, and moves every
/// other field across unchanged; locking the unlocked model locks exactly
/// those fields again, with the same operation as locking the schema.
pub proof fn lemma_fields_that_conversions_transform(policy: SecurePolicy)
    ensures
        field_call(policy, Conversion::LockSchema) is Some <==> policy != SecurePolicy::Plain,
        field_call(policy, Conversion::Unlock) is Some <==> opened_on_unlock(policy),
        field_call(policy, Conversion::LockUnlocked) is Some <==> opened_on_unlock(policy),
        field_call(policy, Conversion::LockUnlocked) is Some ==> field_call(
            policy,
            Conversion::LockUnlocked,
        ) == field_call(policy, Conversion::LockSchema),
        policy == SecurePolicy::Encrypt ==> field_call(policy, Conversion::Unlock) == Some(
            "decrypt_field"@,
        ),
        policy == SecurePolicy::Sign ==> field_call(policy, Conversion::Unlock) == Some(
            "verify_signed_field"@,
        ),
        policy == SecurePolicy::Mac ==> field_call(policy, Conversion::Unlock) == Some(
            "verify_tagged_field"@,
        ),
{
}

/// Each conversion reads the fields under the names that its source model
/// declares and builds them under the names that its target model declares.
pub proof fn lemma_conversion_names_match_models(f: SecureReceiver)
    ensures
        source_name(f, Conversion::LockSchema) == f.ident@,
        target_name(f, Conversion::LockSchema) == model_field_name(f, ModelKind::Locked),
        source_name(f, Conversion::LockUnlocked) == model_field_name(f, ModelKind::Unlocked),
        target_name(f, Conversion::LockUnlocked) == model_field_name(f, ModelKind::Locked),
        source_name(f, Conversion::Unlock) == model_field_name(f, ModelKind::Locked),
        target_name(f, Conversion::Unlock) == model_field_name(f, ModelKind::Unlocked),
{
}

/// The provider bound of every conversion names the provider of each policy
/// that some field has, once each, and nothing else.
pub proof fn lemma_needed_policies(fields: Seq<SecureReceiver>)
    ensures
        forall|i: int|
            0 <= i < fields.len() && fields[i].policy != SecurePolicy::Plain ==> needed_policies(
                fields,
            ).contains(#[trigger] fields[i].policy),
        forall|j: int|
            0 <= j < needed_policies(fields).len() ==> #[trigger] needed_policies(fields)[j]
                != SecurePolicy::Plain && exists|i: int|
                0 <= i < fields.len() && fields[i].policy == needed_policies(fields)[j],
        needed_policies(fields).no_duplicates(),
    decreases fields.len(),
{
    if fields.len() > 0 {
        let init = fields.drop_last();
        lemma_needed_policies(init);
        let before = needed_policies(init);
        let all = needed_policies(fields);
        assert forall|i: int|
            0 <= i < fields.len() && fields[i].policy != SecurePolicy::Plain implies all.contains(
            #[trigger] fields[i].policy,
        ) by {
            if i < fields.len() - 1 {
                assert(init[i] == fields[i]);
                let j = choose|j: int| 0 <= j < before.len() && before[j] == init[i].policy;
                assert(all[j] == fields[i].policy);
            } else if !before.contains(fields[i].policy) {
                assert(all[all.len() - 1] == fields[i].policy);
            }
        }
        assert forall|j: int| 0 <= j < all.len() implies #[trigger] all[j] != SecurePolicy::Plain
            && exists|i: int| 0 <= i < fields.len() && fields[i].policy == all[j] by {
            if j < before.len() {
                assert(all[j] == before[j]);
                let i = choose|i: int| 0 <= i < init.len() && init[i].policy == before[j];
                assert(fields[i] == init[i]);
            } else {
                assert(fields[fields.len() - 1].policy == all[j]);
            }
        }
    }
}

/// Locking the schema calls, for each field with a policy, the library
/// function of that very policy: `index_field` for an index field (whose
/// result is `Indexed`), `encrypt_field` for an encrypted one,
/// `hash_secret_field` for a secret, `digest_field` for a digest,
/// `sign_field` for a signed field and `tag_field` for a MAC-tagged one; a
/// plain field is moved.
pub proof fn lemma_schema_lock_calls_the_policy_function(policy: SecurePolicy)
    ensures
        policy == SecurePolicy::Plain ==> field_call(policy, Conversion::LockSchema) is None,
        policy == SecurePolicy::Index ==> field_call(policy, Conversion::LockSchema) == Some(
            "index_field"@,
        ),
        policy == SecurePolicy::Encrypt ==> field_call(policy, Conversion::LockSchema) == Some(
            "encrypt_field"@,
        ),
        policy == SecurePolicy::Secret ==> field_call(policy, Conversion::LockSchema) == Some(
            "hash_secret_field"@,
        ),
        policy == SecurePolicy::Digest ==> field_call(policy, Conversion::LockSchema) == Some(
            "digest_field"@,
        ),
        policy == SecurePolicy::Sign ==> field_call(policy, Conversion::LockSchema) == Some(
            "sign_field"@,
        ),
        policy == SecurePolicy::Mac ==> field_call(policy, Conversion::LockSchema) == Some(
            "tag_field"@,
        ),
{
}

/// A field's name in the locked model is its `rename` whenever one is given,
/// whatever its policy, and its own name otherwise; the locked model
/// declares it under that name, the lock conversions build it under that
/// name and the unlock conversion reads it under that name.
pub proof fn lemma_rename_names_the_locked_field(f: SecureReceiver)
    ensures
        f.rename matches Some(n) ==> renamed(f) == n@,
        f.rename is None ==> renamed(f) == f.ident@,
        model_field_name(f, ModelKind::Locked) == renamed(f),
        target_name(f, Conversion::LockSchema) == renamed(f),
        target_name(f, Conversion::LockUnlocked) == renamed(f),
        source_name(f, Conversion::Unlock) == renamed(f),
        model_field_name(f, ModelKind::Unlocked) == f.ident@,
{
}

/// The locked struct is generated whenever a locked model is asked for,
/// whether or not an unlocked model is: its derives, attributes, the schema's
/// visibility, ` struct `, the locked name and the field declarations, then
/// the `Unlockable` implementation, which is empty exactly when no unlocked
/// model is asked for.
pub proof fn lemma_locked_struct_whenever_asked(
    input: LockSchemaReceiver,
    fields: Seq<SecureReceiver>,
)
    requires
        input.locked is Some,
    ensures
        locked_model_text(input, fields) == derives_text(input.locked) + attributes_text(
            input.locked,
        ) + input.vis@ + " struct "@ + input.locked->Some_0.name@ + " { "@ + decls_text(
            fields,
            ModelKind::Locked,
        ) + "} "@ + unlock_impl_text(input, fields),
        input.unlocked is None ==> unlock_impl_text(input, fields) == Seq::<char>::empty(),
        input.unlocked is None ==> locked_model_text(input, fields) == model_struct_text(
            input.vis@,
            input.locked,
            fields,
            ModelKind::Locked,
        ),
        input.unlocked matches Some(u) ==> unlock_impl_text(input, fields) == conversion_text(
            "::typelock::Unlockable"@,
            "unlock"@,
            input.locked->Some_0.name@,
            u.name@,
            fields,
            Conversion::Unlock,
        ),
{
}

/// When both models are asked for, the unlocked model is always followed by
/// its `Lockable` implementation into the locked model, for every list of
/// fields, and that implementation begins by naming the unlocked model.
pub proof fn lemma_relock_impl_whenever_both_models(
    input: LockSchemaReceiver,
    fields: Seq<SecureReceiver>,
)
    requires
        input.locked is Some,
        input.unlocked is Some,
    ensures
        relock_impl_text(input, fields) == conversion_text(
            "::typelock::Lockable"@,
            "lock"@,
            input.unlocked->Some_0.name@,
            input.locked->Some_0.name@,
            fields,
            Conversion::LockUnlocked,
        ),
        ({
            let head = "#[allow(unused_variables)] impl<P> "@ + "::typelock::Lockable"@ + "<P> for "@
                + input.unlocked->Some_0.name@;
            relock_impl_text(input, fields).len() >= head.len() && relock_impl_text(
                input,
                fields,
            ).subrange(0, head.len() as int) == head
        }),
        unlocked_model_text(input, fields) == model_struct_text(
            input.vis@,
            input.unlocked,
            fields,
            ModelKind::Unlocked,
        ) + relock_impl_text(input, fields),
{
    let head = "#[allow(unused_variables)] impl<P> "@ + "::typelock::Lockable"@ + "<P> for "@
        + input.unlocked->Some_0.name@;
    let t = relock_impl_text(input, fields);
    assert(t.subrange(0, head.len() as int) =~= head);
}

/// Whenever a locked model is asked for and the input is accepted, the
/// generated code begins with the schema's `Lockable` implementation into the
/// locked model, whether or not an unlocked model is asked for; without a
/// locked model no code is generated at all.
pub proof fn lemma_schema_impl_leads_whenever_locked(
    input: LockSchemaReceiver,
    fields: Seq<SecureReceiver>,
)
    ensures
        input.locked matches Some(l) ==> ({
            let c = conversion_text(
                "::typelock::Lockable"@,
                "lock"@,
                input.ident@,
                l.name@,
                fields,
                Conversion::LockSchema,
            );
            &&& schema_impl_text(input, fields) == c
            &&& generated_text(input, fields).len() >= c.len()
            &&& generated_text(input, fields).subrange(0, c.len() as int) == c
        }),
        input.locked is None && input.unlocked is None ==> generated_text(input, fields)
            == Seq::<char>::empty(),
{
    if input.locked is Some {
        let c = conversion_text(
            "::typelock::Lockable"@,
            "lock"@,
            input.ident@,
            input.locked->Some_0.name@,
            fields,
            Conversion::LockSchema,
        );
        assert(generated_text(input, fields).subrange(0, c.len() as int) =~= c);
    }
    if input.locked is None && input.unlocked is None {
        assert(generated_text(input, fields) =~= Seq::<char>::empty());
    }
}

/// The type of a field in each model, and the provider trait its policy
/// needs: a plain field keeps its own type in both models; an index field is
/// `Indexed` in both, a secret field `Secret`, a digest field `Digested`; an
/// encrypted field is `Encrypted` when locked and `Decrypted` when unlocked;
/// a signed field is `Signed` and a MAC-tagged field `Tagged` when locked, and
/// both are `Verified` when unlocked.
pub proof fn lemma_field_type_per_policy(base: Seq<char>, policy: SecurePolicy)
    ensures
        policy == SecurePolicy::Plain ==> field_type_text(base, policy, ModelKind::Locked) == base,
        policy == SecurePolicy::Plain ==> field_type_text(base, policy, ModelKind::Unlocked) == base,
        policy == SecurePolicy::Index ==> field_type_text(base, policy, ModelKind::Locked)
            == "::typelock::Indexed<"@ + base + ">"@,
        policy == SecurePolicy::Index ==> field_type_text(base, policy, ModelKind::Unlocked)
            == "::typelock::Indexed<"@ + base + ">"@,
        policy == SecurePolicy::Index ==> provider_path(policy) == "::typelock::IndexProvider"@,
        policy == SecurePolicy::Encrypt ==> field_type_text(base, policy, ModelKind::Locked)
            == "::typelock::Encrypted<"@ + base + ">"@,
        policy == SecurePolicy::Encrypt ==> field_type_text(base, policy, ModelKind::Unlocked)
            == "::typelock::Decrypted<"@ + base + ">"@,
        policy == SecurePolicy::Encrypt ==> provider_path(policy) == "::typelock::CryptoProvider"@,
        policy == SecurePolicy::Secret ==> field_type_text(base, policy, ModelKind::Locked)
            == "::typelock::Secret<"@ + base + ">"@,
        policy == SecurePolicy::Secret ==> field_type_text(base, policy, ModelKind::Unlocked)
            == "::typelock::Secret<"@ + base + ">"@,
        policy == SecurePolicy::Secret ==> provider_path(policy) == "::typelock::SecretProvider"@,
        policy == SecurePolicy::Digest ==> field_type_text(base, policy, ModelKind::Locked)
            == "::typelock::Digested<"@ + base + ">"@,
        policy == SecurePolicy::Digest ==> field_type_text(base, policy, ModelKind::Unlocked)
            == "::typelock::Digested<"@ + base + ">"@,
        policy == SecurePolicy::Digest ==> provider_path(policy) == "::typelock::DigestProvider"@,
        policy == SecurePolicy::Sign ==> field_type_text(base, policy, ModelKind::Locked)
            == "::typelock::Signed<"@ + base + ">"@,
        policy == SecurePolicy::Sign ==> field_type_text(base, policy, ModelKind::Unlocked)
            == "::typelock::Verified<"@ + base + ">"@,
        policy == SecurePolicy::Sign ==> provider_path(policy) == "::typelock::SignProvider"@,
        policy == SecurePolicy::Mac ==> field_type_text(base, policy, ModelKind::Locked)
            == "::typelock::Tagged<"@ + base + ">"@,
        policy == SecurePolicy::Mac ==> field_type_text(base, policy, ModelKind::Unlocked)
            == "::typelock::Verified<"@ + base + ">"@,
        policy == SecurePolicy::Mac ==> provider_path(policy) == "::typelock::MacProvider"@,
{
    reveal_strlit("::typelock::");
    reveal_strlit("<");
    reveal_strlit("Indexed");
    reveal_strlit("Encrypted");
    reveal_strlit("Decrypted");
    reveal_strlit("Secret");
    reveal_strlit("Digested");
    reveal_strlit("Signed");
    reveal_strlit("Tagged");
    reveal_strlit("Verified");
    reveal_strlit("::typelock::Decrypted<");
    reveal_strlit("::typelock::Digested<");
    reveal_strlit("::typelock::Encrypted<");
    reveal_strlit("::typelock::Indexed<");
    reveal_strlit("::typelock::Secret<");
    reveal_strlit("::typelock::Signed<");
    reveal_strlit("::typelock::Tagged<");
    reveal_strlit("::typelock::Verified<");
    if policy != SecurePolicy::Plain {
        assert(field_type_text(base, policy, ModelKind::Locked) =~= "::typelock::"@ + wrapper_name(
            policy,
            ModelKind::Locked,
        ) + "<"@ + base + ">"@);
    }
}

/// The statement that each conversion generates for a field: locking (the
/// schema or the unlocked model) builds the field under its locked name from
/// the field of its own name, unlocking builds it under its own name from
/// the locked one; a field that the conversion transforms is passed by
/// reference, with the provider, to the library function of its policy and
/// the error is propagated, any other field is moved.
pub proof fn lemma_step_statements(f: SecureReceiver)
    ensures
        field_call(f.policy, Conversion::LockSchema) matches Some(call) ==> step_text(
            f,
            Conversion::LockSchema,
        ) == "let "@ + renamed(f) + " = ::typelock::"@ + call + "(&self."@ + f.ident@
            + ", provider)?; "@,
        field_call(f.policy, Conversion::LockSchema) is None ==> step_text(
            f,
            Conversion::LockSchema,
        ) == "let "@ + renamed(f) + " = self."@ + f.ident@ + "; "@,
        field_call(f.policy, Conversion::LockUnlocked) matches Some(call) ==> step_text(
            f,
            Conversion::LockUnlocked,
        ) == "let "@ + renamed(f) + " = ::typelock::"@ + call + "(&self."@ + f.ident@
            + ", provider)?; "@,
        field_call(f.policy, Conversion::LockUnlocked) is None ==> step_text(
            f,
            Conversion::LockUnlocked,
        ) == "let "@ + renamed(f) + " = self."@ + f.ident@ + "; "@,
        field_call(f.policy, Conversion::Unlock) matches Some(call) ==> step_text(
            f,
            Conversion::Unlock,
        ) == "let "@ + f.ident@ + " = ::typelock::"@ + call + "(&self."@ + renamed(f)
            + ", provider)?; "@,
        field_call(f.policy, Conversion::Unlock) is None ==> step_text(f, Conversion::Unlock)
            == "let "@ + f.ident@ + " = self."@ + renamed(f) + "; "@,
{
}

} // verus!
