//! Configuration of the image registry side: the values read from the
//! environment, with their defaults, and secrets that never print.
use vstd::prelude::*;

verus! {

/// What `str::to_lowercase` gives.
pub uninterp spec fn lower_of(s: Seq<char>) -> Seq<char>;

/// Relies on `str::to_lowercase`: the result depends on the characters alone.
#[verifier::external_body]
fn lowercase(s: &str) -> (r: String)
    ensures
        r@ == lower_of(s@),
{
    s.to_lowercase()
}

/// A value that must not appear in logs. It prints as `<REDACTED>`.
pub struct Secret {
    pub secret: String,
}

impl Secret {
    /// Keeps `secret`.
    pub fn from(secret: String) -> (r: Secret)
        ensures
            r.secret == secret,
    {
        Secret { secret }
    }

    /// Keeps a copy of `secret`.
    pub fn from_str(secret: &str) -> (r: Secret)
        ensures
            r.secret@ == secret@,
    {
        Secret { secret: String::from_str(secret) }
    }

    /// The secret itself.
    pub fn raw_secret(&self) -> (r: &str)
        ensures
            r@ == self.secret@,
    {
        self.secret.as_str()
    }

    /// How the secret prints: `<REDACTED>`, whatever it holds.
    pub fn redacted(&self) -> (r: String)
        ensures
            r@ == "<REDACTED>"@,
    {
        String::from_str("<REDACTED>")
    }
}

/// The image registry implementations.
#[derive(Clone, Copy, Debug, PartialEq, Eq, Structural)]
pub enum Implementation {
    /// Amazon's Elastic Container Registry, for production.
    Ecr,
    /// The registry of a local Minikube, for development only.
    Minikube,
}

/// The implementation that an already lowercased setting names.
pub open spec fn implementation_named(lower: Seq<char>) -> Option<Implementation> {
    if lower == "ecr"@ {
        Some(Implementation::Ecr)
    } else if lower == "minikube"@ {
        Some(Implementation::Minikube)
    } else {
        None
    }
}

impl Implementation {
    /// The implementation that a lowercased setting names, if any.
    pub fn from_lowercase(lower: &str) -> (r: Option<Implementation>)
        ensures
            r == implementation_named(lower@),
    {
        if crate::text::str_eq(lower, "ecr") {
            Some(Implementation::Ecr)
        } else if crate::text::str_eq(lower, "minikube") {
            Some(Implementation::Minikube)
        } else {
            None
        }
    }

    /// The implementation that the `IMPLEMENTATION` setting names, ignoring
    /// case; `None` for any other setting.
    pub fn which(setting: &str) -> (r: Option<Implementation>)
        ensures
            r == implementation_named(lower_of(setting@)),
    {
        let lower = lowercase(setting);
        Implementation::from_lowercase(lower.as_str())
    }
}

/// A setting with a default when it is not set.
fn or_default(value: Option<String>, default: &str) -> (r: String)
    ensures
        value matches Some(v) ==> r == v,
        value is None ==> r@ == default@,
{
    match value {
        Some(v) => v,
        None => String::from_str(default),
    }
}

/// The `REGISTRY` setting, `registry.kube-system` when unset.
pub fn registry(value: Option<String>) -> (r: String)
    ensures
        value matches Some(v) ==> r == v,
        value is None ==> r@ == "registry.kube-system"@,
{
    or_default(value, "registry.kube-system")
}

/// The `REPOSITORY` setting, `ocf` when unset.
pub fn repository(value: Option<String>) -> (r: String)
    ensures
        value matches Some(v) ==> r == v,
        value is None ==> r@ == "ocf"@,
{
    or_default(value, "ocf")
}

/// The `IMPLEMENTATION` setting, `Minikube` when unset.
pub fn implementation(value: Option<String>) -> (r: String)
    ensures
        value matches Some(v) ==> r == v,
        value is None ==> r@ == "Minikube"@,
{
    or_default(value, "Minikube")
}

/// A mandatory setting: an empty value counts as unset.
pub fn map_empty_to_error(value: Option<String>) -> (r: Option<String>)
    ensures
        value matches Some(v) && v@.len() > 0 ==> r == value,
        value matches Some(v) && v@.len() == 0 ==> r is None,
        value is None ==> r is None,
{
    match value {
        Some(v) => if v.as_str().unicode_len() == 0 {
            None
        } else {
            Some(v)
        },
        None => None,
    }
}

/// The mandatory `AWS_SECRET_ACCESS_KEY` setting, kept as a secret.
pub fn aws_secret_access_key(value: Option<String>) -> (r: Option<Secret>)
    ensures
        r is Some <==> (value matches Some(v) && v@.len() > 0),
        r matches Some(s) ==> value == Some(s.secret),
{
    match map_empty_to_error(value) {
        Some(v) => Some(Secret::from(v)),
        None => None,
    }
}

} // verus!
