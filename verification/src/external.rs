use vstd::prelude::*;

verus! {

/// URIs are carried through the protocol types as `url::Url` values.
#[verifier::external_type_specification]
#[verifier::external_body]
pub struct ExUrl(url::Url);

/// Free-form JSON payloads are carried as `serde_json::Value`.
#[verifier::external_type_specification]
#[verifier::external_body]
pub struct ExJsonValue(serde_json::Value);

/// `url::Url::clone`, which the derived `Clone` impls of the types that hold a
/// URI call. Nothing is claimed of the copy: no verified function relies on it.
pub assume_specification[ <::url::Url as core::clone::Clone>::clone ](u: &::url::Url) -> ::url::Url;

/// `serde_json::Value::clone`, which the derived `Clone` impls of the types that
/// hold a JSON payload call. Nothing is claimed of the copy: no verified
/// function relies on it.
pub assume_specification[ <serde_json::Value as core::clone::Clone>::clone ](v: &serde_json::Value) -> serde_json::Value;

} // verus!
