//! The form in which a self-hosted cluster takes a bucket's settings, and
//! its encoding as `application/x-www-form-urlencoded` text.

use crate::settings::bucket_type_name;
use crate::settings::durability_name;
use crate::settings::BucketSettings;
use crate::settings::BucketSettingsView;
use crate::text::decimal;
use crate::text::decimal_string;
use vstd::prelude::*;
use vstd::string::*;

verus! {

/// The error of `serde_urlencoded`'s serializer, carried through as an
/// opaque value.
#[verifier::external_type_specification]
#[verifier::external_body]
pub struct ExFormError(serde_urlencoded::ser::Error);

/// What `serde_urlencoded::to_string` makes of a list of pairs of texts: the
/// encoded text, or nothing where it refuses the list.
pub uninterp spec fn form_urlencoded(pairs: Seq<(Seq<char>, Seq<char>)>) -> Option<Seq<char>>;

/// Calls `serde_urlencoded::to_string` on the list of pairs. The contract
/// claims that the outcome depends on the texts of the pairs alone: it is
/// `Ok` with the text that `form_urlencoded` names, or `Err` where that is
/// nothing.
#[verifier::external_body]
fn urlencode(pairs: &Vec<(String, String)>) -> (r: Result<String, serde_urlencoded::ser::Error>)
    ensures
        match r {
            Ok(text) => form_urlencoded(pairs.deep_view()) == Some(text@),
            Err(_) => form_urlencoded(pairs.deep_view()) is None,
        },
{
    serde_urlencoded::to_string(pairs)
}

/// What an attempt to encode `pairs` comes to: the encoded text, or a
/// serialization error where the encoder refused.
pub open spec fn encoding_agrees(
    pairs: Seq<(Seq<char>, Seq<char>)>,
    r: Result<String, crate::error::CoreError>,
) -> bool {
    match form_urlencoded(pairs) {
        Some(text) => r is Ok && r->Ok_0@ == text,
        None => r is Err && r->Err_0 is SerializeError,
    }
}

/// Encodes a list of pairs as `application/x-www-form-urlencoded` text.
pub fn encode_form(pairs: &Vec<(String, String)>) -> (r: Result<String, crate::error::CoreError>)
    ensures
        encoding_agrees(pairs.deep_view(), r),
{
    match urlencode(pairs) {
        Ok(text) => Ok(text),
        Err(e) => Err(crate::error::CoreError::SerializeError { detail: e.to_string() }),
    }
}

/// How a flag is written in a form.
pub open spec fn flag_text(flag: bool) -> Seq<char> {
    if flag {
        "1"@
    } else {
        "0"@
    }
}

/// The form of `settings`: every field that a self-hosted cluster lets its
/// operator set, under the key by which the server knows it.
pub open spec fn form_of(settings: BucketSettingsView) -> Seq<(Seq<char>, Seq<char>)> {
    seq![
        ("name"@, settings.name),
        ("bucketType"@, bucket_type_name(settings.bucket_type)),
        ("ramQuotaMB"@, decimal(settings.ram_quota_mb)),
        ("replicaNumber"@, decimal(settings.num_replicas)),
        ("flushEnabled"@, flag_text(settings.flush_enabled)),
        ("durabilityMinLevel"@, durability_name(settings.minimum_durability_level)),
        ("maxTTL"@, decimal(settings.max_expiry)),
    ]
}

impl BucketSettings {
    /// The settings as the pairs of a form.
    pub fn as_form(&self) -> (form: Vec<(String, String)>)
        ensures
            form.deep_view() == form_of(self@),
    {
        let mut form: Vec<(String, String)> = Vec::new();
        form.push((String::from_str("name"), self.name().clone()));
        form.push((String::from_str("bucketType"), String::from_str(self.bucket_type().as_str())));
        form.push((String::from_str("ramQuotaMB"), decimal_string(self.ram_quota_mb())));
        form.push((String::from_str("replicaNumber"), decimal_string(self.num_replicas() as u64)));
        form.push(
            (
                String::from_str("flushEnabled"),
                String::from_str(
                    if self.flush_enabled() {
                        "1"
                    } else {
                        "0"
                    },
                ),
            ),
        );
        form.push(
            (
                String::from_str("durabilityMinLevel"),
                String::from_str(self.minimum_durability_level().as_str()),
            ),
        );
        form.push((String::from_str("maxTTL"), decimal_string(self.max_expiry())));
        form
    }
}

} // verus!
