//! The two forms in which a bucket's settings travel: the one that a
//! self-hosted cluster speaks, and the one of the cloud control plane. Each is
//! mapped to and from the canonical [`BucketSettings`].

use crate::error::CoreError;
use crate::error::CoreErrorView;
use crate::settings::bucket_type_name;
use crate::settings::bucket_type_vocabulary;
use crate::settings::durability_name;
use crate::settings::durability_vocabulary;
use crate::settings::non_negative_range;
use crate::settings::parse_bucket_type;
use crate::settings::parse_durability;
use crate::settings::parse_error;
use crate::settings::replica_range;
use crate::settings::BucketSettings;
use crate::settings::BucketSettingsView;
use crate::settings::BucketType;
use crate::settings::DurabilityLevel;
use crate::text::signed_decimal;
use crate::text::signed_decimal_string;
use vstd::prelude::*;
use vstd::string::*;

verus! {

/// A bucket as a self-hosted cluster describes it.
#[derive(Debug, Clone, PartialEq, Eq)]
pub struct JSONBucketSettings {
    pub name: String,
    /// `bucketType`
    pub bucket_type: String,
    /// `replicaNumber`
    pub num_replicas: i64,
    /// `ramQuotaMB`
    pub ram_quota_mb: i64,
    /// `flushEnabled`
    pub flush_enabled: bool,
    /// `durabilityMinLevel`
    pub durability_level: String,
    /// `maxTTL`, in seconds
    pub max_expiry: i64,
}

/// The mathematical content of a [`JSONBucketSettings`].
pub struct JSONBucketSettingsView {
    pub name: Seq<char>,
    pub bucket_type: Seq<char>,
    pub num_replicas: int,
    pub ram_quota_mb: int,
    pub flush_enabled: bool,
    pub durability_level: Seq<char>,
    pub max_expiry: int,
}

impl View for JSONBucketSettings {
    type V = JSONBucketSettingsView;

    open spec fn view(&self) -> JSONBucketSettingsView {
        JSONBucketSettingsView {
            name: self.name@,
            bucket_type: self.bucket_type@,
            num_replicas: self.num_replicas as int,
            ram_quota_mb: self.ram_quota_mb as int,
            flush_enabled: self.flush_enabled,
            durability_level: self.durability_level@,
            max_expiry: self.max_expiry as int,
        }
    }
}

impl DeepView for JSONBucketSettings {
    type V = JSONBucketSettingsView;

    open spec fn deep_view(&self) -> JSONBucketSettingsView {
        self@
    }
}

/// A bucket as the cloud control plane describes it. It says nothing of the
/// bucket's type, flush, durability and expiry, and adds the environment in
/// which the bucket's cluster runs.
#[derive(Debug, Clone, PartialEq, Eq)]
pub struct JSONCloudBucketSettings {
    pub name: String,
    /// `memoryQuota`, in megabytes
    pub ram_quota_mb: i64,
    /// `replicas`
    pub num_replicas: i64,
    pub status: Option<String>,
    pub environment: String,
}

/// The mathematical content of a [`JSONCloudBucketSettings`].
pub struct JSONCloudBucketSettingsView {
    pub name: Seq<char>,
    pub ram_quota_mb: int,
    pub num_replicas: int,
    pub status: Option<Seq<char>>,
    pub environment: Seq<char>,
}

impl View for JSONCloudBucketSettings {
    type V = JSONCloudBucketSettingsView;

    open spec fn view(&self) -> JSONCloudBucketSettingsView {
        JSONCloudBucketSettingsView {
            name: self.name@,
            ram_quota_mb: self.ram_quota_mb as int,
            num_replicas: self.num_replicas as int,
            status: match self.status {
                Some(s) => Some(s@),
                None => None,
            },
            environment: self.environment@,
        }
    }
}

impl DeepView for JSONCloudBucketSettings {
    type V = JSONCloudBucketSettingsView;

    open spec fn deep_view(&self) -> JSONCloudBucketSettingsView {
        self@
    }
}

/// The self-hosted form of `settings`. It has no place for the status.
pub open spec fn onprem_of(settings: BucketSettingsView) -> JSONBucketSettingsView {
    JSONBucketSettingsView {
        name: settings.name,
        bucket_type: bucket_type_name(settings.bucket_type),
        num_replicas: settings.num_replicas as int,
        ram_quota_mb: settings.ram_quota_mb as int,
        flush_enabled: settings.flush_enabled,
        durability_level: durability_name(settings.minimum_durability_level),
        max_expiry: settings.max_expiry as int,
    }
}

/// The settings that the self-hosted form `wire` describes, or the error for
/// its first field, in the order name, type, replicas, memory quota,
/// durability, expiry, that describes none.
pub open spec fn settings_of_onprem(wire: JSONBucketSettingsView) -> Result<
    BucketSettingsView,
    CoreErrorView,
> {
    if wire.name.len() == 0 {
        Err(parse_error("name"@, wire.name, crate::settings::name_range()))
    } else if parse_bucket_type(wire.bucket_type) is None {
        Err(parse_error("bucketType"@, wire.bucket_type, bucket_type_vocabulary()))
    } else if !(0 <= wire.num_replicas <= u32::MAX) {
        Err(parse_error("replicas"@, signed_decimal(wire.num_replicas), replica_range()))
    } else if wire.ram_quota_mb < 0 {
        Err(parse_error("ram"@, signed_decimal(wire.ram_quota_mb), non_negative_range()))
    } else if parse_durability(wire.durability_level) is None {
        Err(parse_error("durability"@, wire.durability_level, durability_vocabulary()))
    } else if wire.max_expiry < 0 {
        Err(parse_error("expiry"@, signed_decimal(wire.max_expiry), non_negative_range()))
    } else {
        Ok(
            BucketSettingsView {
                name: wire.name,
                bucket_type: parse_bucket_type(wire.bucket_type)->0,
                num_replicas: wire.num_replicas as nat,
                ram_quota_mb: wire.ram_quota_mb as nat,
                flush_enabled: wire.flush_enabled,
                minimum_durability_level: parse_durability(wire.durability_level)->0,
                max_expiry: wire.max_expiry as nat,
                status: None,
            },
        )
    }
}

/// The cloud form of `settings`, for a cluster that runs in `environment`.
pub open spec fn cloud_of(
    settings: BucketSettingsView,
    environment: Seq<char>,
) -> JSONCloudBucketSettingsView {
    JSONCloudBucketSettingsView {
        name: settings.name,
        ram_quota_mb: settings.ram_quota_mb as int,
        num_replicas: settings.num_replicas as int,
        status: settings.status,
        environment,
    }
}

/// What the cloud form keeps of `settings`: the fields that it does not
/// carry, which are type, flush, durability and expiry, stand at their
/// defaults.
pub open spec fn cloud_carried(settings: BucketSettingsView) -> BucketSettingsView {
    BucketSettingsView {
        name: settings.name,
        bucket_type: BucketType::Couchbase,
        num_replicas: settings.num_replicas,
        ram_quota_mb: settings.ram_quota_mb,
        flush_enabled: false,
        minimum_durability_level: DurabilityLevel::NoDurability,
        max_expiry: 0,
        status: settings.status,
    }
}

/// What the self-hosted form keeps of `settings`: everything but the status.
pub open spec fn onprem_carried(settings: BucketSettingsView) -> BucketSettingsView {
    BucketSettingsView {
        name: settings.name,
        bucket_type: settings.bucket_type,
        num_replicas: settings.num_replicas,
        ram_quota_mb: settings.ram_quota_mb,
        flush_enabled: settings.flush_enabled,
        minimum_durability_level: settings.minimum_durability_level,
        max_expiry: settings.max_expiry,
        status: None,
    }
}

/// The settings that the cloud form `wire` describes, or the error for its
/// first field, in the order name, replicas, memory quota, that describes
/// none.
pub open spec fn settings_of_cloud(wire: JSONCloudBucketSettingsView) -> Result<
    BucketSettingsView,
    CoreErrorView,
> {
    if wire.name.len() == 0 {
        Err(parse_error("name"@, wire.name, crate::settings::name_range()))
    } else if !(0 <= wire.num_replicas <= u32::MAX) {
        Err(parse_error("replicas"@, signed_decimal(wire.num_replicas), replica_range()))
    } else if wire.ram_quota_mb < 0 {
        Err(parse_error("ram"@, signed_decimal(wire.ram_quota_mb), non_negative_range()))
    } else {
        Ok(
            BucketSettingsView {
                name: wire.name,
                bucket_type: BucketType::Couchbase,
                num_replicas: wire.num_replicas as nat,
                ram_quota_mb: wire.ram_quota_mb as nat,
                flush_enabled: false,
                minimum_durability_level: DurabilityLevel::NoDurability,
                max_expiry: 0,
                status: wire.status,
            },
        )
    }
}

/// Valid settings that go into the self-hosted form come back from it as
/// they were, but for the status, which that form does not carry.
pub proof fn lemma_onprem_round_trip(settings: BucketSettingsView)
    requires
        settings.valid(),
    ensures
        settings_of_onprem(onprem_of(settings)) == Ok::<BucketSettingsView, CoreErrorView>(
            onprem_carried(settings),
        ),
        settings.status is None ==> settings_of_onprem(onprem_of(settings)) == Ok::<
            BucketSettingsView,
            CoreErrorView,
        >(settings),
{
    crate::settings::lemma_bucket_type_name_parses(settings.bucket_type);
    crate::settings::lemma_durability_name_parses(settings.minimum_durability_level);
}

/// Valid settings that go into the cloud form come back from it as they
/// were, but for type, flush, durability and expiry, which that form does not
/// carry; the environment that the form adds is dropped again.
pub proof fn lemma_cloud_round_trip(settings: BucketSettingsView, environment: Seq<char>)
    requires
        settings.valid(),
    ensures
        settings_of_cloud(cloud_of(settings, environment)) == Ok::<BucketSettingsView, CoreErrorView>(
            cloud_carried(settings),
        ),
        settings == cloud_carried(settings) ==> settings_of_cloud(cloud_of(settings, environment))
            == Ok::<BucketSettingsView, CoreErrorView>(settings),
{
}

/// A cloud form that describes settings is found again when those settings
/// are written for the same environment.
pub proof fn lemma_cloud_form_round_trip(wire: JSONCloudBucketSettingsView)
    requires
        settings_of_cloud(wire) is Ok,
    ensures
        cloud_of(settings_of_cloud(wire)->Ok_0, wire.environment) == wire,
        settings_of_cloud(wire)->Ok_0.name == wire.name,
{
}

/// A self-hosted form that describes settings is found again when those
/// settings are written, with the bucket type under its canonical name.
pub proof fn lemma_onprem_form_round_trip(wire: JSONBucketSettingsView)
    requires
        settings_of_onprem(wire) is Ok,
    ensures
        onprem_of(settings_of_onprem(wire)->Ok_0) == (JSONBucketSettingsView {
            bucket_type: bucket_type_name(parse_bucket_type(wire.bucket_type)->0),
            ..wire
        }),
{
}

impl JSONBucketSettings {
    /// The self-hosted form of `settings`.
    pub fn from_settings(settings: &BucketSettings) -> (wire: JSONBucketSettings)
        ensures
            wire@ == onprem_of(settings@),
    {
        JSONBucketSettings {
            name: settings.name().clone(),
            bucket_type: String::from_str(settings.bucket_type().as_str()),
            num_replicas: settings.num_replicas() as i64,
            ram_quota_mb: settings.ram_quota_mb() as i64,
            flush_enabled: settings.flush_enabled(),
            durability_level: String::from_str(settings.minimum_durability_level().as_str()),
            max_expiry: settings.max_expiry() as i64,
        }
    }

    /// The settings that this form describes.
    pub fn to_settings(&self) -> (r: Result<BucketSettings, CoreError>)
        ensures
            crate::error::result_view(r) == settings_of_onprem(self@),
            r is Ok ==> r->Ok_0@.valid(),
    {
        if self.name.as_str().unicode_len() == 0 {
            return Err(
                CoreError::ParseError {
                    field: String::from_str("name"),
                    value: self.name.clone(),
                    allowed: String::from_str("a non-empty name"),
                },
            );
        }
        let bucket_type = match BucketType::try_from(self.bucket_type.as_str()) {
            Ok(kind) => kind,
            Err(e) => {
                return Err(e);
            },
        };
        if self.num_replicas < 0 || self.num_replicas > 0xffff_ffffi64 {
            return Err(
                CoreError::ParseError {
                    field: String::from_str("replicas"),
                    value: signed_decimal_string(self.num_replicas),
                    allowed: String::from_str("an integer from 0 to 4294967295"),
                },
            );
        }
        if self.ram_quota_mb < 0 {
            return Err(
                CoreError::ParseError {
                    field: String::from_str("ram"),
                    value: signed_decimal_string(self.ram_quota_mb),
                    allowed: String::from_str("an integer from 0 to 9223372036854775807"),
                },
            );
        }
        let level = match DurabilityLevel::try_from(self.durability_level.as_str()) {
            Ok(level) => level,
            Err(e) => {
                return Err(e);
            },
        };
        if self.max_expiry < 0 {
            return Err(
                CoreError::ParseError {
                    field: String::from_str("expiry"),
                    value: signed_decimal_string(self.max_expiry),
                    allowed: String::from_str("an integer from 0 to 9223372036854775807"),
                },
            );
        }
        BucketSettings::new(
            self.name.clone(),
            bucket_type,
            self.num_replicas as u32,
            self.ram_quota_mb as u64,
            self.flush_enabled,
            level,
            self.max_expiry as u64,
            None,
        )
    }
}

impl JSONCloudBucketSettings {
    /// The cloud form of `settings`, for a cluster that runs in
    /// `environment`.
    pub fn from_settings(settings: &BucketSettings, environment: &str) -> (wire:
        JSONCloudBucketSettings)
        ensures
            wire@ == cloud_of(settings@, environment@),
    {
        JSONCloudBucketSettings {
            name: settings.name().clone(),
            ram_quota_mb: settings.ram_quota_mb() as i64,
            num_replicas: settings.num_replicas() as i64,
            status: match settings.status() {
                Some(s) => Some(s.clone()),
                None => None,
            },
            environment: String::from_str(environment),
        }
    }

    /// Copies the form.
    pub fn duplicate(&self) -> (copy: JSONCloudBucketSettings)
        ensures
            copy@ == self@,
    {
        JSONCloudBucketSettings {
            name: self.name.clone(),
            ram_quota_mb: self.ram_quota_mb,
            num_replicas: self.num_replicas,
            status: match &self.status {
                Some(s) => Some(s.clone()),
                None => None,
            },
            environment: self.environment.clone(),
        }
    }

    /// The settings that this form describes.
    pub fn to_settings(&self) -> (r: Result<BucketSettings, CoreError>)
        ensures
            crate::error::result_view(r) == settings_of_cloud(self@),
            r is Ok ==> r->Ok_0@.valid(),
    {
        if self.name.as_str().unicode_len() == 0 {
            return Err(
                CoreError::ParseError {
                    field: String::from_str("name"),
                    value: self.name.clone(),
                    allowed: String::from_str("a non-empty name"),
                },
            );
        }
        if self.num_replicas < 0 || self.num_replicas > 0xffff_ffffi64 {
            return Err(
                CoreError::ParseError {
                    field: String::from_str("replicas"),
                    value: signed_decimal_string(self.num_replicas),
                    allowed: String::from_str("an integer from 0 to 4294967295"),
                },
            );
        }
        if self.ram_quota_mb < 0 {
            return Err(
                CoreError::ParseError {
                    field: String::from_str("ram"),
                    value: signed_decimal_string(self.ram_quota_mb),
                    allowed: String::from_str("an integer from 0 to 9223372036854775807"),
                },
            );
        }
        BucketSettings::new(
            self.name.clone(),
            BucketType::Couchbase,
            self.num_replicas as u32,
            self.ram_quota_mb as u64,
            false,
            DurabilityLevel::NoDurability,
            0,
            match &self.status {
                Some(s) => Some(s.clone()),
                None => None,
            },
        )
    }
}

} // verus!
