//! The canonical settings of a bucket, and the sparse set of edits that a
//! command may ask for.

use crate::error::CoreError;
use crate::error::CoreErrorView;
use crate::text::same_text;
use crate::text::signed_decimal;
use crate::text::signed_decimal_string;
use vstd::prelude::*;
use vstd::string::*;

verus! {

/// How far a write must have spread before the server acknowledges it.
#[derive(Debug, Clone, Copy, PartialEq, Eq, Structural)]
pub enum DurabilityLevel {
    /// No durability is asked for; written `none`.
    NoDurability,
    Majority,
    MajorityAndPersistActive,
    PersistToMajority,
}

/// The kind of a bucket.
#[derive(Debug, Clone, Copy, PartialEq, Eq, Structural)]
pub enum BucketType {
    Couchbase,
    Memcached,
    Ephemeral,
}

/// The names of the durability levels, as an error message lists them.
pub open spec fn durability_vocabulary() -> Seq<char> {
    "none, majority, majorityAndPersistActive, persistToMajority"@
}

/// The names of the bucket types, as an error message lists them.
pub open spec fn bucket_type_vocabulary() -> Seq<char> {
    "couchbase, membase, memcached, ephemeral"@
}

/// What an error message says of a memory quota or an expiry, which must
/// be zero or more and fit a signed 64-bit field.
pub open spec fn non_negative_range() -> Seq<char> {
    "an integer from 0 to 9223372036854775807"@
}

/// What an error message says of a bucket's name.
pub open spec fn name_range() -> Seq<char> {
    "a non-empty name"@
}

/// What an error message says of a replica count.
pub open spec fn replica_range() -> Seq<char> {
    "an integer from 0 to 4294967295"@
}

/// The durability level that `alias` names, if it names one. Names are
/// case-sensitive.
pub open spec fn parse_durability(alias: Seq<char>) -> Option<DurabilityLevel> {
    if alias == "none"@ {
        Some(DurabilityLevel::NoDurability)
    } else if alias == "majority"@ {
        Some(DurabilityLevel::Majority)
    } else if alias == "majorityAndPersistActive"@ {
        Some(DurabilityLevel::MajorityAndPersistActive)
    } else if alias == "persistToMajority"@ {
        Some(DurabilityLevel::PersistToMajority)
    } else {
        None
    }
}

/// The name of a durability level.
pub open spec fn durability_name(level: DurabilityLevel) -> Seq<char> {
    match level {
        DurabilityLevel::NoDurability => "none"@,
        DurabilityLevel::Majority => "majority"@,
        DurabilityLevel::MajorityAndPersistActive => "majorityAndPersistActive"@,
        DurabilityLevel::PersistToMajority => "persistToMajority"@,
    }
}

/// The bucket type that `alias` names, if it names one. A Couchbase bucket
/// has two names.
pub open spec fn parse_bucket_type(alias: Seq<char>) -> Option<BucketType> {
    if alias == "couchbase"@ || alias == "membase"@ {
        Some(BucketType::Couchbase)
    } else if alias == "memcached"@ {
        Some(BucketType::Memcached)
    } else if alias == "ephemeral"@ {
        Some(BucketType::Ephemeral)
    } else {
        None
    }
}

/// The name under which a bucket type is written.
pub open spec fn bucket_type_name(kind: BucketType) -> Seq<char> {
    match kind {
        BucketType::Couchbase => "couchbase"@,
        BucketType::Memcached => "memcached"@,
        BucketType::Ephemeral => "ephemeral"@,
    }
}

/// The error for a `value` that `field` does not accept.
pub open spec fn parse_error(field: Seq<char>, value: Seq<char>, allowed: Seq<char>) -> CoreErrorView {
    CoreErrorView::ParseError { field, value, allowed }
}

/// Every durability level is found again from its name.
pub proof fn lemma_durability_name_parses(level: DurabilityLevel)
    ensures
        parse_durability(durability_name(level)) == Some(level),
{
    reveal_strlit("none");
    reveal_strlit("majority");
    reveal_strlit("majorityAndPersistActive");
    reveal_strlit("persistToMajority");
    match level {
        DurabilityLevel::NoDurability => {},
        DurabilityLevel::Majority => {
            assert("majority"@.len() != "none"@.len());
        },
        DurabilityLevel::MajorityAndPersistActive => {
            assert("majorityAndPersistActive"@.len() != "none"@.len());
            assert("majorityAndPersistActive"@.len() != "majority"@.len());
        },
        DurabilityLevel::PersistToMajority => {
            assert("persistToMajority"@.len() != "none"@.len());
            assert("persistToMajority"@.len() != "majority"@.len());
            assert("persistToMajority"@.len() != "majorityAndPersistActive"@.len());
        },
    }
}

/// Every bucket type is found again from its name.
pub proof fn lemma_bucket_type_name_parses(kind: BucketType)
    ensures
        parse_bucket_type(bucket_type_name(kind)) == Some(kind),
{
    reveal_strlit("couchbase");
    reveal_strlit("membase");
    reveal_strlit("memcached");
    reveal_strlit("ephemeral");
    match kind {
        BucketType::Couchbase => {},
        BucketType::Memcached => {
            assert("memcached"@[2] != "couchbase"@[2]);
            assert("memcached"@.len() != "membase"@.len());
        },
        BucketType::Ephemeral => {
            assert("ephemeral"@[0] != "couchbase"@[0]);
            assert("ephemeral"@.len() != "membase"@.len());
            assert("ephemeral"@[0] != "memcached"@[0]);
        },
    }
}

impl DurabilityLevel {
    /// Reads a durability level from its name. Any text but the four names
    /// is refused, with an error that lists them.
    pub fn try_from(alias: &str) -> (r: Result<DurabilityLevel, CoreError>)
        ensures
            match parse_durability(alias@) {
                Some(level) => r == Ok::<DurabilityLevel, CoreError>(level),
                None => r is Err && r->Err_0@ == parse_error(
                    "durability"@,
                    alias@,
                    durability_vocabulary(),
                ),
            },
    {
        if same_text(alias, "none") {
            Ok(DurabilityLevel::NoDurability)
        } else if same_text(alias, "majority") {
            Ok(DurabilityLevel::Majority)
        } else if same_text(alias, "majorityAndPersistActive") {
            Ok(DurabilityLevel::MajorityAndPersistActive)
        } else if same_text(alias, "persistToMajority") {
            Ok(DurabilityLevel::PersistToMajority)
        } else {
            Err(
                CoreError::ParseError {
                    field: String::from_str("durability"),
                    value: String::from_str(alias),
                    allowed: String::from_str(
                        "none, majority, majorityAndPersistActive, persistToMajority",
                    ),
                },
            )
        }
    }

    /// The name of the level.
    pub fn as_str(&self) -> (name: &'static str)
        ensures
            name@ == durability_name(*self),
    {
        match self {
            DurabilityLevel::NoDurability => "none",
            DurabilityLevel::Majority => "majority",
            DurabilityLevel::MajorityAndPersistActive => "majorityAndPersistActive",
            DurabilityLevel::PersistToMajority => "persistToMajority",
        }
    }
}

impl BucketType {
    /// Reads a bucket type from its name. Any other text is refused, with an
    /// error that lists the names.
    pub fn try_from(alias: &str) -> (r: Result<BucketType, CoreError>)
        ensures
            match parse_bucket_type(alias@) {
                Some(kind) => r == Ok::<BucketType, CoreError>(kind),
                None => r is Err && r->Err_0@ == parse_error(
                    "bucketType"@,
                    alias@,
                    bucket_type_vocabulary(),
                ),
            },
    {
        if same_text(alias, "couchbase") || same_text(alias, "membase") {
            Ok(BucketType::Couchbase)
        } else if same_text(alias, "memcached") {
            Ok(BucketType::Memcached)
        } else if same_text(alias, "ephemeral") {
            Ok(BucketType::Ephemeral)
        } else {
            Err(
                CoreError::ParseError {
                    field: String::from_str("bucketType"),
                    value: String::from_str(alias),
                    allowed: String::from_str("couchbase, membase, memcached, ephemeral"),
                },
            )
        }
    }

    /// The name of the type.
    pub fn as_str(&self) -> (name: &'static str)
        ensures
            name@ == bucket_type_name(*self),
    {
        match self {
            BucketType::Couchbase => "couchbase",
            BucketType::Memcached => "memcached",
            BucketType::Ephemeral => "ephemeral",
        }
    }
}

/// The mathematical content of a [`BucketSettings`].
pub struct BucketSettingsView {
    pub name: Seq<char>,
    pub bucket_type: BucketType,
    pub num_replicas: nat,
    pub ram_quota_mb: nat,
    pub flush_enabled: bool,
    pub minimum_durability_level: DurabilityLevel,
    /// In seconds.
    pub max_expiry: nat,
    pub status: Option<Seq<char>>,
}

impl BucketSettingsView {
    /// What holds of every bucket's settings: the bucket has a name, and its
    /// numbers fit the signed fields in which they travel.
    pub open spec fn valid(self) -> bool {
        &&& self.name.len() > 0
        &&& self.num_replicas <= u32::MAX
        &&& self.ram_quota_mb <= i64::MAX
        &&& self.max_expiry <= i64::MAX
    }
}

/// The settings with the given fields, where they are valid; else the
/// error for the first of name, memory quota and expiry that is not.
pub open spec fn settings_with(fields: BucketSettingsView) -> Result<
    BucketSettingsView,
    CoreErrorView,
> {
    if fields.name.len() == 0 {
        Err(parse_error("name"@, fields.name, name_range()))
    } else if fields.ram_quota_mb > i64::MAX {
        Err(parse_error("ram"@, crate::text::decimal(fields.ram_quota_mb), non_negative_range()))
    } else if fields.max_expiry > i64::MAX {
        Err(parse_error("expiry"@, crate::text::decimal(fields.max_expiry), non_negative_range()))
    } else {
        Ok(fields)
    }
}

/// The settings of one bucket, in the form that the core works on.
#[derive(Debug, PartialEq, Eq)]
pub struct BucketSettings {
    name: String,
    bucket_type: BucketType,
    num_replicas: u32,
    ram_quota_mb: u64,
    flush_enabled: bool,
    minimum_durability_level: DurabilityLevel,
    max_expiry: u64,
    status: Option<String>,
}

impl View for BucketSettings {
    type V = BucketSettingsView;

    closed spec fn view(&self) -> BucketSettingsView {
        BucketSettingsView {
            name: self.name@,
            bucket_type: self.bucket_type,
            num_replicas: self.num_replicas as nat,
            ram_quota_mb: self.ram_quota_mb as nat,
            flush_enabled: self.flush_enabled,
            minimum_durability_level: self.minimum_durability_level,
            max_expiry: self.max_expiry as nat,
            status: match self.status {
                Some(s) => Some(s@),
                None => None,
            },
        }
    }
}

impl DeepView for BucketSettings {
    type V = BucketSettingsView;

    open spec fn deep_view(&self) -> BucketSettingsView {
        self@
    }
}

impl Clone for BucketSettings {
    fn clone(&self) -> (copy: Self)
        ensures
            copy@ == self@,
    {
        proof {
            use_type_invariant(self);
        }
        BucketSettings {
            name: self.name.clone(),
            bucket_type: self.bucket_type,
            num_replicas: self.num_replicas,
            ram_quota_mb: self.ram_quota_mb,
            flush_enabled: self.flush_enabled,
            minimum_durability_level: self.minimum_durability_level,
            max_expiry: self.max_expiry,
            status: match &self.status {
                Some(s) => Some(s.clone()),
                None => None,
            },
        }
    }
}

impl BucketSettings {
    #[verifier::type_invariant]
    spec fn well_formed(self) -> bool {
        self@.valid()
    }

    /// The settings with the given fields, or the reason why there are no
    /// such settings: a bucket has a name, and its memory quota and expiry fit
    /// a signed 64-bit field.
    pub fn new(
        name: String,
        bucket_type: BucketType,
        num_replicas: u32,
        ram_quota_mb: u64,
        flush_enabled: bool,
        minimum_durability_level: DurabilityLevel,
        max_expiry: u64,
        status: Option<String>,
    ) -> (r: Result<BucketSettings, CoreError>)
        ensures
            crate::error::result_view(r) == settings_with(
                BucketSettingsView {
                    name: name@,
                    bucket_type,
                    num_replicas: num_replicas as nat,
                    ram_quota_mb: ram_quota_mb as nat,
                    flush_enabled,
                    minimum_durability_level,
                    max_expiry: max_expiry as nat,
                    status: status.deep_view(),
                },
            ),
            r is Ok ==> r->Ok_0@.valid(),
    {
        if name.as_str().unicode_len() == 0 {
            return Err(
                CoreError::ParseError {
                    field: String::from_str("name"),
                    value: name,
                    allowed: String::from_str("a non-empty name"),
                },
            );
        }
        if ram_quota_mb > 0x7fff_ffff_ffff_ffffu64 {
            return Err(
                CoreError::ParseError {
                    field: String::from_str("ram"),
                    value: crate::text::decimal_string(ram_quota_mb),
                    allowed: String::from_str("an integer from 0 to 9223372036854775807"),
                },
            );
        }
        if max_expiry > 0x7fff_ffff_ffff_ffffu64 {
            return Err(
                CoreError::ParseError {
                    field: String::from_str("expiry"),
                    value: crate::text::decimal_string(max_expiry),
                    allowed: String::from_str("an integer from 0 to 9223372036854775807"),
                },
            );
        }
        Ok(
            BucketSettings {
                name,
                bucket_type,
                num_replicas,
                ram_quota_mb,
                flush_enabled,
                minimum_durability_level,
                max_expiry,
                status,
            },
        )
    }

    /// The bucket's name. It is never empty.
    pub fn name(&self) -> (name: &String)
        ensures
            name@ == self@.name,
            self@.valid(),
    {
        proof {
            use_type_invariant(self);
        }
        &self.name
    }

    pub fn bucket_type(&self) -> (kind: BucketType)
        ensures
            kind == self@.bucket_type,
    {
        self.bucket_type
    }

    pub fn num_replicas(&self) -> (n: u32)
        ensures
            n == self@.num_replicas,
    {
        self.num_replicas
    }

    /// The memory quota in megabytes. It fits a signed 64-bit field.
    pub fn ram_quota_mb(&self) -> (mb: u64)
        ensures
            mb == self@.ram_quota_mb,
            mb <= i64::MAX,
    {
        proof {
            use_type_invariant(self);
        }
        self.ram_quota_mb
    }

    pub fn flush_enabled(&self) -> (enabled: bool)
        ensures
            enabled == self@.flush_enabled,
    {
        self.flush_enabled
    }

    pub fn minimum_durability_level(&self) -> (level: DurabilityLevel)
        ensures
            level == self@.minimum_durability_level,
    {
        self.minimum_durability_level
    }

    /// The longest life of a document in seconds; 0 for no limit. It fits a
    /// signed 64-bit field.
    pub fn max_expiry(&self) -> (seconds: u64)
        ensures
            seconds == self@.max_expiry,
            seconds <= i64::MAX,
    {
        proof {
            use_type_invariant(self);
        }
        self.max_expiry
    }

    /// What the server last said of the bucket's health, where it said so.
    pub fn status(&self) -> (status: Option<&String>)
        ensures
            status.deep_view() == self@.status,
    {
        match &self.status {
            Some(s) => Some(s),
            None => None,
        }
    }
}

/// The fields of a bucket's settings that a command asks to change. A field
/// that is `None` was not asked for and stays as it is.
#[derive(Debug, Clone, PartialEq, Eq)]
pub struct BucketEdit {
    /// The new memory quota in megabytes, as the command got it.
    pub ram: Option<i64>,
    /// The new number of replicas, as the command got it.
    pub replicas: Option<i64>,
    pub flush: Option<bool>,
    /// The name of the new minimum durability level.
    pub durability: Option<String>,
    /// The new maximum expiry in seconds, as the command got it.
    pub expiry: Option<i64>,
}

/// The mathematical content of a [`BucketEdit`].
pub struct BucketEditView {
    pub ram: Option<int>,
    pub replicas: Option<int>,
    pub flush: Option<bool>,
    pub durability: Option<Seq<char>>,
    pub expiry: Option<int>,
}

impl View for BucketEdit {
    type V = BucketEditView;

    open spec fn view(&self) -> BucketEditView {
        BucketEditView {
            ram: match self.ram {
                Some(v) => Some(v as int),
                None => None,
            },
            replicas: match self.replicas {
                Some(v) => Some(v as int),
                None => None,
            },
            flush: self.flush,
            durability: match self.durability {
                Some(d) => Some(d@),
                None => None,
            },
            expiry: match self.expiry {
                Some(v) => Some(v as int),
                None => None,
            },
        }
    }
}

impl BucketEditView {
    /// Whether no field is asked to change.
    pub open spec fn is_empty(self) -> bool {
        &&& self.ram is None
        &&& self.replicas is None
        &&& self.flush is None
        &&& self.durability is None
        &&& self.expiry is None
    }

    /// Whether the edit touches a field that only a self-hosted cluster lets
    /// its operator set: flush, durability or expiry.
    pub open spec fn touches_restricted(self) -> bool {
        self.flush is Some || self.durability is Some || self.expiry is Some
    }
}

/// The settings that result from applying `edit` to `settings`, or the error
/// for the first field of `edit`, in the order ram, replicas, durability,
/// expiry, whose value cannot be taken.
pub open spec fn edited(settings: BucketSettingsView, edit: BucketEditView) -> Result<
    BucketSettingsView,
    CoreErrorView,
> {
    if edit.ram is Some && edit.ram->0 < 0 {
        Err(parse_error("ram"@, signed_decimal(edit.ram->0), non_negative_range()))
    } else if edit.replicas is Some && !(0 <= edit.replicas->0 <= u32::MAX) {
        Err(parse_error("replicas"@, signed_decimal(edit.replicas->0), replica_range()))
    } else if edit.durability is Some && parse_durability(edit.durability->0) is None {
        Err(parse_error("durability"@, edit.durability->0, durability_vocabulary()))
    } else if edit.expiry is Some && edit.expiry->0 < 0 {
        Err(parse_error("expiry"@, signed_decimal(edit.expiry->0), non_negative_range()))
    } else {
        Ok(
            BucketSettingsView {
                name: settings.name,
                bucket_type: settings.bucket_type,
                num_replicas: if edit.replicas is Some {
                    edit.replicas->0 as nat
                } else {
                    settings.num_replicas
                },
                ram_quota_mb: if edit.ram is Some {
                    edit.ram->0 as nat
                } else {
                    settings.ram_quota_mb
                },
                flush_enabled: if edit.flush is Some {
                    edit.flush->0
                } else {
                    settings.flush_enabled
                },
                minimum_durability_level: if edit.durability is Some {
                    parse_durability(edit.durability->0)->0
                } else {
                    settings.minimum_durability_level
                },
                max_expiry: if edit.expiry is Some {
                    edit.expiry->0 as nat
                } else {
                    settings.max_expiry
                },
                status: settings.status,
            },
        )
    }
}

impl BucketEdit {
    /// The edit that asks for nothing.
    pub fn unset() -> (edit: BucketEdit)
        ensures
            edit@.is_empty(),
    {
        BucketEdit { ram: None, replicas: None, flush: None, durability: None, expiry: None }
    }

    /// Whether no field is asked to change.
    pub fn is_empty(&self) -> (r: bool)
        ensures
            r == self@.is_empty(),
    {
        self.ram.is_none() && self.replicas.is_none() && self.flush.is_none()
            && self.durability.is_none() && self.expiry.is_none()
    }

    /// Whether the edit touches flush, durability or expiry.
    pub fn touches_restricted(&self) -> (r: bool)
        ensures
            r == self@.touches_restricted(),
    {
        self.flush.is_some() || self.durability.is_some() || self.expiry.is_some()
    }
}

/// Applies the fields that `edit` sets to `settings` and leaves the others as
/// they are. Where a value of `edit` cannot be taken, nothing is changed.
pub fn update_bucket_settings(settings: &mut BucketSettings, edit: &BucketEdit) -> (r: Result<
    (),
    CoreError,
>)
    ensures
        match edited(old(settings)@, edit@) {
            Ok(after) => r is Ok && final(settings)@ == after,
            Err(e) => r is Err && r->Err_0@ == e && final(settings)@ == old(settings)@,
        },
        final(settings)@.valid(),
{
    proof {
        use_type_invariant(&*settings);
    }
    if let Some(ram) = edit.ram {
        if ram < 0 {
            return Err(
                CoreError::ParseError {
                    field: String::from_str("ram"),
                    value: signed_decimal_string(ram),
                    allowed: String::from_str("an integer from 0 to 9223372036854775807"),
                },
            );
        }
    }
    if let Some(replicas) = edit.replicas {
        if replicas < 0 || replicas > 0xffff_ffffi64 {
            return Err(
                CoreError::ParseError {
                    field: String::from_str("replicas"),
                    value: signed_decimal_string(replicas),
                    allowed: String::from_str("an integer from 0 to 4294967295"),
                },
            );
        }
    }
    let mut level: Option<DurabilityLevel> = None;
    if let Some(alias) = &edit.durability {
        match DurabilityLevel::try_from(alias.as_str()) {
            Ok(parsed) => {
                level = Some(parsed);
            },
            Err(e) => {
                return Err(e);
            },
        }
    }
    if let Some(expiry) = edit.expiry {
        if expiry < 0 {
            return Err(
                CoreError::ParseError {
                    field: String::from_str("expiry"),
                    value: signed_decimal_string(expiry),
                    allowed: String::from_str("an integer from 0 to 9223372036854775807"),
                },
            );
        }
    }
    if let Some(ram) = edit.ram {
        settings.ram_quota_mb = ram as u64;
    }
    if let Some(replicas) = edit.replicas {
        settings.num_replicas = replicas as u32;
    }
    if let Some(flush) = edit.flush {
        settings.flush_enabled = flush;
    }
    if let Some(parsed) = level {
        settings.minimum_durability_level = parsed;
    }
    if let Some(expiry) = edit.expiry {
        settings.max_expiry = expiry as u64;
    }
    Ok(())
}

/// An edit that sets no field leaves every bucket's settings as they are.
pub proof fn lemma_empty_edit_changes_nothing(settings: BucketSettingsView, edit: BucketEditView)
    requires
        edit.is_empty(),
    ensures
        edited(settings, edit) == Ok::<BucketSettingsView, CoreErrorView>(settings),
{
}

/// An edit that can be applied to valid settings leaves them valid, and
/// keeps the bucket's name.
pub proof fn lemma_edit_keeps_validity(settings: BucketSettingsView, edit: BucketEditView)
    requires
        settings.valid(),
        edit.ram is Some ==> edit.ram->0 <= i64::MAX,
        edit.expiry is Some ==> edit.expiry->0 <= i64::MAX,
        edited(settings, edit) is Ok,
    ensures
        edited(settings, edit)->Ok_0.valid(),
        edited(settings, edit)->Ok_0.name == settings.name,
{
}

} // verus!
