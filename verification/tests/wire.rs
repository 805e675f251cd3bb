use couchbase_shell::error::CoreError;
use couchbase_shell::form::encode_form;
use couchbase_shell::settings::BucketSettings;
use couchbase_shell::settings::BucketType;
use couchbase_shell::settings::DurabilityLevel;
use couchbase_shell::wire::JSONBucketSettings;
use couchbase_shell::wire::JSONCloudBucketSettings;

fn sample(status: Option<&str>) -> BucketSettings {
    BucketSettings::new(
        "travel-sample".to_string(),
        BucketType::Ephemeral,
        2,
        1024,
        true,
        DurabilityLevel::MajorityAndPersistActive,
        86400,
        status.map(|s| s.to_string()),
    )
    .unwrap()
}

fn onprem() -> JSONBucketSettings {
    JSONBucketSettings {
        name: "travel-sample".to_string(),
        bucket_type: "ephemeral".to_string(),
        num_replicas: 2,
        ram_quota_mb: 1024,
        flush_enabled: true,
        durability_level: "majorityAndPersistActive".to_string(),
        max_expiry: 86400,
    }
}

fn cloud() -> JSONCloudBucketSettings {
    JSONCloudBucketSettings {
        name: "travel-sample".to_string(),
        ram_quota_mb: 1024,
        num_replicas: 2,
        status: Some("healthy".to_string()),
        environment: "hosted".to_string(),
    }
}

fn parse_error(field: &str, value: &str, allowed: &str) -> CoreError {
    CoreError::ParseError {
        field: field.to_string(),
        value: value.to_string(),
        allowed: allowed.to_string(),
    }
}

#[test]
fn settings_project_to_the_self_hosted_form() {
    assert_eq!(JSONBucketSettings::from_settings(&sample(Some("healthy"))), onprem());
}

#[test]
fn the_self_hosted_form_round_trips_but_for_the_status() {
    let settings = sample(None);
    let back = JSONBucketSettings::from_settings(&settings).to_settings();
    assert_eq!(back, Ok(sample(None)));
    let with_status = sample(Some("healthy"));
    let back = JSONBucketSettings::from_settings(&with_status).to_settings();
    assert_eq!(back, Ok(sample(None)));
}

#[test]
fn the_self_hosted_form_knows_a_couchbase_bucket_under_two_names() {
    let mut wire = onprem();
    wire.bucket_type = "membase".to_string();
    let settings = wire.to_settings().unwrap();
    assert_eq!(settings.bucket_type(), BucketType::Couchbase);
    assert_eq!(JSONBucketSettings::from_settings(&settings).bucket_type, "couchbase");
}

#[test]
fn a_self_hosted_form_with_a_bad_field_is_refused() {
    let mut wire = onprem();
    wire.name = String::new();
    assert_eq!(wire.to_settings(), Err(parse_error("name", "", "a non-empty name")));
    let mut wire = onprem();
    wire.bucket_type = "tape".to_string();
    assert_eq!(
        wire.to_settings(),
        Err(parse_error("bucketType", "tape", "couchbase, membase, memcached, ephemeral"))
    );
    let mut wire = onprem();
    wire.num_replicas = -1;
    assert_eq!(
        wire.to_settings(),
        Err(parse_error("replicas", "-1", "an integer from 0 to 4294967295"))
    );
    let mut wire = onprem();
    wire.ram_quota_mb = -100;
    assert_eq!(wire.to_settings(), Err(parse_error("ram", "-100", "an integer from 0 to 9223372036854775807")));
    let mut wire = onprem();
    wire.durability_level = "".to_string();
    assert_eq!(
        wire.to_settings(),
        Err(parse_error(
            "durability",
            "",
            "none, majority, majorityAndPersistActive, persistToMajority"
        ))
    );
    let mut wire = onprem();
    wire.max_expiry = -7;
    assert_eq!(wire.to_settings(), Err(parse_error("expiry", "-7", "an integer from 0 to 9223372036854775807")));
}

#[test]
fn settings_project_to_the_cloud_form() {
    assert_eq!(JSONCloudBucketSettings::from_settings(&sample(Some("healthy")), "hosted"), cloud());
}

#[test]
fn the_cloud_form_round_trips_what_it_carries() {
    let back = JSONCloudBucketSettings::from_settings(&sample(Some("healthy")), "inVpc")
        .to_settings()
        .unwrap();
    assert_eq!(back.name(), "travel-sample");
    assert_eq!(back.num_replicas(), 2);
    assert_eq!(back.ram_quota_mb(), 1024);
    assert_eq!(back.status(), Some(&"healthy".to_string()));
    assert_eq!(back.bucket_type(), BucketType::Couchbase);
    assert!(!back.flush_enabled());
    assert_eq!(back.minimum_durability_level(), DurabilityLevel::NoDurability);
    assert_eq!(back.max_expiry(), 0);
    assert_eq!(JSONCloudBucketSettings::from_settings(&back, "hosted"), cloud());
}

#[test]
fn a_cloud_form_with_a_bad_field_is_refused() {
    let mut wire = cloud();
    wire.name = String::new();
    assert_eq!(wire.to_settings(), Err(parse_error("name", "", "a non-empty name")));
    let mut wire = cloud();
    wire.num_replicas = 4294967296;
    assert_eq!(
        wire.to_settings(),
        Err(parse_error("replicas", "4294967296", "an integer from 0 to 4294967295"))
    );
    let mut wire = cloud();
    wire.ram_quota_mb = -1;
    assert_eq!(wire.to_settings(), Err(parse_error("ram", "-1", "an integer from 0 to 9223372036854775807")));
}

#[test]
fn a_cloud_form_is_copied_field_by_field() {
    assert_eq!(cloud().duplicate(), cloud());
}

#[test]
fn the_form_lists_every_field_under_the_servers_key() {
    let form = sample(Some("healthy")).as_form();
    let expected: Vec<(String, String)> = [
        ("name", "travel-sample"),
        ("bucketType", "ephemeral"),
        ("ramQuotaMB", "1024"),
        ("replicaNumber", "2"),
        ("flushEnabled", "1"),
        ("durabilityMinLevel", "majorityAndPersistActive"),
        ("maxTTL", "86400"),
    ]
    .iter()
    .map(|(k, v)| (k.to_string(), v.to_string()))
    .collect();
    assert_eq!(form, expected);
}

#[test]
fn a_form_is_encoded_as_urlencoded_pairs() {
    let pairs = vec![
        ("name".to_string(), "my bucket".to_string()),
        ("ramQuotaMB".to_string(), "100".to_string()),
        ("note".to_string(), "a&b=c".to_string()),
    ];
    assert_eq!(
        encode_form(&pairs),
        Ok("name=my+bucket&ramQuotaMB=100&note=a%26b%3Dc".to_string())
    );
    assert_eq!(encode_form(&Vec::new()), Ok(String::new()));
}

#[test]
fn the_form_of_settings_is_encoded_for_the_update() {
    let settings = BucketSettings::new(
        "default".to_string(),
        BucketType::Couchbase,
        1,
        100,
        false,
        DurabilityLevel::NoDurability,
        0,
        None,
    )
    .unwrap();
    assert_eq!(
        encode_form(&settings.as_form()),
        Ok("name=default&bucketType=couchbase&ramQuotaMB=100&replicaNumber=1&flushEnabled=0&durabilityMinLevel=none&maxTTL=0".to_string())
    );
}
