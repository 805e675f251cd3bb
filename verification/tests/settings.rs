use couchbase_shell::error::CoreError;
use couchbase_shell::settings::update_bucket_settings;
use couchbase_shell::settings::BucketEdit;
use couchbase_shell::settings::BucketSettings;
use couchbase_shell::settings::BucketType;
use couchbase_shell::settings::DurabilityLevel;

fn travel() -> BucketSettings {
    BucketSettings::new(
        "travel".to_string(),
        BucketType::Couchbase,
        1,
        256,
        false,
        DurabilityLevel::NoDurability,
        0,
        None,
    )
    .unwrap()
}

fn parse_error(field: &str, value: &str, allowed: &str) -> CoreError {
    CoreError::ParseError {
        field: field.to_string(),
        value: value.to_string(),
        allowed: allowed.to_string(),
    }
}

const LEVELS: &str = "none, majority, majorityAndPersistActive, persistToMajority";

#[test]
fn durability_names_parse_to_the_four_levels() {
    assert_eq!(DurabilityLevel::try_from("none"), Ok(DurabilityLevel::NoDurability));
    assert_eq!(DurabilityLevel::try_from("majority"), Ok(DurabilityLevel::Majority));
    assert_eq!(
        DurabilityLevel::try_from("majorityAndPersistActive"),
        Ok(DurabilityLevel::MajorityAndPersistActive)
    );
    assert_eq!(
        DurabilityLevel::try_from("persistToMajority"),
        Ok(DurabilityLevel::PersistToMajority)
    );
}

#[test]
fn durability_names_are_case_sensitive() {
    assert_eq!(
        DurabilityLevel::try_from("Majority"),
        Err(parse_error("durability", "Majority", LEVELS))
    );
    assert_eq!(
        DurabilityLevel::try_from("persisttomajority"),
        Err(parse_error("durability", "persisttomajority", LEVELS))
    );
}

#[test]
fn other_text_is_no_durability_level_and_the_error_lists_the_four() {
    for text in ["", "one", "all", "majority ", "majorityAndPersistOnMaster"] {
        match DurabilityLevel::try_from(text) {
            Err(CoreError::ParseError { field, value, allowed }) => {
                assert_eq!(field, "durability");
                assert_eq!(value, text);
                assert_eq!(allowed, LEVELS);
            }
            other => panic!("{:?}", other),
        }
    }
}

#[test]
fn durability_levels_are_written_by_their_names() {
    for level in [
        DurabilityLevel::NoDurability,
        DurabilityLevel::Majority,
        DurabilityLevel::MajorityAndPersistActive,
        DurabilityLevel::PersistToMajority,
    ] {
        assert_eq!(DurabilityLevel::try_from(level.as_str()), Ok(level));
    }
    assert_eq!(DurabilityLevel::NoDurability.as_str(), "none");
}

#[test]
fn bucket_types_parse_and_print() {
    assert_eq!(BucketType::try_from("couchbase"), Ok(BucketType::Couchbase));
    assert_eq!(BucketType::try_from("membase"), Ok(BucketType::Couchbase));
    assert_eq!(BucketType::try_from("memcached"), Ok(BucketType::Memcached));
    assert_eq!(BucketType::try_from("ephemeral"), Ok(BucketType::Ephemeral));
    assert_eq!(
        BucketType::try_from("disk"),
        Err(parse_error("bucketType", "disk", "couchbase, membase, memcached, ephemeral"))
    );
    assert_eq!(BucketType::Ephemeral.as_str(), "ephemeral");
}

#[test]
fn settings_need_a_name_and_numbers_that_fit() {
    let unnamed = BucketSettings::new(
        String::new(),
        BucketType::Couchbase,
        0,
        100,
        false,
        DurabilityLevel::NoDurability,
        0,
        None,
    );
    assert_eq!(unnamed, Err(parse_error("name", "", "a non-empty name")));
    let too_much_memory = BucketSettings::new(
        "b".to_string(),
        BucketType::Couchbase,
        0,
        9223372036854775808,
        false,
        DurabilityLevel::NoDurability,
        0,
        None,
    );
    assert_eq!(
        too_much_memory,
        Err(parse_error("ram", "9223372036854775808", "an integer from 0 to 9223372036854775807"))
    );
    let too_long = BucketSettings::new(
        "b".to_string(),
        BucketType::Couchbase,
        0,
        1,
        false,
        DurabilityLevel::NoDurability,
        u64::MAX,
        None,
    );
    assert_eq!(
        too_long,
        Err(parse_error("expiry", "18446744073709551615", "an integer from 0 to 9223372036854775807"))
    );
}

#[test]
fn getters_give_back_what_settings_were_made_with() {
    let settings = BucketSettings::new(
        "beer".to_string(),
        BucketType::Ephemeral,
        2,
        512,
        true,
        DurabilityLevel::Majority,
        3600,
        Some("healthy".to_string()),
    )
    .unwrap();
    assert_eq!(settings.name(), "beer");
    assert_eq!(settings.bucket_type(), BucketType::Ephemeral);
    assert_eq!(settings.num_replicas(), 2);
    assert_eq!(settings.ram_quota_mb(), 512);
    assert!(settings.flush_enabled());
    assert_eq!(settings.minimum_durability_level(), DurabilityLevel::Majority);
    assert_eq!(settings.max_expiry(), 3600);
    assert_eq!(settings.status(), Some(&"healthy".to_string()));
    assert_eq!(settings.clone(), settings);
}

#[test]
fn an_edit_without_fields_changes_nothing() {
    let mut settings = travel();
    let edit = BucketEdit::unset();
    assert!(edit.is_empty());
    assert!(!edit.touches_restricted());
    assert_eq!(update_bucket_settings(&mut settings, &edit), Ok(()));
    assert_eq!(settings, travel());
}

#[test]
fn an_edit_changes_the_fields_it_sets_and_no_others() {
    let mut settings = travel();
    let edit = BucketEdit { ram: Some(1024), ..BucketEdit::unset() };
    assert_eq!(update_bucket_settings(&mut settings, &edit), Ok(()));
    assert_eq!(settings.ram_quota_mb(), 1024);
    assert_eq!(settings.num_replicas(), 1);
    assert!(!settings.flush_enabled());

    let edit = BucketEdit {
        ram: None,
        replicas: Some(3),
        flush: Some(true),
        durability: Some("persistToMajority".to_string()),
        expiry: Some(60),
    };
    assert!(edit.touches_restricted());
    assert_eq!(update_bucket_settings(&mut settings, &edit), Ok(()));
    assert_eq!(settings.name(), "travel");
    assert_eq!(settings.ram_quota_mb(), 1024);
    assert_eq!(settings.num_replicas(), 3);
    assert!(settings.flush_enabled());
    assert_eq!(settings.minimum_durability_level(), DurabilityLevel::PersistToMajority);
    assert_eq!(settings.max_expiry(), 60);
}

#[test]
fn an_edit_can_switch_flush_off() {
    let mut settings = travel();
    let on = BucketEdit { flush: Some(true), ..BucketEdit::unset() };
    let off = BucketEdit { flush: Some(false), ..BucketEdit::unset() };
    assert_eq!(update_bucket_settings(&mut settings, &on), Ok(()));
    assert!(settings.flush_enabled());
    assert_eq!(update_bucket_settings(&mut settings, &off), Ok(()));
    assert!(!settings.flush_enabled());
}

#[test]
fn negative_numbers_are_refused_and_nothing_is_changed() {
    let mut settings = travel();
    let edit = BucketEdit { ram: Some(-1), replicas: Some(2), ..BucketEdit::unset() };
    assert_eq!(
        update_bucket_settings(&mut settings, &edit),
        Err(parse_error("ram", "-1", "an integer from 0 to 9223372036854775807"))
    );
    assert_eq!(settings, travel());

    let edit = BucketEdit { ram: Some(512), replicas: Some(-2), ..BucketEdit::unset() };
    assert_eq!(
        update_bucket_settings(&mut settings, &edit),
        Err(parse_error("replicas", "-2", "an integer from 0 to 4294967295"))
    );
    assert_eq!(settings, travel());

    let edit = BucketEdit { ram: Some(512), expiry: Some(-30), ..BucketEdit::unset() };
    assert_eq!(
        update_bucket_settings(&mut settings, &edit),
        Err(parse_error("expiry", "-30", "an integer from 0 to 9223372036854775807"))
    );
    assert_eq!(settings, travel());
}

#[test]
fn replica_counts_beyond_32_bits_are_refused() {
    let mut settings = travel();
    let edit = BucketEdit { replicas: Some(4294967296), ..BucketEdit::unset() };
    assert_eq!(
        update_bucket_settings(&mut settings, &edit),
        Err(parse_error("replicas", "4294967296", "an integer from 0 to 4294967295"))
    );
    let edit = BucketEdit { replicas: Some(4294967295), ..BucketEdit::unset() };
    assert_eq!(update_bucket_settings(&mut settings, &edit), Ok(()));
    assert_eq!(settings.num_replicas(), 4294967295);
}

#[test]
fn an_unknown_durability_is_refused_and_nothing_is_changed() {
    let mut settings = travel();
    let edit = BucketEdit {
        ram: Some(512),
        durability: Some("one".to_string()),
        ..BucketEdit::unset()
    };
    assert_eq!(
        update_bucket_settings(&mut settings, &edit),
        Err(parse_error("durability", "one", LEVELS))
    );
    assert_eq!(settings, travel());
}

#[test]
fn the_first_bad_field_is_the_one_reported() {
    let mut settings = travel();
    let edit = BucketEdit {
        ram: Some(-5),
        replicas: Some(-1),
        flush: None,
        durability: Some("x".to_string()),
        expiry: Some(-1),
    };
    assert_eq!(
        update_bucket_settings(&mut settings, &edit),
        Err(parse_error("ram", "-5", "an integer from 0 to 9223372036854775807"))
    );
}
