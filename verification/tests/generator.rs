//! Tests of the generator and of the live-construction conveniences.

use rand::rngs::mock::StepRng;
use std::time::Duration;
use std::time::SystemTime;
use sulid::Sulid;
use sulid::SulidGenerator;

fn to_unix_ms(t: SystemTime) -> u64 {
    t.duration_since(SystemTime::UNIX_EPOCH)
        .unwrap_or(Duration::ZERO)
        .as_millis() as u64
}

fn now_unix_ms() -> u64 {
    to_unix_ms(SystemTime::now())
}

#[test]
fn generate_unique_ids() {
    let generator = SulidGenerator::v1_new(1, 1);

    let id1 = generator.generate_with(1, 1);
    let id2 = generator.generate_with(2, 2);

    assert_ne!(id1, id2);

    let generator = SulidGenerator::v2_new(1);

    let id1 = generator.generate_with(1, 1);
    let id2 = generator.generate_with(2, 2);

    assert_ne!(id1, id2);
}

#[test]
fn generator_generate_unique_ids() {
    let generator = SulidGenerator::v1_new(1, 1);

    let id1 = generator.generate();
    let id2 = generator.generate();

    assert_ne!(id1, id2);

    let generator = SulidGenerator::v2_new(1);

    let id1 = generator.generate();
    let id2 = generator.generate();

    assert_ne!(id1, id2);
}

#[test]
fn generate_with_packs_the_identity() {
    let generator = SulidGenerator::v1_new(17, 23);
    let id = generator.generate_with(987_654_321, 42);
    assert_eq!(id, Sulid::from_parts(987_654_321, 42, 17, 23));
    assert_eq!(id.data_center_id(), 17);
    assert_eq!(id.machine_id(), 23);

    let generator = SulidGenerator::v2_new(1001);
    let id = generator.generate_with(987_654_321, 42);
    assert_eq!(id, Sulid::v2_from_parts(987_654_321, 42, 1001));
    assert_eq!(id.worker_id(), 1001);
}

#[test]
fn generated_ids_share_identity_and_differ_in_random() {
    let generator = SulidGenerator::v1_new(5, 6);
    let id1 = generator.generate();
    let id2 = generator.generate();
    assert_eq!(id1.data_center_id(), 5);
    assert_eq!(id1.machine_id(), 6);
    assert_eq!(id2.data_center_id(), 5);
    assert_eq!(id2.machine_id(), 6);
    assert_ne!(id1, id2);
}

#[test]
fn test_dynamic() {
    let sulid = Sulid::new(0, 0);
    let encoded = sulid.to_string();
    let sulid2 = Sulid::from_string(&encoded).expect("failed to deserialize");

    println!("{}", encoded);
    println!("{:?}", sulid);
    println!("{:?}", sulid2);
    assert_eq!(sulid, sulid2);
}

#[test]
fn test_source() {
    let mut source = StepRng::new(123, 0);

    let u1 = Sulid::with_source(&mut source, 0, 0);
    let dt = now_unix_ms() + 1;
    let u2 = Sulid::from_datetime_with_source(dt, &mut source, 0, 0);
    let u3 = Sulid::from_datetime_with_source(dt, &mut source, 0, 0);

    assert!(u1 < u2);
    assert_eq!(u2, u3);
}

#[test]
fn test_order() {
    let dt = now_unix_ms();
    let sulid1 = Sulid::from_datetime(dt, 0, 0);
    let sulid2 = Sulid::from_datetime(dt + 1, 0, 0);
    assert!(sulid1 < sulid2);
}

#[test]
fn test_timestamp() {
    let ts = now_unix_ms();
    let sulid = Sulid::from_datetime(ts, 0, 0);

    assert_eq!(sulid.timestamp_ms(), ts);
}

#[test]
fn test_datetime() {
    let dt = SystemTime::now();
    let sulid = Sulid::from_datetime(to_unix_ms(dt), 0, 0);

    println!("{:?}, {:?}", dt, sulid.datetime());
    assert!(sulid.datetime() <= dt);
    assert!(sulid.datetime() + Duration::from_millis(1) >= dt);
}

#[test]
fn nil_is_at_unix_epoch() {
    assert_eq!(Sulid::nil().datetime(), SystemTime::UNIX_EPOCH);
}
