//! The generator: identifiers from live time, randomness and a fixed worker
//! identity, safe under concurrent use.

use vstd::prelude::*;

use rand::Rng;
use rand::SeedableRng;

use crate::sulid::DATA_CENTER_MASK;
use crate::sulid::MACHINE_MASK;
use crate::sulid::Sulid;
use crate::sulid::WORKER_MASK;
use crate::sulid::data_center_field;
use crate::sulid::lemma_v1_fields;
use crate::sulid::lemma_v2_fields;
use crate::sulid::machine_field;
use crate::sulid::pack_v1;
use crate::sulid::pack_v2;
use crate::sulid::worker_field;

verus! {

#[verifier::external_type_specification]
#[verifier::external_body]
#[verifier::reject_recursive_types(T)]
pub struct ExMutex<T: ?Sized>(std::sync::Mutex<T>);

#[verifier::external_type_specification]
#[verifier::external_body]
pub struct ExStdRng(rand::rngs::StdRng);

#[verifier::external_type_specification]
#[verifier::external_body]
pub struct ExSystemTime(std::time::SystemTime);

/// The moment `ms` milliseconds after the Unix epoch, a function of the
/// argument alone.
pub uninterp spec fn epoch_plus_ms(ms: u64) -> std::time::SystemTime;

/// Relies on `std::time::SystemTime::UNIX_EPOCH` and duration addition: the
/// moment `ms` milliseconds after the Unix epoch.
#[verifier::external_body]
pub(crate) fn epoch_offset(ms: u64) -> (r: std::time::SystemTime)
    ensures
        r == epoch_plus_ms(ms),
{
    std::time::SystemTime::UNIX_EPOCH + std::time::Duration::from_millis(ms)
}

/// Relies on `std::sync::Mutex::new` and `rand::rngs::StdRng::from_entropy`:
/// a freshly seeded randomness source behind a mutual-exclusion guard.
/// Nothing is promised of the values it will produce.
#[verifier::external_body]
fn new_rng_source() -> std::sync::Mutex<rand::rngs::StdRng> {
    std::sync::Mutex::new(rand::rngs::StdRng::from_entropy())
}

/// Relies on `std::sync::Mutex::lock` and `rand::Rng::gen`: one draw of 128
/// random bits from the guarded source, serialized against concurrent
/// drawers. Nothing is promised of the value; every caller states what holds
/// of any outcome. If another thread panicked while holding the lock, the
/// draw panics rather than producing a value from a poisoned source.
#[verifier::external_body]
fn draw_u128(rng: &std::sync::Mutex<rand::rngs::StdRng>) -> u128 {
    rng.lock().unwrap().gen()
}

/// Relies on `rand::Rng::gen` for a caller-supplied source: one draw of 128
/// random bits. Nothing is promised of the value.
#[verifier::external_body]
pub(crate) fn draw_from_source<R: Rng + ?Sized>(source: &mut R) -> u128 {
    source.gen()
}

/// Relies on `rand::thread_rng` and `rand::Rng::gen`: one draw of 128 random
/// bits from the thread-local generator. Nothing is promised of the value.
#[verifier::external_body]
pub(crate) fn thread_random_u128() -> u128 {
    rand::thread_rng().gen()
}

/// Relies on `std::time::SystemTime::now` and `duration_since`: the wall
/// clock's milliseconds since the Unix epoch, clamped to zero when the clock
/// reads before the epoch. Nothing is promised of the value; callers mask it
/// to the timestamp field's width.
#[verifier::external_body]
pub(crate) fn now_unix_ms() -> u128 {
    match std::time::SystemTime::now().duration_since(std::time::SystemTime::UNIX_EPOCH) {
        Ok(d) => d.as_millis(),
        Err(_) => 0,
    }
}

/// The field layout and worker identity a generator packs into every
/// identifier, fixed at construction.
#[derive(Debug, Eq, Clone, Copy, PartialEq, Structural)]
pub enum Version {
    /// Split identity: a 5-bit data-center id over a 5-bit machine id.
    V1 {
        /// The ID of the data center (5 bits).
        data_center_id: u8,
        /// The ID of the machine within the data center (5 bits).
        machine_id: u8,
    },
    /// Combined identity: a single 10-bit worker id.
    V2 {
        /// The ID standing for the combination of data center and machine.
        worker_id: u16,
    },
}

/// A generator of Sulids for one fixed worker identity.
///
/// It owns the only mutable state of the library: a randomness source behind
/// a mutual-exclusion guard, so that concurrent callers serialize briefly on
/// one draw per generated identifier.
pub struct SulidGenerator {
    version: Version,
    rng: std::sync::Mutex<rand::rngs::StdRng>,
}

impl SulidGenerator {
    /// The layout and identity this generator was constructed with.
    pub closed spec fn spec_version(&self) -> Version {
        self.version
    }

    /// Well-formedness: the identity fits its declared bit width.
    pub open spec fn wf(&self) -> bool {
        match self.spec_version() {
            Version::V1 { data_center_id, machine_id } => data_center_id < 32 && machine_id < 32,
            Version::V2 { worker_id } => worker_id < 1024,
        }
    }

    /// Create a generator with a split identity: a data-center id and a
    /// machine id, each at most 31.
    pub fn v1_new(data_center_id: u8, machine_id: u8) -> (r: Self)
        requires
            data_center_id < 32,
            machine_id < 32,
        ensures
            r.spec_version() == (Version::V1 { data_center_id, machine_id }),
            r.wf(),
    {
        SulidGenerator {
            version: Version::V1 { data_center_id, machine_id },
            rng: new_rng_source(),
        }
    }

    /// Create a generator with a combined identity: a worker id of at most
    /// 1023.
    pub fn v2_new(worker_id: u16) -> (r: Self)
        requires
            worker_id < 1024,
        ensures
            r.spec_version() == (Version::V2 { worker_id }),
            r.wf(),
    {
        SulidGenerator { version: Version::V2 { worker_id }, rng: new_rng_source() }
    }

    /// Generate a Sulid from the live clock and the generator's own
    /// randomness source.
    ///
    /// The result packs the generator's identity with some reading of the
    /// clock and some draw of the randomness source.
    pub fn generate(&self) -> (r: Sulid)
        ensures
            self.spec_version() matches Version::V1 { data_center_id, machine_id } ==> {
                &&& exists|ts: u64, rnd: u128|
                    r@ == #[trigger] pack_v1(ts, rnd, data_center_id, machine_id)
                &&& data_center_field(r@) == data_center_id & DATA_CENTER_MASK
                &&& machine_field(r@) == machine_id & MACHINE_MASK
            },
            self.spec_version() matches Version::V2 { worker_id } ==> {
                &&& exists|ts: u64, rnd: u128| r@ == #[trigger] pack_v2(ts, rnd, worker_id)
                &&& worker_field(r@) == worker_id & WORKER_MASK
            },
    {
        let ms = now_unix_ms();
        proof {
            assert(ms & 0xFFFF_FFFF_FFFFu128 <= 0xFFFF_FFFF_FFFFu128) by (bit_vector);
        }
        let timestamp_ms = (ms & 0xFFFF_FFFF_FFFF) as u64;
        let random = draw_u128(&self.rng);
        let r = self.generate_with(timestamp_ms, random);
        proof {
            match self.spec_version() {
                Version::V1 { data_center_id, machine_id } => {
                    lemma_v1_fields(timestamp_ms, random, data_center_id, machine_id);
                },
                Version::V2 { worker_id } => {
                    lemma_v2_fields(timestamp_ms, random, worker_id);
                },
            }
        }
        r
    }

    /// Generate a Sulid from a caller-supplied timestamp and random value:
    /// the pure profile, for deterministic callers.
    ///
    /// The result is exactly the generator's identity packed with the given
    /// timestamp and random value, each masked to its field's width.
    pub fn generate_with(&self, timestamp_ms: u64, random: u128) -> (r: Sulid)
        ensures
            self.spec_version() matches Version::V1 { data_center_id, machine_id } ==> r@
                == pack_v1(timestamp_ms, random, data_center_id, machine_id),
            self.spec_version() matches Version::V2 { worker_id } ==> r@ == pack_v2(
                timestamp_ms,
                random,
                worker_id,
            ),
    {
        match self.version {
            Version::V1 { data_center_id, machine_id } => {
                proof {
                    lemma_v1_fields(timestamp_ms, random, data_center_id, machine_id);
                }
                Sulid::v1_from_parts(timestamp_ms, random, data_center_id, machine_id)
            },
            Version::V2 { worker_id } => {
                proof {
                    lemma_v2_fields(timestamp_ms, random, worker_id);
                }
                Sulid::v2_from_parts(timestamp_ms, random, worker_id)
            },
        }
    }
}

} // verus!
