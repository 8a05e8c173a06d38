//! The identifier type: bit-exact packing and unpacking of the 128-bit value.

use vstd::prelude::*;

use crate::generator::draw_from_source;
use crate::generator::epoch_offset;
use crate::generator::epoch_plus_ms;
use crate::generator::now_unix_ms;
use crate::generator::thread_random_u128;

use crate::codec::DecodeError;
use crate::codec::ULID_LEN;
use crate::codec::decode_str;
use crate::codec::decoded_of;
use crate::codec::encode_u128;
use crate::codec::encoding_of;
use crate::codec::is_ascii_seq;
use crate::codec::lemma_text_ordering;
use crate::codec::lex_lt;
use crate::codec::valid_b32;

verus! {

/// Number of bits in the timestamp field.
pub const TIME_BITS: u32 = 48;
/// Number of bits in the random field.
pub const RAND_BITS: u32 = 70;
/// Number of bits in the data-center-id field (V1 layout).
pub const DATA_CENTER_BITS: u32 = 5;
/// Number of bits in the machine-id field (V1 layout).
pub const MACHINE_BITS: u32 = 5;
/// Number of bits in the worker-id field (V2 layout).
pub const WORKER_BITS: u32 = 10;

/// Mask of the timestamp field, right-aligned.
pub const TIME_MASK: u64 = 0xFFFF_FFFF_FFFF;
/// Mask of the random field, right-aligned.
pub const RAND_MASK: u128 = 0x3F_FFFF_FFFF_FFFF_FFFF;
/// Mask of the data-center-id field, right-aligned.
pub const DATA_CENTER_MASK: u8 = 0x1F;
/// Mask of the machine-id field, right-aligned.
pub const MACHINE_MASK: u8 = 0x1F;
/// Mask of the worker-id field, right-aligned.
pub const WORKER_MASK: u16 = 0x3FF;

/// The timestamp field of a packed value: the top 48 bits.
pub open spec fn timestamp_field(v: u128) -> u64 {
    (v >> 80) as u64
}

/// The random field of a packed value: bits 10 to 79.
pub open spec fn random_field(v: u128) -> u128 {
    (v >> 10) & RAND_MASK
}

/// The data-center-id field of a packed value (V1 layout): bits 5 to 9.
pub open spec fn data_center_field(v: u128) -> u8 {
    ((v >> 5) & 0x1F) as u8
}

/// The machine-id field of a packed value (V1 layout): the low 5 bits.
pub open spec fn machine_field(v: u128) -> u8 {
    (v & 0x1F) as u8
}

/// The worker-id field of a packed value (V2 layout): the low 10 bits.
pub open spec fn worker_field(v: u128) -> u16 {
    (v & 0x3FF) as u16
}

/// V1 packing: every field is masked to its declared width, then placed at
/// its fixed offset.
pub open spec fn pack_v1(timestamp_ms: u64, random: u128, data_center_id: u8, machine_id: u8) -> u128 {
    (((timestamp_ms & TIME_MASK) as u128) << 80)
        | ((random & RAND_MASK) << 10)
        | (((data_center_id & DATA_CENTER_MASK) as u128) << 5)
        | ((machine_id & MACHINE_MASK) as u128)
}

/// V2 packing: every field is masked to its declared width, then placed at
/// its fixed offset.
pub open spec fn pack_v2(timestamp_ms: u64, random: u128, worker_id: u16) -> u128 {
    (((timestamp_ms & TIME_MASK) as u128) << 80)
        | ((random & RAND_MASK) << 10)
        | ((worker_id & WORKER_MASK) as u128)
}

/// A 128-bit lexicographically sortable identifier.
///
/// The packed value holds, from high to low bits, a 48-bit millisecond
/// timestamp, a 70-bit random component, and a 10-bit worker identity
/// (either a 5-bit data-center id over a 5-bit machine id, or one combined
/// worker id). Ordering and equality are those of the packed 128-bit value.
#[derive(Debug, Eq, Hash, Clone, Copy, PartialEq, Structural)]
pub struct Sulid(u128);

impl View for Sulid {
    type V = u128;

    closed spec fn view(&self) -> u128 {
        self.0
    }
}

impl Sulid {
    /// Create a Sulid from its integer representation.
    pub fn from_u128(u: u128) -> (r: Self)
        ensures
            r@ == u,
    {
        Sulid(u)
    }

    /// The integer representation.
    pub fn u128(&self) -> (r: u128)
        ensures
            r == self@,
    {
        self.0
    }

    /// The nil Sulid: all 128 bits zero.
    pub fn nil() -> (r: Sulid)
        ensures
            r@ == 0u128,
    {
        Sulid(0)
    }

    /// Whether this Sulid is nil.
    pub fn is_nil(&self) -> (r: bool)
        ensures
            r == (self@ == 0u128),
    {
        self.0 == 0
    }

    /// Create a Sulid from separated parts, V1 layout.
    ///
    /// Any bits of an argument beyond its field's declared width are
    /// discarded.
    pub fn from_parts(timestamp_ms: u64, random: u128, data_center_id: u8, machine_id: u8) -> (r: Sulid)
        ensures
            r@ == pack_v1(timestamp_ms, random, data_center_id, machine_id),
    {
        let time_part = (timestamp_ms & TIME_MASK) as u128;
        let rand_part = random & RAND_MASK;
        let data_center_part = (data_center_id & DATA_CENTER_MASK) as u128;
        let machine_part = (machine_id & MACHINE_MASK) as u128;
        Sulid((time_part << 80) | (rand_part << 10) | (data_center_part << 5) | machine_part)
    }

    /// Create a Sulid from separated parts, V1 layout.
    pub fn v1_from_parts(timestamp_ms: u64, random: u128, data_center_id: u8, machine_id: u8) -> (r: Sulid)
        ensures
            r@ == pack_v1(timestamp_ms, random, data_center_id, machine_id),
    {
        Self::from_parts(timestamp_ms, random, data_center_id, machine_id)
    }

    /// Create a Sulid from separated parts, V2 layout.
    ///
    /// Any bits of an argument beyond its field's declared width are
    /// discarded.
    pub fn v2_from_parts(timestamp_ms: u64, random: u128, worker_id: u16) -> (r: Sulid)
        ensures
            r@ == pack_v2(timestamp_ms, random, worker_id),
    {
        let time_part = (timestamp_ms & TIME_MASK) as u128;
        let rand_part = random & RAND_MASK;
        let worker_part = (worker_id & WORKER_MASK) as u128;
        Sulid((time_part << 80) | (rand_part << 10) | worker_part)
    }

    /// Create a Sulid from separated parts, V1 layout, in the strict
    /// configuration: a caller must prove every field fits its declared
    /// width, and an out-of-range argument is a precondition violation
    /// rather than being masked.
    pub fn from_parts_strict(
        timestamp_ms: u64,
        random: u128,
        data_center_id: u8,
        machine_id: u8,
    ) -> (r: Sulid)
        requires
            timestamp_ms <= TIME_MASK,
            random <= RAND_MASK,
            data_center_id <= DATA_CENTER_MASK,
            machine_id <= MACHINE_MASK,
        ensures
            r@ == pack_v1(timestamp_ms, random, data_center_id, machine_id),
    {
        Self::from_parts(timestamp_ms, random, data_center_id, machine_id)
    }

    /// Create a Sulid from separated parts, V2 layout, in the strict
    /// configuration: a caller must prove every field fits its declared
    /// width.
    pub fn v2_from_parts_strict(timestamp_ms: u64, random: u128, worker_id: u16) -> (r: Sulid)
        requires
            timestamp_ms <= TIME_MASK,
            random <= RAND_MASK,
            worker_id <= WORKER_MASK,
        ensures
            r@ == pack_v2(timestamp_ms, random, worker_id),
    {
        Self::v2_from_parts(timestamp_ms, random, worker_id)
    }

    /// The timestamp section: milliseconds since the Unix epoch.
    pub fn timestamp_ms(&self) -> (r: u64)
        ensures
            r == timestamp_field(self@),
    {
        (self.0 >> 80) as u64
    }

    /// The random section.
    pub fn random(&self) -> (r: u128)
        ensures
            r == random_field(self@),
    {
        (self.0 >> 10) & RAND_MASK
    }

    /// The data-center-id section (V1 layout).
    pub fn data_center_id(&self) -> (r: u8)
        ensures
            r == data_center_field(self@),
    {
        ((self.0 >> 5) & 0x1F) as u8
    }

    /// The machine-id section (V1 layout).
    pub fn machine_id(&self) -> (r: u8)
        ensures
            r == machine_field(self@),
    {
        (self.0 & 0x1F) as u8
    }

    /// The worker-id section (V2 layout).
    pub fn worker_id(&self) -> (r: u16)
        ensures
            r == worker_field(self@),
    {
        (self.0 & 0x3FF) as u16
    }

    /// Create a Sulid from the current wall-clock time, a draw of the
    /// thread-local randomness source, and the given identity, V1 layout.
    ///
    /// Using this constructor gives no monotonic sort order within one
    /// millisecond; see [`crate::SulidGenerator`].
    pub fn new(data_center_id: u8, machine_id: u8) -> (r: Sulid)
        ensures
            exists|ts: u64, rnd: u128|
                r@ == #[trigger] pack_v1(ts, rnd, data_center_id, machine_id),
            data_center_field(r@) == data_center_id & DATA_CENTER_MASK,
            machine_field(r@) == machine_id & MACHINE_MASK,
    {
        let ms = now_unix_ms();
        proof {
            assert(ms & 0xFFFF_FFFF_FFFFu128 <= 0xFFFF_FFFF_FFFFu128) by (bit_vector);
        }
        Self::from_datetime((ms & 0xFFFF_FFFF_FFFF) as u64, data_center_id, machine_id)
    }

    /// Create a Sulid from the current wall-clock time and a draw of the
    /// given randomness source, V1 layout.
    pub fn with_source<R: rand::Rng>(source: &mut R, data_center_id: u8, machine_id: u8) -> (r:
        Sulid)
        ensures
            exists|ts: u64, rnd: u128|
                r@ == #[trigger] pack_v1(ts, rnd, data_center_id, machine_id),
            data_center_field(r@) == data_center_id & DATA_CENTER_MASK,
            machine_field(r@) == machine_id & MACHINE_MASK,
    {
        let ms = now_unix_ms();
        proof {
            assert(ms & 0xFFFF_FFFF_FFFFu128 <= 0xFFFF_FFFF_FFFFu128) by (bit_vector);
        }
        Self::from_datetime_with_source(
            (ms & 0xFFFF_FFFF_FFFF) as u64,
            source,
            data_center_id,
            machine_id,
        )
    }

    /// Create a Sulid from a given timestamp (milliseconds since the Unix
    /// epoch) and a draw of the thread-local randomness source, V1 layout.
    ///
    /// This can be useful when migrating data to Sulid identifiers.
    pub fn from_datetime(timestamp_ms: u64, data_center_id: u8, machine_id: u8) -> (r: Sulid)
        ensures
            exists|rnd: u128| r@ == #[trigger] pack_v1(
                timestamp_ms,
                rnd,
                data_center_id,
                machine_id,
            ),
            timestamp_field(r@) == timestamp_ms & TIME_MASK,
            data_center_field(r@) == data_center_id & DATA_CENTER_MASK,
            machine_field(r@) == machine_id & MACHINE_MASK,
    {
        let random = thread_random_u128();
        proof {
            lemma_v1_fields(timestamp_ms, random, data_center_id, machine_id);
        }
        Self::from_parts(timestamp_ms, random, data_center_id, machine_id)
    }

    /// Create a Sulid from a given timestamp (milliseconds since the Unix
    /// epoch) and a draw of the given randomness source, V1 layout.
    pub fn from_datetime_with_source<R: rand::Rng + ?Sized>(
        timestamp_ms: u64,
        source: &mut R,
        data_center_id: u8,
        machine_id: u8,
    ) -> (r: Sulid)
        ensures
            exists|rnd: u128| r@ == #[trigger] pack_v1(
                timestamp_ms,
                rnd,
                data_center_id,
                machine_id,
            ),
            timestamp_field(r@) == timestamp_ms & TIME_MASK,
            data_center_field(r@) == data_center_id & DATA_CENTER_MASK,
            machine_field(r@) == machine_id & MACHINE_MASK,
    {
        let random = draw_from_source(source);
        proof {
            lemma_v1_fields(timestamp_ms, random, data_center_id, machine_id);
        }
        Self::from_parts(timestamp_ms, random, data_center_id, machine_id)
    }

    /// The moment this Sulid was created, accurate to one millisecond: its
    /// timestamp field as an offset from the Unix epoch.
    pub fn datetime(&self) -> (r: std::time::SystemTime)
        ensures
            r == epoch_plus_ms(timestamp_field(self@)),
    {
        epoch_offset(self.timestamp_ms())
    }

    /// A new Sulid whose random field is one greater, with the timestamp and
    /// identity fields unchanged, or `None` when the random field is already
    /// at its maximum.
    pub fn increment(&self) -> (r: Option<Sulid>)
        ensures
            r is None <==> random_field(self@) == RAND_MASK,
            r matches Some(s) ==> s@ == self@ + 0x400,
            r matches Some(s) ==> random_field(s@) == random_field(self@) + 1,
            r matches Some(s) ==> timestamp_field(s@) == timestamp_field(self@),
            r matches Some(s) ==> data_center_field(s@) == data_center_field(self@),
            r matches Some(s) ==> machine_field(s@) == machine_field(self@),
            r matches Some(s) ==> worker_field(s@) == worker_field(self@),
    {
        if (self.0 >> 10) & RAND_MASK == RAND_MASK {
            None
        } else {
            proof {
                lemma_increment_isolation(self.0);
            }
            Some(Sulid(self.0 + 0x400))
        }
    }

    /// Create a Sulid from its Crockford Base32 text form.
    ///
    /// Fails with `InvalidLength` when the input is not exactly 26
    /// characters, and with `InvalidChar` when a character is outside the
    /// codec's alphabet.
    pub fn from_string(encoded: &str) -> (r: Result<Sulid, DecodeError>)
        ensures
            r is Ok <==> valid_b32(encoded@),
            r matches Ok(s) ==> s@ == decoded_of(encoded@),
            is_ascii_seq(encoded@) ==> (r == Err::<Sulid, DecodeError>(DecodeError::InvalidLength)
                <==> encoded@.len() != 26),
            is_ascii_seq(encoded@) ==> (r == Err::<Sulid, DecodeError>(DecodeError::InvalidChar)
                <==> encoded@.len() == 26 && !valid_b32(encoded@)),
    {
        match decode_str(encoded) {
            Ok(u) => Ok(Sulid(u)),
            Err(DecodeError::InvalidLength) => Err(DecodeError::InvalidLength),
            Err(DecodeError::InvalidChar) => Err(DecodeError::InvalidChar),
        }
    }

    /// The Crockford Base32 text form: 26 characters.
    pub fn to_string(&self) -> (r: String)
        ensures
            r@ == encoding_of(self@),
    {
        encode_u128(self.0)
    }

    /// Relies on `ulid::Ulid::array_to_str`, which writes the 26-character
    /// Crockford Base32 encoding into the buffer and hands it back as a
    /// string slice.
    #[verifier::external_body]
    pub fn array_to_str<'buf>(&self, buf: &'buf mut [u8; ULID_LEN]) -> (r: &'buf mut str)
        ensures
            r@ == encoding_of(self@),
    {
        ulid::Ulid(self.0).array_to_str(buf)
    }

    /// Create a Sulid from a 16-byte big-endian array.
    pub fn from_bytes(bytes: [u8; 16]) -> (r: Sulid)
        ensures
            r@ == u128_of_bytes(bytes@),
    {
        Sulid(
            ((bytes[0] as u128) << 120) | ((bytes[1] as u128) << 112)
                | ((bytes[2] as u128) << 104) | ((bytes[3] as u128) << 96)
                | ((bytes[4] as u128) << 88) | ((bytes[5] as u128) << 80)
                | ((bytes[6] as u128) << 72) | ((bytes[7] as u128) << 64)
                | ((bytes[8] as u128) << 56) | ((bytes[9] as u128) << 48)
                | ((bytes[10] as u128) << 40) | ((bytes[11] as u128) << 32)
                | ((bytes[12] as u128) << 24) | ((bytes[13] as u128) << 16)
                | ((bytes[14] as u128) << 8) | (bytes[15] as u128),
        )
    }

    /// The bytes of the Sulid in big-endian order.
    pub fn to_bytes(&self) -> (r: [u8; 16])
        ensures
            r@ == bytes_of(self@),
    {
        let v = self.0;
        let r: [u8; 16] = [
            (v >> 120) as u8,
            (v >> 112) as u8,
            (v >> 104) as u8,
            (v >> 96) as u8,
            (v >> 88) as u8,
            (v >> 80) as u8,
            (v >> 72) as u8,
            (v >> 64) as u8,
            (v >> 56) as u8,
            (v >> 48) as u8,
            (v >> 40) as u8,
            (v >> 32) as u8,
            (v >> 24) as u8,
            (v >> 16) as u8,
            (v >> 8) as u8,
            v as u8,
        ];
        proof {
            assert(r@ =~= bytes_of(v));
        }
        r
    }
}

impl Default for Sulid {
    /// The default Sulid is nil.
    fn default() -> (r: Self)
        ensures
            r@ == 0u128,
    {
        Sulid::nil()
    }
}

impl core::str::FromStr for Sulid {
    type Err = DecodeError;

    fn from_str(s: &str) -> (r: Result<Sulid, DecodeError>) {
        Sulid::from_string(s)
    }
}

impl PartialOrd for Sulid {
    fn partial_cmp(&self, other: &Sulid) -> (r: Option<core::cmp::Ordering>) {
        if self.0 < other.0 {
            Some(core::cmp::Ordering::Less)
        } else if self.0 == other.0 {
            Some(core::cmp::Ordering::Equal)
        } else {
            Some(core::cmp::Ordering::Greater)
        }
    }
}

impl vstd::std_specs::cmp::PartialOrdSpecImpl for Sulid {
    open spec fn obeys_partial_cmp_spec() -> bool {
        true
    }

    open spec fn partial_cmp_spec(&self, other: &Sulid) -> Option<core::cmp::Ordering> {
        if self@ < other@ {
            Some(core::cmp::Ordering::Less)
        } else if self@ == other@ {
            Some(core::cmp::Ordering::Equal)
        } else {
            Some(core::cmp::Ordering::Greater)
        }
    }
}

impl From<u128> for Sulid {
    fn from(value: u128) -> (r: Sulid) {
        Sulid::from_u128(value)
    }
}

impl vstd::std_specs::convert::FromSpecImpl<u128> for Sulid {
    open spec fn obeys_from_spec() -> bool {
        true
    }

    closed spec fn from_spec(v: u128) -> Sulid {
        Sulid(v)
    }
}

impl From<Sulid> for u128 {
    fn from(sulid: Sulid) -> (r: u128) {
        sulid.0
    }
}

impl vstd::std_specs::convert::FromSpecImpl<Sulid> for u128 {
    open spec fn obeys_from_spec() -> bool {
        true
    }

    open spec fn from_spec(v: Sulid) -> u128 {
        v@
    }
}

impl From<(u64, u128, u8, u8)> for Sulid {
    fn from(parts: (u64, u128, u8, u8)) -> (r: Sulid) {
        Sulid::from_parts(parts.0, parts.1, parts.2, parts.3)
    }
}

impl vstd::std_specs::convert::FromSpecImpl<(u64, u128, u8, u8)> for Sulid {
    open spec fn obeys_from_spec() -> bool {
        true
    }

    closed spec fn from_spec(v: (u64, u128, u8, u8)) -> Sulid {
        Sulid(pack_v1(v.0, v.1, v.2, v.3))
    }
}

impl From<Sulid> for (u64, u128, u8, u8) {
    fn from(sulid: Sulid) -> (r: (u64, u128, u8, u8)) {
        (sulid.timestamp_ms(), sulid.random(), sulid.data_center_id(), sulid.machine_id())
    }
}

impl vstd::std_specs::convert::FromSpecImpl<Sulid> for (u64, u128, u8, u8) {
    open spec fn obeys_from_spec() -> bool {
        true
    }

    open spec fn from_spec(v: Sulid) -> (u64, u128, u8, u8) {
        (timestamp_field(v@), random_field(v@), data_center_field(v@), machine_field(v@))
    }
}

impl From<[u8; 16]> for Sulid {
    fn from(bytes: [u8; 16]) -> (r: Sulid) {
        Sulid::from_bytes(bytes)
    }
}

impl vstd::std_specs::convert::FromSpecImpl<[u8; 16]> for Sulid {
    open spec fn obeys_from_spec() -> bool {
        true
    }

    closed spec fn from_spec(v: [u8; 16]) -> Sulid {
        Sulid(u128_of_bytes(v@))
    }
}

impl From<Sulid> for [u8; 16] {
    fn from(sulid: Sulid) -> (r: [u8; 16]) {
        let r = sulid.to_bytes();
        proof {
            vstd::array::axiom_array_ext_equal(
                r,
                choose|a: [u8; 16]| a@ == bytes_of(sulid@),
            );
        }
        r
    }
}

impl vstd::std_specs::convert::FromSpecImpl<Sulid> for [u8; 16] {
    open spec fn obeys_from_spec() -> bool {
        true
    }

    open spec fn from_spec(v: Sulid) -> [u8; 16] {
        choose|a: [u8; 16]| a@ == bytes_of(v@)
    }
}

impl From<Sulid> for String {
    fn from(sulid: Sulid) -> (r: String) {
        sulid.to_string()
    }
}

impl vstd::std_specs::convert::FromSpecImpl<Sulid> for String {
    open spec fn obeys_from_spec() -> bool {
        false
    }

    open spec fn from_spec(v: Sulid) -> String {
        arbitrary()
    }
}

/// The 16 bytes of a 128-bit value in big-endian order.
pub open spec fn bytes_of(v: u128) -> Seq<u8> {
    seq![
        (v >> 120) as u8, (v >> 112) as u8, (v >> 104) as u8, (v >> 96) as u8,
        (v >> 88) as u8, (v >> 80) as u8, (v >> 72) as u8, (v >> 64) as u8,
        (v >> 56) as u8, (v >> 48) as u8, (v >> 40) as u8, (v >> 32) as u8,
        (v >> 24) as u8, (v >> 16) as u8, (v >> 8) as u8, v as u8,
    ]
}

/// The 128-bit value read from 16 bytes in big-endian order.
pub open spec fn u128_of_bytes(s: Seq<u8>) -> u128
    recommends
        s.len() == 16,
{
    ((s[0] as u128) << 120) | ((s[1] as u128) << 112)
        | ((s[2] as u128) << 104) | ((s[3] as u128) << 96)
        | ((s[4] as u128) << 88) | ((s[5] as u128) << 80)
        | ((s[6] as u128) << 72) | ((s[7] as u128) << 64)
        | ((s[8] as u128) << 56) | ((s[9] as u128) << 48)
        | ((s[10] as u128) << 40) | ((s[11] as u128) << 32)
        | ((s[12] as u128) << 24) | ((s[13] as u128) << 16)
        | ((s[14] as u128) << 8) | (s[15] as u128)
}

/// Adding one to the random field (an addition of `1 << 10` to the packed
/// value, which cannot wrap while the random field is below its maximum)
/// leaves the timestamp and identity fields bit-identical.
pub proof fn lemma_increment_isolation(v: u128)
    requires
        random_field(v) != RAND_MASK,
    ensures
        v + 0x400 <= u128::MAX,
        random_field((v + 0x400) as u128) == random_field(v) + 1,
        timestamp_field((v + 0x400) as u128) == timestamp_field(v),
        data_center_field((v + 0x400) as u128) == data_center_field(v),
        machine_field((v + 0x400) as u128) == machine_field(v),
        worker_field((v + 0x400) as u128) == worker_field(v),
{
    assert(v + 0x400 <= u128::MAX) by (bit_vector)
        requires
            (v >> 10) & RAND_MASK != RAND_MASK,
    ;
    let w = (v + 0x400) as u128;
    assert({
        &&& random_field(w) == random_field(v) + 1
        &&& timestamp_field(w) == timestamp_field(v)
        &&& data_center_field(w) == data_center_field(v)
        &&& machine_field(w) == machine_field(v)
        &&& worker_field(w) == worker_field(v)
    }) by (bit_vector)
        requires
            (v >> 10) & RAND_MASK != RAND_MASK,
            w == (v + 0x400) as u128,
    ;
}

/// Reconstructing a V1 identifier from its own projections gives back the
/// identical packed value.
pub proof fn lemma_parts_roundtrip_v1(v: u128)
    ensures
        pack_v1(timestamp_field(v), random_field(v), data_center_field(v), machine_field(v)) == v,
{
    assert(pack_v1(timestamp_field(v), random_field(v), data_center_field(v), machine_field(v))
        == v) by (bit_vector);
}

/// Reconstructing a V2 identifier from its own projections gives back the
/// identical packed value.
pub proof fn lemma_parts_roundtrip_v2(v: u128)
    ensures
        pack_v2(timestamp_field(v), random_field(v), worker_field(v)) == v,
{
    assert(pack_v2(timestamp_field(v), random_field(v), worker_field(v)) == v) by (bit_vector);
}

/// Reading the fields of a freshly packed V1 value gives back each argument
/// masked to its declared width.
pub proof fn lemma_v1_fields(timestamp_ms: u64, random: u128, data_center_id: u8, machine_id: u8)
    ensures
        timestamp_field(pack_v1(timestamp_ms, random, data_center_id, machine_id))
            == timestamp_ms & TIME_MASK,
        random_field(pack_v1(timestamp_ms, random, data_center_id, machine_id))
            == random & RAND_MASK,
        data_center_field(pack_v1(timestamp_ms, random, data_center_id, machine_id))
            == data_center_id & DATA_CENTER_MASK,
        machine_field(pack_v1(timestamp_ms, random, data_center_id, machine_id))
            == machine_id & MACHINE_MASK,
{
    let v = pack_v1(timestamp_ms, random, data_center_id, machine_id);
    assert({
        &&& timestamp_field(v) == timestamp_ms & TIME_MASK
        &&& random_field(v) == random & RAND_MASK
        &&& data_center_field(v) == data_center_id & DATA_CENTER_MASK
        &&& machine_field(v) == machine_id & MACHINE_MASK
    }) by (bit_vector)
        requires
            v == pack_v1(timestamp_ms, random, data_center_id, machine_id),
    ;
}

/// Reading the fields of a freshly packed V2 value gives back each argument
/// masked to its declared width.
pub proof fn lemma_v2_fields(timestamp_ms: u64, random: u128, worker_id: u16)
    ensures
        timestamp_field(pack_v2(timestamp_ms, random, worker_id)) == timestamp_ms & TIME_MASK,
        random_field(pack_v2(timestamp_ms, random, worker_id)) == random & RAND_MASK,
        worker_field(pack_v2(timestamp_ms, random, worker_id)) == worker_id & WORKER_MASK,
{
    let v = pack_v2(timestamp_ms, random, worker_id);
    assert({
        &&& timestamp_field(v) == timestamp_ms & TIME_MASK
        &&& random_field(v) == random & RAND_MASK
        &&& worker_field(v) == worker_id & WORKER_MASK
    }) by (bit_vector)
        requires
            v == pack_v2(timestamp_ms, random, worker_id),
    ;
}

/// Construction masks every argument: packing with any out-of-range argument
/// gives the same value as packing with that argument already masked to its
/// field's width.
pub proof fn lemma_masking_v1(timestamp_ms: u64, random: u128, data_center_id: u8, machine_id: u8)
    ensures
        pack_v1(timestamp_ms, random, data_center_id, machine_id) == pack_v1(
            timestamp_ms & TIME_MASK,
            random & RAND_MASK,
            data_center_id & DATA_CENTER_MASK,
            machine_id & MACHINE_MASK,
        ),
{
    assert(pack_v1(timestamp_ms, random, data_center_id, machine_id) == pack_v1(
        timestamp_ms & TIME_MASK,
        random & RAND_MASK,
        data_center_id & DATA_CENTER_MASK,
        machine_id & MACHINE_MASK,
    )) by (bit_vector);
}

/// Construction masks every argument, V2 layout.
pub proof fn lemma_masking_v2(timestamp_ms: u64, random: u128, worker_id: u16)
    ensures
        pack_v2(timestamp_ms, random, worker_id) == pack_v2(
            timestamp_ms & TIME_MASK,
            random & RAND_MASK,
            worker_id & WORKER_MASK,
        ),
{
    assert(pack_v2(timestamp_ms, random, worker_id) == pack_v2(
        timestamp_ms & TIME_MASK,
        random & RAND_MASK,
        worker_id & WORKER_MASK,
    )) by (bit_vector);
}

/// A V1 identifier built from an earlier (masked) timestamp is strictly below
/// one built from a later timestamp, whatever the random and identity
/// arguments are, both as a 128-bit integer and in the text form's
/// lexicographic order.
pub proof fn lemma_timestamp_ordering_v1(
    t1: u64, r1: u128, d1: u8, m1: u8,
    t2: u64, r2: u128, d2: u8, m2: u8,
)
    requires
        t1 & TIME_MASK < t2 & TIME_MASK,
    ensures
        pack_v1(t1, r1, d1, m1) < pack_v1(t2, r2, d2, m2),
        lex_lt(encoding_of(pack_v1(t1, r1, d1, m1)), encoding_of(pack_v1(t2, r2, d2, m2))),
{
    assert(pack_v1(t1, r1, d1, m1) < pack_v1(t2, r2, d2, m2)) by (bit_vector)
        requires
            t1 & TIME_MASK < t2 & TIME_MASK,
    ;
    lemma_text_ordering(pack_v1(t1, r1, d1, m1), pack_v1(t2, r2, d2, m2));
}

/// A V2 identifier built from an earlier (masked) timestamp is strictly below
/// one built from a later timestamp, whatever the random and worker arguments
/// are, both as a 128-bit integer and in the text form's lexicographic order.
pub proof fn lemma_timestamp_ordering_v2(t1: u64, r1: u128, w1: u16, t2: u64, r2: u128, w2: u16)
    requires
        t1 & TIME_MASK < t2 & TIME_MASK,
    ensures
        pack_v2(t1, r1, w1) < pack_v2(t2, r2, w2),
        lex_lt(encoding_of(pack_v2(t1, r1, w1)), encoding_of(pack_v2(t2, r2, w2))),
{
    assert(pack_v2(t1, r1, w1) < pack_v2(t2, r2, w2)) by (bit_vector)
        requires
            t1 & TIME_MASK < t2 & TIME_MASK,
    ;
    lemma_text_ordering(pack_v2(t1, r1, w1), pack_v2(t2, r2, w2));
}

/// Round-trip through the big-endian byte representation: reading back the
/// written bytes reproduces the value.
pub proof fn lemma_bytes_roundtrip(v: u128)
    ensures
        u128_of_bytes(bytes_of(v)) == v,
{
    let s = bytes_of(v);
    let x = u128_of_bytes(s);
    assert(x == v) by (bit_vector)
        requires
            x == (((((v >> 120) as u8) as u128) << 120) | ((((v >> 112) as u8) as u128) << 112)
                | ((((v >> 104) as u8) as u128) << 104) | ((((v >> 96) as u8) as u128) << 96)
                | ((((v >> 88) as u8) as u128) << 88) | ((((v >> 80) as u8) as u128) << 80)
                | ((((v >> 72) as u8) as u128) << 72) | ((((v >> 64) as u8) as u128) << 64)
                | ((((v >> 56) as u8) as u128) << 56) | ((((v >> 48) as u8) as u128) << 48)
                | ((((v >> 40) as u8) as u128) << 40) | ((((v >> 32) as u8) as u128) << 32)
                | ((((v >> 24) as u8) as u128) << 24) | ((((v >> 16) as u8) as u128) << 16)
                | ((((v >> 8) as u8) as u128) << 8) | ((v as u8) as u128)),
    ;
}

/// Round-trip in the other direction: writing out the value read from 16
/// bytes reproduces the bytes.
pub proof fn lemma_bytes_roundtrip_rev(s: Seq<u8>)
    requires
        s.len() == 16,
    ensures
        bytes_of(u128_of_bytes(s)) =~= s,
{
    let b0 = s[0]; let b1 = s[1]; let b2 = s[2]; let b3 = s[3];
    let b4 = s[4]; let b5 = s[5]; let b6 = s[6]; let b7 = s[7];
    let b8 = s[8]; let b9 = s[9]; let b10 = s[10]; let b11 = s[11];
    let b12 = s[12]; let b13 = s[13]; let b14 = s[14]; let b15 = s[15];
    let x = u128_of_bytes(s);
    assert({
        &&& (x >> 120) as u8 == b0
        &&& (x >> 112) as u8 == b1
        &&& (x >> 104) as u8 == b2
        &&& (x >> 96) as u8 == b3
        &&& (x >> 88) as u8 == b4
        &&& (x >> 80) as u8 == b5
        &&& (x >> 72) as u8 == b6
        &&& (x >> 64) as u8 == b7
        &&& (x >> 56) as u8 == b8
        &&& (x >> 48) as u8 == b9
        &&& (x >> 40) as u8 == b10
        &&& (x >> 32) as u8 == b11
        &&& (x >> 24) as u8 == b12
        &&& (x >> 16) as u8 == b13
        &&& (x >> 8) as u8 == b14
        &&& x as u8 == b15
    }) by (bit_vector)
        requires
            x == (((b0 as u128) << 120) | ((b1 as u128) << 112) | ((b2 as u128) << 104)
                | ((b3 as u128) << 96) | ((b4 as u128) << 88) | ((b5 as u128) << 80)
                | ((b6 as u128) << 72) | ((b7 as u128) << 64) | ((b8 as u128) << 56)
                | ((b9 as u128) << 48) | ((b10 as u128) << 40) | ((b11 as u128) << 32)
                | ((b12 as u128) << 24) | ((b13 as u128) << 16) | ((b14 as u128) << 8)
                | (b15 as u128)),
    ;
}

} // verus!

