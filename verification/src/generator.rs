//! Generation of fresh identifiers from the wall clock and a random
//! draw.

use rand::Rng;
use vstd::prelude::*;

use crate::{
    Smolid, SmolidError, EPOCH, TIMESTAMP_SHIFT_OFFSET, V1_RANDOM_SPACE, V1_TYPE_FLAG,
    V1_TYPE_MASK, V1_TYPE_SHIFT_OFFSET, V1_TYPE_SIZE, V1_VERSION,
};

verus! {

/// Relies on `std::time::SystemTime::now` and
/// `SystemTime::duration_since(UNIX_EPOCH)`: the wall clock, read as
/// milliseconds since the Unix epoch, truncated to `u64`. Panics only
/// if the clock reads before the Unix epoch, a misconfigured
/// environment.
#[verifier::external_body]
fn now_unix_millis() -> (r: u64) {
    let ms = std::time::SystemTime::now()
        .duration_since(std::time::UNIX_EPOCH)
        .expect("system clock reads before the Unix epoch")
        .as_millis();
    ms as u64
}

/// Relies on `rand::rng` and `rand::Rng::random_range`: a draw,
/// uniform over `0..=max`, from the thread-local generator; the result
/// lies in the range it was drawn from. The range is never empty, so
/// the call does not panic.
#[verifier::external_body]
fn random_up_to(max: u64) -> (r: u64)
    ensures
        r <= max,
{
    rand::rng().random_range(0..=max)
}

/// The 64-bit value composed from a millisecond offset and an entropy
/// draw: the offset in the timestamp field (truncated to its 41 bits,
/// as the shift does), the version-1 marker, and the entropy in the
/// low bits.
pub open spec fn compose(elapsed_ms: u64, entropy: u64) -> u64 {
    (elapsed_ms << TIMESTAMP_SHIFT_OFFSET) | V1_VERSION | entropy
}

/// The value of a composed identifier after its 7-bit type field is
/// overwritten with `typ` and the type-present flag is set; every
/// other bit keeps its value.
pub open spec fn with_type(d: u64, typ: u16) -> u64 {
    (d & !V1_TYPE_MASK) | V1_TYPE_FLAG | ((typ as u64) << V1_TYPE_SHIFT_OFFSET)
}

/// Every composed value carries version 1, no type tag, and is not
/// nil: freshly generated identifiers are valid.
pub proof fn lemma_composed_is_valid(elapsed_ms: u64, entropy: u64)
    requires
        entropy <= V1_RANDOM_SPACE,
    ensures
        crate::version_field(compose(elapsed_ms, entropy)) == 1,
        crate::type_field(compose(elapsed_ms, entropy)) is None,
        compose(elapsed_ms, entropy) != 0,
{
    assert(entropy <= V1_RANDOM_SPACE ==> (elapsed_ms << TIMESTAMP_SHIFT_OFFSET) | V1_VERSION
        | entropy != 0) by (bit_vector);
    assert(entropy <= V1_RANDOM_SPACE ==> ((((elapsed_ms << TIMESTAMP_SHIFT_OFFSET) | V1_VERSION
        | entropy) & crate::VERSION_MASK) >> crate::VERSION_SHIFT_OFFSET) == 1) by (bit_vector);
    assert(entropy <= V1_RANDOM_SPACE ==> (((elapsed_ms << TIMESTAMP_SHIFT_OFFSET) | V1_VERSION
        | entropy) & V1_TYPE_FLAG) == 0) by (bit_vector);
}

/// Overwriting the type field tags the identifier with `typ` and
/// leaves its timestamp and version fields untouched.
pub proof fn lemma_with_type(d: u64, typ: u16)
    requires
        typ <= V1_TYPE_SIZE,
    ensures
        crate::type_field(with_type(d, typ)) == Some(typ),
        crate::version_field(with_type(d, typ)) == crate::version_field(d),
        crate::ts_field(with_type(d, typ)) == crate::ts_field(d),
        with_type(d, typ) != 0,
{
    let t = typ as u64;
    assert(((d & !V1_TYPE_MASK) | V1_TYPE_FLAG | (t << V1_TYPE_SHIFT_OFFSET)) & V1_TYPE_FLAG != 0)
        by (bit_vector);
    assert(t <= 127 ==> (((d & !V1_TYPE_MASK) | V1_TYPE_FLAG | (t << V1_TYPE_SHIFT_OFFSET))
        & V1_TYPE_MASK) >> V1_TYPE_SHIFT_OFFSET == t) by (bit_vector);
    assert(t <= 127 ==> (((d & !V1_TYPE_MASK) | V1_TYPE_FLAG | (t << V1_TYPE_SHIFT_OFFSET))
        & crate::VERSION_MASK) >> crate::VERSION_SHIFT_OFFSET == (d & crate::VERSION_MASK)
        >> crate::VERSION_SHIFT_OFFSET) by (bit_vector);
    assert(t <= 127 ==> ((d & !V1_TYPE_MASK) | V1_TYPE_FLAG | (t << V1_TYPE_SHIFT_OFFSET))
        >> TIMESTAMP_SHIFT_OFFSET == d >> TIMESTAMP_SHIFT_OFFSET) by (bit_vector);
    assert(((d & !V1_TYPE_MASK) | V1_TYPE_FLAG | (t << V1_TYPE_SHIFT_OFFSET)) != 0)
        by (bit_vector);
    assert(t <= 127 ==> (t as u16) as u64 == t) by (bit_vector);
}

/// A composed value carries in its timestamp field exactly the
/// millisecond offset it was built from, as long as that offset fits
/// the field's 41 bits: the instant a generated identifier denotes is
/// the clock reading of the generating call.
pub proof fn lemma_composed_timestamp(elapsed_ms: u64, entropy: u64)
    requires
        entropy <= V1_RANDOM_SPACE,
        elapsed_ms < 0x200_0000_0000,
    ensures
        crate::ts_field(compose(elapsed_ms, entropy)) == elapsed_ms,
        crate::unix_millis(compose(elapsed_ms, entropy)) == EPOCH + elapsed_ms,
{
    assert(entropy <= V1_RANDOM_SPACE && elapsed_ms < 0x200_0000_0000 ==> (((elapsed_ms
        << TIMESTAMP_SHIFT_OFFSET) | V1_VERSION | entropy) >> TIMESTAMP_SHIFT_OFFSET)
        == elapsed_ms) by (bit_vector);
}

impl Smolid {
    /// The identifier composed from an explicit millisecond offset
    /// from the epoch and an explicit entropy draw. Deterministic: the
    /// random and clock-driven construction of [`Self::new`] reduces
    /// to this function on the values it drew.
    pub fn from_parts(elapsed_ms: u64, entropy: u64) -> (r: Smolid)
        requires
            entropy <= V1_RANDOM_SPACE,
        ensures
            r@ == compose(elapsed_ms, entropy),
            crate::version_field(r@) == 1,
            crate::type_field(r@) is None,
            r@ != 0,
    {
        proof {
            lemma_composed_is_valid(elapsed_ms, entropy);
        }
        Smolid { d: (elapsed_ms << (TIMESTAMP_SHIFT_OFFSET as u32)) | V1_VERSION | entropy }
    }

    /// A fresh identifier: the clock's offset from the epoch in the
    /// timestamp field, the version-1 marker, and a random entropy
    /// region with no type tag. A clock before the epoch is a
    /// misconfigured environment; the offset is then clamped to zero,
    /// the epoch instant itself.
    pub fn new() -> (r: Smolid)
        ensures
            crate::version_field(r@) == 1,
            crate::type_field(r@) is None,
            r@ != 0,
            exists|e: u64, en: u64| en <= V1_RANDOM_SPACE && r@ == #[trigger] compose(e, en),
    {
        let now = now_unix_millis();
        let elapsed_ms = if now >= EPOCH {
            now - EPOCH
        } else {
            0
        };
        let entropy = random_up_to(V1_RANDOM_SPACE);
        let r = Smolid::from_parts(elapsed_ms, entropy);
        proof {
            assert(entropy <= V1_RANDOM_SPACE && r@ == compose(elapsed_ms, entropy));
        }
        r
    }

    /// A fresh identifier carrying the type tag `typ`: generated as by
    /// [`Self::new`], then the 7-bit type field is overwritten with
    /// `typ` and the type-present flag is set; timestamp, version and
    /// the random bits outside the type field keep their values.
    /// Refused with a range error when `typ` does not fit the field.
    pub fn new_with_type(typ: u16) -> (r: Result<Smolid, SmolidError>)
        ensures
            typ <= V1_TYPE_SIZE <==> r is Ok,
            r matches Ok(s) ==> {
                &&& crate::type_field(s@) == Some(typ)
                &&& crate::version_field(s@) == 1
                &&& s@ != 0
                &&& exists|e: u64, en: u64|
                    en <= V1_RANDOM_SPACE && s@ == with_type(#[trigger] compose(e, en), typ)
            },
            r matches Err(e) ==> e == (SmolidError::TypeOutOfRange { max: V1_TYPE_SIZE as u16 }),
    {
        if typ > V1_TYPE_SIZE as u16 {
            return Err(SmolidError::TypeOutOfRange { max: V1_TYPE_SIZE as u16 });
        }
        let s = Smolid::new();
        let n = s.as_u64();
        let d = (n & !V1_TYPE_MASK) | V1_TYPE_FLAG | ((typ as u64) << (V1_TYPE_SHIFT_OFFSET
            as u32));
        proof {
            lemma_with_type(n, typ);
            let (e, en) = choose|e: u64, en: u64|
                en <= V1_RANDOM_SPACE && n == #[trigger] compose(e, en);
            assert(en <= V1_RANDOM_SPACE && d == with_type(compose(e, en), typ));
        }
        Ok(Smolid { d })
    }
}

} // verus!
