//! Identifiers of position intents.

use vstd::prelude::*;

verus! {

/// The bits of an identifier that hold its version and its variant.
pub const VERSION_AND_VARIANT_MASK: u128 = 0x0000_0000_0000_f000_c000_0000_0000_0000;

/// What those bits hold in a random identifier: version 4, and the variant of
/// RFC 4122.
pub const RANDOM_VERSION_AND_VARIANT: u128 = 0x0000_0000_0000_4000_8000_0000_0000_0000;

/// The identifier of an intent: the 128 bits of a UUID, the first byte of the
/// UUID in the most significant place.
#[derive(Debug, Clone, Copy, PartialEq, Eq, Hash)]
pub struct IntentId(pub u128);

impl IntentId {
    /// Whether the identifier is marked as a random one: its version is 4 and
    /// its variant that of RFC 4122. The other 122 bits are free.
    pub open spec fn is_random(self) -> bool {
        self.0 & VERSION_AND_VARIANT_MASK == RANDOM_VERSION_AND_VARIANT
    }

    /// Whether the identifier is marked as a random one.
    pub fn has_random_marks(&self) -> (b: bool)
        ensures
            b == self.is_random(),
    {
        self.0 & VERSION_AND_VARIANT_MASK == RANDOM_VERSION_AND_VARIANT
    }

    /// A fresh random identifier, from `uuid::Uuid::new_v4`, read as a number
    /// with `Uuid::as_u128`.
    ///
    /// `new_v4` draws 128 bits from the system's random number generator and
    /// overwrites the version and the variant. Only that is claimed: that two
    /// identifiers differ is likely, and not certain.
    #[verifier::external_body]
    pub(crate) fn fresh() -> (id: IntentId)
        ensures
            id.is_random(),
    {
        IntentId(uuid::Uuid::new_v4().as_u128())
    }
}

} // verus!
