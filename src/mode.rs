use vstd::prelude::*;

verus! {

/// Whether metadata-digest checking is active for a transaction.
#[derive(Copy, Clone, Debug, PartialEq, Eq, Structural)]
pub enum CheckMetadataHashMode {
    /// No hash was provided in the signer payload.
    Disabled,
    /// A hash was provided in the signer payload.
    Enabled,
}

/// The one-byte discriminant that stands for a mode on the wire.
pub open spec fn mode_byte(m: CheckMetadataHashMode) -> u8 {
    match m {
        CheckMetadataHashMode::Disabled => 0u8,
        CheckMetadataHashMode::Enabled => 1u8,
    }
}

/// The mode that a discriminant byte stands for, if any.
pub open spec fn mode_of_byte(b: u8) -> Option<CheckMetadataHashMode> {
    if b == 0 {
        Some(CheckMetadataHashMode::Disabled)
    } else if b == 1 {
        Some(CheckMetadataHashMode::Enabled)
    } else {
        None
    }
}

impl CheckMetadataHashMode {
    /// Is metadata checking enabled or disabled for this transaction?
    pub fn is_enabled(&self) -> (r: bool)
        ensures
            r == (*self == CheckMetadataHashMode::Enabled),
    {
        match self {
            CheckMetadataHashMode::Disabled => false,
            CheckMetadataHashMode::Enabled => true,
        }
    }

    /// The discriminant byte of this mode.
    pub fn to_byte(&self) -> (r: u8)
        ensures
            r == mode_byte(*self),
    {
        match self {
            CheckMetadataHashMode::Disabled => 0u8,
            CheckMetadataHashMode::Enabled => 1u8,
        }
    }

    /// Appends the discriminant byte of this mode to `v`.
    pub fn encode_to(&self, v: &mut Vec<u8>)
        ensures
            final(v)@ == old(v)@.push(mode_byte(*self)),
    {
        v.push(self.to_byte());
    }

    /// Reads a mode back from its discriminant byte; `None` for any other byte.
    pub fn from_byte(b: u8) -> (r: Option<CheckMetadataHashMode>)
        ensures
            r == mode_of_byte(b),
    {
        if b == 0 {
            Some(CheckMetadataHashMode::Disabled)
        } else if b == 1 {
            Some(CheckMetadataHashMode::Enabled)
        } else {
            None
        }
    }

    /// Decodes a mode from the front of `bytes`, as it stands in an
    /// extension's extra data. Fails on an empty input or an unknown byte.
    pub fn decode(bytes: &[u8]) -> (r: Option<CheckMetadataHashMode>)
        ensures
            bytes@.len() == 0 ==> r.is_none(),
            bytes@.len() > 0 ==> r == mode_of_byte(bytes@[0]),
    {
        if bytes.len() == 0 {
            None
        } else {
            CheckMetadataHashMode::from_byte(bytes[0])
        }
    }
}

} // verus!
