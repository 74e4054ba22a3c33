use vstd::prelude::*;

verus! {

/// A combination of modifier keys, one bit per modifier.
///
/// Bits 0 through 7 carry the X11-style modifiers (Shift, the two lock
/// keys, Control and Mod1 through Mod5); bit 15 is a wildcard marker.
/// Combining masks with `|` and `&` acts bitwise on the underlying value,
/// and equality is bitwise value equality.
#[derive(Debug, PartialEq, Eq, Structural, Clone, Copy)]
pub struct ModMask(pub u16);

/// Bit of the Shift modifier.
pub const SHIFT_BIT: u16 = 1;

/// Bit of the caps-lock modifier.
pub const CAPS_LOCK_BIT: u16 = 2;

/// Bit of the Control modifier.
pub const CONTROL_BIT: u16 = 4;

/// Bit of Mod1 (Alt).
pub const MOD1_BIT: u16 = 8;

/// Bit of Mod2 (num lock).
pub const MOD2_BIT: u16 = 16;

/// Bit of Mod3 (AltGr).
pub const MOD3_BIT: u16 = 32;

/// Bit of Mod4 (Super / Win / Cmd).
pub const MOD4_BIT: u16 = 64;

/// Bit of Mod5 (scroll lock).
pub const MOD5_BIT: u16 = 128;

/// Bit of the wildcard marker.
pub const ANY_BIT: u16 = 32768;

impl ModMask {
    /// The empty mask: no modifier held.
    pub fn none() -> (r: ModMask)
        ensures
            r.0 == 0u16,
    {
        ModMask(0)
    }

    pub fn shift() -> (r: ModMask)
        ensures
            r.0 == SHIFT_BIT,
    {
        ModMask(SHIFT_BIT)
    }

    pub fn caps_lock() -> (r: ModMask)
        ensures
            r.0 == CAPS_LOCK_BIT,
    {
        ModMask(CAPS_LOCK_BIT)
    }

    pub fn control() -> (r: ModMask)
        ensures
            r.0 == CONTROL_BIT,
    {
        ModMask(CONTROL_BIT)
    }

    /// Alt.
    pub fn mod1() -> (r: ModMask)
        ensures
            r.0 == MOD1_BIT,
    {
        ModMask(MOD1_BIT)
    }

    /// Num lock.
    pub fn mod2() -> (r: ModMask)
        ensures
            r.0 == MOD2_BIT,
    {
        ModMask(MOD2_BIT)
    }

    /// AltGr.
    pub fn mod3() -> (r: ModMask)
        ensures
            r.0 == MOD3_BIT,
    {
        ModMask(MOD3_BIT)
    }

    /// Super / Win / Cmd.
    pub fn mod4() -> (r: ModMask)
        ensures
            r.0 == MOD4_BIT,
    {
        ModMask(MOD4_BIT)
    }

    /// Scroll lock.
    pub fn mod5() -> (r: ModMask)
        ensures
            r.0 == MOD5_BIT,
    {
        ModMask(MOD5_BIT)
    }

    /// The wildcard marker.
    pub fn any() -> (r: ModMask)
        ensures
            r.0 == ANY_BIT,
    {
        ModMask(ANY_BIT)
    }
}

impl ModMask {
    /// Folds the bits of `rhs` into this mask, in place.
    pub fn or_assign(&mut self, rhs: ModMask)
        ensures
            final(self).0 == (old(self).0 | rhs.0),
    {
        self.0 = self.0 | rhs.0;
    }
}

impl From<ModMask> for u16 {
    /// The underlying bit pattern, unchanged.
    fn from(input: ModMask) -> (r: u16)
        ensures
            r == input.0,
    {
        input.0
    }
}

impl vstd::std_specs::convert::FromSpecImpl<ModMask> for u16 {
    open spec fn obeys_from_spec() -> bool {
        true
    }

    open spec fn from_spec(v: ModMask) -> u16 {
        v.0
    }
}

impl From<ModMask> for u32 {
    /// The bit pattern, widened without change.
    fn from(input: ModMask) -> (r: u32)
        ensures
            r == input.0 as u32,
    {
        input.0 as u32
    }
}

impl vstd::std_specs::convert::FromSpecImpl<ModMask> for u32 {
    open spec fn obeys_from_spec() -> bool {
        true
    }

    open spec fn from_spec(v: ModMask) -> u32 {
        v.0 as u32
    }
}

impl From<ModMask> for Option<u16> {
    /// The underlying bit pattern, always present.
    fn from(input: ModMask) -> (r: Option<u16>)
        ensures
            r == Some(input.0),
    {
        Some(input.0)
    }
}

impl vstd::std_specs::convert::FromSpecImpl<ModMask> for Option<u16> {
    open spec fn obeys_from_spec() -> bool {
        true
    }

    open spec fn from_spec(v: ModMask) -> Option<u16> {
        Some(v.0)
    }
}

impl From<ModMask> for Option<u32> {
    /// The widened bit pattern, always present.
    fn from(input: ModMask) -> (r: Option<u32>)
        ensures
            r == Some(input.0 as u32),
    {
        Some(input.0 as u32)
    }
}

impl vstd::std_specs::convert::FromSpecImpl<ModMask> for Option<u32> {
    open spec fn obeys_from_spec() -> bool {
        true
    }

    open spec fn from_spec(v: ModMask) -> Option<u32> {
        Some(v.0 as u32)
    }
}

impl From<u8> for ModMask {
    /// A mask from the low eight bits alone.
    fn from(value: u8) -> (r: ModMask)
        ensures
            r.0 == value as u16,
    {
        ModMask(value as u16)
    }
}

impl vstd::std_specs::convert::FromSpecImpl<u8> for ModMask {
    open spec fn obeys_from_spec() -> bool {
        true
    }

    open spec fn from_spec(v: u8) -> ModMask {
        ModMask(v as u16)
    }
}

impl From<u16> for ModMask {
    /// A mask from the full bit pattern, unchanged.
    fn from(value: u16) -> (r: ModMask)
        ensures
            r.0 == value,
    {
        ModMask(value)
    }
}

impl vstd::std_specs::convert::FromSpecImpl<u16> for ModMask {
    open spec fn obeys_from_spec() -> bool {
        true
    }

    open spec fn from_spec(v: u16) -> ModMask {
        ModMask(v)
    }
}

impl std::ops::BitOr for ModMask {
    type Output = ModMask;

    /// The union of the two flag sets.
    fn bitor(self, rhs: ModMask) -> (r: ModMask)
        ensures
            r.0 == (self.0 | rhs.0),
    {
        ModMask(self.0 | rhs.0)
    }
}

impl vstd::std_specs::ops::BitOrSpecImpl for ModMask {
    open spec fn obeys_bitor_spec() -> bool {
        true
    }

    open spec fn bitor_req(self, rhs: ModMask) -> bool {
        true
    }

    open spec fn bitor_spec(self, rhs: ModMask) -> ModMask {
        ModMask(self.0 | rhs.0)
    }
}

impl std::ops::BitAnd for ModMask {
    type Output = ModMask;

    /// The intersection of the two flag sets.
    fn bitand(self, rhs: ModMask) -> (r: ModMask)
        ensures
            r.0 == (self.0 & rhs.0),
    {
        ModMask(self.0 & rhs.0)
    }
}

impl vstd::std_specs::ops::BitAndSpecImpl for ModMask {
    open spec fn obeys_bitand_spec() -> bool {
        true
    }

    open spec fn bitand_req(self, rhs: ModMask) -> bool {
        true
    }

    open spec fn bitand_spec(self, rhs: ModMask) -> ModMask {
        ModMask(self.0 & rhs.0)
    }
}

/// Whether a binding registered with modifiers `bound` answers a query made
/// with modifiers `query`, when every bit of `ghost` is ignored: the two
/// masks must agree once the ghost bits are added to both sides.
pub open spec fn mask_matches(bound: u16, ghost: u16, query: u16) -> bool {
    (bound | ghost) == (query | ghost)
}

} // verus!
