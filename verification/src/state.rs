//! The state encoder: named power-request bits, the intent of the caller, the
//! mapping from intent to the bitmask to install, and the diagnostic decoder
//! that labels any observed bitmask.

use vstd::prelude::*;
use vstd::string::StringExecFns;

verus! {

/// Marker bit: the request stays in effect until explicitly superseded. Every
/// installed state must carry it.
pub const CONTINUOUS: u32 = 0x8000_0000;

/// Request that the system idle timer be held at zero, preventing sleep.
pub const SYSTEM_REQUIRED: u32 = 0x0000_0001;

/// Request that the display idle timer be held at zero, keeping the display on.
pub const DISPLAY_REQUIRED: u32 = 0x0000_0002;

/// A marker the platform rejects as input; it must never be forwarded.
pub const USER_PRESENT: u32 = 0x0000_0004;

/// A power-management request bit-set. The raw integer is kept private; it is
/// exposed only for diagnostic rendering and for handing the value to the
/// platform at the library's edge.
#[derive(Clone, Copy, PartialEq, Eq, Structural, Debug)]
pub struct PowerState {
    bits: u32,
}

impl PowerState {
    /// The underlying bitmask.
    pub closed spec fn bits(self) -> u32 {
        self.bits
    }

    /// Whether the state shares at least one bit with `flag`.
    pub open spec fn has(self, flag: u32) -> bool {
        self.bits() & flag != 0
    }

    /// The baseline state: the continuous marker alone, no request bits.
    pub fn continuous() -> (r: PowerState)
        ensures
            r.bits() == CONTINUOUS,
    {
        PowerState { bits: CONTINUOUS }
    }

    /// The system-required request bit alone.
    pub fn system_required() -> (r: PowerState)
        ensures
            r.bits() == SYSTEM_REQUIRED,
    {
        PowerState { bits: SYSTEM_REQUIRED }
    }

    /// The display-required request bit alone.
    pub fn display_required() -> (r: PowerState)
        ensures
            r.bits() == DISPLAY_REQUIRED,
    {
        PowerState { bits: DISPLAY_REQUIRED }
    }

    /// Wrap a bitmask reported by the platform, recognized or not.
    pub fn from_raw(bits: u32) -> (r: PowerState)
        ensures
            r.bits() == bits,
    {
        PowerState { bits }
    }

    /// The raw bitmask, for diagnostic rendering and for the platform call.
    pub fn raw(self) -> (r: u32)
        ensures
            r == self.bits(),
    {
        self.bits
    }

    /// Bitwise-OR composition of two states.
    pub fn union(self, other: PowerState) -> (r: PowerState)
        ensures
            r.bits() == self.bits() | other.bits(),
    {
        PowerState { bits: self.bits | other.bits }
    }
}

/// The caller's two-valued choice of how aggressively to prevent idling.
#[derive(Clone, Copy, PartialEq, Eq, Structural, Debug)]
pub enum Intent {
    /// Keep the system from sleeping; the display may turn off.
    KeepSystemAwake,
    /// Keep the system from sleeping and the display on.
    KeepSystemAndDisplayAwake,
}

/// The bitmask that must be installed for an intent: always the continuous
/// marker together with the system request, plus the display request when the
/// intent asks for the display.
pub open spec fn resolve_bits(intent: Intent) -> u32 {
    match intent {
        Intent::KeepSystemAwake => CONTINUOUS | SYSTEM_REQUIRED,
        Intent::KeepSystemAndDisplayAwake => CONTINUOUS | SYSTEM_REQUIRED | DISPLAY_REQUIRED,
    }
}

/// A bitmask that may be handed to the platform: it carries the continuous
/// marker and none of the bits the platform rejects.
pub open spec fn installable(bits: u32) -> bool {
    bits & CONTINUOUS != 0 && bits & USER_PRESENT == 0
}

/// Every intent resolves to a state that includes the continuous marker and
/// the system request; the display request is present exactly when the intent
/// asks to keep the display awake; and the resolved state is installable.
pub proof fn lemma_resolve_flags(intent: Intent)
    ensures
        resolve_bits(intent) & CONTINUOUS != 0,
        resolve_bits(intent) & SYSTEM_REQUIRED != 0,
        (resolve_bits(intent) & DISPLAY_REQUIRED != 0) <==> intent == Intent::KeepSystemAndDisplayAwake,
        installable(resolve_bits(intent)),
{
    assert((0x8000_0000u32 | 0x1u32) & 0x8000_0000u32 != 0 && (0x8000_0000u32 | 0x1u32)
        & 0x1u32 != 0 && (0x8000_0000u32 | 0x1u32) & 0x2u32 == 0 && (0x8000_0000u32 | 0x1u32)
        & 0x4u32 == 0) by (bit_vector);
    assert((0x8000_0000u32 | 0x1u32 | 0x2u32) & 0x8000_0000u32 != 0 && (0x8000_0000u32 | 0x1u32
        | 0x2u32) & 0x1u32 != 0 && (0x8000_0000u32 | 0x1u32 | 0x2u32) & 0x2u32 != 0 && (
    0x8000_0000u32 | 0x1u32 | 0x2u32) & 0x4u32 == 0) by (bit_vector);
}

/// Decide whether a state may be forwarded to the platform. An invalid
/// bit-set — one without the continuous marker, or carrying the marker the
/// platform rejects — must be refused, never installed.
pub fn is_installable(state: PowerState) -> (r: bool)
    ensures
        r == installable(state.bits()),
{
    let bits = state.raw();
    bits & CONTINUOUS != 0 && bits & USER_PRESENT == 0
}

/// The label that `describe` gives a bitmask: one documented name for each of
/// the six recognized combinations, an explicit marker for everything else.
pub open spec fn label_spec(bits: u32) -> Seq<char> {
    if bits == CONTINUOUS {
        "Continuous"@
    } else if bits == SYSTEM_REQUIRED {
        "SystemRequired"@
    } else if bits == DISPLAY_REQUIRED {
        "DisplayRequired"@
    } else if bits == CONTINUOUS | SYSTEM_REQUIRED {
        "Continuous|SystemRequired"@
    } else if bits == CONTINUOUS | DISPLAY_REQUIRED {
        "Continuous|DisplayRequired"@
    } else if bits == CONTINUOUS | SYSTEM_REQUIRED | DISPLAY_REQUIRED {
        "Continuous|SystemRequired|DisplayRequired"@
    } else {
        "Unrecognized"@
    }
}

/// The marker `describe` returns for a bitmask outside the recognized set.
pub open spec fn unrecognized_label() -> Seq<char> {
    "Unrecognized"@
}

/// The six bit-sets that `describe` recognizes with a documented name.
pub open spec fn recognized(bits: u32) -> bool {
    ||| bits == CONTINUOUS
    ||| bits == SYSTEM_REQUIRED
    ||| bits == DISPLAY_REQUIRED
    ||| bits == (CONTINUOUS | SYSTEM_REQUIRED)
    ||| bits == (CONTINUOUS | DISPLAY_REQUIRED)
    ||| bits == (CONTINUOUS | SYSTEM_REQUIRED | DISPLAY_REQUIRED)
}

/// The concrete values of the combined bit-sets, so that the recognized
/// combinations can be told apart without further bit reasoning.
pub proof fn lemma_combined_values()
    ensures
        CONTINUOUS | SYSTEM_REQUIRED == 0x8000_0001u32,
        CONTINUOUS | DISPLAY_REQUIRED == 0x8000_0002u32,
        CONTINUOUS | SYSTEM_REQUIRED | DISPLAY_REQUIRED == 0x8000_0003u32,
{
    assert(0x8000_0000u32 | 0x1u32 == 0x8000_0001u32 && 0x8000_0000u32 | 0x2u32 == 0x8000_0002u32
        && (0x8000_0000u32 | 0x1u32) | 0x2u32 == 0x8000_0003u32) by (bit_vector);
}

/// Decode any observed bitmask as a stable human-readable label. Total over
/// all 32-bit values, pure, and never a fabricated name: a bit-set outside
/// the recognized six gets the explicit marker.
pub fn describe(state: PowerState) -> (r: String)
    ensures
        r@ == label_spec(state.bits()),
{
    let bits = state.raw();
    if bits == CONTINUOUS {
        String::from_str("Continuous")
    } else if bits == SYSTEM_REQUIRED {
        String::from_str("SystemRequired")
    } else if bits == DISPLAY_REQUIRED {
        String::from_str("DisplayRequired")
    } else if bits == CONTINUOUS | SYSTEM_REQUIRED {
        String::from_str("Continuous|SystemRequired")
    } else if bits == CONTINUOUS | DISPLAY_REQUIRED {
        String::from_str("Continuous|DisplayRequired")
    } else if bits == CONTINUOUS | SYSTEM_REQUIRED | DISPLAY_REQUIRED {
        String::from_str("Continuous|SystemRequired|DisplayRequired")
    } else {
        String::from_str("Unrecognized")
    }
}

/// Round trip: a state built the way `resolve` builds one is described by its
/// documented label, never the fallback marker.
pub proof fn lemma_resolve_round_trip(intent: Intent)
    ensures
        intent == Intent::KeepSystemAwake ==> label_spec(resolve_bits(intent))
            == "Continuous|SystemRequired"@,
        intent == Intent::KeepSystemAndDisplayAwake ==> label_spec(resolve_bits(intent))
            == "Continuous|SystemRequired|DisplayRequired"@,
        label_spec(resolve_bits(intent)) != unrecognized_label(),
{
    lemma_combined_values();
    lemma_label_lengths();
}

/// Every recognized combination is described by its documented label, never
/// the fallback marker.
pub proof fn lemma_recognized_round_trip(bits: u32)
    requires
        recognized(bits),
    ensures
        label_spec(bits) != unrecognized_label(),
{
    lemma_combined_values();
    lemma_label_lengths();
}

/// The lengths of the seven labels, which tell each documented label apart
/// from the fallback marker.
proof fn lemma_label_lengths()
    ensures
        "Continuous"@.len() == 10,
        "SystemRequired"@.len() == 14,
        "DisplayRequired"@.len() == 15,
        "Continuous|SystemRequired"@.len() == 25,
        "Continuous|DisplayRequired"@.len() == 26,
        "Continuous|SystemRequired|DisplayRequired"@.len() == 41,
        "Unrecognized"@.len() == 12,
{
    reveal_strlit("Continuous");
    reveal_strlit("SystemRequired");
    reveal_strlit("DisplayRequired");
    reveal_strlit("Continuous|SystemRequired");
    reveal_strlit("Continuous|DisplayRequired");
    reveal_strlit("Continuous|SystemRequired|DisplayRequired");
    reveal_strlit("Unrecognized");
}

/// Encode an intent as the bitmask to install. Total over the closed
/// enumeration, no side effects.
pub fn resolve(intent: Intent) -> (r: PowerState)
    ensures
        r.bits() == resolve_bits(intent),
        r.has(CONTINUOUS),
        r.has(SYSTEM_REQUIRED),
        r.has(DISPLAY_REQUIRED) <==> intent == Intent::KeepSystemAndDisplayAwake,
        installable(r.bits()),
{
    proof {
        lemma_resolve_flags(intent);
    }
    match intent {
        Intent::KeepSystemAwake => PowerState { bits: CONTINUOUS | SYSTEM_REQUIRED },
        Intent::KeepSystemAndDisplayAwake => PowerState {
            bits: CONTINUOUS | SYSTEM_REQUIRED | DISPLAY_REQUIRED,
        },
    }
}

} // verus!
