//! The capability probe.

use super::SUBSYS;
use crate::command::{de, ser, Command, CommandID, CommandType};
use vstd::prelude::*;

verus! {

/// A subsystem that the device may have compiled in. Each has one bit in the
/// two-byte answer to [`Ping`].
#[derive(Debug, Copy, Clone, PartialEq, Eq, Structural)]
pub enum Capability {
    SYS,
    MAC,
    NWK,
    AF,
    ZDO,
    SAPI,
    UTIL,
    DEBUG,
    APP,
    ZOAD,
}

/// The bits of all capabilities together.
pub const ALL_CAPABILITIES: u16 = 0x11FF;

impl Capability {
    /// The bit that stands for the capability.
    pub open spec fn spec_bits(self) -> u16 {
        match self {
            Capability::SYS => 0x0001,
            Capability::MAC => 0x0002,
            Capability::NWK => 0x0004,
            Capability::AF => 0x0008,
            Capability::ZDO => 0x0010,
            Capability::SAPI => 0x0020,
            Capability::UTIL => 0x0040,
            Capability::DEBUG => 0x0080,
            Capability::APP => 0x0100,
            Capability::ZOAD => 0x1000,
        }
    }

    #[verifier::when_used_as_spec(spec_bits)]
    pub fn bits(self) -> (bits: u16)
        ensures
            bits == self.spec_bits(),
    {
        match self {
            Capability::SYS => 0x0001,
            Capability::MAC => 0x0002,
            Capability::NWK => 0x0004,
            Capability::AF => 0x0008,
            Capability::ZDO => 0x0010,
            Capability::SAPI => 0x0020,
            Capability::UTIL => 0x0040,
            Capability::DEBUG => 0x0080,
            Capability::APP => 0x0100,
            Capability::ZOAD => 0x1000,
        }
    }
}

/// The capabilities whose bit is set in `bits`. Bits that stand for no
/// capability count for nothing.
pub open spec fn spec_capabilities(bits: u16) -> Set<Capability> {
    Set::new(|capability: Capability| bits & capability.spec_bits() != 0)
}

/// A set of capabilities, held as the OR of their bits.
#[derive(Debug, Copy, Clone, PartialEq, Eq, Structural)]
pub struct CapabilitySet {
    bits: u16,
}

impl View for CapabilitySet {
    type V = Set<Capability>;

    closed spec fn view(&self) -> Set<Capability> {
        spec_capabilities(self.bits)
    }
}

impl CapabilitySet {
    /// No bit is set that stands for no capability.
    #[verifier::type_invariant]
    closed spec fn well_formed(self) -> bool {
        self.bits & !ALL_CAPABILITIES == 0
    }

    /// The OR of the bits of the capabilities in the set.
    pub closed spec fn spec_bits(self) -> u16 {
        self.bits
    }

    /// The set of the capabilities whose bit is set in `bits`; bits that stand
    /// for no capability are dropped.
    pub fn from_bits_truncate(bits: u16) -> (set: Self)
        ensures
            set@ == spec_capabilities(bits),
            set.spec_bits() == bits & ALL_CAPABILITIES,
    {
        let kept: u16 = bits & ALL_CAPABILITIES;
        assert(kept & !0x11FFu16 == 0) by (bit_vector)
            requires
                kept == bits & 0x11FFu16,
        ;
        assert forall|capability: Capability|
            (kept & capability.spec_bits() != 0) == (bits & capability.spec_bits() != 0) by {
            let bit: u16 = capability.spec_bits();
            assert(bit & 0x11FFu16 == bit) by (bit_vector)
                requires
                    bit == 0x0001 || bit == 0x0002 || bit == 0x0004 || bit == 0x0008 || bit
                        == 0x0010 || bit == 0x0020 || bit == 0x0040 || bit == 0x0080 || bit
                        == 0x0100 || bit == 0x1000,
            ;
            assert((kept & bit != 0) == (bits & bit != 0)) by (bit_vector)
                requires
                    kept == bits & 0x11FFu16,
                    bit & 0x11FFu16 == bit,
            ;
        }
        assert(spec_capabilities(kept) =~= spec_capabilities(bits));
        CapabilitySet { bits: kept }
    }

    /// The OR of the bits of the capabilities in the set.
    pub fn bits(&self) -> (bits: u16)
        ensures
            bits == self.spec_bits(),
            self@ == spec_capabilities(bits),
            bits & !ALL_CAPABILITIES == 0,
    {
        proof {
            use_type_invariant(self);
        }
        self.bits
    }

    /// Whether `capability` is in the set.
    pub fn contains(&self, capability: Capability) -> (present: bool)
        ensures
            present == self@.contains(capability),
    {
        self.bits & capability.bits() != 0
    }

    /// Whether the set holds no capability.
    pub fn is_empty(&self) -> (empty: bool)
        ensures
            empty == (self@ == Set::<Capability>::empty()),
    {
        proof {
            use_type_invariant(self);
            let bits = self.bits;
            if bits == 0 {
                assert forall|capability: Capability| bits & capability.spec_bits() == 0 by {
                    let bit: u16 = capability.spec_bits();
                    assert(0u16 & bit == 0) by (bit_vector);
                }
                assert(self@ =~= Set::<Capability>::empty());
            } else {
                assert(bits & 0x0001 != 0 || bits & 0x0002 != 0 || bits & 0x0004 != 0 || bits
                    & 0x0008 != 0 || bits & 0x0010 != 0 || bits & 0x0020 != 0 || bits & 0x0040
                    != 0 || bits & 0x0080 != 0 || bits & 0x0100 != 0 || bits & 0x1000 != 0)
                    by (bit_vector)
                    requires
                        bits != 0,
                        bits & !0x11FFu16 == 0,
                ;
                assert(self@.contains(Capability::SYS) || self@.contains(Capability::MAC)
                    || self@.contains(Capability::NWK) || self@.contains(Capability::AF)
                    || self@.contains(Capability::ZDO) || self@.contains(Capability::SAPI)
                    || self@.contains(Capability::UTIL) || self@.contains(Capability::DEBUG)
                    || self@.contains(Capability::APP) || self@.contains(Capability::ZOAD));
            }
        }
        self.bits == 0
    }
}

/// The capabilities that a two-byte answer reports: the bits of the first
/// byte over those of the second.
pub open spec fn spec_ping_output(data_frame: Seq<u8>) -> Result<Set<Capability>, de::Error> {
    if data_frame.len() != 2 {
        Err(de::Error::UnexpectedEOF)
    } else {
        Ok(spec_capabilities(((data_frame[0] as u16) << 8) | (data_frame[1] as u16)))
    }
}

/// Asks the device which subsystems it has. The request has no payload.
#[derive(Default, Debug, Clone)]
pub struct Ping {}

impl Command for Ping {
    open spec fn spec_id() -> CommandID {
        CommandID { subsystem: SUBSYS, id: 0x01 }
    }

    fn id() -> (id: CommandID) {
        CommandID { subsystem: SUBSYS, id: 0x01 }
    }
}

impl ser::Command for Ping {
    open spec fn spec_request_type() -> CommandType {
        CommandType::SREQ
    }

    open spec fn spec_data(&self) -> Seq<u8> {
        Seq::empty()
    }

    fn request_type() -> (kind: CommandType) {
        CommandType::SREQ
    }

    fn len(&self) -> (len: u8) {
        u8::MIN
    }

    fn data(&self) -> (data: Vec<u8>) {
        Vec::new()
    }
}

impl de::Command for Ping {
    type Output = CapabilitySet;

    open spec fn spec_response_type() -> CommandType {
        CommandType::SRSP
    }

    open spec fn spec_to_output(&self, data_frame: Seq<u8>) -> Result<
        Set<Capability>,
        de::Error,
    > {
        spec_ping_output(data_frame)
    }

    fn response_type() -> (kind: CommandType) {
        CommandType::SRSP
    }

    fn to_output(&self, data_frame: Vec<u8>) -> (output: Result<CapabilitySet, de::Error>) {
        if data_frame.len() != 2 {
            return Err(de::Error::UnexpectedEOF);
        }
        let high: u16 = data_frame[0] as u16;
        let low: u16 = data_frame[1] as u16;
        let mut ret: u16 = u16::MIN;
        ret |= high;
        ret <<= 8;
        ret |= low;
        assert(((0u16 | high) << 8) | low == (high << 8) | low) by (bit_vector);
        let output: Result<CapabilitySet, de::Error> = Ok(CapabilitySet::from_bits_truncate(ret));
        assert(de::spec_result_view(output) == Ok::<Set<Capability>, de::Error>(
            spec_capabilities(ret),
        ));
        output
    }
}

} // verus!
