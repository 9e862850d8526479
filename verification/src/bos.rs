//! The USB Binary Object Store (BOS) descriptor and its wire encoding.

use vstd::prelude::*;

verus! {

/// Length in bytes of the BOS descriptor header; also its first byte on the wire.
pub const BOS_HEADER_LENGTH: u8 = 0x05;

/// Descriptor type code for a BOS descriptor, the header's second byte.
pub const BOS_DESCRIPTOR_TYPE: u8 = 0x0F;

/// Length byte emitted at the start of each capability sub-descriptor. The
/// USB convention accounts 0x1C (28) bytes per capability in the total-length
/// field, even though the fields emitted here add up to 21 bytes; the
/// constant is protocol-mandated and must not be re-derived from field sizes.
pub const CAPABILITY_LENGTH: u8 = 0x1C;

/// Descriptor type code for a device capability, each sub-descriptor's second byte.
pub const DEVICE_CAPABILITY_TYPE: u8 = 0x10;

/// Capability type code for a platform capability, each sub-descriptor's third byte.
pub const PLATFORM_CAPABILITY_SUBTYPE: u8 = 0x05;

/// A Microsoft OS 2.0 platform capability descriptor.
///
/// An immutable value object; the fixed-size `uuid` array makes a UUID of the
/// wrong length unrepresentable.
#[derive(Clone, Debug)]
pub struct PlatformCapabilityDescriptor {
    /// OS version UUID, copied verbatim to the wire, never interpreted.
    pub uuid: [u8; 16],
    /// Vendor-defined code, passed through unmodified.
    pub vendor_code: u8,
    /// Reserved byte, emitted exactly as stored.
    pub reserved: u8,
}

/// A BOS descriptor: an ordered sequence of platform capabilities.
///
/// The order of `capabilities` is significant; it determines the order of the
/// sub-descriptors on the wire.
#[derive(Clone, Debug)]
pub struct BosDescriptor {
    /// The platform capabilities, in serialization order.
    pub capabilities: Vec<PlatformCapabilityDescriptor>,
}

/// The total length declared in the BOS header: 5 header bytes plus 0x1C (28)
/// accounted bytes per capability. This is the value written little-endian at
/// offsets 2 and 3 of the output; it is a declared length, not the number of
/// bytes emitted (see `CAPABILITY_LENGTH`).
pub open spec fn spec_total_length(n: nat) -> nat {
    5 + 28 * n
}

/// The 5-byte BOS header for a descriptor with `n` capabilities: header
/// length, descriptor type, the declared total length as two little-endian
/// bytes, and the capability count truncated to 8 bits.
pub open spec fn spec_header_bytes(n: nat) -> Seq<u8> {
    seq![
        BOS_HEADER_LENGTH,
        BOS_DESCRIPTOR_TYPE,
        (spec_total_length(n) % 256) as u8,
        ((spec_total_length(n) / 256) % 256) as u8,
        (n % 256) as u8,
    ]
}

/// The 21 bytes one capability contributes to the wire: the three protocol
/// bytes, the UUID verbatim, the vendor code, and the reserved byte.
pub open spec fn spec_capability_bytes(cap: PlatformCapabilityDescriptor) -> Seq<u8> {
    seq![CAPABILITY_LENGTH, DEVICE_CAPABILITY_TYPE, PLATFORM_CAPABILITY_SUBTYPE]
        + cap.uuid@
        + seq![cap.vendor_code, cap.reserved]
}

/// The concatenation of the capabilities' sub-descriptors, in sequence order.
pub open spec fn spec_capabilities_bytes(caps: Seq<PlatformCapabilityDescriptor>) -> Seq<u8>
    decreases caps.len(),
{
    if caps.len() == 0 {
        Seq::empty()
    } else {
        spec_capabilities_bytes(caps.drop_last()) + spec_capability_bytes(caps.last())
    }
}

/// The complete wire encoding of a BOS descriptor: the 5-byte header followed
/// by each capability's sub-descriptor, in order, with no padding.
pub open spec fn spec_serialize(d: BosDescriptor) -> Seq<u8> {
    spec_header_bytes(d.capabilities@.len()) + spec_capabilities_bytes(d.capabilities@)
}

impl PlatformCapabilityDescriptor {
    /// Constructs a capability from its three fields.
    pub fn new(uuid: [u8; 16], vendor_code: u8, reserved: u8) -> (r: Self)
        ensures
            r.uuid == uuid,
            r.vendor_code == vendor_code,
            r.reserved == reserved,
    {
        PlatformCapabilityDescriptor { uuid, vendor_code, reserved }
    }

    /// Serializes this capability's 21-byte sub-descriptor.
    pub fn to_bytes(&self) -> (r: Vec<u8>)
        ensures
            r@ == spec_capability_bytes(*self),
    {
        let mut bytes: Vec<u8> = Vec::new();
        bytes.push(CAPABILITY_LENGTH);
        bytes.push(DEVICE_CAPABILITY_TYPE);
        bytes.push(PLATFORM_CAPABILITY_SUBTYPE);
        let mut i: usize = 0;
        while i < 16
            invariant
                i <= 16,
                bytes@ == seq![
                    CAPABILITY_LENGTH,
                    DEVICE_CAPABILITY_TYPE,
                    PLATFORM_CAPABILITY_SUBTYPE,
                ] + self.uuid@.take(i as int),
            decreases 16 - i,
        {
            bytes.push(self.uuid[i]);
            proof {
                assert(self.uuid@.take(i + 1) =~= self.uuid@.take(i as int).push(self.uuid@[i as int]));
            }
            i = i + 1;
        }
        bytes.push(self.vendor_code);
        bytes.push(self.reserved);
        proof {
            assert(self.uuid@.take(16) =~= self.uuid@);
            assert(bytes@ =~= spec_capability_bytes(*self));
        }
        bytes
    }
}

impl BosDescriptor {
    /// Constructs a BOS descriptor from its capabilities, kept in order.
    pub fn new(capabilities: Vec<PlatformCapabilityDescriptor>) -> (r: Self)
        ensures
            r.capabilities == capabilities,
    {
        BosDescriptor { capabilities }
    }

    /// Serializes the BOS descriptor into a byte array: the 5-byte header
    /// followed by each capability's sub-descriptor, in sequence order.
    ///
    /// The precondition only rules out descriptors so large that the declared
    /// total length cannot be computed in a `usize`.
    pub fn to_bytes(&self) -> (r: Vec<u8>)
        requires
            spec_total_length(self.capabilities@.len()) <= usize::MAX,
        ensures
            r@ == spec_serialize(*self),
    {
        let n = self.capabilities.len();
        let total_length: usize = 5 + n * 28;
        let mut bytes: Vec<u8> = Vec::new();
        bytes.push(BOS_HEADER_LENGTH);
        bytes.push(BOS_DESCRIPTOR_TYPE);
        bytes.push((total_length % 256) as u8);
        bytes.push(((total_length / 256) % 256) as u8);
        bytes.push((n % 256) as u8);
        proof {
            assert(bytes@ =~= spec_header_bytes(n as nat));
        }
        let mut i: usize = 0;
        while i < n
            invariant
                i <= n,
                n == self.capabilities@.len(),
                bytes@ == spec_header_bytes(n as nat)
                    + spec_capabilities_bytes(self.capabilities@.take(i as int)),
            decreases n - i,
        {
            let mut cap_bytes = self.capabilities[i].to_bytes();
            bytes.append(&mut cap_bytes);
            proof {
                let taken = self.capabilities@.take(i + 1);
                assert(taken.drop_last() =~= self.capabilities@.take(i as int));
                assert(taken.last() == self.capabilities@[i as int]);
            }
            i = i + 1;
        }
        proof {
            assert(self.capabilities@.take(n as int) =~= self.capabilities@);
        }
        bytes
    }
}

/// Each capability contributes exactly 21 bytes, so the concatenated
/// sub-descriptors of `caps` occupy `21 * caps.len()` bytes.
pub proof fn lemma_capabilities_bytes_len(caps: Seq<PlatformCapabilityDescriptor>)
    ensures
        spec_capabilities_bytes(caps).len() == 21 * caps.len(),
    decreases caps.len(),
{
    if caps.len() > 0 {
        lemma_capabilities_bytes_len(caps.drop_last());
    }
}

/// The serialized output of a descriptor with `n` capabilities is exactly
/// `5 + 21 * n` bytes long: the header plus the emitted sub-descriptors.
pub proof fn lemma_serialized_len(d: BosDescriptor)
    ensures
        spec_serialize(d).len() == 5 + 21 * d.capabilities@.len(),
{
    lemma_capabilities_bytes_len(d.capabilities@);
}

/// The two bytes at offsets 2 and 3 of the output encode, little-endian, the
/// declared total length `5 + 28 * n`, whenever that value fits in 16 bits.
pub proof fn lemma_total_length_field(d: BosDescriptor)
    requires
        spec_total_length(d.capabilities@.len()) < 0x10000,
    ensures
        spec_serialize(d)[2] + 256 * spec_serialize(d)[3]
            == spec_total_length(d.capabilities@.len()),
{
}

/// For a descriptor with no capabilities the declared total length equals the
/// actual output length.
pub proof fn lemma_empty_total_length_matches_output(d: BosDescriptor)
    requires
        d.capabilities@.len() == 0,
    ensures
        spec_serialize(d).len() == spec_total_length(d.capabilities@.len()),
        spec_serialize(d)[2] + 256 * spec_serialize(d)[3] == spec_serialize(d).len(),
{
    lemma_serialized_len(d);
}

/// Byte 4 of the output is the capability count, exact whenever the count
/// fits in one byte.
pub proof fn lemma_capability_count_byte(d: BosDescriptor)
    requires
        d.capabilities@.len() <= 255,
    ensures
        spec_serialize(d)[4] == d.capabilities@.len(),
{
}

/// Within the concatenated sub-descriptors, capability `i` occupies exactly
/// the 21 bytes starting at offset `21 * i`.
proof fn lemma_capabilities_bytes_block(caps: Seq<PlatformCapabilityDescriptor>, i: int)
    requires
        0 <= i < caps.len(),
    ensures
        spec_capabilities_bytes(caps).subrange(21 * i, 21 * i + 21)
            == spec_capability_bytes(caps[i]),
    decreases caps.len(),
{
    lemma_capabilities_bytes_len(caps);
    lemma_capabilities_bytes_len(caps.drop_last());
    if i == caps.len() - 1 {
        assert(spec_capabilities_bytes(caps).subrange(21 * i, 21 * i + 21)
            =~= spec_capability_bytes(caps[i]));
    } else {
        lemma_capabilities_bytes_block(caps.drop_last(), i);
        assert(spec_capabilities_bytes(caps).subrange(21 * i, 21 * i + 21)
            =~= spec_capabilities_bytes(caps.drop_last()).subrange(21 * i, 21 * i + 21));
    }
}

/// Capability sub-descriptors appear in the output in the same order as in
/// `capabilities`: block `i` occupies the 21 bytes starting at offset
/// `5 + 21 * i`, and each block begins with the three protocol bytes
/// `0x1C, 0x10, 0x05`.
pub proof fn lemma_capability_blocks(d: BosDescriptor)
    ensures
        forall|i: int| 0 <= i < d.capabilities@.len()
            ==> #[trigger] spec_serialize(d).subrange(5 + 21 * i, 5 + 21 * i + 21)
                == spec_capability_bytes(d.capabilities@[i]),
        forall|i: int| 0 <= i < d.capabilities@.len() ==> {
            let block = #[trigger] spec_capability_bytes(d.capabilities@[i]);
            &&& block.len() == 21
            &&& block[0] == CAPABILITY_LENGTH
            &&& block[1] == DEVICE_CAPABILITY_TYPE
            &&& block[2] == PLATFORM_CAPABILITY_SUBTYPE
        },
{
    let caps = d.capabilities@;
    lemma_capabilities_bytes_len(caps);
    assert forall|i: int| 0 <= i < caps.len()
        implies #[trigger] spec_serialize(d).subrange(5 + 21 * i, 5 + 21 * i + 21)
            == spec_capability_bytes(caps[i]) by {
        lemma_capabilities_bytes_block(caps, i);
        assert(spec_serialize(d).subrange(5 + 21 * i, 5 + 21 * i + 21)
            =~= spec_capabilities_bytes(caps).subrange(21 * i, 21 * i + 21));
    }
}

/// Serialization is deterministic: any two serializations of the same,
/// unmutated descriptor are byte-identical.
pub proof fn lemma_serialize_deterministic(d: BosDescriptor, r1: Seq<u8>, r2: Seq<u8>)
    requires
        r1 == spec_serialize(d),
        r2 == spec_serialize(d),
    ensures
        r1 == r2,
{
}

} // verus!
