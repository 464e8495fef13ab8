use crate::property::{distance_of, polling_rate_of, Distance, PollingRate, Property, PropertyValue};
use vstd::prelude::*;

verus! {

/// Why an inbound report could not be turned into a property value.
#[derive(Debug, Clone, Copy, PartialEq, Eq, Structural)]
pub enum DecodeError {
    /// The transport reported more payload bytes than the buffer holds after
    /// its report id.
    LengthOutOfRange { received: usize, capacity: usize },
    /// The payload is shorter than the encoding of the property needs.
    ShortPayload { property: Property, len: usize },
    /// The payload byte names no value of the property.
    UnknownByte { property: Property, byte: u8 },
}

/// Four bytes read as an unsigned integer, most significant byte first.
pub open spec fn be_u32(d: Seq<u8>) -> int {
    d[0] * 0x1000000 + d[1] * 0x10000 + d[2] * 0x100 + d[3]
}

/// Four bytes read as an unsigned integer, least significant byte first.
pub open spec fn le_u32(d: Seq<u8>) -> int {
    d[3] * 0x1000000 + d[2] * 0x10000 + d[1] * 0x100 + d[0]
}

/// The number of payload bytes that the encoding of `p` needs.
pub open spec fn payload_len(p: Property) -> nat {
    match p {
        Property::Color => 4,
        Property::Dpi => 4,
        Property::Distance => 1,
        Property::PollingRate => 1,
    }
}

/// What a payload means for the property `p`: Color is a big-endian and
/// Dpi a little-endian 32-bit integer, Distance and PollingRate one byte.
pub open spec fn decoded(p: Property, d: Seq<u8>) -> Result<PropertyValue, DecodeError> {
    if d.len() < payload_len(p) {
        Err(DecodeError::ShortPayload { property: p, len: d.len() as usize })
    } else {
        match p {
            Property::Color => Ok(PropertyValue::Color(be_u32(d) as u32)),
            Property::Dpi => Ok(PropertyValue::Dpi(le_u32(d) as u32)),
            Property::Distance => match distance_of(d[0]) {
                Some(v) => Ok(PropertyValue::Distance(v)),
                None => Err(DecodeError::UnknownByte { property: p, byte: d[0] }),
            },
            Property::PollingRate => match polling_rate_of(d[0]) {
                Some(v) => Ok(PropertyValue::PollingRate(v)),
                None => Err(DecodeError::UnknownByte { property: p, byte: d[0] }),
            },
        }
    }
}

/// Whether `received` payload bytes fit in `report` after its report id.
pub open spec fn fits(report: Seq<u8>, received: usize) -> bool {
    1 <= report.len() && received <= report.len() - 1
}

/// The payload of an inbound report: the `received` bytes after the report id.
pub open spec fn payload(report: Seq<u8>, received: usize) -> Seq<u8> {
    report.subrange(1, 1 + received)
}

/// What an inbound report, of which the transport filled `received` bytes
/// after the report id, means for the property `p`.
pub open spec fn response_value(p: Property, report: Seq<u8>, received: usize) -> Result<
    PropertyValue,
    DecodeError,
> {
    if !fits(report, received) {
        Err(DecodeError::LengthOutOfRange { received, capacity: report.len() as usize })
    } else {
        decoded(p, payload(report, received))
    }
}

/// Relies on byteorder's `BigEndian::read_u32`: the first four bytes of
/// `buf`, most significant first. It panics on fewer than four bytes.
#[verifier::external_body]
fn read_u32_be(buf: &[u8]) -> (r: u32)
    requires
        buf@.len() >= 4,
    ensures
        r as int == be_u32(buf@),
{
    <byteorder::BigEndian as byteorder::ByteOrder>::read_u32(buf)
}

/// Relies on byteorder's `LittleEndian::read_u32`: the first four bytes of
/// `buf`, least significant first. It panics on fewer than four bytes.
#[verifier::external_body]
fn read_u32_le(buf: &[u8]) -> (r: u32)
    requires
        buf@.len() >= 4,
    ensures
        r as int == le_u32(buf@),
{
    <byteorder::LittleEndian as byteorder::ByteOrder>::read_u32(buf)
}

/// Decodes the payload of an answer to a request for `property`.
pub fn decode_payload(property: Property, payload: &[u8]) -> (r: Result<PropertyValue, DecodeError>)
    ensures
        r == decoded(property, payload@),
        r is Ok ==> r->Ok_0.property() == property,
{
    let len = payload.len();
    match property {
        Property::Color => {
            if len < 4 {
                Err(DecodeError::ShortPayload { property, len })
            } else {
                Ok(PropertyValue::Color(read_u32_be(payload)))
            }
        },
        Property::Dpi => {
            if len < 4 {
                Err(DecodeError::ShortPayload { property, len })
            } else {
                Ok(PropertyValue::Dpi(read_u32_le(payload)))
            }
        },
        Property::Distance => {
            if len < 1 {
                Err(DecodeError::ShortPayload { property, len })
            } else {
                match Distance::from_byte(payload[0]) {
                    Some(v) => Ok(PropertyValue::Distance(v)),
                    None => Err(DecodeError::UnknownByte { property, byte: payload[0] }),
                }
            }
        },
        Property::PollingRate => {
            if len < 1 {
                Err(DecodeError::ShortPayload { property, len })
            } else {
                match PollingRate::from_byte(payload[0]) {
                    Some(v) => Ok(PropertyValue::PollingRate(v)),
                    None => Err(DecodeError::UnknownByte { property, byte: payload[0] }),
                }
            }
        },
    }
}

/// Decodes an inbound report of which the transport filled `received` bytes
/// after the report id (the report id itself is not data).
pub fn decode_response(property: Property, report: &[u8], received: usize) -> (r: Result<
    PropertyValue,
    DecodeError,
>)
    ensures
        r == response_value(property, report@, received),
        r is Ok ==> r->Ok_0.property() == property,
{
    let capacity = report.len();
    if capacity < 1 || received > capacity - 1 {
        Err(DecodeError::LengthOutOfRange { received, capacity })
    } else {
        decode_payload(property, &report[1..1 + received])
    }
}

} // verus!

verus! {

/// An answer to a Dpi request that carries at least four payload bytes is the
/// little-endian integer held in the four bytes after the report id.
pub proof fn lemma_dpi_answer(report: Seq<u8>, received: usize)
    requires
        fits(report, received),
        received >= 4,
    ensures
        response_value(Property::Dpi, report, received) == Ok::<PropertyValue, DecodeError>(
            PropertyValue::Dpi(le_u32(report.subrange(1, 5)) as u32),
        ),
{
}

/// Two answers of equal length that carry the same payload decode to the same
/// result: asking twice of a device whose state did not change gives the same
/// value (or the same error).
pub proof fn lemma_same_payload_same_value(
    p: Property,
    first: Seq<u8>,
    second: Seq<u8>,
    received: usize,
)
    requires
        first.len() == second.len(),
        forall|i: int| 1 <= i <= received && i < first.len() ==> first[i] == second[i],
    ensures
        response_value(p, first, received) == response_value(p, second, received),
{
    if fits(first, received) {
        assert(payload(first, received) =~= payload(second, received));
    }
}

/// A Distance byte other than 0 and 1, and a PollingRate byte other than 0, 1
/// and 2, is refused with the offending byte; it never decodes to a value.
pub proof fn lemma_unknown_bytes_refused(d: Seq<u8>)
    requires
        d.len() >= 1,
    ensures
        d[0] > 1 ==> decoded(Property::Distance, d) == Err::<PropertyValue, DecodeError>(
            DecodeError::UnknownByte { property: Property::Distance, byte: d[0] },
        ),
        d[0] > 2 ==> decoded(Property::PollingRate, d) == Err::<PropertyValue, DecodeError>(
            DecodeError::UnknownByte { property: Property::PollingRate, byte: d[0] },
        ),
{
}

} // verus!
