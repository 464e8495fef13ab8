use crate::property::{read_opcode, Property};
use vstd::prelude::*;

verus! {

/// USB vendor id of the device.
pub const VENDOR_ID: u16 = 0x045E;

/// USB product id of the device.
pub const PRODUCT_ID: u16 = 0x082A;

/// Report id of the outbound feature report that carries a request.
pub const WRITE_REPORT_ID: u8 = 0x24;

/// Length of the outbound feature report, report id included.
pub const WRITE_REPORT_LEN: usize = 73;

/// Report id of the inbound feature report that carries the answer.
pub const READ_REPORT_ID: u8 = 0x27;

/// Length of the inbound feature report, report id included.
pub const READ_REPORT_LEN: usize = 41;

/// The outbound report that asks the device for the value of `property`:
/// the report id, the read opcode, and zeros after them.
pub fn read_request(property: Property) -> (r: Vec<u8>)
    ensures
        r@.len() == WRITE_REPORT_LEN,
        r@[0] == WRITE_REPORT_ID,
        r@[1] == read_opcode(property),
        forall|i: int| 2 <= i < r@.len() ==> r@[i] == 0,
{
    let mut report: Vec<u8> = vec![0u8; WRITE_REPORT_LEN];
    report.set(0, WRITE_REPORT_ID);
    report.set(1, property.as_read_byte());
    report
}

/// The inbound buffer handed to the transport to be filled: its first byte
/// names the report to fetch, the rest is zero.
pub fn response_buffer() -> (r: Vec<u8>)
    ensures
        r@.len() == READ_REPORT_LEN,
        r@[0] == READ_REPORT_ID,
        forall|i: int| 1 <= i < r@.len() ==> r@[i] == 0,
{
    let mut report: Vec<u8> = vec![0u8; READ_REPORT_LEN];
    report.set(0, READ_REPORT_ID);
    report
}

} // verus!
