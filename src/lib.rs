//! Wire protocol of a vendor-specific HID mouse: the feature reports that
//! request a device property, and the decoding of the device's answer.

mod decode;
mod property;
mod report;

pub use property::{distance_of, polling_rate_of, read_opcode, write_opcode};
pub use property::{Distance, PollingRate, Property, PropertyValue};
pub use report::{read_request, response_buffer};
pub use report::{PRODUCT_ID, READ_REPORT_ID, READ_REPORT_LEN, VENDOR_ID, WRITE_REPORT_ID, WRITE_REPORT_LEN};
pub use decode::{be_u32, decoded, fits, le_u32, payload, payload_len, response_value};
pub use decode::{decode_payload, decode_response, DecodeError};
