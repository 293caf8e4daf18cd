//! One reliable request/response exchange over a single open device handle:
//! finalize the checksum, send the encoded request, wait a hardware settling
//! delay, read and decode the response, interpret its status, and retry
//! transient failures a bounded number of times.

use crate::errors::Error;
use crate::report::{
    RazerReport, RazerStatus, ReportV, ARGUMENTS_LEN, REPORT_LEN,
};
use vstd::prelude::*;

verus! {

/// Number of attempts one logical request is given before it fails.
pub const MAX_ATTEMPTS: usize = 3;

/// Settling delay requested after the first attempt, in microseconds.
pub const FIRST_ATTEMPT_DELAY_MICROS: u64 = 800;

/// Settling delay requested after every later attempt, in microseconds:
/// slower devices need longer on retry.
pub const RETRY_DELAY_MICROS: u64 = 8000;

/// An open, exclusively-owned device handle: the opaque byte-level
/// send/receive primitive the transport is built on, plus the generic
/// string-descriptor queries and the timing facility the retry loop needs.
///
/// The core does not perform device discovery itself; an implementation of
/// this trait is supplied from outside, already open.
pub trait DeviceHandle {
    /// Sends one feature report of exactly the fixed wire size.
    fn send_feature_report(&mut self, data: &[u8]) -> Result<(), Error>;

    /// Reads one feature report; a well-behaved handle fills a buffer of
    /// exactly the fixed wire size.
    fn get_feature_report(&mut self) -> Result<Vec<u8>, Error>;

    /// Requests a real-time settling delay.
    fn sleep_micros(&mut self, micros: u64);

    /// Queries the manufacturer string descriptor.
    fn get_manufacturer_string(&mut self) -> Result<Option<String>, Error>;

    /// Queries the product string descriptor.
    fn get_product_string(&mut self) -> Result<Option<String>, Error>;
}

/// The errors the transport itself can surface.
pub open spec fn transport_error(e: Error) -> bool {
    e == Error::Io || e == Error::NotSuccessful || e == Error::NotSupported
}

/// Executes exactly one logical request against the handle and returns the
/// decoded response, masking transient flakiness.
///
/// The checksum of the request is finalized here, immediately before the
/// send, so command construction stays pure. Each attempt sends the encoded
/// request, requests a settling delay (a short one after the first attempt,
/// a long one after every later attempt), then — if the send went through —
/// reads a response and interprets its status: the successful status is
/// terminal, a declined command is terminal and never retried, every other
/// status and every I/O failure falls through to the next attempt. After the
/// attempts are exhausted the last recorded transport-level error is
/// returned, or the generic not-successful error if no I/O failure was
/// captured.
pub fn send_report<H: DeviceHandle>(handle: &mut H, request: RazerReport) -> (r: Result<
    RazerReport,
    Error,
>)
    requires
        request.valid(),
    ensures
        (r matches Ok(response) ==> response.wf() && response@.status
            == RazerStatus::Successful.spec_code()),
        (r matches Err(e) ==> transport_error(e)),
{
    let mut request = request;
    request.calculate_crc();
    let encoded = request.encode();
    let mut last_error = Error::NotSuccessful;
    let mut attempt: usize = 0;
    while attempt < MAX_ATTEMPTS
        invariant
            last_error == Error::Io || last_error == Error::NotSuccessful,
        decreases MAX_ATTEMPTS - attempt,
    {
        let first = attempt == 0;
        attempt = attempt + 1;
        let sent = handle.send_feature_report(encoded.as_slice());
        if first {
            handle.sleep_micros(FIRST_ATTEMPT_DELAY_MICROS);
        } else {
            handle.sleep_micros(RETRY_DELAY_MICROS);
        }
        match sent {
            Ok(_) => {},
            Err(_) => {
                // A send failure is recorded and the attempt abandoned: no
                // read is attempted.
                last_error = Error::Io;
                continue ;
            },
        }
        let buf = match handle.get_feature_report() {
            Ok(buf) => buf,
            Err(_) => {
                last_error = Error::Io;
                continue ;
            },
        };
        if buf.len() != REPORT_LEN {
            // A handle that hands back a buffer of the wrong size did not
            // deliver a report: treated as an I/O failure of the read.
            last_error = Error::Io;
            continue ;
        }
        let response = RazerReport::decode(buf.as_slice());
        if response.status == RazerStatus::NotSupported.code() {
            // The device definitively declined the command; retrying cannot
            // help.
            return Err(Error::NotSupported);
        }
        if response.status == RazerStatus::Successful.code() {
            return Ok(response);
        }
        // Any other status is a retryable failure and falls through.
    }
    Err(last_error)
}

/// Every byte is below the ASCII bound.
pub open spec fn ascii_bytes(s: Seq<u8>) -> bool {
    forall|i: int| 0 <= i < s.len() ==> s[i] < 0x80
}

/// The characters spelled by a byte sequence, one per byte.
pub open spec fn bytes_as_chars(s: Seq<u8>) -> Seq<char> {
    s.map_values(|b: u8| b as char)
}

/// The prefix of a sequence up to, and exclusive of, its first zero byte; the
/// whole sequence if no byte is zero.
pub open spec fn take_until_zero(s: Seq<u8>) -> Seq<u8>
    decreases s.len(),
{
    if s.len() == 0 {
        Seq::empty()
    } else if s[0] == 0 {
        Seq::empty()
    } else {
        seq![s[0]] + take_until_zero(s.skip(1))
    }
}

/// Number of meaningful payload bytes of a report, clamped to the payload
/// width: a response may claim more than fits.
pub open spec fn serial_limit(v: ReportV) -> int {
    if v.data_size <= ARGUMENTS_LEN as u8 {
        v.data_size as int
    } else {
        ARGUMENTS_LEN as int
    }
}

/// The serial bytes a "get serial" response carries: the meaningful payload
/// bytes, truncated at the first zero byte.
pub open spec fn spec_serial(v: ReportV) -> Seq<u8> {
    take_until_zero(v.arguments.take(serial_limit(v)))
}

/// The meaningful bytes of `s` between `from` and `to`, truncated at the
/// first zero byte.
fn take_until_zero_exec(s: &[u8], from: usize, to: usize) -> (r: Vec<u8>)
    requires
        from <= to <= s@.len(),
    ensures
        r@ == take_until_zero(s@.subrange(from as int, to as int)),
    decreases to - from,
{
    if from == to {
        Vec::new()
    } else if s[from] == 0 {
        Vec::new()
    } else {
        let mut rest = take_until_zero_exec(s, from + 1, to);
        rest.insert(0, s[from]);
        proof {
            let whole = s@.subrange(from as int, to as int);
            assert(s@.subrange(from + 1, to as int) =~= whole.skip(1));
            assert(rest@ =~= seq![whole[0]] + take_until_zero(whole.skip(1)));
        }
        rest
    }
}

/// Relies on `String::from_utf8`: a buffer of bytes below 0x80 is valid
/// UTF-8 and decodes to one character per byte, with equal code points.
#[verifier::external_body]
fn ascii_string(bytes: Vec<u8>) -> (r: String)
    requires
        ascii_bytes(bytes@),
    ensures
        r@ == bytes_as_chars(bytes@),
{
    String::from_utf8(bytes).unwrap_or_default()
}

/// Interprets the payload of a "get serial" response: the serial number is
/// the meaningful payload prefix up to the first zero byte, and is valid
/// only as ASCII text.
pub fn decode_serial(response: &RazerReport) -> (r: Result<String, Error>)
    requires
        response.wf(),
    ensures
        (r matches Ok(s) ==> ascii_bytes(spec_serial(response@)) && s@ == bytes_as_chars(
            spec_serial(response@),
        )),
        (r matches Err(e) ==> e == Error::InvalidString && !ascii_bytes(spec_serial(response@))),
{
    let limit = if (response.data_size as usize) <= ARGUMENTS_LEN {
        response.data_size as usize
    } else {
        ARGUMENTS_LEN
    };
    let bytes = take_until_zero_exec(response.arguments.as_slice(), 0, limit);
    assert(response.arguments@.subrange(0, limit as int) =~= response@.arguments.take(
        serial_limit(response@),
    ));
    let mut i: usize = 0;
    while i < bytes.len()
        invariant
            i <= bytes@.len(),
            bytes@ == spec_serial(response@),
            forall|j: int| 0 <= j < i ==> bytes@[j] < 0x80,
        decreases bytes@.len() - i,
    {
        if bytes[i] >= 0x80 {
            return Err(Error::InvalidString);
        }
        i = i + 1;
    }
    Ok(ascii_string(bytes))
}

/// Issues the "get serial" command and interprets the response payload as
/// the device's serial number.
pub fn get_serial<H: DeviceHandle>(handle: &mut H) -> (r: Result<String, Error>)
    ensures
        (r matches Ok(s) ==> exists|v: ReportV|
            v.wf() && ascii_bytes(spec_serial(v)) && s@ == bytes_as_chars(spec_serial(v))),
        (r matches Err(e) ==> transport_error(e) || e == Error::InvalidString),
{
    let response = match send_report(handle, RazerReport::standard_get_serial()) {
        Ok(response) => response,
        Err(e) => { return Err(e) },
    };
    decode_serial(&response)
}

} // verus!
