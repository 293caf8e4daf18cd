use razer_hid::errors::Error;
use razer_hid::report::{RazerReport, RazerStatus};
use razer_hid::transport::{decode_serial, get_serial, send_report, DeviceHandle};

/// A scripted handle: consumes one send result and one read result per call,
/// repeating the last read result once the script runs out, and records
/// every buffer sent and every delay requested.
struct FakeHandle {
    send_script: Vec<Result<(), Error>>,
    read_script: Vec<Result<Vec<u8>, Error>>,
    sent: Vec<Vec<u8>>,
    sleeps: Vec<u64>,
    reads: usize,
}

impl FakeHandle {
    fn new(send_script: Vec<Result<(), Error>>, read_script: Vec<Result<Vec<u8>, Error>>) -> Self {
        FakeHandle { send_script, read_script, sent: Vec::new(), sleeps: Vec::new(), reads: 0 }
    }
}

impl DeviceHandle for FakeHandle {
    fn send_feature_report(&mut self, data: &[u8]) -> Result<(), Error> {
        let attempt = self.sent.len();
        self.sent.push(data.to_vec());
        if attempt < self.send_script.len() {
            self.send_script[attempt]
        } else {
            Ok(())
        }
    }

    fn get_feature_report(&mut self) -> Result<Vec<u8>, Error> {
        let i = if self.reads < self.read_script.len() {
            self.reads
        } else {
            self.read_script.len() - 1
        };
        self.reads += 1;
        self.read_script[i].clone()
    }

    fn sleep_micros(&mut self, micros: u64) {
        self.sleeps.push(micros);
    }

    fn get_manufacturer_string(&mut self) -> Result<Option<String>, Error> {
        Ok(Some(String::from("maker")))
    }

    fn get_product_string(&mut self) -> Result<Option<String>, Error> {
        Ok(Some(String::from("product")))
    }
}

fn response_with_status(status: RazerStatus) -> Vec<u8> {
    let mut r = RazerReport::standard_get_serial();
    r.status = status.code();
    r.encode()
}

fn serial_response(serial: &[u8], data_size: u8) -> Vec<u8> {
    let mut r = RazerReport::standard_get_serial();
    r.status = RazerStatus::Successful.code();
    r.data_size = data_size;
    for (i, b) in serial.iter().enumerate() {
        r.arguments[i] = *b;
    }
    r.encode()
}

#[test]
fn retry_send_fails_twice_then_succeeds_on_third_attempt() {
    let mut h = FakeHandle::new(
        vec![Err(Error::Io), Err(Error::Io), Ok(())],
        vec![Ok(response_with_status(RazerStatus::Successful))],
    );
    let r = send_report(&mut h, RazerReport::standard_get_serial());
    assert!(r.is_ok());
    assert_eq!(h.sent.len(), 3);
    // Delays are requested in order: short, long, long.
    assert_eq!(h.sleeps, vec![800, 8000, 8000]);
}

#[test]
fn not_supported_is_terminal_after_one_attempt() {
    let mut h = FakeHandle::new(vec![], vec![Ok(response_with_status(RazerStatus::NotSupported))]);
    let r = send_report(&mut h, RazerReport::standard_get_serial());
    assert!(matches!(r, Err(Error::NotSupported)));
    assert_eq!(h.sent.len(), 1);
}

#[test]
fn busy_on_every_attempt_exhausts_the_retries() {
    let mut h = FakeHandle::new(vec![], vec![Ok(response_with_status(RazerStatus::Busy))]);
    let r = send_report(&mut h, RazerReport::standard_get_serial());
    assert!(matches!(r, Err(Error::NotSuccessful)));
    assert_eq!(h.sent.len(), 3);
    assert_eq!(h.sleeps, vec![800, 8000, 8000]);
}

#[test]
fn send_failure_on_every_attempt_surfaces_the_io_error() {
    let mut h = FakeHandle::new(
        vec![Err(Error::Io), Err(Error::Io), Err(Error::Io)],
        vec![Ok(response_with_status(RazerStatus::Successful))],
    );
    let r = send_report(&mut h, RazerReport::standard_get_serial());
    assert!(matches!(r, Err(Error::Io)));
    assert_eq!(h.sent.len(), 3);
    // No read is attempted when the send failed.
    assert_eq!(h.reads, 0);
}

#[test]
fn read_failure_on_every_attempt_surfaces_the_io_error() {
    let mut h = FakeHandle::new(vec![], vec![Err(Error::Io)]);
    let r = send_report(&mut h, RazerReport::standard_get_serial());
    assert!(matches!(r, Err(Error::Io)));
    assert_eq!(h.sent.len(), 3);
    assert_eq!(h.reads, 3);
}

#[test]
fn non_terminal_then_successful_status_succeeds_on_the_second_attempt() {
    let mut h = FakeHandle::new(
        vec![],
        vec![
            Ok(response_with_status(RazerStatus::New)),
            Ok(response_with_status(RazerStatus::Successful)),
        ],
    );
    let r = send_report(&mut h, RazerReport::standard_get_serial());
    assert!(r.is_ok());
    assert_eq!(h.sent.len(), 2);
}

#[test]
fn sent_buffer_carries_a_finalized_checksum() {
    let mut h = FakeHandle::new(vec![], vec![Ok(response_with_status(RazerStatus::Successful))]);
    let request = RazerReport::standard_get_serial();
    send_report(&mut h, request).unwrap();
    let sent = &h.sent[0];
    assert_eq!(sent.len(), 91);
    let mut crc = 0u8;
    for i in 3..89 {
        crc ^= sent[i];
    }
    assert_eq!(sent[89], crc);
}

#[test]
fn get_serial_truncates_at_the_first_zero_byte() {
    let mut h = FakeHandle::new(vec![], vec![Ok(serial_response(b"ABC123\0\0\0\0", 10))]);
    let serial = get_serial(&mut h).unwrap();
    assert_eq!(serial, "ABC123");
}

#[test]
fn get_serial_without_zero_byte_takes_all_meaningful_bytes() {
    let mut h = FakeHandle::new(vec![], vec![Ok(serial_response(b"XY12", 4))]);
    let serial = get_serial(&mut h).unwrap();
    assert_eq!(serial, "XY12");
}

#[test]
fn decode_serial_rejects_bytes_that_are_not_text() {
    let buf = serial_response(&[0xC3, 0x28, 0x00], 3);
    let response = RazerReport::decode(&buf);
    let r = decode_serial(&response);
    assert!(matches!(r, Err(Error::InvalidString)));
}

#[test]
fn decode_serial_clamps_an_oversized_data_size() {
    let mut r = RazerReport::standard_get_serial();
    r.status = RazerStatus::Successful.code();
    r.data_size = 200;
    for i in 0..80 {
        r.arguments[i] = b'A';
    }
    let serial = decode_serial(&r).unwrap();
    assert_eq!(serial.len(), 80);
}
