//! The fixed-layout binary report exchanged with the device in both
//! directions, its serializer/deserializer, the XOR integrity checksum and
//! the pure command constructors.
//!
//! Wire layout of the 91-byte buffer, by offset:
//!
//! | offset | field             |
//! |--------|-------------------|
//! | 0      | report id, always 0 |
//! | 1      | status            |
//! | 2      | transaction id    |
//! | 3..5   | remaining packets (little endian) |
//! | 5      | protocol type     |
//! | 6      | data size         |
//! | 7      | command class     |
//! | 8      | command id        |
//! | 9..89  | arguments (80 bytes, zero padded) |
//! | 89     | checksum          |
//! | 90     | reserved, always 0 |
//!
//! The checksum is a running XOR over offsets `[3, 89)`: everything from the
//! remaining-packets counter through the last argument byte, exclusive of the
//! checksum itself and the trailing reserved byte.

use vstd::prelude::*;

verus! {

use vstd::pervasive::VecAdditionalExecFns;

/// Total size of the wire buffer.
pub const REPORT_LEN: usize = 91;

/// Size of the command-specific payload.
pub const ARGUMENTS_LEN: usize = 80;

/// First wire offset covered by the checksum.
pub const CRC_FROM: usize = 3;

/// First wire offset past the range covered by the checksum.
pub const CRC_TO: usize = 89;

/// Device-reported result code of an exchange.
#[derive(Clone, Copy, Debug, PartialEq, Eq, Structural)]
pub enum RazerStatus {
    New,
    Busy,
    Successful,
    Failure,
    NoResponseTimeout,
    NotSupported,
}

impl RazerStatus {
    /// Wire value of the status code.
    pub open spec fn spec_code(self) -> u8 {
        match self {
            RazerStatus::New => 0x00,
            RazerStatus::Busy => 0x01,
            RazerStatus::Successful => 0x02,
            RazerStatus::Failure => 0x03,
            RazerStatus::NoResponseTimeout => 0x04,
            RazerStatus::NotSupported => 0x05,
        }
    }

    #[verifier::when_used_as_spec(spec_code)]
    pub fn code(self) -> (c: u8)
        ensures
            c == self.spec_code(),
    {
        match self {
            RazerStatus::New => 0x00,
            RazerStatus::Busy => 0x01,
            RazerStatus::Successful => 0x02,
            RazerStatus::Failure => 0x03,
            RazerStatus::NoResponseTimeout => 0x04,
            RazerStatus::NotSupported => 0x05,
        }
    }
}

/// Whether a setting is persisted to onboard storage or applied transiently.
#[derive(Clone, Copy, Debug, PartialEq, Eq, Structural)]
pub enum RazerVarstore {
    NoStore,
    Store,
}

impl RazerVarstore {
    /// Wire value of the varstore selector.
    pub open spec fn spec_code(self) -> u8 {
        match self {
            RazerVarstore::NoStore => 0x00,
            RazerVarstore::Store => 0x01,
        }
    }

    #[verifier::when_used_as_spec(spec_code)]
    pub fn code(self) -> (c: u8)
        ensures
            c == self.spec_code(),
    {
        match self {
            RazerVarstore::NoStore => 0x00,
            RazerVarstore::Store => 0x01,
        }
    }
}

/// Lighting mode of the standard matrix-effect command family.
#[derive(Clone, Copy, Debug, PartialEq, Eq, Structural)]
pub enum RazerMatrixEffectId {
    Off,
    Wave,
    Reactive,
    Breathing,
    Spectrum,
    CustomFrame,
    Static,
}

impl RazerMatrixEffectId {
    /// Wire value of the effect selector.
    pub open spec fn spec_code(self) -> u8 {
        match self {
            RazerMatrixEffectId::Off => 0x00,
            RazerMatrixEffectId::Wave => 0x01,
            RazerMatrixEffectId::Reactive => 0x02,
            RazerMatrixEffectId::Breathing => 0x03,
            RazerMatrixEffectId::Spectrum => 0x04,
            RazerMatrixEffectId::CustomFrame => 0x05,
            RazerMatrixEffectId::Static => 0x06,
        }
    }

    #[verifier::when_used_as_spec(spec_code)]
    pub fn code(self) -> (c: u8)
        ensures
            c == self.spec_code(),
    {
        match self {
            RazerMatrixEffectId::Off => 0x00,
            RazerMatrixEffectId::Wave => 0x01,
            RazerMatrixEffectId::Reactive => 0x02,
            RazerMatrixEffectId::Breathing => 0x03,
            RazerMatrixEffectId::Spectrum => 0x04,
            RazerMatrixEffectId::CustomFrame => 0x05,
            RazerMatrixEffectId::Static => 0x06,
        }
    }
}

/// Lighting mode of the extended mouse matrix-effect command family.
#[derive(Clone, Copy, Debug, PartialEq, Eq, Structural)]
pub enum RazerMouseMatrixEffectId {
    Off,
    Static,
    Breathing,
    Spectrum,
    Wave,
    Reactive,
    Starlight,
    CustomFrame,
}

impl RazerMouseMatrixEffectId {
    /// Wire value of the effect selector.
    pub open spec fn spec_code(self) -> u8 {
        match self {
            RazerMouseMatrixEffectId::Off => 0x00,
            RazerMouseMatrixEffectId::Static => 0x01,
            RazerMouseMatrixEffectId::Breathing => 0x02,
            RazerMouseMatrixEffectId::Spectrum => 0x03,
            RazerMouseMatrixEffectId::Wave => 0x04,
            RazerMouseMatrixEffectId::Reactive => 0x05,
            RazerMouseMatrixEffectId::Starlight => 0x07,
            RazerMouseMatrixEffectId::CustomFrame => 0x08,
        }
    }

    #[verifier::when_used_as_spec(spec_code)]
    pub fn code(self) -> (c: u8)
        ensures
            c == self.spec_code(),
    {
        match self {
            RazerMouseMatrixEffectId::Off => 0x00,
            RazerMouseMatrixEffectId::Static => 0x01,
            RazerMouseMatrixEffectId::Breathing => 0x02,
            RazerMouseMatrixEffectId::Spectrum => 0x03,
            RazerMouseMatrixEffectId::Wave => 0x04,
            RazerMouseMatrixEffectId::Reactive => 0x05,
            RazerMouseMatrixEffectId::Starlight => 0x07,
            RazerMouseMatrixEffectId::CustomFrame => 0x08,
        }
    }
}

/// An ordered triple of 8-bit channel intensities, no alpha, no gamma.
#[derive(Clone, Copy, Debug, PartialEq, Eq, Structural)]
pub struct Color {
    pub red: u8,
    pub green: u8,
    pub blue: u8,
}

impl Color {
    pub fn new(red: u8, green: u8, blue: u8) -> (c: Color)
        ensures
            c == (Color { red, green, blue }),
    {
        Color { red, green, blue }
    }
}

/// Mathematical model of a report: the same fields, with the payload as a
/// sequence of bytes.
#[verifier::ext_equal]
pub struct ReportV {
    pub status: u8,
    pub transaction_id: u8,
    pub remaining_packets: u16,
    pub protocol_type: u8,
    pub data_size: u8,
    pub command_class: u8,
    pub command_id: u8,
    pub arguments: Seq<u8>,
    pub crc: u8,
    pub reserved: u8,
}

impl ReportV {
    /// The payload has its fixed width.
    pub open spec fn wf(self) -> bool {
        self.arguments.len() == ARGUMENTS_LEN
    }

    /// Invariant of every constructed command: well formed, and the count of
    /// meaningful payload bytes never exceeds the payload width.
    pub open spec fn valid(self) -> bool {
        self.wf() && self.data_size <= ARGUMENTS_LEN as u8
    }
}

/// The wire unit exchanged with the device in both directions.
pub struct RazerReport {
    pub status: u8,
    pub transaction_id: u8,
    pub remaining_packets: u16,
    pub protocol_type: u8,
    pub data_size: u8,
    pub command_class: u8,
    pub command_id: u8,
    pub arguments: Vec<u8>,
    pub crc: u8,
    pub reserved: u8,
}

impl View for RazerReport {
    type V = ReportV;

    open spec fn view(&self) -> ReportV {
        ReportV {
            status: self.status,
            transaction_id: self.transaction_id,
            remaining_packets: self.remaining_packets,
            protocol_type: self.protocol_type,
            data_size: self.data_size,
            command_class: self.command_class,
            command_id: self.command_id,
            arguments: self.arguments@,
            crc: self.crc,
            reserved: self.reserved,
        }
    }
}

/// Low byte of the little-endian continuation counter.
pub open spec fn lo16(x: u16) -> u8 {
    (x % 256) as u8
}

/// High byte of the little-endian continuation counter.
pub open spec fn hi16(x: u16) -> u8 {
    (x / 256) as u8
}

/// The nine wire bytes that precede the payload.
pub open spec fn spec_header(v: ReportV) -> Seq<u8> {
    seq![
        0u8,
        v.status,
        v.transaction_id,
        lo16(v.remaining_packets),
        hi16(v.remaining_packets),
        v.protocol_type,
        v.data_size,
        v.command_class,
        v.command_id,
    ]
}

/// Exact wire representation of a report.
pub open spec fn spec_encode(v: ReportV) -> Seq<u8> {
    spec_header(v) + v.arguments + seq![v.crc, v.reserved]
}

/// Inverse of [`spec_encode`] on 91-byte buffers.
pub open spec fn spec_decode(b: Seq<u8>) -> ReportV {
    ReportV {
        status: b[1],
        transaction_id: b[2],
        remaining_packets: (b[3] + 256 * b[4]) as u16,
        protocol_type: b[5],
        data_size: b[6],
        command_class: b[7],
        command_id: b[8],
        arguments: b.subrange(9, 89),
        crc: b[89],
        reserved: b[90],
    }
}

/// Running XOR of a sequence of bytes.
pub open spec fn xor_fold(s: Seq<u8>) -> u8
    decreases s.len(),
{
    if s.len() == 0 {
        0u8
    } else {
        xor_fold(s.drop_last()) ^ s.last()
    }
}

/// Checksum of a wire buffer: XOR over offsets `[CRC_FROM, CRC_TO)`.
pub open spec fn spec_checksum(b: Seq<u8>) -> u8 {
    xor_fold(b.subrange(CRC_FROM as int, CRC_TO as int))
}

/// Checksum a report must carry on the wire.
pub open spec fn spec_report_crc(v: ReportV) -> u8 {
    spec_checksum(spec_encode(v))
}

impl RazerReport {
    /// The payload vector has its fixed width.
    pub open spec fn wf(&self) -> bool {
        self@.wf()
    }

    /// Well formed with an in-range data size; see [`ReportV::valid`].
    pub open spec fn valid(&self) -> bool {
        self@.valid()
    }

    /// Serializes the report into its exact fixed-size wire representation.
    /// The checksum field is written as it stands: finalize it with
    /// [`RazerReport::calculate_crc`] first.
    pub fn encode(&self) -> (r: Vec<u8>)
        requires
            self.wf(),
        ensures
            r@ == spec_encode(self@),
            r@.len() == REPORT_LEN,
    {
        let mut buf: Vec<u8> = Vec::new();
        buf.push(0);
        buf.push(self.status);
        buf.push(self.transaction_id);
        buf.push((self.remaining_packets % 256) as u8);
        buf.push((self.remaining_packets / 256) as u8);
        buf.push(self.protocol_type);
        buf.push(self.data_size);
        buf.push(self.command_class);
        buf.push(self.command_id);
        assert(buf@ =~= spec_header(self@));
        let mut i: usize = 0;
        while i < ARGUMENTS_LEN
            invariant
                i <= ARGUMENTS_LEN,
                self.wf(),
                buf@ == spec_header(self@) + self.arguments@.take(i as int),
            decreases ARGUMENTS_LEN - i,
        {
            buf.push(self.arguments[i]);
            assert(self.arguments@.take(i + 1) =~= self.arguments@.take(i as int).push(
                self.arguments@[i as int],
            ));
            i = i + 1;
        }
        buf.push(self.crc);
        buf.push(self.reserved);
        assert(self.arguments@.take(ARGUMENTS_LEN as int) =~= self.arguments@);
        assert(buf@ =~= spec_encode(self@));
        buf
    }

    /// Deserializes a 91-byte wire buffer; the inverse of
    /// [`RazerReport::encode`]. The checksum of received data is carried, not
    /// verified.
    pub fn decode(bytes: &[u8]) -> (r: RazerReport)
        requires
            bytes@.len() == REPORT_LEN,
        ensures
            r@ == spec_decode(bytes@),
            r.wf(),
    {
        let mut arguments: Vec<u8> = Vec::new();
        let mut i: usize = 9;
        while i < 89
            invariant
                9 <= i <= 89,
                bytes@.len() == REPORT_LEN,
                arguments@ == bytes@.subrange(9, i as int),
            decreases 89 - i,
        {
            arguments.push(bytes[i]);
            assert(bytes@.subrange(9, i + 1) =~= bytes@.subrange(9, i as int).push(
                bytes@[i as int],
            ));
            i = i + 1;
        }
        let r = RazerReport {
            status: bytes[1],
            transaction_id: bytes[2],
            remaining_packets: bytes[3] as u16 + 256 * (bytes[4] as u16),
            protocol_type: bytes[5],
            data_size: bytes[6],
            command_class: bytes[7],
            command_id: bytes[8],
            arguments,
            crc: bytes[89],
            reserved: bytes[90],
        };
        assert(r@ =~= spec_decode(bytes@));
        r
    }

    /// Recomputes the integrity checksum over the covered wire range and
    /// stores it in the checksum field. Must be called after every field
    /// mutation and before transmission.
    pub fn calculate_crc(&mut self)
        requires
            old(self).wf(),
        ensures
            final(self)@ == (ReportV { crc: spec_report_crc(old(self)@), ..old(self)@ }),
    {
        let buf = self.encode();
        let mut crc: u8 = 0;
        let mut i: usize = CRC_FROM;
        while i < CRC_TO
            invariant
                CRC_FROM <= i <= CRC_TO,
                buf@.len() == REPORT_LEN,
                crc == xor_fold(buf@.subrange(CRC_FROM as int, i as int)),
            decreases CRC_TO - i,
        {
            crc = crc ^ buf[i];
            assert(buf@.subrange(CRC_FROM as int, i + 1).drop_last() =~= buf@.subrange(
                CRC_FROM as int,
                i as int,
            ));
            i = i + 1;
        }
        self.crc = crc;
        assert(self@ =~= (ReportV { crc: spec_report_crc(old(self)@), ..old(self)@ }));
    }
}

/// An all-zero payload.
pub open spec fn zero_args() -> Seq<u8> {
    Seq::new(ARGUMENTS_LEN as nat, |i: int| 0u8)
}

/// Common shape of every command: a fresh report with the given command
/// selectors, a zero payload and every other field zero.
pub open spec fn base_report_v(
    transaction_id: u8,
    command_class: u8,
    command_id: u8,
    data_size: u8,
) -> ReportV {
    ReportV {
        status: 0,
        transaction_id,
        remaining_packets: 0,
        protocol_type: 0,
        data_size,
        command_class,
        command_id,
        arguments: zero_args(),
        crc: 0,
        reserved: 0,
    }
}

/// Model of the "get serial" command.
pub open spec fn standard_get_serial_v() -> ReportV {
    base_report_v(0x1f, 0x00, 0x82, 0x16)
}

/// Model of the "standard get LED brightness" command.
pub open spec fn standard_get_led_brightness_v(store: RazerVarstore, led_id: u8) -> ReportV {
    let base = base_report_v(0x1f, 0x03, 0x83, 0x03);
    ReportV { arguments: zero_args().update(0, store.spec_code()).update(1, led_id), ..base }
}

/// Model of the "standard set LED brightness" command.
pub open spec fn standard_set_led_brightness_v(
    store: RazerVarstore,
    led_id: u8,
    brightness: u8,
) -> ReportV {
    let base = base_report_v(0x1f, 0x03, 0x03, 0x03);
    ReportV {
        arguments: zero_args().update(0, store.spec_code()).update(1, led_id).update(
            2,
            brightness,
        ),
        ..base
    }
}

/// Model of the "standard matrix effect" command.
pub open spec fn standard_matrix_effect_v(effect: RazerMatrixEffectId) -> ReportV {
    let base = base_report_v(0x1f, 0x03, 0x0a, 0x04);
    ReportV { arguments: zero_args().update(0, effect.spec_code()), ..base }
}

/// Model of the "matrix get brightness" command.
pub open spec fn matrix_get_brightness_v(store: RazerVarstore, led_id: u8) -> ReportV {
    let base = base_report_v(0x1f, 0x0f, 0x84, 0x03);
    ReportV { arguments: zero_args().update(0, store.spec_code()).update(1, led_id), ..base }
}

/// Model of the "extended matrix effect" command of the mouse family.
pub open spec fn extended_mouse_matrix_effect_v(
    store: RazerVarstore,
    led_id: u8,
    effect: RazerMouseMatrixEffectId,
) -> ReportV {
    let base = base_report_v(0x1f, 0x0f, 0x02, 0x50);
    ReportV {
        arguments: zero_args().update(0, store.spec_code()).update(1, led_id).update(
            2,
            effect.spec_code(),
        ),
        ..base
    }
}

/// The color triples of a row flattened to bytes, channel order red, green,
/// blue.
pub open spec fn rgb_bytes(colors: Seq<Color>) -> Seq<u8>
    decreases colors.len(),
{
    if colors.len() == 0 {
        Seq::empty()
    } else {
        rgb_bytes(colors.drop_last()) + seq![
            colors.last().red,
            colors.last().green,
            colors.last().blue,
        ]
    }
}

/// Flattening triples yields three bytes per color.
pub proof fn lemma_rgb_bytes_len(colors: Seq<Color>)
    ensures
        rgb_bytes(colors).len() == 3 * colors.len(),
    decreases colors.len(),
{
    if colors.len() > 0 {
        lemma_rgb_bytes_len(colors.drop_last());
    }
}

/// Within flattened triples, the color of column `k` stands at byte offsets
/// `3k` through `3k + 2`, in channel order.
pub proof fn lemma_rgb_bytes_index(colors: Seq<Color>, k: int)
    requires
        0 <= k < colors.len(),
    ensures
        rgb_bytes(colors)[3 * k] == colors[k].red,
        rgb_bytes(colors)[3 * k + 1] == colors[k].green,
        rgb_bytes(colors)[3 * k + 2] == colors[k].blue,
    decreases colors.len(),
{
    lemma_rgb_bytes_len(colors.drop_last());
    if k < colors.len() - 1 {
        lemma_rgb_bytes_index(colors.drop_last(), k);
    }
}

/// Payload of a "matrix frame" command: the row index, the column range and
/// one color per column, zero padded.
pub open spec fn soft_matrix_frame_args(row: u8, start_col: u8, colors: Seq<Color>) -> Seq<u8> {
    seq![0u8, 0u8, row, start_col, (start_col + colors.len()) as u8] + rgb_bytes(colors)
        + Seq::new((75 - 3 * colors.len()) as nat, |i: int| 0u8)
}

/// Model of the "matrix frame" command that writes a row of per-column
/// colors.
pub open spec fn soft_matrix_frame_v(row: u8, start_col: u8, colors: Seq<Color>) -> ReportV {
    let base = base_report_v(0x1f, 0x0f, 0x03, (5 + 3 * colors.len()) as u8);
    ReportV { arguments: soft_matrix_frame_args(row, start_col, colors), ..base }
}

/// A payload vector of 80 zero bytes.
fn zero_vec() -> (v: Vec<u8>)
    ensures
        v@ == zero_args(),
{
    let mut v: Vec<u8> = Vec::new();
    let mut i: usize = 0;
    while i < ARGUMENTS_LEN
        invariant
            i <= ARGUMENTS_LEN,
            v@ == Seq::new(i as nat, |j: int| 0u8),
        decreases ARGUMENTS_LEN - i,
    {
        v.push(0);
        assert(Seq::new((i + 1) as nat, |j: int| 0u8) =~= Seq::new(i as nat, |j: int| 0u8).push(
            0u8,
        ));
        i = i + 1;
    }
    v
}

/// A fresh command report with the given selectors and a zero payload.
fn base_report(transaction_id: u8, command_class: u8, command_id: u8, data_size: u8) -> (r:
    RazerReport)
    ensures
        r@ == base_report_v(transaction_id, command_class, command_id, data_size),
        r.wf(),
{
    let r = RazerReport {
        status: 0,
        transaction_id,
        remaining_packets: 0,
        protocol_type: 0,
        data_size,
        command_class,
        command_id,
        arguments: zero_vec(),
        crc: 0,
        reserved: 0,
    };
    assert(r@ =~= base_report_v(transaction_id, command_class, command_id, data_size));
    r
}

impl RazerReport {
    /// The "get serial" command: the response payload carries the serial
    /// number as a zero-padded text string.
    pub fn standard_get_serial() -> (r: RazerReport)
        ensures
            r@ == standard_get_serial_v(),
            r.valid(),
    {
        base_report(0x1f, 0x00, 0x82, 0x16)
    }

    /// The "standard get LED brightness" command for one LED.
    pub fn standard_get_led_brightness(store: RazerVarstore, led_id: u8) -> (r: RazerReport)
        ensures
            r@ == standard_get_led_brightness_v(store, led_id),
            r.valid(),
    {
        let mut r = base_report(0x1f, 0x03, 0x83, 0x03);
        r.arguments.set(0, store.code());
        r.arguments.set(1, led_id);
        assert(r@ =~= standard_get_led_brightness_v(store, led_id));
        r
    }

    /// The "standard set LED brightness" command for one LED.
    pub fn standard_set_led_brightness(store: RazerVarstore, led_id: u8, brightness: u8) -> (r:
        RazerReport)
        ensures
            r@ == standard_set_led_brightness_v(store, led_id, brightness),
            r.valid(),
    {
        let mut r = base_report(0x1f, 0x03, 0x03, 0x03);
        r.arguments.set(0, store.code());
        r.arguments.set(1, led_id);
        r.arguments.set(2, brightness);
        assert(r@ =~= standard_set_led_brightness_v(store, led_id, brightness));
        r
    }

    /// The "standard matrix effect" command: applies a lighting mode
    /// uniformly across the whole matrix. For the static mode the caller
    /// writes the color channels at payload offsets 1 through 3.
    pub fn standard_matrix_effect(effect: RazerMatrixEffectId) -> (r: RazerReport)
        ensures
            r@ == standard_matrix_effect_v(effect),
            r.valid(),
    {
        let mut r = base_report(0x1f, 0x03, 0x0a, 0x04);
        r.arguments.set(0, effect.code());
        assert(r@ =~= standard_matrix_effect_v(effect));
        r
    }

    /// The "matrix get brightness" command for one LED.
    pub fn matrix_get_brightness(store: RazerVarstore, led_id: u8) -> (r: RazerReport)
        ensures
            r@ == matrix_get_brightness_v(store, led_id),
            r.valid(),
    {
        let mut r = base_report(0x1f, 0x0f, 0x84, 0x03);
        r.arguments.set(0, store.code());
        r.arguments.set(1, led_id);
        assert(r@ =~= matrix_get_brightness_v(store, led_id));
        r
    }

    /// The "extended matrix effect" command of the mouse family for one LED.
    /// For the static mode the caller writes the enable flag at payload
    /// offset 5 and the color channels at offsets 6 through 8.
    pub fn extended_mouse_matrix_effect(
        store: RazerVarstore,
        led_id: u8,
        effect: RazerMouseMatrixEffectId,
    ) -> (r: RazerReport)
        ensures
            r@ == extended_mouse_matrix_effect_v(store, led_id, effect),
            r.valid(),
    {
        let mut r = base_report(0x1f, 0x0f, 0x02, 0x50);
        r.arguments.set(0, store.code());
        r.arguments.set(1, led_id);
        r.arguments.set(2, effect.code());
        assert(r@ =~= extended_mouse_matrix_effect_v(store, led_id, effect));
        r
    }

    /// The "matrix frame" command: writes one color per column of one row of
    /// a per-key addressable matrix, columns `start_col` onward.
    pub fn soft_matrix_frame(row: u8, start_col: u8, colors: &Vec<Color>) -> (r: RazerReport)
        requires
            1 <= colors@.len() <= 25,
            start_col + colors@.len() <= 255,
        ensures
            r@ == soft_matrix_frame_v(row, start_col, colors@),
            r.valid(),
    {
        let n = colors.len();
        let mut arguments: Vec<u8> = Vec::new();
        arguments.push(0);
        arguments.push(0);
        arguments.push(row);
        arguments.push(start_col);
        arguments.push(start_col + n as u8);
        let ghost head = seq![0u8, 0u8, row, start_col, (start_col + colors@.len()) as u8];
        assert(arguments@ =~= head);
        let mut i: usize = 0;
        while i < n
            invariant
                i <= n,
                n == colors@.len() <= 25,
                arguments@ == head + rgb_bytes(colors@.take(i as int)),
            decreases n - i,
        {
            arguments.push(colors[i].red);
            arguments.push(colors[i].green);
            arguments.push(colors[i].blue);
            proof {
                let taken = colors@.take(i + 1);
                assert(taken.drop_last() =~= colors@.take(i as int));
                assert(arguments@ =~= head + rgb_bytes(taken));
            }
            i = i + 1;
        }
        assert(colors@.take(n as int) =~= colors@);
        proof {
            lemma_rgb_bytes_len(colors@);
        }
        let mut j: usize = 5 + 3 * n;
        while j < ARGUMENTS_LEN
            invariant
                5 + 3 * colors@.len() <= j <= ARGUMENTS_LEN,
                n == colors@.len() <= 25,
                arguments@ == head + rgb_bytes(colors@) + Seq::new(
                    (j - 5 - 3 * colors@.len()) as nat,
                    |k: int| 0u8,
                ),
            decreases ARGUMENTS_LEN - j,
        {
            arguments.push(0);
            assert(Seq::new((j + 1 - 5 - 3 * colors@.len()) as nat, |k: int| 0u8) =~= Seq::new(
                (j - 5 - 3 * colors@.len()) as nat,
                |k: int| 0u8,
            ).push(0u8));
            assert(arguments@ =~= head + rgb_bytes(colors@) + Seq::new(
                (j + 1 - 5 - 3 * colors@.len()) as nat,
                |k: int| 0u8,
            ));
            j = j + 1;
        }
        let r = RazerReport {
            status: 0,
            transaction_id: 0x1f,
            remaining_packets: 0,
            protocol_type: 0,
            data_size: 5 + 3 * (n as u8),
            command_class: 0x0f,
            command_id: 0x03,
            arguments,
            crc: 0,
            reserved: 0,
        };
        assert(r@.arguments =~= soft_matrix_frame_args(row, start_col, colors@));
        assert(r@ =~= soft_matrix_frame_v(row, start_col, colors@));
        r
    }
}

/// The checksum reads nothing outside the covered range: two wire buffers
/// that agree on offsets `[CRC_FROM, CRC_TO)` have the same checksum.
pub proof fn lemma_checksum_covers_only_range(b1: Seq<u8>, b2: Seq<u8>)
    requires
        b1.len() >= CRC_TO,
        b2.len() >= CRC_TO,
        b1.subrange(CRC_FROM as int, CRC_TO as int) == b2.subrange(CRC_FROM as int, CRC_TO as int),
    ensures
        spec_checksum(b1) == spec_checksum(b2),
{
}

/// Updating one byte of a sequence XORs the old and the new byte into its
/// fold.
proof fn lemma_xor_fold_update(s: Seq<u8>, i: int, x: u8)
    requires
        0 <= i < s.len(),
    ensures
        xor_fold(s.update(i, x)) == xor_fold(s) ^ s[i] ^ x,
    decreases s.len(),
{
    let a = xor_fold(s.drop_last());
    let y = s[i];
    let l = s.last();
    if i == s.len() - 1 {
        assert(s.update(i, x).drop_last() =~= s.drop_last());
        assert(a ^ x == (a ^ y) ^ y ^ x) by (bit_vector);
    } else {
        assert(s.update(i, x).drop_last() =~= s.drop_last().update(i, x));
        lemma_xor_fold_update(s.drop_last(), i, x);
        assert(s.drop_last()[i] == y);
        assert((a ^ y ^ x) ^ l == (a ^ l) ^ y ^ x) by (bit_vector);
    }
}

/// Mutating any covered byte of a wire buffer changes the checksum: with a
/// XOR checksum this holds exactly, not just with overwhelming probability.
pub proof fn lemma_checksum_byte_sensitivity(b: Seq<u8>, i: int, x: u8)
    requires
        b.len() == REPORT_LEN,
        CRC_FROM <= i < CRC_TO,
        x != b[i],
    ensures
        spec_checksum(b.update(i, x)) != spec_checksum(b),
{
    let covered = b.subrange(CRC_FROM as int, CRC_TO as int);
    assert(b.update(i, x).subrange(CRC_FROM as int, CRC_TO as int) =~= covered.update(
        i - CRC_FROM,
        x,
    ));
    lemma_xor_fold_update(covered, i - CRC_FROM, x);
    let c = xor_fold(covered);
    let y = covered[i - CRC_FROM];
    assert(y != x ==> c ^ y ^ x != c) by (bit_vector);
}

/// The checksum of a report does not depend on the report's own checksum
/// field, so recomputing it is idempotent: finalizing a report whose
/// checksum is already in place leaves it unchanged.
pub proof fn lemma_checksum_idempotent(v: ReportV)
    requires
        v.wf(),
    ensures
        spec_report_crc((ReportV { crc: spec_report_crc(v), ..v })) == spec_report_crc(v),
{
    let v2 = ReportV { crc: spec_report_crc(v), ..v };
    assert(spec_encode(v2).subrange(CRC_FROM as int, CRC_TO as int) =~= spec_encode(v).subrange(
        CRC_FROM as int,
        CRC_TO as int,
    ));
    lemma_checksum_covers_only_range(spec_encode(v2), spec_encode(v));
}

/// Decoding the encoding of any well-formed report gives the report back,
/// field by field.
pub proof fn lemma_decode_encode_round_trip(v: ReportV)
    requires
        v.wf(),
    ensures
        spec_decode(spec_encode(v)) == v,
{
    let e = spec_encode(v);
    assert(e.subrange(9, 89) =~= v.arguments);
    assert(v.remaining_packets == lo16(v.remaining_packets) + 256 * hi16(
        v.remaining_packets,
    )) by {
        vstd::arithmetic::div_mod::lemma_fundamental_div_mod(v.remaining_packets as int, 256);
    }
    assert(spec_decode(e) =~= v);
}

} // verus!

