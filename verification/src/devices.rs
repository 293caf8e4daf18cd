//! The typed, capability-based device model: three concrete device families
//! built on the transport, their constructing factories, and the static
//! registry seam that maps a physical device identity to a factory.
//!
//! A capability call builds one or more commands through the report codec,
//! sends each through the transport, and interprets status and payload into
//! a typed result. A failure on any command of a sequence aborts the
//! remaining commands and surfaces that error; no capability call retries a
//! whole sequence.

use crate::errors::Error;
use crate::report::{
    extended_mouse_matrix_effect_v, soft_matrix_frame_v, standard_matrix_effect_v, Color,
    RazerMatrixEffectId, RazerMouseMatrixEffectId, RazerReport, RazerVarstore, ReportV,
};
use crate::transport::{get_serial, send_report, transport_error, DeviceHandle};
use vstd::prelude::*;
use vstd::pervasive::VecAdditionalExecFns;

verus! {

/// The vendor id shared by the known devices.
pub const RAZER_VENDOR: u16 = 0x1532;

/// Number of color rows a per-key addressable keyboard carries.
pub const SOFT_KEYBOARD_ROWS: u8 = 9;

/// Number of columns written per row of a per-key addressable keyboard.
pub const SOFT_KEYBOARD_COLS: usize = 23;

/// An immutable physical device identity: the lookup key of the registry,
/// compared structurally.
#[derive(Clone, Copy, Debug, Hash, PartialEq, Eq, Structural)]
pub struct DeviceId {
    pub vendor_id: u16,
    pub product_id: u16,
    pub interface_number: i32,
}

impl DeviceId {
    pub fn new(vendor_id: u16, product_id: u16, interface_number: i32) -> (r: DeviceId)
        ensures
            r == (DeviceId { vendor_id, product_id, interface_number }),
    {
        DeviceId { vendor_id, product_id, interface_number }
    }
}

/// A copy of a byte vector.
fn copy_bytes(v: &Vec<u8>) -> (r: Vec<u8>)
    ensures
        r@ == v@,
{
    let mut r: Vec<u8> = Vec::new();
    let mut i: usize = 0;
    while i < v.len()
        invariant
            i <= v@.len(),
            r@ == v@.take(i as int),
        decreases v@.len() - i,
    {
        r.push(v[i]);
        assert(v@.take(i + 1) =~= v@.take(i as int).push(v@[i as int]));
        i = i + 1;
    }
    assert(v@.take(v@.len() as int) =~= v@);
    r
}

/// The single command a matrix keyboard's `set_color` issues: the standard
/// static matrix effect, with the color channels at payload offsets 1
/// through 3, uniform across the whole matrix.
pub open spec fn keyboard_color_report_v(color: Color) -> ReportV {
    let base = standard_matrix_effect_v(RazerMatrixEffectId::Static);
    ReportV {
        arguments: base.arguments.update(1, color.red).update(2, color.green).update(
            3,
            color.blue,
        ),
        ..base
    }
}

/// Builds the one command of a matrix keyboard's `set_color`.
pub fn keyboard_color_report(color: Color) -> (r: RazerReport)
    ensures
        r@ == keyboard_color_report_v(color),
        r.valid(),
        r@.arguments[1] == color.red,
        r@.arguments[2] == color.green,
        r@.arguments[3] == color.blue,
{
    let mut r = RazerReport::standard_matrix_effect(RazerMatrixEffectId::Static);
    r.arguments.set(1, color.red);
    r.arguments.set(2, color.green);
    r.arguments.set(3, color.blue);
    assert(r@ =~= keyboard_color_report_v(color));
    r
}

/// One of the commands a matrix mouse's `set_color` issues: the extended
/// static matrix effect for one LED, with the enable flag at payload offset
/// 5 and the color channels at offsets 6 through 8.
pub open spec fn mice_color_report_v(led_id: u8, color: Color) -> ReportV {
    let base = extended_mouse_matrix_effect_v(
        RazerVarstore::Store,
        led_id,
        RazerMouseMatrixEffectId::Static,
    );
    ReportV {
        arguments: base.arguments.update(5, 1u8).update(6, color.red).update(7, color.green).update(
            8,
            color.blue,
        ),
        ..base
    }
}

/// Builds the command a matrix mouse's `set_color` issues for one LED.
pub fn mice_color_report(led_id: u8, color: Color) -> (r: RazerReport)
    ensures
        r@ == mice_color_report_v(led_id, color),
        r.valid(),
        r@.arguments[5] == 1,
        r@.arguments[6] == color.red,
        r@.arguments[7] == color.green,
        r@.arguments[8] == color.blue,
{
    let mut r = RazerReport::extended_mouse_matrix_effect(
        RazerVarstore::Store,
        led_id,
        RazerMouseMatrixEffectId::Static,
    );
    r.arguments.set(5, 1);
    r.arguments.set(6, color.red);
    r.arguments.set(7, color.green);
    r.arguments.set(8, color.blue);
    assert(r@ =~= mice_color_report_v(led_id, color));
    r
}

/// A matrix mouse's `set_color` issues exactly one command per LED of the
/// device's LED list, in list order, each enabling the LED and carrying the
/// color channels.
pub fn mice_color_commands(led_ids: &Vec<u8>, color: Color) -> (cmds: Vec<RazerReport>)
    ensures
        cmds@.len() == led_ids@.len(),
        forall|i: int|
            0 <= i < cmds@.len() ==> (#[trigger] cmds@[i])@ == mice_color_report_v(
                led_ids@[i],
                color,
            ) && cmds@[i].valid(),
{
    let mut cmds: Vec<RazerReport> = Vec::new();
    let mut i: usize = 0;
    while i < led_ids.len()
        invariant
            i <= led_ids@.len(),
            cmds@.len() == i,
            forall|j: int|
                0 <= j < i ==> (#[trigger] cmds@[j])@ == mice_color_report_v(led_ids@[j], color)
                    && cmds@[j].valid(),
        decreases led_ids@.len() - i,
    {
        cmds.push(mice_color_report(led_ids[i], color));
        i = i + 1;
    }
    cmds
}

/// One row's worth of a single color, repeated across the written columns.
pub open spec fn uniform_row(color: Color) -> Seq<Color> {
    Seq::new(SOFT_KEYBOARD_COLS as nat, |i: int| color)
}

/// One of the commands a per-key keyboard's `set_color` issues: a matrix
/// frame writing the same color to every column of one row.
pub open spec fn soft_row_report_v(row: u8, color: Color) -> ReportV {
    soft_matrix_frame_v(row, 0, uniform_row(color))
}

/// Builds the matrix-frame command for one row of a uniform color.
pub fn soft_color_row(row: u8, color: Color) -> (r: RazerReport)
    ensures
        r@ == soft_row_report_v(row, color),
        r.valid(),
{
    let mut colors: Vec<Color> = Vec::new();
    let mut i: usize = 0;
    while i < SOFT_KEYBOARD_COLS
        invariant
            i <= SOFT_KEYBOARD_COLS,
            colors@ == uniform_row(color).take(i as int),
        decreases SOFT_KEYBOARD_COLS - i,
    {
        colors.push(color);
        assert(uniform_row(color).take(i + 1) =~= uniform_row(color).take(i as int).push(color));
        i = i + 1;
    }
    assert(colors@ =~= uniform_row(color));
    RazerReport::soft_matrix_frame(row, 0, &colors)
}

/// A per-key keyboard's `set_color` issues exactly one matrix-frame command
/// per physical row, in row order, each carrying the same color repeated
/// across the column range.
pub fn soft_color_commands(color: Color) -> (cmds: Vec<RazerReport>)
    ensures
        cmds@.len() == SOFT_KEYBOARD_ROWS as int,
        forall|i: int|
            0 <= i < cmds@.len() ==> (#[trigger] cmds@[i])@ == soft_row_report_v(i as u8, color)
                && cmds@[i].valid(),
{
    let mut cmds: Vec<RazerReport> = Vec::new();
    let mut row: u8 = 0;
    while row < SOFT_KEYBOARD_ROWS
        invariant
            row <= SOFT_KEYBOARD_ROWS,
            cmds@.len() == row as int,
            forall|j: int|
                0 <= j < row as int ==> (#[trigger] cmds@[j])@ == soft_row_report_v(j as u8, color)
                    && cmds@[j].valid(),
        decreases SOFT_KEYBOARD_ROWS - row,
    {
        cmds.push(soft_color_row(row, color));
        row = row + 1;
    }
    cmds
}

/// A uniform matrix-frame row really repeats the one color: every written
/// column `k` carries the channels at payload offsets `5 + 3k` through
/// `7 + 3k`.
pub proof fn lemma_soft_row_uniform(row: u8, color: Color, k: int)
    requires
        0 <= k < SOFT_KEYBOARD_COLS,
    ensures
        soft_row_report_v(row, color).arguments[5 + 3 * k] == color.red,
        soft_row_report_v(row, color).arguments[5 + 3 * k + 1] == color.green,
        soft_row_report_v(row, color).arguments[5 + 3 * k + 2] == color.blue,
{
    crate::report::lemma_rgb_bytes_len(uniform_row(color));
    crate::report::lemma_rgb_bytes_index(uniform_row(color), k);
}

/// Sends a sequence of prepared commands in order, aborting on the first
/// failure; nothing already sent is undone.
fn send_all<H: DeviceHandle>(handle: &mut H, cmds: Vec<RazerReport>) -> (r: Result<(), Error>)
    requires
        forall|i: int| 0 <= i < cmds@.len() ==> (#[trigger] cmds@[i]).valid(),
    ensures
        (r matches Err(e) ==> transport_error(e)),
{
    let mut cmds = cmds;
    while cmds.len() > 0
        invariant
            forall|i: int| 0 <= i < cmds@.len() ==> (#[trigger] cmds@[i]).valid(),
        decreases cmds@.len(),
    {
        let cmd = cmds.remove(0);
        match send_report(handle, cmd) {
            Ok(_) => {},
            Err(e) => { return Err(e) },
        }
    }
    Ok(())
}

/// An open matrix keyboard: LEDs addressed by an explicit index list,
/// colored uniformly by one standard matrix-effect command.
pub struct MatrixKeyboard<H: DeviceHandle> {
    pub name: &'static str,
    pub led_ids: Vec<u8>,
    pub handle: H,
}

/// Constructs [`MatrixKeyboard`] devices for one product's static metadata.
#[derive(Clone, Debug)]
pub struct MatrixKeyboardFactory {
    pub name: &'static str,
    pub led_ids: Vec<u8>,
}

impl MatrixKeyboardFactory {
    pub fn new(name: &'static str, led_ids: Vec<u8>) -> (r: MatrixKeyboardFactory)
        ensures
            r.name@ == name@,
            r.led_ids@ == led_ids@,
    {
        MatrixKeyboardFactory { name, led_ids }
    }

    /// Human-readable name of the product this factory constructs.
    pub fn name(&self) -> (r: &'static str)
        ensures
            r@ == self.name@,
    {
        self.name
    }

    /// Wraps an already-open handle in the device family this factory is
    /// for.
    pub fn open<H: DeviceHandle>(&self, handle: H) -> (d: MatrixKeyboard<H>)
        ensures
            d.name@ == self.name@,
            d.led_ids@ == self.led_ids@,
    {
        MatrixKeyboard { name: self.name, led_ids: copy_bytes(&self.led_ids), handle }
    }
}

impl<H: DeviceHandle> MatrixKeyboard<H> {
    /// Human-readable product name.
    pub fn name(&self) -> (r: &'static str)
        ensures
            r@ == self.name@,
    {
        self.name
    }

    /// Queries the brightness of the designated first LED. The query
    /// reports a fixed placeholder value rather than decoding the
    /// brightness byte of the response payload.
    pub fn get_brightness(&mut self) -> (r: Result<u8, Error>)
        requires
            old(self).led_ids@.len() > 0,
        ensures
            final(self).name@ == old(self).name@,
            final(self).led_ids@ == old(self).led_ids@,
            (r matches Ok(b) ==> b == 0),
            (r matches Err(e) ==> transport_error(e)),
    {
        let report = RazerReport::standard_get_led_brightness(RazerVarstore::Store, self.led_ids[0]);
        match send_report(&mut self.handle, report) {
            Ok(_) => Ok(0),
            Err(e) => Err(e),
        }
    }

    /// Sets the brightness of every LED of the list, one command per LED in
    /// list order; a failure aborts the remaining LEDs and surfaces that
    /// error.
    pub fn set_brightness(&mut self, brightness: u8) -> (r: Result<(), Error>)
        ensures
            final(self).name@ == old(self).name@,
            final(self).led_ids@ == old(self).led_ids@,
            (r matches Err(e) ==> transport_error(e)),
    {
        let mut i: usize = 0;
        while i < self.led_ids.len()
            invariant
                i <= self.led_ids@.len(),
                self.name@ == old(self).name@,
                self.led_ids@ == old(self).led_ids@,
            decreases self.led_ids@.len() - i,
        {
            let report = RazerReport::standard_set_led_brightness(
                RazerVarstore::Store,
                self.led_ids[i],
                brightness,
            );
            match send_report(&mut self.handle, report) {
                Ok(_) => {},
                Err(e) => { return Err(e) },
            }
            i = i + 1;
        }
        Ok(())
    }

    /// Applies one uniform color across the whole matrix with a single
    /// command; see [`keyboard_color_report`].
    pub fn set_color(&mut self, color: Color) -> (r: Result<(), Error>)
        ensures
            final(self).name@ == old(self).name@,
            final(self).led_ids@ == old(self).led_ids@,
            (r matches Err(e) ==> transport_error(e)),
    {
        match send_report(&mut self.handle, keyboard_color_report(color)) {
            Ok(_) => Ok(()),
            Err(e) => Err(e),
        }
    }

    /// Queries the device's serial number.
    pub fn get_serial(&mut self) -> (r: Result<String, Error>)
        ensures
            final(self).name@ == old(self).name@,
            final(self).led_ids@ == old(self).led_ids@,
            (r matches Err(e) ==> transport_error(e) || e == Error::InvalidString),
    {
        get_serial(&mut self.handle)
    }

    /// Queries the manufacturer string descriptor.
    pub fn get_manufacturer(&mut self) -> Result<Option<String>, Error> {
        self.handle.get_manufacturer_string()
    }

    /// Queries the product string descriptor.
    pub fn get_product(&mut self) -> Result<Option<String>, Error> {
        self.handle.get_product_string()
    }
}

/// An open matrix mouse: LEDs addressed by an explicit index list, each
/// colored by its own extended matrix-effect command.
pub struct MatrixMice<H: DeviceHandle> {
    pub name: &'static str,
    pub led_ids: Vec<u8>,
    pub handle: H,
}

/// Constructs [`MatrixMice`] devices for one product's static metadata.
#[derive(Clone, Debug)]
pub struct MatrixMiceFactory {
    pub name: &'static str,
    pub led_ids: Vec<u8>,
}

impl MatrixMiceFactory {
    pub fn new(name: &'static str, led_ids: Vec<u8>) -> (r: MatrixMiceFactory)
        ensures
            r.name@ == name@,
            r.led_ids@ == led_ids@,
    {
        MatrixMiceFactory { name, led_ids }
    }

    /// Human-readable name of the product this factory constructs.
    pub fn name(&self) -> (r: &'static str)
        ensures
            r@ == self.name@,
    {
        self.name
    }

    /// Wraps an already-open handle in the device family this factory is
    /// for.
    pub fn open<H: DeviceHandle>(&self, handle: H) -> (d: MatrixMice<H>)
        ensures
            d.name@ == self.name@,
            d.led_ids@ == self.led_ids@,
    {
        MatrixMice { name: self.name, led_ids: copy_bytes(&self.led_ids), handle }
    }
}

impl<H: DeviceHandle> MatrixMice<H> {
    /// Human-readable product name.
    pub fn name(&self) -> (r: &'static str)
        ensures
            r@ == self.name@,
    {
        self.name
    }

    /// Queries the brightness of the designated brightness LED. The query
    /// reports a fixed placeholder value rather than decoding the
    /// brightness byte of the response payload.
    pub fn get_brightness(&mut self) -> (r: Result<u8, Error>)
        requires
            old(self).led_ids@.len() > 0,
        ensures
            final(self).name@ == old(self).name@,
            final(self).led_ids@ == old(self).led_ids@,
            (r matches Ok(b) ==> b == 0),
            (r matches Err(e) ==> transport_error(e)),
    {
        let report = RazerReport::matrix_get_brightness(RazerVarstore::Store, self.led_ids[0]);
        match send_report(&mut self.handle, report) {
            Ok(_) => Ok(0),
            Err(e) => Err(e),
        }
    }

    /// Applies one color to every LED of the list, one enabling command per
    /// LED in list order; see [`mice_color_commands`]. A failure aborts the
    /// remaining LEDs and surfaces that error.
    pub fn set_color(&mut self, color: Color) -> (r: Result<(), Error>)
        ensures
            final(self).name@ == old(self).name@,
            final(self).led_ids@ == old(self).led_ids@,
            (r matches Err(e) ==> transport_error(e)),
    {
        let cmds = mice_color_commands(&self.led_ids, color);
        send_all(&mut self.handle, cmds)
    }

    /// Queries the device's serial number.
    pub fn get_serial(&mut self) -> (r: Result<String, Error>)
        ensures
            final(self).name@ == old(self).name@,
            final(self).led_ids@ == old(self).led_ids@,
            (r matches Err(e) ==> transport_error(e) || e == Error::InvalidString),
    {
        get_serial(&mut self.handle)
    }

    /// Queries the manufacturer string descriptor.
    pub fn get_manufacturer(&mut self) -> Result<Option<String>, Error> {
        self.handle.get_manufacturer_string()
    }

    /// Queries the product string descriptor.
    pub fn get_product(&mut self) -> Result<Option<String>, Error> {
        self.handle.get_product_string()
    }
}

/// An open per-key addressable keyboard, colored row by row with matrix
/// frames.
pub struct SoftKeyboard<H: DeviceHandle> {
    pub name: &'static str,
    pub handle: H,
}

/// Constructs [`SoftKeyboard`] devices for one product's static metadata.
#[derive(Clone, Debug)]
pub struct SoftKeyboardFactory {
    pub name: &'static str,
}

impl SoftKeyboardFactory {
    pub fn new(name: &'static str) -> (r: SoftKeyboardFactory)
        ensures
            r.name@ == name@,
    {
        SoftKeyboardFactory { name }
    }

    /// Human-readable name of the product this factory constructs.
    pub fn name(&self) -> (r: &'static str)
        ensures
            r@ == self.name@,
    {
        self.name
    }

    /// Wraps an already-open handle in the device family this factory is
    /// for.
    pub fn open<H: DeviceHandle>(&self, handle: H) -> (d: SoftKeyboard<H>)
        ensures
            d.name@ == self.name@,
    {
        SoftKeyboard { name: self.name, handle }
    }
}

impl<H: DeviceHandle> SoftKeyboard<H> {
    /// Human-readable product name.
    pub fn name(&self) -> (r: &'static str)
        ensures
            r@ == self.name@,
    {
        self.name
    }

    /// Queries the shared matrix brightness with a fixed LED index of zero.
    /// The query reports a fixed placeholder value rather than decoding the
    /// brightness byte of the response payload.
    pub fn get_brightness(&mut self) -> (r: Result<u8, Error>)
        ensures
            final(self).name@ == old(self).name@,
            (r matches Ok(b) ==> b == 0),
            (r matches Err(e) ==> transport_error(e)),
    {
        let report = RazerReport::matrix_get_brightness(RazerVarstore::Store, 0);
        match send_report(&mut self.handle, report) {
            Ok(_) => Ok(0),
            Err(e) => Err(e),
        }
    }

    /// Applies one uniform color row by row, one matrix frame per physical
    /// row in row order; see [`soft_color_commands`]. A failure aborts the
    /// remaining rows and surfaces that error.
    pub fn set_color(&mut self, color: Color) -> (r: Result<(), Error>)
        ensures
            final(self).name@ == old(self).name@,
            (r matches Err(e) ==> transport_error(e)),
    {
        let cmds = soft_color_commands(color);
        send_all(&mut self.handle, cmds)
    }

    /// Queries the device's serial number.
    pub fn get_serial(&mut self) -> (r: Result<String, Error>)
        ensures
            final(self).name@ == old(self).name@,
            (r matches Err(e) ==> transport_error(e) || e == Error::InvalidString),
    {
        get_serial(&mut self.handle)
    }

    /// Queries the manufacturer string descriptor.
    pub fn get_manufacturer(&mut self) -> Result<Option<String>, Error> {
        self.handle.get_manufacturer_string()
    }

    /// Queries the product string descriptor.
    pub fn get_product(&mut self) -> Result<Option<String>, Error> {
        self.handle.get_product_string()
    }
}

/// A constructing factory for one known device family: the closed set of
/// families the registry can instantiate.
pub enum KnownFactory {
    MatrixKeyboard(MatrixKeyboardFactory),
    MatrixMice(MatrixMiceFactory),
    SoftKeyboard(SoftKeyboardFactory),
}

impl KnownFactory {
    /// Human-readable name of the product this factory constructs.
    pub fn name(&self) -> (r: &'static str)
        ensures
            r@ == self.spec_name(),
    {
        match self {
            KnownFactory::MatrixKeyboard(f) => f.name(),
            KnownFactory::MatrixMice(f) => f.name(),
            KnownFactory::SoftKeyboard(f) => f.name(),
        }
    }

    /// The name carried by whichever factory this is.
    pub open spec fn spec_name(&self) -> Seq<char> {
        match self {
            KnownFactory::MatrixKeyboard(f) => f.name@,
            KnownFactory::MatrixMice(f) => f.name@,
            KnownFactory::SoftKeyboard(f) => f.name@,
        }
    }
}

/// The immutable registry of known devices: each physical identity paired
/// with the factory that constructs its family, built explicitly at startup
/// and passed by reference into the discovery layer.
pub fn known_devices() -> (r: Vec<(DeviceId, KnownFactory)>)
    ensures
        r@.len() == 3,
        r@[0].0 == (DeviceId { vendor_id: RAZER_VENDOR, product_id: 0x0060, interface_number: 0 }),
        (r@[0].1 matches KnownFactory::MatrixMice(f) && f.name@ == "Razer Lancehead TE"@
            && f.led_ids@ == seq![1u8, 4u8, 16u8, 17u8]),
        r@[1].0 == (DeviceId { vendor_id: RAZER_VENDOR, product_id: 0x0226, interface_number: 0 }),
        (r@[1].1 matches KnownFactory::SoftKeyboard(f) && f.name@ == "Razer Huntsman Elite"@),
        r@[2].0 == (DeviceId { vendor_id: RAZER_VENDOR, product_id: 0x0221, interface_number: 0 }),
        (r@[2].1 matches KnownFactory::MatrixKeyboard(f) && f.name@ == "Razer BlackWidow Chroma V2"@
            && f.led_ids@ == seq![5u8]),
{
    let mut r: Vec<(DeviceId, KnownFactory)> = Vec::new();
    let mut lancehead_leds: Vec<u8> = Vec::new();
    lancehead_leds.push(1);
    lancehead_leds.push(4);
    lancehead_leds.push(16);
    lancehead_leds.push(17);
    assert(lancehead_leds@ =~= seq![1u8, 4u8, 16u8, 17u8]);
    r.push(
        (
            DeviceId::new(RAZER_VENDOR, 0x0060, 0),
            KnownFactory::MatrixMice(MatrixMiceFactory::new("Razer Lancehead TE", lancehead_leds)),
        ),
    );
    r.push(
        (
            DeviceId::new(RAZER_VENDOR, 0x0226, 0),
            KnownFactory::SoftKeyboard(SoftKeyboardFactory::new("Razer Huntsman Elite")),
        ),
    );
    let mut blackwidow_leds: Vec<u8> = Vec::new();
    blackwidow_leds.push(5);
    assert(blackwidow_leds@ =~= seq![5u8]);
    r.push(
        (
            DeviceId::new(RAZER_VENDOR, 0x0221, 0),
            KnownFactory::MatrixKeyboard(
                MatrixKeyboardFactory::new("Razer BlackWidow Chroma V2", blackwidow_leds),
            ),
        ),
    );
    r
}

/// Looks a physical identity up in the registry: the index of the first
/// entry with that identity, if any.
pub fn find_factory(registry: &Vec<(DeviceId, KnownFactory)>, id: DeviceId) -> (r: Option<usize>)
    ensures
        (r matches Some(i) ==> i < registry@.len() && registry@[i as int].0 == id && (forall|j: int|
            0 <= j < i ==> registry@[j].0 != id)),
        (r is None ==> forall|j: int| 0 <= j < registry@.len() ==> registry@[j].0 != id),
{
    let mut i: usize = 0;
    while i < registry.len()
        invariant
            i <= registry@.len(),
            forall|j: int| 0 <= j < i ==> registry@[j].0 != id,
        decreases registry@.len() - i,
    {
        if registry[i].0 == id {
            return Some(i);
        }
        i = i + 1;
    }
    None
}

} // verus!
