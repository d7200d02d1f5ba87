//! The display driver: initialization, orientation, address window and pixel
//! streaming.

use vstd::prelude::*;
use crate::bus::{
    be_bytes, buffered_writes, chunked_writes, command_frame, command_frame_payload, high_byte_of,
    low_byte_of, payload, payload_of_concat, payload_of_one, word_bytes, word_writes, BusOp,
    Signal,
};
use crate::instruction::Instruction;

verus! {

/// Display orientation.
#[derive(Clone, Copy, Debug, PartialEq, Eq, Structural)]
pub enum Orientation {
    Portrait,
    Landscape,
    PortraitSwapped,
    LandscapeSwapped,
}

impl Orientation {
    /// The control byte of the orientation, without the color-order bit.
    pub open spec fn code(self) -> u8 {
        match self {
            Orientation::Portrait => 0x00,
            Orientation::Landscape => 0x60,
            Orientation::PortraitSwapped => 0xC0,
            Orientation::LandscapeSwapped => 0xA0,
        }
    }

    /// The control byte of the orientation, without the color-order bit.
    pub fn base(self) -> (byte: u8)
        ensures
            byte == self.code(),
    {
        match self {
            Orientation::Portrait => 0x00,
            Orientation::Landscape => 0x60,
            Orientation::PortraitSwapped => 0xC0,
            Orientation::LandscapeSwapped => 0xA0,
        }
    }
}

/// The memory-access-control byte: the orientation's control byte, with bit
/// 0x08 set when the panel is wired BGR.
pub open spec fn orientation_byte(orientation: Orientation, rgb: bool) -> u8 {
    if rgb {
        orientation.code()
    } else {
        orientation.code() | 0x08
    }
}

/// Computes the memory-access-control byte for an orientation and a wiring.
pub fn encode_orientation(orientation: Orientation, rgb: bool) -> (byte: u8)
    ensures
        byte == orientation_byte(orientation, rgb),
        rgb ==> byte == orientation.code(),
        !rgb ==> byte == orientation.code() | 0x08,
{
    if rgb {
        orientation.base()
    } else {
        orientation.base() | 0x08
    }
}

/// The reset pulse: high, 10 ms, low, 10 ms, high.
pub open spec fn hard_reset_trace() -> Seq<Signal> {
    seq![
        Signal::ResetHigh,
        Signal::Delay(10),
        Signal::ResetLow,
        Signal::Delay(10),
        Signal::ResetHigh,
    ]
}

/// A command without parameters.
pub open spec fn bare(command: Instruction) -> Seq<Signal> {
    command_frame(command.code(), Seq::empty())
}

/// The power-up sequence, from the reset pulse to the wait after display-on.
pub open spec fn init_trace(rgb: bool, inverted: bool) -> Seq<Signal> {
    hard_reset_trace()
        + bare(Instruction::SWRESET)
        + seq![Signal::Delay(200)]
        + bare(Instruction::SLPOUT)
        + seq![Signal::Delay(200)]
        + command_frame(Instruction::FRMCTR1.code(), seq![0x01u8, 0x2C, 0x2D])
        + command_frame(Instruction::FRMCTR2.code(), seq![0x01u8, 0x2C, 0x2D])
        + command_frame(Instruction::FRMCTR3.code(), seq![0x01u8, 0x2C, 0x2D, 0x01, 0x2C, 0x2D])
        + command_frame(Instruction::INVCTR.code(), seq![0x07u8])
        + command_frame(Instruction::PWCTR1.code(), seq![0xA2u8, 0x02, 0x84])
        + command_frame(Instruction::PWCTR2.code(), seq![0xC5u8])
        + command_frame(Instruction::PWCTR3.code(), seq![0x0Au8, 0x00])
        + command_frame(Instruction::PWCTR4.code(), seq![0x8Au8, 0x2A])
        + command_frame(Instruction::PWCTR5.code(), seq![0x8Au8, 0xEE])
        + command_frame(Instruction::VMCTR1.code(), seq![0x0Eu8])
        + bare(if inverted { Instruction::INVON } else { Instruction::INVOFF })
        + command_frame(Instruction::MADCTL.code(), seq![if rgb { 0x00u8 } else { 0x08u8 }])
        + command_frame(Instruction::COLMOD.code(), seq![0x05u8])
        + bare(Instruction::DISPON)
        + seq![Signal::Delay(200)]
}

/// One axis of the address window: the command, then the start and end
/// coordinates as big-endian words, each shifted by the axis offset.
pub open spec fn axis_trace(command: Instruction, offset: u16, start: u16, end: u16) -> Seq<
    Signal,
>
    recommends
        start + offset <= u16::MAX,
        end + offset <= u16::MAX,
{
    bare(command) + seq![
        Signal::SelectData,
        Signal::Write(word_bytes((start + offset) as u16)),
        Signal::Write(word_bytes((end + offset) as u16)),
    ]
}

/// The address window: the column axis, then the row axis.
pub open spec fn window_trace(dx: u16, dy: u16, sx: u16, sy: u16, ex: u16, ey: u16) -> Seq<
    Signal,
> {
    axis_trace(Instruction::CASET, dx, sx, ex) + axis_trace(Instruction::RASET, dy, sy, ey)
}

/// The memory-write command, followed by the switch to data.
pub open spec fn memory_write_trace() -> Seq<Signal> {
    bare(Instruction::RAMWR) + seq![Signal::SelectData]
}

/// One axis of the window puts on the bus the command's opcode, then the
/// start and the end coordinate with the offset added, each high byte first.
pub proof fn axis_trace_payload(command: Instruction, offset: u16, start: u16, end: u16)
    ensures
        payload(axis_trace(command, offset, start, end)) == seq![command.code()] + word_bytes(
            (start + offset) as u16,
        ) + word_bytes((end + offset) as u16),
{
    let first = Signal::Write(word_bytes((start + offset) as u16));
    let second = Signal::Write(word_bytes((end + offset) as u16));
    let head = bare(command) + seq![Signal::SelectData];
    command_frame_payload(command.code(), Seq::empty());
    payload_of_one(Signal::SelectData);
    payload_of_one(first);
    payload_of_one(second);
    payload_of_concat(bare(command), seq![Signal::SelectData]);
    payload_of_concat(head, seq![first]);
    payload_of_concat(head + seq![first], seq![second]);
    assert(axis_trace(command, offset, start, end) =~= head + seq![first] + seq![second]);
    assert(seq![command.code()] + Seq::<u8>::empty() =~= seq![command.code()]);
}

/// The address window puts on the bus the column command with the two column
/// coordinates, then the row command with the two row coordinates, each
/// coordinate shifted by its offset and sent high byte first.
pub proof fn window_trace_payload(dx: u16, dy: u16, sx: u16, sy: u16, ex: u16, ey: u16)
    ensures
        payload(window_trace(dx, dy, sx, sy, ex, ey)) == seq![0x2Au8] + word_bytes(
            (sx + dx) as u16,
        ) + word_bytes((ex + dx) as u16) + seq![0x2Bu8] + word_bytes((sy + dy) as u16)
            + word_bytes((ey + dy) as u16),
{
    let columns = axis_trace(Instruction::CASET, dx, sx, ex);
    let rows = axis_trace(Instruction::RASET, dy, sy, ey);
    axis_trace_payload(Instruction::CASET, dx, sx, ex);
    axis_trace_payload(Instruction::RASET, dy, sy, ey);
    payload_of_concat(columns, rows);
    assert(payload(columns) + payload(rows) =~= seq![0x2Au8] + word_bytes((sx + dx) as u16)
        + word_bytes((ex + dx) as u16) + seq![0x2Bu8] + word_bytes((sy + dy) as u16) + word_bytes(
        (ey + dy) as u16,
    ));
}

/// The memory-write command is one byte on the bus.
pub proof fn memory_write_payload()
    ensures
        payload(memory_write_trace()) == seq![0x2Cu8],
{
    command_frame_payload(Instruction::RAMWR.code(), Seq::empty());
    payload_of_one(Signal::SelectData);
    payload_of_concat(bare(Instruction::RAMWR), seq![Signal::SelectData]);
    assert(seq![0x2Cu8] + Seq::<u8>::empty() =~= seq![0x2Cu8]);
}

/// One pixel set on its own: a window of that pixel alone, the memory-write
/// command and the color word.
pub open spec fn pixel_trace(dx: u16, dy: u16, x: u16, y: u16, color: u16) -> Seq<Signal> {
    window_trace(dx, dy, x, y, x, y) + memory_write_trace() + seq![
        Signal::Write(word_bytes(color)),
    ]
}

/// What the driver knows of the panel.
pub struct Panel {
    /// Whether the panel is wired RGB (true) or BGR (false).
    pub rgb: bool,
    /// Whether colors are inverted.
    pub inverted: bool,
    /// Horizontal offset of the visible area in the controller's memory.
    pub dx: u16,
    /// Vertical offset of the visible area in the controller's memory.
    pub dy: u16,
    /// Width of the panel in pixels.
    pub width: u32,
    /// Height of the panel in pixels.
    pub height: u32,
}

/// ST7735 driver to connect to TFT displays.
#[derive(Clone, Copy, Debug)]
pub struct ST7735 {
    rgb: bool,
    inverted: bool,
    dx: u16,
    dy: u16,
    width: u32,
    height: u32,
}

impl View for ST7735 {
    type V = Panel;

    closed spec fn view(&self) -> Panel {
        Panel {
            rgb: self.rgb,
            inverted: self.inverted,
            dx: self.dx,
            dy: self.dy,
            width: self.width,
            height: self.height,
        }
    }
}

impl ST7735 {
    /// Creates a driver for a panel of the given wiring and size, with no offset.
    pub fn new(rgb: bool, inverted: bool, width: u32, height: u32) -> (display: Self)
        ensures
            display@ == (Panel { rgb, inverted, dx: 0, dy: 0, width, height }),
    {
        ST7735 { rgb, inverted, dx: 0, dy: 0, width, height }
    }

    /// The power-up sequence of the controller.
    pub fn init(&self) -> (ops: Vec<BusOp>)
        ensures
            ops.deep_view() == init_trace(self@.rgb, self@.inverted),
    {
        let frame3: [u8; 3] = [0x01, 0x2C, 0x2D];
        let frame6: [u8; 6] = [0x01, 0x2C, 0x2D, 0x01, 0x2C, 0x2D];
        let invctr: [u8; 1] = [0x07];
        let pwctr1: [u8; 3] = [0xA2, 0x02, 0x84];
        let pwctr2: [u8; 1] = [0xC5];
        let pwctr3: [u8; 2] = [0x0A, 0x00];
        let pwctr4: [u8; 2] = [0x8A, 0x2A];
        let pwctr5: [u8; 2] = [0x8A, 0xEE];
        let vmctr1: [u8; 1] = [0x0E];
        let madctl: [u8; 1] = [if self.rgb { 0x00 } else { 0x08 }];
        let colmod: [u8; 1] = [0x05];
        proof {
            assert(frame3@ =~= seq![0x01u8, 0x2C, 0x2D]);
            assert(frame6@ =~= seq![0x01u8, 0x2C, 0x2D, 0x01, 0x2C, 0x2D]);
            assert(invctr@ =~= seq![0x07u8]);
            assert(pwctr1@ =~= seq![0xA2u8, 0x02, 0x84]);
            assert(pwctr2@ =~= seq![0xC5u8]);
            assert(pwctr3@ =~= seq![0x0Au8, 0x00]);
            assert(pwctr4@ =~= seq![0x8Au8, 0x2A]);
            assert(pwctr5@ =~= seq![0x8Au8, 0xEE]);
            assert(vmctr1@ =~= seq![0x0Eu8]);
            assert(madctl@ =~= seq![if self.rgb { 0x00u8 } else { 0x08u8 }]);
            assert(colmod@ =~= seq![0x05u8]);
        }
        let mut ops = self.hard_reset();
        Self::write_command(&mut ops, Instruction::SWRESET, &[]);
        Self::wait(&mut ops, 200);
        Self::write_command(&mut ops, Instruction::SLPOUT, &[]);
        Self::wait(&mut ops, 200);
        Self::write_command(&mut ops, Instruction::FRMCTR1, &frame3);
        Self::write_command(&mut ops, Instruction::FRMCTR2, &frame3);
        Self::write_command(&mut ops, Instruction::FRMCTR3, &frame6);
        Self::write_command(&mut ops, Instruction::INVCTR, &invctr);
        Self::write_command(&mut ops, Instruction::PWCTR1, &pwctr1);
        Self::write_command(&mut ops, Instruction::PWCTR2, &pwctr2);
        Self::write_command(&mut ops, Instruction::PWCTR3, &pwctr3);
        Self::write_command(&mut ops, Instruction::PWCTR4, &pwctr4);
        Self::write_command(&mut ops, Instruction::PWCTR5, &pwctr5);
        Self::write_command(&mut ops, Instruction::VMCTR1, &vmctr1);
        if self.inverted {
            Self::write_command(&mut ops, Instruction::INVON, &[]);
        } else {
            Self::write_command(&mut ops, Instruction::INVOFF, &[]);
        }
        Self::write_command(&mut ops, Instruction::MADCTL, &madctl);
        Self::write_command(&mut ops, Instruction::COLMOD, &colmod);
        Self::write_command(&mut ops, Instruction::DISPON, &[]);
        Self::wait(&mut ops, 200);
        ops
    }

    /// The reset pulse on the reset line.
    pub fn hard_reset(&self) -> (ops: Vec<BusOp>)
        ensures
            ops.deep_view() == hard_reset_trace(),
    {
        let mut ops: Vec<BusOp> = Vec::new();
        ops.push(BusOp::ResetHigh);
        ops.push(BusOp::DelayMs(10));
        ops.push(BusOp::ResetLow);
        ops.push(BusOp::DelayMs(10));
        ops.push(BusOp::ResetHigh);
        assert(ops.deep_view() =~= hard_reset_trace());
        ops
    }

    /// Appends one command: the opcode with mode-select low and, where there
    /// are parameters, the parameters with mode-select high.
    pub fn write_command(ops: &mut Vec<BusOp>, command: Instruction, params: &[u8])
        ensures
            final(ops).deep_view() == old(ops).deep_view() + command_frame(
                command.code(),
                params@,
            ),
            params@.len() == 0 ==> final(ops).deep_view() == old(ops).deep_view() + seq![
                Signal::SelectCommand,
                Signal::Write(seq![command.code()]),
            ],
            params@.len() > 0 ==> final(ops).deep_view() == old(ops).deep_view() + seq![
                Signal::SelectCommand,
                Signal::Write(seq![command.code()]),
                Signal::SelectData,
                Signal::Write(params@),
            ],
    {
        let ghost before = ops.deep_view();
        let opcode: u8 = command.opcode();
        ops.push(BusOp::SelectCommand);
        let mut head: Vec<u8> = Vec::new();
        head.push(opcode);
        assert(head@ =~= seq![opcode]);
        ops.push(BusOp::Write(head));
        if params.len() != 0 {
            ops.push(BusOp::SelectData);
            let mut body: Vec<u8> = Vec::new();
            let mut i: usize = 0;
            while i < params.len()
                invariant
                    i <= params.len(),
                    body@ =~= params@.subrange(0, i as int),
                decreases params.len() - i,
            {
                body.push(params[i]);
                i += 1;
            }
            assert(body@ =~= params@);
            ops.push(BusOp::Write(body));
        }
        assert(ops.deep_view() =~= before + command_frame(opcode, params@));
    }

    /// Appends the switch of the mode-select line to data.
    fn start_data(ops: &mut Vec<BusOp>)
        ensures
            final(ops).deep_view() == old(ops).deep_view() + seq![Signal::SelectData],
    {
        let ghost before = ops.deep_view();
        ops.push(BusOp::SelectData);
        assert(ops.deep_view() =~= before + seq![Signal::SelectData]);
    }

    /// Appends a wait.
    fn wait(ops: &mut Vec<BusOp>, ms: u8)
        ensures
            final(ops).deep_view() == old(ops).deep_view() + seq![Signal::Delay(ms)],
    {
        let ghost before = ops.deep_view();
        ops.push(BusOp::DelayMs(ms));
        assert(ops.deep_view() =~= before + seq![Signal::Delay(ms)]);
    }

    /// Appends the bus write of one word, high byte first.
    fn write_word(ops: &mut Vec<BusOp>, word: u16)
        ensures
            final(ops).deep_view() == old(ops).deep_view() + seq![
                Signal::Write(word_bytes(word)),
            ],
    {
        let ghost before = ops.deep_view();
        let mut bytes: Vec<u8> = Vec::new();
        bytes.push(high_byte_of(word));
        bytes.push(low_byte_of(word));
        assert(bytes@ =~= word_bytes(word));
        ops.push(BusOp::Write(bytes));
        assert(ops.deep_view() =~= before + seq![Signal::Write(word_bytes(word))]);
    }

    /// Appends the bus writes of `words`, one write per word.
    fn write_words(ops: &mut Vec<BusOp>, words: &[u16])
        ensures
            final(ops).deep_view() == old(ops).deep_view() + word_writes(words@),
    {
        let ghost before = ops.deep_view();
        let mut i: usize = 0;
        while i < words.len()
            invariant
                i <= words.len(),
                ops.deep_view() =~= before + word_writes(words@).subrange(0, i as int),
            decreases words.len() - i,
        {
            Self::write_word(ops, words[i]);
            i += 1;
        }
        assert(word_writes(words@).subrange(0, i as int) =~= word_writes(words@));
    }

    /// Sends the orientation, combined with the panel's color order.
    pub fn set_orientation(&self, orientation: &Orientation) -> (ops: Vec<BusOp>)
        ensures
            ops.deep_view() == command_frame(
                Instruction::MADCTL.code(),
                seq![orientation_byte(*orientation, self@.rgb)],
            ),
    {
        let mut ops: Vec<BusOp> = Vec::new();
        let byte: u8 = encode_orientation(*orientation, self.rgb);
        let params: [u8; 1] = [byte];
        assert(params@ =~= seq![byte]);
        Self::write_command(&mut ops, Instruction::MADCTL, &params);
        assert(ops.deep_view() =~= command_frame(Instruction::MADCTL.code(), seq![byte]));
        ops
    }

    /// The panel's width and height in pixels.
    pub fn size(&self) -> (size: (u32, u32))
        ensures
            size == (self@.width, self@.height),
    {
        (self.width, self.height)
    }

    /// The global offset of the displayed image.
    pub fn offset(&self) -> (offset: (u16, u16))
        ensures
            offset == (self@.dx, self@.dy),
    {
        (self.dx, self.dy)
    }

    /// Sets the global offset of the displayed image.
    pub fn set_offset(&mut self, dx: u16, dy: u16)
        ensures
            final(self)@ == (Panel { dx, dy, ..old(self)@ }),
    {
        self.dx = dx;
        self.dy = dy;
    }

    /// Whether the window fits the controller's 16-bit coordinates once the
    /// offset is added.
    pub open spec fn window_in_range(self, sx: u16, sy: u16, ex: u16, ey: u16) -> bool {
        &&& sx + self@.dx <= u16::MAX
        &&& ex + self@.dx <= u16::MAX
        &&& sy + self@.dy <= u16::MAX
        &&& ey + self@.dy <= u16::MAX
    }

    /// Sets the address window for the display.
    pub fn set_address_window(&self, sx: u16, sy: u16, ex: u16, ey: u16) -> (ops: Vec<BusOp>)
        requires
            self.window_in_range(sx, sy, ex, ey),
        ensures
            ops.deep_view() == window_trace(self@.dx, self@.dy, sx, sy, ex, ey),
    {
        let mut ops: Vec<BusOp> = Vec::new();
        self.emit_window(&mut ops, sx, sy, ex, ey);
        assert(ops.deep_view() =~= window_trace(self@.dx, self@.dy, sx, sy, ex, ey));
        ops
    }

    /// Appends the address window.
    pub(crate) fn emit_window(&self, ops: &mut Vec<BusOp>, sx: u16, sy: u16, ex: u16, ey: u16)
        requires
            self.window_in_range(sx, sy, ex, ey),
        ensures
            final(ops).deep_view() == old(ops).deep_view() + window_trace(
                self@.dx,
                self@.dy,
                sx,
                sy,
                ex,
                ey,
            ),
    {
        let ghost before = ops.deep_view();
        Self::write_axis(ops, Instruction::CASET, self.dx, sx, ex);
        Self::write_axis(ops, Instruction::RASET, self.dy, sy, ey);
        assert(ops.deep_view() =~= before + window_trace(self@.dx, self@.dy, sx, sy, ex, ey));
    }

    /// Appends the window of one pixel, the memory-write command and the
    /// pixel's color word.
    pub(crate) fn emit_pixel(&self, ops: &mut Vec<BusOp>, x: u16, y: u16, color: u16)
        requires
            self.window_in_range(x, y, x, y),
        ensures
            final(ops).deep_view() == old(ops).deep_view() + pixel_trace(
                self@.dx,
                self@.dy,
                x,
                y,
                color,
            ),
    {
        let ghost before = ops.deep_view();
        self.emit_window(ops, x, y, x, y);
        Self::start_memory_write(ops);
        Self::write_word(ops, color);
        assert(ops.deep_view() =~= before + pixel_trace(self@.dx, self@.dy, x, y, color));
    }

    /// Appends one axis of the address window.
    fn write_axis(ops: &mut Vec<BusOp>, command: Instruction, offset: u16, start: u16, end: u16)
        requires
            start + offset <= u16::MAX,
            end + offset <= u16::MAX,
        ensures
            final(ops).deep_view() == old(ops).deep_view() + axis_trace(
                command,
                offset,
                start,
                end,
            ),
    {
        let ghost before = ops.deep_view();
        Self::write_command(ops, command, &[]);
        Self::start_data(ops);
        Self::write_word(ops, start + offset);
        Self::write_word(ops, end + offset);
        assert(ops.deep_view() =~= before + axis_trace(command, offset, start, end));
    }

    /// Appends the memory-write command and the switch to data.
    pub(crate) fn start_memory_write(ops: &mut Vec<BusOp>)
        ensures
            final(ops).deep_view() == old(ops).deep_view() + memory_write_trace(),
    {
        let ghost before = ops.deep_view();
        Self::write_command(ops, Instruction::RAMWR, &[]);
        Self::start_data(ops);
        assert(ops.deep_view() =~= before + memory_write_trace());
    }

    /// Sets a pixel color at the given coords.
    pub fn set_pixel(&self, x: u16, y: u16, color: u16) -> (ops: Vec<BusOp>)
        requires
            self.window_in_range(x, y, x, y),
        ensures
            ops.deep_view() == pixel_trace(self@.dx, self@.dy, x, y, color),
    {
        let mut ops: Vec<BusOp> = Vec::new();
        self.emit_pixel(&mut ops, x, y, color);
        assert(ops.deep_view() =~= pixel_trace(self@.dx, self@.dy, x, y, color));
        ops
    }

    /// Writes pixel colors sequentially into the current drawing window, one
    /// bus write per color.
    pub fn write_pixels(&self, colors: &[u16]) -> (ops: Vec<BusOp>)
        ensures
            ops.deep_view() == memory_write_trace() + word_writes(colors@),
    {
        let mut ops: Vec<BusOp> = Vec::new();
        Self::start_memory_write(&mut ops);
        Self::write_words(&mut ops, colors);
        assert(ops.deep_view() =~= memory_write_trace() + word_writes(colors@));
        ops
    }

    /// Writes pixel colors sequentially into the current drawing window,
    /// sixteen colors to a bus write.
    pub fn write_pixels_buffered(&self, colors: &[u16]) -> (ops: Vec<BusOp>)
        ensures
            ops.deep_view() == memory_write_trace() + buffered_writes(colors@),
    {
        let mut ops: Vec<BusOp> = Vec::new();
        Self::start_memory_write(&mut ops);
        Self::write_words_buffered(&mut ops, colors);
        assert(ops.deep_view() =~= memory_write_trace() + buffered_writes(colors@));
        ops
    }

    /// Appends the colors as big-endian bytes: one bus write whenever sixteen
    /// colors have gathered, and one more for the colors left over at the end.
    /// Without any color a single write without bytes is appended.
    pub fn write_words_buffered(ops: &mut Vec<BusOp>, words: &[u16])
        ensures
            final(ops).deep_view() == old(ops).deep_view() + buffered_writes(words@),
    {
        let ghost before = ops.deep_view();
        let ghost bytes = be_bytes(words@);
        let mut buffer: Vec<u8> = Vec::new();
        let mut i: usize = 0;
        while i < words.len()
            invariant
                i <= words.len(),
                bytes == be_bytes(words@),
                buffer@ =~= bytes.subrange(32 * (i as int / 16), 2 * i),
                ops.deep_view() =~= before + chunked_writes(bytes).subrange(0, i as int / 16),
            decreases words.len() - i,
        {
            let word: u16 = words[i];
            let ghost k = i as int / 16;
            let ghost sent = ops.deep_view();
            buffer.push(high_byte_of(word));
            buffer.push(low_byte_of(word));
            i += 1;
            assert(buffer@ =~= bytes.subrange(32 * k, 2 * i));
            if buffer.len() >= 32 {
                assert(i as int / 16 == k + 1);
                assert(chunked_writes(bytes)[k] == Signal::Write(buffer@));
                ops.push(BusOp::Write(buffer));
                assert(ops.deep_view() =~= sent.push(chunked_writes(bytes)[k]));
                assert(chunked_writes(bytes).subrange(0, k + 1) =~= chunked_writes(
                    bytes,
                ).subrange(0, k).push(chunked_writes(bytes)[k]));
                buffer = Vec::new();
            } else {
                assert(i as int / 16 == k);
            }
        }
        let ghost k = i as int / 16;
        let ghost sent = ops.deep_view();
        if buffer.len() > 0 || words.len() == 0 {
            ops.push(BusOp::Write(buffer));
            assert(ops.deep_view() =~= sent.push(Signal::Write(bytes.subrange(32 * k, 2 * i))));
            if words.len() > 0 {
                assert(chunked_writes(bytes).len() == k + 1);
                assert(chunked_writes(bytes)[k] == Signal::Write(bytes.subrange(32 * k, 2 * i)));
                assert(chunked_writes(bytes) =~= chunked_writes(bytes).subrange(0, k).push(
                    chunked_writes(bytes)[k],
                ));
            } else {
                assert(bytes.subrange(32 * k, 2 * i) =~= Seq::<u8>::empty());
            }
        } else {
            assert(chunked_writes(bytes).len() == k);
            assert(chunked_writes(bytes) =~= chunked_writes(bytes).subrange(0, k));
        }
    }

    /// Sets pixel colors at the given drawing window.
    pub fn set_pixels(&self, sx: u16, sy: u16, ex: u16, ey: u16, colors: &[u16]) -> (ops: Vec<
        BusOp,
    >)
        requires
            self.window_in_range(sx, sy, ex, ey),
        ensures
            ops.deep_view() == window_trace(self@.dx, self@.dy, sx, sy, ex, ey)
                + memory_write_trace() + word_writes(colors@),
    {
        let mut ops = self.set_address_window(sx, sy, ex, ey);
        Self::start_memory_write(&mut ops);
        Self::write_words(&mut ops, colors);
        ops
    }

    /// Sets pixel colors at the given drawing window, sixteen colors to a bus
    /// write.
    pub fn set_pixels_buffered(
        &self,
        sx: u16,
        sy: u16,
        ex: u16,
        ey: u16,
        colors: &[u16],
    ) -> (ops: Vec<BusOp>)
        requires
            self.window_in_range(sx, sy, ex, ey),
        ensures
            ops.deep_view() == window_trace(self@.dx, self@.dy, sx, sy, ex, ey)
                + memory_write_trace() + buffered_writes(colors@),
    {
        let mut ops = self.set_address_window(sx, sy, ex, ey);
        Self::start_memory_write(&mut ops);
        Self::write_words_buffered(&mut ops, colors);
        ops
    }
}

} // verus!
