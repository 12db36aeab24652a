//! The driver: packed framebuffer, initialization and reset sequences.

use crate::command::Command;
use crate::gray::{
    GrayValue, spec_update_lower_half, spec_update_upper_half, update_lower_half,
    update_upper_half,
};
use crate::interface::{Delay, DisplayError, OutputLine, Transaction, Transport};
use vstd::prelude::*;

verus! {

/// Width of the panel in pixels.
pub const DISPLAY_WIDTH: u32 = 128;

/// Height of the panel in pixels.
pub const DISPLAY_HEIGHT: u32 = 128;

/// Bytes in the packed framebuffer: 128 x 128 pixels at two pixels
/// per byte.
pub const BUFFER_SIZE: usize = 8192;

/// Whether (x, y) lies on the 128 x 128 panel.
pub open spec fn spec_in_range(x: int, y: int) -> bool {
    0 <= x < 128 && 0 <= y < 128
}

/// The packed-buffer index holding pixel (x, y): two pixels per byte,
/// row-major.
pub open spec fn spec_pixel_index(x: int, y: int) -> int {
    x / 2 + y * 64
}

/// The 4-bit value of pixel (x, y) in packed buffer `buf`: the upper
/// nibble of its byte for even x, the lower nibble for odd x.
pub open spec fn spec_pixel_at(buf: Seq<u8>, x: int, y: int) -> u8 {
    if x % 2 == 0 {
        buf[spec_pixel_index(x, y)] >> 4
    } else {
        buf[spec_pixel_index(x, y)] & 0x0F
    }
}

/// The packed buffer after writing gray value `g` at (x, y). A write
/// off the panel, or against a buffer of the wrong size, changes
/// nothing.
pub open spec fn spec_set_pixel(buf: Seq<u8>, x: int, y: int, g: u8) -> Seq<u8> {
    if buf.len() == 8192 && spec_in_range(x, y) {
        let i = spec_pixel_index(x, y);
        if x % 2 == 0 {
            buf.update(i, spec_update_upper_half(buf[i], g))
        } else {
            buf.update(i, spec_update_lower_half(buf[i], g))
        }
    } else {
        buf
    }
}

/// The packed buffer after applying every write in `ps`, first to
/// last.
pub open spec fn spec_draw(buf: Seq<u8>, ps: Seq<Pixel>) -> Seq<u8>
    decreases ps.len(),
{
    if ps.len() == 0 {
        buf
    } else {
        let p = ps.last();
        spec_set_pixel(spec_draw(buf, ps.drop_last()), p.x as int, p.y as int, p.color.value())
    }
}

/// A byte carrying `g`'s low nibble in both halves, as `clear` fills
/// the buffer with.
pub open spec fn spec_fill_byte(g: u8) -> u8 {
    ((g & 0x0F) << 4) | (g & 0x0F)
}

/// The fixed initialization sequence: eighteen commands, in the order
/// and with the literal parameter values the controller's datasheet
/// dictates. The timing and voltage parameters must all be configured
/// before the panel is enabled, so `DisplayOn` comes last.
pub open spec fn spec_init_commands() -> Seq<Command> {
    seq![
        Command::DisplayOff,
        Command::ColumnAddress { start: 0, end: 127 },
        Command::RowAddress { start: 0, end: 127 },
        Command::Contrast(0x80),
        Command::SetRemap(0x51),
        Command::StartLine(0x00),
        Command::Offset(0x00),
        Command::DisplayModeNormal,
        Command::MuxRatio(0x7F),
        Command::PhaseLength(0xF1),
        Command::FrontClockDivider(0x00),
        Command::FunctionSelectionA(0x01),
        Command::SecondPreChargePeriod(0x0F),
        Command::ComVoltageLevel(0x0F),
        Command::PreChargeVoltage(0x08),
        Command::FunctionSelectionB(0x62),
        Command::CommandLock(0x12),
        Command::DisplayOn,
    ]
}

/// The command transactions the initialization sequence emits, in
/// order.
pub open spec fn spec_init_transactions() -> Seq<Transaction> {
    spec_init_commands().map(|i: int, c: Command| Transaction::Command(c.spec_encode()))
}

/// The levels the reset sequence drives on the reset line, in order:
/// high, low (the actual reset pulse), high (release).
pub open spec fn spec_reset_levels() -> Seq<bool> {
    seq![true, false, true]
}

/// The pauses the reset sequence performs, in nanoseconds, one after
/// each level change.
pub open spec fn spec_reset_delays() -> Seq<u32> {
    seq![100000000u32, 100000000u32, 100000000u32]
}

/// The initialization sequence as a vector, for issuing in order.
pub fn init_commands() -> (r: Vec<Command>)
    ensures
        r@ == spec_init_commands(),
{
    let mut v: Vec<Command> = Vec::new();
    v.push(Command::DisplayOff);
    v.push(Command::ColumnAddress { start: 0, end: 127 });
    v.push(Command::RowAddress { start: 0, end: 127 });
    v.push(Command::Contrast(0x80));
    v.push(Command::SetRemap(0x51));
    v.push(Command::StartLine(0x00));
    v.push(Command::Offset(0x00));
    v.push(Command::DisplayModeNormal);
    v.push(Command::MuxRatio(0x7F));
    v.push(Command::PhaseLength(0xF1));
    v.push(Command::FrontClockDivider(0x00));
    v.push(Command::FunctionSelectionA(0x01));
    v.push(Command::SecondPreChargePeriod(0x0F));
    v.push(Command::ComVoltageLevel(0x0F));
    v.push(Command::PreChargeVoltage(0x08));
    v.push(Command::FunctionSelectionB(0x62));
    v.push(Command::CommandLock(0x12));
    v.push(Command::DisplayOn);
    proof {
        assert(v@ =~= spec_init_commands());
    }
    v
}

/// One positioned pixel write, as consumed by [`Ssd1327::draw_iter`].
#[derive(Clone, Copy)]
pub struct Pixel {
    pub x: u32,
    pub y: u32,
    pub color: GrayValue,
}

/// The display driver. Owns the transport and the packed framebuffer.
///
/// Pixel writes land in the buffer only; they become visible on the
/// panel through [`Ssd1327::flush`]. Writes outside the 128 x 128
/// panel are silently dropped and never touch the buffer.
pub struct Ssd1327<DI> {
    display: DI,
    buffer: Vec<u8>,
}

impl<DI: Transport> Ssd1327<DI> {
    /// The packed framebuffer contents.
    pub closed spec fn buf(&self) -> Seq<u8> {
        self.buffer@
    }

    /// The transport's transaction history.
    pub closed spec fn log(&self) -> Seq<Transaction> {
        self.display.log()
    }

    /// A driver is well formed when its buffer has the fixed packed
    /// size.
    pub open spec fn wf(&self) -> bool {
        self.buf().len() == 8192
    }

    /// Creates the driver around a transport, with a zeroed buffer.
    ///
    /// Reset and initialize the display before use.
    pub fn new(display: DI) -> (r: Ssd1327<DI>)
        ensures
            r.wf(),
            r.log() == display.log(),
            forall|i: int| 0 <= i < 8192 ==> r.buf()[i] == 0u8,
    {
        let mut buffer: Vec<u8> = Vec::new();
        let mut i: usize = 0;
        while i < BUFFER_SIZE
            invariant
                i <= 8192,
                buffer@.len() == i,
                forall|j: int| 0 <= j < i ==> buffer@[j] == 0u8,
            decreases 8192 - i,
        {
            buffer.push(0);
            i += 1;
        }
        Ssd1327 { display, buffer }
    }

    /// Issues one command to the transport as a single command
    /// transaction, propagating a write failure unchanged.
    pub fn send_command(&mut self, command: Command) -> (r: Result<(), DisplayError>)
        ensures
            final(self).buf() == old(self).buf(),
            r is Ok ==> final(self).log() == old(self).log().push(
                Transaction::Command(command.spec_encode()),
            ),
            r is Err ==> final(self).log() == old(self).log(),
    {
        command.send(&mut self.display)
    }

    /// Sends the fixed initialization sequence: exactly the eighteen
    /// commands of [`spec_init_commands`], in that order. A transport
    /// failure aborts the remaining steps and surfaces the first
    /// failure, so the history then grows by only the commands that
    /// had already succeeded.
    pub fn init(&mut self) -> (r: Result<(), DisplayError>)
        ensures
            final(self).buf() == old(self).buf(),
            r is Ok ==> final(self).log() == old(self).log() + spec_init_transactions(),
            r is Err ==> exists|k: int|
                0 <= k < spec_init_transactions().len() && final(self).log() == old(self).log()
                    + spec_init_transactions().take(k),
    {
        let cmds = init_commands();
        let ghost g_log: Seq<Transaction> = self.log();
        let ghost g_buf: Seq<u8> = self.buf();
        proof {
            assert(self.log() =~= g_log + spec_init_transactions().take(0));
        }
        let mut i: usize = 0;
        while i < cmds.len()
            invariant
                i <= cmds@.len(),
                cmds@ == spec_init_commands(),
                g_buf == old(self).buf(),
                g_log == old(self).log(),
                self.buf() == g_buf,
                self.log() == g_log + spec_init_transactions().take(i as int),
            decreases cmds@.len() - i,
        {
            let c = cmds[i];
            match self.send_command(c) {
                Ok(()) => {},
                Err(e) => {
                    proof {
                        assert((i as int) < spec_init_transactions().len());
                        assert(self.log() == g_log + spec_init_transactions().take(i as int));
                    }
                    return Err(e);
                },
            }
            proof {
                let txs = spec_init_transactions();
                assert(txs.take(i as int + 1) =~= txs.take(i as int).push(txs[i as int]));
                assert(self.log() =~= g_log + txs.take(i as int + 1));
            }
            i += 1;
        }
        proof {
            let txs = spec_init_transactions();
            assert(txs.take(txs.len() as int) =~= txs);
        }
        Ok(())
    }

    /// Brings the controller out of hardware reset: drives the reset
    /// line high, low (the reset pulse), then high again, pausing
    /// 100 ms after each change. The controller gives no feedback, so
    /// the generous delays are the only correctness mechanism. A line
    /// failure aborts at once and is surfaced unchanged.
    pub fn reset<RST: OutputLine, DELAY: Delay>(
        &mut self,
        rst: &mut RST,
        delay: &mut DELAY,
    ) -> (r: Result<(), DisplayError>)
        ensures
            *final(self) == *old(self),
            r is Ok ==> final(rst).levels() == old(rst).levels() + spec_reset_levels()
                && final(delay).delays() == old(delay).delays() + spec_reset_delays(),
            r is Err ==> exists|k: int|
                0 <= k < 3 && final(rst).levels() == old(rst).levels()
                    + spec_reset_levels().take(k) && final(delay).delays() == old(delay).delays()
                    + spec_reset_delays().take(k),
    {
        match rst.set_high() {
            Ok(()) => {},
            Err(e) => {
                proof {
                    assert(rst.levels() =~= old(rst).levels() + spec_reset_levels().take(0));
                    assert(delay.delays() =~= old(delay).delays() + spec_reset_delays().take(0));
                }
                return Err(e);
            },
        }
        delay.delay_ns(100_000_000);
        match rst.set_low() {
            Ok(()) => {},
            Err(e) => {
                proof {
                    assert(rst.levels() =~= old(rst).levels() + spec_reset_levels().take(1));
                    assert(delay.delays() =~= old(delay).delays() + spec_reset_delays().take(1));
                }
                return Err(e);
            },
        }
        delay.delay_ns(100_000_000);
        match rst.set_high() {
            Ok(()) => {},
            Err(e) => {
                proof {
                    assert(rst.levels() =~= old(rst).levels() + spec_reset_levels().take(2));
                    assert(delay.delays() =~= old(delay).delays() + spec_reset_delays().take(2));
                }
                return Err(e);
            },
        }
        delay.delay_ns(100_000_000);
        proof {
            assert(rst.levels() =~= old(rst).levels() + spec_reset_levels());
            assert(delay.delays() =~= old(delay).delays() + spec_reset_delays());
        }
        Ok(())
    }

    /// Sends the whole framebuffer as one data transaction, making
    /// the writes accumulated since the last flush visible on the
    /// panel. Propagates a write failure unchanged.
    pub fn flush(&mut self) -> (r: Result<(), DisplayError>)
        ensures
            final(self).buf() == old(self).buf(),
            r is Ok ==> final(self).log() == old(self).log().push(
                Transaction::Data(old(self).buf()),
            ),
            r is Err ==> final(self).log() == old(self).log(),
    {
        self.display.send_data(&self.buffer)
    }

    /// Writes one pixel into the buffer. An in-range write replaces
    /// exactly the addressed pixel's nibble and touches nothing else;
    /// a write off the panel is silently dropped.
    pub fn set_pixel(&mut self, x: u32, y: u32, color: GrayValue)
        requires
            old(self).wf(),
        ensures
            final(self).wf(),
            final(self).log() == old(self).log(),
            final(self).buf() == spec_set_pixel(
                old(self).buf(),
                x as int,
                y as int,
                color.value(),
            ),
    {
        if x < DISPLAY_WIDTH && y < DISPLAY_HEIGHT {
            let index: usize = (x / 2 + y * 64) as usize;
            let old_val = self.buffer[index];
            let new_val: u8 = if x % 2 == 0 {
                update_upper_half(old_val, color.luma())
            } else {
                update_lower_half(old_val, color.luma())
            };
            if new_val != old_val {
                self.buffer.set(index, new_val);
            } else {
                proof {
                    assert(self.buffer@ =~= old(self).buffer@.update(index as int, new_val));
                }
            }
        }
    }

    /// Applies a batch of pixel writes, first to last, to the buffer.
    /// Nothing goes on the bus; out-of-range writes are dropped.
    pub fn draw_iter(&mut self, pixels: &Vec<Pixel>) -> (r: Result<(), DisplayError>)
        requires
            old(self).wf(),
        ensures
            final(self).wf(),
            final(self).log() == old(self).log(),
            r is Ok,
            final(self).buf() == spec_draw(old(self).buf(), pixels@),
    {
        let ghost g_log: Seq<Transaction> = self.log();
        let ghost g_buf: Seq<u8> = self.buf();
        let mut i: usize = 0;
        while i < pixels.len()
            invariant
                i <= pixels@.len(),
                self.wf(),
                self.log() == g_log,
                self.buf() == spec_draw(g_buf, pixels@.take(i as int)),
            decreases pixels@.len() - i,
        {
            let p = pixels[i];
            self.set_pixel(p.x, p.y, p.color);
            proof {
                assert(pixels@.take(i as int + 1).drop_last() =~= pixels@.take(i as int));
                assert(pixels@.take(i as int + 1).last() == pixels@[i as int]);
            }
            i += 1;
        }
        proof {
            assert(pixels@.take(pixels@.len() as int) =~= pixels@);
        }
        Ok(())
    }

    /// Fills the whole buffer with a byte holding `fill` in both
    /// nibbles — the same as setting every pixel on the panel to
    /// `fill`. Nothing goes on the bus.
    pub fn clear(&mut self, fill: GrayValue) -> (r: Result<(), DisplayError>)
        requires
            old(self).wf(),
        ensures
            final(self).wf(),
            final(self).log() == old(self).log(),
            r is Ok,
            final(self).buf() == Seq::new(8192, |i: int| spec_fill_byte(fill.value())),
            forall|x: int, y: int|
                spec_in_range(x, y) ==> spec_pixel_at(final(self).buf(), x, y) == fill.value(),
    {
        let luma = fill.luma();
        let byte = luma << 4 | luma;
        proof {
            assert(luma < 16 ==> (luma << 4 | luma) == ((luma & 0x0F) << 4) | (luma & 0x0F))
                by (bit_vector);
        }
        let ghost g_log: Seq<Transaction> = self.log();
        let mut i: usize = 0;
        while i < BUFFER_SIZE
            invariant
                i <= 8192,
                self.buffer@.len() == 8192,
                byte == spec_fill_byte(fill.value()),
                self.log() == g_log,
                forall|j: int| 0 <= j < i ==> self.buffer@[j] == byte,
            decreases 8192 - i,
        {
            self.buffer.set(i, byte);
            i += 1;
        }
        proof {
            assert(self.buffer@ =~= Seq::new(8192, |j: int| spec_fill_byte(fill.value())));
            let v = fill.value();
            assert forall|x: int, y: int| spec_in_range(x, y) implies spec_pixel_at(
                self.buffer@,
                x,
                y,
            ) == v by {
                assert(0 <= spec_pixel_index(x, y) < 8192);
                assert(v < 16 ==> ((((v & 0x0F) << 4) | (v & 0x0F)) >> 4) == v) by (bit_vector);
                assert(v < 16 ==> (((((v & 0x0F) << 4) | (v & 0x0F))) & 0x0F) == v)
                    by (bit_vector);
            }
        }
        Ok(())
    }

    /// Reads one pixel back from the buffer; `None` off the panel.
    pub fn get_pixel(&self, x: u32, y: u32) -> (r: Option<GrayValue>)
        requires
            self.wf(),
        ensures
            x < 128 && y < 128 ==> (r matches Some(g) && g.value() == spec_pixel_at(
                self.buf(),
                x as int,
                y as int,
            )),
            !(x < 128 && y < 128) ==> r is None,
    {
        if x < DISPLAY_WIDTH && y < DISPLAY_HEIGHT {
            let index: usize = (x / 2 + y * 64) as usize;
            let b = self.buffer[index];
            let nib: u8 = if x % 2 == 0 {
                proof {
                    assert(b >> 4 < 16) by (bit_vector);
                }
                b >> 4
            } else {
                proof {
                    assert(b & 0x0F < 16) by (bit_vector);
                }
                b & 0x0F
            };
            Some(GrayValue::from_nibble(nib))
        } else {
            None
        }
    }

    /// Borrows the transport, for callers that own one with visible
    /// state (such as a recording double).
    pub fn transport(&self) -> (r: &DI)
        ensures
            r.log() == self.log(),
    {
        &self.display
    }

    /// The fixed logical panel size, as (width, height).
    pub fn size(&self) -> (r: (u32, u32))
        ensures
            r.0 == 128,
            r.1 == 128,
    {
        (DISPLAY_WIDTH, DISPLAY_HEIGHT)
    }
}

/// Setting a pixel and reading it back returns the value written: the
/// round trip through the packing formulas is exact for every 4-bit
/// value and every coordinate on the panel.
pub proof fn lemma_set_pixel_roundtrip(buf: Seq<u8>, x: int, y: int, g: u8)
    requires
        buf.len() == 8192,
        spec_in_range(x, y),
        g < 16,
    ensures
        spec_pixel_at(spec_set_pixel(buf, x, y, g), x, y) == g,
{
    let i = spec_pixel_index(x, y);
    assert(0 <= i < 8192);
    let b = buf[i];
    if x % 2 == 0 {
        assert(g < 16 ==> ((((g & 0x0F) << 4) | (b & 0x0F)) >> 4) == g) by (bit_vector);
    } else {
        assert(g < 16 ==> (((g & 0x0F) | (b & 0xF0)) & 0x0F) == g) by (bit_vector);
    }
}

/// A pixel write never disturbs any other pixel: neither its byte
/// neighbour in the same packed byte nor anything further away.
pub proof fn lemma_set_pixel_preserves_others(
    buf: Seq<u8>,
    x: int,
    y: int,
    g: u8,
    x2: int,
    y2: int,
)
    requires
        buf.len() == 8192,
        spec_in_range(x, y),
        spec_in_range(x2, y2),
        x2 != x || y2 != y,
    ensures
        spec_pixel_at(spec_set_pixel(buf, x, y, g), x2, y2) == spec_pixel_at(buf, x2, y2),
{
    let i = spec_pixel_index(x, y);
    let i2 = spec_pixel_index(x2, y2);
    assert(0 <= i < 8192);
    assert(0 <= i2 < 8192);
    if i2 == i {
        assert(0 <= x / 2 < 64);
        assert(0 <= x2 / 2 < 64);
        assert(y2 == y);
        assert(x2 / 2 == x / 2);
        // The two pixels share a byte but differ, so their parities
        // differ and the write touches the other nibble.
        assert(x % 2 != x2 % 2);
        let b = buf[i];
        if x % 2 == 0 {
            assert(((((g & 0x0F) << 4) | (b & 0x0F)) & 0x0F) == (b & 0x0F)) by (bit_vector);
        } else {
            assert((((g & 0x0F) | (b & 0xF0)) >> 4) == (b >> 4)) by (bit_vector);
        }
    }
}

/// Writing the same pixel with the same value twice leaves the buffer
/// exactly as one write does.
pub proof fn lemma_set_pixel_idempotent(buf: Seq<u8>, x: int, y: int, g: u8)
    ensures
        spec_set_pixel(spec_set_pixel(buf, x, y, g), x, y, g) == spec_set_pixel(buf, x, y, g),
{
    if buf.len() == 8192 && spec_in_range(x, y) {
        let i = spec_pixel_index(x, y);
        assert(0 <= i < 8192);
        let b = buf[i];
        let once = spec_set_pixel(buf, x, y, g);
        if x % 2 == 0 {
            assert((((g & 0x0F) << 4) | ((((g & 0x0F) << 4) | (b & 0x0F)) & 0x0F)) == (((g & 0x0F)
                << 4) | (b & 0x0F))) by (bit_vector);
        } else {
            assert(((g & 0x0F) | ((((g & 0x0F) | (b & 0xF0))) & 0xF0)) == ((g & 0x0F) | (b
                & 0xF0))) by (bit_vector);
        }
        assert(spec_set_pixel(once, x, y, g) =~= once);
    }
}

} // verus!
