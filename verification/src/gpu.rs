//! GPU front end: the drawing-port command framer with its per-command
//! length table, the display-control port handlers, and the packing of
//! video-memory readback into the read FIFO. Rasterisation itself is a
//! host-side backend and is not modelled.

use vstd::prelude::*;
use crate::bitfield::{Bitfield, extract_bits, insert_bits};
use crate::edge::{B32EdgeRegister, LatchKind};
use crate::fifo::Fifo;
use crate::register::B32LevelRegister;

verus! {

/// The number of words a drawing-port command occupies, if that can
/// already be determined from the words gathered so far. The copy command
/// to video memory derives its length from its embedded width and height
/// pair, so it needs its first three words.
pub open spec fn spec_gp0_length(opcode: u32, data: Seq<u32>) -> Option<int> {
    if opcode == 0x00 || opcode == 0x01 || opcode == 0x05 || opcode == 0x06 || opcode == 0x0C {
        Some(1int)
    } else if opcode == 0x02 {
        Some(3int)
    } else if opcode == 0x28 {
        Some(5int)
    } else if opcode == 0x2C || opcode == 0x2D {
        Some(9int)
    } else if opcode == 0x30 {
        Some(6int)
    } else if opcode == 0x38 {
        Some(8int)
    } else if opcode == 0x3C {
        Some(12int)
    } else if opcode == 0x50 || opcode == 0x65 || opcode == 0x80 {
        Some(4int)
    } else if opcode == 0x6F {
        Some(3int)
    } else if opcode == 0xA0 {
        if data.len() < 3 {
            None
        } else {
            Some(3 + (spec_a0_pixel_count(data) + 1) / 2)
        }
    } else if opcode == 0xC0 {
        Some(3int)
    } else if 0xE1 <= opcode <= 0xE6 {
        Some(1int)
    } else {
        None
    }
}

/// The pixel count embedded in the third word of the copy command to video
/// memory: a width in the low half and a height in the high half.
pub open spec fn spec_a0_pixel_count(data: Seq<u32>) -> int {
    (data[2] & 0xFFFFu32) * ((data[2] >> 16u32) & 0xFFFFu32)
}

/// An opcode the length table knows.
pub open spec fn spec_gp0_opcode_known(opcode: u32) -> bool {
    ||| opcode == 0x00
    ||| opcode == 0x01
    ||| opcode == 0x02
    ||| opcode == 0x05
    ||| opcode == 0x06
    ||| opcode == 0x0C
    ||| opcode == 0x28
    ||| opcode == 0x2C
    ||| opcode == 0x2D
    ||| opcode == 0x30
    ||| opcode == 0x38
    ||| opcode == 0x3C
    ||| opcode == 0x50
    ||| opcode == 0x65
    ||| opcode == 0x6F
    ||| opcode == 0x80
    ||| opcode == 0xA0
    ||| opcode == 0xC0
    ||| (0xE1 <= opcode <= 0xE6)
}

pub fn command_00_length(data: &[u32]) -> (r: Option<usize>)
    ensures
        r == Some(1usize),
{
    Some(1)
}

pub fn command_01_length(data: &[u32]) -> (r: Option<usize>)
    ensures
        r == Some(1usize),
{
    Some(1)
}

pub fn command_02_length(data: &[u32]) -> (r: Option<usize>)
    ensures
        r == Some(3usize),
{
    Some(3)
}

pub fn command_05_length(data: &[u32]) -> (r: Option<usize>)
    ensures
        r == Some(1usize),
{
    Some(1)
}

pub fn command_06_length(data: &[u32]) -> (r: Option<usize>)
    ensures
        r == Some(1usize),
{
    Some(1)
}

pub fn command_0c_length(data: &[u32]) -> (r: Option<usize>)
    ensures
        r == Some(1usize),
{
    Some(1)
}

pub fn command_28_length(data: &[u32]) -> (r: Option<usize>)
    ensures
        r == Some(5usize),
{
    Some(5)
}

pub fn command_2c_length(data: &[u32]) -> (r: Option<usize>)
    ensures
        r == Some(9usize),
{
    Some(9)
}

pub fn command_2d_length(data: &[u32]) -> (r: Option<usize>)
    ensures
        r == Some(9usize),
{
    Some(9)
}

pub fn command_30_length(data: &[u32]) -> (r: Option<usize>)
    ensures
        r == Some(6usize),
{
    Some(6)
}

pub fn command_38_length(data: &[u32]) -> (r: Option<usize>)
    ensures
        r == Some(8usize),
{
    Some(8)
}

pub fn command_3c_length(data: &[u32]) -> (r: Option<usize>)
    ensures
        r == Some(12usize),
{
    Some(12)
}

pub fn command_50_length(data: &[u32]) -> (r: Option<usize>)
    ensures
        r == Some(4usize),
{
    Some(4)
}

pub fn command_65_length(data: &[u32]) -> (r: Option<usize>)
    ensures
        r == Some(4usize),
{
    Some(4)
}

pub fn command_6f_length(data: &[u32]) -> (r: Option<usize>)
    ensures
        r == Some(3usize),
{
    Some(3)
}

pub fn command_80_length(data: &[u32]) -> (r: Option<usize>)
    ensures
        r == Some(4usize),
{
    Some(4)
}

/// Copy rectangle into video memory: three header words plus the pixel
/// data, two 16-bit pixels a word, the odd pixel padded.
pub fn command_a0_length(data: &[u32]) -> (r: Option<usize>)
    ensures
        data@.len() < 3 ==> r is None,
        data@.len() >= 3 ==> r == Some((3 + (spec_a0_pixel_count(data@) + 1) / 2) as usize),
{
    if data.len() < 3 {
        return None;
    }
    let word = data[2];
    proof {
        assert(word & 0xFFFFu32 <= 0xFFFFu32 && (word >> 16u32) & 0xFFFFu32 <= 0xFFFFu32)
            by (bit_vector);
    }
    let width = (word & 0xFFFF) as u64;
    let height = ((word >> 16u32) & 0xFFFF) as u64;
    proof {
        assert(width * height <= 0xFFFFu64 * 0xFFFFu64) by (nonlinear_arith)
            requires
                width <= 0xFFFF,
                height <= 0xFFFF,
        ;
    }
    let count = width * height;
    let data_words = 3 + (count + 1) / 2;
    Some(data_words as usize)
}

pub fn command_c0_length(data: &[u32]) -> (r: Option<usize>)
    ensures
        r == Some(3usize),
{
    Some(3)
}

pub fn command_e1_length(data: &[u32]) -> (r: Option<usize>)
    ensures
        r == Some(1usize),
{
    Some(1)
}

pub fn command_e2_length(data: &[u32]) -> (r: Option<usize>)
    ensures
        r == Some(1usize),
{
    Some(1)
}

pub fn command_e3_length(data: &[u32]) -> (r: Option<usize>)
    ensures
        r == Some(1usize),
{
    Some(1)
}

pub fn command_e4_length(data: &[u32]) -> (r: Option<usize>)
    ensures
        r == Some(1usize),
{
    Some(1)
}

pub fn command_e5_length(data: &[u32]) -> (r: Option<usize>)
    ensures
        r == Some(1usize),
{
    Some(1)
}

pub fn command_e6_length(data: &[u32]) -> (r: Option<usize>)
    ensures
        r == Some(1usize),
{
    Some(1)
}

/// Looks up a command's length by its opcode. Mirrors the length table
/// exactly; an unknown opcode yields no length.
pub fn command_length(opcode: u8, data: &[u32]) -> (r: Option<usize>)
    ensures
        spec_gp0_opcode_known(opcode as u32) ==> ({
            match spec_gp0_length(opcode as u32, data@) {
                Some(n) => r == Some(n as usize),
                None => r is None,
            }
        }),
        !spec_gp0_opcode_known(opcode as u32) ==> r is None,
{
    match opcode {
        0x00 => command_00_length(data),
        0x01 => command_01_length(data),
        0x02 => command_02_length(data),
        0x05 => command_05_length(data),
        0x06 => command_06_length(data),
        0x0C => command_0c_length(data),
        0x28 => command_28_length(data),
        0x2C => command_2c_length(data),
        0x2D => command_2d_length(data),
        0x30 => command_30_length(data),
        0x38 => command_38_length(data),
        0x3C => command_3c_length(data),
        0x50 => command_50_length(data),
        0x65 => command_65_length(data),
        0x6F => command_6f_length(data),
        0x80 => command_80_length(data),
        0xA0 => command_a0_length(data),
        0xC0 => command_c0_length(data),
        0xE1 => command_e1_length(data),
        0xE2 => command_e2_length(data),
        0xE3 => command_e3_length(data),
        0xE4 => command_e4_length(data),
        0xE5 => command_e5_length(data),
        0xE6 => command_e6_length(data),
        _ => None,
    }
}

/// The GPU's shared registers and ports: the drawing-port FIFO, the
/// readback FIFO, the display-control port and the status register.
pub struct State {
    pub gp0: Fifo<u32>,
    pub read: Fifo<u32>,
    pub gp1: B32EdgeRegister,
    pub stat: B32LevelRegister,
}

impl State {
    pub open spec fn wf(&self) -> bool {
        &&& self.gp0.wf()
        &&& self.read.wf()
    }

    pub fn new() -> (r: State)
        ensures
            r.wf(),
            r.gp0.contents() == Seq::<u32>::empty(),
            r.read.contents() == Seq::<u32>::empty(),
            !r.gp1.pending(),
            r.stat.value == 0u32,
    {
        State {
            gp0: Fifo::new(1024, 0),
            read: Fifo::new(1024, 0),
            gp1: B32EdgeRegister::new(),
            stat: B32LevelRegister::new(),
        }
    }
}

/// The GPU controller's private state: the partially framed drawing
/// command, the latched display-control command, and the display window
/// settings the control port writes.
pub struct ControllerState {
    pub gp0_command_buffer: Vec<u32>,
    pub gp1_command: Option<u32>,
    pub display_area_start_x: u32,
    pub display_area_start_y: u32,
    pub horizontal_display_range_x1: u32,
    pub horizontal_display_range_x2: u32,
    pub vertical_display_range_y1: u32,
    pub vertical_display_range_y2: u32,
    pub texpage_base_x: u32,
    pub texpage_base_y: u32,
    pub texture_window_mask_x: u32,
    pub texture_window_mask_y: u32,
    pub texture_window_offset_x: u32,
    pub texture_window_offset_y: u32,
    pub drawing_area_x1: u32,
    pub drawing_area_y1: u32,
    pub drawing_area_x2: u32,
    pub drawing_area_y2: u32,
    pub drawing_offset_x: u32,
    pub drawing_offset_y: u32,
}

impl ControllerState {
    pub fn new() -> (r: ControllerState)
        ensures
            r.gp0_command_buffer@ == Seq::<u32>::empty(),
            r.gp1_command is None,
    {
        ControllerState {
            gp0_command_buffer: Vec::new(),
            gp1_command: None,
            display_area_start_x: 0,
            display_area_start_y: 0,
            horizontal_display_range_x1: 0,
            horizontal_display_range_x2: 0,
            vertical_display_range_y1: 0,
            vertical_display_range_y2: 0,
            texpage_base_x: 0,
            texpage_base_y: 0,
            texture_window_mask_x: 0,
            texture_window_mask_y: 0,
            texture_window_offset_x: 0,
            texture_window_offset_y: 0,
            drawing_area_x1: 0,
            drawing_area_y1: 0,
            drawing_area_x2: 0,
            drawing_area_y2: 0,
            drawing_offset_x: 0,
            drawing_offset_y: 0,
        }
    }
}

/// What one framing step produced.
pub enum Gp0Step {
    /// No complete command yet; more words are needed.
    Incomplete,
    /// A complete command: exactly as many words as its length table entry.
    Command(Vec<u32>),
    /// The first word named an opcode outside the length table.
    Unknown(u8),
}

/// One framing step of the drawing port: pulls words from the port FIFO
/// into the staging buffer until the command's length is known and
/// reached, then hands the complete command over with the buffer emptied.
pub fn handle_gp0_framing(state: &mut State, cs: &mut ControllerState) -> (r: Gp0Step)
    requires
        old(state).wf(),
    ensures
        final(state).wf(),
        final(state).read == old(state).read,
        final(state).gp1 == old(state).gp1,
        final(state).stat == old(state).stat,
        final(state).gp0.capacity() == old(state).gp0.capacity(),
        r matches Gp0Step::Command(words) ==> words@.len() >= 1 && spec_gp0_length(
            words@[0] >> 24u32,
            words@,
        ) == Some(words@.len() as int) && words@ + final(cs).gp0_command_buffer@ + final(state).gp0.contents() == old(cs).gp0_command_buffer@ + old(state).gp0.contents(),
        r is Incomplete ==> final(state).gp0.contents() == Seq::<u32>::empty() && final(cs).gp0_command_buffer@ == old(cs).gp0_command_buffer@ + old(state).gp0.contents(),
        r matches Gp0Step::Unknown(op) ==> !spec_gp0_opcode_known(op as u32) && final(cs).gp0_command_buffer@ + final(state).gp0.contents() == old(cs).gp0_command_buffer@ + old(state).gp0.contents(),
        *final(cs) == (ControllerState {
            gp0_command_buffer: final(cs).gp0_command_buffer,
            ..*old(cs)
        }),
{
    loop
        invariant
            state.wf(),
            state.read == old(state).read,
            state.gp1 == old(state).gp1,
            state.stat == old(state).stat,
            state.gp0.capacity() == old(state).gp0.capacity(),
            cs.gp0_command_buffer@ + state.gp0.contents() == old(cs).gp0_command_buffer@ + old(state).gp0.contents(),
            *cs == (ControllerState { gp0_command_buffer: cs.gp0_command_buffer, ..*old(cs) }),
        decreases state.gp0.contents().len(),
    {
        if cs.gp0_command_buffer.len() > 0 {
            let opcode = ((cs.gp0_command_buffer[0] >> 24u32) & 0xFF) as u8;
            let needed = command_length(opcode, cs.gp0_command_buffer.as_slice());
            match needed {
                None => {
                    if !gp0_opcode_known(opcode) {
                        return Gp0Step::Unknown(opcode);
                    }
                    // The copy command's length needs its third word.
                },
                Some(n) => {
                    if cs.gp0_command_buffer.len() >= n {
                        let ghost buf = cs.gp0_command_buffer@;
                        let mut words: Vec<u32> = Vec::new();
                        let mut i: usize = 0;
                        while i < n
                            invariant
                                i <= n,
                                n <= buf.len(),
                                buf == cs.gp0_command_buffer@,
                                words@ == buf.take(i as int),
                            decreases n - i,
                        {
                            words.push(cs.gp0_command_buffer[i]);
                            i += 1;
                        }
                        let mut rest: Vec<u32> = Vec::new();
                        let mut j: usize = n;
                        let buffer_len = cs.gp0_command_buffer.len();
                        while j < buffer_len
                            invariant
                                n <= j <= buffer_len,
                                buffer_len == buf.len(),
                                buf == cs.gp0_command_buffer@,
                                rest@ == buf.subrange(n as int, j as int),
                            decreases buffer_len - j,
                        {
                            rest.push(cs.gp0_command_buffer[j]);
                            j += 1;
                        }
                        cs.gp0_command_buffer = rest;
                        proof {
                            assert(words@ + cs.gp0_command_buffer@ =~= buf);
                            if opcode == 0xA0 && buf.len() >= 3 {
                                let w2: u32 = buf[2];
                                assert(w2 & 0xFFFFu32 <= 0xFFFFu32 && (w2 >> 16u32) & 0xFFFFu32
                                    <= 0xFFFFu32) by (bit_vector);
                                let w: u32 = w2 & 0xFFFFu32;
                                let h: u32 = (w2 >> 16u32) & 0xFFFFu32;
                                assert(w * h <= 0xFFFFu32 * 0xFFFFu32) by (nonlinear_arith)
                                    requires
                                        w <= 0xFFFFu32,
                                        h <= 0xFFFFu32,
                                ;
                                assert(spec_a0_pixel_count(buf) == w * h);
                            }
                            assert(spec_gp0_length(opcode as u32, buf) == Some(n as int));
                            assert(n >= 1);
                            assert(words@.len() == n);
                            assert(words@[0] == buf[0]);
                            let w0: u32 = words@[0];
                            assert(w0 >> 24u32 == opcode as u32) by (bit_vector)
                                requires
                                    opcode == ((w0 >> 24u32) & 0xFFu32) as u8,
                            ;
                            if opcode == 0xA0 {
                                assert(n >= 3);
                                assert(words@[2] == buf[2]);
                            }
                            assert(spec_gp0_length(words@[0] >> 24u32, words@) == Some(n as int));
                            assert(words@ + cs.gp0_command_buffer@ + state.gp0.contents() =~= (
                            words@ + cs.gp0_command_buffer@) + state.gp0.contents());
                            assert(words@ + cs.gp0_command_buffer@ + state.gp0.contents() =~= old(cs).gp0_command_buffer@ + old(state).gp0.contents());
                        }
                        return Gp0Step::Command(words);
                    }
                },
            }
        }
        match state.gp0.read_one() {
            Ok(word) => {
                cs.gp0_command_buffer.push(word);
                proof {
                    assert(cs.gp0_command_buffer@ + state.gp0.contents() =~= old(cs).gp0_command_buffer@ + old(state).gp0.contents());
                }
            },
            Err(()) => {
                proof {
                    assert(cs.gp0_command_buffer@ =~= cs.gp0_command_buffer@ + state.gp0.contents());
                }
                return Gp0Step::Incomplete;
            },
        }
    }
}

/// Runtime twin of the known-opcode table, used only to distinguish an
/// unknown opcode from a copy command still waiting for its third word.
fn gp0_opcode_known(opcode: u8) -> (r: bool)
    ensures
        r == spec_gp0_opcode_known(opcode as u32),
{
    let op = opcode as u32;
    op == 0x00 || op == 0x01 || op == 0x02 || op == 0x05 || op == 0x06 || op == 0x0C || op == 0x28
        || op == 0x2C || op == 0x2D || op == 0x30 || op == 0x38 || op == 0x3C || op == 0x50 || op
        == 0x65 || op == 0x6F || op == 0x80 || op == 0xA0 || op == 0xC0 || (0xE1 <= op && op
        <= 0xE6)
}

/// Acknowledges a display-control port write, latching the command for the
/// controller's next tick. The port is write-only; the previous command
/// must already have been consumed.
pub fn handle_gp1(state: &mut State, cs: &mut ControllerState)
    requires
        old(state).wf(),
        old(state).gp1.latch == Some(LatchKind::Write) ==> old(cs).gp1_command is None,
        old(state).gp1.latch != Some(LatchKind::Read),
    ensures
        final(state).wf(),
        !final(state).gp1.pending(),
        old(state).gp1.latch == Some(LatchKind::Write) ==> final(cs).gp1_command == Some(
            old(state).gp1.value,
        ) && final(state).gp1.value == old(state).gp1.value,
        old(state).gp1.latch is None ==> *final(state) == *old(state) && *final(cs) == *old(cs),
{
    match state.gp1.acknowledge() {
        None => {},
        Some((value, LatchKind::Write)) => {
            cs.gp1_command = Some(value);
            state.gp1.update(value);
        },
        Some((value, LatchKind::Read)) => {
            state.gp1.update(value);
        },
    }
}

/// Packs video-memory readback pixels into FIFO words: each word holds two
/// 16-bit pixels, the even-indexed pixel in the low half, its successor in
/// the high half, with a missing final pixel read as zero.
pub fn pack_framebuffer_words(pixels: &Vec<u16>) -> (r: Vec<u32>)
    requires
        pixels@.len() <= 0x7FFF_FFFF,
    ensures
        r@.len() == (pixels@.len() + 1) / 2,
        forall|i: int|
            0 <= i < r@.len() ==> #[trigger] r@[i] == (pixels@[2 * i] as u32) | ((if 2 * i + 1
                < pixels@.len() {
                pixels@[2 * i + 1] as u32
            } else {
                0u32
            }) << 16u32),
{
    let mut r: Vec<u32> = Vec::new();
    let len = pixels.len();
    let total = (len + 1) / 2;
    let mut k: usize = 0;
    while k < total
        invariant
            len == pixels@.len(),
            len <= 0x7FFF_FFFF,
            total == (len + 1) / 2,
            k <= total,
            r@.len() == k,
            forall|j: int|
                0 <= j < k ==> #[trigger] r@[j] == (pixels@[2 * j] as u32) | ((if 2 * j + 1
                    < pixels@.len() {
                    pixels@[2 * j + 1] as u32
                } else {
                    0u32
                }) << 16u32),
        decreases total - k,
    {
        let lo = pixels[2 * k] as u32;
        let hi: u32 = if 2 * k + 1 < len {
            pixels[2 * k + 1] as u32
        } else {
            0
        };
        r.push(lo | (hi << 16u32));
        k += 1;
    }
    r
}


/// Sign-extends an 11-bit two's-complement field, as vertex coordinates
/// and the drawing offset are stored.
pub open spec fn spec_sign_extend_11(v: u32) -> i32 {
    if v & 0x400u32 != 0 {
        ((v & 0x7FFu32) | 0xFFFF_F800u32) as i32
    } else {
        (v & 0x7FFu32) as i32
    }
}

pub fn sign_extend_11(v: u32) -> (r: i32)
    ensures
        r == spec_sign_extend_11(v),
        -1024 <= r < 1024,
{
    let field = v & 0x7FF;
    let wide: u32 = if field & 0x400 != 0 {
        field | 0xFFFF_F800
    } else {
        field
    };
    proof {
        lemma_sign_extend_11(v);
    }
    wide as i32
}

proof fn lemma_sign_extend_11(v: u32)
    by (bit_vector)
    ensures
        -1024 <= spec_sign_extend_11(v) < 1024,
        ({
            let field = v & 0x7FFu32;
            (if field & 0x400u32 != 0 {
                field | 0xFFFF_F800u32
            } else {
                field
            }) as i32 == spec_sign_extend_11(v)
        }),
{
}

/// Display-control reset: clears the drawing-port queue, acknowledges the
/// interrupt, blanks the display, stops the transfer direction, zeroes
/// the display window, and resets every drawing-state register.
pub fn command_00(state: &mut State, cs: &mut ControllerState, command: u32)
    requires
        old(state).wf(),
    ensures
        final(state).wf(),
        final(state).gp0.contents() == Seq::<u32>::empty(),
        final(cs).gp0_command_buffer@ == Seq::<u32>::empty(),
        final(state).gp1 == old(state).gp1,
{
    command_01(state, cs, 0);
    command_02(state, cs, 0);
    command_03(state, cs, 1);
    command_04(state, cs, 0);
    command_05(state, cs, 0);
    command_06(state, cs, 0);
    command_07(state, cs, 0);
    command_08(state, cs, 0);
    command_e1_handler(state, cs, 0);
    command_e2_handler(state, cs, 0);
    command_e3_handler(state, cs, 0);
    command_e4_handler(state, cs, 0);
    command_e5_handler(state, cs, 0);
    command_e6_handler(state, cs, 0);
}

/// Clears the drawing-port queue and any partially framed command.
pub fn command_01(state: &mut State, cs: &mut ControllerState, command: u32)
    requires
        old(state).wf(),
    ensures
        final(state).wf(),
        final(state).gp0.contents() == Seq::<u32>::empty(),
        final(state).gp0.capacity() == old(state).gp0.capacity(),
        final(cs).gp0_command_buffer@ == Seq::<u32>::empty(),
        final(state).stat == old(state).stat,
        final(state).read == old(state).read,
        final(state).gp1 == old(state).gp1,
        *final(cs) == (ControllerState {
            gp0_command_buffer: final(cs).gp0_command_buffer,
            ..*old(cs)
        }),
{
    state.gp0.clear();
    cs.gp0_command_buffer = Vec::new();
}

/// Acknowledges the interrupt request: status bit 24 falls.
pub fn command_02(state: &mut State, cs: &mut ControllerState, command: u32)
    requires
        old(state).wf(),
    ensures
        final(state).wf(),
        final(state).stat.value == (Bitfield { start: 24, length: 1 }).spec_insert(
            old(state).stat.value,
            0u32,
        ),
        final(state).gp0 == old(state).gp0,
        final(state).read == old(state).read,
        final(state).gp1 == old(state).gp1,
        *final(cs) == *old(cs),
{
    state.stat.write_bitfield(Bitfield::new(24, 1), 0);
}

/// Display enable: status bit 23 copies the command's low bit.
pub fn command_03(state: &mut State, cs: &mut ControllerState, command: u32)
    requires
        old(state).wf(),
    ensures
        final(state).wf(),
        final(state).stat.value == (Bitfield { start: 23, length: 1 }).spec_insert(
            old(state).stat.value,
            command & 1u32,
        ),
        final(state).gp0 == old(state).gp0,
        final(state).read == old(state).read,
        final(state).gp1 == old(state).gp1,
        *final(cs) == *old(cs),
{
    state.stat.write_bitfield(Bitfield::new(23, 1), command & 1);
}

/// Transfer-direction select: status bits 29..31 take the command's low
/// two bits, and any direction but memory-readback flushes the readback
/// FIFO.
pub fn command_04(state: &mut State, cs: &mut ControllerState, command: u32)
    requires
        old(state).wf(),
    ensures
        final(state).wf(),
        final(state).stat.value == (Bitfield { start: 29, length: 2 }).spec_insert(
            old(state).stat.value,
            command & 3u32,
        ),
        command & 3u32 != 3u32 ==> final(state).read.contents() == Seq::<u32>::empty(),
        command & 3u32 == 3u32 ==> final(state).read == old(state).read,
        final(state).gp0 == old(state).gp0,
        final(state).gp1 == old(state).gp1,
        *final(cs) == *old(cs),
{
    let direction = command & 3;
    if direction != 3 {
        state.read.clear();
    }
    state.stat.write_bitfield(Bitfield::new(29, 2), direction);
}

/// Display area start: a ten-bit column and a nine-bit row.
pub fn command_05(state: &mut State, cs: &mut ControllerState, command: u32)
    requires
        old(state).wf(),
    ensures
        final(state).wf(),
        final(cs).display_area_start_x == extract_bits(0, 10, command),
        final(cs).display_area_start_y == extract_bits(10, 9, command),
        final(cs).gp0_command_buffer == old(cs).gp0_command_buffer,
        *final(state) == *old(state),
{
    cs.display_area_start_x = Bitfield::new(0, 10).extract_from(command);
    cs.display_area_start_y = Bitfield::new(10, 9).extract_from(command);
}

/// Horizontal display range: two twelve-bit clock columns.
pub fn command_06(state: &mut State, cs: &mut ControllerState, command: u32)
    requires
        old(state).wf(),
    ensures
        final(state).wf(),
        final(cs).horizontal_display_range_x1 == extract_bits(0, 12, command),
        final(cs).horizontal_display_range_x2 == extract_bits(12, 12, command),
        final(cs).gp0_command_buffer == old(cs).gp0_command_buffer,
        *final(state) == *old(state),
{
    cs.horizontal_display_range_x1 = Bitfield::new(0, 12).extract_from(command);
    cs.horizontal_display_range_x2 = Bitfield::new(12, 12).extract_from(command);
}

/// Vertical display range: two ten-bit lines.
pub fn command_07(state: &mut State, cs: &mut ControllerState, command: u32)
    requires
        old(state).wf(),
    ensures
        final(state).wf(),
        final(cs).vertical_display_range_y1 == extract_bits(0, 10, command),
        final(cs).vertical_display_range_y2 == extract_bits(10, 10, command),
        final(cs).gp0_command_buffer == old(cs).gp0_command_buffer,
        *final(state) == *old(state),
{
    cs.vertical_display_range_y1 = Bitfield::new(0, 10).extract_from(command);
    cs.vertical_display_range_y2 = Bitfield::new(10, 10).extract_from(command);
}

/// Display mode: resolution, video standard, colour depth, interlace and
/// the reverse flag land in their status bits.
pub fn command_08(state: &mut State, cs: &mut ControllerState, command: u32)
    requires
        old(state).wf(),
    ensures
        final(state).wf(),
        extract_bits(17, 2, final(state).stat.value) == extract_bits(0, 2, command),
        extract_bits(19, 1, final(state).stat.value) == extract_bits(2, 1, command),
        extract_bits(20, 1, final(state).stat.value) == extract_bits(3, 1, command),
        extract_bits(21, 1, final(state).stat.value) == extract_bits(4, 1, command),
        extract_bits(22, 1, final(state).stat.value) == extract_bits(5, 1, command),
        extract_bits(16, 1, final(state).stat.value) == extract_bits(6, 1, command),
        extract_bits(14, 1, final(state).stat.value) == extract_bits(7, 1, command),
        final(state).gp0 == old(state).gp0,
        final(state).read == old(state).read,
        final(state).gp1 == old(state).gp1,
        *final(cs) == *old(cs),
{
    state.stat.write_bitfield(Bitfield::new(17, 2), Bitfield::new(0, 2).extract_from(command));
    state.stat.write_bitfield(Bitfield::new(19, 1), Bitfield::new(2, 1).extract_from(command));
    state.stat.write_bitfield(Bitfield::new(20, 1), Bitfield::new(3, 1).extract_from(command));
    state.stat.write_bitfield(Bitfield::new(21, 1), Bitfield::new(4, 1).extract_from(command));
    state.stat.write_bitfield(Bitfield::new(22, 1), Bitfield::new(5, 1).extract_from(command));
    state.stat.write_bitfield(Bitfield::new(16, 1), Bitfield::new(6, 1).extract_from(command));
    state.stat.write_bitfield(Bitfield::new(14, 1), Bitfield::new(7, 1).extract_from(command));
    proof {
        lemma_command_08_fields(old(state).stat.value, command);
    }
}

/// The seven display-mode fields land without disturbing one another.
proof fn lemma_command_08_fields(stat: u32, command: u32)
    by (bit_vector)
    ensures
        ({
            let s1 = insert_bits(17, 2, stat, extract_bits(0, 2, command));
            let s2 = insert_bits(19, 1, s1, extract_bits(2, 1, command));
            let s3 = insert_bits(20, 1, s2, extract_bits(3, 1, command));
            let s4 = insert_bits(21, 1, s3, extract_bits(4, 1, command));
            let s5 = insert_bits(22, 1, s4, extract_bits(5, 1, command));
            let s6 = insert_bits(16, 1, s5, extract_bits(6, 1, command));
            let s7 = insert_bits(14, 1, s6, extract_bits(7, 1, command));
            &&& extract_bits(17, 2, s7) == extract_bits(0, 2, command)
            &&& extract_bits(19, 1, s7) == extract_bits(2, 1, command)
            &&& extract_bits(20, 1, s7) == extract_bits(3, 1, command)
            &&& extract_bits(21, 1, s7) == extract_bits(4, 1, command)
            &&& extract_bits(22, 1, s7) == extract_bits(5, 1, command)
            &&& extract_bits(16, 1, s7) == extract_bits(6, 1, command)
            &&& extract_bits(14, 1, s7) == extract_bits(7, 1, command)
        }),
{
}

/// Draw-mode setting: the texture-page fields land in the low status bits
/// and the page origin is kept for texture sampling.
pub fn command_e1_handler(state: &mut State, cs: &mut ControllerState, data: u32)
    requires
        old(state).wf(),
    ensures
        final(state).wf(),
        final(state).stat.value == (Bitfield { start: 0, length: 11 }).spec_insert(
            old(state).stat.value,
            data & 0x7FFu32,
        ),
        final(cs).texpage_base_x == extract_bits(0, 4, data),
        final(cs).texpage_base_y == extract_bits(4, 1, data),
        final(state).gp0 == old(state).gp0,
        final(state).read == old(state).read,
        final(state).gp1 == old(state).gp1,
        *final(cs) == (ControllerState {
            texpage_base_x: final(cs).texpage_base_x,
            texpage_base_y: final(cs).texpage_base_y,
            ..*old(cs)
        }),
{
    state.stat.write_bitfield(Bitfield::new(0, 11), data & 0x7FF);
    cs.texpage_base_x = Bitfield::new(0, 4).extract_from(data);
    cs.texpage_base_y = Bitfield::new(4, 1).extract_from(data);
    proof {
        lemma_e1_mask(old(state).stat.value, data);
    }
}

proof fn lemma_e1_mask(stat: u32, data: u32)
    by (bit_vector)
    ensures
        insert_bits(0, 11, stat, data) == insert_bits(0, 11, stat, data & 0x7FFu32),
{
}

/// Texture window: masks and offsets, five bits each.
pub fn command_e2_handler(state: &mut State, cs: &mut ControllerState, data: u32)
    requires
        old(state).wf(),
    ensures
        final(state).wf(),
        final(cs).texture_window_mask_x == extract_bits(0, 5, data),
        final(cs).texture_window_mask_y == extract_bits(5, 5, data),
        final(cs).texture_window_offset_x == extract_bits(10, 5, data),
        final(cs).texture_window_offset_y == extract_bits(15, 5, data),
        *final(cs) == (ControllerState {
            texture_window_mask_x: final(cs).texture_window_mask_x,
            texture_window_mask_y: final(cs).texture_window_mask_y,
            texture_window_offset_x: final(cs).texture_window_offset_x,
            texture_window_offset_y: final(cs).texture_window_offset_y,
            ..*old(cs)
        }),
        *final(state) == *old(state),
{
    cs.texture_window_mask_x = Bitfield::new(0, 5).extract_from(data);
    cs.texture_window_mask_y = Bitfield::new(5, 5).extract_from(data);
    cs.texture_window_offset_x = Bitfield::new(10, 5).extract_from(data);
    cs.texture_window_offset_y = Bitfield::new(15, 5).extract_from(data);
}

/// Drawing area top-left corner.
pub fn command_e3_handler(state: &mut State, cs: &mut ControllerState, data: u32)
    requires
        old(state).wf(),
    ensures
        final(state).wf(),
        final(cs).drawing_area_x1 == extract_bits(0, 10, data),
        final(cs).drawing_area_y1 == extract_bits(10, 9, data),
        *final(cs) == (ControllerState {
            drawing_area_x1: final(cs).drawing_area_x1,
            drawing_area_y1: final(cs).drawing_area_y1,
            ..*old(cs)
        }),
        *final(state) == *old(state),
{
    cs.drawing_area_x1 = Bitfield::new(0, 10).extract_from(data);
    cs.drawing_area_y1 = Bitfield::new(10, 9).extract_from(data);
}

/// Drawing area bottom-right corner.
pub fn command_e4_handler(state: &mut State, cs: &mut ControllerState, data: u32)
    requires
        old(state).wf(),
    ensures
        final(state).wf(),
        final(cs).drawing_area_x2 == extract_bits(0, 10, data),
        final(cs).drawing_area_y2 == extract_bits(10, 9, data),
        *final(cs) == (ControllerState {
            drawing_area_x2: final(cs).drawing_area_x2,
            drawing_area_y2: final(cs).drawing_area_y2,
            ..*old(cs)
        }),
        *final(state) == *old(state),
{
    cs.drawing_area_x2 = Bitfield::new(0, 10).extract_from(data);
    cs.drawing_area_y2 = Bitfield::new(10, 9).extract_from(data);
}

/// Drawing offset: two sign-extended eleven-bit coordinates, stored raw;
/// `sign_extend_11` recovers the signed values.
pub fn command_e5_handler(state: &mut State, cs: &mut ControllerState, data: u32)
    requires
        old(state).wf(),
    ensures
        final(state).wf(),
        final(cs).drawing_offset_x == extract_bits(0, 11, data),
        final(cs).drawing_offset_y == extract_bits(11, 11, data),
        *final(cs) == (ControllerState {
            drawing_offset_x: final(cs).drawing_offset_x,
            drawing_offset_y: final(cs).drawing_offset_y,
            ..*old(cs)
        }),
        *final(state) == *old(state),
{
    cs.drawing_offset_x = Bitfield::new(0, 11).extract_from(data);
    cs.drawing_offset_y = Bitfield::new(11, 11).extract_from(data);
}

/// Mask-bit control: status bits 11 and 12 take the command's low bits.
pub fn command_e6_handler(state: &mut State, cs: &mut ControllerState, data: u32)
    requires
        old(state).wf(),
    ensures
        final(state).wf(),
        extract_bits(11, 1, final(state).stat.value) == extract_bits(0, 1, data),
        extract_bits(12, 1, final(state).stat.value) == extract_bits(1, 1, data),
        final(state).gp0 == old(state).gp0,
        final(state).read == old(state).read,
        final(state).gp1 == old(state).gp1,
        *final(cs) == *old(cs),
{
    state.stat.write_bitfield(Bitfield::new(11, 1), Bitfield::new(0, 1).extract_from(data));
    state.stat.write_bitfield(Bitfield::new(12, 1), Bitfield::new(1, 1).extract_from(data));
    proof {
        lemma_e6_fields(old(state).stat.value, data);
    }
}

proof fn lemma_e6_fields(stat: u32, data: u32)
    by (bit_vector)
    ensures
        ({
            let s1 = insert_bits(11, 1, stat, extract_bits(0, 1, data));
            let s2 = insert_bits(12, 1, s1, extract_bits(1, 1, data));
            &&& extract_bits(11, 1, s2) == extract_bits(0, 1, data)
            &&& extract_bits(12, 1, s2) == extract_bits(1, 1, data)
        }),
{
}

/// Dispatches a latched display-control command by its opcode byte.
/// Opcodes past the display-mode commands are unwired diagnostics and do
/// nothing.
pub fn handle_gp1_command(state: &mut State, cs: &mut ControllerState, command: u32)
    requires
        old(state).wf(),
    ensures
        final(state).wf(),
        final(state).gp1 == old(state).gp1,
        ({
            let opcode = (command >> 24u32) & 0xFFu32;
            &&& (opcode == 0x00 ==> final(state).gp0.contents() == Seq::<u32>::empty() && final(cs).gp0_command_buffer@ == Seq::<u32>::empty())
            &&& (opcode == 0x01 ==> final(state).gp0.contents() == Seq::<u32>::empty() && final(cs).gp0_command_buffer@ == Seq::<u32>::empty() && final(state).stat == old(state).stat)
            &&& (opcode == 0x02 ==> final(state).stat.value == (Bitfield {
                start: 24,
                length: 1,
            }).spec_insert(old(state).stat.value, 0u32) && *final(cs) == *old(cs))
            &&& (opcode == 0x03 ==> final(state).stat.value == (Bitfield {
                start: 23,
                length: 1,
            }).spec_insert(old(state).stat.value, command & 1u32) && *final(cs) == *old(cs))
            &&& (opcode == 0x04 ==> final(state).stat.value == (Bitfield {
                start: 29,
                length: 2,
            }).spec_insert(old(state).stat.value, command & 3u32) && (command & 3u32 != 3u32
                ==> final(state).read.contents() == Seq::<u32>::empty()) && *final(cs) == *old(cs))
            &&& (opcode == 0x05 ==> final(cs).display_area_start_x == extract_bits(0, 10, command)
                && final(cs).display_area_start_y == extract_bits(10, 9, command) && *final(state)
                == *old(state))
            &&& (opcode == 0x06 ==> final(cs).horizontal_display_range_x1 == extract_bits(
                0,
                12,
                command,
            ) && final(cs).horizontal_display_range_x2 == extract_bits(12, 12, command) && *final(state) == *old(state))
            &&& (opcode == 0x07 ==> final(cs).vertical_display_range_y1 == extract_bits(
                0,
                10,
                command,
            ) && final(cs).vertical_display_range_y2 == extract_bits(10, 10, command) && *final(state) == *old(state))
            &&& (opcode == 0x08 ==> extract_bits(17, 2, final(state).stat.value) == extract_bits(
                0,
                2,
                command,
            ) && extract_bits(19, 1, final(state).stat.value) == extract_bits(2, 1, command)
                && extract_bits(20, 1, final(state).stat.value) == extract_bits(3, 1, command)
                && *final(cs) == *old(cs))
            &&& (opcode > 0x08 ==> *final(state) == *old(state) && *final(cs) == *old(cs))
        }),
{
    let opcode = (command >> 24u32) & 0xFF;
    if opcode == 0x00 {
        command_00(state, cs, command);
    } else if opcode == 0x01 {
        command_01(state, cs, command);
    } else if opcode == 0x02 {
        command_02(state, cs, command);
    } else if opcode == 0x03 {
        command_03(state, cs, command);
    } else if opcode == 0x04 {
        command_04(state, cs, command);
    } else if opcode == 0x05 {
        command_05(state, cs, command);
    } else if opcode == 0x06 {
        command_06(state, cs, command);
    } else if opcode == 0x07 {
        command_07(state, cs, command);
    } else if opcode == 0x08 {
        command_08(state, cs, command);
    }
}


/// Cycles per video frame at the video-timing controller's clock.
pub open spec fn spec_frame_period() -> int {
    564480
}

/// The video-timing controller's state: how far the current frame has
/// advanced.
pub struct CrtcState {
    pub frame_clock: u64,
}

impl CrtcState {
    pub open spec fn wf(&self) -> bool {
        self.frame_clock < spec_frame_period()
    }

    pub fn new() -> (r: CrtcState)
        ensures
            r.wf(),
            r.frame_clock == 0u64,
    {
        CrtcState { frame_clock: 0 }
    }
}

/// Advances the frame clock by a cycle budget, raising the vertical
/// retrace line once for every whole frame the budget crosses; the
/// remainder carries into the next round.
pub fn crtc_tick(crtc: &mut CrtcState, intc_stat: &mut crate::intc::Stat, cycles: u64)
    requires
        old(crtc).wf(),
        cycles <= 0x1_0000_0000,
    ensures
        final(crtc).wf(),
        final(crtc).frame_clock == (old(crtc).frame_clock + cycles) % spec_frame_period(),
        old(crtc).frame_clock + cycles >= spec_frame_period() ==> *final(intc_stat) == old(intc_stat).spec_assert_line(crate::intc::Line::Vblank),
        old(crtc).frame_clock + cycles < spec_frame_period() ==> *final(intc_stat) == *old(intc_stat),
{
    let total = crtc.frame_clock + cycles;
    if total >= 564480 {
        intc_stat.assert_line(crate::intc::Line::Vblank);
    }
    crtc.frame_clock = total % 564480;
}

} // verus!
