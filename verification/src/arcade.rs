//! The arcade board around the processor: the player controls behind the
//! input ports, the sound triggers and the shift register behind the output
//! ports, the interrupts that mark the middle and the end of each video
//! frame, and the layout of the video memory on the rotated screen.

use vstd::prelude::*;
use crate::intel8080::{IOHandler, Intel8080};
use crate::shift_register::{inserted, window, ShiftRegister};
use crate::state::CpuState;

verus! {

/// The state of the player controls.
#[derive(Clone, Copy, Debug, PartialEq, Eq, Structural)]
pub struct Inputs {
    pub p2start: bool,
    pub p1start: bool,
    pub p1shoot: bool,
    pub p1left: bool,
    pub p1right: bool,
    pub p2shoot: bool,
    pub p2left: bool,
    pub p2right: bool,
    pub coin: bool,
}

impl Inputs {
    /// No control is pressed.
    pub fn new() -> (inputs: Inputs)
        ensures
            inputs == released(),
    {
        Inputs {
            p2start: false,
            p1start: false,
            p1shoot: false,
            p1left: false,
            p1right: false,
            p2shoot: false,
            p2left: false,
            p2right: false,
            coin: false,
        }
    }
}

/// The controls with nothing pressed.
pub open spec fn released() -> Inputs {
    Inputs {
        p2start: false,
        p1start: false,
        p1shoot: false,
        p1left: false,
        p1right: false,
        p2shoot: false,
        p2left: false,
        p2right: false,
        coin: false,
    }
}

/// The mask `mask` where the control is pressed, nothing where it is not.
pub open spec fn line(pressed: bool, mask: u8) -> u8 {
    if pressed {
        mask
    } else {
        0
    }
}

/// Input port 0: bits 1 to 3 always read 1; bit 4 is player one's fire
/// button, bit 5 left, bit 6 right.
pub open spec fn port0(inputs: Inputs) -> u8 {
    0b0000_1110 | line(inputs.p1shoot, 0x10) | line(inputs.p1left, 0x20) | line(
        inputs.p1right,
        0x40,
    )
}

/// Input port 1: bit 3 always reads 1; bit 0 is the coin slot, bit 1 the
/// two-player start button, bit 2 the one-player start button, bit 4 player
/// one's fire button, bit 5 left, bit 6 right.
pub open spec fn port1(inputs: Inputs) -> u8 {
    0b0000_1000 | line(inputs.coin, 0x01) | line(inputs.p2start, 0x02) | line(
        inputs.p1start,
        0x04,
    ) | line(inputs.p1shoot, 0x10) | line(inputs.p1left, 0x20) | line(inputs.p1right, 0x40)
}

/// Input port 2: bits 0 and 1 always read 1; bit 4 is player two's fire
/// button, bit 5 left, bit 6 right.
pub open spec fn port2(inputs: Inputs) -> u8 {
    0b0000_0011 | line(inputs.p2shoot, 0x10) | line(inputs.p2left, 0x20) | line(
        inputs.p2right,
        0x40,
    )
}

fn wire(pressed: bool, mask: u8) -> (r: u8)
    ensures
        r == line(pressed, mask),
{
    if pressed {
        mask
    } else {
        0
    }
}

/// The byte latched on input port 0.
pub fn input0(inputs: &Inputs) -> (r: u8)
    ensures
        r == port0(*inputs),
{
    0b0000_1110 | wire(inputs.p1shoot, 0x10) | wire(inputs.p1left, 0x20) | wire(
        inputs.p1right,
        0x40,
    )
}

/// The byte latched on input port 1.
pub fn input1(inputs: &Inputs) -> (r: u8)
    ensures
        r == port1(*inputs),
{
    0b0000_1000 | wire(inputs.coin, 0x01) | wire(inputs.p2start, 0x02) | wire(
        inputs.p1start,
        0x04,
    ) | wire(inputs.p1shoot, 0x10) | wire(inputs.p1left, 0x20) | wire(inputs.p1right, 0x40)
}

/// The byte latched on input port 2.
pub fn input2(inputs: &Inputs) -> (r: u8)
    ensures
        r == port2(*inputs),
{
    0b0000_0011 | wire(inputs.p2shoot, 0x10) | wire(inputs.p2left, 0x20) | wire(
        inputs.p2right,
        0x40,
    )
}

/// The keys of the host keyboard that are wired to a control, and `Other`
/// for all the rest.
#[derive(Clone, Copy, Debug, PartialEq, Eq, Structural)]
pub enum Key {
    A,
    D,
    F,
    G,
    C,
    T,
    Left,
    Right,
    Slash,
    Other,
}

/// The controls after a key has gone down (`pressed`) or up: A and D steer
/// player one, F fires, G starts a one-player game, C drops a coin, T starts
/// a two-player game; the arrow keys steer player two and the slash fires.
pub open spec fn with_key(inputs: Inputs, key: Key, pressed: bool) -> Inputs {
    match key {
        Key::A => Inputs { p1left: pressed, ..inputs },
        Key::D => Inputs { p1right: pressed, ..inputs },
        Key::F => Inputs { p1shoot: pressed, ..inputs },
        Key::G => Inputs { p1start: pressed, ..inputs },
        Key::C => Inputs { coin: pressed, ..inputs },
        Key::T => Inputs { p2start: pressed, ..inputs },
        Key::Left => Inputs { p2left: pressed, ..inputs },
        Key::Right => Inputs { p2right: pressed, ..inputs },
        Key::Slash => Inputs { p2shoot: pressed, ..inputs },
        Key::Other => inputs,
    }
}

fn set_key(key: Key, inputs: &mut Inputs, pressed: bool)
    ensures
        *final(inputs) == with_key(*old(inputs), key, pressed),
{
    match key {
        Key::A => inputs.p1left = pressed,
        Key::D => inputs.p1right = pressed,
        Key::F => inputs.p1shoot = pressed,
        Key::G => inputs.p1start = pressed,
        Key::C => inputs.coin = pressed,
        Key::T => inputs.p2start = pressed,
        Key::Left => inputs.p2left = pressed,
        Key::Right => inputs.p2right = pressed,
        Key::Slash => inputs.p2shoot = pressed,
        Key::Other => {},
    }
}

/// Records that a key has gone down.
pub fn map_scancode_to_inputs_enable(scancode: Key, inputs: &mut Inputs)
    ensures
        *final(inputs) == with_key(*old(inputs), scancode, true),
{
    set_key(scancode, inputs, true);
}

/// Records that a key has gone up.
pub fn map_scancode_to_inputs_disable(scancode: Key, inputs: &mut Inputs)
    ensures
        *final(inputs) == with_key(*old(inputs), scancode, false),
{
    set_key(scancode, inputs, false);
}

/// What the sound hardware is asked to do.
#[derive(Clone, Copy, Debug, PartialEq, Eq, Structural)]
pub enum SoundCommand {
    PlayUfo,
    StopUfo,
    PlayShoot,
    StopShoot,
    PlayPlayerDie,
    PlayInvaderDie,
    PlayFleetMovement1,
    PlayFleetMovement2,
    PlayFleetMovement3,
    PlayFleetMovement4,
    PlayUfoHit,
}

/// The bit selected by `mask` went from 0 to 1.
pub open spec fn rising(data: u8, prev_data: u8, mask: u8) -> bool {
    data & mask == mask && prev_data & mask == 0
}

/// The bit selected by `mask` went from 1 to 0.
pub open spec fn falling(data: u8, prev_data: u8, mask: u8) -> bool {
    data & mask == 0 && prev_data & mask == mask
}

/// The command where the condition holds, nothing where it does not.
pub open spec fn when(condition: bool, command: SoundCommand) -> Seq<SoundCommand> {
    if condition {
        seq![command]
    } else {
        Seq::empty()
    }
}

/// The sound commands that a write to a sound port triggers, in order.
/// On port 3, bits 0 and 1 start a sound on a rising edge and stop it on a
/// falling edge, bits 2 and 3 start a sound on a rising edge. On port 5,
/// bits 0 to 4 start a sound on a rising edge. Other ports trigger nothing.
pub open spec fn sound_commands(port: u8, data: u8, prev_data: u8) -> Seq<SoundCommand> {
    if port == 3 {
        when(rising(data, prev_data, 1), SoundCommand::PlayUfo) + when(
            falling(data, prev_data, 1),
            SoundCommand::StopUfo,
        ) + when(rising(data, prev_data, 2), SoundCommand::PlayShoot) + when(
            falling(data, prev_data, 2),
            SoundCommand::StopShoot,
        ) + when(rising(data, prev_data, 4), SoundCommand::PlayPlayerDie) + when(
            rising(data, prev_data, 8),
            SoundCommand::PlayInvaderDie,
        )
    } else if port == 5 {
        when(rising(data, prev_data, 1), SoundCommand::PlayFleetMovement1) + when(
            rising(data, prev_data, 2),
            SoundCommand::PlayFleetMovement2,
        ) + when(rising(data, prev_data, 4), SoundCommand::PlayFleetMovement3) + when(
            rising(data, prev_data, 8),
            SoundCommand::PlayFleetMovement4,
        ) + when(rising(data, prev_data, 16), SoundCommand::PlayUfoHit)
    } else {
        Seq::empty()
    }
}

fn push_when(commands: &mut Vec<SoundCommand>, condition: bool, command: SoundCommand)
    ensures
        final(commands)@ == old(commands)@ + when(condition, command),
{
    if condition {
        commands.push(command);
    }
}

/// The sound commands for a byte written to a sound port, given the byte
/// written to that port before.
pub fn sound(port: u8, data: u8, prev_data: u8) -> (commands: Vec<SoundCommand>)
    ensures
        commands@ == sound_commands(port, data, prev_data),
{
    let mut commands: Vec<SoundCommand> = Vec::new();
    match port {
        3 => {
            push_when(&mut commands, (data & 1) == 1 && prev_data & 1 == 0, SoundCommand::PlayUfo);
            push_when(&mut commands, (data & 1) == 0 && prev_data & 1 == 1, SoundCommand::StopUfo);
            push_when(
                &mut commands,
                (data & 2) == 2 && prev_data & 2 == 0,
                SoundCommand::PlayShoot,
            );
            push_when(
                &mut commands,
                (data & 2) == 0 && prev_data & 2 == 2,
                SoundCommand::StopShoot,
            );
            push_when(
                &mut commands,
                (data & 4) == 4 && prev_data & 4 == 0,
                SoundCommand::PlayPlayerDie,
            );
            push_when(
                &mut commands,
                (data & 8) == 8 && prev_data & 8 == 0,
                SoundCommand::PlayInvaderDie,
            );
        },
        5 => {
            push_when(
                &mut commands,
                (data & 1) == 1 && prev_data & 1 == 0,
                SoundCommand::PlayFleetMovement1,
            );
            push_when(
                &mut commands,
                (data & 2) == 2 && prev_data & 2 == 0,
                SoundCommand::PlayFleetMovement2,
            );
            push_when(
                &mut commands,
                (data & 4) == 4 && prev_data & 4 == 0,
                SoundCommand::PlayFleetMovement3,
            );
            push_when(
                &mut commands,
                (data & 8) == 8 && prev_data & 8 == 0,
                SoundCommand::PlayFleetMovement4,
            );
            push_when(
                &mut commands,
                (data & 16) == 16 && prev_data & 16 == 0,
                SoundCommand::PlayUfoHit,
            );
        },
        _ => {},
    }
    commands
}

/// Clock cycles in one video frame.
pub const FRAME_TICKS: usize = 33333;

/// Clock cycles in half a video frame.
pub const HALF_FRAME_TICKS: usize = 16666;

/// The opcode injected in the middle of a frame: `RST 1`.
pub const MID_FRAME_OPCODE: u8 = 0b11001111;

/// The opcode injected at the end of a frame: `RST 2`.
pub const END_OF_FRAME_OPCODE: u8 = 0b11010111;

/// What is due at a point in time.
#[derive(Clone, Copy, Debug, PartialEq, Eq, Structural)]
pub struct Schedule {
    /// A frame has ended: the screen is drawn and the end-of-frame interrupt
    /// is raised.
    pub end_of_frame: bool,
    /// The middle of a frame has passed: the mid-frame interrupt is raised.
    pub mid_frame: bool,
}

/// Counts video frames against the processor's cycle counter. Both
/// interrupts come once per frame, half a frame apart.
pub struct FrameClock {
    count: usize,
    count_interrupt: usize,
}

impl FrameClock {
    /// How many frames have ended.
    pub closed spec fn frames(&self) -> nat {
        self.count as nat
    }

    /// The half frame at which the next mid-frame interrupt is due; it is
    /// always odd.
    pub closed spec fn half_frames(&self) -> nat {
        self.count_interrupt as nat
    }

    /// A clock at power-on: the first frame ends as soon as a cycle has been
    /// charged, the first mid-frame interrupt is due after half a frame.
    pub fn new() -> (clock: FrameClock)
        ensures
            clock.frames() == 0,
            clock.half_frames() == 1,
    {
        FrameClock { count: 0, count_interrupt: 1 }
    }

    /// Tells what is due once the cycle counter has reached `total_ticks`,
    /// and moves the clock on. The end of a frame is due when the counter has
    /// passed `FRAME_TICKS` times the number of frames ended so far. The
    /// mid-frame interrupt is due when the counter has passed
    /// `HALF_FRAME_TICKS` times the next odd half frame, but it waits until
    /// interrupts are enabled.
    pub fn poll(&mut self, total_ticks: usize, interrupt_enabled: bool) -> (due: Schedule)
        ensures
            due.end_of_frame == end_of_frame_due(old(self).frames(), total_ticks as nat),
            due.mid_frame == mid_frame_due(
                old(self).half_frames(),
                total_ticks as nat,
                interrupt_enabled,
            ),
            final(self).frames() == old(self).frames() + if due.end_of_frame {
                1nat
            } else {
                0nat
            },
            final(self).half_frames() == old(self).half_frames() + if due.mid_frame {
                2nat
            } else {
                0nat
            },
    {
        let end_of_frame = match FRAME_TICKS.checked_mul(self.count) {
            Some(threshold) => total_ticks > threshold,
            None => false,
        };
        if end_of_frame {
            assert(self.count < usize::MAX) by (nonlinear_arith)
                requires
                    33333 * self.count < total_ticks <= usize::MAX,
            ;
            self.count += 1;
        }
        let mid_frame = interrupt_enabled && match HALF_FRAME_TICKS.checked_mul(
            self.count_interrupt,
        ) {
            Some(threshold) => total_ticks > threshold,
            None => false,
        };
        if mid_frame {
            assert(self.count_interrupt < usize::MAX - 1) by (nonlinear_arith)
                requires
                    16666 * self.count_interrupt < total_ticks <= usize::MAX,
            ;
            self.count_interrupt += 2;
        }
        Schedule { end_of_frame, mid_frame }
    }
}

/// Whether a frame has ended: the cycle counter has passed the end of frame
/// number `frames`.
pub open spec fn end_of_frame_due(frames: nat, total_ticks: nat) -> bool {
    total_ticks > FRAME_TICKS * frames
}

/// Whether the mid-frame interrupt is raised: the cycle counter has passed
/// half frame number `half_frames` and interrupts are enabled.
pub open spec fn mid_frame_due(half_frames: nat, total_ticks: nat, interrupt_enabled: bool) -> bool {
    interrupt_enabled && total_ticks > HALF_FRAME_TICKS * half_frames
}

/// Width of the video memory in pixels, before the screen is rotated.
pub const VIDEO_WIDTH: usize = 256;

/// Height of the video memory in pixels, before the screen is rotated.
pub const VIDEO_HEIGHT: usize = 224;

/// Size of the video memory in bytes.
pub const VIDEO_BYTES: usize = 7168;

/// The largest scale at which all screen coordinates fit.
pub const MAX_SCALE: u32 = 0x7F_FFFF;

/// A square on the host's screen that stands for one lit pixel.
#[derive(Clone, Copy, Debug, PartialEq, Eq, Structural)]
pub struct PixelRect {
    pub x: i32,
    pub y: i32,
    pub width: u32,
    pub height: u32,
}

/// Whether a pixel of the video memory is lit. Pixels are numbered through
/// the memory, eight to a byte, the lowest bit first.
pub open spec fn lit(display_data: Seq<u8>, pixel: int) -> bool {
    (display_data[pixel / 8] >> ((pixel % 8) as u8)) & 1 == 1
}

/// Where a pixel of the video memory lies on the host's screen. The screen
/// is turned a quarter to the left: a line of 256 pixels of video memory
/// becomes a column, drawn from the bottom up.
pub open spec fn placed(pixel: int, scale: u32) -> PixelRect {
    PixelRect {
        x: ((pixel / 256) * scale) as i32,
        y: ((256 - pixel % 256) * scale) as i32,
        width: scale,
        height: scale,
    }
}

/// The squares for the lit pixels among the first `n` pixels, in the order
/// of the video memory.
pub open spec fn squares_below(display_data: Seq<u8>, n: int, scale: u32) -> Seq<PixelRect>
    decreases n,
{
    if n <= 0 {
        Seq::empty()
    } else {
        squares_below(display_data, n - 1, scale) + if lit(display_data, n - 1) {
            seq![placed(n - 1, scale)]
        } else {
            Seq::empty()
        }
    }
}

/// The squares to draw, in white on black, for a copy of the video memory.
pub fn display_canvas(display_data: &[u8; 7168], scale: u32) -> (squares: Vec<PixelRect>)
    requires
        scale <= MAX_SCALE,
    ensures
        squares@ == squares_below(display_data@, 8 * VIDEO_BYTES, scale),
{
    let mut squares: Vec<PixelRect> = Vec::new();
    let mut index: usize = 0;
    while index < VIDEO_BYTES
        invariant
            index <= VIDEO_BYTES,
            scale <= MAX_SCALE,
            squares@ == squares_below(display_data@, 8 * index, scale),
        decreases VIDEO_BYTES - index,
    {
        let byte: u8 = display_data[index];
        let mut n: usize = 0;
        while n < 8
            invariant
                n <= 8,
                index < VIDEO_BYTES,
                scale <= MAX_SCALE,
                byte == display_data@[index as int],
                squares@ == squares_below(display_data@, 8 * index + n, scale),
            decreases 8 - n,
        {
            let bit: u8 = (byte >> (n as u8)) & 1;
            let total_index: usize = 8 * index + n;
            let x: usize = total_index % 256;
            let y: usize = total_index / 256;
            let rotated_x: usize = y;
            let rotated_y: usize = VIDEO_WIDTH - x;
            if bit == 1 {
                assert(rotated_x * scale <= 0x7FFF_FFFF && rotated_y * scale <= 0x7FFF_FFFF)
                    by (nonlinear_arith)
                    requires
                        rotated_x <= 256,
                        rotated_y <= 256,
                        scale <= 0x7F_FFFF,
                ;
                let rect = PixelRect {
                    x: (rotated_x as u32 * scale) as i32,
                    y: (rotated_y as u32 * scale) as i32,
                    width: scale,
                    height: scale,
                };
                squares.push(rect);
            }
            n += 1;
        }
        index += 1;
    }
    squares
}

/// The board's state as a mathematical value.
#[verifier::ext_equal]
pub struct ArcadeState {
    /// The word in the shift register.
    pub shift_data: u16,
    /// The read offset of the shift register.
    pub shift_offset: u8,
    pub inputs: Inputs,
    /// The byte last written to sound port 3.
    pub prev_port3: u8,
    /// The byte last written to sound port 5.
    pub prev_port5: u8,
    /// Sound commands that the host has not yet taken.
    pub sounds: Seq<SoundCommand>,
    /// How many frames have ended.
    pub frames: nat,
    /// The half frame at which the next mid-frame interrupt is due.
    pub half_frames: nat,
}

/// The byte that the board presents on an input port: the controls on ports
/// 0 to 2, the window of the shift register on port 3, nothing elsewhere.
pub open spec fn port_byte(a: ArcadeState, port: u8) -> u8 {
    if port == 0 {
        port0(a.inputs)
    } else if port == 1 {
        port1(a.inputs)
    } else if port == 2 {
        port2(a.inputs)
    } else if port == 3 {
        window(a.shift_data, a.shift_offset)
    } else {
        0
    }
}

/// The board after a byte has been written to an output port: port 2 sets
/// the offset of the shift register from the low three bits, port 4 shifts a
/// byte in, ports 3 and 5 trigger sounds and remember the byte. Other ports
/// are not connected.
pub open spec fn after_output(a: ArcadeState, port: u8, value: u8) -> ArcadeState {
    if port == 2 {
        ArcadeState { shift_offset: value & 0x07, ..a }
    } else if port == 3 {
        ArcadeState {
            sounds: a.sounds + sound_commands(3, value, a.prev_port3),
            prev_port3: value,
            ..a
        }
    } else if port == 4 {
        ArcadeState { shift_data: inserted(a.shift_data, value), ..a }
    } else if port == 5 {
        ArcadeState {
            sounds: a.sounds + sound_commands(5, value, a.prev_port5),
            prev_port5: value,
            ..a
        }
    } else {
        a
    }
}

/// The board after it has taken the most recent port write from the
/// processor, if there is one.
pub open spec fn after_drain(a: ArcadeState, s: CpuState) -> ArcadeState {
    if s.output.len() > 0 {
        after_output(a, s.output.last().0, s.output.last().1)
    } else {
        a
    }
}

/// The board after one turn of servicing the processor: a port write has
/// been taken and the frame clock has been polled.
pub open spec fn serviced_board(a: ArcadeState, s: CpuState) -> ArcadeState {
    let b = after_drain(a, s);
    ArcadeState {
        frames: b.frames + if end_of_frame_due(b.frames, s.total_ticks) {
            1nat
        } else {
            0nat
        },
        half_frames: b.half_frames + if mid_frame_due(
            b.half_frames,
            s.total_ticks,
            s.interrupts_enabled,
        ) {
            2nat
        } else {
            0nat
        },
        ..b
    }
}

/// The interrupt queue after the clock has been polled: the end-of-frame
/// opcode is queued first, so that a mid-frame opcode queued with it is
/// served before it.
pub open spec fn with_interrupts(pending: Seq<u8>, end_of_frame: bool, mid_frame: bool) -> Seq<u8> {
    pending + (if end_of_frame {
        seq![END_OF_FRAME_OPCODE]
    } else {
        Seq::empty()
    }) + (if mid_frame {
        seq![MID_FRAME_OPCODE]
    } else {
        Seq::empty()
    })
}

/// The processor after one turn of servicing: its most recent port write
/// has been taken, input ports 0 to 3 have been latched, and the interrupts
/// that are due have been queued.
pub open spec fn serviced_cpu(a: ArcadeState, s: CpuState) -> CpuState {
    let b = after_drain(a, s);
    CpuState {
        output: if s.output.len() > 0 {
            s.output.drop_last()
        } else {
            s.output
        },
        input: s.input.update(0, port_byte(b, 0)).update(1, port_byte(b, 1)).update(
            2,
            port_byte(b, 2),
        ).update(3, port_byte(b, 3)),
        pending: with_interrupts(
            s.pending,
            end_of_frame_due(b.frames, s.total_ticks),
            mid_frame_due(b.half_frames, s.total_ticks, s.interrupts_enabled),
        ),
        ..s
    }
}

/// The devices of the arcade board: shift register, controls, sound triggers
/// and frame clock.
pub struct Arcade {
    shift_register: ShiftRegister,
    inputs: Inputs,
    prev_port3: u8,
    prev_port5: u8,
    sounds: Vec<SoundCommand>,
    clock: FrameClock,
}

impl View for Arcade {
    type V = ArcadeState;

    closed spec fn view(&self) -> ArcadeState {
        ArcadeState {
            shift_data: self.shift_register.data(),
            shift_offset: self.shift_register.offset(),
            inputs: self.inputs,
            prev_port3: self.prev_port3,
            prev_port5: self.prev_port5,
            sounds: self.sounds@,
            frames: self.clock.frames(),
            half_frames: self.clock.half_frames(),
        }
    }
}

/// The board at power-on.
pub open spec fn power_on() -> ArcadeState {
    ArcadeState {
        shift_data: 0,
        shift_offset: 0,
        inputs: released(),
        prev_port3: 0,
        prev_port5: 0,
        sounds: Seq::empty(),
        frames: 0,
        half_frames: 1,
    }
}

impl Arcade {
    pub fn new() -> (arcade: Arcade)
        ensures
            arcade@ == power_on(),
    {
        Arcade {
            shift_register: ShiftRegister::new(),
            inputs: Inputs::new(),
            prev_port3: 0,
            prev_port5: 0,
            sounds: Vec::new(),
            clock: FrameClock::new(),
        }
    }

    /// Records that a key of the host keyboard has gone down.
    pub fn key_down(&mut self, key: Key)
        ensures
            final(self)@ == (ArcadeState {
                inputs: with_key(old(self)@.inputs, key, true),
                ..old(self)@
            }),
    {
        map_scancode_to_inputs_enable(key, &mut self.inputs);
    }

    /// Records that a key of the host keyboard has gone up.
    pub fn key_up(&mut self, key: Key)
        ensures
            final(self)@ == (ArcadeState {
                inputs: with_key(old(self)@.inputs, key, false),
                ..old(self)@
            }),
    {
        map_scancode_to_inputs_disable(key, &mut self.inputs);
    }

    /// Hands the queued sound commands to the host, oldest first.
    pub fn take_sounds(&mut self) -> (commands: Vec<SoundCommand>)
        ensures
            commands@ == old(self)@.sounds,
            final(self)@ == (ArcadeState { sounds: Seq::empty(), ..old(self)@ }),
    {
        let mut commands: Vec<SoundCommand> = Vec::new();
        commands.append(&mut self.sounds);
        commands
    }

    /// One turn of servicing the processor, to be taken after each turn of
    /// the emulation loop: takes the most recent port write from the
    /// processor and hands it to the device behind the port, latches the
    /// input ports, and queues the interrupts that are due. Tells whether a
    /// frame has ended, so that the host draws the screen.
    pub fn service(&mut self, cpu: &mut Intel8080) -> (render: bool)
        ensures
            final(self)@ == serviced_board(old(self)@, old(cpu)@),
            final(cpu)@ == serviced_cpu(old(self)@, old(cpu)@),
            render == end_of_frame_due(after_drain(old(self)@, old(cpu)@).frames, old(cpu)@.total_ticks),
            final(cpu).flag_byte() == old(cpu).flag_byte(),
    {
        match cpu.take_output() {
            Some((port, data)) => {
                self.output(port, data);
            },
            None => {},
        }
        let ghost drained = self@;
        let byte0 = self.input(0);
        cpu.set_input(0, byte0);
        let byte1 = self.input(1);
        cpu.set_input(1, byte1);
        let byte2 = self.input(2);
        cpu.set_input(2, byte2);
        let byte3 = self.input(3);
        cpu.set_input(3, byte3);
        let ghost pending = cpu@.pending;
        let due = self.clock.poll(cpu.elapsed_ticks(), cpu.interrupts_enabled());
        if due.end_of_frame {
            cpu.request_interrupt(END_OF_FRAME_OPCODE);
        }
        if due.mid_frame {
            cpu.request_interrupt(MID_FRAME_OPCODE);
        }
        assert(cpu@.pending =~= with_interrupts(pending, due.end_of_frame, due.mid_frame));
        due.end_of_frame
    }
}

impl IOHandler for Arcade {
    /// The byte that the board presents on an input port.
    fn input(&mut self, port: u8) -> (value: u8)
        ensures
            value == port_byte(old(self)@, port),
            final(self)@ == old(self)@,
    {
        match port {
            0 => input0(&self.inputs),
            1 => input1(&self.inputs),
            2 => input2(&self.inputs),
            3 => self.shift_register.result(),
            _ => 0,
        }
    }

    /// Hands a byte written to an output port to the device behind it.
    fn output(&mut self, port: u8, value: u8)
        ensures
            final(self)@ == after_output(old(self)@, port, value),
    {
        match port {
            2 => {
                assert(value & 0x07 <= 8) by (bit_vector);
                self.shift_register.write_offset(value & 0x07);
            },
            3 => {
                let mut commands = sound(port, value, self.prev_port3);
                self.sounds.append(&mut commands);
                self.prev_port3 = value;
            },
            4 => self.shift_register.insert(value),
            5 => {
                let mut commands = sound(port, value, self.prev_port5);
                self.sounds.append(&mut commands);
                self.prev_port5 = value;
            },
            _ => {},
        }
    }
}

} // verus!
