use vstd::prelude::*;
use crate::base_cpu::BaseCpu;
use crate::fault::Fault;
use crate::m6502::M6502;
use crate::m6502_model::{CpuState, Outcome, power_on, reset, tick};
use crate::memory_mapper::MemoryMapper;
use crate::vcs_audio::{AudioState, VcsAudio};
use crate::vcs_audio_channel::ChannelState;
use crate::vcs_cartridge::{CartridgeState, runs_as_4k};
use crate::m6502_laws::{kept_by_memory, lemma_tick_keeps};
use crate::vcs_console_type::{
    ConsoleType,
    VcsConsoleType,
    frames_per_second_of,
    ticks_per_frame_of,
    x_resolution_of,
    y_resolution_of,
};
use crate::vcs_memory::{MemoryState, VcsMemory};
use crate::vcs_parameters::VcsParameters;
use crate::vcs_riot::{RiotState, VcsRiot};
use crate::vcs_tia::VcsTia;
use crate::vcs_tia_laws::{lemma_tick_keeps_wf, lemma_write_keeps_console};
use crate::vcs_tia_model::TiaState;

verus! {

/// What the player can do to the console.
#[derive(Debug, PartialEq, Eq, Clone, Copy, Structural)]
pub enum Message {
    /// The Select switch: 1 while down, 0 when let go.
    Select,
    /// The Reset switch: 1 while down, 0 when let go.
    Reset,
    /// The left stick: 1 up, -1 down, 0 back in the middle.
    P0UpDown,
    /// The left stick: 1 right, -1 left, 0 back in the middle.
    P0LeftRight,
    /// The left fire button: 1 while down, 0 when let go.
    P0Trigger,
}

/// The keys of the keyboard that the console listens to.
#[derive(Debug, PartialEq, Eq, Clone, Copy, Structural)]
pub enum Key {
    A,
    S,
    ArrowUp,
    ArrowDown,
    ArrowLeft,
    ArrowRight,
    Space,
    /// Any other key.
    Other,
}

/// What a key going down (`pressed`) or up means to the console: A is
/// Select, S is Reset, the arrows move the left stick, the space bar is its
/// fire button. Other keys mean nothing.
pub open spec fn key_message(key: Key, pressed: bool) -> Option<(Message, i8)> {
    let on: i8 = if pressed {
        1i8
    } else {
        0i8
    };
    let off: i8 = if pressed {
        -1i8
    } else {
        0i8
    };
    match key {
        Key::A => Some((Message::Select, on)),
        Key::S => Some((Message::Reset, on)),
        Key::ArrowUp => Some((Message::P0UpDown, on)),
        Key::ArrowDown => Some((Message::P0UpDown, off)),
        Key::ArrowLeft => Some((Message::P0LeftRight, off)),
        Key::ArrowRight => Some((Message::P0LeftRight, on)),
        Key::Space => Some((Message::P0Trigger, on)),
        Key::Other => None,
    }
}

/// Two channels mixed into one: each sample is the sum of the halves of the
/// two samples.
pub open spec fn mixed(left: Seq<u16>, right: Seq<u16>) -> Seq<u16> {
    Seq::new(left.len(), |i: int| (left[i] / 2 + right[i] / 2) as u16)
}

/// The state of the whole console.
pub struct ConsoleState {
    /// The television standard that the console is built for.
    pub console: ConsoleType,
    pub cpu: CpuState,
    pub memory: MemoryState,
    pub audio: AudioState,
    /// Colour clocks run so far, modulo 2^32.
    pub total_ticks: u32,
    /// Whether a frame has been completed that the host has not taken yet.
    pub frame_rendered: bool,
    /// The audio samples of the frame that was started last.
    pub pcm: Seq<u16>,
}

/// The console after a run, or the fault that ended the run. Where there
/// is a fault, the state says nothing.
pub struct Run {
    pub state: ConsoleState,
    pub fault: Option<Fault>,
}

impl ConsoleState {
    /// Whether the console is in a state that its own operations lead to:
    /// every part is, and adapter and audio are those of the console's
    /// television standard.
    pub open spec fn wf(self) -> bool {
        &&& self.cpu.wf()
        &&& self.memory.wf()
        &&& self.audio.wf()
        &&& self.memory.tia.console == self.console
        &&& self.audio.frames_per_second == frames_per_second_of(self.console)
    }

    /// Bytes in a frame of the console.
    pub open spec fn frame_bytes(self) -> int {
        x_resolution_of(self.console) * y_resolution_of(self.console) * 3
    }

    /// The console as it starts with the cartridge image `image` in its
    /// slot: every part is reset, and the processor has taken its program
    /// counter from the cartridge's reset vector.
    pub open spec fn start(
        console_type: ConsoleType,
        image: Seq<u8>,
        has_super_chip: bool,
    ) -> ConsoleState {
        let fresh = MemoryState {
            tia: TiaState::initial(console_type),
            riot: RiotState::initial(),
            cartridge: CartridgeState { contents: image, is_4k: runs_as_4k(image), has_super_chip },
        };
        let cpu = reset::<VcsMemory>(power_on(), fresh);
        ConsoleState {
            console: console_type,
            cpu: cpu.0,
            memory: MemoryState { riot: cpu.1.riot.reset(), tia: cpu.1.tia.reset(), ..cpu.1 },
            audio: AudioState {
                channels: seq![ChannelState::initial(), ChannelState::initial()],
                frames_per_second: frames_per_second_of(console_type) as u32,
            },
            total_ticks: 0,
            frame_rendered: false,
            pcm: Seq::empty(),
        }
    }

    /// The console after an input of the player. Switches and button are
    /// down for every value but zero.
    pub open spec fn handle_input(self, message: Message, value: i8) -> ConsoleState {
        match message {
            Message::Select => ConsoleState {
                memory: MemoryState { riot: self.memory.riot.select_pressed(value != 0), ..self.memory },
                ..self
            },
            Message::Reset => ConsoleState {
                memory: MemoryState { riot: self.memory.riot.reset_pressed(value != 0), ..self.memory },
                ..self
            },
            Message::P0UpDown => ConsoleState {
                memory: MemoryState {
                    riot: self.memory.riot.left_controller_up_down(value),
                    ..self.memory
                },
                ..self
            },
            Message::P0LeftRight => ConsoleState {
                memory: MemoryState {
                    riot: self.memory.riot.left_controller_left_right(value),
                    ..self.memory
                },
                ..self
            },
            Message::P0Trigger => ConsoleState {
                memory: MemoryState {
                    tia: self.memory.tia.left_controller_trigger(value != 0),
                    ..self.memory
                },
                ..self
            },
        }
    }

    /// The console after a key went down or up.
    pub open spec fn input_check(self, key: Key, pressed: bool) -> ConsoleState {
        match key_message(key, pressed) {
            Some((message, value)) => self.handle_input(message, value),
            None => self,
        }
    }

    /// The console after the audio of a frame has been produced: the
    /// channels take their settings from the adapter, each produces the
    /// samples of one frame, and the two are mixed.
    pub open spec fn with_audio(self) -> ConsoleState {
        let set = self.audio.execute_tick(self.memory.tia);
        let n = set.samples_per_frame();
        ConsoleState {
            audio: set.after_frame(0).after_frame(1),
            pcm: mixed(
                Seq::new(n, |i: int| set.channels[0].sample(i as nat)),
                Seq::new(n, |i: int| set.channels[1].sample(i as nat)),
            ),
            ..self
        }
    }

    /// Whether the processor and the RAM and I/O chip take part in the
    /// coming colour clock: they run at a third of the adapter's rate.
    pub open spec fn cpu_turn(self) -> bool {
        self.total_ticks % 3 == 0
    }

    /// The console one colour clock later. On every third clock the
    /// processor runs for a tick, unless the adapter holds it, and the RAM
    /// and I/O chip runs for a tick in either case. The adapter runs on
    /// every clock; a frame that it completes becomes the frame displayed.
    pub open spec fn clock(self) -> Run {
        let ran = if self.cpu_turn() && !self.memory.tia.w_sync_set {
            tick::<VcsMemory>(self.cpu, self.memory)
        } else {
            Outcome { cpu: self.cpu, mem: self.memory, fault: None }
        };
        if ran.fault.is_some() {
            Run { state: self, fault: ran.fault }
        } else {
            let riot = if self.cpu_turn() {
                ran.mem.riot.tick()
            } else {
                ran.mem.riot
            };
            let tia = ran.mem.tia.tick();
            Run {
                state: ConsoleState {
                    cpu: ran.cpu,
                    memory: MemoryState { tia: tia.repaint(), riot, ..ran.mem },
                    frame_rendered: self.frame_rendered || tia.frame_done(),
                    total_ticks: if self.total_ticks == u32::MAX {
                        0
                    } else {
                        (self.total_ticks + 1) as u32
                    },
                    ..self
                },
                fault: None,
            }
        }
    }

    /// The console `n` colour clocks later, or the first fault on the way.
    pub open spec fn clocks(self, n: nat) -> Run
        decreases n,
    {
        if n == 0 {
            Run { state: self, fault: None }
        } else {
            let before = self.clocks((n - 1) as nat);
            if before.fault.is_some() {
                before
            } else {
                before.state.clock()
            }
        }
    }

    /// The console one frame later: the audio of the frame is produced
    /// first, then the console runs for as many colour clocks as a frame
    /// has.
    pub open spec fn frame(self) -> Run {
        self.with_audio().clocks(ticks_per_frame_of(self.console) as nat)
    }

    /// The console after the host has asked for a completed frame.
    pub open spec fn frame_taken(self) -> ConsoleState {
        ConsoleState { frame_rendered: false, ..self }
    }
}

/// Whether the adapter of a memory is of the standard `console`.
pub open spec fn of_standard(console: ConsoleType) -> spec_fn(MemoryState) -> bool {
    |m: MemoryState| m.tia.console == console
}

/// No read and no write changes the television standard of the adapter.
pub proof fn lemma_memory_keeps_standard(console: ConsoleType)
    ensures
        kept_by_memory::<VcsMemory>(of_standard(console)),
{
    let inv = of_standard(console);
    assert forall|m: MemoryState, location: u16, byte: u8|
        inv(m) && VcsMemory::takes_write(m, location) implies inv(
        #[trigger] VcsMemory::after_write(m, location, byte),
    ) by {
        lemma_write_keeps_console(m.tia, crate::vcs_memory::tia_write_port(location), byte);
    }
}

/// While the adapter holds the processor, a colour clock changes nothing of
/// the processor.
pub proof fn lemma_held_processor_stands_still(s: ConsoleState)
    requires
        s.memory.tia.w_sync_set,
    ensures
        s.clock().fault.is_none(),
        s.clock().state.cpu == s.cpu,
{
}

/// Once the processor is held, as a write to WSYNC holds it, no instruction
/// is carried out and none is fetched until the beam is next at cycle 3:
/// through all the colour clocks until then the processor stays as it is,
/// and on the clock that brings the beam to cycle 3 it is released.
pub proof fn lemma_wsync_halts_the_processor(s: ConsoleState, n: nat)
    requires
        s.memory.tia.wf(),
        s.memory.tia.w_sync_set,
        n <= s.memory.tia.clocks_to_release(),
    ensures
        s.clocks(n).fault.is_none(),
        s.clocks(n).state.cpu == s.cpu,
        s.clocks(n).state.memory.tia.wf(),
        n < s.memory.tia.clocks_to_release() ==> s.clocks(n).state.memory.tia.w_sync_set
            && s.clocks(n).state.memory.tia.clocks_to_release()
            == s.memory.tia.clocks_to_release() - n,
        n == s.memory.tia.clocks_to_release() ==> !s.clocks(n).state.memory.tia.w_sync_set
            && s.clocks(n).state.memory.tia.cycle == 3,
    decreases n,
{
    if n > 0 {
        lemma_wsync_halts_the_processor(s, (n - 1) as nat);
        let before = s.clocks((n - 1) as nat).state;
        lemma_held_processor_stands_still(before);
        lemma_tick_keeps_wf(before.memory.tia);
    }
}

/// The console with the cartridge in its slot.
pub struct VcsConsole {
    vcs_console_type: VcsConsoleType,
    vcs_audio: VcsAudio,
    cpu: M6502,
    memory: VcsMemory,
    total_ticks: u32,
    ticks_per_frame: u32,
    frame_rendered: bool,
    audio_buffer: Vec<u16>,
}

impl View for VcsConsole {
    type V = ConsoleState;

    closed spec fn view(&self) -> ConsoleState {
        ConsoleState {
            console: self.vcs_console_type@,
            cpu: self.cpu@,
            memory: self.memory@,
            audio: self.vcs_audio@,
            total_ticks: self.total_ticks,
            frame_rendered: self.frame_rendered,
            pcm: self.audio_buffer@,
        }
    }
}

impl VcsConsole {
    /// Whether the console is in a state that its own operations lead to:
    /// its state is, and so are its parts.
    pub open spec fn wf(&self) -> bool {
        &&& self@.wf()
        &&& self.parts_wf()
    }

    /// Whether every part of the console is in a state that its operations
    /// lead to, and the console keeps the length of a frame of its standard.
    pub closed spec fn parts_wf(&self) -> bool {
        &&& self.cpu.wf()
        &&& self.memory.wf()
        &&& self.vcs_audio.wf()
        &&& self.ticks_per_frame == ticks_per_frame_of(self@.console)
    }

    /// The console with the cartridge of `parameters` in its slot, switched
    /// on and reset. An image that does not fill the window it is read
    /// through is refused with `Fault::OutOfBounds`.
    pub fn new(parameters: VcsParameters) -> (r: Result<VcsConsole, Fault>)
        ensures
            r.is_ok() <==> parameters.cart_data@.len() >= if runs_as_4k(parameters.cart_data@) {
                4096int
            } else {
                2048int
            },
            r matches Err(fault) ==> fault == Fault::OutOfBounds,
            r matches Ok(console) ==> console.wf() && console@ == ConsoleState::start(
                parameters.console_type,
                parameters.cart_data@,
                parameters.has_super_chip,
            ),
    {
        let console_type = VcsConsoleType::new(parameters.console_type);
        let riot = VcsRiot::new();
        let tia = VcsTia::new(&console_type);
        let memory = match VcsMemory::new(&parameters, tia, riot) {
            Err(fault) => {
                return Err(fault);
            },
            Ok(memory) => memory,
        };
        let cpu = M6502::new();
        let ticks_per_second: i32 = console_type.ticks_per_second();
        let frames_per_second: u32 = console_type.get_frames_per_second();
        let vcs_audio = VcsAudio::new(frames_per_second);
        let mut console = VcsConsole {
            vcs_console_type: console_type,
            vcs_audio,
            cpu,
            memory,
            total_ticks: 0,
            ticks_per_frame: ticks_per_second as u32 / frames_per_second,
            frame_rendered: false,
            audio_buffer: Vec::new(),
        };
        console.start_up();
        Ok(console)
    }

    /// Resets every part of the console.
    fn start_up(&mut self)
        requires
            old(self).cpu.wf(),
            old(self).memory.wf(),
        ensures
            final(self).cpu.wf(),
            final(self).memory.wf(),
            final(self).vcs_console_type == old(self).vcs_console_type,
            final(self).vcs_audio == old(self).vcs_audio,
            final(self).ticks_per_frame == old(self).ticks_per_frame,
            final(self).frame_rendered == old(self).frame_rendered,
            final(self).audio_buffer == old(self).audio_buffer,
            final(self).total_ticks == 0,
            (final(self).cpu@, final(self).memory@) == ({
                let cpu = reset::<VcsMemory>(old(self).cpu@, old(self).memory@);
                (cpu.0, MemoryState { riot: cpu.1.riot.reset(), tia: cpu.1.tia.reset(), ..cpu.1 })
            }),
    {
        self.cpu.reset(&mut self.memory);
        self.memory.vcs_riot.reset();
        self.memory.vcs_tia.reset();
        self.total_ticks = 0;
    }

    /// Produces the audio of the coming frame.
    fn mix_audio(&mut self)
        requires
            old(self).wf(),
        ensures
            final(self).wf(),
            final(self)@ == old(self)@.with_audio(),
    {
        self.vcs_audio.execute_tick(&self.memory.vcs_tia);
        let ghost set = self.vcs_audio@;
        let left = self.vcs_audio.get_audio_buffer(0);
        let right = self.vcs_audio.get_audio_buffer(1);
        let size = left.len();
        let mut mix: Vec<u16> = Vec::with_capacity(size);
        let mut i: usize = 0;
        while i < size
            invariant
                i <= size,
                size == left@.len(),
                size == right@.len(),
                mix@.len() == i,
                forall|j: int| 0 <= j < i ==> mix@[j] == (left@[j] / 2 + right@[j] / 2) as u16,
            decreases size - i,
        {
            mix.push(left[i] / 2 + right[i] / 2);
            i += 1;
        }
        self.audio_buffer = mix;
        proof {
            let n = set.samples_per_frame();
            let first = Seq::new(n, |i: int| set.channels[0].sample(i as nat));
            let second = Seq::new(n, |i: int| set.channels[1].sample(i as nat));
            assert(set.after_frame(0).channels[1] == set.channels[1]);
            assert(left@ =~= first);
            assert(right@ =~= second);
            assert(self.audio_buffer@ =~= mixed(first, second));
        }
    }

    /// Runs the console for one colour clock.
    fn run_clock(&mut self) -> (r: Result<(), Fault>)
        requires
            old(self).wf(),
        ensures
            match old(self)@.clock().fault {
                Some(fault) => r == Err::<(), Fault>(fault),
                None => r.is_ok() && final(self).wf() && final(self)@ == old(self)@.clock().state,
            },
    {
        proof {
            lemma_memory_keeps_standard(self@.console);
            lemma_tick_keeps::<VcsMemory>(self@.cpu, self@.memory, of_standard(self@.console));
        }
        if self.total_ticks % 3 == 0 {
            if !self.memory.vcs_tia.is_cpu_blocked() {
                match self.cpu.execute_tick(&mut self.memory) {
                    Err(fault) => {
                        return Err(fault);
                    },
                    Ok(()) => {},
                }
            }
            self.memory.vcs_riot.execute_tick();
        }
        proof {
            lemma_tick_keeps_wf(self.memory.vcs_tia@);
        }
        self.memory.vcs_tia.execute_tick();
        if self.memory.vcs_tia.repaint() {
            self.frame_rendered = true;
        }
        self.total_ticks = if self.total_ticks == u32::MAX {
            0
        } else {
            self.total_ticks + 1
        };
        Ok(())
    }

    /// Runs the console for one frame. A fault of the running program ends
    /// the session: after it the console is not to be run on.
    pub fn start_next_frame(&mut self) -> (r: Result<(), Fault>)
        requires
            old(self).wf(),
        ensures
            match old(self)@.frame().fault {
                Some(fault) => r == Err::<(), Fault>(fault),
                None => r.is_ok() && final(self).wf() && final(self)@ == old(self)@.frame().state,
            },
            r.is_ok() ==> final(self)@.console == old(self)@.console,
            r.is_ok() ==> final(self)@.pcm.len() == 48000int / frames_per_second_of(
                old(self)@.console,
            ),
    {
        self.mix_audio();
        let ghost start = self@;
        let ticks: u32 = self.ticks_per_frame;
        let mut frame_ticks: u32 = 0;
        while frame_ticks < ticks
            invariant
                self.wf(),
                frame_ticks <= ticks,
                ticks == ticks_per_frame_of(start.console),
                start == old(self)@.with_audio(),
                self@.console == start.console,
                self@.pcm == start.pcm,
                start.clocks(frame_ticks as nat) == (Run { state: self@, fault: None }),
            decreases ticks - frame_ticks,
        {
            let ghost before = self@;
            assert(start.clocks((frame_ticks + 1) as nat) == before.clock());
            match self.run_clock() {
                Err(fault) => {
                    proof {
                        assert(before.clock().fault == Some(fault));
                        lemma_fault_ends_run(start, (frame_ticks + 1) as nat, ticks as nat);
                        assert(start.clocks(ticks as nat) == before.clock());
                        assert(start == old(self)@.with_audio());
                        assert(old(self)@.frame() == start.clocks(ticks as nat));
                    }
                    return Err(fault);
                },
                Ok(()) => {},
            }
            frame_ticks += 1;
        }
        Ok(())
    }

    /// Takes an input of the player.
    pub fn handle_input(&mut self, message: Message, value: i8)
        requires
            old(self).wf(),
        ensures
            final(self).wf(),
            final(self)@ == old(self)@.handle_input(message, value),
    {
        match message {
            Message::Select => self.memory.vcs_riot.select_pressed(value != 0),
            Message::Reset => self.memory.vcs_riot.reset_pressed(value != 0),
            Message::P0UpDown => self.memory.vcs_riot.left_controller_up_down(value),
            Message::P0LeftRight => self.memory.vcs_riot.left_controller_left_right(value),
            Message::P0Trigger => self.memory.vcs_tia.left_controller_trigger(value != 0),
        }
    }

    /// Takes a key of the keyboard going down (`pressed`) or up.
    pub fn input_check(&mut self, key: Key, pressed: bool)
        requires
            old(self).wf(),
        ensures
            final(self).wf(),
            final(self)@ == old(self)@.input_check(key, pressed),
    {
        match key {
            Key::A => {
                if pressed {
                    self.memory.vcs_riot.select_pressed(true);
                } else {
                    self.memory.vcs_riot.select_pressed(false);
                }
            },
            Key::S => {
                if pressed {
                    self.memory.vcs_riot.reset_pressed(true);
                } else {
                    self.memory.vcs_riot.reset_pressed(false);
                }
            },
            Key::ArrowUp => {
                if pressed {
                    self.memory.vcs_riot.left_controller_up_down(1);
                } else {
                    self.memory.vcs_riot.left_controller_up_down(0);
                }
            },
            Key::ArrowDown => {
                if pressed {
                    self.memory.vcs_riot.left_controller_up_down(-1);
                } else {
                    self.memory.vcs_riot.left_controller_up_down(0);
                }
            },
            Key::ArrowLeft => {
                if pressed {
                    self.memory.vcs_riot.left_controller_left_right(-1);
                } else {
                    self.memory.vcs_riot.left_controller_left_right(0);
                }
            },
            Key::ArrowRight => {
                if pressed {
                    self.memory.vcs_riot.left_controller_left_right(1);
                } else {
                    self.memory.vcs_riot.left_controller_left_right(0);
                }
            },
            Key::Space => {
                if pressed {
                    self.memory.vcs_tia.left_controller_trigger(true);
                } else {
                    self.memory.vcs_tia.left_controller_trigger(false);
                }
            },
            Key::Other => {},
        }
    }

    /// Whether a frame has been completed since the last call, together
    /// with the frame displayed. The call takes the frame: the next call
    /// says `false` until another frame is complete.
    pub fn is_frame_rendered(&mut self) -> (r: (bool, Vec<u8>))
        requires
            old(self).wf(),
        ensures
            final(self).wf(),
            r.0 == old(self)@.frame_rendered,
            r.1@ == old(self)@.memory.tia.screen_display,
            r.1@.len() == old(self)@.frame_bytes(),
            final(self)@ == old(self)@.frame_taken(),
    {
        let rendered = self.frame_rendered;
        self.frame_rendered = false;
        (rendered, self.memory.vcs_tia.get_screen())
    }

    /// The audio samples of the frame that was started last.
    pub fn get_audio_buffer(&self) -> (buffer: Vec<u16>)
        ensures
            buffer@ == self@.pcm,
    {
        self.audio_buffer.clone()
    }

    /// The processor, to look at its registers.
    pub fn get_cpu(&self) -> (cpu: &M6502)
        ensures
            cpu@ == self@.cpu,
    {
        &self.cpu
    }

    /// The memory, to look at its parts.
    pub fn get_memory(&self) -> (memory: &VcsMemory)
        ensures
            memory@ == self@.memory,
    {
        &self.memory
    }

    /// Reads the byte at `location` as the processor would, with all that
    /// such a read does to the memory.
    pub fn read_memory(&mut self, location: u16) -> (byte: u8)
        requires
            old(self).wf(),
        ensures
            final(self).wf(),
            byte == old(self)@.memory.read(location),
            final(self)@ == (ConsoleState {
                memory: old(self)@.memory.after_read(location),
                ..old(self)@
            }),
    {
        self.memory.cpu_read(location)
    }
}

/// A run that has met a fault stays at that fault however long it goes on.
pub proof fn lemma_fault_ends_run(s: ConsoleState, n: nat, longer: nat)
    requires
        n <= longer,
        s.clocks(n).fault.is_some(),
    ensures
        s.clocks(longer) == s.clocks(n),
    decreases longer,
{
    if n < longer {
        lemma_fault_ends_run(s, n, (longer - 1) as nat);
    }
}

} // verus!
