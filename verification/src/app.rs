use vstd::prelude::*;

use crate::audio::{AudioDevice, ChannelMode};
use crate::pitch::Algorithm;
use crate::presets::{InstrumentString, guitar_strings, mandolin_strings, tuning_view, mandolin_tuning, guitar_tuning};

verus! {

/// Tuning mode: free (any note) or one of the preset instruments.
#[derive(Debug, Clone, Copy, PartialEq, Eq, Structural)]
pub enum Mode {
    Free,
    Mandolin,
    Guitar,
}

impl Mode {
    pub open spec fn spec_next(self) -> Mode {
        match self {
            Mode::Free => Mode::Mandolin,
            Mode::Mandolin => Mode::Guitar,
            Mode::Guitar => Mode::Free,
        }
    }

    pub open spec fn spec_prev(self) -> Mode {
        match self {
            Mode::Free => Mode::Guitar,
            Mode::Mandolin => Mode::Free,
            Mode::Guitar => Mode::Mandolin,
        }
    }

    /// The strings of the mode's instrument as plain values; `None` in free mode.
    pub open spec fn tuning(self) -> Option<Seq<(Seq<char>, i32)>> {
        match self {
            Mode::Free => None,
            Mode::Mandolin => Some(mandolin_tuning()),
            Mode::Guitar => Some(guitar_tuning()),
        }
    }

    /// How many strings the mode's instrument has; 0 in free mode.
    pub open spec fn string_count(self) -> nat {
        match self {
            Mode::Free => 0,
            Mode::Mandolin => 4,
            Mode::Guitar => 6,
        }
    }

    pub fn next(self) -> (r: Self)
        ensures
            r == self.spec_next(),
    {
        match self {
            Mode::Free => Mode::Mandolin,
            Mode::Mandolin => Mode::Guitar,
            Mode::Guitar => Mode::Free,
        }
    }

    pub fn prev(self) -> (r: Self)
        ensures
            r == self.spec_prev(),
    {
        match self {
            Mode::Free => Mode::Guitar,
            Mode::Mandolin => Mode::Free,
            Mode::Guitar => Mode::Mandolin,
        }
    }

    /// The strings of the mode's instrument, low to high; `None` in free mode.
    pub fn strings(self) -> (r: Option<Vec<InstrumentString>>)
        ensures
            r is None <==> self.tuning() is None,
            r matches Some(v) ==> self.tuning() == Some(tuning_view(v@)),
    {
        match self {
            Mode::Free => None,
            Mode::Mandolin => Some(mandolin_strings()),
            Mode::Guitar => Some(guitar_strings()),
        }
    }

    /// Label of the mode as shown in the interface.
    pub fn label(self) -> (r: &'static str)
        ensures
            r@ == self.spec_label(),
    {
        proof {
            reveal_strlit("Free");
            reveal_strlit("Mandolin");
            reveal_strlit("Guitar");
        }
        match self {
            Mode::Free => "Free",
            Mode::Mandolin => "Mandolin",
            Mode::Guitar => "Guitar",
        }
    }

    pub open spec fn spec_label(self) -> Seq<char> {
        match self {
            Mode::Free => seq!['F', 'r', 'e', 'e'],
            Mode::Mandolin => seq!['M', 'a', 'n', 'd', 'o', 'l', 'i', 'n'],
            Mode::Guitar => seq!['G', 'u', 'i', 't', 'a', 'r'],
        }
    }
}

/// The number of strings is the length of the mode's tuning.
pub proof fn lemma_string_count(m: Mode)
    ensures
        m.tuning() matches Some(t) ==> t.len() == m.string_count(),
        m.tuning() is None <==> m.string_count() == 0,
{
}

/// `prev` undoes `next` and `next` undoes `prev`; three steps of either
/// come back to the start.
pub proof fn lemma_mode_cycle(m: Mode)
    ensures
        m.spec_next().spec_prev() == m,
        m.spec_prev().spec_next() == m,
        m.spec_next().spec_next().spec_next() == m,
        m.spec_prev().spec_prev().spec_prev() == m,
{
}

/// Which row of the interface the arrow keys act on.
#[derive(Debug, Clone, Copy, PartialEq, Eq, Structural)]
pub enum Selector {
    Input,
    Channel,
    Algorithm,
    Mode,
    StringNote,
}

impl Selector {
    pub open spec fn spec_next(self) -> Selector {
        match self {
            Selector::Input => Selector::Channel,
            Selector::Channel => Selector::Algorithm,
            Selector::Algorithm => Selector::Mode,
            Selector::Mode => Selector::StringNote,
            Selector::StringNote => Selector::Input,
        }
    }

    pub open spec fn spec_prev(self) -> Selector {
        match self {
            Selector::Input => Selector::StringNote,
            Selector::Channel => Selector::Input,
            Selector::Algorithm => Selector::Channel,
            Selector::Mode => Selector::Algorithm,
            Selector::StringNote => Selector::Mode,
        }
    }

    pub fn next(self) -> (r: Self)
        ensures
            r == self.spec_next(),
    {
        match self {
            Selector::Input => Selector::Channel,
            Selector::Channel => Selector::Algorithm,
            Selector::Algorithm => Selector::Mode,
            Selector::Mode => Selector::StringNote,
            Selector::StringNote => Selector::Input,
        }
    }

    pub fn prev(self) -> (r: Self)
        ensures
            r == self.spec_prev(),
    {
        match self {
            Selector::Input => Selector::StringNote,
            Selector::Channel => Selector::Input,
            Selector::Algorithm => Selector::Channel,
            Selector::Mode => Selector::Algorithm,
            Selector::StringNote => Selector::Mode,
        }
    }
}

/// `prev` undoes `next` and `next` undoes `prev`; five steps come back to
/// the start.
pub proof fn lemma_selector_cycle(s: Selector)
    ensures
        s.spec_next().spec_prev() == s,
        s.spec_prev().spec_next() == s,
        s.spec_next().spec_next().spec_next().spec_next().spec_next() == s,
{
}

/// What the program around the state has to do after a transition.
#[derive(Debug, Clone, Copy, PartialEq, Eq, Structural)]
pub enum Action {
    /// Nothing beyond the change of state.
    Nothing,
    /// Ask the device at this index for its channel count, then hand it to
    /// `App::select_device`.
    QueryDevice(usize),
    /// Start audio capture again with the current device and channel mode.
    RestartAudio,
    /// Forget the smoothed frequency, then start audio capture again.
    ResetSmoothingAndRestartAudio,
    /// Build a detector for this algorithm and forget the smoothed frequency.
    ReplaceDetector(Algorithm),
}

/// A key press, as far as the tuner tells keys apart.
#[derive(Debug, Clone, Copy, PartialEq, Eq, Structural)]
pub enum Key {
    Char { c: char, control: bool },
    Tab { shift: bool },
    BackTab,
    Left,
    Right,
    Other,
}

/// The channel mode that follows `m` on a device with `channels` channels:
/// all channels, then each channel in turn, then all channels again.
pub open spec fn spec_next_channel(m: ChannelMode, channels: u16) -> ChannelMode {
    match m {
        ChannelMode::All => if channels > 1 {
            ChannelMode::Single(0)
        } else {
            ChannelMode::All
        },
        ChannelMode::Single(ch) => if ch + 1 < channels {
            ChannelMode::Single((ch + 1) as u16)
        } else {
            ChannelMode::All
        },
    }
}

/// The channel mode that precedes `m` on a device with `channels` channels.
pub open spec fn spec_prev_channel(m: ChannelMode, channels: u16) -> ChannelMode {
    match m {
        ChannelMode::All => if channels > 1 {
            ChannelMode::Single((channels - 1) as u16)
        } else {
            ChannelMode::All
        },
        ChannelMode::Single(ch) => if ch == 0 {
            ChannelMode::All
        } else {
            ChannelMode::Single((ch - 1) as u16)
        },
    }
}

/// A single channel is only ever chosen on a device with several channels,
/// and it is one of them.
pub open spec fn channel_within(m: ChannelMode, channels: u16) -> bool {
    m matches ChannelMode::Single(ch) ==> 1 < channels && ch < channels
}

/// Index after `i` in a ring of `n` entries.
pub open spec fn ring_next(i: int, n: int) -> int {
    (i + 1) % n
}

/// Index before `i` in a ring of `n` entries.
pub open spec fn ring_prev(i: int, n: int) -> int {
    if i == 0 {
        n - 1
    } else {
        i - 1
    }
}

/// The interface state as plain values.
pub struct AppView {
    pub running: bool,
    pub devices: Seq<Seq<char>>,
    pub selected_device: usize,
    pub channel_mode: ChannelMode,
    pub device_channels: u16,
    pub algorithm: Algorithm,
    pub mode: Mode,
    pub selected_string: usize,
    pub sample_rate: u32,
    pub closest_string_index: Option<usize>,
    pub active_selector: Selector,
}

impl AppView {
    /// The state is consistent: the selected device is listed (or index 0
    /// when none is), the channel mode fits the device, and the selected
    /// string belongs to the instrument (index 0 in free mode).
    pub open spec fn wf(self) -> bool {
        &&& self.devices.len() <= usize::MAX
        &&& (self.devices.len() == 0 ==> self.selected_device == 0)
        &&& (self.devices.len() > 0 ==> self.selected_device < self.devices.len())
        &&& channel_within(self.channel_mode, self.device_channels)
        &&& (self.mode.string_count() == 0 ==> self.selected_string == 0)
        &&& (self.mode.string_count() > 0 ==> self.selected_string < self.mode.string_count())
    }

    /// After `cycle_algorithm`.
    pub open spec fn cycled_algorithm(self) -> AppView {
        AppView { algorithm: self.algorithm.spec_next(), ..self }
    }

    /// The device that `next_device` asks for, if any device is listed.
    pub open spec fn next_device_action(self) -> Action {
        if self.devices.len() == 0 {
            Action::Nothing
        } else {
            Action::QueryDevice(ring_next(self.selected_device as int, self.devices.len() as int) as usize)
        }
    }

    /// The device that `prev_device` asks for, if any device is listed.
    pub open spec fn prev_device_action(self) -> Action {
        if self.devices.len() == 0 {
            Action::Nothing
        } else {
            Action::QueryDevice(ring_prev(self.selected_device as int, self.devices.len() as int) as usize)
        }
    }

    /// After `select_device(index, channels)`: a listed device becomes the
    /// selected one, with its channel count and all channels mixed.
    pub open spec fn selected(self, index: usize, channels: u16) -> AppView {
        if index < self.devices.len() {
            AppView {
                selected_device: index,
                device_channels: channels,
                channel_mode: ChannelMode::All,
                ..self
            }
        } else {
            self
        }
    }

    pub open spec fn select_action(self, index: usize) -> Action {
        if index < self.devices.len() {
            Action::ResetSmoothingAndRestartAudio
        } else {
            Action::Nothing
        }
    }

    /// After `next_channel`.
    pub open spec fn next_channel(self) -> AppView {
        AppView { channel_mode: spec_next_channel(self.channel_mode, self.device_channels), ..self }
    }

    /// After `prev_channel`.
    pub open spec fn prev_channel(self) -> AppView {
        AppView { channel_mode: spec_prev_channel(self.channel_mode, self.device_channels), ..self }
    }

    /// After `next_string`: the next string of the instrument, wrapping
    /// around; nothing changes in free mode.
    pub open spec fn next_string(self) -> AppView {
        if self.mode.string_count() > 0 {
            AppView {
                selected_string: ring_next(
                    self.selected_string as int,
                    self.mode.string_count() as int,
                ) as usize,
                ..self
            }
        } else {
            self
        }
    }

    /// After `prev_string`.
    pub open spec fn prev_string(self) -> AppView {
        if self.mode.string_count() > 0 {
            AppView {
                selected_string: ring_prev(
                    self.selected_string as int,
                    self.mode.string_count() as int,
                ) as usize,
                ..self
            }
        } else {
            self
        }
    }

    /// After `set_mode(mode)`: the mode changes and the first string is selected.
    pub open spec fn with_mode(self, mode: Mode) -> AppView {
        AppView { mode, selected_string: 0, ..self }
    }

    /// After `handle_left`.
    pub open spec fn left(self) -> AppView {
        match self.active_selector {
            Selector::Input => self,
            Selector::Channel => self.prev_channel(),
            Selector::Algorithm => self.cycled_algorithm(),
            Selector::Mode => self.with_mode(self.mode.spec_prev()),
            Selector::StringNote => self.prev_string(),
        }
    }

    /// What `handle_left` asks of the program around the state.
    pub open spec fn left_action(self) -> Action {
        match self.active_selector {
            Selector::Input => self.prev_device_action(),
            Selector::Channel => Action::RestartAudio,
            Selector::Algorithm => Action::ReplaceDetector(self.algorithm.spec_next()),
            Selector::Mode => Action::Nothing,
            Selector::StringNote => Action::Nothing,
        }
    }

    /// After `handle_right`.
    pub open spec fn right(self) -> AppView {
        match self.active_selector {
            Selector::Input => self,
            Selector::Channel => self.next_channel(),
            Selector::Algorithm => self.cycled_algorithm(),
            Selector::Mode => self.with_mode(self.mode.spec_next()),
            Selector::StringNote => self.next_string(),
        }
    }

    /// What `handle_right` asks of the program around the state.
    pub open spec fn right_action(self) -> Action {
        match self.active_selector {
            Selector::Input => self.next_device_action(),
            Selector::Channel => Action::RestartAudio,
            Selector::Algorithm => Action::ReplaceDetector(self.algorithm.spec_next()),
            Selector::Mode => Action::Nothing,
            Selector::StringNote => Action::Nothing,
        }
    }

    /// After a key press: `q` or control-`c` stop the program, tab and
    /// shift-tab (or back-tab) move between rows, the arrows change the
    /// active row's choice.
    pub open spec fn after_key(self, key: Key) -> AppView {
        match key {
            Key::Char { c, control } => if c == 'q' || (c == 'c' && control) {
                AppView { running: false, ..self }
            } else {
                self
            },
            Key::Tab { shift } => if shift {
                AppView { active_selector: self.active_selector.spec_prev(), ..self }
            } else {
                AppView { active_selector: self.active_selector.spec_next(), ..self }
            },
            Key::BackTab => AppView { active_selector: self.active_selector.spec_prev(), ..self },
            Key::Left => self.left(),
            Key::Right => self.right(),
            Key::Other => self,
        }
    }

    pub open spec fn key_action(self, key: Key) -> Action {
        match key {
            Key::Left => self.left_action(),
            Key::Right => self.right_action(),
            _ => Action::Nothing,
        }
    }

    /// What the transitions must not overflow on: the indices they step
    /// from are below the largest `usize` and the channel below the largest
    /// `u16`. Every consistent state meets it.
    pub open spec fn steppable(self) -> bool {
        &&& self.device_steppable()
        &&& self.string_steppable()
        &&& self.channel_steppable()
    }

    /// The device index can be stepped forward when a device is listed.
    pub open spec fn device_steppable(self) -> bool {
        self.devices.len() > 0 ==> self.selected_device < usize::MAX
    }

    /// The string index can be stepped forward in an instrument mode.
    pub open spec fn string_steppable(self) -> bool {
        self.mode.string_count() > 0 ==> self.selected_string < usize::MAX
    }

    /// A single channel can be stepped forward.
    pub open spec fn channel_steppable(self) -> bool {
        self.channel_mode matches ChannelMode::Single(ch) ==> ch < u16::MAX
    }

    /// The right arrow can act on the active row without overflow.
    pub open spec fn right_steppable(self) -> bool {
        match self.active_selector {
            Selector::Input => self.device_steppable(),
            Selector::Channel => self.channel_steppable(),
            Selector::StringNote => self.string_steppable(),
            _ => true,
        }
    }

    /// The key can be handled without overflow: only the right arrow steps
    /// an index forward.
    pub open spec fn key_steppable(self, key: Key) -> bool {
        key == Key::Right ==> self.right_steppable()
    }
}

/// The tuner's interface state: which device, channel, algorithm, mode and
/// string are chosen, and which row the arrow keys act on. Audio capture,
/// pitch detection and drawing are done by the program around it, which
/// performs the `Action` that each transition returns.
pub struct App {
    pub running: bool,
    pub devices: Vec<AudioDevice>,
    pub selected_device: usize,
    pub channel_mode: ChannelMode,
    pub device_channels: u16,
    pub algorithm: Algorithm,
    pub mode: Mode,
    pub selected_string: usize,
    pub sample_rate: u32,
    pub closest_string_index: Option<usize>,
    pub active_selector: Selector,
}

/// The names of a list of devices.
pub open spec fn device_names(devices: Seq<AudioDevice>) -> Seq<Seq<char>> {
    devices.map_values(|d: AudioDevice| d.name@)
}

impl App {
    pub open spec fn view(&self) -> AppView {
        AppView {
            running: self.running,
            devices: device_names(self.devices@),
            selected_device: self.selected_device,
            channel_mode: self.channel_mode,
            device_channels: self.device_channels,
            algorithm: self.algorithm,
            mode: self.mode,
            selected_string: self.selected_string,
            sample_rate: self.sample_rate,
            closest_string_index: self.closest_string_index,
            active_selector: self.active_selector,
        }
    }

    /// A fresh state: running, all channels mixed, YIN, free mode, first
    /// string, 44100 Hz, nothing detected, the input row active.
    pub fn new(devices: Vec<AudioDevice>, selected_device: usize, device_channels: u16) -> (r: App)
        ensures
            r@ == (AppView {
                running: true,
                devices: device_names(devices@),
                selected_device,
                channel_mode: ChannelMode::All,
                device_channels,
                algorithm: Algorithm::Yin,
                mode: Mode::Free,
                selected_string: 0,
                sample_rate: 44100,
                closest_string_index: None,
                active_selector: Selector::Input,
            }),
            r.devices@ == devices@,
    {
        App {
            running: true,
            devices,
            selected_device,
            channel_mode: ChannelMode::All,
            device_channels,
            algorithm: Algorithm::Yin,
            mode: Mode::Free,
            selected_string: 0,
            sample_rate: 44100,
            closest_string_index: None,
            active_selector: Selector::Input,
        }
    }

    /// Switch to the algorithm after the current one.
    pub fn cycle_algorithm(&mut self) -> (r: Action)
        ensures
            final(self)@ == old(self)@.cycled_algorithm(),
            final(self).devices@ == old(self).devices@,
            r == Action::ReplaceDetector(old(self).algorithm.spec_next()),
    {
        self.algorithm = self.algorithm.next();
        Action::ReplaceDetector(self.algorithm)
    }

    /// Make the device at `index` the selected one, given its channel count,
    /// when it is listed; all channels are mixed on the new device.
    pub fn select_device(&mut self, index: usize, channels: u16) -> (r: Action)
        ensures
            final(self)@ == old(self)@.selected(index, channels),
            final(self).devices@ == old(self).devices@,
            r == old(self)@.select_action(index),
    {
        if index < self.devices.len() {
            self.selected_device = index;
            self.device_channels = channels;
            self.channel_mode = ChannelMode::All;
            Action::ResetSmoothingAndRestartAudio
        } else {
            Action::Nothing
        }
    }

    /// Ask for the device after the selected one, wrapping around.
    pub fn next_device(&self) -> (r: Action)
        requires
            self@.device_steppable(),
        ensures
            r == self@.next_device_action(),
    {
        if !self.devices.is_empty() {
            let next = (self.selected_device + 1) % self.devices.len();
            Action::QueryDevice(next)
        } else {
            Action::Nothing
        }
    }

    /// Ask for the device before the selected one, wrapping around.
    pub fn prev_device(&self) -> (r: Action)
        ensures
            r == self@.prev_device_action(),
    {
        if !self.devices.is_empty() {
            let prev = if self.selected_device == 0 {
                self.devices.len() - 1
            } else {
                self.selected_device - 1
            };
            Action::QueryDevice(prev)
        } else {
            Action::Nothing
        }
    }

    /// Step to the next channel mode and restart capture.
    pub fn next_channel(&mut self) -> (r: Action)
        requires
            old(self)@.channel_steppable(),
        ensures
            final(self)@ == old(self)@.next_channel(),
            final(self).devices@ == old(self).devices@,
            r == Action::RestartAudio,
    {
        self.channel_mode = match self.channel_mode {
            ChannelMode::All => {
                if self.device_channels > 1 {
                    ChannelMode::Single(0)
                } else {
                    ChannelMode::All
                }
            },
            ChannelMode::Single(ch) => {
                if ch + 1 < self.device_channels {
                    ChannelMode::Single(ch + 1)
                } else {
                    ChannelMode::All
                }
            },
        };
        Action::RestartAudio
    }

    /// Step to the previous channel mode and restart capture.
    pub fn prev_channel(&mut self) -> (r: Action)
        ensures
            final(self)@ == old(self)@.prev_channel(),
            final(self).devices@ == old(self).devices@,
            r == Action::RestartAudio,
    {
        self.channel_mode = match self.channel_mode {
            ChannelMode::All => {
                if self.device_channels > 1 {
                    ChannelMode::Single(self.device_channels - 1)
                } else {
                    ChannelMode::All
                }
            },
            ChannelMode::Single(0) => ChannelMode::All,
            ChannelMode::Single(ch) => ChannelMode::Single(ch - 1),
        };
        Action::RestartAudio
    }

    /// Select the next string of the instrument, wrapping around.
    pub fn next_string(&mut self)
        requires
            old(self)@.string_steppable(),
        ensures
            final(self)@ == old(self)@.next_string(),
            final(self).devices@ == old(self).devices@,
    {
        if let Some(strings) = self.mode.strings() {
            assert(tuning_view(strings@).len() == strings@.len());
            assert(strings@.len() == self.mode.string_count());
            self.selected_string = (self.selected_string + 1) % strings.len();
        }
    }

    /// Select the previous string of the instrument, wrapping around.
    pub fn prev_string(&mut self)
        ensures
            final(self)@ == old(self)@.prev_string(),
            final(self).devices@ == old(self).devices@,
    {
        if let Some(strings) = self.mode.strings() {
            assert(tuning_view(strings@).len() == strings@.len());
            assert(strings@.len() == self.mode.string_count());
            if self.selected_string == 0 {
                self.selected_string = strings.len() - 1;
            } else {
                self.selected_string -= 1;
            }
        }
    }

    /// Switch mode and select the first string.
    pub fn set_mode(&mut self, mode: Mode)
        ensures
            final(self)@ == old(self)@.with_mode(mode),
            final(self).devices@ == old(self).devices@,
    {
        self.mode = mode;
        self.selected_string = 0;
    }

    /// The left arrow: the previous choice on the active row.
    pub fn handle_left(&mut self) -> (r: Action)
        ensures
            final(self)@ == old(self)@.left(),
            final(self).devices@ == old(self).devices@,
            r == old(self)@.left_action(),
    {
        match self.active_selector {
            Selector::Input => self.prev_device(),
            Selector::Channel => self.prev_channel(),
            Selector::Algorithm => self.cycle_algorithm(),
            Selector::Mode => {
                let prev = self.mode.prev();
                self.set_mode(prev);
                Action::Nothing
            },
            Selector::StringNote => {
                self.prev_string();
                Action::Nothing
            },
        }
    }

    /// The right arrow: the next choice on the active row.
    pub fn handle_right(&mut self) -> (r: Action)
        requires
            old(self)@.right_steppable(),
        ensures
            final(self)@ == old(self)@.right(),
            final(self).devices@ == old(self).devices@,
            r == old(self)@.right_action(),
    {
        match self.active_selector {
            Selector::Input => self.next_device(),
            Selector::Channel => self.next_channel(),
            Selector::Algorithm => self.cycle_algorithm(),
            Selector::Mode => {
                let next = self.mode.next();
                self.set_mode(next);
                Action::Nothing
            },
            Selector::StringNote => {
                self.next_string();
                Action::Nothing
            },
        }
    }

    /// React to a key press.
    pub fn handle_key(&mut self, key: Key) -> (r: Action)
        requires
            old(self)@.key_steppable(key),
        ensures
            final(self)@ == old(self)@.after_key(key),
            final(self).devices@ == old(self).devices@,
            r == old(self)@.key_action(key),
    {
        match key {
            Key::Char { c, control } => {
                if c == 'q' || (c == 'c' && control) {
                    self.running = false;
                }
                Action::Nothing
            },
            Key::Tab { shift } => {
                if shift {
                    self.active_selector = self.active_selector.prev();
                } else {
                    self.active_selector = self.active_selector.next();
                }
                Action::Nothing
            },
            Key::BackTab => {
                self.active_selector = self.active_selector.prev();
                Action::Nothing
            },
            Key::Left => self.handle_left(),
            Key::Right => self.handle_right(),
            Key::Other => Action::Nothing,
        }
    }
}

/// A consistent state can take every step without overflow.
pub proof fn lemma_wf_steppable(s: AppView)
    requires
        s.wf(),
    ensures
        s.steppable(),
        s.right_steppable(),
        forall|key: Key| #[trigger] s.key_steppable(key),
{
}

/// Every transition keeps the state consistent: whichever device is
/// selected, whatever the key, the channel stays within the device and the
/// selected string within the instrument.
pub proof fn lemma_transitions_keep_wf(s: AppView, index: usize, channels: u16, mode: Mode, key: Key)
    requires
        s.wf(),
    ensures
        s.cycled_algorithm().wf(),
        s.selected(index, channels).wf(),
        s.next_channel().wf(),
        s.prev_channel().wf(),
        s.next_string().wf(),
        s.prev_string().wf(),
        s.with_mode(mode).wf(),
        s.left().wf(),
        s.right().wf(),
        s.after_key(key).wf(),
{
}

/// The devices that the arrows ask for are listed ones, and the previous
/// device of the next one (and the next of the previous) is the selected one.
pub proof fn lemma_device_steps(s: AppView)
    requires
        s.wf(),
        s.devices.len() > 0,
    ensures
        s.next_device_action() matches Action::QueryDevice(i) && i < s.devices.len()
            && ring_prev(i as int, s.devices.len() as int) == s.selected_device,
        s.prev_device_action() matches Action::QueryDevice(i) && i < s.devices.len()
            && ring_next(i as int, s.devices.len() as int) == s.selected_device,
{
    let n = s.devices.len() as int;
    let i = s.selected_device as int;
    if i + 1 < n {
        assert((i + 1) % n == i + 1) by {
            vstd::arithmetic::div_mod::lemma_small_mod((i + 1) as nat, n as nat);
        }
    } else {
        assert((i + 1) % n == 0) by {
            vstd::arithmetic::div_mod::lemma_mod_self_0(n);
        }
    }
    if i == 0 {
        assert(n % n == 0) by {
            vstd::arithmetic::div_mod::lemma_mod_self_0(n);
        }
    } else {
        assert(i % n == i) by {
            vstd::arithmetic::div_mod::lemma_small_mod(i as nat, n as nat);
        }
    }
}

/// Stepping the channel forward and back (or back and forward) returns to
/// the channel mode it started from.
pub proof fn lemma_channel_steps_undo(s: AppView)
    requires
        s.wf(),
    ensures
        s.next_channel().prev_channel() == s,
        s.prev_channel().next_channel() == s,
{
}

/// Stepping the string forward and back (or back and forward) returns to
/// the string it started from.
pub proof fn lemma_string_steps_undo(s: AppView)
    requires
        s.wf(),
    ensures
        s.next_string().prev_string() == s,
        s.prev_string().next_string() == s,
{
    let n = s.mode.string_count() as int;
    let i = s.selected_string as int;
    if n > 0 {
        if i + 1 < n {
            assert((i + 1) % n == i + 1) by {
                vstd::arithmetic::div_mod::lemma_small_mod((i + 1) as nat, n as nat);
            }
        } else {
            assert((i + 1) % n == 0) by {
                vstd::arithmetic::div_mod::lemma_mod_self_0(n);
            }
        }
        if i == 0 {
            assert(n % n == 0) by {
                vstd::arithmetic::div_mod::lemma_mod_self_0(n);
            }
        } else {
            assert(i % n == i) by {
                vstd::arithmetic::div_mod::lemma_small_mod(i as nat, n as nat);
            }
        }
        assert(s.next_string().prev_string() =~= s);
        assert(s.prev_string().next_string() =~= s);
    }
}

/// On the mode row, right then left (or left then right) brings back the
/// mode, with the first string selected.
pub proof fn lemma_mode_row_undo(s: AppView)
    requires
        s.active_selector == Selector::Mode,
    ensures
        s.right().left() == s.with_mode(s.mode),
        s.left().right() == s.with_mode(s.mode),
{
}

/// Tab five times (or shift-tab five times) comes back to the same row,
/// and tab then shift-tab changes nothing.
pub proof fn lemma_tab_cycle(s: AppView)
    ensures
        s.after_key(Key::Tab { shift: false }).after_key(Key::Tab { shift: true }) == s,
        s.after_key(Key::Tab { shift: false }).after_key(Key::Tab { shift: false }).after_key(
            Key::Tab { shift: false },
        ).after_key(Key::Tab { shift: false }).after_key(Key::Tab { shift: false }) == s,
        s.after_key(Key::BackTab).after_key(Key::BackTab).after_key(Key::BackTab).after_key(
            Key::BackTab,
        ).after_key(Key::BackTab) == s,
{
}

/// Only `q` and control-`c` stop the program; they always do.
pub proof fn lemma_quit_keys(s: AppView, key: Key)
    ensures
        !s.after_key(key).running <==> (!s.running || key == (Key::Char { c: 'q', control: false })
            || key == (Key::Char { c: 'q', control: true }) || key == (Key::Char {
            c: 'c',
            control: true,
        })),
{
}

/// `next_channel` applied `n` times.
pub open spec fn next_channel_times(m: ChannelMode, channels: u16, n: nat) -> ChannelMode
    decreases n,
{
    if n == 0 {
        m
    } else {
        spec_next_channel(next_channel_times(m, channels, (n - 1) as nat), channels)
    }
}

/// From mixing all channels, the channel steps visit channel 0, 1, ...,
/// up to the last channel in turn, and one more step mixes all channels
/// again. A device with one channel stays with all channels.
pub proof fn lemma_channel_cycle(channels: u16, k: nat)
    ensures
        1 < channels && k < channels ==> next_channel_times(ChannelMode::All, channels, k + 1)
            == ChannelMode::Single(k as u16),
        1 < channels ==> next_channel_times(ChannelMode::All, channels, channels as nat + 1)
            == ChannelMode::All,
        channels <= 1 ==> next_channel_times(ChannelMode::All, channels, k) == ChannelMode::All,
    decreases k,
{
    if k > 0 {
        lemma_channel_cycle(channels, (k - 1) as nat);
    }
    if 1 < channels {
        lemma_channel_cycle_up_to(channels, (channels - 1) as nat);
    }
}

proof fn lemma_channel_cycle_up_to(channels: u16, k: nat)
    requires
        1 < channels,
        k < channels,
    ensures
        next_channel_times(ChannelMode::All, channels, k + 1) == ChannelMode::Single(k as u16),
    decreases k,
{
    if k > 0 {
        lemma_channel_cycle_up_to(channels, (k - 1) as nat);
        assert(next_channel_times(ChannelMode::All, channels, k) == ChannelMode::Single(
            (k - 1) as u16,
        ));
        assert(next_channel_times(ChannelMode::All, channels, k + 1) == spec_next_channel(
            next_channel_times(ChannelMode::All, channels, k),
            channels,
        ));
    } else {
        assert(next_channel_times(ChannelMode::All, channels, 1) == spec_next_channel(
            next_channel_times(ChannelMode::All, channels, 0),
            channels,
        ));
    }
}

} // verus!

verus! {

/// The left arrow on the input row asks for the device before the selected
/// one, wrapping from the first to the last; the right arrow asks for the
/// device after it. Each is the other's undoing: the device after the one
/// Left asks for is the selected one, and the device before the one Right
/// asks for is the selected one. After switching to the device Left asked
/// for, that device is selected.
pub proof fn lemma_left_right_on_input_row(s: AppView, channels: u16)
    requires
        s.wf(),
        s.active_selector == Selector::Input,
        s.devices.len() > 0,
    ensures
        s.left() == s,
        s.right() == s,
        s.left_action() matches Action::QueryDevice(i) && i < s.devices.len() && (i + 1)
            % (s.devices.len() as int) == s.selected_device && s.selected(i, channels).selected_device
            == i,
        s.right_action() matches Action::QueryDevice(j) && j < s.devices.len() && (if j == 0 {
            s.devices.len() - 1
        } else {
            j - 1
        }) == s.selected_device,
        s.selected_device == 0 ==> s.left_action() == Action::QueryDevice(
            (s.devices.len() - 1) as usize,
        ),
{
    lemma_device_steps(s);
}

/// On the string row, Left and Right undo each other, Left from the first
/// string selects the last one, and the string Left selects is the one
/// before: the next after it is the string that was selected.
pub proof fn lemma_left_right_on_string_row(s: AppView)
    requires
        s.wf(),
        s.active_selector == Selector::StringNote,
    ensures
        s.right().left() == s,
        s.left().right() == s,
        s.mode.string_count() > 0 ==> (s.left().selected_string + 1) % (s.mode.string_count() as int)
            == s.selected_string,
        s.mode.string_count() > 0 && s.selected_string == 0 ==> s.left().selected_string
            == s.mode.string_count() - 1,
        s.left().mode == s.mode,
{
    lemma_string_steps_undo(s);
    let n = s.mode.string_count() as int;
    let i = s.selected_string as int;
    if n > 0 {
        if i == 0 {
            assert(n % n == 0) by {
                vstd::arithmetic::div_mod::lemma_mod_self_0(n);
            }
        } else {
            assert(i % n == i) by {
                vstd::arithmetic::div_mod::lemma_small_mod(i as nat, n as nat);
            }
        }
    }
}

/// On the channel row, Left and Right undo each other, and Left from mixing
/// all channels of a device with several channels picks its last channel.
pub proof fn lemma_left_right_on_channel_row(s: AppView)
    requires
        s.wf(),
        s.active_selector == Selector::Channel,
    ensures
        s.right().left() == s,
        s.left().right() == s,
        s.channel_mode == ChannelMode::All && s.device_channels > 1 ==> s.left().channel_mode
            == ChannelMode::Single((s.device_channels - 1) as u16),
        s.channel_mode == ChannelMode::All && s.device_channels > 1 ==> s.right().channel_mode
            == ChannelMode::Single(0),
        s.left_action() == Action::RestartAudio,
        s.right_action() == Action::RestartAudio,
{
    lemma_channel_steps_undo(s);
}

} // verus!
