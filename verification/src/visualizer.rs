//! The visualizer's state and its reaction to commands, ticks and spectra.
//!
//! The visualizer decides; it touches no device. Each reaction ends in an
//! `Action` that tells the caller what is left to do outside.

use vstd::prelude::*;
use crate::bars::{bars_of, group_frequencies_into_bars, heights_in_range};
use crate::evolution::{
    all_at_rest, any_above_rest, any_bar_above_rest, decay, decay_bars, decay_bars_repeated,
    lemma_decay_bars_pointwise, lemma_decay_bars_reach_rest, lemma_decay_bars_repeated_pointwise,
    lemma_smooth_bars_repeated_pointwise, lemma_smooth_bars_settle, smooth_bars,
    smooth_bars_repeated, smooth_towards, DECAY_TICKS, SETTLE_TICKS,
};
use crate::bars::lemma_bars_in_range;
use crate::scale::MIN_BAR_HEIGHT;

verus! {

/// Number of bars on the display.
pub const DEFAULT_NUM_BARS: usize = 75;

/// What the playback engine is doing.
#[derive(Clone, Copy, Debug, PartialEq, Eq, Structural)]
pub enum PlaybackPhase {
    Stopped,
    Playing,
    Paused,
}

/// How the bars move on the next tick.
#[derive(Clone, Copy, Debug, PartialEq, Eq, Structural)]
pub enum EngineMode {
    /// Audio plays: the bars follow the spectra that arrive.
    Active,
    /// Audio does not play and the bars are on their way down.
    Decaying,
    /// Audio does not play and no tick is wanted.
    Settled,
}

/// What the user or the clock asks of the visualizer.
#[derive(Clone, Debug)]
pub enum Message {
    LoadFile,
    Play,
    Pause,
    Stop,
    Tick,
    AudioData(Vec<i32>),
}

/// What is left for the caller to do after a reaction.
#[derive(Clone, Copy, Debug, PartialEq, Eq, Structural)]
pub enum Action {
    /// Nothing.
    Nothing,
    /// Ask the user for a file; report a choice with `file_chosen`.
    PickFile,
    /// Build the playback pipeline for the chosen file, paused at its start;
    /// report success with `pipeline_ready`.
    Load,
    /// As `Load`; after success, send `Message::Play` once more.
    LoadAndPlay,
    /// Let the sink play.
    Play,
    /// Hold the sink.
    Pause,
    /// Stop the sink, if there is one, then do as for `Load`.
    Restart,
    /// Take the latest spectrum out of its slot; if there was one, send it
    /// as `Message::AudioData`.
    Drain,
    /// The bars have moved: what was drawn before is stale.
    Redraw,
}

/// The visualizer's state as a plain value.
pub struct State {
    pub phase: PlaybackPhase,
    pub is_loaded: bool,
    pub has_file: bool,
    pub is_decaying: bool,
    pub bars: Seq<u32>,
}

/// The state in which a visualizer starts: nothing chosen, nothing loaded,
/// all bars at rest.
pub open spec fn initial_state() -> State {
    State {
        phase: PlaybackPhase::Stopped,
        is_loaded: false,
        has_file: false,
        is_decaying: false,
        bars: Seq::new(DEFAULT_NUM_BARS as nat, |i: int| MIN_BAR_HEIGHT),
    }
}

/// What every reachable state satisfies: the row has its full count of
/// bars, each on the display, and bars do not decay while audio plays.
pub open spec fn state_wf(s: State) -> bool {
    &&& s.bars.len() == DEFAULT_NUM_BARS
    &&& heights_in_range(s.bars)
    &&& s.phase == PlaybackPhase::Playing ==> !s.is_decaying
}

/// How the bars of `s` move on the next tick.
pub open spec fn mode_of(s: State) -> EngineMode {
    if s.phase == PlaybackPhase::Playing {
        EngineMode::Active
    } else if s.is_decaying {
        EngineMode::Decaying
    } else {
        EngineMode::Settled
    }
}

/// Whether the clock has to tick in state `s`.
pub open spec fn wants_ticks(s: State) -> bool {
    s.phase == PlaybackPhase::Playing || s.is_decaying
}

/// The state after a spectrum has arrived: every bar has moved one
/// smoothing step towards its bar in the row that the spectrum maps to.
pub open spec fn after_spectrum(s: State, levels: Seq<i32>) -> State {
    State { bars: smooth_bars(s.bars, bars_of(levels, DEFAULT_NUM_BARS as nat)), ..s }
}

/// The state after one tick of the clock. While audio plays a tick moves
/// nothing by itself. While it does not and the bars decay, a tick lowers
/// the bars if one of them stands above rest, and ends the decay if none
/// does.
pub open spec fn after_tick(s: State) -> State {
    if s.phase == PlaybackPhase::Playing || !s.is_decaying {
        s
    } else if any_above_rest(s.bars) {
        State { bars: decay_bars(s.bars), ..s }
    } else {
        State { is_decaying: false, ..s }
    }
}

/// The state after `message`.
pub open spec fn next_state(s: State, message: Message) -> State {
    match message {
        Message::LoadFile => s,
        Message::Play => if s.is_loaded {
            State { phase: PlaybackPhase::Playing, is_decaying: false, ..s }
        } else {
            s
        },
        Message::Pause => if s.is_loaded {
            State { phase: PlaybackPhase::Paused, is_decaying: true, ..s }
        } else {
            s
        },
        Message::Stop => State { phase: PlaybackPhase::Stopped, is_decaying: true, ..s },
        Message::Tick => after_tick(s),
        Message::AudioData(levels) => after_spectrum(s, levels@),
    }
}

/// What `message` leaves for the caller to do in state `s`.
pub open spec fn action_for(s: State, message: Message) -> Action {
    match message {
        Message::LoadFile => Action::PickFile,
        Message::Play => if s.is_loaded {
            Action::Play
        } else if s.has_file {
            Action::LoadAndPlay
        } else {
            Action::Nothing
        },
        Message::Pause => if s.is_loaded {
            Action::Pause
        } else {
            Action::Nothing
        },
        Message::Stop => if s.has_file {
            Action::Restart
        } else {
            Action::Nothing
        },
        Message::Tick => if s.phase == PlaybackPhase::Playing {
            Action::Drain
        } else if s.is_decaying && any_above_rest(s.bars) {
            Action::Redraw
        } else {
            Action::Nothing
        },
        Message::AudioData(_) => Action::Redraw,
    }
}

/// The state after `ticks` ticks of the clock with nothing else in between.
pub open spec fn after_ticks(s: State, ticks: nat) -> State
    decreases ticks,
{
    if ticks == 0 {
        s
    } else {
        after_tick(after_ticks(s, (ticks - 1) as nat))
    }
}

/// The state after the same spectrum has arrived `times` times in a row.
pub open spec fn after_spectra(s: State, levels: Seq<i32>, times: nat) -> State
    decreases times,
{
    if times == 0 {
        s
    } else {
        after_spectrum(after_spectra(s, levels, (times - 1) as nat), levels)
    }
}

/// No message leads out of the well-formed states.
pub proof fn lemma_next_state_wf(s: State, message: Message)
    requires
        state_wf(s),
    ensures
        state_wf(next_state(s, message)),
{
    match message {
        Message::Tick => {
            lemma_decay_bars_pointwise(s.bars);
        },
        Message::AudioData(levels) => {
            let target = bars_of(levels@, DEFAULT_NUM_BARS as nat);
            lemma_bars_in_range(levels@, DEFAULT_NUM_BARS as nat);
            lemma_smooth_bars_repeated_pointwise(s.bars, target, 1);
            assert(smooth_bars_repeated(s.bars, target, 1) == smooth_bars(s.bars, target)) by {
                reveal_with_fuel(smooth_bars_repeated, 2);
            }
        },
        _ => {},
    }
}

/// Playing always makes the bars follow the audio again, whatever the
/// visualizer did before, once a pipeline is there.
pub proof fn lemma_play_resumes(s: State)
    requires
        s.is_loaded,
    ensures
        mode_of(next_state(s, Message::Play)) == EngineMode::Active,
        wants_ticks(next_state(s, Message::Play)),
        next_state(s, Message::Play).bars == s.bars,
{
}

/// Pausing or stopping starts the decay and leaves the bars where they are.
pub proof fn lemma_halt_starts_decay(s: State)
    ensures
        mode_of(next_state(s, Message::Stop)) == EngineMode::Decaying,
        next_state(s, Message::Stop).bars == s.bars,
        s.is_loaded ==> mode_of(next_state(s, Message::Pause)) == EngineMode::Decaying,
        next_state(s, Message::Pause).bars == s.bars,
{
}

/// While audio plays, a tick without a spectrum leaves the bars as they
/// are: they are held, not lowered.
pub proof fn lemma_tick_holds_while_playing(s: State, ticks: nat)
    requires
        s.phase == PlaybackPhase::Playing,
    ensures
        after_ticks(s, ticks) == s,
    decreases ticks,
{
    if ticks > 0 {
        lemma_tick_holds_while_playing(s, (ticks - 1) as nat);
    }
}

/// Decay while audio does not play: with nothing but ticks, the bars after
/// `ticks` ticks are the row lowered `ticks` times, so no tick raises a bar;
/// the decay goes on exactly as long as the tick before found a bar above
/// rest; and after `DECAY_TICKS` ticks all bars are at rest, one tick later
/// no more ticks are wanted.
pub proof fn lemma_ticks_decay(s: State, ticks: nat)
    requires
        state_wf(s),
        mode_of(s) == EngineMode::Decaying,
    ensures
        after_ticks(s, ticks).bars == decay_bars_repeated(s.bars, ticks),
        after_ticks(s, ticks).phase == s.phase,
        state_wf(after_ticks(s, ticks)),
        ticks > 0 ==> forall|i: int|
            0 <= i < s.bars.len() ==> #[trigger] after_ticks(s, ticks).bars[i] <= after_ticks(
                s,
                (ticks - 1) as nat,
            ).bars[i],
        ticks > 0 ==> (after_ticks(s, ticks).is_decaying <==> any_above_rest(
            decay_bars_repeated(s.bars, (ticks - 1) as nat),
        )),
        !after_ticks(s, ticks).is_decaying ==> all_at_rest(after_ticks(s, ticks).bars),
        ticks >= DECAY_TICKS ==> all_at_rest(after_ticks(s, ticks).bars),
        ticks > DECAY_TICKS ==> mode_of(after_ticks(s, ticks)) == EngineMode::Settled
            && !wants_ticks(after_ticks(s, ticks)),
    decreases ticks,
{
    lemma_decay_bars_repeated_pointwise(s.bars, ticks);
    if ticks > 0 {
        let before = after_ticks(s, (ticks - 1) as nat);
        lemma_ticks_decay(s, (ticks - 1) as nat);
        lemma_decay_bars_repeated_pointwise(s.bars, (ticks - 1) as nat);
        lemma_decay_bars_pointwise(before.bars);
        if ticks - 1 >= DECAY_TICKS {
            lemma_decay_bars_reach_rest(s.bars, (ticks - 1) as nat);
        }
        if ticks >= DECAY_TICKS {
            lemma_decay_bars_reach_rest(s.bars, ticks);
        }
    }
}

/// Stopping while bars are raised: the bars stay where they are until the
/// next tick, then fall tick by tick, and once they are at rest the clock is
/// no longer wanted. Pausing a loaded visualizer does the same.
pub proof fn lemma_halt_lets_bars_fall(s: State, ticks: nat)
    requires
        state_wf(s),
    ensures
        after_ticks(next_state(s, Message::Stop), ticks).bars == decay_bars_repeated(
            s.bars,
            ticks,
        ),
        after_ticks(next_state(s, Message::Stop), ticks).phase == PlaybackPhase::Stopped,
        ticks > DECAY_TICKS ==> !wants_ticks(after_ticks(next_state(s, Message::Stop), ticks)),
        s.is_loaded ==> after_ticks(next_state(s, Message::Pause), ticks).bars
            == decay_bars_repeated(s.bars, ticks),
        s.is_loaded ==> after_ticks(next_state(s, Message::Pause), ticks).phase
            == PlaybackPhase::Paused,
        s.is_loaded && ticks > DECAY_TICKS ==> !wants_ticks(
            after_ticks(next_state(s, Message::Pause), ticks),
        ),
{
    lemma_ticks_decay(next_state(s, Message::Stop), ticks);
    if s.is_loaded {
        lemma_ticks_decay(next_state(s, Message::Pause), ticks);
    }
}

/// Smoothing converges: when the same spectrum arrives again and again, the
/// bars reach the row that it maps to after `SETTLE_TICKS` arrivals, and
/// stay on it.
pub proof fn lemma_spectra_settle(s: State, levels: Seq<i32>, times: nat)
    requires
        state_wf(s),
    ensures
        after_spectra(s, levels, times).bars == smooth_bars_repeated(
            s.bars,
            bars_of(levels, DEFAULT_NUM_BARS as nat),
            times,
        ),
        state_wf(after_spectra(s, levels, times)),
        times >= SETTLE_TICKS ==> after_spectra(s, levels, times).bars == bars_of(
            levels,
            DEFAULT_NUM_BARS as nat,
        ),
    decreases times,
{
    let target = bars_of(levels, DEFAULT_NUM_BARS as nat);
    lemma_bars_in_range(levels, DEFAULT_NUM_BARS as nat);
    lemma_smooth_bars_repeated_pointwise(s.bars, target, times);
    if times > 0 {
        lemma_spectra_settle(s, levels, (times - 1) as nat);
    }
    if times >= SETTLE_TICKS {
        lemma_smooth_bars_settle(s.bars, target, times);
    }
}

/// The visualizer: playback phase, what has been chosen and loaded, and the
/// bars on the display.
pub struct AudioVisualizer {
    phase: PlaybackPhase,
    is_loaded: bool,
    has_file: bool,
    is_decaying: bool,
    frequency_data: Vec<u32>,
}

impl View for AudioVisualizer {
    type V = State;

    closed spec fn view(&self) -> State {
        State {
            phase: self.phase,
            is_loaded: self.is_loaded,
            has_file: self.has_file,
            is_decaying: self.is_decaying,
            bars: self.frequency_data@,
        }
    }
}

impl Default for AudioVisualizer {
    fn default() -> (visualizer: Self)
        ensures
            visualizer@ == initial_state(),
            state_wf(visualizer@),
    {
        let mut frequency_data: Vec<u32> = Vec::new();
        let mut i: usize = 0;
        while i < DEFAULT_NUM_BARS
            invariant
                0 <= i <= DEFAULT_NUM_BARS,
                frequency_data@.len() == i,
                forall|k: int| 0 <= k < i ==> #[trigger] frequency_data@[k] == MIN_BAR_HEIGHT,
            decreases DEFAULT_NUM_BARS - i,
        {
            frequency_data.push(MIN_BAR_HEIGHT);
            i = i + 1;
        }
        let visualizer = AudioVisualizer {
            phase: PlaybackPhase::Stopped,
            is_loaded: false,
            has_file: false,
            is_decaying: false,
            frequency_data,
        };
        proof {
            assert(visualizer@.bars =~= initial_state().bars);
        }
        visualizer
    }
}

impl AudioVisualizer {
    /// Every state that a visualizer gets into is well-formed.
    pub open spec fn wf(&self) -> bool {
        state_wf(self@)
    }

    /// A visualizer in its initial state, with nothing left to do.
    pub fn new() -> (start: (Self, Action))
        ensures
            start.0@ == initial_state(),
            start.0.wf(),
            start.1 == Action::Nothing,
    {
        (AudioVisualizer::default(), Action::Nothing)
    }

    /// What the playback engine is doing.
    pub fn phase(&self) -> (phase: PlaybackPhase)
        ensures
            phase == self@.phase,
    {
        self.phase
    }

    /// Whether audio plays.
    pub fn is_playing(&self) -> (playing: bool)
        ensures
            playing == (self@.phase == PlaybackPhase::Playing),
    {
        match self.phase {
            PlaybackPhase::Playing => true,
            _ => false,
        }
    }

    /// Whether a playback pipeline has been built.
    pub fn is_loaded(&self) -> (loaded: bool)
        ensures
            loaded == self@.is_loaded,
    {
        self.is_loaded
    }

    /// Whether the bars are on their way down.
    pub fn is_decaying(&self) -> (decaying: bool)
        ensures
            decaying == self@.is_decaying,
    {
        self.is_decaying
    }

    /// How the bars move on the next tick.
    pub fn mode(&self) -> (mode: EngineMode)
        ensures
            mode == mode_of(self@),
    {
        if self.is_playing() {
            EngineMode::Active
        } else if self.is_decaying {
            EngineMode::Decaying
        } else {
            EngineMode::Settled
        }
    }

    /// The bars on the display, in thousandths of a display unit.
    pub fn frequency_data(&self) -> (bars: &Vec<u32>)
        ensures
            bars@ == self@.bars,
    {
        &self.frequency_data
    }

    /// Whether the clock has to tick: while audio plays and while the bars
    /// decay.
    pub fn subscription(&self) -> (ticking: bool)
        ensures
            ticking == wants_ticks(self@),
    {
        self.is_playing() || self.is_decaying
    }

    /// Notes that the user has chosen a file, and asks for its pipeline.
    pub fn file_chosen(&mut self) -> (action: Action)
        ensures
            final(self)@ == (State { has_file: true, ..old(self)@ }),
            action == Action::Load,
    {
        self.has_file = true;
        Action::Load
    }

    /// Notes that a playback pipeline has been built.
    pub fn pipeline_ready(&mut self)
        ensures
            final(self)@ == (State { is_loaded: true, ..old(self)@ }),
    {
        self.is_loaded = true;
    }

    /// Moves every bar one smoothing step towards the row that the spectrum
    /// `magnitudes` maps to.
    pub fn update_frequency_data(&mut self, magnitudes: Vec<i32>)
        requires
            old(self).wf(),
        ensures
            final(self).wf(),
            final(self)@ == after_spectrum(old(self)@, magnitudes@),
    {
        let new_bars = group_frequencies_into_bars(&magnitudes, DEFAULT_NUM_BARS);
        smooth_towards(&mut self.frequency_data, &new_bars);
    }

    /// Reacts to one tick of the clock.
    pub fn tick(&mut self) -> (action: Action)
        requires
            old(self).wf(),
        ensures
            final(self).wf(),
            final(self)@ == after_tick(old(self)@),
            action == action_for(old(self)@, Message::Tick),
    {
        if self.is_playing() {
            Action::Drain
        } else if self.is_decaying {
            if any_bar_above_rest(&self.frequency_data) {
                decay(&mut self.frequency_data);
                Action::Redraw
            } else {
                self.is_decaying = false;
                Action::Nothing
            }
        } else {
            Action::Nothing
        }
    }

    /// Reacts to `message`: moves to the next state and says what is left
    /// for the caller to do.
    pub fn update(&mut self, message: Message) -> (action: Action)
        requires
            old(self).wf(),
        ensures
            final(self).wf(),
            final(self)@ == next_state(old(self)@, message),
            action == action_for(old(self)@, message),
    {
        match message {
            Message::LoadFile => Action::PickFile,
            Message::Play => {
                if self.is_loaded {
                    self.phase = PlaybackPhase::Playing;
                    self.is_decaying = false;
                    Action::Play
                } else if self.has_file {
                    Action::LoadAndPlay
                } else {
                    Action::Nothing
                }
            },
            Message::Pause => {
                if self.is_loaded {
                    self.phase = PlaybackPhase::Paused;
                    self.is_decaying = true;
                    Action::Pause
                } else {
                    Action::Nothing
                }
            },
            Message::Stop => {
                self.phase = PlaybackPhase::Stopped;
                self.is_decaying = true;
                if self.has_file {
                    Action::Restart
                } else {
                    Action::Nothing
                }
            },
            Message::Tick => self.tick(),
            Message::AudioData(data) => {
                self.update_frequency_data(data);
                Action::Redraw
            },
        }
    }
}

} // verus!
