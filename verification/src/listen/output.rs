//! Playing the recording: what to do after each thing that happens.
use vstd::prelude::*;

use crate::listen::clock::PlaybackClock;
use crate::listen::controller::Control;
use crate::listen::store::{PlanView, PlaybackReadCursor, ReadPlan, StoreView, TimeshiftStore};

verus! {

/// How much audio is handed to the output at once.
pub const OUTPUT_CHUNK_MS: u64 = 50;

/// How many chunks the output holds in wait.
pub const OUTPUT_QUEUE_TARGET_CHUNKS: usize = 4;

/// How long the loop waits for something to happen.
pub const OUTPUT_WAIT_TIMEOUT_MS: u64 = 10;

/// What is done to the output.
#[derive(Debug, Clone, Copy, PartialEq, Eq, Structural)]
pub enum SinkAction {
    Stop,
    Pause,
    Play,
}

/// What a command comes to. A stop also tells the loop that fills the recording to end.
#[derive(Debug, Clone, Copy, PartialEq, Eq, Structural)]
pub struct CommandEffect {
    pub stop: bool,
    pub sink: Option<SinkAction>,
    pub clear_spectrum: bool,
}

/// What the loop does next.
#[derive(Debug, Clone, Copy, PartialEq, Eq, Structural)]
pub enum OutputNext {
    /// Note the chunks that have been played, then look for a command.
    Restart,
    /// Look for a command.
    Poll,
    /// Wait for a command.
    AwaitCommand,
    /// Fill the output.
    Fill,
    /// Wait a moment for a command.
    AwaitCommandBriefly,
    /// Wait a moment for a chunk to be played.
    AwaitChunkBriefly,
    /// End: stop filling the recording, and clear spectrum and recording.
    Finish,
}

/// What a wait ended with.
#[derive(Debug, Clone, Copy, PartialEq, Eq, Structural)]
pub enum Waited<T> {
    Received(T),
    TimedOut,
    Disconnected,
}

/// What filling the output came to.
#[derive(Debug)]
pub enum FillStep {
    /// The output holds enough.
    Full,
    /// There is nothing to play.
    Nothing,
    /// This is to be read and handed to the output.
    Read { place: PlaybackReadCursor, plan: ReadPlan },
}

/// What a command comes to, given whether playback is paused.
pub open spec fn effect_of(command: Control, paused: bool) -> CommandEffect {
    match command {
        Control::Stop => CommandEffect {
            stop: true,
            sink: Some(SinkAction::Stop),
            clear_spectrum: true,
        },
        Control::Pause => CommandEffect {
            stop: false,
            sink: if paused {
                None
            } else {
                Some(SinkAction::Pause)
            },
            clear_spectrum: true,
        },
        Control::Resume => CommandEffect {
            stop: false,
            sink: if paused {
                Some(SinkAction::Play)
            } else {
                None
            },
            clear_spectrum: false,
        },
    }
}

/// Whether playback is paused after a command.
pub open spec fn paused_after(command: Control, paused: bool) -> bool {
    match command {
        Control::Stop => paused,
        Control::Pause => true,
        Control::Resume => false,
    }
}

/// Takes a command.
pub fn handle_output_command(command: Control, paused: &mut bool) -> (r: CommandEffect)
    ensures
        r == effect_of(command, *old(paused)),
        *final(paused) == paused_after(command, *old(paused)),
{
    match command {
        Control::Stop => CommandEffect {
            stop: true,
            sink: Some(SinkAction::Stop),
            clear_spectrum: true,
        },
        Control::Pause => {
            let sink = if *paused {
                None
            } else {
                Some(SinkAction::Pause)
            };
            *paused = true;
            CommandEffect { stop: false, sink, clear_spectrum: true }
        },
        Control::Resume => {
            let sink = if *paused {
                Some(SinkAction::Play)
            } else {
                None
            };
            *paused = false;
            CommandEffect { stop: false, sink, clear_spectrum: false }
        },
    }
}

/// Takes the chunks that have been played, by the times of their ends: the last one is where the
/// listener is.
pub fn note_played(clock: &mut PlaybackClock, ends: &[u64])
    ensures
        *final(clock) == (if ends@.len() == 0 {
            *old(clock)
        } else {
            PlaybackClock { playback_cursor: ends@.last(), ..*old(clock) }
        }),
{
    if ends.len() > 0 {
        clock.set_playback_cursor_ms(ends[ends.len() - 1]);
    }
}

/// The loop that plays the recording. `queued_cursor_ms` is where the audio that the output holds
/// ends, or zero.
#[derive(Debug, Clone, Copy, PartialEq, Eq, Structural)]
pub struct OutputLoop {
    pub paused: bool,
    pub queued_cursor_ms: u64,
    pub appended_chunk: bool,
}

impl OutputLoop {
    /// The time to play on from.
    pub open spec fn wanted(self, clock: PlaybackClock) -> u64 {
        if self.queued_cursor_ms == 0 {
            clock.playback_cursor
        } else {
            self.queued_cursor_ms
        }
    }

    /// The loop and the clock once the given time has been moved to. The listener moves along if
    /// nothing is being played.
    pub open spec fn moved_to(self, clock: PlaybackClock, ms: u64, idle: bool) -> (
        OutputLoop,
        PlaybackClock,
    ) {
        (
            OutputLoop { queued_cursor_ms: ms, ..self },
            if idle {
                PlaybackClock { playback_cursor: ms, ..clock }
            } else {
                clock
            },
        )
    }

    /// The loop, the clock, and what to read, where the output still takes a chunk.
    pub open spec fn filled(self, clock: PlaybackClock, store: StoreView, idle: bool) -> (
        OutputLoop,
        PlaybackClock,
        Option<PlanView>,
    ) {
        let wanted = self.wanted(clock);
        let cursor = store.held(wanted);
        let (out, shown) = if cursor != wanted {
            self.moved_to(clock, cursor, idle)
        } else {
            (self, clock)
        };
        if store.live_head_ms == 0 {
            (out, shown, None)
        } else if cursor == 0 {
            (OutputLoop { queued_cursor_ms: store.live_head_ms, ..out }, shown, None)
        } else {
            let plan = match store.cursor_at(cursor) {
                Some(place) => store.plan(place, OUTPUT_CHUNK_MS),
                None => None,
            };
            match (plan, store.next_start(cursor)) {
                (Some(p), _) => (out, shown, Some(p)),
                (None, Some(next)) => {
                    let (o, c) = out.moved_to(shown, next, idle);
                    (o, c, None)
                },
                (None, None) => (out, shown, None),
            }
        }
    }

    pub fn new() -> (r: OutputLoop)
        ensures
            r == (OutputLoop { paused: false, queued_cursor_ms: 0, appended_chunk: false }),
    {
        OutputLoop { paused: false, queued_cursor_ms: 0, appended_chunk: false }
    }

    /// Goes on after it was looked for a command.
    pub fn on_poll(&mut self, command: Option<Control>) -> (r: (Option<CommandEffect>, OutputNext))
        ensures
            match command {
                Some(c) => {
                    &&& r == (
                        Some(effect_of(c, old(self).paused)),
                        if c == Control::Stop {
                            OutputNext::Finish
                        } else {
                            OutputNext::Poll
                        },
                    )
                    &&& *final(self) == (OutputLoop {
                        paused: paused_after(c, old(self).paused),
                        ..*old(self)
                    })
                },
                None => if old(self).paused {
                    r == (None::<CommandEffect>, OutputNext::AwaitCommand) && *final(self) == *old(
                        self,
                    )
                } else {
                    r == (None::<CommandEffect>, OutputNext::Fill) && *final(self) == (OutputLoop {
                        appended_chunk: false,
                        ..*old(self)
                    })
                },
            },
    {
        match command {
            Some(c) => {
                let effect = handle_output_command(c, &mut self.paused);
                let next = if effect.stop {
                    OutputNext::Finish
                } else {
                    OutputNext::Poll
                };
                (Some(effect), next)
            },
            None => {
                if self.paused {
                    (None, OutputNext::AwaitCommand)
                } else {
                    self.appended_chunk = false;
                    (None, OutputNext::Fill)
                }
            },
        }
    }

    /// Goes on after a wait for a command.
    pub fn on_command(&mut self, waited: Waited<Control>) -> (r: (
        Option<CommandEffect>,
        OutputNext,
    ))
        ensures
            match waited {
                Waited::Received(c) => {
                    &&& r == (
                        Some(effect_of(c, old(self).paused)),
                        if c == Control::Stop {
                            OutputNext::Finish
                        } else {
                            OutputNext::Restart
                        },
                    )
                    &&& *final(self) == (OutputLoop {
                        paused: paused_after(c, old(self).paused),
                        ..*old(self)
                    })
                },
                Waited::TimedOut => r == (None::<CommandEffect>, OutputNext::Restart) && *final(self)
                    == *old(self),
                Waited::Disconnected => r == (None::<CommandEffect>, OutputNext::Finish)
                    && *final(self) == *old(self),
            },
    {
        match waited {
            Waited::Received(c) => {
                let effect = handle_output_command(c, &mut self.paused);
                let next = if effect.stop {
                    OutputNext::Finish
                } else {
                    OutputNext::Restart
                };
                (Some(effect), next)
            },
            Waited::TimedOut => (None, OutputNext::Restart),
            Waited::Disconnected => (None, OutputNext::Finish),
        }
    }

    /// Goes on after a wait for a chunk to be played.
    pub fn on_played(&self, clock: &mut PlaybackClock, waited: Waited<u64>) -> (r: OutputNext)
        ensures
            *final(clock) == (match waited {
                Waited::Received(end_ms) => PlaybackClock { playback_cursor: end_ms, ..*old(clock) },
                _ => *old(clock),
            }),
            r == (if waited is Disconnected {
                OutputNext::Finish
            } else {
                OutputNext::Restart
            }),
    {
        match waited {
            Waited::Received(end_ms) => {
                clock.set_playback_cursor_ms(end_ms);
                OutputNext::Restart
            },
            Waited::TimedOut => OutputNext::Restart,
            Waited::Disconnected => OutputNext::Finish,
        }
    }

    /// Finds out what to hand to the output next, if it takes anything. `queued` is the number of
    /// chunks that it holds.
    pub fn fill(&mut self, clock: &mut PlaybackClock, store: &TimeshiftStore, queued: usize) -> (r:
        FillStep)
        requires
            store@.wf(),
        ensures
            ({
                let (out, shown, plan) = old(self).filled(*old(clock), store@, queued == 0);
                if old(self).paused || queued >= OUTPUT_QUEUE_TARGET_CHUNKS {
                    &&& r is Full
                    &&& *final(self) == *old(self)
                    &&& *final(clock) == *old(clock)
                } else {
                    &&& *final(self) == out
                    &&& *final(clock) == shown
                    &&& match plan {
                        None => r is Nothing,
                        Some(p) => {
                            &&& r matches FillStep::Read { place, plan: read }
                            &&& read@ == p
                            &&& store@.has(p)
                            &&& place@ == store@.moved(
                                store@.cursor_at(store@.held(old(self).wanted(*old(clock))))->0,
                            )
                        },
                    }
                }
            }),
    {
        if self.paused || queued >= OUTPUT_QUEUE_TARGET_CHUNKS {
            return FillStep::Full;
        }
        let idle = queued == 0;
        let wanted: u64 = if self.queued_cursor_ms == 0 {
            clock.playback_cursor_ms()
        } else {
            self.queued_cursor_ms
        };
        let cursor: u64 = store.clamp_cursor_ms(wanted);
        if cursor != wanted {
            self.move_to(clock, cursor, idle);
        }
        let live_head: u64 = store.live_head_ms();
        if live_head == 0 {
            return FillStep::Nothing;
        }
        if cursor == 0 {
            self.queued_cursor_ms = live_head;
            return FillStep::Nothing;
        }
        proof {
            if let Some(place) = store@.cursor_at(cursor) {
                if let Some(plan) = store@.plan(place, OUTPUT_CHUNK_MS) {
                    let rate = store@.segments[plan.segment].sample_rate;
                    assert(OUTPUT_CHUNK_MS * rate <= u64::MAX) by (nonlinear_arith)
                        requires
                            OUTPUT_CHUNK_MS == 50,
                            rate <= u32::MAX,
                    ;
                }
            }
        }
        match store.read_chunk(cursor, OUTPUT_CHUNK_MS) {
            Some((place, plan)) => FillStep::Read { place, plan },
            None => {
                if let Some(next) = store.next_available_timestamp_ms(cursor) {
                    self.move_to(clock, next, idle);
                }
                FillStep::Nothing
            },
        }
    }

    fn move_to(&mut self, clock: &mut PlaybackClock, ms: u64, idle: bool)
        ensures
            (*final(self), *final(clock)) == old(self).moved_to(*old(clock), ms, idle),
    {
        self.queued_cursor_ms = ms;
        if idle {
            clock.set_playback_cursor_ms(ms);
        }
    }

    /// Notes that a chunk that ends at the given time went to the output.
    pub fn on_queued(&mut self, end_ms: u64)
        ensures
            *final(self) == (OutputLoop {
                queued_cursor_ms: end_ms,
                appended_chunk: true,
                ..*old(self)
            }),
    {
        self.queued_cursor_ms = end_ms;
        self.appended_chunk = true;
    }

    /// Goes on after filling.
    pub fn after_fill(&self, queued: usize) -> (r: OutputNext)
        ensures
            r == (if self.appended_chunk {
                OutputNext::Restart
            } else if queued == 0 {
                OutputNext::AwaitCommandBriefly
            } else {
                OutputNext::AwaitChunkBriefly
            }),
    {
        if self.appended_chunk {
            OutputNext::Restart
        } else if queued == 0 {
            OutputNext::AwaitCommandBriefly
        } else {
            OutputNext::AwaitChunkBriefly
        }
    }
}

/// Going on after a pause starts the output again, and only a stop ends the loop.
pub proof fn law_resume_undoes_pause(paused: bool)
    ensures
        !paused_after(Control::Resume, paused_after(Control::Pause, paused)),
        effect_of(Control::Resume, paused_after(Control::Pause, paused)).sink == Some(
            SinkAction::Play,
        ),
        !effect_of(Control::Pause, paused).stop,
        !effect_of(Control::Resume, paused).stop,
        effect_of(Control::Stop, paused).stop,
{
}

/// A command acts on the output just where it changes something: a pause while it plays, and going
/// on while it is paused; a stop always does.
pub proof fn law_commands_act_where_they_change_something(paused: bool)
    ensures
        paused_after(Control::Pause, paused),
        !paused_after(Control::Resume, paused),
        effect_of(Control::Pause, true).sink is None,
        effect_of(Control::Pause, false).sink == Some(SinkAction::Pause),
        effect_of(Control::Resume, false).sink is None,
        effect_of(Control::Resume, true).sink == Some(SinkAction::Play),
        effect_of(Control::Stop, paused).sink == Some(SinkAction::Stop),
        effect_of(Control::Pause, paused).clear_spectrum,
        effect_of(Control::Stop, paused).clear_spectrum,
        !effect_of(Control::Resume, paused).clear_spectrum,
{
}

/// Playing goes on where the audio that the output holds ends, or else where the listener is: where
/// there is audio at that time, up to fifty milliseconds of it are read next, and nothing moves.
pub proof fn law_plays_on_where_it_left_off(
    output: OutputLoop,
    clock: PlaybackClock,
    store: StoreView,
    idle: bool,
    ms: u64,
)
    requires
        store.segments.len() > 0,
        store.segments[0].start_ms <= ms <= store.live_head_ms,
        ms != 0,
        output.queued_cursor_ms == ms || (output.queued_cursor_ms == 0 && clock.playback_cursor
            == ms),
        store.cursor_at(ms) is Some,
        store.plan(store.cursor_at(ms)->0, 50) is Some,
    ensures
        output.filled(clock, store, idle) == (
            output,
            clock,
            store.plan(store.cursor_at(ms)->0, 50),
        ),
{
}

/// A time outside the recording is moved to its nearer end; the listener moves along only while
/// nothing is being played.
pub proof fn law_falling_out_of_the_recording_moves_to_its_end(
    output: OutputLoop,
    clock: PlaybackClock,
    store: StoreView,
    idle: bool,
    ms: u64,
)
    requires
        store.segments.len() > 0,
        0 < store.segments[0].start_ms <= store.live_head_ms,
        ms != 0,
        ms < store.segments[0].start_ms || ms > store.live_head_ms,
        output.queued_cursor_ms == ms || (output.queued_cursor_ms == 0 && clock.playback_cursor
            == ms),
        store.next_start(store.held(ms)) is None,
    ensures
        ({
            let end = if ms < store.segments[0].start_ms {
                store.segments[0].start_ms
            } else {
                store.live_head_ms
            };
            let (after, shown, plan) = output.filled(clock, store, idle);
            &&& after == (OutputLoop { queued_cursor_ms: end, ..output })
            &&& idle ==> shown == (PlaybackClock { playback_cursor: end, ..clock })
            &&& !idle ==> shown == clock
        }),
{
}

/// Where nothing can be read at a time, playing moves to the next audio after it.
pub proof fn law_gaps_are_skipped(
    output: OutputLoop,
    clock: PlaybackClock,
    store: StoreView,
    idle: bool,
    ms: u64,
    next: u64,
)
    requires
        store.segments.len() > 0,
        store.segments[0].start_ms <= ms <= store.live_head_ms,
        ms != 0,
        output.queued_cursor_ms == ms,
        store.cursor_at(ms) matches Some(place) ==> store.plan(place, 50) is None,
        store.next_start(ms) == Some(next),
    ensures
        ({
            let (after, shown, plan) = output.filled(clock, store, idle);
            &&& plan is None
            &&& after == (OutputLoop { queued_cursor_ms: next, ..output })
            &&& idle ==> shown == (PlaybackClock { playback_cursor: next, ..clock })
            &&& !idle ==> shown == clock
        }),
{
}

/// A listener who has no place yet begins at the live head; without a recording nothing is played.
pub proof fn law_listening_begins_at_the_live_head(
    output: OutputLoop,
    clock: PlaybackClock,
    store: StoreView,
    idle: bool,
)
    requires
        output.queued_cursor_ms == 0,
        clock.playback_cursor == 0,
    ensures
        ({
            let (after, shown, plan) = output.filled(clock, store, idle);
            &&& plan is None
            &&& shown == clock
            &&& after == (OutputLoop { queued_cursor_ms: store.live_head_ms, ..output })
        }),
{
}

/// Tells once that a chunk has been played.
#[derive(Debug, Clone, Copy, PartialEq, Eq, Structural)]
pub struct DoneNotifier {
    pub chunk_end_ms: u64,
    pub did_notify: bool,
}

impl DoneNotifier {
    pub fn new(chunk_end_ms: u64) -> (r: DoneNotifier)
        ensures
            r == (DoneNotifier { chunk_end_ms, did_notify: false }),
    {
        DoneNotifier { chunk_end_ms, did_notify: false }
    }

    /// The end of the chunk, the first time; nothing after that.
    pub fn notify_done(&mut self) -> (r: Option<u64>)
        ensures
            r == (if old(self).did_notify {
                None
            } else {
                Some(old(self).chunk_end_ms)
            }),
            *final(self) == (DoneNotifier { did_notify: true, ..*old(self) }),
    {
        if self.did_notify {
            return None;
        }
        self.did_notify = true;
        Some(self.chunk_end_ms)
    }
}

} // verus!
