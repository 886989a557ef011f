use vstd::prelude::*;

use crate::model::Pom;
use crate::render::{render_ms, spec_ms};

verus! {

/// The phase part of the timer display.
pub open spec fn spec_phase_label(break_mode: bool) -> Seq<char> {
    if break_mode {
        seq!['B', 'R', 'E', 'A', 'K']
    } else {
        seq!['W', 'O', 'R', 'K']
    }
}

/// The label of the toggle control, by run state.
pub open spec fn spec_toggle_label(is_running: bool) -> Seq<char> {
    if is_running {
        seq!['S', 'T', 'O', 'P']
    } else {
        seq!['S', 'T', 'A', 'R', 'T']
    }
}

/// The timer display: the phase label and the countdown as an `MM:SS` clock,
/// or a fixed placeholder while no task is selected.
pub open spec fn spec_timer_text(s: AppView) -> Seq<char> {
    match s.time {
        Some(t) => spec_phase_label(s.break_mode) + seq![':', ' '] + spec_ms(t as int),
        None => seq!['0', '0', ':', '0', '0'],
    }
}

/// The three input events of the timer: toggle run/pause, a one-second tick,
/// and selection of a task preset by its index in the task list.
#[derive(Debug, Clone, Copy)]
pub enum Message {
    Toggle,
    Tick,
    Select(usize),
}

/// Mathematical view of the timer state: the task list as a sequence, the
/// countdown values, and the run/phase flags.
pub ghost struct AppView {
    pub tasks: Seq<Pom>,
    pub time: Option<i32>,
    pub break_time: Option<i32>,
    pub mem: Option<i32>,
    pub is_running: bool,
    pub break_mode: bool,
    pub selected_task: Option<usize>,
}

impl AppView {
    /// Well-formedness of a timer state.
    ///
    /// No task selected means no countdown, no baseline, no break duration,
    /// not running, and work phase. A selected task is in bounds, and the
    /// baseline (`mem`) and break duration are exactly that preset's
    /// durations in seconds. The countdown never leaves `[0, baseline]` in
    /// the work phase, nor `[0, break_time]` in the break phase.
    pub open spec fn wf(self) -> bool {
        &&& forall|i: int| 0 <= i < self.tasks.len() ==> self.tasks[i].wf()
        &&& self.selected_task is None ==> {
            &&& self.time is None
            &&& self.break_time is None
            &&& self.mem is None
            &&& !self.is_running
            &&& !self.break_mode
        }
        &&& self.selected_task matches Some(i) ==> {
            &&& i < self.tasks.len()
            &&& self.mem == Some((self.tasks[i as int].work_seconds()) as i32)
            &&& self.break_time == Some((self.tasks[i as int].break_seconds()) as i32)
            &&& self.time matches Some(t)
            &&& 0 <= t
            &&& if self.break_mode {
                t as int <= self.tasks[i as int].break_seconds()
            } else {
                t as int <= self.tasks[i as int].work_seconds()
            }
        }
    }
}

/// The break-capable transition function: one event applied to one state.
///
/// `Select` of an in-bounds index loads that preset and rearms the timer,
/// paused, in the work phase; an out-of-bounds index changes nothing.
/// `Toggle` flips the running flag once a task is selected, else does
/// nothing. `Tick` is a no-op unless running; while running it decrements a
/// positive countdown, and at zero it flips the phase and reloads the
/// countdown from the other phase's duration, leaving the timer running.
pub open spec fn step(s: AppView, m: Message) -> AppView {
    match m {
        Message::Select(i) => {
            if i < s.tasks.len() {
                AppView {
                    time: Some((s.tasks[i as int].work_seconds()) as i32),
                    break_time: Some((s.tasks[i as int].break_seconds()) as i32),
                    mem: Some((s.tasks[i as int].work_seconds()) as i32),
                    is_running: false,
                    break_mode: false,
                    selected_task: Some(i),
                    ..s
                }
            } else {
                s
            }
        },
        Message::Toggle => {
            if s.time is Some {
                AppView { is_running: !s.is_running, ..s }
            } else {
                s
            }
        },
        Message::Tick => {
            if !s.is_running {
                s
            } else {
                match s.time {
                    Some(t) => {
                        if t > 0 {
                            AppView { time: Some((t - 1) as i32), ..s }
                        } else if t == 0 {
                            if s.break_mode {
                                AppView { time: s.mem, break_mode: false, ..s }
                            } else {
                                AppView { time: s.break_time, break_mode: true, ..s }
                            }
                        } else {
                            s
                        }
                    },
                    None => s,
                }
            }
        },
    }
}

/// The simple (break-less) transition function. It differs from `step` only
/// at a running countdown that has reached zero: the countdown rearms to the
/// baseline and the timer stops, waiting for the user to toggle it again.
/// The phase flag and the break duration are never touched.
pub open spec fn step_simple(s: AppView, m: Message) -> AppView {
    match m {
        Message::Tick => {
            if !s.is_running {
                s
            } else {
                match s.time {
                    Some(t) => {
                        if t > 0 {
                            AppView { time: Some((t - 1) as i32), ..s }
                        } else if t == 0 {
                            AppView { time: s.mem, is_running: false, ..s }
                        } else {
                            s
                        }
                    },
                    None => s,
                }
            }
        },
        _ => step(s, m),
    }
}

/// Two `Toggle` events in a row return the running flag to its original
/// value, in both variants (they share the `Toggle` transition). In fact the
/// whole state is unchanged.
pub proof fn lemma_toggle_twice(s: AppView)
    ensures
        step(step(s, Message::Toggle), Message::Toggle) == s,
        step(step(s, Message::Toggle), Message::Toggle).is_running == s.is_running,
        step_simple(step_simple(s, Message::Toggle), Message::Toggle) == s,
{
}

/// A `Tick` never drives the countdown below zero, in either variant.
pub proof fn lemma_tick_never_negative(s: AppView)
    requires
        s.wf(),
    ensures
        step(s, Message::Tick).time matches Some(t) ==> t >= 0,
        step_simple(s, Message::Tick).time matches Some(t) ==> t >= 0,
{
}

/// Both transition functions preserve well-formedness.
pub proof fn lemma_step_preserves_wf(s: AppView, m: Message)
    requires
        s.wf(),
    ensures
        step(s, m).wf(),
        !s.break_mode ==> step_simple(s, m).wf() && !step_simple(s, m).break_mode,
{
}

/// Selecting an in-bounds index always loads that preset: the countdown and
/// the baseline both become the preset's work duration in seconds, the break
/// duration its break duration in seconds, and the timer is paused in the
/// work phase, whatever it was doing before.
pub proof fn lemma_select_valid(s: AppView, i: usize)
    requires
        i < s.tasks.len(),
    ensures
        ({
            let s2 = step(s, Message::Select(i));
            &&& s2.time == Some((s.tasks[i as int].work_seconds()) as i32)
            &&& s2.time == s2.mem
            &&& s2.break_time == Some((s.tasks[i as int].break_seconds()) as i32)
            &&& !s2.is_running
            &&& !s2.break_mode
            &&& s2.selected_task == Some(i)
            &&& s2.tasks == s.tasks
        }),
{
}

/// Selecting an out-of-bounds index leaves the state unchanged.
pub proof fn lemma_select_invalid(s: AppView, i: usize)
    requires
        i >= s.tasks.len(),
    ensures
        step(s, Message::Select(i)) == s,
{
}

/// Break-capable variant: a running work-phase countdown at zero chains into
/// the break phase with the break duration loaded, and a running break-phase
/// countdown at zero chains back into the work phase with the baseline
/// reloaded; the timer keeps running across both transitions.
pub proof fn lemma_tick_chains_phases(s: AppView)
    requires
        s.is_running,
        s.time == Some(0i32),
    ensures
        ({
            let s2 = step(s, Message::Tick);
            &&& s2.is_running
            &&& !s.break_mode ==> s2.break_mode && s2.time == s.break_time
            &&& s.break_mode ==> !s2.break_mode && s2.time == s.mem
        }),
{
}

/// Simple variant: a running countdown at zero rearms to the baseline and
/// the timer stops; the user must toggle it to start again.
pub proof fn lemma_simple_tick_rearms(s: AppView)
    requires
        s.is_running,
        s.time == Some(0i32),
    ensures
        ({
            let s2 = step_simple(s, Message::Tick);
            &&& s2.time == s.mem
            &&& !s2.is_running
        }),
{
}

/// The timer: the ordered list of task presets plus the countdown state.
///
/// `time` is the remaining seconds of the current phase, `mem` the baseline
/// the work phase restarts from, `break_time` the break phase's duration;
/// all three are `None` until a task is selected.
pub struct App {
    tasks: Vec<Pom>,
    time: Option<i32>,
    break_time: Option<i32>,
    mem: Option<i32>,
    is_running: bool,
    break_mode: bool,
    selected_task: Option<usize>,
}

impl View for App {
    type V = AppView;

    closed spec fn view(&self) -> AppView {
        AppView {
            tasks: self.tasks@,
            time: self.time,
            break_time: self.break_time,
            mem: self.mem,
            is_running: self.is_running,
            break_mode: self.break_mode,
            selected_task: self.selected_task,
        }
    }
}

impl App {
    /// A fresh timer over the given presets: nothing selected, nothing
    /// counting, paused, in the work phase.
    pub fn new(tasks: Vec<Pom>) -> (r: App)
        requires
            forall|i: int| 0 <= i < tasks@.len() ==> tasks@[i].wf(),
        ensures
            r@.tasks == tasks@,
            r@.time is None,
            r@.break_time is None,
            r@.mem is None,
            !r@.is_running,
            !r@.break_mode,
            r@.selected_task is None,
            r@.wf(),
    {
        App {
            tasks,
            time: None,
            break_time: None,
            mem: None,
            is_running: false,
            break_mode: false,
            selected_task: None,
        }
    }

    /// Apply one event under the break-capable semantics.
    pub fn update(&mut self, message: Message)
        requires
            old(self)@.wf(),
        ensures
            final(self)@ == step(old(self)@, message),
            final(self)@.wf(),
    {
        match message {
            Message::Select(id) => {
                if id < self.tasks.len() {
                    let task = &self.tasks[id];
                    let time = Some(task.duration_minutes * 60);
                    self.time = time;
                    self.break_time = Some(task.break_duration_minutes * 60);
                    self.mem = time;
                    self.is_running = false;
                    self.break_mode = false;
                    self.selected_task = Some(id);
                }
            },
            Message::Toggle => {
                if self.time.is_some() {
                    self.is_running = !self.is_running;
                }
            },
            Message::Tick => {
                if self.is_running {
                    if let Some(time) = self.time {
                        if time > 0 {
                            self.time = Some(time - 1);
                        } else if time == 0 {
                            if self.break_mode {
                                self.time = self.mem;
                                self.break_mode = false;
                            } else {
                                self.time = self.break_time;
                                self.break_mode = true;
                            }
                        }
                    }
                }
            },
        }
    }

    /// Apply one event under the simple (break-less) semantics. A timer
    /// driven only by this method never enters the break phase, so the phase
    /// flag is required (and kept) clear.
    pub fn update_simple(&mut self, message: Message)
        requires
            old(self)@.wf(),
            !old(self)@.break_mode,
        ensures
            final(self)@ == step_simple(old(self)@, message),
            final(self)@.wf(),
            !final(self)@.break_mode,
    {
        match message {
            Message::Tick => {
                if self.is_running {
                    if let Some(time) = self.time {
                        if time > 0 {
                            self.time = Some(time - 1);
                        } else if time == 0 {
                            self.time = self.mem;
                            self.is_running = false;
                        }
                    }
                }
            },
            _ => {
                self.update(message);
            },
        }
    }

    /// The window title.
    pub fn title(&self) -> (r: String)
        ensures
            r@ == "Pomodoro Timer"@,
    {
        String::from_str("Pomodoro Timer")
    }

    /// The timer display: phase label plus `MM:SS` countdown, or the
    /// placeholder while no task is selected.
    pub fn timer_text(&self) -> (r: String)
        requires
            self@.wf(),
        ensures
            r@ == spec_timer_text(self@),
    {
        if let Some(time) = self.time {
            let mut out = if self.break_mode {
                String::from_str("BREAK")
            } else {
                String::from_str("WORK")
            };
            out.append(": ");
            let clock = render_ms(time as u32);
            out.append(clock.as_str());
            proof {
                reveal_strlit("BREAK");
                reveal_strlit("WORK");
                reveal_strlit(": ");
                assert(spec_phase_label(self@.break_mode) =~= if self@.break_mode {
                    "BREAK"@
                } else {
                    "WORK"@
                });
                assert(": "@ =~= seq![':', ' ']);
                assert(out@ =~= spec_timer_text(self@));
            }
            out
        } else {
            let out = String::from_str("00:00");
            proof {
                reveal_strlit("00:00");
                assert(out@ =~= spec_timer_text(self@));
            }
            out
        }
    }

    /// The label of the toggle control.
    pub fn toggle_label(&self) -> (r: &'static str)
        ensures
            r@ == spec_toggle_label(self@.is_running),
    {
        proof {
            reveal_strlit("STOP");
            reveal_strlit("START");
        }
        let r = if self.is_running {
            "STOP"
        } else {
            "START"
        };
        proof {
            assert(r@ =~= spec_toggle_label(self@.is_running));
        }
        r
    }

    /// Whether the task at `i` is the selected one, for highlighting its
    /// control in the task list.
    pub fn is_selected(&self, i: usize) -> (r: bool)
        ensures
            r == (self@.selected_task == Some(i)),
    {
        self.selected_task == Some(i)
    }

    /// The ordered task list.
    pub fn tasks(&self) -> (r: &Vec<Pom>)
        ensures
            r@ == self@.tasks,
    {
        &self.tasks
    }

    /// Seconds left in the current phase; `None` while no task is selected.
    pub fn remaining_seconds(&self) -> (r: Option<i32>)
        ensures
            r == self@.time,
    {
        self.time
    }

    /// The work-phase baseline in seconds; `None` while no task is selected.
    pub fn baseline_seconds(&self) -> (r: Option<i32>)
        ensures
            r == self@.mem,
    {
        self.mem
    }

    /// The break duration in seconds; `None` while no task is selected.
    pub fn break_seconds(&self) -> (r: Option<i32>)
        ensures
            r == self@.break_time,
    {
        self.break_time
    }

    /// Whether the countdown is running. The external one-second tick source
    /// is to be subscribed exactly while this holds.
    pub fn is_running(&self) -> (r: bool)
        ensures
            r == self@.is_running,
    {
        self.is_running
    }

    /// Whether the timer is in the break phase.
    pub fn is_break_phase(&self) -> (r: bool)
        ensures
            r == self@.break_mode,
    {
        self.break_mode
    }

    /// The selected task's index, if any.
    pub fn selected_task_index(&self) -> (r: Option<usize>)
        ensures
            r == self@.selected_task,
    {
        self.selected_task
    }
}

} // verus!
