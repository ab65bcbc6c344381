//! Making borders, on a thread of their own.
//!
//! Any thread may ask for a border: the [`BorderManager`] queues a command and wakes its thread
//! up with a message. That thread makes the borders, one after the other, and enters them in the
//! [`Borders`] of the application, by the window that they belong to.

use std::collections::{HashMap, VecDeque};
use vstd::prelude::*;
use crate::protocol::{ErrorCode, Outcome};

verus! {

broadcast use vstd::std_specs::hash::group_hash_axioms;

/// What the manager can be asked to do. The rule for the window is none of its business.
#[derive(Debug, PartialEq, Eq)]
pub enum BorderCommand<R> {
    Create { tracking_window: isize, window_rule: R },
}

/// The queue of the thread that makes borders, and how to wake it up.
#[derive(Debug)]
pub struct BorderManager<R> {
    pub thread_id: u32,
    /// The message that wakes the thread up.
    pub create_message: u32,
    pub commands: VecDeque<BorderCommand<R>>,
}

/// A message that is to be posted to a thread.
#[derive(Debug, Clone, Copy, PartialEq, Eq, Structural)]
pub struct ThreadPost {
    pub thread_id: u32,
    pub message: u32,
}

/// What the thread does on a message.
#[derive(Debug, Clone, Copy, PartialEq, Eq, Structural)]
pub enum LoopStep {
    /// End.
    Stop,
    /// Carry out commands until none is left.
    Drain,
    /// Hand the message to the window that it is for.
    Dispatch,
}

impl<R> BorderManager<R> {
    /// The manager of a thread, with nothing to do.
    pub fn new(thread_id: u32, create_message: u32) -> (r: Self)
        ensures
            r.thread_id == thread_id,
            r.create_message == create_message,
            r.commands@ == Seq::<BorderCommand<R>>::empty(),
    {
        BorderManager { thread_id, create_message, commands: VecDeque::new() }
    }

    /// Asks for a border. Returns the message that wakes the thread up.
    pub fn create_border(&mut self, tracking_window: isize, window_rule: R) -> (r: ThreadPost)
        ensures
            final(self).commands@ == old(self).commands@.push(
                BorderCommand::Create { tracking_window, window_rule },
            ),
            final(self).thread_id == old(self).thread_id,
            final(self).create_message == old(self).create_message,
            r == (ThreadPost {
                thread_id: old(self).thread_id,
                message: old(self).create_message,
            }),
    {
        self.commands.push_back(BorderCommand::Create { tracking_window, window_rule });
        ThreadPost { thread_id: self.thread_id, message: self.create_message }
    }

    /// What the thread does with a message that it got: `got` is what asking for a message
    /// returned, which is zero when there will be no more. Only a message that is for no window
    /// can be a call to make borders.
    pub fn on_message(&self, got: i32, hwnd: isize, message: u32) -> (r: LoopStep)
        ensures
            r is Stop <==> got == 0,
            r is Drain <==> got != 0 && hwnd == 0 && message == self.create_message,
    {
        if got == 0 {
            LoopStep::Stop
        } else if hwnd == 0 && message == self.create_message {
            LoopStep::Drain
        } else {
            LoopStep::Dispatch
        }
    }

    /// The next command, the one that has waited longest.
    pub fn take_command(&mut self) -> (r: Option<BorderCommand<R>>)
        ensures
            final(self).thread_id == old(self).thread_id,
            final(self).create_message == old(self).create_message,
            match r {
                None => old(self).commands@.len() == 0 && final(self).commands@ == old(
                    self,
                ).commands@,
                Some(command) => old(self).commands@.len() > 0 && command
                    == old(self).commands@.first() && final(self).commands@
                    == old(self).commands@.drop_first(),
            },
    {
        let r = self.commands.pop_front();
        proof {
            if old(self).commands@.len() > 0 {
                assert(self.commands@ =~= old(self).commands@.drop_first());
            }
        }
        r
    }
}

/// The border windows of the application, by the windows that they belong to.
#[derive(Debug)]
pub struct Borders {
    pub windows: HashMap<isize, isize>,
}

/// What happened in the making of a border.
#[derive(Debug, Clone, Copy, PartialEq, Eq)]
pub enum CreationEvent {
    /// The border was asked for.
    Asked,
    /// Its window was made, or could not be made.
    Made(Result<isize, ErrorCode>),
    /// The border was set up, or could not be set up.
    Initialized(Outcome),
}

/// What is done next in the making of a border.
#[derive(Debug, Clone, Copy, PartialEq, Eq, Structural)]
pub enum CreationStep {
    /// Nothing more.
    Nothing,
    /// Make the window of the border.
    MakeWindow,
    /// Set the border up.
    Initialize,
    /// Throw the border away.
    Discard,
    /// Leave the border to its window, which frees it when it is destroyed.
    Transfer,
}

/// What `create_border_internal` does to the entries, and what it returns.
pub open spec fn creation_step(
    windows: Map<isize, isize>,
    tracking_window: isize,
    event: CreationEvent,
) -> (Map<isize, isize>, CreationStep) {
    match event {
        CreationEvent::Asked => (
            windows,
            if windows.contains_key(tracking_window) {
                CreationStep::Nothing
            } else {
                CreationStep::MakeWindow
            },
        ),
        CreationEvent::Made(Ok(window)) => (
            windows.insert(tracking_window, window),
            CreationStep::Initialize,
        ),
        CreationEvent::Made(Err(_)) => (windows, CreationStep::Nothing),
        CreationEvent::Initialized(Ok(_)) => (windows, CreationStep::Transfer),
        CreationEvent::Initialized(Err(_)) => (
            windows.remove(tracking_window),
            CreationStep::Discard,
        ),
    }
}

impl Borders {
    /// No borders.
    pub fn new() -> (r: Self)
        ensures
            r.windows@ == Map::<isize, isize>::empty(),
    {
        Borders { windows: HashMap::new() }
    }

    /// The making of a border, from one event to the next. A window that has a border gets no
    /// second one. A border is entered before it is set up, and taken out again if that fails.
    pub fn create_border_internal(&mut self, tracking_window: isize, event: CreationEvent) -> (r:
        CreationStep)
        ensures
            (final(self).windows@, r) == creation_step(
                old(self).windows@,
                tracking_window,
                event,
            ),
    {
        match event {
            CreationEvent::Asked => {
                if self.windows.contains_key(&tracking_window) {
                    CreationStep::Nothing
                } else {
                    CreationStep::MakeWindow
                }
            },
            CreationEvent::Made(Ok(window)) => {
                self.windows.insert(tracking_window, window);
                CreationStep::Initialize
            },
            CreationEvent::Made(Err(_)) => CreationStep::Nothing,
            CreationEvent::Initialized(Ok(_)) => CreationStep::Transfer,
            CreationEvent::Initialized(Err(_)) => {
                self.windows.remove(&tracking_window);
                CreationStep::Discard
            },
        }
    }

    /// Takes out the border of a window.
    pub fn forget(&mut self, tracking_window: isize)
        ensures
            final(self).windows@ == old(self).windows@.remove(tracking_window),
    {
        self.windows.remove(&tracking_window);
    }
}

/// Commands are carried out in the order in which they were given: whatever is asked for after a
/// command does not change that the command comes first.
pub proof fn commands_are_carried_out_in_order<R>(
    commands: Seq<BorderCommand<R>>,
    command: BorderCommand<R>,
)
    requires
        commands.len() > 0,
    ensures
        commands.push(command).first() == commands.first(),
        commands.push(command).drop_first() == commands.drop_first().push(command),
{
    assert(commands.push(command).drop_first() =~= commands.drop_first().push(command));
}

/// A border that cannot be set up leaves the entries as if it had never been asked for; one that
/// can be is the border of its window from then on, and no second one is made.
pub proof fn a_border_is_entered_or_leaves_no_trace(
    windows: Map<isize, isize>,
    tracking_window: isize,
    window: isize,
    outcome: Outcome,
)
    requires
        creation_step(windows, tracking_window, CreationEvent::Asked).1 is MakeWindow,
    ensures
        ({
            let made = creation_step(windows, tracking_window, CreationEvent::Made(Ok(window))).0;
            let (after, step) = creation_step(
                made,
                tracking_window,
                CreationEvent::Initialized(outcome),
            );
            &&& creation_step(made, tracking_window, CreationEvent::Asked).1 is Nothing
            &&& outcome is Err ==> after == windows && step is Discard
            &&& outcome is Ok ==> after == windows.insert(tracking_window, window) && step
                is Transfer && creation_step(after, tracking_window, CreationEvent::Asked).1
                is Nothing
        }),
{
    assert(windows.insert(tracking_window, window).remove(tracking_window) =~= windows);
}

} // verus!
