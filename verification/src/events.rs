use vstd::prelude::*;

verus! {

/// The process-wide run flag: set at startup, cleared by a close or destroy
/// event (or by the loop controller on shutdown), read at the top of every
/// loop iteration to decide termination. Only the event dispatcher and the
/// loop controller write it.
pub struct RunningFlag {
    value: bool,
}

impl View for RunningFlag {
    type V = bool;

    closed spec fn view(&self) -> bool {
        self.value
    }
}

impl RunningFlag {
    /// A flag holding `initial`: the loop controller creates it cleared
    /// while setup runs and set the moment the loop starts.
    pub fn new(initial: bool) -> (flag: RunningFlag)
        ensures
            flag@ == initial,
    {
        RunningFlag { value: initial }
    }

    /// Clears the flag, as close and destroy handling does.
    pub fn clear(&mut self)
        ensures
            final(self)@ == false,
    {
        self.value = false;
    }

    /// Reads the flag.
    pub fn is_set(&self) -> (set: bool)
        ensures
            set == self@,
    {
        self.value
    }
}

/// One message retrieved from the window system's queue, reduced to the
/// kinds the platform layer distinguishes.
#[derive(Clone, Copy, Debug, PartialEq, Eq, Structural)]
pub enum WindowMessage {
    /// The user asked the window to close.
    Close,
    /// The window is being destroyed.
    Destroy,
    /// A key went down; carries the key code.
    Key(u64),
    /// A pointer button went down.
    PointerButton,
    /// The window system asks for an immediate repaint.
    PaintRequest,
    /// Any other kind; the window system's default handling takes it.
    Other,
}

/// What the caller must do after one message was dispatched. Everything
/// that changes platform state happens inside the dispatcher itself; these
/// are the outward effects.
#[derive(Clone, Copy, Debug, PartialEq, Eq, Structural)]
pub enum DispatchAction {
    /// Fully handled inside the layer; nothing to do outside.
    Handled,
    /// Forward the key code to the diagnostic observer.
    LogKey(u64),
    /// Forward the pointer click to the diagnostic observer.
    LogPointer,
    /// Present the surface's current content right away, at the window's
    /// current dimension, independent of the loop's own cadence.
    Present,
    /// Hand the message back to the window system's default handling,
    /// unmodified.
    ForwardToSystem,
}

/// A message whose dispatch clears the running flag.
pub open spec fn stops_running(message: WindowMessage) -> bool {
    message is Close || message is Destroy
}

/// The outward effect each message kind maps to; exactly one handler per
/// kind.
pub open spec fn spec_dispatch_action(message: WindowMessage) -> DispatchAction {
    match message {
        WindowMessage::Close => DispatchAction::Handled,
        WindowMessage::Destroy => DispatchAction::Handled,
        WindowMessage::Key(code) => DispatchAction::LogKey(code),
        WindowMessage::PointerButton => DispatchAction::LogPointer,
        WindowMessage::PaintRequest => DispatchAction::Present,
        WindowMessage::Other => DispatchAction::ForwardToSystem,
    }
}

/// Some message of the batch clears the running flag.
pub open spec fn batch_stops(messages: Seq<WindowMessage>) -> bool {
    exists|i: int| 0 <= i < messages.len() && stops_running(messages[i])
}

/// Dispatches one message to its handler: a close or destroy kind clears
/// the running flag and needs nothing further; every other kind leaves the
/// flag alone and yields its outward effect.
pub fn dispatch(flag: &mut RunningFlag, message: &WindowMessage) -> (action: DispatchAction)
    ensures
        action == spec_dispatch_action(*message),
        final(flag)@ == (old(flag)@ && !stops_running(*message)),
{
    match message {
        WindowMessage::Close => {
            flag.clear();
            DispatchAction::Handled
        },
        WindowMessage::Destroy => {
            flag.clear();
            DispatchAction::Handled
        },
        WindowMessage::Key(code) => DispatchAction::LogKey(*code),
        WindowMessage::PointerButton => DispatchAction::LogPointer,
        WindowMessage::PaintRequest => DispatchAction::Present,
        WindowMessage::Other => DispatchAction::ForwardToSystem,
    }
}

/// What one pump cycle returns: how many pending messages were processed,
/// and the outward effect of each, in retrieval order.
pub struct PumpResult {
    pub processed: usize,
    pub actions: Vec<DispatchAction>,
}

/// Drains the messages pending this cycle without blocking and dispatches
/// each fully before the next — synchronous, single-threaded dispatch in
/// retrieval order. `messages` is this cycle's pending queue content, empty
/// when the queue was empty. Returns the count processed; the running flag
/// ends cleared exactly when it was already clear or some message of the
/// batch stops the run.
pub fn pump_nonblocking(flag: &mut RunningFlag, messages: &Vec<WindowMessage>) -> (result:
    PumpResult)
    ensures
        result.processed == messages@.len(),
        result.actions@.len() == messages@.len(),
        forall|i: int|
            0 <= i < messages@.len() ==> result.actions@[i] == spec_dispatch_action(messages@[i]),
        final(flag)@ == (old(flag)@ && !batch_stops(messages@)),
{
    let count = messages.len();
    let mut actions: Vec<DispatchAction> = Vec::new();
    let mut i: usize = 0;
    while i < count
        invariant
            count == messages@.len(),
            i <= count,
            actions@.len() == i,
            forall|j: int| 0 <= j < i ==> actions@[j] == spec_dispatch_action(messages@[j]),
            flag@ == (old(flag)@ && (forall|j: int| 0 <= j < i ==> !stops_running(messages@[j]))),
        decreases count - i,
    {
        let action = dispatch(flag, &messages[i]);
        actions.push(action);
        i += 1;
    }
    proof {
        if batch_stops(messages@) {
            let witness = choose|j: int| 0 <= j < messages@.len() && stops_running(messages@[j]);
            assert(stops_running(messages@[witness]));
        }
    }
    PumpResult { processed: count, actions }
}

/// Pumping an empty queue dispatches nothing: with the batch empty, no
/// message can stop the run, so the flag keeps its value — and the pump's
/// contract then forces a zero count and an empty action list.
pub proof fn lemma_pump_empty_batch(messages: Seq<WindowMessage>)
    requires
        messages.len() == 0,
    ensures
        !batch_stops(messages),
{
}

/// A batch holding a close or destroy message always ends the run: the
/// pump's contract leaves the flag cleared, whatever else the batch holds
/// and wherever in it the message stands — later messages need not matter.
pub proof fn lemma_close_stops_batch(messages: Seq<WindowMessage>, i: int)
    requires
        0 <= i < messages.len(),
        stops_running(messages[i]),
    ensures
        batch_stops(messages),
{
}

} // verus!
