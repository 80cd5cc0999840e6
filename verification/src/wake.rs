//! Waking the thread of the webviews.
use vstd::prelude::*;

verus! {

/// How many bytes wake the thread up.
pub const WAKE_SIZE: usize = 1;

/// What happened while the thread was woken up.
pub enum WakeEvent {
    /// So many bytes were read; a negative number is an error.
    Read(isize),
    /// The thread was attached to the Java virtual machine, or could not be.
    Attached(bool),
    /// A message was handled, with or without an error.
    Handled(bool),
}

/// What to do next while the thread is being woken up.
#[derive(Clone, Copy, PartialEq, Eq, Structural, Debug)]
pub enum WakeAction {
    /// Attach the thread to the Java virtual machine.
    Attach,
    /// Handle a message.
    Handle,
    /// Go back to sleep, and be woken up again.
    Keep,
    /// Go back to sleep for good.
    Unregister,
}

/// What to do next. Only a message that fails ends the waking; a read that comes out short or a
/// thread that cannot be attached does not, since messages may be waiting.
pub fn wake(event: WakeEvent) -> (r: WakeAction)
    ensures
        r == match event {
            WakeEvent::Read(n) => if n == WAKE_SIZE {
                WakeAction::Attach
            } else {
                WakeAction::Keep
            },
            WakeEvent::Attached(attached) => if attached {
                WakeAction::Handle
            } else {
                WakeAction::Keep
            },
            WakeEvent::Handled(fine) => if fine {
                WakeAction::Keep
            } else {
                WakeAction::Unregister
            },
        },
        r == WakeAction::Attach <==> event == WakeEvent::Read(1),
        r == WakeAction::Handle <==> event == WakeEvent::Attached(true),
        r == WakeAction::Unregister <==> event == WakeEvent::Handled(false),
{
    match event {
        WakeEvent::Read(n) => if n == WAKE_SIZE as isize {
            WakeAction::Attach
        } else {
            WakeAction::Keep
        },
        WakeEvent::Attached(attached) => if attached {
            WakeAction::Handle
        } else {
            WakeAction::Keep
        },
        WakeEvent::Handled(fine) => if fine {
            WakeAction::Keep
        } else {
            WakeAction::Unregister
        },
    }
}

} // verus!
