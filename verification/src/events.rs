//! Requests that menus and timers hand to the window's event loop.
use std::path::PathBuf;
use vstd::prelude::*;
use winit::event_loop::EventLoopProxy;

verus! {

/// A path of the file system.
#[verifier::external_type_specification]
#[verifier::external_body]
pub struct ExPathBuf(std::path::PathBuf);

/// winit's handle for waking the event loop with a user event.
#[verifier::external_type_specification]
#[verifier::external_body]
#[verifier::reject_recursive_types(T)]
pub struct ExEventLoopProxy<T: 'static>(winit::event_loop::EventLoopProxy<T>);

/// `PathBuf::clone`, which copies the path; nothing is stated of the copy.
pub assume_specification[ <std::path::PathBuf as std::clone::Clone>::clone ](p: &PathBuf) -> PathBuf;

/// What the event loop is asked to do on the front end's behalf.
#[derive(Debug, Clone)]
pub enum UserEvent {
    Redraw,
    NewFile,
    OpenFile(PathBuf),
    OpenDirectory(PathBuf),
    Save,
    CloseBuffer,
    Undo,
    Redo,
    Paste,
    Tutor,
}

/// A proxy of the event loop, with a record of every event handed to it.
pub struct EventSender {
    proxy: EventLoopProxy<UserEvent>,
    sent: Ghost<Seq<UserEvent>>,
}

impl EventSender {
    /// The events handed to the proxy so far, in order.
    pub closed spec fn sent(&self) -> Seq<UserEvent> {
        self.sent@
    }

    /// The proxy the events go to.
    pub closed spec fn proxy(&self) -> EventLoopProxy<UserEvent> {
        self.proxy
    }

    /// A sender through `proxy` that has sent nothing yet.
    pub fn new(proxy: EventLoopProxy<UserEvent>) -> (s: EventSender)
        ensures
            s.proxy() == proxy,
            s.sent() == Seq::<UserEvent>::empty(),
    {
        EventSender { proxy, sent: Ghost(Seq::empty()) }
    }

    /// Calls winit's `EventLoopProxy::send_event` with `event`: it queues
    /// the event for the event loop the proxy was made from, or hands it
    /// back once that loop no longer exists. The contract records that this
    /// event, and no other, is handed to the proxy, which is left as it was.
    /// The result says whether it was queued; which of the two happens
    /// depends on the event loop's state, so nothing is stated of it.
    #[verifier::external_body]
    fn send(&mut self, event: UserEvent) -> (queued: bool)
        ensures
            final(self).proxy == old(self).proxy,
            final(self).sent@ == old(self).sent@.push(event),
    {
        self.proxy.send_event(event).is_ok()
    }
}

/// Hand `event` to the event loop through the stored sender, if one is
/// stored; a closed event loop drops it. Returns whether it was queued,
/// which it never is without a sender.
pub fn send_event(sender: &mut Option<EventSender>, event: UserEvent) -> (queued: bool)
    ensures
        *old(sender) is None ==> !queued && *final(sender) is None,
        *old(sender) is Some ==> {
            &&& *final(sender) is Some
            &&& final(sender).unwrap().proxy() == old(sender).unwrap().proxy()
            &&& final(sender).unwrap().sent() == old(sender).unwrap().sent().push(event)
        },
{
    match sender {
        Some(s) => s.send(event),
        None => false,
    }
}

} // verus!
