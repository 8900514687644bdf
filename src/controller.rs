use vstd::prelude::*;
use crate::channel::{open_channel, EventSender};
use crate::events::GuiEvent;

verus! {

/// What the producer-side operations can report.
#[derive(Debug, Clone, Copy, PartialEq, Eq, Structural)]
pub enum ControllerError {
    /// The consumer end of the channel is gone; the event was not delivered.
    ChannelClosed,
    /// The render loop already holds the consumer end.
    AlreadyRunning,
}

impl ControllerError {
    /// A human-readable description of the error.
    pub fn message(&self) -> (r: String)
        ensures
            self is ChannelClosed ==> r@ == "event channel closed"@,
            self is AlreadyRunning ==> r@ == "GUI already running"@,
    {
        match self {
            ControllerError::ChannelClosed => String::from_str("event channel closed"),
            ControllerError::AlreadyRunning => String::from_str("GUI already running"),
        }
    }
}

/// The producer-facing side of the event channel. It hands the consumer end
/// out exactly once.
pub struct GuiController {
    sender: EventSender,
    receiver: Option<crossbeam_channel::Receiver<GuiEvent>>,
}

impl GuiController {
    /// Whether the consumer end has been handed to a render loop.
    pub closed spec fn is_running(&self) -> bool {
        self.receiver is None
    }

    /// The events this controller has handed to the channel, oldest first.
    pub closed spec fn sent(&self) -> Seq<GuiEvent> {
        self.sender.sent()
    }

    /// A controller with a fresh channel and no consumer started.
    pub fn new() -> (r: GuiController)
        ensures
            !r.is_running(),
            r.sent() == Seq::<GuiEvent>::empty(),
    {
        let (tx, rx) = open_channel();
        GuiController { sender: EventSender::new(tx), receiver: Some(rx) }
    }

    /// Hands out the consumer end for the render loop. A second call fails
    /// with `AlreadyRunning` and leaves the controller, and the consumer
    /// already handed out, as they were.
    pub fn run(&mut self) -> (r: Result<crossbeam_channel::Receiver<GuiEvent>, ControllerError>)
        ensures
            final(self).is_running(),
            final(self).sent() == old(self).sent(),
            r is Ok <==> !old(self).is_running(),
            old(self).is_running() ==> r == Err::<
                crossbeam_channel::Receiver<GuiEvent>,
                ControllerError,
            >(ControllerError::AlreadyRunning) && *final(self) == *old(self),
    {
        match self.receiver.take() {
            Some(rx) => Ok(rx),
            None => Err(ControllerError::AlreadyRunning),
        }
    }

    /// Sends one event. On success it is queued behind every event sent
    /// before; the only failure is `ChannelClosed`, when the consumer is gone,
    /// and then nothing is queued.
    fn emit(&mut self, e: GuiEvent) -> (r: Result<(), ControllerError>)
        ensures
            final(self).is_running() == old(self).is_running(),
            r is Ok ==> final(self).sent() == old(self).sent().push(e),
            r is Err ==> r == Err::<(), ControllerError>(ControllerError::ChannelClosed)
                && final(self).sent() == old(self).sent(),
    {
        match self.sender.send(e) {
            Ok(()) => Ok(()),
            Err(_) => Err(ControllerError::ChannelClosed),
        }
    }

    /// Emits a status update with a colour name.
    pub fn update_status(&mut self, status: String, color: String) -> (r: Result<(), ControllerError>)
        ensures
            final(self).is_running() == old(self).is_running(),
            r is Ok ==> final(self).sent() == old(self).sent().push(GuiEvent::UpdateStatus(status, color)),
            r is Err ==> r == Err::<(), ControllerError>(ControllerError::ChannelClosed)
                && final(self).sent() == old(self).sent(),
    {
        self.emit(GuiEvent::UpdateStatus(status, color))
    }

    /// Emits recognised text with its merge mode.
    pub fn update_text(&mut self, text: String, decision: String) -> (r: Result<(), ControllerError>)
        ensures
            final(self).is_running() == old(self).is_running(),
            r is Ok ==> final(self).sent() == old(self).sent().push(GuiEvent::UpdateText(text, decision)),
            r is Err ==> r == Err::<(), ControllerError>(ControllerError::ChannelClosed)
                && final(self).sent() == old(self).sent(),
    {
        self.emit(GuiEvent::UpdateText(text, decision))
    }

    /// Emits a change of the recording flag.
    pub fn set_recording(&mut self, is_recording: bool) -> (r: Result<(), ControllerError>)
        ensures
            final(self).is_running() == old(self).is_running(),
            r is Ok ==> final(self).sent() == old(self).sent().push(GuiEvent::SetRecording(is_recording)),
            r is Err ==> r == Err::<(), ControllerError>(ControllerError::ChannelClosed)
                && final(self).sent() == old(self).sent(),
    {
        self.emit(GuiEvent::SetRecording(is_recording))
    }

    /// Emits an error message for the status line.
    pub fn show_error(&mut self, error_message: String) -> (r: Result<(), ControllerError>)
        ensures
            final(self).is_running() == old(self).is_running(),
            r is Ok ==> final(self).sent() == old(self).sent().push(GuiEvent::ShowError(error_message)),
            r is Err ==> r == Err::<(), ControllerError>(ControllerError::ChannelClosed)
                && final(self).sent() == old(self).sent(),
    {
        self.emit(GuiEvent::ShowError(error_message))
    }

    /// Emits window hints for the window manager.
    pub fn set_window_properties(&mut self, transparent: bool, always_on_top: bool) -> (r: Result<(), ControllerError>)
        ensures
            final(self).is_running() == old(self).is_running(),
            r is Ok ==> final(self).sent() == old(self).sent().push((GuiEvent::SetWindowProperties { transparent, always_on_top })),
            r is Err ==> r == Err::<(), ControllerError>(ControllerError::ChannelClosed)
                && final(self).sent() == old(self).sent(),
    {
        self.emit(GuiEvent::SetWindowProperties { transparent, always_on_top })
    }

    /// Emits a request to invoke a host callback by name.
    pub fn trigger_callback(&mut self, name: String, payload: String) -> (r: Result<(), ControllerError>)
        ensures
            final(self).is_running() == old(self).is_running(),
            r is Ok ==> final(self).sent() == old(self).sent().push(GuiEvent::TriggerCallback(name, payload)),
            r is Err ==> r == Err::<(), ControllerError>(ControllerError::ChannelClosed)
                && final(self).sent() == old(self).sent(),
    {
        self.emit(GuiEvent::TriggerCallback(name, payload))
    }
}

} // verus!
