use vstd::prelude::*;

verus! {

/// A message from the host to the presentation surface.
#[derive(Debug, Clone)]
pub enum GuiEvent {
    /// New status text and a colour name.
    UpdateStatus(String, String),
    /// New recognised text and its merge mode.
    UpdateText(String, String),
    /// Recording switched on or off.
    SetRecording(bool),
    /// An error to show in the status line.
    ShowError(String),
    /// Window hints, passed through to the window manager.
    SetWindowProperties { transparent: bool, always_on_top: bool },
    /// A request to invoke the host callback registered under a name, with a payload.
    TriggerCallback(String, String),
}

impl GuiEvent {
    /// Whether the event is of a kind that producers emit at a high rate.
    pub open spec fn spec_is_high_frequency(&self) -> bool {
        self is UpdateText || self is UpdateStatus
    }

    pub fn is_high_frequency(&self) -> (r: bool)
        ensures
            r == self.spec_is_high_frequency(),
    {
        match self {
            GuiEvent::UpdateText(_, _) | GuiEvent::UpdateStatus(_, _) => true,
            _ => false,
        }
    }
}

} // verus!
