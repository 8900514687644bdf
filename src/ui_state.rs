use vstd::prelude::*;
use vstd::string::*;
use crate::events::GuiEvent;

verus! {

/// The colour classes the status line and the text area can take.
#[derive(Debug, Clone, Copy, PartialEq, Eq, Structural)]
pub enum Color {
    White,
    Red,
    Green,
    Blue,
    Yellow,
    Orange,
}

impl Color {
    /// The colour's red, green and blue components.
    pub fn rgb(&self) -> (r: (u8, u8, u8))
        ensures
            r == self.spec_rgb(),
    {
        match self {
            Color::White => (255, 255, 255),
            Color::Red => (255, 0, 0),
            Color::Green => (0, 255, 0),
            Color::Blue => (0, 0, 255),
            Color::Yellow => (255, 255, 0),
            Color::Orange => (255, 165, 0),
        }
    }

    pub open spec fn spec_rgb(&self) -> (u8, u8, u8) {
        match self {
            Color::White => (255, 255, 255),
            Color::Red => (255, 0, 0),
            Color::Green => (0, 255, 0),
            Color::Blue => (0, 0, 255),
            Color::Yellow => (255, 255, 0),
            Color::Orange => (255, 165, 0),
        }
    }
}

/// The lowercase form of a string, as `str::to_lowercase` gives it.
pub uninterp spec fn lower_of(s: Seq<char>) -> Seq<char>;

/// Relies on `str::to_lowercase`: its result depends on the characters alone.
#[verifier::external_body]
fn lowercase(s: &str) -> (r: String)
    ensures
        r@ == lower_of(s@),
{
    s.to_lowercase()
}

/// The colour that an already lowercased colour name stands for; white for
/// any name that is not known.
pub open spec fn color_named(name: Seq<char>) -> Color {
    if name == "red"@ {
        Color::Red
    } else if name == "green"@ {
        Color::Green
    } else if name == "blue"@ {
        Color::Blue
    } else if name == "yellow"@ {
        Color::Yellow
    } else if name == "orange"@ {
        Color::Orange
    } else {
        Color::White
    }
}

/// Whether a string holds exactly the characters of a literal.
fn is_text(s: &String, lit: &str) -> (r: bool)
    ensures
        r == (s@ == lit@),
{
    let t = String::from_str(lit);
    *s == t
}

/// The colour for a lowercased colour name.
pub fn color_from_lower(name: &String) -> (r: Color)
    ensures
        r == color_named(name@),
{
    if is_text(name, "red") {
        Color::Red
    } else if is_text(name, "green") {
        Color::Green
    } else if is_text(name, "blue") {
        Color::Blue
    } else if is_text(name, "yellow") {
        Color::Yellow
    } else if is_text(name, "orange") {
        Color::Orange
    } else {
        Color::White
    }
}

/// The colour for a colour name, in any letter case.
pub fn parse_color(color: &str) -> (r: Color)
    ensures
        r == color_named(lower_of(color@)),
{
    let lowered = lowercase(color);
    color_from_lower(&lowered)
}


/// The merge mode under which new text is appended after a single space.
pub open spec fn append_mode() -> Seq<char> {
    "APPEND_WITH_SPACE"@
}

/// The body text after merging `new` into `existing` under `mode`: the append
/// mode adds a separating space only after non-empty text; every other mode,
/// known or not, replaces the text.
pub open spec fn merged_text(existing: Seq<char>, new: Seq<char>, mode: Seq<char>) -> Seq<char> {
    if mode == append_mode() {
        if existing.len() == 0 {
            new
        } else {
            existing + " "@ + new
        }
    } else {
        new
    }
}

/// Merges `new` into `text` under `mode`.
pub fn merge_text(text: &mut String, new: &String, mode: &String)
    ensures
        final(text)@ == merged_text(old(text)@, new@, mode@),
{
    if is_text(mode, "APPEND_WITH_SPACE") {
        if !text.as_str().is_empty() {
            text.append(" ");
        }
        text.append(new.as_str());
    } else {
        *text = new.clone();
    }
}

/// What the presentation surface shows, as plain values.
pub struct UiView {
    pub status_text: Seq<char>,
    pub status_color: Color,
    pub recognized_text: Seq<char>,
    pub text_color: Color,
    pub is_recording: bool,
}

/// A side effect that an event asks of the host rather than of the display.
#[derive(Debug)]
pub enum Effect {
    /// Invoke the host callback registered under `name` with `payload`.
    Callback { name: String, payload: String },
    /// Hand window hints to the window manager.
    WindowHint { transparent: bool, always_on_top: bool },
}

/// The state the render loop keeps between ticks.
pub struct UiState {
    pub status_text: String,
    pub status_color: Color,
    pub recognized_text: String,
    pub text_color: Color,
    pub is_recording: bool,
}

impl View for UiState {
    type V = UiView;

    open spec fn view(&self) -> UiView {
        UiView {
            status_text: self.status_text@,
            status_color: self.status_color,
            recognized_text: self.recognized_text@,
            text_color: self.text_color,
            is_recording: self.is_recording,
        }
    }
}

/// The display state after one event.
pub open spec fn applied(v: UiView, e: GuiEvent) -> UiView {
    match e {
        GuiEvent::UpdateStatus(status, color) => UiView {
            status_text: status@,
            status_color: color_named(lower_of(color@)),
            ..v
        },
        GuiEvent::UpdateText(text, mode) => UiView {
            recognized_text: merged_text(v.recognized_text, text@, mode@),
            text_color: Color::White,
            ..v
        },
        GuiEvent::SetRecording(on) => UiView {
            is_recording: on,
            status_text: if on { "Recording..."@ } else { "Ready"@ },
            status_color: if on { Color::Red } else { Color::Green },
            ..v
        },
        GuiEvent::ShowError(message) => UiView {
            status_text: "Error: "@ + message@,
            status_color: Color::Orange,
            ..v
        },
        GuiEvent::SetWindowProperties { .. } => v,
        GuiEvent::TriggerCallback(_, _) => v,
    }
}

/// The host-side effect that one event asks for, if any.
pub open spec fn effect_of(e: GuiEvent) -> Option<Effect> {
    match e {
        GuiEvent::SetWindowProperties { transparent, always_on_top } => Some(
            Effect::WindowHint { transparent, always_on_top },
        ),
        GuiEvent::TriggerCallback(name, payload) => Some(Effect::Callback { name, payload }),
        _ => None,
    }
}

/// The display state after a sequence of events, applied in order.
pub open spec fn applied_all(v: UiView, events: Seq<GuiEvent>) -> UiView
    decreases events.len(),
{
    if events.len() == 0 {
        v
    } else {
        applied(applied_all(v, events.drop_last()), events.last())
    }
}

/// The effects that a sequence of events asks for, in order.
pub open spec fn effects_of(events: Seq<GuiEvent>) -> Seq<Effect>
    decreases events.len(),
{
    if events.len() == 0 {
        Seq::empty()
    } else {
        match effect_of(events.last()) {
            Some(x) => effects_of(events.drop_last()).push(x),
            None => effects_of(events.drop_last()),
        }
    }
}

impl UiState {
    /// The state before any event: "Ready" in white, no text, not recording.
    pub fn new() -> (r: UiState)
        ensures
            r@.status_text == "Ready"@,
            r@.status_color == Color::White,
            r@.recognized_text == Seq::<char>::empty(),
            r@.text_color == Color::White,
            !r@.is_recording,
    {
        UiState {
            status_text: String::from_str("Ready"),
            status_color: Color::White,
            recognized_text: String::new(),
            text_color: Color::White,
            is_recording: false,
        }
    }

    /// Applies one event to the display state and returns the host-side
    /// effect it asks for.
    pub fn apply(&mut self, e: &GuiEvent) -> (r: Option<Effect>)
        ensures
            final(self)@ == applied(old(self)@, *e),
            r == effect_of(*e),
    {
        match e {
            GuiEvent::UpdateStatus(status, color) => {
                self.status_text = status.clone();
                self.status_color = parse_color(color.as_str());
                None
            },
            GuiEvent::UpdateText(text, mode) => {
                merge_text(&mut self.recognized_text, text, mode);
                self.text_color = Color::White;
                None
            },
            GuiEvent::SetRecording(on) => {
                self.is_recording = *on;
                if *on {
                    self.status_text = String::from_str("Recording...");
                    self.status_color = Color::Red;
                } else {
                    self.status_text = String::from_str("Ready");
                    self.status_color = Color::Green;
                }
                None
            },
            GuiEvent::ShowError(message) => {
                let mut status = String::from_str("Error: ");
                status.append(message.as_str());
                self.status_text = status;
                self.status_color = Color::Orange;
                None
            },
            GuiEvent::SetWindowProperties { transparent, always_on_top } => Some(
                Effect::WindowHint { transparent: *transparent, always_on_top: *always_on_top },
            ),
            GuiEvent::TriggerCallback(name, payload) => Some(
                Effect::Callback { name: name.clone(), payload: payload.clone() },
            ),
        }
    }

    /// Applies a batch of events in arrival order and returns the effects they
    /// ask for, in the same order.
    pub fn apply_batch(&mut self, events: &Vec<GuiEvent>) -> (r: Vec<Effect>)
        ensures
            final(self)@ == applied_all(old(self)@, events@),
            r@ == effects_of(events@),
    {
        let mut effects: Vec<Effect> = Vec::new();
        let mut i: usize = 0;
        while i < events.len()
            invariant
                i <= events@.len(),
                self@ == applied_all(old(self)@, events@.take(i as int)),
                effects@ == effects_of(events@.take(i as int)),
            decreases events@.len() - i,
        {
            proof {
                assert(events@.take(i as int + 1).drop_last() == events@.take(i as int));
            }
            let effect = self.apply(&events[i]);
            match effect {
                Some(x) => effects.push(x),
                None => {},
            }
            i = i + 1;
        }
        proof {
            assert(events@.take(i as int) == events@);
        }
        effects
    }
}


/// Events drained over successive ticks are applied as one sequence in
/// arrival order: applying `a` and then `b` is applying `a` followed by `b`,
/// and the effects come out in that same order.
pub proof fn lemma_batches_keep_order(v: UiView, a: Seq<GuiEvent>, b: Seq<GuiEvent>)
    ensures
        applied_all(v, a + b) == applied_all(applied_all(v, a), b),
        effects_of(a + b) == effects_of(a) + effects_of(b),
    decreases b.len(),
{
    if b.len() == 0 {
        assert(a + b == a);
        assert(effects_of(a) + effects_of(b) == effects_of(a));
    } else {
        assert((a + b).drop_last() == a + b.drop_last());
        assert((a + b).last() == b.last());
        lemma_batches_keep_order(v, a, b.drop_last());
        match effect_of(b.last()) {
            Some(x) => {
                assert(effects_of(a) + effects_of(b.drop_last()).push(x) == (effects_of(a)
                    + effects_of(b.drop_last())).push(x));
            },
            None => {},
        }
    }
}

/// In append mode, new text after empty text is exactly the new text, and
/// after non-empty text it follows the old text and one space.
pub proof fn lemma_append_with_space(existing: Seq<char>, new: Seq<char>)
    ensures
        existing.len() == 0 ==> merged_text(existing, new, "APPEND_WITH_SPACE"@) == new,
        existing.len() > 0 ==> merged_text(existing, new, "APPEND_WITH_SPACE"@) == existing + " "@
            + new,
{
}

/// Any mode other than append behaves as replace.
pub proof fn lemma_unknown_mode_replaces(existing: Seq<char>, new: Seq<char>, mode: Seq<char>)
    requires
        mode != "APPEND_WITH_SPACE"@,
    ensures
        merged_text(existing, new, mode) == merged_text(existing, new, "REPLACE"@),
        merged_text(existing, new, mode) == new,
{
    reveal_strlit("REPLACE");
    reveal_strlit("APPEND_WITH_SPACE");
    assert("REPLACE"@ != "APPEND_WITH_SPACE"@) by {
        assert("REPLACE"@.len() != "APPEND_WITH_SPACE"@.len());
    }
}

/// A change of the recording flag sets the status line to "Recording..." or
/// "Ready", whatever came earlier in the same batch.
pub proof fn lemma_recording_sets_status(v: UiView, earlier: Seq<GuiEvent>, on: bool)
    ensures
        applied_all(v, earlier.push(GuiEvent::SetRecording(on))).status_text == if on {
            "Recording..."@
        } else {
            "Ready"@
        },
        applied_all(v, earlier.push(GuiEvent::SetRecording(on))).is_recording == on,
{
    assert(earlier.push(GuiEvent::SetRecording(on)).drop_last() == earlier);
}

} // verus!
