//! The UI program: the state behind the screens and its reaction to each
//! message. Drawing the screens is the host's business.

use vstd::prelude::*;
use crate::bridge::UserEvent;

verus! {

/// The screens the program can show.
#[derive(Debug, Clone, Copy, PartialEq, Eq, Structural)]
pub enum Example {
    Integration,
    Counter,
    TextEditor,
}

impl Example {
    /// The name the screen is listed under.
    pub open spec fn label(self) -> Seq<char> {
        match self {
            Example::Integration => "Integration"@,
            Example::Counter => "Counter"@,
            Example::TextEditor => "TextEditor"@,
        }
    }

    /// The name the screen is listed under.
    pub fn name(&self) -> (name: &'static str)
        ensures
            name@ == self.label(),
    {
        match self {
            Example::Integration => "Integration",
            Example::Counter => "Counter",
            Example::TextEditor => "TextEditor",
        }
    }

    /// Every screen, in the order they are offered for selection.
    pub fn all() -> (examples: Vec<Example>)
        ensures
            examples@ == seq![Example::Integration, Example::Counter, Example::TextEditor],
    {
        let mut examples: Vec<Example> = Vec::new();
        examples.push(Example::Integration);
        examples.push(Example::Counter);
        examples.push(Example::TextEditor);
        assert(examples@ =~= seq![Example::Integration, Example::Counter, Example::TextEditor]);
        examples
    }
}

/// A colour, each channel as the bit pattern of the IEEE 754
/// single-precision intensity.
#[derive(Debug, Clone, Copy, PartialEq, Eq, Structural)]
pub struct Color {
    pub r: u32,
    pub g: u32,
    pub b: u32,
    pub a: u32,
}

impl Color {
    /// Opaque black: no intensity in any colour channel, alpha one.
    pub open spec fn black_spec() -> Color {
        Color { r: 0, g: 0, b: 0, a: 0x3f80_0000 }
    }

    /// Opaque black.
    pub fn black() -> (color: Color)
        ensures
            color == Color::black_spec(),
    {
        Color { r: 0, g: 0, b: 0, a: 0x3f80_0000 }
    }
}

/// What happened in the text editor, as far as the program tells it apart.
#[derive(Debug, Clone, Copy, PartialEq, Eq, Structural)]
pub enum EditorAction {
    /// The editor gained the focus.
    Focus,
    /// The editor lost the focus.
    Blur,
    /// Anything that changes or moves within the text.
    Edit,
}

/// A message from the widgets to the program.
#[derive(Debug, Clone, PartialEq, Eq)]
pub enum Message {
    RedChanged(u32),
    GreenChanged(u32),
    BlueChanged(u32),
    InputChanged(String),
    EditorAction(EditorAction),
    ExampleSelected(Example),
    Inc,
    Dec,
}

/// The mathematical content of a `Message`.
pub ghost enum MessageView {
    RedChanged(u32),
    GreenChanged(u32),
    BlueChanged(u32),
    InputChanged(Seq<char>),
    EditorAction(EditorAction),
    ExampleSelected(Example),
    Inc,
    Dec,
}

impl View for Message {
    type V = MessageView;

    open spec fn view(&self) -> MessageView {
        match *self {
            Message::RedChanged(r) => MessageView::RedChanged(r),
            Message::GreenChanged(g) => MessageView::GreenChanged(g),
            Message::BlueChanged(b) => MessageView::BlueChanged(b),
            Message::InputChanged(text) => MessageView::InputChanged(text@),
            Message::EditorAction(action) => MessageView::EditorAction(action),
            Message::ExampleSelected(example) => MessageView::ExampleSelected(example),
            Message::Inc => MessageView::Inc,
            Message::Dec => MessageView::Dec,
        }
    }
}

/// What the host has to do on the program's behalf after an update.
#[derive(Debug, Clone, Copy, PartialEq, Eq, Structural)]
pub enum Effect {
    /// Nothing.
    Nothing,
    /// Post the request to the dispatch loop.
    Signal(UserEvent),
    /// Let the text editor's content perform the action.
    PerformEdit,
}

/// The mathematical content of a `Controls`.
pub ghost struct ControlsView {
    pub background_color: Color,
    pub input: Seq<char>,
    pub value: int,
    pub selected_example: Example,
}

impl ControlsView {
    /// The program as it starts: black background, empty input, counter at
    /// zero, the first screen selected.
    pub open spec fn initial() -> ControlsView {
        ControlsView {
            background_color: Color::black_spec(),
            input: Seq::empty(),
            value: 0,
            selected_example: Example::Integration,
        }
    }

    /// The counter can take the message without leaving its range.
    pub open spec fn accepts(self, message: MessageView) -> bool {
        match message {
            MessageView::Inc => self.value < i32::MAX,
            MessageView::Dec => self.value > i32::MIN,
            _ => true,
        }
    }

    /// The state after a message.
    pub open spec fn after(self, message: MessageView) -> ControlsView {
        match message {
            MessageView::Inc => ControlsView { value: self.value + 1, ..self },
            MessageView::Dec => ControlsView { value: self.value - 1, ..self },
            MessageView::ExampleSelected(example) => ControlsView {
                selected_example: example,
                ..self
            },
            MessageView::InputChanged(text) => ControlsView { input: text, ..self },
            MessageView::RedChanged(r) => ControlsView {
                background_color: Color { r, ..self.background_color },
                ..self
            },
            MessageView::GreenChanged(g) => ControlsView {
                background_color: Color { g, ..self.background_color },
                ..self
            },
            MessageView::BlueChanged(b) => ControlsView {
                background_color: Color { b, ..self.background_color },
                ..self
            },
            MessageView::EditorAction(_) => self,
        }
    }

    /// What the host has to do after a message: the editor gaining the
    /// focus asks for the soft keyboard, losing it sends the keyboard away,
    /// and any other editor action is the editor content's to perform.
    pub open spec fn effect(message: MessageView) -> Effect {
        match message {
            MessageView::EditorAction(EditorAction::Focus) => Effect::Signal(
                UserEvent::ShowKeyboard,
            ),
            MessageView::EditorAction(EditorAction::Blur) => Effect::Signal(
                UserEvent::HideKeyboard,
            ),
            MessageView::EditorAction(EditorAction::Edit) => Effect::PerformEdit,
            _ => Effect::Nothing,
        }
    }
}

/// The state of the UI program.
#[derive(Debug, Clone, PartialEq, Eq)]
pub struct Controls {
    background_color: Color,
    input: String,
    value: i32,
    selected_example: Example,
}

impl View for Controls {
    type V = ControlsView;

    closed spec fn view(&self) -> ControlsView {
        ControlsView {
            background_color: self.background_color,
            input: self.input@,
            value: self.value as int,
            selected_example: self.selected_example,
        }
    }
}

impl Controls {
    /// The program as it starts.
    pub fn new() -> (controls: Controls)
        ensures
            controls@ == ControlsView::initial(),
    {
        Controls {
            background_color: Color::black(),
            input: String::new(),
            value: 0,
            selected_example: Example::Integration,
        }
    }

    /// The colour the scene is cleared to.
    pub fn background_color(&self) -> (color: Color)
        ensures
            color == self@.background_color,
    {
        self.background_color
    }

    /// The text of the input field.
    pub fn input(&self) -> (text: &String)
        ensures
            text@ == self@.input,
    {
        &self.input
    }

    /// The counter.
    pub fn value(&self) -> (value: i32)
        ensures
            value == self@.value,
    {
        self.value
    }

    /// The screen to show.
    pub fn selected_example(&self) -> (example: Example)
        ensures
            example == self@.selected_example,
    {
        self.selected_example
    }

    /// Whether the counter can take `message` without leaving its range.
    pub fn accepts(&self, message: &Message) -> (accepted: bool)
        ensures
            accepted == self@.accepts(message@),
    {
        match message {
            Message::Inc => self.value < i32::MAX,
            Message::Dec => self.value > i32::MIN,
            _ => true,
        }
    }

    /// Takes one message into the state and answers with what the host has
    /// to do on the program's behalf.
    pub fn update(&mut self, message: Message) -> (effect: Effect)
        requires
            old(self)@.accepts(message@),
        ensures
            final(self)@ == old(self)@.after(message@),
            effect == ControlsView::effect(message@),
    {
        match message {
            Message::Inc => {
                self.value = self.value + 1;
                Effect::Nothing
            },
            Message::Dec => {
                self.value = self.value - 1;
                Effect::Nothing
            },
            Message::ExampleSelected(example) => {
                self.selected_example = example;
                Effect::Nothing
            },
            Message::InputChanged(text) => {
                self.input = text;
                Effect::Nothing
            },
            Message::RedChanged(r) => {
                self.background_color.r = r;
                Effect::Nothing
            },
            Message::GreenChanged(g) => {
                self.background_color.g = g;
                Effect::Nothing
            },
            Message::BlueChanged(b) => {
                self.background_color.b = b;
                Effect::Nothing
            },
            Message::EditorAction(action) => match action {
                EditorAction::Focus => Effect::Signal(UserEvent::ShowKeyboard),
                EditorAction::Blur => Effect::Signal(UserEvent::HideKeyboard),
                EditorAction::Edit => Effect::PerformEdit,
            },
        }
    }
}

} // verus!
