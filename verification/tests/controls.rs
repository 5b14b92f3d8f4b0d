use window_host::bridge::{settle, BridgeCall, Diagnostic, UserEvent};
use window_host::controls::{Color, Controls, EditorAction, Effect, Example, Message};

#[test]
fn controls_start_black_empty_and_at_zero() {
    let controls = Controls::new();
    assert_eq!(controls.background_color(), Color::black());
    assert_eq!(controls.input(), "");
    assert_eq!(controls.value(), 0);
    assert_eq!(controls.selected_example(), Example::Integration);
}

#[test]
fn black_is_opaque() {
    let black = Color::black();
    assert_eq!(f32::from_bits(black.r), 0.0);
    assert_eq!(f32::from_bits(black.g), 0.0);
    assert_eq!(f32::from_bits(black.b), 0.0);
    assert_eq!(f32::from_bits(black.a), 1.0);
}

#[test]
fn counter_messages_move_the_value_by_one() {
    let mut controls = Controls::new();
    assert_eq!(controls.update(Message::Inc), Effect::Nothing);
    assert_eq!(controls.update(Message::Inc), Effect::Nothing);
    assert_eq!(controls.value(), 2);
    assert_eq!(controls.update(Message::Dec), Effect::Nothing);
    assert_eq!(controls.update(Message::Dec), Effect::Nothing);
    assert_eq!(controls.update(Message::Dec), Effect::Nothing);
    assert_eq!(controls.value(), -1);
}

#[test]
fn colour_messages_set_one_channel_each() {
    let mut controls = Controls::new();
    controls.update(Message::RedChanged(0.25f32.to_bits()));
    controls.update(Message::GreenChanged(0.5f32.to_bits()));
    controls.update(Message::BlueChanged(0.75f32.to_bits()));
    let color = controls.background_color();
    assert_eq!(f32::from_bits(color.r), 0.25);
    assert_eq!(f32::from_bits(color.g), 0.5);
    assert_eq!(f32::from_bits(color.b), 0.75);
    assert_eq!(f32::from_bits(color.a), 1.0);
    controls.update(Message::GreenChanged(0.0f32.to_bits()));
    assert_eq!(
        controls.background_color(),
        Color { r: 0.25f32.to_bits(), g: 0, b: 0.75f32.to_bits(), a: 1.0f32.to_bits() }
    );
}

#[test]
fn input_and_selection_messages_replace_their_field() {
    let mut controls = Controls::new();
    assert_eq!(controls.update(Message::InputChanged("hello".to_string())), Effect::Nothing);
    assert_eq!(controls.input(), "hello");
    assert_eq!(controls.update(Message::ExampleSelected(Example::TextEditor)), Effect::Nothing);
    assert_eq!(controls.selected_example(), Example::TextEditor);
    assert_eq!(controls.update(Message::ExampleSelected(Example::Counter)), Effect::Nothing);
    assert_eq!(controls.selected_example(), Example::Counter);
    assert_eq!(controls.input(), "hello");
    assert_eq!(controls.value(), 0);
}

#[test]
fn editor_focus_and_blur_ask_for_the_keyboard() {
    let mut controls = Controls::new();
    let before = controls.clone();
    assert_eq!(
        controls.update(Message::EditorAction(EditorAction::Focus)),
        Effect::Signal(UserEvent::ShowKeyboard)
    );
    assert_eq!(
        controls.update(Message::EditorAction(EditorAction::Blur)),
        Effect::Signal(UserEvent::HideKeyboard)
    );
    assert_eq!(controls.update(Message::EditorAction(EditorAction::Edit)), Effect::PerformEdit);
    assert_eq!(controls, before);
}

#[test]
fn every_message_is_accepted_within_the_counter_range() {
    let controls = Controls::new();
    assert!(controls.accepts(&Message::Inc));
    assert!(controls.accepts(&Message::Dec));
    assert!(controls.accepts(&Message::InputChanged(String::new())));
    assert!(controls.accepts(&Message::EditorAction(EditorAction::Edit)));
    assert!(controls.accepts(&Message::RedChanged(u32::MAX)));
}

#[test]
fn example_names_and_order() {
    assert_eq!(Example::Integration.name(), "Integration");
    assert_eq!(Example::Counter.name(), "Counter");
    assert_eq!(Example::TextEditor.name(), "TextEditor");
    assert_eq!(
        Example::all(),
        vec![Example::Integration, Example::Counter, Example::TextEditor]
    );
}

#[test]
fn bridge_methods_and_signatures() {
    assert_eq!(BridgeCall::Invoke(UserEvent::ShowKeyboard).method(), "showKeyboard");
    assert_eq!(BridgeCall::Invoke(UserEvent::HideKeyboard).method(), "hideKeyboard");
    assert_eq!(BridgeCall::ReadText.method(), "readClipboard");
    assert_eq!(BridgeCall::WriteText.method(), "writeClipboard");
    assert_eq!(BridgeCall::Invoke(UserEvent::ShowKeyboard).signature(), "()V");
    assert_eq!(BridgeCall::Invoke(UserEvent::HideKeyboard).signature(), "()V");
    assert_eq!(BridgeCall::ReadText.signature(), "()Ljava/lang/String;");
    assert_eq!(BridgeCall::WriteText.signature(), "(Ljava/lang/String;)V");
}

#[test]
fn settled_success_hands_on_the_value_and_logs_nothing() {
    let settled = settle(BridgeCall::ReadText, Ok("copied".to_string()));
    assert_eq!(settled.value, Some("copied".to_string()));
    assert_eq!(settled.diagnostic, None);
    let settled = settle(BridgeCall::WriteText, Ok(()));
    assert_eq!(settled.value, Some(()));
    assert_eq!(settled.diagnostic, None);
}

#[test]
fn settled_read_failure_is_absent_text_and_one_diagnostic() {
    let settled = settle::<String>(BridgeCall::ReadText, Err("no clipboard".to_string()));
    assert_eq!(settled.value, None);
    assert_eq!(
        settled.diagnostic,
        Some(Diagnostic { call: BridgeCall::ReadText, reason: "no clipboard".to_string() })
    );
}

#[test]
fn show_keyboard_failure_is_seen_in_the_log_only() {
    let mut controls = Controls::new();
    controls.update(Message::Inc);
    let effect = controls.update(Message::EditorAction(EditorAction::Focus));
    let Effect::Signal(event) = effect else {
        panic!("gaining the focus asks for the keyboard");
    };
    let before = controls.clone();

    let call = BridgeCall::Invoke(event);
    let settled = settle::<()>(call, Err("java.lang.NoSuchMethodError".to_string()));
    assert_eq!(settled.value, None);
    let diagnostic = settled.diagnostic.unwrap();
    assert_eq!(diagnostic.call.method(), "showKeyboard");
    assert_eq!(diagnostic.reason, "java.lang.NoSuchMethodError");

    assert_eq!(controls, before);
    assert_eq!(controls.update(Message::Inc), Effect::Nothing);
    assert_eq!(controls.value(), 2);
}
