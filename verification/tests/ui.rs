use vaultmaid::api::auth::DeviceCode;
use vaultmaid::message::{Message, Screen};
use vaultmaid::state::State;
use vaultmaid::ui::set_pin::strength_hint;
use vaultmaid::ui::{login, main_view, set_pin, unlock, view, InputField, Widget};

/// The texts of a column, errors included.
fn texts(widgets: &[Widget]) -> Vec<String> {
    widgets
        .iter()
        .filter_map(|widget| match widget {
            Widget::Text { content, .. } => Some(content.clone()),
            Widget::Error { content } => Some(format!("error: {content}")),
            _ => None,
        })
        .collect()
}

/// Whether the button with this label can be pressed.
fn enabled(widgets: &[Widget], label: &str) -> bool {
    widgets
        .iter()
        .any(|widget| matches!(widget, Widget::Button { label: l, on_press: Some(_) } if l == label))
}

fn has_button(widgets: &[Widget], label: &str) -> bool {
    widgets
        .iter()
        .any(|widget| matches!(widget, Widget::Button { label: l, .. } if l == label))
}

#[test]
fn login_starts_a_flow_unless_busy() {
    let idle = login::view("https://vault.example", &None, false, None);
    assert!(enabled(&idle, "Log in with device"));
    assert_eq!(idle.len(), 4);
    assert!(matches!(
        &idle[2],
        Widget::Input { placeholder, value, field: InputField::ServerUrl }
            if placeholder == "Server URL" && value == "https://vault.example"
    ));

    let busy = login::view("https://vault.example", &None, true, Some("late"));
    assert!(has_button(&busy, "Log in with device"));
    assert!(!enabled(&busy, "Log in with device"));
    assert_eq!(
        texts(&busy),
        vec![
            "VaultMaid",
            "Organize your Bitwarden vault across folders and collections",
            "Contacting server…",
            "error: late",
        ]
    );
}

#[test]
fn login_shows_the_code_to_approve() {
    let code = Some(DeviceCode {
        device_code: "dev-abc".to_owned(),
        user_code: "ABCD-EFGH".to_owned(),
        verification_uri: "https://vault.example/device".to_owned(),
        interval: 2,
    });
    let widgets = login::view("https://vault.example", &code, true, None);
    assert!(!has_button(&widgets, "Log in with device"));
    assert_eq!(
        texts(&widgets)[2..],
        [
            "Enter this code in your browser:",
            "ABCD-EFGH",
            "Waiting for approval…"
        ]
    );
    assert!(widgets.iter().any(|widget| matches!(
        widget,
        Widget::Button { on_press: Some(Message::OpenVerificationUri(uri)), .. }
            if uri == "https://vault.example/device"
    )));
    assert!(matches!(&widgets[4], Widget::Text { size: 32, .. }));
}

#[test]
fn second_factor_needs_a_code() {
    assert!(!enabled(&login::two_factor_view("", false, None), "Verify"));
    assert!(!enabled(&login::two_factor_view("1", true, None), "Verify"));
    let ready = login::two_factor_view("1", false, Some("wrong"));
    assert!(enabled(&ready, "Verify"));
    assert_eq!(
        texts(&ready),
        vec![
            "Two-factor authentication",
            "Enter the code from your authenticator app or email.",
            "error: wrong",
        ]
    );
    assert_eq!(
        texts(&login::two_factor_view("1", true, None))[2],
        "Verifying…"
    );
    assert!(matches!(ready.last(), Some(Widget::Button { .. })));
}

#[test]
fn a_pin_must_be_long_enough_and_confirmed() {
    assert!(!enabled(&set_pin::view("123", "123", None), "Set PIN"));
    assert!(!enabled(&set_pin::view("1234", "1235", None), "Set PIN"));
    assert!(!enabled(&set_pin::view("1234", "", None), "Set PIN"));
    let ready = set_pin::view("1234", "1234", Some("again"));
    match ready.last() {
        Some(Widget::Button {
            on_press: Some(Message::PinSet(pin)),
            ..
        }) => assert_eq!(pin.expose(), "1234"),
        _ => panic!("expected an enabled button"),
    }
    assert_eq!(
        texts(&ready),
        vec![
            "Set a PIN to protect your vault cache",
            "This PIN unlocks your vault when the app restarts or after idle. It is not sent to the server.",
            "Weak",
            "error: again",
        ]
    );
}

#[test]
fn a_pin_is_measured_in_characters() {
    assert!(!enabled(&set_pin::view("ää", "ää", None), "Set PIN"));
    assert!(enabled(&set_pin::view("ääää", "ääää", None), "Set PIN"));
    assert_eq!(
        texts(&set_pin::view("äää", "", None))[2],
        "Too short — at least 4 characters"
    );
}

#[test]
fn hints_go_by_length() {
    for (len, expected) in [
        (0usize, "Too short — at least 4 characters"),
        (3, "Too short — at least 4 characters"),
        (4, "Weak"),
        (7, "Weak"),
        (8, "Fair"),
        (11, "Fair"),
        (12, "Strong"),
        (100, "Strong"),
    ] {
        assert_eq!(strength_hint(len), expected);
    }
}

#[test]
fn unlock_needs_something_typed() {
    assert!(!enabled(&unlock::view("", None), "Unlock"));
    let ready = unlock::view("1", Some("Incorrect PIN"));
    match ready.last() {
        Some(Widget::Button {
            on_press: Some(Message::PinSubmitted(pin)),
            ..
        }) => assert_eq!(pin.expose(), "1"),
        _ => panic!("expected an enabled button"),
    }
    assert_eq!(
        texts(&ready),
        vec!["Unlock your vault", "error: Incorrect PIN"]
    );
}

#[test]
fn main_counts_the_bytes_of_the_snapshot() {
    assert_eq!(texts(&main_view(None)), vec!["Main"]);
    assert_eq!(
        texts(&main_view(Some("{\"ä\":1}"))),
        vec!["Main — cached snapshot: 8 bytes"]
    );
}

#[test]
fn each_screen_has_its_view() {
    let mut state = State::default();
    state.auth_error = Some("a".to_owned());
    state.pin_error = Some("p".to_owned());
    state.pin_input = "12".to_owned();
    for (screen, first) in [
        (Screen::Login, "VaultMaid"),
        (Screen::DeviceCode, "VaultMaid"),
        (Screen::TwoFa, "Two-factor authentication"),
        (Screen::SetPin, "Set a PIN to protect your vault cache"),
        (Screen::Unlock, "Unlock your vault"),
        (Screen::Main, "Main"),
    ] {
        state.screen = screen;
        let shown = texts(&view(&state));
        assert_eq!(shown[0], first);
        let error = match screen {
            Screen::Login | Screen::DeviceCode | Screen::TwoFa => Some("error: a"),
            Screen::SetPin | Screen::Unlock => Some("error: p"),
            Screen::Main => None,
        };
        assert_eq!(
            shown.iter().find(|text| text.starts_with("error")).map(String::as_str),
            error
        );
    }
}

#[test]
fn fields_send_what_was_typed() {
    let typed = || "x".to_owned();
    assert!(matches!(
        InputField::ServerUrl.message(typed()),
        Message::ServerUrlChanged(text) if text == "x"
    ));
    assert!(matches!(
        InputField::Pin.message(typed()),
        Message::PinInput(text) if text == "x"
    ));
    assert!(matches!(
        InputField::PinConfirm.message(typed()),
        Message::PinConfirmInput(text) if text == "x"
    ));
    assert!(matches!(
        InputField::TwoFactor.message(typed()),
        Message::TwoFactorInput(text) if text == "x"
    ));
}
