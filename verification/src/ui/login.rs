//! The login screen, with its waiting state, and the form for a second factor.

use crate::api::auth::{DeviceCode, DeviceCodeModel};
use crate::message::{Message, MessageModel};
use crate::model::{option_view, seq_view};
use crate::ui::{
    button, button_widget, error_line, input, input_widget, offers, push_error, text, text_widget,
    InputField, Widget, WidgetModel,
};
use vstd::prelude::*;
use vstd::string::*;

verus! {

/// The top of the login screen.
pub open spec fn login_head(server_url: Seq<char>) -> Seq<WidgetModel> {
    seq![
        text_widget("VaultMaid"@, 28),
        text_widget("Organize your Bitwarden vault across folders and collections"@, 14),
        input_widget("Server URL"@, server_url, InputField::ServerUrl),
    ]
}

/// The middle of the login screen: the code to approve, or the button that
/// asks for one.
pub open spec fn login_body(code: Option<DeviceCodeModel>, busy: bool) -> Seq<WidgetModel> {
    match code {
        Some(code) => seq![
            text_widget("Enter this code in your browser:"@, 16),
            text_widget(code.user_code, 32),
            button_widget(
                "Open browser"@,
                Some(MessageModel::OpenVerificationUri(code.verification_uri)),
            ),
            text_widget("Waiting for approval…"@, 14),
        ],
        None => if busy {
            seq![
                button_widget("Log in with device"@, None),
                text_widget("Contacting server…"@, 14),
            ]
        } else {
            seq![button_widget("Log in with device"@, Some(MessageModel::StartDeviceCode))]
        },
    }
}

/// What the login screen shows.
pub open spec fn login_widgets(
    server_url: Seq<char>,
    code: Option<DeviceCodeModel>,
    busy: bool,
    error: Option<Seq<char>>,
) -> Seq<WidgetModel> {
    login_head(server_url) + login_body(code, busy) + error_line(error)
}

/// Show the login screen. There is a device code once the server has issued
/// one. While a request is under way the start button is disabled, so that no
/// second flow can be started.
pub fn view(
    server_url: &str,
    device_code: &Option<DeviceCode>,
    busy: bool,
    error: Option<&str>,
) -> (r: Vec<Widget>)
    ensures
        seq_view(r@) == login_widgets(
            server_url@,
            option_view(*device_code),
            busy,
            option_view(error),
        ),
{
    let mut widgets: Vec<Widget> = Vec::new();
    widgets.push(text("VaultMaid", 28));
    widgets.push(text("Organize your Bitwarden vault across folders and collections", 14));
    widgets.push(input("Server URL", server_url, InputField::ServerUrl));
    match device_code {
        Some(code) => {
            widgets.push(text("Enter this code in your browser:", 16));
            widgets.push(text(code.user_code.as_str(), 32));
            widgets.push(
                button(
                    "Open browser",
                    Some(Message::OpenVerificationUri(code.verification_uri.clone())),
                ),
            );
            widgets.push(text("Waiting for approval…", 14));
        },
        None => {
            if busy {
                widgets.push(button("Log in with device", None));
                widgets.push(text("Contacting server…", 14));
            } else {
                widgets.push(button("Log in with device", Some(Message::StartDeviceCode)));
            }
        },
    }
    proof {
        assert(seq_view(widgets@) =~= login_head(server_url@) + login_body(
            option_view(*device_code),
            busy,
        ));
    }
    push_error(&mut widgets, error);
    widgets
}

/// The form for a second factor, above its button.
pub open spec fn two_factor_head(
    code: Seq<char>,
    busy: bool,
    error: Option<Seq<char>>,
) -> Seq<WidgetModel> {
    seq![
        text_widget("Two-factor authentication"@, 24),
        text_widget("Enter the code from your authenticator app or email."@, 14),
        input_widget("Authentication code"@, code, InputField::TwoFactor),
    ] + (if busy {
        seq![text_widget("Verifying…"@, 14)]
    } else {
        seq![]
    }) + error_line(error)
}

/// What the form for a second factor shows. It can be submitted once there is
/// a code and no request is under way.
pub open spec fn two_factor_widgets(
    code: Seq<char>,
    busy: bool,
    error: Option<Seq<char>>,
) -> Seq<WidgetModel> {
    two_factor_head(code, busy, error).push(
        button_widget(
            "Verify"@,
            if code.len() == 0 || busy {
                None
            } else {
                Some(MessageModel::TwoFactorSubmitted)
            },
        ),
    )
}

/// Show the form for a second factor.
pub fn two_factor_view(code: &str, busy: bool, error: Option<&str>) -> (r: Vec<Widget>)
    ensures
        seq_view(r@) == two_factor_widgets(code@, busy, option_view(error)),
{
    let mut widgets: Vec<Widget> = Vec::new();
    widgets.push(text("Two-factor authentication", 24));
    widgets.push(text("Enter the code from your authenticator app or email.", 14));
    widgets.push(input("Authentication code", code, InputField::TwoFactor));
    if busy {
        widgets.push(text("Verifying…", 14));
    }
    proof {
        assert(seq_view(widgets@) + error_line(option_view(error)) =~= two_factor_head(
            code@,
            busy,
            option_view(error),
        ));
    }
    push_error(&mut widgets, error);
    let submit: Option<Message> = if code.unicode_len() == 0 || busy {
        None
    } else {
        Some(Message::TwoFactorSubmitted)
    };
    widgets.push(button("Verify", submit));
    proof {
        assert(seq_view(widgets@) =~= two_factor_widgets(code@, busy, option_view(error)));
    }
    widgets
}

// ---------------------------------------------------------------------
// Laws
// ---------------------------------------------------------------------

/// A flow can be started exactly when none is under way.
pub proof fn no_overlapping_flows(
    server_url: Seq<char>,
    code: Option<DeviceCodeModel>,
    busy: bool,
    error: Option<Seq<char>>,
)
    ensures
        offers(
            login_widgets(server_url, code, busy, error),
            MessageModel::StartDeviceCode,
        ) <==> code is None && !busy,
{
    let widgets = login_widgets(server_url, code, busy, error);
    if code is None && !busy {
        assert(widgets[3] == button_widget(
            "Log in with device"@,
            Some(MessageModel::StartDeviceCode),
        ));
    }
}

/// A second factor can be submitted exactly when there is one and no request
/// is under way.
pub proof fn second_factor_can_be_submitted(
    code: Seq<char>,
    busy: bool,
    error: Option<Seq<char>>,
)
    ensures
        offers(two_factor_widgets(code, busy, error), MessageModel::TwoFactorSubmitted)
            <==> code.len() > 0 && !busy,
{
    let widgets = two_factor_widgets(code, busy, error);
    if code.len() > 0 && !busy {
        assert(widgets.last() == button_widget("Verify"@, Some(MessageModel::TwoFactorSubmitted)));
    }
}

/// The login screen has its title, its line and the field for the server on
/// top, whatever else it shows, and an error at its end, exactly where there is
/// one.
pub proof fn login_has_its_frame(
    server_url: Seq<char>,
    code: Option<DeviceCodeModel>,
    busy: bool,
    error: Option<Seq<char>>,
)
    ensures
        ({
            let widgets = login_widgets(server_url, code, busy, error);
            let body: int = if code is Some {
                4
            } else if busy {
                2
            } else {
                1
            };
            &&& widgets.len() == 3 + body + (if error is Some {
                1int
            } else {
                0int
            })
            &&& widgets[0] == (WidgetModel::Text { content: "VaultMaid"@, size: 28 })
            &&& widgets[1] == (WidgetModel::Text {
                content: "Organize your Bitwarden vault across folders and collections"@,
                size: 14,
            })
            &&& widgets[2] == (WidgetModel::Input {
                placeholder: "Server URL"@,
                value: server_url,
                field: InputField::ServerUrl,
            })
            &&& error matches Some(content) ==> widgets.last() == (WidgetModel::Error { content })
        }),
{
}

/// A code is shown with the button that opens its own page; without one there
/// is the button that asks for one, disabled while a request is under way.
pub proof fn login_shows_the_code(
    server_url: Seq<char>,
    code: Option<DeviceCodeModel>,
    busy: bool,
    error: Option<Seq<char>>,
)
    ensures
        ({
            let widgets = login_widgets(server_url, code, busy, error);
            match code {
                Some(code) => {
                    &&& widgets[3] == (WidgetModel::Text {
                        content: "Enter this code in your browser:"@,
                        size: 16,
                    })
                    &&& widgets[4] == (WidgetModel::Text { content: code.user_code, size: 32 })
                    &&& widgets[5] == (WidgetModel::Button {
                        label: "Open browser"@,
                        on_press: Some(MessageModel::OpenVerificationUri(code.verification_uri)),
                    })
                    &&& widgets[6] == (WidgetModel::Text {
                        content: "Waiting for approval…"@,
                        size: 14,
                    })
                },
                None => if busy {
                    &&& widgets[3] == (WidgetModel::Button {
                        label: "Log in with device"@,
                        on_press: None,
                    })
                    &&& widgets[4] == (WidgetModel::Text {
                        content: "Contacting server…"@,
                        size: 14,
                    })
                } else {
                    widgets[3] == (WidgetModel::Button {
                        label: "Log in with device"@,
                        on_press: Some(MessageModel::StartDeviceCode),
                    })
                },
            }
        }),
{
}

/// The form for a second factor shows what was typed, a line while a request is
/// under way, and then the error, if there is one, above its button.
pub proof fn the_second_factor_form_shows_its_state(
    code: Seq<char>,
    busy: bool,
    error: Option<Seq<char>>,
)
    ensures
        ({
            let widgets = two_factor_widgets(code, busy, error);
            &&& widgets.len() == 4 + (if busy {
                1int
            } else {
                0int
            }) + (if error is Some {
                1int
            } else {
                0int
            })
            &&& widgets[0] == (WidgetModel::Text {
                content: "Two-factor authentication"@,
                size: 24,
            })
            &&& widgets[1] == (WidgetModel::Text {
                content: "Enter the code from your authenticator app or email."@,
                size: 14,
            })
            &&& widgets[2] == (WidgetModel::Input {
                placeholder: "Authentication code"@,
                value: code,
                field: InputField::TwoFactor,
            })
            &&& busy ==> widgets[3] == (WidgetModel::Text { content: "Verifying…"@, size: 14 })
            &&& error matches Some(content) ==> widgets[widgets.len() - 2] == (
            WidgetModel::Error { content })
            &&& widgets.last() == (WidgetModel::Button {
                label: "Verify"@,
                on_press: if code.len() > 0 && !busy {
                    Some(MessageModel::TwoFactorSubmitted)
                } else {
                    None
                },
            })
        }),
{
}

} // verus!
