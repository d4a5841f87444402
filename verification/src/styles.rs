//! The style sheet of the application: its parts, one per group of
//! widgets, and their concatenation.

use vstd::prelude::*;
use vstd::string::StringExecFns;

verus! {

/// The rules for buttons.
pub const BUTTON_STYLES: &'static str = r#"
        .settings-icon-button {
            font-size: 1.4rem;
        }

        .circular-button {
            min-width: 32px;
            min-height: 32px;
            padding: 4px;
        }

        .icon-button {
            min-width: 32px;
            min-height: 32px;
            padding: 6px;
        }

        .linked-button-box {
            margin-top: 12px;
            margin-bottom: 12px;
        }
    "#;

/// The rules for the sidebar.
pub const SIDEBAR_STYLES: &'static str = r#"
        .sidebar {
            background-color: @theme_bg_color;
        }
        
        .sidebar-content {
            background-color: shade(@theme_bg_color, 0.95);
            color: @theme_fg_color;
            padding: 12px;
        }
    "#;

/// The rules for the rows of the profile list.
pub const PROFILE_STYLES: &'static str = r#"
        .profile-row {
            padding: 8px 12px;
        }

        .profile-row:hover {
            background-color: alpha(@theme_fg_color, 0.1);
        }

        .profile-row:selected {
            background-color: @theme_selected_bg_color;
            color: @theme_selected_fg_color;
        }

        .profile-actions {
            opacity: 0.7;
            transition: opacity 200ms ease;
        }

        .profile-row:hover .profile-actions {
            opacity: 1.0;
        }
    "#;

/// The rules for the settings window.
pub const SETTINGS_STYLES: &'static str = r#"
        .settings-group {
            margin: 12px;
            padding: 12px;
            border-radius: 8px;
            background-color: alpha(@theme_bg_color, 0.5);
        }

        .settings-row {
            padding: 8px 0;
        }
    "#;

/// The rules for the feedback label.
pub const FEEDBACK_STYLES: &'static str = r#"
        .feedback-label {
            color: @success_color;
            font-weight: bold;
            animation: fade-in-out 2s ease-in-out;
        }
    "#;

/// The rules for the process picker.
pub const PROCESS_PICKER_STYLES: &'static str = r#"
        .process-picker-window {
            background-color: @theme_bg_color;
        }

        .process-list-item {
            padding: 8px 12px;
            border-radius: 4px;
            margin: 2px 0;
        }

        .process-list-item:hover {
            background-color: alpha(@theme_fg_color, 0.1);
        }

        .process-list-item:selected {
            background-color: @theme_selected_bg_color;
            color: @theme_selected_fg_color;
        }
    "#;

/// The keyframes of the animations.
pub const ANIMATION_STYLES: &'static str = r#"
        @keyframes fade-in-out {
            0% { opacity: 0; }
            20% { opacity: 1; }
            80% { opacity: 1; }
            100% { opacity: 0; }
        }

        @keyframes slide-in {
            from {
                opacity: 0;
                transform: translateY(-10px);
            }
            to {
                opacity: 1;
                transform: translateY(0);
            }
        }

        @keyframes pulse {
            0% { opacity: 1; }
            50% { opacity: 0.7; }
            100% { opacity: 1; }
        }
    "#;

/// The rules that adjust the widgets of the platform library.
pub const LIBADWAITA_ENHANCEMENTS: &'static str = r#"
        /* Enhanced libadwaita integration */
        .adw-preferences-group {
            margin: 18px 0;
        }

        .adw-preferences-row {
            padding: 12px 16px;
        }

        .adw-action-row {
            min-height: 56px;
        }

        .adw-entry-row {
            min-height: 56px;
        }

        /* Toast styling */
        .adw-toast {
            border-radius: 8px;
            margin: 12px;
        }
    "#;

/// The rules for toasts.
pub const TOAST_STYLES: &'static str = r#"
        .toast-success {
            background-color: @success_color;
            color: @success_fg_color;
        }

        .toast-error {
            background-color: @error_color;
            color: @error_fg_color;
        }

        .toast-warning {
            background-color: @warning_color;
            color: @warning_fg_color;
        }
    "#;

/// The rules for the preferences window.
pub const PREFERENCES_STYLES: &'static str = r#"
        .preferences-window {
            background-color: @window_bg_color;
        }

        .preferences-page {
            padding: 24px;
        }

        .preferences-group-header {
            font-weight: bold;
            margin-bottom: 12px;
        }
    "#;

/// The rules for icons.
pub const ICON_STYLES: &'static str = r#"
        /* Ensure symbolic icons use proper colors */
        .symbolic {
            -gtk-icon-style: symbolic;
        }

        /* Icon button hover effects */
        .icon-button:hover {
            background-color: alpha(@theme_fg_color, 0.1);
        }

        .icon-button:active {
            background-color: alpha(@theme_fg_color, 0.2);
        }
    "#;

/// The rules for buttons.
pub fn get_button_styles() -> (css: &'static str)
    ensures
        css@ == BUTTON_STYLES@,
{
    BUTTON_STYLES
}

/// The rules for the sidebar.
pub fn get_sidebar_styles() -> (css: &'static str)
    ensures
        css@ == SIDEBAR_STYLES@,
{
    SIDEBAR_STYLES
}

/// The rules for the rows of the profile list.
pub fn get_profile_styles() -> (css: &'static str)
    ensures
        css@ == PROFILE_STYLES@,
{
    PROFILE_STYLES
}

/// The rules for the settings window.
pub fn get_settings_styles() -> (css: &'static str)
    ensures
        css@ == SETTINGS_STYLES@,
{
    SETTINGS_STYLES
}

/// The rules for the feedback label.
pub fn get_feedback_styles() -> (css: &'static str)
    ensures
        css@ == FEEDBACK_STYLES@,
{
    FEEDBACK_STYLES
}

/// The rules for the process picker.
pub fn get_process_picker_styles() -> (css: &'static str)
    ensures
        css@ == PROCESS_PICKER_STYLES@,
{
    PROCESS_PICKER_STYLES
}

/// The keyframes of the animations.
pub fn get_animation_styles() -> (css: &'static str)
    ensures
        css@ == ANIMATION_STYLES@,
{
    ANIMATION_STYLES
}

/// The rules that adjust the widgets of the platform library.
pub fn get_libadwaita_enhancements() -> (css: &'static str)
    ensures
        css@ == LIBADWAITA_ENHANCEMENTS@,
{
    LIBADWAITA_ENHANCEMENTS
}

/// The rules for toasts.
pub fn get_toast_styles() -> (css: &'static str)
    ensures
        css@ == TOAST_STYLES@,
{
    TOAST_STYLES
}

/// The rules for the preferences window.
pub fn get_preferences_styles() -> (css: &'static str)
    ensures
        css@ == PREFERENCES_STYLES@,
{
    PREFERENCES_STYLES
}

/// The rules for icons.
pub fn get_icon_styles() -> (css: &'static str)
    ensures
        css@ == ICON_STYLES@,
{
    ICON_STYLES
}

/// The whole style sheet: its parts one after the other, buttons first and
/// icons last.
pub open spec fn application_css() -> Seq<char> {
    BUTTON_STYLES@
        + SIDEBAR_STYLES@
        + PROFILE_STYLES@
        + SETTINGS_STYLES@
        + FEEDBACK_STYLES@
        + PROCESS_PICKER_STYLES@
        + ANIMATION_STYLES@
        + LIBADWAITA_ENHANCEMENTS@
        + TOAST_STYLES@
        + PREFERENCES_STYLES@
        + ICON_STYLES@
}

/// The whole style sheet of the application.
pub fn get_application_css() -> (css: String)
    ensures
        css@ == application_css(),
{
    let mut css = String::new();
    css.append(get_button_styles());
    css.append(get_sidebar_styles());
    css.append(get_profile_styles());
    css.append(get_settings_styles());
    css.append(get_feedback_styles());
    css.append(get_process_picker_styles());
    css.append(get_animation_styles());
    css.append(get_libadwaita_enhancements());
    css.append(get_toast_styles());
    css.append(get_preferences_styles());
    css.append(get_icon_styles());
    css
}

} // verus!
