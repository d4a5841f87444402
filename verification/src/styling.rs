//! The basic style sheet: the rules for the core widgets in one piece,
//! without the rules for toasts, preferences and icons.

use vstd::prelude::*;

verus! {

/// The text of the basic style sheet.
pub const BASIC_CSS: &'static str = r#".settings-icon-button {
            font-size: 1.4rem;
        }

        .sidebar {
            background-color: @theme_bg_color;
        }
        
        .sidebar-content {
            background-color: shade(@theme_bg_color, 0.95);
            color: @theme_fg_color;
            padding: 12px;
        }

        .linked-button-box {
            margin-top: 12px;
            margin-bottom: 12px;
        }

        .profile-row {
            padding: 8px 12px;
        }

        .profile-row:hover {
            background-color: alpha(@theme_fg_color, 0.1);
        }

        .profile-row:selected {
            background-color: @theme_selected_bg_color;
            color: @theme_selected_fg_color;
        }

        .profile-actions {
            opacity: 0.7;
            transition: opacity 200ms ease;
        }

        .profile-row:hover .profile-actions {
            opacity: 1.0;
        }

        .circular-button {
            min-width: 32px;
            min-height: 32px;
            padding: 4px;
        }

        .icon-button {
            min-width: 32px;
            min-height: 32px;
            padding: 6px;
        }

        .feedback-label {
            color: @success_color;
            font-weight: bold;
            animation: fade-in-out 2s ease-in-out;
        }

        @keyframes fade-in-out {
            0% { opacity: 0; }
            20% { opacity: 1; }
            80% { opacity: 1; }
            100% { opacity: 0; }
        }

        .settings-group {
            margin: 12px;
            padding: 12px;
            border-radius: 8px;
            background-color: alpha(@theme_bg_color, 0.5);
        }

        .settings-row {
            padding: 8px 0;
        }

        .process-picker-window {
            background-color: @theme_bg_color;
        }

        .process-list-item {
            padding: 8px 12px;
            border-radius: 4px;
            margin: 2px 0;
        }

        .process-list-item:hover {
            background-color: alpha(@theme_fg_color, 0.1);
        }

        .process-list-item:selected {
            background-color: @theme_selected_bg_color;
            color: @theme_selected_fg_color;
        }"#;

/// The basic style sheet of the application.
pub fn get_application_css() -> (css: String)
    ensures
        css@ == BASIC_CSS@,
{
    BASIC_CSS.to_owned()
}

} // verus!
