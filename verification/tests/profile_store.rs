use lsfg_vk_ui::app_state::AppState;
use lsfg_vk_ui::config::{Config, FlowScale, GameProfile, ProfileField};
use lsfg_vk_ui::text::is_white_space;
use lsfg_vk_ui::profile_manager::{
    handle_create_profile, handle_edit_profile, handle_remove_profile, update_profile_field,
    validate_profile_name, ValidationError,
};

fn state_with(names: &[&str], selected: Option<usize>) -> AppState {
    let mut config = Config::default();
    for name in names {
        config.game.push(GameProfile::named(name.to_string()));
    }
    AppState { config, selected_profile_index: selected }
}

fn names(state: &AppState) -> Vec<String> {
    state.config.game.iter().map(|profile| profile.exe.clone()).collect()
}

#[test]
fn create_appends_a_fresh_profile_and_selects_it() {
    let mut state = state_with(&[], None);
    assert_eq!(handle_create_profile(&mut state, "game.exe"), Ok(0));
    assert_eq!(state.config.game.len(), 1);
    let profile = &state.config.game[0];
    assert_eq!(profile.exe, "game.exe");
    assert_eq!(profile.multiplier, 1);
    assert_eq!(profile.flow_scale, FlowScale { hundredths: 70 });
    assert!(profile.performance_mode);
    assert!(!profile.hdr_mode);
    assert_eq!(profile.experimental_present_mode, "vsync");
    assert_eq!(state.selected_profile_index, Some(0));
    assert_eq!(handle_create_profile(&mut state, "other"), Ok(1));
    assert_eq!(names(&state), vec!["game.exe", "other"]);
    assert_eq!(state.selected_profile_index, Some(1));
}

#[test]
fn create_same_name_twice_fails_as_duplicate() {
    let mut state = state_with(&[], None);
    assert_eq!(handle_create_profile(&mut state, "A"), Ok(0));
    assert_eq!(handle_create_profile(&mut state, "A"), Err(ValidationError::DuplicateName));
    assert_eq!(names(&state), vec!["A"]);
    assert_eq!(state.selected_profile_index, Some(0));
}

#[test]
fn create_empty_or_blank_name_fails_as_empty() {
    let mut state = state_with(&["A"], Some(0));
    assert_eq!(handle_create_profile(&mut state, ""), Err(ValidationError::EmptyName));
    assert_eq!(handle_create_profile(&mut state, "   "), Err(ValidationError::EmptyName));
    assert_eq!(handle_create_profile(&mut state, " \t\n"), Err(ValidationError::EmptyName));
    assert_eq!(names(&state), vec!["A"]);
    assert_eq!(state.selected_profile_index, Some(0));
}

#[test]
fn create_compares_and_stores_the_trimmed_name() {
    let mut state = state_with(&["A"], None);
    assert_eq!(handle_create_profile(&mut state, "  A "), Err(ValidationError::DuplicateName));
    assert_eq!(handle_create_profile(&mut state, " B  "), Ok(1));
    assert_eq!(names(&state), vec!["A", "B"]);
    assert_eq!(handle_create_profile(&mut state, " B  "), Err(ValidationError::DuplicateName));
    assert_eq!(handle_create_profile(&mut state, "B"), Err(ValidationError::DuplicateName));
}

#[test]
fn names_are_compared_case_sensitively() {
    let mut state = state_with(&["game"], None);
    assert_eq!(handle_create_profile(&mut state, "Game"), Ok(1));
    assert_eq!(names(&state), vec!["game", "Game"]);
}

#[test]
fn validation_reports_each_error() {
    let state = state_with(&["A", "B"], None);
    assert_eq!(validate_profile_name(&state.config, "C", None), Ok(()));
    assert_eq!(validate_profile_name(&state.config, "", None), Err(ValidationError::EmptyName));
    assert_eq!(
        validate_profile_name(&state.config, "B", None),
        Err(ValidationError::DuplicateName)
    );
    assert_eq!(validate_profile_name(&state.config, "B", Some(1)), Ok(()));
    assert_eq!(
        validate_profile_name(&state.config, "B", Some(0)),
        Err(ValidationError::DuplicateName)
    );
    assert_eq!(
        validate_profile_name(&state.config, "  ", Some(0)),
        Err(ValidationError::EmptyName)
    );
}

#[test]
fn validation_messages() {
    assert_eq!(ValidationError::EmptyName.message(), "Profile name cannot be empty");
    assert_eq!(
        ValidationError::DuplicateName.message(),
        "A profile with this name already exists"
    );
}

#[test]
fn rename_updates_the_name_in_place() {
    let mut state = state_with(&["A", "B", "C"], Some(2));
    state.config.game[1].multiplier = 3;
    assert_eq!(handle_edit_profile(&mut state, 1, " D "), Ok(()));
    assert_eq!(names(&state), vec!["A", "D", "C"]);
    assert_eq!(state.config.game[1].multiplier, 3);
    assert_eq!(state.selected_profile_index, Some(2));
}

#[test]
fn rename_to_own_name_is_accepted() {
    let mut state = state_with(&["A", "B"], Some(0));
    assert_eq!(handle_edit_profile(&mut state, 1, "B"), Ok(()));
    assert_eq!(names(&state), vec!["A", "B"]);
}

#[test]
fn rename_to_the_name_of_another_profile_fails() {
    let mut state = state_with(&["A", "B"], Some(0));
    assert_eq!(handle_edit_profile(&mut state, 1, "A"), Err(ValidationError::DuplicateName));
    assert_eq!(handle_edit_profile(&mut state, 1, " "), Err(ValidationError::EmptyName));
    assert_eq!(names(&state), vec!["A", "B"]);
}

#[test]
fn remove_before_the_selection_moves_it_down() {
    let mut state = state_with(&["zero.exe", "one.exe", "two.exe"], Some(2));
    handle_remove_profile(&mut state, 0);
    assert_eq!(names(&state), vec!["one.exe", "two.exe"]);
    assert_eq!(state.selected_profile_index, Some(1));
}

#[test]
fn remove_the_selected_profile_selects_the_first() {
    let mut state = state_with(&["zero.exe", "one.exe"], Some(0));
    handle_remove_profile(&mut state, 0);
    assert_eq!(names(&state), vec!["one.exe"]);
    assert_eq!(state.selected_profile_index, Some(0));
    handle_remove_profile(&mut state, 0);
    assert!(state.config.game.is_empty());
    assert_eq!(state.selected_profile_index, None);
}

#[test]
fn remove_the_selected_last_profile_selects_the_first() {
    let mut state = state_with(&["zero.exe", "one.exe", "two.exe"], Some(2));
    handle_remove_profile(&mut state, 2);
    assert_eq!(names(&state), vec!["zero.exe", "one.exe"]);
    assert_eq!(state.selected_profile_index, Some(0));
}

#[test]
fn remove_behind_the_selection_leaves_it() {
    let mut state = state_with(&["zero.exe", "one.exe", "two.exe"], Some(0));
    handle_remove_profile(&mut state, 2);
    assert_eq!(names(&state), vec!["zero.exe", "one.exe"]);
    assert_eq!(state.selected_profile_index, Some(0));
}

#[test]
fn remove_without_a_selection_leaves_none() {
    let mut state = state_with(&["zero.exe", "one.exe"], None);
    handle_remove_profile(&mut state, 1);
    assert_eq!(names(&state), vec!["zero.exe"]);
    assert_eq!(state.selected_profile_index, None);
}

#[test]
fn set_field_changes_one_setting() {
    let mut state = state_with(&["A", "B"], Some(1));
    state.config.set_field(1, ProfileField::Multiplier(4));
    state.config.set_field(1, ProfileField::FlowScale(FlowScale { hundredths: 85 }));
    state.config.set_field(1, ProfileField::PerformanceMode(false));
    state.config.set_field(1, ProfileField::HdrMode(true));
    state.config.set_field(1, ProfileField::PresentMode("fifo".to_string()));
    let changed = &state.config.game[1];
    assert_eq!(changed.exe, "B");
    assert_eq!(changed.multiplier, 4);
    assert_eq!(changed.flow_scale.hundredths, 85);
    assert!(!changed.performance_mode);
    assert!(changed.hdr_mode);
    assert_eq!(changed.experimental_present_mode, "fifo");
    let untouched = &state.config.game[0];
    assert_eq!(untouched.multiplier, 1);
    assert_eq!(untouched.flow_scale.hundredths, 70);
    assert_eq!(untouched.experimental_present_mode, "vsync");
}

#[test]
fn set_field_ignores_an_index_out_of_range() {
    let mut state = state_with(&["A"], None);
    state.config.set_field(1, ProfileField::Multiplier(4));
    state.config.set_field(usize::MAX, ProfileField::HdrMode(true));
    assert_eq!(state.config.game.len(), 1);
    assert_eq!(state.config.game[0].multiplier, 1);
    assert!(!state.config.game[0].hdr_mode);
}

#[test]
fn update_profile_field_edits_the_selected_profile() {
    let mut state = state_with(&["A", "B"], Some(0));
    update_profile_field(&mut state, ProfileField::Multiplier(2));
    assert_eq!(state.config.game[0].multiplier, 2);
    assert_eq!(state.config.game[1].multiplier, 1);
    state.selected_profile_index = None;
    update_profile_field(&mut state, ProfileField::Multiplier(3));
    assert_eq!(state.config.game[0].multiplier, 2);
    state.selected_profile_index = Some(7);
    update_profile_field(&mut state, ProfileField::Multiplier(3));
    assert_eq!(state.config.game[0].multiplier, 2);
    assert_eq!(state.config.game[1].multiplier, 1);
}

#[test]
fn selection_follows_user_and_first_display() {
    let mut state = AppState::new(Config::default());
    assert_eq!(state.selected_profile_index, None);
    state.select_first();
    assert_eq!(state.selected_profile_index, None);
    let mut state = state_with(&["A", "B"], None);
    state.select_first();
    assert_eq!(state.selected_profile_index, Some(0));
    state.select(1);
    assert_eq!(state.selected_profile_index, Some(1));
}

#[test]
fn default_profile_has_the_documented_settings() {
    let profile = GameProfile::default();
    assert_eq!(profile.exe, "");
    assert_eq!(profile.multiplier, 1);
    assert_eq!(profile.flow_scale.hundredths, 70);
    assert!(profile.performance_mode);
    assert!(!profile.hdr_mode);
    assert_eq!(profile.experimental_present_mode, "vsync");
}

#[test]
fn whitespace_is_what_the_standard_library_trims() {
    let mut count = 0;
    for code in 0u32..=0x10FFFF {
        if let Some(c) = char::from_u32(code) {
            assert_eq!(is_white_space(c), c.is_whitespace(), "U+{:04X}", code);
            if is_white_space(c) {
                count += 1;
            }
        }
    }
    assert_eq!(count, 25);
}

#[test]
fn every_whitespace_character_is_trimmed_from_a_name() {
    let state = state_with(&["A"], None);
    for code in 0u32..=0x3000 {
        let Some(c) = char::from_u32(code) else {
            continue;
        };
        let alone = c.to_string();
        let padded = format!("{}A{}", c, c);
        if is_white_space(c) {
            assert_eq!(
                validate_profile_name(&state.config, &alone, None),
                Err(ValidationError::EmptyName),
                "U+{:04X}",
                code
            );
            assert_eq!(
                validate_profile_name(&state.config, &padded, None),
                Err(ValidationError::DuplicateName),
                "U+{:04X}",
                code
            );
        } else {
            assert_ne!(
                validate_profile_name(&state.config, &alone, None),
                Err(ValidationError::EmptyName),
                "U+{:04X}",
                code
            );
            assert_eq!(
                validate_profile_name(&state.config, &padded, None),
                Ok(()),
                "U+{:04X}",
                code
            );
        }
    }
}
