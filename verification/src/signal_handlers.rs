//! What the settings widgets do to the selected profile: the value that
//! the text of a multiplier stands for, the entry of a list that a text
//! selects, and the writing of the whole form on a save.

use crate::app_state::{multiplier_text, AppState, AppStateView};
use crate::config::{ConfigView, FlowScale, GameProfileView, ProfileField};
use crate::text::{
    decimal_text, is_digit, lemma_decimal_text_parses, numeral_digits, parse_u32, parsed_u32,
};
use vstd::prelude::*;

verus! {

/// The multiplier that a text of the multiplier list stands for: `1` for
/// `off`, the number for a numeral, and `1` for anything else.
pub open spec fn multiplier_of_text(text: Seq<char>) -> u32 {
    if text == "off"@ {
        1
    } else {
        match parsed_u32(text) {
            Some(multiplier) => multiplier,
            None => 1,
        }
    }
}

/// The multiplier that a text of the multiplier list stands for: `1` for
/// `off`, the number for a numeral, and `1` for anything else.
pub fn multiplier_from_text(text: &str) -> (multiplier: u32)
    ensures
        multiplier == multiplier_of_text(text@),
{
    let off = "off".to_owned();
    if text.to_owned() == off {
        1
    } else {
        match parse_u32(text) {
            Some(multiplier) => multiplier,
            None => 1,
        }
    }
}

/// Finds the entry of a list to select for `target_value`: the index of
/// the first entry equal to it, or none where no entry is.
pub fn update_dropdown_selection(items: &Vec<String>, target_value: &str) -> (selected: Option<
    usize,
>)
    ensures
        match selected {
            Some(index) => index < items@.len() && items@[index as int]@ == target_value@
                && forall|k: int| 0 <= k < index ==> (#[trigger] items@[k])@ != target_value@,
            None => forall|k: int| 0 <= k < items@.len() ==> (#[trigger] items@[k])@
                != target_value@,
        },
{
    let target = target_value.to_owned();
    let mut index: usize = 0;
    while index < items.len()
        invariant
            index <= items@.len(),
            target@ == target_value@,
            forall|k: int| 0 <= k < index ==> (#[trigger] items@[k])@ != target_value@,
        decreases items@.len() - index,
    {
        if items[index] == target {
            return Some(index);
        }
        index += 1;
    }
    None
}

/// What the settings widgets hold when the user saves.
#[derive(Clone, Debug)]
pub struct SettingsForm {
    /// The selected text of the multiplier list, if one is selected.
    pub multiplier: Option<String>,
    /// The flow scale in the text field, if the field holds a number.
    pub flow_scale: Option<FlowScale>,
    pub performance_mode: bool,
    pub hdr_mode: bool,
    /// The selected text of the present mode list, if one is selected.
    pub experimental_present_mode: Option<String>,
}

/// What a [`SettingsForm`] holds.
pub struct SettingsFormView {
    pub multiplier: Option<Seq<char>>,
    pub flow_scale: Option<FlowScale>,
    pub performance_mode: bool,
    pub hdr_mode: bool,
    pub experimental_present_mode: Option<Seq<char>>,
}

impl View for SettingsForm {
    type V = SettingsFormView;

    open spec fn view(&self) -> SettingsFormView {
        SettingsFormView {
            multiplier: match self.multiplier {
                Some(text) => Some(text@),
                None => None,
            },
            flow_scale: self.flow_scale,
            performance_mode: self.performance_mode,
            hdr_mode: self.hdr_mode,
            experimental_present_mode: match self.experimental_present_mode {
                Some(text) => Some(text@),
                None => None,
            },
        }
    }
}

impl GameProfileView {
    /// This profile after the form was written into it: both switches are
    /// taken over; the multiplier, the flow scale and the present mode are
    /// taken over where the form holds one, and stay otherwise.
    pub open spec fn with_form(self, form: SettingsFormView) -> GameProfileView {
        GameProfileView {
            exe: self.exe,
            multiplier: match form.multiplier {
                Some(text) => multiplier_of_text(text),
                None => self.multiplier,
            },
            flow_scale: match form.flow_scale {
                Some(scale) => scale,
                None => self.flow_scale,
            },
            performance_mode: form.performance_mode,
            hdr_mode: form.hdr_mode,
            experimental_present_mode: match form.experimental_present_mode {
                Some(mode) => mode,
                None => self.experimental_present_mode,
            },
        }
    }
}

impl AppStateView {
    /// Whether a save has a profile to write to.
    pub open spec fn has_selected_profile(self) -> bool {
        self.selected matches Some(index) && index < self.config.game.len()
    }

    /// This state after a save wrote `form` into the selected profile, or
    /// this state itself where the selection points at no profile.
    pub open spec fn saved(self, form: SettingsFormView) -> AppStateView {
        if self.has_selected_profile() {
            let index = self.selected->0 as int;
            AppStateView {
                config: ConfigView {
                    game: self.config.game.update(index, self.config.game[index].with_form(form)),
                    ..self.config
                },
                ..self
            }
        } else {
            self
        }
    }
}

/// Writes the form into the selected profile, as the save button does.
/// Returns whether there was a profile to write to: only then is the store
/// to be written out.
pub fn handle_save_button_click(state: &mut AppState, form: SettingsForm) -> (written: bool)
    ensures
        written == old(state)@.has_selected_profile(),
        final(state)@ == old(state)@.saved(form@),
        final(state)@.wf() == old(state)@.wf(),
{
    let index = match state.selected_profile_index {
        Some(index) => index,
        None => {
            return false;
        },
    };
    if index >= state.config.game.len() {
        return false;
    }
    let ghost before = state@;
    let SettingsForm {
        multiplier,
        flow_scale,
        performance_mode,
        hdr_mode,
        experimental_present_mode,
    } = form;
    if let Some(text) = multiplier {
        let value = multiplier_from_text(text.as_str());
        state.config.set_field(index, ProfileField::Multiplier(value));
    }
    if let Some(scale) = flow_scale {
        state.config.set_field(index, ProfileField::FlowScale(scale));
    }
    state.config.set_field(index, ProfileField::PerformanceMode(performance_mode));
    state.config.set_field(index, ProfileField::HdrMode(hdr_mode));
    if let Some(mode) = experimental_present_mode {
        state.config.set_field(index, ProfileField::PresentMode(mode));
    }
    proof {
        assert(state@.config.game =~= before.saved(form@).config.game);
    }
    true
}

/// A multiplier list shows a multiplier under the text that stands for it:
/// reading the text of any multiplier gives the multiplier back.
pub proof fn lemma_multiplier_text_round_trip(multiplier: u32)
    ensures
        multiplier_of_text(multiplier_text(multiplier)) == multiplier,
{
    reveal_strlit("off");
    if multiplier != 1 {
        let text = decimal_text(multiplier as nat);
        lemma_decimal_text_parses(multiplier as nat);
    }
}

} // verus!
