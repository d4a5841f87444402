//! The state that the window works on: the store and the selected
//! profile, and what the widgets are to show of them.

use crate::config::{Config, ConfigView, GameProfileView};
use crate::text::{decimal_string, decimal_text, texts};
use vstd::prelude::*;

verus! {

/// The store together with the index of the selected profile, if one is
/// selected.
#[derive(Clone, Debug)]
pub struct AppState {
    pub config: Config,
    pub selected_profile_index: Option<usize>,
}

/// What an [`AppState`] holds.
pub struct AppStateView {
    pub config: ConfigView,
    pub selected: Option<usize>,
}

impl AppStateView {
    /// The selection points at a profile of the store, or at none.
    pub open spec fn selection_valid(self) -> bool {
        self.selected matches Some(index) ==> index < self.config.game.len()
    }

    /// The invariant of the state: the store is well formed and the
    /// selection points into it.
    pub open spec fn wf(self) -> bool {
        self.config.wf() && self.selection_valid()
    }
}

impl View for AppState {
    type V = AppStateView;

    open spec fn view(&self) -> AppStateView {
        AppStateView { config: self.config@, selected: self.selected_profile_index }
    }
}

/// The text under which a multiplier is offered: `off` for `1`, else its
/// decimal numeral.
pub open spec fn multiplier_text(multiplier: u32) -> Seq<char> {
    if multiplier == 1 {
        "off"@
    } else {
        decimal_text(multiplier as nat)
    }
}

/// The text under which a multiplier is offered: `off` for `1`, else its
/// decimal numeral.
pub fn multiplier_label(multiplier: u32) -> (label: String)
    ensures
        label@ == multiplier_text(multiplier),
{
    if multiplier == 1 {
        "off".to_owned()
    } else {
        decimal_string(multiplier as u64)
    }
}

/// The contents of the settings widgets for one profile.
#[derive(Clone, Debug)]
pub struct ProfileDisplay {
    /// The entry of the multiplier list to select.
    pub multiplier: String,
    /// The text of the flow scale field.
    pub flow_scale: String,
    pub performance_mode: bool,
    pub hdr_mode: bool,
    /// The entry of the present mode list to select.
    pub experimental_present_mode: String,
}

/// What a [`ProfileDisplay`] holds.
pub struct ProfileDisplayView {
    pub multiplier: Seq<char>,
    pub flow_scale: Seq<char>,
    pub performance_mode: bool,
    pub hdr_mode: bool,
    pub experimental_present_mode: Seq<char>,
}

impl ProfileDisplayView {
    /// What the widgets show of `profile`.
    pub open spec fn of(profile: GameProfileView) -> ProfileDisplayView {
        ProfileDisplayView {
            multiplier: multiplier_text(profile.multiplier),
            flow_scale: profile.flow_scale.text(),
            performance_mode: profile.performance_mode,
            hdr_mode: profile.hdr_mode,
            experimental_present_mode: profile.experimental_present_mode,
        }
    }
}

impl View for ProfileDisplay {
    type V = ProfileDisplayView;

    open spec fn view(&self) -> ProfileDisplayView {
        ProfileDisplayView {
            multiplier: self.multiplier@,
            flow_scale: self.flow_scale@,
            performance_mode: self.performance_mode,
            hdr_mode: self.hdr_mode,
            experimental_present_mode: self.experimental_present_mode@,
        }
    }
}

/// What is to happen to the settings widgets.
#[derive(Clone, Debug)]
pub enum WindowUpdate {
    /// Show the selected profile.
    Show(ProfileDisplay),
    /// Nothing is selected: reset every widget.
    Clear,
    /// The selection points at no profile: leave the widgets as they are.
    Keep,
}

/// What a [`WindowUpdate`] holds.
pub enum WindowUpdateView {
    Show(ProfileDisplayView),
    Clear,
    Keep,
}

impl View for WindowUpdate {
    type V = WindowUpdateView;

    open spec fn view(&self) -> WindowUpdateView {
        match self {
            WindowUpdate::Show(display) => WindowUpdateView::Show(display@),
            WindowUpdate::Clear => WindowUpdateView::Clear,
            WindowUpdate::Keep => WindowUpdateView::Keep,
        }
    }
}

/// The rows of the sidebar and the row to mark as selected.
#[derive(Clone, Debug)]
pub struct SidebarRows {
    /// The label of each row: the names of the profiles, in their order.
    pub labels: Vec<String>,
    /// The row to select, where the selection points at a row.
    pub selected: Option<usize>,
}

impl AppStateView {
    /// What the settings widgets are to show in this state.
    pub open spec fn window_update(self) -> WindowUpdateView {
        match self.selected {
            None => WindowUpdateView::Clear,
            Some(index) => if index < self.config.game.len() {
                WindowUpdateView::Show(ProfileDisplayView::of(self.config.game[index as int]))
            } else {
                WindowUpdateView::Keep
            },
        }
    }

    /// The names of the profiles, in their order.
    pub open spec fn names(self) -> Seq<Seq<char>> {
        self.config.game.map_values(|profile: GameProfileView| profile.exe)
    }

    /// The row of the sidebar to select: the selected index where it
    /// points at a profile.
    pub open spec fn selected_row(self) -> Option<usize> {
        match self.selected {
            Some(index) if index < self.config.game.len() => Some(index),
            _ => None,
        }
    }

    /// The state of a first display: the first profile selected where
    /// there is one, else the selection as it was.
    pub open spec fn first_selected(self) -> AppStateView {
        if self.config.game.len() > 0 {
            AppStateView { selected: Some(0), ..self }
        } else {
            self
        }
    }
}

impl AppState {
    /// The state at start: the loaded store with nothing selected.
    pub fn new(config: Config) -> (state: AppState)
        ensures
            state.config == config,
            state.selected_profile_index is None,
    {
        AppState { config, selected_profile_index: None }
    }

    /// Selects the first profile where the store has one. This is the
    /// selection with which the window is first shown.
    pub fn select_first(&mut self)
        ensures
            final(self)@ == old(self)@.first_selected(),
            old(self)@.wf() ==> final(self)@.wf(),
    {
        if self.config.game.len() > 0 {
            self.selected_profile_index = Some(0);
        }
    }

    /// Selects the profile at `index`, as a click on its row does.
    pub fn select(&mut self, index: usize)
        requires
            index < old(self)@.config.game.len(),
        ensures
            final(self)@.config == old(self)@.config,
            final(self)@.selected == Some(index),
            old(self)@.config.wf() ==> final(self)@.wf(),
    {
        self.selected_profile_index = Some(index);
    }

    /// What the settings widgets are to show: the selected profile, or
    /// their reset where nothing is selected, or no change where the
    /// selection points at no profile.
    pub fn update_main_window_from_profile(&self) -> (update: WindowUpdate)
        ensures
            update@ == self@.window_update(),
    {
        match self.selected_profile_index {
            None => WindowUpdate::Clear,
            Some(index) => {
                if index < self.config.game.len() {
                    let profile = &self.config.game[index];
                    WindowUpdate::Show(
                        ProfileDisplay {
                            multiplier: multiplier_label(profile.multiplier),
                            flow_scale: profile.flow_scale.to_text(),
                            performance_mode: profile.performance_mode,
                            hdr_mode: profile.hdr_mode,
                            experimental_present_mode: profile.experimental_present_mode.clone(),
                        },
                    )
                } else {
                    WindowUpdate::Keep
                }
            },
        }
    }

    /// The rows with which the sidebar is filled: one per profile, under
    /// its name, and the row to select.
    pub fn populate_sidebar_with_handlers(&self) -> (rows: SidebarRows)
        ensures
            texts(rows.labels@) == self@.names(),
            rows.selected == self@.selected_row(),
    {
        let mut labels: Vec<String> = Vec::new();
        let mut index: usize = 0;
        while index < self.config.game.len()
            invariant
                index <= self.config.game.len(),
                labels@.len() == index,
                forall|k: int|
                    0 <= k < index ==> (#[trigger] labels@[k])@ == self.config.game@[k].exe@,
            decreases self.config.game.len() - index,
        {
            labels.push(self.config.game[index].exe.clone());
            index += 1;
        }
        let selected = match self.selected_profile_index {
            Some(chosen) => if chosen < self.config.game.len() {
                Some(chosen)
            } else {
                None
            },
            None => None,
        };
        SidebarRows { labels, selected }
    }
}

} // verus!
