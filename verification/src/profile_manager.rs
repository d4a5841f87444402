//! The rules of the profile list: which names are accepted, and how
//! creating, renaming, removing and editing a profile change the store
//! and the selection.

use crate::app_state::{AppState, AppStateView};
use crate::config::{
    lemma_with_field_keeps_names, Config, ConfigView, GameProfile, GameProfileView, ProfileField,
    ProfileFieldView,
};
use crate::text::{
    lemma_blank_trims_to_nothing, lemma_trimmed_is_trim, trimmed, white_space,
};
use vstd::prelude::*;

verus! {

/// Why a profile name is refused.
#[derive(Clone, Copy, Debug, PartialEq, Eq, Structural)]
pub enum ValidationError {
    /// Nothing is left of the name once it is trimmed.
    EmptyName,
    /// Another profile already has the name.
    DuplicateName,
}

impl ValidationError {
    /// The message that tells the user of the error.
    pub open spec fn message_text(self) -> Seq<char> {
        match self {
            ValidationError::EmptyName => "Profile name cannot be empty"@,
            ValidationError::DuplicateName => "A profile with this name already exists"@,
        }
    }

    /// The message that tells the user of the error.
    pub fn message(&self) -> (text: String)
        ensures
            text@ == self.message_text(),
    {
        match self {
            ValidationError::EmptyName => "Profile name cannot be empty".to_owned(),
            ValidationError::DuplicateName => "A profile with this name already exists".to_owned(),
        }
    }
}

/// Whether the profile at `i` counts in the search for a profile of the
/// same name: every profile but the one at `exclude_index`.
pub open spec fn counts(exclude_index: Option<usize>, i: int) -> bool {
    match exclude_index {
        Some(excluded) => i != excluded,
        None => true,
    }
}

/// Whether a profile of `game` other than the one at `exclude_index` has
/// the name `name`.
pub open spec fn name_taken(
    game: Seq<GameProfileView>,
    name: Seq<char>,
    exclude_index: Option<usize>,
) -> bool {
    exists|i: int|
        0 <= i < game.len() && (#[trigger] game[i]).exe == name && counts(exclude_index, i)
}

/// The verdict on `name` as the name of a profile of `game`, where the
/// profile at `exclude_index` is the one being named: the name is trimmed
/// first; an empty one is refused, and so is one that another profile has.
pub open spec fn validation(
    game: Seq<GameProfileView>,
    name: Seq<char>,
    exclude_index: Option<usize>,
) -> Result<(), ValidationError> {
    if trimmed(name).len() == 0 {
        Err(ValidationError::EmptyName)
    } else if name_taken(game, trimmed(name), exclude_index) {
        Err(ValidationError::DuplicateName)
    } else {
        Ok(())
    }
}

/// Decides whether `name` may name a profile of `config`. The profile at
/// `exclude_index`, if any, is left out of the search for a profile of the
/// same name, so that a profile may keep its name.
pub fn validate_profile_name(config: &Config, name: &str, exclude_index: Option<usize>) -> (verdict:
    Result<(), ValidationError>)
    ensures
        verdict == validation(config@.game, name@, exclude_index),
{
    let trimmed_name = name.trim();
    if trimmed_name.is_empty() {
        return Err(ValidationError::EmptyName);
    }
    let wanted = trimmed_name.to_owned();
    let mut index: usize = 0;
    while index < config.game.len()
        invariant
            index <= config.game.len(),
            wanted@ == trimmed(name@),
            wanted@.len() > 0,
            forall|k: int|
                0 <= k < index ==> !((#[trigger] config@.game[k]).exe == wanted@ && counts(
                    exclude_index,
                    k,
                )),
        decreases config.game.len() - index,
    {
        let excluded = match exclude_index {
            Some(excluded_index) => excluded_index == index,
            None => false,
        };
        if config.game[index].exe == wanted && !excluded {
            assert(config@.game[index as int].exe == wanted@);
            return Err(ValidationError::DuplicateName);
        }
        index += 1;
    }
    Ok(())
}

impl AppStateView {
    /// This state after a profile named `name` was created: the fresh
    /// profile stands last and is selected.
    pub open spec fn created(self, name: Seq<char>) -> AppStateView {
        AppStateView {
            config: ConfigView {
                game: self.config.game.push(GameProfileView::initial(name)),
                ..self.config
            },
            selected: Some(self.config.game.len() as usize),
        }
    }

    /// This state after the profile at `index` was given the name `name`.
    pub open spec fn renamed(self, index: int, name: Seq<char>) -> AppStateView {
        AppStateView {
            config: ConfigView {
                game: self.config.game.update(index, self.config.game[index].renamed(name)),
                ..self.config
            },
            ..self
        }
    }

    /// The selection after the profile at `index` was removed from `len`
    /// profiles: a selection on the removed profile moves to the first
    /// profile, or to none where no profile is left; one behind it moves
    /// down with its profile; one before it stays.
    pub open spec fn selection_after_removal(self, index: int) -> Option<usize> {
        match self.selected {
            None => None,
            Some(selected) => if selected == index {
                if self.config.game.len() == 1 {
                    None
                } else {
                    Some(0)
                }
            } else if selected > index {
                Some((selected - 1) as usize)
            } else {
                Some(selected)
            },
        }
    }

    /// This state after the profile at `index` was removed.
    pub open spec fn removed(self, index: int) -> AppStateView {
        AppStateView {
            config: ConfigView { game: self.config.game.remove(index), ..self.config },
            selected: self.selection_after_removal(index),
        }
    }
}

/// Creates a profile named `profile_name`, trimmed, with the settings of a
/// fresh profile, appends it to the store and selects it. Returns its
/// index. Where the name is refused, nothing changes.
pub fn handle_create_profile(state: &mut AppState, profile_name: &str) -> (created: Result<
    usize,
    ValidationError,
>)
    ensures
        match validation(old(state)@.config.game, profile_name@, None) {
            Err(error) => created == Err::<usize, ValidationError>(error) && *final(state) == *old(
                state,
            ),
            Ok(_) => created == Ok::<usize, ValidationError>(
                old(state)@.config.game.len() as usize,
            ) && final(state)@ == old(state)@.created(trimmed(profile_name@)),
        },
        old(state)@.wf() ==> final(state)@.wf(),
{
    match validate_profile_name(&state.config, profile_name, None) {
        Err(error) => Err(error),
        Ok(_) => {
            let profile = GameProfile::named(profile_name.trim().to_owned());
            state.config.game.push(profile);
            let index = state.config.game.len() - 1;
            state.selected_profile_index = Some(index);
            proof {
                let name = trimmed(profile_name@);
                assert(state@.config.game =~= old(state)@.config.game.push(
                    GameProfileView::initial(name),
                ));
                if old(state)@.wf() {
                    lemma_created_wf(old(state)@, profile_name@);
                }
            }
            Ok(index)
        },
    }
}

/// Creation keeps the invariant: once `name` has been accepted for a well
/// formed state, the state with the trimmed name added is well formed.
pub proof fn lemma_created_wf(state: AppStateView, name: Seq<char>)
    requires
        state.config.wf(),
        validation(state.config.game, name, None) is Ok,
    ensures
        state.created(trimmed(name)).wf(),
{
}

/// Gives the profile at `profile_index` the name `new_name`, trimmed. The
/// profile may keep its own name; the name of another profile is refused.
/// Where the name is refused, nothing changes.
pub fn handle_edit_profile(state: &mut AppState, profile_index: usize, new_name: &str) -> (renamed:
    Result<(), ValidationError>)
    requires
        profile_index < old(state)@.config.game.len(),
    ensures
        renamed == validation(old(state)@.config.game, new_name@, Some(profile_index)),
        renamed is Err ==> *final(state) == *old(state),
        renamed is Ok ==> final(state)@ == old(state)@.renamed(
            profile_index as int,
            trimmed(new_name@),
        ),
        old(state)@.wf() ==> final(state)@.wf(),
{
    match validate_profile_name(&state.config, new_name, Some(profile_index)) {
        Err(error) => Err(error),
        Ok(_) => {
            state.config.game[profile_index].exe = new_name.trim().to_owned();
            proof {
                assert(state@.config.game =~= old(state)@.renamed(
                    profile_index as int,
                    trimmed(new_name@),
                ).config.game);
                if old(state)@.wf() {
                    lemma_renamed_wf(old(state)@, profile_index, new_name@);
                }
            }
            Ok(())
        },
    }
}

/// Renaming keeps the invariant: once `name` has been accepted for the
/// profile at `index` of a well formed state, the state with that profile
/// under the trimmed name is well formed.
pub proof fn lemma_renamed_wf(state: AppStateView, index: usize, name: Seq<char>)
    requires
        state.wf(),
        index < state.config.game.len(),
        validation(state.config.game, name, Some(index)) is Ok,
    ensures
        state.renamed(index as int, trimmed(name)).wf(),
{
}

/// Removes the profile at `profile_index`; the profiles behind it move up
/// by one. The selection follows: from the removed profile to the first
/// one, or to none where the store is left empty; with its profile where
/// that stood behind the removed one; unchanged otherwise.
pub fn handle_remove_profile(state: &mut AppState, profile_index: usize)
    requires
        profile_index < old(state)@.config.game.len(),
    ensures
        final(state)@ == old(state)@.removed(profile_index as int),
        old(state)@.wf() ==> final(state)@.wf(),
{
    state.config.game.remove(profile_index);
    if let Some(selected) = state.selected_profile_index {
        if selected == profile_index {
            state.selected_profile_index = if state.config.game.is_empty() {
                None
            } else {
                Some(0)
            };
        } else if selected > profile_index {
            state.selected_profile_index = Some(selected - 1);
        }
    }
    proof {
        assert(state@.config.game =~= old(state)@.config.game.remove(profile_index as int));
        if old(state)@.wf() {
            lemma_removed_wf(old(state)@, profile_index as int);
        }
    }
}

/// Removal keeps the invariant: a well formed state without one of its
/// profiles, the selection moved as removal moves it, is well formed.
pub proof fn lemma_removed_wf(state: AppStateView, index: int)
    requires
        state.wf(),
        0 <= index < state.config.game.len(),
    ensures
        state.removed(index).wf(),
{
}

impl AppStateView {
    /// This state with one setting of the selected profile replaced, or
    /// this state itself where no profile is selected.
    pub open spec fn edited(self, field: ProfileFieldView) -> AppStateView {
        match self.selected {
            Some(index) => AppStateView {
                config: self.config.with_field(index as int, field),
                ..self
            },
            None => self,
        }
    }
}

/// Replaces one setting of the selected profile. Nothing changes where no
/// profile is selected or the selection points at none.
pub fn update_profile_field(state: &mut AppState, field: ProfileField)
    ensures
        final(state)@ == old(state)@.edited(field@),
        final(state)@.wf() == old(state)@.wf(),
{
    if let Some(index) = state.selected_profile_index {
        proof {
            lemma_with_field_keeps_names(state@.config, index as int, field@);
        }
        state.config.set_field(index, field);
    }
}

/// A name cannot be created twice: once a profile has been created under a
/// name, the same name is refused as a duplicate, whatever else the store
/// holds.
pub proof fn lemma_second_creation_is_duplicate(state: AppStateView, name: Seq<char>)
    requires
        validation(state.config.game, name, None) is Ok,
    ensures
        validation(state.created(trimmed(name)).config.game, name, None) == Err::<
            (),
            ValidationError,
        >(ValidationError::DuplicateName),
{
    let after = state.created(trimmed(name)).config.game;
    assert(after[state.config.game.len() as int].exe == trimmed(name));
}

/// A name of nothing but whitespace is refused as empty, whatever the store
/// holds; so is the empty name.
pub proof fn lemma_blank_name_is_empty(
    game: Seq<GameProfileView>,
    name: Seq<char>,
    exclude_index: Option<usize>,
)
    requires
        forall|i: int| 0 <= i < name.len() ==> white_space(#[trigger] name[i]),
    ensures
        validation(game, name, exclude_index) == Err::<(), ValidationError>(
            ValidationError::EmptyName,
        ),
{
    lemma_blank_trims_to_nothing(name);
}

/// A profile may keep its name: in a well formed store the trimmed name of
/// a profile is accepted for that profile.
pub proof fn lemma_own_name_is_accepted(state: AppStateView, index: usize, name: Seq<char>)
    requires
        state.config.wf(),
        index < state.config.game.len(),
        state.config.game[index as int].exe == trimmed(name),
    ensures
        validation(state.config.game, name, Some(index)) is Ok,
{
}

/// A created profile may be renamed to the name it was stored under: the
/// stored name is trimmed already, so it is accepted for its own profile.
pub proof fn lemma_created_profile_keeps_its_name(state: AppStateView, name: Seq<char>)
    requires
        state.config.wf(),
        state.config.game.len() < usize::MAX,
        validation(state.config.game, name, None) is Ok,
    ensures
        validation(
            state.created(trimmed(name)).config.game,
            trimmed(name),
            Some(state.config.game.len() as usize),
        ) is Ok,
{
    lemma_trimmed_is_trim(name);
    lemma_created_wf(state, name);
    lemma_own_name_is_accepted(
        state.created(trimmed(name)),
        state.config.game.len() as usize,
        trimmed(name),
    );
}

/// The selection follows its profile through a removal: where another
/// profile than the selected one is removed, the selection points at the
/// same profile afterwards.
pub proof fn lemma_removal_keeps_selected_profile(state: AppStateView, index: int)
    requires
        0 <= index < state.config.game.len(),
        state.selected matches Some(selected) && selected < state.config.game.len() && selected
            != index,
    ensures
        state.removed(index).selected matches Some(moved) && moved < state.removed(
            index,
        ).config.game.len() && state.removed(index).config.game[moved as int]
            == state.config.game[state.selected->0 as int],
{
}

/// A store without profiles has no selection: where the removal from a
/// well formed state leaves no profile, nothing is selected.
pub proof fn lemma_empty_store_is_unselected(state: AppStateView, index: int)
    requires
        state.wf(),
        0 <= index < state.config.game.len(),
        state.config.game.len() == 1,
    ensures
        state.removed(index).config.game.len() == 0,
        state.removed(index).selected is None,
{
}

} // verus!
