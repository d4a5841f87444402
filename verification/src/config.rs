//! The stored configuration: its data types, their mathematical views,
//! their defaults and the rule for what a load yields.

use crate::text::{decimal_string, decimal_text, digit_char};
use vstd::prelude::*;
use vstd::string::StringExecFns;

verus! {

/// The schema version that a store created here carries.
pub const SCHEMA_VERSION: u32 = 1;

/// A flow scale held at two-decimal precision, as a count of hundredths.
///
/// `FlowScale { hundredths: 70 }` stands for `0.70`. Holding the count
/// rather than a binary fraction makes every stored value exact at two
/// decimals.
#[derive(Clone, Copy, Debug, PartialEq, Eq, Structural)]
pub struct FlowScale {
    pub hundredths: i64,
}

impl FlowScale {
    /// The flow scale of a freshly created profile, `0.70`.
    pub open spec fn initial_value() -> FlowScale {
        FlowScale { hundredths: 70 }
    }

    /// The flow scale of a freshly created profile, `0.70`.
    pub fn initial() -> (scale: FlowScale)
        ensures
            scale == FlowScale::initial_value(),
    {
        FlowScale { hundredths: 70 }
    }

    /// The count of hundredths without its sign.
    pub open spec fn magnitude(self) -> nat {
        if self.hundredths < 0 {
            (-self.hundredths) as nat
        } else {
            self.hundredths as nat
        }
    }

    /// The flow scale written with two fractional digits: a `-` where the
    /// count is negative, the numeral of the whole part, a point and the
    /// two digits of the hundredths.
    pub open spec fn text(self) -> Seq<char> {
        let sign = if self.hundredths < 0 {
            seq!['-']
        } else {
            Seq::empty()
        };
        let cents = self.magnitude() % 100;
        sign + decimal_text(self.magnitude() / 100) + seq![
            '.',
            digit_char(cents / 10),
            digit_char(cents % 10),
        ]
    }

    /// Writes the flow scale with two fractional digits, as a text field
    /// shows it: `FlowScale { hundredths: 70 }` gives `0.70`.
    pub fn to_text(&self) -> (text: String)
        ensures
            text@ == self.text(),
    {
        let wide: i128 = self.hundredths as i128;
        let magnitude: u64 = if wide < 0 {
            (-wide) as u64
        } else {
            wide as u64
        };
        let whole: u64 = magnitude / 100;
        let cents: u64 = magnitude % 100;
        let mut text = if wide < 0 {
            "-".to_owned()
        } else {
            String::new()
        };
        proof {
            reveal_strlit("-");
            reveal_strlit(".");
        }
        text.append(decimal_string(whole).as_str());
        text.append(".");
        text.append(decimal_string(cents / 10).as_str());
        text.append(decimal_string(cents % 10).as_str());
        text
    }
}

/// The settings of one application.
#[derive(Clone, Debug)]
pub struct GameProfile {
    /// The name of the profile: the executable it applies to.
    pub exe: String,
    /// The frame multiplier; `1` means that frame generation is off.
    pub multiplier: u32,
    pub flow_scale: FlowScale,
    pub performance_mode: bool,
    pub hdr_mode: bool,
    pub experimental_present_mode: String,
}

/// What a [`GameProfile`] holds, with its strings as character sequences.
pub struct GameProfileView {
    pub exe: Seq<char>,
    pub multiplier: u32,
    pub flow_scale: FlowScale,
    pub performance_mode: bool,
    pub hdr_mode: bool,
    pub experimental_present_mode: Seq<char>,
}

impl GameProfileView {
    /// The profile that creation gives to `name`: multiplier off, flow
    /// scale `0.70`, performance mode on, HDR off, present mode `vsync`.
    pub open spec fn initial(name: Seq<char>) -> GameProfileView {
        GameProfileView {
            exe: name,
            multiplier: 1,
            flow_scale: FlowScale::initial_value(),
            performance_mode: true,
            hdr_mode: false,
            experimental_present_mode: "vsync"@,
        }
    }

    /// This profile under another name.
    pub open spec fn renamed(self, name: Seq<char>) -> GameProfileView {
        GameProfileView { exe: name, ..self }
    }
}

impl View for GameProfile {
    type V = GameProfileView;

    open spec fn view(&self) -> GameProfileView {
        GameProfileView {
            exe: self.exe@,
            multiplier: self.multiplier,
            flow_scale: self.flow_scale,
            performance_mode: self.performance_mode,
            hdr_mode: self.hdr_mode,
            experimental_present_mode: self.experimental_present_mode@,
        }
    }
}

impl GameProfile {
    /// A profile named `name` with the settings of a fresh profile.
    pub fn named(name: String) -> (profile: GameProfile)
        ensures
            profile@ == GameProfileView::initial(name@),
    {
        GameProfile {
            exe: name,
            multiplier: 1,
            flow_scale: FlowScale::initial(),
            performance_mode: true,
            hdr_mode: false,
            experimental_present_mode: "vsync".to_owned(),
        }
    }
}

impl Default for GameProfile {
    /// The fresh profile without a name.
    fn default() -> (profile: GameProfile)
        ensures
            profile@ == GameProfileView::initial(Seq::empty()),
    {
        GameProfile::named(String::new())
    }
}

/// Settings that hold for every profile.
#[derive(Clone, Debug)]
pub struct GlobalConfig {
    /// The path of a custom library, where the user asked for one.
    pub dll: Option<String>,
}

/// What a [`GlobalConfig`] holds, with its path as a character sequence.
pub struct GlobalConfigView {
    pub dll: Option<Seq<char>>,
}

impl View for GlobalConfig {
    type V = GlobalConfigView;

    open spec fn view(&self) -> GlobalConfigView {
        GlobalConfigView {
            dll: match self.dll {
                Some(path) => Some(path@),
                None => None,
            },
        }
    }
}

impl Default for GlobalConfig {
    /// Global settings without a custom library.
    fn default() -> (global: GlobalConfig)
        ensures
            global@ == (GlobalConfigView { dll: None }),
    {
        GlobalConfig { dll: None }
    }
}

/// The optional global block, kept in a struct of its own so that it keeps
/// its place between the version and the profiles when the store is
/// written out.
#[derive(Clone, Debug)]
pub struct OrderedGlobalConfig {
    pub global: Option<GlobalConfig>,
}

impl View for OrderedGlobalConfig {
    type V = Option<GlobalConfigView>;

    open spec fn view(&self) -> Option<GlobalConfigView> {
        match self.global {
            Some(global) => Some(global@),
            None => None,
        }
    }
}

impl Default for OrderedGlobalConfig {
    /// No global block.
    fn default() -> (ordered: OrderedGlobalConfig)
        ensures
            ordered@ is None,
    {
        OrderedGlobalConfig { global: None }
    }
}

/// The store: a schema version, the optional global block and the
/// profiles in the order of their creation.
#[derive(Clone, Debug)]
pub struct Config {
    pub version: u32,
    pub ordered_global: OrderedGlobalConfig,
    pub game: Vec<GameProfile>,
}

/// What a [`Config`] holds.
pub struct ConfigView {
    pub version: u32,
    pub global: Option<GlobalConfigView>,
    pub game: Seq<GameProfileView>,
}

impl ConfigView {
    /// The store of a first start: current schema version, no global
    /// block, no profile.
    pub open spec fn empty() -> ConfigView {
        ConfigView { version: SCHEMA_VERSION, global: None, game: Seq::empty() }
    }

    /// No profile has the empty name.
    pub open spec fn names_nonempty(self) -> bool {
        forall|i: int| 0 <= i < self.game.len() ==> (#[trigger] self.game[i]).exe.len() > 0
    }

    /// No two profiles have the same name.
    pub open spec fn names_unique(self) -> bool {
        forall|i: int, j: int|
            0 <= i < j < self.game.len() ==> (#[trigger] self.game[i]).exe != (
            #[trigger] self.game[j]).exe
    }

    /// The invariant of the store: every profile has a name, and no two
    /// profiles share one.
    pub open spec fn wf(self) -> bool {
        self.names_nonempty() && self.names_unique()
    }
}

impl View for Config {
    type V = ConfigView;

    open spec fn view(&self) -> ConfigView {
        ConfigView {
            version: self.version,
            global: self.ordered_global@,
            game: self.game@.map_values(|profile: GameProfile| profile@),
        }
    }
}

impl Default for Config {
    /// The store of a first start.
    fn default() -> (store: Config)
        ensures
            store@ == ConfigView::empty(),
            store@.wf(),
    {
        let store = Config {
            version: SCHEMA_VERSION,
            ordered_global: OrderedGlobalConfig { global: None },
            game: Vec::new(),
        };
        assert(store@.game =~= Seq::empty());
        store
    }
}

/// What reading and decoding the configuration file gave.
#[derive(Clone, Debug)]
pub enum FileContents {
    /// There is no configuration file.
    Missing,
    /// The configuration directory or the file could not be read.
    Unreadable,
    /// There is a file, but its text could not be decoded.
    Undecodable,
    /// The file was decoded into `config`. `corrected` tells whether a flow
    /// scale had to be brought to two decimals on the way.
    Decoded { config: Config, corrected: bool },
}

/// What a load yields: the store to work on, and whether it is to be
/// written back to the file at once.
#[derive(Clone, Debug)]
pub struct LoadOutcome {
    pub config: Config,
    pub write_back: bool,
}

/// Decides what a load yields. A load never fails: a missing file, a file
/// that could not be read and a file that could not be decoded all give the
/// store of a first start, and nothing is written. A decoded store is taken
/// as it is, and written back exactly where a flow scale was corrected, so
/// that the file is mended by the load.
pub fn load_config(contents: FileContents) -> (outcome: LoadOutcome)
    ensures
        match contents {
            FileContents::Decoded { config, corrected } => outcome.config == config
                && outcome.write_back == corrected,
            _ => outcome.config@ == ConfigView::empty() && !outcome.write_back,
        },
{
    match contents {
        FileContents::Decoded { config, corrected } => LoadOutcome {
            config,
            write_back: corrected,
        },
        _ => LoadOutcome { config: Config::default(), write_back: false },
    }
}

/// One setting of a profile together with the value to give it.
#[derive(Clone, Debug)]
pub enum ProfileField {
    Multiplier(u32),
    FlowScale(FlowScale),
    PerformanceMode(bool),
    HdrMode(bool),
    PresentMode(String),
}

/// What a [`ProfileField`] holds.
pub enum ProfileFieldView {
    Multiplier(u32),
    FlowScale(FlowScale),
    PerformanceMode(bool),
    HdrMode(bool),
    PresentMode(Seq<char>),
}

impl View for ProfileField {
    type V = ProfileFieldView;

    open spec fn view(&self) -> ProfileFieldView {
        match self {
            ProfileField::Multiplier(multiplier) => ProfileFieldView::Multiplier(*multiplier),
            ProfileField::FlowScale(scale) => ProfileFieldView::FlowScale(*scale),
            ProfileField::PerformanceMode(on) => ProfileFieldView::PerformanceMode(*on),
            ProfileField::HdrMode(on) => ProfileFieldView::HdrMode(*on),
            ProfileField::PresentMode(mode) => ProfileFieldView::PresentMode(mode@),
        }
    }
}

impl GameProfileView {
    /// This profile with one setting replaced; the name and the other
    /// settings stay.
    pub open spec fn with_field(self, field: ProfileFieldView) -> GameProfileView {
        match field {
            ProfileFieldView::Multiplier(multiplier) => GameProfileView { multiplier, ..self },
            ProfileFieldView::FlowScale(flow_scale) => GameProfileView { flow_scale, ..self },
            ProfileFieldView::PerformanceMode(performance_mode) => GameProfileView {
                performance_mode,
                ..self
            },
            ProfileFieldView::HdrMode(hdr_mode) => GameProfileView { hdr_mode, ..self },
            ProfileFieldView::PresentMode(mode) => GameProfileView {
                experimental_present_mode: mode,
                ..self
            },
        }
    }
}

impl ConfigView {
    /// This store with one setting of the profile at `index` replaced, or
    /// this store itself where `index` points at no profile.
    pub open spec fn with_field(self, index: int, field: ProfileFieldView) -> ConfigView {
        if 0 <= index < self.game.len() {
            ConfigView { game: self.game.update(index, self.game[index].with_field(field)), ..self }
        } else {
            self
        }
    }
}

impl GameProfile {
    /// Replaces one setting of the profile.
    pub fn set_field(&mut self, field: ProfileField)
        ensures
            final(self)@ == old(self)@.with_field(field@),
    {
        match field {
            ProfileField::Multiplier(multiplier) => {
                self.multiplier = multiplier;
            },
            ProfileField::FlowScale(scale) => {
                self.flow_scale = scale;
            },
            ProfileField::PerformanceMode(on) => {
                self.performance_mode = on;
            },
            ProfileField::HdrMode(on) => {
                self.hdr_mode = on;
            },
            ProfileField::PresentMode(mode) => {
                self.experimental_present_mode = mode;
            },
        }
    }
}

impl Config {
    /// Replaces one setting of the profile at `index`. An index that points
    /// at no profile is ignored. Names are not touched, so the invariant of
    /// the store stays as it was.
    pub fn set_field(&mut self, index: usize, field: ProfileField)
        ensures
            final(self)@ == old(self)@.with_field(index as int, field@),
            final(self)@.wf() == old(self)@.wf(),
    {
        if index < self.game.len() {
            self.game[index].set_field(field);
            proof {
                let before = old(self)@;
                let after = self@;
                assert(after.game =~= before.game.update(
                    index as int,
                    before.game[index as int].with_field(field@),
                ));
                lemma_with_field_keeps_names(before, index as int, field@);
            }
        }
    }
}

/// Replacing a setting leaves every name as it was, and with the names the
/// invariant of the store.
pub proof fn lemma_with_field_keeps_names(store: ConfigView, index: int, field: ProfileFieldView)
    ensures
        store.with_field(index, field).game.len() == store.game.len(),
        forall|i: int|
            0 <= i < store.game.len() ==> (#[trigger] store.with_field(index, field).game[i]).exe
                == store.game[i].exe,
        store.with_field(index, field).wf() == store.wf(),
{
    let after = store.with_field(index, field);
    assert forall|i: int| 0 <= i < store.game.len() implies (#[trigger] after.game[i]).exe
        == store.game[i].exe by {}
    if after.wf() {
        assert forall|i: int| 0 <= i < store.game.len() implies (#[trigger] store.game[i]).exe.len()
            > 0 by {
            assert(after.game[i].exe == store.game[i].exe);
        }
        assert forall|i: int, j: int| 0 <= i < j < store.game.len() implies (
        #[trigger] store.game[i]).exe != (#[trigger] store.game[j]).exe by {
            assert(after.game[i].exe == store.game[i].exe);
            assert(after.game[j].exe == store.game[j].exe);
        }
    }
}

} // verus!
