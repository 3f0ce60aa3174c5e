//! What the application keeps between runs: its configuration and the list
//! of installed addons.

use vstd::prelude::*;
use vstd::string::StringExecFns;
use crate::game::ReleaseType;

verus! {

/// Where each release of the game is installed.
#[derive(Debug)]
pub struct GamePaths {
    retail: Option<String>,
}

/// The application's configuration.
#[derive(Debug)]
pub struct AppConfig {
    game_paths: GamePaths,
}

/// Where an addon comes from.
#[derive(Clone, Copy, Debug, PartialEq, Eq, Structural)]
pub enum AddonProvider {
    CurseForge,
}

/// One installed addon.
#[derive(Debug)]
pub struct AddonData {
    /// The addon's name.
    pub name: String,
    /// The identifier of the installed version.
    pub version_id: String,
    /// The installed version as shown, where the provider gives one.
    pub version_name: Option<String>,
    /// Where the addon comes from.
    pub provider: AddonProvider,
}

/// The installed addons.
#[derive(Debug)]
pub struct Addons {
    retail_list: Vec<AddonData>,
}

impl AppConfig {
    /// The path under which a release is installed, if one is set.
    pub closed spec fn game_path(&self, release_type: ReleaseType) -> Option<String> {
        match release_type {
            ReleaseType::Retail => self.game_paths.retail,
        }
    }

    /// A configuration in which no release has a path.
    pub fn new() -> (config: Self)
        ensures
            forall|release_type: ReleaseType| config.game_path(release_type) is None,
    {
        Self { game_paths: GamePaths { retail: None } }
    }

    /// A configuration with the given path for the retail release.
    pub fn with_retail_path(retail: Option<String>) -> (config: Self)
        ensures
            config.game_path(ReleaseType::Retail) == retail,
    {
        Self { game_paths: GamePaths { retail } }
    }

    /// The name of the file that holds the configuration.
    pub fn get_file_name() -> (name: String)
        ensures
            name@ == "config.toml"@,
    {
        String::from_str("config.toml")
    }

    /// The path under which a release is installed, if one is set.
    pub fn get_game_path(&self, release_type: ReleaseType) -> (path: &Option<String>)
        ensures
            *path == self.game_path(release_type),
    {
        match release_type {
            ReleaseType::Retail => &self.game_paths.retail,
        }
    }

    /// Sets the path under which a release is installed. The paths of the
    /// other releases stay as they are.
    pub fn set_game_path(&mut self, release_type: ReleaseType, path: String)
        ensures
            final(self).game_path(release_type) == Some(path),
            forall|other: ReleaseType|
                other != release_type ==> final(self).game_path(other) == old(self).game_path(
                    other,
                ),
    {
        match release_type {
            ReleaseType::Retail => {
                self.game_paths.retail = Some(path);
            },
        }
    }
}

impl Addons {
    /// The addons of the retail release, in the order of the list.
    pub closed spec fn retail(&self) -> Seq<AddonData> {
        self.retail_list@
    }

    /// An empty list of addons.
    pub fn new() -> (addons: Self)
        ensures
            addons.retail() == Seq::<AddonData>::empty(),
    {
        Addons { retail_list: Vec::new() }
    }

    /// The name of the file that holds the list.
    pub fn get_file_name() -> (name: String)
        ensures
            name@ == "addons.toml"@,
    {
        String::from_str("addons.toml")
    }

    /// The addons of the retail release, in the order of the list.
    pub fn retail_list(&self) -> (list: &Vec<AddonData>)
        ensures
            list@ == self.retail(),
    {
        &self.retail_list
    }

    /// Adds an addon at the end of the retail list.
    pub fn push_retail(&mut self, addon: AddonData)
        ensures
            final(self).retail() == old(self).retail().push(addon),
    {
        self.retail_list.push(addon);
    }
}

} // verus!
