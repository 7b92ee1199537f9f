//! The environment descriptor: the one record that describes a provisioned
//! environment (compatibility layer, graphics layer, target application),
//! plus the discovered-version entries used for display and selection.

use vstd::prelude::*;

verus! {

/// A discovered compatibility-layer installation: its name and the
/// directory holding its binaries.
#[derive(Debug)]
pub struct RunnerVersion {
    pub name: String,
    pub path: String,
}

/// A discovered graphics-layer installation: its name and its directory.
#[derive(Debug)]
pub struct RuntimeVersion {
    pub name: String,
    pub path: String,
}

/// The compatibility-layer component of the descriptor.
#[derive(Debug)]
pub struct WineComponent {
    pub version: String,
    pub path: String,
    pub esync: bool,
    pub fsync: bool,
    pub feral_gamemode: bool,
}

/// The graphics-translation-layer component of the descriptor.
#[derive(Debug)]
pub struct DXVKComponent {
    pub version: String,
    pub path: String,
    pub enabled: bool,
}

/// One environment-variable or library-routing override, as a key/value pair.
#[derive(Debug)]
pub struct KeyValue {
    pub key: String,
    pub value: String,
}

/// The target-application component of the descriptor.
#[derive(Debug)]
pub struct GameComponent {
    pub prefix: String,
    pub directory: String,
    pub launcher: String,
    pub mangohud: bool,
    pub environment_variables: Vec<KeyValue>,
    pub dll_overrides: Vec<KeyValue>,
}

/// The whole environment descriptor. The two version lists are populated
/// only for display and never treated as authoritative.
#[derive(Debug)]
pub struct Config {
    pub wine: WineComponent,
    pub dxvk: DXVKComponent,
    pub game: GameComponent,
    pub available_wine_versions: Option<Vec<RunnerVersion>>,
    pub available_dxvk_versions: Option<Vec<RuntimeVersion>>,
}

impl View for RunnerVersion {
    type V = (Seq<char>, Seq<char>);

    open spec fn view(&self) -> (Seq<char>, Seq<char>) {
        (self.name@, self.path@)
    }
}

impl View for RuntimeVersion {
    type V = (Seq<char>, Seq<char>);

    open spec fn view(&self) -> (Seq<char>, Seq<char>) {
        (self.name@, self.path@)
    }
}

/// Two target-application components describe the same application: all
/// scalar fields are equal and the override lists hold the same entries in
/// the same order.
pub open spec fn game_equiv(a: GameComponent, b: GameComponent) -> bool {
    &&& a.prefix == b.prefix
    &&& a.directory == b.directory
    &&& a.launcher == b.launcher
    &&& a.mangohud == b.mangohud
    &&& a.environment_variables@ == b.environment_variables@
    &&& a.dll_overrides@ == b.dll_overrides@
}

/// Two descriptors describe the same environment, including the
/// display-only discovered-version lists.
pub open spec fn config_equiv(a: Config, b: Config) -> bool {
    &&& a.wine == b.wine
    &&& a.dxvk == b.dxvk
    &&& game_equiv(a.game, b.game)
    &&& (a.available_wine_versions is Some <==> b.available_wine_versions is Some)
    &&& (a.available_wine_versions is Some ==> a.available_wine_versions->0@
        == b.available_wine_versions->0@)
    &&& (a.available_dxvk_versions is Some <==> b.available_dxvk_versions is Some)
    &&& (a.available_dxvk_versions is Some ==> a.available_dxvk_versions->0@
        == b.available_dxvk_versions->0@)
}

impl Config {
    /// A descriptor from its three components, with no discovered-version
    /// lists attached.
    pub fn new(wine: WineComponent, dxvk: DXVKComponent, game: GameComponent) -> (r: Self)
        ensures
            r.wine == wine,
            r.dxvk == dxvk,
            r.game == game,
            r.available_wine_versions is None,
            r.available_dxvk_versions is None,
    {
        Self { wine, dxvk, game, available_wine_versions: None, available_dxvk_versions: None }
    }
}

impl Clone for KeyValue {
    fn clone(&self) -> (r: Self)
        ensures
            r == *self,
    {
        KeyValue { key: self.key.clone(), value: self.value.clone() }
    }
}

impl Clone for RunnerVersion {
    fn clone(&self) -> (r: Self)
        ensures
            r == *self,
    {
        RunnerVersion { name: self.name.clone(), path: self.path.clone() }
    }
}

impl Clone for RuntimeVersion {
    fn clone(&self) -> (r: Self)
        ensures
            r == *self,
    {
        RuntimeVersion { name: self.name.clone(), path: self.path.clone() }
    }
}

impl Clone for WineComponent {
    fn clone(&self) -> (r: Self)
        ensures
            r == *self,
    {
        WineComponent {
            version: self.version.clone(),
            path: self.path.clone(),
            esync: self.esync,
            fsync: self.fsync,
            feral_gamemode: self.feral_gamemode,
        }
    }
}

impl Clone for DXVKComponent {
    fn clone(&self) -> (r: Self)
        ensures
            r == *self,
    {
        DXVKComponent {
            version: self.version.clone(),
            path: self.path.clone(),
            enabled: self.enabled,
        }
    }
}

/// An element-wise copy of a key/value list.
pub fn clone_key_values(v: &Vec<KeyValue>) -> (r: Vec<KeyValue>)
    ensures
        r@ == v@,
{
    let mut out: Vec<KeyValue> = Vec::new();
    let mut i: usize = 0;
    while i < v.len()
        invariant
            i <= v.len(),
            out@ =~= v@.subrange(0, i as int),
        decreases v.len() - i,
    {
        out.push(v[i].clone());
        i += 1;
    }
    proof {
        assert(v@.subrange(0, v@.len() as int) =~= v@);
    }
    out
}

/// An element-wise copy of a discovered compatibility-layer version list.
pub fn clone_runner_versions(v: &Vec<RunnerVersion>) -> (r: Vec<RunnerVersion>)
    ensures
        r@ == v@,
{
    let mut out: Vec<RunnerVersion> = Vec::new();
    let mut i: usize = 0;
    while i < v.len()
        invariant
            i <= v.len(),
            out@ =~= v@.subrange(0, i as int),
        decreases v.len() - i,
    {
        out.push(v[i].clone());
        i += 1;
    }
    proof {
        assert(v@.subrange(0, v@.len() as int) =~= v@);
    }
    out
}

/// An element-wise copy of a discovered graphics-layer version list.
pub fn clone_runtime_versions(v: &Vec<RuntimeVersion>) -> (r: Vec<RuntimeVersion>)
    ensures
        r@ == v@,
{
    let mut out: Vec<RuntimeVersion> = Vec::new();
    let mut i: usize = 0;
    while i < v.len()
        invariant
            i <= v.len(),
            out@ =~= v@.subrange(0, i as int),
        decreases v.len() - i,
    {
        out.push(v[i].clone());
        i += 1;
    }
    proof {
        assert(v@.subrange(0, v@.len() as int) =~= v@);
    }
    out
}

impl Clone for GameComponent {
    fn clone(&self) -> (r: Self)
        ensures
            game_equiv(r, *self),
    {
        GameComponent {
            prefix: self.prefix.clone(),
            directory: self.directory.clone(),
            launcher: self.launcher.clone(),
            mangohud: self.mangohud,
            environment_variables: clone_key_values(&self.environment_variables),
            dll_overrides: clone_key_values(&self.dll_overrides),
        }
    }
}

impl Clone for Config {
    fn clone(&self) -> (r: Self)
        ensures
            config_equiv(r, *self),
    {
        let available_wine_versions = match &self.available_wine_versions {
            Some(v) => Some(clone_runner_versions(v)),
            None => None,
        };
        let available_dxvk_versions = match &self.available_dxvk_versions {
            Some(v) => Some(clone_runtime_versions(v)),
            None => None,
        };
        Config {
            wine: self.wine.clone(),
            dxvk: self.dxvk.clone(),
            game: self.game.clone(),
            available_wine_versions,
            available_dxvk_versions,
        }
    }
}

} // verus!
