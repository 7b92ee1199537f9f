//! The process-wide state the operations share: the one environment
//! descriptor, seeded once and read as a snapshot, and the availability
//! of the optional helper commands, computed once at startup. The shell
//! owns one value of each and persists descriptor updates itself; memory
//! is only updated when persisting succeeded, so the two never diverge.

use vstd::prelude::*;
use crate::config::Config;
use crate::config::config_equiv;
use crate::error::SetupError;
use crate::strutil::str_eq;

verus! {

/// The holder of the single live environment descriptor.
#[derive(Debug)]
pub struct ConfigStore {
    pub config: Option<Config>,
}

impl ConfigStore {
    /// An empty store: no descriptor loaded yet.
    pub fn new() -> (r: Self)
        ensures
            r.config is None,
    {
        ConfigStore { config: None }
    }

    /// Seed the store with the descriptor read from disk. Seeding twice
    /// is refused and changes nothing.
    pub fn init_config(&mut self, config: Config) -> (r: Result<(), SetupError>)
        ensures
            old(self).config is None ==> (r is Ok && final(self).config == Some(config)),
            old(self).config is Some ==> (r matches Err(e) && e is AlreadyInitialized
                && final(self).config == old(self).config),
    {
        match &self.config {
            Some(_) => Err(SetupError::AlreadyInitialized),
            None => {
                self.config = Some(config);
                Ok(())
            },
        }
    }

    /// A snapshot of the live descriptor; reading an unseeded store is
    /// refused.
    pub fn get_config(&self) -> (r: Result<Config, SetupError>)
        ensures
            self.config is None ==> (r matches Err(e) && e is NotInitialized),
            self.config matches Some(c) ==> (r matches Ok(snapshot) && config_equiv(snapshot, c)),
    {
        match &self.config {
            None => Err(SetupError::NotInitialized),
            Some(c) => Ok(c.clone()),
        }
    }

    /// Replace the live descriptor. Updating an unseeded store is
    /// refused. The caller persists the new descriptor first and calls
    /// this only when persisting succeeded.
    pub fn update_config(&mut self, new_config: Config) -> (r: Result<(), SetupError>)
        ensures
            old(self).config is None ==> (r matches Err(e) && e is NotInitialized
                && final(self).config == old(self).config),
            old(self).config is Some ==> (r is Ok && final(self).config == Some(new_config)),
    {
        match &self.config {
            None => Err(SetupError::NotInitialized),
            Some(_) => {
                self.config = Some(new_config);
                Ok(())
            },
        }
    }
}

/// Which optional helper commands the host offers, computed once at
/// startup.
#[derive(Debug, Clone, Copy, PartialEq, Eq, Structural)]
pub struct CommandAvailability {
    pub gamemoderun: bool,
    pub mangohud: bool,
}

/// The availability recorded for a command name; an unknown name is
/// never available.
pub open spec fn availability_of(a: CommandAvailability, name: Seq<char>) -> bool {
    if name == "gamemoderun"@ {
        a.gamemoderun
    } else if name == "mangohud"@ {
        a.mangohud
    } else {
        false
    }
}

impl CommandAvailability {
    /// The recorded availability of the two optional helper commands.
    pub fn new(gamemoderun: bool, mangohud: bool) -> (r: Self)
        ensures
            r.gamemoderun == gamemoderun,
            r.mangohud == mangohud,
    {
        CommandAvailability { gamemoderun, mangohud }
    }

    /// Whether the named command was found on the host; an unknown name
    /// reads as absent.
    pub fn command_is_available(&self, command_name: &str) -> (r: bool)
        ensures
            r == availability_of(*self, command_name@),
    {
        if str_eq(command_name, "gamemoderun") {
            self.gamemoderun
        } else if str_eq(command_name, "mangohud") {
            self.mangohud
        } else {
            false
        }
    }
}

} // verus!
