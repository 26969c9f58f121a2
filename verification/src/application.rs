//! The application: the parsed command-line arguments bound to the loaded
//! cluster settings, and the choice of the cluster a run talks to.

use vstd::prelude::*;
use crate::config::{Cluster, Config, UnknownClusterError, lookup};

verus! {

/// The parsed command line.
pub struct ApplicationArguments {
    pub sub_command: Option<Commands>,
    /// Cluster to connect.
    pub cluster: String,
    /// Config file (default is `.escli/config.yaml` under the home
    /// directory).
    pub config: Option<String>,
    /// Make the operation more talkative.
    pub verbose: bool,
    /// Start the client as an interactive terminal application.
    pub ui: bool,
}

/// The command groups the client offers.
pub enum Commands {
    /// Interacts with indices.
    Indices(crate::commands::indices::Arguments),
    /// Interacts with aliases.
    Aliases(crate::commands::aliases::Arguments),
    /// Interacts with mappings.
    Mappings(crate::commands::mappings::Arguments),
    /// Interacts with reindex.
    Reindex(crate::commands::reindex::Arguments),
}

/// One run of the client: its arguments and the settings they resolve
/// against.
pub struct Application {
    pub config: Config,
    pub args: ApplicationArguments,
}

impl Application {
    /// Binds loaded settings to the parsed arguments.
    pub fn new(config: Config, args: ApplicationArguments) -> (app: Self)
        ensures
            app.config == config,
            app.args == args,
    {
        Application { config, args }
    }

    /// The cluster the arguments name: exactly the configured names succeed,
    /// and an unknown name is reported with the names that would have been
    /// accepted.
    pub fn get_current_cluster(&self) -> (r: Result<&Cluster, UnknownClusterError>)
        ensures
            match r {
                Result::Ok(c) => lookup(self.config.entries(), self.args.cluster@)
                    == Option::Some(*c),
                Result::Err(e) => {
                    &&& lookup(self.config.entries(), self.args.cluster@) is None
                    &&& e.name@ == self.args.cluster@
                    &&& e.valid_names@.len() == self.config.entries().len()
                    &&& forall|i: int|
                        0 <= i < e.valid_names@.len() ==> (#[trigger] e.valid_names@[i])@
                            == self.config.entries()[i].0@
                },
            },
    {
        self.config.get_cluster_by_name(self.args.cluster.as_str())
    }
}

} // verus!
