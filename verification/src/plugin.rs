//! The plug-ins that the application attaches, and the order in which it
//! attaches them.

use vstd::prelude::*;

verus! {

/// How much the log plug-in lets through. Each level admits its own
/// messages and those of the levels before it.
#[derive(Clone, Copy, Debug, PartialEq, Eq, Structural)]
pub enum LogLevel {
    Off,
    Error,
    Warn,
    Info,
    Debug,
    Trace,
}

/// A plug-in of the host framework, with the settings it is built from.
#[derive(Clone, Copy, Debug, PartialEq, Eq, Structural)]
pub enum Plugin {
    /// Writes the application's log, up to `level`.
    Log { level: LogLevel },
    /// Keeps settings as keys and values between runs.
    Store,
    /// Keeps secrets encrypted under a key derived from a password.
    Vault,
}

/// The level at which a debug build logs.
pub const LOG_LEVEL: LogLevel = LogLevel::Info;

/// The plug-ins in the order of their registration: the log first, and only
/// in a debug build, then the store, then the vault.
pub open spec fn registration_order(debug: bool) -> Seq<Plugin> {
    if debug {
        seq![Plugin::Log { level: LogLevel::Info }, Plugin::Store, Plugin::Vault]
    } else {
        seq![Plugin::Store, Plugin::Vault]
    }
}

/// Whether `order` holds `first` at an earlier place than `second`.
pub open spec fn comes_before(order: Seq<Plugin>, first: Plugin, second: Plugin) -> bool {
    exists|i: int, j: int|
        0 <= i < j < order.len() && #[trigger] order[i] == first && #[trigger] order[j] == second
}

/// Lists the plug-ins to register, first to last.
pub fn plugins_to_register(debug: bool) -> (order: Vec<Plugin>)
    ensures
        order@ == registration_order(debug),
{
    let mut order: Vec<Plugin> = Vec::new();
    if debug {
        order.push(Plugin::Log { level: LOG_LEVEL });
    }
    order.push(Plugin::Store);
    order.push(Plugin::Vault);
    proof {
        assert(order@ =~= registration_order(debug));
    }
    order
}

/// A debug build registers the log plug-in, at level `Info`, before the
/// store and the vault; a release build registers no log plug-in at all.
/// Either build registers the store before the vault, and no plug-in twice.
pub proof fn lemma_log_first_or_never(debug: bool)
    ensures
        debug ==> comes_before(
            registration_order(debug),
            Plugin::Log { level: LogLevel::Info },
            Plugin::Store,
        ),
        debug ==> comes_before(
            registration_order(debug),
            Plugin::Log { level: LogLevel::Info },
            Plugin::Vault,
        ),
        forall|i: int|
            0 <= i < registration_order(debug).len() && registration_order(debug)[i] is Log
                ==> debug && i == 0 && registration_order(debug)[i] == (Plugin::Log {
                level: LogLevel::Info,
            }),
        comes_before(registration_order(debug), Plugin::Store, Plugin::Vault),
        registration_order(debug).no_duplicates(),
{
    let order = registration_order(debug);
    if debug {
        assert(order[0] == Plugin::Log { level: LogLevel::Info });
        assert(order[1] == Plugin::Store);
        assert(order[2] == Plugin::Vault);
    } else {
        assert(order[0] == Plugin::Store);
        assert(order[1] == Plugin::Vault);
    }
}

} // verus!
