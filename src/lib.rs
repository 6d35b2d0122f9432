//! Backend of the Iso Games desktop shell: the greeting command that the web
//! front-end invokes, and the decision of the startup hook that opens the
//! developer inspector in debug builds.

mod greeting;
mod startup;

pub use greeting::{greet, greeting, greet_is_deterministic};
pub use startup::{
    inspector_never_opened_in_release, inspector_opened_at_most_once, inspector_openings,
    opens_inspector, StartupHook,
};
