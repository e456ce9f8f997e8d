//! Contracts between a reactive graph flow host and the plugins that extend it:
//! the plugin capability interface and its errors, the behaviour hooks, and the
//! declaration a plugin library exports for the host to check before loading.

pub mod component_behaviour_provider;
pub mod model;
pub mod plugin;
pub mod providers;

pub use component_behaviour_provider::ComponentBehaviourProvider;
pub use plugin::Plugin;
pub use plugin::PluginDeclaration;
pub use plugin::PluginError;
pub use plugin::PluginRegistrar;
