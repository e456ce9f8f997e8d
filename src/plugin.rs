use std::sync::Arc;

use vstd::prelude::*;
use vstd::string::to_string_from_display_ensures;

use crate::providers::ComponentProvider;
use crate::providers::EntityBehaviourProvider;
use crate::providers::EntityTypeProvider;
use crate::providers::FlowProvider;
use crate::providers::RelationBehaviourProvider;
use crate::providers::RelationTypeProvider;

verus! {

/// The capabilities that a plugin may or may not supply to the host.
#[derive(Clone, Copy, Debug, PartialEq, Eq, Structural)]
pub enum ProviderKind {
    Component,
    EntityType,
    RelationType,
    EntityBehaviour,
    RelationBehaviour,
    Flow,
}

/// Why a plugin could not hand out what the host asked for.
#[derive(Debug)]
pub enum PluginError {
    NoComponentProvider,
    NoEntityTypeProvider,
    NoRelationTypeProvider,
    NoEntityBehaviourProvider,
    NoRelationBehaviourProvider,
    NoFlowProvider,
    Other { message: String },
}

impl PluginError {
    /// The error that reports a plugin as not supplying `kind`.
    pub open spec fn spec_no_provider(kind: ProviderKind) -> PluginError {
        match kind {
            ProviderKind::Component => PluginError::NoComponentProvider,
            ProviderKind::EntityType => PluginError::NoEntityTypeProvider,
            ProviderKind::RelationType => PluginError::NoRelationTypeProvider,
            ProviderKind::EntityBehaviour => PluginError::NoEntityBehaviourProvider,
            ProviderKind::RelationBehaviour => PluginError::NoRelationBehaviourProvider,
            ProviderKind::Flow => PluginError::NoFlowProvider,
        }
    }

    /// The capability that this error reports as not supplied, if it is one of
    /// the "no provider" errors.
    pub open spec fn spec_missing_provider(self) -> Option<ProviderKind> {
        match self {
            PluginError::NoComponentProvider => Some(ProviderKind::Component),
            PluginError::NoEntityTypeProvider => Some(ProviderKind::EntityType),
            PluginError::NoRelationTypeProvider => Some(ProviderKind::RelationType),
            PluginError::NoEntityBehaviourProvider => Some(ProviderKind::EntityBehaviour),
            PluginError::NoRelationBehaviourProvider => Some(ProviderKind::RelationBehaviour),
            PluginError::NoFlowProvider => Some(ProviderKind::Flow),
            PluginError::Other { .. } => None,
        }
    }

    /// The free-form error, carrying `message`.
    pub fn other(message: String) -> (r: PluginError)
        ensures
            r == (PluginError::Other { message }),
    {
        PluginError::Other { message }
    }

    /// Whether `e` is an error that an accessor for `kind` may return: the one
    /// that names `kind`, or a free-form error.
    pub open spec fn spec_reports_missing(e: PluginError, kind: ProviderKind) -> bool {
        e == Self::spec_no_provider(kind) || e is Other
    }

    /// Builds the error that reports a plugin as not supplying `kind`.
    pub fn no_provider(kind: ProviderKind) -> (r: PluginError)
        ensures
            r == Self::spec_no_provider(kind),
    {
        match kind {
            ProviderKind::Component => PluginError::NoComponentProvider,
            ProviderKind::EntityType => PluginError::NoEntityTypeProvider,
            ProviderKind::RelationType => PluginError::NoRelationTypeProvider,
            ProviderKind::EntityBehaviour => PluginError::NoEntityBehaviourProvider,
            ProviderKind::RelationBehaviour => PluginError::NoRelationBehaviourProvider,
            ProviderKind::Flow => PluginError::NoFlowProvider,
        }
    }

    /// The capability that this error reports as not supplied; `None` for a
    /// free-form error. The host reads `Some` as "this plugin takes no part in
    /// that subsystem", which is no failure.
    pub fn missing_provider(&self) -> (r: Option<ProviderKind>)
        ensures
            r == self.spec_missing_provider(),
    {
        match self {
            PluginError::NoComponentProvider => Some(ProviderKind::Component),
            PluginError::NoEntityTypeProvider => Some(ProviderKind::EntityType),
            PluginError::NoRelationTypeProvider => Some(ProviderKind::RelationType),
            PluginError::NoEntityBehaviourProvider => Some(ProviderKind::EntityBehaviour),
            PluginError::NoRelationBehaviourProvider => Some(ProviderKind::RelationBehaviour),
            PluginError::NoFlowProvider => Some(ProviderKind::Flow),
            PluginError::Other { .. } => None,
        }
    }
}

impl<S: core::fmt::Display> From<S> for PluginError {
    /// Wraps the displayed form of any value in the free-form variant, so that
    /// plugin code can pass an error on with `?`.
    fn from(other: S) -> (r: PluginError)
        ensures
            match r {
                PluginError::Other { message } => to_string_from_display_ensures::<S>(
                    &other,
                    message,
                ),
                _ => false,
            },
    {
        PluginError::other(other.to_string())
    }
}

/// The conversion's exact statement is the `ensures` of `from` itself, over
/// vstd's specification of `to_string`: the message is what `other.to_string()`
/// returns. No spec function of the argument alone gives that message, so
/// `from_spec` is not used.
impl<S: core::fmt::Display> vstd::std_specs::convert::FromSpecImpl<S> for PluginError {
    open spec fn obeys_from_spec() -> bool {
        false
    }

    open spec fn from_spec(other: S) -> PluginError {
        PluginError::Other { message: arbitrary() }
    }
}

/// What every plugin supplies to the host.
///
/// The host calls `init`, then `post_init`, and `shutdown` last. Each accessor
/// hands out a shared provider, or reports the error that names its own
/// capability, never that of another: the host reads that as "this plugin takes
/// no part in that subsystem". An accessor may also fail with a free-form error.
pub trait Plugin: Send + Sync {
    fn init(&self);

    fn post_init(&self);

    fn shutdown(&self);

    fn get_component_provider(&self) -> (r: Result<Arc<dyn ComponentProvider>, PluginError>)
        ensures
            r is Err ==> PluginError::spec_reports_missing(r->Err_0, ProviderKind::Component),
    ;

    fn get_entity_type_provider(&self) -> (r: Result<Arc<dyn EntityTypeProvider>, PluginError>)
        ensures
            r is Err ==> PluginError::spec_reports_missing(r->Err_0, ProviderKind::EntityType),
    ;

    fn get_relation_type_provider(&self) -> (r: Result<
        Arc<dyn RelationTypeProvider>,
        PluginError,
    >)
        ensures
            r is Err ==> PluginError::spec_reports_missing(r->Err_0, ProviderKind::RelationType),
    ;

    fn get_entity_behaviour_provider(&self) -> (r: Result<
        Arc<dyn EntityBehaviourProvider>,
        PluginError,
    >)
        ensures
            r is Err ==> PluginError::spec_reports_missing(r->Err_0, ProviderKind::EntityBehaviour),
    ;

    fn get_relation_behaviour_provider(&self) -> (r: Result<
        Arc<dyn RelationBehaviourProvider>,
        PluginError,
    >)
        ensures
            r is Err ==> PluginError::spec_reports_missing(r->Err_0, ProviderKind::RelationBehaviour),
    ;

    fn get_flow_provider(&self) -> (r: Result<Arc<dyn FlowProvider>, PluginError>)
        ensures
            r is Err ==> PluginError::spec_reports_missing(r->Err_0, ProviderKind::Flow),
    ;
}

/// The host-side object that a plugin's registration function announces itself to.
pub trait PluginRegistrar {
    fn register_plugin(&mut self, name: &str, function: Box<dyn Plugin>);
}

/// What a plugin library exports for the host to find: the toolchain and core
/// versions it was built with, and its registration function.
///
/// The host loads a plugin only when both versions equal its own.
#[derive(Copy, Clone)]
pub struct PluginDeclaration<F> {
    pub rustc_version: &'static str,
    pub core_version: &'static str,
    pub register: F,
}

impl<F> PluginDeclaration<F> {
    /// Whether a host built with these versions may load the plugin.
    pub open spec fn spec_accepts(&self, rustc_version: Seq<char>, core_version: Seq<char>) -> bool {
        self.rustc_version@ == rustc_version && self.core_version@ == core_version
    }

    pub fn new(rustc_version: &'static str, core_version: &'static str, register: F) -> (r: Self)
        ensures
            r.rustc_version == rustc_version,
            r.core_version == core_version,
            r.register == register,
    {
        PluginDeclaration { rustc_version, core_version, register }
    }

    /// Compares the declared versions with the host's own, exactly, character
    /// for character.
    pub fn accepts(&self, rustc_version: &str, core_version: &str) -> (r: bool)
        ensures
            r == self.spec_accepts(rustc_version@, core_version@),
    {
        self.rustc_version.to_owned() == rustc_version.to_owned()
            && self.core_version.to_owned() == core_version.to_owned()
    }
}

/// Each "no provider" error names its own capability and no other: two
/// capabilities get the same error only if they are the same, and the error
/// for a capability is read back as that capability.
pub proof fn lemma_no_provider_names_its_kind(a: ProviderKind, b: ProviderKind)
    ensures
        PluginError::spec_no_provider(a).spec_missing_provider() == Some(a),
        PluginError::spec_no_provider(a) == PluginError::spec_no_provider(b) <==> a == b,
{
}

/// A declaration is accepted by a host exactly when both of its version
/// strings equal the host's: a declaration that differs from the host in
/// either version is rejected.
pub proof fn lemma_declaration_accepted_iff_versions_equal<F>(
    rustc_version: &'static str,
    core_version: &'static str,
    register: F,
    host_rustc_version: &str,
    host_core_version: &str,
)
    ensures
        ({
            let d = PluginDeclaration { rustc_version, core_version, register };
            d.spec_accepts(host_rustc_version@, host_core_version@) <==> (rustc_version@
                == host_rustc_version@ && core_version@ == host_core_version@)
        }),
{
}

} // verus!
