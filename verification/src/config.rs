//! Configuration of one generation run.

use crate::strategy::WitFunctionLatticeTranslationStrategy;
use vstd::prelude::*;

verus! {

/// Everything a generation run is parameterized over: the implementing
/// struct and contract it binds, the world's namespace and package, the
/// interface allow/deny lists, the translation strategy for each
/// direction, and whether the map convention is applied.
pub struct ProviderBindgenConfig {
    /// Name of the struct that implements the provider.
    pub impl_struct: String,
    /// The capability contract identifier the bindings carry.
    pub contract: String,
    /// Namespace of the world's own package, where known.
    pub wit_ns: Option<String>,
    /// Name of the world's own package, where known.
    pub wit_pkg: Option<String>,
    /// Interface names that alone may be exposed; empty means no limit.
    pub exposed_interface_allow_list: Vec<String>,
    /// Interface names that must never be exposed.
    pub exposed_interface_deny_list: Vec<String>,
    /// How functions served by the provider map onto envelopes.
    pub import_fn_lattice_translation_strategy: WitFunctionLatticeTranslationStrategy,
    /// How functions the provider calls outward map onto envelopes.
    pub export_fn_lattice_translation_strategy: WitFunctionLatticeTranslationStrategy,
    /// Whether the `_map` naming convention rewrites pair-sequence types.
    pub replace_witified_maps: bool,
}

} // verus!
