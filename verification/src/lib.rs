//! Generator that turns a resolved WIT interface description into the
//! machinery needed to expose a process as a message-driven RPC endpoint
//! on a distributed capability lattice: wire-level invocation envelopes,
//! a method-name dispatch table, server-side trait stubs, and client-side
//! invocation handlers.

mod config;
mod dedup;
mod emit;
mod generate;
mod laws;
mod model;
mod names;
mod render;
mod rustfmt;
mod strategy;
mod strutil;
mod table;
mod ty;
mod vault;
mod walker;
mod wit;

pub use config::ProviderBindgenConfig;
pub use dedup::merge_type_decls;
pub use dedup::TypeDecl;
pub use emit::build_dispatch_entries;
pub use emit::build_envelope_decls;
pub use emit::DispatchEntry;
pub use generate::generate;
pub use generate::GeneratedBindings;
pub use laws::lemma_bundle_envelope_fields;
pub use laws::lemma_derived_names_distinct;
pub use laws::lemma_single_param_envelope;
pub use laws::lemma_table_method_names_unique;
pub use laws::lemma_zero_param_no_envelope;
pub use model::Param;
pub use model::WitFunction;
pub use model::WitInterface;
pub use model::WitWorld;
pub use names::is_valid_wit_name;
pub use names::lattice_method_name;
pub use names::lemma_method_name_collision_free;
pub use names::pascal_case;
pub use names::snake_case;
pub use render::render_bindings;
pub use rustfmt::RustFmtCommand;
pub use rustfmt::RustFmtError;
pub use strategy::BindgenError;
pub use strategy::LatticeMethod;
pub use strategy::WitFunctionLatticeTranslationStrategy;
pub use strutil::str_eq;
pub use table::build_lattice_methods_by_wit_interface;
pub use ty::render_type;
pub use ty::type_eq;
pub use ty::TypeModel;
pub use ty::WitType;
pub use vault::Config;
pub use vault::ConfigError;
pub use vault::EnvSettings;
pub use walker::is_ignored_invocation_handler_pkg;
pub use wit::extract_witified_map;
pub use wit::process_fn_arg;
