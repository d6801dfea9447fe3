//! The laws the translation obeys, stated and proved over the models that
//! the strategies' own contracts use.

use crate::emit::entry_of_method;
use crate::model::FunctionModel;
use crate::model::InterfaceModel;
use crate::names::iface_ident_of;
use crate::names::invocation_struct_name_of;
use crate::strategy::bundled_method_model;
use crate::strategy::first_arg_method_model;
use crate::strategy::translated_params;
use crate::strategy::LatticeMethodModel;
use crate::table::derived_name;
use crate::table::iface_methods_model;
use crate::table::method_model_for;
use crate::table::names_unique;
use crate::strategy::WitFunctionLatticeTranslationStrategy;
use crate::ty::rendered;
use crate::wit::normalized_param;
use vstd::prelude::*;

verus! {

/// The method name a translated method carries is the one derived from
/// interface and function identity.
proof fn lemma_method_carries_derived_name(
    ifc: InterfaceModel,
    strategy: WitFunctionLatticeTranslationStrategy,
    replace_witified_maps: bool,
    j: int,
)
    requires
        0 <= j < ifc.functions.len(),
    ensures
        iface_methods_model(ifc, strategy, replace_witified_maps)[j].lattice_method_name
            == derived_name(ifc, j),
{
}

/// LAW: two named interfaces with valid WIT names never derive one method
/// name for functions of distinct interface-plus-function identity: the
/// derivation is injective wherever the identities differ.
pub proof fn lemma_derived_names_distinct(
    ifc1: InterfaceModel,
    j1: int,
    ifc2: InterfaceModel,
    j2: int,
)
    requires
        0 <= j1 < ifc1.functions.len(),
        0 <= j2 < ifc2.functions.len(),
        crate::names::valid_wit_name(ifc1.name),
        crate::names::valid_wit_name(ifc2.name),
        crate::names::valid_wit_name(ifc1.functions[j1].name),
        crate::names::valid_wit_name(ifc2.functions[j2].name),
        !(ifc1.name == ifc2.name && ifc1.functions[j1].name == ifc2.functions[j2].name),
    ensures
        derived_name(ifc1, j1) != derived_name(ifc2, j2),
{
    crate::names::lemma_method_under_pascal_ident(ifc1.name, ifc1.functions[j1].name);
    crate::names::lemma_method_under_pascal_ident(ifc2.name, ifc2.functions[j2].name);
    if derived_name(ifc1, j1) == derived_name(ifc2, j2) {
        crate::names::lemma_method_name_collision_free(
            ifc1.name,
            ifc1.functions[j1].name,
            ifc2.name,
            ifc2.functions[j2].name,
        );
    }
}

/// LAW: in a successfully built method table, no two methods anywhere
/// carry the same lattice method name — one entry per interface, with the
/// methods translated in declaration order, under collision-free derived
/// names.
pub proof fn lemma_table_method_names_unique(
    ifaces: Seq<InterfaceModel>,
    table: Seq<(Seq<char>, Seq<LatticeMethodModel>)>,
    strategy: WitFunctionLatticeTranslationStrategy,
    replace_witified_maps: bool,
)
    requires
        names_unique(ifaces),
        table.len() == ifaces.len(),
        forall|i: int|
            0 <= i < ifaces.len() ==> #[trigger] table[i] == (iface_ident_of(
                ifaces[i].namespace,
                ifaces[i].package,
                ifaces[i].name,
            ), iface_methods_model(ifaces[i], strategy, replace_witified_maps)),
    ensures
        forall|i1: int, j1: int, i2: int, j2: int|
            #![trigger table[i1].1[j1], table[i2].1[j2]]
            0 <= i1 < table.len() && 0 <= j1 < table[i1].1.len() && 0 <= i2 < table.len() && 0 <= j2
                < table[i2].1.len() && !(i1 == i2 && j1 == j2) ==> table[i1].1[j1].lattice_method_name
                != table[i2].1[j2].lattice_method_name,
{
    assert forall|i1: int, j1: int, i2: int, j2: int|
        #![trigger table[i1].1[j1], table[i2].1[j2]]
        0 <= i1 < table.len() && 0 <= j1 < table[i1].1.len() && 0 <= i2 < table.len() && 0 <= j2
            < table[i2].1.len() && !(i1 == i2 && j1 == j2) implies table[i1].1[j1].lattice_method_name
        != table[i2].1[j2].lattice_method_name by {
        lemma_method_carries_derived_name(ifaces[i1], strategy, replace_witified_maps, j1);
        lemma_method_carries_derived_name(ifaces[i2], strategy, replace_witified_maps, j2);
        assert(derived_name(ifaces[i1], j1) != derived_name(ifaces[i2], j2));
    }
}

/// LAW: for a function with exactly one parameter, the envelope is either
/// the parameter's own type (first-argument strategy, nothing synthesized)
/// or a synthesized single-field struct (bundle strategy) — never both at
/// once.
pub proof fn lemma_single_param_envelope(
    iface_ident: Seq<char>,
    mname: Seq<char>,
    f: FunctionModel,
    replace_witified_maps: bool,
)
    requires
        f.params.len() == 1,
    ensures
        ({
            let fa = first_arg_method_model(mname, f, replace_witified_maps);
            &&& fa.struct_members is None
            &&& fa.envelope_type_name == Some(
                rendered(translated_params(f.params, replace_witified_maps)[0].ty),
            )
        }),
        ({
            let ba = bundled_method_model(iface_ident, mname, f, replace_witified_maps);
            &&& ba.struct_members == Some(translated_params(f.params, replace_witified_maps))
            &&& ba.struct_members->0.len() == 1
            &&& ba.envelope_type_name == Some(invocation_struct_name_of(iface_ident, f.name))
        }),
{
}

/// LAW: under the bundle strategy, a function of `n` parameters gets an
/// envelope of exactly `n` fields, in declaration order, each carrying the
/// parameter's name and type after the map convention — and exactly the
/// parameter itself where the convention is off or does not apply.
pub proof fn lemma_bundle_envelope_fields(
    iface_ident: Seq<char>,
    mname: Seq<char>,
    f: FunctionModel,
    replace_witified_maps: bool,
)
    requires
        f.params.len() >= 1,
    ensures
        ({
            let ba = bundled_method_model(iface_ident, mname, f, replace_witified_maps);
            &&& ba.struct_members is Some
            &&& ba.struct_members->0.len() == f.params.len()
            &&& forall|i: int|
                0 <= i < f.params.len() ==> ba.struct_members->0[i] == (
                if replace_witified_maps {
                    normalized_param(#[trigger] f.params[i])
                } else {
                    f.params[i]
                })
        }),
{
}

/// LAW: a parameterless function gets no envelope under either strategy,
/// and its dispatch entry carries no envelope type, so the generated
/// dispatch arm performs no deserialization step.
pub proof fn lemma_zero_param_no_envelope(
    strategy: WitFunctionLatticeTranslationStrategy,
    iface_ident: Seq<char>,
    f: FunctionModel,
    trait_name: Seq<char>,
    replace_witified_maps: bool,
)
    requires
        f.params.len() == 0,
    ensures
        ({
            let m = method_model_for(strategy, iface_ident, f, replace_witified_maps);
            &&& m.envelope_type_name is None
            &&& m.struct_members is None
            &&& entry_of_method(trait_name, m).envelope_type_name is None
        }),
{
}

} // verus!
