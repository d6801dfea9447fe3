//! The lattice method table: every exposed function translated for the
//! lattice, grouped by interface in discovery order, with the guarantee
//! that no two functions of one generation run derive the same method
//! name — a collision aborts generation instead of silently shadowing
//! one handler with another.

use crate::config::ProviderBindgenConfig;
use crate::model::clone_function;
use crate::model::FunctionModel;
use crate::model::InterfaceModel;
use crate::model::WitInterface;
use crate::model::interface_ident;
use crate::names::iface_ident_of;
use crate::names::method_under_ident;
use crate::strategy::bundled_method_model;
use crate::strategy::first_arg_method_model;
use crate::strategy::BindgenError;
use crate::strategy::LatticeMethod;
use crate::strategy::LatticeMethodModel;
use crate::strategy::WitFunctionLatticeTranslationStrategy;
use crate::walker::ifaces_model;
use vstd::prelude::*;

verus! {

/// The lattice method name derived for function `j` of an interface.
pub open spec fn derived_name(ifc: InterfaceModel, j: int) -> Seq<char> {
    method_under_ident(
        iface_ident_of(ifc.namespace, ifc.package, ifc.name),
        ifc.functions[j].name,
    )
}

/// No two functions anywhere in the run derive the same method name.
pub open spec fn names_unique(ifaces: Seq<InterfaceModel>) -> bool {
    forall|i1: int, j1: int, i2: int, j2: int|
        #![trigger derived_name(ifaces[i1], j1), derived_name(ifaces[i2], j2)]
        0 <= i1 < ifaces.len() && 0 <= j1 < ifaces[i1].functions.len() && 0 <= i2 < ifaces.len()
            && 0 <= j2 < ifaces[i2].functions.len() && !(i1 == i2 && j1 == j2) ==> derived_name(
            ifaces[i1],
            j1,
        ) != derived_name(ifaces[i2], j2)
}

/// Some function of the run has two or more parameters while the chosen
/// strategy only carries one.
pub open spec fn arity_violation(
    ifaces: Seq<InterfaceModel>,
    strategy: WitFunctionLatticeTranslationStrategy,
) -> bool {
    strategy is FirstArgument && exists|i: int, j: int|
        0 <= i < ifaces.len() && 0 <= j < ifaces[i].functions.len()
            && #[trigger] ifaces[i].functions[j].params.len() >= 2
}

/// The translation of one function under the chosen strategy, with the
/// method name derived from the interface ident.
pub open spec fn method_model_for(
    strategy: WitFunctionLatticeTranslationStrategy,
    ident: Seq<char>,
    f: FunctionModel,
    replace_witified_maps: bool,
) -> LatticeMethodModel {
    match strategy {
        WitFunctionLatticeTranslationStrategy::FirstArgument => first_arg_method_model(
            method_under_ident(ident, f.name),
            f,
            replace_witified_maps,
        ),
        WitFunctionLatticeTranslationStrategy::BundleArguments => bundled_method_model(
            ident,
            method_under_ident(ident, f.name),
            f,
            replace_witified_maps,
        ),
    }
}

/// The translations of every function of one interface, in order.
pub open spec fn iface_methods_model(
    ifc: InterfaceModel,
    strategy: WitFunctionLatticeTranslationStrategy,
    replace_witified_maps: bool,
) -> Seq<LatticeMethodModel> {
    ifc.functions.map_values(
        |f: FunctionModel|
            method_model_for(
                strategy,
                iface_ident_of(ifc.namespace, ifc.package, ifc.name),
                f,
                replace_witified_maps,
            ),
    )
}

/// The models of a sequence of translated methods.
pub open spec fn methods_model(v: Seq<LatticeMethod>) -> Seq<LatticeMethodModel> {
    v.map_values(|m: LatticeMethod| m.model())
}

/// The record of processed functions covers the pair `(a, b)`.
pub open spec fn done_covers(done: Seq<(int, int)>, a: int, b: int) -> bool {
    exists|k: int| 0 <= k < done.len() && #[trigger] done[k] == (a, b)
}

/// Whether one of the method names recorded so far reads the same.
fn find_name(seen: &Vec<String>, name: &String) -> (r: bool)
    ensures
        r <==> exists|k: int| 0 <= k < seen@.len() && #[trigger] seen@[k]@ == name@,
{
    let n = seen.len();
    let mut i: usize = 0;
    while i < n
        invariant
            n == seen@.len(),
            i <= n,
            forall|k: int| 0 <= k < i ==> #[trigger] seen@[k]@ != name@,
        decreases n - i,
    {
        if seen[i].eq(name) {
            return true;
        }
        i += 1;
    }
    false
}

/// Build the lattice method table for the exposed interfaces: one group
/// per interface in discovery order, one translated method per function
/// in declaration order. Fails exactly when a function breaks the chosen
/// strategy's arity bound or two functions derive one method name.
#[verifier::rlimit(60)]
pub fn build_lattice_methods_by_wit_interface(
    bindgen_cfg: &ProviderBindgenConfig,
    interfaces: &Vec<WitInterface>,
) -> (r: Result<Vec<(String, Vec<LatticeMethod>)>, BindgenError>)
    ensures
        ({
            let im = ifaces_model(interfaces@);
            let strategy = bindgen_cfg.import_fn_lattice_translation_strategy;
            match r {
                Ok(table) => {
                    &&& !arity_violation(im, strategy)
                    &&& names_unique(im)
                    &&& table@.len() == im.len()
                    &&& forall|i: int|
                        0 <= i < im.len() ==> #[trigger] table@[i].0@ == iface_ident_of(
                            im[i].namespace,
                            im[i].package,
                            im[i].name,
                        ) && methods_model(table@[i].1@) == iface_methods_model(
                            im[i],
                            strategy,
                            bindgen_cfg.replace_witified_maps,
                        )
                },
                Err(e) => {
                    &&& arity_violation(im, strategy) || !names_unique(im)
                    &&& (e is FirstArgumentArity ==> arity_violation(im, strategy))
                    &&& (e is MethodNameCollision ==> !names_unique(im))
                },
            }
        }),
{
    let ghost im = ifaces_model(interfaces@);
    let strategy = bindgen_cfg.import_fn_lattice_translation_strategy;
    let n = interfaces.len();
    let mut table: Vec<(String, Vec<LatticeMethod>)> = Vec::new();
    let mut seen: Vec<String> = Vec::new();
    let ghost mut done: Seq<(int, int)> = Seq::empty();
    let mut i: usize = 0;
    while i < n
        invariant
            n == interfaces@.len(),
            i <= n,
            im == ifaces_model(interfaces@),
            strategy == bindgen_cfg.import_fn_lattice_translation_strategy,
            table@.len() == i,
            forall|a: int|
                0 <= a < i ==> #[trigger] table@[a].0@ == iface_ident_of(
                    im[a].namespace,
                    im[a].package,
                    im[a].name,
                ),
            forall|a: int|
                0 <= a < i ==> #[trigger] methods_model(table@[a].1@) == iface_methods_model(
                    im[a],
                    strategy,
                    bindgen_cfg.replace_witified_maps,
                ),
            seen@.len() == done.len(),
            forall|k: int|
                0 <= k < done.len() ==> 0 <= #[trigger] done[k].0 < i && 0 <= done[k].1
                    < im[done[k].0].functions.len(),
            forall|k: int|
                0 <= k < done.len() ==> #[trigger] seen@[k]@ == derived_name(
                    im[done[k].0],
                    done[k].1,
                ),
            forall|k1: int, k2: int|
                0 <= k1 < done.len() && 0 <= k2 < done.len() && k1 != k2 ==> #[trigger] seen@[k1]@
                    != #[trigger] seen@[k2]@,
            forall|a: int, b: int|
                0 <= a < i && 0 <= b < im[a].functions.len() ==> #[trigger] done_covers(
                    done,
                    a,
                    b,
                ),
            strategy is FirstArgument ==> forall|a: int, b: int|
                0 <= a < i && 0 <= b < im[a].functions.len()
                    ==> #[trigger] im[a].functions[b].params.len() <= 1,
        decreases n - i,
    {
        let iface = &interfaces[i];
        proof {
            assert(im[i as int] == iface.model());
        }
        let ident = interface_ident(iface);
        let m = iface.functions.len();
        let mut methods: Vec<LatticeMethod> = Vec::new();
        let mut j: usize = 0;
        while j < m
            invariant
                n == interfaces@.len(),
                i < n,
                m == iface.functions@.len(),
                j <= m,
                iface == &interfaces@[i as int],
                im == ifaces_model(interfaces@),
                im[i as int] == iface.model(),
                strategy == bindgen_cfg.import_fn_lattice_translation_strategy,
                ident@ == iface_ident_of(
                    im[i as int].namespace,
                    im[i as int].package,
                    im[i as int].name,
                ),
                methods@.len() == j,
                forall|l: int|
                    0 <= l < j ==> #[trigger] methods@[l].model() == method_model_for(
                        strategy,
                        ident@,
                        im[i as int].functions[l],
                        bindgen_cfg.replace_witified_maps,
                    ),
                seen@.len() == done.len(),
                forall|k: int|
                    0 <= k < done.len() ==> 0 <= #[trigger] done[k].0 <= i as int && (done[k].0
                        < i as int || done[k].1 < j as int) && 0 <= done[k].1
                        < im[done[k].0].functions.len(),
                forall|k: int|
                    0 <= k < done.len() ==> #[trigger] seen@[k]@ == derived_name(
                        im[done[k].0],
                        done[k].1,
                    ),
                forall|k1: int, k2: int|
                    0 <= k1 < done.len() && 0 <= k2 < done.len() && k1 != k2
                        ==> #[trigger] seen@[k1]@ != #[trigger] seen@[k2]@,
                forall|a: int, b: int|
                    0 <= a < im.len() && 0 <= b < im[a].functions.len() && (a < i as int || (a
                        == i as int && b < j as int)) ==> #[trigger] done_covers(done, a, b),
                strategy is FirstArgument ==> forall|a: int, b: int|
                    0 <= a < im.len() && 0 <= b < im[a].functions.len() && (a < i as int || (a
                        == i as int && b < j as int))
                        ==> #[trigger] im[a].functions[b].params.len() <= 1,
            decreases m - j,
        {
            let f = clone_function(&iface.functions[j]);
            proof {
                assert(im[i as int].functions[j as int] == iface.functions@[j as int].model());
                assert(f.model() == im[i as int].functions[j as int]);
            }
            match strategy.translate_export_fn_for_lattice(bindgen_cfg, ident.clone(), f) {
                Err(e) => {
                    proof {
                        assert(strategy is FirstArgument);
                        assert(im[i as int].functions[j as int].params.len() >= 2);
                        assert(arity_violation(im, strategy));
                    }
                    return Err(e);
                },
                Ok(p) => {
                    let method = p.1;
                    proof {
                        assert(method.model() == method_model_for(
                            strategy,
                            ident@,
                            im[i as int].functions[j as int],
                            bindgen_cfg.replace_witified_maps,
                        ));
                        assert(method.lattice_method_name@ == derived_name(im[i as int], j as int));
                    }
                    if find_name(&seen, &method.lattice_method_name) {
                        proof {
                            let k = choose|k: int|
                                0 <= k < seen@.len() && #[trigger] seen@[k]@
                                    == method.lattice_method_name@;
                            let a = done[k].0;
                            let b = done[k].1;
                            assert(derived_name(im[a], b) == derived_name(im[i as int], j as int));
                            assert(!(a == i as int && b == j as int));
                            assert(!names_unique(im));
                        }
                        return Err(
                            BindgenError::MethodNameCollision {
                                method_name: method.lattice_method_name,
                            },
                        );
                    }
                    seen.push(method.lattice_method_name.clone());
                    proof {
                        let done0 = done;
                        done = done.push((i as int, j as int));
                        assert forall|a: int, b: int|
                            0 <= a < im.len() && 0 <= b < im[a].functions.len() && (a < i as int
                                || (a == i as int && b < j as int + 1)) implies #[trigger] done_covers(
                            done,
                            a,
                            b,
                        ) by {
                            if a == i as int && b == j as int {
                                assert(done[done.len() - 1] == (a, b));
                            } else {
                                assert(done_covers(done0, a, b));
                                let k = choose|k: int|
                                    0 <= k < done0.len() && #[trigger] done0[k] == (a, b);
                                assert(done[k] == (a, b));
                            }
                        }
                    }
                    methods.push(method);
                },
            }
            j += 1;
        }
        proof {
            assert(methods_model(methods@) =~= iface_methods_model(
                im[i as int],
                strategy,
                bindgen_cfg.replace_witified_maps,
            ));
        }
        let ghost table0 = table@;
        table.push((ident, methods));
        proof {
            assert(table@.len() == i + 1);
            assert(table@[i as int].0@ == iface_ident_of(
                im[i as int].namespace,
                im[i as int].package,
                im[i as int].name,
            ));
            assert(methods_model(table@[i as int].1@) == iface_methods_model(
                im[i as int],
                strategy,
                bindgen_cfg.replace_witified_maps,
            ));
            assert forall|a: int|
                0 <= a < i as int + 1 implies #[trigger] table@[a].0@ == iface_ident_of(
                im[a].namespace,
                im[a].package,
                im[a].name,
            ) && methods_model(table@[a].1@) == iface_methods_model(
                im[a],
                strategy,
                bindgen_cfg.replace_witified_maps,
            ) by {
                if a < i {
                    assert(table@[a] == table0[a]);
                    assert(table0[a].0@ == iface_ident_of(
                        im[a].namespace,
                        im[a].package,
                        im[a].name,
                    ));
                    assert(methods_model(table0[a].1@) == iface_methods_model(
                        im[a],
                        strategy,
                        bindgen_cfg.replace_witified_maps,
                    ));
                }
            }
            assert forall|a: int, b: int|
                0 <= a < i + 1 && 0 <= b < im[a].functions.len() implies #[trigger] done_covers(
                done,
                a,
                b,
            ) by {
                assert(0 <= a < im.len());
                assert(a < i as int || (a == i as int && b < m as int));
            }
        }
        i += 1;
    }
    proof {
        if arity_violation(im, strategy) {
            let (a, b) = choose|a: int, b: int|
                0 <= a < im.len() && 0 <= b < im[a].functions.len()
                    && #[trigger] im[a].functions[b].params.len() >= 2;
            assert(false);
        }
        assert forall|i1: int, j1: int, i2: int, j2: int|
            #![trigger derived_name(im[i1], j1), derived_name(im[i2], j2)]
            0 <= i1 < im.len() && 0 <= j1 < im[i1].functions.len() && 0 <= i2 < im.len() && 0 <= j2
                < im[i2].functions.len() && !(i1 == i2 && j1 == j2) implies derived_name(im[i1], j1)
            != derived_name(im[i2], j2) by {
            assert(done_covers(done, i1, j1));
            assert(done_covers(done, i2, j2));
            let k1 = choose|k: int| 0 <= k < done.len() && #[trigger] done[k] == (i1, j1);
            let k2 = choose|k: int| 0 <= k < done.len() && #[trigger] done[k] == (i2, j2);
            assert(k1 != k2);
            assert(seen@[k1]@ != seen@[k2]@);
        }
    }
    Ok(table)
}

} // verus!
