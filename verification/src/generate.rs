//! The generation pipeline: walk the resolved world, translate every
//! function for the lattice, build the method table, reconcile type
//! declarations with the upstream ones, and emit the bindings — or abort
//! with a descriptive diagnostic on the first fatal condition.

use crate::config::ProviderBindgenConfig;
use crate::dedup::decls_model;
use crate::dedup::declares;
use crate::dedup::merge_type_decls;
use crate::dedup::TypeDecl;
use crate::dedup::TypeDeclModel;
use crate::emit::build_dispatch_entries;
use crate::emit::build_envelope_decls;
use crate::emit::entries_of_table;
use crate::emit::entry_model_list;
use crate::emit::envelope_decls_of;
use crate::emit::table_model_of;
use crate::emit::DispatchEntry;
use crate::model::clone_function;
use crate::model::interface_ident;
use crate::model::InterfaceModel;
use crate::model::WitWorld;
use crate::names::iface_ident_of;
use crate::render::bindings_source;
use crate::render::render_bindings;
use crate::strategy::BindgenError;
use crate::strategy::LatticeMethod;
use crate::strategy::LatticeMethodModel;
use crate::strategy::WitFunctionLatticeTranslationStrategy;
use crate::table::arity_violation;
use crate::table::build_lattice_methods_by_wit_interface;
use crate::table::iface_methods_model;
use crate::table::method_model_for;
use crate::table::methods_model;
use crate::table::names_unique;
use crate::walker::exposed_iface;
use crate::walker::handled_iface;
use crate::walker::ifaces_model;
use crate::walker::names_view;
use crate::walker::walk_exposed_interfaces;
use crate::walker::walk_handled_interfaces;
use vstd::prelude::*;

verus! {

/// Everything one generation run emits: the merged type declarations, the
/// method table grouped by interface, the dispatch entries in table order,
/// the invocation-handler methods for imported interfaces, and the
/// rendered source.
pub struct GeneratedBindings {
    pub types: Vec<TypeDecl>,
    pub methods_by_iface: Vec<(String, Vec<LatticeMethod>)>,
    pub dispatch_entries: Vec<DispatchEntry>,
    pub invocation_methods: Vec<LatticeMethod>,
    pub source: String,
}

/// The interfaces of the world's exports that a run exposes.
pub open spec fn exposed_model(cfg: ProviderBindgenConfig, world: WitWorld) -> Seq<InterfaceModel> {
    ifaces_model(world.exports@).filter(
        |m: InterfaceModel|
            exposed_iface(
                names_view(cfg.exposed_interface_allow_list@),
                names_view(cfg.exposed_interface_deny_list@),
                m,
            ),
    )
}

/// The interfaces of the world's imports that get invocation handlers.
pub open spec fn handled_model(world: WitWorld) -> Seq<InterfaceModel> {
    ifaces_model(world.imports@).filter(|m: InterfaceModel| handled_iface(m))
}

/// The invocation-handler methods of the handled interfaces, flattened in
/// discovery order.
pub open spec fn client_methods_of(
    ifaces: Seq<InterfaceModel>,
    strategy: WitFunctionLatticeTranslationStrategy,
    replace_witified_maps: bool,
) -> Seq<LatticeMethodModel>
    decreases ifaces.len(),
{
    if ifaces.len() == 0 {
        Seq::empty()
    } else {
        client_methods_of(ifaces.drop_last(), strategy, replace_witified_maps)
            + iface_methods_model(ifaces.last(), strategy, replace_witified_maps)
    }
}

/// The envelope declarations synthesized for a whole method table, in
/// table order.
pub open spec fn table_envelopes_of(t: Seq<(Seq<char>, Seq<LatticeMethodModel>)>) -> Seq<
    TypeDeclModel,
>
    decreases t.len(),
{
    if t.len() == 0 {
        Seq::empty()
    } else {
        table_envelopes_of(t.drop_last()) + envelope_decls_of(t.last().1)
    }
}

/// Translate the functions of the handled import interfaces into
/// invocation-handler methods. Fails exactly when a function has two or
/// more parameters under the first-argument strategy.
fn build_invocation_methods(
    bindgen_cfg: &ProviderBindgenConfig,
    handled: &Vec<crate::model::WitInterface>,
) -> (r: Result<Vec<LatticeMethod>, BindgenError>)
    ensures
        ({
            let hm = ifaces_model(handled@);
            let strategy = bindgen_cfg.export_fn_lattice_translation_strategy;
            match r {
                Ok(ms) => !arity_violation(hm, strategy) && methods_model(ms@)
                    == client_methods_of(hm, strategy, bindgen_cfg.replace_witified_maps),
                Err(e) => arity_violation(hm, strategy) && e is FirstArgumentArity,
            }
        }),
        r is Err <==> arity_violation(
            ifaces_model(handled@),
            bindgen_cfg.export_fn_lattice_translation_strategy,
        ),
{
    let ghost hm = ifaces_model(handled@);
    let strategy = bindgen_cfg.export_fn_lattice_translation_strategy;
    let mut out: Vec<LatticeMethod> = Vec::new();
    let n = handled.len();
    let mut i: usize = 0;
    proof {
        assert(hm.take(0) =~= Seq::<InterfaceModel>::empty());
        assert(methods_model(out@) =~= client_methods_of(
            hm.take(0),
            strategy,
            bindgen_cfg.replace_witified_maps,
        ));
    }
    while i < n
        invariant
            n == handled@.len(),
            i <= n,
            hm == ifaces_model(handled@),
            strategy == bindgen_cfg.export_fn_lattice_translation_strategy,
            methods_model(out@) == client_methods_of(
                hm.take(i as int),
                strategy,
                bindgen_cfg.replace_witified_maps,
            ),
            strategy is FirstArgument ==> forall|a: int, b: int|
                0 <= a < i && 0 <= b < hm[a].functions.len()
                    ==> #[trigger] hm[a].functions[b].params.len() <= 1,
        decreases n - i,
    {
        let iface = &handled[i];
        proof {
            assert(hm[i as int] == iface.model());
        }
        let ident = interface_ident(iface);
        let m = iface.functions.len();
        let mut j: usize = 0;
        while j < m
            invariant
                n == handled@.len(),
                i < n,
                m == iface.functions@.len(),
                j <= m,
                iface == &handled@[i as int],
                hm == ifaces_model(handled@),
                hm[i as int] == iface.model(),
                strategy == bindgen_cfg.export_fn_lattice_translation_strategy,
                ident@ == iface_ident_of(
                    hm[i as int].namespace,
                    hm[i as int].package,
                    hm[i as int].name,
                ),
                methods_model(out@) == client_methods_of(
                    hm.take(i as int),
                    strategy,
                    bindgen_cfg.replace_witified_maps,
                ) + iface_methods_model(
                    hm[i as int],
                    strategy,
                    bindgen_cfg.replace_witified_maps,
                ).take(j as int),
                strategy is FirstArgument ==> forall|a: int, b: int|
                    0 <= a < i && 0 <= b < hm[a].functions.len()
                        ==> #[trigger] hm[a].functions[b].params.len() <= 1,
                strategy is FirstArgument ==> forall|b: int|
                    0 <= b < j ==> #[trigger] hm[i as int].functions[b].params.len() <= 1,
            decreases m - j,
        {
            let f = clone_function(&iface.functions[j]);
            proof {
                assert(hm[i as int].functions[j as int] == iface.functions@[j as int].model());
                assert(f.model() == hm[i as int].functions[j as int]);
            }
            match strategy.translate_import_fn_for_lattice(bindgen_cfg, ident.clone(), f) {
                Err(e) => {
                    proof {
                        assert(strategy is FirstArgument);
                        assert(hm[i as int].functions[j as int].params.len() >= 2);
                        assert(arity_violation(hm, strategy));
                    }
                    return Err(e);
                },
                Ok(method) => {
                    proof {
                        assert(method.model() == method_model_for(
                            strategy,
                            ident@,
                            hm[i as int].functions[j as int],
                            bindgen_cfg.replace_witified_maps,
                        ));
                    }
                    let ghost out0 = out@;
                    out.push(method);
                    proof {
                        let ims = iface_methods_model(
                            hm[i as int],
                            strategy,
                            bindgen_cfg.replace_witified_maps,
                        );
                        assert(ims[j as int] == method.model());
                        assert(ims.take(j as int + 1) =~= ims.take(j as int).push(method.model()));
                        assert(methods_model(out@) =~= methods_model(out0).push(method.model()));
                        assert(methods_model(out@) =~= client_methods_of(
                            hm.take(i as int),
                            strategy,
                            bindgen_cfg.replace_witified_maps,
                        ) + ims.take(j as int + 1));
                    }
                },
            }
            j += 1;
        }
        proof {
            let ims = iface_methods_model(hm[i as int], strategy, bindgen_cfg.replace_witified_maps);
            assert(ims.take(m as int) =~= ims);
            assert(hm.take(i as int + 1).drop_last() =~= hm.take(i as int));
            assert(hm.take(i as int + 1).last() == hm[i as int]);
            assert(methods_model(out@) =~= client_methods_of(
                hm.take(i as int + 1),
                strategy,
                bindgen_cfg.replace_witified_maps,
            ));
        }
        i += 1;
    }
    proof {
        assert(hm.take(n as int) =~= hm);
        if arity_violation(hm, strategy) {
            let (a, b) = choose|a: int, b: int|
                0 <= a < hm.len() && 0 <= b < hm[a].functions.len()
                    && #[trigger] hm[a].functions[b].params.len() >= 2;
            assert(false);
        }
    }
    Ok(out)
}

/// Collect the envelope declarations of every interface of the table.
fn build_table_envelopes(table: &Vec<(String, Vec<LatticeMethod>)>) -> (r: Vec<TypeDecl>)
    ensures
        decls_model(r@) == table_envelopes_of(table_model_of(table@)),
{
    let ghost tm = table_model_of(table@);
    let mut out: Vec<TypeDecl> = Vec::new();
    let n = table.len();
    let mut i: usize = 0;
    proof {
        assert(tm.take(0) =~= Seq::<(Seq<char>, Seq<LatticeMethodModel>)>::empty());
        assert(decls_model(out@) =~= table_envelopes_of(tm.take(0)));
    }
    while i < n
        invariant
            n == table@.len(),
            i <= n,
            tm == table_model_of(table@),
            decls_model(out@) == table_envelopes_of(tm.take(i as int)),
        decreases n - i,
    {
        let mut ds = build_envelope_decls(&table[i].1);
        let ghost out0 = out@;
        let ghost ds0 = ds@;
        out.append(&mut ds);
        proof {
            assert(out@ == out0 + ds0);
            assert(decls_model(out@) =~= decls_model(out0) + decls_model(ds0));
            assert(tm.take(i as int + 1).drop_last() =~= tm.take(i as int));
            assert(tm.take(i as int + 1).last() == (table@[i as int].0@, methods_model(
                table@[i as int].1@,
            )));
            assert(decls_model(out@) =~= table_envelopes_of(tm.take(i as int + 1)));
        }
        i += 1;
    }
    proof {
        assert(tm.take(n as int) =~= tm);
    }
    out
}

/// Run the whole pipeline over a resolved world: walk and filter the
/// interfaces of both directions, translate every function under the
/// configured strategies, build the collision-checked method table,
/// reconcile the synthesized envelope declarations against the upstream
/// ones, and render the bindings. Fails exactly when a function breaks
/// the chosen strategy's arity bound, in either direction, or two exposed
/// functions derive the same lattice method name.
pub fn generate(
    bindgen_cfg: &ProviderBindgenConfig,
    world: &WitWorld,
    upstream_types: Vec<TypeDecl>,
) -> (r: Result<GeneratedBindings, BindgenError>)
    ensures
        ({
            let em = exposed_model(*bindgen_cfg, *world);
            let hm = handled_model(*world);
            let import_strategy = bindgen_cfg.import_fn_lattice_translation_strategy;
            let export_strategy = bindgen_cfg.export_fn_lattice_translation_strategy;
            let replace = bindgen_cfg.replace_witified_maps;
            match r {
                Ok(b) => {
                    &&& !arity_violation(em, import_strategy)
                    &&& names_unique(em)
                    &&& !arity_violation(hm, export_strategy)
                    &&& table_model_of(b.methods_by_iface@).len() == em.len()
                    &&& forall|i: int|
                        0 <= i < em.len() ==> #[trigger] table_model_of(b.methods_by_iface@)[i]
                            == (iface_ident_of(em[i].namespace, em[i].package, em[i].name),
                        iface_methods_model(em[i], import_strategy, replace))
                    &&& entry_model_list(b.dispatch_entries@) == entries_of_table(
                        table_model_of(b.methods_by_iface@),
                    )
                    &&& methods_model(b.invocation_methods@) == client_methods_of(
                        hm,
                        export_strategy,
                        replace,
                    )
                    &&& decls_model(b.types@) == decls_model(upstream_types@) + (table_envelopes_of(
                        table_model_of(b.methods_by_iface@),
                    ) + envelope_decls_of(methods_model(b.invocation_methods@))).filter(
                        |d: TypeDeclModel| !declares(decls_model(upstream_types@), d.name),
                    )
                    &&& b.source@ == bindings_source(
                        decls_model(b.types@),
                        table_model_of(b.methods_by_iface@),
                        entry_model_list(b.dispatch_entries@),
                        methods_model(b.invocation_methods@),
                        bindgen_cfg.contract@,
                        bindgen_cfg.impl_struct@,
                    )
                },
                Err(e) => {
                    &&& arity_violation(em, import_strategy) || !names_unique(em)
                        || arity_violation(hm, export_strategy)
                    &&& (e is FirstArgumentArity ==> arity_violation(em, import_strategy)
                        || arity_violation(hm, export_strategy))
                    &&& (e is MethodNameCollision ==> !names_unique(em))
                },
            }
        }),
        r is Err <==> (arity_violation(
            exposed_model(*bindgen_cfg, *world),
            bindgen_cfg.import_fn_lattice_translation_strategy,
        ) || !names_unique(exposed_model(*bindgen_cfg, *world)) || arity_violation(
            handled_model(*world),
            bindgen_cfg.export_fn_lattice_translation_strategy,
        )),
{
    let exposed = walk_exposed_interfaces(bindgen_cfg, &world.exports);
    let table = match build_lattice_methods_by_wit_interface(bindgen_cfg, &exposed) {
        Ok(t) => t,
        Err(e) => {
            return Err(e);
        },
    };
    proof {
        assert(ifaces_model(exposed@) == exposed_model(*bindgen_cfg, *world));
        assert forall|i: int| 0 <= i < ifaces_model(exposed@).len() implies #[trigger] table_model_of(
            table@,
        )[i] == (iface_ident_of(
            ifaces_model(exposed@)[i].namespace,
            ifaces_model(exposed@)[i].package,
            ifaces_model(exposed@)[i].name,
        ), iface_methods_model(
            ifaces_model(exposed@)[i],
            bindgen_cfg.import_fn_lattice_translation_strategy,
            bindgen_cfg.replace_witified_maps,
        )) by {
            assert(table@[i].0@ == iface_ident_of(
                ifaces_model(exposed@)[i].namespace,
                ifaces_model(exposed@)[i].package,
                ifaces_model(exposed@)[i].name,
            ));
            assert(methods_model(table@[i].1@) == iface_methods_model(
                ifaces_model(exposed@)[i],
                bindgen_cfg.import_fn_lattice_translation_strategy,
                bindgen_cfg.replace_witified_maps,
            ));
        }
    }
    let handled = walk_handled_interfaces(&world.imports);
    let invocation_methods = match build_invocation_methods(bindgen_cfg, &handled) {
        Ok(ms) => ms,
        Err(e) => {
            return Err(e);
        },
    };
    let mut local = build_table_envelopes(&table);
    let mut client_envelopes = build_envelope_decls(&invocation_methods);
    let ghost local0 = local@;
    let ghost client0 = client_envelopes@;
    local.append(&mut client_envelopes);
    proof {
        assert(local@ == local0 + client0);
        assert(decls_model(local@) =~= decls_model(local0) + decls_model(client0));
    }
    let ghost upstream0 = upstream_types@;
    let types = merge_type_decls(upstream_types, local);
    let dispatch_entries = build_dispatch_entries(&table);
    let source = render_bindings(
        &types,
        &table,
        &dispatch_entries,
        &invocation_methods,
        bindgen_cfg.contract.as_str(),
        bindgen_cfg.impl_struct.as_str(),
    );
    Ok(
        GeneratedBindings {
            types,
            methods_by_iface: table,
            dispatch_entries,
            invocation_methods,
            source,
        },
    )
}

} // verus!
