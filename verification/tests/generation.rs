//! End-to-end generation over resolved worlds: strategies, method names,
//! the dispatch table, type deduplication, and the rendered bindings.

use lattice_bindgen::build_dispatch_entries;
use lattice_bindgen::build_lattice_methods_by_wit_interface;
use lattice_bindgen::generate;
use lattice_bindgen::lattice_method_name;
use lattice_bindgen::merge_type_decls;
use lattice_bindgen::render_type;
use lattice_bindgen::BindgenError;
use lattice_bindgen::Param;
use lattice_bindgen::ProviderBindgenConfig;
use lattice_bindgen::TypeDecl;
use lattice_bindgen::WitFunction;
use lattice_bindgen::WitFunctionLatticeTranslationStrategy;
use lattice_bindgen::WitInterface;
use lattice_bindgen::WitType;
use lattice_bindgen::WitWorld;

fn config(
    server: WitFunctionLatticeTranslationStrategy,
    client: WitFunctionLatticeTranslationStrategy,
) -> ProviderBindgenConfig {
    ProviderBindgenConfig {
        impl_struct: "KvProvider".into(),
        contract: "wasmcloud:keyvalue".into(),
        wit_ns: Some("wasmcloud".into()),
        wit_pkg: Some("keyvalue".into()),
        exposed_interface_allow_list: Vec::new(),
        exposed_interface_deny_list: Vec::new(),
        import_fn_lattice_translation_strategy: server,
        export_fn_lattice_translation_strategy: client,
        replace_witified_maps: false,
    }
}

fn readwrite_get() -> WitFunction {
    WitFunction {
        name: "get".into(),
        params: vec![Param {
            name: "key".into(),
            ty: WitType::Str,
        }],
        ret: Some(WitType::Named("Value".into())),
    }
}

fn readwrite_set() -> WitFunction {
    WitFunction {
        name: "set".into(),
        params: vec![
            Param {
                name: "key".into(),
                ty: WitType::Str,
            },
            Param {
                name: "value".into(),
                ty: WitType::List(Box::new(WitType::U8)),
            },
        ],
        ret: None,
    }
}

fn readwrite(functions: Vec<WitFunction>) -> WitInterface {
    WitInterface {
        namespace: "wasmcloud".into(),
        package: "keyvalue".into(),
        name: "readwrite".into(),
        functions,
    }
}

/// A one-parameter function under the first-argument strategy: the
/// dispatch entry for `Readwrite.Get` deserializes the raw string payload
/// and hands it to the trait method beside the context.
#[test]
fn get_under_first_argument() {
    let cfg = config(
        WitFunctionLatticeTranslationStrategy::FirstArgument,
        WitFunctionLatticeTranslationStrategy::FirstArgument,
    );
    let ifaces = vec![readwrite(vec![readwrite_get()])];
    let table = build_lattice_methods_by_wit_interface(&cfg, &ifaces).expect("table");
    assert_eq!(table.len(), 1);
    assert_eq!(table[0].0, "Readwrite");
    let lm = &table[0].1[0];
    assert_eq!(lm.lattice_method_name, "Readwrite.Get");
    assert_eq!(lm.envelope_type_name.as_deref(), Some("String"));
    assert!(lm.struct_members.is_none());
    assert_eq!(lm.func_name, "get");
    assert_eq!(lm.invocation_arg_names, vec!["key".to_string()]);

    let entries = build_dispatch_entries(&table);
    assert_eq!(entries.len(), 1);
    assert_eq!(entries[0].method_name, "Readwrite.Get");
    assert_eq!(entries[0].envelope_type_name.as_deref(), Some("String"));
    assert!(!entries[0].bundled);
    assert_eq!(entries[0].trait_name, "Readwrite");
}

/// A two-parameter function under the bundle strategy: the synthesized
/// envelope `ReadwriteSetInvocation` carries both fields in order, and the
/// dispatch arm destructures it back into the call.
#[test]
fn set_under_bundle_arguments() {
    let cfg = config(
        WitFunctionLatticeTranslationStrategy::BundleArguments,
        WitFunctionLatticeTranslationStrategy::BundleArguments,
    );
    let ifaces = vec![readwrite(vec![readwrite_set()])];
    let table = build_lattice_methods_by_wit_interface(&cfg, &ifaces).expect("table");
    let lm = &table[0].1[0];
    assert_eq!(lm.lattice_method_name, "Readwrite.Set");
    assert_eq!(
        lm.envelope_type_name.as_deref(),
        Some("ReadwriteSetInvocation")
    );
    let members = lm.struct_members.as_ref().expect("envelope fields");
    assert_eq!(members.len(), 2);
    assert_eq!(members[0].name, "key");
    assert_eq!(render_type(&members[0].ty), "String");
    assert_eq!(members[1].name, "value");
    assert_eq!(render_type(&members[1].ty), "Vec<u8>");

    let entries = build_dispatch_entries(&table);
    assert!(entries[0].bundled);
    assert_eq!(
        entries[0].invocation_arg_names,
        vec!["key".to_string(), "value".to_string()]
    );
}

/// A zero-parameter function gets no envelope under either strategy, and
/// its dispatch entry performs no deserialization.
#[test]
fn zero_params_have_no_envelope() {
    for strategy in [
        WitFunctionLatticeTranslationStrategy::FirstArgument,
        WitFunctionLatticeTranslationStrategy::BundleArguments,
    ] {
        let cfg = config(strategy, strategy);
        let ifaces = vec![readwrite(vec![WitFunction {
            name: "ping".into(),
            params: Vec::new(),
            ret: None,
        }])];
        let table = build_lattice_methods_by_wit_interface(&cfg, &ifaces).expect("table");
        let lm = &table[0].1[0];
        assert!(lm.envelope_type_name.is_none());
        assert!(lm.struct_members.is_none());
        let entries = build_dispatch_entries(&table);
        assert!(entries[0].envelope_type_name.is_none());
    }
}

/// A single-parameter function under the bundle strategy still gets a
/// synthesized single-field envelope, never the bare parameter type.
#[test]
fn one_param_bundle_is_single_field_struct() {
    let cfg = config(
        WitFunctionLatticeTranslationStrategy::BundleArguments,
        WitFunctionLatticeTranslationStrategy::BundleArguments,
    );
    let ifaces = vec![readwrite(vec![readwrite_get()])];
    let table = build_lattice_methods_by_wit_interface(&cfg, &ifaces).expect("table");
    let lm = &table[0].1[0];
    assert_eq!(
        lm.envelope_type_name.as_deref(),
        Some("ReadwriteGetInvocation")
    );
    let members = lm.struct_members.as_ref().expect("envelope fields");
    assert_eq!(members.len(), 1);
    assert_eq!(members[0].name, "key");
    assert_eq!(render_type(&members[0].ty), "String");
}

/// Two or more parameters under the first-argument strategy are a fatal
/// translation error naming the function.
#[test]
fn first_argument_rejects_two_params() {
    let cfg = config(
        WitFunctionLatticeTranslationStrategy::FirstArgument,
        WitFunctionLatticeTranslationStrategy::FirstArgument,
    );
    let ifaces = vec![readwrite(vec![readwrite_set()])];
    let r = build_lattice_methods_by_wit_interface(&cfg, &ifaces);
    match r {
        Err(BindgenError::FirstArgumentArity { func_name }) => assert_eq!(func_name, "set"),
        _ => panic!("expected an arity failure"),
    }
}

/// Method names are deterministic, and interfaces of equal name from two
/// packages colliding on a method name abort generation.
#[test]
fn method_names_deterministic_and_collisions_fatal() {
    assert_eq!(lattice_method_name("Readwrite", "get"), "Readwrite.Get");
    assert_eq!(lattice_method_name("Readwrite", "get"), "Readwrite.Get");
    assert_ne!(
        lattice_method_name("Readwrite", "get-all"),
        lattice_method_name("Readwrite", "getall")
    );

    let cfg = config(
        WitFunctionLatticeTranslationStrategy::FirstArgument,
        WitFunctionLatticeTranslationStrategy::FirstArgument,
    );
    let other_pkg = WitInterface {
        namespace: "examples".into(),
        package: "caching".into(),
        name: "readwrite".into(),
        functions: vec![readwrite_get()],
    };
    let ifaces = vec![readwrite(vec![readwrite_get()]), other_pkg];
    match build_lattice_methods_by_wit_interface(&cfg, &ifaces) {
        Err(BindgenError::MethodNameCollision { method_name }) => {
            assert_eq!(method_name, "Readwrite.Get")
        },
        _ => panic!("expected a method name collision"),
    }
}

/// A type name already declared upstream is never re-emitted: only the
/// upstream declaration appears in the merged list.
#[test]
fn upstream_declaration_wins_dedup() {
    let upstream = vec![TypeDecl {
        name: "ReadwriteSetInvocation".into(),
        source: "pub struct ReadwriteSetInvocation { raw: Vec<u8> }\n".into(),
    }];
    let local = vec![
        TypeDecl {
            name: "ReadwriteSetInvocation".into(),
            source: "pub struct ReadwriteSetInvocation { key: String }\n".into(),
        },
        TypeDecl {
            name: "Fresh".into(),
            source: "pub struct Fresh {}\n".into(),
        },
    ];
    let merged = merge_type_decls(upstream, local);
    assert_eq!(merged.len(), 2);
    assert_eq!(merged[0].name, "ReadwriteSetInvocation");
    assert!(merged[0].source.contains("raw: Vec<u8>"));
    assert_eq!(merged[1].name, "Fresh");
}

/// The whole pipeline over a world: exports become traits and dispatch
/// arms, imports become invocation-handler methods, the reserved packages
/// are skipped, and the rendered source carries all of it.
#[test]
fn generate_end_to_end() {
    let cfg = config(
        WitFunctionLatticeTranslationStrategy::FirstArgument,
        WitFunctionLatticeTranslationStrategy::BundleArguments,
    );
    let bus = WitInterface {
        namespace: "wasmcloud".into(),
        package: "bus".into(),
        name: "host".into(),
        functions: vec![readwrite_get()],
    };
    let messaging = WitInterface {
        namespace: "wasmcloud".into(),
        package: "messaging".into(),
        name: "consumer".into(),
        functions: vec![WitFunction {
            name: "publish".into(),
            params: vec![
                Param {
                    name: "subject".into(),
                    ty: WitType::Str,
                },
                Param {
                    name: "body".into(),
                    ty: WitType::List(Box::new(WitType::U8)),
                },
            ],
            ret: None,
        }],
    };
    let world = WitWorld {
        imports: vec![bus, messaging],
        exports: vec![readwrite(vec![readwrite_get()])],
    };
    let upstream = vec![TypeDecl {
        name: "Value".into(),
        source: "pub struct Value { pub revision: u64 }\n".into(),
    }];
    let b = generate(&cfg, &world, upstream).expect("generation");

    assert_eq!(b.methods_by_iface.len(), 1);
    assert_eq!(b.dispatch_entries.len(), 1);
    assert_eq!(b.invocation_methods.len(), 1);
    assert_eq!(
        b.invocation_methods[0].lattice_method_name,
        "Consumer.Publish"
    );
    assert_eq!(
        b.invocation_methods[0].envelope_type_name.as_deref(),
        Some("ConsumerPublishInvocation")
    );
    assert_eq!(b.types.len(), 2);
    assert_eq!(b.types[0].name, "Value");
    assert_eq!(b.types[1].name, "ConsumerPublishInvocation");

    assert!(b.source.contains("pub trait Readwrite"));
    assert!(b.source.contains("\"Readwrite.Get\" =>"));
    assert!(b.source.contains("let input: String = deserialize(&body)?;"));
    assert!(b.source.contains("Readwrite::get(self, ctx, input).await;"));
    assert!(b.source.contains("impl MessageDispatch for KvProvider"));
    assert!(b.source.contains("pub struct ConsumerPublishInvocation"));
    assert!(b.source.contains("pub async fn publish"));
    assert!(b.source.contains("send(self.ld, \"Consumer.Publish\", body)"));
    assert!(b.source.contains("Err(InvocationError::Malformed(method))"));
    assert!(!b.source.contains("trait Host"));
}

/// The deny list hides an exported interface; the allow list, when
/// non-empty, is exhaustive.
#[test]
fn allow_and_deny_lists_filter_exports() {
    let mut cfg = config(
        WitFunctionLatticeTranslationStrategy::FirstArgument,
        WitFunctionLatticeTranslationStrategy::FirstArgument,
    );
    cfg.exposed_interface_deny_list = vec!["readwrite".to_string()];
    let world = WitWorld {
        imports: Vec::new(),
        exports: vec![readwrite(vec![readwrite_get()])],
    };
    let b = generate(&cfg, &world, Vec::new()).expect("generation");
    assert_eq!(b.methods_by_iface.len(), 0);

    let mut cfg2 = config(
        WitFunctionLatticeTranslationStrategy::FirstArgument,
        WitFunctionLatticeTranslationStrategy::FirstArgument,
    );
    cfg2.exposed_interface_allow_list = vec!["other".to_string()];
    let world2 = WitWorld {
        imports: Vec::new(),
        exports: vec![readwrite(vec![readwrite_get()])],
    };
    let b2 = generate(&cfg2, &world2, Vec::new()).expect("generation");
    assert_eq!(b2.methods_by_iface.len(), 0);
}

/// A kebab-case interface and function pascal-case into the trait and
/// method names, and the generated method ident is snake-cased.
#[test]
fn kebab_names_pascal_and_snake() {
    let cfg = config(
        WitFunctionLatticeTranslationStrategy::FirstArgument,
        WitFunctionLatticeTranslationStrategy::FirstArgument,
    );
    let ifaces = vec![WitInterface {
        namespace: "wasi".into(),
        package: "keyvalue".into(),
        name: "key-value".into(),
        functions: vec![WitFunction {
            name: "get-all".into(),
            params: Vec::new(),
            ret: None,
        }],
    }];
    let table = build_lattice_methods_by_wit_interface(&cfg, &ifaces).expect("table");
    assert_eq!(table[0].0, "KeyValue");
    let lm = &table[0].1[0];
    assert_eq!(lm.lattice_method_name, "KeyValue.GetAll");
    assert_eq!(lm.func_name, "get_all");
}

/// An unnamed interface falls back to its namespace and package for the
/// type ident, as the envelope naming shows.
#[test]
fn unnamed_interface_uses_namespace_and_package() {
    let cfg = config(
        WitFunctionLatticeTranslationStrategy::BundleArguments,
        WitFunctionLatticeTranslationStrategy::BundleArguments,
    );
    let ifaces = vec![WitInterface {
        namespace: "test".into(),
        package: "foo".into(),
        name: String::new(),
        functions: vec![WitFunction {
            name: "baz".into(),
            params: vec![Param {
                name: "v".into(),
                ty: WitType::U32,
            }],
            ret: None,
        }],
    }];
    let table = build_lattice_methods_by_wit_interface(&cfg, &ifaces).expect("table");
    assert_eq!(table[0].0, "TestFoo");
    assert_eq!(
        table[0].1[0].envelope_type_name.as_deref(),
        Some("TestFooBazInvocation")
    );
}
