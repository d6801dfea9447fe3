//! The map convention: recognizing WIT-ified map types and rewriting
//! `_map`-suffixed parameters.

use lattice_bindgen::extract_witified_map;
use lattice_bindgen::process_fn_arg;
use lattice_bindgen::render_type;
use lattice_bindgen::type_eq;
use lattice_bindgen::Param;
use lattice_bindgen::ProviderBindgenConfig;
use lattice_bindgen::WitFunction;
use lattice_bindgen::WitFunctionLatticeTranslationStrategy;
use lattice_bindgen::WitType;

fn test_config() -> ProviderBindgenConfig {
    ProviderBindgenConfig {
        impl_struct: "None".into(),
        contract: "wasmcloud:test".into(),
        wit_ns: Some("test".into()),
        wit_pkg: Some("foo".into()),
        exposed_interface_allow_list: Vec::new(),
        exposed_interface_deny_list: Vec::new(),
        import_fn_lattice_translation_strategy: Default::default(),
        export_fn_lattice_translation_strategy: Default::default(),
        replace_witified_maps: true,
    }
}

fn string_pair_list() -> WitType {
    WitType::List(Box::new(WitType::Tuple(vec![WitType::Str, WitType::Str])))
}

/// Token trees that we expect to parse into WIT-ified maps should parse
#[test]
fn parse_witified_map_type() {
    let r = extract_witified_map(&string_pair_list());
    assert!(
        r.is_some(),
        "failed to parse WIT-ified map type Vec<(String, String)>"
    );
}

/// Ensure WIT-ified maps parse correctly in functions
#[test]
fn parse_witified_map_in_fn() {
    let bindgen_cfg = test_config();
    let trait_fn = WitFunction {
        name: "baz".into(),
        params: vec![Param {
            name: "test_map".into(),
            ty: string_pair_list(),
        }],
        ret: None,
    };
    let (wit_iface_name, lm) =
        WitFunctionLatticeTranslationStrategy::translate_export_fn_via_bundled_args(
            &bindgen_cfg,
            "TestFoo".into(),
            "Foo".into(),
            trait_fn,
        )
        .expect("failed to translate export fn");

    assert_eq!(wit_iface_name, "TestFoo");
    let envelope_name = lm
        .envelope_type_name
        .as_ref()
        .expect("failed to get type name");
    assert_eq!(envelope_name, "TestFooBazInvocation");
    let struct_members = lm.struct_members.expect("struct members missing");
    assert_eq!(struct_members.len(), 1);
    assert_eq!(struct_members[0].name, "test");
    assert_eq!(
        render_type(&struct_members[0].ty),
        "std::collections::HashMap<String, String>",
        "struct members converted type is incorrect",
    );
}

#[test]
fn map_suffix_with_map_shape_is_rewritten() {
    let arg = Param {
        name: "foo_map".into(),
        ty: WitType::List(Box::new(WitType::Tuple(vec![WitType::U32, WitType::U32]))),
    };
    let r = process_fn_arg(arg);
    assert_eq!(r.name, "foo");
    assert!(type_eq(
        &r.ty,
        &WitType::MapOf(Box::new(WitType::U32), Box::new(WitType::U32)),
    ));
}

#[test]
fn map_suffix_without_map_shape_is_untouched() {
    let arg = Param {
        name: "foo_map".into(),
        ty: WitType::List(Box::new(WitType::Str)),
    };
    let r = process_fn_arg(arg);
    assert_eq!(r.name, "foo_map");
    assert!(type_eq(&r.ty, &WitType::List(Box::new(WitType::Str))));
}

#[test]
fn unequal_tuple_members_are_no_map() {
    let ty = WitType::List(Box::new(WitType::Tuple(vec![WitType::Str, WitType::U32])));
    assert!(extract_witified_map(&ty).is_none());
    let arg = Param {
        name: "foo_map".into(),
        ty,
    };
    let r = process_fn_arg(arg);
    assert_eq!(r.name, "foo_map");
}

#[test]
fn plain_name_is_untouched_even_with_map_shape() {
    let arg = Param {
        name: "entries".into(),
        ty: string_pair_list(),
    };
    let r = process_fn_arg(arg);
    assert_eq!(r.name, "entries");
    assert!(type_eq(&r.ty, &string_pair_list()));
}
