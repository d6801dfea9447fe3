//! Name derivation: pascal- and snake-casing kebab-case WIT names, and
//! kebab-case validity.

use lattice_bindgen::is_valid_wit_name;
use lattice_bindgen::render_type;
use lattice_bindgen::WitType;
use lattice_bindgen::lattice_method_name;
use lattice_bindgen::pascal_case;
use lattice_bindgen::snake_case;

#[test]
fn pascal_casing_uppercases_segments() {
    assert_eq!(pascal_case("key-value"), "KeyValue");
    assert_eq!(pascal_case("readwrite"), "Readwrite");
    assert_eq!(pascal_case("get-all2"), "GetAll2");
}

#[test]
fn snake_casing_replaces_dashes() {
    assert_eq!(snake_case("get-all"), "get_all");
    assert_eq!(snake_case("publish"), "publish");
}

#[test]
fn method_name_is_ident_dot_function() {
    assert_eq!(
        lattice_method_name("WasiKeyvalueEventual", "get"),
        "WasiKeyvalueEventual.Get"
    );
}

#[test]
fn kebab_validity() {
    assert!(is_valid_wit_name("key-value"));
    assert!(is_valid_wit_name("a2"));
    assert!(!is_valid_wit_name(""));
    assert!(!is_valid_wit_name("-key"));
    assert!(!is_valid_wit_name("key-"));
    assert!(!is_valid_wit_name("key--value"));
    assert!(!is_valid_wit_name("Key"));
    assert!(!is_valid_wit_name("key-2"));
}

#[test]
fn nested_types_render() {
    let t = WitType::Optional(Box::new(WitType::List(Box::new(WitType::Tuple(vec![
        WitType::Str,
        WitType::U64,
    ])))));
    assert_eq!(render_type(&t), "Option<Vec<(String, u64)>>");
    let r = WitType::Fallible(None, Some(Box::new(WitType::Str)));
    assert_eq!(render_type(&r), "Result<(), String>");
}
