//! Assembling the formatter command line.

use lattice_bindgen::RustFmtCommand;
use lattice_bindgen::RustFmtError;

#[test]
fn default_command_formats_2018() {
    let cmd = RustFmtCommand::default();
    assert_eq!(cmd.program(), "rustfmt");
    let args = cmd
        .command_args(&vec!["src/lib.rs".to_string()])
        .expect("arguments");
    assert_eq!(
        args,
        vec![
            "--edition".to_string(),
            "2018".to_string(),
            "src/lib.rs".to_string(),
        ]
    );
}

#[test]
fn extra_arguments_come_before_sources() {
    let cmd = RustFmtCommand::new("rustfmt", "2021", vec!["--check"]);
    let args = cmd
        .command_args(&vec!["a.rs".to_string(), "b.rs".to_string()])
        .expect("arguments");
    assert_eq!(
        args,
        vec![
            "--edition".to_string(),
            "2021".to_string(),
            "--check".to_string(),
            "a.rs".to_string(),
            "b.rs".to_string(),
        ]
    );
}

#[test]
fn invalid_edition_is_refused() {
    let cmd = RustFmtCommand::new("rustfmt", "2024", Vec::new());
    match cmd.command_args(&Vec::new()) {
        Err(e @ RustFmtError::InvalidEdition { .. }) => {
            assert_eq!(e.message(), "invalid edition: 2024")
        },
        _ => panic!("expected an invalid edition error"),
    }
}

#[test]
fn ignored_packages_are_fixed() {
    assert!(lattice_bindgen::is_ignored_invocation_handler_pkg(
        "wasmcloud",
        "bus"
    ));
    assert!(lattice_bindgen::is_ignored_invocation_handler_pkg(
        "wasi", "io"
    ));
    assert!(!lattice_bindgen::is_ignored_invocation_handler_pkg(
        "wasmcloud",
        "messaging"
    ));
    assert!(!lattice_bindgen::is_ignored_invocation_handler_pkg(
        "wasi",
        "keyvalue"
    ));
}
