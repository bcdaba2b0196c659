use cargo_fastdev::config::{generate_config, init_action, write_decision, InitAction};
use cargo_fastdev::errors::FastdevError;

#[test]
fn test_generate_config_empty() {
    let config = generate_config(false, false);
    assert!(config.contains("opt-level = 1"));
    assert!(config.contains("debug = true"));
}

#[test]
fn test_generate_config_with_sccache() {
    let config = generate_config(true, false);
    assert!(config.contains("sccache"));
    assert!(config.contains("link-arg=-fuse-ld=lld"));
}

#[test]
fn test_generate_config_with_mold() {
    let config = generate_config(false, true);
    assert!(config.contains("mold"));
    assert!(config.contains("link-arg=-fuse-ld=mold"));
}

#[test]
fn test_generate_config_with_both() {
    let config = generate_config(true, true);
    assert!(config.contains("opt-level = 1"));
}

#[test]
fn test_generate_config_exact_text_no_flags() {
    let config = generate_config(false, false);
    let expected = "# Generated by cargo-fastdev\n\n[build]\n\n# Optimize dependencies\n[profile.dev.package.\"*\"]\nopt-level = 1\n\n# Keep debug info for workspace\n[profile.dev]\ndebug = true";
    assert_eq!(config, expected);
}

#[test]
fn test_generate_config_both_flags_mold_fragment_last() {
    // With both flags set, both fragments are emitted and the mold fragment
    // stands after the sccache one, so the later (mold) assignment wins for
    // the single-valued rustflags setting.
    let config = generate_config(true, true);
    let lld = config.find("link-arg=-fuse-ld=lld").expect("lld fragment present");
    let mold = config.find("link-arg=-fuse-ld=mold").expect("mold fragment present");
    assert!(lld < mold);
}

#[test]
fn test_all_flag_pairs_contain_optimization_lines() {
    // Whatever the two flags, the output carries the dependency-optimization
    // and debug-info lines.
    for use_sccache in [false, true] {
        for use_mold in [false, true] {
            let config = generate_config(use_sccache, use_mold);
            assert!(config.contains("opt-level = 1"));
            assert!(config.contains("debug = true"));
        }
    }
}

#[test]
fn test_init_action_print_priority() {
    // Printing always takes priority over writing, and is the default when
    // neither flag is given.
    assert_eq!(init_action(false, false), InitAction::PrintToStdout);
    assert_eq!(init_action(true, false), InitAction::PrintToStdout);
    assert_eq!(init_action(true, true), InitAction::PrintToStdout);
    assert_eq!(init_action(false, true), InitAction::WriteToFile);
}

#[test]
fn test_write_decision_never_overwrites() {
    assert!(write_decision(false).is_ok());
    let err = write_decision(true).unwrap_err();
    assert!(matches!(err, FastdevError::ConfigExists));
    assert_eq!(
        err.message(),
        "config.toml already exists. Use --print to see what would be written."
    );
}
