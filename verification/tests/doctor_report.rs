use cargo_fastdev::doctor::{build_doctor_output, DoctorOutput, ToolchainStatus};

#[test]
fn test_doctor_output_json() {
    let output = DoctorOutput {
        toolchain: ToolchainStatus { sccache: true, mold: false, clang: true },
        suggestions: vec!["Install mold".to_string()],
    };

    let json = output.to_json();
    assert!(json.contains("\"sccache\":true"));
    assert!(json.contains("\"mold\":false"));
}

#[test]
fn test_doctor_output_json_exact() {
    let output = DoctorOutput {
        toolchain: ToolchainStatus { sccache: true, mold: false, clang: true },
        suggestions: vec!["Install mold".to_string()],
    };

    assert_eq!(
        output.to_json(),
        "{\"toolchain\":{\"sccache\":true,\"mold\":false,\"clang\":true},\"suggestions\":[\"Install mold\"]}"
    );
}

#[test]
fn test_doctor_json_escapes_special_characters() {
    let output = DoctorOutput {
        toolchain: ToolchainStatus { sccache: true, mold: true, clang: true },
        suggestions: vec!["say \"hi\"\\\n".to_string()],
    };

    assert_eq!(
        output.to_json(),
        "{\"toolchain\":{\"sccache\":true,\"mold\":true,\"clang\":true},\"suggestions\":[\"say \\\"hi\\\"\\\\\\n\"]}"
    );
}

#[test]
fn test_doctor_json_control_character_escape() {
    let output = DoctorOutput {
        toolchain: ToolchainStatus { sccache: true, mold: true, clang: true },
        suggestions: vec!["a\u{1}b\u{1f}c".to_string()],
    };

    assert_eq!(
        output.to_json(),
        "{\"toolchain\":{\"sccache\":true,\"mold\":true,\"clang\":true},\"suggestions\":[\"a\\u0001b\\u001fc\"]}"
    );
}

#[test]
fn test_doctor_json_all_missing() {
    // No accelerators installed: the array carries all three suggestions,
    // comma-separated, in the fixed order.
    let output = build_doctor_output(ToolchainStatus { sccache: false, mold: false, clang: false });
    assert_eq!(
        output.to_json(),
        "{\"toolchain\":{\"sccache\":false,\"mold\":false,\"clang\":false},\"suggestions\":[\"Install sccache for faster incremental builds: https://github.com/mozilla/sccache\",\"Consider using mold linker for faster linking: https://github.com/rui314/mold\",\"Clang can provide better diagnostics than GCC\"]}"
    );
}

#[test]
fn test_suggestions_all_missing_fixed_order() {
    // No accelerators installed: three suggestions, in the fixed order
    // cache, linker, compiler.
    let output = build_doctor_output(ToolchainStatus { sccache: false, mold: false, clang: false });
    assert_eq!(output.suggestions.len(), 3);
    assert_eq!(
        output.suggestions[0],
        "Install sccache for faster incremental builds: https://github.com/mozilla/sccache"
    );
    assert_eq!(
        output.suggestions[1],
        "Consider using mold linker for faster linking: https://github.com/rui314/mold"
    );
    assert_eq!(output.suggestions[2], "Clang can provide better diagnostics than GCC");
}

#[test]
fn test_suggestions_none_when_all_present() {
    let output = build_doctor_output(ToolchainStatus { sccache: true, mold: true, clang: true });
    assert_eq!(output.suggestions.len(), 0);
}

#[test]
fn test_render_text_without_suggestions() {
    let output = build_doctor_output(ToolchainStatus { sccache: true, mold: true, clang: true });
    let text = output.render_text();
    assert_eq!(text, "Toolchain Status:\n  sccache: ✓\n  mold: ✓\n  clang: ✓");
    assert!(!text.contains("Suggestions:"));
}

#[test]
fn test_render_text_with_suggestions() {
    let output = build_doctor_output(ToolchainStatus { sccache: true, mold: false, clang: true });
    let text = output.render_text();
    assert_eq!(
        text,
        "Toolchain Status:\n  sccache: ✓\n  mold: ✗\n  clang: ✓\n\nSuggestions:\n  - Consider using mold linker for faster linking: https://github.com/rui314/mold"
    );
}
