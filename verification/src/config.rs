//! Build-configuration text generation.
//!
//! The generated configuration is an ordered sequence of text lines: a fixed
//! header, optional fragments selected by two independent feature flags, and a
//! fixed footer that tunes dependency optimization and debug info. The text
//! itself is the lines joined by newlines.

use vstd::prelude::*;
use crate::errors::FastdevError;

verus! {

/// What the init subcommand does with the generated text.
#[derive(Clone, Copy, Debug, PartialEq, Eq, Structural)]
pub enum InitAction {
    /// Print the text to standard output; no file is touched.
    PrintToStdout,
    /// Create the configuration file with the text.
    WriteToFile,
}

/// The init policy: printing always takes priority over writing when
/// requested, and when neither is requested the default is to print. Only
/// `write` without `print` persists anything.
pub open spec fn init_action_spec(print: bool, write: bool) -> InitAction {
    if print || !write {
        InitAction::PrintToStdout
    } else {
        InitAction::WriteToFile
    }
}

/// Decides what the init subcommand does for the given pair of flags, exactly
/// as [`init_action_spec`] pins it.
pub fn init_action(print: bool, write: bool) -> (a: InitAction)
    ensures
        a == init_action_spec(print, write),
{
    if print || !write {
        InitAction::PrintToStdout
    } else {
        InitAction::WriteToFile
    }
}

/// Decides whether the configuration file may be created, given whether it
/// already exists: an existing file is never overwritten, and the conflict is
/// reported as an error.
pub fn write_decision(already_exists: bool) -> (r: Result<(), FastdevError>)
    ensures
        r is Ok <==> !already_exists,
        already_exists ==> (r matches Err(e) && e is ConfigExists),
{
    if already_exists {
        Err(FastdevError::ConfigExists)
    } else {
        Ok(())
    }
}

/// The fixed lines that open every generated configuration.
pub open spec fn header_lines() -> Seq<Seq<char>> {
    seq!["# Generated by cargo-fastdev"@, ""@, "[build]"@]
}

/// The fragment emitted when the compilation-cache flag is set.
pub open spec fn sccache_lines() -> Seq<Seq<char>> {
    seq![
        "# Use sccache for faster incremental builds"@,
        "rustflags = [\"-C\", \"link-arg=-fuse-ld=lld\"]"@,
    ]
}

/// The fragment emitted when the mold-linker flag is set.
pub open spec fn mold_lines() -> Seq<Seq<char>> {
    seq![
        "# Use mold linker for faster linking"@,
        "rustflags = [\"-C\", \"link-arg=-fuse-ld=mold\"]"@,
    ]
}

/// The fixed lines that close every generated configuration.
pub open spec fn footer_lines() -> Seq<Seq<char>> {
    seq![
        ""@,
        "# Optimize dependencies"@,
        "[profile.dev.package.\"*\"]"@,
        "opt-level = 1"@,
        ""@,
        "# Keep debug info for workspace"@,
        "[profile.dev]"@,
        "debug = true"@,
    ]
}

/// The full line sequence of the generated configuration, as a function of the
/// two feature flags. When both flags are set, both linker fragments are
/// emitted, the mold fragment after the sccache one; since `rustflags` is a
/// single-valued setting, the later (mold) assignment takes precedence.
pub open spec fn config_lines_spec(use_sccache: bool, use_mold: bool) -> Seq<Seq<char>> {
    header_lines() + (if use_sccache {
        sccache_lines()
    } else {
        Seq::<Seq<char>>::empty()
    }) + (if use_mold {
        mold_lines()
    } else {
        Seq::<Seq<char>>::empty()
    }) + footer_lines()
}

/// A sequence of lines joined by single newline characters, with no trailing
/// newline.
pub open spec fn join_lines(lines: Seq<Seq<char>>) -> Seq<char>
    decreases lines.len(),
{
    if lines.len() == 0 {
        Seq::<char>::empty()
    } else if lines.len() == 1 {
        lines[0]
    } else {
        lines[0] + seq!['\n'] + join_lines(lines.drop_first())
    }
}

/// The full generated configuration text.
pub open spec fn config_text_spec(use_sccache: bool, use_mold: bool) -> Seq<char> {
    join_lines(config_lines_spec(use_sccache, use_mold))
}

/// Appending a line to a non-empty line sequence appends a newline and the
/// line to the joined text.
proof fn lemma_join_push(lines: Seq<Seq<char>>, line: Seq<char>)
    ensures
        join_lines(lines.push(line)) == if lines.len() == 0 {
            line
        } else {
            join_lines(lines) + seq!['\n'] + line
        },
    decreases lines.len(),
{
    let pushed = lines.push(line);
    if lines.len() == 0 {
        assert(pushed.len() == 1);
        assert(join_lines(pushed) == pushed[0]);
        assert(pushed[0] == line);
    } else if lines.len() == 1 {
        assert(pushed.len() == 2);
        assert(pushed.drop_first() =~= seq![line]);
        assert(join_lines(pushed.drop_first()) == line);
        assert(join_lines(pushed) == pushed[0] + seq!['\n'] + line);
        assert(join_lines(lines) == lines[0]);
    } else {
        lemma_join_push(lines.drop_first(), line);
        assert(pushed.drop_first() =~= lines.drop_first().push(line));
        assert(join_lines(pushed) == pushed[0] + seq!['\n'] + join_lines(pushed.drop_first()));
        assert(join_lines(lines.drop_first().push(line)) == join_lines(lines.drop_first())
            + seq!['\n'] + line);
        assert((lines[0] + seq!['\n'] + (join_lines(lines.drop_first()) + seq!['\n'] + line)) =~= (
        lines[0] + seq!['\n'] + join_lines(lines.drop_first())) + seq!['\n'] + line);
    }
}

/// `needle` occurs contiguously somewhere in `hay`.
pub open spec fn is_substring_of(needle: Seq<char>, hay: Seq<char>) -> bool {
    exists|i: int|
        0 <= i && i + needle.len() <= hay.len() && #[trigger] hay.subrange(
            i,
            i + needle.len() as int,
        ) == needle
}

/// Every line of a line sequence occurs contiguously in the joined text.
pub proof fn lemma_line_in_join(lines: Seq<Seq<char>>, k: int)
    requires
        0 <= k < lines.len(),
    ensures
        is_substring_of(lines[k], join_lines(lines)),
    decreases lines.len(),
{
    let joined = join_lines(lines);
    let needle = lines[k];
    if lines.len() == 1 {
        assert(joined.subrange(0, 0 + needle.len() as int) =~= needle);
    } else if k == 0 {
        assert(joined.subrange(0, 0 + needle.len() as int) =~= needle);
    } else {
        let rest = lines.drop_first();
        let rest_joined = join_lines(rest);
        lemma_line_in_join(rest, k - 1);
        assert(rest[k - 1] == needle);
        let j = choose|j: int|
            0 <= j && j + needle.len() <= rest_joined.len() && #[trigger] rest_joined.subrange(
                j,
                j + needle.len() as int,
            ) == needle;
        let off = lines[0].len() as int + 1;
        assert(joined.subrange(off + j, (off + j) + needle.len() as int) =~= needle) by {
            assert forall|x: int| 0 <= x < needle.len() implies joined.subrange(
                off + j,
                (off + j) + needle.len() as int,
            )[x] == needle[x] by {
                assert(joined[off + j + x] == rest_joined[j + x]);
                assert(rest_joined.subrange(j, j + needle.len() as int)[x] == rest_joined[j + x]);
            }
        }
    }
}

/// Law: every generated configuration, whatever the two flags, contains the
/// dependency-optimization line `opt-level = 1` and the debug-info line
/// `debug = true`.
pub proof fn lemma_config_always_optimizes(use_sccache: bool, use_mold: bool)
    ensures
        is_substring_of("opt-level = 1"@, config_text_spec(use_sccache, use_mold)),
        is_substring_of("debug = true"@, config_text_spec(use_sccache, use_mold)),
{
    let lines = config_lines_spec(use_sccache, use_mold);
    let base: int = (if use_sccache {
        2int
    } else {
        0int
    }) + (if use_mold {
        2int
    } else {
        0int
    }) + 3;
    assert(lines[base + 3] == "opt-level = 1"@);
    assert(lines[base + 7] == "debug = true"@);
    lemma_line_in_join(lines, base + 3);
    lemma_line_in_join(lines, base + 7);
}

/// The lines of the generated configuration, in order.
pub fn config_lines(use_sccache: bool, use_mold: bool) -> (lines: Vec<String>)
    ensures
        lines.deep_view() == config_lines_spec(use_sccache, use_mold),
{
    let mut lines: Vec<String> = Vec::new();
    lines.push(String::from_str("# Generated by cargo-fastdev"));
    lines.push(String::from_str(""));
    lines.push(String::from_str("[build]"));
    if use_sccache {
        lines.push(String::from_str("# Use sccache for faster incremental builds"));
        lines.push(String::from_str("rustflags = [\"-C\", \"link-arg=-fuse-ld=lld\"]"));
    }
    if use_mold {
        lines.push(String::from_str("# Use mold linker for faster linking"));
        lines.push(String::from_str("rustflags = [\"-C\", \"link-arg=-fuse-ld=mold\"]"));
    }
    lines.push(String::from_str(""));
    lines.push(String::from_str("# Optimize dependencies"));
    lines.push(String::from_str("[profile.dev.package.\"*\"]"));
    lines.push(String::from_str("opt-level = 1"));
    lines.push(String::from_str(""));
    lines.push(String::from_str("# Keep debug info for workspace"));
    lines.push(String::from_str("[profile.dev]"));
    lines.push(String::from_str("debug = true"));
    proof {
        assert(lines.deep_view() =~~= config_lines_spec(use_sccache, use_mold));
    }
    lines
}

/// Joins lines with single newline characters, with no trailing newline.
fn join_with_newlines(lines: &Vec<String>) -> (text: String)
    ensures
        text@ == join_lines(lines.deep_view()),
{
    let mut text = String::new();
    let mut i: usize = 0;
    while i < lines.len()
        invariant
            i <= lines.len(),
            text@ == join_lines(lines.deep_view().take(i as int)),
        decreases lines.len() - i,
    {
        if i > 0 {
            text.append("\n");
        }
        text.append(lines[i].as_str());
        proof {
            reveal_strlit("\n");
            assert("\n"@ =~= seq!['\n']);
            let prefix = lines.deep_view().take(i as int);
            lemma_join_push(prefix, lines.deep_view()[i as int]);
            assert(prefix.push(lines.deep_view()[i as int]) =~= lines.deep_view().take(
                i as int + 1,
            ));
        }
        i += 1;
    }
    proof {
        assert(lines.deep_view().take(lines.len() as int) =~= lines.deep_view());
    }
    text
}

/// Generates the build-configuration text for the two feature flags: a header
/// comment, a `[build]` section with the selected linker fragments, a
/// dependency-optimization section, and a debug-info section, joined by
/// newlines. Pure and total: the result is pinned exactly by
/// [`config_text_spec`]. When both flags are set, both fragments appear and
/// the mold fragment stands last, so it wins for the single-valued
/// `rustflags` setting.
pub fn generate_config(use_sccache: bool, use_mold: bool) -> (text: String)
    ensures
        text@ == config_text_spec(use_sccache, use_mold),
{
    let lines = config_lines(use_sccache, use_mold);
    join_with_newlines(&lines)
}

} // verus!
