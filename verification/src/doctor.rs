//! Toolchain diagnosis: the status snapshot, the derived suggestions, and the
//! two renderings of the report.
//!
//! The machine-readable rendering is one JSON object with the stable field
//! names `toolchain`, `sccache`, `mold`, `clang` and `suggestions`; the
//! human-readable rendering shows a glyph per tool and a `Suggestions:`
//! section only when something is missing. Both renderings are pinned exactly
//! by spec functions.

use vstd::prelude::*;
use crate::errors::digit_char;
use crate::errors::push_char;

verus! {

/// Presence of the three optional build accelerators: a compilation cache, a
/// fast linker, and an alternate compiler.
#[derive(Clone, Copy, Debug, PartialEq, Eq, Structural)]
pub struct ToolchainStatus {
    pub sccache: bool,
    pub mold: bool,
    pub clang: bool,
}

/// A doctor report: a toolchain snapshot and the derived suggestions, one per
/// missing optional tool, in the fixed order cache, linker, compiler.
#[derive(Clone, Debug)]
pub struct DoctorOutput {
    pub toolchain: ToolchainStatus,
    pub suggestions: Vec<String>,
}

/// The suggestion for a missing compilation cache.
pub open spec fn sccache_suggestion() -> Seq<char> {
    "Install sccache for faster incremental builds: https://github.com/mozilla/sccache"@
}

/// The suggestion for a missing fast linker.
pub open spec fn mold_suggestion() -> Seq<char> {
    "Consider using mold linker for faster linking: https://github.com/rui314/mold"@
}

/// The suggestion for a missing alternate compiler.
pub open spec fn clang_suggestion() -> Seq<char> {
    "Clang can provide better diagnostics than GCC"@
}

/// The suggestions derived from a toolchain snapshot: one fixed string per
/// missing tool, in the fixed order cache, linker, compiler.
pub open spec fn suggestions_spec(t: ToolchainStatus) -> Seq<Seq<char>> {
    (if !t.sccache {
        seq![sccache_suggestion()]
    } else {
        Seq::<Seq<char>>::empty()
    }) + (if !t.mold {
        seq![mold_suggestion()]
    } else {
        Seq::<Seq<char>>::empty()
    }) + (if !t.clang {
        seq![clang_suggestion()]
    } else {
        Seq::<Seq<char>>::empty()
    })
}

/// Builds the doctor report for a toolchain snapshot. Never fails; the
/// suggestion list is pinned by [`suggestions_spec`].
pub fn build_doctor_output(toolchain: ToolchainStatus) -> (out: DoctorOutput)
    ensures
        out.toolchain == toolchain,
        out.suggestions.deep_view() == suggestions_spec(toolchain),
{
    let mut suggestions: Vec<String> = Vec::new();
    if !toolchain.sccache {
        suggestions.push(
            String::from_str(
                "Install sccache for faster incremental builds: https://github.com/mozilla/sccache",
            ),
        );
    }
    if !toolchain.mold {
        suggestions.push(
            String::from_str(
                "Consider using mold linker for faster linking: https://github.com/rui314/mold",
            ),
        );
    }
    if !toolchain.clang {
        suggestions.push(String::from_str("Clang can provide better diagnostics than GCC"));
    }
    proof {
        assert(suggestions.deep_view() =~~= suggestions_spec(toolchain));
    }
    DoctorOutput { toolchain, suggestions }
}

/// `true` or `false`.
pub open spec fn json_bool(b: bool) -> Seq<char> {
    if b {
        "true"@
    } else {
        "false"@
    }
}

/// The character of a single lowercase hexadecimal digit.
pub open spec fn hex_char(d: nat) -> char
    recommends
        d < 16,
{
    if d < 10 {
        digit_char(d)
    } else if d == 10 {
        'a'
    } else if d == 11 {
        'b'
    } else if d == 12 {
        'c'
    } else if d == 13 {
        'd'
    } else if d == 14 {
        'e'
    } else {
        'f'
    }
}

/// The JSON escape of one character: the quote, the backslash and control
/// characters are escaped, the common control characters by their short
/// forms; every other character stands for itself.
pub open spec fn json_escaped_char(c: char) -> Seq<char> {
    if c == '"' {
        seq!['\\', '"']
    } else if c == '\\' {
        seq!['\\', '\\']
    } else if c == '\u{8}' {
        seq!['\\', 'b']
    } else if c == '\u{c}' {
        seq!['\\', 'f']
    } else if c == '\n' {
        seq!['\\', 'n']
    } else if c == '\r' {
        seq!['\\', 'r']
    } else if c == '\t' {
        seq!['\\', 't']
    } else if (c as u32) < 32 {
        seq!['\\', 'u', '0', '0', hex_char((c as u32 / 16) as nat), hex_char((c as u32 % 16) as nat)]
    } else {
        seq![c]
    }
}

/// The JSON escape of a whole string.
pub open spec fn json_escaped(s: Seq<char>) -> Seq<char>
    decreases s.len(),
{
    if s.len() == 0 {
        Seq::<char>::empty()
    } else {
        json_escaped_char(s[0]) + json_escaped(s.drop_first())
    }
}

/// A JSON string: the escaped characters between quotes.
pub open spec fn json_string(s: Seq<char>) -> Seq<char> {
    seq!['"'] + json_escaped(s) + seq!['"']
}

/// The body of a JSON array of strings: the strings, comma-separated.
pub open spec fn json_string_items(ss: Seq<Seq<char>>) -> Seq<char>
    decreases ss.len(),
{
    if ss.len() == 0 {
        Seq::<char>::empty()
    } else if ss.len() == 1 {
        json_string(ss[0])
    } else {
        json_string(ss[0]) + seq![','] + json_string_items(ss.drop_first())
    }
}

/// A JSON array of strings.
pub open spec fn json_string_list(ss: Seq<Seq<char>>) -> Seq<char> {
    seq!['['] + json_string_items(ss) + seq![']']
}

/// The `toolchain` object of the report, with its stable field names.
pub open spec fn toolchain_json(t: ToolchainStatus) -> Seq<char> {
    "{\"sccache\":"@ + json_bool(t.sccache) + ",\"mold\":"@ + json_bool(t.mold) + ",\"clang\":"@
        + json_bool(t.clang) + "}"@
}

/// The whole report as one JSON object, with its stable field names.
pub open spec fn doctor_json(t: ToolchainStatus, suggestions: Seq<Seq<char>>) -> Seq<char> {
    "{\"toolchain\":"@ + toolchain_json(t) + ",\"suggestions\":"@ + json_string_list(suggestions)
        + "}"@
}

proof fn lemma_json_escaped_push(s: Seq<char>, c: char)
    ensures
        json_escaped(s.push(c)) == json_escaped(s) + json_escaped_char(c),
    decreases s.len(),
{
    if s.len() == 0 {
        assert(s.push(c)[0] == c);
        assert(s.push(c).drop_first() =~= Seq::<char>::empty());
        assert(json_escaped(Seq::<char>::empty()) == Seq::<char>::empty());
        assert(json_escaped(s.push(c)) == json_escaped_char(c) + Seq::<char>::empty());
        assert(json_escaped_char(c) + Seq::<char>::empty() =~= Seq::<char>::empty()
            + json_escaped_char(c));
    } else {
        lemma_json_escaped_push(s.drop_first(), c);
        assert(s.push(c).drop_first() =~= s.drop_first().push(c));
        assert(s.push(c)[0] == s[0]);
        assert((json_escaped_char(s[0]) + (json_escaped(s.drop_first()) + json_escaped_char(c)))
            =~= ((json_escaped_char(s[0]) + json_escaped(s.drop_first())) + json_escaped_char(c)));
    }
}

proof fn lemma_json_items_push(ss: Seq<Seq<char>>, item: Seq<char>)
    ensures
        json_string_items(ss.push(item)) == if ss.len() == 0 {
            json_string(item)
        } else {
            json_string_items(ss) + seq![','] + json_string(item)
        },
    decreases ss.len(),
{
    let pushed = ss.push(item);
    if ss.len() == 0 {
        assert(pushed.len() == 1);
        assert(pushed[0] == item);
    } else if ss.len() == 1 {
        assert(pushed.drop_first() =~= seq![item]);
        assert(json_string_items(seq![item]) == json_string(seq![item][0]));
        assert(seq![item][0] == item);
        assert(json_string_items(pushed) == json_string(pushed[0]) + seq![','] + json_string(item));
        assert(pushed[0] == ss[0]);
    } else {
        lemma_json_items_push(ss.drop_first(), item);
        assert(pushed.drop_first() =~= ss.drop_first().push(item));
        assert(json_string_items(pushed) == json_string(ss[0]) + seq![','] + json_string_items(
            ss.drop_first().push(item),
        ));
        assert((json_string(ss[0]) + seq![','] + (json_string_items(ss.drop_first()) + seq![',']
            + json_string(item))) =~= ((json_string(ss[0]) + seq![','] + json_string_items(
            ss.drop_first(),
        )) + seq![','] + json_string(item)));
    }
}

/// Executable table for [`hex_char`].
fn hex_of(d: u8) -> (c: char)
    requires
        d < 16,
    ensures
        c == hex_char(d as nat),
{
    match d {
        0 => '0',
        1 => '1',
        2 => '2',
        3 => '3',
        4 => '4',
        5 => '5',
        6 => '6',
        7 => '7',
        8 => '8',
        9 => '9',
        10 => 'a',
        11 => 'b',
        12 => 'c',
        13 => 'd',
        14 => 'e',
        _ => 'f',
    }
}

/// Appends `true` or `false`.
fn append_json_bool(out: &mut String, b: bool)
    ensures
        final(out)@ == old(out)@ + json_bool(b),
{
    if b {
        out.append("true");
    } else {
        out.append("false");
    }
}

/// Appends the JSON escape of one character.
fn append_json_escaped_char(out: &mut String, c: char)
    ensures
        final(out)@ == old(out)@ + json_escaped_char(c),
{
    if c == '"' {
        push_char(out, '\\');
        push_char(out, '"');
        proof {
            assert((old(out)@ + seq!['\\']) + seq!['"'] =~= old(out)@ + json_escaped_char(c));
        }
    } else if c == '\\' {
        push_char(out, '\\');
        push_char(out, '\\');
        proof {
            assert((old(out)@ + seq!['\\']) + seq!['\\'] =~= old(out)@ + json_escaped_char(c));
        }
    } else if c == '\u{8}' {
        push_char(out, '\\');
        push_char(out, 'b');
        proof {
            assert((old(out)@ + seq!['\\']) + seq!['b'] =~= old(out)@ + json_escaped_char(c));
        }
    } else if c == '\u{c}' {
        push_char(out, '\\');
        push_char(out, 'f');
        proof {
            assert((old(out)@ + seq!['\\']) + seq!['f'] =~= old(out)@ + json_escaped_char(c));
        }
    } else if c == '\n' {
        push_char(out, '\\');
        push_char(out, 'n');
        proof {
            assert((old(out)@ + seq!['\\']) + seq!['n'] =~= old(out)@ + json_escaped_char(c));
        }
    } else if c == '\r' {
        push_char(out, '\\');
        push_char(out, 'r');
        proof {
            assert((old(out)@ + seq!['\\']) + seq!['r'] =~= old(out)@ + json_escaped_char(c));
        }
    } else if c == '\t' {
        push_char(out, '\\');
        push_char(out, 't');
        proof {
            assert((old(out)@ + seq!['\\']) + seq!['t'] =~= old(out)@ + json_escaped_char(c));
        }
    } else if (c as u32) < 32 {
        let v = c as u32;
        push_char(out, '\\');
        push_char(out, 'u');
        push_char(out, '0');
        push_char(out, '0');
        push_char(out, hex_of((v / 16) as u8));
        push_char(out, hex_of((v % 16) as u8));
        proof {
            assert((((((old(out)@ + seq!['\\']) + seq!['u']) + seq!['0']) + seq!['0']) + seq![
                hex_char((c as u32 / 16) as nat),
            ]) + seq![hex_char((c as u32 % 16) as nat)] =~= old(out)@ + json_escaped_char(c));
        }
    } else {
        push_char(out, c);
    }
}

/// Appends the JSON string rendering of `s`.
fn append_json_string(out: &mut String, s: &str)
    ensures
        final(out)@ == old(out)@ + json_string(s@),
{
    push_char(out, '"');
    let n = s.unicode_len();
    let mut i: usize = 0;
    while i < n
        invariant
            n == s@.len(),
            i <= n,
            out@ == old(out)@ + seq!['"'] + json_escaped(s@.take(i as int)),
        decreases n - i,
    {
        let c = s.get_char(i);
        append_json_escaped_char(out, c);
        proof {
            lemma_json_escaped_push(s@.take(i as int), c);
            assert(s@.take(i as int).push(c) =~= s@.take(i as int + 1));
            assert(((old(out)@ + seq!['"'] + json_escaped(s@.take(i as int)))
                + json_escaped_char(c)) =~= old(out)@ + seq!['"'] + json_escaped(
                s@.take(i as int + 1),
            ));
        }
        i += 1;
    }
    push_char(out, '"');
    proof {
        assert(s@.take(n as int) =~= s@);
        assert(((old(out)@ + seq!['"'] + json_escaped(s@)) + seq!['"']) =~= old(out)@ + json_string(
            s@,
        ));
    }
}

/// Appends the JSON array of the given strings.
fn append_json_string_list(out: &mut String, items: &Vec<String>)
    ensures
        final(out)@ == old(out)@ + json_string_list(items.deep_view()),
{
    push_char(out, '[');
    let mut i: usize = 0;
    while i < items.len()
        invariant
            i <= items.len(),
            out@ == old(out)@ + seq!['['] + json_string_items(items.deep_view().take(i as int)),
        decreases items.len() - i,
    {
        if i > 0 {
            push_char(out, ',');
        }
        append_json_string(out, items[i].as_str());
        proof {
            let prefix = items.deep_view().take(i as int);
            let item = items.deep_view()[i as int];
            lemma_json_items_push(prefix, item);
            assert(prefix.push(item) =~= items.deep_view().take(i as int + 1));
            if i > 0 {
                assert((((old(out)@ + seq!['['] + json_string_items(prefix)) + seq![','])
                    + json_string(item)) =~= old(out)@ + seq!['['] + json_string_items(
                    items.deep_view().take(i as int + 1),
                ));
            } else {
                assert(((old(out)@ + seq!['['] + json_string_items(prefix)) + json_string(item))
                    =~= old(out)@ + seq!['['] + json_string_items(
                    items.deep_view().take(i as int + 1),
                ));
            }
        }
        i += 1;
    }
    push_char(out, ']');
    proof {
        assert(items.deep_view().take(items.len() as int) =~= items.deep_view());
        assert(((old(out)@ + seq!['['] + json_string_items(items.deep_view())) + seq![']']) =~= old(
            out,
        )@ + json_string_list(items.deep_view()));
    }
}

/// The glyph that marks a present or missing tool in the human-readable
/// rendering.
pub open spec fn status_glyph(present: bool) -> Seq<char> {
    if present {
        "✓"@
    } else {
        "✗"@
    }
}

/// The suggestion lines of the human-readable rendering, each on its own line
/// behind a dash.
pub open spec fn suggestion_lines(ss: Seq<Seq<char>>) -> Seq<char>
    decreases ss.len(),
{
    if ss.len() == 0 {
        Seq::<char>::empty()
    } else {
        "\n  - "@ + ss[0] + suggestion_lines(ss.drop_first())
    }
}

/// The human-readable rendering: one status line per tool, and a
/// `Suggestions:` section only when something is missing.
pub open spec fn doctor_text(t: ToolchainStatus, suggestions: Seq<Seq<char>>) -> Seq<char> {
    "Toolchain Status:\n  sccache: "@ + status_glyph(t.sccache) + "\n  mold: "@ + status_glyph(
        t.mold,
    ) + "\n  clang: "@ + status_glyph(t.clang) + (if suggestions.len() == 0 {
        Seq::<char>::empty()
    } else {
        "\n\nSuggestions:"@ + suggestion_lines(suggestions)
    })
}

proof fn lemma_suggestion_lines_push(ss: Seq<Seq<char>>, item: Seq<char>)
    ensures
        suggestion_lines(ss.push(item)) == suggestion_lines(ss) + "\n  - "@ + item,
    decreases ss.len(),
{
    let pushed = ss.push(item);
    if ss.len() == 0 {
        assert(pushed[0] == item);
        assert(pushed.drop_first() =~= Seq::<Seq<char>>::empty());
        assert(suggestion_lines(Seq::<Seq<char>>::empty()) == Seq::<char>::empty());
        assert((("\n  - "@ + item) + Seq::<char>::empty()) =~= ((Seq::<char>::empty() + "\n  - "@)
            + item));
    } else {
        lemma_suggestion_lines_push(ss.drop_first(), item);
        assert(pushed.drop_first() =~= ss.drop_first().push(item));
        assert(pushed[0] == ss[0]);
        assert(("\n  - "@ + ss[0] + (suggestion_lines(ss.drop_first()) + "\n  - "@ + item)) =~= ((
        "\n  - "@ + ss[0] + suggestion_lines(ss.drop_first())) + "\n  - "@ + item));
    }
}

/// Appends the status glyph.
fn append_glyph(out: &mut String, present: bool)
    ensures
        final(out)@ == old(out)@ + status_glyph(present),
{
    if present {
        out.append("✓");
    } else {
        out.append("✗");
    }
}

impl DoctorOutput {
    /// The human-readable rendering, pinned by [`doctor_text`]: a status line
    /// with a glyph per tool, and a `Suggestions:` section only when the
    /// suggestion list is non-empty. The caller prints the text.
    pub fn render_text(&self) -> (r: String)
        ensures
            r@ == doctor_text(self.toolchain, self.suggestions.deep_view()),
    {
        let ghost t = self.toolchain;
        let mut out = String::from_str("Toolchain Status:\n  sccache: ");
        append_glyph(&mut out, self.toolchain.sccache);
        out.append("\n  mold: ");
        append_glyph(&mut out, self.toolchain.mold);
        out.append("\n  clang: ");
        append_glyph(&mut out, self.toolchain.clang);
        let ghost head = out@;
        if self.suggestions.len() > 0 {
            out.append("\n\nSuggestions:");
            proof {
                assert(self.suggestions.deep_view().take(0) =~= Seq::<Seq<char>>::empty());
                assert(suggestion_lines(Seq::<Seq<char>>::empty()) == Seq::<char>::empty());
                assert(((head + "\n\nSuggestions:"@) + Seq::<char>::empty()) =~= head
                    + "\n\nSuggestions:"@);
            }
            let mut i: usize = 0;
            while i < self.suggestions.len()
                invariant
                    i <= self.suggestions.len(),
                    out@ == head + "\n\nSuggestions:"@ + suggestion_lines(
                        self.suggestions.deep_view().take(i as int),
                    ),
                decreases self.suggestions.len() - i,
            {
                out.append("\n  - ");
                out.append(self.suggestions[i].as_str());
                proof {
                    let prefix = self.suggestions.deep_view().take(i as int);
                    let item = self.suggestions.deep_view()[i as int];
                    lemma_suggestion_lines_push(prefix, item);
                    assert(prefix.push(item) =~= self.suggestions.deep_view().take(i as int + 1));
                    assert((((head + "\n\nSuggestions:"@ + suggestion_lines(prefix)) + "\n  - "@)
                        + item) =~= head + "\n\nSuggestions:"@ + suggestion_lines(
                        self.suggestions.deep_view().take(i as int + 1),
                    ));
                }
                i += 1;
            }
            proof {
                assert(self.suggestions.deep_view().take(self.suggestions.len() as int)
                    =~= self.suggestions.deep_view());
                assert(out@ =~= doctor_text(t, self.suggestions.deep_view()));
            }
        } else {
            proof {
                assert(out@ =~= doctor_text(t, self.suggestions.deep_view()));
            }
        }
        out
    }

    /// The machine-readable rendering: one compact JSON object, pinned by
    /// [`doctor_json`], with the stable field names `toolchain`, `sccache`,
    /// `mold`, `clang` and `suggestions`.
    pub fn to_json(&self) -> (r: String)
        ensures
            r@ == doctor_json(self.toolchain, self.suggestions.deep_view()),
    {
        let mut out = String::from_str("{\"toolchain\":{\"sccache\":");
        append_json_bool(&mut out, self.toolchain.sccache);
        out.append(",\"mold\":");
        append_json_bool(&mut out, self.toolchain.mold);
        out.append(",\"clang\":");
        append_json_bool(&mut out, self.toolchain.clang);
        out.append("},\"suggestions\":");
        append_json_string_list(&mut out, &self.suggestions);
        out.append("}");
        proof {
            assert("{\"toolchain\":{\"sccache\":"@ =~= "{\"toolchain\":"@ + "{\"sccache\":"@) by {
                reveal_strlit("{\"toolchain\":{\"sccache\":");
                reveal_strlit("{\"toolchain\":");
                reveal_strlit("{\"sccache\":");
            }
            assert("},\"suggestions\":"@ =~= "}"@ + ",\"suggestions\":"@) by {
                reveal_strlit("},\"suggestions\":");
                reveal_strlit("}");
                reveal_strlit(",\"suggestions\":");
            }
            assert(out@ =~= doctor_json(self.toolchain, self.suggestions.deep_view()));
        }
        out
    }
}

} // verus!
