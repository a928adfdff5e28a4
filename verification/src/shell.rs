//! Quoting of shell arguments and joining of paths and words.
//!
//! Every argument is wrapped in single quotes, so nothing inside it (a `$(..)`
//! substitution, a glob, a space) is interpreted by the shell; the rules below
//! only say how a single quote (and, for fish, a backslash) inside the argument
//! is written.

use vstd::prelude::*;

verus! {

/// The shells whose quoting rules the command builders know.
#[derive(Clone, Copy, Debug, PartialEq, Eq, Structural)]
pub enum ShellType {
    Bash,
    Zsh,
    Fish,
    PowerShell,
}

/// How the shell session was started, as far as the spelling of paths goes:
/// a native shell uses the host's separator, a shell inside WSL or MSYS2 uses `/`.
#[derive(Clone, Copy, Debug, PartialEq, Eq, Structural)]
pub enum ShellLaunchData {
    Native,
    Wsl,
    Msys2,
}

/// What one character of an argument becomes between single quotes.
pub open spec fn quoted_char(c: char, shell: ShellType) -> Seq<char> {
    match shell {
        ShellType::PowerShell => if c == '\'' {
            seq!['\'', '\'']
        } else {
            seq![c]
        },
        ShellType::Fish => if c == '\'' {
            seq!['\\', '\'']
        } else if c == '\\' {
            seq!['\\', '\\']
        } else {
            seq![c]
        },
        // POSIX shells: close the quote, emit a double-quoted `'`, reopen.
        _ => if c == '\'' {
            seq!['\'', '"', '\'', '"', '\'']
        } else {
            seq![c]
        },
    }
}

/// The characters of `s`, each written as `quoted_char` says.
pub open spec fn quoted_body(s: Seq<char>, shell: ShellType) -> Seq<char>
    decreases s.len(),
{
    if s.len() == 0 {
        Seq::empty()
    } else {
        quoted_body(s.drop_last(), shell) + quoted_char(s.last(), shell)
    }
}

/// `s` as one single-quoted word of `shell`.
pub open spec fn shell_quoted(s: Seq<char>, shell: ShellType) -> Seq<char> {
    seq!['\''] + quoted_body(s, shell) + seq!['\'']
}

/// The views of a sequence of strings.
pub open spec fn string_views(v: Seq<String>) -> Seq<Seq<char>> {
    v.map_values(|s: String| s@)
}

/// The words of `parts` with `sep` between each two neighbours.
pub open spec fn joined(parts: Seq<Seq<char>>, sep: Seq<char>) -> Seq<char>
    decreases parts.len(),
{
    if parts.len() == 0 {
        Seq::empty()
    } else if parts.len() == 1 {
        parts[0]
    } else {
        joined(parts.drop_last(), sep) + sep + parts.last()
    }
}

/// A path of one part is that part.
pub proof fn lemma_joined_path_single(part: Seq<char>, sep: char)
    ensures
        joined_path(seq![part], sep) == part,
{
    assert(seq![part].drop_last() =~= Seq::<Seq<char>>::empty());
    assert(joined_path(Seq::<Seq<char>>::empty(), sep) == Seq::<char>::empty());
    assert(Seq::<char>::empty() + part =~= part);
}

/// `prefix` followed by `part`, with a separator between them unless
/// `prefix` is empty or already ends with one.
pub open spec fn path_step(prefix: Seq<char>, part: Seq<char>, sep: char) -> Seq<char> {
    if prefix.len() == 0 || prefix.last() == sep {
        prefix + part
    } else {
        prefix + seq![sep] + part
    }
}

/// The path made of `parts`, each joined on as `path_step` says.
pub open spec fn joined_path(parts: Seq<Seq<char>>, sep: char) -> Seq<char>
    decreases parts.len(),
{
    if parts.len() == 0 {
        Seq::empty()
    } else {
        path_step(joined_path(parts.drop_last(), sep), parts.last(), sep)
    }
}

/// The separators a path for a shell launched as `launch` may use: `/` inside
/// WSL and MSYS2, the host's own separator (`/` or `\`) otherwise.
pub open spec fn separator_fits(launch: Option<&ShellLaunchData>, sep: char) -> bool {
    match launch {
        Some(l) => match *l {
            ShellLaunchData::Wsl | ShellLaunchData::Msys2 => sep == '/',
            ShellLaunchData::Native => sep == '/' || sep == '\\',
        },
        None => sep == '/' || sep == '\\',
    }
}

/// `String::push`: appends one character at the end of the string.
#[verifier::external_body]
pub(crate) fn push_char(s: &mut String, c: char)
    ensures
        final(s)@ == old(s)@.push(c),
{
    s.push(c);
}

/// `std::path::MAIN_SEPARATOR`: the path separator of the machine the library
/// runs on, which std documents as `/` on Unix and `\` on Windows.
#[verifier::external_body]
fn host_path_separator() -> (sep: char)
    ensures
        sep == '/' || sep == '\\',
{
    std::path::MAIN_SEPARATOR
}

/// Appends `c` written as it must be inside single quotes of `shell`.
fn push_quoted_char(out: &mut String, c: char, shell: ShellType)
    ensures
        final(out)@ == old(out)@ + quoted_char(c, shell),
{
    let ghost start = out@;
    match shell {
        ShellType::PowerShell => {
            if c == '\'' {
                push_char(out, '\'');
                push_char(out, '\'');
            } else {
                push_char(out, c);
            }
        },
        ShellType::Fish => {
            if c == '\'' {
                push_char(out, '\\');
                push_char(out, '\'');
            } else if c == '\\' {
                push_char(out, '\\');
                push_char(out, '\\');
            } else {
                push_char(out, c);
            }
        },
        _ => {
            if c == '\'' {
                push_char(out, '\'');
                push_char(out, '"');
                push_char(out, '\'');
                push_char(out, '"');
                push_char(out, '\'');
            } else {
                push_char(out, c);
            }
        },
    }
    assert(out@ =~= start + quoted_char(c, shell));
}

/// Quotes `arg` as one word of `shell`, so that the shell passes it on
/// literally.
pub fn shell_quote_arg(arg: &str, shell: ShellType) -> (quoted: String)
    ensures
        quoted@ == shell_quoted(arg@, shell),
{
    broadcast use vstd::string::group_string_axioms;
    let mut out = String::new();
    push_char(&mut out, '\'');
    for c in it: arg.chars()
        invariant
            it.seq() == arg@,
            out@ == seq!['\''] + quoted_body(arg@.subrange(0, it.index() as int), shell),
    {
        let ghost i = it.index();
        assert(arg@.subrange(0, i + 1).drop_last() =~= arg@.subrange(0, i as int));
        push_quoted_char(&mut out, c, shell);
        assert(out@ =~= seq!['\''] + quoted_body(arg@.subrange(0, i + 1), shell));
    }
    assert(arg@.subrange(0, arg@.len() as int) =~= arg@);
    push_char(&mut out, '\'');
    assert(out@ =~= shell_quoted(arg@, shell));
    out
}

/// Joins `parts` with `sep` between each two neighbours.
pub fn join_words(parts: &Vec<String>, sep: &str) -> (out: String)
    ensures
        out@ == joined(string_views(parts@), sep@),
{
    let mut out = String::new();
    let mut i: usize = 0;
    while i < parts.len()
        invariant
            i <= parts.len(),
            out@ == joined(string_views(parts@.subrange(0, i as int)), sep@),
        decreases parts.len() - i,
    {
        let ghost before = string_views(parts@.subrange(0, i as int));
        let ghost after = string_views(parts@.subrange(0, i + 1));
        assert(after.drop_last() =~= before);
        assert(after.last() == parts@[i as int]@);
        if i > 0 {
            out.append(sep);
        }
        out.append(parts[i].as_str());
        assert(out@ =~= joined(after, sep@));
        i += 1;
    }
    assert(parts@.subrange(0, parts.len() as int) =~= parts@);
    out
}

/// Appends `part` to the path in `out`, with separator `sep`.
pub fn push_path_part(out: &mut String, part: &str, sep: char)
    ensures
        final(out)@ == path_step(old(out)@, part@, sep),
{
    let n = out.unicode_len();
    if n > 0 && out.as_str().get_char(n - 1) != sep {
        push_char(out, sep);
    }
    out.append(part);
}

/// The separator of paths for a shell launched as `launch`.
pub fn path_separator(launch: Option<&ShellLaunchData>) -> (sep: char)
    ensures
        separator_fits(launch, sep),
{
    match launch {
        Some(ShellLaunchData::Wsl) | Some(ShellLaunchData::Msys2) => '/',
        _ => host_path_separator(),
    }
}

/// Joins `parts` into one path with separator `sep`.
pub fn join_paths_with(parts: &[&str], sep: char) -> (out: String)
    ensures
        out@ == joined_path(parts@.map_values(|p: &str| p@), sep),
{
    let ghost views = parts@.map_values(|p: &str| p@);
    let mut out = String::new();
    let mut i: usize = 0;
    while i < parts.len()
        invariant
            i <= parts.len(),
            views == parts@.map_values(|p: &str| p@),
            out@ == joined_path(views.subrange(0, i as int), sep),
        decreases parts.len() - i,
    {
        assert(views.subrange(0, i + 1).drop_last() =~= views.subrange(0, i as int));
        push_path_part(&mut out, parts[i], sep);
        i += 1;
    }
    assert(views.subrange(0, parts.len() as int) =~= views);
    out
}

/// Joins `parts` into one path, spelled for a shell launched as
/// `shell_launch_data` (the host's own spelling when it is not given).
pub fn join_paths(parts: &[&str], shell_launch_data: Option<&ShellLaunchData>) -> (out: String)
    ensures
        exists|sep: char|
            separator_fits(shell_launch_data, sep) && out@ == joined_path(
                parts@.map_values(|p: &str| p@),
                sep,
            ),
{
    let sep = path_separator(shell_launch_data);
    join_paths_with(parts, sep)
}

} // verus!
