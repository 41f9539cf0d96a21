//! Rules of the frpc child-process lifecycle that do not touch the OS: which
//! leftover processes count as this application's orphaned frpc, and how its
//! output is cut into log lines.

use vstd::prelude::*;
use crate::text::{
    chars_eq_ignore_ascii_case, chars_of, content_end, eq_ignore_ascii_case, lemma_line_end_bounds, line_end, scan_line,
    str_eq, string_from_range,
};

verus! {

/// Whether a character separates path components (`/` or `\`).
pub open spec fn is_path_sep(c: char) -> bool {
    c == '/' || c == '\\'
}

/// The last path component: what follows the last `/` or `\` (the whole text
/// when there is none).
pub open spec fn base_name(s: Seq<char>) -> Seq<char>
    decreases s.len(),
{
    if s.len() == 0 {
        s
    } else if is_path_sep(s.last()) {
        seq![]
    } else {
        base_name(s.drop_last()).push(s.last())
    }
}

/// Whether a process image name is frpc: its last path component is `frpc` or
/// `frpc.exe`, ignoring ASCII case.
pub open spec fn frpc_image(name: Seq<char>) -> bool {
    eq_ignore_ascii_case(base_name(name), "frpc"@) || eq_ignore_ascii_case(base_name(name), "frpc.exe"@)
}

proof fn lemma_base_name_suffix(s: Seq<char>, k: int)
    requires
        0 <= k <= s.len(),
        k == 0 || is_path_sep(s[k - 1]),
        forall|j: int| k <= j < s.len() ==> !is_path_sep(#[trigger] s[j]),
    ensures
        base_name(s) == s.skip(k),
    decreases s.len(),
{
    if s.len() > k {
        lemma_base_name_suffix(s.drop_last(), k);
        assert(s.drop_last().skip(k).push(s.last()) == s.skip(k));
    } else if s.len() > 0 {
        assert(s.skip(k).len() == 0);
    }
}

/// Whether a process image name (from the process table, possibly a path,
/// `.exe` on Windows) is frpc.
pub fn is_frpc_image(name: &str) -> (r: bool)
    ensures
        r == frpc_image(name@),
{
    let cs = chars_of(name);
    let mut k: usize = cs.len();
    while k > 0 && cs[k - 1] != '/' && cs[k - 1] != '\\'
        invariant
            0 <= k <= cs@.len(),
            cs@ == name@,
            forall|j: int| k <= j < cs@.len() ==> !is_path_sep(#[trigger] cs@[j]),
        decreases k,
    {
        k = k - 1;
    }
    proof {
        lemma_base_name_suffix(cs@, k as int);
    }
    let mut base: Vec<char> = Vec::new();
    let mut i = k;
    while i < cs.len()
        invariant
            k <= i <= cs@.len(),
            base@ == cs@.subrange(k as int, i as int),
        decreases cs@.len() - i,
    {
        base.push(cs[i]);
        i = i + 1;
        assert(base@ == cs@.subrange(k as int, i as int));
    }
    assert(base@ == cs@.skip(k as int));
    chars_eq_ignore_ascii_case(base.as_slice(), chars_of("frpc").as_slice())
        || chars_eq_ignore_ascii_case(base.as_slice(), chars_of("frpc.exe").as_slice())
}

/// Whether some argument equals the configuration path.
pub open spec fn names_config(args: Seq<Seq<char>>, cfg: Seq<char>) -> bool {
    exists|i: int| 0 <= i < args.len() && #[trigger] args[i] == cfg
}

/// Whether a running process is an orphaned frpc of this application: its
/// image is frpc and one of its arguments is exactly this application's
/// `frpc.toml` path, so other frpc processes on the machine are left alone.
pub fn is_orphan_frpc(name: &str, cmd: &Vec<String>, cfg_path: &str) -> (r: bool)
    ensures
        r == (frpc_image(name@) && names_config(cmd@.map_values(|a: String| a@), cfg_path@)),
{
    if !is_frpc_image(name) {
        return false;
    }
    let ghost args = cmd@.map_values(|a: String| a@);
    let mut i: usize = 0;
    while i < cmd.len()
        invariant
            0 <= i <= cmd@.len(),
            args == cmd@.map_values(|a: String| a@),
            frpc_image(name@),
            forall|j: int| 0 <= j < i ==> #[trigger] args[j] != cfg_path@,
        decreases cmd@.len() - i,
    {
        if str_eq(cmd[i].as_str(), cfg_path) {
            assert(args[i as int] == cfg_path@);
            return true;
        }
        i = i + 1;
    }
    false
}

/// The non-empty lines of `s` from index `i` on, split as `str::lines` splits
/// (at `'\n'`, a `'\r'` right before it not included).
pub open spec fn output_lines_from(s: Seq<char>, i: int) -> Seq<Seq<char>>
    decreases s.len() + 1 - i,
{
    if i < 0 || i >= s.len() {
        seq![]
    } else {
        proof {
            lemma_line_end_bounds(s, i);
        }
        let e = line_end(s, i);
        let line = s.subrange(i, content_end(s, i, e));
        if line.len() > 0 {
            seq![line] + output_lines_from(s, e + 1)
        } else {
            output_lines_from(s, e + 1)
        }
    }
}

/// Cuts a chunk of frpc's output into the log lines it yields: its lines, in
/// order, without their line endings, empty ones left out.
pub fn output_lines(text: &str) -> (r: Vec<String>)
    ensures
        r@.map_values(|x: String| x@) == output_lines_from(text@, 0),
{
    let s = chars_of(text);
    let mut out: Vec<String> = Vec::new();
    let mut i: usize = 0;
    while i < s.len()
        invariant
            s@ == text@,
            0 <= i <= s@.len(),
            out@.map_values(|x: String| x@) + output_lines_from(s@, i as int) == output_lines_from(s@, 0),
        decreases s@.len() - i,
    {
        let e = scan_line(&s, i);
        proof {
            lemma_line_end_bounds(s@, i as int);
        }
        let c = if e < s.len() && e > i && s[e - 1] == '\r' {
            e - 1
        } else {
            e
        };
        assert(c == content_end(s@, i as int, e as int));
        let ghost before = out@.map_values(|x: String| x@);
        let ghost rest = output_lines_from(s@, e + 1);
        if c > i {
            let line = string_from_range(&s, i, c);
            out.push(line);
            assert(out@.map_values(|x: String| x@) =~= before.push(line@));
            assert(before.push(line@) + rest =~= before + (seq![line@] + rest));
        }
        if e >= s.len() {
            assert(output_lines_from(s@, e as int) =~= rest);
            i = e;
        } else {
            i = e + 1;
        }
    }
    assert(out@.map_values(|x: String| x@) + Seq::<Seq<char>>::empty() =~= out@.map_values(|x: String| x@));
    out
}

} // verus!
