//! Platform executability predicates.
//!
//! Whether a candidate hook file counts as runnable is decided by one of
//! two mutually exclusive predicates, selected by the embedding at build
//! time for its target platform:
//!
//! - POSIX: an entry is executable iff any of the owner/group/other
//!   execute permission bits of its mode is set; an entry whose metadata
//!   cannot be read is treated as not executable (fail-safe, not fatal).
//! - Windows: an entry is executable iff its file name's extension,
//!   compared case-insensitively, is one of `exe`, `bat`, `cmd`, `ps1`;
//!   a name with no extension is optimistically treated as executable
//!   (it may be a script launched through an associated interpreter).
//!   This asymmetry with the POSIX rule is deliberate and preserved
//!   exactly.

use vstd::prelude::*;
use vstd::string::StrSliceExecFns;

verus! {

/// Returns whether a POSIX file mode grants execute permission to
/// anyone: owner, group, or other.  `mode` is `None` when the entry's
/// metadata could not be read, which counts as not executable.
pub fn is_executable_posix(mode: Option<u32>) -> (r: bool)
    ensures
        r == (mode matches Some(m) && m & 0o111 != 0),
{
    match mode {
        Some(m) => m & 0o111 != 0,
        None => false,
    }
}

/// The code point of `c` with an ASCII upper-case letter folded to its
/// lower-case counterpart; every other character is left as it is.
pub open spec fn lower_code(c: char) -> u32 {
    if 65 <= c as u32 && c as u32 <= 90 {
        (c as u32 + 32) as u32
    } else {
        c as u32
    }
}

/// Character sequences of equal length whose characters agree once
/// ASCII case is folded away.
pub open spec fn seq_eq_ignore_ascii_case(a: Seq<char>, b: Seq<char>) -> bool {
    a.len() == b.len() && forall|i: int| 0 <= i < a.len() ==> lower_code(a[i]) == lower_code(b[i])
}

/// The extension of a file name: the portion after the last `.`, or
/// `None` when the name contains no `.` past its first character (so a
/// leading-dot name such as a hidden configuration file has no
/// extension).
pub open spec fn extension_of(name: Seq<char>) -> Option<Seq<char>>
    decreases name.len(),
{
    if name.len() <= 1 {
        None
    } else if name.last() == '.' {
        Some(Seq::empty())
    } else {
        match extension_of(name.drop_last()) {
            Some(e) => Some(e.push(name.last())),
            None => None,
        }
    }
}

/// The Windows executability rule over a file name: no extension is
/// optimistically executable; otherwise the extension must be one of
/// the fixed allow-list, case-insensitively.
pub open spec fn windows_executable(name: Seq<char>) -> bool {
    match extension_of(name) {
        None => true,
        Some(ext) => {
            seq_eq_ignore_ascii_case(ext, "exe"@) || seq_eq_ignore_ascii_case(ext, "bat"@)
                || seq_eq_ignore_ascii_case(ext, "cmd"@) || seq_eq_ignore_ascii_case(ext, "ps1"@)
        },
    }
}

/// A name with no `.` past its first character has no extension.
proof fn lemma_extension_none(name: Seq<char>)
    requires
        forall|k: int| 1 <= k < name.len() ==> name[k] != '.',
    ensures
        extension_of(name) is None,
    decreases name.len(),
{
    if name.len() <= 1 {
    } else {
        assert(name.last() == name[name.len() - 1]);
        lemma_extension_none(name.drop_last());
    }
}

/// When the last `.` of a name stands at index `j >= 1`, the extension
/// is exactly the portion after it.
proof fn lemma_extension_after_last_dot(name: Seq<char>, j: int)
    requires
        1 <= j < name.len(),
        name[j] == '.',
        forall|k: int| j < k < name.len() ==> name[k] != '.',
    ensures
        extension_of(name) == Some(name.subrange(j + 1, name.len() as int)),
    decreases name.len(),
{
    if j == name.len() - 1 {
        assert(name.last() == '.');
        assert(name.subrange(j + 1, name.len() as int) =~= Seq::<char>::empty());
    } else {
        assert(name.last() != '.');
        lemma_extension_after_last_dot(name.drop_last(), j);
        let prev = name.drop_last().subrange(j + 1, name.len() - 1);
        assert(name.subrange(j + 1, name.len() as int) =~= prev.push(name.last()));
    }
}

/// Folds an ASCII upper-case letter to lower case, as a code point.
fn lower_code_exec(c: char) -> (r: u32)
    ensures
        r == lower_code(c),
{
    let x = c as u32;
    if 65 <= x && x <= 90 {
        x + 32
    } else {
        x
    }
}

/// Returns whether two strings agree character by character once ASCII
/// case is folded away.
pub fn eq_ignore_ascii_case(a: &str, b: &str) -> (r: bool)
    ensures
        r == seq_eq_ignore_ascii_case(a@, b@),
{
    let na = a.unicode_len();
    let nb = b.unicode_len();
    if na != nb {
        return false;
    }
    let mut i: usize = 0;
    while i < na
        invariant
            i <= na,
            na == a@.len(),
            na == b@.len(),
            forall|k: int| 0 <= k < i ==> lower_code(a@[k]) == lower_code(b@[k]),
        decreases na - i,
    {
        let ca = a.get_char(i);
        let cb = b.get_char(i);
        if lower_code_exec(ca) != lower_code_exec(cb) {
            return false;
        }
        i += 1;
    }
    true
}

/// Returns whether a file with the given name counts as executable
/// under the Windows rule: extension in the allow-list (ignoring case),
/// or no extension at all.
pub fn is_executable_windows(file_name: &str) -> (r: bool)
    ensures
        r == windows_executable(file_name@),
{
    let n = file_name.unicode_len();
    let mut i: usize = n;
    let mut dot: Option<usize> = None;
    while i > 0
        invariant
            i <= n,
            n == file_name@.len(),
            dot is None ==> forall|k: int| i <= k < n ==> file_name@[k] != '.',
            dot matches Some(j) ==> i <= j < n && file_name@[j as int] == '.' && forall|k: int|
                j < k < n ==> file_name@[k] != '.',
        decreases i,
    {
        if dot.is_none() {
            let c = file_name.get_char(i - 1);
            if c == '.' {
                dot = Some(i - 1);
            }
        }
        i -= 1;
    }
    match dot {
        None => {
            proof {
                lemma_extension_none(file_name@);
            }
            true
        },
        Some(j) => {
            if j == 0 {
                proof {
                    lemma_extension_none(file_name@);
                }
                true
            } else {
                let ext = file_name.substring_char(j + 1, n);
                proof {
                    lemma_extension_after_last_dot(file_name@, j as int);
                }
                eq_ignore_ascii_case(ext, "exe") || eq_ignore_ascii_case(ext, "bat")
                    || eq_ignore_ascii_case(ext, "cmd") || eq_ignore_ascii_case(ext, "ps1")
            }
        },
    }
}

} // verus!
