//! Parsing what the read-only Git commands print: one native path, NUL
//! separated path lists, `--name-status -z` records, and the history log.
use vstd::prelude::*;

verus! {

/// One path changed relative to the baseline.
pub struct ChangedFile {
    /// Git's status letter, such as `M`, `A`, `D`, or `?` for untracked.
    pub status: char,
    /// Repository-relative path, byte for byte.
    pub path: Vec<u8>,
    /// Where the change currently lives.
    pub origins: Vec<ChangeOrigin>,
}

/// Where a change currently lives.
#[derive(Clone, Copy, Debug, PartialEq, Eq, Structural)]
pub enum ChangeOrigin {
    Committed,
    Staged,
    Unstaged,
    Untracked,
}

/// One commit offered by the baseline picker.
pub struct GitCommit {
    /// Full object id used for Git commands.
    pub id: String,
    /// One-line subject shown beside the abbreviated id.
    pub subject: String,
}

/// A path printed on one line, with the line terminator (`\n`, or `\r\n`)
/// removed and nothing else.
pub open spec fn path_line(s: Seq<u8>) -> Seq<u8> {
    if s.len() > 0 && s.last() == 10u8 {
        let t = s.drop_last();
        if t.len() > 0 && t.last() == 13u8 {
            t.drop_last()
        } else {
            t
        }
    } else {
        s
    }
}

/// Decode one path followed by Git's line terminator.
pub fn path_from_line(output: Vec<u8>) -> (r: Vec<u8>)
    ensures
        r@ == path_line(output@),
{
    let mut output = output;
    let n = output.len();
    if n > 0 && output[n - 1] == 10u8 {
        output.pop();
        let m = output.len();
        if m > 0 && output[m - 1] == 13u8 {
            output.pop();
        }
    }
    output
}

/// The index of the first NUL byte of `s` at or after `i`, or `s.len()`.
pub open spec fn next_nul(s: Seq<u8>, i: int) -> int
    decreases s.len() - i,
{
    if i >= s.len() {
        s.len() as int
    } else if s[i] == 0u8 {
        i
    } else {
        next_nul(s, i + 1)
    }
}

/// The non-empty NUL-separated fields of `s` from `i` on.
pub open spec fn fields_from(s: Seq<u8>, i: int) -> Seq<Seq<u8>>
    decreases s.len() - i,
{
    if i >= s.len() || i < 0 {
        Seq::empty()
    } else {
        let j = next_nul(s, i);
        let head = s.subrange(i, j);
        let rest = if i <= j < s.len() {
            fields_from(s, j + 1)
        } else {
            Seq::empty()
        };
        if head.len() > 0 {
            seq![head] + rest
        } else {
            rest
        }
    }
}

/// The non-empty NUL-separated fields of `s`.
pub open spec fn nul_fields(s: Seq<u8>) -> Seq<Seq<u8>> {
    fields_from(s, 0)
}

proof fn lemma_next_nul(s: Seq<u8>, i: int)
    requires
        0 <= i <= s.len(),
    ensures
        i <= next_nul(s, i) <= s.len(),
        next_nul(s, i) < s.len() ==> s[next_nul(s, i)] == 0u8,
        forall|k: int| i <= k < next_nul(s, i) ==> s[k] != 0u8,
    decreases s.len() - i,
{
    if i < s.len() && s[i] != 0u8 {
        lemma_next_nul(s, i + 1);
    }
}

/// The end of the field starting at `i`.
fn field_end(s: &Vec<u8>, i: usize) -> (j: usize)
    requires
        i <= s@.len(),
    ensures
        j == next_nul(s@, i as int),
        i <= j <= s@.len(),
{
    let mut j = i;
    while j < s.len() && s[j] != 0u8
        invariant
            i <= j <= s@.len(),
            next_nul(s@, i as int) == next_nul(s@, j as int),
        decreases s.len() - j,
    {
        j = j + 1;
    }
    proof {
        lemma_next_nul(s@, j as int);
    }
    j
}

/// `s[i..j]`, copied.
fn copy_range(s: &Vec<u8>, i: usize, j: usize) -> (r: Vec<u8>)
    requires
        i <= j <= s@.len(),
    ensures
        r@ == s@.subrange(i as int, j as int),
{
    let mut out: Vec<u8> = Vec::new();
    let mut k = i;
    while k < j
        invariant
            i <= k <= j <= s@.len(),
            out@ == s@.subrange(i as int, k as int),
        decreases j - k,
    {
        out.push(s[k]);
        k = k + 1;
        assert(out@ =~= s@.subrange(i as int, k as int));
    }
    out
}

/// Split NUL-delimited output into its non-empty fields, without applying
/// any display quoting.
pub fn split_paths(output: &Vec<u8>) -> (r: Vec<Vec<u8>>)
    ensures
        r@.map_values(|p: Vec<u8>| p@) == nul_fields(output@),
{
    let mut out: Vec<Vec<u8>> = Vec::new();
    let mut i: usize = 0;
    while i < output.len()
        invariant
            i <= output@.len(),
            nul_fields(output@) == out@.map_values(|p: Vec<u8>| p@) + fields_from(output@, i as int),
        decreases output.len() - i,
    {
        let j = field_end(output, i);
        let ghost before = out@;
        if j > i {
            out.push(copy_range(output, i, j));
        }
        proof {
            assert(out@.map_values(|p: Vec<u8>| p@) =~= if j > i {
                before.map_values(|p: Vec<u8>| p@) + seq![output@.subrange(i as int, j as int)]
            } else {
                before.map_values(|p: Vec<u8>| p@)
            });
        }
        if j >= output.len() {
            i = output.len();
            proof {
                assert(fields_from(output@, j + 1) == Seq::<Seq<u8>>::empty());
            }
        } else {
            i = j + 1;
        }
    }
    assert(fields_from(output@, i as int) == Seq::<Seq<u8>>::empty());
    out
}

/// A `--name-status` record as plain values: status letter and path.
pub open spec fn name_status_of(fields: Seq<Seq<u8>>) -> Seq<(char, Seq<u8>)>
    decreases fields.len(),
{
    if fields.len() < 2 {
        Seq::empty()
    } else {
        let code = (fields[0][0]) as char;
        if code == 'R' || code == 'C' {
            if fields.len() > 2 {
                seq![(code, fields[2])] + name_status_of(fields.skip(3))
            } else {
                seq![(code, fields[1])]
            }
        } else {
            seq![(code, fields[1])] + name_status_of(fields.skip(2))
        }
    }
}

/// Parse Git's NUL-delimited name-status output, keeping rename and copy
/// destinations.
pub fn parse_name_status(output: &Vec<u8>) -> (r: Vec<ChangedFile>)
    ensures
        r@.map_values(|f: ChangedFile| (f.status, f.path@)) == name_status_of(nul_fields(output@)),
        forall|k: int| 0 <= k < r@.len() ==> #[trigger] r@[k].origins@.len() == 0,
{
    let fields = split_paths(output);
    let ghost fv = fields@.map_values(|p: Vec<u8>| p@);
    proof {
        assert forall|k: int| 0 <= k < fields@.len() implies #[trigger] fields@[k]@.len() > 0 by {
            lemma_fields_nonempty(output@, 0);
            assert(fv[k] == fields@[k]@);
        }
    }
    let mut out: Vec<ChangedFile> = Vec::new();
    let mut i: usize = 0;
    assert(fv.skip(0) =~= fv);
    while i < fields.len() && fields.len() - i > 1
        invariant
            i <= fields@.len(),
            fv == fields@.map_values(|p: Vec<u8>| p@),
            forall|k: int| 0 <= k < fields@.len() ==> #[trigger] fields@[k]@.len() > 0,
            name_status_of(fv) == out@.map_values(|f: ChangedFile| (f.status, f.path@))
                + name_status_of(fv.skip(i as int)),
            forall|k: int| 0 <= k < out@.len() ==> #[trigger] out@[k].origins@.len() == 0,
        decreases fields.len() - i,
    {
        let ghost rest = fv.skip(i as int);
        let ghost before = out@;
        let code = fields[i][0] as char;
        assert(rest[0] == fields@[i as int]@);
        assert(rest[1] == fields@[i + 1]@);
        if code == 'R' || code == 'C' {
            if i + 2 < fields.len() {
                out.push(ChangedFile { status: code, path: fields[i + 2].clone(), origins: Vec::new() });
                assert(rest[2] == fields@[i + 2]@);
                assert(rest.skip(3) =~= fv.skip(i + 3));
                i = i + 3;
            } else {
                out.push(ChangedFile { status: code, path: fields[i + 1].clone(), origins: Vec::new() });
                i = fields.len();
                assert(fv.skip(i as int).len() == 0);
            }
        } else {
            out.push(ChangedFile { status: code, path: fields[i + 1].clone(), origins: Vec::new() });
            assert(rest.skip(2) =~= fv.skip(i + 2));
            i = i + 2;
        }
        assert(out@.map_values(|f: ChangedFile| (f.status, f.path@)) =~= before.map_values(
            |f: ChangedFile| (f.status, f.path@),
        ).push((out@.last().status, out@.last().path@)));
    }
    out
}

/// Every field of [`fields_from`] is non-empty.
proof fn lemma_fields_nonempty(s: Seq<u8>, i: int)
    ensures
        forall|k: int| 0 <= k < fields_from(s, i).len() ==> #[trigger] fields_from(s, i)[k].len() > 0,
    decreases s.len() - i,
{
    if 0 <= i < s.len() {
        lemma_next_nul(s, i);
        let j = next_nul(s, i);
        let rest = if j < s.len() {
            fields_from(s, j + 1)
        } else {
            Seq::empty()
        };
        if j < s.len() {
            lemma_fields_nonempty(s, j + 1);
        }
        let head = s.subrange(i, j);
        if head.len() > 0 {
            assert forall|k: int| 0 <= k < fields_from(s, i).len() implies #[trigger] fields_from(s, i)[k].len() > 0 by {
                if k > 0 {
                    assert(fields_from(s, i)[k] == rest[k - 1]);
                }
            }
        }
    }
}

/// The index of the first `c` in `s` at or after `i`, or `s.len()`.
pub open spec fn next_char(s: Seq<char>, i: int, c: char) -> int
    decreases s.len() - i,
{
    if i >= s.len() {
        s.len() as int
    } else if s[i] == c {
        i
    } else {
        next_char(s, i + 1, c)
    }
}

pub proof fn lemma_next_char(s: Seq<char>, i: int, c: char)
    requires
        0 <= i <= s.len(),
    ensures
        i <= next_char(s, i, c) <= s.len(),
        next_char(s, i, c) < s.len() ==> s[next_char(s, i, c)] == c,
        forall|k: int| i <= k < next_char(s, i, c) ==> s[k] != c,
    decreases s.len() - i,
{
    if i < s.len() && s[i] != c {
        lemma_next_char(s, i + 1, c);
    }
}

/// A line without its `\r`, as `str::lines` yields it.
pub open spec fn strip_cr(line: Seq<char>) -> Seq<char> {
    if line.len() > 0 && line.last() == '\r' {
        line.drop_last()
    } else {
        line
    }
}

/// The lines of `s` from `i` on, as `str::lines` yields them: split at
/// `\n`, each without a trailing `\r`, and no empty line after a final `\n`.
pub open spec fn lines_from(s: Seq<char>, i: int) -> Seq<Seq<char>>
    decreases s.len() - i,
{
    if i >= s.len() || i < 0 {
        Seq::empty()
    } else {
        let j = next_char(s, i, '\n');
        let line = strip_cr(s.subrange(i, j));
        if i <= j < s.len() {
            seq![line] + lines_from(s, j + 1)
        } else {
            seq![line]
        }
    }
}

/// The index of `c` in `s` at or after `i`.
fn find_char(s: &Vec<char>, i: usize, c: char) -> (j: usize)
    requires
        i <= s@.len(),
    ensures
        j == next_char(s@, i as int, c),
        i <= j <= s@.len(),
{
    let mut j = i;
    while j < s.len() && s[j] != c
        invariant
            i <= j <= s@.len(),
            next_char(s@, i as int, c) == next_char(s@, j as int, c),
        decreases s.len() - j,
    {
        j = j + 1;
    }
    proof {
        lemma_next_char(s@, j as int, c);
    }
    j
}

/// `s[i..j]` as a string.
fn string_range(s: &Vec<char>, i: usize, j: usize) -> (r: String)
    requires
        i <= j <= s@.len(),
    ensures
        r@ == s@.subrange(i as int, j as int),
{
    let mut out: Vec<char> = Vec::new();
    let mut k = i;
    while k < j
        invariant
            i <= k <= j <= s@.len(),
            out@ == s@.subrange(i as int, k as int),
        decreases j - k,
    {
        out.push(s[k]);
        k = k + 1;
        assert(out@ =~= s@.subrange(i as int, k as int));
    }
    crate::text::string_of(out.as_slice())
}

/// History records as plain values: each line holding a NUL splits there
/// into a full id and a subject; other lines are skipped.
pub open spec fn commits_of(lines: Seq<Seq<char>>) -> Seq<(Seq<char>, Seq<char>)>
    decreases lines.len(),
{
    if lines.len() == 0 {
        Seq::empty()
    } else {
        let line = lines[0];
        let k = next_char(line, 0, '\0');
        let rest = commits_of(lines.skip(1));
        if k < line.len() {
            seq![(line.take(k), line.skip(k + 1))] + rest
        } else {
            rest
        }
    }
}

/// Parse the history command's full-id/NUL/subject records.
pub fn parse_commits(output: &Vec<char>) -> (r: Vec<GitCommit>)
    ensures
        r@.map_values(|c: GitCommit| (c.id@, c.subject@)) == commits_of(lines_from(output@, 0)),
{
    let mut out: Vec<GitCommit> = Vec::new();
    let mut i: usize = 0;
    proof {
        lemma_commits_split(Seq::empty(), lines_from(output@, 0));
    }
    while i < output.len()
        invariant
            i <= output@.len(),
            commits_of(lines_from(output@, 0)) == out@.map_values(
                |c: GitCommit| (c.id@, c.subject@),
            ) + commits_of(lines_from(output@, i as int)),
        decreases output.len() - i,
    {
        let j = find_char(output, i, '\n');
        let end = if j > i && output[j - 1] == '\r' {
            j - 1
        } else {
            j
        };
        let ghost line = strip_cr(output@.subrange(i as int, j as int));
        assert(line =~= output@.subrange(i as int, end as int));
        let k = find_char(output, i, '\0');
        let ghost before = out@;
        let ghost tail = if j < output@.len() {
            lines_from(output@, j + 1)
        } else {
            Seq::<Seq<char>>::empty()
        };
        assert(lines_from(output@, i as int) == seq![line] + tail);
        assert((seq![line] + tail).skip(1) =~= tail);
        proof {
            lemma_next_char(output@, i as int, '\0');
            lemma_next_char(line, 0, '\0');
            lemma_next_char_shift(output@, i as int, end as int, '\0');
        }
        if k < end {
            let id = string_range(output, i, k);
            let subject = string_range(output, k + 1, end);
            out.push(GitCommit { id, subject });
            proof {
                assert(next_char(line, 0, '\0') == k - i);
                assert(line.take(k - i) =~= output@.subrange(i as int, k as int));
                assert(line.skip(k - i + 1) =~= output@.subrange(k + 1, end as int));
                assert(out@.map_values(|c: GitCommit| (c.id@, c.subject@)) =~= before.map_values(
                    |c: GitCommit| (c.id@, c.subject@),
                ).push((line.take(k - i), line.skip(k - i + 1))));
            }
        } else {
            proof {
                assert(next_char(line, 0, '\0') == line.len());
            }
        }
        if j >= output.len() {
            i = output.len();
        } else {
            i = j + 1;
        }
    }
    out
}

/// Where the first `c` of `s[i..end]` lies, counted from `i`.
proof fn lemma_next_char_shift(s: Seq<char>, i: int, end: int, c: char)
    requires
        0 <= i <= end <= s.len(),
    ensures
        next_char(s.subrange(i, end), 0, c) == (if next_char(s, i, c) < end {
            next_char(s, i, c) - i
        } else {
            end - i
        }),
{
    let t = s.subrange(i, end);
    lemma_next_char(s, i, c);
    lemma_next_char(t, 0, c);
    let a = next_char(s, i, c);
    let b = next_char(t, 0, c);
    if a < end {
        if b < a - i {
            assert(t[b] == s[i + b]);
        } else if b > a - i {
            assert(t[a - i] == s[a]);
        }
    } else {
        if b < end - i {
            assert(t[b] == s[i + b]);
        }
    }
}

/// History parsing distributes over the list of lines.
proof fn lemma_commits_split(a: Seq<Seq<char>>, b: Seq<Seq<char>>)
    ensures
        commits_of(a + b) == commits_of(a) + commits_of(b),
    decreases a.len(),
{
    if a.len() == 0 {
        assert(a + b =~= b);
    } else {
        assert((a + b).skip(1) =~= a.skip(1) + b);
        lemma_commits_split(a.skip(1), b);
    }
}

} // verus!
