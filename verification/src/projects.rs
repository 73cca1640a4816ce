//! Project records and the reading of git status output.
//!
//! Running git and walking the filesystem happen outside; the text those
//! produce — porcelain status lines and ahead/behind counts — is parsed
//! and classified here.

use vstd::prelude::*;
use vstd::string::*;
use crate::text::{
    chars_vec, spec_lines, spec_split_char, split_lines, split_on_char, string_from_chars,
    string_views, tail_from, trim_of, trim_str,
};

verus! {

/// A registered project.
pub struct Project {
    pub id: String,
    pub name: String,
    pub path: String,
    pub project_type: String,
    pub description: Option<String>,
    pub git_remote: Option<String>,
    pub last_opened: i64,
    pub created_at: i64,
    pub tags: Vec<String>,
    pub settings: ProjectSettings,
}

/// Per-project settings; every field is optional.
pub struct ProjectSettings {
    pub default_branch: Option<String>,
    pub auto_commit: Option<bool>,
    pub watch_patterns: Option<Vec<String>>,
    pub ignore_patterns: Option<Vec<String>>,
}

impl Default for ProjectSettings {
    /// Settings with nothing set.
    fn default() -> (r: Self)
        ensures
            r.default_branch is None,
            r.auto_commit is None,
            r.watch_patterns is None,
            r.ignore_patterns is None,
    {
        ProjectSettings {
            default_branch: Option::None,
            auto_commit: Option::None,
            watch_patterns: Option::None,
            ignore_patterns: Option::None,
        }
    }
}

/// One node of a project's file tree.
pub struct ProjectFile {
    pub path: String,
    pub name: String,
    pub is_directory: bool,
    pub size: Option<u64>,
    pub modified_at: Option<i64>,
    pub children: Option<Vec<ProjectFile>>,
}

/// A project's git working-tree status.
pub struct GitStatus {
    pub branch: String,
    pub ahead: i32,
    pub behind: i32,
    pub staged: Vec<String>,
    pub modified: Vec<String>,
    pub untracked: Vec<String>,
}

/// The record for a freshly added project: opened and created now, with
/// no description, no tags and empty settings.
pub fn new_project(
    id: String,
    name: String,
    path: String,
    project_type: String,
    git_remote: Option<String>,
    now: i64,
) -> (p: Project)
    ensures
        p.id@ == id@,
        p.name@ == name@,
        p.path@ == path@,
        p.project_type@ == project_type@,
        p.description is None,
        p.git_remote == git_remote,
        p.last_opened == now,
        p.created_at == now,
        p.tags@.len() == 0,
        p.settings.default_branch is None,
        p.settings.auto_commit is None,
        p.settings.watch_patterns is None,
        p.settings.ignore_patterns is None,
{
    Project {
        id,
        name,
        path,
        project_type,
        description: Option::None,
        git_remote,
        last_opened: now,
        created_at: now,
        tags: Vec::new(),
        settings: ProjectSettings::default(),
    }
}

/// Whether a porcelain line reports a staged change: the index column is
/// neither blank nor the untracked marker.
pub open spec fn spec_staged_line(l: Seq<char>) -> bool {
    l.len() >= 3 && l[0] != ' ' && l[0] != '?'
}

/// Whether a porcelain line reports a working-tree modification or
/// deletion.
pub open spec fn spec_modified_line(l: Seq<char>) -> bool {
    l.len() >= 3 && (l[1] == 'M' || l[1] == 'D')
}

/// Whether a porcelain line reports an untracked file.
pub open spec fn spec_untracked_line(l: Seq<char>) -> bool {
    l.len() >= 3 && l[0] == '?'
}

/// The views of a sequence of character vectors (local alias to keep the
/// quantified invariants short).
pub open spec fn char_views_of(s: Seq<Vec<char>>) -> Seq<Seq<char>> {
    crate::text::char_views(s)
}

/// The file name carried by a porcelain line: everything after the two
/// status columns and the separating space.
pub open spec fn spec_file_of(l: Seq<char>) -> Seq<char> {
    l.skip(3)
}

/// The files of the lines reporting staged changes, in order.
pub open spec fn spec_staged_files(lines: Seq<Seq<char>>) -> Seq<Seq<char>>
    decreases lines.len(),
{
    if lines.len() == 0 {
        Seq::empty()
    } else if spec_staged_line(lines[0]) {
        seq![spec_file_of(lines[0])] + spec_staged_files(lines.drop_first())
    } else {
        spec_staged_files(lines.drop_first())
    }
}

/// The files of the lines reporting working-tree modifications, in order.
pub open spec fn spec_modified_files(lines: Seq<Seq<char>>) -> Seq<Seq<char>>
    decreases lines.len(),
{
    if lines.len() == 0 {
        Seq::empty()
    } else if spec_modified_line(lines[0]) {
        seq![spec_file_of(lines[0])] + spec_modified_files(lines.drop_first())
    } else {
        spec_modified_files(lines.drop_first())
    }
}

/// The files of the lines reporting untracked files, in order.
pub open spec fn spec_untracked_files(lines: Seq<Seq<char>>) -> Seq<Seq<char>>
    decreases lines.len(),
{
    if lines.len() == 0 {
        Seq::empty()
    } else if spec_untracked_line(lines[0]) {
        seq![spec_file_of(lines[0])] + spec_untracked_files(lines.drop_first())
    } else {
        spec_untracked_files(lines.drop_first())
    }
}

/// Classify the lines of porcelain status output into staged, modified
/// and untracked file lists. A line can land in more than one list, as
/// when a file is both staged and further modified.
pub fn parse_status_porcelain(text: &str) -> (r: (Vec<String>, Vec<String>, Vec<String>))
    ensures
        string_views(r.0@) == spec_staged_files(spec_lines(text@)),
        string_views(r.1@) == spec_modified_files(spec_lines(text@)),
        string_views(r.2@) == spec_untracked_files(spec_lines(text@)),
{
    let cs = chars_vec(text);
    let lines = split_lines(&cs);
    let ghost lv = char_views_of(lines@);
    let mut staged: Vec<String> = Vec::new();
    let mut modified: Vec<String> = Vec::new();
    let mut untracked: Vec<String> = Vec::new();
    let m = lines.len();
    let mut k: usize = 0;
    proof {
        assert(lv.skip(0) =~= lv);
        assert(string_views(staged@) =~= Seq::<Seq<char>>::empty());
        assert(string_views(staged@) + spec_staged_files(lv) =~= spec_staged_files(lv));
        assert(string_views(modified@) + spec_modified_files(lv) =~= spec_modified_files(lv));
        assert(string_views(untracked@) + spec_untracked_files(lv) =~= spec_untracked_files(lv));
    }
    while k < m
        invariant
            k <= m,
            m == lines@.len(),
            lv == char_views_of(lines@),
            spec_staged_files(lv) == string_views(staged@) + spec_staged_files(
                lv.skip(k as int),
            ),
            spec_modified_files(lv) == string_views(modified@) + spec_modified_files(
                lv.skip(k as int),
            ),
            spec_untracked_files(lv) == string_views(untracked@) + spec_untracked_files(
                lv.skip(k as int),
            ),
        decreases m - k,
    {
        proof {
            assert(lv.skip(k as int)[0] == lv[k as int]);
            assert(lv.skip(k as int).drop_first() =~= lv.skip(k as int + 1));
            assert(lv[k as int] == lines@[k as int]@);
        }
        let line = &lines[k];
        if line.len() >= 3 {
            let c0 = line[0];
            let c1 = line[1];
            let file = string_from_chars(&tail_from(line, 3));
            if c0 != ' ' && c0 != '?' {
                let ghost sv = string_views(staged@);
                staged.push(file.clone());
                proof {
                    assert(string_views(staged@) =~= sv.push(file@));
                    assert(sv + (seq![spec_file_of(lv[k as int])] + spec_staged_files(
                        lv.skip(k as int + 1),
                    )) =~= string_views(staged@) + spec_staged_files(lv.skip(k as int + 1)));
                }
            }
            if c1 == 'M' || c1 == 'D' {
                let ghost sv = string_views(modified@);
                modified.push(file.clone());
                proof {
                    assert(string_views(modified@) =~= sv.push(file@));
                    assert(sv + (seq![spec_file_of(lv[k as int])] + spec_modified_files(
                        lv.skip(k as int + 1),
                    )) =~= string_views(modified@) + spec_modified_files(lv.skip(k as int + 1)));
                }
            }
            if c0 == '?' {
                let ghost sv = string_views(untracked@);
                untracked.push(file.clone());
                proof {
                    assert(string_views(untracked@) =~= sv.push(file@));
                    assert(sv + (seq![spec_file_of(lv[k as int])] + spec_untracked_files(
                        lv.skip(k as int + 1),
                    )) =~= string_views(untracked@) + spec_untracked_files(
                        lv.skip(k as int + 1),
                    ));
                }
            }
        }
        k = k + 1;
    }
    proof {
        assert(lv.skip(m as int) =~= Seq::<Seq<char>>::empty());
        assert(string_views(staged@) + spec_staged_files(lv.skip(m as int)) =~= string_views(
            staged@,
        ));
        assert(string_views(modified@) + spec_modified_files(lv.skip(m as int)) =~= string_views(
            modified@,
        ));
        assert(string_views(untracked@) + spec_untracked_files(lv.skip(m as int))
            =~= string_views(untracked@));
    }
    (staged, modified, untracked)
}

/// Whether `c` is a decimal digit.
pub open spec fn spec_is_digit(c: char) -> bool {
    48 <= (c as u32) && (c as u32) <= 57
}

/// Whether `s` is one or more decimal digits.
pub open spec fn spec_all_digits(s: Seq<char>) -> bool {
    forall|i: int| 0 <= i < s.len() ==> spec_is_digit(#[trigger] s[i])
}

/// The value of a digit string.
pub open spec fn spec_digits_val(s: Seq<char>) -> int
    decreases s.len(),
{
    if s.len() == 0 {
        0
    } else {
        spec_digits_val(s.drop_last()) * 10 + ((s.last() as u32) - 48)
    }
}

/// A digit string's value is not negative.
proof fn lemma_digits_nonneg(s: Seq<char>)
    requires
        spec_all_digits(s),
    ensures
        spec_digits_val(s) >= 0,
    decreases s.len(),
{
    if s.len() > 0 {
        assert(spec_all_digits(s.drop_last()));
        lemma_digits_nonneg(s.drop_last());
    }
}

/// A digit string's value is at least the value of any of its prefixes.
proof fn lemma_digits_monotone(s: Seq<char>, i: int)
    requires
        spec_all_digits(s),
        0 <= i <= s.len(),
    ensures
        spec_digits_val(s) >= spec_digits_val(s.take(i)),
    decreases s.len() - i,
{
    if i < s.len() {
        assert(spec_all_digits(s.drop_last()));
        if i == s.len() - 1 {
            assert(s.take(i) =~= s.drop_last());
            lemma_digits_nonneg(s);
        } else {
            assert(s.drop_last().take(i) =~= s.take(i));
            lemma_digits_monotone(s.drop_last(), i);
            lemma_digits_nonneg(s.drop_last());
        }
    } else {
        assert(s.take(i) =~= s);
    }
}

/// What parsing `s` as a 32-bit signed decimal yields, with any failure —
/// an empty or malformed number, or one out of range — read as zero.
pub open spec fn spec_i32_or_zero(s: Seq<char>) -> int {
    let signed = s.len() > 0 && (s[0] == '-' || s[0] == '+');
    let neg = s.len() > 0 && s[0] == '-';
    let digits = if signed {
        s.skip(1)
    } else {
        s
    };
    if digits.len() > 0 && spec_all_digits(digits) {
        let v = spec_digits_val(digits);
        if neg {
            if v <= 0x8000_0000 {
                -v
            } else {
                0
            }
        } else {
            if v <= 0x7fff_ffff {
                v
            } else {
                0
            }
        }
    } else {
        0
    }
}

/// Parse a 32-bit signed decimal, yielding zero on any failure.
pub fn i32_from_chars(v: &Vec<char>) -> (r: i32)
    ensures
        r as int == spec_i32_or_zero(v@),
{
    let n = v.len();
    if n == 0 {
        return 0;
    }
    let c0 = v[0];
    let neg = c0 == '-';
    let signed = neg || c0 == '+';
    let lo: usize = if signed {
        1
    } else {
        0
    };
    if lo >= n {
        return 0;
    }
    let ghost digits: Seq<char> = if signed {
        v@.skip(1)
    } else {
        v@
    };
    proof {
        assert(digits.len() == n - lo);
    }
    let bound: i64 = if neg {
        0x8000_0000
    } else {
        0x7fff_ffff
    };
    let mut acc: i64 = 0;
    let mut k: usize = lo;
    proof {
        assert(digits.take(0) =~= Seq::<char>::empty());
    }
    while k < n
        invariant
            lo <= k <= n,
            n == v@.len(),
            signed == (v@.len() > 0 && (v@[0] == '-' || v@[0] == '+')),
            neg == (v@.len() > 0 && v@[0] == '-'),
            lo == (if signed {
                1int
            } else {
                0int
            }),
            digits == (if signed {
                v@.skip(1)
            } else {
                v@
            }),
            digits.len() == n - lo,
            forall|t: int| 0 <= t < k - lo ==> spec_is_digit(#[trigger] digits[t]),
            acc == spec_digits_val(digits.take(k - lo)),
            0 <= acc <= bound,
            bound == (if neg {
                0x8000_0000i64
            } else {
                0x7fff_ffffi64
            }),
        decreases n - k,
    {
        let c = v[k];
        proof {
            assert(digits[k - lo] == v@[k as int]);
        }
        let cu = c as u32;
        if !(cu >= 48 && cu <= 57) {
            proof {
                assert(!spec_is_digit(digits[k - lo]));
            }
            return 0;
        }
        let d = (cu - 48) as i64;
        let next = acc * 10 + d;
        proof {
            assert(digits.take(k - lo + 1).drop_last() =~= digits.take(k - lo));
            assert(digits.take(k - lo + 1).last() == digits[k - lo]);
            assert(next == spec_digits_val(digits.take(k - lo + 1)));
        }
        if next > bound {
            proof {
                if spec_all_digits(digits) {
                    lemma_digits_monotone(digits, k - lo + 1);
                }
            }
            return 0;
        }
        acc = next;
        k = k + 1;
    }
    proof {
        assert(digits.take(n - lo) =~= digits);
    }
    if neg {
        (-acc) as i32
    } else {
        acc as i32
    }
}

/// What an ahead/behind count line yields: the line is trimmed and split
/// at tabs; exactly two fields parse as the two counts, anything else
/// reads as zero ahead and zero behind.
pub open spec fn spec_ahead_behind(counts: Seq<char>) -> (int, int) {
    let parts = spec_split_char(trim_of(counts), '\t');
    if parts.len() == 2 {
        (spec_i32_or_zero(parts[0]), spec_i32_or_zero(parts[1]))
    } else {
        (0, 0)
    }
}

/// Parse the ahead/behind counts reported for the upstream branch.
pub fn parse_ahead_behind(counts: &str) -> (r: (i32, i32))
    ensures
        (r.0 as int, r.1 as int) == spec_ahead_behind(counts@),
{
    let trimmed = trim_str(counts);
    let tc = chars_vec(trimmed.as_str());
    let parts = split_on_char(&tc, '\t');
    if parts.len() == 2 {
        proof {
            assert(char_views_of(parts@)[0] == parts@[0]@);
            assert(char_views_of(parts@)[1] == parts@[1]@);
        }
        (i32_from_chars(&parts[0]), i32_from_chars(&parts[1]))
    } else {
        (0, 0)
    }
}

/// Assemble a project's git status from the branch name, the porcelain
/// status output and the ahead/behind count line.
pub fn build_git_status(branch: String, status_text: &str, counts_text: &str) -> (g: GitStatus)
    ensures
        g.branch@ == branch@,
        string_views(g.staged@) == spec_staged_files(spec_lines(status_text@)),
        string_views(g.modified@) == spec_modified_files(spec_lines(status_text@)),
        string_views(g.untracked@) == spec_untracked_files(spec_lines(status_text@)),
        (g.ahead as int, g.behind as int) == spec_ahead_behind(counts_text@),
{
    let lists = parse_status_porcelain(status_text);
    let counts = parse_ahead_behind(counts_text);
    GitStatus {
        branch,
        ahead: counts.0,
        behind: counts.1,
        staged: lists.0,
        modified: lists.1,
        untracked: lists.2,
    }
}

} // verus!
