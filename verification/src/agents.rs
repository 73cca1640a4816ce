//! Agent definitions parsed from markdown files with YAML frontmatter.
//!
//! The library frames the frontmatter block and the body out of the raw
//! file text, derives the agent identifier from the file name, applies
//! the documented defaults, and assembles the definition record; reading
//! the file and decoding the YAML text into its fields happen outside.

use vstd::prelude::*;
use vstd::string::*;
use crate::text::{
    chars_vec, find_seq, lemma_spec_find_some, lower_of, lowercase_key, spec_find,
    spec_starts_with, string_from_chars, trim_of, trim_str,
};

verus! {

/// An agent definition assembled from one markdown file.
pub struct AgentDefinition {
    pub id: String,
    pub filename: String,
    pub name: String,
    pub description: String,
    pub model: String,
    pub mode: String,
    pub system_prompt: String,
    pub parsed_at: i64,
    pub repo_commit: Option<String>,
}

/// The frontmatter fields after the documented defaults are applied.
pub struct AgentFrontmatter {
    pub name: String,
    pub description: String,
    pub model: String,
    pub mode: String,
}

/// The model assumed when the frontmatter names none.
pub fn default_model() -> (r: String)
    ensures
        r@ == "sonnet"@,
{
    String::from_str("sonnet")
}

/// The mode assumed when the frontmatter names none.
pub fn default_mode() -> (r: String)
    ensures
        r@ == "normal"@,
{
    String::from_str("normal")
}

/// Apply the defaults to raw frontmatter fields: a missing description is
/// empty, a missing model or mode takes its default.
pub fn resolve_frontmatter(
    name: String,
    description: Option<String>,
    model: Option<String>,
    mode: Option<String>,
) -> (r: AgentFrontmatter)
    ensures
        r.name@ == name@,
        r.description@ == (match description {
            Option::Some(d) => d@,
            Option::None => Seq::<char>::empty(),
        }),
        r.model@ == (match model {
            Option::Some(m) => m@,
            Option::None => "sonnet"@,
        }),
        r.mode@ == (match mode {
            Option::Some(m) => m@,
            Option::None => "normal"@,
        }),
{
    AgentFrontmatter {
        name,
        description: match description {
            Option::Some(d) => d,
            Option::None => String::new(),
        },
        model: match model {
            Option::Some(m) => m,
            Option::None => default_model(),
        },
        mode: match mode {
            Option::Some(m) => m,
            Option::None => default_mode(),
        },
    }
}

/// Split markdown content into its YAML frontmatter text (trimmed) and
/// its body. The content must begin with the opening delimiter; the
/// frontmatter ends at the first newline-led closing delimiter.
pub fn parse_frontmatter(content: &str) -> (r: Result<(String, String), String>)
    ensures
        match r {
            Ok(parts) => {
                &&& spec_starts_with(content@, "---"@)
                &&& (spec_find(content@.skip(3), "\n---"@, 0) matches Option::Some(e)
                    && parts.0@ == trim_of(content@.skip(3).subrange(0, e)) && parts.1@
                    == content@.skip(3).subrange(e + 4, content@.skip(3).len() as int))
            },
            Err(msg) => {
                if !spec_starts_with(content@, "---"@) {
                    msg@ == "No frontmatter found (must start with ---)"@
                } else {
                    &&& spec_find(content@.skip(3), "\n---"@, 0) is None
                    &&& msg@ == "No closing frontmatter delimiter found"@
                }
            },
        },
{
    proof {
        reveal_strlit("---");
        reveal_strlit("\n---");
    }
    let n = content.unicode_len();
    let all = chars_vec(content);
    let begins = n >= 3 && all[0] == '-' && all[1] == '-' && all[2] == '-';
    if !begins {
        proof {
            if n >= 3 {
                assert(content@.subrange(0, 3)[0] == content@[0]);
                assert(content@.subrange(0, 3)[1] == content@[1]);
                assert(content@.subrange(0, 3)[2] == content@[2]);
            }
        }
        return Err(String::from_str("No frontmatter found (must start with ---)"));
    }
    proof {
        assert(content@.subrange(0, 3) =~= "---"@);
    }
    let rest = content.substring_char(3, n);
    proof {
        assert(rest@ =~= content@.skip(3));
    }
    let rest_chars = chars_vec(rest);
    let needle = chars_vec("\n---");
    match find_seq(&rest_chars, &needle) {
        Option::None => Err(String::from_str("No closing frontmatter delimiter found")),
        Option::Some(e) => {
            proof {
                lemma_spec_find_some(rest@, "\n---"@, 0, e as int);
            }
            let rn = rest.unicode_len();
            let yaml_raw = rest.substring_char(0, e);
            let yaml = trim_str(yaml_raw);
            let body_str = rest.substring_char(e + 4, rn);
            let body = String::from_str(body_str);
            Ok((yaml, body))
        },
    }
}

/// `c` with a space turned into a dash.
pub open spec fn dash_for_space(c: char) -> char {
    if c == ' ' {
        '-'
    } else {
        c
    }
}

/// The sequence with every space turned into a dash.
pub open spec fn spec_dashed(s: Seq<char>) -> Seq<char> {
    s.map_values(|c: char| dash_for_space(c))
}

/// The sequence with every trailing ".md" suffix removed.
pub open spec fn strip_md_suffix(s: Seq<char>) -> Seq<char>
    decreases s.len(),
{
    if s.len() >= 3 && s.subrange(s.len() - 3, s.len() as int) == ".md"@ {
        strip_md_suffix(s.take(s.len() - 3))
    } else {
        s
    }
}

/// The identifier derived from a file name: the name without its ".md"
/// suffixes, spaces turned into dashes, lowercased.
pub open spec fn spec_agent_id(filename: Seq<char>) -> Seq<char> {
    lower_of(spec_dashed(strip_md_suffix(filename)))
}

/// Whether the characters end with the ".md" suffix.
fn ends_with_md(cs: &Vec<char>) -> (r: bool)
    ensures
        r == (cs@.len() >= 3 && cs@.subrange(cs@.len() - 3, cs@.len() as int) == ".md"@),
{
    proof {
        reveal_strlit(".md");
    }
    let m = cs.len();
    if m < 3 {
        return false;
    }
    let r = cs[m - 3] == '.' && cs[m - 2] == 'm' && cs[m - 1] == 'd';
    proof {
        let sub = cs@.subrange(m - 3, m as int);
        assert(sub[0] == cs@[m - 3]);
        assert(sub[1] == cs@[m - 2]);
        assert(sub[2] == cs@[m - 1]);
        if r {
            assert(sub =~= ".md"@);
        }
    }
    r
}

/// Derive the agent identifier from the file name.
pub fn agent_id_from_filename(filename: &str) -> (r: String)
    ensures
        r@ == spec_agent_id(filename@),
{
    let mut cs = chars_vec(filename);
    while ends_with_md(&cs)
        invariant
            strip_md_suffix(cs@) == strip_md_suffix(filename@),
        decreases cs@.len(),
    {
        let m = cs.len();
        let ghost before = cs@;
        cs.truncate(m - 3);
        proof {
            assert(cs@ =~= before.take(before.len() - 3));
            assert(strip_md_suffix(before) == strip_md_suffix(cs@));
        }
    }
    proof {
        assert(strip_md_suffix(cs@) == cs@);
    }
    let mut mapped: Vec<char> = Vec::new();
    let mut k: usize = 0;
    let m = cs.len();
    while k < m
        invariant
            k <= m,
            m == cs@.len(),
            mapped@ == spec_dashed(cs@.subrange(0, k as int)),
        decreases m - k,
    {
        let c = cs[k];
        let d = if c == ' ' {
            '-'
        } else {
            c
        };
        mapped.push(d);
        proof {
            assert(mapped@ =~= spec_dashed(cs@.subrange(0, k + 1)));
        }
        k = k + 1;
    }
    proof {
        assert(cs@.subrange(0, m as int) =~= cs@);
    }
    let dashed = string_from_chars(&mapped);
    lowercase_key(dashed.as_str())
}

/// Assemble a full agent definition from its parts: the identifier is
/// derived from the file name, the body is trimmed into the system
/// prompt, and no repository commit is recorded.
pub fn build_agent_definition(
    filename: &str,
    fm: &AgentFrontmatter,
    body: &str,
    parsed_at: i64,
) -> (r: AgentDefinition)
    ensures
        r.id@ == spec_agent_id(filename@),
        r.filename@ == filename@,
        r.name@ == fm.name@,
        r.description@ == fm.description@,
        r.model@ == fm.model@,
        r.mode@ == fm.mode@,
        r.system_prompt@ == trim_of(body@),
        r.parsed_at == parsed_at,
        r.repo_commit is None,
{
    AgentDefinition {
        id: agent_id_from_filename(filename),
        filename: String::from_str(filename),
        name: fm.name.clone(),
        description: fm.description.clone(),
        model: fm.model.clone(),
        mode: fm.mode.clone(),
        system_prompt: trim_str(body),
        parsed_at,
        repo_commit: Option::None,
    }
}

} // verus!
