//! AI context carried by prompt chips.
use crate::text::{chars_of, decimal_value, parse_decimal};
use vstd::prelude::*;

verus! {

/// The pull-request data a prompt chip shows.
#[derive(Clone, PartialEq, Eq, Debug)]
pub struct GithubPullRequestChipValue {
    pub url: String,
    pub number: u64,
    pub state: String,
    pub draft: bool,
    pub base_branch: String,
}

/// The value of a prompt chip.
#[derive(Clone, PartialEq, Eq, Debug)]
pub enum ChipValue {
    GithubPullRequest(GithubPullRequestChipValue),
    Text(String),
}

/// Context handed to the agent.
#[derive(Clone, PartialEq, Eq, Debug)]
pub enum AIAgentContext {
    PullRequest { number: u64, state: String, draft: bool, base_branch: String },
}

pub open spec fn github_prefix() -> Seq<char> {
    "https://github.com/"@
}

/// The index of the first `/` in `s`.
pub open spec fn first_slash(s: Seq<char>) -> Option<int>
    decreases s.len(),
{
    if s.len() == 0 {
        None
    } else if s[0] == '/' {
        Some(0)
    } else {
        match first_slash(s.drop_first()) {
            Some(i) => Some(i + 1),
            None => None,
        }
    }
}

/// The number of a legacy pull-request link
/// `https://github.com/<owner>/<repo>/pull/<number>`: owner and repository
/// are non-empty, and the number is decimal and fits in 64 bits.
pub open spec fn legacy_pull_request_number(s: Seq<char>) -> Option<u64> {
    let p = github_prefix();
    if s.len() < p.len() || s.take(p.len() as int) != p {
        None
    } else {
        let rest = s.skip(p.len() as int);
        match first_slash(rest) {
            Some(i) if i > 0 => {
                let rest2 = rest.skip(i + 1);
                match first_slash(rest2) {
                    Some(j) if j > 0 => {
                        let rest3 = rest2.skip(j + 1);
                        if rest3.len() >= 5 && rest3.take(5) == "pull/"@ {
                            decimal_value(rest3.skip(5))
                        } else {
                            None
                        }
                    },
                    _ => None,
                }
            },
            _ => None,
        }
    }
}

fn first_slash_from(x: &Vec<char>, start: usize) -> (r: Option<usize>)
    requires
        start <= x@.len(),
    ensures
        match r {
            Some(k) => start <= k < x@.len() && first_slash(x@.skip(start as int)) == Some(k - start),
            None => first_slash(x@.skip(start as int)) is None,
        },
{
    let n = x.len();
    let mut k = start;
    while k < n
        invariant
            n == x@.len(),
            start <= k <= n,
            first_slash(x@.skip(start as int)) == match first_slash(x@.skip(k as int)) {
                Some(i) => Some(i + (k - start)),
                None => None::<int>,
            },
        decreases n - k,
    {
        assert(x@.skip(k as int)[0] == x@[k as int]);
        assert(x@.skip(k as int).drop_first() =~= x@.skip(k + 1));
        if x[k] == '/' {
            return Some(k);
        }
        k = k + 1;
    }
    assert(x@.skip(k as int).len() == 0);
    None
}

fn has_prefix_at(x: &Vec<char>, start: usize, p: &str) -> (b: bool)
    requires
        start <= x@.len(),
    ensures
        b == (x@.skip(start as int).len() >= p@.len() && x@.skip(start as int).take(p@.len() as int) == p@),
{
    let pc = chars_of(p);
    let m = pc.len();
    let n = x.len();
    if n - start < m {
        return false;
    }
    let mut i: usize = 0;
    while i < m
        invariant
            pc@ == p@,
            m == pc@.len(),
            n == x@.len(),
            start <= n,
            m <= n - start,
            i <= m,
            forall|j: int| 0 <= j < i ==> x@[start + j] == pc@[j],
        decreases m - i,
    {
        if x[start + i] != pc[i] {
            assert(x@.skip(start as int).take(m as int)[i as int] != p@[i as int]);
            return false;
        }
        i = i + 1;
    }
    assert(x@.skip(start as int).take(m as int) =~= p@);
    true
}

fn legacy_number(text: &str) -> (r: Option<u64>)
    ensures
        r == legacy_pull_request_number(text@),
{
    let x = chars_of(text);
    let n = x.len();
    proof {
        assert(x@.skip(0) =~= x@);
    }
    if !has_prefix_at(&x, 0, "https://github.com/") {
        return None;
    }
    let start: usize = 19;
    proof {
        reveal_strlit("https://github.com/");
        assert(github_prefix().len() == 19);
    }
    let owner_end = match first_slash_from(&x, start) {
        Some(i) => i,
        None => return None,
    };
    if owner_end == start {
        return None;
    }
    assert(owner_end < n);
    proof {
        assert(x@.skip(start as int).skip(owner_end - start + 1) =~= x@.skip(owner_end + 1));
    }
    let repo_end = match first_slash_from(&x, owner_end + 1) {
        Some(j) => j,
        None => return None,
    };
    if repo_end == owner_end + 1 {
        return None;
    }
    assert(repo_end < n);
    proof {
        assert(x@.skip(owner_end + 1).skip(repo_end - (owner_end + 1) + 1) =~= x@.skip(repo_end + 1));
    }
    if !has_prefix_at(&x, repo_end + 1, "pull/") {
        return None;
    }
    proof {
        reveal_strlit("pull/");
        assert(x@.skip(repo_end + 1).skip(5) =~= x@.skip(repo_end + 6));
    }
    parse_decimal(&x, repo_end + 6)
}

pub open spec fn pull_request_context_of(value: ChipValue) -> Option<(u64, Seq<char>, bool, Seq<char>)> {
    match value {
        ChipValue::GithubPullRequest(pr) => Some((pr.number, pr.state@, pr.draft, pr.base_branch@)),
        ChipValue::Text(t) => match legacy_pull_request_number(t@) {
            Some(n) => Some((n, Seq::empty(), false, Seq::empty())),
            None => None,
        },
    }
}

/// The pull-request context a chip carries: the structured chip's number,
/// state, draft flag and base branch (never its URL), or, for a legacy text
/// chip holding a pull-request link, that link's number with empty state and
/// base branch and no draft flag.
pub fn pull_request_ai_context_from_chip_value(value: &ChipValue) -> (r: Option<AIAgentContext>)
    ensures
        match pull_request_context_of(*value) {
            None => r is None,
            Some(c) => r matches Some(AIAgentContext::PullRequest { number, state, draft, base_branch })
                && number == c.0 && state@ == c.1 && draft == c.2 && base_branch@ == c.3,
        },
{
    match value {
        ChipValue::GithubPullRequest(pr) => Some(AIAgentContext::PullRequest {
            number: pr.number,
            state: pr.state.clone(),
            draft: pr.draft,
            base_branch: pr.base_branch.clone(),
        }),
        ChipValue::Text(t) => match legacy_number(t.as_str()) {
            Some(n) => Some(AIAgentContext::PullRequest {
                number: n,
                state: String::new(),
                draft: false,
                base_branch: String::new(),
            }),
            None => None,
        },
    }
}

} // verus!
