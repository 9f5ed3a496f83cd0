//! Prompt template expansion.
//!
//! A generation prompt is built by substituting every occurrence of the
//! recognized placeholders into a template: the staged diff, the current
//! branch, the formatted recent-commit block, and the repository name.
//! Anything else, unrecognized placeholders included, passes through
//! unchanged.

use vstd::prelude::*;
use crate::text::{matches_at, matches_at_spec};

verus! {

/// The built-in prompt template, used when the configuration supplies
/// neither an inline template nor a template file.
pub const DEFAULT_COMMIT_TEMPLATE: &'static str = r#"Format
- First line: <50 chars, present tense, describes WHAT and WHY (not HOW).
- Blank line after first line.
- Optional details with proper line breaks explaining context. Commits with more substantial changes should have more details.
- Return ONLY the formatted message without quotes, code blocks, or preamble.

Style
- Do not give normative statements or otherwise speculate on why the change was made.
- Broadly match the style of the previous commit messages.
  - For example, if they're in conventional commit format, use conventional commits; if they're not, don't use conventional commits.

The context contains:
- <git-diff> with the staged changes. This is the ONLY content you should base your message on.
- <git-info> with branch name and recent commit message titles for style reference ONLY. DO NOT use their content to inform your message.

---
The following is the context for your task:
---
<git-diff>
```
{git-diff}
```
</git-diff>

<git-info>
  <current-branch>{branch}</current-branch>
{recent-commits}
</git-info>
"#;

/// The staged-diff placeholder, `{git-diff}`.
pub open spec fn ph_git_diff() -> Seq<char> {
    seq!['{', 'g', 'i', 't', '-', 'd', 'i', 'f', 'f', '}']
}

/// The current-branch placeholder, `{branch}`.
pub open spec fn ph_branch() -> Seq<char> {
    seq!['{', 'b', 'r', 'a', 'n', 'c', 'h', '}']
}

/// The recent-commit-block placeholder, `{recent-commits}`.
pub open spec fn ph_recent_commits() -> Seq<char> {
    seq!['{', 'r', 'e', 'c', 'e', 'n', 't', '-', 'c', 'o', 'm', 'm', 'i', 't', 's', '}']
}

/// The repository-name placeholder, `{repo-name}`.
pub open spec fn ph_repo_name() -> Seq<char> {
    seq!['{', 'r', 'e', 'p', 'o', '-', 'n', 'a', 'm', 'e', '}']
}

/// The expansion of the template from position `i` on: at each position
/// the first recognized placeholder is replaced by its value and skipped,
/// and every other character is kept.
pub open spec fn expand_from(
    tpl: Seq<char>,
    i: int,
    diff: Seq<char>,
    branch: Seq<char>,
    recent: Seq<char>,
    repo: Seq<char>,
) -> Seq<char>
    decreases tpl.len() - i,
{
    if i >= tpl.len() {
        Seq::empty()
    } else if matches_at_spec(tpl, i, ph_git_diff()) {
        diff + expand_from(tpl, i + 10, diff, branch, recent, repo)
    } else if matches_at_spec(tpl, i, ph_branch()) {
        branch + expand_from(tpl, i + 8, diff, branch, recent, repo)
    } else if matches_at_spec(tpl, i, ph_recent_commits()) {
        recent + expand_from(tpl, i + 16, diff, branch, recent, repo)
    } else if matches_at_spec(tpl, i, ph_repo_name()) {
        repo + expand_from(tpl, i + 11, diff, branch, recent, repo)
    } else {
        seq![tpl[i]] + expand_from(tpl, i + 1, diff, branch, recent, repo)
    }
}

/// The full expansion of a template.
pub open spec fn expand_spec(
    tpl: Seq<char>,
    diff: Seq<char>,
    branch: Seq<char>,
    recent: Seq<char>,
    repo: Seq<char>,
) -> Seq<char> {
    expand_from(tpl, 0, diff, branch, recent, repo)
}

/// Substitute every placeholder occurrence in `template` and return the
/// text unchanged elsewhere.
pub fn expand_commit_template(
    template: &str,
    diff: &str,
    branch: &str,
    recent_commits: &str,
    repo_name: &str,
) -> (r: String)
    ensures
        r@ == expand_spec(template@, diff@, branch@, recent_commits@, repo_name@),
{
    proof {
        reveal_strlit("{git-diff}");
        reveal_strlit("{branch}");
        reveal_strlit("{recent-commits}");
        reveal_strlit("{repo-name}");
        assert("{git-diff}"@ =~= ph_git_diff());
        assert("{branch}"@ =~= ph_branch());
        assert("{recent-commits}"@ =~= ph_recent_commits());
        assert("{repo-name}"@ =~= ph_repo_name());
    }
    let ghost diff_v = diff@;
    let ghost branch_v = branch@;
    let ghost recent_v = recent_commits@;
    let ghost repo_v = repo_name@;
    let n = template.unicode_len();
    let mut out = String::new();
    let mut i: usize = 0;
    while i < n
        invariant
            i <= n,
            n == template@.len(),
            diff_v == diff@,
            branch_v == branch@,
            recent_v == recent_commits@,
            repo_v == repo_name@,
            "{git-diff}"@ == ph_git_diff(),
            "{branch}"@ == ph_branch(),
            "{recent-commits}"@ == ph_recent_commits(),
            "{repo-name}"@ == ph_repo_name(),
            out@ + expand_from(template@, i as int, diff_v, branch_v, recent_v, repo_v)
                == expand_from(template@, 0, diff_v, branch_v, recent_v, repo_v),
        decreases n - i,
    {
        let ghost out_before = out@;
        let ghost rest_before = expand_from(
            template@,
            i as int,
            diff_v,
            branch_v,
            recent_v,
            repo_v,
        );
        if matches_at(template, n, i, "{git-diff}") {
            out.append(diff);
            proof {
                assert(rest_before == diff_v + expand_from(
                    template@,
                    i + 10,
                    diff_v,
                    branch_v,
                    recent_v,
                    repo_v,
                ));
            }
            i = i + 10;
        } else if matches_at(template, n, i, "{branch}") {
            out.append(branch);
            proof {
                assert(rest_before == branch_v + expand_from(
                    template@,
                    i + 8,
                    diff_v,
                    branch_v,
                    recent_v,
                    repo_v,
                ));
            }
            i = i + 8;
        } else if matches_at(template, n, i, "{recent-commits}") {
            out.append(recent_commits);
            proof {
                assert(rest_before == recent_v + expand_from(
                    template@,
                    i + 16,
                    diff_v,
                    branch_v,
                    recent_v,
                    repo_v,
                ));
            }
            i = i + 16;
        } else if matches_at(template, n, i, "{repo-name}") {
            out.append(repo_name);
            proof {
                assert(rest_before == repo_v + expand_from(
                    template@,
                    i + 11,
                    diff_v,
                    branch_v,
                    recent_v,
                    repo_v,
                ));
            }
            i = i + 11;
        } else {
            let piece = template.substring_char(i, i + 1);
            out.append(piece);
            proof {
                assert(piece@ =~= seq![template@[i as int]]);
                assert(rest_before == seq![template@[i as int]] + expand_from(
                    template@,
                    i + 1,
                    diff_v,
                    branch_v,
                    recent_v,
                    repo_v,
                ));
            }
            i = i + 1;
        }
        proof {
            assert(out@ + expand_from(template@, i as int, diff_v, branch_v, recent_v, repo_v)
                =~= out_before + rest_before);
        }
    }
    proof {
        assert(expand_from(template@, n as int, diff_v, branch_v, recent_v, repo_v)
            == Seq::<char>::empty());
        assert(out@ + Seq::<char>::empty() =~= out@);
    }
    out
}

/// Expand a leading home-directory shorthand in a path: a bare `~`
/// becomes the home directory, a leading `~/` is replaced by it, and any
/// other path is returned unchanged.
pub fn expand_tilde(path: &str, home: &str) -> (r: String)
    ensures
        path@ == "~"@ ==> r@ == home@,
        matches_at_spec(path@, 0, "~/"@) ==> r@ == home@ + path@.skip(1),
        path@ != "~"@ && !matches_at_spec(path@, 0, "~/"@) ==> r@ == path@,
{
    proof {
        reveal_strlit("~");
        reveal_strlit("~/");
    }
    let n = path.unicode_len();
    if crate::text::str_eq(path, "~") {
        home.to_owned()
    } else if matches_at(path, n, 0, "~/") {
        let mut r = home.to_owned();
        let tail = path.substring_char(1, n);
        r.append(tail);
        proof {
            assert(path@.subrange(1, n as int) =~= path@.skip(1));
        }
        r
    } else {
        path.to_owned()
    }
}

} // verus!
