//! Commit and squash message generation.
//!
//! Messages come from a user-configured external generation command that
//! reads a prompt on its input stream and writes the message on its
//! output stream. This module decides everything around that process
//! boundary: whether generation is configured at all, the deterministic
//! fallback messages when it is not, the prompt that a configured
//! command receives, and how the command's captured output and exit
//! status turn into a message or a reported failure. The caller performs
//! the one process invocation described by a [`LlmInvocation`] and hands
//! the outcome to [`interpret_llm_output`].

use vstd::prelude::*;
use crate::template::{expand_commit_template, expand_spec, DEFAULT_COMMIT_TEMPLATE};
use crate::text::{is_blank, trim_spec, trim_str};

verus! {

/// Where the prompt template for per-commit generation comes from. The
/// inline and file forms are mutually exclusive by construction.
pub enum TemplateSource {
    /// A template string given directly in the configuration.
    Inline(String),
    /// The path of a template file; the caller reads it and passes the
    /// contents along.
    File(String),
    /// No template configured: the built-in default applies.
    BuiltIn,
}

/// The commit-generation configuration: an optional external command
/// name, its arguments, and the template source.
pub struct CommitGenerationConfig {
    pub command: Option<String>,
    pub args: Vec<String>,
    pub template: TemplateSource,
}

/// Generation is configured when a command is present and is not blank.
pub open spec fn generation_configured(config: &CommitGenerationConfig) -> bool {
    config.command matches Some(c) && !is_blank(c@)
}

/// Test whether a generation command is configured.
pub fn is_generation_configured(config: &CommitGenerationConfig) -> (r: bool)
    ensures
        r == generation_configured(config),
{
    match &config.command {
        Some(c) => {
            let t = trim_str(c.as_str());
            !t.as_str().is_empty()
        },
        None => false,
    }
}

/// Why generation failed. Configuration absence is not among these:
/// an unconfigured generator falls back to a deterministic message.
#[derive(Debug)]
pub enum LlmError {
    /// The resolved template was empty or only whitespace.
    EmptyTemplate,
    /// The generation command exited non-zero; the payload is its
    /// captured standard error.
    CommandFailed(String),
    /// The generation command exited zero but printed only whitespace.
    EmptyMessage,
}

impl LlmError {
    /// The human-readable failure text.
    pub open spec fn message_spec(&self) -> Seq<char> {
        match self {
            LlmError::EmptyTemplate => "Template is empty"@,
            LlmError::CommandFailed(stderr) => "LLM command failed: "@ + stderr@,
            LlmError::EmptyMessage => "LLM returned empty message"@,
        }
    }

    /// Render the failure for the user.
    pub fn message(&self) -> (m: String)
        ensures
            m@ == self.message_spec(),
    {
        match self {
            LlmError::EmptyTemplate => "Template is empty".to_owned(),
            LlmError::CommandFailed(stderr) => {
                let mut m = "LLM command failed: ".to_owned();
                m.append(stderr.as_str());
                m
            },
            LlmError::EmptyMessage => "LLM returned empty message".to_owned(),
        }
    }
}

/// The failure text for a configured commit generation that went wrong,
/// naming the offending command.
pub fn commit_generation_failure_message(command: &str, error: &LlmError) -> (m: String)
    ensures
        m@ == "Commit generation command '"@ + command@ + "' failed: "@ + error.message_spec(),
{
    let mut m = "Commit generation command '".to_owned();
    m.append(command);
    m.append("' failed: ");
    let tail = error.message();
    m.append(tail.as_str());
    m
}

/// One invocation of the generation command: run `command` with `args`,
/// write `prompt` to its input stream, close the stream, and wait.
pub struct LlmInvocation {
    pub command: String,
    pub args: Vec<String>,
    pub prompt: String,
}

/// What a generation request comes to: either the finished message
/// (the deterministic fallback, no process involved), or the one
/// external invocation whose output will become the message.
pub enum GenerationStep {
    Message(String),
    Invoke(LlmInvocation),
}

/// One formatted title line of the recent-commit block.
pub open spec fn title_line(subject: Seq<char>) -> Seq<char> {
    "    <previous-commit-message-title>"@ + subject + "</previous-commit-message-title>\n"@
}

/// The formatted title lines of all subjects, in the given order.
pub open spec fn title_lines(subjects: Seq<Seq<char>>) -> Seq<char>
    decreases subjects.len(),
{
    if subjects.len() == 0 {
        Seq::empty()
    } else {
        title_lines(subjects.drop_last()) + title_line(subjects.last())
    }
}

/// The recent-commit substitution block: empty when there are no recent
/// commits, otherwise one title line per subject, order-preserving,
/// inside the enclosing tags.
pub open spec fn recent_commits_block(subjects: Option<Seq<Seq<char>>>) -> Seq<char> {
    match subjects {
        Some(cs) => if cs.len() == 0 {
            Seq::empty()
        } else {
            "  <previous-commit-message-titles>\n"@ + title_lines(cs)
                + "  </previous-commit-message-titles>"@
        },
        None => Seq::empty(),
    }
}

/// The subjects a caller handed in, as sequences of characters.
pub open spec fn opt_subjects_view(subjects: Option<&Vec<String>>) -> Option<Seq<Seq<char>>> {
    match subjects {
        Some(v) => Some(v.deep_view()),
        None => None,
    }
}

/// Format recent commit subjects for template expansion.
pub fn format_recent_commits(commits: Option<&Vec<String>>) -> (r: String)
    ensures
        r@ == recent_commits_block(opt_subjects_view(commits)),
{
    match commits {
        Some(list) => {
            if list.len() == 0 {
                return String::new();
            }
            let ghost subjects = list.deep_view();
            let mut out = "  <previous-commit-message-titles>\n".to_owned();
            let ghost header = out@;
            proof {
                assert(header + title_lines(subjects.take(0)) =~= header);
            }
            for i in 0..list.len()
                invariant
                    subjects == list.deep_view(),
                    subjects.len() == list.len(),
                    out@ == header + title_lines(subjects.take(i as int)),
            {
                let ghost out_before = out@;
                out.append("    <previous-commit-message-title>");
                out.append(list[i].as_str());
                out.append("</previous-commit-message-title>\n");
                proof {
                    assert(subjects.take(i + 1).drop_last() =~= subjects.take(i as int));
                    assert(subjects.take(i + 1).last() == subjects[i as int]);
                    assert(subjects[i as int] == list@[i as int]@);
                    assert(out@ =~= header + (title_lines(subjects.take(i as int)) + title_line(
                        subjects[i as int],
                    )));
                }
            }
            proof {
                assert(subjects.take(list.len() as int) =~= subjects);
            }
            out.append("  </previous-commit-message-titles>");
            out
        },
        None => String::new(),
    }
}

/// The fixed instruction appended to every squash-generation prompt.
pub const SQUASH_INSTRUCTION: &'static str = "Generate a conventional commit message (feat/fix/docs/style/refactor) that combines these changes into one cohesive message. Output only the commit message without any explanation.";

/// The subject list rendered oldest-first, one `- subject` line each.
/// The subjects come in newest-first, so the last of them is rendered
/// first and the first last.
pub open spec fn subject_lines_oldest_first(subjects: Seq<Seq<char>>) -> Seq<char>
    decreases subjects.len(),
{
    if subjects.len() == 0 {
        Seq::empty()
    } else {
        subject_lines_oldest_first(subjects.drop_first()) + "- "@ + subjects.first() + "\n"@
    }
}

/// The deterministic squash message used when generation is not
/// configured: a header naming the target branch, then the combined
/// subjects in chronological order.
pub open spec fn squash_fallback_spec(target: Seq<char>, subjects: Seq<Seq<char>>) -> Seq<char> {
    "Squash commits from "@ + target + "\n\nCombined commits:\n"@ + subject_lines_oldest_first(
        subjects,
    )
}

/// The prompt handed to a configured squash generation: the branch
/// context, the chronological subject list, and the fixed instruction.
pub open spec fn squash_prompt_spec(target: Seq<char>, subjects: Seq<Seq<char>>) -> Seq<char> {
    "Squashing commits on current branch since branching from "@ + target
        + "\n\nCommits being combined:\n"@ + subject_lines_oldest_first(subjects) + "\n\n"@
        + SQUASH_INSTRUCTION@
}

/// Append the `- subject` lines in chronological (oldest-first) order.
fn append_subject_lines(out: &mut String, subjects: &[String])
    ensures
        final(out)@ == old(out)@ + subject_lines_oldest_first(subjects.deep_view()),
{
    let ghost views = subjects.deep_view();
    let ghost start = out@;
    let mut i: usize = subjects.len();
    proof {
        assert(views.skip(i as int) =~= Seq::<Seq<char>>::empty());
        assert(start + subject_lines_oldest_first(views.skip(i as int)) =~= start);
        assert(views.len() == subjects@.len());
    }
    while i > 0
        invariant
            i <= subjects@.len(),
            views == subjects.deep_view(),
            views.len() == subjects@.len(),
            out@ == start + subject_lines_oldest_first(views.skip(i as int)),
        decreases i,
    {
        i = i - 1;
        out.append("- ");
        out.append(subjects[i].as_str());
        out.append("\n");
        proof {
            assert(views.skip(i as int).drop_first() =~= views.skip(i as int + 1));
            assert(views.skip(i as int).first() == views[i as int]);
            assert(views[i as int] == subjects@[i as int]@);
            assert(out@ =~= start + (subject_lines_oldest_first(views.skip(i as int + 1)) + "- "@
                + views[i as int] + "\n"@));
        }
    }
    proof {
        assert(views.skip(0) =~= views);
    }
}

/// Copy a borrowed argument list into an owned one with the same texts.
fn clone_string_slice(items: &[String]) -> (v: Vec<String>)
    ensures
        v.deep_view() == items.deep_view(),
{
    let mut v: Vec<String> = Vec::new();
    let mut j: usize = 0;
    proof {
        assert(v.deep_view() =~= items.deep_view().take(0));
    }
    while j < items.len()
        invariant
            j <= items@.len(),
            v@.len() == j,
            v.deep_view() == items.deep_view().take(j as int),
        decreases items@.len() - j,
    {
        let ghost v_before = v;
        let s = items[j].clone();
        v.push(s);
        proof {
            assert forall|k: int| 0 <= k < j + 1 implies v.deep_view()[k]
                == items.deep_view().take(j as int + 1)[k] by {
                assert(v.deep_view()[k] == v@[k].deep_view());
                assert(items.deep_view().take(j as int + 1)[k] == items@[k].deep_view());
                if k < j {
                    assert(v@[k] == v_before@[k]);
                    assert(v_before.deep_view()[k] == items.deep_view().take(j as int)[k]);
                    assert(v_before.deep_view()[k] == v_before@[k].deep_view());
                } else {
                    assert(v@[k] == items@[j as int]);
                }
            }
            assert(v.deep_view() =~= items.deep_view().take(j as int + 1));
        }
        j = j + 1;
    }
    proof {
        assert(items.deep_view().take(items@.len() as int) =~= items.deep_view());
    }
    v
}

/// Build the squash-generation invocation for a configured command.
pub fn try_generate_llm_message(
    target_branch: &str,
    subjects: &[String],
    command: &str,
    args: &[String],
) -> (inv: LlmInvocation)
    ensures
        inv.command@ == command@,
        inv.args.deep_view() == args.deep_view(),
        inv.prompt@ == squash_prompt_spec(target_branch@, subjects.deep_view()),
{
    let mut prompt = "Squashing commits on current branch since branching from ".to_owned();
    prompt.append(target_branch);
    prompt.append("\n\nCommits being combined:\n");
    append_subject_lines(&mut prompt, subjects);
    prompt.append("\n\n");
    prompt.append(SQUASH_INSTRUCTION);
    let args_vec = clone_string_slice(args);
    LlmInvocation { command: command.to_owned(), args: args_vec, prompt }
}

/// Produce a squash message for `target_branch` over `subjects`
/// (newest-first as supplied): the deterministic chronological summary
/// when generation is unconfigured, otherwise the generation invocation
/// whose output becomes the message.
pub fn generate_squash_message(
    target_branch: &str,
    subjects: &[String],
    config: &CommitGenerationConfig,
) -> (r: GenerationStep)
    ensures
        !generation_configured(config) ==> (r matches GenerationStep::Message(m) && m@
            == squash_fallback_spec(target_branch@, subjects.deep_view())),
        generation_configured(config) ==> (r matches GenerationStep::Invoke(inv) && (
        config.command matches Some(c) && inv.command@ == c@) && inv.args.deep_view()
            == config.args.deep_view() && inv.prompt@ == squash_prompt_spec(
            target_branch@,
            subjects.deep_view(),
        )),
{
    if is_generation_configured(config) {
        let command = match &config.command {
            Some(c) => c.as_str(),
            None => unreached(),
        };
        let args = config.args.as_slice();
        proof {
            assert(args.deep_view() =~= config.args.deep_view());
        }
        let inv = try_generate_llm_message(target_branch, subjects, command, args);
        GenerationStep::Invoke(inv)
    } else {
        let mut m = "Squash commits from ".to_owned();
        m.append(target_branch);
        m.append("\n\nCombined commits:\n");
        append_subject_lines(&mut m, subjects);
        GenerationStep::Message(m)
    }
}

/// The deterministic fallback commit message used when generation is
/// not configured.
pub const FALLBACK_COMMIT_MESSAGE: &'static str = "WIP: Auto-commit before merge";

/// The template text a configuration resolves to: the inline template,
/// else the contents of the template file, else the built-in default.
pub open spec fn template_text_spec(
    config: &CommitGenerationConfig,
    template_file_text: Option<&String>,
) -> Seq<char> {
    match config.template {
        TemplateSource::Inline(t) => t@,
        TemplateSource::File(_) => match template_file_text {
            Some(t) => t@,
            None => Seq::empty(),
        },
        TemplateSource::BuiltIn => DEFAULT_COMMIT_TEMPLATE@,
    }
}

/// The prompt a configured commit generation receives: the resolved
/// template with every placeholder expanded.
pub open spec fn commit_prompt_spec(
    config: &CommitGenerationConfig,
    diff: Seq<char>,
    branch: Seq<char>,
    subjects: Option<Seq<Seq<char>>>,
    repo_name: Seq<char>,
    template_file_text: Option<&String>,
) -> Seq<char> {
    expand_spec(
        template_text_spec(config, template_file_text),
        diff,
        branch,
        recent_commits_block(subjects),
        repo_name,
    )
}

/// Build the commit-generation prompt: resolve the template (inline,
/// else file contents, else built-in), reject one that is empty or only
/// whitespace, and expand the placeholders. When the configuration names
/// a template file, the caller reads it and passes the contents in.
pub fn build_commit_prompt(
    config: &CommitGenerationConfig,
    diff: &str,
    branch: &str,
    recent_commits: Option<&Vec<String>>,
    repo_name: &str,
    template_file_text: Option<&String>,
) -> (r: Result<String, LlmError>)
    requires
        config.template is File ==> template_file_text is Some,
    ensures
        is_blank(template_text_spec(config, template_file_text)) ==> (r matches Err(e)
            && e is EmptyTemplate),
        !is_blank(template_text_spec(config, template_file_text)) ==> (r matches Ok(p) && p@
            == commit_prompt_spec(
            config,
            diff@,
            branch@,
            opt_subjects_view(recent_commits),
            repo_name@,
            template_file_text,
        )),
{
    let template: &str = match &config.template {
        TemplateSource::Inline(t) => t.as_str(),
        TemplateSource::File(_) => match template_file_text {
            Some(t) => t.as_str(),
            None => unreached(),
        },
        TemplateSource::BuiltIn => DEFAULT_COMMIT_TEMPLATE,
    };
    let trimmed = trim_str(template);
    if trimmed.as_str().is_empty() {
        return Err(LlmError::EmptyTemplate);
    }
    let block = format_recent_commits(recent_commits);
    let expanded = expand_commit_template(template, diff, branch, block.as_str(), repo_name);
    Ok(expanded)
}

/// Produce a commit message from the staged diff and its context: the
/// deterministic fallback when no generation command is configured,
/// otherwise the generation invocation whose output becomes the message,
/// with the prompt built by [`build_commit_prompt`].
pub fn generate_commit_message(
    config: &CommitGenerationConfig,
    diff: &str,
    branch: &str,
    recent_commits: Option<&Vec<String>>,
    repo_name: &str,
    template_file_text: Option<&String>,
) -> (r: Result<GenerationStep, LlmError>)
    requires
        config.template is File ==> template_file_text is Some,
    ensures
        !generation_configured(config) ==> (r matches Ok(step) && step
            matches GenerationStep::Message(m) && m@ == FALLBACK_COMMIT_MESSAGE@),
        generation_configured(config) && is_blank(template_text_spec(config, template_file_text))
            ==> (r matches Err(e) && e is EmptyTemplate),
        generation_configured(config) && !is_blank(template_text_spec(config, template_file_text))
            ==> (r matches Ok(step) && step matches GenerationStep::Invoke(inv) && (
        config.command matches Some(c) && inv.command@ == c@) && inv.args.deep_view()
            == config.args.deep_view() && inv.prompt@ == commit_prompt_spec(
            config,
            diff@,
            branch@,
            opt_subjects_view(recent_commits),
            repo_name@,
            template_file_text,
        )),
{
    if !is_generation_configured(config) {
        return Ok(GenerationStep::Message(FALLBACK_COMMIT_MESSAGE.to_owned()));
    }
    let prompt = match build_commit_prompt(
        config,
        diff,
        branch,
        recent_commits,
        repo_name,
        template_file_text,
    ) {
        Ok(p) => p,
        Err(e) => {
            return Err(e);
        },
    };
    let command = match &config.command {
        Some(c) => c.clone(),
        None => unreached(),
    };
    let args_slice = config.args.as_slice();
    proof {
        assert(args_slice.deep_view() =~= config.args.deep_view());
    }
    let args = clone_string_slice(args_slice);
    Ok(GenerationStep::Invoke(LlmInvocation { command, args, prompt }))
}

/// Turn the generation command's exit status and captured streams into
/// the message or the reported failure: a non-zero exit fails with the
/// captured standard error, output that trims to nothing is an explicit
/// empty-message failure, and anything else is the trimmed message.
pub fn interpret_llm_output(exit_success: bool, stdout: &str, stderr: &str) -> (r: Result<
    String,
    LlmError,
>)
    ensures
        !exit_success ==> (r matches Err(e) && e matches LlmError::CommandFailed(s) && s@
            == stderr@),
        exit_success && is_blank(stdout@) ==> (r matches Err(e) && e is EmptyMessage),
        exit_success && !is_blank(stdout@) ==> (r matches Ok(m) && m@ == trim_spec(stdout@)),
{
    if !exit_success {
        return Err(LlmError::CommandFailed(stderr.to_owned()));
    }
    let message = trim_str(stdout);
    if message.as_str().is_empty() {
        return Err(LlmError::EmptyMessage);
    }
    Ok(message)
}

} // verus!
