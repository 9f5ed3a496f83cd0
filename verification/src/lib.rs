//! Verified core of a git worktree workflow tool.
//!
//! The crate covers the logic that decides what the tool does, stated and
//! proved over mathematical models of the values involved:
//!
//! * lifecycle hook orchestration: which configured commands run for a
//!   stage, in what order, and how failures and the force flag cut the run
//!   short ([`hooks`]);
//! * the shell directive bridge: encoding a change-directory request as a
//!   marked line of output that an enclosing shell wrapper interprets
//!   ([`directive`]);
//! * commit and squash message generation: template expansion, prompt
//!   building, the deterministic fallbacks, and the interpretation of a
//!   generation command's output ([`llm`] and [`template`]).
//!
//! Everything that touches a process, the filesystem, or a git repository
//! stays outside this crate; callers gather those plain values and hand
//! them in.

pub mod directive;
pub mod hooks;
pub mod llm;
pub mod template;
pub mod text;
