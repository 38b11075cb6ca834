//! A small rule-checking engine.
//!
//! A set of checks runs against a unit of analysis — a single source file's
//! parsed syntax tree, or a repository's commit history — and each check emits
//! zero or more diagnostics with rendered source snippets and remediation
//! text.  Callers can suppress findings by file path or by declared namespace.

pub mod check;
pub mod check_async_for_task;
pub mod check_error;
pub mod check_no_todos_in_commited_code;
pub mod contexts;
pub mod filters;
pub mod laws;
pub mod parse_tree;
pub mod render;
pub mod text;

pub use check::Check;
pub use check_async_for_task::CheckAsyncForTask;
pub use check_error::CheckError;
pub use check_error::CheckErrorView;
pub use check_error::CheckViolation;
pub use check_error::Provenance;
pub use check_no_todos_in_commited_code::CheckNoTodosInCommittedCode;
pub use contexts::Blob;
pub use contexts::Change;
pub use contexts::ChangedFile;
pub use contexts::CheckContext;
pub use contexts::Commit;
pub use contexts::DirectoryContext;
pub use contexts::FileContext;
pub use contexts::GitContext;
pub use contexts::Repository;
pub use contexts::Span;
pub use filters::CheckFilter;
pub use filters::CompiledRegex;
pub use parse_tree::NodeField;
pub use parse_tree::SyntaxNode;
