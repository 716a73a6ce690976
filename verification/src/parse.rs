//! Typed parsers for common git outputs.
//!
//! Each parser takes the raw text that a `git` command printed and returns
//! structured entries. Each states its result as a function of the input
//! text, and each error it can return with the inputs on which it comes.
pub mod diff;
pub mod status;
pub mod ls_tree;
pub mod count_objects;
pub mod blame;
pub mod bisect;
pub mod log;
pub mod reflog;
pub mod show;
pub mod shortlog;
pub mod version;
pub mod merge;
pub mod notes;
pub mod pull;
pub mod rebase;
pub mod commit;
pub mod cherry;
pub mod cherry_pick;
pub mod ls_remote;
pub mod submodule;

pub use bisect::{parse_bisect, BisectResult, BisectStatus};
pub use commit::{parse_commit, CommitResult};
pub use diff::{parse_diff_name_status, DiffEntry, DiffKind};
pub use log::{parse_log, CommitEntry, LOG_FORMAT};
pub use ls_tree::{parse_ls_tree, parse_ls_tree_name_only, TreeEntry, TreeObjectType};
pub use merge::{parse_merge, MergeResult};
pub use notes::parse_notes_list;
pub use pull::{parse_pull, PullResult};
pub use reflog::{parse_reflog, ReflogEntry, REFLOG_FORMAT};
pub use status::{parse_status, StatusEntry, StatusKind};
