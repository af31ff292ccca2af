//! A dual-pane file manager's engine: path resolution, tree-copy planning,
//! the atomic write/copy protocol, metadata replication policy, and the
//! conflict/progress coordinator, each stated over plain values.
use vstd::prelude::*;

pub mod app;
pub mod atomic;
pub mod coordinator;
pub mod handlers;
pub mod keys;
pub mod listing;
pub mod metadata;
pub mod mode;
pub mod ops;
pub mod panel;
pub mod paths;
pub mod preview;
pub mod stats;
pub mod tree;
pub mod watch;

verus! {

/// A greeting for `name`.
pub fn greet(name: &str) -> (r: String)
    ensures
        r@ == "Hello, "@ + name@ + "!"@,
{
    let mut s = String::from_str("Hello, ");
    s.append(name);
    s.append("!");
    s
}

} // verus!
