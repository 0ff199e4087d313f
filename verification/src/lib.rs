//! Composition of subgraph schemas into one supergraph, with every problem
//! reported as data.
//!
//! A run validates the subgraphs, has the host compose them, has the
//! connectors of the result expanded, has the host check satisfiability, and
//! reports the issues found on the way. [`HybridComposition`] is the run and
//! the host's part in it.

pub mod build_plugin;
pub mod composition;
pub mod expansion;
pub mod issue;
pub mod javascript;
pub mod js;
pub mod rewrite;
pub mod satellite;
pub mod sink;
pub mod source;
pub mod validation;

pub use composition::{HybridComposition, SupergraphSdl};
pub use issue::{Issue, PartialSuccess, Severity};
pub use source::{SourcePoint, SubgraphLocation};
