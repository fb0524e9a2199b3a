//! A module execution framework for a reconnaissance toolkit.
//!
//! A *module* is a unit of reconnaissance work that satisfies the
//! [`BahamutModule`] contract. The [`ModuleRegistry`] maps stable
//! identifiers to modules and keeps them in registration order. The
//! [`Dispatcher`] is the single place where a module is invoked and where
//! whatever happened is normalised into an [`ExecutionOutcome`]. The
//! [`frontend`] decides what one invocation of the command line is to do, and
//! [`report`] words what the user is shown.

pub mod dispatcher;
pub mod domain_fetcher;
pub mod frontend;
pub mod module;
pub mod outcome;
pub mod registry;
pub mod report;

pub use dispatcher::Dispatcher;
pub use domain_fetcher::DomainFetcher;
pub use frontend::{plan, Arguments, Plan};
pub use module::{BahamutModule, ExecutionError};
pub use outcome::{
    BahamutError, ExecutionOutcome, ExecutionRequest, RunReport, EXIT_FAILURE, EXIT_SUCCESS,
};
pub use registry::{ModuleInfo, ModuleRegistry};
