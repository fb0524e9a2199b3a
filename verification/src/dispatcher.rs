//! The dispatcher: the one place where a module is invoked.

use crate::module::BahamutModule;
use crate::outcome::{
    BahamutError, ErrorView, ExecutionOutcome, ExecutionRequest, OutcomeView, RunReport,
    RunReportView,
};
use crate::registry::{has_id, lookup, ModuleRegistry, Registered};
use vstd::prelude::*;

verus! {

/// Whether a request is let through to a module, and to which.
///
/// A request names a module by a non-empty identifier that the registry
/// knows, or it is refused as `UnknownModule`. It then carries a non-empty
/// target, or it is refused as `MissingTarget`.
pub open spec fn admission<M>(
    entries: Seq<Registered<M>>,
    module_id: Seq<char>,
    target: Seq<char>,
) -> Result<M, ErrorView> {
    if module_id.len() == 0 || !has_id(entries, module_id) {
        Err(ErrorView::UnknownModule)
    } else if target.len() == 0 {
        Err(ErrorView::MissingTarget)
    } else {
        Ok(lookup(entries, module_id)->Some_0)
    }
}

/// The report of a call of `execute` that returned normally.
pub open spec fn report_of(result: Result<(), Seq<char>>) -> RunReportView {
    match result {
        Ok(_) => RunReportView::Completed,
        Err(message) => RunReportView::Failed(message),
    }
}

/// Resolves a requested module, invokes it, and turns whatever happened into
/// one shape of outcome.
///
/// `execute` does all of it in one call. Its two halves are public too:
/// `screen` decides, before anything runs, whether and which module is
/// invoked, and `conclude` turns the report of the run into the outcome. A
/// caller that runs modules it cannot vouch for makes the call between the
/// two itself, under a guard of its own, and reports a fault it caught as
/// `RunReport::Faulted`.
pub struct Dispatcher<M> {
    registry: ModuleRegistry<M>,
}

impl<M> Dispatcher<M> {
    #[verifier::type_invariant]
    spec fn sound(&self) -> bool {
        self.registry.wf()
    }

    /// The registrations this dispatcher serves, oldest first.
    pub closed spec fn modules(&self) -> Seq<Registered<M>> {
        self.registry@
    }
}

impl<M: BahamutModule> Dispatcher<M> {
    /// A dispatcher over `registry`. From here on the registry is read-only.
    pub fn new(registry: ModuleRegistry<M>) -> (dispatcher: Dispatcher<M>)
        requires
            registry.wf(),
        ensures
            dispatcher.modules() == registry@,
    {
        Dispatcher { registry }
    }

    /// The registry this dispatcher serves.
    pub fn registry(&self) -> (registry: &ModuleRegistry<M>)
        ensures
            registry.wf(),
            registry@ == self.modules(),
    {
        proof {
            use_type_invariant(self);
        }
        &self.registry
    }

    /// The name under which the user knows the module `module_id`: the
    /// module's own name, or the identifier itself where no module is
    /// registered under it.
    pub fn display_name(&self, module_id: &str) -> (name: String)
        ensures
            match lookup(self.modules(), module_id@) {
                Some(module) => {
                    &&& name@.len() > 0
                    &&& module.stated_name() matches Some(stated) ==> name@ == stated
                },
                None => name@ == module_id@,
            },
    {
        proof {
            use_type_invariant(self);
        }
        match self.registry.resolve(module_id) {
            Some(module) => module.name().to_owned(),
            None => module_id.to_owned(),
        }
    }

    /// Decides whether a request is let through, without invoking anything.
    ///
    /// Returns the module to invoke, or the error to report.
    pub fn screen(&self, module_id: &str, target: &str) -> (decision: Result<&M, BahamutError>)
        ensures
            match decision {
                Ok(module) => admission(self.modules(), module_id@, target@) == Ok::<M, ErrorView>(
                    *module,
                ),
                Err(error) => admission(self.modules(), module_id@, target@) == Err::<M, ErrorView>(
                    error@,
                ),
            },
    {
        proof {
            use_type_invariant(self);
        }
        if module_id.is_empty() {
            return Err(BahamutError::UnknownModule);
        }
        match self.registry.resolve(module_id) {
            None => Err(BahamutError::UnknownModule),
            Some(module) => {
                if target.is_empty() {
                    Err(BahamutError::MissingTarget)
                } else {
                    Ok(module)
                }
            },
        }
    }

    /// Turns the report of a finished run into the outcome of the dispatch.
    ///
    /// A run that completed is a success. A run that failed is a failure
    /// that names the module and carries the module's message, and so is a
    /// run that faulted: a fault inside a module never becomes more than the
    /// failure of that one dispatch.
    pub fn conclude(module_id: &str, report: RunReport) -> (outcome: ExecutionOutcome)
        ensures
            outcome@ == OutcomeView::of_run(module_id@, report@),
    {
        match report.into_error() {
            None => ExecutionOutcome::Success,
            Some(error) => ExecutionOutcome::failure(module_id, &error),
        }
    }

    /// Runs the module `module_id` against `target`.
    ///
    /// A request that is refused fails with the message of its error
    /// and no module is invoked. Otherwise the module runs, once, and the
    /// outcome is that of its report.
    pub fn execute(&self, module_id: &str, target: &str) -> (outcome: ExecutionOutcome)
        ensures
            match admission(self.modules(), module_id@, target@) {
                Err(error) => outcome@ == OutcomeView::failure(module_id@, error),
                Ok(module) => match module.foreseen(target@) {
                    Some(result) => outcome@ == OutcomeView::of_run(module_id@, report_of(result)),
                    None => outcome@ is Failure ==> outcome@->module_id == module_id@,
                },
            },
    {
        match self.screen(module_id, target) {
            Err(error) => ExecutionOutcome::failure(module_id, &error),
            Ok(module) => {
                let result = module.execute(target);
                Self::conclude(module_id, RunReport::from_result(result))
            },
        }
    }

    /// Runs the module that `request` names against the target it carries.
    pub fn dispatch(&self, request: &ExecutionRequest) -> (outcome: ExecutionOutcome)
        ensures
            match admission(self.modules(), request@.module_id, request@.target) {
                Err(error) => outcome@ == OutcomeView::failure(request@.module_id, error),
                Ok(module) => match module.foreseen(request@.target) {
                    Some(result) => outcome@ == OutcomeView::of_run(
                        request@.module_id,
                        report_of(result),
                    ),
                    None => outcome@ is Failure ==> outcome@->module_id == request@.module_id,
                },
            },
    {
        self.execute(request.module_id.as_str(), request.target.as_str())
    }
}

/// A request for a module that is not registered is refused as
/// `UnknownModule`, whatever its target: no module is handed out to be
/// invoked.
pub proof fn lemma_unknown_module_is_refused<M>(
    entries: Seq<Registered<M>>,
    module_id: Seq<char>,
    target: Seq<char>,
)
    requires
        !has_id(entries, module_id),
    ensures
        admission(entries, module_id, target) == Err::<M, ErrorView>(ErrorView::UnknownModule),
        OutcomeView::failure(module_id, admission(entries, module_id, target)->Err_0) == (
        OutcomeView::Failure { module_id, message: "unknown module"@ }),
{
}

/// A request without a target is refused, whatever module it names: no
/// module is handed out to be invoked, and the refusal of a registered
/// module says that the target is required.
pub proof fn lemma_empty_target_is_refused<M>(entries: Seq<Registered<M>>, module_id: Seq<char>)
    ensures
        admission(entries, module_id, Seq::<char>::empty()) is Err,
        has_id(entries, module_id) && module_id.len() > 0 ==> OutcomeView::failure(
            module_id,
            admission(entries, module_id, Seq::<char>::empty())->Err_0,
        ) == (OutcomeView::Failure { module_id, message: "target required"@ }),
{
}

/// A request that is let through names a registered module and carries a
/// target: a module is only ever invoked with a target that is not empty.
pub proof fn lemma_admitted_request_is_sound<M>(
    entries: Seq<Registered<M>>,
    module_id: Seq<char>,
    target: Seq<char>,
)
    requires
        admission(entries, module_id, target) is Ok,
    ensures
        target.len() > 0,
        module_id.len() > 0,
        lookup(entries, module_id) == Some(admission(entries, module_id, target)->Ok_0),
{
}

/// Only a run that completed is a success. Whatever else a run came to, an
/// error or a fault, is a failure of that one dispatch: it names the module
/// and carries the message of the error or the detail of the fault.
pub proof fn lemma_every_run_is_normalised(module_id: Seq<char>, report: RunReportView)
    ensures
        OutcomeView::of_run(module_id, report) is Success <==> report is Completed,
        report matches RunReportView::Failed(message) ==> OutcomeView::of_run(module_id, report)
            == (OutcomeView::Failure { module_id, message }),
        report matches RunReportView::Faulted { detail } ==> OutcomeView::of_run(module_id, report)
            == (OutcomeView::Failure { module_id, message: detail }),
{
}

} // verus!
