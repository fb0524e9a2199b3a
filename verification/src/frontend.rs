//! What the command line asks for: from parsed arguments to a plan.

use crate::outcome::{ExecutionRequest, RequestView, EXIT_FAILURE, EXIT_SUCCESS};
use crate::registry::{ids_of, ModuleRegistry};
use vstd::hash_map::StringHashMap;
use vstd::prelude::*;

verus! {

/// The arguments of one invocation, as the argument parser sorted them:
/// options with one dash, options with two dashes, each with its value, and
/// whether there was nothing at all.
pub struct Arguments {
    no_args: bool,
    short: StringHashMap<String>,
    long: StringHashMap<String>,
}

/// The mathematical value of [`Arguments`].
pub struct ArgumentsView {
    pub no_args: bool,
    pub short: Map<Seq<char>, Seq<char>>,
    pub long: Map<Seq<char>, Seq<char>>,
}

spec fn values_of(options: Map<Seq<char>, String>) -> Map<Seq<char>, Seq<char>> {
    options.map_values(|value: String| value@)
}

impl View for Arguments {
    type V = ArgumentsView;

    closed spec fn view(&self) -> ArgumentsView {
        ArgumentsView {
            no_args: self.no_args,
            short: values_of(self.short@),
            long: values_of(self.long@),
        }
    }
}

impl Arguments {
    /// Arguments without options. `no_args` says whether the invocation had
    /// no arguments and no piped input at all.
    pub fn new(no_args: bool) -> (arguments: Arguments)
        ensures
            arguments@ == (ArgumentsView { no_args, short: Map::empty(), long: Map::empty() }),
    {
        let arguments = Arguments {
            no_args,
            short: StringHashMap::new(),
            long: StringHashMap::new(),
        };
        assert(arguments@.short =~= Map::empty());
        assert(arguments@.long =~= Map::empty());
        arguments
    }

    /// Records the one-dash option `name` with `value`. A later value
    /// replaces an earlier one.
    pub fn set_short(&mut self, name: String, value: String)
        ensures
            final(self)@ == (ArgumentsView {
                short: old(self)@.short.insert(name@, value@),
                ..old(self)@
            }),
    {
        self.short.insert(name, value);
        assert(self@.short =~= old(self)@.short.insert(name@, value@));
    }

    /// Records the two-dash option `name` with `value`. A later value
    /// replaces an earlier one.
    pub fn set_long(&mut self, name: String, value: String)
        ensures
            final(self)@ == (ArgumentsView {
                long: old(self)@.long.insert(name@, value@),
                ..old(self)@
            }),
    {
        self.long.insert(name, value);
        assert(self@.long =~= old(self)@.long.insert(name@, value@));
    }
}

/// What one invocation is to do.
#[derive(Debug, Clone, PartialEq, Eq)]
pub enum Plan {
    /// Print the usage and end with success, before any module runs.
    ShowHelp,
    /// Report that the target is missing and end with failure; no module
    /// runs.
    MissingTarget,
    /// There is a target but no module was chosen: nothing to do.
    Idle,
    /// Dispatch this request.
    Run(ExecutionRequest),
}

/// The mathematical value of a [`Plan`].
pub enum PlanView {
    ShowHelp,
    MissingTarget,
    Idle,
    Run(RequestView),
}

impl View for Plan {
    type V = PlanView;

    open spec fn view(&self) -> PlanView {
        match self {
            Plan::ShowHelp => PlanView::ShowHelp,
            Plan::MissingTarget => PlanView::MissingTarget,
            Plan::Idle => PlanView::Idle,
            Plan::Run(request) => PlanView::Run(request@),
        }
    }
}

impl PlanView {
    /// The exit status that the plan alone decides: help and having nothing
    /// to do end with success, a missing target ends with failure. Where a
    /// module is dispatched, its outcome decides.
    pub open spec fn exit_status(self) -> Option<int> {
        match self {
            PlanView::ShowHelp => Some(EXIT_SUCCESS as int),
            PlanView::MissingTarget => Some(EXIT_FAILURE as int),
            PlanView::Idle => Some(EXIT_SUCCESS as int),
            PlanView::Run(_) => None,
        }
    }
}

impl Plan {
    /// The exit status that the plan alone decides, if it decides one.
    pub fn exit_status(&self) -> (status: Option<i32>)
        ensures
            match status {
                Some(code) => self@.exit_status() == Some(code as int),
                None => self@.exit_status() is None,
            },
    {
        match self {
            Plan::ShowHelp => Some(EXIT_SUCCESS),
            Plan::MissingTarget => Some(EXIT_FAILURE),
            Plan::Idle => Some(EXIT_SUCCESS),
            Plan::Run(_) => None,
        }
    }
}

/// Help is asked for by `-h`, by `--help`, or by giving no arguments at all.
pub open spec fn wants_help(arguments: ArgumentsView) -> bool {
    arguments.no_args || arguments.short.contains_key("h"@) || arguments.long.contains_key(
        "help"@,
    )
}

/// The target is the value of `--target`, or else that of `-t`: where both
/// are given, `--target` wins.
pub open spec fn chosen_target(arguments: ArgumentsView) -> Option<Seq<char>> {
    if arguments.long.contains_key("target"@) {
        Some(arguments.long["target"@])
    } else if arguments.short.contains_key("t"@) {
        Some(arguments.short["t"@])
    } else {
        None
    }
}

/// `position` is the first place in `ids` whose identifier is given as a
/// two-dash option.
pub open spec fn is_first_flagged(
    ids: Seq<Seq<char>>,
    long: Map<Seq<char>, Seq<char>>,
    position: int,
) -> bool {
    &&& 0 <= position < ids.len()
    &&& long.contains_key(ids[position])
    &&& forall|earlier: int| 0 <= earlier < position ==> !long.contains_key(#[trigger] ids[earlier])
}

/// The module to run is the value of `--module`, or else the first
/// registered module whose identifier is given as an option of its own
/// (`--fetch` for the module `fetch`). One invocation runs one module.
pub open spec fn chosen_module(arguments: ArgumentsView, ids: Seq<Seq<char>>) -> Option<
    Seq<char>,
> {
    if arguments.long.contains_key("module"@) {
        Some(arguments.long["module"@])
    } else if exists|position: int| is_first_flagged(ids, arguments.long, position) {
        Some(ids[choose|position: int| is_first_flagged(ids, arguments.long, position)])
    } else {
        None
    }
}

/// The plan for `arguments` where the registered identifiers are `ids`:
/// help comes first, then the target is required, then the module is chosen.
pub open spec fn plan_of(arguments: ArgumentsView, ids: Seq<Seq<char>>) -> PlanView {
    if wants_help(arguments) {
        PlanView::ShowHelp
    } else {
        match chosen_target(arguments) {
            None => PlanView::MissingTarget,
            Some(target) => match chosen_module(arguments, ids) {
                None => PlanView::Idle,
                Some(module_id) => PlanView::Run(RequestView { module_id, target }),
            },
        }
    }
}

impl Arguments {
    /// Whether help is asked for.
    pub fn wants_help(&self) -> (help: bool)
        ensures
            help == wants_help(self@),
    {
        self.no_args || self.short.contains_key("h") || self.long.contains_key("help")
    }

    /// The target, if one is given.
    pub fn target(&self) -> (target: Option<String>)
        ensures
            match target {
                Some(value) => chosen_target(self@) == Some(value@),
                None => chosen_target(self@) is None,
            },
    {
        match self.long.get("target") {
            Some(value) => Some(value.clone()),
            None => match self.short.get("t") {
                Some(value) => Some(value.clone()),
                None => None,
            },
        }
    }

    /// The identifier of the module to run, if one is chosen among `ids`.
    pub fn module(&self, ids: &Vec<String>) -> (module_id: Option<String>)
        ensures
            match module_id {
                Some(id) => chosen_module(self@, ids.deep_view()) == Some(id@),
                None => chosen_module(self@, ids.deep_view()) is None,
            },
    {
        if let Some(value) = self.long.get("module") {
            return Some(value.clone());
        }
        let ghost names = ids.deep_view();
        let mut position: usize = 0;
        while position < ids.len()
            invariant
                position <= ids@.len(),
                names == ids.deep_view(),
                !self@.long.contains_key("module"@),
                forall|earlier: int|
                    0 <= earlier < position ==> !self@.long.contains_key(#[trigger] names[earlier]),
            decreases ids@.len() - position,
        {
            if self.long.contains_key(ids[position].as_str()) {
                assert(is_first_flagged(names, self@.long, position as int));
                return Some(ids[position].clone());
            }
            position += 1;
        }
        None
    }
}

/// Decides what one invocation is to do, given its arguments and the modules
/// that exist.
pub fn plan<M>(arguments: &Arguments, registry: &ModuleRegistry<M>) -> (plan: Plan)
    ensures
        plan@ == plan_of(arguments@, ids_of(registry@)),
{
    if arguments.wants_help() {
        return Plan::ShowHelp;
    }
    match arguments.target() {
        None => Plan::MissingTarget,
        Some(target) => {
            let ids = registry.ids();
            assert(ids.deep_view() =~= ids_of(registry@));
            match arguments.module(&ids) {
                None => Plan::Idle,
                Some(module_id) => Plan::Run(ExecutionRequest::new(module_id, target)),
            }
        },
    }
}

} // verus!
