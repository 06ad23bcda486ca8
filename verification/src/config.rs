//! Config Cross-Validation Orchestrator: verification runs four external
//! operations in a fixed order — validate the schema against the manifest,
//! generate a default configuration value, confirm the default matches the
//! schema, then check the default against every consistency rule in
//! declared order. The semantic engine behind those operations is outside
//! this library; what is enforced here is the order, and that any failing
//! step aborts the whole verification with its context.

use vstd::prelude::*;
use vstd::string::StringExecFns;
use crate::errors::Error;
use crate::text::concat_strs;

verus! {

/// The outcome one external operation reports back: it passed, or failed
/// with a context describing why.
#[derive(Debug, Clone)]
pub enum StepOutcome {
    Passed,
    Failed(String),
}

/// The orchestrator's position in the fixed call order.
#[derive(Clone, Copy, Debug, PartialEq, Eq, Structural)]
pub enum ConfigState {
    /// Awaiting the schema's structural validation against the manifest.
    AwaitingSchemaValidation,
    /// Awaiting the generation of a default configuration value.
    AwaitingDefaultGeneration,
    /// Awaiting confirmation that the generated default matches the schema.
    AwaitingDefaultMatch,
    /// Awaiting the check of the rule at `index` against the default.
    AwaitingRule { index: usize },
    /// Every step passed; the configuration sections are consistent.
    Accepted,
}

/// A rule-awaiting state indexes an existing rule.
pub open spec fn config_state_wf(st: ConfigState, n_rules: int) -> bool {
    st matches ConfigState::AwaitingRule { index } ==> index < n_rules
}

/// The successor of a state once its step passed.
pub open spec fn spec_config_next(st: ConfigState, n_rules: int) -> ConfigState {
    match st {
        ConfigState::AwaitingSchemaValidation => ConfigState::AwaitingDefaultGeneration,
        ConfigState::AwaitingDefaultGeneration => ConfigState::AwaitingDefaultMatch,
        ConfigState::AwaitingDefaultMatch => if n_rules > 0 {
            ConfigState::AwaitingRule { index: 0 }
        } else {
            ConfigState::Accepted
        },
        ConfigState::AwaitingRule { index } => if index + 1 < n_rules {
            ConfigState::AwaitingRule { index: (index + 1) as usize }
        } else {
            ConfigState::Accepted
        },
        ConfigState::Accepted => ConfigState::Accepted,
    }
}

/// The context a failing step's error carries: a failing rule is wrapped
/// with the fixed rule-failure context, every other step's context is
/// propagated verbatim.
pub open spec fn spec_failure_context(st: ConfigState, ctx: Seq<char>) -> Seq<char> {
    if st is AwaitingRule {
        "Default Config does not satisfy: "@ + ctx
    } else {
        ctx
    }
}

/// One step of the orchestration: in state `st`, the external operation
/// reported `outcome`. A pass advances the fixed order; a failure is a
/// terminal `ConfigInconsistent` error carrying the step's context.
pub fn config_step(st: &ConfigState, n_rules: usize, outcome: &StepOutcome) -> (r: Result<
    ConfigState,
    Error,
>)
    requires
        !(*st is Accepted),
        config_state_wf(*st, n_rules as int),
    ensures
        r is Ok <==> *outcome is Passed,
        r is Ok ==> r->Ok_0 == spec_config_next(*st, n_rules as int) && config_state_wf(
            r->Ok_0,
            n_rules as int,
        ),
        r is Err ==> r->Err_0 is ConfigInconsistent,
        r is Err ==> (*outcome matches StepOutcome::Failed(ctx)
            ==> r->Err_0->ConfigInconsistent_0@ == spec_failure_context(*st, ctx@)),
{
    match outcome {
        StepOutcome::Passed => {
            match st {
                ConfigState::AwaitingSchemaValidation => Ok(
                    ConfigState::AwaitingDefaultGeneration,
                ),
                ConfigState::AwaitingDefaultGeneration => Ok(ConfigState::AwaitingDefaultMatch),
                ConfigState::AwaitingDefaultMatch => {
                    if n_rules > 0 {
                        Ok(ConfigState::AwaitingRule { index: 0 })
                    } else {
                        Ok(ConfigState::Accepted)
                    }
                },
                ConfigState::AwaitingRule { index } => {
                    if *index + 1 < n_rules {
                        Ok(ConfigState::AwaitingRule { index: *index + 1 })
                    } else {
                        Ok(ConfigState::Accepted)
                    }
                },
                ConfigState::Accepted => Ok(ConfigState::Accepted),
            }
        },
        StepOutcome::Failed(ctx) => {
            if let ConfigState::AwaitingRule { index: _ } = st {
                Err(
                    Error::ConfigInconsistent(
                        concat_strs("Default Config does not satisfy: ", ctx.as_str()),
                    ),
                )
            } else {
                Err(Error::ConfigInconsistent(ctx.clone()))
            }
        },
    }
}

/// Runs the whole fixed sequence over the reported outcomes: schema
/// validation, default generation, default match, then every rule in
/// declared order. Succeeds exactly when every step passed; the first
/// failure aborts with its context.
pub fn orchestrate_config(
    schema_valid: &StepOutcome,
    default_generated: &StepOutcome,
    default_matches: &StepOutcome,
    rule_results: &Vec<StepOutcome>,
) -> (r: Result<(), Error>)
    ensures
        r is Ok <==> (schema_valid is Passed && default_generated is Passed
            && default_matches is Passed && (forall|i: int|
            0 <= i < rule_results@.len() ==> rule_results@[i] is Passed)),
        r is Err ==> r->Err_0 is ConfigInconsistent,
        r is Err ==> (schema_valid matches StepOutcome::Failed(ctx)
            ==> r->Err_0->ConfigInconsistent_0@ == ctx@),
        r is Err && schema_valid is Passed ==> (default_generated matches StepOutcome::Failed(ctx)
            ==> r->Err_0->ConfigInconsistent_0@ == ctx@),
        r is Err && schema_valid is Passed && default_generated is Passed ==> (
        default_matches matches StepOutcome::Failed(ctx) ==> r->Err_0->ConfigInconsistent_0@
            == ctx@),
        (r is Err && schema_valid is Passed && default_generated is Passed
            && default_matches is Passed) ==> (exists|i: int|
            0 <= i < rule_results@.len() && (#[trigger] rule_results@[i]) is Failed && (forall|
                j: int,
            |
                0 <= j < i ==> rule_results@[j] is Passed)
                && r->Err_0->ConfigInconsistent_0@ == "Default Config does not satisfy: "@
                + rule_results@[i]->Failed_0@),
{
    let n = rule_results.len();
    let st = ConfigState::AwaitingSchemaValidation;
    let st = config_step(&st, n, schema_valid)?;
    let st = config_step(&st, n, default_generated)?;
    let mut st = config_step(&st, n, default_matches)?;
    let mut i: usize = 0;
    while i < n
        invariant
            0 <= i <= n,
            n == rule_results@.len(),
            i < n ==> st == (ConfigState::AwaitingRule { index: i }),
            i == n ==> st is Accepted,
            forall|j: int| 0 <= j < i ==> rule_results@[j] is Passed,
            schema_valid is Passed,
            default_generated is Passed,
            default_matches is Passed,
        decreases n - i,
    {
        match config_step(&st, n, &rule_results[i]) {
            Ok(st2) => {
                st = st2;
            },
            Err(e) => {
                return Err(e);
            },
        }
        i = i + 1;
    }
    Ok(())
}

} // verus!
