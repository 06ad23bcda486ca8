use s9pack::config::config_step;
use s9pack::config::orchestrate_config;
use s9pack::config::ConfigState;
use s9pack::config::StepOutcome;
use s9pack::errors::Error;

#[test]
fn all_steps_passing_accepts() {
    let rules = vec![StepOutcome::Passed, StepOutcome::Passed];
    assert!(orchestrate_config(
        &StepOutcome::Passed,
        &StepOutcome::Passed,
        &StepOutcome::Passed,
        &rules
    )
    .is_ok());
}

#[test]
fn no_rules_accepts() {
    assert!(orchestrate_config(
        &StepOutcome::Passed,
        &StepOutcome::Passed,
        &StepOutcome::Passed,
        &Vec::new()
    )
    .is_ok());
}

#[test]
fn schema_validation_failure_propagates_verbatim() {
    match orchestrate_config(
        &StepOutcome::Failed(String::from("schema broken")),
        &StepOutcome::Passed,
        &StepOutcome::Passed,
        &Vec::new(),
    ) {
        Err(Error::ConfigInconsistent(c)) => assert_eq!(c, "schema broken"),
        other => panic!("expected ConfigInconsistent, got {:?}", other),
    }
}

#[test]
fn generation_failure_propagates_verbatim() {
    match orchestrate_config(
        &StepOutcome::Passed,
        &StepOutcome::Failed(String::from("no default")),
        &StepOutcome::Passed,
        &Vec::new(),
    ) {
        Err(Error::ConfigInconsistent(c)) => assert_eq!(c, "no default"),
        other => panic!("expected ConfigInconsistent, got {:?}", other),
    }
}

#[test]
fn failing_rule_is_wrapped_with_its_context() {
    let rules = vec![
        StepOutcome::Passed,
        StepOutcome::Failed(String::from("rule two")),
        StepOutcome::Failed(String::from("rule three")),
    ];
    match orchestrate_config(
        &StepOutcome::Passed,
        &StepOutcome::Passed,
        &StepOutcome::Passed,
        &rules,
    ) {
        Err(Error::ConfigInconsistent(c)) => {
            assert_eq!(c, "Default Config does not satisfy: rule two");
        },
        other => panic!("expected ConfigInconsistent, got {:?}", other),
    }
}

#[test]
fn steps_advance_in_the_fixed_order() {
    let st = ConfigState::AwaitingSchemaValidation;
    let st = config_step(&st, 1, &StepOutcome::Passed).unwrap();
    assert_eq!(st, ConfigState::AwaitingDefaultGeneration);
    let st = config_step(&st, 1, &StepOutcome::Passed).unwrap();
    assert_eq!(st, ConfigState::AwaitingDefaultMatch);
    let st = config_step(&st, 1, &StepOutcome::Passed).unwrap();
    assert_eq!(st, ConfigState::AwaitingRule { index: 0 });
    let st = config_step(&st, 1, &StepOutcome::Passed).unwrap();
    assert_eq!(st, ConfigState::Accepted);
}
