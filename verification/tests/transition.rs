use contract::{AgentAction, AgentActionAttestation, AgentContract, DecodeError};
use hyli_contract_sdk::caller::ExecutionContext;
use hyli_contract_sdk::{Blob, BlobData, ContractName, Identity};

fn state(agent: &str, action_name: &str, action_successful: bool) -> AgentContract {
    AgentContract {
        attestation: AgentActionAttestation {
            agent: agent.to_string(),
            action_name: action_name.to_string(),
            action_successful,
        },
    }
}

fn set(agent: &str, action_name: &str) -> AgentAction {
    AgentAction::SetAgentAction {
        agent: agent.to_string(),
        action_name: action_name.to_string(),
    }
}

fn context() -> ExecutionContext {
    ExecutionContext::new(Identity::new("alice@wallet"), ContractName::new("agent"))
}

#[test]
fn set_agent_action_on_empty_state() {
    let mut contract = state("", "", false);
    let (output, _, effects) = contract
        .apply(set("bot-1", "transfer"), context())
        .unwrap();
    assert_eq!(contract, state("bot-1", "transfer", false));
    assert_eq!(output, "Agent: bot-1, Action: transfer, Success: false");
    assert!(effects.is_empty());
}

#[test]
fn mark_execution_status_after_set_agent_action() {
    let mut contract = state("", "", false);
    contract
        .apply(set("bot-1", "transfer"), context())
        .unwrap();
    let (output, _, effects) = contract
        .apply(AgentAction::MarkExecutionStatus { success: true }, context())
        .unwrap();
    assert_eq!(contract, state("bot-1", "transfer", true));
    assert_eq!(output, "Agent: bot-1, Action: transfer, Success: true");
    assert!(effects.is_empty());
}

#[test]
fn mark_execution_status_false_reports_false() {
    let mut contract = state("bot-1", "transfer", true);
    let (output, _, _) = contract
        .apply(AgentAction::MarkExecutionStatus { success: false }, context())
        .unwrap();
    assert_eq!(contract, state("bot-1", "transfer", false));
    assert_eq!(output, "Agent: bot-1, Action: transfer, Success: false");
}

#[test]
fn set_agent_action_leaves_the_outcome() {
    for outcome in [false, true] {
        let mut contract = state("old", "older", outcome);
        contract.apply(set("new", "newer"), context()).unwrap();
        assert_eq!(contract.attestation.action_successful, outcome);
        assert_eq!(contract.attestation.agent, "new");
        assert_eq!(contract.attestation.action_name, "newer");
    }
}

#[test]
fn mark_execution_status_leaves_agent_and_action() {
    for outcome in [false, true] {
        let mut contract = state("bot-7", "swap", !outcome);
        contract
            .apply(AgentAction::MarkExecutionStatus { success: outcome }, context())
            .unwrap();
        assert_eq!(contract.attestation.agent, "bot-7");
        assert_eq!(contract.attestation.action_name, "swap");
        assert_eq!(contract.attestation.action_successful, outcome);
    }
}

#[test]
fn same_action_twice_is_as_once() {
    let mut once = state("x", "y", true);
    once.apply(set("bot-1", "transfer"), context()).unwrap();
    let mut twice = state("x", "y", true);
    twice.apply(set("bot-1", "transfer"), context()).unwrap();
    let (output, _, _) = twice.apply(set("bot-1", "transfer"), context()).unwrap();
    assert_eq!(once, twice);
    assert_eq!(output, "Agent: bot-1, Action: transfer, Success: true");

    let mut marked = state("x", "y", false);
    marked
        .apply(AgentAction::MarkExecutionStatus { success: true }, context())
        .unwrap();
    let after_one = marked.clone();
    marked
        .apply(AgentAction::MarkExecutionStatus { success: true }, context())
        .unwrap();
    assert_eq!(marked, after_one);
}

#[test]
fn context_is_handed_back_unchanged() {
    let mut ctx = ExecutionContext::new(Identity::new("carol@wallet"), ContractName::new("ledger"));
    ctx.callees_blobs.push(Blob {
        contract_name: ContractName::new("other"),
        data: BlobData(vec![1, 2, 3]),
    });
    let expected = ctx.clone();
    let mut contract = state("", "", false);
    let (_, returned, _) = contract.apply(set("a", "b"), ctx).unwrap();
    assert_eq!(returned.caller, expected.caller);
    assert_eq!(returned.contract_name, expected.contract_name);
    assert_eq!(returned.callees_blobs, expected.callees_blobs);

    let (_, returned, _) = contract
        .apply(AgentAction::MarkExecutionStatus { success: true }, ExecutionContext::default())
        .unwrap();
    assert_eq!(returned.caller, Identity::default());
    assert_eq!(returned.contract_name, ContractName::default());
    assert!(returned.callees_blobs.is_empty());
}

#[test]
fn empty_texts_are_accepted() {
    let mut contract = state("bot-1", "transfer", true);
    let (output, _, _) = contract.apply(set("", ""), context()).unwrap();
    assert_eq!(contract, state("", "", true));
    assert_eq!(output, "Agent: , Action: , Success: true");
}

#[test]
fn summary_reports_the_three_fields() {
    assert_eq!(
        state("bot-1", "transfer", false).attestation.summary(),
        "Agent: bot-1, Action: transfer, Success: false"
    );
    assert_eq!(
        state("ågent", "überweisung → ok", true).attestation.summary(),
        "Agent: ågent, Action: überweisung → ok, Success: true"
    );
}

#[test]
fn apply_never_fails() {
    let mut contract = state("", "", false);
    assert!(contract.apply(set("a", "b"), context()).is_ok());
    assert!(contract
        .apply(AgentAction::MarkExecutionStatus { success: false }, context())
        .is_ok());
}

#[test]
fn clones_and_equality_go_by_fields() {
    let contract = state("bot-1", "transfer", true);
    assert_eq!(contract.clone(), contract);
    assert_ne!(contract, state("bot-1", "transfer", false));
    assert_ne!(contract, state("bot-2", "transfer", true));
    assert_ne!(contract, state("bot-1", "swap", true));
    let action = set("bot-1", "transfer");
    assert_eq!(action.clone(), action);
    assert_ne!(action, set("bot-1", "swap"));
    assert_ne!(action, AgentAction::MarkExecutionStatus { success: true });
    assert_eq!(
        AgentAction::MarkExecutionStatus { success: true },
        AgentAction::MarkExecutionStatus { success: true }
    );
    assert_ne!(
        AgentAction::MarkExecutionStatus { success: true },
        AgentAction::MarkExecutionStatus { success: false }
    );
}

#[test]
fn execute_decodes_the_action_and_applies_it() {
    let mut contract = state("", "", false);
    let raw = set("bot-1", "transfer").as_bytes().unwrap();
    let (output, _, effects) = contract.execute(&raw, context()).unwrap();
    assert_eq!(contract, state("bot-1", "transfer", false));
    assert_eq!(output, "Agent: bot-1, Action: transfer, Success: false");
    assert!(effects.is_empty());

    let (output, returned, effects) = contract.execute(&[1, 1], context()).unwrap();
    assert_eq!(contract, state("bot-1", "transfer", true));
    assert_eq!(output, "Agent: bot-1, Action: transfer, Success: true");
    assert_eq!(returned.caller, context().caller);
    assert_eq!(returned.contract_name, context().contract_name);
    assert!(effects.is_empty());
}

#[test]
fn execute_on_a_blob_does_what_apply_does() {
    let actions = vec![
        set("bot-1", "transfer"),
        AgentAction::MarkExecutionStatus { success: true },
        set("ågent", "送金"),
        AgentAction::MarkExecutionStatus { success: false },
    ];
    let mut applied = state("", "", false);
    let mut executed = state("", "", false);
    for action in actions {
        let blob = action.as_blob("agent");
        let (expected, _, _) = applied.apply(action, context()).unwrap();
        let (output, _, _) = executed.execute(&blob.data, context()).unwrap();
        assert_eq!(output, expected);
        assert_eq!(executed, applied);
    }
    assert_eq!(executed, state("ågent", "送金", false));
}

#[test]
fn execute_on_malformed_input_fails_and_leaves_the_state() {
    let malformed: Vec<Vec<u8>> = vec![
        vec![],
        vec![2],
        vec![1],
        vec![1, 7],
        vec![1, 1, 1],
        vec![0, 5, 0, 0, 0, b'b', b'o'],
        vec![0, 1, 0, 0, 0, 0xff, 0, 0, 0, 0],
    ];
    for raw in malformed {
        let mut contract = state("bot-1", "transfer", true);
        let digest = contract.as_digest();
        assert!(matches!(
            contract.execute(&raw, context()),
            Err(DecodeError)
        ));
        assert_eq!(contract, state("bot-1", "transfer", true));
        assert_eq!(contract.as_digest(), digest);
    }
}
