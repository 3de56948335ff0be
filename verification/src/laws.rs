//! What holds of the encoding and of the transition, for every value.
//!
//! The laws are stated over the mathematical values of states and actions and
//! over the functions that the contracts of the executable code are written
//! with, so each of them carries over to what that code returns.

use crate::action::ActionView;
use crate::attestation::AttestationView;
use crate::wire::{
    flag_bytes, lemma_flag_bytes_parsed, lemma_parse_flag_bytes, lemma_parse_text_bytes,
    lemma_text_bytes_parsed, parse_flag, parse_text, text_bytes,
};
use vstd::prelude::*;

verus! {

/// Round trip of a state: a state that has an encoding is decoded from it
/// unchanged.
pub proof fn lemma_state_decodes_from_its_bytes(state: AttestationView)
    requires
        state.encodable(),
    ensures
        AttestationView::decode(state.bytes()) == Some(state),
{
    let flag = flag_bytes(state.action_successful);
    let after_agent = text_bytes(state.action_name) + flag;
    assert(state.bytes() =~= text_bytes(state.agent) + after_agent);
    lemma_parse_text_bytes(state.agent, after_agent);
    lemma_parse_text_bytes(state.action_name, flag);
    assert(flag =~= flag + Seq::<u8>::empty());
    lemma_parse_flag_bytes(state.action_successful, Seq::<u8>::empty());
}

/// Round trip of an action: an action that has an encoding is decoded from it
/// unchanged.
pub proof fn lemma_action_decodes_from_its_bytes(action: ActionView)
    requires
        action.encodable(),
    ensures
        ActionView::decode(action.bytes()) == Some(action),
{
    let empty = Seq::<u8>::empty();
    match action {
        ActionView::SetAgentAction { agent, action_name } => {
            let fields = text_bytes(agent) + text_bytes(action_name);
            assert(action.bytes() =~= seq![0u8] + fields);
            assert((seq![0u8] + fields).skip(1) =~= fields);
            assert(text_bytes(action_name) =~= text_bytes(action_name) + empty);
            lemma_parse_text_bytes(agent, text_bytes(action_name));
            lemma_parse_text_bytes(action_name, empty);
        },
        ActionView::MarkExecutionStatus { success } => {
            let fields = flag_bytes(success);
            assert((seq![1u8] + fields).skip(1) =~= fields);
            assert(fields =~= fields + empty);
            lemma_parse_flag_bytes(success, empty);
        },
    }
}

/// Bytes that decode to a state are the encoding of that state: a digest that
/// is decoded and digested again comes out byte for byte the same.
pub proof fn lemma_state_bytes_of_decoded(b: Seq<u8>)
    requires
        AttestationView::decode(b) is Some,
    ensures
        AttestationView::decode(b)->Some_0.encodable(),
        AttestationView::decode(b)->Some_0.bytes() == b,
{
    let after_agent = parse_text(b)->Some_0.1;
    let after_name = parse_text(after_agent)->Some_0.1;
    let rest = parse_flag(after_name)->Some_0.1;
    lemma_text_bytes_parsed(b);
    lemma_text_bytes_parsed(after_agent);
    lemma_flag_bytes_parsed(after_name);
    assert(rest =~= Seq::<u8>::empty());
    assert(AttestationView::decode(b)->Some_0.bytes() =~= b);
}

/// Bytes that decode to an action are the encoding of that action.
pub proof fn lemma_action_bytes_of_decoded(b: Seq<u8>)
    requires
        ActionView::decode(b) is Some,
    ensures
        ActionView::decode(b)->Some_0.encodable(),
        ActionView::decode(b)->Some_0.bytes() == b,
{
    let fields = b.skip(1);
    assert(b =~= seq![b[0]] + fields);
    if b[0] == 0 {
        let after_agent = parse_text(fields)->Some_0.1;
        lemma_text_bytes_parsed(fields);
        lemma_text_bytes_parsed(after_agent);
        assert(parse_text(after_agent)->Some_0.1 =~= Seq::<u8>::empty());
        assert(ActionView::decode(b)->Some_0.bytes() =~= b);
    } else {
        lemma_flag_bytes_parsed(fields);
        assert(parse_flag(fields)->Some_0.1 =~= Seq::<u8>::empty());
        assert(ActionView::decode(b)->Some_0.bytes() =~= b);
    }
}

/// The digest is a function of the fields and tells states apart: two states
/// that have an encoding have the same one exactly when they are equal, field
/// by field.
pub proof fn lemma_digest_distinguishes_states(first: AttestationView, second: AttestationView)
    requires
        first.encodable(),
        second.encodable(),
    ensures
        first.bytes() == second.bytes() <==> first == second,
{
    lemma_state_decodes_from_its_bytes(first);
    lemma_state_decodes_from_its_bytes(second);
}

/// Two actions that have an encoding have the same one exactly when they are
/// equal.
pub proof fn lemma_bytes_distinguish_actions(first: ActionView, second: ActionView)
    requires
        first.encodable(),
        second.encodable(),
    ensures
        first.bytes() == second.bytes() <==> first == second,
{
    lemma_action_decodes_from_its_bytes(first);
    lemma_action_decodes_from_its_bytes(second);
}

/// Field isolation: `SetAgentAction` never changes the outcome, and
/// `MarkExecutionStatus` never changes the agent or the action's name.
pub proof fn lemma_apply_leaves_other_fields(state: AttestationView, action: ActionView)
    ensures
        action is SetAgentAction ==> state.apply(action).action_successful
            == state.action_successful,
        action is MarkExecutionStatus ==> state.apply(action).agent == state.agent,
        action is MarkExecutionStatus ==> state.apply(action).action_name == state.action_name,
{
}

/// Applying the same action twice in a row leaves the state that applying it
/// once leaves.
pub proof fn lemma_apply_twice_is_apply_once(state: AttestationView, action: ActionView)
    ensures
        state.apply(action).apply(action) == state.apply(action),
{
}

} // verus!
