//! The actions that change the record, and the blob that carries one.

use crate::error::{DecodeError, EncodeError};
use crate::laws::{lemma_action_bytes_of_decoded, lemma_action_decodes_from_its_bytes};
use crate::wire::{
    flag_bytes, flag_to_vec, parse_byte, parse_flag, parse_text, take_byte, take_flag, take_text,
    text_bytes, text_fits, text_to_vec,
};
use vstd::prelude::*;
use vstd::std_specs::cmp::PartialEqSpecImpl;

verus! {

/// An operation on the contract's state.
#[derive(Debug)]
pub enum AgentAction {
    /// Declares who is acting and what action they are about to take.
    SetAgentAction { agent: String, action_name: String },
    /// Records the outcome of the action declared before.
    MarkExecutionStatus { success: bool },
}

/// An action in its encoding, tagged with the name of the contract it is
/// meant for.
#[derive(Debug)]
pub struct Blob {
    pub contract_name: String,
    pub data: Vec<u8>,
}

/// The mathematical value of an action.
pub enum ActionView {
    SetAgentAction { agent: Seq<char>, action_name: Seq<char> },
    MarkExecutionStatus { success: bool },
}

impl ActionView {
    /// Whether the action has an encoding: its texts fit.
    pub open spec fn encodable(self) -> bool {
        match self {
            ActionView::SetAgentAction { agent, action_name } => text_fits(agent) && text_fits(
                action_name,
            ),
            ActionView::MarkExecutionStatus { success } => true,
        }
    }

    /// The encoding: the variant's number on one byte, then its fields in
    /// order.
    pub open spec fn bytes(self) -> Seq<u8> {
        match self {
            ActionView::SetAgentAction { agent, action_name } => seq![0u8] + text_bytes(agent)
                + text_bytes(action_name),
            ActionView::MarkExecutionStatus { success } => seq![1u8] + flag_bytes(success),
        }
    }

    /// The action that `b` starts with, and what follows it in `b`.
    pub open spec fn parse(b: Seq<u8>) -> Option<(ActionView, Seq<u8>)> {
        match parse_byte(b) {
            Some((tag, fields)) => if tag == 0 {
                match parse_text(fields) {
                    Some((agent, after_agent)) => match parse_text(after_agent) {
                        Some((action_name, rest)) => Some(
                            (ActionView::SetAgentAction { agent, action_name }, rest),
                        ),
                        None => None,
                    },
                    None => None,
                }
            } else if tag == 1 {
                match parse_flag(fields) {
                    Some((success, rest)) => Some(
                        (ActionView::MarkExecutionStatus { success }, rest),
                    ),
                    None => None,
                }
            } else {
                None
            },
            None => None,
        }
    }

    /// The action that `b` is the encoding of, if it is one: `b` must hold an
    /// action and nothing after it.
    pub open spec fn decode(b: Seq<u8>) -> Option<ActionView> {
        match Self::parse(b) {
            Some((v, rest)) => if rest.len() == 0 {
                Some(v)
            } else {
                None
            },
            None => None,
        }
    }
}

impl View for AgentAction {
    type V = ActionView;

    open spec fn view(&self) -> ActionView {
        match self {
            AgentAction::SetAgentAction { agent, action_name } => ActionView::SetAgentAction {
                agent: agent@,
                action_name: action_name@,
            },
            AgentAction::MarkExecutionStatus { success } => ActionView::MarkExecutionStatus {
                success: *success,
            },
        }
    }
}

impl PartialEq for AgentAction {
    fn eq(&self, other: &Self) -> (r: bool) {
        match (self, other) {
            (
                AgentAction::SetAgentAction { agent, action_name },
                AgentAction::SetAgentAction { agent: other_agent, action_name: other_name },
            ) => *agent == *other_agent && *action_name == *other_name,
            (
                AgentAction::MarkExecutionStatus { success },
                AgentAction::MarkExecutionStatus { success: other_success },
            ) => *success == *other_success,
            _ => false,
        }
    }
}

impl Eq for AgentAction {

}

impl PartialEqSpecImpl for AgentAction {
    open spec fn obeys_eq_spec() -> bool {
        true
    }

    open spec fn eq_spec(&self, other: &Self) -> bool {
        self@ == other@
    }
}

impl PartialEq for Blob {
    fn eq(&self, other: &Self) -> (r: bool) {
        let same_data = self.data == other.data;
        proof {
            if same_data {
                assert(self.data@ =~= other.data@);
            }
        }
        self.contract_name == other.contract_name && same_data
    }
}

impl Eq for Blob {

}

impl PartialEqSpecImpl for Blob {
    open spec fn obeys_eq_spec() -> bool {
        true
    }

    open spec fn eq_spec(&self, other: &Self) -> bool {
        self.contract_name@ == other.contract_name@ && self.data@ == other.data@
    }
}

impl Clone for Blob {
    fn clone(&self) -> (r: Self)
        ensures
            r.contract_name@ == self.contract_name@,
            r.data@ == self.data@,
    {
        Blob { contract_name: self.contract_name.clone(), data: self.data.clone() }
    }
}

impl Clone for AgentAction {
    fn clone(&self) -> (r: Self)
        ensures
            r == *self,
    {
        match self {
            AgentAction::SetAgentAction { agent, action_name } => AgentAction::SetAgentAction {
                agent: agent.clone(),
                action_name: action_name.clone(),
            },
            AgentAction::MarkExecutionStatus { success } => AgentAction::MarkExecutionStatus {
                success: *success,
            },
        }
    }
}

impl AgentAction {
    /// The encoding of the action, or the error when a text does not fit. The
    /// encoding decodes to the action.
    pub fn as_bytes(&self) -> (r: Result<Vec<u8>, EncodeError>)
        ensures
            r is Ok <==> self@.encodable(),
            r is Ok ==> r->Ok_0@ == self@.bytes(),
            r is Ok ==> ActionView::decode(r->Ok_0@) == Some(self@),
    {
        proof {
            if self@.encodable() {
                lemma_action_decodes_from_its_bytes(self@);
            }
        }
        let mut out: Vec<u8> = Vec::new();
        match self {
            AgentAction::SetAgentAction { agent, action_name } => {
                out.push(0u8);
                let mut first = match text_to_vec(agent) {
                    Ok(bytes) => bytes,
                    Err(_) => { return Err(EncodeError); },
                };
                let mut second = match text_to_vec(action_name) {
                    Ok(bytes) => bytes,
                    Err(_) => { return Err(EncodeError); },
                };
                out.append(&mut first);
                out.append(&mut second);
            },
            AgentAction::MarkExecutionStatus { success } => {
                out.push(1u8);
                let mut flag = match flag_to_vec(*success) {
                    Ok(bytes) => bytes,
                    Err(_) => { return Err(EncodeError); },
                };
                out.append(&mut flag);
            },
        }
        Ok(out)
    }

    /// The action that `bytes` is the encoding of, or the error when it is the
    /// encoding of none. The action's encoding is `bytes`.
    pub fn from_bytes(bytes: &[u8]) -> (r: Result<AgentAction, DecodeError>)
        ensures
            r is Ok <==> ActionView::decode(bytes@) is Some,
            r is Ok ==> r->Ok_0@ == ActionView::decode(bytes@)->Some_0,
            r is Ok ==> r->Ok_0@.encodable() && r->Ok_0@.bytes() == bytes@,
    {
        proof {
            if ActionView::decode(bytes@) is Some {
                lemma_action_bytes_of_decoded(bytes@);
            }
        }
        let (tag, fields) = match take_byte(bytes) {
            Ok(read) => read,
            Err(_) => { return Err(DecodeError); },
        };
        let (action, rest) = if tag == 0 {
            let (agent, after_agent) = match take_text(fields) {
                Ok(read) => read,
                Err(_) => { return Err(DecodeError); },
            };
            let (action_name, rest) = match take_text(after_agent) {
                Ok(read) => read,
                Err(_) => { return Err(DecodeError); },
            };
            (AgentAction::SetAgentAction { agent, action_name }, rest)
        } else if tag == 1 {
            let (success, rest) = match take_flag(fields) {
                Ok(read) => read,
                Err(_) => { return Err(DecodeError); },
            };
            (AgentAction::MarkExecutionStatus { success }, rest)
        } else {
            return Err(DecodeError);
        };
        if rest.len() == 0 {
            Ok(action)
        } else {
            Err(DecodeError)
        }
    }

    /// The blob that carries the action to the contract named
    /// `contract_name`: that name, and the action's encoding. The action must
    /// have one. The blob's data decodes to the action.
    pub fn as_blob(&self, contract_name: &str) -> (blob: Blob)
        requires
            self@.encodable(),
        ensures
            blob.contract_name@ == contract_name@,
            blob.data@ == self@.bytes(),
            ActionView::decode(blob.data@) == Some(self@),
    {
        Blob { contract_name: String::from_str(contract_name), data: self.as_bytes().unwrap() }
    }
}

} // verus!
