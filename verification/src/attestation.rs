//! The attested-action record and the contract state that holds it.

use crate::action::{ActionView, AgentAction};
use crate::error::{DecodeError, EncodeError};
use crate::laws::{lemma_state_bytes_of_decoded, lemma_state_decodes_from_its_bytes};
use crate::wire::{
    flag_bytes, flag_to_vec, parse_flag, parse_text, take_flag, take_text, text_bytes, text_fits,
    text_to_vec,
};
use hyli_contract_sdk::caller::ExecutionContext;
use hyli_contract_sdk::OnchainEffect;
use vstd::prelude::*;
use vstd::std_specs::cmp::PartialEqSpecImpl;

verus! {

/// The context that the SDK hands to a contract with each action and takes
/// back with the result. The contract does not look inside it.
#[verifier::external_type_specification]
#[verifier::external_body]
pub struct ExExecutionContext(hyli_contract_sdk::caller::ExecutionContext);

/// An effect on the chain that a transition may emit. This contract emits
/// none and does not look inside one.
#[verifier::external_type_specification]
#[verifier::external_body]
pub struct ExOnchainEffect(hyli_contract_sdk::OnchainEffect);

/// Who performed which action, and whether it succeeded. The three fields
/// hold what the last actions applied have set; there is no history.
#[derive(Debug)]
pub struct AgentActionAttestation {
    pub agent: String,
    pub action_name: String,
    pub action_successful: bool,
}

/// The state of the contract: the one attestation it records.
#[derive(Debug)]
pub struct AgentContract {
    pub attestation: AgentActionAttestation,
}

/// The digest of a state, by which the host stores and compares it: the
/// state's encoding.
#[derive(Debug)]
pub struct StateDigest(pub Vec<u8>);

/// The mathematical value of an attestation.
pub struct AttestationView {
    pub agent: Seq<char>,
    pub action_name: Seq<char>,
    pub action_successful: bool,
}

impl AttestationView {
    /// Whether the attestation has an encoding: both texts fit.
    pub open spec fn encodable(self) -> bool {
        text_fits(self.agent) && text_fits(self.action_name)
    }

    /// The encoding: the agent, the action's name, then the outcome.
    pub open spec fn bytes(self) -> Seq<u8> {
        text_bytes(self.agent) + text_bytes(self.action_name) + flag_bytes(self.action_successful)
    }

    /// The attestation that `b` starts with, and what follows it in `b`.
    pub open spec fn parse(b: Seq<u8>) -> Option<(AttestationView, Seq<u8>)> {
        match parse_text(b) {
            Some((agent, after_agent)) => match parse_text(after_agent) {
                Some((action_name, after_name)) => match parse_flag(after_name) {
                    Some((action_successful, rest)) => Some(
                        (AttestationView { agent, action_name, action_successful }, rest),
                    ),
                    None => None,
                },
                None => None,
            },
            None => None,
        }
    }

    /// The attestation that `b` is the encoding of, if it is one: `b` must
    /// hold an attestation and nothing after it.
    pub open spec fn decode(b: Seq<u8>) -> Option<AttestationView> {
        match Self::parse(b) {
            Some((v, rest)) => if rest.len() == 0 {
                Some(v)
            } else {
                None
            },
            None => None,
        }
    }

    /// The attestation after `action` has been applied to it.
    pub open spec fn apply(self, action: ActionView) -> AttestationView {
        match action {
            ActionView::SetAgentAction { agent, action_name } => AttestationView {
                agent,
                action_name,
                action_successful: self.action_successful,
            },
            ActionView::MarkExecutionStatus { success } => AttestationView {
                agent: self.agent,
                action_name: self.action_name,
                action_successful: success,
            },
        }
    }

    /// The text that reports `flag`.
    pub open spec fn flag_text(flag: bool) -> Seq<char> {
        if flag {
            "true"@
        } else {
            "false"@
        }
    }

    /// The one-line report of the attestation.
    pub open spec fn summary(self) -> Seq<char> {
        "Agent: "@ + self.agent + ", Action: "@ + self.action_name + ", Success: "@
            + Self::flag_text(self.action_successful)
    }
}

impl View for AgentActionAttestation {
    type V = AttestationView;

    open spec fn view(&self) -> AttestationView {
        AttestationView {
            agent: self.agent@,
            action_name: self.action_name@,
            action_successful: self.action_successful,
        }
    }
}

impl View for AgentContract {
    type V = AttestationView;

    open spec fn view(&self) -> AttestationView {
        self.attestation@
    }
}

impl PartialEq for AgentActionAttestation {
    fn eq(&self, other: &Self) -> (r: bool) {
        self.agent == other.agent && self.action_name == other.action_name
            && self.action_successful == other.action_successful
    }
}

impl Eq for AgentActionAttestation {

}

impl PartialEqSpecImpl for AgentActionAttestation {
    open spec fn obeys_eq_spec() -> bool {
        true
    }

    open spec fn eq_spec(&self, other: &Self) -> bool {
        self@ == other@
    }
}

impl PartialEq for AgentContract {
    fn eq(&self, other: &Self) -> (r: bool) {
        self.attestation == other.attestation
    }
}

impl Eq for AgentContract {

}

impl PartialEqSpecImpl for AgentContract {
    open spec fn obeys_eq_spec() -> bool {
        true
    }

    open spec fn eq_spec(&self, other: &Self) -> bool {
        self@ == other@
    }
}

impl PartialEq for StateDigest {
    fn eq(&self, other: &Self) -> (r: bool) {
        let r = self.0 == other.0;
        proof {
            if r {
                assert(self.0@ =~= other.0@);
            }
        }
        r
    }
}

impl Eq for StateDigest {

}

impl PartialEqSpecImpl for StateDigest {
    open spec fn obeys_eq_spec() -> bool {
        true
    }

    open spec fn eq_spec(&self, other: &Self) -> bool {
        self.0@ == other.0@
    }
}

impl Clone for StateDigest {
    fn clone(&self) -> (r: Self)
        ensures
            r.0@ == self.0@,
    {
        StateDigest(self.0.clone())
    }
}

impl Clone for AgentActionAttestation {
    fn clone(&self) -> (r: Self)
        ensures
            r == *self,
    {
        AgentActionAttestation {
            agent: self.agent.clone(),
            action_name: self.action_name.clone(),
            action_successful: self.action_successful,
        }
    }
}

impl Clone for AgentContract {
    fn clone(&self) -> (r: Self)
        ensures
            r == *self,
    {
        AgentContract { attestation: self.attestation.clone() }
    }
}

impl AgentActionAttestation {
    /// The one-line report of the attestation:
    /// `Agent: <agent>, Action: <action_name>, Success: <true or false>`.
    pub fn summary(&self) -> (text: String)
        ensures
            text@ == self@.summary(),
    {
        let mut text = String::from_str("Agent: ");
        text.append(self.agent.as_str());
        text.append(", Action: ");
        text.append(self.action_name.as_str());
        text.append(", Success: ");
        if self.action_successful {
            text.append("true");
        } else {
            text.append("false");
        }
        text
    }

    /// The encoding of the attestation, or the error when a text does not
    /// fit. The encoding decodes to the attestation.
    pub fn as_bytes(&self) -> (r: Result<Vec<u8>, EncodeError>)
        ensures
            r is Ok <==> self@.encodable(),
            r is Ok ==> r->Ok_0@ == self@.bytes(),
            r is Ok ==> AttestationView::decode(r->Ok_0@) == Some(self@),
    {
        proof {
            if self@.encodable() {
                lemma_state_decodes_from_its_bytes(self@);
            }
        }
        let mut out = match text_to_vec(&self.agent) {
            Ok(bytes) => bytes,
            Err(_) => { return Err(EncodeError); },
        };
        let mut name = match text_to_vec(&self.action_name) {
            Ok(bytes) => bytes,
            Err(_) => { return Err(EncodeError); },
        };
        let mut flag = match flag_to_vec(self.action_successful) {
            Ok(bytes) => bytes,
            Err(_) => { return Err(EncodeError); },
        };
        out.append(&mut name);
        out.append(&mut flag);
        Ok(out)
    }

    /// Reads the attestation that `input` starts with, and hands back what
    /// follows it.
    pub fn read<'a>(input: &'a [u8]) -> (r: Result<(AgentActionAttestation, &'a [u8]), DecodeError>)
        ensures
            r is Ok <==> AttestationView::parse(input@) is Some,
            r is Ok ==> (r->Ok_0.0@, r->Ok_0.1@) == AttestationView::parse(input@)->Some_0,
    {
        let (agent, after_agent) = match take_text(input) {
            Ok(read) => read,
            Err(_) => { return Err(DecodeError); },
        };
        let (action_name, after_name) = match take_text(after_agent) {
            Ok(read) => read,
            Err(_) => { return Err(DecodeError); },
        };
        let (action_successful, rest) = match take_flag(after_name) {
            Ok(read) => read,
            Err(_) => { return Err(DecodeError); },
        };
        Ok((AgentActionAttestation { agent, action_name, action_successful }, rest))
    }
}

impl AgentContract {
    /// Applies `action` to the state and reports the state it leaves.
    ///
    /// `SetAgentAction` overwrites the agent and the action's name and leaves
    /// the outcome; `MarkExecutionStatus` overwrites the outcome and leaves the
    /// other two. No text is refused, not even an empty one. The result has
    /// the shape of the SDK's run result, and is always `Ok`: the summary of
    /// the new state, the context as it was given, and no effects.
    pub fn apply(&mut self, action: AgentAction, ctx: ExecutionContext) -> (r: Result<
        (String, ExecutionContext, Vec<OnchainEffect>),
        String,
    >)
        ensures
            final(self)@ == old(self)@.apply(action@),
            action is SetAgentAction ==> final(self)@.action_successful == old(self)@.action_successful,
            action is MarkExecutionStatus ==> final(self)@.agent == old(self)@.agent,
            action is MarkExecutionStatus ==> final(self)@.action_name == old(self)@.action_name,
            r is Ok,
            r->Ok_0.0@ == final(self)@.summary(),
            r->Ok_0.1 == ctx,
            r->Ok_0.2@ == Seq::<OnchainEffect>::empty(),
    {
        match action {
            AgentAction::SetAgentAction { agent, action_name } => {
                self.attestation.agent = agent;
                self.attestation.action_name = action_name;
            },
            AgentAction::MarkExecutionStatus { success } => {
                self.attestation.action_successful = success;
            },
        }
        let program_output = self.attestation.summary();
        Ok((program_output, ctx, Vec::new()))
    }

    /// Decodes the action that `raw_action` is the encoding of and applies it.
    ///
    /// Where the bytes are the encoding of no action, the error is returned
    /// and the state is left exactly as it was. Otherwise the call does what
    /// [`AgentContract::apply`] does with the decoded action.
    pub fn execute(&mut self, raw_action: &[u8], ctx: ExecutionContext) -> (r: Result<
        (String, ExecutionContext, Vec<OnchainEffect>),
        DecodeError,
    >)
        ensures
            r is Ok <==> ActionView::decode(raw_action@) is Some,
            r is Err ==> *final(self) == *old(self),
            r is Ok ==> final(self)@ == old(self)@.apply(ActionView::decode(raw_action@)->Some_0),
            r is Ok ==> r->Ok_0.0@ == final(self)@.summary(),
            r is Ok ==> r->Ok_0.1 == ctx,
            r is Ok ==> r->Ok_0.2@ == Seq::<OnchainEffect>::empty(),
    {
        let action = match AgentAction::from_bytes(raw_action) {
            Ok(action) => action,
            Err(e) => { return Err(e); },
        };
        Ok(self.apply(action, ctx).unwrap())
    }

    /// The encoding of the state, or the error when a text does not fit. The
    /// encoding decodes to the state.
    pub fn as_bytes(&self) -> (r: Result<Vec<u8>, EncodeError>)
        ensures
            r is Ok <==> self@.encodable(),
            r is Ok ==> r->Ok_0@ == self@.bytes(),
            r is Ok ==> AttestationView::decode(r->Ok_0@) == Some(self@),
    {
        self.attestation.as_bytes()
    }

    /// The state that `bytes` is the encoding of, or the error when it is the
    /// encoding of none. The state's encoding is `bytes`.
    pub fn from_bytes(bytes: &[u8]) -> (r: Result<AgentContract, DecodeError>)
        ensures
            r is Ok <==> AttestationView::decode(bytes@) is Some,
            r is Ok ==> r->Ok_0@ == AttestationView::decode(bytes@)->Some_0,
            r is Ok ==> r->Ok_0@.encodable() && r->Ok_0@.bytes() == bytes@,
    {
        proof {
            if AttestationView::decode(bytes@) is Some {
                lemma_state_bytes_of_decoded(bytes@);
            }
        }
        match AgentActionAttestation::read(bytes) {
            Ok((attestation, rest)) => {
                if rest.len() == 0 {
                    Ok(AgentContract { attestation })
                } else {
                    Err(DecodeError)
                }
            },
            Err(e) => Err(e),
        }
    }

    /// The digest of the state: its encoding. The state must have one. The
    /// digest decodes to the state.
    pub fn as_digest(&self) -> (digest: StateDigest)
        requires
            self@.encodable(),
        ensures
            digest.0@ == self@.bytes(),
            AttestationView::decode(digest.0@) == Some(self@),
    {
        StateDigest(self.as_bytes().unwrap())
    }

    /// The state that `state` is the digest of. The digest must be the
    /// encoding of a state. The digest of the result is `state` again.
    pub fn from(state: StateDigest) -> (contract: AgentContract)
        requires
            AttestationView::decode(state.0@) is Some,
        ensures
            contract@ == AttestationView::decode(state.0@)->Some_0,
            contract@.encodable(),
            contract@.bytes() == state.0@,
    {
        Self::from_bytes(state.0.as_slice()).unwrap()
    }
}

} // verus!
