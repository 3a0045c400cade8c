//! What a node has at hand while it runs: who owns and who started the flow,
//! the configuration, the node's own invocation, and the services.

pub mod execute;
pub mod get_jwt;
pub mod signer;

use crate::config::{ContextConfig, Endpoints, FlowRunOrigin};
use crate::extensions::{Extensions, TypeKey};
use crate::utils::{nil_id, settled, Dispatch, FlowRunId, NodeId, Outcome, UserId};
use bytes::Bytes;
use solana_sdk::pubkey::Pubkey;
use solana_sdk::signature::Signature;
use std::collections::HashMap;
use std::sync::Arc;
use std::time::Duration;
use vstd::prelude::*;
use vstd::std_specs::hash::*;

verus! {

/// One invocation of one node within one flow run.
#[derive(Debug, PartialEq, Eq)]
pub struct CommandContext {
    /// The executor bound to this invocation.
    pub svc: execute::Svc,
    pub flow_run_id: FlowRunId,
    pub node_id: NodeId,
    /// The attempt this invocation is, as counted by whoever runs the flow.
    pub times: u32,
}

/// A user, by identifier.
#[derive(Clone, Copy, Debug, PartialEq, Eq, Structural)]
pub struct User {
    pub id: UserId,
}

impl User {
    pub fn new(id: UserId) -> (user: Self)
        ensures
            user.id == id,
    {
        User { id }
    }
}

impl Default for User {
    /// The user with the nil identifier.
    fn default() -> (user: Self)
        ensures
            user.id == 0,
    {
        User { id: nil_id() }
    }
}

/// Everything a node is given to work with. `T` is what the registry of
/// optional capabilities holds.
pub struct Context<T> {
    pub flow_owner: User,
    pub started_by: User,
    pub cfg: ContextConfig,
    pub environment: HashMap<String, String>,
    pub endpoints: Endpoints,
    pub extensions: Arc<Extensions<T>>,
    pub command: Option<CommandContext>,
    pub signer: signer::Svc,
    pub get_jwt: get_jwt::Svc,
}

impl<T> Default for Context<T> {
    /// A context that stands on its own: nil users, no signer and no token
    /// service, an empty registry, and a first invocation of the nil node
    /// bound to the plain executor with one call at a time.
    fn default() -> (ctx: Self)
        ensures
            ctx.flow_owner.id == 0,
            ctx.started_by.id == 0,
            ctx.cfg.is_blank(),
            ctx.environment@ == Map::<String, String>::empty(),
            ctx.endpoints == ctx.cfg.endpoints,
            ctx.extensions@ == Map::<TypeKey, T>::empty(),
            ctx.signer.wf() && ctx.signer.bound == 0,
            ctx.get_jwt.wf() && ctx.get_jwt.bound == 0,
            ctx.signer.stub matches Some(signer::Error::Other(cause)) && cause@
                == "unimplemented"@,
            ctx.get_jwt.stub matches Some(get_jwt::Error::Other(cause)) && cause@
                == "unimplemented"@,
            ctx.command matches Some(command) && command.svc.wf() && command.svc.stub is None
                && command.svc.bound == 1 && command.svc.in_flight == 0 && command.flow_run_id
                == 0 && command.node_id == 0 && command.times == 0,
    {
        let cfg = ContextConfig::default();
        let mut ctx = Context::from_cfg(
            &cfg,
            User::default(),
            User::default(),
            signer::unimplemented_svc(),
            get_jwt::unimplemented_svc(),
            Extensions::new(),
        );
        ctx.command = Some(
            CommandContext {
                svc: execute::simple(1),
                flow_run_id: nil_id(),
                node_id: nil_id(),
                times: 0,
            },
        );
        ctx
    }
}

impl<T> Context<T> {
    /// Puts a context together from its parts. No invocation is attached.
    pub fn from_cfg(
        cfg: &ContextConfig,
        flow_owner: User,
        started_by: User,
        sig_svc: signer::Svc,
        token_svc: get_jwt::Svc,
        extensions: Extensions<T>,
    ) -> (ctx: Self)
        ensures
            ctx.flow_owner == flow_owner,
            ctx.started_by == started_by,
            ctx.cfg.agrees_with(cfg),
            ctx.environment@ == cfg.environment@,
            ctx.endpoints == cfg.endpoints,
            *ctx.extensions == extensions,
            ctx.command is None,
            ctx.signer == sig_svc,
            ctx.get_jwt == token_svc,
    {
        Context {
            flow_owner,
            started_by,
            cfg: cfg.clone(),
            environment: cfg.environment.clone(),
            endpoints: cfg.endpoints.clone(),
            extensions: Arc::new(extensions),
            command: None,
            signer: sig_svc,
            get_jwt: token_svc,
        }
    }

    /// Brings the request for a token of the flow's owner to the token
    /// service. The answer says what is to happen with it: it is forwarded
    /// where the service admits it, has to wait where the service's budget is
    /// used up, and fails with the service's own error where the context has no
    /// token service.
    pub fn get_jwt_request(&mut self) -> (action: Dispatch<get_jwt::Request, get_jwt::Error>)
        ensures
            action == old(self).get_jwt.dispatched(
                get_jwt::Request { user_id: old(self).flow_owner.id },
            ),
            *final(self) == (Context { get_jwt: old(self).get_jwt.after_acquire(), ..*old(self) }),
    {
        self.get_jwt.dispatch(get_jwt::Request { user_id: self.flow_owner.id })
    }

    /// Ends the call to the token service and gives the value of the
    /// authorization header: `Bearer`, one space, and the token. A failure of
    /// the service is handed on unchanged, and a breakdown of its handler
    /// becomes the service's worker error.
    pub fn get_jwt_header(&mut self, outcome: Outcome<get_jwt::Response, get_jwt::Error>) -> (header:
        Result<String, get_jwt::Error>)
        ensures
            match settled(outcome) {
                Ok(response) => header matches Ok(text) && text@ == get_jwt::bearer(
                    response.access_token@,
                ),
                Err(error) => header == Err::<String, get_jwt::Error>(error),
            },
            *final(self) == (Context { get_jwt: old(self).get_jwt.after_complete(), ..*old(self) }),
    {
        get_jwt::bearer_header(self.get_jwt.finish(outcome))
    }

    /// Where a flow run started by this node comes from: this invocation, as
    /// it is attached. `None` where no invocation is attached.
    pub fn new_interflow_origin(&self) -> (origin: Option<FlowRunOrigin>)
        ensures
            origin == match self.command {
                Some(command) => Some(
                    FlowRunOrigin::Interflow {
                        flow_run_id: command.flow_run_id,
                        node_id: command.node_id,
                        times: command.times,
                    },
                ),
                None => None,
            },
    {
        match &self.command {
            Some(command) => Some(
                FlowRunOrigin::Interflow {
                    flow_run_id: command.flow_run_id,
                    node_id: command.node_id,
                    times: command.times,
                },
            ),
            None => None,
        }
    }

    /// The context after a request was brought to the executor of its
    /// invocation: that executor has counted the request if it admitted it,
    /// and nothing else has changed. Without an invocation nothing changes.
    pub open spec fn after_execute(self) -> Self {
        match self.command {
            Some(command) => Context {
                command: Some(CommandContext { svc: command.svc.after_acquire(), ..command }),
                ..self
            },
            None => self,
        }
    }

    /// The context after a call to the executor of its invocation has
    /// finished.
    pub open spec fn after_executed(self) -> Self {
        match self.command {
            Some(command) => Context {
                command: Some(CommandContext { svc: command.svc.after_complete(), ..command }),
                ..self
            },
            None => self,
        }
    }

    /// What happens with instructions and output brought to the context as it
    /// stands.
    pub open spec fn execute_action<I, O>(self, instructions: I, output: O) -> Dispatch<
        execute::Request<I, O>,
        execute::Error,
    > {
        match self.command {
            None => Dispatch::Fail(execute::Error::NotAvailable),
            Some(command) => command.svc.dispatched(execute::Request { instructions, output }),
        }
    }

    /// Without an invocation every execution fails with `NotAvailable`. With
    /// an invocation whose executor is served by a handler none fails at this
    /// point: the request is forwarded as given, or has to wait.
    pub proof fn lemma_not_available_without_invocation<I, O>(self, instructions: I, output: O)
        ensures
            self.command is None ==> self.execute_action(instructions, output) == Dispatch::<
                execute::Request<I, O>,
                execute::Error,
            >::Fail(execute::Error::NotAvailable),
            self.command is Some && self.command->Some_0.svc.stub is None ==> {
                let request = execute::Request { instructions, output };
                let svc = self.command->Some_0.svc;
                self.execute_action(instructions, output) == if svc.in_flight < svc.bound {
                    Dispatch::<execute::Request<I, O>, execute::Error>::Forward(request)
                } else {
                    Dispatch::<execute::Request<I, O>, execute::Error>::Wait(request)
                }
            },
    {
    }

    /// Brings instructions and output to the executor of the attached
    /// invocation, as given. Without an invocation the call fails with
    /// `NotAvailable` and the context stays as it is. Otherwise the answer is
    /// the executor's: forwarded, to wait, or failed with the executor's own
    /// error.
    pub fn execute<I, O>(&mut self, instructions: I, output: O) -> (action: Dispatch<
        execute::Request<I, O>,
        execute::Error,
    >)
        ensures
            action == old(self).execute_action(instructions, output),
            *final(self) == old(self).after_execute(),
    {
        match self.command.take() {
            Some(command) => {
                let mut command = command;
                let action = command.svc.dispatch(execute::Request { instructions, output });
                self.command = Some(command);
                action
            },
            None => Dispatch::Fail(execute::Error::NotAvailable),
        }
    }

    /// Ends a call to the executor of the attached invocation and gives its
    /// answer, with a breakdown of the handler as the executor's worker error.
    /// Without an invocation the answer is `NotAvailable`, whatever came in.
    pub fn executed(&mut self, outcome: Outcome<execute::Response, execute::Error>) -> (answer:
        Result<execute::Response, execute::Error>)
        ensures
            answer == match old(self).command {
                None => Err(execute::Error::NotAvailable),
                Some(command) => settled(outcome),
            },
            *final(self) == old(self).after_executed(),
    {
        match self.command.take() {
            Some(command) => {
                let mut command = command;
                let answer = command.svc.finish(outcome);
                self.command = Some(command);
                answer
            },
            None => Err(execute::Error::NotAvailable),
        }
    }

    /// Brings a request for a signature to the signer: the key, the message
    /// and the time allowed, as given, whether or not an invocation is
    /// attached. The answer is the signer's: forwarded, to wait, or failed with
    /// the signer's own error where the context has no signer.
    pub fn request_signature(
        &mut self,
        pubkey: Pubkey,
        message: Bytes,
        timeout: Duration,
    ) -> (action: Dispatch<signer::SignatureRequest, signer::Error>)
        ensures
            action == old(self).signer.dispatched(
                signer::SignatureRequest { pubkey, message, timeout },
            ),
            *final(self) == (Context { signer: old(self).signer.after_acquire(), ..*old(self) }),
    {
        self.signer.dispatch(signer::SignatureRequest { pubkey, message, timeout })
    }

    /// Ends the call to the signer and gives the signature. A failure of the
    /// signer is handed on unchanged, a breakdown of its handler becomes the
    /// signer's worker error, and nothing is tried a second time.
    pub fn signature_received(
        &mut self,
        outcome: Outcome<signer::SignatureResponse, signer::Error>,
    ) -> (signature: Result<Signature, signer::Error>)
        ensures
            match settled(outcome) {
                Ok(response) => signature == Ok::<Signature, signer::Error>(response.signature),
                Err(error) => signature == Err::<Signature, signer::Error>(error),
            },
            *final(self) == (Context { signer: old(self).signer.after_complete(), ..*old(self) }),
    {
        signer::signature_of(self.signer.finish(outcome))
    }

    /// The capability registered under the type identity `key`, if any.
    pub fn get(&self, key: TypeKey) -> (found: Option<&T>)
        ensures
            match found {
                Some(value) => self.extensions@.contains_key(key) && *value
                    == self.extensions@[key],
                None => !self.extensions@.contains_key(key),
            },
    {
        self.extensions.get(key)
    }
}

} // verus!
