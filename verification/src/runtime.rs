//! The kernel runtime: the policy pipeline with its built-in capability gate,
//! the grant id allocator, and the backends that granted actions run on.
use vstd::prelude::*;

use crate::action::{
    Action, ActionKind, ActionView, FsReadAction, FsWriteAction, MontySessionKey,
    MontySessionLoadAction, MontySessionSaveAction, NetworkFetchAction,
};
use crate::capability::bits_contain;
use crate::contract::{GrantId, GrantSource, OutcomeView, PolicyDecision, PolicyReport};
use crate::error::{AuthorizationError, CapabilityError, ExecutionError};
use crate::grant::{
    allow_record, allow_record_of, denial, denial_of, grant_result, grant_with_report, next_raw,
    GrantIdAllocator, Granted,
};
use crate::network::{DenyNetworkBackend, NetworkBackend, StaticNetworkBackend};
use crate::path::CanonicalPath;
use crate::pipeline::{
    law_allow_passes_inbound, law_inbound_veto, PolicyPipeline, RegisteredPolicy, RegisteredPolicyAny,
};
use crate::policy::{
    ActionPolicy, CapabilityEnvelopePolicy, ContextView, GlobalPolicy, KernelPolicyContext,
};

verus! {

/// Filesystem backend that reads and writes the real filesystem. Its
/// operations are I/O and run outside this crate.
#[derive(Debug, Default, Clone, Copy)]
pub struct StdFsBackend;

impl StdFsBackend {
    pub fn new() -> (r: Self) {
        StdFsBackend
    }
}

/// Filesystem access of the tool plane; reads are I/O and run outside this
/// crate.
#[derive(Debug, Default, Clone, Copy)]
pub struct StdFs;

impl StdFs {
    pub fn new() -> (r: Self) {
        StdFs
    }
}

/// The pipeline starts with the capability gate as its first inbound policy.
pub open spec fn gated(p: &PolicyPipeline) -> bool {
    p.inbound().len() > 0 && p.inbound()[0].inner is CapabilityEnvelope
}

/// The capability gate is one of the pipeline's inbound policies.
pub open spec fn has_gate(p: &PolicyPipeline) -> bool {
    exists|g: int| 0 <= g < p.inbound().len() && (#[trigger] p.inbound()[g]).inner is CapabilityEnvelope
}

/// Wherever the capability gate stands in the inbound stage, every action the
/// pipeline allows needs only capabilities inside the effective envelope.
pub proof fn law_gate_bounds_allows(p: &PolicyPipeline, ctx: ContextView, a: ActionView)
    requires
        has_gate(p),
    ensures
        p.spec_decide(ctx, a).outcome is Allow ==> bits_contain(
            ctx.capabilities,
            a.capability_bits(),
        ),
{
    reveal(GlobalPolicy::grant_spec);
    let g = choose|g: int|
        0 <= g < p.inbound().len() && (#[trigger] p.inbound()[g]).inner is CapabilityEnvelope;
    law_allow_passes_inbound(p, ctx, a);
    assert(p.inbound()[g].inner.grant_spec(ctx, a) == CapabilityEnvelopePolicy::grant_spec(ctx, a));
}

/// The message the capability gate denies with.
pub open spec fn envelope_denial_reason() -> Seq<char> {
    "action exceeds declared capability envelope"@
}

/// With the capability gate first, an action that needs a capability outside
/// the effective envelope is refused by that gate, regardless of the other
/// policies; and any action the pipeline allows needs only capabilities
/// inside the envelope.
pub proof fn law_capability_envelope(p: &PolicyPipeline, ctx: ContextView, a: ActionView)
    requires
        gated(p),
    ensures
        !bits_contain(ctx.capabilities, a.capability_bits()) ==> p.spec_decide(ctx, a).outcome
            == (OutcomeView::Deny {
            source: GrantSource::Policy {
                policy_name: "policy.capability_envelope",
                policy_id: p.inbound()[0].id,
            },
            reason: Some(envelope_denial_reason()),
        }),
        p.spec_decide(ctx, a).outcome is Allow ==> bits_contain(
            ctx.capabilities,
            a.capability_bits(),
        ),
{
    reveal(GlobalPolicy::grant_spec);
    let g = p.inbound()[0].inner.grant_spec(ctx, a);
    assert(g == CapabilityEnvelopePolicy::grant_spec(ctx, a));
    if !bits_contain(ctx.capabilities, a.capability_bits()) {
        assert(g.decision == PolicyDecision::Deny);
        law_inbound_veto(p, ctx, a, 0);
    }
    law_allow_passes_inbound(p, ctx, a);
}

/// The runtime a tool host is built on.
#[derive(Debug)]
pub struct KernelRuntime {
    fs: StdFsBackend,
    network: NetworkBackend,
    grant_ids: GrantIdAllocator,
    policy: PolicyPipeline,
}

impl KernelRuntime {
    /// The network backend.
    pub closed spec fn network_backend(&self) -> NetworkBackend {
        self.network
    }

    /// The id the next grant receives.
    pub closed spec fn next_grant(&self) -> u64 {
        self.grant_ids.peek()
    }

    /// The runtime's policy pipeline.
    pub closed spec fn pipeline(&self) -> PolicyPipeline {
        self.policy
    }

    /// The runtime is ready: its pipeline is well formed and holds the
    /// capability gate in its inbound stage.
    pub open spec fn wf(&self) -> bool {
        self.pipeline().wf() && has_gate(&self.pipeline())
    }

    pub fn policy(&self) -> (r: &PolicyPipeline)
        ensures
            *r == self.pipeline(),
    {
        &self.policy
    }

    fn with_backend(network: NetworkBackend) -> (r: Self)
        ensures
            r.wf(),
            r.network_backend() == network,
            r.next_grant() == 1,
            r.pipeline().next_id() == 2,
            r.pipeline().inbound() == seq![
                RegisteredPolicyAny {
                    id: 1,
                    inner: GlobalPolicy::CapabilityEnvelope(CapabilityEnvelopePolicy),
                },
            ],
            r.pipeline().outbound().len() == 0,
            forall|k: ActionKind| #[trigger] r.pipeline().action_policies(k).len() == 0,
    {
        let mut policy = PolicyPipeline::new();
        policy.prepend_inbound(GlobalPolicy::CapabilityEnvelope(CapabilityEnvelopePolicy));
        proof {
            assert(policy.inbound()[0].inner is CapabilityEnvelope);
        }
        KernelRuntime {
            fs: StdFsBackend::new(),
            network,
            grant_ids: GrantIdAllocator::new(),
            policy,
        }
    }

    /// A runtime with the real filesystem, no network, and a pipeline that
    /// holds only the capability gate.
    pub fn new() -> (r: Self)
        ensures
            r.wf(),
            r.network_backend() is Deny,
            r.next_grant() == 1,
            r.pipeline().next_id() == 2,
            r.pipeline().inbound() == seq![
                RegisteredPolicyAny {
                    id: 1,
                    inner: GlobalPolicy::CapabilityEnvelope(CapabilityEnvelopePolicy),
                },
            ],
            r.pipeline().outbound().len() == 0,
            forall|k: ActionKind| #[trigger] r.pipeline().action_policies(k).len() == 0,
    {
        KernelRuntime::with_backend(NetworkBackend::Deny(DenyNetworkBackend::new()))
    }

    /// Like `new`, with an in-memory network answering from `responses`.
    pub fn with_network(responses: Vec<(String, Vec<u8>)>) -> (r: Self)
        ensures
            r.wf(),
            r.network_backend() matches NetworkBackend::Static(s) && s.table()
                == responses@.map_values(|e: (String, Vec<u8>)| (e.0@, e.1@)),
            r.next_grant() == 1,
            r.pipeline().next_id() == 2,
            r.pipeline().inbound() == seq![
                RegisteredPolicyAny {
                    id: 1,
                    inner: GlobalPolicy::CapabilityEnvelope(CapabilityEnvelopePolicy),
                },
            ],
            r.pipeline().outbound().len() == 0,
            forall|k: ActionKind| #[trigger] r.pipeline().action_policies(k).len() == 0,
    {
        KernelRuntime::with_backend(NetworkBackend::Static(StaticNetworkBackend::new(responses)))
    }

    /// Registers an action policy behind the others of its kind.
    pub fn append(&mut self, policy: ActionPolicy)
        requires
            old(self).wf(),
            old(self).pipeline().next_id() < u64::MAX,
        ensures
            final(self).wf(),
            final(self).next_grant() == old(self).next_grant(),
            final(self).network_backend() == old(self).network_backend(),
            final(self).pipeline().next_id() == old(self).pipeline().next_id() + 1,
            final(self).pipeline().inbound() == old(self).pipeline().inbound(),
            final(self).pipeline().outbound() == old(self).pipeline().outbound(),
            final(self).pipeline().action_policies(policy.kind()) == old(self).pipeline().action_policies(policy.kind()).push(
                RegisteredPolicy { id: old(self).pipeline().next_id(), inner: policy },
            ),
            forall|k: ActionKind|
                k != policy.kind() ==> final(self).pipeline().action_policies(k) == old(self).pipeline().action_policies(k),
    {
        self.policy.append(policy);
    }

    /// Registers an action policy ahead of the others of its kind.
    pub fn prepend(&mut self, policy: ActionPolicy)
        requires
            old(self).wf(),
            old(self).pipeline().next_id() < u64::MAX,
        ensures
            final(self).wf(),
            final(self).next_grant() == old(self).next_grant(),
            final(self).network_backend() == old(self).network_backend(),
            final(self).pipeline().next_id() == old(self).pipeline().next_id() + 1,
            final(self).pipeline().inbound() == old(self).pipeline().inbound(),
            final(self).pipeline().outbound() == old(self).pipeline().outbound(),
            final(self).pipeline().action_policies(policy.kind()) == seq![
                RegisteredPolicy { id: old(self).pipeline().next_id(), inner: policy },
            ] + old(self).pipeline().action_policies(policy.kind()),
            forall|k: ActionKind|
                k != policy.kind() ==> final(self).pipeline().action_policies(k) == old(self).pipeline().action_policies(k),
    {
        self.policy.prepend(policy);
    }

    /// Registers a global policy at the back of the inbound stage; the
    /// capability gate stays first.
    pub fn append_inbound(&mut self, policy: GlobalPolicy)
        requires
            old(self).wf(),
            old(self).pipeline().next_id() < u64::MAX,
        ensures
            final(self).wf(),
            final(self).next_grant() == old(self).next_grant(),
            final(self).network_backend() == old(self).network_backend(),
            final(self).pipeline().next_id() == old(self).pipeline().next_id() + 1,
            final(self).pipeline().inbound() == old(self).pipeline().inbound().push(
                RegisteredPolicyAny { id: old(self).pipeline().next_id(), inner: policy },
            ),
            final(self).pipeline().outbound() == old(self).pipeline().outbound(),
            forall|k: ActionKind|
                final(self).pipeline().action_policies(k) == old(self).pipeline().action_policies(
                    k,
                ),
    {
        let ghost before = self.policy.inbound();
        self.policy.append_inbound(policy);
        proof {
            let g = choose|g: int|
                0 <= g < before.len() && (#[trigger] before[g]).inner is CapabilityEnvelope;
            assert(self.policy.inbound()[g] == before[g]);
        }
    }

    /// Registers a global policy at the front of the inbound stage, ahead of
    /// every inbound policy, the capability gate included. Inbound policies
    /// only veto, so the envelope still bounds every grant; the policy placed
    /// first decides which denial is reported when both deny.
    pub fn prepend_inbound(&mut self, policy: GlobalPolicy)
        requires
            old(self).wf(),
            old(self).pipeline().next_id() < u64::MAX,
        ensures
            final(self).wf(),
            final(self).next_grant() == old(self).next_grant(),
            final(self).network_backend() == old(self).network_backend(),
            final(self).pipeline().next_id() == old(self).pipeline().next_id() + 1,
            final(self).pipeline().inbound() == seq![
                RegisteredPolicyAny { id: old(self).pipeline().next_id(), inner: policy },
            ] + old(self).pipeline().inbound(),
            final(self).pipeline().outbound() == old(self).pipeline().outbound(),
            forall|k: ActionKind|
                final(self).pipeline().action_policies(k) == old(self).pipeline().action_policies(
                    k,
                ),
    {
        let ghost before = self.policy.inbound();
        self.policy.prepend_inbound(policy);
        proof {
            let g = choose|g: int|
                0 <= g < before.len() && (#[trigger] before[g]).inner is CapabilityEnvelope;
            assert(self.policy.inbound()[g + 1] == before[g]);
        }
    }

    /// Registers a global policy at the front of the outbound stage.
    pub fn prepend_outbound(&mut self, policy: GlobalPolicy)
        requires
            old(self).wf(),
            old(self).pipeline().next_id() < u64::MAX,
        ensures
            final(self).wf(),
            final(self).next_grant() == old(self).next_grant(),
            final(self).network_backend() == old(self).network_backend(),
            final(self).pipeline().next_id() == old(self).pipeline().next_id() + 1,
            final(self).pipeline().outbound() == seq![
                RegisteredPolicyAny { id: old(self).pipeline().next_id(), inner: policy },
            ] + old(self).pipeline().outbound(),
            final(self).pipeline().inbound() == old(self).pipeline().inbound(),
            forall|k: ActionKind|
                final(self).pipeline().action_policies(k) == old(self).pipeline().action_policies(
                    k,
                ),
    {
        self.policy.prepend_outbound(policy);
    }

    /// Registers a global policy at the back of the outbound stage.
    pub fn append_outbound(&mut self, policy: GlobalPolicy)
        requires
            old(self).wf(),
            old(self).pipeline().next_id() < u64::MAX,
        ensures
            final(self).wf(),
            final(self).next_grant() == old(self).next_grant(),
            final(self).network_backend() == old(self).network_backend(),
            final(self).pipeline().next_id() == old(self).pipeline().next_id() + 1,
            final(self).pipeline().outbound() == old(self).pipeline().outbound().push(
                RegisteredPolicyAny { id: old(self).pipeline().next_id(), inner: policy },
            ),
            final(self).pipeline().inbound() == old(self).pipeline().inbound(),
            forall|k: ActionKind|
                final(self).pipeline().action_policies(k) == old(self).pipeline().action_policies(
                    k,
                ),
    {
        self.policy.append_outbound(policy);
    }

    pub fn fs_backend(&self) -> (r: &StdFsBackend) {
        &self.fs
    }

    /// Grants an action through the runtime's pipeline.
    pub fn grant<A: Action>(&mut self, ctx: &KernelPolicyContext, action: A) -> (r: Result<
        Granted<A>,
        AuthorizationError,
    >)
        requires
            old(self).wf(),
        ensures
            final(self).wf(),
            final(self).pipeline() == old(self).pipeline(),
            final(self).network_backend() == old(self).network_backend(),
            r is Ok ==> bits_contain(ctx@.capabilities, action.spec_view().capability_bits()),
            ({
                let outcome = old(self).pipeline().spec_decide(ctx@, action.spec_view()).outcome;
                match outcome {
                    OutcomeView::Allow { .. } => {
                        &&& r matches Ok(g) && g.spec_action() == action && g.spec_record()
                            == allow_record(
                            outcome,
                            GrantId::spec_from_raw(old(self).next_grant()),
                            action,
                        )
                        &&& final(self).next_grant() == next_raw(old(self).next_grant())
                    },
                    OutcomeView::Deny { .. } => {
                        &&& r matches Err(AuthorizationError::Denied(d)) && d@ == denial(
                            outcome,
                            action,
                        )
                        &&& final(self).next_grant() == old(self).next_grant()
                    },
                }
            }),
    {
        proof {
            law_gate_bounds_allows(&self.policy, ctx@, action.spec_view());
        }
        self.policy.grant(&mut self.grant_ids, ctx, action)
    }

    /// Grants an action through the runtime's pipeline and hands back the
    /// pipeline's report with the result, for the audit of each policy's
    /// decision.
    pub fn grant_with_report<A: Action>(&mut self, ctx: &KernelPolicyContext, action: A) -> (r: (
        PolicyReport,
        Result<Granted<A>, AuthorizationError>,
    ))
        requires
            old(self).wf(),
        ensures
            final(self).wf(),
            final(self).pipeline() == old(self).pipeline(),
            final(self).network_backend() == old(self).network_backend(),
            r.0@ == old(self).pipeline().spec_decide(ctx@, action.spec_view()),
            grant_result(r.0@.outcome, old(self).next_grant(), final(self).next_grant(), action, r.1),
            r.1 is Ok ==> bits_contain(ctx@.capabilities, action.spec_view().capability_bits()),
    {
        proof {
            law_gate_bounds_allows(&self.policy, ctx@, action.spec_view());
        }
        grant_with_report(&self.policy, &mut self.grant_ids, ctx, action)
    }

    /// Fetches a URL: the fetch is granted by policy, then answered by the
    /// network backend.
    pub fn fetch_url(&mut self, ctx: &KernelPolicyContext, url: &str) -> (r: Result<
        Vec<u8>,
        ExecutionError,
    >)
        requires
            old(self).wf(),
        ensures
            final(self).wf(),
            final(self).pipeline() == old(self).pipeline(),
            final(self).network_backend() == old(self).network_backend(),
            r is Ok ==> bits_contain(
                ctx@.capabilities,
                (ActionView::NetworkFetch { url: url@ }).capability_bits(),
            ),
            ({
                let view = ActionView::NetworkFetch { url: url@ };
                let outcome = old(self).pipeline().spec_decide(ctx@, view).outcome;
                match outcome {
                    OutcomeView::Allow { .. } => {
                        &&& final(self).next_grant() == next_raw(old(self).next_grant())
                        &&& match old(self).network_backend().answer(url@) {
                            Some(body) => r matches Ok(b) && b@ == body,
                            None => r matches Err(
                                ExecutionError::Capability(CapabilityError::Denied),
                            ),
                        }
                    },
                    OutcomeView::Deny { .. } => {
                        &&& final(self).next_grant() == old(self).next_grant()
                        &&& r matches Err(
                            ExecutionError::Authorization(AuthorizationError::Denied(d)),
                        ) && d@ == denial_of(outcome, view)
                    },
                }
            }),
    {
        let action = NetworkFetchAction::new(url.to_owned());
        let granted = match self.grant(ctx, action) {
            Ok(g) => g,
            Err(e) => {
                return Err(ExecutionError::Authorization(e));
            },
        };
        self.network.fetch_url(granted)
    }

    /// Authorizes reading a canonical file; the read itself is I/O.
    pub fn authorize_read(&mut self, ctx: &KernelPolicyContext, path: CanonicalPath) -> (r: Result<
        Granted<FsReadAction>,
        ExecutionError,
    >)
        requires
            old(self).wf(),
        ensures
            final(self).wf(),
            final(self).pipeline() == old(self).pipeline(),
            final(self).network_backend() == old(self).network_backend(),
            r is Ok ==> bits_contain(
                ctx@.capabilities,
                (ActionView::FsRead { path: path@ }).capability_bits(),
            ),
            ({
                let view = ActionView::FsRead { path: path@ };
                let outcome = old(self).pipeline().spec_decide(ctx@, view).outcome;
                match outcome {
                    OutcomeView::Allow { .. } => {
                        &&& r matches Ok(g) && g.spec_action().spec_view() == view
                            && g.spec_record() == allow_record_of(
                            outcome,
                            GrantId::spec_from_raw(old(self).next_grant()),
                            view,
                        )
                        &&& final(self).next_grant() == next_raw(old(self).next_grant())
                    },
                    OutcomeView::Deny { .. } => {
                        &&& r matches Err(
                            ExecutionError::Authorization(AuthorizationError::Denied(d)),
                        ) && d@ == denial_of(outcome, view)
                        &&& final(self).next_grant() == old(self).next_grant()
                    },
                }
            }),
    {
        match self.grant(ctx, FsReadAction::new(path)) {
            Ok(g) => Ok(g),
            Err(e) => Err(ExecutionError::Authorization(e)),
        }
    }

    /// Authorizes writing `content` to a canonical file; the write itself is I/O.
    pub fn authorize_write(
        &mut self,
        ctx: &KernelPolicyContext,
        path: CanonicalPath,
        content: String,
    ) -> (r: Result<Granted<FsWriteAction>, ExecutionError>)
        requires
            old(self).wf(),
        ensures
            final(self).wf(),
            final(self).pipeline() == old(self).pipeline(),
            final(self).network_backend() == old(self).network_backend(),
            r is Ok ==> bits_contain(
                ctx@.capabilities,
                (ActionView::FsWrite { path: path@, content: content@ }).capability_bits(),
            ),
            ({
                let view = ActionView::FsWrite { path: path@, content: content@ };
                let outcome = old(self).pipeline().spec_decide(ctx@, view).outcome;
                match outcome {
                    OutcomeView::Allow { .. } => {
                        &&& r matches Ok(g) && g.spec_action().spec_view() == view
                            && g.spec_record() == allow_record_of(
                            outcome,
                            GrantId::spec_from_raw(old(self).next_grant()),
                            view,
                        )
                        &&& final(self).next_grant() == next_raw(old(self).next_grant())
                    },
                    OutcomeView::Deny { .. } => {
                        &&& r matches Err(
                            ExecutionError::Authorization(AuthorizationError::Denied(d)),
                        ) && d@ == denial_of(outcome, view)
                        &&& final(self).next_grant() == old(self).next_grant()
                    },
                }
            }),
    {
        match self.grant(ctx, FsWriteAction::new(path, content)) {
            Ok(g) => Ok(g),
            Err(e) => Err(ExecutionError::Authorization(e)),
        }
    }

    /// Authorizes loading the saved state of a Monty session of a workspace;
    /// reading the session store happens outside this crate.
    pub fn authorize_session_load(
        &mut self,
        ctx: &KernelPolicyContext,
        workspace_root: &str,
        session_id: &str,
    ) -> (r: Result<Granted<MontySessionLoadAction>, ExecutionError>)
        requires
            old(self).wf(),
        ensures
            final(self).wf(),
            final(self).pipeline() == old(self).pipeline(),
            final(self).network_backend() == old(self).network_backend(),
            ({
                let view = ActionView::MontySessionLoad {
                    workspace_root: workspace_root@,
                    session_id: session_id@,
                };
                let outcome = old(self).pipeline().spec_decide(ctx@, view).outcome;
                match outcome {
                    OutcomeView::Allow { .. } => {
                        &&& r matches Ok(g) && g.spec_action().spec_view() == view
                            && g.spec_record() == allow_record_of(
                            outcome,
                            GrantId::spec_from_raw(old(self).next_grant()),
                            view,
                        )
                        &&& final(self).next_grant() == next_raw(old(self).next_grant())
                    },
                    OutcomeView::Deny { .. } => {
                        &&& r matches Err(
                            ExecutionError::Authorization(AuthorizationError::Denied(d)),
                        ) && d@ == denial_of(outcome, view)
                        &&& final(self).next_grant() == old(self).next_grant()
                    },
                }
            }),
    {
        let key = MontySessionKey::new(workspace_root, session_id);
        match self.grant(ctx, MontySessionLoadAction::new(key)) {
            Ok(g) => Ok(g),
            Err(e) => Err(ExecutionError::Authorization(e)),
        }
    }

    /// Authorizes saving `bytes` as the state of a Monty session of a
    /// workspace; writing the session store happens outside this crate.
    pub fn authorize_session_save(
        &mut self,
        ctx: &KernelPolicyContext,
        workspace_root: &str,
        session_id: &str,
        bytes: Vec<u8>,
    ) -> (r: Result<Granted<MontySessionSaveAction>, ExecutionError>)
        requires
            old(self).wf(),
        ensures
            final(self).wf(),
            final(self).pipeline() == old(self).pipeline(),
            final(self).network_backend() == old(self).network_backend(),
            ({
                let view = ActionView::MontySessionSave {
                    workspace_root: workspace_root@,
                    session_id: session_id@,
                    bytes: bytes@,
                };
                let outcome = old(self).pipeline().spec_decide(ctx@, view).outcome;
                match outcome {
                    OutcomeView::Allow { .. } => {
                        &&& r matches Ok(g) && g.spec_action().spec_view() == view
                            && g.spec_record() == allow_record_of(
                            outcome,
                            GrantId::spec_from_raw(old(self).next_grant()),
                            view,
                        )
                        &&& final(self).next_grant() == next_raw(old(self).next_grant())
                    },
                    OutcomeView::Deny { .. } => {
                        &&& r matches Err(
                            ExecutionError::Authorization(AuthorizationError::Denied(d)),
                        ) && d@ == denial_of(outcome, view)
                        &&& final(self).next_grant() == old(self).next_grant()
                    },
                }
            }),
    {
        let key = MontySessionKey::new(workspace_root, session_id);
        match self.grant(ctx, MontySessionSaveAction::new(key, bytes)) {
            Ok(g) => Ok(g),
            Err(e) => Err(ExecutionError::Authorization(e)),
        }
    }
}

} // verus!
