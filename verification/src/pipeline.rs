//! The policy pipeline: registered policies in three ordered stages, the
//! decision procedure that turns an action into a report, and the grant step
//! that turns a report into a `Granted` action or a denial.
//!
//! Inbound policies see every action and may only veto it. Then the policies
//! registered for the action's kind run, then the outbound policies; in those
//! two stages the first policy that allows or denies decides. When no policy
//! decides, the action is denied.
use vstd::prelude::*;

use crate::action::{ActionKind, ActionView, PolicyAction};
use crate::contract::{
    eval_views, EvalView, GrantSource, GrantView, OutcomeView, PolicyDecision, PolicyEvaluation,
    PolicyId, PolicyReport, ReportView,
};
use crate::policy::{ActionPolicy, ContextView, GlobalPolicy, KernelPolicyContext};
use crate::text::owned;

verus! {

/// A registered action policy.
#[derive(Debug)]
pub struct RegisteredPolicy {
    pub id: PolicyId,
    pub inner: ActionPolicy,
}

/// A registered global policy.
#[derive(Debug)]
pub struct RegisteredPolicyAny {
    pub id: PolicyId,
    pub inner: GlobalPolicy,
}

// ---------------------------------------------------------------------------
// The decision procedure, as a specification
// ---------------------------------------------------------------------------
/// An evaluation, by its parts.
pub open spec fn eval_of(
    policy_name: &'static str,
    policy_id: PolicyId,
    policy_stage: &'static str,
    grant: GrantView,
) -> EvalView {
    EvalView { policy_name, policy_id, policy_stage, grant }
}

/// A grant ends the pipeline when it denies, or when it allows outside the
/// inbound stage.
pub open spec fn is_terminal(inbound: bool, g: GrantView) -> bool {
    g.decision == PolicyDecision::Deny || (!inbound && g.decision == PolicyDecision::Allow)
}

/// The outcome a terminal evaluation gives.
pub open spec fn outcome_of(e: EvalView) -> OutcomeView {
    if e.grant.decision == PolicyDecision::Allow {
        OutcomeView::Allow {
            policy_name: e.policy_name,
            policy_id: e.policy_id,
            reason: e.grant.reason,
        }
    } else {
        OutcomeView::Deny {
            source: GrantSource::Policy { policy_name: e.policy_name, policy_id: e.policy_id },
            reason: e.grant.reason,
        }
    }
}

/// The evaluations of a staged sequence, without their stage flags.
pub open spec fn unstaged(s: Seq<(bool, EvalView)>) -> Seq<EvalView> {
    s.map_values(|p: (bool, EvalView)| p.1)
}

/// The outcome when no policy decides.
pub open spec fn no_match_outcome() -> OutcomeView {
    OutcomeView::Deny {
        source: GrantSource::NoMatchingPolicy,
        reason: Some("No matching policy."@),
    }
}

/// The report of a staged sequence of evaluations, scanning from `i`: the
/// first terminal evaluation decides, and the report holds every evaluation
/// up to and including it.
pub open spec fn report_from(s: Seq<(bool, EvalView)>, i: int) -> ReportView
    decreases s.len() - i,
{
    if i < 0 || i >= s.len() {
        ReportView { evaluations: unstaged(s), outcome: no_match_outcome() }
    } else if is_terminal(s[i].0, s[i].1.grant) {
        ReportView { evaluations: unstaged(s.take(i + 1)), outcome: outcome_of(s[i].1) }
    } else {
        report_from(s, i + 1)
    }
}

/// The evaluations that global policies give, in order.
pub open spec fn global_evals(
    policies: Seq<RegisteredPolicyAny>,
    inbound: bool,
    stage: &'static str,
    ctx: ContextView,
    a: ActionView,
) -> Seq<(bool, EvalView)> {
    policies.map_values(
        |p: RegisteredPolicyAny|
            (inbound, eval_of(p.inner.spec_name(), p.id, stage, p.inner.grant_spec(ctx, a))),
    )
}

/// The evaluations that action policies give, in order.
pub open spec fn action_evals(
    policies: Seq<RegisteredPolicy>,
    ctx: ContextView,
    a: ActionView,
) -> Seq<(bool, EvalView)> {
    policies.map_values(
        |p: RegisteredPolicy|
            (false, eval_of(p.inner.spec_name(), p.id, "action", p.inner.grant_spec(ctx, a))),
    )
}

/// The pipeline's registered state.
#[derive(Debug)]
pub struct PolicyPipeline {
    next_policy_id: PolicyId,
    inbound: Vec<RegisteredPolicyAny>,
    outbound: Vec<RegisteredPolicyAny>,
    fs_read: Vec<RegisteredPolicy>,
    fs_write: Vec<RegisteredPolicy>,
    fs: Vec<RegisteredPolicy>,
    network_fetch: Vec<RegisteredPolicy>,
    monty_load: Vec<RegisteredPolicy>,
    monty_save: Vec<RegisteredPolicy>,
}

/// Every id in the list was allocated before `next`.
pub open spec fn ids_below_any(s: Seq<RegisteredPolicyAny>, next: PolicyId) -> bool {
    forall|i: int| 0 <= i < s.len() ==> 1 <= #[trigger] s[i].id < next
}

/// Every id in the list was allocated before `next`, and every policy in it
/// is for `kind`.
pub open spec fn bucket_wf(s: Seq<RegisteredPolicy>, kind: ActionKind, next: PolicyId) -> bool {
    forall|i: int| 0 <= i < s.len() ==> 1 <= #[trigger] s[i].id < next && s[i].inner.kind() == kind
}

proof fn lemma_bucket_insert(
    old_b: Seq<RegisteredPolicy>,
    new_b: Seq<RegisteredPolicy>,
    k: ActionKind,
    next: PolicyId,
    r: RegisteredPolicy,
    front: bool,
)
    requires
        bucket_wf(old_b, k, next),
        r.id == next,
        next >= 1,
        next < u64::MAX,
        r.inner.kind() == k,
        new_b == (if front {
            seq![r] + old_b
        } else {
            old_b.push(r)
        }),
    ensures
        bucket_wf(new_b, k, (next + 1) as PolicyId),
{
    assert forall|i: int| 0 <= i < new_b.len() implies 1 <= #[trigger] new_b[i].id < next + 1
        && new_b[i].inner.kind() == k by {
        if front {
            if i > 0 {
                assert(new_b[i] == old_b[i - 1]);
            }
        } else {
            if i < old_b.len() {
                assert(new_b[i] == old_b[i]);
            }
        }
    }
}

/// The ids of a list of global policies, in order.
pub open spec fn any_ids(s: Seq<RegisteredPolicyAny>) -> Seq<PolicyId> {
    s.map_values(|r: RegisteredPolicyAny| r.id)
}

/// The ids of a list of action policies, in order.
pub open spec fn action_ids(s: Seq<RegisteredPolicy>) -> Seq<PolicyId> {
    s.map_values(|r: RegisteredPolicy| r.id)
}

/// The position of the list of a kind of action among the pipeline's lists.
pub open spec fn kind_slot(k: ActionKind) -> int {
    match k {
        ActionKind::FsRead => 2,
        ActionKind::FsWrite => 3,
        ActionKind::Fs => 4,
        ActionKind::NetworkFetch => 5,
        ActionKind::MontySessionLoad => 6,
        ActionKind::MontySessionSave => 7,
    }
}

/// No policy id occurs twice in the pipeline: not within one list, and not
/// in two lists.
pub open spec fn ids_distinct(p: &PolicyPipeline) -> bool {
    &&& forall|i: int| 0 <= i < 8 ==> (#[trigger] p.list_ids(i)).no_duplicates()
    &&& forall|i: int, j: int, v: PolicyId|
        0 <= i < 8 && 0 <= j < 8 && i != j && #[trigger] p.list_ids(i).contains(v)
            ==> !#[trigger] p.list_ids(j).contains(v)
}

proof fn lemma_kind_slot(p: &PolicyPipeline, k: ActionKind)
    ensures
        2 <= kind_slot(k) < 8,
        p.list_ids(kind_slot(k)) == action_ids(p.action_policies(k)),
        forall|k2: ActionKind| k2 != k ==> kind_slot(k2) != kind_slot(k),
{
}

/// Every id in the pipeline's lists was allocated before the next one.
proof fn lemma_list_ids_below(p: &PolicyPipeline, i: int, v: PolicyId)
    requires
        ids_below_any(p.inbound(), p.next_id()),
        ids_below_any(p.outbound(), p.next_id()),
        forall|k: ActionKind| bucket_wf(#[trigger] p.action_policies(k), k, p.next_id()),
        0 <= i < 8,
        p.list_ids(i).contains(v),
    ensures
        v < p.next_id(),
{
    let n = choose|n: int| 0 <= n < p.list_ids(i).len() && p.list_ids(i)[n] == v;
    if i == 0 {
        assert(p.inbound()[n].id == v);
    } else if i == 1 {
        assert(p.outbound()[n].id == v);
    } else {
        let k = if i == 2 {
            ActionKind::FsRead
        } else if i == 3 {
            ActionKind::FsWrite
        } else if i == 4 {
            ActionKind::Fs
        } else if i == 5 {
            ActionKind::NetworkFetch
        } else if i == 6 {
            ActionKind::MontySessionLoad
        } else {
            ActionKind::MontySessionSave
        };
        assert(bucket_wf(p.action_policies(k), k, p.next_id()));
        assert(p.action_policies(k)[n].id == v);
    }
}

/// Inserting an id that no list holds, at the front or the back of one list,
/// keeps the ids distinct.
proof fn lemma_distinct_insert(before: &PolicyPipeline, after: &PolicyPipeline, m: int, x: PolicyId)
    requires
        ids_distinct(before),
        0 <= m < 8,
        forall|i: int| 0 <= i < 8 && i != m ==> after.list_ids(i) == before.list_ids(i),
        after.list_ids(m) == before.list_ids(m).push(x) || after.list_ids(m) == seq![x]
            + before.list_ids(m),
        forall|i: int| 0 <= i < 8 ==> !(#[trigger] before.list_ids(i)).contains(x),
    ensures
        ids_distinct(after),
{
    let old_m = before.list_ids(m);
    let new_m = after.list_ids(m);
    assert(old_m.no_duplicates());
    assert(!old_m.contains(x));
    assert forall|v: PolicyId| new_m.contains(v) implies v == x || old_m.contains(v) by {
        let n = choose|n: int| 0 <= n < new_m.len() && new_m[n] == v;
        if new_m == old_m.push(x) {
            if n < old_m.len() {
                assert(old_m[n] == v);
            }
        } else {
            if n > 0 {
                assert(old_m[n - 1] == v);
            }
        }
    }
    assert(new_m.no_duplicates()) by {
        assert forall|a: int, b: int| 0 <= a < new_m.len() && 0 <= b < new_m.len() && a != b implies new_m[a]
            != new_m[b] by {
            if new_m == old_m.push(x) {
                if a < old_m.len() && b < old_m.len() {
                } else if a < old_m.len() {
                    assert(old_m.contains(new_m[a]));
                } else if b < old_m.len() {
                    assert(old_m.contains(new_m[b]));
                }
            } else {
                if a > 0 && b > 0 {
                    assert(new_m[a] == old_m[a - 1]);
                    assert(new_m[b] == old_m[b - 1]);
                } else if a > 0 {
                    assert(new_m[a] == old_m[a - 1]);
                    assert(old_m.contains(new_m[a]));
                } else if b > 0 {
                    assert(new_m[b] == old_m[b - 1]);
                    assert(old_m.contains(new_m[b]));
                }
            }
        }
    }
    assert forall|i: int| 0 <= i < 8 implies (#[trigger] after.list_ids(i)).no_duplicates() by {
        if i != m {
            assert(after.list_ids(i) == before.list_ids(i));
        }
    }
    assert forall|i: int, j: int, v: PolicyId|
        0 <= i < 8 && 0 <= j < 8 && i != j && #[trigger] after.list_ids(i).contains(v) implies !#[trigger] after.list_ids(
        j,
    ).contains(v) by {
        if i == m {
            assert(after.list_ids(j) == before.list_ids(j));
            if v != x {
                assert(before.list_ids(i).contains(v));
            }
        } else if j == m {
            assert(after.list_ids(i) == before.list_ids(i));
            if after.list_ids(j).contains(v) && v != x {
                assert(before.list_ids(j).contains(v));
            }
        } else {
            assert(after.list_ids(i) == before.list_ids(i));
            assert(after.list_ids(j) == before.list_ids(j));
        }
    }
}

proof fn lemma_bucket_same(b: Seq<RegisteredPolicy>, k: ActionKind, next: PolicyId, next2: PolicyId)
    requires
        bucket_wf(b, k, next),
        next <= next2,
    ensures
        bucket_wf(b, k, next2),
{
}

impl PolicyPipeline {
    /// The id the next registration receives.
    pub closed spec fn next_id(&self) -> PolicyId {
        self.next_policy_id
    }

    /// The inbound policies, in evaluation order.
    pub closed spec fn inbound(&self) -> Seq<RegisteredPolicyAny> {
        self.inbound@
    }

    /// The outbound policies, in evaluation order.
    pub closed spec fn outbound(&self) -> Seq<RegisteredPolicyAny> {
        self.outbound@
    }

    /// The policies registered for one kind of action, in evaluation order.
    pub closed spec fn action_policies(&self, kind: ActionKind) -> Seq<RegisteredPolicy> {
        match kind {
            ActionKind::FsRead => self.fs_read@,
            ActionKind::FsWrite => self.fs_write@,
            ActionKind::Fs => self.fs@,
            ActionKind::NetworkFetch => self.network_fetch@,
            ActionKind::MontySessionLoad => self.monty_load@,
            ActionKind::MontySessionSave => self.monty_save@,
        }
    }

    /// Every registered id was allocated before the next one, and every
    /// action policy sits in the list of its own kind.
    pub open spec fn wf(&self) -> bool {
        &&& self.next_id() >= 1
        &&& ids_below_any(self.inbound(), self.next_id())
        &&& ids_below_any(self.outbound(), self.next_id())
        &&& forall|k: ActionKind| bucket_wf(#[trigger] self.action_policies(k), k, self.next_id())
        &&& ids_distinct(self)
        &&& self.next_id() == self.registered_count() + 1
    }

    /// How many policies are registered, over all stages and kinds.
    pub open spec fn registered_count(&self) -> nat {
        self.inbound().len() + self.outbound().len() + self.action_policies(ActionKind::FsRead).len()
            + self.action_policies(ActionKind::FsWrite).len() + self.action_policies(
            ActionKind::Fs,
        ).len() + self.action_policies(ActionKind::NetworkFetch).len() + self.action_policies(
            ActionKind::MontySessionLoad,
        ).len() + self.action_policies(ActionKind::MontySessionSave).len()
    }

    /// The ids of one of the pipeline's lists: the inbound stage, the
    /// outbound stage, then the list of each kind of action.
    pub open spec fn list_ids(&self, i: int) -> Seq<PolicyId> {
        if i == 0 {
            any_ids(self.inbound())
        } else if i == 1 {
            any_ids(self.outbound())
        } else if i == 2 {
            action_ids(self.action_policies(ActionKind::FsRead))
        } else if i == 3 {
            action_ids(self.action_policies(ActionKind::FsWrite))
        } else if i == 4 {
            action_ids(self.action_policies(ActionKind::Fs))
        } else if i == 5 {
            action_ids(self.action_policies(ActionKind::NetworkFetch))
        } else if i == 6 {
            action_ids(self.action_policies(ActionKind::MontySessionLoad))
        } else if i == 7 {
            action_ids(self.action_policies(ActionKind::MontySessionSave))
        } else {
            Seq::empty()
        }
    }

    /// Every evaluation the pipeline would make for an action, in stage order,
    /// each flagged with whether it is inbound.
    pub open spec fn staged(&self, ctx: ContextView, a: ActionView) -> Seq<(bool, EvalView)> {
        global_evals(self.inbound(), true, "inbound", ctx, a) + action_evals(
            self.action_policies(a.kind()),
            ctx,
            a,
        ) + global_evals(self.outbound(), false, "outbound", ctx, a)
    }

    /// The report the pipeline gives for an action.
    pub open spec fn spec_decide(&self, ctx: ContextView, a: ActionView) -> ReportView {
        report_from(self.staged(ctx, a), 0)
    }

    pub fn new() -> (r: Self)
        ensures
            r.wf(),
            r.next_id() == 1,
            r.inbound() == Seq::<RegisteredPolicyAny>::empty(),
            r.outbound() == Seq::<RegisteredPolicyAny>::empty(),
            forall|k: ActionKind| r.action_policies(k) == Seq::<RegisteredPolicy>::empty(),
    {
        let r = PolicyPipeline {
            next_policy_id: 1,
            inbound: Vec::new(),
            outbound: Vec::new(),
            fs_read: Vec::new(),
            fs_write: Vec::new(),
            fs: Vec::new(),
            network_fetch: Vec::new(),
            monty_load: Vec::new(),
            monty_save: Vec::new(),
        };
        proof {
            assert forall|k: ActionKind|
                r.action_policies(k) == Seq::<RegisteredPolicy>::empty() by {
                match k {
                    ActionKind::FsRead => {},
                    ActionKind::FsWrite => {},
                    ActionKind::Fs => {},
                    ActionKind::NetworkFetch => {},
                    ActionKind::MontySessionLoad => {},
                    ActionKind::MontySessionSave => {},
                }
            }
            assert forall|i: int| 0 <= i < 8 implies #[trigger] r.list_ids(i) =~= Seq::<
                PolicyId,
            >::empty() by {}
        }
        r
    }

    fn allocate_policy_id(&mut self) -> (r: PolicyId)
        requires
            old(self).next_id() < u64::MAX,
        ensures
            r == old(self).next_id(),
            final(self).next_id() == old(self).next_id() + 1,
            final(self).inbound() == old(self).inbound(),
            final(self).outbound() == old(self).outbound(),
            forall|k: ActionKind| final(self).action_policies(k) == old(self).action_policies(k),
    {
        let id = self.next_policy_id;
        self.next_policy_id = self.next_policy_id + 1;
        id
    }

    /// Inserts into the list of `kind`, at the front or at the back.
    fn insert_action(&mut self, kind: ActionKind, front: bool, registered: RegisteredPolicy)
        ensures
            final(self).next_id() == old(self).next_id(),
            final(self).inbound() == old(self).inbound(),
            final(self).outbound() == old(self).outbound(),
            final(self).action_policies(kind) == (if front {
                seq![registered] + old(self).action_policies(kind)
            } else {
                old(self).action_policies(kind).push(registered)
            }),
            forall|k: ActionKind|
                k != kind ==> final(self).action_policies(k) == old(self).action_policies(k),
    {
        let ghost r = registered;
        match kind {
            ActionKind::FsRead => {
                if front {
                    self.fs_read.insert(0, registered);
                } else {
                    self.fs_read.push(registered);
                }
            },
            ActionKind::FsWrite => {
                if front {
                    self.fs_write.insert(0, registered);
                } else {
                    self.fs_write.push(registered);
                }
            },
            ActionKind::Fs => {
                if front {
                    self.fs.insert(0, registered);
                } else {
                    self.fs.push(registered);
                }
            },
            ActionKind::NetworkFetch => {
                if front {
                    self.network_fetch.insert(0, registered);
                } else {
                    self.network_fetch.push(registered);
                }
            },
            ActionKind::MontySessionLoad => {
                if front {
                    self.monty_load.insert(0, registered);
                } else {
                    self.monty_load.push(registered);
                }
            },
            ActionKind::MontySessionSave => {
                if front {
                    self.monty_save.insert(0, registered);
                } else {
                    self.monty_save.push(registered);
                }
            },
        }
        proof {
            if front {
                assert(self.action_policies(kind) =~= seq![r] + old(self).action_policies(kind));
            }
        }
    }

    fn register_action(&mut self, policy: ActionPolicy, front: bool)
        requires
            old(self).wf(),
            old(self).next_id() < u64::MAX,
        ensures
            final(self).wf(),
            final(self).next_id() == old(self).next_id() + 1,
            final(self).inbound() == old(self).inbound(),
            final(self).outbound() == old(self).outbound(),
            final(self).action_policies(policy.kind()) == (if front {
                seq![RegisteredPolicy { id: old(self).next_id(), inner: policy }]
                    + old(self).action_policies(policy.kind())
            } else {
                old(self).action_policies(policy.kind()).push(
                    RegisteredPolicy { id: old(self).next_id(), inner: policy },
                )
            }),
            forall|k: ActionKind|
                k != policy.kind() ==> final(self).action_policies(k) == old(self).action_policies(
                    k,
                ),
    {
        let ghost before = *old(self);
        let kind = policy.kind_of();
        let id = self.allocate_policy_id();
        self.insert_action(kind, front, RegisteredPolicy { id, inner: policy });
        proof {
            let r = RegisteredPolicy { id, inner: policy };
            let m = kind_slot(kind);
            lemma_kind_slot(&before, kind);
            lemma_kind_slot(self, kind);
            if front {
                assert(action_ids(self.action_policies(kind)) =~= seq![id] + action_ids(
                    before.action_policies(kind),
                ));
            } else {
                assert(action_ids(self.action_policies(kind)) =~= action_ids(
                    before.action_policies(kind),
                ).push(id));
            }
            assert forall|i: int| 0 <= i < 8 && i != m implies self.list_ids(i) == before.list_ids(
                i,
            ) by {}
            assert forall|i: int| 0 <= i < 8 implies !(#[trigger] before.list_ids(i)).contains(id) by {
                if before.list_ids(i).contains(id) {
                    lemma_list_ids_below(&before, i, id);
                }
            }
            lemma_distinct_insert(&before, self, m, id);
            assert forall|k: ActionKind|
                bucket_wf(#[trigger] self.action_policies(k), k, self.next_id()) by {
                assert(bucket_wf(old(self).action_policies(k), k, old(self).next_id()));
                if k == kind {
                    lemma_bucket_insert(
                        old(self).action_policies(k),
                        self.action_policies(k),
                        k,
                        old(self).next_id(),
                        r,
                        front,
                    );
                } else {
                    lemma_bucket_same(
                        old(self).action_policies(k),
                        k,
                        old(self).next_id(),
                        self.next_id(),
                    );
                }
            }
        }
    }

    /// Registers an action policy ahead of the others of its kind.
    pub fn prepend(&mut self, policy: ActionPolicy)
        requires
            old(self).wf(),
            old(self).next_id() < u64::MAX,
        ensures
            final(self).wf(),
            final(self).next_id() == old(self).next_id() + 1,
            final(self).inbound() == old(self).inbound(),
            final(self).outbound() == old(self).outbound(),
            final(self).action_policies(policy.kind()) == seq![
                RegisteredPolicy { id: old(self).next_id(), inner: policy },
            ] + old(self).action_policies(policy.kind()),
            forall|k: ActionKind|
                k != policy.kind() ==> final(self).action_policies(k) == old(self).action_policies(
                    k,
                ),
    {
        self.register_action(policy, true);
    }

    /// Registers an action policy behind the others of its kind.
    pub fn append(&mut self, policy: ActionPolicy)
        requires
            old(self).wf(),
            old(self).next_id() < u64::MAX,
        ensures
            final(self).wf(),
            final(self).next_id() == old(self).next_id() + 1,
            final(self).inbound() == old(self).inbound(),
            final(self).outbound() == old(self).outbound(),
            final(self).action_policies(policy.kind()) == old(self).action_policies(
                policy.kind(),
            ).push(RegisteredPolicy { id: old(self).next_id(), inner: policy }),
            forall|k: ActionKind|
                k != policy.kind() ==> final(self).action_policies(k) == old(self).action_policies(
                    k,
                ),
    {
        self.register_action(policy, false);
    }

    fn register_global(&mut self, policy: GlobalPolicy, inbound: bool, front: bool)
        requires
            old(self).wf(),
            old(self).next_id() < u64::MAX,
        ensures
            final(self).wf(),
            final(self).next_id() == old(self).next_id() + 1,
            forall|k: ActionKind| final(self).action_policies(k) == old(self).action_policies(k),
            ({
                let r = RegisteredPolicyAny { id: old(self).next_id(), inner: policy };
                let target = if inbound {
                    old(self).inbound()
                } else {
                    old(self).outbound()
                };
                let updated = if front {
                    seq![r] + target
                } else {
                    target.push(r)
                };
                if inbound {
                    final(self).inbound() == updated && final(self).outbound() == old(self).outbound()
                } else {
                    final(self).outbound() == updated && final(self).inbound() == old(self).inbound()
                }
            }),
    {
        let ghost before = *old(self);
        let id = self.allocate_policy_id();
        let registered = RegisteredPolicyAny { id, inner: policy };
        let ghost r = registered;
        if inbound {
            if front {
                self.inbound.insert(0, registered);
            } else {
                self.inbound.push(registered);
            }
        } else {
            if front {
                self.outbound.insert(0, registered);
            } else {
                self.outbound.push(registered);
            }
        }
        proof {
            assert(ids_below_any(old(self).inbound(), old(self).next_id()));
            assert(ids_below_any(old(self).outbound(), old(self).next_id()));
            if front && inbound {
                assert(self.inbound() =~= seq![r] + old(self).inbound());
                assert forall|i: int| 0 <= i < self.inbound().len() implies 1
                    <= #[trigger] self.inbound()[i].id < self.next_id() by {
                    if i > 0 {
                        assert(self.inbound()[i] == old(self).inbound()[i - 1]);
                    }
                }
            }
            if front && !inbound {
                assert(self.outbound() =~= seq![r] + old(self).outbound());
                assert forall|i: int| 0 <= i < self.outbound().len() implies 1
                    <= #[trigger] self.outbound()[i].id < self.next_id() by {
                    if i > 0 {
                        assert(self.outbound()[i] == old(self).outbound()[i - 1]);
                    }
                }
            }
            if !front && inbound {
                assert forall|i: int| 0 <= i < self.inbound().len() implies 1
                    <= #[trigger] self.inbound()[i].id < self.next_id() by {
                    if i < old(self).inbound().len() {
                        assert(self.inbound()[i] == old(self).inbound()[i]);
                    }
                }
            }
            if !front && !inbound {
                assert forall|i: int| 0 <= i < self.outbound().len() implies 1
                    <= #[trigger] self.outbound()[i].id < self.next_id() by {
                    if i < old(self).outbound().len() {
                        assert(self.outbound()[i] == old(self).outbound()[i]);
                    }
                }
            }
            assert forall|k: ActionKind|
                bucket_wf(#[trigger] self.action_policies(k), k, self.next_id()) by {
                assert(bucket_wf(before.action_policies(k), k, before.next_id()));
                assert(self.action_policies(k) == before.action_policies(k));
                lemma_bucket_same(before.action_policies(k), k, before.next_id(), self.next_id());
            }
            let m: int = if inbound {
                0
            } else {
                1
            };
            if inbound {
                if front {
                    assert(any_ids(self.inbound()) =~= seq![id] + any_ids(before.inbound()));
                } else {
                    assert(any_ids(self.inbound()) =~= any_ids(before.inbound()).push(id));
                }
            } else {
                if front {
                    assert(any_ids(self.outbound()) =~= seq![id] + any_ids(before.outbound()));
                } else {
                    assert(any_ids(self.outbound()) =~= any_ids(before.outbound()).push(id));
                }
            }
            assert forall|i: int| 0 <= i < 8 && i != m implies self.list_ids(i) == before.list_ids(
                i,
            ) by {}
            assert forall|i: int| 0 <= i < 8 implies !(#[trigger] before.list_ids(i)).contains(id) by {
                if before.list_ids(i).contains(id) {
                    lemma_list_ids_below(&before, i, id);
                }
            }
            lemma_distinct_insert(&before, self, m, id);
        }
    }

    /// Registers a global policy at the front of the inbound stage.
    pub fn prepend_inbound(&mut self, policy: GlobalPolicy)
        requires
            old(self).wf(),
            old(self).next_id() < u64::MAX,
        ensures
            final(self).wf(),
            final(self).next_id() == old(self).next_id() + 1,
            final(self).inbound() == seq![RegisteredPolicyAny { id: old(self).next_id(), inner: policy }]
                + old(self).inbound(),
            final(self).outbound() == old(self).outbound(),
            forall|k: ActionKind| final(self).action_policies(k) == old(self).action_policies(k),
    {
        self.register_global(policy, true, true);
    }

    /// Registers a global policy at the back of the inbound stage.
    pub fn append_inbound(&mut self, policy: GlobalPolicy)
        requires
            old(self).wf(),
            old(self).next_id() < u64::MAX,
        ensures
            final(self).wf(),
            final(self).next_id() == old(self).next_id() + 1,
            final(self).inbound() == old(self).inbound().push(
                RegisteredPolicyAny { id: old(self).next_id(), inner: policy },
            ),
            final(self).outbound() == old(self).outbound(),
            forall|k: ActionKind| final(self).action_policies(k) == old(self).action_policies(k),
    {
        self.register_global(policy, true, false);
    }

    /// Registers a global policy at the front of the outbound stage.
    pub fn prepend_outbound(&mut self, policy: GlobalPolicy)
        requires
            old(self).wf(),
            old(self).next_id() < u64::MAX,
        ensures
            final(self).wf(),
            final(self).next_id() == old(self).next_id() + 1,
            final(self).outbound() == seq![RegisteredPolicyAny { id: old(self).next_id(), inner: policy }]
                + old(self).outbound(),
            final(self).inbound() == old(self).inbound(),
            forall|k: ActionKind| final(self).action_policies(k) == old(self).action_policies(k),
    {
        self.register_global(policy, false, true);
    }

    /// Registers a global policy at the back of the outbound stage.
    pub fn append_outbound(&mut self, policy: GlobalPolicy)
        requires
            old(self).wf(),
            old(self).next_id() < u64::MAX,
        ensures
            final(self).wf(),
            final(self).next_id() == old(self).next_id() + 1,
            final(self).outbound() == old(self).outbound().push(
                RegisteredPolicyAny { id: old(self).next_id(), inner: policy },
            ),
            final(self).inbound() == old(self).inbound(),
            forall|k: ActionKind| final(self).action_policies(k) == old(self).action_policies(k),
    {
        self.register_global(policy, false, false);
    }

    /// The id the next registration receives.
    pub fn next_policy_id(&self) -> (r: PolicyId)
        ensures
            r == self.next_id(),
    {
        self.next_policy_id
    }

    fn action_bucket(&self, kind: ActionKind) -> (r: &Vec<RegisteredPolicy>)
        ensures
            r@ == self.action_policies(kind),
    {
        match kind {
            ActionKind::FsRead => &self.fs_read,
            ActionKind::FsWrite => &self.fs_write,
            ActionKind::Fs => &self.fs,
            ActionKind::NetworkFetch => &self.network_fetch,
            ActionKind::MontySessionLoad => &self.monty_load,
            ActionKind::MontySessionSave => &self.monty_save,
        }
    }

    /// Runs the pipeline for an action and reports every evaluation made and
    /// the outcome.
    pub fn decide(&self, ctx: &KernelPolicyContext, action: &PolicyAction) -> (r: PolicyReport)
        requires
            self.wf(),
        ensures
            r@ == self.spec_decide(ctx@, action@),
    {
        let ghost all = self.staged(ctx@, action@);
        let ghost ins = global_evals(self.inbound(), true, "inbound", ctx@, action@);
        let ghost acts = action_evals(self.action_policies(action@.kind()), ctx@, action@);
        let ghost outs = global_evals(self.outbound(), false, "outbound", ctx@, action@);
        let mut evaluations: Vec<PolicyEvaluation> = Vec::new();
        let n_in = self.inbound.len();
        proof {
            assert(all =~= ins + acts + outs);
            assert(unstaged(all.take(0)) =~= eval_views(evaluations@));
        }
        for i in 0..n_in
            invariant
                n_in == self.inbound().len(),
                all == self.staged(ctx@, action@),
                all =~= ins + acts + outs,
                ins == global_evals(self.inbound(), true, "inbound", ctx@, action@),
                eval_views(evaluations@) == unstaged(all.take(i as int)),
                report_from(all, 0) == report_from(all, i as int),
        {
            let p = &self.inbound[i];
            let grant = p.inner.grant(ctx, action);
            let name = p.inner.name();
            let id = p.id;
            let (decision, reason) = grant.clone().into_decision_and_reason();
            let ghost before = evaluations@;
            evaluations.push(PolicyEvaluation::new(name, id, "inbound", grant));
            proof {
                assert(all[i as int] == ins[i as int]);
                assert(unstaged(all.take(i + 1)) =~= unstaged(all.take(i as int)).push(
                    all[i as int].1,
                ));
                assert(eval_views(evaluations@) =~= eval_views(before).push(
                    evaluations@[i as int]@,
                ));
            }
            match decision {
                PolicyDecision::Deny => {
                    return PolicyReport::deny_from_policy(evaluations, name, id, reason);
                },
                _ => {},
            }
        }
        let bucket = self.action_bucket(action.kind());
        let n_act = bucket.len();
        for j in 0..n_act
            invariant
                n_in == self.inbound().len(),
                n_act == bucket@.len(),
                bucket@ == self.action_policies(action@.kind()),
                self.wf(),
                all == self.staged(ctx@, action@),
                all =~= ins + acts + outs,
                ins.len() == n_in,
                acts == action_evals(self.action_policies(action@.kind()), ctx@, action@),
                eval_views(evaluations@) == unstaged(all.take(n_in + j)),
                report_from(all, 0) == report_from(all, n_in + j),
        {
            let p = &bucket[j];
            proof {
                assert(bucket_wf(self.action_policies(action@.kind()), action@.kind(), self.next_id()));
                assert(p.inner.kind() == action@.kind());
            }
            let grant = p.inner.grant(ctx, action);
            let name = p.inner.name();
            let id = p.id;
            let (decision, reason) = grant.clone().into_decision_and_reason();
            let ghost before = evaluations@;
            evaluations.push(PolicyEvaluation::new(name, id, "action", grant));
            proof {
                assert(all[n_in + j] == acts[j as int]);
                assert(unstaged(all.take(n_in + j + 1)) =~= unstaged(all.take(n_in + j)).push(
                    all[n_in + j].1,
                ));
                assert(eval_views(evaluations@) =~= eval_views(before).push(
                    evaluations@[n_in + j]@,
                ));
            }
            match decision {
                PolicyDecision::Allow => {
                    return PolicyReport::allow(evaluations, name, id, reason);
                },
                PolicyDecision::Deny => {
                    return PolicyReport::deny_from_policy(evaluations, name, id, reason);
                },
                PolicyDecision::Abstain => {},
            }
        }
        let n_out = self.outbound.len();
        for k in 0..n_out
            invariant
                n_out == self.outbound().len(),
                all == self.staged(ctx@, action@),
                all =~= ins + acts + outs,
                ins.len() + acts.len() == n_in + n_act,
                outs == global_evals(self.outbound(), false, "outbound", ctx@, action@),
                eval_views(evaluations@) == unstaged(all.take(n_in + n_act + k)),
                report_from(all, 0) == report_from(all, n_in + n_act + k),
        {
            let p = &self.outbound[k];
            let grant = p.inner.grant(ctx, action);
            let name = p.inner.name();
            let id = p.id;
            let (decision, reason) = grant.clone().into_decision_and_reason();
            let ghost before = evaluations@;
            let ghost pos = n_in + n_act + k;
            evaluations.push(PolicyEvaluation::new(name, id, "outbound", grant));
            proof {
                assert(all[pos] == outs[k as int]);
                assert(unstaged(all.take(pos + 1)) =~= unstaged(all.take(pos)).push(all[pos].1));
                assert(eval_views(evaluations@) =~= eval_views(before).push(evaluations@[pos]@));
            }
            match decision {
                PolicyDecision::Allow => {
                    return PolicyReport::allow(evaluations, name, id, reason);
                },
                PolicyDecision::Deny => {
                    return PolicyReport::deny_from_policy(evaluations, name, id, reason);
                },
                PolicyDecision::Abstain => {},
            }
        }
        proof {
            assert(all.take(all.len() as int) =~= all);
        }
        PolicyReport::deny_without_match(evaluations, Some(owned("No matching policy.")))
    }
}

/// Skipping evaluations that do not end the pipeline leaves the report
/// unchanged.
pub proof fn lemma_report_skip(s: Seq<(bool, EvalView)>, k: int, i: int)
    requires
        0 <= k <= i <= s.len(),
        forall|j: int| k <= j < i ==> !is_terminal(s[j].0, #[trigger] s[j].1.grant),
    ensures
        report_from(s, k) == report_from(s, i),
    decreases i - k,
{
    if k < i {
        lemma_report_skip(s, k + 1, i);
    }
}

/// The pipeline's report is decided by the first evaluation that denies, or
/// allows outside the inbound stage: the report holds every evaluation up to
/// it and takes its outcome. When there is none, the report holds every
/// evaluation and the action is denied with "No matching policy.".
pub proof fn law_first_decisive_evaluation(s: Seq<(bool, EvalView)>)
    ensures
        (forall|j: int| 0 <= j < s.len() ==> !is_terminal(s[j].0, #[trigger] s[j].1.grant))
            ==> report_from(s, 0) == (ReportView {
            evaluations: unstaged(s),
            outcome: no_match_outcome(),
        }),
        forall|i: int|
            0 <= i < s.len() && is_terminal(s[i].0, #[trigger] s[i].1.grant) && (forall|j: int|
                0 <= j < i ==> !is_terminal(s[j].0, #[trigger] s[j].1.grant)) ==> report_from(s, 0)
                == (ReportView { evaluations: unstaged(s.take(i + 1)), outcome: outcome_of(s[i].1) }),
{
    if forall|j: int| 0 <= j < s.len() ==> !is_terminal(s[j].0, #[trigger] s[j].1.grant) {
        lemma_report_skip(s, 0, s.len() as int);
    }
    assert forall|i: int|
        0 <= i < s.len() && is_terminal(s[i].0, #[trigger] s[i].1.grant) && (forall|j: int|
            0 <= j < i ==> !is_terminal(s[j].0, #[trigger] s[j].1.grant)) implies report_from(s, 0)
        == (ReportView { evaluations: unstaged(s.take(i + 1)), outcome: outcome_of(s[i].1) }) by {
        lemma_report_skip(s, 0, i);
    }
}

/// Whatever the pipeline decides, its report lists evaluations in stage
/// order from the first one on, with nothing skipped.
pub proof fn law_report_is_prefix(s: Seq<(bool, EvalView)>)
    ensures
        exists|n: int|
            0 <= n <= s.len() && #[trigger] report_from(s, 0).evaluations == unstaged(s.take(n)),
{
    lemma_report_prefix_from(s, 0);
}

proof fn lemma_report_prefix_from(s: Seq<(bool, EvalView)>, k: int)
    requires
        0 <= k <= s.len(),
    ensures
        exists|n: int|
            0 <= n <= s.len() && #[trigger] report_from(s, k).evaluations == unstaged(s.take(n)),
    decreases s.len() - k,
{
    if k >= s.len() {
        assert(s.take(s.len() as int) =~= s);
        assert(report_from(s, k).evaluations == unstaged(s.take(s.len() as int)));
    } else if is_terminal(s[k].0, s[k].1.grant) {
        assert(report_from(s, k).evaluations == unstaged(s.take(k + 1)));
    } else {
        lemma_report_prefix_from(s, k + 1);
    }
}

/// The staged evaluation at an inbound position.
pub proof fn lemma_staged_inbound(p: &PolicyPipeline, ctx: ContextView, a: ActionView, k: int)
    requires
        0 <= k < p.inbound().len(),
    ensures
        p.staged(ctx, a).len() >= p.inbound().len(),
        p.staged(ctx, a)[k] == (true, eval_of(
            p.inbound()[k].inner.spec_name(),
            p.inbound()[k].id,
            "inbound",
            p.inbound()[k].inner.grant_spec(ctx, a),
        )),
{
    let s = p.staged(ctx, a);
    let ins = global_evals(p.inbound(), true, "inbound", ctx, a);
    let acts = action_evals(p.action_policies(a.kind()), ctx, a);
    let outs = global_evals(p.outbound(), false, "outbound", ctx, a);
    assert(s =~= ins + acts + outs);
    assert(s[k] == ins[k]);
}

/// Inbound policies can only veto: when the pipeline allows an action, no
/// inbound policy denied it, and the allowing policy ran in the action or the
/// outbound stage.
pub proof fn law_allow_passes_inbound(p: &PolicyPipeline, ctx: ContextView, a: ActionView)
    ensures
        p.spec_decide(ctx, a).outcome is Allow ==> {
            &&& forall|i: int|
                0 <= i < p.inbound().len() ==> (#[trigger] p.inbound()[i]).inner.grant_spec(
                    ctx,
                    a,
                ).decision != PolicyDecision::Deny
            &&& exists|j: int|
                p.inbound().len() <= j < p.staged(ctx, a).len() && #[trigger] p.staged(
                    ctx,
                    a,
                )[j].1.grant.decision == PolicyDecision::Allow && !p.staged(ctx, a)[j].0
        },
{
    let s = p.staged(ctx, a);
    if p.spec_decide(ctx, a).outcome is Allow {
        if exists|i: int| 0 <= i < s.len() && is_terminal(s[i].0, #[trigger] s[i].1.grant) {
            let i = choose|i: int| 0 <= i < s.len() && is_terminal(s[i].0, #[trigger] s[i].1.grant);
            let first = lemma_first_terminal(s, i);
            lemma_report_skip(s, 0, first);
            assert(!s[first].0);
            assert forall|k: int| 0 <= k < p.inbound().len() implies (
            #[trigger] p.inbound()[k]).inner.grant_spec(ctx, a).decision != PolicyDecision::Deny by {
                lemma_staged_inbound(p, ctx, a, k);
                if first <= k {
                    lemma_staged_inbound(p, ctx, a, first);
                } else {
                    assert(!is_terminal(s[k].0, s[k].1.grant));
                }
            }
            if first < p.inbound().len() {
                lemma_staged_inbound(p, ctx, a, first);
            }
            assert(p.staged(ctx, a)[first].1.grant.decision == PolicyDecision::Allow);
        } else {
            lemma_report_skip(s, 0, s.len() as int);
        }
    }
}

/// The first terminal evaluation at or before `i`.
pub proof fn lemma_first_terminal(s: Seq<(bool, EvalView)>, i: int) -> (first: int)
    requires
        0 <= i < s.len(),
        is_terminal(s[i].0, s[i].1.grant),
    ensures
        0 <= first <= i,
        is_terminal(s[first].0, s[first].1.grant),
        forall|j: int| 0 <= j < first ==> !is_terminal(s[j].0, #[trigger] s[j].1.grant),
    decreases i,
{
    if exists|j: int| 0 <= j < i && is_terminal(s[j].0, #[trigger] s[j].1.grant) {
        let j = choose|j: int| 0 <= j < i && is_terminal(s[j].0, #[trigger] s[j].1.grant);
        lemma_first_terminal(s, j)
    } else {
        i
    }
}

/// An empty pipeline evaluates nothing and denies every action with
/// "No matching policy.".
pub proof fn law_empty_pipeline_denies(p: &PolicyPipeline, ctx: ContextView, a: ActionView)
    requires
        p.inbound().len() == 0,
        p.outbound().len() == 0,
        p.action_policies(a.kind()).len() == 0,
    ensures
        p.spec_decide(ctx, a) == (ReportView {
            evaluations: Seq::<EvalView>::empty(),
            outcome: no_match_outcome(),
        }),
{
    let s = p.staged(ctx, a);
    assert(s.len() == 0);
    assert(unstaged(s) =~= Seq::<EvalView>::empty());
}

/// When an inbound policy denies and no inbound policy ahead of it does, the
/// pipeline denies the action from that policy, with that policy's reason.
pub proof fn law_inbound_veto(p: &PolicyPipeline, ctx: ContextView, a: ActionView, i: int)
    requires
        0 <= i < p.inbound().len(),
        p.inbound()[i].inner.grant_spec(ctx, a).decision == PolicyDecision::Deny,
        forall|j: int|
            0 <= j < i ==> (#[trigger] p.inbound()[j]).inner.grant_spec(ctx, a).decision
                != PolicyDecision::Deny,
    ensures
        p.spec_decide(ctx, a).outcome == (OutcomeView::Deny {
            source: GrantSource::Policy {
                policy_name: p.inbound()[i].inner.spec_name(),
                policy_id: p.inbound()[i].id,
            },
            reason: p.inbound()[i].inner.grant_spec(ctx, a).reason,
        }),
{
    let s = p.staged(ctx, a);
    lemma_staged_inbound(p, ctx, a, i);
    assert forall|j: int| 0 <= j < i implies !is_terminal(s[j].0, #[trigger] s[j].1.grant) by {
        lemma_staged_inbound(p, ctx, a, j);
    }
    assert(is_terminal(s[i].0, s[i].1.grant));
    law_first_decisive_evaluation(s);
    assert(report_from(s, 0).outcome == outcome_of(s[i].1));
}

/// The pipeline decides an action before its outbound stage: some inbound
/// policy denies it, or some action policy allows or denies it.
pub open spec fn decided_before_outbound(p: &PolicyPipeline, ctx: ContextView, a: ActionView) -> bool {
    exists|i: int|
        0 <= i < p.inbound().len() + p.action_policies(a.kind()).len() && is_terminal(
            #[trigger] p.staged(ctx, a)[i].0,
            p.staged(ctx, a)[i].1.grant,
        )
}

/// Policy ids are fresh: the id the next registration receives belongs to no
/// policy registered so far.
pub proof fn law_fresh_policy_id(p: &PolicyPipeline, k: ActionKind)
    requires
        p.wf(),
    ensures
        forall|i: int| 0 <= i < p.inbound().len() ==> (#[trigger] p.inbound()[i]).id != p.next_id(),
        forall|i: int|
            0 <= i < p.outbound().len() ==> (#[trigger] p.outbound()[i]).id != p.next_id(),
        forall|i: int|
            0 <= i < p.action_policies(k).len() ==> (#[trigger] p.action_policies(k)[i]).id
                != p.next_id(),
{
    assert(bucket_wf(p.action_policies(k), k, p.next_id()));
}

/// Registrations are numbered in order: the policy registered `n`-th, by any
/// of the six registration calls, receives id `n`, and the next one `n + 1`.
pub proof fn law_ids_count_registrations(p: &PolicyPipeline)
    requires
        p.wf(),
    ensures
        p.next_id() == p.registered_count() + 1,
{
}

/// No two registered policies share an id: within a stage or a kind, and
/// across stages and kinds, distinct positions hold distinct ids.
pub proof fn law_policy_ids_distinct(p: &PolicyPipeline, k1: ActionKind, k2: ActionKind)
    requires
        p.wf(),
    ensures
        forall|i: int, j: int|
            0 <= i < j < p.inbound().len() ==> (#[trigger] p.inbound()[i]).id != (
            #[trigger] p.inbound()[j]).id,
        forall|i: int, j: int|
            0 <= i < j < p.outbound().len() ==> (#[trigger] p.outbound()[i]).id != (
            #[trigger] p.outbound()[j]).id,
        forall|i: int, j: int|
            0 <= i < p.action_policies(k1).len() && 0 <= j < p.action_policies(k2).len() && (k1
                != k2 || i != j) ==> (#[trigger] p.action_policies(k1)[i]).id != (
            #[trigger] p.action_policies(k2)[j]).id,
        forall|i: int, j: int|
            0 <= i < p.inbound().len() && 0 <= j < p.outbound().len() ==> (
            #[trigger] p.inbound()[i]).id != (#[trigger] p.outbound()[j]).id,
        forall|i: int, j: int|
            0 <= i < p.inbound().len() && 0 <= j < p.action_policies(k1).len() ==> (
            #[trigger] p.inbound()[i]).id != (#[trigger] p.action_policies(k1)[j]).id,
        forall|i: int, j: int|
            0 <= i < p.outbound().len() && 0 <= j < p.action_policies(k1).len() ==> (
            #[trigger] p.outbound()[i]).id != (#[trigger] p.action_policies(k1)[j]).id,
{
    lemma_kind_slot(p, k1);
    lemma_kind_slot(p, k2);
    let ins = p.list_ids(0);
    let outs = p.list_ids(1);
    let a1 = p.list_ids(kind_slot(k1));
    let a2 = p.list_ids(kind_slot(k2));
    assert(ins.no_duplicates() && outs.no_duplicates() && a1.no_duplicates());
    assert forall|i: int, j: int| 0 <= i < j < p.inbound().len() implies (
    #[trigger] p.inbound()[i]).id != (#[trigger] p.inbound()[j]).id by {
        assert(ins[i] == p.inbound()[i].id && ins[j] == p.inbound()[j].id);
    }
    assert forall|i: int, j: int| 0 <= i < j < p.outbound().len() implies (
    #[trigger] p.outbound()[i]).id != (#[trigger] p.outbound()[j]).id by {
        assert(outs[i] == p.outbound()[i].id && outs[j] == p.outbound()[j].id);
    }
    assert forall|i: int, j: int|
        0 <= i < p.action_policies(k1).len() && 0 <= j < p.action_policies(k2).len() && (k1 != k2
            || i != j) implies (#[trigger] p.action_policies(k1)[i]).id != (
    #[trigger] p.action_policies(k2)[j]).id by {
        assert(a1[i] == p.action_policies(k1)[i].id && a2[j] == p.action_policies(k2)[j].id);
        if k1 != k2 {
            assert(a1.contains(a1[i]));
            assert(a2.contains(a2[j]));
        }
    }
    assert forall|i: int, j: int| 0 <= i < p.inbound().len() && 0 <= j < p.outbound().len() implies (
    #[trigger] p.inbound()[i]).id != (#[trigger] p.outbound()[j]).id by {
        assert(ins[i] == p.inbound()[i].id && outs[j] == p.outbound()[j].id);
        assert(ins.contains(ins[i]));
        assert(outs.contains(outs[j]));
    }
    assert forall|i: int, j: int|
        0 <= i < p.inbound().len() && 0 <= j < p.action_policies(k1).len() implies (
    #[trigger] p.inbound()[i]).id != (#[trigger] p.action_policies(k1)[j]).id by {
        assert(ins[i] == p.inbound()[i].id && a1[j] == p.action_policies(k1)[j].id);
        assert(ins.contains(ins[i]));
        assert(a1.contains(a1[j]));
    }
    assert forall|i: int, j: int|
        0 <= i < p.outbound().len() && 0 <= j < p.action_policies(k1).len() implies (
    #[trigger] p.outbound()[i]).id != (#[trigger] p.action_policies(k1)[j]).id by {
        assert(outs[i] == p.outbound()[i].id && a1[j] == p.action_policies(k1)[j].id);
        assert(outs.contains(outs[i]));
        assert(a1.contains(a1[j]));
    }
}

/// Registering an action policy for one kind of action leaves the decisions
/// about every other kind of action unchanged.
pub proof fn law_other_kinds_unchanged(
    before: &PolicyPipeline,
    after: &PolicyPipeline,
    kind: ActionKind,
    ctx: ContextView,
    a: ActionView,
)
    requires
        after.inbound() == before.inbound(),
        after.outbound() == before.outbound(),
        forall|k: ActionKind| k != kind ==> after.action_policies(k) == before.action_policies(k),
        a.kind() != kind,
    ensures
        after.spec_decide(ctx, a) == before.spec_decide(ctx, a),
{
    assert(after.action_policies(a.kind()) == before.action_policies(a.kind()));
    assert(after.staged(ctx, a) =~= before.staged(ctx, a));
}

/// Appending an action policy never overrides a decision made ahead of it:
/// when an inbound policy denies or an earlier action policy decides, the
/// report stays the same.
pub proof fn law_append_keeps_earlier_decisions(
    before: &PolicyPipeline,
    after: &PolicyPipeline,
    appended: RegisteredPolicy,
    ctx: ContextView,
    a: ActionView,
)
    requires
        after.inbound() == before.inbound(),
        after.outbound() == before.outbound(),
        after.action_policies(a.kind()) == before.action_policies(a.kind()).push(appended),
        decided_before_outbound(before, ctx, a),
    ensures
        after.spec_decide(ctx, a) == before.spec_decide(ctx, a),
{
    let s0 = before.staged(ctx, a);
    let s1 = after.staged(ctx, a);
    let n = before.inbound().len() + before.action_policies(a.kind()).len();
    lemma_append_same_prefix(before, after, appended, ctx, a);
    let i = choose|i: int| 0 <= i < n && is_terminal(#[trigger] s0[i].0, s0[i].1.grant);
    let first = lemma_first_terminal(s0, i);
    lemma_same_prefix_same_report(s0, s1, first);
}

proof fn lemma_append_same_prefix(
    before: &PolicyPipeline,
    after: &PolicyPipeline,
    appended: RegisteredPolicy,
    ctx: ContextView,
    a: ActionView,
)
    requires
        after.inbound() == before.inbound(),
        after.action_policies(a.kind()) == before.action_policies(a.kind()).push(appended),
    ensures
        after.staged(ctx, a).len() >= before.inbound().len() + before.action_policies(a.kind()).len(),
        forall|j: int|
            0 <= j < before.inbound().len() + before.action_policies(a.kind()).len() ==> #[trigger] after.staged(
                ctx,
                a,
            )[j] == before.staged(ctx, a)[j],
{
    let s0 = before.staged(ctx, a);
    let s1 = after.staged(ctx, a);
    let ins = global_evals(before.inbound(), true, "inbound", ctx, a);
    let acts0 = action_evals(before.action_policies(a.kind()), ctx, a);
    let acts1 = action_evals(after.action_policies(a.kind()), ctx, a);
    let outs0 = global_evals(before.outbound(), false, "outbound", ctx, a);
    let outs1 = global_evals(after.outbound(), false, "outbound", ctx, a);
    assert(s0 =~= ins + acts0 + outs0);
    assert(s1 =~= ins + acts1 + outs1);
    assert forall|j: int|
        0 <= j < before.inbound().len() + before.action_policies(a.kind()).len() implies #[trigger] s1[j]
        == s0[j] by {
        if j >= ins.len() {
            let m = j - ins.len();
            assert(after.action_policies(a.kind())[m] == before.action_policies(a.kind())[m]);
            assert(acts1[m] == acts0[m]);
        }
    }
}

/// Two staged sequences that agree up to the first terminal evaluation of one
/// of them give the same report.
proof fn lemma_same_prefix_same_report(s0: Seq<(bool, EvalView)>, s1: Seq<(bool, EvalView)>, first: int)
    requires
        0 <= first < s0.len(),
        first < s1.len(),
        is_terminal(s0[first].0, s0[first].1.grant),
        forall|j: int| 0 <= j < first ==> !is_terminal(s0[j].0, #[trigger] s0[j].1.grant),
        forall|j: int| 0 <= j <= first ==> #[trigger] s1[j] == s0[j],
    ensures
        report_from(s1, 0) == report_from(s0, 0),
{
    assert forall|j: int| 0 <= j < first implies !is_terminal(s1[j].0, #[trigger] s1[j].1.grant) by {
        assert(s1[j] == s0[j]);
    }
    lemma_report_skip(s0, 0, first);
    lemma_report_skip(s1, 0, first);
    assert(s1[first] == s0[first]);
    assert(s1.take(first + 1) =~= s0.take(first + 1));
}

/// A prepended action policy that allows or denies an action decides it,
/// unless an inbound policy vetoes it first.
pub proof fn law_prepend_takes_precedence(
    before: &PolicyPipeline,
    after: &PolicyPipeline,
    prepended: RegisteredPolicy,
    ctx: ContextView,
    a: ActionView,
)
    requires
        after.inbound() == before.inbound(),
        after.action_policies(a.kind()) == seq![prepended] + before.action_policies(a.kind()),
        forall|i: int|
            0 <= i < after.inbound().len() ==> (#[trigger] after.inbound()[i]).inner.grant_spec(
                ctx,
                a,
            ).decision != PolicyDecision::Deny,
        prepended.inner.grant_spec(ctx, a).decision != PolicyDecision::Abstain,
    ensures
        after.spec_decide(ctx, a).outcome == outcome_of(
            eval_of(
                prepended.inner.spec_name(),
                prepended.id,
                "action",
                prepended.inner.grant_spec(ctx, a),
            ),
        ),
{
    let s = after.staged(ctx, a);
    let ins = global_evals(after.inbound(), true, "inbound", ctx, a);
    let acts = action_evals(after.action_policies(a.kind()), ctx, a);
    let outs = global_evals(after.outbound(), false, "outbound", ctx, a);
    let k = after.inbound().len() as int;
    assert(s =~= ins + acts + outs);
    assert(after.action_policies(a.kind())[0] == prepended);
    assert(s[k] == acts[0]);
    assert forall|j: int| 0 <= j < k implies !is_terminal(s[j].0, #[trigger] s[j].1.grant) by {
        lemma_staged_inbound(after, ctx, a, j);
    }
    law_first_decisive_evaluation(s);
    assert(is_terminal(s[k].0, s[k].1.grant));
}

} // verus!
