use vstd::prelude::*;

use crate::platform::{new_id, now_micros, uuid_version};
use crate::registry::{
    duplicate_all, entry_views, keys_unique, lemma_registry_absent, lemma_registry_domain,
    lemma_registry_lookup, registry, upsert, inserted_all, lemma_inserted_all_push,
    law_snapshot_after_registrations,
    lists_registrations, Keyed, Registered,
};
use crate::text::text_eq;

verus! {

/// `serde_json::Value`, carried through the runtime's event log unopened.
#[verifier::external_type_specification]
#[verifier::external_body]
pub struct ExJsonValue(serde_json::Value);

/// The texts of a list of strings.
pub open spec fn texts(v: Seq<String>) -> Seq<Seq<char>> {
    v.map_values(|s: String| s@)
}

/// Copies of a list of strings.
pub fn copy_texts(v: &Vec<String>) -> (r: Vec<String>)
    ensures
        texts(r@) == texts(v@),
{
    let mut r: Vec<String> = Vec::new();
    let n = v.len();
    let mut i: usize = 0;
    while i < n
        invariant
            n == v@.len(),
            i <= n,
            r@.len() == i,
            forall|k: int| 0 <= k < i ==> #[trigger] r@[k]@ == v@[k]@,
        decreases n - i,
    {
        r.push(v[i].clone());
        i = i + 1;
    }
    assert(texts(r@) =~= texts(v@));
    r
}

/// A module registered with the runtime.
#[derive(Debug, Clone)]
pub struct ModuleManifest {
    pub id: String,
    pub version: String,
    pub capabilities: Vec<String>,
}

pub struct ModuleManifestView {
    pub id: Seq<char>,
    pub version: Seq<char>,
    pub capabilities: Seq<Seq<char>>,
}

impl View for ModuleManifest {
    type V = ModuleManifestView;

    open spec fn view(&self) -> ModuleManifestView {
        ModuleManifestView {
            id: self.id@,
            version: self.version@,
            capabilities: texts(self.capabilities@),
        }
    }
}

impl Keyed for ModuleManifest {
    type Key = Seq<char>;

    open spec fn key(&self) -> Seq<char> {
        self.id@
    }

    fn same_key(&self, other: &Self) -> (b: bool) {
        text_eq(self.id.as_str(), other.id.as_str())
    }
}

impl Registered for ModuleManifest {
    fn duplicate(&self) -> (c: Self) {
        ModuleManifest {
            id: self.id.clone(),
            version: self.version.clone(),
            capabilities: copy_texts(&self.capabilities),
        }
    }
}

/// A business rule registered with the runtime.
#[derive(Debug, Clone)]
pub struct RuleDefinition {
    pub id: String,
    pub version: u32,
    pub expression: String,
}

pub struct RuleDefinitionView {
    pub id: Seq<char>,
    pub version: u32,
    pub expression: Seq<char>,
}

impl View for RuleDefinition {
    type V = RuleDefinitionView;

    open spec fn view(&self) -> RuleDefinitionView {
        RuleDefinitionView { id: self.id@, version: self.version, expression: self.expression@ }
    }
}

impl Keyed for RuleDefinition {
    type Key = Seq<char>;

    open spec fn key(&self) -> Seq<char> {
        self.id@
    }

    fn same_key(&self, other: &Self) -> (b: bool) {
        text_eq(self.id.as_str(), other.id.as_str())
    }
}

impl Registered for RuleDefinition {
    fn duplicate(&self) -> (c: Self) {
        RuleDefinition {
            id: self.id.clone(),
            version: self.version,
            expression: self.expression.clone(),
        }
    }
}

/// A tenant's policy: which rules it allows.
#[derive(Debug, Clone)]
pub struct PolicyDefinition {
    pub id: String,
    pub tenant_id: u128,
    pub allowed_rule_ids: Vec<String>,
}

pub struct PolicyDefinitionView {
    pub id: Seq<char>,
    pub tenant_id: u128,
    pub allowed_rule_ids: Seq<Seq<char>>,
}

impl View for PolicyDefinition {
    type V = PolicyDefinitionView;

    open spec fn view(&self) -> PolicyDefinitionView {
        PolicyDefinitionView {
            id: self.id@,
            tenant_id: self.tenant_id,
            allowed_rule_ids: texts(self.allowed_rule_ids@),
        }
    }
}

impl Keyed for PolicyDefinition {
    type Key = Seq<char>;

    open spec fn key(&self) -> Seq<char> {
        self.id@
    }

    fn same_key(&self, other: &Self) -> (b: bool) {
        text_eq(self.id.as_str(), other.id.as_str())
    }
}

impl Registered for PolicyDefinition {
    fn duplicate(&self) -> (c: Self) {
        PolicyDefinition {
            id: self.id.clone(),
            tenant_id: self.tenant_id,
            allowed_rule_ids: copy_texts(&self.allowed_rule_ids),
        }
    }
}

/// An edge of a workflow: on `event` in state `from`, move to `to`.
#[derive(Debug, Clone)]
pub struct WorkflowTransition {
    pub from: String,
    pub to: String,
    pub event: String,
}

pub struct WorkflowTransitionView {
    pub from: Seq<char>,
    pub to: Seq<char>,
    pub event: Seq<char>,
}

impl View for WorkflowTransition {
    type V = WorkflowTransitionView;

    open spec fn view(&self) -> WorkflowTransitionView {
        WorkflowTransitionView { from: self.from@, to: self.to@, event: self.event@ }
    }
}

/// A workflow: its states (the first one is the initial state) and transitions.
#[derive(Debug, Clone)]
pub struct WorkflowDefinition {
    pub id: String,
    pub states: Vec<String>,
    pub transitions: Vec<WorkflowTransition>,
}

pub struct WorkflowDefinitionView {
    pub id: Seq<char>,
    pub states: Seq<Seq<char>>,
    pub transitions: Seq<WorkflowTransitionView>,
}

/// The views of a list of transitions.
pub open spec fn transition_views(v: Seq<WorkflowTransition>) -> Seq<WorkflowTransitionView> {
    v.map_values(|t: WorkflowTransition| t@)
}

impl View for WorkflowDefinition {
    type V = WorkflowDefinitionView;

    open spec fn view(&self) -> WorkflowDefinitionView {
        WorkflowDefinitionView {
            id: self.id@,
            states: texts(self.states@),
            transitions: transition_views(self.transitions@),
        }
    }
}

fn copy_transitions(v: &Vec<WorkflowTransition>) -> (r: Vec<WorkflowTransition>)
    ensures
        transition_views(r@) == transition_views(v@),
{
    let mut r: Vec<WorkflowTransition> = Vec::new();
    let n = v.len();
    let mut i: usize = 0;
    while i < n
        invariant
            n == v@.len(),
            i <= n,
            r@.len() == i,
            forall|k: int| 0 <= k < i ==> #[trigger] r@[k]@ == v@[k]@,
        decreases n - i,
    {
        let t = &v[i];
        r.push(WorkflowTransition { from: t.from.clone(), to: t.to.clone(), event: t.event.clone() });
        i = i + 1;
    }
    assert(transition_views(r@) =~= transition_views(v@));
    r
}

impl Keyed for WorkflowDefinition {
    type Key = Seq<char>;

    open spec fn key(&self) -> Seq<char> {
        self.id@
    }

    fn same_key(&self, other: &Self) -> (b: bool) {
        text_eq(self.id.as_str(), other.id.as_str())
    }
}

impl Registered for WorkflowDefinition {
    fn duplicate(&self) -> (c: Self) {
        WorkflowDefinition {
            id: self.id.clone(),
            states: copy_texts(&self.states),
            transitions: copy_transitions(&self.transitions),
        }
    }
}

/// A running instance of a workflow for one aggregate. `updated_at` is in
/// microseconds since the Unix epoch.
#[derive(Debug, Clone)]
pub struct WorkflowInstance {
    pub id: u128,
    pub workflow_id: String,
    pub aggregate_id: u128,
    pub current_state: String,
    pub updated_at: i64,
}

pub struct WorkflowInstanceView {
    pub id: u128,
    pub workflow_id: Seq<char>,
    pub aggregate_id: u128,
    pub current_state: Seq<char>,
    pub updated_at: i64,
}

impl View for WorkflowInstance {
    type V = WorkflowInstanceView;

    open spec fn view(&self) -> WorkflowInstanceView {
        WorkflowInstanceView {
            id: self.id,
            workflow_id: self.workflow_id@,
            aggregate_id: self.aggregate_id,
            current_state: self.current_state@,
            updated_at: self.updated_at,
        }
    }
}

impl Keyed for WorkflowInstance {
    type Key = u128;

    open spec fn key(&self) -> u128 {
        self.id
    }

    fn same_key(&self, other: &Self) -> (b: bool) {
        self.id == other.id
    }
}

impl Registered for WorkflowInstance {
    fn duplicate(&self) -> (c: Self) {
        WorkflowInstance {
            id: self.id,
            workflow_id: self.workflow_id.clone(),
            aggregate_id: self.aggregate_id,
            current_state: self.current_state.clone(),
            updated_at: self.updated_at,
        }
    }
}

/// An event published on the runtime's log. `created_at` is in microseconds
/// since the Unix epoch.
#[derive(Debug)]
pub struct RuntimeEvent {
    pub id: u128,
    pub topic: String,
    pub payload: serde_json::Value,
    pub created_at: i64,
}

/// The first transition leaving `from` on `event`, if any.
pub open spec fn first_transition(
    ts: Seq<WorkflowTransitionView>,
    from: Seq<char>,
    event: Seq<char>,
) -> Option<int> {
    if exists|k: int| is_first_transition(ts, from, event, k) {
        Some(choose|k: int| is_first_transition(ts, from, event, k))
    } else {
        None
    }
}

/// `k` is the first transition leaving `from` on `event`.
pub open spec fn is_first_transition(
    ts: Seq<WorkflowTransitionView>,
    from: Seq<char>,
    event: Seq<char>,
    k: int,
) -> bool {
    &&& 0 <= k < ts.len()
    &&& ts[k].from == from
    &&& ts[k].event == event
    &&& forall|j: int| 0 <= j < k ==> !(#[trigger] ts[j].from == from && ts[j].event == event)
}

/// The state a workflow instance moves to on `event`, if the instance, its
/// workflow and a matching transition all exist.
pub open spec fn transition_target(
    instances: Map<u128, WorkflowInstanceView>,
    workflows: Map<Seq<char>, WorkflowDefinitionView>,
    instance_id: u128,
    event: Seq<char>,
) -> Option<Seq<char>> {
    if !instances.contains_key(instance_id) {
        None
    } else {
        let inst = instances[instance_id];
        if !workflows.contains_key(inst.workflow_id) {
            None
        } else {
            let w = workflows[inst.workflow_id];
            match first_transition(w.transitions, inst.current_state, event) {
                Some(k) => Some(w.transitions[k].to),
                None => None,
            }
        }
    }
}

/// The initial state of the workflow registered under `workflow_id`, if the
/// workflow exists and has at least one state.
pub open spec fn initial_state(
    workflows: Map<Seq<char>, WorkflowDefinitionView>,
    workflow_id: Seq<char>,
) -> Option<Seq<char>> {
    if workflows.contains_key(workflow_id) && workflows[workflow_id].states.len() > 0 {
        Some(workflows[workflow_id].states[0])
    } else {
        None
    }
}

/// A workflow registered under an id is the one an instance started under
/// that id follows: the instance begins in the workflow's first state (and
/// cannot start when the workflow has no states).
pub proof fn law_registered_workflow_initial_state(
    workflows: Map<Seq<char>, WorkflowDefinitionView>,
    workflow: WorkflowDefinitionView,
)
    ensures
        initial_state(workflows.insert(workflow.id, workflow), workflow.id) == if workflow.states.len()
            > 0 {
            Some(workflow.states[0])
        } else {
            None
        },
{
}

/// An instance only ever moves along a transition of its workflow that leaves
/// its current state on the given event, and an event that no transition of
/// the current state names leaves it where it is.
pub proof fn law_transition_follows_workflow(
    instances: Map<u128, WorkflowInstanceView>,
    workflows: Map<Seq<char>, WorkflowDefinitionView>,
    instance_id: u128,
    event: Seq<char>,
)
    ensures
        transition_target(instances, workflows, instance_id, event) matches Some(to) ==> {
            let inst = instances[instance_id];
            let w = workflows[inst.workflow_id];
            exists|k: int|
                0 <= k < w.transitions.len() && w.transitions[k].from == inst.current_state
                    && w.transitions[k].event == event && #[trigger] w.transitions[k].to == to
        },
        instances.contains_key(instance_id) && workflows.contains_key(
            instances[instance_id].workflow_id,
        ) && (forall|k: int|
            0 <= k < workflows[instances[instance_id].workflow_id].transitions.len() ==> !(
            #[trigger] workflows[instances[instance_id].workflow_id].transitions[k].from
                == instances[instance_id].current_state
                && workflows[instances[instance_id].workflow_id].transitions[k].event == event))
            ==> transition_target(instances, workflows, instance_id, event) is None,
{
    if let Some(to) = transition_target(instances, workflows, instance_id, event) {
        let inst = instances[instance_id];
        let w = workflows[inst.workflow_id];
        let k = choose|k: int| is_first_transition(w.transitions, inst.current_state, event, k);
        assert(w.transitions[k].to == to);
    }
    if instances.contains_key(instance_id) && workflows.contains_key(
        instances[instance_id].workflow_id,
    ) {
        let inst = instances[instance_id];
        let w = workflows[inst.workflow_id];
        if exists|k: int| is_first_transition(w.transitions, inst.current_state, event, k) {
            let k = choose|k: int| is_first_transition(w.transitions, inst.current_state, event, k);
            assert(w.transitions[k].from == inst.current_state);
        }
    }
}

/// The foundation runtime: registries of modules, rules, policies and
/// workflows, the running workflow instances, and an append-only event log.
pub struct FoundationRuntime {
    modules: Vec<ModuleManifest>,
    rules: Vec<RuleDefinition>,
    policies: Vec<PolicyDefinition>,
    workflows: Vec<WorkflowDefinition>,
    workflow_instances: Vec<WorkflowInstance>,
    event_log: Vec<RuntimeEvent>,
}

/// A copy of everything the runtime holds; `event_log_size` counts the events.
pub struct RuntimeSnapshot {
    pub modules: Vec<ModuleManifest>,
    pub rules: Vec<RuleDefinition>,
    pub policies: Vec<PolicyDefinition>,
    pub workflows: Vec<WorkflowDefinition>,
    pub workflow_instances: Vec<WorkflowInstance>,
    pub event_log_size: usize,
}

/// What the runtime stands for: its registries by key and the number of
/// published events.
pub struct RuntimeState {
    pub modules: Map<Seq<char>, ModuleManifestView>,
    pub rules: Map<Seq<char>, RuleDefinitionView>,
    pub policies: Map<Seq<char>, PolicyDefinitionView>,
    pub workflows: Map<Seq<char>, WorkflowDefinitionView>,
    pub instances: Map<u128, WorkflowInstanceView>,
    pub event_count: nat,
}

/// A call that changes the runtime, by what it stores.
pub enum RuntimeCall {
    RegisterModule(ModuleManifestView),
    RegisterRule(RuleDefinitionView),
    RegisterPolicy(PolicyDefinitionView),
    RegisterWorkflow(WorkflowDefinitionView),
    /// A workflow instance was started or moved on; it is stored under its id.
    StoreInstance(WorkflowInstanceView),
    PublishEvent,
}

/// The state of a new runtime.
pub open spec fn empty_runtime_state() -> RuntimeState {
    RuntimeState {
        modules: Map::empty(),
        rules: Map::empty(),
        policies: Map::empty(),
        workflows: Map::empty(),
        instances: Map::empty(),
        event_count: 0,
    }
}

/// The state a call leaves behind.
pub open spec fn call_effect(st: RuntimeState, c: RuntimeCall) -> RuntimeState {
    match c {
        RuntimeCall::RegisterModule(m) => RuntimeState { modules: st.modules.insert(m.id, m), ..st },
        RuntimeCall::RegisterRule(r) => RuntimeState { rules: st.rules.insert(r.id, r), ..st },
        RuntimeCall::RegisterPolicy(p) => RuntimeState { policies: st.policies.insert(p.id, p), ..st },
        RuntimeCall::RegisterWorkflow(w) => RuntimeState {
            workflows: st.workflows.insert(w.id, w),
            ..st
        },
        RuntimeCall::StoreInstance(i) => RuntimeState { instances: st.instances.insert(i.id, i), ..st },
        RuntimeCall::PublishEvent => RuntimeState { event_count: st.event_count + 1, ..st },
    }
}

/// The state a new runtime is in after `calls`, in order.
pub open spec fn after_calls(calls: Seq<RuntimeCall>) -> RuntimeState
    decreases calls.len(),
{
    if calls.len() == 0 {
        empty_runtime_state()
    } else {
        call_effect(after_calls(calls.drop_last()), calls.last())
    }
}

/// The module registrations among `calls`, in order, by id.
pub open spec fn module_registrations(calls: Seq<RuntimeCall>) -> Seq<(Seq<char>, ModuleManifestView)>
    decreases calls.len(),
{
    if calls.len() == 0 {
        Seq::empty()
    } else {
        let r = module_registrations(calls.drop_last());
        match calls.last() {
            RuntimeCall::RegisterModule(m) => r.push((m.id, m)),
            _ => r,
        }
    }
}

/// The rule registrations among `calls`, in order, by id.
pub open spec fn rule_registrations(calls: Seq<RuntimeCall>) -> Seq<(Seq<char>, RuleDefinitionView)>
    decreases calls.len(),
{
    if calls.len() == 0 {
        Seq::empty()
    } else {
        let r = rule_registrations(calls.drop_last());
        match calls.last() {
            RuntimeCall::RegisterRule(x) => r.push((x.id, x)),
            _ => r,
        }
    }
}

/// The policy registrations among `calls`, in order, by id.
pub open spec fn policy_registrations(calls: Seq<RuntimeCall>) -> Seq<(Seq<char>, PolicyDefinitionView)>
    decreases calls.len(),
{
    if calls.len() == 0 {
        Seq::empty()
    } else {
        let r = policy_registrations(calls.drop_last());
        match calls.last() {
            RuntimeCall::RegisterPolicy(x) => r.push((x.id, x)),
            _ => r,
        }
    }
}

/// The workflow registrations among `calls`, in order, by id.
pub open spec fn workflow_registrations(calls: Seq<RuntimeCall>) -> Seq<(Seq<char>, WorkflowDefinitionView)>
    decreases calls.len(),
{
    if calls.len() == 0 {
        Seq::empty()
    } else {
        let r = workflow_registrations(calls.drop_last());
        match calls.last() {
            RuntimeCall::RegisterWorkflow(x) => r.push((x.id, x)),
            _ => r,
        }
    }
}

/// The instances stored by `calls` (started or moved on), in order, by id.
pub open spec fn instance_stores(calls: Seq<RuntimeCall>) -> Seq<(u128, WorkflowInstanceView)>
    decreases calls.len(),
{
    if calls.len() == 0 {
        Seq::empty()
    } else {
        let r = instance_stores(calls.drop_last());
        match calls.last() {
            RuntimeCall::StoreInstance(x) => r.push((x.id, x)),
            _ => r,
        }
    }
}

/// The number of events published by `calls`.
pub open spec fn publications(calls: Seq<RuntimeCall>) -> nat
    decreases calls.len(),
{
    if calls.len() == 0 {
        0
    } else {
        publications(calls.drop_last()) + match calls.last() {
            RuntimeCall::PublishEvent => 1nat,
            _ => 0nat,
        }
    }
}

/// Each registry after `calls` is what its registrations, applied in order,
/// leave; the event count is the number of publications.
proof fn lemma_after_calls(calls: Seq<RuntimeCall>)
    ensures
        after_calls(calls) == (RuntimeState {
            modules: inserted_all(Map::empty(), module_registrations(calls)),
            rules: inserted_all(Map::empty(), rule_registrations(calls)),
            policies: inserted_all(Map::empty(), policy_registrations(calls)),
            workflows: inserted_all(Map::empty(), workflow_registrations(calls)),
            instances: inserted_all(Map::empty(), instance_stores(calls)),
            event_count: publications(calls),
        }),
    decreases calls.len(),
{
    if calls.len() > 0 {
        let t = calls.drop_last();
        lemma_after_calls(t);
        let before = after_calls(t);
        let after = after_calls(calls);
        assert(after == call_effect(before, calls.last()));
        match calls.last() {
            RuntimeCall::RegisterModule(m) => {
                assert(module_registrations(calls) == module_registrations(t).push((m.id, m)));
                lemma_inserted_all_push(Map::empty(), module_registrations(t), (m.id, m));
            },
            RuntimeCall::RegisterRule(x) => {
                assert(rule_registrations(calls) == rule_registrations(t).push((x.id, x)));
                lemma_inserted_all_push(Map::empty(), rule_registrations(t), (x.id, x));
            },
            RuntimeCall::RegisterPolicy(x) => {
                assert(policy_registrations(calls) == policy_registrations(t).push((x.id, x)));
                lemma_inserted_all_push(Map::empty(), policy_registrations(t), (x.id, x));
            },
            RuntimeCall::RegisterWorkflow(x) => {
                assert(workflow_registrations(calls) == workflow_registrations(t).push((x.id, x)));
                lemma_inserted_all_push(Map::empty(), workflow_registrations(t), (x.id, x));
            },
            RuntimeCall::StoreInstance(x) => {
                assert(instance_stores(calls) == instance_stores(t).push((x.id, x)));
                lemma_inserted_all_push(Map::empty(), instance_stores(t), (x.id, x));
            },
            RuntimeCall::PublishEvent => {},
        }
    }
}

/// Whatever sequence of calls a new runtime went through, its snapshot (with
/// the registries and event count that `snapshot` ensures) holds, in each
/// registry, exactly one entry per id registered, carrying the value of the
/// last registration under that id; one entry per stored instance id with the
/// instance as it was last stored; and the number of published events.
pub proof fn law_snapshot_after_calls(calls: Seq<RuntimeCall>, s: RuntimeSnapshot)
    requires
        keys_unique(s.modules@) && registry(s.modules@) == after_calls(calls).modules,
        keys_unique(s.rules@) && registry(s.rules@) == after_calls(calls).rules,
        keys_unique(s.policies@) && registry(s.policies@) == after_calls(calls).policies,
        keys_unique(s.workflows@) && registry(s.workflows@) == after_calls(calls).workflows,
        keys_unique(s.workflow_instances@) && registry(s.workflow_instances@) == after_calls(
            calls,
        ).instances,
        s.event_log_size == after_calls(calls).event_count,
    ensures
        lists_registrations(s.modules@, module_registrations(calls)),
        lists_registrations(s.rules@, rule_registrations(calls)),
        lists_registrations(s.policies@, policy_registrations(calls)),
        lists_registrations(s.workflows@, workflow_registrations(calls)),
        lists_registrations(s.workflow_instances@, instance_stores(calls)),
        s.event_log_size == publications(calls),
{
    lemma_after_calls(calls);
    law_snapshot_after_registrations(module_registrations(calls), s.modules@);
    law_snapshot_after_registrations(rule_registrations(calls), s.rules@);
    law_snapshot_after_registrations(policy_registrations(calls), s.policies@);
    law_snapshot_after_registrations(workflow_registrations(calls), s.workflows@);
    law_snapshot_after_registrations(instance_stores(calls), s.workflow_instances@);
}

impl FoundationRuntime {
    /// Every registry holds at most one entry per key.
    pub closed spec fn wf(&self) -> bool {
        &&& keys_unique(self.modules@)
        &&& keys_unique(self.rules@)
        &&& keys_unique(self.policies@)
        &&& keys_unique(self.workflows@)
        &&& keys_unique(self.workflow_instances@)
    }

    pub closed spec fn modules(&self) -> Map<Seq<char>, ModuleManifestView> {
        registry(self.modules@)
    }

    pub closed spec fn rules(&self) -> Map<Seq<char>, RuleDefinitionView> {
        registry(self.rules@)
    }

    pub closed spec fn policies(&self) -> Map<Seq<char>, PolicyDefinitionView> {
        registry(self.policies@)
    }

    pub closed spec fn workflows(&self) -> Map<Seq<char>, WorkflowDefinitionView> {
        registry(self.workflows@)
    }

    pub closed spec fn instances(&self) -> Map<u128, WorkflowInstanceView> {
        registry(self.workflow_instances@)
    }

    /// The published events, oldest first.
    pub closed spec fn events(&self) -> Seq<RuntimeEvent> {
        self.event_log@
    }

    /// What the runtime stands for: its registries and the number of events.
    pub open spec fn state(&self) -> RuntimeState {
        RuntimeState {
            modules: self.modules(),
            rules: self.rules(),
            policies: self.policies(),
            workflows: self.workflows(),
            instances: self.instances(),
            event_count: self.events().len(),
        }
    }

    /// Every workflow instance is stored under its own id.
    pub proof fn lemma_instances_keyed_by_id(&self)
        requires
            self.wf(),
        ensures
            forall|k: u128| #[trigger] self.instances().contains_key(k) ==> self.instances()[k].id == k,
    {
        assert forall|k: u128| #[trigger] self.instances().contains_key(k) implies self.instances()[k].id
            == k by {
            lemma_registry_domain(self.workflow_instances@, k);
            let i = choose|i: int|
                0 <= i < self.workflow_instances@.len() && #[trigger] self.workflow_instances@[i].key() == k;
            lemma_registry_lookup(self.workflow_instances@, i);
        }
    }

    /// An empty runtime.
    pub fn new() -> (rt: FoundationRuntime)
        ensures
            rt.state() == empty_runtime_state(),
            rt.wf(),
            rt.modules() == Map::<Seq<char>, ModuleManifestView>::empty(),
            rt.rules() == Map::<Seq<char>, RuleDefinitionView>::empty(),
            rt.policies() == Map::<Seq<char>, PolicyDefinitionView>::empty(),
            rt.workflows() == Map::<Seq<char>, WorkflowDefinitionView>::empty(),
            rt.instances() == Map::<u128, WorkflowInstanceView>::empty(),
            rt.events() == Seq::<RuntimeEvent>::empty(),
    {
        FoundationRuntime {
            modules: Vec::new(),
            rules: Vec::new(),
            policies: Vec::new(),
            workflows: Vec::new(),
            workflow_instances: Vec::new(),
            event_log: Vec::new(),
        }
    }

    /// Registers a module under its id, replacing any module with that id.
    pub fn register_module(&mut self, manifest: ModuleManifest)
        requires
            old(self).wf(),
        ensures
            final(self).state() == call_effect(old(self).state(), RuntimeCall::RegisterModule(manifest@)),
            final(self).wf(),
            final(self).modules() == old(self).modules().insert(manifest.id@, manifest@),
            final(self).rules() == old(self).rules(),
            final(self).policies() == old(self).policies(),
            final(self).workflows() == old(self).workflows(),
            final(self).instances() == old(self).instances(),
            final(self).events() == old(self).events(),
    {
        upsert(&mut self.modules, manifest);
    }

    /// Registers a rule under its id, replacing any rule with that id.
    pub fn register_rule(&mut self, rule: RuleDefinition)
        requires
            old(self).wf(),
        ensures
            final(self).state() == call_effect(old(self).state(), RuntimeCall::RegisterRule(rule@)),
            final(self).wf(),
            final(self).rules() == old(self).rules().insert(rule.id@, rule@),
            final(self).modules() == old(self).modules(),
            final(self).policies() == old(self).policies(),
            final(self).workflows() == old(self).workflows(),
            final(self).instances() == old(self).instances(),
            final(self).events() == old(self).events(),
    {
        upsert(&mut self.rules, rule);
    }

    /// Registers a policy under its id, replacing any policy with that id.
    pub fn register_policy(&mut self, policy: PolicyDefinition)
        requires
            old(self).wf(),
        ensures
            final(self).state() == call_effect(old(self).state(), RuntimeCall::RegisterPolicy(policy@)),
            final(self).wf(),
            final(self).policies() == old(self).policies().insert(policy.id@, policy@),
            final(self).modules() == old(self).modules(),
            final(self).rules() == old(self).rules(),
            final(self).workflows() == old(self).workflows(),
            final(self).instances() == old(self).instances(),
            final(self).events() == old(self).events(),
    {
        upsert(&mut self.policies, policy);
    }

    /// Registers a workflow under its id, replacing any workflow with that id.
    pub fn register_workflow(&mut self, workflow: WorkflowDefinition)
        requires
            old(self).wf(),
        ensures
            final(self).state() == call_effect(old(self).state(), RuntimeCall::RegisterWorkflow(workflow@)),
            final(self).wf(),
            final(self).workflows() == old(self).workflows().insert(workflow.id@, workflow@),
            final(self).modules() == old(self).modules(),
            final(self).rules() == old(self).rules(),
            final(self).policies() == old(self).policies(),
            final(self).instances() == old(self).instances(),
            final(self).events() == old(self).events(),
    {
        upsert(&mut self.workflows, workflow);
    }

    /// The position of the workflow registered under `workflow_id`.
    fn find_workflow(&self, workflow_id: &str) -> (r: Option<usize>)
        requires
            self.wf(),
        ensures
            match r {
                Some(i) => i < self.workflows@.len() && self.workflows@[i as int].id@
                    == workflow_id@ && self.workflows().contains_key(workflow_id@)
                    && self.workflows()[workflow_id@] == self.workflows@[i as int]@,
                None => !self.workflows().contains_key(workflow_id@),
            },
    {
        let n = self.workflows.len();
        let mut i: usize = 0;
        while i < n
            invariant
                n == self.workflows@.len(),
                i <= n,
                keys_unique(self.workflows@),
                forall|k: int| 0 <= k < i ==> #[trigger] self.workflows@[k].key() != workflow_id@,
            decreases n - i,
        {
            if text_eq(self.workflows[i].id.as_str(), workflow_id) {
                proof {
                    lemma_registry_lookup(self.workflows@, i as int);
                }
                return Some(i);
            }
            i = i + 1;
        }
        proof {
            lemma_registry_absent(self.workflows@, workflow_id@);
        }
        None
    }

    /// Starts an instance of the workflow `workflow_id` for `aggregate_id`, in
    /// the workflow's first state. `None` when the workflow is unknown or has
    /// no states.
    pub fn start_workflow_instance(&mut self, workflow_id: &str, aggregate_id: u128) -> (r: Option<
        WorkflowInstance,
    >)
        requires
            old(self).wf(),
        ensures
            match r {
                Some(inst) => final(self).state() == call_effect(old(self).state(), RuntimeCall::StoreInstance(inst@)),
                None => final(self).state() == old(self).state(),
            },
            final(self).wf(),
            final(self).modules() == old(self).modules(),
            final(self).rules() == old(self).rules(),
            final(self).policies() == old(self).policies(),
            final(self).workflows() == old(self).workflows(),
            final(self).events() == old(self).events(),
            match initial_state(old(self).workflows(), workflow_id@) {
                None => r is None && final(self).instances() == old(self).instances(),
                Some(state) => r matches Some(inst) && inst.id != 0 && uuid_version(inst.id) == 7
                    && inst.workflow_id@ == workflow_id@ && inst.aggregate_id == aggregate_id
                    && inst.current_state@ == state && final(self).instances() == old(
                    self,
                ).instances().insert(inst.id, inst@),
            },
    {
        let i = match self.find_workflow(workflow_id) {
            Some(i) => i,
            None => {
                return None;
            },
        };
        if self.workflows[i].states.len() == 0 {
            return None;
        }
        let initial = self.workflows[i].states[0].clone();
        let instance = WorkflowInstance {
            id: new_id(),
            workflow_id: workflow_id.to_owned(),
            aggregate_id,
            current_state: initial,
            updated_at: now_micros(),
        };
        upsert(&mut self.workflow_instances, instance.duplicate());
        Some(instance)
    }

    /// Moves an instance along the first transition that leaves its current
    /// state on `event`. `None` when the instance, its workflow or such a
    /// transition does not exist; nothing changes then.
    pub fn transition_workflow_instance(&mut self, instance_id: u128, event: &str) -> (r: Option<
        WorkflowInstance,
    >)
        requires
            old(self).wf(),
        ensures
            match r {
                Some(inst) => final(self).state() == call_effect(old(self).state(), RuntimeCall::StoreInstance(inst@)),
                None => final(self).state() == old(self).state(),
            },
            final(self).wf(),
            final(self).modules() == old(self).modules(),
            final(self).rules() == old(self).rules(),
            final(self).policies() == old(self).policies(),
            final(self).workflows() == old(self).workflows(),
            final(self).events() == old(self).events(),
            match transition_target(old(self).instances(), old(self).workflows(), instance_id, event@) {
                None => r is None && final(self).instances() == old(self).instances(),
                Some(to) => r matches Some(inst) && inst.id == instance_id && inst@ == (WorkflowInstanceView {
                    current_state: to,
                    updated_at: inst.updated_at,
                    ..old(self).instances()[instance_id]
                }) && final(self).instances() == old(self).instances().insert(instance_id, inst@),
            },
    {
        let n = self.workflow_instances.len();
        let mut j: usize = 0;
        while j < n
            invariant
                n == self.workflow_instances@.len(),
                j <= n,
                forall|k: int| 0 <= k < j ==> #[trigger] self.workflow_instances@[k].key() != instance_id,
            ensures
                j <= n,
                j < n ==> self.workflow_instances@[j as int].id == instance_id,
                forall|k: int| 0 <= k < j ==> #[trigger] self.workflow_instances@[k].key() != instance_id,
            decreases n - j,
        {
            if self.workflow_instances[j].id == instance_id {
                break;
            }
            j = j + 1;
        }
        if j == n {
            proof {
                lemma_registry_absent(self.workflow_instances@, instance_id);
            }
            return None;
        }
        proof {
            lemma_registry_lookup(self.workflow_instances@, j as int);
        }
        let w = match self.find_workflow(self.workflow_instances[j].workflow_id.as_str()) {
            Some(w) => w,
            None => {
                return None;
            },
        };
        let ghost inst = self.workflow_instances@[j as int]@;
        let ghost ts = self.workflows@[w as int]@.transitions;
        let m = self.workflows[w].transitions.len();
        let mut k: usize = 0;
        while k < m
            invariant
                m == self.workflows@[w as int].transitions@.len(),
                ts == transition_views(self.workflows@[w as int].transitions@),
                inst == self.workflow_instances@[j as int]@,
                j < self.workflow_instances@.len(),
                w < self.workflows@.len(),
                k <= m,
                forall|q: int|
                    0 <= q < k ==> !(#[trigger] ts[q].from == inst.current_state && ts[q].event
                        == event@),
            ensures
                k <= m,
                k < m ==> ts[k as int].from == inst.current_state && ts[k as int].event == event@,
                forall|q: int|
                    0 <= q < k ==> !(#[trigger] ts[q].from == inst.current_state && ts[q].event
                        == event@),
            decreases m - k,
        {
            let t = &self.workflows[w].transitions[k];
            if text_eq(t.from.as_str(), self.workflow_instances[j].current_state.as_str()) && text_eq(
                t.event.as_str(),
                event,
            ) {
                break;
            }
            k = k + 1;
        }
        if k == m {
            proof {
                if exists|q: int| is_first_transition(ts, inst.current_state, event@, q) {
                    let q = choose|q: int| is_first_transition(ts, inst.current_state, event@, q);
                    assert(!(ts[q].from == inst.current_state && ts[q].event == event@));
                }
            }
            return None;
        }
        proof {
            assert(is_first_transition(ts, inst.current_state, event@, k as int));
            let c = choose|q: int| is_first_transition(ts, inst.current_state, event@, q);
            if c < k {
                assert(!(ts[c].from == inst.current_state && ts[c].event == event@));
            } else if c > k {
                assert(!(ts[k as int].from == inst.current_state && ts[k as int].event == event@));
            }
        }
        let to = self.workflows[w].transitions[k].to.clone();
        let current = &self.workflow_instances[j];
        let updated = WorkflowInstance {
            id: current.id,
            workflow_id: current.workflow_id.clone(),
            aggregate_id: current.aggregate_id,
            current_state: to,
            updated_at: now_micros(),
        };
        upsert(&mut self.workflow_instances, updated.duplicate());
        Some(updated)
    }

    /// Appends an event on `topic` to the log and returns its fresh id.
    pub fn publish_event(&mut self, topic: &str, payload: serde_json::Value) -> (id: u128)
        requires
            old(self).wf(),
        ensures
            final(self).state() == call_effect(old(self).state(), RuntimeCall::PublishEvent),
            final(self).wf(),
            id != 0,
            uuid_version(id) == 7,
            final(self).events().len() == old(self).events().len() + 1,
            final(self).events().drop_last() == old(self).events(),
            final(self).events().last().id == id,
            final(self).events().last().topic@ == topic@,
            final(self).events().last().payload == payload,
            final(self).modules() == old(self).modules(),
            final(self).rules() == old(self).rules(),
            final(self).policies() == old(self).policies(),
            final(self).workflows() == old(self).workflows(),
            final(self).instances() == old(self).instances(),
    {
        let id = new_id();
        let event = RuntimeEvent {
            id,
            topic: topic.to_owned(),
            payload,
            created_at: now_micros(),
        };
        self.event_log.push(event);
        assert(self.event_log@.drop_last() =~= old(self).event_log@);
        id
    }

    /// A copy of every registry (one entry per key, exactly the registry's
    /// contents) and the number of logged events.
    pub fn snapshot(&self) -> (s: RuntimeSnapshot)
        requires
            self.wf(),
        ensures
            keys_unique(s.modules@) && registry(s.modules@) == self.modules(),
            keys_unique(s.rules@) && registry(s.rules@) == self.rules(),
            keys_unique(s.policies@) && registry(s.policies@) == self.policies(),
            keys_unique(s.workflows@) && registry(s.workflows@) == self.workflows(),
            keys_unique(s.workflow_instances@) && registry(s.workflow_instances@) == self.instances(),
            s.event_log_size == self.events().len(),
    {
        let modules = duplicate_all(&self.modules);
        let rules = duplicate_all(&self.rules);
        let policies = duplicate_all(&self.policies);
        let workflows = duplicate_all(&self.workflows);
        let workflow_instances = duplicate_all(&self.workflow_instances);
        proof {
            lemma_copy_registry(self.modules@, modules@);
            lemma_copy_registry(self.rules@, rules@);
            lemma_copy_registry(self.policies@, policies@);
            lemma_copy_registry(self.workflows@, workflows@);
            lemma_copy_registry(self.workflow_instances@, workflow_instances@);
        }
        RuntimeSnapshot {
            modules,
            rules,
            policies,
            workflows,
            workflow_instances,
            event_log_size: self.event_log.len(),
        }
    }
}

/// A copy with the same views and keys stands for the same registry.
proof fn lemma_copy_registry<T: Registered>(orig: Seq<T>, copy: Seq<T>)
    requires
        copy.len() == orig.len(),
        forall|i: int| 0 <= i < copy.len() ==> #[trigger] copy[i]@ == orig[i]@,
        forall|i: int| 0 <= i < copy.len() ==> #[trigger] copy[i].key() == orig[i].key(),
        keys_unique(orig),
    ensures
        keys_unique(copy),
        registry(copy) == registry(orig),
    decreases orig.len(),
{
    assert forall|a: int, b: int| 0 <= a < b < copy.len() implies copy[a].key() != copy[b].key() by {
        assert(copy[a].key() == orig[a].key());
        assert(copy[b].key() == orig[b].key());
    }
    if orig.len() > 0 {
        let oc = orig.drop_last();
        let cc = copy.drop_last();
        assert forall|i: int| 0 <= i < cc.len() implies #[trigger] cc[i].key() == oc[i].key()
            && cc[i]@ == oc[i]@ by {
            assert(cc[i] == copy[i]);
            assert(oc[i] == orig[i]);
        }
        lemma_copy_registry(oc, cc);
        assert(copy.last()@ == orig.last()@);
        assert(copy.last().key() == orig.last().key());
    }
}

} // verus!
