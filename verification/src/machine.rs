//! The animation state machine: named states, guarded transitions, and
//! linear blending between the source and destination of the active
//! transition.
//!
//! Each state wraps a single animation clip. Transitions carry a blend
//! duration in milliseconds and a boolean guard parameter; parameters are
//! written every tick before evaluation and default to false until first
//! set. Evaluation first advances the active transition, then — if no
//! transition is running — starts the first registered transition out of the
//! active state whose guard holds (registration order is the explicit
//! tie-break when several guards are true), and finally reports which states
//! to blend and with what weight.

use vstd::prelude::*;

verus! {

/// Blend durations are capped at this many milliseconds.
pub const MAX_DURATION_MS: u64 = 1000000000;

/// A single evaluation may advance time by at most this many milliseconds.
pub const MAX_DELTA_MS: u64 = 1000000000;

/// The semantic name of an animation clip; also the name of the machine
/// state that plays it.
#[derive(Clone, Copy, Debug, PartialEq, Eq, Structural)]
pub enum ClipId {
    Idle,
    Run,
    Jump,
    Attack,
}

/// A guard parameter name: one boolean per possible state change.
#[derive(Clone, Copy, Debug, PartialEq, Eq, Structural)]
pub enum Param {
    IdleToWalk,
    WalkToIdle,
    WalkToJump,
    IdleToJump,
    JumpToWalk,
    JumpToIdle,
    WalkToAttack,
    IdleToAttack,
    JumpToAttack,
    AttackToWalk,
    AttackToIdle,
    AttackToJump,
}

/// The values of all guard parameters. Every parameter starts false, so a
/// guard consulted before its parameter was ever set reads false rather than
/// failing.
#[derive(Clone, Copy, Debug, PartialEq, Eq, Structural)]
pub struct Params {
    pub idle_to_walk: bool,
    pub walk_to_idle: bool,
    pub walk_to_jump: bool,
    pub idle_to_jump: bool,
    pub jump_to_walk: bool,
    pub jump_to_idle: bool,
    pub walk_to_attack: bool,
    pub idle_to_attack: bool,
    pub jump_to_attack: bool,
    pub attack_to_walk: bool,
    pub attack_to_idle: bool,
    pub attack_to_jump: bool,
}

impl Params {
    /// The value of one parameter.
    pub open spec fn spec_get(self, p: Param) -> bool {
        match p {
            Param::IdleToWalk => self.idle_to_walk,
            Param::WalkToIdle => self.walk_to_idle,
            Param::WalkToJump => self.walk_to_jump,
            Param::IdleToJump => self.idle_to_jump,
            Param::JumpToWalk => self.jump_to_walk,
            Param::JumpToIdle => self.jump_to_idle,
            Param::WalkToAttack => self.walk_to_attack,
            Param::IdleToAttack => self.idle_to_attack,
            Param::JumpToAttack => self.jump_to_attack,
            Param::AttackToWalk => self.attack_to_walk,
            Param::AttackToIdle => self.attack_to_idle,
            Param::AttackToJump => self.attack_to_jump,
        }
    }

    /// All parameters unset, that is false.
    pub fn new() -> (r: Params)
        ensures
            forall|p: Param| !r.spec_get(p),
    {
        Params {
            idle_to_walk: false,
            walk_to_idle: false,
            walk_to_jump: false,
            idle_to_jump: false,
            jump_to_walk: false,
            jump_to_idle: false,
            walk_to_attack: false,
            idle_to_attack: false,
            jump_to_attack: false,
            attack_to_walk: false,
            attack_to_idle: false,
            attack_to_jump: false,
        }
    }

    pub fn get(&self, p: Param) -> (r: bool)
        ensures
            r == self.spec_get(p),
    {
        match p {
            Param::IdleToWalk => self.idle_to_walk,
            Param::WalkToIdle => self.walk_to_idle,
            Param::WalkToJump => self.walk_to_jump,
            Param::IdleToJump => self.idle_to_jump,
            Param::JumpToWalk => self.jump_to_walk,
            Param::JumpToIdle => self.jump_to_idle,
            Param::WalkToAttack => self.walk_to_attack,
            Param::IdleToAttack => self.idle_to_attack,
            Param::JumpToAttack => self.jump_to_attack,
            Param::AttackToWalk => self.attack_to_walk,
            Param::AttackToIdle => self.attack_to_idle,
            Param::AttackToJump => self.attack_to_jump,
        }
    }

    /// Write one parameter, leaving the others as they were.
    pub fn set(&mut self, p: Param, value: bool)
        ensures
            final(self).spec_get(p) == value,
            forall|q: Param| q != p ==> final(self).spec_get(q) == old(self).spec_get(q),
    {
        match p {
            Param::IdleToWalk => self.idle_to_walk = value,
            Param::WalkToIdle => self.walk_to_idle = value,
            Param::WalkToJump => self.walk_to_jump = value,
            Param::IdleToJump => self.idle_to_jump = value,
            Param::JumpToWalk => self.jump_to_walk = value,
            Param::JumpToIdle => self.jump_to_idle = value,
            Param::WalkToAttack => self.walk_to_attack = value,
            Param::IdleToAttack => self.idle_to_attack = value,
            Param::JumpToAttack => self.jump_to_attack = value,
            Param::AttackToWalk => self.attack_to_walk = value,
            Param::AttackToIdle => self.attack_to_idle = value,
            Param::AttackToJump => self.attack_to_jump = value,
        }
    }
}

/// A machine state: it plays one clip.
#[derive(Clone, Copy, Debug, PartialEq, Eq, Structural)]
pub struct State {
    pub clip: ClipId,
}

/// A guarded transition between two states, blending over `duration_ms`.
#[derive(Clone, Copy, Debug, PartialEq, Eq, Structural)]
pub struct Transition {
    pub source: usize,
    pub dest: usize,
    pub duration_ms: u64,
    pub param: Param,
}

/// What one evaluation asks the skeleton to show: the active state, and —
/// while a transition runs — the destination state with the blend weight in
/// thousandths (0 is all source, 1000 would be all destination).
#[derive(Clone, Copy, Debug, PartialEq, Eq)]
pub struct Blend {
    pub source: usize,
    pub dest: Option<usize>,
    pub weight: u64,
}

/// The mathematical value of a `Blend`.
pub struct BlendView {
    pub source: int,
    pub dest: Option<int>,
    pub weight: int,
}

impl View for Blend {
    type V = BlendView;

    open spec fn view(&self) -> BlendView {
        BlendView {
            source: self.source as int,
            dest: match self.dest {
                Some(d) => Some(d as int),
                None => None,
            },
            weight: self.weight as int,
        }
    }
}

/// The state machine. Structure (states, transitions, entry state) is fixed
/// after construction; each tick only writes parameters and advances the
/// active transition.
pub struct Machine {
    pub states: Vec<State>,
    pub transitions: Vec<Transition>,
    pub params: Params,
    pub entry_state: usize,
    pub active_state: usize,
    pub active_transition: Option<usize>,
    pub transition_elapsed_ms: u64,
}

/// The mathematical value of a `Machine`.
pub struct MachineView {
    pub states: Seq<State>,
    pub transitions: Seq<Transition>,
    pub params: Params,
    pub entry_state: int,
    pub active_state: int,
    pub active_transition: Option<int>,
    pub transition_elapsed_ms: int,
}

impl View for Machine {
    type V = MachineView;

    open spec fn view(&self) -> MachineView {
        MachineView {
            states: self.states@,
            transitions: self.transitions@,
            params: self.params,
            entry_state: self.entry_state as int,
            active_state: self.active_state as int,
            active_transition: match self.active_transition {
                Some(i) => Some(i as int),
                None => None,
            },
            transition_elapsed_ms: self.transition_elapsed_ms as int,
        }
    }
}

impl MachineView {
    /// Well-formedness: indices in range, durations positive and capped, and
    /// the active transition (if any) leaves the active state with its blend
    /// still in progress.
    pub open spec fn wf(self) -> bool {
        &&& 0 < self.states.len()
        &&& 0 <= self.entry_state < self.states.len()
        &&& 0 <= self.active_state < self.states.len()
        &&& forall|i: int|
            0 <= i < self.transitions.len() ==> {
                &&& 0 <= (#[trigger] self.transitions[i]).source < self.states.len()
                &&& 0 <= self.transitions[i].dest < self.states.len()
                &&& 0 < self.transitions[i].duration_ms <= MAX_DURATION_MS
            }
        &&& match self.active_transition {
            None => self.transition_elapsed_ms == 0,
            Some(i) => {
                &&& 0 <= i < self.transitions.len()
                &&& self.transitions[i].source == self.active_state
                &&& 0 <= self.transition_elapsed_ms < self.transitions[i].duration_ms
            },
        }
    }

    /// Whether transition `i` may begin: it leaves the active state and its
    /// guard parameter is true.
    pub open spec fn enabled(self, i: int) -> bool {
        &&& 0 <= i < self.transitions.len()
        &&& self.transitions[i].source == self.active_state
        &&& self.params.spec_get(self.transitions[i].param)
    }

    /// The first enabled transition at or after position `i`: registration
    /// order is the tie-break when several guards hold at once.
    pub open spec fn first_enabled_from(self, i: int) -> Option<int>
        decreases self.transitions.len() - i,
    {
        if i < 0 || i >= self.transitions.len() {
            None
        } else if self.enabled(i) {
            Some(i)
        } else {
            self.first_enabled_from(i + 1)
        }
    }

    pub open spec fn first_enabled(self) -> Option<int> {
        self.first_enabled_from(0)
    }
}

/// The machine after the active transition has advanced by `delta`
/// milliseconds: it either completes — making its destination the active
/// state — or accumulates the elapsed time.
pub open spec fn spec_advanced(m: MachineView, delta: int) -> MachineView {
    match m.active_transition {
        None => m,
        Some(i) => {
            let t = m.transitions[i];
            if m.transition_elapsed_ms + delta >= t.duration_ms {
                MachineView {
                    states: m.states,
                    transitions: m.transitions,
                    params: m.params,
                    entry_state: m.entry_state,
                    active_state: t.dest as int,
                    active_transition: None,
                    transition_elapsed_ms: 0,
                }
            } else {
                MachineView {
                    states: m.states,
                    transitions: m.transitions,
                    params: m.params,
                    entry_state: m.entry_state,
                    active_state: m.active_state,
                    active_transition: m.active_transition,
                    transition_elapsed_ms: m.transition_elapsed_ms + delta,
                }
            }
        },
    }
}

/// The machine after transition selection: if none is running, the first
/// enabled transition out of the active state begins with zero elapsed time.
pub open spec fn spec_started(m: MachineView) -> MachineView {
    if m.active_transition is Some {
        m
    } else {
        match m.first_enabled() {
            None => m,
            Some(i) => MachineView {
                states: m.states,
                transitions: m.transitions,
                params: m.params,
                entry_state: m.entry_state,
                active_state: m.active_state,
                active_transition: Some(i),
                transition_elapsed_ms: 0,
            },
        }
    }
}

/// One whole evaluation step: advance, then select.
pub open spec fn spec_step(m: MachineView, delta: int) -> MachineView {
    spec_started(spec_advanced(m, delta))
}

/// The blend an evaluation reports, read off the stepped machine: the active
/// state alone, or source and destination weighted by elapsed time over
/// duration, in thousandths.
pub open spec fn spec_blend(m: MachineView) -> BlendView {
    match m.active_transition {
        None => BlendView { source: m.active_state, dest: None, weight: 0 },
        Some(i) => BlendView {
            source: m.active_state,
            dest: Some(m.transitions[i].dest as int),
            weight: m.transition_elapsed_ms * 1000 / (m.transitions[i].duration_ms as int),
        },
    }
}

impl Machine {
    /// An empty machine: no states, no transitions, all parameters false.
    pub fn new() -> (r: Machine)
        ensures
            r@.states.len() == 0,
            r@.transitions.len() == 0,
            forall|p: Param| !r@.params.spec_get(p),
            r@.entry_state == 0,
            r@.active_state == 0,
            r@.active_transition is None,
            r@.transition_elapsed_ms == 0,
    {
        Machine {
            states: Vec::new(),
            transitions: Vec::new(),
            params: Params::new(),
            entry_state: 0,
            active_state: 0,
            active_transition: None,
            transition_elapsed_ms: 0,
        }
    }

    /// Register a state; its index identifies it in transitions.
    pub fn add_state(&mut self, s: State) -> (idx: usize)
        requires
            old(self)@.states.len() < usize::MAX,
        ensures
            idx == old(self)@.states.len(),
            final(self)@.states == old(self)@.states.push(s),
            final(self)@.transitions == old(self)@.transitions,
            final(self)@.params == old(self)@.params,
            final(self)@.entry_state == old(self)@.entry_state,
            final(self)@.active_state == old(self)@.active_state,
            final(self)@.active_transition == old(self)@.active_transition,
            final(self)@.transition_elapsed_ms == old(self)@.transition_elapsed_ms,
    {
        let idx = self.states.len();
        self.states.push(s);
        idx
    }

    /// Register a transition; priority among simultaneously enabled
    /// transitions follows registration order.
    pub fn add_transition(&mut self, t: Transition)
        requires
            t.source < old(self)@.states.len(),
            t.dest < old(self)@.states.len(),
            0 < t.duration_ms <= MAX_DURATION_MS,
            old(self)@.transitions.len() < usize::MAX,
        ensures
            final(self)@.transitions == old(self)@.transitions.push(t),
            final(self)@.states == old(self)@.states,
            final(self)@.params == old(self)@.params,
            final(self)@.entry_state == old(self)@.entry_state,
            final(self)@.active_state == old(self)@.active_state,
            final(self)@.active_transition == old(self)@.active_transition,
            final(self)@.transition_elapsed_ms == old(self)@.transition_elapsed_ms,
    {
        self.transitions.push(t);
    }

    /// Choose the entry state; it becomes the active state, so it is what
    /// the machine shows before any tick has run.
    pub fn set_entry_state(&mut self, s: usize)
        requires
            s < old(self)@.states.len(),
        ensures
            final(self)@.entry_state == s,
            final(self)@.active_state == s,
            final(self)@.states == old(self)@.states,
            final(self)@.transitions == old(self)@.transitions,
            final(self)@.params == old(self)@.params,
            final(self)@.active_transition == old(self)@.active_transition,
            final(self)@.transition_elapsed_ms == old(self)@.transition_elapsed_ms,
    {
        self.entry_state = s;
        self.active_state = s;
    }

    /// Record a guard value for the coming evaluation. Writing guards never
    /// disturbs the machine's structure or its active state, so any
    /// interleaving of parameter writes and evaluations keeps the machine
    /// well-formed.
    pub fn set_parameter(&mut self, p: Param, value: bool)
        ensures
            old(self)@.wf() ==> final(self)@.wf(),
            final(self)@.params.spec_get(p) == value,
            forall|q: Param|
                q != p ==> final(self)@.params.spec_get(q) == old(self)@.params.spec_get(q),
            final(self)@.states == old(self)@.states,
            final(self)@.transitions == old(self)@.transitions,
            final(self)@.entry_state == old(self)@.entry_state,
            final(self)@.active_state == old(self)@.active_state,
            final(self)@.active_transition == old(self)@.active_transition,
            final(self)@.transition_elapsed_ms == old(self)@.transition_elapsed_ms,
    {
        self.params.set(p, value);
    }

    /// The first enabled transition out of the active state, in registration
    /// order.
    fn find_enabled(&self) -> (r: Option<usize>)
        ensures
            match r {
                None => self@.first_enabled() is None,
                Some(i) => self@.first_enabled() == Some(i as int),
            },
    {
        let mut j: usize = 0;
        while j < self.transitions.len()
            invariant
                j <= self@.transitions.len(),
                self@.first_enabled_from(0) == self@.first_enabled_from(j as int),
            decreases self@.transitions.len() - j,
        {
            let t = self.transitions[j];
            if t.source == self.active_state && self.params.get(t.param) {
                return Some(j);
            }
            j = j + 1;
        }
        None
    }

    /// Advance the active transition by `delta_ms`, completing it when its
    /// blend duration is reached.
    fn advance(&mut self, delta_ms: u64)
        requires
            old(self)@.wf(),
            delta_ms <= MAX_DELTA_MS,
        ensures
            final(self)@ == spec_advanced(old(self)@, delta_ms as int),
            final(self)@.wf(),
    {
        match self.active_transition {
            None => {},
            Some(i) => {
                let dur = self.transitions[i].duration_ms;
                let dest = self.transitions[i].dest;
                let e = self.transition_elapsed_ms + delta_ms;
                if e >= dur {
                    self.active_state = dest;
                    self.active_transition = None;
                    self.transition_elapsed_ms = 0;
                } else {
                    self.transition_elapsed_ms = e;
                }
            },
        }
    }

    /// If no transition is running, begin the first enabled one.
    fn start_if_idle(&mut self)
        requires
            old(self)@.wf(),
        ensures
            final(self)@ == spec_started(old(self)@),
            final(self)@.wf(),
    {
        if self.active_transition.is_none() {
            match self.find_enabled() {
                Some(i) => {
                    proof {
                        lemma_first_enabled_in_range(old(self)@, 0);
                    }
                    self.active_transition = Some(i);
                    self.transition_elapsed_ms = 0;
                },
                None => {},
            }
        }
    }

    /// The blend the machine currently shows.
    fn current_blend(&self) -> (b: Blend)
        requires
            self@.wf(),
        ensures
            b@ == spec_blend(self@),
    {
        match self.active_transition {
            None => Blend { source: self.active_state, dest: None, weight: 0 },
            Some(i) => {
                let t = self.transitions[i];
                Blend {
                    source: self.active_state,
                    dest: Some(t.dest),
                    weight: self.transition_elapsed_ms * 1000 / t.duration_ms,
                }
            },
        }
    }

    /// One evaluation: advance the active transition by `delta_ms`, start
    /// the first enabled transition if none is running, and report what to
    /// blend.
    pub fn evaluate(&mut self, delta_ms: u64) -> (b: Blend)
        requires
            old(self)@.wf(),
            delta_ms <= MAX_DELTA_MS,
        ensures
            final(self)@ == spec_step(old(self)@, delta_ms as int),
            final(self)@.wf(),
            b@ == spec_blend(final(self)@),
    {
        self.advance(delta_ms);
        self.start_if_idle();
        self.current_blend()
    }
}

/// A step leaves the machine well-formed, keeps its structure, and keeps the
/// active state one of the declared states: whatever sequence of parameter
/// writes and evaluations runs, the active state never leaves the declared
/// state set.
pub proof fn lemma_step_wf(m: MachineView, delta: int)
    requires
        m.wf(),
        delta >= 0,
    ensures
        spec_step(m, delta).wf(),
        spec_step(m, delta).states == m.states,
        spec_step(m, delta).transitions == m.transitions,
        spec_step(m, delta).params == m.params,
        spec_step(m, delta).entry_state == m.entry_state,
        0 <= spec_step(m, delta).active_state < m.states.len(),
{
    let a = spec_advanced(m, delta);
    assert(a.wf());
    lemma_first_enabled_in_range(a, 0);
}

/// Advancing a well-formed machine by zero time changes nothing: a running
/// blend cannot complete, because its elapsed time is strictly inside its
/// duration.
pub proof fn lemma_advanced_zero(m: MachineView)
    requires
        m.wf(),
    ensures
        spec_advanced(m, 0) == m,
{
}

/// Transition selection is idempotent: once a transition runs, selection
/// does nothing, and when selection found nothing the machine is unchanged
/// and selection finds nothing again.
pub proof fn lemma_started_idempotent(m: MachineView)
    ensures
        spec_started(spec_started(m)) == spec_started(m),
{
}

/// Evaluating with a zero time delta twice in a row leaves the machine, and
/// hence the reported blend, exactly as after the first evaluation.
pub proof fn lemma_step_zero_idempotent(m: MachineView)
    requires
        m.wf(),
    ensures
        spec_step(spec_step(m, 0), 0) == spec_step(m, 0),
        spec_blend(spec_step(spec_step(m, 0), 0)) == spec_blend(spec_step(m, 0)),
{
    lemma_advanced_zero(m);
    let s = spec_started(m);
    lemma_step_wf(m, 0);
    lemma_advanced_zero(s);
    lemma_started_idempotent(m);
}

/// A found first enabled transition is a real, enabled transition index.
pub proof fn lemma_first_enabled_in_range(m: MachineView, i: int)
    ensures
        match m.first_enabled_from(i) {
            None => true,
            Some(j) => i <= j && m.enabled(j),
        },
    decreases m.transitions.len() - i,
{
    if i < 0 || i >= m.transitions.len() {
    } else if m.enabled(i) {
    } else {
        lemma_first_enabled_in_range(m, i + 1);
    }
}

} // verus!
