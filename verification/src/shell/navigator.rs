//! The navigation stack of the UI shell: home at the bottom, the launcher
//! above it, then the launched app or system root and its children.
use vstd::prelude::*;

use super::types::{SurfaceDefinition, SurfaceRef, SurfaceRole};

verus! {

/// Why a navigation step is impossible.
#[derive(Clone, Copy, Debug, Eq, PartialEq, Structural)]
pub enum NavigationError {
    /// The stack would grow past its capacity.
    Capacity,
    /// The surface does not play the role the step needs (a launcher to
    /// open, a root to launch, a child to push).
    RoleMismatch(SurfaceRef),
}

/// Whether a navigation step changed the stack.
#[derive(Clone, Copy, Debug, Eq, PartialEq, Structural)]
pub enum NavigationOutcome {
    Changed,
    Unchanged,
}

/// A navigation step with its target already resolved.
#[derive(Clone, Copy, Debug, Eq, PartialEq, Structural)]
pub enum NavStep {
    OpenLauncher(SurfaceDefinition),
    Launch(SurfaceDefinition),
    Push(SurfaceDefinition),
    Back,
    Home,
}

/// Home and the launcher are shell frames; everything above them belongs to
/// the launched app.
pub open spec fn is_shell_frame(d: SurfaceDefinition) -> bool {
    d.role == SurfaceRole::Ambient || d.role == SurfaceRole::Launcher
}

/// Length of the run of shell frames at the bottom of the stack, counting
/// from `from`.
pub open spec fn shell_prefix_len(stack: Seq<SurfaceDefinition>, from: int) -> int
    decreases stack.len() - from,
{
    if from < 0 || from >= stack.len() || !is_shell_frame(stack[from]) {
        if from < 0 { 0 } else { from }
    } else {
        shell_prefix_len(stack, from + 1)
    }
}

/// A planned stack is never empty.
pub proof fn lemma_stepped_nonempty(stack: Seq<SurfaceDefinition>, step: NavStep)
    requires
        stack.len() >= 1,
    ensures
        stepped_stack(stack, step).len() >= 1,
{
}

/// The stack a step leads to, before the capacity check: opening the
/// launcher keeps only home beneath it, launching replaces everything above
/// the shell frames, pushing adds a child, back drops the top frame (never
/// home), and home keeps only home.
pub open spec fn stepped_stack(stack: Seq<SurfaceDefinition>, step: NavStep) -> Seq<SurfaceDefinition> {
    match step {
        NavStep::OpenLauncher(d) => seq![stack[0], d],
        NavStep::Launch(d) => stack.take(shell_prefix_len(stack, 0)).push(d),
        NavStep::Push(d) => stack.push(d),
        NavStep::Back => if stack.len() <= 1 { stack } else { stack.drop_last() },
        NavStep::Home => seq![stack[0]],
    }
}

/// The role a step's target must have, if it has a target.
pub open spec fn step_role_ok(step: NavStep) -> bool {
    match step {
        NavStep::OpenLauncher(d) => d.role == SurfaceRole::Launcher,
        NavStep::Launch(d) => d.role == SurfaceRole::AppRoot || d.role == SurfaceRole::SystemRoot,
        NavStep::Push(d) => d.role == SurfaceRole::AppChild,
        _ => true,
    }
}

/// The target of a step, if any.
pub open spec fn step_target(step: NavStep) -> Option<SurfaceDefinition> {
    match step {
        NavStep::OpenLauncher(d) => Some(d),
        NavStep::Launch(d) => Some(d),
        NavStep::Push(d) => Some(d),
        _ => None,
    }
}

/// The new stack and whether it differs from the old one, or why the step
/// is refused.
pub open spec fn navigation_spec(stack: Seq<SurfaceDefinition>, step: NavStep, capacity: int) -> Result<
    (Seq<SurfaceDefinition>, NavigationOutcome),
    NavigationError,
> {
    if !step_role_ok(step) {
        Err(NavigationError::RoleMismatch(step_target(step)->0.surface))
    } else if stepped_stack(stack, step).len() > capacity {
        Err(NavigationError::Capacity)
    } else {
        let next = stepped_stack(stack, step);
        Ok((next, if next == stack { NavigationOutcome::Unchanged } else { NavigationOutcome::Changed }))
    }
}

fn same_stack(a: &Vec<SurfaceDefinition>, b: &Vec<SurfaceDefinition>) -> (r: bool)
    ensures
        r == (a@ == b@),
{
    if a.len() != b.len() {
        return false;
    }
    let mut i: usize = 0;
    while i < a.len()
        invariant
            a@.len() == b@.len(),
            i <= a@.len(),
            forall|k: int| 0 <= k < i ==> a@[k] == b@[k],
        decreases a@.len() - i,
    {
        if a[i] != b[i] {
            return false;
        }
        i = i + 1;
    }
    assert(a@ =~= b@);
    true
}

/// Plans a navigation step on a non-empty stack.
pub fn plan_navigation(stack: &Vec<SurfaceDefinition>, step: NavStep, capacity: usize) -> (r: Result<
    (Vec<SurfaceDefinition>, NavigationOutcome),
    NavigationError,
>)
    requires
        stack@.len() >= 1,
    ensures
        match (r, navigation_spec(stack@, step, capacity as int)) {
            (Ok((v, o)), Ok((s, p))) => v@ == s && o == p,
            (Err(a), Err(b)) => a == b,
            _ => false,
        },
{
    let next: Vec<SurfaceDefinition> = match step {
        NavStep::OpenLauncher(d) => {
            if d.role != SurfaceRole::Launcher {
                return Err(NavigationError::RoleMismatch(d.surface));
            }
            let mut v = Vec::new();
            v.push(stack[0]);
            v.push(d);
            assert(v@ =~= seq![stack@[0], d]);
            v
        },
        NavStep::Launch(d) => {
            if d.role != SurfaceRole::AppRoot && d.role != SurfaceRole::SystemRoot {
                return Err(NavigationError::RoleMismatch(d.surface));
            }
            let mut v: Vec<SurfaceDefinition> = Vec::new();
            let mut i: usize = 0;
            while i < stack.len() && (stack[i].role == SurfaceRole::Ambient || stack[i].role == SurfaceRole::Launcher)
                invariant
                    i <= stack@.len(),
                    shell_prefix_len(stack@, 0) == shell_prefix_len(stack@, i as int),
                    v@ == stack@.take(i as int),
                decreases stack@.len() - i,
            {
                v.push(stack[i]);
                assert(stack@.take(i + 1) =~= stack@.take(i as int).push(stack@[i as int]));
                i = i + 1;
            }
            v.push(d);
            v
        },
        NavStep::Push(d) => {
            if d.role != SurfaceRole::AppChild {
                return Err(NavigationError::RoleMismatch(d.surface));
            }
            let mut v = stack.clone();
            v.push(d);
            v
        },
        NavStep::Back => {
            let mut v = stack.clone();
            if v.len() > 1 {
                let _ = v.pop();
            }
            v
        },
        NavStep::Home => {
            let mut v = Vec::new();
            v.push(stack[0]);
            assert(v@ =~= seq![stack@[0]]);
            v
        },
    };
    assert(next@ == stepped_stack(stack@, step));
    if next.len() > capacity {
        return Err(NavigationError::Capacity);
    }
    let outcome = if same_stack(&next, stack) {
        NavigationOutcome::Unchanged
    } else {
        NavigationOutcome::Changed
    };
    Ok((next, outcome))
}

} // verus!
