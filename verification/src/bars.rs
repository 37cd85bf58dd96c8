//! Planning the restoration of status bars. At entry the session
//! records each bar's mode; at exit it restores a bar only if that bar
//! is still invisible — a bar whose mode changed under way was changed
//! from outside, and that change is left alone. A bar whose current
//! mode cannot be determined is set back to docked.

use vstd::prelude::*;

verus! {

/// Visibility mode of a status bar.
#[derive(Debug, PartialEq, Eq, Structural, Clone, Copy)]
pub enum BarMode {
    /// Permanently visible.
    Dock,
    /// Hidden unless summoned.
    Hide,
    /// Never visible.
    Invisible,
}

/// The first mode recorded for the bar `id`, if any.
pub open spec fn spec_lookup(modes: Seq<(String, BarMode)>, id: Seq<char>) -> Option<BarMode>
    decreases modes.len(),
{
    if modes.len() == 0 {
        None
    } else if modes[0].0@ == id {
        Some(modes[0].1)
    } else {
        spec_lookup(modes.drop_first(), id)
    }
}

/// The restoration commands owed for a snapshot, given the bars'
/// current modes: a bar still invisible goes back to its recorded mode;
/// one whose mode changed under way is left alone; one whose current
/// mode is unknown is set back to docked.
pub open spec fn spec_restore_plan(
    snapshot: Seq<(String, BarMode)>,
    current: Seq<(String, BarMode)>,
) -> Seq<(String, BarMode)>
    decreases snapshot.len(),
{
    if snapshot.len() == 0 {
        Seq::empty()
    } else {
        let rest = spec_restore_plan(snapshot.drop_first(), current);
        match spec_lookup(current, snapshot[0].0@) {
            Some(cm) => if cm is Invisible {
                seq![snapshot[0]] + rest
            } else {
                rest
            },
            None => seq![(snapshot[0].0, BarMode::Dock)] + rest,
        }
    }
}

/// The first mode recorded for the bar `id`, if any.
fn lookup_mode(modes: &Vec<(String, BarMode)>, id: &String) -> (r: Option<BarMode>)
    ensures
        r == spec_lookup(modes@, id@),
{
    let mut i: usize = 0;
    proof {
        assert(modes@.skip(0) =~= modes@);
    }
    while i < modes.len()
        invariant
            0 <= i <= modes@.len(),
            spec_lookup(modes@, id@) == spec_lookup(modes@.skip(i as int), id@),
        decreases modes@.len() - i,
    {
        let pair: &(String, BarMode) = &modes[i];
        proof {
            assert(modes@.skip(i as int)[0] == modes@[i as int]);
            assert(modes@.skip(i as int).drop_first() =~= modes@.skip(i + 1));
        }
        if pair.0 == *id {
            return Some(pair.1);
        }
        i = i + 1;
    }
    proof {
        assert(modes@.skip(modes@.len() as int) =~= Seq::<(String, BarMode)>::empty());
    }
    None
}

/// Builds the restoration commands for `snapshot`, the modes recorded
/// at entry, against `current`, the modes read back at exit.
pub fn restore_plan(
    snapshot: &Vec<(String, BarMode)>,
    current: &Vec<(String, BarMode)>,
) -> (plan: Vec<(String, BarMode)>)
    ensures
        plan@ == spec_restore_plan(snapshot@, current@),
{
    let mut plan: Vec<(String, BarMode)> = Vec::new();
    let mut i: usize = 0;
    proof {
        assert(snapshot@.skip(0) =~= snapshot@);
    }
    while i < snapshot.len()
        invariant
            0 <= i <= snapshot@.len(),
            spec_restore_plan(snapshot@, current@) == plan@ + spec_restore_plan(
                snapshot@.skip(i as int),
                current@,
            ),
        decreases snapshot@.len() - i,
    {
        let pair: &(String, BarMode) = &snapshot[i];
        proof {
            assert(snapshot@.skip(i as int)[0] == snapshot@[i as int]);
            assert(snapshot@.skip(i as int).drop_first() =~= snapshot@.skip(i + 1));
        }
        let ghost before: Seq<(String, BarMode)> = plan@;
        match lookup_mode(current, &pair.0) {
            Some(cm) => {
                if cm == BarMode::Invisible {
                    plan.push((pair.0.clone(), pair.1));
                    proof {
                        assert(plan@ =~= before + seq![snapshot@[i as int]]);
                    }
                }
            },
            None => {
                plan.push((pair.0.clone(), BarMode::Dock));
                proof {
                    assert(plan@ =~= before + seq![(snapshot@[i as int].0, BarMode::Dock)]);
                }
            },
        }
        proof {
            assert(spec_restore_plan(snapshot@, current@) == plan@ + spec_restore_plan(
                snapshot@.skip(i + 1),
                current@,
            ));
        }
        i = i + 1;
    }
    proof {
        assert(snapshot@.skip(snapshot@.len() as int) =~= Seq::<(String, BarMode)>::empty());
        assert(plan@ =~= plan@ + Seq::<(String, BarMode)>::empty());
    }
    plan
}

/// The snapshot assumed when none was recorded: every bar docked.
pub fn default_snapshot(ids: Vec<String>) -> (r: Vec<(String, BarMode)>)
    ensures
        r@.len() == ids@.len(),
        forall|i: int| 0 <= i < ids@.len() ==> #[trigger] r@[i] == (ids@[i], BarMode::Dock),
{
    let mut r: Vec<(String, BarMode)> = Vec::new();
    let mut i: usize = 0;
    while i < ids.len()
        invariant
            0 <= i <= ids@.len(),
            r@.len() == i,
            forall|k: int| 0 <= k < i ==> #[trigger] r@[k] == (ids@[k], BarMode::Dock),
        decreases ids@.len() - i,
    {
        r.push((ids[i].clone(), BarMode::Dock));
        i = i + 1;
    }
    r
}

} // verus!
