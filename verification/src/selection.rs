//! The user's current selections: the ordered input files and the output
//! directory, each replaced wholesale by a completed pick, together with the
//! derived ready-state that gates the convert action.

use vstd::prelude::*;

verus! {

/// One event at the presentation boundary: the result of a file-pick or
/// folder-pick dialog.  `None` is a cancelled dialog.
pub enum PickEvent {
    Inputs(Option<Vec<String>>),
    Output(Option<String>),
}

/// A completed input pick: not cancelled, and delivering at least one path.
pub open spec fn completed_input_pick(e: PickEvent) -> bool {
    e matches PickEvent::Inputs(Some(ps)) && ps@.len() > 0
}

/// A completed output pick: not cancelled, and delivering a real path.
pub open spec fn completed_output_pick(e: PickEvent) -> bool {
    e matches PickEvent::Output(Some(p)) && p@.len() > 0
}

/// How one event acts on the input selection: a completed input pick
/// replaces it wholesale; every other event leaves it untouched.
pub open spec fn spec_inputs_step(cur: Seq<Seq<char>>, e: PickEvent) -> Seq<Seq<char>> {
    match e {
        PickEvent::Inputs(Some(ps)) => if ps@.len() > 0 {
            ps.deep_view()
        } else {
            cur
        },
        _ => cur,
    }
}

/// How one event acts on the output selection: a completed output pick
/// replaces it wholesale; every other event leaves it untouched.
pub open spec fn spec_output_step(cur: Seq<char>, e: PickEvent) -> Seq<char> {
    match e {
        PickEvent::Output(Some(p)) => if p@.len() > 0 {
            p@
        } else {
            cur
        },
        _ => cur,
    }
}

/// The input selection after a whole sequence of pick events, starting from
/// nothing selected.
pub open spec fn spec_inputs_after(events: Seq<PickEvent>) -> Seq<Seq<char>>
    decreases events.len(),
{
    if events.len() == 0 {
        Seq::<Seq<char>>::empty()
    } else {
        spec_inputs_step(spec_inputs_after(events.drop_last()), events.last())
    }
}

/// The output selection after a whole sequence of pick events, starting from
/// the unset (empty) path.
pub open spec fn spec_output_after(events: Seq<PickEvent>) -> Seq<char>
    decreases events.len(),
{
    if events.len() == 0 {
        Seq::<char>::empty()
    } else {
        spec_output_step(spec_output_after(events.drop_last()), events.last())
    }
}

/// The paths delivered by an input-pick event; empty for any other event.
pub open spec fn picked_inputs(e: PickEvent) -> Seq<Seq<char>> {
    match e {
        PickEvent::Inputs(Some(ps)) => ps.deep_view(),
        _ => Seq::<Seq<char>>::empty(),
    }
}

/// The path delivered by an output-pick event; empty for any other event.
pub open spec fn picked_output(e: PickEvent) -> Seq<char> {
    match e {
        PickEvent::Output(Some(p)) => p@,
        _ => Seq::<char>::empty(),
    }
}

/// The derived ready-state: some input selected and an output directory set.
pub open spec fn spec_ready(inputs: Seq<Seq<char>>, output: Seq<char>) -> bool {
    inputs.len() > 0 && output.len() > 0
}

/// The current selections.  The absent output directory is the empty path,
/// distinct from any real path.
pub struct SelectionState {
    inputs: Vec<String>,
    output: String,
}

impl SelectionState {
    /// The selected input file paths, in the user's pick order.
    pub closed spec fn inputs(self) -> Seq<Seq<char>> {
        self.inputs.deep_view()
    }

    /// The selected output directory path; empty when unset.
    pub closed spec fn output(self) -> Seq<char> {
        self.output@
    }

    /// The derived ready-state of these selections.
    pub open spec fn ready(self) -> bool {
        spec_ready(self.inputs(), self.output())
    }

    /// A fresh state: nothing selected, not ready.
    pub fn new() -> (r: SelectionState)
        ensures
            r.inputs() == Seq::<Seq<char>>::empty(),
            r.output() == Seq::<char>::empty(),
            !r.ready(),
    {
        let r = SelectionState { inputs: Vec::new(), output: String::new() };
        proof {
            assert(r.inputs() =~= Seq::<Seq<char>>::empty());
        }
        r
    }

    /// Replace the input selection wholesale.  The caller guarantees the
    /// paths come from a completed, non-cancelled pick, so they are
    /// non-empty; a cancelled or empty pick must not reach this operation
    /// (see [`SelectionState::apply_pick_event`]).
    pub fn set_inputs(&mut self, paths: Vec<String>)
        requires
            paths@.len() > 0,
        ensures
            final(self).inputs() == paths.deep_view(),
            final(self).output() == old(self).output(),
            final(self).ready() == (old(self).output().len() > 0),
    {
        self.inputs = paths;
    }

    /// Replace the output directory wholesale.  The caller guarantees the
    /// path comes from a completed, non-cancelled pick, so it is non-empty.
    pub fn set_output(&mut self, path: String)
        requires
            path@.len() > 0,
        ensures
            final(self).inputs() == old(self).inputs(),
            final(self).output() == path@,
            final(self).ready() == (old(self).inputs().len() > 0),
    {
        self.output = path;
    }

    /// Apply one pick-dialog result: a completed pick replaces its selection,
    /// and a cancelled or empty pick leaves every selection — and thus the
    /// ready-state — exactly as it was.
    pub fn apply_pick_event(&mut self, event: PickEvent)
        ensures
            final(self).inputs() == spec_inputs_step(old(self).inputs(), event),
            final(self).output() == spec_output_step(old(self).output(), event),
    {
        match event {
            PickEvent::Inputs(Some(paths)) => {
                if paths.len() > 0 {
                    self.set_inputs(paths);
                }
            },
            PickEvent::Inputs(None) => {},
            PickEvent::Output(Some(path)) => {
                if path.as_str().unicode_len() > 0 {
                    self.set_output(path);
                }
            },
            PickEvent::Output(None) => {},
        }
    }

    /// The pure ready query: true iff some input is selected and the output
    /// directory is set.
    pub fn is_ready(&self) -> (r: bool)
        ensures
            r == self.ready(),
    {
        self.inputs.len() > 0 && self.output.as_str().unicode_len() > 0
    }

    /// How many input files are selected.
    pub fn input_count(&self) -> (r: usize)
        ensures
            r as int == self.inputs().len(),
    {
        self.inputs.len()
    }

    /// The selected input files, in pick order.
    pub fn input_files(&self) -> (r: &Vec<String>)
        ensures
            r.deep_view() == self.inputs(),
    {
        &self.inputs
    }

    /// The selected output directory; the empty path when unset.
    pub fn output_dir(&self) -> (r: &String)
        ensures
            r@ == self.output(),
    {
        &self.output
    }
}

/// Whether the convert action may be enabled: exactly the ready-state of the
/// current selections, recomputed after every selection update.
pub fn check_and_enable_convert(state: &SelectionState) -> (r: bool)
    ensures
        r == state.ready(),
{
    state.is_ready()
}

/// Law: cancelled (and empty) picks change nothing — neither selection nor
/// the ready-state.
pub proof fn lemma_cancelled_pick_is_noop(inputs: Seq<Seq<char>>, output: Seq<char>, e: PickEvent)
    requires
        !completed_input_pick(e),
        !completed_output_pick(e),
    ensures
        spec_inputs_step(inputs, e) == inputs,
        spec_output_step(output, e) == output,
        spec_ready(spec_inputs_step(inputs, e), spec_output_step(output, e)) == spec_ready(
            inputs,
            output,
        ),
{
}

/// Law: after any sequence of pick events, the selections are ready exactly
/// when some completed (non-cancelled, non-empty) input pick has occurred and
/// some completed output pick has occurred.
pub proof fn lemma_ready_iff_completed_picks(events: Seq<PickEvent>)
    ensures
        spec_inputs_after(events).len() > 0 <==> exists|i: int|
            0 <= i < events.len() && completed_input_pick(events[i]),
        spec_output_after(events).len() > 0 <==> exists|i: int|
            0 <= i < events.len() && completed_output_pick(events[i]),
        spec_ready(spec_inputs_after(events), spec_output_after(events)) <==> ((exists|i: int|
            0 <= i < events.len() && completed_input_pick(events[i])) && (exists|i: int|
            0 <= i < events.len() && completed_output_pick(events[i]))),
    decreases events.len(),
{
    if events.len() > 0 {
        let prefix = events.drop_last();
        let last = events.last();
        lemma_ready_iff_completed_picks(prefix);
        if completed_input_pick(last) {
            assert(completed_input_pick(events[events.len() - 1]));
        } else {
            assert(spec_inputs_after(events) == spec_inputs_after(prefix));
            assert forall|i: int|
                0 <= i < events.len() && completed_input_pick(events[i]) implies exists|j: int|
                0 <= j < prefix.len() && completed_input_pick(prefix[j]) by {
                assert(i < prefix.len() && prefix[i] == events[i]);
            }
            assert forall|j: int|
                0 <= j < prefix.len() && completed_input_pick(prefix[j]) implies exists|i: int|
                0 <= i < events.len() && completed_input_pick(events[i]) by {
                assert(events[j] == prefix[j]);
            }
        }
        if completed_output_pick(last) {
            assert(completed_output_pick(events[events.len() - 1]));
        } else {
            assert(spec_output_after(events) == spec_output_after(prefix));
            assert forall|i: int|
                0 <= i < events.len() && completed_output_pick(events[i]) implies exists|j: int|
                0 <= j < prefix.len() && completed_output_pick(prefix[j]) by {
                assert(i < prefix.len() && prefix[i] == events[i]);
            }
            assert forall|j: int|
                0 <= j < prefix.len() && completed_output_pick(prefix[j]) implies exists|i: int|
                0 <= i < events.len() && completed_output_pick(events[i]) by {
                assert(events[j] == prefix[j]);
            }
        }
    }
}

/// Law: each selection holds exactly what the latest completed pick of its
/// kind delivered — selections are replaced wholesale, never merged, and
/// later cancelled or empty picks do not disturb them.
pub proof fn lemma_latest_completed_pick_wins(events: Seq<PickEvent>, i: int)
    requires
        0 <= i < events.len(),
    ensures
        completed_input_pick(events[i]) && (forall|j: int|
            i < j < events.len() ==> !completed_input_pick(events[j]))
            ==> spec_inputs_after(events) == picked_inputs(events[i]),
        completed_output_pick(events[i]) && (forall|j: int|
            i < j < events.len() ==> !completed_output_pick(events[j]))
            ==> spec_output_after(events) == picked_output(events[i]),
    decreases events.len(),
{
    let prefix = events.drop_last();
    let last = events.last();
    if i == events.len() - 1 {
        assert(completed_input_pick(last) ==> spec_inputs_after(events) == picked_inputs(last));
        assert(completed_output_pick(last) ==> spec_output_after(events) == picked_output(last));
    } else {
        lemma_latest_completed_pick_wins(prefix, i);
        assert(prefix[i] == events[i]);
        if completed_input_pick(events[i]) && (forall|j: int|
            i < j < events.len() ==> !completed_input_pick(events[j])) {
            assert(!completed_input_pick(last));
            assert(spec_inputs_after(events) == spec_inputs_after(prefix));
            assert(forall|j: int|
                i < j < prefix.len() ==> prefix[j] == events[j] && !completed_input_pick(
                    prefix[j],
                ));
        }
        if completed_output_pick(events[i]) && (forall|j: int|
            i < j < events.len() ==> !completed_output_pick(events[j])) {
            assert(!completed_output_pick(last));
            assert(spec_output_after(events) == spec_output_after(prefix));
            assert(forall|j: int|
                i < j < prefix.len() ==> prefix[j] == events[j] && !completed_output_pick(
                    prefix[j],
                ));
        }
    }
}

} // verus!
