//! The frame loop: each iteration drains the input events, stops on a quit
//! request, and otherwise clears, draws every scheduled pair and presents.
use vstd::prelude::*;
use crate::native::{NativeCall, Call, calls_model, lemma_calls_model_push};
use crate::program::Program;
use crate::geometry::{GeometryBuffer, draw_calls};

verus! {

/// The keys the loop tells apart.
#[derive(Clone, Copy, Debug, PartialEq, Eq, Structural)]
pub enum Key {
    /// The designated cancel key.
    Escape,
    Other,
}

/// One input event, as drained from the windowing layer.
#[derive(Clone, Copy, Debug, PartialEq, Eq, Structural)]
pub enum InputEvent {
    /// An explicit quit request.
    Quit,
    KeyDown { key: Key },
    Other,
}

#[derive(Clone, Copy, Debug, PartialEq, Eq, Structural)]
pub enum LoopState {
    Running,
    Terminated,
}

/// Whether `e` asks the loop to stop.
pub open spec fn ends_loop(e: InputEvent) -> bool {
    e is Quit || e == (InputEvent::KeyDown { key: Key::Escape })
}

/// Whether some event of the batch asks the loop to stop.
pub open spec fn quit_requested(events: Seq<InputEvent>) -> bool {
    exists|i: int| 0 <= i < events.len() && ends_loop(#[trigger] events[i])
}

/// The calls that draw one scheduled pair: activate the pipeline, then draw the
/// geometry.
pub open spec fn pair_calls(program: Program, geometry: GeometryBuffer) -> Seq<Call> {
    seq![Call::UseProgram { program: program.handle() }] + draw_calls(
        geometry.model().array,
        geometry.model().vertex_count,
    )
}

/// The calls that draw the scheduled pairs, in order.
pub open spec fn scene_calls(scene: Seq<(&Program, &GeometryBuffer)>) -> Seq<Call>
    decreases scene.len(),
{
    if scene.len() == 0 {
        seq![]
    } else {
        scene_calls(scene.drop_last()) + pair_calls(*scene.last().0, *scene.last().1)
    }
}

/// The calls of a rendered frame: clear, draw every pair, present.
pub open spec fn frame_calls(scene: Seq<(&Program, &GeometryBuffer)>) -> Seq<Call> {
    seq![Call::ClearColor] + scene_calls(scene) + seq![Call::Present]
}

/// How many calls of `calls` satisfy `p`.
pub open spec fn count_calls(calls: Seq<Call>, p: spec_fn(Call) -> bool) -> nat
    decreases calls.len(),
{
    if calls.len() == 0 {
        0
    } else {
        count_calls(calls.drop_last(), p) + if p(calls.last()) { 1nat } else { 0nat }
    }
}

pub open spec fn is_draw(c: Call) -> bool {
    c is DrawTriangles
}

pub open spec fn is_present(c: Call) -> bool {
    c is Present
}

pub open spec fn is_clear(c: Call) -> bool {
    c is ClearColor
}

/// Counting distributes over concatenation.
pub proof fn lemma_count_concat(a: Seq<Call>, b: Seq<Call>, p: spec_fn(Call) -> bool)
    ensures
        count_calls(a + b, p) == count_calls(a, p) + count_calls(b, p),
    decreases b.len(),
{
    if b.len() > 0 {
        assert((a + b).drop_last() =~= a + b.drop_last());
        assert((a + b).last() == b.last());
        lemma_count_concat(a, b.drop_last(), p);
    } else {
        assert(a + b =~= a);
    }
}

proof fn lemma_count_one(c: Call, p: spec_fn(Call) -> bool)
    ensures
        count_calls(seq![c], p) == if p(c) { 1nat } else { 0nat },
{
    assert(count_calls(Seq::<Call>::empty(), p) == 0);
    assert(seq![c].drop_last() =~= Seq::<Call>::empty());
}

proof fn lemma_count_three(c0: Call, c1: Call, c2: Call, p: spec_fn(Call) -> bool)
    ensures
        count_calls(seq![c0, c1, c2], p) == (if p(c0) { 1nat } else { 0nat }) + (if p(c1) { 1nat } else { 0nat }) + (
        if p(c2) { 1nat } else { 0nat }),
{
    let s2 = seq![c0, c1];
    let s3 = seq![c0, c1, c2];
    lemma_count_one(c0, p);
    assert(s2.drop_last() =~= seq![c0]);
    assert(s3.drop_last() =~= s2);
    assert(count_calls(s2, p) == count_calls(seq![c0], p) + if p(c1) { 1nat } else { 0nat });
    assert(count_calls(s3, p) == count_calls(s2, p) + if p(c2) { 1nat } else { 0nat });
}

proof fn lemma_scene_counts(scene: Seq<(&Program, &GeometryBuffer)>)
    ensures
        count_calls(scene_calls(scene), |c: Call| is_draw(c)) == scene.len(),
        count_calls(scene_calls(scene), |c: Call| is_present(c)) == 0,
        count_calls(scene_calls(scene), |c: Call| is_clear(c)) == 0,
    decreases scene.len(),
{
    if scene.len() > 0 {
        lemma_scene_counts(scene.drop_last());
        let pc = pair_calls(*scene.last().0, *scene.last().1);
        let g = scene.last().1;
        assert(pc =~= seq![
            Call::UseProgram { program: scene.last().0.handle() },
            Call::BindVertexArray { array: g.model().array },
            Call::DrawTriangles { count: g.model().vertex_count },
        ]);
        lemma_count_three(pc[0], pc[1], pc[2], |c: Call| is_draw(c));
        lemma_count_three(pc[0], pc[1], pc[2], |c: Call| is_present(c));
        lemma_count_three(pc[0], pc[1], pc[2], |c: Call| is_clear(c));
        lemma_count_concat(scene_calls(scene.drop_last()), pc, |c: Call| is_draw(c));
        lemma_count_concat(scene_calls(scene.drop_last()), pc, |c: Call| is_present(c));
        lemma_count_concat(scene_calls(scene.drop_last()), pc, |c: Call| is_clear(c));
    }
}

/// A rendered frame starts with the clear and ends with the present; it holds
/// exactly one clear, exactly one draw call per scheduled pair and exactly one
/// present.
pub proof fn lemma_frame_counts(scene: Seq<(&Program, &GeometryBuffer)>)
    ensures
        frame_calls(scene)[0] == Call::ClearColor,
        frame_calls(scene).last() == Call::Present,
        count_calls(frame_calls(scene), |c: Call| is_clear(c)) == 1,
        count_calls(frame_calls(scene), |c: Call| is_draw(c)) == scene.len(),
        count_calls(frame_calls(scene), |c: Call| is_present(c)) == 1,
{
    lemma_scene_counts(scene);
    let first = seq![Call::ClearColor];
    let last = seq![Call::Present];
    let mid = scene_calls(scene);
    lemma_count_one(Call::ClearColor, |c: Call| is_clear(c));
    lemma_count_one(Call::ClearColor, |c: Call| is_draw(c));
    lemma_count_one(Call::ClearColor, |c: Call| is_present(c));
    lemma_count_one(Call::Present, |c: Call| is_clear(c));
    lemma_count_one(Call::Present, |c: Call| is_draw(c));
    lemma_count_one(Call::Present, |c: Call| is_present(c));
    lemma_count_concat(first, mid, |c: Call| is_clear(c));
    lemma_count_concat(first + mid, last, |c: Call| is_clear(c));
    lemma_count_concat(first, mid, |c: Call| is_draw(c));
    lemma_count_concat(first + mid, last, |c: Call| is_draw(c));
    lemma_count_concat(first, mid, |c: Call| is_present(c));
    lemma_count_concat(first + mid, last, |c: Call| is_present(c));
}

/// The cooperative frame loop; it starts running and, once terminated, stays so.
pub struct FrameLoop {
    pub(crate) state: LoopState,
}

impl FrameLoop {
    pub open(crate) spec fn current(&self) -> LoopState {
        self.state
    }

    pub fn new() -> (r: FrameLoop)
        ensures
            r.current() == LoopState::Running,
    {
        FrameLoop { state: LoopState::Running }
    }

    pub fn state(&self) -> (r: LoopState)
        ensures
            r == self.current(),
    {
        self.state
    }

    pub fn is_running(&self) -> (r: bool)
        ensures
            r == (self.current() == LoopState::Running),
    {
        matches!(self.state, LoopState::Running)
    }

    /// One iteration over the events drained for it and the pairs scheduled for
    /// this frame. A quit request or the cancel key ends the loop before any
    /// frame work; otherwise the frame is cleared, each pair drawn, the frame
    /// presented, and the loop keeps running. A terminated loop does nothing.
    pub fn iterate(&mut self, events: &Vec<InputEvent>, scene: &Vec<(&Program, &GeometryBuffer)>) -> (r: Vec<
        NativeCall,
    >)
        ensures
            old(self).current() == LoopState::Terminated ==> final(self).current() == LoopState::Terminated
                && r@.len() == 0,
            old(self).current() == LoopState::Running && quit_requested(events@) ==> final(self).current()
                == LoopState::Terminated && r@.len() == 0,
            old(self).current() == LoopState::Running && !quit_requested(events@) ==> final(self).current()
                == LoopState::Running && calls_model(r@) == frame_calls(scene@),
    {
        if !self.is_running() {
            return Vec::new();
        }
        let mut i: usize = 0;
        while i < events.len()
            invariant
                i <= events@.len(),
                self.current() == LoopState::Running,
                forall|j: int| 0 <= j < i ==> !ends_loop(#[trigger] events@[j]),
            decreases events@.len() - i,
        {
            let e = events[i];
            let stop = match e {
                InputEvent::Quit => true,
                InputEvent::KeyDown { key: Key::Escape } => true,
                _ => false,
            };
            if stop {
                self.state = LoopState::Terminated;
                return Vec::new();
            }
            i = i + 1;
        }
        let mut calls: Vec<NativeCall> = vec![NativeCall::ClearColor];
        assert(calls_model(calls@) =~= seq![Call::ClearColor] + scene_calls(scene@.take(0)));
        let mut k: usize = 0;
        while k < scene.len()
            invariant
                k <= scene@.len(),
                self.current() == LoopState::Running,
                !quit_requested(events@),
                calls_model(calls@) == seq![Call::ClearColor] + scene_calls(scene@.take(k as int)),
            decreases scene@.len() - k,
        {
            let (program, geometry) = scene[k];
            let c1 = program.set_used();
            let mut drawn = geometry.draw();
            let ghost before = calls@;
            let ghost d = drawn@;
            calls.push(c1);
            calls.append(&mut drawn);
            proof {
                let taken = scene@.take(k + 1);
                assert(taken.drop_last() =~= scene@.take(k as int));
                assert(taken.last() == scene@[k as int]);
                assert(calls@ =~= before.push(c1) + d);
                lemma_calls_model_push(before, c1);
                assert(calls_model(before.push(c1) + d) =~= calls_model(before.push(c1)) + calls_model(d));
                assert(calls_model(calls@) =~= seq![Call::ClearColor] + scene_calls(taken));
            }
            k = k + 1;
        }
        assert(scene@.take(k as int) =~= scene@);
        let c = NativeCall::Present;
        proof {
            lemma_calls_model_push(calls@, c);
        }
        calls.push(c);
        calls
    }
}

} // verus!
