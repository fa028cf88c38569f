use vstd::prelude::*;
use crate::command::GlCommand;
use crate::error::RenderError;
use crate::geometry::VertexBuffer;
use crate::shader::{link_outcome, ShaderProgram};
use crate::window::{event_command, handle_window_event, window_after, WindowEvent, WindowState};

verus! {

/// Where the frame loop stands.
#[derive(Clone, Copy, Debug, PartialEq, Eq, Structural)]
pub enum LoopPhase {
    /// Rendering a frame per iteration.
    Running,
    /// A close was observed; teardown is due.
    Closing,
    /// Teardown is done; the loop has ended.
    Terminated,
}

/// The render loop's state: the window, the phase, and the program and
/// geometry it draws with. Both exist before the loop does, so no draw can
/// precede them.
#[derive(Clone, Copy, Debug, PartialEq, Eq, Structural)]
pub struct FrameLoop {
    pub window: WindowState,
    pub phase: LoopPhase,
    pub program: ShaderProgram,
    pub buffer: VertexBuffer,
}

/// The window state after a run of events, applied in order.
pub open spec fn window_after_events(w: WindowState, evs: Seq<WindowEvent>) -> WindowState
    decreases evs.len(),
{
    if evs.len() == 0 {
        w
    } else {
        window_after(window_after_events(w, evs.drop_last()), evs.last())
    }
}

/// The commands a run of events asks for, in order.
pub open spec fn event_commands(evs: Seq<WindowEvent>) -> Seq<GlCommand>
    decreases evs.len(),
{
    if evs.len() == 0 {
        seq![]
    } else {
        match event_command(evs.last()) {
            Some(c) => event_commands(evs.drop_last()).push(c),
            None => event_commands(evs.drop_last()),
        }
    }
}

/// The commands that render and present one frame: clear, bind the program
/// and the vertex array, draw every vertex once, unbind, present.
pub open spec fn render_commands(program: ShaderProgram, buffer: VertexBuffer) -> Seq<GlCommand> {
    seq![
        GlCommand::ClearColorBuffer,
        GlCommand::UseProgram(program.handle),
        GlCommand::BindVertexArray(buffer.vao),
        GlCommand::DrawTriangles { first: 0, count: buffer.vertex_count },
        GlCommand::BindVertexArray(0),
        GlCommand::Present,
    ]
}

/// The commands that release the loop's objects, in order: vertex array,
/// buffer, program.
pub open spec fn teardown_commands(program: ShaderProgram, buffer: VertexBuffer) -> Seq<GlCommand> {
    seq![
        GlCommand::DeleteVertexArray(buffer.vao),
        GlCommand::DeleteBuffer(buffer.vbo),
        GlCommand::DeleteProgram(program.handle),
    ]
}

/// The loop after one iteration over a batch of drained events.
pub open spec fn loop_after_frame(s: FrameLoop, evs: Seq<WindowEvent>) -> FrameLoop {
    if s.phase != LoopPhase::Running {
        s
    } else {
        let w = window_after_events(s.window, evs);
        FrameLoop {
            window: w,
            phase: if w.should_close {
                LoopPhase::Closing
            } else {
                LoopPhase::Running
            },
            ..s
        }
    }
}

/// The commands of one iteration: those the events ask for, then a rendered
/// and presented frame unless a close was observed.
pub open spec fn frame_commands(s: FrameLoop, evs: Seq<WindowEvent>) -> Seq<GlCommand> {
    if s.phase != LoopPhase::Running {
        seq![]
    } else if window_after_events(s.window, evs).should_close {
        event_commands(evs)
    } else {
        event_commands(evs) + render_commands(s.program, s.buffer)
    }
}

/// The loop after a shutdown request.
pub open spec fn loop_after_shutdown(s: FrameLoop) -> FrameLoop {
    if s.phase == LoopPhase::Closing {
        FrameLoop { phase: LoopPhase::Terminated, ..s }
    } else {
        s
    }
}

/// The commands of a shutdown request: the teardown, only while closing.
pub open spec fn shutdown_commands(s: FrameLoop) -> Seq<GlCommand> {
    if s.phase == LoopPhase::Closing {
        teardown_commands(s.program, s.buffer)
    } else {
        seq![]
    }
}

impl FrameLoop {
    /// A running loop over a live program and uploaded geometry.
    pub fn new(window: WindowState, program: ShaderProgram, buffer: VertexBuffer) -> (r: FrameLoop)
        ensures
            r == (FrameLoop { window, phase: LoopPhase::Running, program, buffer }),
    {
        FrameLoop { window, phase: LoopPhase::Running, program, buffer }
    }

    /// Whether the loop still renders frames.
    pub fn is_running(&self) -> (r: bool)
        ensures
            r == (self.phase == LoopPhase::Running),
    {
        matches!(self.phase, LoopPhase::Running)
    }

    /// Whether the loop has ended.
    pub fn is_terminated(&self) -> (r: bool)
        ensures
            r == (self.phase == LoopPhase::Terminated),
    {
        matches!(self.phase, LoopPhase::Terminated)
    }

    /// One iteration: dispatches every drained event in order, then either
    /// moves to closing, or renders and presents a frame. Outside the
    /// running phase it does nothing.
    pub fn frame(&mut self, events: &Vec<WindowEvent>) -> (r: Vec<GlCommand>)
        ensures
            *final(self) == loop_after_frame(*old(self), events@),
            r@ == frame_commands(*old(self), events@),
    {
        let mut cmds: Vec<GlCommand> = Vec::new();
        if !self.is_running() {
            return cmds;
        }
        let mut w = self.window;
        let n = events.len();
        let mut i: usize = 0;
        while i < n
            invariant
                n == events@.len(),
                i <= n,
                w == window_after_events(old(self).window, events@.take(i as int)),
                cmds@ == event_commands(events@.take(i as int)),
            decreases n - i,
        {
            let e = events[i];
            let c = handle_window_event(&mut w, e);
            match c {
                Some(c) => cmds.push(c),
                None => {},
            }
            assert(events@.take(i + 1).drop_last() =~= events@.take(i as int));
            i = i + 1;
        }
        assert(events@.take(n as int) =~= events@);
        self.window = w;
        if w.should_close {
            self.phase = LoopPhase::Closing;
        } else {
            cmds.push(GlCommand::ClearColorBuffer);
            cmds.push(GlCommand::UseProgram(self.program.handle));
            cmds.push(GlCommand::BindVertexArray(self.buffer.vao));
            cmds.push(GlCommand::DrawTriangles { first: 0, count: self.buffer.vertex_count });
            cmds.push(GlCommand::BindVertexArray(0));
            cmds.push(GlCommand::Present);
            assert(cmds@ =~= event_commands(events@) + render_commands(self.program, self.buffer));
        }
        cmds
    }

    /// Tears down the loop's objects once a close has been observed, and
    /// ends the loop. In any other phase it does nothing.
    pub fn shutdown(&mut self) -> (r: Vec<GlCommand>)
        ensures
            *final(self) == loop_after_shutdown(*old(self)),
            r@ == shutdown_commands(*old(self)),
    {
        if matches!(self.phase, LoopPhase::Closing) {
            self.phase = LoopPhase::Terminated;
            let r = vec![
                GlCommand::DeleteVertexArray(self.buffer.vao),
                GlCommand::DeleteBuffer(self.buffer.vbo),
                GlCommand::DeleteProgram(self.program.handle),
            ];
            assert(r@ =~= teardown_commands(self.program, self.buffer));
            r
        } else {
            Vec::new()
        }
    }
}

/// Events only ever ask for viewport updates.
proof fn lemma_event_commands_are_viewports(evs: Seq<WindowEvent>)
    ensures
        forall|k: int|
            0 <= k < event_commands(evs).len() ==> (#[trigger] event_commands(evs)[k] is Viewport),
    decreases evs.len(),
{
    if evs.len() > 0 {
        lemma_event_commands_are_viewports(evs.drop_last());
    }
}

/// No iteration presents a frame once a close has been observed: not the
/// iteration that observes it, which moves the loop out of the running
/// phase, nor any later one.
pub proof fn lemma_no_present_after_close(s: FrameLoop, evs: Seq<WindowEvent>)
    ensures
        loop_after_frame(s, evs).window.should_close ==> !frame_commands(s, evs).contains(
            GlCommand::Present,
        ),
        loop_after_frame(s, evs).window.should_close ==> loop_after_frame(s, evs).phase
            != LoopPhase::Running,
        s.phase != LoopPhase::Running ==> frame_commands(s, evs) == Seq::<GlCommand>::empty(),
{
    lemma_event_commands_are_viewports(evs);
    if loop_after_frame(s, evs).window.should_close && s.phase == LoopPhase::Running {
        if frame_commands(s, evs).contains(GlCommand::Present) {
            let k = choose|k: int|
                0 <= k < frame_commands(s, evs).len() && frame_commands(s, evs)[k]
                    == GlCommand::Present;
            assert(event_commands(evs)[k] is Viewport);
        }
    }
}

/// Once closing, a shutdown runs the teardown (vertex array, buffer,
/// program) and ends the loop; after that, neither another shutdown nor
/// another iteration issues any command, so the teardown runs exactly once.
pub proof fn lemma_teardown_runs_once(s: FrameLoop, evs: Seq<WindowEvent>)
    requires
        s.phase == LoopPhase::Closing,
    ensures
        shutdown_commands(s) == teardown_commands(s.program, s.buffer),
        loop_after_shutdown(s).phase == LoopPhase::Terminated,
        shutdown_commands(loop_after_shutdown(s)) == Seq::<GlCommand>::empty(),
        frame_commands(loop_after_shutdown(s), evs) == Seq::<GlCommand>::empty(),
        loop_after_shutdown(loop_after_shutdown(s)) == loop_after_shutdown(s),
        loop_after_frame(loop_after_shutdown(s), evs) == loop_after_shutdown(s),
{
}

/// A successfully linked program is the one every rendered frame makes
/// active, with no further check: the frame binds it before drawing.
pub proof fn lemma_linked_program_is_bound_each_frame(
    program: u32,
    log: Seq<u8>,
    r: Result<ShaderProgram, RenderError>,
    window: WindowState,
    buffer: VertexBuffer,
    evs: Seq<WindowEvent>,
)
    requires
        link_outcome(program, true, log, r),
        !window_after_events(window, evs).should_close,
    ensures
        (r == Ok::<ShaderProgram, RenderError>(ShaderProgram { handle: program })),
        (frame_commands(
            FrameLoop { window, phase: LoopPhase::Running, program: ShaderProgram { handle: program }, buffer },
            evs,
        ) == event_commands(evs) + render_commands(ShaderProgram { handle: program }, buffer)),
        (render_commands(ShaderProgram { handle: program }, buffer)[1] == GlCommand::UseProgram(program)),
        (render_commands(ShaderProgram { handle: program }, buffer)[3] == GlCommand::DrawTriangles {
            first: 0,
            count: buffer.vertex_count,
        }),
{
}

} // verus!
