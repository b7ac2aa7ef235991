use vstd::prelude::*;

verus! {

/// An opaque colour, eight bits per channel.
#[derive(Clone, Copy, Debug, PartialEq, Eq, Structural)]
pub struct Rgba {
    pub r: u8,
    pub g: u8,
    pub b: u8,
    pub a: u8,
}

/// One step of the work recorded and submitted for a frame.
#[derive(Clone, Copy, Debug, PartialEq, Eq, Structural)]
pub enum RenderCommand {
    /// Begin a render pass on the frame's image, cleared to `clear`.
    BeginPass { clear: Rgba },
    SetPipeline,
    /// A non-indexed draw.
    Draw { vertices: u32, instances: u32 },
    EndPass,
    Submit,
    Present,
}

/// What one frame draws: a pass cleared to `clear`, then one draw.
#[derive(Clone, Copy, Debug, PartialEq, Eq, Structural)]
pub struct FramePlan {
    pub clear: Rgba,
    pub vertices: u32,
    pub instances: u32,
}

/// The colour every frame is cleared to: opaque green.
pub open spec fn background_spec() -> Rgba {
    Rgba { r: 0, g: 255, b: 0, a: 255 }
}

/// The plan of every frame: the background colour, then the triangle, three
/// vertices of one instance.
pub open spec fn frame_plan_spec() -> FramePlan {
    FramePlan { clear: background_spec(), vertices: 3, instances: 1 }
}

/// The commands that carry out `p`, in order.
pub open spec fn commands_spec(p: FramePlan) -> Seq<RenderCommand> {
    seq![
        RenderCommand::BeginPass { clear: p.clear },
        RenderCommand::SetPipeline,
        RenderCommand::Draw { vertices: p.vertices, instances: p.instances },
        RenderCommand::EndPass,
        RenderCommand::Submit,
        RenderCommand::Present,
    ]
}

pub fn background() -> (r: Rgba)
    ensures
        r == background_spec(),
{
    Rgba { r: 0, g: 255, b: 0, a: 255 }
}

impl FramePlan {
    /// The plan that every frame follows.
    pub fn standard() -> (r: FramePlan)
        ensures
            r == frame_plan_spec(),
    {
        FramePlan { clear: background(), vertices: 3, instances: 1 }
    }

    /// The commands that carry out this plan: one pass, one draw, one
    /// submission, then the frame is presented.
    pub fn commands(&self) -> (r: Vec<RenderCommand>)
        ensures
            r@ == commands_spec(*self),
    {
        let mut v: Vec<RenderCommand> = Vec::new();
        v.push(RenderCommand::BeginPass { clear: self.clear });
        v.push(RenderCommand::SetPipeline);
        v.push(RenderCommand::Draw { vertices: self.vertices, instances: self.instances });
        v.push(RenderCommand::EndPass);
        v.push(RenderCommand::Submit);
        v.push(RenderCommand::Present);
        proof {
            assert(v@ =~= commands_spec(*self));
        }
        v
    }
}

/// A frame's commands open with a pass cleared to the background colour, and
/// before the frame is presented exactly one draw is issued, of three
/// vertices and one instance; the frame is presented once, last.
pub proof fn lemma_frame_draws_once()
    ensures
        ({
            let cmds = commands_spec(frame_plan_spec());
            &&& cmds[0] == RenderCommand::BeginPass { clear: background_spec() }
            &&& cmds.last() == RenderCommand::Present
            &&& forall|i: int| 0 <= i < cmds.len() - 1 ==> cmds[i] != RenderCommand::Present
            &&& cmds[2] == RenderCommand::Draw { vertices: 3, instances: 1 }
            &&& forall|i: int|
                #![trigger cmds[i]]
                0 <= i < cmds.len() && (cmds[i] is Draw) ==> i == 2
        }),
{
    let cmds = commands_spec(frame_plan_spec());
    assert(cmds.len() == 6);
    assert forall|i: int| 0 <= i < cmds.len() && (cmds[i] is Draw) implies i == 2 by {
        if i != 2 {
            assert(cmds[i] !is Draw);
        }
    }
}

} // verus!
