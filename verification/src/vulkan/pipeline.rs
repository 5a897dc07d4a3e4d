use vstd::prelude::*;

verus! {

/// Pipeline state that is set by commands rather than fixed in the pipeline.
#[derive(Clone, Copy, Debug, PartialEq, Eq, Structural)]
pub enum DynamicState {
    Viewport,
    Scissor,
    BlendConstants,
    DepthBounds,
    StencilCompareMask,
    StencilWriteMask,
    StencilReference,
}

/// The Vulkan code of a dynamic state.
pub open spec fn spec_dynamic_state_code(s: DynamicState) -> i32 {
    match s {
        DynamicState::Viewport => 0,
        DynamicState::Scissor => 1,
        DynamicState::BlendConstants => 4,
        DynamicState::DepthBounds => 5,
        DynamicState::StencilCompareMask => 6,
        DynamicState::StencilWriteMask => 7,
        DynamicState::StencilReference => 8,
    }
}

impl DynamicState {
    /// The Vulkan code of this dynamic state.
    pub fn vk_code(&self) -> (r: i32)
        ensures
            r == spec_dynamic_state_code(*self),
    {
        match self {
            DynamicState::Viewport => 0,
            DynamicState::Scissor => 1,
            DynamicState::BlendConstants => 4,
            DynamicState::DepthBounds => 5,
            DynamicState::StencilCompareMask => 6,
            DynamicState::StencilWriteMask => 7,
            DynamicState::StencilReference => 8,
        }
    }
}

/// Which parts of the stencil state of one face are dynamic.
#[derive(Clone, Copy, Debug, PartialEq, Eq)]
pub struct StencilDynamics {
    pub compare_mask: bool,
    pub write_mask: bool,
    pub reference: bool,
}

/// Which parts of a rasterizer's state are dynamic: the viewport and the scissor; the
/// depth bounds when the depth bounds test is on; the stencil state of each face when
/// the stencil test is on; and the blend constants when blending is used.
#[derive(Clone, Copy, Debug, PartialEq, Eq)]
pub struct RasterizerDynamics {
    pub viewport: bool,
    pub scissor: bool,
    pub depth_bounds: bool,
    pub stencil: Option<(StencilDynamics, StencilDynamics)>,
    pub blend_constants: bool,
}

/// The dynamic states of one stencil face, in order.
pub open spec fn spec_stencil_states(f: StencilDynamics) -> Seq<DynamicState> {
    (if f.compare_mask { seq![DynamicState::StencilCompareMask] } else { Seq::empty() })
        + (if f.write_mask { seq![DynamicState::StencilWriteMask] } else { Seq::empty() })
        + (if f.reference { seq![DynamicState::StencilReference] } else { Seq::empty() })
}

/// The dynamic states of a graphics pipeline, in the order the pipeline's state is
/// built: viewport, scissor, depth bounds, the front then the back stencil face, blend
/// constants. A state dynamic on both stencil faces is listed for each.
pub open spec fn spec_dynamic_states(r: RasterizerDynamics) -> Seq<DynamicState> {
    (if r.viewport { seq![DynamicState::Viewport] } else { Seq::empty() })
        + (if r.scissor { seq![DynamicState::Scissor] } else { Seq::empty() })
        + (if r.depth_bounds { seq![DynamicState::DepthBounds] } else { Seq::empty() })
        + (match r.stencil {
        Some((front, back)) => spec_stencil_states(front) + spec_stencil_states(back),
        None => Seq::empty(),
    }) + (if r.blend_constants { seq![DynamicState::BlendConstants] } else { Seq::empty() })
}

fn push_when(states: &mut Vec<DynamicState>, cond: bool, s: DynamicState)
    ensures
        final(states)@ == old(states)@ + (if cond { seq![s] } else { Seq::empty() }),
{
    if cond {
        states.push(s);
    }
    assert(states@ =~= old(states)@ + (if cond { seq![s] } else { Seq::<DynamicState>::empty() }));
}

fn push_stencil(states: &mut Vec<DynamicState>, f: &StencilDynamics)
    ensures
        final(states)@ == old(states)@ + spec_stencil_states(*f),
{
    let ghost start = states@;
    push_when(states, f.compare_mask, DynamicState::StencilCompareMask);
    push_when(states, f.write_mask, DynamicState::StencilWriteMask);
    push_when(states, f.reference, DynamicState::StencilReference);
    assert(states@ =~= start + spec_stencil_states(*f));
}

/// The dynamic states of a graphics pipeline with a rasterizer whose dynamic parts are `r`.
pub fn dynamic_states(r: &RasterizerDynamics) -> (s: Vec<DynamicState>)
    ensures
        s@ == spec_dynamic_states(*r),
{
    let mut states: Vec<DynamicState> = Vec::new();
    push_when(&mut states, r.viewport, DynamicState::Viewport);
    push_when(&mut states, r.scissor, DynamicState::Scissor);
    push_when(&mut states, r.depth_bounds, DynamicState::DepthBounds);
    let ghost mid = states@;
    match &r.stencil {
        Some((front, back)) => {
            push_stencil(&mut states, front);
            push_stencil(&mut states, back);
            assert(states@ =~= mid + (spec_stencil_states(*front) + spec_stencil_states(*back)));
        },
        None => {
            assert(states@ =~= mid + Seq::<DynamicState>::empty());
        },
    }
    push_when(&mut states, r.blend_constants, DynamicState::BlendConstants);
    assert(states@ =~= spec_dynamic_states(*r));
    states
}

} // verus!
