use vstd::prelude::*;
use crate::shader::ShaderStage;

verus! {

/// Index that marks a shader slot of a group as unused.
pub const SHADER_UNUSED: u32 = 0xFFFF_FFFFu32;

/// A shader group of a ray tracing pipeline, by indices into the pipeline's shaders.
#[derive(Clone, Copy, Debug, PartialEq, Eq)]
pub enum RayTracingShaderGroupInfo {
    Raygen { raygen: u32 },
    Miss { miss: u32 },
    Triangles { any_hit: Option<u32>, closest_hit: Option<u32> },
}

/// The kind of a shader group as the driver receives it.
#[derive(Clone, Copy, Debug, PartialEq, Eq, Structural)]
pub enum RayTracingShaderGroupType {
    General,
    TrianglesHitGroup,
}

/// A shader group as the driver receives it: its kind and the index of each shader,
/// `SHADER_UNUSED` for a slot without a shader.
#[derive(Clone, Copy, Debug, PartialEq, Eq, Structural)]
pub struct RayTracingGroupPlan {
    pub ty: RayTracingShaderGroupType,
    pub general_shader: u32,
    pub any_hit_shader: u32,
    pub closest_hit_shader: u32,
    pub intersection_shader: u32,
}

/// `index` names a shader of `stages` at stage `stage`.
pub open spec fn names_shader(stages: Seq<ShaderStage>, index: u32, stage: ShaderStage) -> bool {
    index != SHADER_UNUSED && index < stages.len() && stages[index as int] == stage
}

/// Every shader index of `group` names a shader of `stages` of the stage its slot takes.
pub open spec fn group_valid(stages: Seq<ShaderStage>, group: RayTracingShaderGroupInfo) -> bool {
    match group {
        RayTracingShaderGroupInfo::Raygen { raygen } => names_shader(stages, raygen, ShaderStage::Raygen),
        RayTracingShaderGroupInfo::Miss { miss } => names_shader(stages, miss, ShaderStage::Miss),
        RayTracingShaderGroupInfo::Triangles { any_hit, closest_hit } => {
            &&& (any_hit matches Some(i) ==> names_shader(stages, i, ShaderStage::AnyHit))
            &&& (closest_hit matches Some(i) ==> names_shader(stages, i, ShaderStage::ClosestHit))
        },
    }
}

/// The driver's form of `group`.
pub open spec fn spec_group_plan(group: RayTracingShaderGroupInfo) -> RayTracingGroupPlan {
    match group {
        RayTracingShaderGroupInfo::Raygen { raygen } => RayTracingGroupPlan {
            ty: RayTracingShaderGroupType::General,
            general_shader: raygen,
            any_hit_shader: SHADER_UNUSED,
            closest_hit_shader: SHADER_UNUSED,
            intersection_shader: SHADER_UNUSED,
        },
        RayTracingShaderGroupInfo::Miss { miss } => RayTracingGroupPlan {
            ty: RayTracingShaderGroupType::General,
            general_shader: miss,
            any_hit_shader: SHADER_UNUSED,
            closest_hit_shader: SHADER_UNUSED,
            intersection_shader: SHADER_UNUSED,
        },
        RayTracingShaderGroupInfo::Triangles { any_hit, closest_hit } => RayTracingGroupPlan {
            ty: RayTracingShaderGroupType::TrianglesHitGroup,
            general_shader: SHADER_UNUSED,
            any_hit_shader: match any_hit {
                Some(i) => i,
                None => SHADER_UNUSED,
            },
            closest_hit_shader: match closest_hit {
                Some(i) => i,
                None => SHADER_UNUSED,
            },
            intersection_shader: SHADER_UNUSED,
        },
    }
}

fn shader_named(stages: &[ShaderStage], index: u32, stage: ShaderStage) -> (r: bool)
    ensures
        r == names_shader(stages@, index, stage),
{
    if index == SHADER_UNUSED {
        return false;
    }
    if (index as usize) < stages.len() {
        stages[index as usize] == stage
    } else {
        false
    }
}

/// Whether every shader index of `group` names a shader of `stages` of the right stage.
pub fn shader_group_valid(stages: &[ShaderStage], group: &RayTracingShaderGroupInfo) -> (r: bool)
    ensures
        r == group_valid(stages@, *group),
{
    match *group {
        RayTracingShaderGroupInfo::Raygen { raygen } => shader_named(stages, raygen, ShaderStage::Raygen),
        RayTracingShaderGroupInfo::Miss { miss } => shader_named(stages, miss, ShaderStage::Miss),
        RayTracingShaderGroupInfo::Triangles { any_hit, closest_hit } => {
            let any_ok = match any_hit {
                Some(i) => shader_named(stages, i, ShaderStage::AnyHit),
                None => true,
            };
            let closest_ok = match closest_hit {
                Some(i) => shader_named(stages, i, ShaderStage::ClosestHit),
                None => true,
            };
            any_ok && closest_ok
        },
    }
}

/// The driver's form of each shader group, in order. Every group must name shaders of
/// `stages` of the stages its slots take.
pub fn ray_tracing_groups(stages: &[ShaderStage], groups: &[RayTracingShaderGroupInfo]) -> (r: Vec<
    RayTracingGroupPlan,
>)
    requires
        forall|i: int| 0 <= i < groups@.len() ==> group_valid(stages@, #[trigger] groups@[i]),
    ensures
        r@.len() == groups@.len(),
        forall|i: int| 0 <= i < groups@.len() ==> #[trigger] r@[i] == spec_group_plan(groups@[i]),
{
    let mut plans: Vec<RayTracingGroupPlan> = Vec::new();
    let mut i: usize = 0;
    while i < groups.len()
        invariant
            i <= groups@.len(),
            plans@.len() == i,
            forall|j: int| 0 <= j < i ==> #[trigger] plans@[j] == spec_group_plan(groups@[j]),
        decreases groups@.len() - i,
    {
        let plan = match groups[i] {
            RayTracingShaderGroupInfo::Raygen { raygen } => RayTracingGroupPlan {
                ty: RayTracingShaderGroupType::General,
                general_shader: raygen,
                any_hit_shader: SHADER_UNUSED,
                closest_hit_shader: SHADER_UNUSED,
                intersection_shader: SHADER_UNUSED,
            },
            RayTracingShaderGroupInfo::Miss { miss } => RayTracingGroupPlan {
                ty: RayTracingShaderGroupType::General,
                general_shader: miss,
                any_hit_shader: SHADER_UNUSED,
                closest_hit_shader: SHADER_UNUSED,
                intersection_shader: SHADER_UNUSED,
            },
            RayTracingShaderGroupInfo::Triangles { any_hit, closest_hit } => RayTracingGroupPlan {
                ty: RayTracingShaderGroupType::TrianglesHitGroup,
                general_shader: SHADER_UNUSED,
                any_hit_shader: match any_hit {
                    Some(i) => i,
                    None => SHADER_UNUSED,
                },
                closest_hit_shader: match closest_hit {
                    Some(i) => i,
                    None => SHADER_UNUSED,
                },
                intersection_shader: SHADER_UNUSED,
            },
        };
        plans.push(plan);
        i = i + 1;
    }
    plans
}

/// Every shader index that a planned group uses names a shader of `stages` of the stage
/// of its slot; general groups use only their general slot and hit groups never use it.
pub proof fn lemma_planned_groups_name_shaders(stages: Seq<ShaderStage>, group: RayTracingShaderGroupInfo)
    requires
        group_valid(stages, group),
    ensures
        ({
            let p = spec_group_plan(group);
            &&& p.intersection_shader == SHADER_UNUSED
            &&& p.ty == RayTracingShaderGroupType::General ==> p.general_shader < stages.len()
                && p.any_hit_shader == SHADER_UNUSED && p.closest_hit_shader == SHADER_UNUSED
            &&& p.ty == RayTracingShaderGroupType::TrianglesHitGroup ==> p.general_shader == SHADER_UNUSED
            &&& p.any_hit_shader != SHADER_UNUSED ==> names_shader(stages, p.any_hit_shader, ShaderStage::AnyHit)
            &&& p.closest_hit_shader != SHADER_UNUSED ==> names_shader(stages, p.closest_hit_shader, ShaderStage::ClosestHit)
        }),
{
}


/// A planned group names exactly the shaders its group gives, each in its own slot and
/// independently of the others: a raygen or miss group its one shader as the general
/// shader, a triangles hit group its any-hit and closest-hit shaders (each unused when
/// the group has none); every other slot is unused.
pub proof fn lemma_group_plan_names_given_shaders(group: RayTracingShaderGroupInfo)
    ensures
        ({
            let p = spec_group_plan(group);
            &&& p.intersection_shader == SHADER_UNUSED
            &&& (group matches RayTracingShaderGroupInfo::Raygen { raygen } ==> p.ty
                == RayTracingShaderGroupType::General && p.general_shader == raygen && p.any_hit_shader
                == SHADER_UNUSED && p.closest_hit_shader == SHADER_UNUSED)
            &&& (group matches RayTracingShaderGroupInfo::Miss { miss } ==> p.ty
                == RayTracingShaderGroupType::General && p.general_shader == miss && p.any_hit_shader
                == SHADER_UNUSED && p.closest_hit_shader == SHADER_UNUSED)
            &&& (group matches RayTracingShaderGroupInfo::Triangles { any_hit, closest_hit } ==> {
                &&& p.ty == RayTracingShaderGroupType::TrianglesHitGroup
                &&& p.general_shader == SHADER_UNUSED
                &&& (any_hit matches Some(i) ==> p.any_hit_shader == i)
                &&& (any_hit is None ==> p.any_hit_shader == SHADER_UNUSED)
                &&& (closest_hit matches Some(i) ==> p.closest_hit_shader == i)
                &&& (closest_hit is None ==> p.closest_hit_shader == SHADER_UNUSED)
            })
        }),
{
}

} // verus!
