use sierra::encode::{Command, Encoder};
use sierra::shader::ShaderStageFlags;
use sierra::vulkan::epochs::References;
use sierra::vulkan::pipeline::{dynamic_states, DynamicState, RasterizerDynamics, StencilDynamics};
use sierra::vulkan::shader_module::{check_spirv, InvalidShader, SPIRV_MAGIC};

#[test]
fn spirv_checks_in_order() {
    assert_eq!(check_spirv(&[]), Err(InvalidShader::EmptySource));
    assert_eq!(check_spirv(&[3, 2, 0x23]), Err(InvalidShader::SizeIsNotMultipleOfFour));
    assert_eq!(check_spirv(&[1, 0, 0, 0]), Err(InvalidShader::WrongMagic { found: 1 }));
    let module = [0x03, 0x02, 0x23, 0x07, 0x00, 0x00, 0x01, 0x00];
    assert_eq!(check_spirv(&module), Ok(vec![SPIRV_MAGIC, 0x0001_0000]));
}

#[test]
fn dynamic_states_in_build_order() {
    let none = StencilDynamics { compare_mask: false, write_mask: false, reference: false };
    let all = StencilDynamics { compare_mask: true, write_mask: true, reference: true };
    let r = RasterizerDynamics {
        viewport: true,
        scissor: false,
        depth_bounds: true,
        stencil: Some((StencilDynamics { reference: true, ..none }, all)),
        blend_constants: true,
    };
    assert_eq!(
        dynamic_states(&r),
        vec![
            DynamicState::Viewport,
            DynamicState::DepthBounds,
            DynamicState::StencilReference,
            DynamicState::StencilCompareMask,
            DynamicState::StencilWriteMask,
            DynamicState::StencilReference,
            DynamicState::BlendConstants,
        ]
    );
    let r = RasterizerDynamics { viewport: false, scissor: true, depth_bounds: false, stencil: None, blend_constants: false };
    assert_eq!(dynamic_states(&r), vec![DynamicState::Scissor]);
    assert_eq!(DynamicState::StencilReference.vk_code(), 8);
    assert_eq!(DynamicState::BlendConstants.vk_code(), 4);
}

#[test]
fn encoder_records_bindings_and_copies() {
    let mut e = Encoder::new(true, true);
    e.set_scissor(1, 2, 30, 40);
    e.bind_graphics_descriptor_sets(5, 1, &[10, 11], &[256]);
    e.bind_compute_descriptor_sets(6, 0, &[12], &[]);
    e.push_constants(5, ShaderStageFlags::all(), 0, &[1, 2, 3, 4]);
    e.copy_image(20, 6, 21, 7, &[]);
    e.copy_buffer_to_image(30, 21, 7, &[]);
    let commands = e.finish();
    assert_eq!(commands.len(), 6);
    assert_eq!(commands[0], Command::SetScissor { x: 1, y: 2, width: 30, height: 40 });
    let mut refs = References::new();
    for c in &commands {
        refs.record_command(c);
    }
    assert!(!refs.is_empty());
    refs.clear();
    refs.record_command(&commands[0]);
    assert!(refs.is_empty());
}
