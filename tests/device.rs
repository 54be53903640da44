use lumen::device::{
    QueueCreateInfo, QueueFamily, QueueFamilyIndices, get_suitable_memory_type_index, is_gpu,
    is_suitable, select_queue_family_indices, supports_extensions,
    supports_graphics_and_presentation,
};
use lumen::shader_interface::{
    DescriptorType, Format, NumericTraits, ShaderStage, VertexAttribute,
    build_descriptor_set_layout_bindings, descriptor_type_to_vulkan_descriptor_type,
    format_to_vulkan_format, get_vertex_attribute_descriptions,
    get_vertex_input_binding_description, shader_stage_to_vulkan_shader_stage,
    size_of_reflect_numeric_trait,
};
use lumen::surface::{
    Extent2D, SurfaceFormat, get_initial_extent, get_min_image_count,
    get_preferred_image_format, get_preferred_present_mode,
};
use lumen::{super_dark_sum, truncate_optional_usize_to_optional_u32};

#[test]
fn truncation_keeps_small_indices() {
    assert_eq!(truncate_optional_usize_to_optional_u32(Some(3)), Some(3));
    assert_eq!(truncate_optional_usize_to_optional_u32(None), None);
}

#[test]
fn queue_families_are_chosen_by_role() {
    let families = vec![
        QueueFamily { queue_flags: 1 | 2 | 4, queue_count: 1 },
        QueueFamily { queue_flags: 4, queue_count: 0 },
        QueueFamily { queue_flags: 4 | 8, queue_count: 2 },
        QueueFamily { queue_flags: 2 | 4, queue_count: 1 },
    ];
    let q = select_queue_family_indices(&families);
    assert_eq!(
        q,
        QueueFamilyIndices { graphics_: None, graphics_compute_: Some(0), compute_: Some(3), transfer_: Some(2) }
    );
    assert_eq!(
        q.make_device_queue_create_infos(),
        vec![
            QueueCreateInfo { queue_family_index: 0, queue_count: 1 },
            QueueCreateInfo { queue_family_index: 3, queue_count: 1 },
            QueueCreateInfo { queue_family_index: 2, queue_count: 1 },
        ]
    );
    assert_eq!(
        QueueFamilyIndices::new(Some(1), None, None, Some(4)).make_device_queue_create_infos(),
        vec![
            QueueCreateInfo { queue_family_index: 1, queue_count: 1 },
            QueueCreateInfo { queue_family_index: 4, queue_count: 1 },
        ]
    );
}

#[test]
fn memory_type_is_first_allowed_with_all_properties() {
    let types = vec![0b110, 0b001, 0b111, 0b111];
    assert_eq!(get_suitable_memory_type_index(0b1111, &types, 0b011), Some(2));
    assert_eq!(get_suitable_memory_type_index(0b1011, &types, 0b011), Some(3));
    assert_eq!(get_suitable_memory_type_index(0b0011, &types, 0b011), None);
}

#[test]
fn device_suitability() {
    assert!(is_gpu(1) && is_gpu(2) && is_gpu(3));
    assert!(!is_gpu(0) && !is_gpu(4));
    let families = vec![QueueFamily { queue_flags: 2, queue_count: 1 }];
    assert!(!supports_graphics_and_presentation(&families));
    let gfx = vec![QueueFamily { queue_flags: 3, queue_count: 1 }];
    assert!(supports_graphics_and_presentation(&gfx));
    let available = vec![b"VK_KHR_swapchain".to_vec(), b"VK_KHR_maintenance1".to_vec()];
    let required = vec![b"VK_KHR_swapchain".to_vec()];
    let missing = vec![b"VK_KHR_swapchain".to_vec(), b"VK_KHR_ray".to_vec()];
    assert!(supports_extensions(&available, &required));
    assert!(!supports_extensions(&available, &missing));
    assert!(is_suitable(2, &gfx, &available, &required));
    assert!(!is_suitable(4, &gfx, &available, &required));
}

#[test]
fn extent_is_current_or_clamped_default() {
    let min = Extent2D { width: 100, height: 100 };
    let max = Extent2D { width: 1000, height: 500 };
    let current = Extent2D { width: 640, height: 480 };
    let default = Extent2D { width: 1920, height: 50 };
    assert_eq!(get_initial_extent(current, min, max, default), current);
    let unknown = Extent2D { width: u32::MAX, height: u32::MAX };
    assert_eq!(
        get_initial_extent(unknown, min, max, default),
        Extent2D { width: 1000, height: 100 }
    );
    let inside = Extent2D { width: 300, height: 200 };
    assert_eq!(get_initial_extent(unknown, min, max, inside), inside);
}

#[test]
fn image_count_is_one_over_minimum_within_maximum() {
    assert_eq!(get_min_image_count(2, 0), 3);
    assert_eq!(get_min_image_count(2, 8), 3);
    assert_eq!(get_min_image_count(3, 3), 3);
}

#[test]
fn present_mode_prefers_mailbox() {
    assert_eq!(get_preferred_present_mode(&vec![0, 2, 1]), 1);
    assert_eq!(get_preferred_present_mode(&vec![0, 2]), 2);
}

#[test]
fn image_format_prefers_srgb_bgra() {
    let a = SurfaceFormat { format: 44, color_space: 0 };
    let b = SurfaceFormat { format: 50, color_space: 0 };
    assert_eq!(get_preferred_image_format(&vec![a, b]), b);
    assert_eq!(get_preferred_image_format(&vec![a]), a);
}

#[test]
fn native_codes() {
    assert_eq!(format_to_vulkan_format(&Format::R32G32B32_SFLOAT), 106);
    assert_eq!(format_to_vulkan_format(&Format::UNDEFINED), 0);
    assert_eq!(format_to_vulkan_format(&Format::R32G32B32A32_SFLOAT), 109);
    assert_eq!(shader_stage_to_vulkan_shader_stage(&ShaderStage::Fragment), 16);
    assert_eq!(shader_stage_to_vulkan_shader_stage(&ShaderStage::TesselationEvaluation), 4);
    assert_eq!(descriptor_type_to_vulkan_descriptor_type(&DescriptorType::Undefined), 6);
    assert_eq!(descriptor_type_to_vulkan_descriptor_type(&DescriptorType::InputAttachment), 10);
    assert_eq!(
        descriptor_type_to_vulkan_descriptor_type(&DescriptorType::AccelerationStructureNV),
        1000165000
    );
}

#[test]
fn vertex_layout_matches_the_record() {
    let b = get_vertex_input_binding_description();
    assert_eq!(b.stride, 44);
    assert_eq!(b.binding, 0);
    let a = get_vertex_attribute_descriptions();
    assert_eq!(a.len(), 4);
    assert_eq!(a[1], VertexAttribute { location: 1, binding: 0, format: Format::R32G32B32_SFLOAT, offset: 12 });
    assert_eq!(a[3], VertexAttribute { location: 3, binding: 0, format: Format::R32G32_SFLOAT, offset: 36 });
    let l = build_descriptor_set_layout_bindings();
    assert_eq!(l.len(), 3);
    assert_eq!(l[0].stage, ShaderStage::Vertex);
    assert_eq!(l[2].binding, 2);
}

#[test]
fn numeric_sizes() {
    let scalar = NumericTraits { scalar_width: 32, vector_component_count: 0, matrix_column_count: 0, matrix_row_count: 0, matrix_stride: 0 };
    assert_eq!(size_of_reflect_numeric_trait(&scalar), 4);
    let vec3 = NumericTraits { vector_component_count: 3, ..scalar };
    assert_eq!(size_of_reflect_numeric_trait(&vec3), 12);
    let mat4 = NumericTraits { vector_component_count: 4, matrix_column_count: 4, matrix_row_count: 4, matrix_stride: 16, ..scalar };
    assert_eq!(size_of_reflect_numeric_trait(&mat4), 64);
}

#[test]
fn sum_of_two() {
    assert_eq!(super_dark_sum(2, 40), 42);
}
