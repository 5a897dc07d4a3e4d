use erupt::vk1_0;
use sierra::accel::{max_primitive_counts, AccelerationStructureGeometryInfo, AccelerationStructureLevel};
use sierra::format::Format;
use sierra::{index_type_vk_code, IndexType};

fn triangles(count: u32) -> AccelerationStructureGeometryInfo {
    AccelerationStructureGeometryInfo::Triangles {
        max_primitive_count: count,
        index_type: Some(IndexType::U32),
        max_vertex_count: 3 * count,
        vertex_format: Format::RGB32Sfloat,
        allows_transforms: false,
    }
}

#[test]
fn geometry_levels_and_counts() {
    let aabbs = AccelerationStructureGeometryInfo::AABBs { max_primitive_count: 7 };
    let instances = AccelerationStructureGeometryInfo::Instances { max_primitive_count: 9 };
    assert_eq!(triangles(4).level(), AccelerationStructureLevel::Bottom);
    assert_eq!(aabbs.level(), AccelerationStructureLevel::Bottom);
    assert_eq!(instances.level(), AccelerationStructureLevel::Top);
    assert!(triangles(1).is_triangles() && aabbs.is_aabbs() && instances.is_instances());
    assert!(!aabbs.is_triangles() && !instances.is_aabbs() && !triangles(1).is_instances());
    assert_eq!(instances.max_primitive_count(), 9);
    assert_eq!(
        max_primitive_counts(AccelerationStructureLevel::Bottom, &[triangles(4), aabbs, triangles(2)]),
        vec![4, 7, 2]
    );
    assert_eq!(max_primitive_counts(AccelerationStructureLevel::Top, &[instances]), vec![9]);
    assert!(max_primitive_counts(AccelerationStructureLevel::Top, &[]).is_empty());
}

#[test]
fn index_type_codes_match_vulkan() {
    assert_eq!(index_type_vk_code(Some(IndexType::U16)), vk1_0::IndexType::UINT16.0);
    assert_eq!(index_type_vk_code(Some(IndexType::U32)), vk1_0::IndexType::UINT32.0);
    assert_eq!(index_type_vk_code(None), vk1_0::IndexType::NONE_KHR.0);
}
