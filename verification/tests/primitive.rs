use ash::vk::Format as Vk;
use scene_viewer::error::AssetError;
use scene_viewer::format::Format;
use scene_viewer::mesh::{Mesh, MeshSource};
use scene_viewer::node::{Node, NodeSource};
use scene_viewer::primitive::{
    Accessor, BufferView, DataType, Dimensions, Mode, Primitive, PrimitiveSource,
    PrimitiveTopology, VertexInputAttributeDescription, VertexInputBindingDescription,
    VertexInputRate, MAX_ACCESSORS, NORMALS_LOCATION, POSITIONS_LOCATION, TEX_COORDS_LOCATION,
};
use scene_viewer::scene::Scene;

fn accessor(data_type: DataType, dimensions: Dimensions, offset: usize) -> Accessor {
    Accessor {
        view: Some(BufferView { buffer_index: 0, stride: None, offset: 36 }),
        data_type,
        dimensions,
        offset,
    }
}

fn positions() -> Accessor {
    accessor(DataType::F32, Dimensions::Vec3, 0)
}

fn triangle() -> PrimitiveSource {
    PrimitiveSource {
        mode: Mode::Triangles,
        positions: Some(positions()),
        normals: None,
        tex_coords: None,
    }
}

fn gltf_type(data_type: DataType) -> gltf::accessor::DataType {
    match data_type {
        DataType::I8 => gltf::accessor::DataType::I8,
        DataType::U8 => gltf::accessor::DataType::U8,
        DataType::I16 => gltf::accessor::DataType::I16,
        DataType::U16 => gltf::accessor::DataType::U16,
        DataType::U32 => gltf::accessor::DataType::U32,
        DataType::F32 => gltf::accessor::DataType::F32,
    }
}

#[test]
fn triangle_with_positions_only_has_one_description_pair() {
    let primitive = Primitive::new(&triangle()).unwrap();
    assert_eq!(primitive.primitive_topology(), PrimitiveTopology::TriangleList);
    assert_eq!(
        primitive.binding_descriptions(),
        &vec![VertexInputBindingDescription {
            binding: 0,
            stride: 12,
            input_rate: VertexInputRate::Vertex,
        }]
    );
    assert_eq!(
        primitive.attribute_descriptions(),
        &vec![VertexInputAttributeDescription {
            location: POSITIONS_LOCATION,
            binding: 0,
            format: Format { raw: ash::vk::Format::R32G32B32_SFLOAT.as_raw() },
            offset: 36,
        }]
    );
}

#[test]
fn every_populated_attribute_contributes_in_order() {
    let mut source = triangle();
    source.normals = Some(accessor(DataType::F32, Dimensions::Vec3, 12));
    source.tex_coords = Some(accessor(DataType::U16, Dimensions::Vec2, 24));
    let primitive = Primitive::new(&source).unwrap();
    let attributes = primitive.attribute_descriptions();
    assert_eq!(primitive.binding_descriptions().len(), 3);
    assert_eq!(attributes.len(), 3);
    assert_eq!(
        attributes.iter().map(|a| (a.binding, a.location, a.offset)).collect::<Vec<_>>(),
        vec![
            (0, POSITIONS_LOCATION, 36),
            (1, NORMALS_LOCATION, 48),
            (2, TEX_COORDS_LOCATION, 60)
        ]
    );
    assert_eq!(attributes[2].format.raw, ash::vk::Format::R16G16_UINT.as_raw());
    assert_eq!(primitive.binding_descriptions()[2].stride, 4);
    assert!(attributes.len() <= MAX_ACCESSORS);
}

#[test]
fn texture_coordinates_without_normals_take_the_second_binding() {
    let mut source = triangle();
    source.tex_coords = Some(accessor(DataType::F32, Dimensions::Vec2, 12));
    let primitive = Primitive::new(&source).unwrap();
    let attributes = primitive.attribute_descriptions();
    assert_eq!(attributes.len(), 2);
    assert_eq!((attributes[1].binding, attributes[1].location), (1, TEX_COORDS_LOCATION));
    assert!(attributes.iter().all(|a| a.location != NORMALS_LOCATION));
}

#[test]
fn primitive_needs_positions() {
    let mut source = triangle();
    source.positions = None;
    source.normals = Some(positions());
    assert_eq!(Primitive::new(&source).err(), Some(AssetError::NoPositions));
}

#[test]
fn line_loops_are_not_drawn() {
    let mut source = triangle();
    source.mode = Mode::LineLoop;
    assert_eq!(Primitive::new(&source).err(), Some(AssetError::UnsupportedTopology));
    source.positions = None;
    assert_eq!(Primitive::new(&source).err(), Some(AssetError::UnsupportedTopology));
}

#[test]
fn sparse_and_matrix_accessors_are_refused() {
    let mut source = triangle();
    source.normals = Some(Accessor { view: None, ..positions() });
    assert_eq!(Primitive::new(&source).err(), Some(AssetError::SparseAccessor));
    let mut source = triangle();
    source.tex_coords = Some(accessor(DataType::F32, Dimensions::Mat2, 0));
    assert_eq!(Primitive::new(&source).err(), Some(AssetError::UnsupportedAccessorType));
    let sparse_matrix = Accessor { view: None, ..accessor(DataType::F32, Dimensions::Mat4, 0) };
    assert_eq!(
        Primitive::description(&sparse_matrix, 0, 0).err(),
        Some(AssetError::SparseAccessor)
    );
}

#[test]
fn topology_follows_the_mode() {
    assert_eq!(Primitive::topology(Mode::Points), Ok(PrimitiveTopology::PointList));
    assert_eq!(Primitive::topology(Mode::Lines), Ok(PrimitiveTopology::LineList));
    assert_eq!(Primitive::topology(Mode::LineStrip), Ok(PrimitiveTopology::LineStrip));
    assert_eq!(Primitive::topology(Mode::Triangles), Ok(PrimitiveTopology::TriangleList));
    assert_eq!(Primitive::topology(Mode::TriangleStrip), Ok(PrimitiveTopology::TriangleStrip));
    assert_eq!(Primitive::topology(Mode::TriangleFan), Ok(PrimitiveTopology::TriangleFan));
    assert_eq!(Primitive::topology(Mode::LineLoop), Err(AssetError::UnsupportedTopology));
}

#[test]
fn attribute_formats_match_the_api() {
    let table = [
        (DataType::I8, [Vk::R8_SINT, Vk::R8G8_SINT, Vk::R8G8B8_SINT, Vk::R8G8B8A8_SINT]),
        (DataType::U8, [Vk::R8_UINT, Vk::R8G8_UINT, Vk::R8G8B8_UINT, Vk::R8G8B8A8_UINT]),
        (
            DataType::I16,
            [Vk::R16_SINT, Vk::R16G16_SINT, Vk::R16G16B16_SINT, Vk::R16G16B16A16_SINT],
        ),
        (
            DataType::U16,
            [Vk::R16_UINT, Vk::R16G16_UINT, Vk::R16G16B16_UINT, Vk::R16G16B16A16_UINT],
        ),
        (
            DataType::U32,
            [Vk::R32_UINT, Vk::R32G32_UINT, Vk::R32G32B32_UINT, Vk::R32G32B32A32_UINT],
        ),
        (
            DataType::F32,
            [Vk::R32_SFLOAT, Vk::R32G32_SFLOAT, Vk::R32G32B32_SFLOAT, Vk::R32G32B32A32_SFLOAT],
        ),
    ];
    let shapes = [Dimensions::Scalar, Dimensions::Vec2, Dimensions::Vec3, Dimensions::Vec4];
    for (data_type, formats) in table {
        for (shape, format) in shapes.iter().zip(formats) {
            assert_eq!(
                Primitive::attribute_format(data_type, *shape),
                Ok(Format { raw: format.as_raw() })
            );
        }
        for matrix in [Dimensions::Mat2, Dimensions::Mat3, Dimensions::Mat4] {
            assert_eq!(
                Primitive::attribute_format(data_type, matrix),
                Err(AssetError::UnsupportedAccessorType)
            );
        }
    }
}

#[test]
fn element_size_is_component_size_times_count() {
    assert_eq!(accessor(DataType::I8, Dimensions::Scalar, 0).size(), 1);
    assert_eq!(accessor(DataType::U16, Dimensions::Vec3, 0).size(), 6);
    assert_eq!(accessor(DataType::F32, Dimensions::Vec4, 0).size(), 16);
    assert_eq!(accessor(DataType::U8, Dimensions::Mat3, 0).size(), 9);
    assert_eq!(accessor(DataType::U32, Dimensions::Mat4, 0).size(), 64);
    let types = [
        DataType::I8,
        DataType::U8,
        DataType::I16,
        DataType::U16,
        DataType::U32,
        DataType::F32,
    ];
    for data_type in types {
        assert_eq!(
            accessor(data_type, Dimensions::Mat2, 0).size(),
            gltf_type(data_type).size() * gltf::accessor::Dimensions::Mat2.multiplicity()
        );
    }
}

#[test]
fn description_reads_view_and_accessor() {
    let strided = Accessor {
        view: Some(BufferView { buffer_index: 3, stride: Some(32), offset: 100 }),
        data_type: DataType::U8,
        dimensions: Dimensions::Vec4,
        offset: 8,
    };
    let expected_binding =
        VertexInputBindingDescription { binding: 3, stride: 32, input_rate: VertexInputRate::Vertex };
    let expected_attribute = VertexInputAttributeDescription {
        location: 5,
        binding: 2,
        format: Format { raw: ash::vk::Format::R8G8B8A8_UINT.as_raw() },
        offset: 108,
    };
    assert_eq!(Primitive::description(&strided, 2, 5), Ok((expected_binding, expected_attribute)));
    assert_eq!(Primitive::binding_description(&strided), Ok(expected_binding));
    assert_eq!(Primitive::attribute_description(&strided, 2, 5), Ok(expected_attribute));
    assert_eq!(Primitive::buffer_view(&strided), Ok(strided.view.unwrap()));
    let sparse = Accessor { view: None, ..strided };
    assert_eq!(Primitive::buffer_view(&sparse), Err(AssetError::SparseAccessor));
    assert_eq!(Primitive::binding_description(&sparse), Err(AssetError::SparseAccessor));
}

#[test]
fn offsets_wrap_at_thirty_two_bits() {
    let far = Accessor {
        view: Some(BufferView { buffer_index: 0, stride: None, offset: 0xffff_fff0 }),
        data_type: DataType::F32,
        dimensions: Dimensions::Scalar,
        offset: 0x20,
    };
    assert_eq!(Primitive::attribute_description(&far, 0, 0).unwrap().offset, 0x10);
}

#[test]
fn mesh_holds_a_primitive_for_each_source() {
    let mut with_normals = triangle();
    with_normals.normals = Some(positions());
    let mesh = Mesh::new(&MeshSource { primitives: vec![triangle(), with_normals] }).unwrap();
    assert_eq!(mesh.primitives().len(), 2);
    assert_eq!(mesh.primitives()[0].attribute_descriptions().len(), 1);
    assert_eq!(mesh.primitives()[1].attribute_descriptions().len(), 2);
    assert_eq!(Mesh::new(&MeshSource { primitives: Vec::new() }).unwrap().primitives().len(), 0);
}

#[test]
fn mesh_reports_its_first_undrawable_primitive() {
    let mut loop_of_lines = triangle();
    loop_of_lines.mode = Mode::LineLoop;
    let mut bare = triangle();
    bare.positions = None;
    let source = MeshSource { primitives: vec![triangle(), bare, loop_of_lines] };
    assert_eq!(Mesh::new(&source).err(), Some(AssetError::NoPositions));
    let source = MeshSource { primitives: vec![loop_of_lines, bare] };
    assert_eq!(Mesh::new(&source).err(), Some(AssetError::UnsupportedTopology));
}

#[test]
fn node_mirrors_the_tree_of_its_source() {
    let leaf = || NodeSource {
        mesh: Some(MeshSource { primitives: vec![triangle()] }),
        children: Vec::new(),
    };
    let source = NodeSource {
        mesh: None,
        children: vec![leaf(), NodeSource { mesh: None, children: vec![leaf(), leaf()] }],
    };
    let node = Node::new(&source).unwrap();
    assert!(node.mesh().is_none());
    assert_eq!(node.children().len(), 2);
    assert_eq!(node.children()[0].mesh().as_ref().unwrap().primitives().len(), 1);
    assert_eq!(node.children()[0].children().len(), 0);
    assert_eq!(node.children()[1].children().len(), 2);
    assert!(node.children()[1].children()[1].mesh().is_some());
}

#[test]
fn node_reports_the_first_failure_on_the_way_down() {
    let mut bare = triangle();
    bare.positions = None;
    let mut loop_of_lines = triangle();
    loop_of_lines.mode = Mode::LineLoop;
    let failing = |primitive: PrimitiveSource| NodeSource {
        mesh: Some(MeshSource { primitives: vec![primitive] }),
        children: Vec::new(),
    };
    let source = NodeSource {
        mesh: None,
        children: vec![
            NodeSource { mesh: None, children: vec![failing(loop_of_lines)] },
            failing(bare),
        ],
    };
    assert_eq!(Node::new(&source).err(), Some(AssetError::UnsupportedTopology));
    let source = NodeSource {
        mesh: Some(MeshSource { primitives: vec![bare] }),
        children: vec![failing(loop_of_lines)],
    };
    assert_eq!(Node::new(&source).err(), Some(AssetError::NoPositions));
}

#[test]
fn scene_renders_nothing() {
    let scene = Scene::new();
    scene.render();
    assert_eq!(scene, Scene::new());
}
