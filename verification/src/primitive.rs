//! Mesh primitives: how their vertex data is laid out for the pipeline.

use vstd::prelude::*;
use crate::error::AssetError;
use crate::format::Format;
use crate::format::{R16G16B16A16_SINT, R16G16B16A16_UINT, R16G16B16_SINT, R16G16B16_UINT};
use crate::format::{R16G16_SINT, R16G16_UINT, R16_SINT, R16_UINT};
use crate::format::{R32G32B32A32_SFLOAT, R32G32B32A32_UINT, R32G32B32_SFLOAT, R32G32B32_UINT};
use crate::format::{R32G32_SFLOAT, R32G32_UINT, R32_SFLOAT, R32_UINT};
use crate::format::{R8G8B8A8_SINT, R8G8B8A8_UINT, R8G8B8_SINT, R8G8B8_UINT};
use crate::format::{R8G8_SINT, R8G8_UINT, R8_SINT, R8_UINT};

verus! {

/// The type of one component of an accessor's elements.
#[derive(Clone, Copy, Debug, PartialEq, Eq, Structural)]
pub enum DataType {
    I8,
    U8,
    I16,
    U16,
    U32,
    F32,
}

/// Whether an accessor's elements are scalars, vectors or matrices.
#[derive(Clone, Copy, Debug, PartialEq, Eq, Structural)]
pub enum Dimensions {
    Scalar,
    Vec2,
    Vec3,
    Vec4,
    Mat2,
    Mat3,
    Mat4,
}

/// How a primitive's vertices are assembled into shapes, as the asset says.
#[derive(Clone, Copy, Debug, PartialEq, Eq, Structural)]
pub enum Mode {
    Points,
    Lines,
    LineLoop,
    LineStrip,
    Triangles,
    TriangleStrip,
    TriangleFan,
}

/// How vertices are assembled into shapes, as the pipeline takes it.
#[derive(Clone, Copy, Debug, PartialEq, Eq, Structural)]
pub enum PrimitiveTopology {
    PointList,
    LineList,
    LineStrip,
    TriangleList,
    TriangleStrip,
    TriangleFan,
}

/// Whether a vertex buffer advances per vertex or per instance.
#[derive(Clone, Copy, Debug, PartialEq, Eq, Structural)]
pub enum VertexInputRate {
    Vertex,
    Instance,
}

/// Where a vertex buffer is bound and how far apart its elements lie.
#[derive(Clone, Copy, Debug, PartialEq, Eq, Structural)]
pub struct VertexInputBindingDescription {
    pub binding: u32,
    pub stride: u32,
    pub input_rate: VertexInputRate,
}

/// Where a shader input finds its data.
#[derive(Clone, Copy, Debug, PartialEq, Eq, Structural)]
pub struct VertexInputAttributeDescription {
    pub location: u32,
    pub binding: u32,
    pub format: Format,
    pub offset: u32,
}

/// A slice of a buffer.
#[derive(Clone, Copy, Debug, PartialEq, Eq, Structural)]
pub struct BufferView {
    /// The buffer's position in the asset.
    pub buffer_index: usize,
    /// Bytes between elements, where the asset says so.
    pub stride: Option<usize>,
    /// Where the view starts in the buffer, in bytes.
    pub offset: usize,
}

/// A typed sequence of elements read from a buffer view.
#[derive(Clone, Copy, Debug, PartialEq, Eq, Structural)]
pub struct Accessor {
    /// The view read from; sparse accessors have none.
    pub view: Option<BufferView>,
    pub data_type: DataType,
    pub dimensions: Dimensions,
    /// Where the elements start in the view, in bytes.
    pub offset: usize,
}

/// The bytes one component of the type takes.
pub open spec fn component_size(data_type: DataType) -> nat {
    match data_type {
        DataType::I8 | DataType::U8 => 1,
        DataType::I16 | DataType::U16 => 2,
        DataType::U32 | DataType::F32 => 4,
    }
}

/// The number of components an element has.
pub open spec fn component_count(dimensions: Dimensions) -> nat {
    match dimensions {
        Dimensions::Scalar => 1,
        Dimensions::Vec2 => 2,
        Dimensions::Vec3 => 3,
        Dimensions::Vec4 | Dimensions::Mat2 => 4,
        Dimensions::Mat3 => 9,
        Dimensions::Mat4 => 16,
    }
}

/// Calls `gltf::accessor::DataType::size` on the variant of the same name:
/// 1 for the 8-bit types, 2 for the 16-bit ones, 4 for the 32-bit ones.
#[verifier::external_body]
fn size_of_component(data_type: DataType) -> (size: usize)
    ensures
        size == component_size(data_type),
{
    let outside = match data_type {
        DataType::I8 => gltf::accessor::DataType::I8,
        DataType::U8 => gltf::accessor::DataType::U8,
        DataType::I16 => gltf::accessor::DataType::I16,
        DataType::U16 => gltf::accessor::DataType::U16,
        DataType::U32 => gltf::accessor::DataType::U32,
        DataType::F32 => gltf::accessor::DataType::F32,
    };
    outside.size()
}

/// Calls `gltf::accessor::Dimensions::multiplicity` on the variant of the
/// same name: 1 for a scalar, 2 to 4 for the vectors, 4, 9 and 16 for the
/// matrices.
#[verifier::external_body]
fn multiplicity_of(dimensions: Dimensions) -> (count: usize)
    ensures
        count == component_count(dimensions),
{
    let outside = match dimensions {
        Dimensions::Scalar => gltf::accessor::Dimensions::Scalar,
        Dimensions::Vec2 => gltf::accessor::Dimensions::Vec2,
        Dimensions::Vec3 => gltf::accessor::Dimensions::Vec3,
        Dimensions::Vec4 => gltf::accessor::Dimensions::Vec4,
        Dimensions::Mat2 => gltf::accessor::Dimensions::Mat2,
        Dimensions::Mat3 => gltf::accessor::Dimensions::Mat3,
        Dimensions::Mat4 => gltf::accessor::Dimensions::Mat4,
    };
    outside.multiplicity()
}

impl Accessor {
    /// The bytes one element takes.
    pub open spec fn element_size(self) -> nat {
        component_size(self.data_type) * component_count(self.dimensions)
    }

    /// The bytes one element takes.
    pub fn size(&self) -> (size: usize)
        ensures
            size == self.element_size(),
            size <= 64,
    {
        let component: usize = size_of_component(self.data_type);
        let count: usize = multiplicity_of(self.dimensions);
        assert(component * count <= 64) by (nonlinear_arith)
            requires
                component <= 4,
                count <= 16,
        ;
        component * count
    }
}

/// The low 32 bits of a size.
pub open spec fn low_bits(value: usize) -> u32 {
    value as u32
}

/// The low 32 bits of a size.
fn truncate(value: usize) -> (low: u32)
    ensures
        low == low_bits(value),
        value <= u32::MAX ==> low == value,
{
    #[verifier::truncate]
    (value as u32)
}

/// The sum of two offsets as a 32-bit number wraps it.
pub open spec fn wrapped_sum(a: u32, b: u32) -> u32 {
    if a + b > u32::MAX {
        (a + b - 0x1_0000_0000) as u32
    } else {
        (a + b) as u32
    }
}

/// The sum of two offsets as a 32-bit number wraps it.
fn wrapping_sum(a: u32, b: u32) -> (sum: u32)
    ensures
        sum == wrapped_sum(a, b),
{
    let wide: u64 = a as u64 + b as u64;
    if wide > 0xffff_ffff {
        (wide - 0x1_0000_0000) as u32
    } else {
        wide as u32
    }
}

/// Shader input location of vertex positions.
pub const POSITIONS_LOCATION: u32 = 0;

/// Shader input location of vertex normals.
pub const NORMALS_LOCATION: u32 = 1;

/// Shader input location of the first set of texture coordinates.
pub const TEX_COORDS_LOCATION: u32 = 2;

/// The most vertex attributes a primitive can have.
pub const MAX_ACCESSORS: usize = 8;

/// The format of a vertex attribute whose elements have the given component
/// type and shape. Matrices have none.
pub open spec fn format_code(data_type: DataType, dimensions: Dimensions) -> Option<i32> {
    match dimensions {
        Dimensions::Scalar => Some(
            match data_type {
                DataType::I8 => R8_SINT,
                DataType::U8 => R8_UINT,
                DataType::I16 => R16_SINT,
                DataType::U16 => R16_UINT,
                DataType::U32 => R32_UINT,
                DataType::F32 => R32_SFLOAT,
            },
        ),
        Dimensions::Vec2 => Some(
            match data_type {
                DataType::I8 => R8G8_SINT,
                DataType::U8 => R8G8_UINT,
                DataType::I16 => R16G16_SINT,
                DataType::U16 => R16G16_UINT,
                DataType::U32 => R32G32_UINT,
                DataType::F32 => R32G32_SFLOAT,
            },
        ),
        Dimensions::Vec3 => Some(
            match data_type {
                DataType::I8 => R8G8B8_SINT,
                DataType::U8 => R8G8B8_UINT,
                DataType::I16 => R16G16B16_SINT,
                DataType::U16 => R16G16B16_UINT,
                DataType::U32 => R32G32B32_UINT,
                DataType::F32 => R32G32B32_SFLOAT,
            },
        ),
        Dimensions::Vec4 => Some(
            match data_type {
                DataType::I8 => R8G8B8A8_SINT,
                DataType::U8 => R8G8B8A8_UINT,
                DataType::I16 => R16G16B16A16_SINT,
                DataType::U16 => R16G16B16A16_UINT,
                DataType::U32 => R32G32B32A32_UINT,
                DataType::F32 => R32G32B32A32_SFLOAT,
            },
        ),
        _ => None,
    }
}

/// The topology a mode is drawn with. Line loops have none.
pub open spec fn topology_of(mode: Mode) -> Option<PrimitiveTopology> {
    match mode {
        Mode::Points => Some(PrimitiveTopology::PointList),
        Mode::Lines => Some(PrimitiveTopology::LineList),
        Mode::LineStrip => Some(PrimitiveTopology::LineStrip),
        Mode::Triangles => Some(PrimitiveTopology::TriangleList),
        Mode::TriangleStrip => Some(PrimitiveTopology::TriangleStrip),
        Mode::TriangleFan => Some(PrimitiveTopology::TriangleFan),
        Mode::LineLoop => None,
    }
}

/// The binding and attribute descriptions of an accessor read at `binding`
/// and fed to `location`. The buffer binding is the buffer's position in the
/// asset; elements lie as far apart as the view says, or tightly packed.
pub open spec fn described(accessor: Accessor, binding: u32, location: u32) -> Result<
    (VertexInputBindingDescription, VertexInputAttributeDescription),
    AssetError,
> {
    match accessor.view {
        None => Err(AssetError::SparseAccessor),
        Some(view) => match format_code(accessor.data_type, accessor.dimensions) {
            None => Err(AssetError::UnsupportedAccessorType),
            Some(code) => Ok(
                (
                    VertexInputBindingDescription {
                        binding: low_bits(view.buffer_index),
                        stride: match view.stride {
                            Some(stride) => low_bits(stride),
                            None => accessor.element_size() as u32,
                        },
                        input_rate: VertexInputRate::Vertex,
                    },
                    VertexInputAttributeDescription {
                        location,
                        binding,
                        format: Format { raw: code },
                        offset: wrapped_sum(low_bits(accessor.offset), low_bits(view.offset)),
                    },
                ),
            ),
        },
    }
}

/// What the asset says of one primitive: how it is drawn and where its
/// vertex attributes are.
#[derive(Clone, Copy, Debug, PartialEq, Eq, Structural)]
pub struct PrimitiveSource {
    pub mode: Mode,
    pub positions: Option<Accessor>,
    pub normals: Option<Accessor>,
    pub tex_coords: Option<Accessor>,
}

/// The vertex layout of a primitive.
pub struct VertexLayout {
    pub bindings: Seq<VertexInputBindingDescription>,
    pub attributes: Seq<VertexInputAttributeDescription>,
}

/// The layout `layout` with the descriptions of `accessor` added, if there
/// is one: it is read at the next free binding.
pub open spec fn with_attribute(
    layout: Result<VertexLayout, AssetError>,
    accessor: Option<Accessor>,
    location: u32,
) -> Result<VertexLayout, AssetError> {
    match (layout, accessor) {
        (Ok(layout), Some(accessor)) => match described(
            accessor,
            layout.bindings.len() as u32,
            location,
        ) {
            Ok((binding, attribute)) => Ok(
                VertexLayout {
                    bindings: layout.bindings.push(binding),
                    attributes: layout.attributes.push(attribute),
                },
            ),
            Err(error) => Err(error),
        },
        _ => layout,
    }
}

/// The vertex layout of a primitive: positions, which it must have, then
/// normals and texture coordinates where it has them. An attribute that the
/// primitive lacks contributes nothing.
pub open spec fn layout_of(source: PrimitiveSource) -> Result<VertexLayout, AssetError> {
    if topology_of(source.mode).is_none() {
        Err(AssetError::UnsupportedTopology)
    } else if source.positions.is_none() {
        Err(AssetError::NoPositions)
    } else {
        let empty = Ok::<VertexLayout, AssetError>(
            VertexLayout { bindings: Seq::empty(), attributes: Seq::empty() },
        );
        with_attribute(
            with_attribute(
                with_attribute(empty, source.positions, POSITIONS_LOCATION),
                source.normals,
                NORMALS_LOCATION,
            ),
            source.tex_coords,
            TEX_COORDS_LOCATION,
        )
    }
}

/// A drawable part of a mesh.
#[derive(Debug)]
pub struct Primitive {
    topology: PrimitiveTopology,
    binding_descriptions: Vec<VertexInputBindingDescription>,
    attribute_descriptions: Vec<VertexInputAttributeDescription>,
}

impl Primitive {
    /// How the primitive is drawn.
    pub closed spec fn drawn_as(&self) -> PrimitiveTopology {
        self.topology
    }

    /// The primitive's vertex layout.
    pub closed spec fn layout(&self) -> VertexLayout {
        VertexLayout {
            bindings: self.binding_descriptions@,
            attributes: self.attribute_descriptions@,
        }
    }

    pub fn attribute_format(data_type: DataType, dimensions: Dimensions) -> (outcome: Result<
        Format,
        AssetError,
    >)
        ensures
            outcome == match format_code(data_type, dimensions) {
                Some(code) => Ok::<Format, AssetError>(Format { raw: code }),
                None => Err(AssetError::UnsupportedAccessorType),
            },
    {
        let code: i32 = match dimensions {
            Dimensions::Scalar => match data_type {
                DataType::I8 => R8_SINT,
                DataType::U8 => R8_UINT,
                DataType::I16 => R16_SINT,
                DataType::U16 => R16_UINT,
                DataType::U32 => R32_UINT,
                DataType::F32 => R32_SFLOAT,
            },
            Dimensions::Vec2 => match data_type {
                DataType::I8 => R8G8_SINT,
                DataType::U8 => R8G8_UINT,
                DataType::I16 => R16G16_SINT,
                DataType::U16 => R16G16_UINT,
                DataType::U32 => R32G32_UINT,
                DataType::F32 => R32G32_SFLOAT,
            },
            Dimensions::Vec3 => match data_type {
                DataType::I8 => R8G8B8_SINT,
                DataType::U8 => R8G8B8_UINT,
                DataType::I16 => R16G16B16_SINT,
                DataType::U16 => R16G16B16_UINT,
                DataType::U32 => R32G32B32_UINT,
                DataType::F32 => R32G32B32_SFLOAT,
            },
            Dimensions::Vec4 => match data_type {
                DataType::I8 => R8G8B8A8_SINT,
                DataType::U8 => R8G8B8A8_UINT,
                DataType::I16 => R16G16B16A16_SINT,
                DataType::U16 => R16G16B16A16_UINT,
                DataType::U32 => R32G32B32A32_UINT,
                DataType::F32 => R32G32B32A32_SFLOAT,
            },
            _ => {
                return Err(AssetError::UnsupportedAccessorType);
            },
        };
        Ok(Format { raw: code })
    }

    pub fn topology(mode: Mode) -> (outcome: Result<PrimitiveTopology, AssetError>)
        ensures
            outcome == match topology_of(mode) {
                Some(topology) => Ok::<PrimitiveTopology, AssetError>(topology),
                None => Err(AssetError::UnsupportedTopology),
            },
    {
        match mode {
            Mode::Points => Ok(PrimitiveTopology::PointList),
            Mode::Lines => Ok(PrimitiveTopology::LineList),
            Mode::LineStrip => Ok(PrimitiveTopology::LineStrip),
            Mode::Triangles => Ok(PrimitiveTopology::TriangleList),
            Mode::TriangleStrip => Ok(PrimitiveTopology::TriangleStrip),
            Mode::TriangleFan => Ok(PrimitiveTopology::TriangleFan),
            Mode::LineLoop => Err(AssetError::UnsupportedTopology),
        }
    }

    pub fn buffer_view(accessor: &Accessor) -> (outcome: Result<BufferView, AssetError>)
        ensures
            outcome == match accessor.view {
                Some(view) => Ok::<BufferView, AssetError>(view),
                None => Err(AssetError::SparseAccessor),
            },
    {
        match accessor.view {
            Some(view) => Ok(view),
            None => Err(AssetError::SparseAccessor),
        }
    }

    pub fn binding_description(accessor: &Accessor) -> (outcome: Result<
        VertexInputBindingDescription,
        AssetError,
    >)
        ensures
            outcome == match accessor.view {
                Some(view) => Ok::<VertexInputBindingDescription, AssetError>(
                    VertexInputBindingDescription {
                        binding: low_bits(view.buffer_index),
                        stride: match view.stride {
                            Some(stride) => low_bits(stride),
                            None => accessor.element_size() as u32,
                        },
                        input_rate: VertexInputRate::Vertex,
                    },
                ),
                None => Err(AssetError::SparseAccessor),
            },
    {
        let view = match Self::buffer_view(accessor) {
            Ok(view) => view,
            Err(error) => {
                return Err(error);
            },
        };
        let stride: usize = match view.stride {
            Some(stride) => stride,
            None => accessor.size(),
        };
        Ok(
            VertexInputBindingDescription {
                binding: truncate(view.buffer_index),
                stride: truncate(stride),
                input_rate: VertexInputRate::Vertex,
            },
        )
    }

    pub fn attribute_description(accessor: &Accessor, binding: u32, location: u32) -> (outcome:
        Result<VertexInputAttributeDescription, AssetError>)
        ensures
            outcome == match described(*accessor, binding, location) {
                Ok((_, attribute)) => Ok::<VertexInputAttributeDescription, AssetError>(attribute),
                Err(error) => Err(error),
            },
    {
        let view = match Self::buffer_view(accessor) {
            Ok(view) => view,
            Err(error) => {
                return Err(error);
            },
        };
        let format = match Self::attribute_format(accessor.data_type, accessor.dimensions) {
            Ok(format) => format,
            Err(error) => {
                return Err(error);
            },
        };
        let offset: u32 = wrapping_sum(truncate(accessor.offset), truncate(view.offset));
        Ok(VertexInputAttributeDescription { location, binding, format, offset })
    }

    pub fn description(accessor: &Accessor, binding: u32, location: u32) -> (outcome: Result<
        (VertexInputBindingDescription, VertexInputAttributeDescription),
        AssetError,
    >)
        ensures
            outcome == described(*accessor, binding, location),
    {
        let binding_description = match Self::binding_description(accessor) {
            Ok(description) => description,
            Err(error) => {
                return Err(error);
            },
        };
        let attribute_description = match Self::attribute_description(accessor, binding, location) {
            Ok(description) => description,
            Err(error) => {
                return Err(error);
            },
        };
        Ok((binding_description, attribute_description))
    }

    /// Adds the descriptions of `accessor`, if there is one, to the layout
    /// gathered so far.
    fn add_attribute(
        bindings: &mut Vec<VertexInputBindingDescription>,
        attributes: &mut Vec<VertexInputAttributeDescription>,
        accessor: Option<Accessor>,
        location: u32,
    ) -> (outcome: Result<(), AssetError>)
        requires
            old(bindings)@.len() < MAX_ACCESSORS,
        ensures
            match with_attribute(
                Ok(VertexLayout { bindings: old(bindings)@, attributes: old(attributes)@ }),
                accessor,
                location,
            ) {
                Ok(layout) => outcome.is_ok() && final(bindings)@ == layout.bindings
                    && final(attributes)@ == layout.attributes,
                Err(error) => outcome == Err::<(), AssetError>(error),
            },
    {
        match accessor {
            Some(accessor) => {
                let index: u32 = bindings.len() as u32;
                match Self::description(&accessor, index, location) {
                    Ok((binding, attribute)) => {
                        bindings.push(binding);
                        attributes.push(attribute);
                        Ok(())
                    },
                    Err(error) => Err(error),
                }
            },
            None => Ok(()),
        }
    }

    /// The primitive the asset describes, or the reason it cannot be drawn.
    pub fn new(primitive: &PrimitiveSource) -> (outcome: Result<Self, AssetError>)
        ensures
            match layout_of(*primitive) {
                Ok(layout) => outcome matches Ok(made) && made.layout() == layout && Some(
                    made.drawn_as(),
                ) == topology_of(primitive.mode),
                Err(error) => outcome matches Err(e) && e == error,
            },
    {
        let topology = match Self::topology(primitive.mode) {
            Ok(topology) => topology,
            Err(error) => {
                return Err(error);
            },
        };
        if primitive.positions.is_none() {
            return Err(AssetError::NoPositions);
        }
        let mut binding_descriptions: Vec<VertexInputBindingDescription> = Vec::new();
        let mut attribute_descriptions: Vec<VertexInputAttributeDescription> = Vec::new();
        match Self::add_attribute(
            &mut binding_descriptions,
            &mut attribute_descriptions,
            primitive.positions,
            POSITIONS_LOCATION,
        ) {
            Ok(()) => {},
            Err(error) => {
                return Err(error);
            },
        }
        match Self::add_attribute(
            &mut binding_descriptions,
            &mut attribute_descriptions,
            primitive.normals,
            NORMALS_LOCATION,
        ) {
            Ok(()) => {},
            Err(error) => {
                return Err(error);
            },
        }
        match Self::add_attribute(
            &mut binding_descriptions,
            &mut attribute_descriptions,
            primitive.tex_coords,
            TEX_COORDS_LOCATION,
        ) {
            Ok(()) => {},
            Err(error) => {
                return Err(error);
            },
        }
        let made = Self { topology, binding_descriptions, attribute_descriptions };
        assert(made.layout() == layout_of(*primitive).unwrap());
        Ok(made)
    }

    pub fn primitive_topology(&self) -> (topology: PrimitiveTopology)
        ensures
            topology == self.drawn_as(),
    {
        self.topology
    }

    pub fn binding_descriptions(&self) -> (bindings: &Vec<VertexInputBindingDescription>)
        ensures
            bindings@ == self.layout().bindings,
    {
        &self.binding_descriptions
    }

    pub fn attribute_descriptions(&self) -> (attributes: &Vec<VertexInputAttributeDescription>)
        ensures
            attributes@ == self.layout().attributes,
    {
        &self.attribute_descriptions
    }
}

/// The number of attributes a primitive has among the three looked at.
pub open spec fn populated(source: PrimitiveSource) -> nat {
    (if source.positions.is_some() {
        1nat
    } else {
        0nat
    }) + (if source.normals.is_some() {
        1nat
    } else {
        0nat
    }) + (if source.tex_coords.is_some() {
        1nat
    } else {
        0nat
    })
}

/// Only the attributes a primitive has contribute to its layout: there is
/// one binding and one attribute description for each, in the order
/// positions, normals, texture coordinates, each read at its own position in
/// that order; the first is fed to the positions' location.
pub proof fn lemma_layout_counts(source: PrimitiveSource)
    requires
        layout_of(source).is_ok(),
    ensures
        ({
            let layout = layout_of(source).unwrap();
            &&& layout.bindings.len() == populated(source)
            &&& layout.attributes.len() == populated(source)
            &&& forall|i: int|
                0 <= i < layout.attributes.len() ==> (#[trigger] layout.attributes[i]).binding == i
            &&& layout.attributes[0].location == POSITIONS_LOCATION
            &&& source.normals.is_none() ==> forall|i: int|
                0 <= i < layout.attributes.len() ==> (#[trigger] layout.attributes[i]).location
                    != NORMALS_LOCATION
            &&& source.tex_coords.is_none() ==> forall|i: int|
                0 <= i < layout.attributes.len() ==> (#[trigger] layout.attributes[i]).location
                    != TEX_COORDS_LOCATION
        }),
{
    let empty = Ok::<VertexLayout, AssetError>(
        VertexLayout { bindings: Seq::empty(), attributes: Seq::empty() },
    );
    let first = with_attribute(empty, source.positions, POSITIONS_LOCATION);
    let second = with_attribute(first, source.normals, NORMALS_LOCATION);
    let third = with_attribute(second, source.tex_coords, TEX_COORDS_LOCATION);
    assert(third == layout_of(source));
    assert(first.is_ok() && second.is_ok());
}

} // verus!
