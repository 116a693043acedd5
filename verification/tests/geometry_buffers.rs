use kuplung::fractals::mandelbrot::quad;
use kuplung::rendering::geometry::{
    Attribute, GeometryBuffer, HALF, MINUS_HALF, MINUS_ONE, ONE, ZERO,
};
use kuplung::rendering::gpu::{BufferKind, GpuCommand, GpuObject};
use kuplung::rendering::triangler::triangle;
use kuplung::shadertoy::shadertoy_engine::screen;

fn position(location: u32, stride: i32, offset: i32) -> Attribute {
    Attribute { location, components: 3, stride, offset }
}

#[test]
fn the_bit_patterns_are_those_of_the_floats() {
    assert_eq!(f32::from_bits(ONE), 1.0);
    assert_eq!(f32::from_bits(MINUS_ONE), -1.0);
    assert_eq!(f32::from_bits(HALF), 0.5);
    assert_eq!(f32::from_bits(MINUS_HALF), -0.5);
    assert_eq!(f32::from_bits(ZERO), 0.0);
}

#[test]
fn the_quad_holds_the_four_corners() {
    let geometry = quad();
    let floats: Vec<f32> = geometry.vertices().iter().map(|bits| f32::from_bits(*bits)).collect();
    assert_eq!(
        floats,
        vec![1.0, 1.0, 0.0, 1.0, -1.0, 0.0, -1.0, -1.0, 0.0, -1.0, 1.0, 0.0]
    );
    assert_eq!(geometry.layout(), &vec![position(0, 0, 0)]);
    assert_eq!(geometry.draw_command(), GpuCommand::DrawElements { count: 6 });
}

#[test]
fn the_triangle_interleaves_positions_and_colours() {
    let geometry = triangle();
    let floats: Vec<f32> = geometry.vertices().iter().map(|bits| f32::from_bits(*bits)).collect();
    assert_eq!(
        floats,
        vec![
            0.0, 1.0, 0.0, 1.0, 0.0, 0.0, //
            1.0, -0.5, 0.0, 0.0, 1.0, 0.0, //
            -1.0, -0.5, 0.0, 0.0, 0.0, 1.0,
        ]
    );
    assert_eq!(geometry.layout(), &vec![position(0, 24, 0), position(1, 24, 12)]);
    assert_eq!(geometry.draw_command(), GpuCommand::DrawElements { count: 3 });
}

#[test]
fn the_screen_is_drawn_without_indices() {
    let geometry = screen();
    assert_eq!(geometry.vertices().len(), 18);
    assert_eq!(geometry.draw_command(), GpuCommand::DrawArrays { first: 0, count: 6 });
    assert!(geometry.buffer_bytes(BufferKind::Index).is_empty());
    assert_eq!(
        geometry.create_commands(),
        vec![
            GpuCommand::Create(GpuObject::VertexArray),
            GpuCommand::BindVertexArray(true),
            GpuCommand::Create(GpuObject::Buffer(BufferKind::Vertex)),
            GpuCommand::BindBuffer(BufferKind::Vertex),
            GpuCommand::UploadBuffer(BufferKind::Vertex),
            GpuCommand::AttribPointer { location: 0, components: 3, stride: 0, offset: 0 },
            GpuCommand::EnableAttrib(0),
            GpuCommand::BindVertexArray(false),
        ]
    );
    assert_eq!(
        geometry.destroy_commands(),
        vec![
            GpuCommand::Delete(GpuObject::VertexArray),
            GpuCommand::Delete(GpuObject::Buffer(BufferKind::Vertex)),
        ]
    );
}

#[test]
fn indexed_geometry_creates_and_releases_its_index_buffer() {
    let geometry = triangle();
    assert_eq!(
        geometry.create_commands(),
        vec![
            GpuCommand::Create(GpuObject::VertexArray),
            GpuCommand::BindVertexArray(true),
            GpuCommand::Create(GpuObject::Buffer(BufferKind::Vertex)),
            GpuCommand::BindBuffer(BufferKind::Vertex),
            GpuCommand::UploadBuffer(BufferKind::Vertex),
            GpuCommand::Create(GpuObject::Buffer(BufferKind::Index)),
            GpuCommand::BindBuffer(BufferKind::Index),
            GpuCommand::UploadBuffer(BufferKind::Index),
            GpuCommand::AttribPointer { location: 0, components: 3, stride: 24, offset: 0 },
            GpuCommand::EnableAttrib(0),
            GpuCommand::AttribPointer { location: 1, components: 3, stride: 24, offset: 12 },
            GpuCommand::EnableAttrib(1),
            GpuCommand::BindVertexArray(false),
        ]
    );
    assert_eq!(
        geometry.destroy_commands(),
        vec![
            GpuCommand::Delete(GpuObject::VertexArray),
            GpuCommand::Delete(GpuObject::Buffer(BufferKind::Vertex)),
            GpuCommand::Delete(GpuObject::Buffer(BufferKind::Index)),
        ]
    );
}

#[test]
fn the_uploaded_bytes_are_the_floats_in_memory_order() {
    let geometry = quad();
    let mut expected = Vec::new();
    for value in [1.0f32, 1.0, 0.0, 1.0, -1.0, 0.0, -1.0, -1.0, 0.0, -1.0, 1.0, 0.0] {
        expected.extend_from_slice(&value.to_ne_bytes());
    }
    assert_eq!(geometry.buffer_bytes(BufferKind::Vertex), expected);
    let mut indices = Vec::new();
    for index in [0u32, 1, 3, 1, 2, 3] {
        indices.extend_from_slice(&index.to_ne_bytes());
    }
    assert_eq!(geometry.buffer_bytes(BufferKind::Index), indices);
    assert_eq!(geometry.buffer_bytes(BufferKind::Index).len(), 24);
}

#[test]
fn data_and_layout_must_agree() {
    let six = vec![ZERO; 6];
    // Two records of twelve bytes.
    assert!(GeometryBuffer::create(six.clone(), None, vec![position(0, 0, 0)]).is_some());
    assert!(GeometryBuffer::create(six.clone(), Some(vec![0, 1, 1]), vec![position(0, 0, 0)]).is_some());
    // No layout at all.
    assert!(GeometryBuffer::create(six.clone(), None, vec![]).is_none());
    // An index that names no vertex.
    assert!(GeometryBuffer::create(six.clone(), Some(vec![0, 2]), vec![position(0, 0, 0)]).is_none());
    // Data that is no whole number of records.
    assert!(GeometryBuffer::create(vec![ZERO; 7], None, vec![position(0, 0, 0)]).is_none());
    // An attribute that does not fit in its record.
    assert!(GeometryBuffer::create(six.clone(), None, vec![position(0, 12, 4)]).is_none());
    assert!(GeometryBuffer::create(six.clone(), None, vec![position(0, 8, 0)]).is_none());
    // Too few or too many components.
    let none = Attribute { location: 0, components: 0, stride: 12, offset: 0 };
    let five = Attribute { location: 0, components: 5, stride: 24, offset: 0 };
    assert!(GeometryBuffer::create(six.clone(), None, vec![none]).is_none());
    assert!(GeometryBuffer::create(six.clone(), None, vec![five]).is_none());
    // Negative or misaligned strides and offsets.
    assert!(GeometryBuffer::create(six.clone(), None, vec![position(0, -12, 0)]).is_none());
    assert!(GeometryBuffer::create(six.clone(), None, vec![position(0, 24, -4)]).is_none());
    assert!(GeometryBuffer::create(six.clone(), None, vec![position(0, 24, 2)]).is_none());
    assert!(GeometryBuffer::create(vec![ZERO; 13], None, vec![position(0, 13, 0)]).is_none());
    // One location bound twice.
    assert!(GeometryBuffer::create(
        six.clone(),
        None,
        vec![position(3, 24, 0), position(3, 24, 12)]
    )
    .is_none());
    // Attributes that assume different records.
    assert!(GeometryBuffer::create(
        six.clone(),
        None,
        vec![position(0, 24, 0), position(1, 12, 0)]
    )
    .is_none());
    // Two attributes sharing one record of 24 bytes: a single vertex.
    let shared = GeometryBuffer::create(
        six,
        None,
        vec![position(0, 24, 0), position(1, 24, 12)],
    )
    .unwrap();
    assert_eq!(shared.draw_command(), GpuCommand::DrawArrays { first: 0, count: 1 });
}
