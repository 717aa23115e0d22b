use textured_quad::command::{Attribute, Buffer, BufferTarget, Command, VertexArray};
use textured_quad::geometry::{
    quad_indices, quad_vertices, setup_commands, VertexLayout, FLOAT_BYTES, QUAD_SIZE,
};

const A: VertexArray = VertexArray(1);
const VB: Buffer = Buffer(2);
const EB: Buffer = Buffer(3);

#[test]
fn quad_vertices_are_the_four_corners() {
    assert_eq!(QUAD_SIZE, 100);
    assert_eq!(
        quad_vertices(),
        vec![0, 0, 0, 0, 0, 100, 0, 1, 100, 0, 1, 0, 100, 100, 1, 1]
    );
}

#[test]
fn quad_vertices_convert_to_the_float_data() {
    let floats: Vec<f32> = quad_vertices().iter().map(|v| *v as f32).collect();
    let size: f32 = 100.0;
    assert_eq!(
        floats,
        vec![
            0.0, 0.0, 0.0, 0.0, 0.0, size, 0.0, 1.0, size, 0.0, 1.0, 0.0, size, size, 1.0, 1.0
        ]
    );
}

#[test]
fn quad_indices_form_two_triangles() {
    assert_eq!(quad_indices(), vec![0, 1, 2, 3, 1, 2]);
}

#[test]
fn quad_indices_name_existing_vertices() {
    let vertex_count = quad_vertices().len() / 4;
    assert_eq!(vertex_count, 4);
    for index in quad_indices() {
        assert!((index as usize) < vertex_count);
    }
}

#[test]
fn textured_layout_has_four_floats_and_two_attributes() {
    let layout = VertexLayout::PositionTexcoord;
    assert_eq!(FLOAT_BYTES, 4);
    assert_eq!(layout.floats_per_vertex(), 4);
    assert_eq!(layout.stride(), 16);
    assert_eq!(
        layout.attributes(),
        vec![
            Attribute { index: 0, components: 2, stride: 16, offset: 0 },
            Attribute { index: 1, components: 2, stride: 16, offset: 8 },
        ]
    );
}

#[test]
fn plain_layout_has_three_floats_and_one_attribute() {
    let layout = VertexLayout::Position;
    assert_eq!(layout.floats_per_vertex(), 3);
    assert_eq!(layout.stride(), 12);
    assert_eq!(
        layout.attributes(),
        vec![Attribute { index: 0, components: 3, stride: 12, offset: 0 }]
    );
}

#[test]
fn quad_setup_binds_uploads_and_describes() {
    assert_eq!(
        setup_commands(VertexLayout::PositionTexcoord, A, VB, Some(EB)),
        vec![
            Command::BindVertexArray(A),
            Command::BindBuffer(BufferTarget::Array, VB),
            Command::BufferData(BufferTarget::Array),
            Command::BindBuffer(BufferTarget::ElementArray, EB),
            Command::BufferData(BufferTarget::ElementArray),
            Command::VertexAttribPointer(Attribute {
                index: 0,
                components: 2,
                stride: 16,
                offset: 0
            }),
            Command::VertexAttribPointer(Attribute {
                index: 1,
                components: 2,
                stride: 16,
                offset: 8
            }),
            Command::EnableVertexAttribArray(0),
            Command::EnableVertexAttribArray(1),
        ]
    );
}

#[test]
fn triangle_setup_has_no_index_buffer() {
    assert_eq!(
        setup_commands(VertexLayout::Position, A, VB, None),
        vec![
            Command::BindVertexArray(A),
            Command::BindBuffer(BufferTarget::Array, VB),
            Command::BufferData(BufferTarget::Array),
            Command::VertexAttribPointer(Attribute {
                index: 0,
                components: 3,
                stride: 12,
                offset: 0
            }),
            Command::EnableVertexAttribArray(0),
        ]
    );
}
