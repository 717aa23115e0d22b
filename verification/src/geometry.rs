//! The geometry: vertex data, its layout, and the commands that set it up.

use vstd::prelude::*;
use crate::command::{Attribute, Buffer, BufferTarget, Command, VertexArray};
use crate::objects::{lemma_batch_without_effect, lemma_batches_compose, Objects};

verus! {

/// Number of bytes that one float of vertex data takes.
pub const FLOAT_BYTES: i32 = 4;

/// Side of the quad, in pixels.
pub const QUAD_SIZE: i32 = 100;

/// How the floats of a vertex are laid out.
#[derive(Clone, Copy, Debug, PartialEq, Eq, Structural)]
pub enum VertexLayout {
    /// Two floats of position, then two of texture coordinates.
    PositionTexcoord,
    /// Three floats of position.
    Position,
}

impl VertexLayout {
    /// Number of floats that one vertex is made of.
    pub open spec fn floats(self) -> int {
        match self {
            VertexLayout::PositionTexcoord => 4,
            VertexLayout::Position => 3,
        }
    }

    /// The attributes of a vertex, in the order of their locations.
    pub open spec fn attribute_seq(self) -> Seq<Attribute> {
        match self {
            VertexLayout::PositionTexcoord => seq![
                Attribute { index: 0, components: 2, stride: 16, offset: 0 },
                Attribute { index: 1, components: 2, stride: 16, offset: 8 },
            ],
            VertexLayout::Position => seq![
                Attribute { index: 0, components: 3, stride: 12, offset: 0 },
            ],
        }
    }

    /// Number of floats that one vertex is made of.
    pub fn floats_per_vertex(self) -> (n: i32)
        ensures
            n == self.floats(),
    {
        match self {
            VertexLayout::PositionTexcoord => 4,
            VertexLayout::Position => 3,
        }
    }

    /// Distance in bytes from one vertex to the next.
    pub fn stride(self) -> (bytes: i32)
        ensures
            bytes == self.floats() * FLOAT_BYTES,
    {
        self.floats_per_vertex() * FLOAT_BYTES
    }

    /// The attributes of a vertex, in the order of their locations.
    pub fn attributes(self) -> (list: Vec<Attribute>)
        ensures
            list@ == self.attribute_seq(),
    {
        let stride: i32 = self.stride();
        let mut list: Vec<Attribute> = Vec::new();
        match self {
            VertexLayout::PositionTexcoord => {
                list.push(Attribute { index: 0, components: 2, stride, offset: 0 });
                list.push(Attribute { index: 1, components: 2, stride, offset: 8 });
            },
            VertexLayout::Position => {
                list.push(Attribute { index: 0, components: 3, stride, offset: 0 });
            },
        }
        list
    }
}

/// The attributes of a layout fill the vertex without gap or overlap: the
/// first starts at offset zero, each starts where the one before it ends,
/// the last ends at the stride, every attribute carries that stride, and the
/// locations count up from zero.
pub proof fn lemma_attributes_fill_vertex(layout: VertexLayout)
    ensures
        layout.attribute_seq().len() > 0,
        layout.attribute_seq()[0].offset == 0,
        forall|k: int|
            0 <= k < layout.attribute_seq().len() ==> {
                let a = #[trigger] layout.attribute_seq()[k];
                &&& a.index == k
                &&& a.components > 0
                &&& a.stride == layout.floats() * FLOAT_BYTES
                &&& a.offset + a.components * FLOAT_BYTES == if k + 1
                    < layout.attribute_seq().len() {
                    layout.attribute_seq()[k + 1].offset as int
                } else {
                    a.stride as int
                }
            },
{
}

/// The vertices of the quad, four floats each: position x and y in pixels,
/// then texture coordinates u and v. Given as whole numbers; each stands for
/// the float of the same value.
pub open spec fn quad_vertex_data() -> Seq<i32> {
    seq![
        0, 0, 0, 0,
        0, QUAD_SIZE, 0, 1,
        QUAD_SIZE, 0, 1, 0,
        QUAD_SIZE, QUAD_SIZE, 1, 1,
    ]
}

/// The indices of the quad's two triangles.
pub open spec fn quad_index_data() -> Seq<u16> {
    seq![0, 1, 2, 3, 1, 2]
}

/// The vertices of the quad.
pub fn quad_vertices() -> (data: Vec<i32>)
    ensures
        data@ == quad_vertex_data(),
{
    let mut data: Vec<i32> = Vec::new();
    let mut corner: i32 = 0;
    while corner < 4
        invariant
            0 <= corner <= 4,
            data@ == quad_vertex_data().take(4 * corner),
        decreases 4 - corner,
    {
        let u: i32 = corner / 2;
        let v: i32 = corner % 2;
        data.push(u * QUAD_SIZE);
        data.push(v * QUAD_SIZE);
        data.push(u);
        data.push(v);
        corner += 1;
    }
    data
}

/// The indices of the quad's two triangles.
pub fn quad_indices() -> (data: Vec<u16>)
    ensures
        data@ == quad_index_data(),
{
    let mut data: Vec<u16> = Vec::new();
    data.push(0);
    data.push(1);
    data.push(2);
    data.push(3);
    data.push(1);
    data.push(2);
    data
}

/// The quad's data hangs together: its vertices are four of the layout's
/// size, with the texture spanning the quad from corner to corner; there are
/// as many indices as the quad's draw call takes, each names a vertex, and
/// the two triangles share the diagonal and reach all four corners.
pub proof fn lemma_quad_is_consistent()
    ensures
        quad_vertex_data().len() == 4 * VertexLayout::PositionTexcoord.floats(),
        forall|k: int|
            0 <= k < 4 ==> {
                &&& #[trigger] quad_vertex_data()[4 * k] == quad_vertex_data()[4 * k + 2]
                    * QUAD_SIZE
                &&& quad_vertex_data()[4 * k + 1] == quad_vertex_data()[4 * k + 3] * QUAD_SIZE
            },
        quad_index_data().len() == crate::frame_loop::QUAD_INDEX_COUNT,
        forall|i: int| 0 <= i < quad_index_data().len() ==> #[trigger] quad_index_data()[i] < 4,
        quad_index_data()[1] == quad_index_data()[4],
        quad_index_data()[2] == quad_index_data()[5],
        quad_index_data().contains(0u16),
        quad_index_data().contains(1u16),
        quad_index_data().contains(2u16),
        quad_index_data().contains(3u16),
{
}

/// The commands that describe the attributes: a pointer for each, in order,
/// then each location switched on, in order.
pub open spec fn attribute_commands(attributes: Seq<Attribute>) -> Seq<Command> {
    Seq::new(attributes.len(), |k: int| Command::VertexAttribPointer(attributes[k])) + Seq::new(
        attributes.len(),
        |k: int| Command::EnableVertexAttribArray(attributes[k].index),
    )
}

/// The commands that bind the buffers and upload their data: the vertex
/// array, then the vertex buffer with the vertices, then, where the geometry
/// is indexed, the index buffer with the indices.
pub open spec fn buffer_commands(
    vertex_array: VertexArray,
    vertex_buffer: Buffer,
    index_buffer: Option<Buffer>,
) -> Seq<Command> {
    seq![
        Command::BindVertexArray(vertex_array),
        Command::BindBuffer(BufferTarget::Array, vertex_buffer),
        Command::BufferData(BufferTarget::Array),
    ] + match index_buffer {
        Some(buffer) => seq![
            Command::BindBuffer(BufferTarget::ElementArray, buffer),
            Command::BufferData(BufferTarget::ElementArray),
        ],
        None => Seq::empty(),
    }
}

/// The commands that set the geometry up.
pub open spec fn geometry_commands(
    layout: VertexLayout,
    vertex_array: VertexArray,
    vertex_buffer: Buffer,
    index_buffer: Option<Buffer>,
) -> Seq<Command> {
    buffer_commands(vertex_array, vertex_buffer, index_buffer) + attribute_commands(
        layout.attribute_seq(),
    )
}

/// Builds the commands that set the geometry up, for objects that have been
/// created.
pub fn setup_commands(
    layout: VertexLayout,
    vertex_array: VertexArray,
    vertex_buffer: Buffer,
    index_buffer: Option<Buffer>,
) -> (commands: Vec<Command>)
    ensures
        commands@ == geometry_commands(layout, vertex_array, vertex_buffer, index_buffer),
{
    let mut commands: Vec<Command> = Vec::new();
    commands.push(Command::BindVertexArray(vertex_array));
    commands.push(Command::BindBuffer(BufferTarget::Array, vertex_buffer));
    commands.push(Command::BufferData(BufferTarget::Array));
    if let Some(buffer) = index_buffer {
        commands.push(Command::BindBuffer(BufferTarget::ElementArray, buffer));
        commands.push(Command::BufferData(BufferTarget::ElementArray));
    }
    let ghost bound = commands@;
    let attributes = layout.attributes();
    let mut k: usize = 0;
    while k < attributes.len()
        invariant
            0 <= k <= attributes.len(),
            commands@ == bound + Seq::new(
                k as nat,
                |j: int| Command::VertexAttribPointer(attributes@[j]),
            ),
        decreases attributes.len() - k,
    {
        commands.push(Command::VertexAttribPointer(attributes[k]));
        k += 1;
    }
    let ghost pointed = commands@;
    let mut k: usize = 0;
    while k < attributes.len()
        invariant
            0 <= k <= attributes.len(),
            commands@ == pointed + Seq::new(
                k as nat,
                |j: int| Command::EnableVertexAttribArray(attributes@[j].index),
            ),
        decreases attributes.len() - k,
    {
        commands.push(Command::EnableVertexAttribArray(attributes[k].index));
        k += 1;
    }
    commands
}

/// Setting the geometry up never names an object that does not exist:
/// where the vertex array and the buffers exist, the commands are admitted
/// one after the other, and leave every object as it was.
pub proof fn lemma_setup_is_admitted(
    objects: Objects,
    layout: VertexLayout,
    vertex_array: VertexArray,
    vertex_buffer: Buffer,
    index_buffer: Option<Buffer>,
)
    requires
        objects.vertex_arrays.contains(vertex_array),
        objects.buffers.contains(vertex_buffer),
        index_buffer matches Some(buffer) ==> objects.buffers.contains(buffer),
    ensures
        objects.admits_batch(
            geometry_commands(layout, vertex_array, vertex_buffer, index_buffer),
        ),
        objects.after_batch(geometry_commands(layout, vertex_array, vertex_buffer, index_buffer))
            == objects,
{
    lemma_batch_without_effect(
        objects,
        geometry_commands(layout, vertex_array, vertex_buffer, index_buffer),
    );
}

} // verus!
