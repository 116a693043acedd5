//! Vertex data with a fixed attribute layout, and the commands that put it
//! on the GPU and take it off again.
//!
//! Vertex components are 32-bit floats, held here by their IEEE-754 bit
//! patterns so that the data stays exact until it is uploaded as bytes.

use vstd::prelude::*;
use crate::rendering::gpu::{
    lemma_run_concat,
    lemma_run_push,
    lemma_run_short,
    run,
    BufferKind,
    GpuCommand,
    GpuModel,
    GpuObject,
};

verus! {

/// The bit pattern of `1.0`.
pub const ONE: u32 = 0x3F80_0000;

/// The bit pattern of `-1.0`.
pub const MINUS_ONE: u32 = 0xBF80_0000;

/// The bit pattern of `0.5`.
pub const HALF: u32 = 0x3F00_0000;

/// The bit pattern of `-0.5`.
pub const MINUS_HALF: u32 = 0xBF00_0000;

/// The bit pattern of `0.0`.
pub const ZERO: u32 = 0;

/// One vertex attribute: `components` floats found `offset` bytes into each
/// vertex record, records being `stride` bytes apart (0 for tightly packed).
#[derive(Clone, Copy, Debug, PartialEq, Eq, Structural)]
pub struct Attribute {
    pub location: u32,
    pub components: i32,
    pub stride: i32,
    pub offset: i32,
}

/// Vertex data as plain values.
pub struct GeometryView {
    pub vertices: Seq<u32>,
    pub indices: Option<Seq<u32>>,
    pub layout: Seq<Attribute>,
}

/// The size in bytes of the vertex record an attribute assumes.
pub open spec fn record_bytes(attribute: Attribute) -> int {
    if attribute.stride == 0 {
        4 * attribute.components
    } else {
        attribute.stride as int
    }
}

/// The attribute lies within its vertex record, on float boundaries.
pub open spec fn attribute_fits(attribute: Attribute) -> bool {
    &&& 1 <= attribute.components <= 4
    &&& attribute.stride >= 0
    &&& attribute.offset >= 0
    &&& attribute.stride % 4 == 0
    &&& attribute.offset % 4 == 0
    &&& attribute.offset + 4 * attribute.components <= record_bytes(attribute)
}

impl GeometryView {
    /// The number of vertex records in the data.
    pub open spec fn vertex_count(self) -> int {
        (4 * self.vertices.len()) as int / record_bytes(self.layout[0])
    }

    /// The layout and the data agree: every attribute fits in the one record
    /// size they all assume, no location is bound twice, the data is a whole
    /// number of records that the API's 32-bit sizes can express, and every
    /// index names a vertex.
    pub open spec fn consistent(self) -> bool {
        &&& self.layout.len() > 0
        &&& forall|i: int| 0 <= i < self.layout.len() ==> attribute_fits(#[trigger] self.layout[i])
        &&& forall|i: int|
            0 <= i < self.layout.len() ==> record_bytes(#[trigger] self.layout[i]) == record_bytes(
                self.layout[0],
            )
        &&& forall|i: int, j: int|
            0 <= i < j < self.layout.len() ==> (#[trigger] self.layout[i]).location != (
            #[trigger] self.layout[j]).location
        &&& 4 * self.vertices.len() <= i32::MAX
        &&& (4 * self.vertices.len()) as int % record_bytes(self.layout[0]) == 0
        &&& match self.indices {
            Some(indices) => {
                &&& 4 * indices.len() <= i32::MAX
                &&& forall|k: int|
                    0 <= k < indices.len() ==> (#[trigger] indices[k]) < self.vertex_count()
            },
            None => true,
        }
    }

    /// The draw call for this geometry.
    pub open spec fn draw(self) -> GpuCommand {
        match self.indices {
            Some(indices) => GpuCommand::DrawElements { count: indices.len() as i32 },
            None => GpuCommand::DrawArrays { first: 0, count: self.vertex_count() as i32 },
        }
    }

    /// The objects this geometry owns on the GPU.
    pub open spec fn objects(self) -> Set<GpuObject> {
        let base = set![GpuObject::VertexArray, GpuObject::Buffer(BufferKind::Vertex)];
        if self.indices is Some {
            base.insert(GpuObject::Buffer(BufferKind::Index))
        } else {
            base
        }
    }

    /// Create the vertex array and its buffers, fill them, and describe
    /// every attribute.
    pub open spec fn create_commands(self) -> Seq<GpuCommand> {
        seq![
            GpuCommand::Create(GpuObject::VertexArray),
            GpuCommand::BindVertexArray(true),
            GpuCommand::Create(GpuObject::Buffer(BufferKind::Vertex)),
            GpuCommand::BindBuffer(BufferKind::Vertex),
            GpuCommand::UploadBuffer(BufferKind::Vertex),
        ] + index_commands(self.indices is Some) + attribute_commands(self.layout)
            + seq![GpuCommand::BindVertexArray(false)]
    }

    /// Release the vertex array and every backing buffer.
    pub open spec fn destroy_commands(self) -> Seq<GpuCommand> {
        let base = seq![
            GpuCommand::Delete(GpuObject::VertexArray),
            GpuCommand::Delete(GpuObject::Buffer(BufferKind::Vertex)),
        ];
        if self.indices is Some {
            base.push(GpuCommand::Delete(GpuObject::Buffer(BufferKind::Index)))
        } else {
            base
        }
    }
}

/// The commands that create and fill the index buffer, where there is one.
pub open spec fn index_commands(indexed: bool) -> Seq<GpuCommand> {
    if indexed {
        seq![
            GpuCommand::Create(GpuObject::Buffer(BufferKind::Index)),
            GpuCommand::BindBuffer(BufferKind::Index),
            GpuCommand::UploadBuffer(BufferKind::Index),
        ]
    } else {
        Seq::empty()
    }
}

/// For each attribute in turn, its pointer and the switch that enables it.
pub open spec fn attribute_commands(layout: Seq<Attribute>) -> Seq<GpuCommand>
    decreases layout.len(),
{
    if layout.len() == 0 {
        Seq::empty()
    } else {
        let last = layout.last();
        attribute_commands(layout.drop_last()).push(
            GpuCommand::AttribPointer {
                location: last.location,
                components: last.components,
                stride: last.stride,
                offset: last.offset,
            },
        ).push(GpuCommand::EnableAttrib(last.location))
    }
}

/// Byte `k` of a word, counting from the least significant.
pub open spec fn byte_of(word: u32, k: int) -> u8 {
    if k == 0 {
        (word % 256) as u8
    } else if k == 1 {
        (word / 256 % 256) as u8
    } else if k == 2 {
        (word / 65536 % 256) as u8
    } else {
        (word / 16777216 % 256) as u8
    }
}

/// The words laid out least significant byte first.
pub open spec fn little_endian(words: Seq<u32>) -> Seq<u8> {
    Seq::new(4 * words.len(), |i: int| byte_of(words[i / 4], i % 4))
}

/// The words laid out most significant byte first.
pub open spec fn big_endian(words: Seq<u32>) -> Seq<u8> {
    Seq::new(4 * words.len(), |i: int| byte_of(words[i / 4], 3 - i % 4))
}

/// Calls `bytemuck::cast_slice` to reinterpret 32-bit words as bytes and
/// copies the result. The cast keeps the memory as it is, so each word
/// yields its four bytes in the byte order of the machine: the result is
/// the little-endian or the big-endian layout of the words.
#[verifier::external_body]
fn words_to_bytes(words: &Vec<u32>) -> (bytes: Vec<u8>)
    ensures
        bytes@ == little_endian(words@) || bytes@ == big_endian(words@),
{
    bytemuck::cast_slice::<u32, u8>(words.as_slice()).to_vec()
}

/// Vertex data, optional indices and the attribute layout they follow.
pub struct GeometryBuffer {
    vertices: Vec<u32>,
    indices: Option<Vec<u32>>,
    layout: Vec<Attribute>,
}

impl View for GeometryBuffer {
    type V = GeometryView;

    closed spec fn view(&self) -> GeometryView {
        GeometryView {
            vertices: self.vertices@,
            indices: match self.indices {
                Some(indices) => Some(indices@),
                None => None,
            },
            layout: self.layout@,
        }
    }
}

/// The view of optional index data.
pub open spec fn indices_view(indices: Option<Vec<u32>>) -> Option<Seq<u32>> {
    match indices {
        Some(indices) => Some(indices@),
        None => None,
    }
}

fn record_size(attribute: &Attribute) -> (size: i64)
    requires
        1 <= attribute.components <= 4,
    ensures
        size == record_bytes(*attribute),
{
    if attribute.stride == 0 {
        4 * (attribute.components as i64)
    } else {
        attribute.stride as i64
    }
}

fn fits(attribute: &Attribute) -> (ok: bool)
    ensures
        ok == attribute_fits(*attribute),
{
    if attribute.components < 1 || attribute.components > 4 || attribute.stride < 0
        || attribute.offset < 0 {
        return false;
    }
    attribute.stride % 4 == 0 && attribute.offset % 4 == 0 && (attribute.offset as i64) + 4 * (
    attribute.components as i64) <= record_size(attribute)
}

fn layout_fits(layout: &Vec<Attribute>) -> (ok: bool)
    requires
        layout.len() > 0,
    ensures
        ok == ({
            &&& forall|i: int| 0 <= i < layout@.len() ==> attribute_fits(#[trigger] layout@[i])
            &&& forall|i: int|
                0 <= i < layout@.len() ==> record_bytes(#[trigger] layout@[i]) == record_bytes(
                    layout@[0],
                )
        }),
{
    if !fits(&layout[0]) {
        return false;
    }
    let record = record_size(&layout[0]);
    let mut i: usize = 1;
    while i < layout.len()
        invariant
            1 <= i <= layout.len(),
            attribute_fits(layout@[0]),
            record == record_bytes(layout@[0]),
            forall|k: int| 0 <= k < i ==> attribute_fits(#[trigger] layout@[k]),
            forall|k: int| 0 <= k < i ==> record_bytes(#[trigger] layout@[k]) == record,
        decreases layout.len() - i,
    {
        if !fits(&layout[i]) {
            return false;
        }
        if record_size(&layout[i]) != record {
            return false;
        }
        i += 1;
    }
    true
}

fn locations_distinct(layout: &Vec<Attribute>) -> (ok: bool)
    ensures
        ok == (forall|i: int, j: int|
            0 <= i < j < layout@.len() ==> (#[trigger] layout@[i]).location != (
            #[trigger] layout@[j]).location),
{
    let mut j: usize = 0;
    while j < layout.len()
        invariant
            j <= layout.len(),
            forall|a: int, b: int|
                0 <= a < b < j ==> (#[trigger] layout@[a]).location != (
                #[trigger] layout@[b]).location,
        decreases layout.len() - j,
    {
        let mut i: usize = 0;
        while i < j
            invariant
                i <= j < layout.len(),
                forall|a: int| 0 <= a < i ==> (#[trigger] layout@[a]).location != layout@[j as int].location,
            decreases j - i,
        {
            if layout[i].location == layout[j].location {
                return false;
            }
            i += 1;
        }
        j += 1;
    }
    true
}

fn indices_in_range(indices: &Vec<u32>, count: i64) -> (ok: bool)
    ensures
        ok == (forall|k: int| 0 <= k < indices@.len() ==> (#[trigger] indices@[k]) < count),
{
    let mut k: usize = 0;
    while k < indices.len()
        invariant
            k <= indices.len(),
            forall|a: int| 0 <= a < k ==> (#[trigger] indices@[a]) < count,
        decreases indices.len() - k,
    {
        if (indices[k] as i64) >= count {
            return false;
        }
        k += 1;
    }
    true
}

impl GeometryBuffer {
    /// Vertex data with its layout, accepted exactly where the two agree.
    pub fn create(vertices: Vec<u32>, indices: Option<Vec<u32>>, layout: Vec<Attribute>) -> (geometry:
        Option<GeometryBuffer>)
        ensures
            geometry is Some <==> (GeometryView {
                vertices: vertices@,
                indices: indices_view(indices),
                layout: layout@,
            }).consistent(),
            geometry matches Some(g) ==> g@ == (GeometryView {
                vertices: vertices@,
                indices: indices_view(indices),
                layout: layout@,
            }),
    {
        let limit: usize = 0x1FFF_FFFF;
        if layout.len() == 0 || vertices.len() > limit {
            return None;
        }
        if !layout_fits(&layout) || !locations_distinct(&layout) {
            return None;
        }
        let record = record_size(&layout[0]);
        let bytes: i64 = 4 * (vertices.len() as i64);
        if bytes % record != 0 {
            return None;
        }
        let count = bytes / record;
        let indices_ok = match &indices {
            Some(list) => list.len() <= limit && indices_in_range(list, count),
            None => true,
        };
        if !indices_ok {
            return None;
        }
        Some(GeometryBuffer { vertices, indices, layout })
    }

    #[verifier::type_invariant]
    spec fn data_and_layout_agree(&self) -> bool {
        self@.consistent()
    }

    /// The vertex data. Data and layout of a geometry always agree.
    pub fn vertices(&self) -> (vertices: &Vec<u32>)
        ensures
            vertices@ == self@.vertices,
            self@.consistent(),
    {
        proof {
            use_type_invariant(self);
        }
        &self.vertices
    }

    pub fn layout(&self) -> (layout: &Vec<Attribute>)
        ensures
            layout@ == self@.layout,
    {
        &self.layout
    }

    /// The bytes to upload for `kind`, in the byte order of the machine;
    /// empty for the index buffer of geometry that has no indices.
    pub fn buffer_bytes(&self, kind: BufferKind) -> (bytes: Vec<u8>)
        ensures
            ({
                let words = match kind {
                    BufferKind::Vertex => self@.vertices,
                    BufferKind::Index => match self@.indices {
                        Some(indices) => indices,
                        None => Seq::empty(),
                    },
                };
                bytes@ == little_endian(words) || bytes@ == big_endian(words)
            }),
    {
        match kind {
            BufferKind::Vertex => words_to_bytes(&self.vertices),
            BufferKind::Index => match &self.indices {
                Some(indices) => words_to_bytes(indices),
                None => {
                    let none: Vec<u8> = Vec::new();
                    assert(none@ =~= little_endian(Seq::empty()));
                    none
                },
            },
        }
    }

    /// The commands that put the geometry on the GPU.
    pub fn create_commands(&self) -> (commands: Vec<GpuCommand>)
        ensures
            commands@ == self@.create_commands(),
    {
        let mut commands: Vec<GpuCommand> = Vec::new();
        commands.push(GpuCommand::Create(GpuObject::VertexArray));
        commands.push(GpuCommand::BindVertexArray(true));
        commands.push(GpuCommand::Create(GpuObject::Buffer(BufferKind::Vertex)));
        commands.push(GpuCommand::BindBuffer(BufferKind::Vertex));
        commands.push(GpuCommand::UploadBuffer(BufferKind::Vertex));
        if self.indices.is_some() {
            commands.push(GpuCommand::Create(GpuObject::Buffer(BufferKind::Index)));
            commands.push(GpuCommand::BindBuffer(BufferKind::Index));
            commands.push(GpuCommand::UploadBuffer(BufferKind::Index));
        }
        let ghost head = commands@;
        assert(head =~= seq![
            GpuCommand::Create(GpuObject::VertexArray),
            GpuCommand::BindVertexArray(true),
            GpuCommand::Create(GpuObject::Buffer(BufferKind::Vertex)),
            GpuCommand::BindBuffer(BufferKind::Vertex),
            GpuCommand::UploadBuffer(BufferKind::Vertex),
        ] + index_commands(self@.indices is Some));
        let mut i: usize = 0;
        while i < self.layout.len()
            invariant
                i <= self.layout.len(),
                commands@ == head + attribute_commands(self.layout@.take(i as int)),
            decreases self.layout.len() - i,
        {
            let attribute = self.layout[i];
            commands.push(
                GpuCommand::AttribPointer {
                    location: attribute.location,
                    components: attribute.components,
                    stride: attribute.stride,
                    offset: attribute.offset,
                },
            );
            commands.push(GpuCommand::EnableAttrib(attribute.location));
            proof {
                let next = self.layout@.take(i + 1);
                assert(next.drop_last() =~= self.layout@.take(i as int));
                assert(next.last() == attribute);
                assert(commands@ =~= head + attribute_commands(next));
            }
            i += 1;
        }
        assert(self.layout@.take(i as int) =~= self.layout@);
        commands.push(GpuCommand::BindVertexArray(false));
        assert(commands@ =~= self@.create_commands());
        commands
    }

    /// The draw call for this geometry.
    pub fn draw_command(&self) -> (command: GpuCommand)
        ensures
            command == self@.draw(),
    {
        proof {
            use_type_invariant(self);
        }
        match &self.indices {
            Some(indices) => GpuCommand::DrawElements { count: indices.len() as i32 },
            None => {
                let record = record_size(&self.layout[0]);
                let count = 4 * (self.vertices.len() as i64) / record;
                GpuCommand::DrawArrays { first: 0, count: count as i32 }
            },
        }
    }

    /// The commands that release the vertex array and every backing buffer.
    pub fn destroy_commands(&self) -> (commands: Vec<GpuCommand>)
        ensures
            commands@ == self@.destroy_commands(),
    {
        let mut commands: Vec<GpuCommand> = Vec::new();
        commands.push(GpuCommand::Delete(GpuObject::VertexArray));
        commands.push(GpuCommand::Delete(GpuObject::Buffer(BufferKind::Vertex)));
        if self.indices.is_some() {
            commands.push(GpuCommand::Delete(GpuObject::Buffer(BufferKind::Index)));
        }
        assert(commands@ =~= self@.destroy_commands());
        commands
    }
}

/// Describing attributes creates and releases nothing.
pub proof fn lemma_attributes_keep_model(layout: Seq<Attribute>, model: GpuModel)
    ensures
        run(attribute_commands(layout), model) == Some(model),
    decreases layout.len(),
{
    if layout.len() > 0 {
        let last = layout.last();
        let pointer = GpuCommand::AttribPointer {
            location: last.location,
            components: last.components,
            stride: last.stride,
            offset: last.offset,
        };
        let rest = attribute_commands(layout.drop_last());
        lemma_attributes_keep_model(layout.drop_last(), model);
        lemma_run_push(rest, pointer, model);
        lemma_run_push(rest.push(pointer), GpuCommand::EnableAttrib(last.location), model);
    }
}

/// Creating a geometry adds exactly its own objects, and destroying it
/// removes exactly those: whatever else exists is left as it was.
pub proof fn lemma_geometry_account(geometry: GeometryView, model: GpuModel)
    requires
        model.live.disjoint(geometry.objects()),
    ensures
        run(geometry.create_commands(), model) == Some(
            GpuModel { live: model.live.union(geometry.objects()), ..model },
        ),
        run(
            geometry.destroy_commands(),
            GpuModel { live: model.live.union(geometry.objects()), ..model },
        ) == Some(model),
{
    let array = GpuObject::VertexArray;
    let vertex = GpuObject::Buffer(BufferKind::Vertex);
    let index = GpuObject::Buffer(BufferKind::Index);
    let indexed = geometry.indices is Some;
    let after = GpuModel { live: model.live.union(geometry.objects()), ..model };
    assert(geometry.objects().contains(array) && geometry.objects().contains(vertex));
    assert(indexed ==> geometry.objects().contains(index));

    let head = seq![
        GpuCommand::Create(array),
        GpuCommand::BindVertexArray(true),
        GpuCommand::Create(vertex),
        GpuCommand::BindBuffer(BufferKind::Vertex),
        GpuCommand::UploadBuffer(BufferKind::Vertex),
    ];
    lemma_run_short(
        GpuCommand::Create(array),
        GpuCommand::BindVertexArray(true),
        GpuCommand::Create(vertex),
        GpuCommand::BindBuffer(BufferKind::Vertex),
        GpuCommand::UploadBuffer(BufferKind::Vertex),
        model,
    );
    let m1 = model.with_live(array).with_live(vertex);
    assert(run(head, model) == Some(m1));
    let middle = index_commands(indexed);
    lemma_run_short(
        GpuCommand::Create(index),
        GpuCommand::BindBuffer(BufferKind::Index),
        GpuCommand::UploadBuffer(BufferKind::Index),
        GpuCommand::Clear,
        GpuCommand::Clear,
        m1,
    );
    let m2 = if indexed {
        m1.with_live(index)
    } else {
        m1
    };
    assert(run(middle, m1) == Some(m2));
    assert(m2 =~= after);
    lemma_run_concat(head, middle, model);
    lemma_attributes_keep_model(geometry.layout, after);
    lemma_run_concat(head + middle, attribute_commands(geometry.layout), model);
    lemma_run_push(
        head + middle + attribute_commands(geometry.layout),
        GpuCommand::BindVertexArray(false),
        model,
    );
    assert(geometry.create_commands() =~= (head + middle + attribute_commands(
        geometry.layout,
    )).push(GpuCommand::BindVertexArray(false)));

    lemma_run_short(
        GpuCommand::Delete(array),
        GpuCommand::Delete(vertex),
        GpuCommand::Delete(index),
        GpuCommand::Clear,
        GpuCommand::Clear,
        after,
    );
    let d2 = after.without_live(array).without_live(vertex);
    if indexed {
        assert(geometry.destroy_commands() =~= seq![
            GpuCommand::Delete(array),
            GpuCommand::Delete(vertex),
            GpuCommand::Delete(index),
        ]);
        assert(d2.without_live(index) =~= model);
    } else {
        assert(d2 =~= model);
    }
}

} // verus!
