//! Geometry buffers: interleaved vertex data uploaded once, and the vertex-array
//! descriptor that maps its bytes to the pipeline's input slots.
//!
//! Nothing here checks a layout against the inputs a pipeline declares: a wrong
//! stride or slot index is not detected and only shows as wrong rendering.
use vstd::prelude::*;
use crate::native::{NativeCall, Call, calls_model, lemma_calls_model_push};

verus! {

/// The size in bytes of one vertex component, a 32-bit float.
pub const COMPONENT_BYTES: u32 = 4;

/// One input slot of the per-vertex layout: its index and how many float
/// components it takes.
#[derive(Clone, Copy, Debug, PartialEq, Eq, Structural)]
pub struct Attribute {
    pub slot: u32,
    pub components: u32,
}

/// What the vertex-array descriptor records for one input slot: `components`
/// floats starting `offset` bytes into each vertex, vertices `stride` bytes apart.
#[derive(Clone, Copy, Debug, PartialEq, Eq, Structural)]
pub struct AttributeBinding {
    pub slot: u32,
    pub components: u32,
    pub stride: u32,
    pub offset: u32,
}

/// The interleaved layout of the demo geometry: a three-float position in slot 0
/// followed by a three-float color in slot 1.
pub fn position_color_layout() -> (r: Vec<Attribute>)
    ensures
        r@ == seq![Attribute { slot: 0, components: 3 }, Attribute { slot: 1, components: 3 }],
{
    let r = vec![Attribute { slot: 0, components: 3 }, Attribute { slot: 1, components: 3 }];
    assert(r@ =~= seq![Attribute { slot: 0, components: 3 }, Attribute { slot: 1, components: 3 }]);
    r
}

/// The number of floats that the first `n` attributes of `layout` take.
pub open spec fn floats_before(layout: Seq<Attribute>, n: int) -> nat
    decreases n,
{
    if n <= 0 {
        0
    } else {
        floats_before(layout, n - 1) + layout[n - 1].components as nat
    }
}

/// The number of floats of one vertex: the stride, in floats.
pub open spec fn vertex_floats(layout: Seq<Attribute>) -> nat {
    floats_before(layout, layout.len() as int)
}

/// The number of whole vertices that `words` floats hold under `layout` (none
/// when the layout is empty).
pub open spec fn vertex_count_of(words: nat, layout: Seq<Attribute>) -> nat {
    if vertex_floats(layout) == 0 {
        0
    } else {
        words / vertex_floats(layout)
    }
}

/// The descriptor entry of attribute `i`: its byte offset is the size of the
/// attributes before it, and every entry has the whole vertex as stride.
pub open spec fn binding_of(layout: Seq<Attribute>, i: int) -> AttributeBinding {
    AttributeBinding {
        slot: layout[i].slot,
        components: layout[i].components,
        stride: (4 * vertex_floats(layout)) as u32,
        offset: (4 * floats_before(layout, i)) as u32,
    }
}

/// The descriptor entries of a layout, in its order.
pub open spec fn bindings_of(layout: Seq<Attribute>) -> Seq<AttributeBinding> {
    Seq::new(layout.len(), |i: int| binding_of(layout, i))
}

/// Enable and describe each slot, in order.
pub open spec fn attribute_calls(bindings: Seq<AttributeBinding>) -> Seq<Call>
    decreases bindings.len(),
{
    if bindings.len() == 0 {
        seq![]
    } else {
        let b = bindings.last();
        attribute_calls(bindings.drop_last()) + seq![
            Call::EnableSlot { slot: b.slot },
            Call::DescribeSlot { slot: b.slot, components: b.components, stride: b.stride, offset: b.offset },
        ]
    }
}

/// The calls of an upload: bind the descriptor, bind the buffer and upload the
/// data, describe every slot, then unbind the buffer and the descriptor.
pub open spec fn upload_calls(buffer: u32, array: u32, words: Seq<u32>, layout: Seq<Attribute>) -> Seq<Call> {
    seq![
        Call::BindVertexArray { array },
        Call::BindArrayBuffer { buffer },
        Call::UploadStatic { words },
    ] + attribute_calls(bindings_of(layout)) + seq![
        Call::BindArrayBuffer { buffer: 0 },
        Call::BindVertexArray { array: 0 },
    ]
}

/// The calls that draw a geometry: select its descriptor, then draw its vertices
/// as independent triangles.
pub open spec fn draw_calls(array: u32, count: u32) -> Seq<Call> {
    seq![Call::BindVertexArray { array }, Call::DrawTriangles { count }]
}

/// The model of a geometry buffer.
pub ghost struct GeometryModel {
    pub buffer: u32,
    pub array: u32,
    pub vertex_count: u32,
    pub bindings: Seq<AttributeBinding>,
}

/// An uploaded vertex buffer together with its vertex-array descriptor.
///
/// Immutable once built; not `Clone`, so its objects are released at most once.
pub struct GeometryBuffer {
    pub(crate) buffer: u32,
    pub(crate) array: u32,
    pub(crate) vertex_count: u32,
    pub(crate) bindings: Vec<AttributeBinding>,
}

/// Attribute sizes only grow along a layout.
pub proof fn lemma_floats_before_monotonic(layout: Seq<Attribute>, i: int, j: int)
    requires
        0 <= i <= j <= layout.len(),
    ensures
        floats_before(layout, i) <= floats_before(layout, j),
    decreases j - i,
{
    if i < j {
        lemma_floats_before_monotonic(layout, i, j - 1);
    }
}

/// Describing one more slot appends its two calls.
proof fn lemma_attribute_calls_push(bindings: Seq<AttributeBinding>, b: AttributeBinding)
    ensures
        attribute_calls(bindings.push(b)) == attribute_calls(bindings) + seq![
            Call::EnableSlot { slot: b.slot },
            Call::DescribeSlot { slot: b.slot, components: b.components, stride: b.stride, offset: b.offset },
        ],
{
    assert(bindings.push(b).drop_last() =~= bindings);
}

/// The layout that a sequence of descriptor entries records.
pub open spec fn attributes_of(bindings: Seq<AttributeBinding>) -> Seq<Attribute> {
    bindings.map_values(|b: AttributeBinding| Attribute { slot: b.slot, components: b.components })
}

/// Reading back the descriptor entries recorded for a layout gives the layout
/// again, slot by slot, whatever the number of vertices uploaded with it (the
/// entries do not depend on the data). Every entry has the whole vertex as stride,
/// and its offset is the size of the attributes before it, which stays within the
/// stride.
pub proof fn lemma_layout_round_trip(layout: Seq<Attribute>)
    requires
        4 * vertex_floats(layout) <= i32::MAX,
    ensures
        attributes_of(bindings_of(layout)) == layout,
        forall|i: int|
            0 <= i < layout.len() ==> {
                &&& (#[trigger] bindings_of(layout)[i]).stride == 4 * vertex_floats(layout)
                &&& bindings_of(layout)[i].offset == 4 * floats_before(layout, i)
                &&& bindings_of(layout)[i].offset + 4 * layout[i].components <= bindings_of(layout)[i].stride
            },
{
    assert(attributes_of(bindings_of(layout)) =~= layout);
    assert forall|i: int| 0 <= i < layout.len() implies {
        &&& (#[trigger] bindings_of(layout)[i]).stride == 4 * vertex_floats(layout)
        &&& bindings_of(layout)[i].offset == 4 * floats_before(layout, i)
        &&& bindings_of(layout)[i].offset + 4 * layout[i].components <= bindings_of(layout)[i].stride
    } by {
        lemma_floats_before_monotonic(layout, i, i + 1);
        lemma_floats_before_monotonic(layout, i + 1, layout.len() as int);
    }
}

impl GeometryBuffer {
    pub open(crate) spec fn model(&self) -> GeometryModel {
        GeometryModel {
            buffer: self.buffer,
            array: self.array,
            vertex_count: self.vertex_count,
            bindings: self.bindings@,
        }
    }

    /// Plans the upload of `words`, the bit patterns of interleaved 32-bit float
    /// vertex data, into the freshly created `buffer`, described through the
    /// freshly created descriptor `array` by `layout`.
    ///
    /// The data is uploaded whole even when its length is not a multiple of the
    /// vertex size; the vertex count is the number of whole vertices.
    pub fn upload(buffer: u32, array: u32, words: Vec<u32>, layout: &Vec<Attribute>) -> (r: (
        GeometryBuffer,
        Vec<NativeCall>,
    ))
        requires
            4 * vertex_floats(layout@) <= i32::MAX,
            vertex_count_of(words@.len(), layout@) <= i32::MAX,
        ensures
            r.0.model() == (GeometryModel {
                buffer,
                array,
                vertex_count: vertex_count_of(words@.len(), layout@) as u32,
                bindings: bindings_of(layout@),
            }),
            calls_model(r.1@) == upload_calls(buffer, array, words@, layout@),
    {
        let n = layout.len();
        let mut total: u32 = 0;
        let mut i: usize = 0;
        while i < n
            invariant
                n == layout@.len(),
                i <= n,
                total == floats_before(layout@, i as int),
                4 * vertex_floats(layout@) <= i32::MAX,
            decreases n - i,
        {
            proof {
                lemma_floats_before_monotonic(layout@, i + 1, n as int);
            }
            total = total + layout[i].components;
            i = i + 1;
        }
        let stride = COMPONENT_BYTES * total;
        let count: u32 = if total == 0 {
            0
        } else {
            (words.len() / (total as usize)) as u32
        };

        let ghost w = words@;
        let mut calls: Vec<NativeCall> = vec![
            NativeCall::BindVertexArray { array },
            NativeCall::BindArrayBuffer { buffer },
            NativeCall::UploadStatic { words },
        ];
        let ghost head = seq![
            Call::BindVertexArray { array },
            Call::BindArrayBuffer { buffer },
            Call::UploadStatic { words: w },
        ];
        assert(calls_model(calls@) =~= head);
        assert(bindings_of(layout@).take(0) =~= seq![]);

        let mut bindings: Vec<AttributeBinding> = Vec::new();
        let mut offset: u32 = 0;
        let mut i: usize = 0;
        while i < n
            invariant
                n == layout@.len(),
                i <= n,
                total == vertex_floats(layout@),
                stride == 4 * total,
                4 * vertex_floats(layout@) <= i32::MAX,
                offset == 4 * floats_before(layout@, i as int),
                bindings@ == bindings_of(layout@).take(i as int),
                calls_model(calls@) == head + attribute_calls(bindings@),
            decreases n - i,
        {
            proof {
                lemma_floats_before_monotonic(layout@, i + 1, n as int);
            }
            let a = layout[i];
            let b = AttributeBinding { slot: a.slot, components: a.components, stride, offset };
            assert(b == binding_of(layout@, i as int));
            let c1 = NativeCall::EnableSlot { slot: a.slot };
            let c2 = NativeCall::DescribeSlot { slot: a.slot, components: a.components, stride, offset };
            proof {
                lemma_attribute_calls_push(bindings@, b);
                lemma_calls_model_push(calls@, c1);
                lemma_calls_model_push(calls@.push(c1), c2);
            }
            calls.push(c1);
            calls.push(c2);
            bindings.push(b);
            offset = offset + COMPONENT_BYTES * a.components;
            i = i + 1;
            assert(bindings@ =~= bindings_of(layout@).take(i as int));
        }
        assert(bindings@ =~= bindings_of(layout@));
        let c1 = NativeCall::BindArrayBuffer { buffer: 0 };
        let c2 = NativeCall::BindVertexArray { array: 0 };
        proof {
            lemma_calls_model_push(calls@, c1);
            lemma_calls_model_push(calls@.push(c1), c2);
        }
        calls.push(c1);
        calls.push(c2);
        assert(calls_model(calls@) =~= upload_calls(buffer, array, w, layout@));
        (GeometryBuffer { buffer, array, vertex_count: count, bindings }, calls)
    }

    pub fn buffer_id(&self) -> (r: u32)
        ensures
            r == self.model().buffer,
    {
        self.buffer
    }

    pub fn array_id(&self) -> (r: u32)
        ensures
            r == self.model().array,
    {
        self.array
    }

    /// The number of whole vertices uploaded.
    pub fn vertex_count(&self) -> (r: u32)
        ensures
            r == self.model().vertex_count,
    {
        self.vertex_count
    }

    /// The descriptor entries recorded at upload, one per attribute, in order.
    pub fn bindings(&self) -> (r: &Vec<AttributeBinding>)
        ensures
            r@ == self.model().bindings,
    {
        &self.bindings
    }

    /// The calls that draw this geometry. They depend on this buffer alone.
    pub fn draw(&self) -> (r: Vec<NativeCall>)
        ensures
            calls_model(r@) == draw_calls(self.model().array, self.model().vertex_count),
    {
        let calls = vec![
            NativeCall::BindVertexArray { array: self.array },
            NativeCall::DrawTriangles { count: self.vertex_count },
        ];
        assert(calls_model(calls@) =~= draw_calls(self.array, self.vertex_count));
        calls
    }

    /// Ends the geometry's lifetime: the calls that delete its descriptor and buffer.
    pub fn release(self) -> (r: Vec<NativeCall>)
        ensures
            calls_model(r@) == seq![
                Call::DeleteVertexArray { array: self.model().array },
                Call::DeleteBuffer { buffer: self.model().buffer },
            ],
    {
        let calls = vec![
            NativeCall::DeleteVertexArray { array: self.array },
            NativeCall::DeleteBuffer { buffer: self.buffer },
        ];
        assert(calls_model(calls@) =~= seq![
            Call::DeleteVertexArray { array: self.array },
            Call::DeleteBuffer { buffer: self.buffer },
        ]);
        calls
    }
}

} // verus!
