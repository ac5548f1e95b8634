//! The GPU mesh abstraction: a vertex buffer description with an interleaved
//! attribute layout, and the command sequences that upload and draw it.
//!
//! The one nontrivial algorithm here is the attribute-offset computation:
//! attribute `i` starts at the byte offset that is the prefix sum of the
//! byte sizes of all earlier attributes. `Vertex::new` validates every
//! caller-supplied quantity (list lengths, component counts, stride, data
//! size) and fails fast on any mismatch rather than describing an upload
//! that would read out of bounds.

use vstd::prelude::*;

use crate::commands::GlCommand;
use crate::commands::GlElementType;
use crate::commands::UsageHint;
use crate::commands::spec_element_size_bytes;
use crate::commands::vertex_array_binding_after;
use crate::commands::array_buffer_binding_after;
use crate::commands::lemma_trailing_unbinds_clear_bindings;

verus! {

/// Why a mesh description was rejected.
#[derive(Clone, Copy, Debug, PartialEq, Eq, Structural)]
pub enum MeshError {
    /// The element-type list and the component-count list differ in length.
    MismatchedAttributeLists,
    /// Some attribute has a component count outside 1..=4.
    InvalidComponentCount,
    /// The summed byte stride does not fit the API's signed 32-bit size.
    StrideTooLarge,
    /// The caller-supplied stride differs from the sum over the layout.
    StrideMismatch,
    /// The vertex count is negative.
    NegativeVertexCount,
    /// The data size does not equal stride times vertex count.
    DataSizeMismatch,
}

impl MeshError {
    /// A short description of the failure, for diagnostics in the shell.
    pub fn message(&self) -> &'static str {
        match self {
            MeshError::MismatchedAttributeLists => "attribute element-type and component-count lists differ in length",
            MeshError::InvalidComponentCount => "attribute component count must be between 1 and 4",
            MeshError::StrideTooLarge => "summed vertex stride exceeds the signed 32-bit limit",
            MeshError::StrideMismatch => "supplied stride does not match the attribute layout",
            MeshError::NegativeVertexCount => "vertex count must not be negative",
            MeshError::DataSizeMismatch => "vertex data size does not equal stride times vertex count",
        }
    }
}

/// Byte offset just past the first `n` attributes: the prefix sum of
/// `component_count * element_size` over attributes `0 .. n`.
pub open spec fn stride_bytes_up_to(types: Seq<GlElementType>, counts: Seq<i32>, n: int) -> int
    decreases n,
{
    if n <= 0 {
        0
    } else {
        stride_bytes_up_to(types, counts, n - 1) + counts[n - 1] * spec_element_size_bytes(types[n - 1])
    }
}

/// Byte distance between the starts of consecutive vertices: the prefix sum
/// over the whole layout.
pub open spec fn spec_stride_bytes(types: Seq<GlElementType>, counts: Seq<i32>) -> int {
    stride_bytes_up_to(types, counts, types.len() as int)
}

/// Byte offset of attribute `i` within one vertex.
pub open spec fn spec_offset_bytes(types: Seq<GlElementType>, counts: Seq<i32>, i: int) -> int {
    stride_bytes_up_to(types, counts, i)
}

/// All component counts lie in 1..=4.
pub open spec fn counts_in_range(counts: Seq<i32>) -> bool {
    forall|i: int| 0 <= i < counts.len() ==> 1 <= #[trigger] counts[i] <= 4
}

/// Each attribute contributes between 1 and 16 bytes, so the prefix sums
/// grow by at least one and at most sixteen bytes per attribute.
pub proof fn lemma_stride_growth(types: Seq<GlElementType>, counts: Seq<i32>, m: int, n: int)
    requires
        0 <= m <= n <= types.len(),
        types.len() == counts.len(),
        counts_in_range(counts),
    ensures
        stride_bytes_up_to(types, counts, m) + (n - m) <= stride_bytes_up_to(types, counts, n),
        stride_bytes_up_to(types, counts, n) <= stride_bytes_up_to(types, counts, m) + 16 * (n - m),
    decreases n - m,
{
    if m < n {
        lemma_stride_growth(types, counts, m, n - 1);
        let c = counts[n - 1];
        let s = spec_element_size_bytes(types[n - 1]);
        assert(1 <= c * s <= 16) by (nonlinear_arith)
            requires
                1 <= c <= 4,
                1 <= s <= 4,
        ;
    }
}

/// In a well-formed layout the attribute offsets are monotonically
/// increasing partial sums: each attribute starts strictly after the one
/// before it, and every offset stays within the stride.
pub proof fn lemma_offsets_strictly_increase(layout: VertexLayout, i: int, j: int)
    requires
        layout.wf(),
        0 <= i < j <= layout.element_types@.len(),
    ensures
        spec_offset_bytes(layout.element_types@, layout.component_counts@, i) < spec_offset_bytes(
            layout.element_types@,
            layout.component_counts@,
            j,
        ),
        spec_offset_bytes(layout.element_types@, layout.component_counts@, j) <= layout.spec_stride(),
{
    lemma_stride_growth(layout.element_types@, layout.component_counts@, i, j);
    lemma_stride_growth(layout.element_types@, layout.component_counts@, j, layout.element_types@.len() as int);
}

/// Validates the attribute lists shared by `VertexLayout::new` and
/// `Vertex::new`, and hands back the summed byte stride.
pub open spec fn layout_check_spec(types: Seq<GlElementType>, counts: Seq<i32>) -> Result<(), MeshError> {
    if types.len() != counts.len() {
        Err(MeshError::MismatchedAttributeLists)
    } else if !counts_in_range(counts) {
        Err(MeshError::InvalidComponentCount)
    } else if spec_stride_bytes(types, counts) > i32::MAX {
        Err(MeshError::StrideTooLarge)
    } else {
        Ok(())
    }
}

/// Checks the two attribute lists and computes their byte stride.
fn validate_layout(element_types: &Vec<GlElementType>, component_counts: &Vec<i32>) -> (r: Result<
    i32,
    MeshError,
>)
    ensures
        match r {
            Ok(stride) => {
                &&& layout_check_spec(element_types@, component_counts@) is Ok
                &&& stride == spec_stride_bytes(element_types@, component_counts@)
                &&& 0 <= stride
            },
            Err(e) => layout_check_spec(element_types@, component_counts@) == Err::<(), MeshError>(e),
        },
{
    let n = element_types.len();
    if n != component_counts.len() {
        return Err(MeshError::MismatchedAttributeLists);
    }
    let mut i: usize = 0;
    while i < n
        invariant
            n == element_types@.len(),
            n == component_counts@.len(),
            i <= n,
            forall|j: int| 0 <= j < i ==> 1 <= #[trigger] component_counts@[j] <= 4,
        decreases n - i,
    {
        let c = component_counts[i];
        if c < 1 || c > 4 {
            return Err(MeshError::InvalidComponentCount);
        }
        i = i + 1;
    }
    assert(counts_in_range(component_counts@));
    let mut stride: u64 = 0;
    let mut k: usize = 0;
    while k < n
        invariant
            n == element_types@.len(),
            n == component_counts@.len(),
            counts_in_range(component_counts@),
            k <= n,
            stride == stride_bytes_up_to(element_types@, component_counts@, k as int),
            stride <= i32::MAX,
        decreases n - k,
    {
        let c = component_counts[k];
        let s = element_types[k].size_bytes();
        assert((c as u64) * (s as u64) == c * s && 1 <= c * s <= 16) by (nonlinear_arith)
            requires
                1 <= c <= 4,
                1 <= s <= 4,
        ;
        stride = stride + (c as u64) * (s as u64);
        k = k + 1;
        if stride > i32::MAX as u64 {
            proof {
                lemma_stride_growth(element_types@, component_counts@, k as int, n as int);
            }
            return Err(MeshError::StrideTooLarge);
        }
    }
    Ok(stride as i32)
}

/// Ordered description of the per-vertex attributes of one interleaved
/// buffer: parallel lists of element types and component counts.
#[derive(Debug)]
pub struct VertexLayout {
    pub element_types: Vec<GlElementType>,
    pub component_counts: Vec<i32>,
}

impl VertexLayout {
    /// The layout's invariant: the lists pair up, component counts are in
    /// range, and the summed stride fits the API's signed 32-bit size.
    pub open spec fn wf(&self) -> bool {
        &&& self.element_types@.len() == self.component_counts@.len()
        &&& counts_in_range(self.component_counts@)
        &&& spec_stride_bytes(self.element_types@, self.component_counts@) <= i32::MAX
    }

    /// The layout's byte stride as a mathematical integer.
    pub open spec fn spec_stride(&self) -> int {
        spec_stride_bytes(self.element_types@, self.component_counts@)
    }

    /// Builds a layout, rejecting exactly the inputs that break the
    /// invariant.
    pub fn new(element_types: Vec<GlElementType>, component_counts: Vec<i32>) -> (r: Result<
        VertexLayout,
        MeshError,
    >)
        ensures
            match r {
                Ok(layout) => {
                    &&& layout_check_spec(element_types@, component_counts@) is Ok
                    &&& layout.element_types@ == element_types@
                    &&& layout.component_counts@ == component_counts@
                    &&& layout.wf()
                },
                Err(e) => layout_check_spec(element_types@, component_counts@) == Err::<(), MeshError>(e),
            },
    {
        match validate_layout(&element_types, &component_counts) {
            Ok(_) => Ok(VertexLayout { element_types, component_counts }),
            Err(e) => Err(e),
        }
    }

    /// Number of attributes.
    pub fn attribute_count(&self) -> (n: usize)
        ensures
            n == self.element_types@.len(),
    {
        self.element_types.len()
    }

    /// The byte stride of one vertex.
    pub fn stride_bytes(&self) -> (stride: i32)
        requires
            self.wf(),
        ensures
            stride == self.spec_stride(),
    {
        let n = self.element_types.len();
        let mut stride: u64 = 0;
        let mut k: usize = 0;
        while k < n
            invariant
                self.wf(),
                n == self.element_types@.len(),
                k <= n,
                stride == stride_bytes_up_to(self.element_types@, self.component_counts@, k as int),
                stride <= i32::MAX,
            decreases n - k,
        {
            let c = self.component_counts[k];
            let s = self.element_types[k].size_bytes();
            assert((c as u64) * (s as u64) == c * s && 1 <= c * s <= 16) by (nonlinear_arith)
                requires
                    1 <= c <= 4,
                    1 <= s <= 4,
            ;
            proof {
                lemma_stride_growth(self.element_types@, self.component_counts@, k as int + 1, n as int);
            }
            stride = stride + (c as u64) * (s as u64);
            k = k + 1;
        }
        stride as i32
    }

    /// The byte offset of every attribute: exactly the prefix sums of the
    /// byte sizes of the attributes before it. This is the pure form of the
    /// walking accumulation that the upload command sequence performs.
    pub fn attribute_offsets(&self) -> (offsets: Vec<usize>)
        requires
            self.wf(),
        ensures
            offsets@.len() == self.element_types@.len(),
            forall|i: int|
                0 <= i < offsets@.len() ==> offsets@[i] == spec_offset_bytes(
                    self.element_types@,
                    self.component_counts@,
                    i,
                ),
    {
        let n = self.element_types.len();
        let mut offsets: Vec<usize> = Vec::new();
        let mut offset: u64 = 0;
        let mut k: usize = 0;
        while k < n
            invariant
                self.wf(),
                n == self.element_types@.len(),
                k <= n,
                offset == spec_offset_bytes(self.element_types@, self.component_counts@, k as int),
                offset <= i32::MAX,
                offsets@.len() == k,
                forall|i: int|
                    0 <= i < k ==> offsets@[i] == spec_offset_bytes(
                        self.element_types@,
                        self.component_counts@,
                        i,
                    ),
            decreases n - k,
        {
            offsets.push(offset as usize);
            let c = self.component_counts[k];
            let s = self.element_types[k].size_bytes();
            assert((c as u64) * (s as u64) == c * s && 1 <= c * s <= 16) by (nonlinear_arith)
                requires
                    1 <= c <= 4,
                    1 <= s <= 4,
            ;
            proof {
                lemma_stride_growth(self.element_types@, self.component_counts@, k as int + 1, n as int);
            }
            offset = offset + (c as u64) * (s as u64);
            k = k + 1;
        }
        offsets
    }
}

/// Everything `Vertex::new` rejects, in the order it is checked.
pub open spec fn mesh_new_spec(
    size: usize,
    types: Seq<GlElementType>,
    counts: Seq<i32>,
    stride: i32,
    vertex_num: i32,
) -> Result<(), MeshError> {
    if layout_check_spec(types, counts) is Err {
        layout_check_spec(types, counts)
    } else if stride != spec_stride_bytes(types, counts) {
        Err(MeshError::StrideMismatch)
    } else if vertex_num < 0 {
        Err(MeshError::NegativeVertexCount)
    } else if size != stride * vertex_num {
        Err(MeshError::DataSizeMismatch)
    } else {
        Ok(())
    }
}

/// The upload commands for attributes `0 .. n`: for each attribute, enable
/// its slot and describe it with its component count, element type, the
/// shared stride and its prefix-sum byte offset.
pub open spec fn attribute_setup_commands(
    types: Seq<GlElementType>,
    counts: Seq<i32>,
    stride: i32,
    n: int,
) -> Seq<GlCommand>
    decreases n,
{
    if n <= 0 {
        Seq::empty()
    } else {
        attribute_setup_commands(types, counts, stride, n - 1) + seq![
            GlCommand::EnableVertexAttribArray((n - 1) as u32),
            GlCommand::VertexAttribPointer {
                index: (n - 1) as u32,
                component_count: counts[n - 1],
                element_type: types[n - 1],
                normalized: false,
                stride_bytes: stride,
                offset_bytes: spec_offset_bytes(types, counts, n - 1) as usize,
            },
        ]
    }
}

/// The full creation-time command sequence: bind the two objects, upload
/// the data once, describe every attribute, then clear both bindings.
pub open spec fn setup_commands_spec(
    vao: u32,
    vbo: u32,
    size: usize,
    usage: UsageHint,
    types: Seq<GlElementType>,
    counts: Seq<i32>,
    stride: i32,
) -> Seq<GlCommand> {
    seq![
        GlCommand::BindVertexArray(vao),
        GlCommand::BindArrayBuffer(vbo),
        GlCommand::BufferData { size_bytes: size, usage },
    ] + attribute_setup_commands(types, counts, stride, types.len() as int) + seq![
        GlCommand::BindArrayBuffer(0u32),
        GlCommand::BindVertexArray(0u32),
    ]
}

/// The draw-time command sequence: bind the vertex array, issue one
/// triangle-list draw of all vertices from index 0, unbind.
pub open spec fn draw_commands_spec(v: Vertex) -> Seq<GlCommand> {
    seq![
        GlCommand::BindVertexArray(v.vao),
        GlCommand::DrawTriangles { first: 0, count: v.vertex_num },
        GlCommand::BindVertexArray(0u32),
    ]
}

/// A GPU-resident mesh: the names of its vertex array object and buffer
/// object, plus the number of vertices one draw call covers.
#[derive(Clone, Copy, Debug, PartialEq, Eq, Structural)]
pub struct Vertex {
    pub vao: u32,
    pub vbo: u32,
    pub vertex_num: i32,
}

impl Vertex {
    /// Describes the one-time upload of `size` bytes of interleaved vertex
    /// data laid out by the two attribute lists. Succeeds exactly when the
    /// lists pair up, every component count is in range, the stride equals
    /// the layout's prefix-sum total, and the data size equals stride times
    /// vertex count; any mismatch is rejected before a single command is
    /// produced. The command sequence ends with both bindings cleared, so
    /// later unrelated commands cannot mutate this mesh.
    pub fn new(
        vao: u32,
        vbo: u32,
        size: usize,
        usage: UsageHint,
        attribute_type_vec: Vec<GlElementType>,
        attribute_size_vec: Vec<i32>,
        stride: i32,
        vertex_num: i32,
    ) -> (r: Result<(Vertex, Vec<GlCommand>), MeshError>)
        ensures
            match r {
                Ok(pair) => {
                    &&& mesh_new_spec(size, attribute_type_vec@, attribute_size_vec@, stride, vertex_num)
                        is Ok
                    &&& pair.0 == (Vertex { vao, vbo, vertex_num })
                    &&& pair.1@ == setup_commands_spec(
                        vao,
                        vbo,
                        size,
                        usage,
                        attribute_type_vec@,
                        attribute_size_vec@,
                        stride,
                    )
                    &&& forall|initial: u32| vertex_array_binding_after(#[trigger] pair.1@, initial) == 0
                    &&& forall|initial: u32| array_buffer_binding_after(#[trigger] pair.1@, initial) == 0
                },
                Err(e) => mesh_new_spec(size, attribute_type_vec@, attribute_size_vec@, stride, vertex_num)
                    == Err::<(), MeshError>(e),
            },
    {
        let computed_stride = match validate_layout(&attribute_type_vec, &attribute_size_vec) {
            Ok(s) => s,
            Err(e) => {
                return Err(e);
            },
        };
        if stride != computed_stride {
            return Err(MeshError::StrideMismatch);
        }
        if vertex_num < 0 {
            return Err(MeshError::NegativeVertexCount);
        }
        assert((stride as u64) * (vertex_num as u64) == stride * vertex_num) by (nonlinear_arith)
            requires
                0 <= stride,
                0 <= vertex_num,
        ;
        assert(stride * vertex_num <= 0x7fffffffu64 * 0x7fffffffu64) by (nonlinear_arith)
            requires
                0 <= stride <= 0x7fffffff,
                0 <= vertex_num <= 0x7fffffff,
        ;
        if (size as u64) != (stride as u64) * (vertex_num as u64) {
            return Err(MeshError::DataSizeMismatch);
        }
        let n = attribute_type_vec.len();
        let mut cmds: Vec<GlCommand> = Vec::new();
        cmds.push(GlCommand::BindVertexArray(vao));
        cmds.push(GlCommand::BindArrayBuffer(vbo));
        cmds.push(GlCommand::BufferData { size_bytes: size, usage });
        let ghost prefix = cmds@;
        let mut offset: u64 = 0;
        let mut i: usize = 0;
        while i < n
            invariant
                n == attribute_type_vec@.len(),
                n == attribute_size_vec@.len(),
                counts_in_range(attribute_size_vec@),
                stride == spec_stride_bytes(attribute_type_vec@, attribute_size_vec@),
                stride <= i32::MAX,
                i <= n,
                offset == spec_offset_bytes(attribute_type_vec@, attribute_size_vec@, i as int),
                offset <= i32::MAX,
                prefix.len() == 3,
                cmds@ == prefix + attribute_setup_commands(
                    attribute_type_vec@,
                    attribute_size_vec@,
                    stride,
                    i as int,
                ),
            decreases n - i,
        {
            proof {
                lemma_stride_growth(attribute_type_vec@, attribute_size_vec@, 0, n as int);
                lemma_stride_growth(attribute_type_vec@, attribute_size_vec@, i as int, n as int);
            }
            cmds.push(GlCommand::EnableVertexAttribArray(i as u32));
            cmds.push(
                GlCommand::VertexAttribPointer {
                    index: i as u32,
                    component_count: attribute_size_vec[i],
                    element_type: attribute_type_vec[i],
                    normalized: false,
                    stride_bytes: stride,
                    offset_bytes: offset as usize,
                },
            );
            let c = attribute_size_vec[i];
            let s = attribute_type_vec[i].size_bytes();
            assert((c as u64) * (s as u64) == c * s && 1 <= c * s <= 16) by (nonlinear_arith)
                requires
                    1 <= c <= 4,
                    1 <= s <= 4,
            ;
            proof {
                lemma_stride_growth(attribute_type_vec@, attribute_size_vec@, i as int + 1, n as int);
            }
            offset = offset + (c as u64) * (s as u64);
            i = i + 1;
            proof {
                assert(cmds@ =~= prefix + attribute_setup_commands(
                    attribute_type_vec@,
                    attribute_size_vec@,
                    stride,
                    i as int,
                ));
            }
        }
        cmds.push(GlCommand::BindArrayBuffer(0));
        cmds.push(GlCommand::BindVertexArray(0));
        proof {
            assert(cmds@ =~= setup_commands_spec(
                vao,
                vbo,
                size,
                usage,
                attribute_type_vec@,
                attribute_size_vec@,
                stride,
            ));
            assert forall|initial: u32|
                vertex_array_binding_after(#[trigger] cmds@, initial) == 0
                    && array_buffer_binding_after(cmds@, initial) == 0 by {
                lemma_trailing_unbinds_clear_bindings(cmds@, initial, initial);
            }
        }
        Ok((Vertex { vao, vbo, vertex_num }, cmds))
    }

    /// Describes one draw of this mesh: bind its vertex array, issue a
    /// triangle-list draw of `vertex_num` vertices starting at index 0,
    /// then unbind. The vertex-array binding ends cleared and the array
    /// buffer binding is never touched, so callers observe no persistent
    /// binding change.
    pub fn draw(&self) -> (cmds: Vec<GlCommand>)
        ensures
            cmds@ == draw_commands_spec(*self),
            forall|initial: u32| vertex_array_binding_after(#[trigger] cmds@, initial) == 0,
            forall|initial: u32| array_buffer_binding_after(#[trigger] cmds@, initial) == initial,
    {
        let mut cmds: Vec<GlCommand> = Vec::new();
        cmds.push(GlCommand::BindVertexArray(self.vao));
        cmds.push(GlCommand::DrawTriangles { first: 0, count: self.vertex_num });
        cmds.push(GlCommand::BindVertexArray(0));
        proof {
            assert(cmds@ =~= draw_commands_spec(*self));
            assert forall|initial: u32|
                vertex_array_binding_after(#[trigger] cmds@, initial) == 0
                    && array_buffer_binding_after(cmds@, initial) == initial by {
                let s3 = cmds@;
                let s2 = s3.drop_last();
                let s1 = s2.drop_last();
                assert(s3.last() == GlCommand::BindVertexArray(0u32));
                assert(vertex_array_binding_after(s3, initial) == 0);
                assert(s2.last() == (GlCommand::DrawTriangles { first: 0, count: self.vertex_num }));
                assert(s1.last() == GlCommand::BindVertexArray(self.vao));
                assert(array_buffer_binding_after(s3, initial) == array_buffer_binding_after(s2, initial));
                assert(array_buffer_binding_after(s2, initial) == array_buffer_binding_after(s1, initial));
                assert(array_buffer_binding_after(s1, initial) == array_buffer_binding_after(s1.drop_last(), initial));
                assert(s1.drop_last().len() == 0);
            }
        }
        cmds
    }
}

} // verus!
