//! The packing of the items of the enabled client arrays into one buffer
//! of interleaved vertices.

use vstd::prelude::*;
use crate::arrays::is_normalized;
use crate::arrays::get_packed_kind;
use crate::arrays::normalizes;
use crate::arrays::packed_kind;
use crate::arrays::ArraysModel;
use crate::arrays::ClientArrays;
use crate::arrays::Texturing;
use crate::arrays::PACKED_KIND_COUNT;
use crate::convert::packed_type_of;
use crate::layout::VertexBufferLayout;
use crate::layout::VertexInputType;
use crate::warning::Warning;

verus! {

impl ArraysModel {
    /// The number of bytes of the field that the `k`-th packed attribute has
    /// in a vertex.
    pub open spec fn field_len(&self, k: int) -> int {
        self.field_at(k, 0).byte_len()
    }

    /// The number of bytes in which a packed vertex holds one item of the
    /// `k`-th packed attribute.
    pub open spec fn packed_size(&self, k: int) -> int {
        self.field_at(k, 0).data_type.spec_size() as int
    }

    /// The bytes of item `e` of vertex `v` of the `k`-th packed attribute, as
    /// a packed vertex holds them.
    pub open spec fn packed_item_of(&self, k: int, v: int, e: int) -> Seq<u8> {
        let kind = packed_kind(k);
        let a = self.array(kind);
        let size = a.data_type.spec_size() as int;
        let at = (v * a.element_count + e) * size;
        crate::convert::packed_item(
            is_normalized(kind),
            a.data_type,
            a.bytes().subrange(at, at + size),
        )
    }

    /// Whether offset `o` of a vertex lies in the field of the `k`-th packed
    /// attribute.
    pub open spec fn in_field(&self, k: int, texturing: Texturing, o: int) -> bool {
        let start = self.offset_before(k as nat, texturing);
        self.included(k, texturing) && start <= o < start + self.field_len(k)
    }

    /// The byte that the `k`-th packed attribute puts at offset `o` of vertex
    /// `v`, for an offset that lies in its field.
    pub open spec fn field_byte(&self, k: int, texturing: Texturing, v: int, o: int) -> u8 {
        let within = o - self.offset_before(k as nat, texturing);
        let size = self.packed_size(k);
        self.packed_item_of(k, v, within / size)[within % size]
    }

    /// Whether the packing has, after the fields before the `at_k`-th, the
    /// vertices before `at_v` of that field and the items before `at_e` of
    /// that vertex, written offset `o` of vertex `v` in field `k`.
    pub open spec fn written(
        &self,
        k: int,
        texturing: Texturing,
        at_k: int,
        at_v: int,
        at_e: int,
        v: int,
        o: int,
    ) -> bool {
        let within = o - self.offset_before(k as nat, texturing);
        k < at_k || (k == at_k && (v < at_v || (v == at_v && within / self.packed_size(k)
            < at_e)))
    }

    /// The byte at offset `o` of vertex `v` at a point of the packing: what
    /// the field that holds the offset has put there, zero where none holds
    /// it or the packing has not come to it.
    pub open spec fn progress_byte(
        &self,
        texturing: Texturing,
        at_k: int,
        at_v: int,
        at_e: int,
        v: int,
        o: int,
    ) -> u8 {
        if self.in_field(0, texturing, o) && self.written(0, texturing, at_k, at_v, at_e, v, o) {
            self.field_byte(0, texturing, v, o)
        } else if self.in_field(1, texturing, o) && self.written(
            1,
            texturing,
            at_k,
            at_v,
            at_e,
            v,
            o,
        ) {
            self.field_byte(1, texturing, v, o)
        } else if self.in_field(2, texturing, o) && self.written(
            2,
            texturing,
            at_k,
            at_v,
            at_e,
            v,
            o,
        ) {
            self.field_byte(2, texturing, v, o)
        } else if self.in_field(3, texturing, o) && self.written(
            3,
            texturing,
            at_k,
            at_v,
            at_e,
            v,
            o,
        ) {
            self.field_byte(3, texturing, v, o)
        } else {
            0
        }
    }

    /// The number of vertices that are packed: those that every array in the
    /// vertex can fill, none where no array enters the vertex.
    pub open spec fn packed_count(&self, texturing: Texturing) -> int {
        match self.planned_vertex_count(texturing) {
            Some(count) => count as int,
            None => 0,
        }
    }

    /// The number of bytes of the packed vertices.
    pub open spec fn packed_len(&self, texturing: Texturing) -> int {
        self.packed_count(texturing) * self.planned_stride(texturing)
    }

    /// The buffer at a point of the packing.
    pub open spec fn progress(
        &self,
        texturing: Texturing,
        at_k: int,
        at_v: int,
        at_e: int,
    ) -> Seq<u8> {
        let stride = self.planned_stride(texturing);
        Seq::new(
            self.packed_len(texturing) as nat,
            |i: int| self.progress_byte(texturing, at_k, at_v, at_e, i / stride, i % stride),
        )
    }

    /// The byte at offset `o` of packed vertex `v`: what the field that
    /// holds the offset puts there, zero where no field holds it.
    pub open spec fn vertex_byte(&self, texturing: Texturing, v: int, o: int) -> u8 {
        if self.in_field(0, texturing, o) {
            self.field_byte(0, texturing, v, o)
        } else if self.in_field(1, texturing, o) {
            self.field_byte(1, texturing, v, o)
        } else if self.in_field(2, texturing, o) {
            self.field_byte(2, texturing, v, o)
        } else if self.in_field(3, texturing, o) {
            self.field_byte(3, texturing, v, o)
        } else {
            0
        }
    }

    /// The packed vertices: vertex after vertex, each `planned_stride` bytes
    /// long; in each the converted items of every field at the field's
    /// offset, and zero in the bytes between fields and in the texture index.
    pub open spec fn packed_buffer(&self, texturing: Texturing) -> Seq<u8> {
        let stride = self.planned_stride(texturing);
        Seq::new(
            self.packed_len(texturing) as nat,
            |i: int| self.vertex_byte(texturing, i / stride, i % stride),
        )
    }

    /// When the last field is written, the buffer holds the packed vertices.
    pub proof fn lemma_packing_done(&self, texturing: Texturing)
        ensures
            self.progress(texturing, PACKED_KIND_COUNT as int, 0, 0) == self.packed_buffer(
                texturing,
            ),
    {
        assert(self.progress(texturing, PACKED_KIND_COUNT as int, 0, 0) =~= self.packed_buffer(
            texturing,
        ));
    }
}
/// The bytes of an item of a vertex are those, and only those, whose place
/// in the buffer gives the vertex by division and, within the vertex, the
/// item by division again.
pub proof fn lemma_locate(stride: int, off: int, size: int, n: int, v: int, e: int, i: int)
    requires
        size > 0,
        0 <= off,
        off + n * size <= stride,
        0 <= v,
        0 <= e < n,
        0 <= i,
    ensures
        ({
            let to = v * stride + off + e * size;
            &&& (to <= i < to + size) <==> (i / stride == v && off <= i % stride < off + n * size
                && (i % stride - off) / size == e)
            &&& (to <= i < to + size) ==> (i % stride - off) % size == i - to
        }),
{
    let to = v * stride + off + e * size;
    assert((e + 1) * size <= n * size) by (nonlinear_arith)
        requires
            e < n,
            size > 0,
    ;
    assert((e + 1) * size == e * size + size) by (nonlinear_arith);
    assert(0 <= e * size) by (nonlinear_arith)
        requires
            0 <= e,
            size > 0,
    ;
    vstd::arithmetic::div_mod::lemma_fundamental_div_mod(i, stride);
    vstd::arithmetic::div_mod::lemma_mod_bound(i, stride);
    if to <= i < to + size {
        let b = i - to;
        let x = off + e * size + b;
        crate::pointer::lemma_vector_position(v, x, stride);
        assert(i == v * stride + x);
        crate::pointer::lemma_vector_position(e, b, size);
    }
    if i / stride == v && off <= i % stride < off + n * size && (i % stride - off) / size == e {
        let y = i % stride - off;
        vstd::arithmetic::div_mod::lemma_fundamental_div_mod(y, size);
        vstd::arithmetic::div_mod::lemma_mod_bound(y, size);
        assert(stride * (i / stride) == v * stride) by (nonlinear_arith)
            requires
                i / stride == v,
        ;
        assert(size * (y / size) == e * size) by (nonlinear_arith)
            requires
                y / size == e,
        ;
    }
}
impl ArraysModel {
    /// A packed item is as long as its packed type says.
    pub proof fn lemma_packed_item_len(&self, k: int, v: int, e: int)
        requires
            0 <= k < 4,
            self.array(packed_kind(k)).wf(),
            self.array(packed_kind(k)).data is Some,
            0 <= v < self.array(packed_kind(k)).vertex_count,
            0 <= e < self.array(packed_kind(k)).element_count,
        ensures
            self.packed_item_of(k, v, e).len() == self.packed_size(k),
            ({
                let a = self.array(packed_kind(k));
                let size = a.data_type.spec_size() as int;
                let at = (v * a.element_count + e) * size;
                0 <= at && at + size <= a.bytes().len()
            }),
    {
        let a = self.array(packed_kind(k));
        let size = a.data_type.spec_size() as int;
        let n = a.element_count as int;
        let count = a.vertex_count as int;
        assert(0 <= (v * n + e) * size && (v * n + e) * size + size <= count * (n * size))
            by (nonlinear_arith)
            requires
                0 <= v < count,
                0 <= e < n,
                size >= 1,
        ;
    }

    /// Writing one item moves the packing on by one item.
    pub proof fn lemma_pack_step(
        &self,
        texturing: Texturing,
        k: int,
        v: int,
        e: int,
        before: Seq<u8>,
        after: Seq<u8>,
    )
        requires
            self.packed_arrays_wf(),
            0 <= k < 4,
            self.included(k, texturing),
            0 <= v < self.packed_count(texturing),
            0 <= e < self.array(packed_kind(k)).element_count,
            before == self.progress(texturing, k, v, e),
            after == crate::convert::patched(
                before,
                v * self.planned_stride(texturing) + self.offset_before(k as nat, texturing) + e
                    * self.packed_size(k),
                self.packed_item_of(k, v, e),
            ),
        ensures
            after == self.progress(texturing, k, v, e + 1),
    {
        let stride = self.planned_stride(texturing);
        let off = self.offset_before(k as nat, texturing);
        let size = self.packed_size(k);
        let n = self.array(packed_kind(k)).element_count as int;
        let to = v * stride + off + e * size;
        self.lemma_field_within(texturing, k);
        self.lemma_count_is_least(texturing);
        self.lemma_packed_item_len(k, v, e);
        assert(self.field_len(k) == n * size) by (nonlinear_arith)
            requires
                self.field_len(k) == size * n,
        ;
        let want = self.progress(texturing, k, v, e + 1);
        assert forall|i: int| 0 <= i < after.len() implies after[i] == want[i] by {
            lemma_locate(stride, off, size, n, v, e, i);
            let iv = i / stride;
            let io = i % stride;
            if self.in_field(k, texturing, io) {
                if k != 0 {
                    self.lemma_one_field(texturing, 0, k, io);
                }
                if k != 1 {
                    self.lemma_one_field(texturing, 1, k, io);
                }
                if k != 2 {
                    self.lemma_one_field(texturing, 2, k, io);
                }
                if k != 3 {
                    self.lemma_one_field(texturing, 3, k, io);
                }
            }
            assert(before[i] == self.progress_byte(texturing, k, v, e, iv, io));
            assert(want[i] == self.progress_byte(texturing, k, v, e + 1, iv, io));
        }
        assert(after =~= want);
    }

    /// When the last item of a vertex is written, the packing stands at the
    /// start of the next vertex.
    pub proof fn lemma_next_vertex(&self, texturing: Texturing, k: int, v: int)
        requires
            self.packed_arrays_wf(),
            0 <= k < 4,
            self.included(k, texturing),
            0 <= v,
        ensures
            self.progress(texturing, k, v, self.array(packed_kind(k)).element_count as int)
                == self.progress(texturing, k, v + 1, 0),
    {
        let stride = self.planned_stride(texturing);
        let off = self.offset_before(k as nat, texturing);
        let size = self.packed_size(k);
        let n = self.array(packed_kind(k)).element_count as int;
        self.lemma_field_within(texturing, k);
        assert(self.field_len(k) == n * size) by (nonlinear_arith)
            requires
                self.field_len(k) == size * n,
        ;
        let a = self.progress(texturing, k, v, n);
        let b = self.progress(texturing, k, v + 1, 0);
        assert forall|i: int| 0 <= i < a.len() implies a[i] == b[i] by {
            let io = i % stride;
            let within = io - off;
            if self.in_field(k, texturing, io) {
                assert(within / size < n) by (nonlinear_arith)
                    requires
                        0 <= within < n * size,
                        size > 0,
                ;
                assert(within / size >= 0) by (nonlinear_arith)
                    requires
                        0 <= within,
                        size > 0,
                ;
            }
        }
        assert(a =~= b);
    }

    /// When the last vertex of a field is written, the packing stands at the
    /// start of the next field.
    pub proof fn lemma_next_field(&self, texturing: Texturing, k: int)
        requires
            self.packed_arrays_wf(),
            0 <= k < 4,
        ensures
            self.progress(texturing, k, self.packed_count(texturing), 0) == self.progress(
                texturing,
                k + 1,
                0,
                0,
            ),
            !self.included(k, texturing) ==> self.progress(texturing, k, 0, 0) == self.progress(
                texturing,
                k + 1,
                0,
                0,
            ),
    {
        let stride = self.planned_stride(texturing);
        let count = self.packed_count(texturing);
        let off = self.offset_before(k as nat, texturing);
        let size = self.packed_size(k);
        self.lemma_field_within(texturing, k);
        let a = self.progress(texturing, k, count, 0);
        let b = self.progress(texturing, k + 1, 0, 0);
        assert forall|i: int| 0 <= i < a.len() implies a[i] == b[i] by {
            let io = i % stride;
            let within = io - off;
            assert(count * stride >= 0) by (nonlinear_arith)
                requires
                    count >= 0,
                    stride >= 0,
            ;
            if count > 0 && stride > 0 {
                assert(i / stride < count) by (nonlinear_arith)
                    requires
                        0 <= i < count * stride,
                        stride > 0,
                ;
            }
            if self.in_field(k, texturing, io) {
                assert(within / size >= 0) by (nonlinear_arith)
                    requires
                        0 <= within,
                        size > 0,
                ;
            }
            if self.in_field(k + 1, texturing, io) && k + 1 < 4 {
                let w2 = io - self.offset_before((k + 1) as nat, texturing);
                let s2 = self.packed_size(k + 1);
                assert(w2 / s2 >= 0) by (nonlinear_arith)
                    requires
                        0 <= w2,
                        s2 > 0,
                ;
            }
        }
        assert(a =~= b);
        if !self.included(k, texturing) {
            let c = self.progress(texturing, k, 0, 0);
            assert forall|i: int| 0 <= i < c.len() implies c[i] == b[i] by {
                let io = i % stride;
                if self.in_field(k + 1, texturing, io) && k + 1 < 4 {
                    let w2 = io - self.offset_before((k + 1) as nat, texturing);
                    let s2 = self.packed_size(k + 1);
                    assert(w2 / s2 >= 0) by (nonlinear_arith)
                        requires
                            0 <= w2,
                            s2 > 0,
                    ;
                }
            }
            assert(c =~= b);
        }
    }

    /// Before anything is written, every byte is zero.
    pub proof fn lemma_unwritten(&self, texturing: Texturing)
        requires
            self.packed_arrays_wf(),
        ensures
            self.progress(texturing, 0, 0, 0) == Seq::new(
                self.packed_len(texturing) as nat,
                |i: int| 0u8,
            ),
    {
        let stride = self.planned_stride(texturing);
        let a = self.progress(texturing, 0, 0, 0);
        let z = Seq::new(self.packed_len(texturing) as nat, |i: int| 0u8);
        self.lemma_field_within(texturing, 0);
        assert forall|i: int| 0 <= i < a.len() implies a[i] == z[i] by {
            let io = i % stride;
            let within = io - self.offset_before(0, texturing);
            let size = self.packed_size(0);
            if self.in_field(0, texturing, io) {
                assert(within / size >= 0) by (nonlinear_arith)
                    requires
                        0 <= within,
                        size > 0,
                ;
                assert(stride > 0);
                assert(i / stride >= 0) by (nonlinear_arith)
                    requires
                        0 <= i,
                        stride > 0,
                ;
            }
        }
        assert(a =~= z);
    }
}

/// Packed vertices, their layout and their number, and what was found amiss
/// while they were laid out.
#[derive(Clone, Debug)]
pub struct PackedVertices {
    pub layout: VertexBufferLayout,
    pub vertex_count: u32,
    pub data: Vec<u8>,
    pub warnings: Vec<Warning>,
}

impl ClientArrays {
    /// Writes the field of the `k`-th packed attribute into every vertex.
    fn pack_field(
        &self,
        k: usize,
        texturing: Texturing,
        buffer: &mut Vec<u8>,
        count: usize,
        stride: usize,
        offset: usize,
    )
        requires
            k < PACKED_KIND_COUNT,
            self@.packed_arrays_wf(),
            self@.included(k as int, texturing),
            count == self@.packed_count(texturing),
            stride == self@.planned_stride(texturing),
            offset == self@.offset_before(k as nat, texturing),
            count * stride <= isize::MAX,
            old(buffer)@ == self@.progress(texturing, k as int, 0, 0),
        ensures
            final(buffer)@ == self@.progress(texturing, k as int + 1, 0, 0),
    {
        let kind = get_packed_kind(k);
        let array = self.get(kind);
        assert(*array == self@.array(kind));
        let normalized = normalizes(kind);
        let item_size: usize = array.data_type.size();
        let packed_size: usize = packed_type_of(normalized, array.data_type).size();
        let n: usize = array.element_count as usize;
        let source: &Vec<u8> = match &array.data {
            Some(bytes) => bytes,
            None => {
                return ;
            },
        };
        proof {
            self@.lemma_field_within(texturing, k as int);
            self@.lemma_count_is_least(texturing);
            assert(self@.field_len(k as int) == n * packed_size) by (nonlinear_arith)
                requires
                    self@.field_len(k as int) == packed_size * n,
            ;
            assert(array.wf());
        }
        let source_len: usize = source.len();
        let mut v: usize = 0;
        while v < count
            invariant
                0 <= v <= count,
                source_len == source@.len(),
                k < PACKED_KIND_COUNT,
                self@.packed_arrays_wf(),
                self@.included(k as int, texturing),
                *array == self@.array(packed_kind(k as int)),
                array.wf(),
                array.data is Some && array.bytes() == source@,
                normalized == is_normalized(packed_kind(k as int)),
                item_size == array.data_type.spec_size(),
                packed_size == self@.packed_size(k as int),
                1 <= n <= 4,
                n == array.element_count,
                count == self@.packed_count(texturing),
                count <= array.vertex_count,
                stride == self@.planned_stride(texturing),
                offset == self@.offset_before(k as nat, texturing),
                offset + n * packed_size <= stride <= 144,
                count * stride <= isize::MAX,
                buffer@ == self@.progress(texturing, k as int, v as int, 0),
            decreases count - v,
        {
            let mut e: usize = 0;
            while e < n
                invariant
                    0 <= e <= n,
                    0 <= v < count,
                    source_len == source@.len(),
                    k < PACKED_KIND_COUNT,
                    self@.packed_arrays_wf(),
                    self@.included(k as int, texturing),
                    *array == self@.array(packed_kind(k as int)),
                    array.wf(),
                    array.data is Some && array.bytes() == source@,
                    normalized == is_normalized(packed_kind(k as int)),
                    item_size == array.data_type.spec_size(),
                    packed_size == self@.packed_size(k as int),
                    1 <= n <= 4,
                    n == array.element_count,
                    count == self@.packed_count(texturing),
                    count <= array.vertex_count,
                    stride == self@.planned_stride(texturing),
                    offset == self@.offset_before(k as nat, texturing),
                    offset + n * packed_size <= stride <= 144,
                    count * stride <= isize::MAX,
                    buffer@ == self@.progress(texturing, k as int, v as int, e as int),
                decreases n - e,
            {
                proof {
                    self@.lemma_packed_item_len(k as int, v as int, e as int);
                    assert((e + 1) * packed_size <= n * packed_size) by (nonlinear_arith)
                        requires
                            e < n,
                    ;
                    assert((v + 1) * stride <= count * stride) by (nonlinear_arith)
                        requires
                            v < count,
                    ;
                    assert(0 <= v * n + e < array.vertex_count * n) by (nonlinear_arith)
                        requires
                            0 <= v < array.vertex_count,
                            0 <= e < n,
                    ;
                    assert((v * n + e) * item_size + item_size <= array.vertex_count * (n
                        * item_size)) by (nonlinear_arith)
                        requires
                            0 <= v * n + e < array.vertex_count * n,
                            item_size >= 1,
                    ;
                    assert(0 <= v * n <= (v * n + e) * item_size) by (nonlinear_arith)
                        requires
                            0 <= v,
                            0 <= e,
                            1 <= n,
                            item_size >= 1,
                    ;
                    assert(v * stride >= 0 && e * packed_size >= 0 && (v + 1) * stride == v
                        * stride + stride && (e + 1) * packed_size == e * packed_size
                        + packed_size) by (nonlinear_arith);
                    assert(buffer@.len() == count * stride);
                }
                let at: usize = (v * n + e) * item_size;
                let to: usize = v * stride + offset + e * packed_size;
                let ghost before = buffer@;
                crate::convert::pack_item(
                    normalized,
                    array.data_type,
                    source.as_slice(),
                    at,
                    buffer,
                    to,
                );
                proof {
                    self@.lemma_pack_step(
                        texturing,
                        k as int,
                        v as int,
                        e as int,
                        before,
                        buffer@,
                    );
                }
                e += 1;
            }
            proof {
                self@.lemma_next_vertex(texturing, k as int, v as int);
            }
            v += 1;
        }
        proof {
            self@.lemma_next_field(texturing, k as int);
        }
    }

    /// Packs the enabled arrays into one buffer of interleaved vertices.
    ///
    /// The result is `None` where the buffer would be longer than a buffer
    /// can be.
    pub fn assemble_buffer(&self, texturing: Texturing) -> (r: Option<PackedVertices>)
        ensures
            self@.wf(),
            r is Some <==> self@.packed_len(texturing) <= isize::MAX,
            r matches Some(packed) ==> {
                &&& packed.layout == self@.planned_layout(texturing)
                &&& forall|which: VertexInputType|
                    packed.layout.field(which) == self@.planned_field(which, texturing)
                &&& packed.layout.stride == self@.planned_stride(texturing)
                &&& packed.vertex_count == self@.packed_count(texturing)
                &&& packed.data@ == self@.packed_buffer(texturing)
                &&& packed.warnings@ == self@.planned_warnings(texturing)
            },
    {
        let plan = self.layout(texturing);
        proof {
            self@.lemma_packed_wf();
            self@.lemma_field_within(texturing, 0);
        }
        let vertex_count: u32 = match plan.vertex_count {
            Some(count) => count,
            None => 0,
        };
        let stride: usize = plan.layout.stride as usize;
        assert(vertex_count * plan.layout.stride <= 0xFF_0000_0000) by (nonlinear_arith)
            requires
                vertex_count <= 0xFFFF_FFFF,
                plan.layout.stride <= 255,
        ;
        let total: u64 = vertex_count as u64 * plan.layout.stride as u64;
        if total > isize::MAX as u64 {
            return None;
        }
        let count: usize = vertex_count as usize;
        assert(count * stride == total);
        let mut buffer: Vec<u8> = vec![0u8; count * stride];
        proof {
            self@.lemma_unwritten(texturing);
            assert(buffer@ =~= self@.progress(texturing, 0, 0, 0));
        }
        let mut k: usize = 0;
        let mut offset: usize = 0;
        while k < PACKED_KIND_COUNT
            invariant
                0 <= k <= PACKED_KIND_COUNT,
                self@.packed_arrays_wf(),
                count == self@.packed_count(texturing),
                stride == self@.planned_stride(texturing),
                count * stride <= isize::MAX,
                buffer@ == self@.progress(texturing, k as int, 0, 0),
                forall|which: VertexInputType|
                    plan.layout.field(which) == self@.planned_field(which, texturing),
            decreases PACKED_KIND_COUNT - k,
        {
            let which = if k == 0 {
                VertexInputType::Position
            } else if k == 1 {
                VertexInputType::Normal
            } else if k == 2 {
                VertexInputType::Color
            } else {
                VertexInputType::TexCoord
            };
            proof {
                self@.lemma_next_field(texturing, k as int);
                self@.lemma_field_within(texturing, k as int);
                assert(plan.layout.field(which) == self@.planned_field(which, texturing));
            }
            let field = match which {
                VertexInputType::Position => plan.layout.position(),
                VertexInputType::Normal => plan.layout.normal(),
                VertexInputType::Color => plan.layout.color(),
                _ => plan.layout.texcoord(),
            };
            match field {
                Some(f) => {
                    self.pack_field(k, texturing, &mut buffer, count, stride, f.offset as usize);
                },
                None => {},
            }
            k += 1;
        }
        proof {
            self@.lemma_packing_done(texturing);
        }
        Some(
            PackedVertices {
                layout: plan.layout,
                vertex_count,
                data: buffer,
                warnings: plan.warnings,
            },
        )
    }
}

} // verus!
