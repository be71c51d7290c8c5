//! The layout of the vertex that the enabled client arrays give.

use vstd::prelude::*;
use crate::arrays::is_normalized;
use crate::arrays::get_packed_kind;
use crate::arrays::normalizes;
use crate::arrays::packed_kind;
use crate::arrays::ArraysModel;
use crate::arrays::ClientArrays;
use crate::arrays::Texturing;
use crate::arrays::PACKED_KIND_COUNT;
use crate::convert::packed_type;
use crate::convert::packed_type_of;
use crate::gl::PointerArrayType;
use crate::gl::PointerDataType;
use crate::layout::round_up;
use crate::layout::VertexBufferLayout;
use crate::layout::VertexInputSpec;
use crate::layout::VertexInputType;
use crate::warning::Warning;

verus! {

/// The layout that the enabled arrays give, the number of vertices that all
/// of them can fill, and what was found amiss on the way.
#[derive(Clone, Debug)]
pub struct LayoutPlan {
    pub layout: VertexBufferLayout,
    /// The least length among the arrays that enter the vertex; `None` where
    /// none does.
    pub vertex_count: Option<u32>,
    pub warnings: Vec<Warning>,
}

impl ArraysModel {
    /// Why the texture coordinates stay out of the vertex, if they do for a
    /// reason of the texturing state or of their own format.
    pub open spec fn texcoord_obstacle(&self, texturing: Texturing) -> Option<Warning> {
        let a = self.array(PointerArrayType::TexCoord);
        if !texturing.enabled {
            Some(Warning::TexturingDisabled)
        } else if !texturing.bound {
            Some(Warning::NoActiveTexture)
        } else if !a.data_type.spec_is_float() || a.element_count != 2 {
            Some(Warning::BadTexCoordFormat)
        } else {
            None
        }
    }

    /// Whether the array of the `k`-th packed attribute enters the vertex: it
    /// is enabled and bound, and texture coordinates are pairs of
    /// floating-point numbers for a texture that is bound while texturing is
    /// switched on.
    pub open spec fn included(&self, k: int, texturing: Texturing) -> bool {
        let a = self.array(packed_kind(k));
        &&& a.enabled
        &&& a.data is Some
        &&& k == 3 ==> self.texcoord_obstacle(texturing) is None
    }

    /// The field of the `k`-th packed attribute at a given offset.
    pub open spec fn field_at(&self, k: int, offset: int) -> VertexInputSpec {
        let kind = packed_kind(k);
        let a = self.array(kind);
        VertexInputSpec {
            data_type: packed_type(is_normalized(kind), a.data_type),
            num_elements: a.element_count,
            offset: offset as u8,
        }
    }

    /// The number of bytes by which the `k`-th packed attribute lengthens the
    /// vertex: the bytes of its field, rounded up to a multiple of four, and
    /// behind texture coordinates four more for the texture index.
    #[verifier::opaque]
    pub open spec fn span(&self, k: int, texturing: Texturing) -> int {
        if self.included(k, texturing) {
            round_up(self.field_at(k, 0).byte_len(), 4) + if k == 3 {
                4int
            } else {
                0int
            }
        } else {
            0
        }
    }

    /// The length of a vertex that holds the first `k` packed attributes:
    /// the offset at which the field of the next one starts.
    pub open spec fn offset_before(&self, k: nat, texturing: Texturing) -> int
        decreases k,
    {
        if k == 0 {
            0
        } else {
            self.offset_before((k - 1) as nat, texturing) + self.span(k - 1, texturing)
        }
    }

    /// The distance from one packed vertex to the next.
    pub open spec fn planned_stride(&self, texturing: Texturing) -> int {
        self.offset_before(PACKED_KIND_COUNT as nat, texturing)
    }

    /// The field that a packed vertex has for an input, if it has one.
    pub open spec fn planned_field(&self, which: VertexInputType, texturing: Texturing) -> Option<
        VertexInputSpec,
    > {
        let k = Self::source_of(which);
        if !self.included(k, texturing) {
            None
        } else if which == VertexInputType::TexIndex {
            Some(
                VertexInputSpec {
                    data_type: PointerDataType::U16,
                    num_elements: 1,
                    offset: (self.offset_before(3, texturing) + round_up(
                        self.field_at(3, 0).byte_len(),
                        4,
                    )) as u8,
                },
            )
        } else {
            Some(self.field_at(k, self.offset_before(k as nat, texturing)))
        }
    }

    /// Whether a layout is the one that the enabled arrays give.
    pub open spec fn is_planned_layout(
        &self,
        texturing: Texturing,
        layout: VertexBufferLayout,
    ) -> bool {
        &&& layout.stride == self.planned_stride(texturing)
        &&& forall|which: VertexInputType|
            layout.field(which) == self.planned_field(which, texturing)
    }

    /// The layout that the enabled arrays give.
    pub open spec fn planned_layout(&self, texturing: Texturing) -> VertexBufferLayout {
        choose|layout: VertexBufferLayout| self.is_planned_layout(texturing, layout)
    }

    /// There is but one layout that the enabled arrays give.
    pub proof fn lemma_planned_layout(&self, texturing: Texturing, layout: VertexBufferLayout)
        requires
            self.is_planned_layout(texturing, layout),
        ensures
            layout == self.planned_layout(texturing),
    {
        VertexBufferLayout::lemma_extensional(layout, self.planned_layout(texturing));
    }

    /// The packed attribute whose array brings an input into the vertex.
    pub open spec fn source_of(which: VertexInputType) -> int {
        match which {
            VertexInputType::Position => 0,
            VertexInputType::Normal => 1,
            VertexInputType::Color => 2,
            VertexInputType::TexCoord => 3,
            VertexInputType::TexIndex => 3,
        }
    }

    /// The least length among those of the first `k` packed attributes whose
    /// arrays enter the vertex.
    pub open spec fn count_before(&self, k: nat, texturing: Texturing) -> Option<u32>
        decreases k,
    {
        if k == 0 {
            None
        } else {
            let before = self.count_before((k - 1) as nat, texturing);
            let own = self.array(packed_kind(k - 1)).vertex_count;
            if !self.included(k - 1, texturing) {
                before
            } else if before matches Some(count) && count <= own {
                before
            } else {
                Some(own)
            }
        }
    }

    /// The number of vertices that every array in the vertex can fill.
    pub open spec fn planned_vertex_count(&self, texturing: Texturing) -> Option<u32> {
        self.count_before(PACKED_KIND_COUNT as nat, texturing)
    }

    /// Why the array of the `k`-th packed attribute stays out of the vertex
    /// though it is enabled.
    pub open spec fn warnings_at(&self, k: int, texturing: Texturing) -> Seq<Warning> {
        let kind = packed_kind(k);
        let a = self.array(kind);
        if !a.enabled {
            seq![]
        } else if a.data is None {
            seq![Warning::MissingArrayData { array: kind }]
        } else if k == 3 && self.texcoord_obstacle(texturing) is Some {
            seq![self.texcoord_obstacle(texturing).unwrap()]
        } else {
            seq![]
        }
    }

    /// Why arrays of the first `k` packed attributes stay out of the vertex
    /// though they are enabled.
    pub open spec fn warnings_before(&self, k: nat, texturing: Texturing) -> Seq<Warning>
        decreases k,
    {
        if k == 0 {
            seq![]
        } else {
            self.warnings_before((k - 1) as nat, texturing) + self.warnings_at(k - 1, texturing)
        }
    }

    /// The remark on the array of the `k`-th packed attribute where it is
    /// cut: it enters the vertex and is longer than the shortest array that
    /// does. The remark names the array, its length, and the length that
    /// is left of it.
    pub open spec fn truncated_at(&self, k: int, texturing: Texturing) -> Seq<Warning> {
        let kind = packed_kind(k);
        let a = self.array(kind);
        match self.planned_vertex_count(texturing) {
            Some(count) if self.included(k, texturing) && count < a.vertex_count => seq![
                Warning::LengthMismatch {
                    array: kind,
                    array_length: a.vertex_count,
                    packed_length: count,
                },
            ],
            _ => seq![],
        }
    }

    /// The remarks on those arrays of the first `k` packed attributes that
    /// are cut.
    pub open spec fn truncated_before(&self, k: nat, texturing: Texturing) -> Seq<Warning>
        decreases k,
    {
        if k == 0 {
            seq![]
        } else {
            self.truncated_before((k - 1) as nat, texturing) + self.truncated_at(k - 1, texturing)
        }
    }

    /// The attributes that take no part in vertex assembly, in the order in
    /// which their arrays are looked at.
    pub open spec fn unsupported_kind(k: int) -> PointerArrayType {
        if k == 0 {
            PointerArrayType::EdgeFlag
        } else if k == 1 {
            PointerArrayType::FogCoord
        } else if k == 2 {
            PointerArrayType::ColorIndex
        } else {
            PointerArrayType::SecondaryColor
        }
    }

    /// The remarks on the first `k` arrays that are enabled though their
    /// attribute takes no part in vertex assembly.
    pub open spec fn unsupported_before(&self, k: nat) -> Seq<Warning>
        decreases k,
    {
        if k == 0 {
            seq![]
        } else {
            let kind = Self::unsupported_kind(k - 1);
            self.unsupported_before((k - 1) as nat) + if self.array(kind).enabled {
                seq![Warning::UnsupportedArray { array: kind }]
            } else {
                seq![]
            }
        }
    }

    /// Everything that is found amiss while a vertex is laid out: first the
    /// arrays that stay out of the vertex, then those that are cut, then
    /// those whose attribute takes no part.
    pub open spec fn planned_warnings(&self, texturing: Texturing) -> Seq<Warning> {
        self.warnings_before(PACKED_KIND_COUNT as nat, texturing) + self.truncated_before(
            PACKED_KIND_COUNT as nat,
            texturing,
        ) + self.unsupported_before(4)
    }

    /// A field takes at most 32 bytes, and the vertex grows by at most 36
    /// with each attribute.
    proof fn lemma_span_bound(&self, k: int, texturing: Texturing)
        requires
            0 <= k < 4,
            self.array(packed_kind(k)).wf(),
        ensures
            0 <= self.span(k, texturing) <= 36,
            self.span(k, texturing) % 4 == 0,
            self.included(k, texturing) ==> 1 <= self.field_at(k, 0).byte_len() <= 32,
            self.included(k, texturing) ==> self.field_at(k, 0).byte_len() <= self.span(
                k,
                texturing,
            ),
            self.included(k, texturing) && k == 3 ==> self.span(k, texturing) == 12,
    {
        reveal(ArraysModel::span);
        let f = self.field_at(k, 0);
        if self.included(k, texturing) {
            let size = f.data_type.spec_size();
            let n = f.num_elements;
            assert(1 <= size * n <= 32) by (nonlinear_arith)
                requires
                    1 <= n <= 4,
                    1 <= size <= 8,
            ;
        }
    }
}

impl ClientArrays {
    /// Whether the array of the `k`-th packed attribute enters the vertex.
    fn is_included(&self, k: usize, texturing: Texturing) -> (r: bool)
        requires
            k < PACKED_KIND_COUNT,
        ensures
            r == self@.included(k as int, texturing),
    {
        let kind = get_packed_kind(k);
        let array = self.get(kind);
        assert(*array == self@.array(kind));
        array.enabled && array.data.is_some() && (k != 3 || (texturing.enabled && texturing.bound
            && array.data_type.is_float() && array.element_count == 2))
    }

    /// Adds the field of the `k`-th packed attribute to a layout that holds
    /// those of the attributes before it.
    fn plan_field(
        &self,
        k: usize,
        texturing: Texturing,
        layout: &mut VertexBufferLayout,
        vertex_count: &mut Option<u32>,
        warnings: &mut Vec<Warning>,
    )
        requires
            k < PACKED_KIND_COUNT,
            old(layout).stride == self@.offset_before(k as nat, texturing),
            old(layout).stride <= 36 * k,
            old(layout).stride % 4 == 0,
            forall|which: VertexInputType|
                ArraysModel::source_of(which) == k ==> old(layout).field(which) is None,
            *old(vertex_count) == self@.count_before(k as nat, texturing),
        ensures
            final(layout).stride == self@.offset_before((k + 1) as nat, texturing),
            final(layout).stride <= 36 * (k + 1),
            final(layout).stride % 4 == 0,
            forall|which: VertexInputType|
                #![trigger final(layout).field(which)]
                final(layout).field(which) == if ArraysModel::source_of(which) == k {
                    self@.planned_field(which, texturing)
                } else {
                    old(layout).field(which)
                },
            *final(vertex_count) == self@.count_before((k + 1) as nat, texturing),
            final(warnings)@ == old(warnings)@ + self@.warnings_at(k as int, texturing),
    {
        let kind = get_packed_kind(k);
        let array = self.get(kind);
        proof {
            reveal(ArraysModel::span);
            assert(*array == self@.array(kind));
            assert(array.wf());
            self@.lemma_span_bound(k as int, texturing);
        }
        if !array.enabled {
            assert(!self@.included(k as int, texturing));
        } else if array.data.is_none() {
            warnings.push(Warning::MissingArrayData { array: kind });
        } else if k == 3 && !texturing.enabled {
            warnings.push(Warning::TexturingDisabled);
        } else if k == 3 && !texturing.bound {
            warnings.push(Warning::NoActiveTexture);
        } else if k == 3 && (!array.data_type.is_float() || array.element_count != 2) {
            warnings.push(Warning::BadTexCoordFormat);
        } else {
            assert(self@.included(k as int, texturing));
            match *vertex_count {
                Some(count) => {
                    if array.vertex_count < count {
                        *vertex_count = Some(array.vertex_count);
                    }
                },
                None => {
                    *vertex_count = Some(array.vertex_count);
                },
            }
            let data_type = packed_type_of(normalizes(kind), array.data_type);
            let size: u8 = data_type.size() as u8;
            let field = VertexInputSpec {
                data_type,
                num_elements: array.element_count,
                offset: layout.stride,
            };
            assert(field == self@.field_at(k as int, layout.stride as int));
            assert(field.byte_len() == self@.field_at(k as int, 0).byte_len());
            if k == 0 {
                layout.fields[0] = Some(field);
            } else if k == 1 {
                layout.fields[1] = Some(field);
            } else if k == 2 {
                layout.fields[2] = Some(field);
            } else {
                layout.fields[3] = Some(field);
            }
            assert(size * array.element_count == field.byte_len()) by (nonlinear_arith)
                requires
                    size == field.data_type.spec_size(),
                    array.element_count == field.num_elements,
                    field.byte_len() == field.data_type.spec_size() * field.num_elements,
            ;
            layout.stride += size * array.element_count;
            layout.align_to(4);
            if k == 3 {
                layout.fields[4] = Some(
                    VertexInputSpec {
                        data_type: PointerDataType::U16,
                        num_elements: 1,
                        offset: layout.stride,
                    },
                );
                layout.stride += 2;
                layout.align_to(4);
            }
        }
        proof {
            reveal(ArraysModel::span);
            assert(warnings@ =~= old(warnings)@ + self@.warnings_at(k as int, texturing));
            assert(self@.offset_before((k + 1) as nat, texturing) == self@.offset_before(
                k as nat,
                texturing,
            ) + self@.span(k as int, texturing));
            assert(layout.stride == old(layout).stride + self@.span(k as int, texturing));
            assert forall|which: VertexInputType|
                #![trigger layout.field(which)]
                layout.field(which) == if ArraysModel::source_of(which) == k {
                    self@.planned_field(which, texturing)
                } else {
                    old(layout).field(which)
                } by {
                match which {
                    VertexInputType::Position => {},
                    VertexInputType::Normal => {},
                    VertexInputType::Color => {},
                    VertexInputType::TexCoord => {},
                    VertexInputType::TexIndex => {},
                }
            }
        }
    }

    /// Lays out the vertex that the enabled arrays give.
    ///
    /// The fields follow each other in the order position, normal, colour,
    /// texture coordinates; each starts at a multiple of four, and texture
    /// coordinates are followed by a 16-bit texture index.
    pub fn layout(&self, texturing: Texturing) -> (r: LayoutPlan)
        ensures
            self@.wf(),
            r.layout == self@.planned_layout(texturing),
            forall|which: VertexInputType|
                r.layout.field(which) == self@.planned_field(which, texturing),
            r.layout.stride == self@.planned_stride(texturing),
            r.layout.stride % 4 == 0,
            r.vertex_count == self@.planned_vertex_count(texturing),
            r.warnings@ == self@.planned_warnings(texturing),
    {
        self.check();
        let mut layout = VertexBufferLayout::empty();
        let mut vertex_count: Option<u32> = None;
        let mut warnings: Vec<Warning> = Vec::new();
        let mut k: usize = 0;
        while k < PACKED_KIND_COUNT
            invariant
                0 <= k <= PACKED_KIND_COUNT,
                layout.stride == self@.offset_before(k as nat, texturing),
                layout.stride <= 36 * k,
                layout.stride % 4 == 0,
                forall|which: VertexInputType|
                    #![trigger layout.field(which)]
                    layout.field(which) == if ArraysModel::source_of(which) < k {
                        self@.planned_field(which, texturing)
                    } else {
                        None
                    },
                vertex_count == self@.count_before(k as nat, texturing),
                warnings@ == self@.warnings_before(k as nat, texturing),
            decreases PACKED_KIND_COUNT - k,
        {
            let ghost before = layout;
            assert forall|which: VertexInputType| ArraysModel::source_of(which) == k implies layout.field(
                which,
            ) is None by {
                assert(layout.field(which) == if ArraysModel::source_of(which) < k {
                    self@.planned_field(which, texturing)
                } else {
                    None
                });
            }
            self.plan_field(k, texturing, &mut layout, &mut vertex_count, &mut warnings);
            proof {
                assert forall|which: VertexInputType|
                    #![trigger layout.field(which)]
                    layout.field(which) == if ArraysModel::source_of(which) < k + 1 {
                        self@.planned_field(which, texturing)
                    } else {
                        None
                    } by {
                    assert(before.field(which) == if ArraysModel::source_of(which) < k {
                        self@.planned_field(which, texturing)
                    } else {
                        None
                    });
                }
            }
            k += 1;
        }
        proof {
            self@.lemma_packed_wf();
            self@.lemma_field_within(texturing, 0);
            self@.lemma_planned_layout(texturing, layout);
        }
        let mut t: usize = 0;
        let ghost left_out = warnings@;
        while t < PACKED_KIND_COUNT
            invariant
                0 <= t <= PACKED_KIND_COUNT,
                vertex_count == self@.planned_vertex_count(texturing),
                warnings@ == left_out + self@.truncated_before(t as nat, texturing),
            decreases PACKED_KIND_COUNT - t,
        {
            let kind = get_packed_kind(t);
            let array = self.get(kind);
            assert(*array == self@.array(kind));
            if self.is_included(t, texturing) {
                match vertex_count {
                    Some(count) => {
                        if count < array.vertex_count {
                            warnings.push(
                                Warning::LengthMismatch {
                                    array: kind,
                                    array_length: array.vertex_count,
                                    packed_length: count,
                                },
                            );
                        }
                    },
                    None => {},
                }
            }
            assert(warnings@ =~= left_out + self@.truncated_before((t + 1) as nat, texturing));
            t += 1;
        }
        let mut u: usize = 0;
        let ghost packed = warnings@;
        while u < 4
            invariant
                0 <= u <= 4,
                warnings@ == packed + self@.unsupported_before(u as nat),
            decreases 4 - u,
        {
            let kind = if u == 0 {
                PointerArrayType::EdgeFlag
            } else if u == 1 {
                PointerArrayType::FogCoord
            } else if u == 2 {
                PointerArrayType::ColorIndex
            } else {
                PointerArrayType::SecondaryColor
            };
            if self.get(kind).enabled {
                warnings.push(Warning::UnsupportedArray { array: kind });
            }
            assert(warnings@ =~= packed + self@.unsupported_before((u + 1) as nat));
            u += 1;
        }
        LayoutPlan { layout, vertex_count, warnings }
    }
}
impl ArraysModel {
    /// Whether every array that can enter a vertex is well formed.
    pub open spec fn packed_arrays_wf(&self) -> bool {
        forall|k: int| 0 <= k < 4 ==> (#[trigger] self.array(packed_kind(k))).wf()
    }

    /// Where every array is well formed, those that can enter a vertex are.
    pub proof fn lemma_packed_wf(&self)
        requires
            self.wf(),
        ensures
            self.packed_arrays_wf(),
    {
        assert forall|k: int| 0 <= k < 4 implies (#[trigger] self.array(packed_kind(k))).wf() by {
            assert(self.table[packed_kind(k)].wf());
        }
    }

    /// Each field starts where the one before it ends, and lengthens the
    /// vertex by a multiple of four that is at most 36.
    pub proof fn lemma_offsets(&self, texturing: Texturing)
        requires
            self.packed_arrays_wf(),
        ensures
            self.offset_before(0, texturing) == 0,
            forall|k: int|
                0 <= k < 4 ==> {
                    &&& #[trigger] self.offset_before((k + 1) as nat, texturing)
                        == self.offset_before(k as nat, texturing) + self.span(k, texturing)
                    &&& 0 <= self.span(k, texturing) <= 36
                    &&& self.span(k, texturing) % 4 == 0
                    &&& self.included(k, texturing) ==> 1 <= self.field_len(k) <= self.span(
                        k,
                        texturing,
                    )
                },
    {
        assert forall|k: int| 0 <= k < 4 implies {
            &&& #[trigger] self.offset_before((k + 1) as nat, texturing) == self.offset_before(
                k as nat,
                texturing,
            ) + self.span(k, texturing)
            &&& 0 <= self.span(k, texturing) <= 36
            &&& self.span(k, texturing) % 4 == 0
            &&& self.included(k, texturing) ==> 1 <= self.field_len(k) <= self.span(k, texturing)
        } by {
            assert(self.array(packed_kind(k)).wf());
            self.lemma_span_bound(k, texturing);
        }
    }

    /// The fields of a vertex follow each other without overlap, each ends
    /// within the vertex, and each offset is a multiple of four.
    pub proof fn lemma_fields_apart(&self, texturing: Texturing, j: int, k: int)
        requires
            self.packed_arrays_wf(),
            0 <= j < k < 4,
        ensures
            0 <= self.offset_before(j as nat, texturing),
            self.offset_before(j as nat, texturing) + self.span(j, texturing)
                <= self.offset_before(k as nat, texturing),
            self.offset_before(k as nat, texturing) + self.span(k, texturing)
                <= self.planned_stride(texturing) <= 144,
            self.included(j, texturing) ==> 1 <= self.field_len(j) <= self.span(j, texturing),
            self.included(k, texturing) ==> 1 <= self.field_len(k) <= self.span(k, texturing),
            self.offset_before(j as nat, texturing) % 4 == 0,
            self.offset_before(k as nat, texturing) % 4 == 0,
            self.planned_stride(texturing) % 4 == 0,
    {
        self.lemma_offsets(texturing);
        let o0 = self.offset_before(0, texturing);
        let o1 = self.offset_before(1, texturing);
        let o2 = self.offset_before(2, texturing);
        let o3 = self.offset_before(3, texturing);
        let o4 = self.offset_before(4, texturing);
        assert(o1 == self.offset_before((0 + 1) as nat, texturing));
        assert(o2 == self.offset_before((1 + 1) as nat, texturing));
        assert(o3 == self.offset_before((2 + 1) as nat, texturing));
        assert(o4 == self.offset_before((3 + 1) as nat, texturing));
    }

    /// The field of one attribute starts at a multiple of four and ends
    /// within the vertex.
    pub proof fn lemma_field_within(&self, texturing: Texturing, k: int)
        requires
            self.packed_arrays_wf(),
            0 <= k < 4,
        ensures
            0 <= self.offset_before(k as nat, texturing),
            0 <= self.span(k, texturing),
            self.offset_before(k as nat, texturing) + self.span(k, texturing)
                <= self.planned_stride(texturing) <= 144,
            self.included(k, texturing) ==> 1 <= self.field_len(k) <= self.span(k, texturing),
            self.offset_before(k as nat, texturing) % 4 == 0,
            self.planned_stride(texturing) % 4 == 0,
    {
        self.lemma_offsets(texturing);
        let o0 = self.offset_before(0, texturing);
        let o1 = self.offset_before(1, texturing);
        let o2 = self.offset_before(2, texturing);
        let o3 = self.offset_before(3, texturing);
        let o4 = self.offset_before(4, texturing);
        assert(o1 == self.offset_before((0 + 1) as nat, texturing));
        assert(o2 == self.offset_before((1 + 1) as nat, texturing));
        assert(o3 == self.offset_before((2 + 1) as nat, texturing));
        assert(o4 == self.offset_before((3 + 1) as nat, texturing));
    }

    /// No offset of a vertex lies in two fields.
    pub proof fn lemma_one_field(&self, texturing: Texturing, j: int, k: int, o: int)
        requires
            self.packed_arrays_wf(),
            0 <= j < 4,
            0 <= k < 4,
            j != k,
            self.in_field(k, texturing, o),
        ensures
            !self.in_field(j, texturing, o),
    {
        if j < k {
            self.lemma_fields_apart(texturing, j, k);
        } else {
            self.lemma_fields_apart(texturing, k, j);
        }
    }

    /// The number of packed vertices is the least length among the arrays
    /// in the vertex: none of them is shorter, and one of them is as long,
    /// unless no array enters the vertex.
    pub proof fn lemma_count_is_least(&self, texturing: Texturing)
        ensures
            forall|k: int|
                0 <= k < 4 && #[trigger] self.included(k, texturing) ==> {
                    &&& self.planned_vertex_count(texturing) is Some
                    &&& self.packed_count(texturing) <= self.array(packed_kind(k)).vertex_count
                },
            self.planned_vertex_count(texturing) is Some ==> exists|k: int|
                0 <= k < 4 && #[trigger] self.included(k, texturing) && self.packed_count(
                    texturing,
                ) == self.array(packed_kind(k)).vertex_count,
            self.planned_vertex_count(texturing) is None ==> forall|k: int|
                0 <= k < 4 ==> !#[trigger] self.included(k, texturing),
    {
        reveal_with_fuel(ArraysModel::count_before, 5);
        let _ = self.included(0, texturing);
        let _ = self.included(1, texturing);
        let _ = self.included(2, texturing);
        let _ = self.included(3, texturing);
    }

    /// Whether the array of the `k`-th packed attribute is cut: it enters
    /// the vertex and holds more vertices than are packed.
    pub open spec fn is_cut(&self, k: int, texturing: Texturing) -> bool {
        &&& self.included(k, texturing)
        &&& self.planned_vertex_count(texturing) matches Some(count)
        &&& count < self.array(packed_kind(k)).vertex_count
    }

    /// The arrays that are cut are the arrays that are named. A remark on
    /// a length is made exactly where it names an array that is cut, with
    /// the length of that array and the number of vertices that are
    /// packed.
    pub proof fn lemma_cut_arrays_are_named(&self, texturing: Texturing, remark: Warning)
        requires
            remark is LengthMismatch,
        ensures
            self.planned_warnings(texturing).contains(remark) <==> exists|k: int|
                0 <= k < 4 && #[trigger] self.is_cut(k, texturing) && remark == (
                Warning::LengthMismatch {
                    array: packed_kind(k),
                    array_length: self.array(packed_kind(k)).vertex_count,
                    packed_length: self.planned_vertex_count(texturing).unwrap(),
                }),
    {
        let left_out = self.warnings_before(4, texturing);
        let cut = self.truncated_before(4, texturing);
        let others = self.unsupported_before(4);
        self.lemma_left_out_are_no_lengths(4, texturing, remark);
        self.lemma_unsupported_are_no_lengths(4, remark);
        self.lemma_truncated_before(4, texturing, remark);
        lemma_remark_in_either(left_out, cut, remark);
        lemma_remark_in_either(left_out + cut, others, remark);
        if cut.contains(remark) {
            let k = choose|k: int| 0 <= k < 4 && self.truncated_at(k, texturing) == seq![remark];
            assert(seq![remark][0] == remark);
            assert(self.is_cut(k, texturing));
        }
        if exists|k: int|
            0 <= k < 4 && #[trigger] self.is_cut(k, texturing) && remark == (
            Warning::LengthMismatch {
                array: packed_kind(k),
                array_length: self.array(packed_kind(k)).vertex_count,
                packed_length: self.planned_vertex_count(texturing).unwrap(),
            }) {
            let k = choose|k: int|
                0 <= k < 4 && #[trigger] self.is_cut(k, texturing) && remark == (
                Warning::LengthMismatch {
                    array: packed_kind(k),
                    array_length: self.array(packed_kind(k)).vertex_count,
                    packed_length: self.planned_vertex_count(texturing).unwrap(),
                });
            assert(self.truncated_at(k, texturing) == seq![remark]);
        }
    }

    /// No remark on an array that stays out of the vertex is a remark on a
    /// length.
    proof fn lemma_left_out_are_no_lengths(&self, k: nat, texturing: Texturing, remark: Warning)
        requires
            remark is LengthMismatch,
        ensures
            !self.warnings_before(k, texturing).contains(remark),
        decreases k,
    {
        if k > 0 {
            self.lemma_left_out_are_no_lengths((k - 1) as nat, texturing, remark);
            lemma_remark_in_either(
                self.warnings_before((k - 1) as nat, texturing),
                self.warnings_at(k - 1, texturing),
                remark,
            );
            let at = self.warnings_at(k - 1, texturing);
            if at.contains(remark) {
                let i = choose|i: int| 0 <= i < at.len() && at[i] == remark;
                assert(at[i] is LengthMismatch);
            }
        }
    }

    /// No remark on an array whose attribute takes no part is a remark on
    /// a length.
    proof fn lemma_unsupported_are_no_lengths(&self, k: nat, remark: Warning)
        requires
            remark is LengthMismatch,
        ensures
            !self.unsupported_before(k).contains(remark),
        decreases k,
    {
        if k > 0 {
            self.lemma_unsupported_are_no_lengths((k - 1) as nat, remark);
            let kind = Self::unsupported_kind(k - 1);
            let at = if self.array(kind).enabled {
                seq![Warning::UnsupportedArray { array: kind }]
            } else {
                seq![]
            };
            lemma_remark_in_either(self.unsupported_before((k - 1) as nat), at, remark);
            if at.contains(remark) {
                let i = choose|i: int| 0 <= i < at.len() && at[i] == remark;
                assert(at[i] is UnsupportedArray);
            }
        }
    }

    /// A remark is among those on the arrays that are cut exactly where it
    /// is the remark on one of them.
    proof fn lemma_truncated_before(&self, k: nat, texturing: Texturing, remark: Warning)
        ensures
            self.truncated_before(k, texturing).contains(remark) <==> exists|j: int|
                0 <= j < k && #[trigger] self.truncated_at(j, texturing) == seq![remark],
        decreases k,
    {
        if k > 0 {
            self.lemma_truncated_before((k - 1) as nat, texturing, remark);
            let before = self.truncated_before((k - 1) as nat, texturing);
            let at = self.truncated_at(k - 1, texturing);
            lemma_remark_in_either(before, at, remark);
            if at.contains(remark) {
                let i = choose|i: int| 0 <= i < at.len() && at[i] == remark;
                assert(at =~= seq![remark]);
            }
            if at == seq![remark] {
                assert(at[0] == remark);
            }
            if exists|j: int| 0 <= j < k && #[trigger] self.truncated_at(j, texturing) == seq![remark] {
                let j = choose|j: int|
                    0 <= j < k && #[trigger] self.truncated_at(j, texturing) == seq![remark];
                if j < k - 1 {
                    assert(before.contains(remark));
                } else {
                    assert(at.contains(remark));
                }
            }
        } else {
            assert(self.truncated_before(0, texturing) =~= Seq::<Warning>::empty());
        }
    }
}

/// A remark is in a run of remarks that is made of two exactly where it is
/// in one of the two.
proof fn lemma_remark_in_either(a: Seq<Warning>, b: Seq<Warning>, remark: Warning)
    ensures
        (a + b).contains(remark) <==> a.contains(remark) || b.contains(remark),
{
    if a.contains(remark) {
        let i = choose|i: int| 0 <= i < a.len() && a[i] == remark;
        assert((a + b)[i] == remark);
    }
    if b.contains(remark) {
        let i = choose|i: int| 0 <= i < b.len() && b[i] == remark;
        assert((a + b)[a.len() + i] == remark);
    }
    if (a + b).contains(remark) {
        let i = choose|i: int| 0 <= i < (a + b).len() && (a + b)[i] == remark;
        if i < a.len() {
            assert(a[i] == remark);
        } else {
            assert(b[i - a.len()] == remark);
        }
    }
}

} // verus!
