//! The instruction assembler: the state that the instructions of the host
//! build up, and the commands that a draw call makes of it.

use vstd::prelude::*;
use std::sync::Arc;
use crate::commands::CommandModel;
use crate::commands::CommandQueue;
use crate::commands::RenderCommand;
use crate::flags::flag_set_contains;
use crate::flags::flag_set_insert;
use crate::flags::flag_set_members;
use crate::flags::flag_set_remove;
use crate::flags::flag_set_with_capacity;
use crate::flags::FLAG_SET_CEILING;
use crate::gl::texture_2d_capability;
use crate::gl::DrawMode;
use crate::gl::MatrixMode;
use crate::gl::PointerArrayType;
use crate::gl::GL_TEXTURE_2D;
use crate::instruction::RenderInstruction;
use crate::layout::VertexInputType;
use crate::matrix::identity_matrix;
use crate::matrix::Mat4;
use crate::matrix::MatrixStack;
use crate::matrix::MatrixTask;
use crate::matrix::StackModel;
use crate::matrix::Vec4;
use crate::arrays::pointer_valid;
use crate::arrays::ArraysModel;
use crate::arrays::ClientArrays;
use crate::arrays::Texturing;
use crate::client_array::ClientArray;
use crate::pipeline::ColorMode;
use crate::pipeline::DataSource;
use crate::pipeline::DynamicPipelinePushConstants;
use crate::pipeline::DynamicPipelineRasterization;
use crate::pipeline::DynamicPipelineSpec;
use crate::pipeline::ShaderMatrixMode;
use crate::warning::Warning;

verus! {

/// The number of texture units.
pub const MAX_TEXTURE_UNITS: usize = 16;

/// The number of matrix stacks.
pub const MATRIX_STACK_COUNT: usize = 4;

/// The place of the stack of a matrix mode among the stacks.
pub open spec fn matrix_index(mode: MatrixMode) -> int {
    match mode {
        MatrixMode::ModelView => 0,
        MatrixMode::Projection => 1,
        MatrixMode::Texture => 2,
        MatrixMode::Color => 3,
    }
}

/// The place of the stack of a matrix mode among the stacks.
pub fn get_matrix_index(mode: &MatrixMode) -> (r: usize)
    ensures
        r == matrix_index(*mode),
        r < MATRIX_STACK_COUNT,
{
    match mode {
        MatrixMode::ModelView => 0,
        MatrixMode::Projection => 1,
        MatrixMode::Texture => 2,
        MatrixMode::Color => 3,
    }
}

/// A texture unit and the texture that is bound to it.
#[derive(Clone, Copy, Debug, PartialEq, Eq, Structural)]
pub struct TextureUnit {
    pub bound_texture: Option<i32>,
}

impl TextureUnit {
    /// A unit to which no texture is bound.
    pub fn new() -> (r: Self)
        ensures
            r.bound_texture is None,
    {
        TextureUnit { bound_texture: None }
    }
}

/// The state of the assembler as a value.
pub struct AssemblerModel {
    /// The capabilities that are switched on.
    pub flags: Set<usize>,
    /// The stack that matrix instructions act on.
    pub active_matrix: MatrixMode,
    /// The four stacks, each at the place that `matrix_index` gives.
    pub stacks: Seq<StackModel>,
    /// The product of the projection and the model-view matrix, as long as
    /// neither has changed since it was worked out.
    pub mvp: Option<Mat4>,
    pub active_unit: usize,
    /// The texture that is bound to each unit.
    pub textures: Seq<Option<i32>>,
    /// The colour of what is drawn without a colour of its own.
    pub color: Vec4,
    pub texcoord: Vec4,
    pub arrays: ArraysModel,
    /// The commands that were given out and not taken yet.
    pub commands: Seq<CommandModel>,
}

/// What an instruction leaves behind: the state after it, what was found
/// amiss, and the arithmetic that has to be done before it can be carried
/// out.
pub struct StepModel {
    pub state: AssemblerModel,
    pub warnings: Seq<Warning>,
    pub task: Option<MatrixTask>,
}

impl AssemblerModel {
    /// There are four stacks with a matrix on each, sixteen texture units of
    /// which one is active, and the arrays are well formed.
    pub open spec fn wf(self) -> bool {
        &&& self.stacks.len() == MATRIX_STACK_COUNT
        &&& forall|i: int| 0 <= i < MATRIX_STACK_COUNT ==> (#[trigger] self.stacks[i]).wf()
        &&& self.textures.len() == MAX_TEXTURE_UNITS
        &&& self.active_unit < MAX_TEXTURE_UNITS
        &&& self.arrays.wf()
    }

    /// Whether a change of the selected stack makes the product of the
    /// projection and the model-view matrix stale: it does where one of
    /// these two is selected.
    pub open spec fn selection_feeds_mvp(self) -> bool {
        self.active_matrix == MatrixMode::ModelView || self.active_matrix
            == MatrixMode::Projection
    }

    /// The stack that is selected.
    pub open spec fn active_stack(self) -> StackModel {
        self.stacks[matrix_index(self.active_matrix)]
    }

    /// The state after a change of the selected stack: the stack is
    /// replaced, and the product is forgotten where the selection feeds it.
    pub open spec fn with_active_stack(self, stack: StackModel) -> AssemblerModel {
        AssemblerModel {
            stacks: self.stacks.update(matrix_index(self.active_matrix), stack),
            mvp: if self.selection_feeds_mvp() {
                None
            } else {
                self.mvp
            },
            ..self
        }
    }

    /// The texture that is bound to the active unit.
    pub open spec fn active_texture(self) -> Option<i32> {
        self.textures[self.active_unit as int]
    }

    /// What vertex assembly needs to know of the texturing state.
    pub open spec fn texturing(self) -> Texturing {
        Texturing {
            enabled: self.flags.contains(GL_TEXTURE_2D as usize),
            bound: self.active_texture() is Some,
        }
    }

    /// Where the colour of the fragments of a draw call comes from: the
    /// bound texture where texturing is switched on, a texture is bound and
    /// the vertices carry texture coordinates; the flat colour otherwise.
    pub open spec fn color_mode(self) -> ColorMode {
        let t = self.texturing();
        if t.enabled && t.bound && self.arrays.included(3, t) {
            ColorMode::Texture { set: 1, binding: 0 }
        } else {
            ColorMode::Flat(DataSource::PushConstant)
        }
    }

    /// What is found amiss when the colour source of a draw call is chosen.
    pub open spec fn color_warnings(self) -> Seq<Warning> {
        let t = self.texturing();
        if !t.enabled {
            seq![]
        } else if !t.bound {
            seq![Warning::TextureUnitWithoutTexture { texture_unit: self.active_unit }]
        } else if !self.arrays.included(3, t) {
            seq![Warning::TextureWithoutTexCoord]
        } else {
            seq![]
        }
    }

    /// The specification of the pipeline of a draw call.
    pub open spec fn pipeline_spec(self, mode: DrawMode) -> DynamicPipelineSpec {
        DynamicPipelineSpec {
            draw_mode: mode,
            vertex_buffer: self.arrays.planned_layout(self.texturing()),
            color: self.color_mode(),
            matrix: ShaderMatrixMode::MVP(DataSource::PushConstant),
            rasterization: DynamicPipelineRasterization::initial(),
        }
    }

    /// The constants that a draw call hands to its pipeline: the product of
    /// the matrices, and the flat colour where the colour is flat.
    pub open spec fn push_constants(self) -> DynamicPipelinePushConstants {
        DynamicPipelinePushConstants {
            mvp: self.mvp,
            color: if self.color_mode() == ColorMode::Flat(DataSource::PushConstant) {
                Some(self.color)
            } else {
                None
            },
        }
    }

    /// What a draw call leaves behind.
    ///
    /// Without a position array that is enabled and bound, nothing but a
    /// remark. Without the product of the matrices, the task to work it out.
    /// With vertices that fill more than a buffer can hold, nothing but a
    /// remark. Otherwise two commands: one binds the pipeline, one draws the
    /// packed vertices.
    pub open spec fn draw(self, mode: DrawMode, first: u32, count: u32) -> StepModel {
        let t = self.texturing();
        if !self.arrays.included(0, t) {
            StepModel { state: self, warnings: seq![Warning::DrawWithoutPosition], task: None }
        } else if self.mvp is None {
            StepModel {
                state: self,
                warnings: seq![],
                task: Some(
                    MatrixTask::Product {
                        projection: self.stacks[1].current(),
                        model_view: self.stacks[0].current(),
                    },
                ),
            }
        } else if self.arrays.packed_len(t) > isize::MAX {
            StepModel { state: self, warnings: seq![Warning::BufferTooLarge], task: None }
        } else {
            StepModel {
                state: AssemblerModel {
                    commands: self.commands.push(
                        CommandModel::BindDynamicGraphicsPipeline {
                            pipeline: self.pipeline_spec(mode),
                            push_constants: self.push_constants(),
                        },
                    ).push(
                        CommandModel::Draw {
                            start_vertex: first,
                            vertex_count: count,
                            data: self.arrays.packed_buffer(t),
                        },
                    ),
                    ..self
                },
                warnings: self.arrays.planned_warnings(t) + self.color_warnings(),
                task: None,
            }
        }
    }

    /// The state with nothing amiss and nothing to work out.
    pub open spec fn done(self) -> StepModel {
        StepModel { state: self, warnings: seq![], task: None }
    }

    /// The state as it is, with the arithmetic that the instruction waits for.
    pub open spec fn waiting(self, task: MatrixTask) -> StepModel {
        StepModel { state: self, warnings: seq![], task: Some(task) }
    }

    /// What an instruction leaves behind.
    pub open spec fn step(self, insn: RenderInstruction) -> StepModel {
        match insn {
            RenderInstruction::MatrixMode(mode) => (AssemblerModel {
                active_matrix: mode,
                ..self
            }).done(),
            RenderInstruction::PushMatrix => self.with_active_stack(
                self.active_stack().push(),
            ).done(),
            RenderInstruction::PopMatrix => self.with_active_stack(
                self.active_stack().pop(),
            ).done(),
            RenderInstruction::LoadIdentity => self.with_active_stack(
                self.active_stack().replace(identity_matrix()),
            ).done(),
            RenderInstruction::Ortho { data } => self.waiting(
                MatrixTask::Ortho { data: *data, current: self.active_stack().current() },
            ),
            RenderInstruction::Translate { delta } => self.waiting(
                MatrixTask::Translate { delta, current: self.active_stack().current() },
            ),
            RenderInstruction::Rotate { angle, axis } => self.waiting(
                MatrixTask::Rotate { angle, axis, current: self.active_stack().current() },
            ),
            RenderInstruction::Scale { scale } => self.waiting(
                MatrixTask::Scale { scale, current: self.active_stack().current() },
            ),
            RenderInstruction::Enable(cap) => (AssemblerModel {
                flags: if 0 <= cap < FLAG_SET_CEILING {
                    self.flags.insert(cap as usize)
                } else {
                    self.flags
                },
                ..self
            }).done(),
            RenderInstruction::Disable(cap) => (AssemblerModel {
                flags: if 0 <= cap {
                    self.flags.remove(cap as usize)
                } else {
                    self.flags
                },
                ..self
            }).done(),
            RenderInstruction::SetClientState { enabled, array_type } => (AssemblerModel {
                arrays: self.arrays.with_array(
                    array_type,
                    ClientArray { enabled, ..self.arrays.array(array_type) },
                ),
                ..self
            }).done(),
            RenderInstruction::SetPointer { vec_count, array_type, item_type, data, size } => {
                if pointer_valid(size, vec_count, item_type, data@.len() as int) {
                    (AssemblerModel {
                        arrays: self.arrays.with_array(
                            array_type,
                            ClientArray {
                                enabled: self.arrays.array(array_type).enabled,
                                vertex_count: vec_count,
                                data_type: item_type,
                                element_count: size,
                                data: Some(data),
                            },
                        ),
                        ..self
                    }).done()
                } else {
                    StepModel {
                        state: self,
                        warnings: seq![Warning::InvalidPointer { array: array_type }],
                        task: None,
                    }
                }
            },
            RenderInstruction::DrawArrays { mode, first, count } => self.draw(mode, first, count),
            RenderInstruction::SetActiveTextureUnit(unit) => {
                if unit < MAX_TEXTURE_UNITS {
                    (AssemblerModel { active_unit: unit, ..self }).done()
                } else {
                    StepModel {
                        state: self,
                        warnings: seq![Warning::BadTextureUnit { texture_unit: unit }],
                        task: None,
                    }
                }
            },
            RenderInstruction::BindTexture(id) => (AssemblerModel {
                textures: self.textures.update(
                    self.active_unit as int,
                    if id == 0 {
                        None
                    } else {
                        Some(id)
                    },
                ),
                ..self
            }).done(),
            RenderInstruction::TexCoord(coord) => (AssemblerModel { texcoord: coord, ..self }).done(),
            RenderInstruction::SetColor(color) => (AssemblerModel { color, ..self }).done(),
            RenderInstruction::ClearDepth => (AssemblerModel {
                commands: self.commands.push(CommandModel::ClearDepth),
                ..self
            }).done(),
            RenderInstruction::Begin(_) | RenderInstruction::Vertex(_) | RenderInstruction::End
            | RenderInstruction::AlphaFunc => StepModel {
                state: self,
                warnings: seq![Warning::UnsupportedInstruction],
                task: None,
            },
        }
    }

    /// The state after the result of a transformation was handed back: it
    /// stands in place of the top matrix of the selected stack.
    pub open spec fn transformed(self, result: Mat4) -> AssemblerModel {
        self.with_active_stack(self.active_stack().replace(result))
    }
}

/// What an instruction left behind, beside the new state.
#[derive(Debug)]
pub struct StepReport {
    /// The arithmetic that has to be done before the instruction can be
    /// carried out. Where there is some, the state is as it was.
    pub task: Option<MatrixTask>,
    pub warnings: Vec<Warning>,
}

/// The instruction assembler.
pub struct RenderInsnAssembler {
    active_flags: fastset::Set,
    active_matrix: MatrixMode,
    matrix_stacks: [MatrixStack; 4],
    active_mvp_cache: Option<Mat4>,
    active_unit: usize,
    texture_units: [TextureUnit; 16],
    active_color: Vec4,
    texcoord: Vec4,
    client_arrays: ClientArrays,
    pub commands: CommandQueue,
}

impl View for RenderInsnAssembler {
    type V = AssemblerModel;

    closed spec fn view(&self) -> AssemblerModel {
        AssemblerModel {
            flags: flag_set_members(self.active_flags),
            active_matrix: self.active_matrix,
            stacks: Seq::new(MATRIX_STACK_COUNT as nat, |i: int| self.matrix_stacks[i]@),
            mvp: self.active_mvp_cache,
            active_unit: self.active_unit,
            textures: Seq::new(
                MAX_TEXTURE_UNITS as nat,
                |i: int| self.texture_units[i].bound_texture,
            ),
            color: self.active_color,
            texcoord: self.texcoord,
            arrays: self.client_arrays@,
            commands: self.commands@,
        }
    }
}

impl RenderInsnAssembler {
    /// An assembler in its first state: the identity on every stack, no
    /// capability switched on, no array enabled, no texture bound, and
    /// opaque white as the flat colour. The product of the projection and
    /// the model-view matrix is known from the start: the product of two
    /// identity matrices is the identity matrix, bit for bit.
    pub fn new(commands: CommandQueue) -> (r: Self)
        ensures
            r@.wf(),
            r@.flags == Set::<usize>::empty(),
            r@.active_matrix == MatrixMode::ModelView,
            forall|i: int|
                0 <= i < MATRIX_STACK_COUNT ==> #[trigger] r@.stacks[i] == (StackModel {
                    top: 0,
                    slots: seq![identity_matrix()],
                }),
            r@.mvp == Some(identity_matrix()),
            r@.active_unit == 0,
            forall|i: int| 0 <= i < MAX_TEXTURE_UNITS ==> #[trigger] r@.textures[i] is None,
            r@.color == (Vec4 {
                x: crate::matrix::ONE_BITS,
                y: crate::matrix::ONE_BITS,
                z: crate::matrix::ONE_BITS,
                w: crate::matrix::ONE_BITS,
            }),
            r@.texcoord == (Vec4 { x: 0, y: 0, z: 0, w: 0 }),
            forall|kind: PointerArrayType|
                !(#[trigger] r@.arrays.array(kind)).enabled && r@.arrays.array(kind).data is None,
            r@.commands == commands@,
    {
        let unit = TextureUnit::new();
        RenderInsnAssembler {
            active_flags: flag_set_with_capacity(64),
            active_matrix: MatrixMode::ModelView,
            matrix_stacks: [
                MatrixStack::new(),
                MatrixStack::new(),
                MatrixStack::new(),
                MatrixStack::new(),
            ],
            active_mvp_cache: Some(Mat4::identity()),
            active_unit: 0,
            texture_units: [
                unit,
                unit,
                unit,
                unit,
                unit,
                unit,
                unit,
                unit,
                unit,
                unit,
                unit,
                unit,
                unit,
                unit,
                unit,
                unit,
            ],
            active_color: Vec4::ones(),
            texcoord: Vec4::zeros(),
            client_arrays: ClientArrays::new(),
            commands,
        }
    }

    /// Takes out the commands that the assembler has given out, oldest
    /// first.
    pub fn take_commands(&mut self) -> (r: Vec<RenderCommand>)
        requires
            old(self)@.wf(),
        ensures
            final(self)@.wf(),
            r@.map_values(|c: RenderCommand| c@) == old(self)@.commands,
            final(self)@ == (AssemblerModel {
                commands: Seq::<CommandModel>::empty(),
                ..old(self)@
            }),
    {
        let taken = self.commands.take();
        assert(self@.stacks =~= old(self)@.stacks);
        assert(self@.textures =~= old(self)@.textures);
        taken
    }

    /// Whether a capability is switched on.
    pub fn is_enabled(&self, flag: u32) -> (r: bool)
        ensures
            r == self@.flags.contains(flag as usize),
    {
        flag_set_contains(&self.active_flags, flag as usize)
    }

    /// The texture that is bound to the active unit.
    pub fn get_active_texture(&self) -> (r: Option<i32>)
        requires
            self@.wf(),
        ensures
            r == self@.active_texture(),
    {
        self.texture_units[self.active_unit].bound_texture
    }

    /// The product of the projection and the model-view matrix, if it is
    /// known.
    pub fn get_mvp_matrix(&self) -> (r: Option<Mat4>)
        ensures
            r == self@.mvp,
    {
        self.active_mvp_cache
    }

    /// The matrix on top of the selected stack.
    pub fn active_matrix(&self) -> (r: Mat4)
        requires
            self@.wf(),
        ensures
            r == self@.active_stack().current(),
    {
        *self.matrix_stacks[get_matrix_index(&self.active_matrix)].get()
    }

    /// Forgets the product of the matrices where the selected stack feeds it.
    fn invalidate(&mut self)
        ensures
            final(self)@ == (AssemblerModel {
                mvp: if old(self)@.selection_feeds_mvp() {
                    None
                } else {
                    old(self)@.mvp
                },
                ..old(self)@
            }),
            final(self)@.wf() == old(self)@.wf(),
    {
        match self.active_matrix {
            MatrixMode::ModelView => {
                self.active_mvp_cache = None;
            },
            MatrixMode::Projection => {
                self.active_mvp_cache = None;
            },
            _ => {},
        }
        assert(self@.stacks =~= old(self)@.stacks);
        assert(self@.textures =~= old(self)@.textures);
    }

    /// Takes in the result of a transformation: it stands in place of the
    /// top matrix of the selected stack from now on.
    pub fn apply_transform(&mut self, result: Mat4)
        requires
            old(self)@.wf(),
        ensures
            final(self)@.wf(),
            final(self)@ == old(self)@.transformed(result),
    {
        let i = get_matrix_index(&self.active_matrix);
        self.matrix_stacks[i].set(result);
        assert(self@.textures =~= old(self)@.textures);
        assert(self@.stacks =~= old(self)@.stacks.update(
            i as int,
            old(self)@.active_stack().replace(result),
        ));
        let ghost mid = self@;
        self.invalidate();
        assert(self@.stacks =~= mid.stacks);
    }

    /// Takes in the product of the projection and the model-view matrix.
    pub fn store_mvp(&mut self, product: Mat4)
        requires
            old(self)@.wf(),
        ensures
            final(self)@.wf(),
            final(self)@ == (AssemblerModel { mvp: Some(product), ..old(self)@ }),
    {
        self.active_mvp_cache = Some(product);
        assert(self@.stacks =~= old(self)@.stacks);
        assert(self@.textures =~= old(self)@.textures);
    }
}

impl RenderInsnAssembler {
    /// What vertex assembly needs to know of the texturing state.
    fn texturing(&self) -> (r: Texturing)
        requires
            self@.wf(),
        ensures
            r == self@.texturing(),
    {
        Texturing {
            enabled: flag_set_contains(&self.active_flags, texture_2d_capability()),
            bound: self.texture_units[self.active_unit].bound_texture.is_some(),
        }
    }

    /// Carries out a draw call: packs the enabled arrays into one vertex
    /// buffer and gives out the command that binds the pipeline and the
    /// command that draws.
    pub fn draw_arrays(&mut self, mode: DrawMode, first: u32, count: u32) -> (r: StepReport)
        requires
            old(self)@.wf(),
        ensures
            final(self)@.wf(),
            final(self)@ == old(self)@.draw(mode, first, count).state,
            r.warnings@ == old(self)@.draw(mode, first, count).warnings,
            r.task == old(self)@.draw(mode, first, count).task,
    {
        let texturing = self.texturing();
        let position = self.client_arrays.get(PointerArrayType::Vertex);
        if !position.enabled || position.data.is_none() {
            let mut warnings: Vec<Warning> = Vec::new();
            warnings.push(Warning::DrawWithoutPosition);
            assert(warnings@ =~= seq![Warning::DrawWithoutPosition]);
            return StepReport { task: None, warnings };
        }
        assert(self@.arrays.included(0, texturing));
        let mvp = match self.active_mvp_cache {
            Some(m) => m,
            None => {
                let projection = *self.matrix_stacks[1].get();
                let model_view = *self.matrix_stacks[0].get();
                return StepReport {
                    task: Some(MatrixTask::Product { projection, model_view }),
                    warnings: Vec::new(),
                };
            },
        };
        let packed = match self.client_arrays.assemble_buffer(texturing) {
            Some(packed) => packed,
            None => {
                let mut warnings: Vec<Warning> = Vec::new();
                warnings.push(Warning::BufferTooLarge);
                assert(warnings@ =~= seq![Warning::BufferTooLarge]);
                return StepReport { task: None, warnings };
            },
        };
        let mut warnings = packed.warnings;
        let color = if texturing.enabled {
            if texturing.bound {
                if packed.layout.texcoord().is_some() {
                    ColorMode::Texture { set: 1, binding: 0 }
                } else {
                    warnings.push(Warning::TextureWithoutTexCoord);
                    ColorMode::Flat(DataSource::PushConstant)
                }
            } else {
                warnings.push(
                    Warning::TextureUnitWithoutTexture { texture_unit: self.active_unit },
                );
                ColorMode::Flat(DataSource::PushConstant)
            }
        } else {
            ColorMode::Flat(DataSource::PushConstant)
        };
        proof {
            assert(packed.layout.field(VertexInputType::TexCoord) == self@.arrays.planned_field(
                VertexInputType::TexCoord,
                texturing,
            ));
            assert(color == self@.color_mode());
            assert(warnings@ =~= self@.arrays.planned_warnings(texturing)
                + self@.color_warnings());
        }
        let pipeline = DynamicPipelineSpec {
            draw_mode: mode,
            vertex_buffer: packed.layout,
            matrix: ShaderMatrixMode::MVP(DataSource::PushConstant),
            color,
            rasterization: DynamicPipelineRasterization::default(),
        };
        let flat_color = match color {
            ColorMode::Flat(DataSource::PushConstant) => Some(self.active_color),
            _ => None,
        };
        let push_constants = DynamicPipelinePushConstants { mvp: Some(mvp), color: flat_color };
        assert(pipeline == self@.pipeline_spec(mode));
        assert(push_constants == self@.push_constants());
        self.commands.push(RenderCommand::BindDynamicGraphicsPipeline { pipeline, push_constants });
        self.commands.push(
            RenderCommand::Draw {
                start_vertex: first,
                vertex_count: count,
                data: Arc::new(packed.data),
            },
        );
        proof {
            assert(self@.stacks =~= old(self)@.stacks);
            assert(self@.textures =~= old(self)@.textures);
        }
        StepReport { task: None, warnings }
    }
}

/// What a run of instructions leaves behind.
pub struct RunModel {
    pub state: AssemblerModel,
    /// The number of instructions that were carried out.
    pub consumed: nat,
    /// The arithmetic that the first instruction that was not carried out
    /// waits for.
    pub task: Option<MatrixTask>,
    pub warnings: Seq<Warning>,
}

impl AssemblerModel {
    /// What a run of instructions leaves behind: they are carried out one
    /// after the other, up to the first that waits for arithmetic.
    pub open spec fn run(self, insns: Seq<RenderInstruction>) -> RunModel
        decreases insns.len(),
    {
        if insns.len() == 0 {
            RunModel { state: self, consumed: 0, task: None, warnings: seq![] }
        } else {
            let first = self.step(insns[0]);
            if first.task is Some {
                RunModel { state: self, consumed: 0, task: first.task, warnings: seq![] }
            } else {
                let rest = first.state.run(insns.skip(1));
                RunModel {
                    state: rest.state,
                    consumed: rest.consumed + 1,
                    task: rest.task,
                    warnings: first.warnings + rest.warnings,
                }
            }
        }
    }

    /// An instruction that waits for arithmetic leaves the state as it was
    /// and nothing amiss.
    pub proof fn lemma_waiting_changes_nothing(self, insn: RenderInstruction)
        requires
            self.step(insn).task is Some,
        ensures
            self.step(insn).state == self,
            self.step(insn).warnings == Seq::<Warning>::empty(),
    {
    }
}

/// What a run of instructions left behind, beside the new state.
#[derive(Debug)]
pub struct FeedReport {
    /// The number of instructions that were carried out.
    pub consumed: usize,
    /// The arithmetic that the first instruction that was not carried out
    /// waits for.
    pub task: Option<MatrixTask>,
    pub warnings: Vec<Warning>,
}

impl RenderInsnAssembler {
    /// Carries out one instruction.
    ///
    /// A transformation and a draw call without the product of the matrices
    /// are not carried out: the report holds the arithmetic they wait for.
    /// The result of a transformation goes to `apply_transform`, which
    /// stands for the instruction; the product goes to `store_mvp`, after
    /// which the draw call is given again.
    pub fn step(&mut self, insn: &RenderInstruction) -> (r: StepReport)
        requires
            old(self)@.wf(),
        ensures
            final(self)@.wf(),
            final(self)@ == old(self)@.step(*insn).state,
            r.warnings@ == old(self)@.step(*insn).warnings,
            r.task == old(self)@.step(*insn).task,
    {
        let mut warnings: Vec<Warning> = Vec::new();
        let mut task: Option<MatrixTask> = None;
        match insn {
            RenderInstruction::MatrixMode(mode) => {
                self.active_matrix = *mode;
            },
            RenderInstruction::PushMatrix => {
                let i = get_matrix_index(&self.active_matrix);
                self.matrix_stacks[i].push();
                assert(self@.stacks =~= old(self)@.stacks.update(
                    i as int,
                    old(self)@.active_stack().push(),
                ));
                assert(self@.textures =~= old(self)@.textures);
                self.invalidate();
            },
            RenderInstruction::PopMatrix => {
                let i = get_matrix_index(&self.active_matrix);
                self.matrix_stacks[i].pop();
                assert(self@.stacks =~= old(self)@.stacks.update(
                    i as int,
                    old(self)@.active_stack().pop(),
                ));
                assert(self@.textures =~= old(self)@.textures);
                self.invalidate();
            },
            RenderInstruction::LoadIdentity => {
                let i = get_matrix_index(&self.active_matrix);
                self.matrix_stacks[i].load_identity();
                assert(self@.stacks =~= old(self)@.stacks.update(
                    i as int,
                    old(self)@.active_stack().replace(identity_matrix()),
                ));
                assert(self@.textures =~= old(self)@.textures);
                self.invalidate();
            },
            RenderInstruction::Ortho { data } => {
                let i = get_matrix_index(&self.active_matrix);
                task = Some(self.matrix_stacks[i].ortho(data));
            },
            RenderInstruction::Translate { delta } => {
                let i = get_matrix_index(&self.active_matrix);
                task = Some(self.matrix_stacks[i].translate(delta));
            },
            RenderInstruction::Rotate { angle, axis } => {
                let i = get_matrix_index(&self.active_matrix);
                task = Some(self.matrix_stacks[i].rotate(axis, *angle));
            },
            RenderInstruction::Scale { scale } => {
                let i = get_matrix_index(&self.active_matrix);
                task = Some(self.matrix_stacks[i].scale(scale));
            },
            RenderInstruction::Enable(cap) => {
                if *cap >= 0 && *cap < 1_000_000_000 {
                    let _ = flag_set_insert(&mut self.active_flags, *cap as usize);
                }
            },
            RenderInstruction::Disable(cap) => {
                if *cap >= 0 {
                    let _ = flag_set_remove(&mut self.active_flags, *cap as usize);
                }
            },
            RenderInstruction::SetClientState { enabled, array_type } => {
                self.client_arrays.set_client_state(*array_type, *enabled);
            },
            RenderInstruction::SetPointer { vec_count, array_type, item_type, data, size } => {
                let accepted = self.client_arrays.set_pointer(
                    *array_type,
                    *size,
                    *vec_count,
                    *item_type,
                    data.clone(),
                );
                if !accepted {
                    warnings.push(Warning::InvalidPointer { array: *array_type });
                }
            },
            RenderInstruction::DrawArrays { mode, first, count } => {
                return self.draw_arrays(*mode, *first, *count);
            },
            RenderInstruction::SetActiveTextureUnit(unit) => {
                if *unit < MAX_TEXTURE_UNITS {
                    self.active_unit = *unit;
                } else {
                    warnings.push(Warning::BadTextureUnit { texture_unit: *unit });
                }
            },
            RenderInstruction::BindTexture(id) => {
                let unit = self.active_unit;
                if *id == 0 {
                    self.texture_units[unit].bound_texture = None;
                } else {
                    self.texture_units[unit].bound_texture = Some(*id);
                }
                assert(self@.textures =~= old(self)@.textures.update(
                    unit as int,
                    if *id == 0 {
                        None
                    } else {
                        Some(*id)
                    },
                ));
            },
            RenderInstruction::TexCoord(coord) => {
                self.texcoord = *coord;
            },
            RenderInstruction::SetColor(color) => {
                self.active_color = *color;
            },
            RenderInstruction::Begin(_) => {
                warnings.push(Warning::UnsupportedInstruction);
            },
            RenderInstruction::Vertex(_) => {
                warnings.push(Warning::UnsupportedInstruction);
            },
            RenderInstruction::End => {
                warnings.push(Warning::UnsupportedInstruction);
            },
            RenderInstruction::AlphaFunc => {
                warnings.push(Warning::UnsupportedInstruction);
            },
            RenderInstruction::ClearDepth => {
                self.commands.push(RenderCommand::ClearDepth);
            },
        }
        proof {
            assert(self@.stacks =~= old(self)@.step(*insn).state.stacks);
            assert(self@.textures =~= old(self)@.step(*insn).state.textures);
            assert(warnings@ =~= old(self)@.step(*insn).warnings);
        }
        StepReport { task, warnings }
    }

    /// Carries out a run of instructions, one after the other, up to the
    /// first that waits for arithmetic.
    pub fn feed(&mut self, insns: &[RenderInstruction]) -> (r: FeedReport)
        requires
            old(self)@.wf(),
        ensures
            final(self)@.wf(),
            final(self)@ == old(self)@.run(insns@).state,
            r.consumed == old(self)@.run(insns@).consumed,
            r.task == old(self)@.run(insns@).task,
            r.warnings@ == old(self)@.run(insns@).warnings,
            r.consumed <= insns@.len(),
            r.task is None ==> r.consumed == insns@.len(),
    {
        let mut warnings: Vec<Warning> = Vec::new();
        let mut i: usize = 0;
        assert(insns@.skip(0) =~= insns@);
        assert(warnings@ + self@.run(insns@).warnings =~= self@.run(insns@).warnings);
        while i < insns.len()
            invariant
                0 <= i <= insns@.len(),
                self@.wf(),
                old(self)@.run(insns@).state == self@.run(insns@.skip(i as int)).state,
                old(self)@.run(insns@).consumed == i + self@.run(insns@.skip(i as int)).consumed,
                old(self)@.run(insns@).task == self@.run(insns@.skip(i as int)).task,
                old(self)@.run(insns@).warnings == warnings@ + self@.run(
                    insns@.skip(i as int),
                ).warnings,
            decreases insns@.len() - i,
        {
            let ghost before = self@;
            let ghost rest = insns@.skip(i as int);
            proof {
                assert(rest[0] == insns@[i as int]);
                assert(rest.skip(1) =~= insns@.skip(i + 1));
            }
            let mut report = self.step(&insns[i]);
            if report.task.is_some() {
                proof {
                    before.lemma_waiting_changes_nothing(insns@[i as int]);
                    assert(warnings@ + before.run(rest).warnings =~= warnings@);
                }
                return FeedReport { consumed: i, task: report.task, warnings };
            }
            let ghost so_far = warnings@;
            warnings.append(&mut report.warnings);
            proof {
                let first = before.step(insns@[i as int]);
                assert(warnings@ == so_far + first.warnings);
                assert(so_far + (first.warnings + self@.run(insns@.skip(i + 1)).warnings) =~= (
                so_far + first.warnings) + self@.run(insns@.skip(i + 1)).warnings);
            }
            i += 1;
        }
        proof {
            assert(insns@.skip(i as int).len() == 0);
            assert(warnings@ + Seq::<Warning>::empty() =~= warnings@);
        }
        FeedReport { consumed: i, task: None, warnings }
    }
}

impl AssemblerModel {
    /// A change of the texture or the colour stack leaves the product of
    /// the projection and the model-view matrix as it is; a change of the
    /// projection or the model-view stack makes it unknown.
    ///
    /// This holds of pushing, of popping, of loading the identity, and of
    /// taking in the result of a transformation.
    pub proof fn lemma_mvp_follows_selection(self, insn: RenderInstruction, result: Mat4)
        requires
            insn.mutates_matrix(),
        ensures
            self.active_matrix == MatrixMode::Texture || self.active_matrix == MatrixMode::Color
                ==> self.step(insn).state.mvp == self.mvp && self.transformed(result).mvp
                == self.mvp,
            self.active_matrix == MatrixMode::ModelView || self.active_matrix
                == MatrixMode::Projection ==> (self.step(insn).task is None ==> self.step(
                insn,
            ).state.mvp is None) && self.transformed(result).mvp is None,
            self.step(insn).task is Some ==> self.step(insn).state == self,
    {
    }

    /// What is not a change of a matrix stack leaves the product of the
    /// projection and the model-view matrix as it is.
    pub proof fn lemma_mvp_kept(self, insn: RenderInstruction)
        requires
            !insn.mutates_matrix(),
        ensures
            self.step(insn).state.mvp == self.mvp,
    {
    }
}

} // verus!
