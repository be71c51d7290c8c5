//! What the recorder does with the commands of the queue: which of them
//! lead to work on the graphics device, and to which.

use vstd::prelude::*;
use std::sync::Arc;
use crate::commands::CommandModel;
use crate::commands::RenderCommand;
use crate::matrix::Mat4;
use crate::matrix::Vec4;
use crate::pipeline::DynamicPipelinePushConstants;
use crate::pipeline::DynamicPipelineSpec;
use crate::plan::MATRIX_BYTES;

verus! {

/// One piece of work on the graphics device.
#[derive(Clone, Debug, PartialEq)]
pub enum RecorderAction {
    /// Get the pipeline of the specification from the compiler and bind it.
    BindPipeline(DynamicPipelineSpec),
    /// Write a matrix into the push constants of the bound pipeline.
    PushMatrix { offset: u32, value: Mat4 },
    /// Write a colour into the push constants of the bound pipeline.
    PushColor { offset: u32, value: Vec4 },
    /// Copy the vertices into a vertex buffer, bind it and draw one
    /// instance.
    Draw { data: Arc<Vec<u8>>, vertex_count: u32, first_vertex: u32 },
    /// Clear the depth attachment to the far plane over the whole viewport.
    ClearDepth,
}

/// A piece of work as a value.
pub enum ActionModel {
    BindPipeline(DynamicPipelineSpec),
    PushMatrix { offset: u32, value: Mat4 },
    PushColor { offset: u32, value: Vec4 },
    Draw { data: Seq<u8>, vertex_count: u32, first_vertex: u32 },
    ClearDepth,
}

impl View for RecorderAction {
    type V = ActionModel;

    open spec fn view(&self) -> ActionModel {
        match self {
            RecorderAction::BindPipeline(spec) => ActionModel::BindPipeline(*spec),
            RecorderAction::PushMatrix { offset, value } => ActionModel::PushMatrix {
                offset: *offset,
                value: *value,
            },
            RecorderAction::PushColor { offset, value } => ActionModel::PushColor {
                offset: *offset,
                value: *value,
            },
            RecorderAction::Draw { data, vertex_count, first_vertex } => ActionModel::Draw {
                data: data@,
                vertex_count: *vertex_count,
                first_vertex: *first_vertex,
            },
            RecorderAction::ClearDepth => ActionModel::ClearDepth,
        }
    }
}

/// What the recorder remembers between commands: the specification of the
/// pipeline that is bound and the constants that it was handed last.
pub struct RecorderModel {
    pub bound: Option<(DynamicPipelineSpec, DynamicPipelinePushConstants)>,
}

/// The constants that a pipeline has before it is handed any.
pub open spec fn no_constants() -> DynamicPipelinePushConstants {
    DynamicPipelinePushConstants { mvp: None, color: None }
}

impl RecorderModel {
    /// Whether a command to bind asks for another pipeline than the one
    /// that is bound.
    pub open spec fn rebinds(self, pipeline: DynamicPipelineSpec) -> bool {
        match self.bound {
            Some((spec, _)) => spec != pipeline,
            None => true,
        }
    }

    /// The constants that the pipeline has when the new ones arrive: those
    /// it was handed last, none for a pipeline that is bound anew.
    pub open spec fn constants_before(self, pipeline: DynamicPipelineSpec)
        -> DynamicPipelinePushConstants {
        if self.rebinds(pipeline) {
            no_constants()
        } else {
            self.bound.unwrap().1
        }
    }

    /// The writes that hand a pipeline its constants: the matrix at offset
    /// zero, the colour behind the matrix, each as far as it is there.
    pub open spec fn constant_writes(constants: DynamicPipelinePushConstants) -> Seq<
        ActionModel,
    > {
        (match constants.mvp {
            Some(value) => seq![ActionModel::PushMatrix { offset: 0, value }],
            None => seq![],
        }) + (match constants.color {
            Some(value) => seq![
                ActionModel::PushColor {
                    offset: if constants.mvp is Some {
                        MATRIX_BYTES
                    } else {
                        0
                    },
                    value,
                },
            ],
            None => seq![],
        })
    }

    /// The work that a command leads to.
    ///
    /// A pipeline is bound where it is not the one that is bound already,
    /// and it is handed its constants where they are not the ones it has.
    pub open spec fn actions(self, command: CommandModel) -> Seq<ActionModel> {
        match command {
            CommandModel::BindDynamicGraphicsPipeline { pipeline, push_constants } => {
                (if self.rebinds(pipeline) {
                    seq![ActionModel::BindPipeline(pipeline)]
                } else {
                    seq![]
                }) + (if self.constants_before(pipeline) != push_constants {
                    Self::constant_writes(push_constants)
                } else {
                    seq![]
                })
            },
            CommandModel::Draw { start_vertex, vertex_count, data } => seq![
                ActionModel::Draw { data, vertex_count, first_vertex: start_vertex },
            ],
            CommandModel::ClearDepth => seq![ActionModel::ClearDepth],
        }
    }

    /// What the recorder remembers after a command.
    pub open spec fn after(self, command: CommandModel) -> RecorderModel {
        match command {
            CommandModel::BindDynamicGraphicsPipeline { pipeline, push_constants } => {
                RecorderModel { bound: Some((pipeline, push_constants)) }
            },
            _ => self,
        }
    }

    /// A command to bind that repeats the one before it leads to no work.
    pub proof fn lemma_repeated_bind_is_free(
        self,
        pipeline: DynamicPipelineSpec,
        push_constants: DynamicPipelinePushConstants,
    )
        ensures
            self.after(
                CommandModel::BindDynamicGraphicsPipeline { pipeline, push_constants },
            ).actions(CommandModel::BindDynamicGraphicsPipeline { pipeline, push_constants })
                == Seq::<ActionModel>::empty(),
    {
        let command = CommandModel::BindDynamicGraphicsPipeline { pipeline, push_constants };
        assert(self.after(command).actions(command) =~= Seq::<ActionModel>::empty());
    }
}

impl DynamicPipelinePushConstants {
    /// Whether two sets of constants hold the same bits.
    pub fn equals(&self, other: &DynamicPipelinePushConstants) -> (r: bool)
        ensures
            r == (*self == *other),
    {
        let same_mvp = match (&self.mvp, &other.mvp) {
            (Some(a), Some(b)) => a.equals(b),
            (None, None) => true,
            _ => false,
        };
        let same_color = match (&self.color, &other.color) {
            (Some(a), Some(b)) => a.x == b.x && a.y == b.y && a.z == b.z && a.w == b.w,
            (None, None) => true,
            _ => false,
        };
        same_mvp && same_color
    }
}

/// The recorder's memory of what is bound.
#[derive(Debug)]
pub struct CommandRecorder {
    active_dyn_pipeline: Option<(DynamicPipelineSpec, DynamicPipelinePushConstants)>,
}

impl View for CommandRecorder {
    type V = RecorderModel;

    closed spec fn view(&self) -> RecorderModel {
        RecorderModel { bound: self.active_dyn_pipeline }
    }
}

impl CommandRecorder {
    /// A recorder with nothing bound.
    pub fn new() -> (r: Self)
        ensures
            r@.bound is None,
    {
        CommandRecorder { active_dyn_pipeline: None }
    }

    /// Takes a command and says what work it leads to, in the order in
    /// which the work has to be done.
    pub fn feed(&mut self, command: RenderCommand) -> (r: Vec<RecorderAction>)
        ensures
            r@.map_values(|a: RecorderAction| a@) == old(self)@.actions(command@),
            final(self)@ == old(self)@.after(command@),
    {
        let mut actions: Vec<RecorderAction> = Vec::new();
        match command {
            RenderCommand::BindDynamicGraphicsPipeline { pipeline, push_constants } => {
                let different_pipeline = match &self.active_dyn_pipeline {
                    Some((active, _)) => !pipeline.equals(active),
                    None => true,
                };
                let before = if different_pipeline {
                    actions.push(RecorderAction::BindPipeline(pipeline));
                    DynamicPipelinePushConstants::default()
                } else {
                    match &self.active_dyn_pipeline {
                        Some((_, constants)) => *constants,
                        None => DynamicPipelinePushConstants::default(),
                    }
                };
                assert(before == old(self)@.constants_before(pipeline));
                if !before.equals(&push_constants) {
                    let mut offset: u32 = 0;
                    match push_constants.mvp {
                        Some(value) => {
                            actions.push(RecorderAction::PushMatrix { offset, value });
                            offset += MATRIX_BYTES;
                        },
                        None => {},
                    }
                    match push_constants.color {
                        Some(value) => {
                            actions.push(RecorderAction::PushColor { offset, value });
                        },
                        None => {},
                    }
                }
                self.active_dyn_pipeline = Some((pipeline, push_constants));
            },
            RenderCommand::Draw { start_vertex, vertex_count, data } => {
                actions.push(RecorderAction::Draw { data, vertex_count, first_vertex: start_vertex });
            },
            RenderCommand::ClearDepth => {
                actions.push(RecorderAction::ClearDepth);
            },
        }
        assert(actions@.map_values(|a: RecorderAction| a@) =~= old(self)@.actions(command@));
        actions
    }
}

} // verus!
