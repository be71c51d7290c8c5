//! The commands that the assembler gives out, and the queue that holds them
//! until they are recorded.

use vstd::prelude::*;
use std::sync::Arc;
use crate::pipeline::DynamicPipelinePushConstants;
use crate::pipeline::DynamicPipelineSpec;

verus! {

/// A finished command for the recorder.
#[derive(Clone, Debug, PartialEq)]
pub enum RenderCommand {
    /// Binds the pipeline of a specification, compiling it where needed, and
    /// hands it its constants.
    BindDynamicGraphicsPipeline {
        pipeline: DynamicPipelineSpec,
        push_constants: DynamicPipelinePushConstants,
    },
    /// Draws `vertex_count` vertices of the packed buffer from `start_vertex`.
    Draw { start_vertex: u32, vertex_count: u32, data: Arc<Vec<u8>> },
    /// Clears the depth attachment over the whole viewport.
    ClearDepth,
}

/// A command as a value: a draw command by the bytes of its buffer.
pub enum CommandModel {
    BindDynamicGraphicsPipeline {
        pipeline: DynamicPipelineSpec,
        push_constants: DynamicPipelinePushConstants,
    },
    Draw { start_vertex: u32, vertex_count: u32, data: Seq<u8> },
    ClearDepth,
}

impl View for RenderCommand {
    type V = CommandModel;

    open spec fn view(&self) -> CommandModel {
        match self {
            RenderCommand::BindDynamicGraphicsPipeline { pipeline, push_constants } => {
                CommandModel::BindDynamicGraphicsPipeline {
                    pipeline: *pipeline,
                    push_constants: *push_constants,
                }
            },
            RenderCommand::Draw { start_vertex, vertex_count, data } => CommandModel::Draw {
                start_vertex: *start_vertex,
                vertex_count: *vertex_count,
                data: data@,
            },
            RenderCommand::ClearDepth => CommandModel::ClearDepth,
        }
    }
}

/// The commands that wait to be recorded, oldest first.
#[derive(Debug)]
pub enum CommandQueue {
    Buffered(Vec<RenderCommand>),
}

impl View for CommandQueue {
    type V = Seq<CommandModel>;

    open spec fn view(&self) -> Seq<CommandModel> {
        match self {
            CommandQueue::Buffered(commands) => commands@.map_values(|c: RenderCommand| c@),
        }
    }
}

impl CommandQueue {
    /// A queue in which nothing waits.
    pub fn new() -> (r: Self)
        ensures
            r@ == Seq::<CommandModel>::empty(),
    {
        let r = CommandQueue::Buffered(Vec::new());
        assert(r@ =~= Seq::<CommandModel>::empty());
        r
    }

    /// Puts a command behind those that wait.
    pub fn push(&mut self, cmd: RenderCommand)
        ensures
            final(self)@ == old(self)@.push(cmd@),
    {
        match self {
            CommandQueue::Buffered(commands) => {
                commands.push(cmd);
            },
        }
        assert(self@ =~= old(self)@.push(cmd@));
    }

    /// The number of commands that wait.
    pub fn len(&self) -> (r: usize)
        ensures
            r == self@.len(),
    {
        match self {
            CommandQueue::Buffered(commands) => commands.len(),
        }
    }

    /// Takes out the commands that wait, oldest first, and leaves the queue
    /// empty.
    pub fn take(&mut self) -> (r: Vec<RenderCommand>)
        ensures
            r@.map_values(|c: RenderCommand| c@) == old(self)@,
            final(self)@ == Seq::<CommandModel>::empty(),
    {
        let mut taken: Vec<RenderCommand> = Vec::new();
        match self {
            CommandQueue::Buffered(commands) => {
                core::mem::swap(&mut taken, commands);
            },
        }
        assert(self@ =~= Seq::<CommandModel>::empty());
        taken
    }
}

} // verus!
