//! What holds of the pipelines and of their creation.
use crate::create_pipelines::{
    create_pipelines_next, scene_info, shadow_info, BuiltPipelinesView, ScenePipelines,
};
use crate::error::{IncludeErrorView, RenderErrorView};
use crate::exchange::{Next, Reply, RequestView, Shaders};
use crate::expansion::{expansion, included_files};
use crate::modes::Modes;
use crate::pipelines::PipelineKind;
use crate::render_laws::pipeline_of;
use crate::resources::{PipelineState, Program, ShaderSet};
use crate::shaders::{
    constants_text, file_name, file_specifier, fragment_specifier, geometry_specifier,
    vertex_specifier,
};
use crate::state::{
    Comparison, CullFace, DepthStencilTest, Rasterizer, Stencil, StencilOp, StencilSide,
};
use vstd::prelude::*;

verus! {

// The state of pipelines.

/// What a comparison says of a new and a stored value.
pub open spec fn passes(fun: Comparison, new: int, stored: int) -> bool {
    match fun {
        Comparison::Never => false,
        Comparison::Less => new < stored,
        Comparison::LessEqual => new <= stored,
        Comparison::Equal => new == stored,
        Comparison::GreaterEqual => new >= stored,
        Comparison::Greater => new > stored,
        Comparison::NotEqual => new != stored,
        Comparison::Always => true,
    }
}

/// The stencil test of one side passes, for a reference and a stored value: both are taken
/// under the mask.
pub open spec fn stencil_passes(side: StencilSide, reference: u8, stored: u8) -> bool {
    passes(side.fun, (reference & side.mask_read) as int, (stored & side.mask_read) as int)
}

/// The silhouette is drawn exactly where the stencil value is the reference, whatever the
/// depth, from whichever side a face is seen, and drawing it changes neither depths nor
/// stencil values.
pub proof fn silhouettes_are_drawn_where_the_stencil_says(
    reference: u8,
    stored: u8,
    depth: int,
    stored_depth: int,
)
    ensures
        ({
            let test = DepthStencilTest::spec_silhouette();
            &&& passes(test.depth.fun, depth, stored_depth)
            &&& !test.depth.write
            &&& stencil_passes(test.stencil.front, reference, stored) <==> reference == stored
            &&& stencil_passes(test.stencil.back, reference, stored) <==> reference == stored
            &&& test.stencil.front.op_fail is Keep
            &&& test.stencil.front.op_depth_fail is Keep
            &&& test.stencil.front.op_pass is Keep
            &&& test.stencil.back.op_fail is Keep
            &&& test.stencil.back.op_depth_fail is Keep
            &&& test.stencil.back.op_pass is Keep
        }),
{
    assert(reference & 0xffu8 == reference) by (bit_vector);
    assert(stored & 0xffu8 == stored) by (bit_vector);
}

/// A stencil test is the same on both sides, under the mask for reading and for writing, with
/// the operations for a failed stencil test, a failed depth test and two passed tests in this
/// order.
pub proof fn stencil_tests_have_two_equal_sides(
    fun: Comparison,
    mask: u8,
    fail: StencilOp,
    depth_fail: StencilOp,
    pass: StencilOp,
)
    ensures
        ({
            let stencil = Stencil::spec_new(fun, mask, (fail, depth_fail, pass));
            &&& stencil.front == stencil.back
            &&& stencil.front.fun == fun
            &&& stencil.front.mask_read == mask
            &&& stencil.front.mask_write == mask
            &&& stencil.front.op_fail == fail
            &&& stencil.front.op_depth_fail == depth_fail
            &&& stencil.front.op_pass == pass
        }),
{
}

/// Faces are filled, their front is where the vertices run counter-clockwise, and depths are
/// not offset; which side is left out, and whether several samples are taken, is as asked for.
pub proof fn rasterizers_fill_faces(cull_face: CullFace, multisample: bool)
    ensures
        ({
            let rasterizer = Rasterizer::filling(cull_face, multisample);
            &&& rasterizer.front_face is CounterClockwise
            &&& rasterizer.method is Fill
            &&& rasterizer.offset is None
            &&& rasterizer.cull_face == cull_face
            &&& rasterizer.multisample == multisample
        }),
        cull_face is Front ==> cull_face.spec_flipped() is Back,
        cull_face is Back ==> cull_face.spec_flipped() is Front,
        cull_face is Nothing ==> cull_face.spec_flipped() is Nothing,
{
}

/// A pipeline of the scene is made for its kind of its program. Fluids are seen from both
/// sides, everything else from the front. Only the silhouette has a test of its own.
pub proof fn scene_pipelines_are_made_for_their_kind(kind: PipelineKind, program: Program)
    ensures
        ({
            let info = scene_info(kind, program);
            &&& info.kind == kind
            &&& info.shaders == Shaders::Program(program)
            &&& info.primitive is TriangleList
            &&& info.rasterizer.front_face is CounterClockwise
            &&& info.rasterizer.method is Fill
            &&& info.rasterizer.offset is None
            &&& info.rasterizer.multisample
            &&& kind is Fluid ==> info.rasterizer.cull_face is Nothing
            &&& !(kind is Fluid) ==> info.rasterizer.cull_face is Back
            &&& info.depth_stencil is Some <==> kind is PlayerShadow
            &&& kind is PlayerShadow ==> info.depth_stencil == Some(
                DepthStencilTest::spec_silhouette(),
            )
        }),
{
}

/// The pipeline of the shadow map is made of its set of shaders. It shows the far sides of
/// things, takes one sample, and tests depths as its kind declares.
pub proof fn shadow_pipelines_show_the_far_sides(shaders: ShaderSet)
    ensures
        ({
            let info = shadow_info(shaders);
            &&& info.kind is Shadow
            &&& info.shaders == Shaders::ShaderSet(shaders)
            &&& info.primitive is TriangleList
            &&& info.rasterizer.front_face is CounterClockwise
            &&& info.rasterizer.method is Fill
            &&& info.rasterizer.offset is None
            &&& !info.rasterizer.multisample
            &&& info.rasterizer.cull_face is Front
            &&& info.depth_stencil is None
        }),
{
}

// The order of creation.

/// The pipelines of the scene, in the order in which they are made.
pub open spec fn scene_order() -> Seq<PipelineKind> {
    seq![
        PipelineKind::Skybox,
        PipelineKind::Figure,
        PipelineKind::Terrain,
        PipelineKind::Fluid,
        PipelineKind::Sprite,
        PipelineKind::Ui,
        PipelineKind::LodTerrain,
        PipelineKind::PostProcess,
        PipelineKind::PlayerShadow,
    ]
}

/// Where a pipeline comes in the order.
pub open spec fn place(kind: PipelineKind) -> int
    recommends
        !(kind is Shadow),
{
    match kind {
        PipelineKind::Skybox => 0,
        PipelineKind::Figure => 1,
        PipelineKind::Terrain => 2,
        PipelineKind::Fluid => 3,
        PipelineKind::Sprite => 4,
        PipelineKind::Ui => 5,
        PipelineKind::LodTerrain => 6,
        PipelineKind::PostProcess => 7,
        _ => 8,
    }
}

/// Every pipeline but that of the shadow map is made, once.
pub proof fn every_pipeline_is_made_once(kind: PipelineKind, index: int)
    ensures
        PipelineKind::scene_count() == scene_order().len(),
        0 <= index < 9 ==> PipelineKind::spec_scene(index) == scene_order()[index],
        !(kind is Shadow) ==> 0 <= place(kind) < 9 && scene_order()[place(kind)] == kind,
        0 <= index < 9 && scene_order()[index] == kind ==> place(kind) == index,
        kind is Fluid <==> kind.spec_cull_face() is Nothing,
        !(kind is Fluid) <==> kind.spec_cull_face() is Back,
{
}

/// What the creation of the pipelines asks for.
pub open spec fn asks(request: RequestView) -> Next<Result<BuiltPipelinesView, RenderErrorView>> {
    Next::Ask(request)
}

/// The creation of the pipelines ends with an error.
pub open spec fn fails(error: RenderErrorView) -> Next<Result<BuiltPipelinesView, RenderErrorView>> {
    Next::Done(Err(error))
}

/// First all shader files are loaded, for the modes, then a context is made that holds each of
/// them under its name, the constants with the settings of the modes.
pub proof fn files_are_loaded_first(modes: Modes, replies: Seq<Reply>, i: int)
    requires
        replies.len() <= 9,
    ensures
        replies.len() < 9 ==> create_pipelines_next(modes, replies) == asks(
            RequestView::LoadShader { specifier: file_specifier(modes, replies.len() as int) },
        ),
        replies.len() == 9 ==> {
            &&& create_pipelines_next(modes, replies) matches Next::Ask(
                RequestView::BuildContext { files },
            )
            &&& files.len() == 9
            &&& 0 <= i < 9 ==> files[i].0 == file_name(i)
            &&& i == 0 ==> files[i].1 == constants_text(modes, replies[0]->Shader_0@)
            &&& 0 < i < 9 ==> files[i].1 == replies[i]->Shader_0@
        },
{
}

/// The expansion of the text that came with a reply, against the files of the context that
/// came before all pipelines.
pub open spec fn expansion_of(replies: Seq<Reply>, index: int) -> Result<
    Seq<char>,
    IncludeErrorView,
> {
    expansion(included_files(replies[9]->Context_0), replies[index]->Shader_0@)
}

/// Then every pipeline of the scene takes four steps, as long as nothing fails: its own vertex
/// shader is loaded, then its own fragment shader for the fluid mode; both are expanded and
/// linked with each other; the pipeline is created for its kind of that program. An error
/// among the expansions, that of the vertex shader before that of the fragment shader, ends
/// the creation.
pub proof fn pipelines_take_four_steps(modes: Modes, replies: Seq<Reply>, kind: PipelineKind)
    requires
        !(kind is Shadow),
        10 + 4 * place(kind) <= replies.len() < 14 + 4 * place(kind),
        !(replies.last() is Failed),
    ensures
        ({
            let next = create_pipelines_next(modes, replies);
            let first = 10 + 4 * place(kind);
            let n = replies.len();
            &&& n == first ==> next == asks(
                RequestView::LoadShader { specifier: vertex_specifier(kind) },
            )
            &&& n == first + 1 ==> next == asks(
                RequestView::LoadShader { specifier: fragment_specifier(kind, modes.fluid) },
            )
            &&& n == first + 2 ==> match expansion_of(replies, first) {
                Err(error) => next == fails(RenderErrorView::IncludeError(error)),
                Ok(vertex) => match expansion_of(replies, first + 1) {
                    Err(error) => next == fails(RenderErrorView::IncludeError(error)),
                    Ok(fragment) => next == asks(RequestView::LinkProgram { vertex, fragment }),
                },
            }
            &&& n == first + 3 ==> {
                &&& next matches Next::Ask(RequestView::CreatePipeline { info })
                &&& info.kind == kind
                &&& info == scene_info(kind, replies.last()->Program_0)
            }
        }),
{
    let n = replies.len() as int;
    let p = place(kind);
    assert((n - 10) / 4 == p);
    assert((n - 10) % 4 == n - 10 - 4 * p);
    every_pipeline_is_made_once(kind, p);
}

/// A reply that a pipeline of the scene failed ends the creation with what was said.
pub proof fn pipeline_failures_end_the_creation(modes: Modes, replies: Seq<Reply>)
    requires
        10 <= replies.len() <= 46,
        replies.last() is Failed,
    ensures
        create_pipelines_next(modes, replies) == fails(
            RenderErrorView::PipelineError(replies.last()->Failed_0),
        ),
{
}

/// `built` are the pipelines that the replies brought, each in its place.
pub open spec fn has_pipelines_of(scene: ScenePipelines, replies: Seq<Reply>) -> bool {
    forall|kind: PipelineKind|
        !(kind is Shadow) ==> #[trigger] pipeline_of(scene, kind) == replies[10 + 4 * place(kind)
            + 3]->Pipeline_0
}

/// The creation of the pipelines ends with those of the scene, each as it was created, and
/// with `shadow`.
pub open spec fn ends_with(
    next: Next<Result<BuiltPipelinesView, RenderErrorView>>,
    replies: Seq<Reply>,
    shadow: Result<PipelineState, RenderErrorView>,
) -> bool {
    &&& next matches Next::Done(Ok(built))
    &&& has_pipelines_of(built.scene, replies)
    &&& built.shadow == shadow
}

/// Last comes the pipeline of the shadow map, in five steps: its vertex, geometry and fragment
/// shader are loaded, all three are expanded and compiled as a set, and the pipeline is
/// created of that set. Whatever fails there is handed out in its place; the creation succeeds.
pub proof fn the_shadow_pipeline_takes_five_steps(modes: Modes, replies: Seq<Reply>)
    requires
        46 <= replies.len() <= 51,
    ensures
        ({
            let next = create_pipelines_next(modes, replies);
            let n = replies.len();
            let last = replies.last();
            &&& n == 46 && !(last is Failed) ==> next == asks(
                RequestView::LoadShader { specifier: vertex_specifier(PipelineKind::Shadow) },
            )
            &&& n == 47 ==> next == asks(
                RequestView::LoadShader { specifier: geometry_specifier() },
            )
            &&& n == 48 ==> next == asks(
                RequestView::LoadShader {
                    specifier: fragment_specifier(PipelineKind::Shadow, modes.fluid),
                },
            )
            &&& n == 49 ==> match expansion_of(replies, 46) {
                Err(error) => ends_with(
                    next,
                    replies,
                    Err(RenderErrorView::IncludeError(error)),
                ),
                Ok(vertex) => match expansion_of(replies, 47) {
                    Err(error) => ends_with(
                        next,
                        replies,
                        Err(RenderErrorView::IncludeError(error)),
                    ),
                    Ok(geometry) => match expansion_of(replies, 48) {
                        Err(error) => ends_with(
                            next,
                            replies,
                            Err(RenderErrorView::IncludeError(error)),
                        ),
                        Ok(fragment) => next == asks(
                            RequestView::LinkShaderSet { vertex, geometry, fragment },
                        ),
                    },
                },
            }
            &&& n >= 50 && last is Failed ==> ends_with(
                next,
                replies,
                Err(RenderErrorView::PipelineError(last->Failed_0)),
            )
            &&& n == 50 && !(last is Failed) ==> next == asks(
                RequestView::CreatePipeline { info: shadow_info(last->ShaderSet_0) },
            )
            &&& n == 51 && !(last is Failed) ==> ends_with(next, replies, Ok(last->Pipeline_0))
        }),
{
}

} // verus!
