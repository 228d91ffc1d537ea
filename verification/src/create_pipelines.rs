//! Creation of the pipelines, shader by shader.
use crate::error::{result_view, IncludeError, IncludeErrorView, RenderError, RenderErrorView};
use crate::exchange::{
    files_view, Next, PipelineInfo, Primitive, Reply, Request, RequestView, Shaders, Step,
};
use crate::expansion::{expand, expanded_view, expansion, included_files};
use crate::modes::Modes;
use crate::pipelines::PipelineKind;
use crate::resources::{PipelineState, Program, ShaderSet};
use crate::shaders::{
    configure_constants, constants_text, file_count, file_name, file_specifier, fragment_shader,
    fragment_specifier, geometry_shader, geometry_specifier, load_specifier, name_of_file,
    vertex_shader, vertex_specifier,
};
use crate::state::{DepthStencilTest, Rasterizer};
use glsl_include::Context;
use vstd::pervasive::unreached;
use vstd::prelude::*;

verus! {

/// The pipelines that a renderer cannot be without.
#[derive(Clone, Copy, Debug, PartialEq, Eq)]
pub struct ScenePipelines {
    pub skybox: PipelineState,
    pub figure: PipelineState,
    pub terrain: PipelineState,
    pub fluid: PipelineState,
    pub sprite: PipelineState,
    pub ui: PipelineState,
    pub lod_terrain: PipelineState,
    pub postprocess: PipelineState,
    pub player_shadow: PipelineState,
}

impl ScenePipelines {
    /// The pipelines in the order in which they are made.
    pub open spec fn from_seq(built: Seq<PipelineState>) -> ScenePipelines {
        ScenePipelines {
            skybox: built[0],
            figure: built[1],
            terrain: built[2],
            fluid: built[3],
            sprite: built[4],
            ui: built[5],
            lod_terrain: built[6],
            postprocess: built[7],
            player_shadow: built[8],
        }
    }

    /// The pipelines in the order in which they are made.
    fn from_vec(built: &Vec<PipelineState>) -> (pipelines: ScenePipelines)
        requires
            built@.len() == PipelineKind::scene_count(),
        ensures
            pipelines == ScenePipelines::from_seq(built@),
    {
        ScenePipelines {
            skybox: built[0],
            figure: built[1],
            terrain: built[2],
            fluid: built[3],
            sprite: built[4],
            ui: built[5],
            lod_terrain: built[6],
            postprocess: built[7],
            player_shadow: built[8],
        }
    }
}

/// All pipelines. Where that of the shadow map is not supported, the reason takes its place.
#[derive(Debug)]
pub struct BuiltPipelines {
    pub scene: ScenePipelines,
    pub shadow: Result<PipelineState, RenderError>,
}

/// The contents of [`BuiltPipelines`].
pub struct BuiltPipelinesView {
    pub scene: ScenePipelines,
    pub shadow: Result<PipelineState, RenderErrorView>,
}

impl View for BuiltPipelines {
    type V = BuiltPipelinesView;

    open spec fn view(&self) -> BuiltPipelinesView {
        BuiltPipelinesView { scene: self.scene, shadow: result_view(self.shadow) }
    }
}

/// The contents of the result of a creation of pipelines.
pub open spec fn built_view(result: Result<BuiltPipelines, RenderError>) -> Result<
    BuiltPipelinesView,
    RenderErrorView,
> {
    match result {
        Ok(built) => Ok(built@),
        Err(error) => Err(error@),
    }
}

/// The pipeline of a kind, made of a linked program.
pub open spec fn scene_info(kind: PipelineKind, program: Program) -> PipelineInfo {
    PipelineInfo {
        kind,
        shaders: Shaders::Program(program),
        primitive: Primitive::TriangleList,
        rasterizer: Rasterizer::filling(kind.spec_cull_face(), true),
        depth_stencil: if kind is PlayerShadow {
            Some(DepthStencilTest::spec_silhouette())
        } else {
            None
        },
    }
}

/// The pipeline of the shadow map, made of a compiled set of shaders.
pub open spec fn shadow_info(shaders: ShaderSet) -> PipelineInfo {
    PipelineInfo {
        kind: PipelineKind::Shadow,
        shaders: Shaders::ShaderSet(shaders),
        primitive: Primitive::TriangleList,
        rasterizer: Rasterizer::filling(PipelineKind::Shadow.spec_cull_face().spec_flipped(), false),
        depth_stencil: None,
    }
}

/// The pipeline of a kind, made of a linked program.
pub fn scene_pipeline(kind: PipelineKind, program: Program) -> (info: PipelineInfo)
    ensures
        info == scene_info(kind, program),
{
    PipelineInfo {
        kind,
        shaders: Shaders::Program(program),
        primitive: Primitive::TriangleList,
        rasterizer: Rasterizer::for_scene(kind.cull_face()),
        depth_stencil: match kind {
            PipelineKind::PlayerShadow => Some(DepthStencilTest::silhouette()),
            _ => None,
        },
    }
}

/// The pipeline of the shadow map, made of a compiled set of shaders.
pub fn shadow_pipeline(shaders: ShaderSet) -> (info: PipelineInfo)
    ensures
        info == shadow_info(shaders),
{
    PipelineInfo {
        kind: PipelineKind::Shadow,
        shaders: Shaders::ShaderSet(shaders),
        primitive: Primitive::TriangleList,
        rasterizer: Rasterizer::for_shadow_map(PipelineKind::Shadow.cull_face()),
        depth_stencil: None,
    }
}

/// The sources of a program, or the first error among their expansions.
pub open spec fn program_sources(
    vertex: Result<Seq<char>, IncludeErrorView>,
    fragment: Result<Seq<char>, IncludeErrorView>,
) -> Result<(Seq<char>, Seq<char>), RenderErrorView> {
    match (vertex, fragment) {
        (Err(error), _) => Err(RenderErrorView::IncludeError(error)),
        (_, Err(error)) => Err(RenderErrorView::IncludeError(error)),
        (Ok(vertex), Ok(fragment)) => Ok((vertex, fragment)),
    }
}

/// The sources of a set of shaders, or the first error among their expansions.
pub open spec fn shader_set_sources(
    vertex: Result<Seq<char>, IncludeErrorView>,
    geometry: Result<Seq<char>, IncludeErrorView>,
    fragment: Result<Seq<char>, IncludeErrorView>,
) -> Result<(Seq<char>, Seq<char>, Seq<char>), RenderErrorView> {
    match (vertex, geometry, fragment) {
        (Err(error), _, _) => Err(RenderErrorView::IncludeError(error)),
        (_, Err(error), _) => Err(RenderErrorView::IncludeError(error)),
        (_, _, Err(error)) => Err(RenderErrorView::IncludeError(error)),
        (Ok(vertex), Ok(geometry), Ok(fragment)) => Ok((vertex, geometry, fragment)),
    }
}

/// The sources of a program, or the first error among their expansions.
pub fn link_sources(
    vertex: Result<String, IncludeError>,
    fragment: Result<String, IncludeError>,
) -> (sources: Result<(String, String), RenderError>)
    ensures
        match program_sources(expanded_view(vertex), expanded_view(fragment)) {
            Ok((v, f)) => sources matches Ok((vs, fs)) && vs@ == v && fs@ == f,
            Err(error) => sources matches Err(e) && e@ == error,
        },
{
    match vertex {
        Err(error) => Err(RenderError::IncludeError(error)),
        Ok(vertex) => match fragment {
            Err(error) => Err(RenderError::IncludeError(error)),
            Ok(fragment) => Ok((vertex, fragment)),
        },
    }
}

/// The sources of a set of shaders, or the first error among their expansions.
pub fn link_set_sources(
    vertex: Result<String, IncludeError>,
    geometry: Result<String, IncludeError>,
    fragment: Result<String, IncludeError>,
) -> (sources: Result<(String, String, String), RenderError>)
    ensures
        match shader_set_sources(
            expanded_view(vertex),
            expanded_view(geometry),
            expanded_view(fragment),
        ) {
            Ok((v, g, f)) => sources matches Ok((vs, gs, fs)) && vs@ == v && gs@ == g && fs@ == f,
            Err(error) => sources matches Err(e) && e@ == error,
        },
{
    match vertex {
        Err(error) => Err(RenderError::IncludeError(error)),
        Ok(vertex) => match geometry {
            Err(error) => Err(RenderError::IncludeError(error)),
            Ok(geometry) => match fragment {
                Err(error) => Err(RenderError::IncludeError(error)),
                Ok(fragment) => Ok((vertex, geometry, fragment)),
            },
        },
    }
}

/// The text that a reply brought.
pub open spec fn text(replies: Seq<Reply>, index: int) -> Seq<char> {
    replies[index]->Shader_0@
}

/// The files that shaders can refer to, out of the first replies.
pub open spec fn shader_files(modes: Modes, replies: Seq<Reply>) -> Seq<(Seq<char>, Seq<char>)> {
    Seq::new(
        file_count(),
        |i: int|
            (
                file_name(i),
                if i == 0 {
                    constants_text(modes, text(replies, 0))
                } else {
                    text(replies, i)
                },
            ),
    )
}

/// The number of replies before the first pipeline: the files, and the context.
pub open spec fn scene_start() -> nat {
    file_count() + 1
}

/// The number of replies before the pipeline of the shadow map: four for each of the
/// other pipelines.
pub open spec fn shadow_start() -> nat {
    scene_start() + 4 * PipelineKind::scene_count()
}

/// The most replies that the creation of the pipelines takes.
pub open spec fn full_length() -> nat {
    shadow_start() + 5
}

/// The expansion of the text that a reply brought, against the context.
pub open spec fn expanded(replies: Seq<Reply>, index: int) -> Result<Seq<char>, IncludeErrorView> {
    expansion(included_files(replies[file_count() as int]->Context_0), text(replies, index))
}

/// The pipelines that the replies brought, without that of the shadow map.
pub open spec fn scene_pipelines(replies: Seq<Reply>) -> ScenePipelines {
    ScenePipelines::from_seq(
        Seq::new(
            PipelineKind::scene_count(),
            |p: int| replies[scene_start() + 4 * p + 3]->Pipeline_0,
        ),
    )
}

/// The pipelines without that of the shadow map, and `shadow`.
pub open spec fn built(
    replies: Seq<Reply>,
    shadow: Result<PipelineState, RenderErrorView>,
) -> Next<Result<BuiltPipelinesView, RenderErrorView>> {
    Next::Done(Ok(BuiltPipelinesView { scene: scene_pipelines(replies), shadow }))
}

/// How the creation of the pipelines goes on after the given replies.
///
/// The shader files are loaded, then a context with all of them is made. For each pipeline
/// the vertex and the fragment shader are loaded, expanded and linked, and the pipeline is
/// created; the first failure ends the creation. The pipeline of the shadow map comes last
/// and has a geometry shader too; the first failure there takes its place.
pub open spec fn create_pipelines_next(modes: Modes, replies: Seq<Reply>) -> Next<
    Result<BuiltPipelinesView, RenderErrorView>,
> {
    let n = replies.len() as int;
    let last = replies.last();
    if n < file_count() {
        Next::Ask(RequestView::LoadShader { specifier: file_specifier(modes, n) })
    } else if n == file_count() {
        Next::Ask(RequestView::BuildContext { files: shader_files(modes, replies) })
    } else if n <= shadow_start() && last is Failed {
        Next::Done(Err(RenderErrorView::PipelineError(last->Failed_0)))
    } else if n < shadow_start() {
        let p = (n - scene_start()) / 4;
        let part = (n - scene_start()) % 4;
        let kind = PipelineKind::spec_scene(p);
        if part == 0 {
            Next::Ask(RequestView::LoadShader { specifier: vertex_specifier(kind) })
        } else if part == 1 {
            Next::Ask(
                RequestView::LoadShader { specifier: fragment_specifier(kind, modes.fluid) },
            )
        } else if part == 2 {
            match program_sources(expanded(replies, n - 2), expanded(replies, n - 1)) {
                Ok((vertex, fragment)) => Next::Ask(RequestView::LinkProgram { vertex, fragment }),
                Err(error) => Next::Done(Err(error)),
            }
        } else {
            Next::Ask(RequestView::CreatePipeline { info: scene_info(kind, last->Program_0) })
        }
    } else if n == shadow_start() {
        Next::Ask(RequestView::LoadShader { specifier: vertex_specifier(PipelineKind::Shadow) })
    } else if n == shadow_start() + 1 {
        Next::Ask(RequestView::LoadShader { specifier: geometry_specifier() })
    } else if n == shadow_start() + 2 {
        Next::Ask(
            RequestView::LoadShader {
                specifier: fragment_specifier(PipelineKind::Shadow, modes.fluid),
            },
        )
    } else if n == shadow_start() + 3 {
        match shader_set_sources(
            expanded(replies, n - 3),
            expanded(replies, n - 2),
            expanded(replies, n - 1),
        ) {
            Ok((vertex, geometry, fragment)) => Next::Ask(
                RequestView::LinkShaderSet { vertex, geometry, fragment },
            ),
            Err(error) => built(replies, Err(error)),
        }
    } else if last is Failed {
        built(replies, Err(RenderErrorView::PipelineError(last->Failed_0)))
    } else if n == shadow_start() + 4 {
        Next::Ask(RequestView::CreatePipeline { info: shadow_info(last->ShaderSet_0) })
    } else {
        built(replies, Ok(last->Pipeline_0))
    }
}

/// What the pipeline that is being made waits for.
enum ScenePart {
    Vertex,
    Fragment { vertex: String },
    Link { vertex: Ghost<Seq<char>>, fragment: Ghost<Seq<char>> },
    Create { program: Program },
}

/// What the pipeline of the shadow map waits for.
enum ShadowPart {
    Vertex,
    Geometry { vertex: String },
    Fragment { vertex: String, geometry: String },
    Link { vertex: Ghost<Seq<char>>, geometry: Ghost<Seq<char>>, fragment: Ghost<Seq<char>> },
    Create { shaders: ShaderSet },
}

/// What the creation of the pipelines waits for.
enum Stage {
    Files { texts: Vec<String> },
    Context { files: Ghost<Seq<(Seq<char>, Seq<char>)>> },
    Scene { context: Context<'static>, built: Vec<PipelineState>, part: ScenePart },
    Shadow { context: Context<'static>, scene: ScenePipelines, part: ShadowPart },
}

impl ScenePart {
    /// The number of replies that the pipeline has been given.
    spec fn index(self) -> int {
        match self {
            ScenePart::Vertex => 0,
            ScenePart::Fragment { .. } => 1,
            ScenePart::Link { .. } => 2,
            ScenePart::Create { .. } => 3,
        }
    }

    /// What was kept of the last replies is what they brought.
    spec fn agrees(self, replies: Seq<Reply>) -> bool {
        let n = replies.len() as int;
        match self {
            ScenePart::Vertex => true,
            ScenePart::Fragment { vertex } => vertex@ == text(replies, n - 1),
            ScenePart::Link { vertex, fragment } => {
                &&& expanded(replies, n - 2) == Ok::<Seq<char>, IncludeErrorView>(vertex@)
                &&& expanded(replies, n - 1) == Ok::<Seq<char>, IncludeErrorView>(fragment@)
            },
            ScenePart::Create { program } => replies.last() == Reply::Program(program),
        }
    }

    /// The request that the part waits for an answer to.
    spec fn pending(self, modes: Modes, kind: PipelineKind) -> RequestView {
        match self {
            ScenePart::Vertex => RequestView::LoadShader { specifier: vertex_specifier(kind) },
            ScenePart::Fragment { .. } => RequestView::LoadShader {
                specifier: fragment_specifier(kind, modes.fluid),
            },
            ScenePart::Link { vertex, fragment } => RequestView::LinkProgram {
                vertex: vertex@,
                fragment: fragment@,
            },
            ScenePart::Create { program } => RequestView::CreatePipeline {
                info: scene_info(kind, program),
            },
        }
    }
}

impl ShadowPart {
    /// The number of replies that the pipeline has been given.
    spec fn index(self) -> int {
        match self {
            ShadowPart::Vertex => 0,
            ShadowPart::Geometry { .. } => 1,
            ShadowPart::Fragment { .. } => 2,
            ShadowPart::Link { .. } => 3,
            ShadowPart::Create { .. } => 4,
        }
    }

    /// What was kept of the last replies is what they brought.
    spec fn agrees(self, replies: Seq<Reply>) -> bool {
        let n = replies.len() as int;
        match self {
            ShadowPart::Vertex => true,
            ShadowPart::Geometry { vertex } => vertex@ == text(replies, n - 1),
            ShadowPart::Fragment { vertex, geometry } => {
                &&& vertex@ == text(replies, n - 2)
                &&& geometry@ == text(replies, n - 1)
            },
            ShadowPart::Link { vertex, geometry, fragment } => {
                &&& expanded(replies, n - 3) == Ok::<Seq<char>, IncludeErrorView>(vertex@)
                &&& expanded(replies, n - 2) == Ok::<Seq<char>, IncludeErrorView>(geometry@)
                &&& expanded(replies, n - 1) == Ok::<Seq<char>, IncludeErrorView>(fragment@)
            },
            ShadowPart::Create { shaders } => replies.last() == Reply::ShaderSet(shaders),
        }
    }

    /// The request that the part waits for an answer to.
    spec fn pending(self, modes: Modes) -> RequestView {
        match self {
            ShadowPart::Vertex => RequestView::LoadShader {
                specifier: vertex_specifier(PipelineKind::Shadow),
            },
            ShadowPart::Geometry { .. } => RequestView::LoadShader {
                specifier: geometry_specifier(),
            },
            ShadowPart::Fragment { .. } => RequestView::LoadShader {
                specifier: fragment_specifier(PipelineKind::Shadow, modes.fluid),
            },
            ShadowPart::Link { vertex, geometry, fragment } => RequestView::LinkShaderSet {
                vertex: vertex@,
                geometry: geometry@,
                fragment: fragment@,
            },
            ShadowPart::Create { shaders } => RequestView::CreatePipeline {
                info: shadow_info(shaders),
            },
        }
    }
}

impl Stage {
    /// What was kept of the replies is what they brought, and the next reply is owed to
    /// this stage.
    spec fn agrees(self, modes: Modes, replies: Seq<Reply>) -> bool {
        let n = replies.len() as int;
        match self {
            Stage::Files { texts } => {
                &&& n == texts@.len() < file_count()
                &&& forall|i: int| 0 <= i < n ==> #[trigger] texts@[i]@ == text(replies, i)
            },
            Stage::Context { files } => {
                &&& n == file_count()
                &&& files@ == shader_files(modes, replies)
            },
            Stage::Scene { context, built, part } => {
                &&& replies[file_count() as int] == Reply::Context(context)
                &&& built@.len() < PipelineKind::scene_count()
                &&& n == scene_start() + 4 * built@.len() + part.index()
                &&& forall|p: int|
                    0 <= p < built@.len() ==> replies[scene_start() + 4 * p + 3]
                        == Reply::Pipeline(#[trigger] built@[p])
                &&& part.agrees(replies)
                &&& !(replies.last() is Failed)
            },
            Stage::Shadow { context, scene, part } => {
                &&& replies[file_count() as int] == Reply::Context(context)
                &&& scene == scene_pipelines(replies)
                &&& n == shadow_start() + part.index()
                &&& part.agrees(replies)
                &&& !(replies.last() is Failed)
            },
        }
    }

    /// The request that the stage waits for an answer to.
    spec fn pending(self, modes: Modes) -> RequestView {
        match self {
            Stage::Files { texts } => RequestView::LoadShader {
                specifier: file_specifier(modes, texts@.len() as int),
            },
            Stage::Context { files } => RequestView::BuildContext { files: files@ },
            Stage::Scene { built, part, .. } => part.pending(
                modes,
                PipelineKind::spec_scene(built@.len() as int),
            ),
            Stage::Shadow { part, .. } => part.pending(modes),
        }
    }
}

/// The creation of the pipelines, waiting for a reply.
pub struct PipelinesTask {
    modes: Modes,
    stage: Stage,
    replies: Ghost<Seq<Reply>>,
}

impl PipelinesTask {
    /// The modes that the pipelines are made for.
    pub closed spec fn modes(self) -> Modes {
        self.modes
    }

    /// The replies that the task was given, in their order.
    pub closed spec fn replies(self) -> Seq<Reply> {
        self.replies@
    }

    /// The request that the task waits for an answer to.
    pub closed spec fn pending(self) -> RequestView {
        self.stage.pending(self.modes)
    }

    #[verifier::type_invariant]
    spec fn inv(self) -> bool {
        self.stage.agrees(self.modes, self.replies@)
    }
}

/// `step` is where the creation of the pipelines stands after `replies`.
pub open spec fn pipelines_step(
    modes: Modes,
    replies: Seq<Reply>,
    step: Step<PipelinesTask, Result<BuiltPipelines, RenderError>>,
) -> bool {
    match create_pipelines_next(modes, replies) {
        Next::Ask(next) => step matches Step::Ask { request, task } && request@ == next
            && task.pending() == next && task.modes() == modes && task.replies() == replies,
        Next::Done(next) => step matches Step::Done(result) && built_view(result) == next,
    }
}

/// Starts the creation of all pipelines.
pub fn create_pipelines(modes: Modes) -> (step: Step<
    PipelinesTask,
    Result<BuiltPipelines, RenderError>,
>)
    ensures
        pipelines_step(modes, Seq::empty(), step),
{
    let task = PipelinesTask {
        modes,
        stage: Stage::Files { texts: Vec::new() },
        replies: Ghost(Seq::empty()),
    };
    Step::Ask { request: Request::LoadShader { specifier: load_specifier(modes, 0) }, task }
}

/// A stage that agrees with the replies waits for what comes next.
proof fn lemma_pending(stage: Stage, modes: Modes, replies: Seq<Reply>)
    requires
        stage.agrees(modes, replies),
    ensures
        create_pipelines_next(modes, replies) == Next::<
            Result<BuiltPipelinesView, RenderErrorView>,
        >::Ask(stage.pending(modes)),
{
    let n = replies.len() as int;
    match stage {
        Stage::Scene { built, part, .. } => {
            assert((n - scene_start()) / 4 == built@.len());
            assert((n - scene_start()) % 4 == part.index());
        },
        _ => {},
    }
}

/// Waits for the answer to `request`.
fn ask(modes: Modes, stage: Stage, request: Request, replies: Ghost<Seq<Reply>>) -> (step: Step<
    PipelinesTask,
    Result<BuiltPipelines, RenderError>,
>)
    requires
        stage.agrees(modes, replies@),
        request@ == stage.pending(modes),
    ensures
        pipelines_step(modes, replies@, step),
{
    proof {
        lemma_pending(stage, modes, replies@);
    }
    Step::Ask { request, task: PipelinesTask { modes, stage, replies } }
}

/// The loaded texts under the names that shaders use, with the constants configured.
fn name_files(modes: Modes, texts: Vec<String>, replies: Ghost<Seq<Reply>>) -> (files: Vec<
    (String, String),
>)
    requires
        texts@.len() == file_count() == replies@.len(),
        forall|i: int| 0 <= i < texts@.len() ==> #[trigger] texts@[i]@ == text(replies@, i),
    ensures
        files_view(files@) == shader_files(modes, replies@),
{
    let mut files: Vec<(String, String)> = Vec::new();
    let count: usize = texts.len();
    for i in 0..count
        invariant
            count == texts@.len() == file_count() == replies@.len(),
            forall|j: int| 0 <= j < texts@.len() ==> #[trigger] texts@[j]@ == text(replies@, j),
            files@.len() == i,
            forall|j: int|
                0 <= j < i ==> (#[trigger] files@[j]).0@ == file_name(j) && files@[j].1@ == (
                if j == 0 {
                    constants_text(modes, text(replies@, 0))
                } else {
                    text(replies@, j)
                }),
    {
        let content = if i == 0 {
            configure_constants(modes, texts[0].as_str())
        } else {
            texts[i].clone()
        };
        files.push((name_of_file(i), content));
    }
    assert(files_view(files@) =~= shader_files(modes, replies@));
    files
}

/// Goes on after the text of a shader file.
fn resume_files(
    modes: Modes,
    texts: Vec<String>,
    reply: Reply,
    replies: Ghost<Seq<Reply>>,
) -> (step: Step<PipelinesTask, Result<BuiltPipelines, RenderError>>)
    requires
        (Stage::Files { texts }).agrees(modes, replies@),
        reply is Shader,
    ensures
        pipelines_step(modes, replies@.push(reply), step),
{
    let ghost next = replies@.push(reply);
    let mut texts = texts;
    if let Reply::Shader(text) = reply {
        texts.push(text);
    }
    let count: usize = texts.len();
    if count < 9 {
        let request = Request::LoadShader { specifier: load_specifier(modes, count) };
        ask(modes, Stage::Files { texts }, request, Ghost(next))
    } else {
        let files = name_files(modes, texts, Ghost(next));
        let stage = Stage::Context { files: Ghost(files_view(files@)) };
        ask(modes, stage, Request::BuildContext { files }, Ghost(next))
    }
}

/// Goes on after a reply to the pipeline that is being made.
fn resume_scene(
    modes: Modes,
    context: Context<'static>,
    built: Vec<PipelineState>,
    part: ScenePart,
    reply: Reply,
    replies: Ghost<Seq<Reply>>,
) -> (step: Step<PipelinesTask, Result<BuiltPipelines, RenderError>>)
    requires
        (Stage::Scene { context, built, part }).agrees(modes, replies@),
        reply.answers((Stage::Scene { context, built, part }).pending(modes)),
    ensures
        pipelines_step(modes, replies@.push(reply), step),
{
    let ghost next = replies@.push(reply);
    let ghost p = built@.len() as int;
    let kind = PipelineKind::scene(built.len());
    assert forall|q: int| 0 <= q < p implies next[scene_start() + 4 * q + 3] == Reply::Pipeline(
        #[trigger] built@[q],
    ) by {
        assert(replies@[scene_start() + 4 * q + 3] == Reply::Pipeline(built@[q]));
    }
    proof {
        let n = next.len() as int;
        assert((n - scene_start()) / 4 == if part.index() == 3 {
            p + 1
        } else {
            p
        });
        assert((n - scene_start()) % 4 == if part.index() == 3 {
            0
        } else {
            part.index() + 1
        });
    }
    match (part, reply) {
        (ScenePart::Vertex, Reply::Shader(vertex)) => {
            let request = Request::LoadShader { specifier: fragment_shader(kind, modes.fluid) };
            let part = ScenePart::Fragment { vertex };
            ask(modes, Stage::Scene { context, built, part }, request, Ghost(next))
        },
        (ScenePart::Fragment { vertex }, Reply::Shader(fragment)) => {
            assert(text(next, next.len() - 2) == text(replies@, replies@.len() - 1));
            let expanded_vertex = expand(&context, vertex.as_str());
            let expanded_fragment = expand(&context, fragment.as_str());
            match link_sources(expanded_vertex, expanded_fragment) {
                Ok((vertex, fragment)) => {
                    let part = ScenePart::Link {
                        vertex: Ghost(vertex@),
                        fragment: Ghost(fragment@),
                    };
                    let request = Request::LinkProgram { vertex, fragment };
                    ask(modes, Stage::Scene { context, built, part }, request, Ghost(next))
                },
                Err(error) => Step::Done(Err(error)),
            }
        },
        (ScenePart::Link { .. }, Reply::Program(program)) => {
            let request = Request::CreatePipeline { info: scene_pipeline(kind, program) };
            let part = ScenePart::Create { program };
            ask(modes, Stage::Scene { context, built, part }, request, Ghost(next))
        },
        (ScenePart::Create { .. }, Reply::Pipeline(pipeline)) => {
            let mut built = built;
            built.push(pipeline);
            let count: usize = built.len();
            if count < 9 {
                let request = Request::LoadShader {
                    specifier: vertex_shader(PipelineKind::scene(count)),
                };
                let part = ScenePart::Vertex;
                ask(modes, Stage::Scene { context, built, part }, request, Ghost(next))
            } else {
                let scene = ScenePipelines::from_vec(&built);
                assert(scene_pipelines(next) == scene) by {
                    assert(Seq::new(
                        PipelineKind::scene_count(),
                        |q: int| next[scene_start() + 4 * q + 3]->Pipeline_0,
                    ) =~= built@);
                }
                let request = Request::LoadShader {
                    specifier: vertex_shader(PipelineKind::Shadow),
                };
                let part = ShadowPart::Vertex;
                ask(modes, Stage::Shadow { context, scene, part }, request, Ghost(next))
            }
        },
        (_, Reply::Failed(error)) => Step::Done(Err(RenderError::PipelineError(error))),
        _ => unreached(),
    }
}

/// Goes on after a reply to the pipeline of the shadow map.
fn resume_shadow(
    modes: Modes,
    context: Context<'static>,
    scene: ScenePipelines,
    part: ShadowPart,
    reply: Reply,
    replies: Ghost<Seq<Reply>>,
) -> (step: Step<PipelinesTask, Result<BuiltPipelines, RenderError>>)
    requires
        (Stage::Shadow { context, scene, part }).agrees(modes, replies@),
        reply.answers((Stage::Shadow { context, scene, part }).pending(modes)),
    ensures
        pipelines_step(modes, replies@.push(reply), step),
{
    let ghost next = replies@.push(reply);
    assert(scene == scene_pipelines(next)) by {
        assert(Seq::new(
            PipelineKind::scene_count(),
            |q: int| next[scene_start() + 4 * q + 3]->Pipeline_0,
        ) =~= Seq::new(
            PipelineKind::scene_count(),
            |q: int| replies@[scene_start() + 4 * q + 3]->Pipeline_0,
        ));
    }
    match (part, reply) {
        (ShadowPart::Vertex, Reply::Shader(vertex)) => {
            let request = Request::LoadShader { specifier: geometry_shader() };
            let part = ShadowPart::Geometry { vertex };
            ask(modes, Stage::Shadow { context, scene, part }, request, Ghost(next))
        },
        (ShadowPart::Geometry { vertex }, Reply::Shader(geometry)) => {
            let request = Request::LoadShader {
                specifier: fragment_shader(PipelineKind::Shadow, modes.fluid),
            };
            let part = ShadowPart::Fragment { vertex, geometry };
            ask(modes, Stage::Shadow { context, scene, part }, request, Ghost(next))
        },
        (ShadowPart::Fragment { vertex, geometry }, Reply::Shader(fragment)) => {
            let expanded_vertex = expand(&context, vertex.as_str());
            let expanded_geometry = expand(&context, geometry.as_str());
            let expanded_fragment = expand(&context, fragment.as_str());
            match link_set_sources(expanded_vertex, expanded_geometry, expanded_fragment) {
                Ok((vertex, geometry, fragment)) => {
                    let part = ShadowPart::Link {
                        vertex: Ghost(vertex@),
                        geometry: Ghost(geometry@),
                        fragment: Ghost(fragment@),
                    };
                    let request = Request::LinkShaderSet { vertex, geometry, fragment };
                    ask(modes, Stage::Shadow { context, scene, part }, request, Ghost(next))
                },
                Err(error) => Step::Done(Ok(BuiltPipelines { scene, shadow: Err(error) })),
            }
        },
        (ShadowPart::Link { .. }, Reply::ShaderSet(shaders)) => {
            let request = Request::CreatePipeline { info: shadow_pipeline(shaders) };
            let part = ShadowPart::Create { shaders };
            ask(modes, Stage::Shadow { context, scene, part }, request, Ghost(next))
        },
        (ShadowPart::Create { .. }, Reply::Pipeline(pipeline)) => Step::Done(
            Ok(BuiltPipelines { scene, shadow: Ok(pipeline) }),
        ),
        (_, Reply::Failed(error)) => Step::Done(
            Ok(BuiltPipelines { scene, shadow: Err(RenderError::PipelineError(error)) }),
        ),
        _ => unreached(),
    }
}

impl PipelinesTask {
    /// Goes on with the answer to the pending request.
    pub fn resume(self, reply: Reply) -> (step: Step<
        PipelinesTask,
        Result<BuiltPipelines, RenderError>,
    >)
        requires
            reply.answers(self.pending()),
        ensures
            pipelines_step(self.modes(), self.replies().push(reply), step),
    {
        proof {
            use_type_invariant(&self);
        }
        let ghost next = self.replies@.push(reply);
        let PipelinesTask { modes, stage, replies } = self;
        match stage {
            Stage::Files { texts } => resume_files(modes, texts, reply, replies),
            Stage::Context { .. } => match reply {
                Reply::Context(context) => {
                    let stage = Stage::Scene {
                        context,
                        built: Vec::new(),
                        part: ScenePart::Vertex,
                    };
                    let request = Request::LoadShader {
                        specifier: vertex_shader(PipelineKind::scene(0)),
                    };
                    ask(modes, stage, request, Ghost(next))
                },
                _ => unreached(),
            },
            Stage::Scene { context, built, part } => resume_scene(
                modes,
                context,
                built,
                part,
                reply,
                replies,
            ),
            Stage::Shadow { context, scene, part } => resume_shadow(
                modes,
                context,
                scene,
                part,
                reply,
                replies,
            ),
        }
    }
}

} // verus!
