//! The resources a renderer owns, what each one needs to stay alive, and the
//! order in which they come into being.

use vstd::prelude::*;

verus! {

/// The programmable stage a shader module is compiled for.
#[derive(Clone, Copy, Debug, PartialEq, Eq, Structural)]
pub enum ShaderStage {
    Vertex,
    Fragment,
}

/// One driver object. Image views carry the index of the swapchain image they
/// look at. Shader modules are transient: they exist only while the pipeline
/// is being built, and are not among the resources a finished renderer owns.
#[derive(Clone, Copy, Debug, PartialEq, Eq, Structural)]
pub enum Resource {
    Instance,
    DebugHook,
    Surface,
    Device,
    Swapchain,
    ImageView(u32),
    RenderPass,
    ShaderModule(ShaderStage),
    PipelineLayout,
    Pipeline,
}

impl Resource {
    /// `self` is valid only while `other` exists: `other` must be created
    /// before `self` and destroyed after it. The relation is transitive.
    pub open spec fn depends_on(self, other: Resource) -> bool {
        match self {
            Resource::Instance => false,
            Resource::DebugHook | Resource::Surface | Resource::Device => {
                other == Resource::Instance
            },
            Resource::Swapchain => {
                other == Resource::Device || other == Resource::Surface
                    || other == Resource::Instance
            },
            Resource::ImageView(_) => {
                other == Resource::Swapchain || other == Resource::Device
                    || other == Resource::Surface || other == Resource::Instance
            },
            Resource::RenderPass | Resource::ShaderModule(_) | Resource::PipelineLayout => {
                other == Resource::Device || other == Resource::Instance
            },
            Resource::Pipeline => {
                other == Resource::PipelineLayout || other == Resource::RenderPass
                    || other == Resource::Device || other == Resource::Instance
            },
        }
    }

    /// Whether `self` is valid only while `other` exists.
    pub fn needs(&self, other: &Resource) -> (result: bool)
        ensures
            result == self.depends_on(*other),
    {
        match self {
            Resource::Instance => false,
            Resource::DebugHook | Resource::Surface | Resource::Device => {
                *other == Resource::Instance
            },
            Resource::Swapchain => {
                *other == Resource::Device || *other == Resource::Surface
                    || *other == Resource::Instance
            },
            Resource::ImageView(_) => {
                *other == Resource::Swapchain || *other == Resource::Device
                    || *other == Resource::Surface || *other == Resource::Instance
            },
            Resource::RenderPass | Resource::ShaderModule(_) | Resource::PipelineLayout => {
                *other == Resource::Device || *other == Resource::Instance
            },
            Resource::Pipeline => {
                *other == Resource::PipelineLayout || *other == Resource::RenderPass
                    || *other == Resource::Device || *other == Resource::Instance
            },
        }
    }

    /// Where a resource stands among all resources when they are lined up in
    /// creation order. Shader modules stand between the pipeline layout and
    /// the pipeline, where the pipeline build creates them.
    pub open spec fn rank(self) -> int {
        match self {
            Resource::Instance => 0,
            Resource::DebugHook => 1,
            Resource::Surface => 2,
            Resource::Device => 3,
            Resource::Swapchain => 4,
            Resource::ImageView(index) => 5 + index,
            Resource::RenderPass => 0x1_0000_0005,
            Resource::PipelineLayout => 0x1_0000_0006,
            Resource::ShaderModule(ShaderStage::Vertex) => 0x1_0000_0007,
            Resource::ShaderModule(ShaderStage::Fragment) => 0x1_0000_0008,
            Resource::Pipeline => 0x1_0000_0009,
        }
    }
}

/// The resources a renderer owns, in the order they are created: the
/// instance, the debug hook in diagnostic builds, the surface, the device,
/// the swapchain, one view per swapchain image, the render pass, the
/// pipeline layout and the pipeline.
pub open spec fn creation_order(debug: bool, images: nat) -> Seq<Resource> {
    seq![Resource::Instance]
        + (if debug { seq![Resource::DebugHook] } else { Seq::<Resource>::empty() })
        + seq![Resource::Surface, Resource::Device, Resource::Swapchain]
        + Seq::new(images, |i: int| Resource::ImageView(i as u32))
        + seq![Resource::RenderPass, Resource::PipelineLayout, Resource::Pipeline]
}

/// How many resources come before the first image view.
pub open spec fn base_count(debug: bool) -> nat {
    if debug { 5 } else { 4 }
}

/// The resource at one position of the creation order, written out by
/// position.
pub open spec fn resource_at(debug: bool, images: nat, index: int) -> Resource {
    let base = base_count(debug) as int;
    if index == 0 {
        Resource::Instance
    } else if index == base - 4 {
        Resource::DebugHook
    } else if index == base - 3 {
        Resource::Surface
    } else if index == base - 2 {
        Resource::Device
    } else if index == base - 1 {
        Resource::Swapchain
    } else if index < base + images {
        Resource::ImageView((index - base) as u32)
    } else if index == base + images {
        Resource::RenderPass
    } else if index == base + images + 1 {
        Resource::PipelineLayout
    } else {
        Resource::Pipeline
    }
}

/// The creation order has `base_count + images + 3` entries, and
/// `resource_at` names each of them.
pub proof fn lemma_creation_order_by_position(debug: bool, images: nat)
    ensures
        creation_order(debug, images).len() == base_count(debug) + images + 3,
        forall|i: int|
            0 <= i < base_count(debug) + images + 3 ==> #[trigger] creation_order(
                debug,
                images,
            )[i] == resource_at(debug, images, i),
{
}

/// A renderer owns a debug hook exactly in a diagnostic build.
pub proof fn lemma_debug_hook_only_in_debug_builds(debug: bool, images: nat)
    ensures
        creation_order(debug, images).contains(Resource::DebugHook) <==> debug,
{
    lemma_creation_order_by_position(debug, images);
    if debug {
        assert(creation_order(debug, images)[1] == Resource::DebugHook);
    }
}

/// A resource depends only on resources that stand before it.
pub proof fn lemma_dependencies_rank_lower(a: Resource, b: Resource)
    requires
        a.depends_on(b),
    ensures
        b.rank() < a.rank(),
{
}

/// Dependence carries over: what a dependency needs, the dependent needs too.
pub proof fn lemma_depends_on_transitive(a: Resource, b: Resource, c: Resource)
    requires
        a.depends_on(b),
        b.depends_on(c),
    ensures
        a.depends_on(c),
{
}

/// Along the creation order ranks strictly increase, so no resource occurs
/// twice.
pub proof fn lemma_creation_order_ranks_increase(debug: bool, images: nat, i: int, j: int)
    requires
        images <= u32::MAX,
        0 <= i < j < creation_order(debug, images).len(),
    ensures
        creation_order(debug, images)[i].rank() < creation_order(debug, images)[j].rank(),
        creation_order(debug, images)[i] != creation_order(debug, images)[j],
{
    lemma_creation_order_by_position(debug, images);
}

} // verus!
