//! The ways bringing up a renderer can fail.

use crate::resource::Resource;
use vstd::prelude::*;
use vstd::string::*;

verus! {

/// Why construction was abandoned. None of these is recovered from: the
/// caller reports the message and gives up.
#[derive(Clone, Copy, Debug, PartialEq, Eq, Structural)]
pub enum RendererError {
    /// The driver entry point, or an extension or layer the instance needs,
    /// is not there.
    EnvironmentUnavailable,
    /// Adapters were enumerated and none of them is suitable.
    NoSuitableDevice,
    /// The driver rejected the create call for this resource.
    ResourceCreationFailed(Resource),
    /// A shader binary is absent, unreadable or malformed.
    AssetMissing,
}

impl Resource {
    /// The words a message uses for this kind of resource.
    pub open spec fn label_text(self) -> Seq<char> {
        match self {
            Resource::Instance => "instance"@,
            Resource::DebugHook => "debug hook"@,
            Resource::Surface => "surface"@,
            Resource::Device => "logical device"@,
            Resource::Swapchain => "swapchain"@,
            Resource::ImageView(_) => "image view"@,
            Resource::RenderPass => "render pass"@,
            Resource::ShaderModule(_) => "shader module"@,
            Resource::PipelineLayout => "pipeline layout"@,
            Resource::Pipeline => "pipeline"@,
        }
    }

    /// The words a message uses for this kind of resource.
    pub fn label(&self) -> (text: &'static str)
        ensures
            text@ == self.label_text(),
    {
        match self {
            Resource::Instance => "instance",
            Resource::DebugHook => "debug hook",
            Resource::Surface => "surface",
            Resource::Device => "logical device",
            Resource::Swapchain => "swapchain",
            Resource::ImageView(_) => "image view",
            Resource::RenderPass => "render pass",
            Resource::ShaderModule(_) => "shader module",
            Resource::PipelineLayout => "pipeline layout",
            Resource::Pipeline => "pipeline",
        }
    }
}

impl RendererError {
    /// The error that a rejected create call for `resource` amounts to. A
    /// rejected instance means the environment lacks what was asked of it;
    /// every other rejection names the resource.
    pub open spec fn creation_failure_of(resource: Resource) -> RendererError {
        if resource == Resource::Instance {
            RendererError::EnvironmentUnavailable
        } else {
            RendererError::ResourceCreationFailed(resource)
        }
    }

    /// The error to report when the driver rejects the create call for
    /// `resource`.
    pub fn creation_failure(resource: Resource) -> (error: RendererError)
        ensures
            error == Self::creation_failure_of(resource),
    {
        match resource {
            Resource::Instance => RendererError::EnvironmentUnavailable,
            _ => RendererError::ResourceCreationFailed(resource),
        }
    }

    /// The descriptive message for this error.
    pub open spec fn message_text(self) -> Seq<char> {
        match self {
            RendererError::EnvironmentUnavailable => {
                "graphics driver, extension or layer unavailable"@
            },
            RendererError::NoSuitableDevice => "no suitable device"@,
            RendererError::ResourceCreationFailed(resource) => {
                "failed creating "@ + resource.label_text()
            },
            RendererError::AssetMissing => "shader binary missing or malformed"@,
        }
    }

    /// The descriptive message for this error, to be printed once by whoever
    /// gives up on construction.
    pub fn message(&self) -> (text: String)
        ensures
            text@ == self.message_text(),
    {
        match self {
            RendererError::EnvironmentUnavailable => {
                String::from_str("graphics driver, extension or layer unavailable")
            },
            RendererError::NoSuitableDevice => String::from_str("no suitable device"),
            RendererError::ResourceCreationFailed(resource) => {
                String::from_str("failed creating ").concat(resource.label())
            },
            RendererError::AssetMissing => String::from_str("shader binary missing or malformed"),
        }
    }
}

} // verus!
