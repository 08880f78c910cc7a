use engine::error::RendererError;
use engine::renderer::Action;
use engine::renderer::Event;
use engine::renderer::Phase;
use engine::renderer::Renderer;
use engine::resource::Resource;
use engine::resource::ShaderStage;

const VERTEX_MODULE: Resource = Resource::ShaderModule(ShaderStage::Vertex);
const FRAGMENT_MODULE: Resource = Resource::ShaderModule(ShaderStage::Fragment);

fn every_resource(images: u32) -> Vec<Resource> {
    let mut all = vec![
        Resource::Instance,
        Resource::DebugHook,
        Resource::Surface,
        Resource::Device,
        Resource::Swapchain,
    ];
    for index in 0..images {
        all.push(Resource::ImageView(index));
    }
    all.extend([
        Resource::RenderPass,
        Resource::PipelineLayout,
        VERTEX_MODULE,
        FRAGMENT_MODULE,
        Resource::Pipeline,
    ]);
    all
}

/// A stand-in for the driver that keeps track of what exists and panics on a
/// call that the real driver would not survive.
struct MockDriver {
    live: Vec<Resource>,
    created: Vec<Resource>,
    destroyed: Vec<Resource>,
    images: u32,
}

impl MockDriver {
    fn new(images: u32) -> MockDriver {
        MockDriver { live: Vec::new(), created: Vec::new(), destroyed: Vec::new(), images }
    }

    fn create(&mut self, resource: Resource) -> Event {
        assert!(!self.live.contains(&resource), "{:?} created twice", resource);
        for other in every_resource(self.images) {
            if resource.needs(&other) {
                assert!(self.live.contains(&other), "{:?} created without {:?}", resource, other);
            }
        }
        if resource == Resource::Pipeline {
            assert!(self.live.contains(&VERTEX_MODULE));
            assert!(self.live.contains(&FRAGMENT_MODULE));
        }
        self.live.push(resource);
        self.created.push(resource);
        if resource == Resource::Swapchain {
            Event::SwapchainCreated(self.images)
        } else {
            Event::Created
        }
    }

    fn destroy(&mut self, resource: Resource) -> Event {
        assert!(self.live.contains(&resource), "{:?} destroyed while absent", resource);
        for other in every_resource(self.images) {
            if resource.needs(&other) {
                assert!(
                    self.live.contains(&other),
                    "{:?} destroyed after its dependency {:?}",
                    resource,
                    other
                );
            }
        }
        for other in &self.live {
            assert!(!other.needs(&resource), "{:?} destroyed before {:?}", resource, other);
        }
        self.live.retain(|other| *other != resource);
        self.destroyed.push(resource);
        Event::Destroyed
    }

    /// Performs calls until the renderer asks for none, or until the create
    /// call for `fail_at` comes up, which is answered with `error`.
    fn run(&mut self, renderer: &mut Renderer, fail_at: Option<(Resource, RendererError)>) {
        let mut action = renderer.next_action();
        loop {
            let event = match action {
                Action::Create(resource) => match fail_at {
                    Some((failing, error)) if failing == resource => Event::Failed(error),
                    _ => self.create(resource),
                },
                Action::Destroy(resource) => self.destroy(resource),
                Action::Idle | Action::Done => return,
            };
            action = renderer.handle(event);
        }
    }
}

#[test]
fn a_new_renderer_asks_for_the_instance() {
    let renderer = Renderer::new(false);
    assert_eq!(renderer.next_action(), Action::Create(Resource::Instance));
    assert_eq!(renderer.phase(), Phase::Building);
    assert!(!renderer.is_ready());
    assert_eq!(renderer.failure(), None);
    assert_eq!(renderer.image_count(), 0);
    assert!(!renderer.debug_enabled());
    assert!(renderer.teardown_order().is_empty());
    assert!(Renderer::new(true).debug_enabled());
}

#[test]
fn release_build_creates_everything_in_order() {
    let mut renderer = Renderer::new(false);
    let mut driver = MockDriver::new(2);
    driver.run(&mut renderer, None);
    assert_eq!(
        driver.created,
        vec![
            Resource::Instance,
            Resource::Surface,
            Resource::Device,
            Resource::Swapchain,
            Resource::ImageView(0),
            Resource::ImageView(1),
            Resource::RenderPass,
            Resource::PipelineLayout,
            VERTEX_MODULE,
            FRAGMENT_MODULE,
            Resource::Pipeline,
        ]
    );
    assert_eq!(driver.destroyed, vec![FRAGMENT_MODULE, VERTEX_MODULE]);
    assert!(renderer.is_ready());
    assert_eq!(renderer.phase(), Phase::Ready);
    assert_eq!(renderer.next_action(), Action::Idle);
    assert_eq!(renderer.image_count(), 2);
    assert_eq!(renderer.failure(), None);
}

#[test]
fn debug_build_creates_the_hook_right_after_the_instance() {
    let mut renderer = Renderer::new(true);
    let mut driver = MockDriver::new(1);
    driver.run(&mut renderer, None);
    assert_eq!(
        driver.created,
        vec![
            Resource::Instance,
            Resource::DebugHook,
            Resource::Surface,
            Resource::Device,
            Resource::Swapchain,
            Resource::ImageView(0),
            Resource::RenderPass,
            Resource::PipelineLayout,
            VERTEX_MODULE,
            FRAGMENT_MODULE,
            Resource::Pipeline,
        ]
    );
    assert!(renderer.is_ready());
}

#[test]
fn teardown_mirrors_creation_in_reverse() {
    let mut renderer = Renderer::new(true);
    let mut driver = MockDriver::new(3);
    driver.run(&mut renderer, None);
    let expected = vec![
        Resource::Pipeline,
        Resource::PipelineLayout,
        Resource::RenderPass,
        Resource::ImageView(2),
        Resource::ImageView(1),
        Resource::ImageView(0),
        Resource::Swapchain,
        Resource::Device,
        Resource::Surface,
        Resource::DebugHook,
        Resource::Instance,
    ];
    assert_eq!(renderer.teardown_order(), expected);
    driver.destroyed.clear();
    assert_eq!(renderer.handle(Event::Shutdown), Action::Destroy(Resource::Pipeline));
    assert_eq!(renderer.phase(), Phase::TearingDown);
    driver.run(&mut renderer, None);
    assert_eq!(driver.destroyed, expected);
    assert!(driver.live.is_empty());
    assert_eq!(renderer.phase(), Phase::Finished);
    assert_eq!(renderer.next_action(), Action::Done);
    assert_eq!(renderer.failure(), None);
    assert!(renderer.teardown_order().is_empty());
}

#[test]
fn the_image_count_goes_with_the_swapchain() {
    let mut renderer = Renderer::new(false);
    let mut driver = MockDriver::new(3);
    driver.run(&mut renderer, None);
    assert_eq!(renderer.image_count(), 3);
    let mut action = renderer.handle(Event::Shutdown);
    while action != Action::Destroy(Resource::Swapchain) {
        assert_eq!(renderer.image_count(), 3);
        action = renderer.handle(Event::Destroyed);
    }
    assert_eq!(renderer.image_count(), 3);
    assert_eq!(renderer.handle(Event::Destroyed), Action::Destroy(Resource::Device));
    assert_eq!(renderer.image_count(), 0);
}

#[test]
fn release_teardown_has_no_debug_hook() {
    let mut renderer = Renderer::new(false);
    let mut driver = MockDriver::new(0);
    driver.run(&mut renderer, None);
    assert_eq!(
        renderer.teardown_order(),
        vec![
            Resource::Pipeline,
            Resource::PipelineLayout,
            Resource::RenderPass,
            Resource::Swapchain,
            Resource::Device,
            Resource::Surface,
            Resource::Instance,
        ]
    );
}

#[test]
fn no_resource_is_destroyed_twice_or_after_a_dependency() {
    for debug in [false, true] {
        for images in 0..5 {
            let mut renderer = Renderer::new(debug);
            let mut driver = MockDriver::new(images);
            driver.run(&mut renderer, None);
            renderer.handle(Event::Shutdown);
            driver.run(&mut renderer, None);
            assert!(driver.live.is_empty());
            let mut seen = Vec::new();
            for resource in &driver.destroyed {
                assert!(!seen.contains(resource));
                seen.push(*resource);
            }
            assert_eq!(driver.destroyed.len(), driver.created.len());
        }
    }
}

#[test]
fn a_failure_at_any_step_tears_down_what_exists() {
    let steps = every_resource(2);
    for debug in [false, true] {
        for failing in &steps {
            if *failing == Resource::DebugHook && !debug {
                continue;
            }
            let error = RendererError::creation_failure(*failing);
            let mut renderer = Renderer::new(debug);
            let mut driver = MockDriver::new(2);
            driver.run(&mut renderer, Some((*failing, error)));
            assert_eq!(renderer.phase(), Phase::Finished);
            assert_eq!(renderer.failure(), Some(error));
            assert_eq!(renderer.next_action(), Action::Done);
            assert!(!driver.created.contains(failing));
            assert!(driver.live.is_empty());
            assert_eq!(driver.destroyed.len(), driver.created.len());
        }
    }
}

#[test]
fn a_failed_pipeline_gives_up_the_shader_modules_first() {
    let mut renderer = Renderer::new(false);
    let mut driver = MockDriver::new(1);
    let error = RendererError::ResourceCreationFailed(Resource::Pipeline);
    driver.run(&mut renderer, Some((Resource::Pipeline, error)));
    assert_eq!(
        driver.destroyed,
        vec![
            FRAGMENT_MODULE,
            VERTEX_MODULE,
            Resource::PipelineLayout,
            Resource::RenderPass,
            Resource::ImageView(0),
            Resource::Swapchain,
            Resource::Device,
            Resource::Surface,
            Resource::Instance,
        ]
    );
    assert_eq!(renderer.failure(), Some(error));
}

#[test]
fn a_missing_shader_is_reported_as_the_failure() {
    let mut renderer = Renderer::new(false);
    let mut driver = MockDriver::new(1);
    driver.run(&mut renderer, Some((FRAGMENT_MODULE, RendererError::AssetMissing)));
    assert_eq!(renderer.failure(), Some(RendererError::AssetMissing));
    assert_eq!(driver.destroyed[0], VERTEX_MODULE);
    assert_eq!(driver.destroyed[1], Resource::PipelineLayout);
    assert!(driver.live.is_empty());
}

#[test]
fn a_failed_instance_leaves_nothing_to_tear_down() {
    let mut renderer = Renderer::new(true);
    let action = renderer.handle(Event::Failed(RendererError::EnvironmentUnavailable));
    assert_eq!(action, Action::Done);
    assert_eq!(renderer.phase(), Phase::Finished);
    assert_eq!(renderer.failure(), Some(RendererError::EnvironmentUnavailable));
}

#[test]
fn no_suitable_device_tears_down_surface_and_instance() {
    let mut renderer = Renderer::new(true);
    let mut driver = MockDriver::new(1);
    driver.run(&mut renderer, Some((Resource::Device, RendererError::NoSuitableDevice)));
    assert_eq!(
        driver.destroyed,
        vec![Resource::Surface, Resource::DebugHook, Resource::Instance]
    );
    assert_eq!(renderer.failure(), Some(RendererError::NoSuitableDevice));
}

#[test]
fn shutdown_while_building_tears_down_without_a_failure() {
    let mut renderer = Renderer::new(false);
    assert_eq!(renderer.handle(Event::Created), Action::Create(Resource::Surface));
    assert_eq!(renderer.handle(Event::Created), Action::Create(Resource::Device));
    assert_eq!(renderer.teardown_order(), vec![Resource::Surface, Resource::Instance]);
    assert_eq!(renderer.handle(Event::Shutdown), Action::Destroy(Resource::Surface));
    assert_eq!(renderer.handle(Event::Destroyed), Action::Destroy(Resource::Instance));
    assert_eq!(renderer.handle(Event::Destroyed), Action::Done);
    assert_eq!(renderer.failure(), None);
    assert_eq!(renderer.phase(), Phase::Finished);
}

#[test]
fn shutdown_before_anything_exists_finishes_at_once() {
    let mut renderer = Renderer::new(false);
    assert_eq!(renderer.handle(Event::Shutdown), Action::Done);
    assert_eq!(renderer.phase(), Phase::Finished);
}

#[test]
fn events_that_answer_no_pending_call_change_nothing() {
    let mut renderer = Renderer::new(false);
    assert_eq!(renderer.handle(Event::Destroyed), Action::Create(Resource::Instance));
    assert_eq!(renderer.handle(Event::SwapchainCreated(4)), Action::Create(Resource::Instance));
    assert_eq!(renderer.image_count(), 0);
    renderer.handle(Event::Created);
    renderer.handle(Event::Created);
    assert_eq!(renderer.handle(Event::Created), Action::Create(Resource::Swapchain));
    assert_eq!(renderer.handle(Event::Created), Action::Create(Resource::Swapchain));
    assert_eq!(renderer.handle(Event::SwapchainCreated(1)), Action::Create(Resource::ImageView(0)));
    assert_eq!(renderer.handle(Event::SwapchainCreated(9)), Action::Create(Resource::ImageView(0)));
    assert_eq!(renderer.image_count(), 1);
}

#[test]
fn a_ready_renderer_ignores_everything_but_a_shutdown() {
    let mut renderer = Renderer::new(false);
    MockDriver::new(1).run(&mut renderer, None);
    for event in [
        Event::Created,
        Event::Destroyed,
        Event::SwapchainCreated(3),
        Event::Failed(RendererError::AssetMissing),
    ] {
        assert_eq!(renderer.handle(event), Action::Idle);
        assert!(renderer.is_ready());
        assert_eq!(renderer.failure(), None);
        assert_eq!(renderer.image_count(), 1);
    }
    renderer.draw();
    assert!(renderer.is_ready());
}

#[test]
fn a_finished_renderer_stays_finished() {
    let mut renderer = Renderer::new(false);
    renderer.handle(Event::Shutdown);
    for event in [Event::Created, Event::Destroyed, Event::Shutdown, Event::SwapchainCreated(1)] {
        assert_eq!(renderer.handle(event), Action::Done);
        assert_eq!(renderer.phase(), Phase::Finished);
    }
}

#[test]
fn teardown_ignores_creation_events() {
    let mut renderer = Renderer::new(false);
    renderer.handle(Event::Created);
    assert_eq!(renderer.handle(Event::Shutdown), Action::Destroy(Resource::Instance));
    assert_eq!(renderer.handle(Event::Created), Action::Destroy(Resource::Instance));
    assert_eq!(
        renderer.handle(Event::Failed(RendererError::AssetMissing)),
        Action::Destroy(Resource::Instance)
    );
    assert_eq!(renderer.failure(), None);
    assert_eq!(renderer.handle(Event::Destroyed), Action::Done);
}

#[test]
fn teardown_order_while_the_modules_exist_starts_with_them() {
    let mut renderer = Renderer::new(false);
    let mut driver = MockDriver::new(0);
    let mut action = renderer.next_action();
    while action != Action::Create(Resource::Pipeline) {
        let event = match action {
            Action::Create(resource) => driver.create(resource),
            _ => unreachable!(),
        };
        action = renderer.handle(event);
    }
    assert_eq!(
        renderer.teardown_order(),
        vec![
            FRAGMENT_MODULE,
            VERTEX_MODULE,
            Resource::PipelineLayout,
            Resource::RenderPass,
            Resource::Swapchain,
            Resource::Device,
            Resource::Surface,
            Resource::Instance,
        ]
    );
    assert_eq!(renderer.handle(Event::Created), Action::Destroy(FRAGMENT_MODULE));
    assert_eq!(renderer.teardown_order()[2], Resource::Pipeline);
    assert_eq!(renderer.handle(Event::Destroyed), Action::Destroy(VERTEX_MODULE));
    assert!(!renderer.is_ready());
    assert_eq!(renderer.handle(Event::Destroyed), Action::Idle);
    assert!(renderer.is_ready());
}

#[test]
fn dependencies_are_what_the_ownership_graph_says() {
    assert!(!Resource::Instance.needs(&Resource::Instance));
    assert!(Resource::DebugHook.needs(&Resource::Instance));
    assert!(Resource::Surface.needs(&Resource::Instance));
    assert!(!Resource::Surface.needs(&Resource::Device));
    assert!(Resource::Swapchain.needs(&Resource::Surface));
    assert!(Resource::Swapchain.needs(&Resource::Device));
    assert!(Resource::ImageView(4).needs(&Resource::Swapchain));
    assert!(!Resource::ImageView(4).needs(&Resource::ImageView(3)));
    assert!(Resource::Pipeline.needs(&Resource::PipelineLayout));
    assert!(Resource::Pipeline.needs(&Resource::RenderPass));
    assert!(!Resource::Pipeline.needs(&VERTEX_MODULE));
    assert!(!Resource::Pipeline.needs(&Resource::Swapchain));
    assert!(VERTEX_MODULE.needs(&Resource::Device));
    assert!(!Resource::Device.needs(&Resource::Surface));
    for resource in every_resource(2) {
        assert!(!resource.needs(&resource));
        assert!(!resource.needs(&Resource::DebugHook));
        assert_eq!(resource.needs(&Resource::Instance), resource != Resource::Instance);
    }
}
