//! The renderer's lifecycle: which driver call comes next while the resources
//! are built one after another, and which while they are torn down again.
//!
//! The renderer owns every resource. It does not make the driver calls
//! itself: it names the next one, is told how it went, and names the one
//! after. Whoever drives it performs the calls.

use crate::error::RendererError;
use crate::resource::base_count;
use crate::resource::creation_order;
use crate::resource::lemma_creation_order_by_position;
use crate::resource::lemma_creation_order_ranks_increase;
use crate::resource::lemma_dependencies_rank_lower;
use crate::resource::Resource;
use crate::resource::ShaderStage;
use vstd::prelude::*;

verus! {

/// How far a renderer has come.
#[derive(Clone, Copy, Debug, PartialEq, Eq, Structural)]
pub enum Phase {
    /// Resources are still being created, or the shader modules that the
    /// pipeline was built from are still to be destroyed.
    Building,
    /// Every owned resource exists and no shader module is left.
    Ready,
    /// Resources are being destroyed, after a shutdown or a failure.
    TearingDown,
    /// No resource exists and none will be created.
    Finished,
}

/// The driver call a renderer asks for next.
#[derive(Clone, Copy, Debug, PartialEq, Eq, Structural)]
pub enum Action {
    /// Create this resource.
    Create(Resource),
    /// Destroy this resource.
    Destroy(Resource),
    /// Nothing to do: the renderer is ready and waits for a shutdown.
    Idle,
    /// Nothing to do, ever again.
    Done,
}

/// What a renderer is told.
#[derive(Clone, Copy, Debug, PartialEq, Eq, Structural)]
pub enum Event {
    /// The create call that was asked for succeeded. Not for the swapchain.
    Created,
    /// The swapchain was created, and the driver allocated this many images.
    SwapchainCreated(u32),
    /// The step that was asked for failed for this reason.
    Failed(RendererError),
    /// The destroy call that was asked for has returned.
    Destroyed,
    /// The renderer is to give up its resources.
    Shutdown,
}

/// The shader module that is created first, or second.
pub open spec fn module_at(index: int) -> Resource {
    if index == 0 {
        Resource::ShaderModule(ShaderStage::Vertex)
    } else {
        Resource::ShaderModule(ShaderStage::Fragment)
    }
}

/// A renderer as a mathematical value.
pub struct RendererModel {
    /// Whether this is a diagnostic build, which has a debug hook.
    pub debug: bool,
    /// The number of swapchain images; zero while no swapchain exists.
    pub images: nat,
    /// How many owned resources exist: the first `created` of the creation
    /// order.
    pub created: nat,
    /// How many shader modules exist: none, the vertex module, or both.
    pub modules: nat,
    pub phase: Phase,
    /// Why construction was abandoned, if it was.
    pub failure: Option<RendererError>,
}

impl RendererModel {
    /// Every resource this renderer will own, in creation order.
    pub open spec fn order(self) -> Seq<Resource> {
        creation_order(self.debug, self.images)
    }

    /// The resources that exist now: the owned ones in the order they were
    /// created, then the shader modules.
    pub open spec fn live(self) -> Seq<Resource> {
        self.order().take(self.created as int) + Seq::new(self.modules, |i: int| module_at(i))
    }

    /// The order in which the resources that exist now are destroyed: the
    /// reverse of `live`, so shader modules first, then the owned resources
    /// from the newest to the oldest.
    pub open spec fn teardown(self) -> Seq<Resource> {
        self.live().reverse()
    }

    /// What holds of every renderer: the resources that exist are a prefix
    /// of the creation order; shader modules exist only around the creation
    /// of the pipeline; images are counted only while the swapchain exists;
    /// a renderer that builds or is ready has no failure on record; a ready
    /// one owns everything; a finished one owns nothing.
    pub open spec fn well_formed(self) -> bool {
        &&& self.images <= u32::MAX
        &&& self.created <= self.order().len()
        &&& self.modules <= 2
        &&& self.modules > 0 ==> self.created + 1 >= self.order().len()
        &&& self.created < base_count(self.debug) ==> self.images == 0
        &&& match self.phase {
            Phase::Building => (self.created < self.order().len() || self.modules > 0)
                && self.failure is None,
            Phase::Ready => self.created == self.order().len() && self.modules == 0
                && self.failure is None,
            Phase::TearingDown => self.created + self.modules > 0,
            Phase::Finished => self.created == 0 && self.modules == 0,
        }
    }

    /// A renderer that owns nothing yet.
    pub open spec fn initial(debug: bool) -> RendererModel {
        RendererModel {
            debug,
            images: 0,
            created: 0,
            modules: 0,
            phase: Phase::Building,
            failure: None,
        }
    }

    /// The resource that goes first when something is destroyed: the newest
    /// shader module while there is one, else the newest owned resource.
    pub open spec fn newest(self) -> Resource {
        if self.modules > 0 {
            module_at(self.modules - 1)
        } else {
            self.order()[self.created - 1]
        }
    }

    /// The driver call to make next. While building, owned resources are
    /// created in order; the two shader modules are created just before the
    /// pipeline and destroyed just after it.
    pub open spec fn pending(self) -> Action {
        match self.phase {
            Phase::Building => if self.created == self.order().len() {
                Action::Destroy(self.newest())
            } else if self.created + 1 == self.order().len() && self.modules < 2 {
                Action::Create(module_at(self.modules as int))
            } else {
                Action::Create(self.order()[self.created as int])
            },
            Phase::Ready => Action::Idle,
            Phase::TearingDown => Action::Destroy(self.newest()),
            Phase::Finished => Action::Done,
        }
    }

    /// The resource of the pending create call exists; with it the number
    /// of images is `images`.
    pub open spec fn grown(self, images: nat) -> RendererModel {
        if self.pending() is Create && self.pending()->Create_0 is ShaderModule {
            RendererModel { modules: self.modules + 1, ..self }
        } else {
            RendererModel { images, created: self.created + 1, ..self }
        }
    }

    /// Nothing more is created; what exists is torn down.
    pub open spec fn abandoned(self, failure: Option<RendererError>) -> RendererModel {
        RendererModel {
            failure,
            phase: if self.created + self.modules == 0 {
                Phase::Finished
            } else {
                Phase::TearingDown
            },
            ..self
        }
    }

    /// The newest resource is gone, and with the swapchain the count of its
    /// images. A renderer that was building has then shed a shader module,
    /// and is ready once it has shed both; one that was tearing down is
    /// finished once nothing is left.
    pub open spec fn shrunk(self) -> RendererModel {
        let modules = if self.modules > 0 {
            (self.modules - 1) as nat
        } else {
            0
        };
        let created = if self.modules > 0 {
            self.created
        } else {
            (self.created - 1) as nat
        };
        RendererModel {
            images: if created < base_count(self.debug) {
                0
            } else {
                self.images
            },
            created,
            modules,
            phase: if self.phase == Phase::Building {
                if modules == 0 {
                    Phase::Ready
                } else {
                    Phase::Building
                }
            } else if created + modules == 0 {
                Phase::Finished
            } else {
                Phase::TearingDown
            },
            ..self
        }
    }

    /// How many driver calls are still to be made before the renderer is
    /// ready, if each of them succeeds: one for each owned resource that is
    /// still to be created, and the creation and destruction of both shader
    /// modules.
    pub open spec fn steps_to_ready(self) -> int {
        if self.created == self.order().len() {
            self.modules as int
        } else {
            self.order().len() - self.created + (2 - self.modules) + 2
        }
    }

    /// The event that reports the pending call as done.
    pub open spec fn success(self) -> Event {
        match self.pending() {
            Action::Create(resource) => if resource == Resource::Swapchain {
                Event::SwapchainCreated(0)
            } else {
                Event::Created
            },
            _ => Event::Destroyed,
        }
    }

    /// The renderer after it has been told `event`. An event that does not
    /// answer the pending call changes nothing.
    pub open spec fn after(self, event: Event) -> RendererModel {
        match self.phase {
            Phase::Building => match event {
                Event::Created => if self.pending() is Create && self.pending()
                    != Action::Create(Resource::Swapchain) {
                    self.grown(self.images)
                } else {
                    self
                },
                Event::SwapchainCreated(images) => if self.pending() == Action::Create(
                    Resource::Swapchain,
                ) {
                    self.grown(images as nat)
                } else {
                    self
                },
                Event::Destroyed => if self.pending() is Destroy {
                    self.shrunk()
                } else {
                    self
                },
                Event::Failed(error) => self.abandoned(Some(error)),
                Event::Shutdown => self.abandoned(None),
            },
            Phase::Ready => match event {
                Event::Shutdown => self.abandoned(None),
                _ => self,
            },
            Phase::TearingDown => match event {
                Event::Destroyed => self.shrunk(),
                _ => self,
            },
            Phase::Finished => self,
        }
    }
}

/// The state machine that sequences a renderer's driver calls.
pub struct Renderer {
    debug_enabled: bool,
    images: u32,
    created: u64,
    modules: u8,
    phase: Phase,
    failure: Option<RendererError>,
}

impl View for Renderer {
    type V = RendererModel;

    closed spec fn view(&self) -> RendererModel {
        RendererModel {
            debug: self.debug_enabled,
            images: self.images as nat,
            created: self.created as nat,
            modules: self.modules as nat,
            phase: self.phase,
            failure: self.failure,
        }
    }
}

fn resource_at_index(debug: bool, images: u32, index: u64) -> (resource: Resource)
    requires
        index < base_count(debug) + images + 3,
    ensures
        resource == creation_order(debug, images as nat)[index as int],
{
    proof {
        lemma_creation_order_by_position(debug, images as nat);
    }
    let base: u64 = if debug {
        5
    } else {
        4
    };
    if index == 0 {
        Resource::Instance
    } else if index + 4 == base {
        Resource::DebugHook
    } else if index + 3 == base {
        Resource::Surface
    } else if index + 2 == base {
        Resource::Device
    } else if index + 1 == base {
        Resource::Swapchain
    } else if index < base + images as u64 {
        Resource::ImageView((index - base) as u32)
    } else if index == base + images as u64 {
        Resource::RenderPass
    } else if index == base + images as u64 + 1 {
        Resource::PipelineLayout
    } else {
        Resource::Pipeline
    }
}

fn order_length(debug: bool, images: u32) -> (length: u64)
    ensures
        length == creation_order(debug, images as nat).len(),
        length == base_count(debug) + images + 3,
{
    proof {
        lemma_creation_order_by_position(debug, images as nat);
    }
    if debug {
        images as u64 + 8
    } else {
        images as u64 + 7
    }
}

fn module_at_index(index: u8) -> (resource: Resource)
    ensures
        resource == module_at(index as int),
{
    if index == 0 {
        Resource::ShaderModule(ShaderStage::Vertex)
    } else {
        Resource::ShaderModule(ShaderStage::Fragment)
    }
}

impl Renderer {
    #[verifier::type_invariant]
    spec fn holds_together(self) -> bool {
        self@.well_formed()
    }

    /// A renderer that owns nothing yet. In a diagnostic build it will own a
    /// debug hook.
    pub fn new(debug_enabled: bool) -> (renderer: Renderer)
        ensures
            renderer@ == RendererModel::initial(debug_enabled),
            renderer@.well_formed(),
    {
        proof {
            lemma_creation_order_by_position(debug_enabled, 0);
        }
        Renderer {
            debug_enabled,
            images: 0,
            created: 0,
            modules: 0,
            phase: Phase::Building,
            failure: None,
        }
    }

    fn newest_resource(&self) -> (resource: Resource)
        requires
            self@.created + self@.modules > 0,
        ensures
            resource == self@.newest(),
    {
        proof {
            use_type_invariant(self);
            lemma_creation_order_by_position(self.debug_enabled, self.images as nat);
        }
        if self.modules > 0 {
            module_at_index(self.modules - 1)
        } else {
            resource_at_index(self.debug_enabled, self.images, self.created - 1)
        }
    }

    /// The driver call to make next.
    pub fn next_action(&self) -> (action: Action)
        ensures
            action == self@.pending(),
            self@.well_formed(),
    {
        proof {
            use_type_invariant(self);
            lemma_creation_order_by_position(self.debug_enabled, self.images as nat);
        }
        let length = order_length(self.debug_enabled, self.images);
        match self.phase {
            Phase::Building => {
                if self.created == length {
                    Action::Destroy(self.newest_resource())
                } else if self.created + 1 == length && self.modules < 2 {
                    Action::Create(module_at_index(self.modules))
                } else {
                    Action::Create(
                        resource_at_index(self.debug_enabled, self.images, self.created),
                    )
                }
            },
            Phase::Ready => Action::Idle,
            Phase::TearingDown => Action::Destroy(self.newest_resource()),
            Phase::Finished => Action::Done,
        }
    }

    fn shrink(&mut self)
        requires
            old(self)@.created + old(self)@.modules > 0,
            old(self)@.phase == Phase::TearingDown || (old(self)@.phase == Phase::Building && old(
                self,
            )@.pending() is Destroy),
        ensures
            final(self)@ == old(self)@.shrunk(),
    {
        proof {
            use_type_invariant(&*self);
            lemma_creation_order_by_position(self.debug_enabled, self.images as nat);
        }
        let modules: u8 = if self.modules > 0 {
            self.modules - 1
        } else {
            0
        };
        let created: u64 = if self.modules > 0 {
            self.created
        } else {
            self.created - 1
        };
        let phase = match self.phase {
            Phase::Building => if modules == 0 {
                Phase::Ready
            } else {
                Phase::Building
            },
            _ => if created == 0 && modules == 0 {
                Phase::Finished
            } else {
                Phase::TearingDown
            },
        };
        let base: u64 = if self.debug_enabled {
            5
        } else {
            4
        };
        let images: u32 = if created < base {
            0
        } else {
            self.images
        };
        proof {
            lemma_creation_order_by_position(self.debug_enabled, 0);
        }
        *self = Renderer {
            debug_enabled: self.debug_enabled,
            images,
            created,
            modules,
            phase,
            failure: self.failure,
        };
    }

    fn abandon(&mut self, failure: Option<RendererError>)
        requires
            old(self)@.phase == Phase::Building || old(self)@.phase == Phase::Ready,
        ensures
            final(self)@ == old(self)@.abandoned(failure),
    {
        proof {
            use_type_invariant(&*self);
        }
        let phase = if self.created == 0 && self.modules == 0 {
            Phase::Finished
        } else {
            Phase::TearingDown
        };
        *self = Renderer {
            debug_enabled: self.debug_enabled,
            images: self.images,
            created: self.created,
            modules: self.modules,
            phase,
            failure,
        };
    }

    fn grow(&mut self, images: u32)
        requires
            old(self)@.phase == Phase::Building,
            old(self)@.pending() is Create,
            old(self)@.pending() == Action::Create(Resource::Swapchain) || images == old(
                self,
            )@.images,
        ensures
            final(self)@ == old(self)@.grown(images as nat),
    {
        proof {
            use_type_invariant(&*self);
            lemma_creation_order_by_position(self.debug_enabled, self.images as nat);
            lemma_creation_order_by_position(self.debug_enabled, images as nat);
        }
        let length = order_length(self.debug_enabled, self.images);
        if self.created + 1 == length && self.modules < 2 {
            *self = Renderer {
                debug_enabled: self.debug_enabled,
                images: self.images,
                created: self.created,
                modules: self.modules + 1,
                phase: self.phase,
                failure: self.failure,
            };
        } else {
            *self = Renderer {
                debug_enabled: self.debug_enabled,
                images,
                created: self.created + 1,
                modules: self.modules,
                phase: self.phase,
                failure: self.failure,
            };
        }
    }

    /// Takes in what happened and names the driver call to make next.
    pub fn handle(&mut self, event: Event) -> (action: Action)
        ensures
            final(self)@ == old(self)@.after(event),
            final(self)@.well_formed(),
            action == final(self)@.pending(),
    {
        let pending = self.next_action();
        match self.phase {
            Phase::Building => match event {
                Event::Created => {
                    let creates = match pending {
                        Action::Create(resource) => resource != Resource::Swapchain,
                        _ => false,
                    };
                    if creates {
                        let images = self.images;
                        self.grow(images);
                    }
                },
                Event::SwapchainCreated(images) => {
                    if pending == Action::Create(Resource::Swapchain) {
                        self.grow(images);
                    }
                },
                Event::Destroyed => {
                    let destroys = match pending {
                        Action::Destroy(_) => true,
                        _ => false,
                    };
                    if destroys {
                        proof {
                            use_type_invariant(&*self);
                        }
                        self.shrink();
                    }
                },
                Event::Failed(error) => {
                    self.abandon(Some(error));
                },
                Event::Shutdown => {
                    self.abandon(None);
                },
            },
            Phase::Ready => match event {
                Event::Shutdown => {
                    self.abandon(None);
                },
                _ => {},
            },
            Phase::TearingDown => match event {
                Event::Destroyed => {
                    proof {
                        use_type_invariant(&*self);
                    }
                    self.shrink();
                },
                _ => {},
            },
            Phase::Finished => {},
        }
        self.next_action()
    }

    /// Draws a frame. Frame submission is not part of this library: the call
    /// does nothing.
    pub fn draw(&self) {
    }

    /// How far the renderer has come.
    pub fn phase(&self) -> (phase: Phase)
        ensures
            phase == self@.phase,
    {
        self.phase
    }

    /// Whether every owned resource exists and the renderer can be drawn
    /// with.
    pub fn is_ready(&self) -> (ready: bool)
        ensures
            ready == (self@.phase == Phase::Ready),
    {
        self.phase == Phase::Ready
    }

    /// Why construction was abandoned, if it was.
    pub fn failure(&self) -> (failure: Option<RendererError>)
        ensures
            failure == self@.failure,
    {
        self.failure
    }

    /// Whether this is a diagnostic build.
    pub fn debug_enabled(&self) -> (debug: bool)
        ensures
            debug == self@.debug,
    {
        self.debug_enabled
    }

    /// The number of swapchain images; zero while no swapchain exists.
    pub fn image_count(&self) -> (images: u32)
        ensures
            images == self@.images,
    {
        self.images
    }

    /// The destroy calls that give up everything that exists now, in the
    /// order to make them.
    pub fn teardown_order(&self) -> (calls: Vec<Resource>)
        ensures
            calls@ == self@.teardown(),
    {
        proof {
            use_type_invariant(self);
            lemma_creation_order_by_position(self.debug_enabled, self.images as nat);
        }
        let ghost target = self@.teardown();
        let ghost live = self@.live();
        let mut calls: Vec<Resource> = Vec::new();
        let mut modules: u8 = self.modules;
        while modules > 0
            invariant
                modules <= self.modules,
                self@.well_formed(),
                live == self@.live(),
                target == live.reverse(),
                calls@ == target.take(self.modules - modules),
            decreases modules,
        {
            modules -= 1;
            let resource = module_at_index(modules);
            calls.push(resource);
        }
        let mut created: u64 = self.created;
        while created > 0
            invariant
                created <= self.created,
                self@.well_formed(),
                live == self@.live(),
                target == live.reverse(),
                creation_order(self.debug_enabled, self.images as nat).len() == base_count(
                    self.debug_enabled,
                ) + self.images + 3,
                calls@ == target.take(self.modules + self.created - created),
            decreases created,
        {
            created -= 1;
            let resource = resource_at_index(self.debug_enabled, self.images, created);
            calls.push(resource);
        }
        calls
    }
}

/// A renderer that owns nothing yet is well formed.
pub proof fn lemma_initial_well_formed(debug: bool)
    ensures
        RendererModel::initial(debug).well_formed(),
{
    lemma_creation_order_by_position(debug, 0);
}

/// Whatever a well-formed renderer is told, it stays well formed.
pub proof fn lemma_after_well_formed(model: RendererModel, event: Event)
    requires
        model.well_formed(),
    ensures
        model.after(event).well_formed(),
{
    lemma_creation_order_by_position(model.debug, model.images);
    match event {
        Event::SwapchainCreated(images) => {
            lemma_creation_order_by_position(model.debug, images as nat);
        },
        _ => {},
    }
}

/// In the creation order, whatever a resource depends on stands before it.
pub proof fn lemma_dependency_stands_before(
    debug: bool,
    images: nat,
    index: int,
    dependency: Resource,
)
    requires
        images <= u32::MAX,
        0 <= index < creation_order(debug, images).len(),
        creation_order(debug, images)[index].depends_on(dependency),
    ensures
        exists|p: int| 0 <= p < index && creation_order(debug, images)[p] == dependency,
{
    lemma_creation_order_by_position(debug, images);
    let order = creation_order(debug, images);
    let base = base_count(debug) as int;
    let p = if dependency == Resource::Instance {
        0
    } else if dependency == Resource::Surface {
        base - 3
    } else if dependency == Resource::Device {
        base - 2
    } else if dependency == Resource::Swapchain {
        base - 1
    } else if dependency == Resource::RenderPass {
        base + images
    } else {
        base + images + 1
    };
    assert(0 <= p < index && order[p] == dependency);
}

/// No shader module is among the resources a renderer owns.
pub proof fn lemma_modules_not_owned(debug: bool, images: nat, index: int, stage: ShaderStage)
    requires
        0 <= index < creation_order(debug, images).len(),
    ensures
        creation_order(debug, images)[index] != Resource::ShaderModule(stage),
{
    lemma_creation_order_by_position(debug, images);
}

/// A renderer creates a resource only when everything the resource depends
/// on exists, and never one that already exists. When it creates the
/// pipeline, both shader modules exist.
pub proof fn lemma_create_is_safe(model: RendererModel, resource: Resource, dependency: Resource)
    requires
        model.well_formed(),
        model.pending() == Action::Create(resource),
    ensures
        !model.live().contains(resource),
        resource.depends_on(dependency) ==> model.live().contains(dependency),
        resource == Resource::Pipeline ==> model.live().contains(
            Resource::ShaderModule(ShaderStage::Vertex),
        ) && model.live().contains(Resource::ShaderModule(ShaderStage::Fragment)),
{
    lemma_creation_order_by_position(model.debug, model.images);
    let order = model.order();
    let live = model.live();
    let created = model.created as int;
    if live.contains(resource) {
        let p = choose|p: int| 0 <= p < live.len() && live[p] == resource;
        if p < created {
            if created < order.len() {
                lemma_creation_order_ranks_increase(model.debug, model.images, p, created);
            }
        }
    }
    if resource.depends_on(dependency) {
        if resource is ShaderModule {
            let p = if dependency == Resource::Instance {
                0
            } else {
                base_count(model.debug) - 2
            };
            assert(live[p] == dependency);
        } else {
            lemma_dependency_stands_before(model.debug, model.images, created, dependency);
            let p = choose|p: int| 0 <= p < created && order[p] == dependency;
            assert(live[p] == dependency);
        }
    }
    if resource == Resource::Pipeline {
        assert(live[created] == Resource::ShaderModule(ShaderStage::Vertex));
        assert(live[created + 1] == Resource::ShaderModule(ShaderStage::Fragment));
    }
}

/// A renderer destroys a resource only while the resource exists, while
/// everything it depends on still exists, and when nothing that exists
/// depends on it. Afterwards the resource is gone and the others remain.
pub proof fn lemma_destroy_is_safe(model: RendererModel, resource: Resource, other: Resource)
    requires
        model.well_formed(),
        model.pending() == Action::Destroy(resource),
    ensures
        model.live().contains(resource),
        resource.depends_on(other) ==> model.live().contains(other),
        model.live().contains(other) ==> !other.depends_on(resource),
        model.after(Event::Destroyed).live() == model.live().drop_last(),
        !model.after(Event::Destroyed).live().contains(resource),
{
    lemma_creation_order_by_position(model.debug, model.images);
    let order = model.order();
    let live = model.live();
    let created = model.created as int;
    let last = live.len() - 1;
    assert(live[last] == resource);
    let rest = model.after(Event::Destroyed).live();
    assert(rest =~= live.drop_last());
    if model.modules > 0 {
        if resource.depends_on(other) {
            let p = if other == Resource::Instance {
                0
            } else {
                base_count(model.debug) - 2
            };
            assert(live[p] == other);
        }
        if rest.contains(resource) {
            let p = choose|p: int| 0 <= p < rest.len() && rest[p] == resource;
            assert(p < created ==> rest[p] == order[p]);
        }
    } else {
        if resource.depends_on(other) {
            lemma_dependency_stands_before(model.debug, model.images, last, other);
            let p = choose|p: int| 0 <= p < last && order[p] == other;
            assert(live[p] == other);
        }
        if live.contains(other) && other.depends_on(resource) {
            let p = choose|p: int| 0 <= p < live.len() && live[p] == other;
            lemma_dependencies_rank_lower(other, resource);
            if p < last {
                lemma_creation_order_ranks_increase(model.debug, model.images, p, last);
            }
        }
        if rest.contains(resource) {
            let p = choose|p: int| 0 <= p < rest.len() && rest[p] == resource;
            lemma_creation_order_ranks_increase(model.debug, model.images, p, last);
        }
    }
}

/// Tearing down what exists never destroys a resource after something it
/// depends on, and never destroys a resource twice: of two entries of the
/// teardown order, the later one does not depend on the earlier one, and
/// they differ.
pub proof fn lemma_teardown_respects_dependencies(model: RendererModel, i: int, j: int)
    requires
        model.well_formed(),
        0 <= i < j < model.teardown().len(),
    ensures
        !model.teardown()[j].depends_on(model.teardown()[i]),
        model.teardown()[i] != model.teardown()[j],
{
    let live = model.live();
    let n = live.len() as int;
    let later = live[n - 1 - j];
    let earlier = live[n - 1 - i];
    assert(model.teardown()[i] == earlier);
    assert(model.teardown()[j] == later);
    if later.depends_on(earlier) {
        lemma_dependencies_rank_lower(later, earlier);
        lemma_creation_order_ranks_increase(model.debug, model.images, n - 1 - j, n - 1 - i);
    }
    if later == earlier {
        if n - 1 - i < model.created {
            lemma_creation_order_ranks_increase(model.debug, model.images, n - 1 - j, n - 1 - i);
        } else if n - 1 - j < model.created {
            lemma_modules_not_owned(
                model.debug,
                model.images,
                n - 1 - j,
                earlier->ShaderModule_0,
            );
        }
    }
}

/// The teardown of a complete renderer: pipeline, pipeline layout, render
/// pass, the image views from the last to the first, swapchain, device,
/// surface, the debug hook in a diagnostic build, and the instance.
pub open spec fn complete_teardown(debug: bool, images: nat) -> Seq<Resource> {
    seq![Resource::Pipeline, Resource::PipelineLayout, Resource::RenderPass] + Seq::new(
        images,
        |i: int| Resource::ImageView((images - 1 - i) as u32),
    ) + seq![Resource::Swapchain, Resource::Device, Resource::Surface] + (if debug {
        seq![Resource::DebugHook]
    } else {
        Seq::<Resource>::empty()
    }) + seq![Resource::Instance]
}

/// A ready renderer owns every resource of its creation order and no shader
/// module, and tears them down in exactly the reverse of that order.
pub proof fn lemma_ready_teardown(model: RendererModel)
    requires
        model.well_formed(),
        model.phase == Phase::Ready,
    ensures
        model.live() == creation_order(model.debug, model.images),
        model.teardown() == complete_teardown(model.debug, model.images),
{
    lemma_creation_order_by_position(model.debug, model.images);
}

/// While a renderer is building, every call that succeeds brings it one
/// step closer to being ready, and it is ready exactly when no step is left.
/// When the swapchain is created, the views of its images are added to what
/// is left.
pub proof fn lemma_success_makes_progress(model: RendererModel, images: u32)
    requires
        model.well_formed(),
        model.phase == Phase::Building,
    ensures
        model.steps_to_ready() > 0,
        model.pending() != Action::Create(Resource::Swapchain) ==> model.after(
            model.success(),
        ).steps_to_ready() == model.steps_to_ready() - 1,
        model.pending() == Action::Create(Resource::Swapchain) ==> model.after(
            Event::SwapchainCreated(images),
        ).steps_to_ready() == model.steps_to_ready() - 1 + images,
        model.after(model.success()).phase == Phase::Ready <==> model.after(
            model.success(),
        ).steps_to_ready() == 0,
        model.after(model.success()).phase == Phase::Ready || model.after(model.success()).phase
            == Phase::Building,
{
    lemma_creation_order_by_position(model.debug, model.images);
    lemma_creation_order_by_position(model.debug, images as nat);
    lemma_creation_order_by_position(model.debug, 0);
    if model.created < model.order().len() {
        lemma_modules_not_owned(
            model.debug,
            model.images,
            model.created as int,
            ShaderStage::Vertex,
        );
        lemma_modules_not_owned(
            model.debug,
            model.images,
            model.created as int,
            ShaderStage::Fragment,
        );
    }
}

/// Once construction is abandoned, whether by a failure or by a shutdown,
/// the renderer never becomes ready and never creates anything again, and
/// the reason it recorded stays.
pub proof fn lemma_abandoned_stays_abandoned(model: RendererModel, event: Event)
    requires
        model.well_formed(),
        model.phase == Phase::TearingDown || model.phase == Phase::Finished,
    ensures
        model.after(event).phase == Phase::TearingDown || model.after(event).phase
            == Phase::Finished,
        !(model.after(event).pending() is Create),
        model.after(event).failure == model.failure,
        model.after(event).live().len() <= model.live().len(),
{
}

/// A failure while building ends construction at once: the renderer records
/// the reason, creates nothing more, and keeps exactly what exists until it
/// is torn down.
pub proof fn lemma_failure_ends_construction(model: RendererModel, error: RendererError)
    requires
        model.well_formed(),
        model.phase == Phase::Building,
    ensures
        model.after(Event::Failed(error)).failure == Some(error),
        !(model.after(Event::Failed(error)).pending() is Create),
        model.after(Event::Failed(error)).live() == model.live(),
        model.after(Event::Failed(error)).phase == Phase::Finished <==> model.live().len() == 0,
{
}

} // verus!
