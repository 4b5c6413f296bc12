//! Where the backend and the web content lie, relative to the application's
//! resource directory, in a source tree and in an installation.
//!
//! A location is a route: the steps to take from the resource directory. The
//! caller walks the route on the real file system.

use vstd::prelude::*;
use vstd::string::*;
use crate::endpoint::SITE_PORT;

verus! {

/// The loopback address that the web server listens on, at the port of the
/// served site.
pub const BIND_HOST: &'static str = "127.0.0.1";

/// The two layouts of the files round the application.
#[derive(Debug, Clone, Copy, PartialEq, Eq, Structural)]
pub enum Layout {
    /// A source tree: the backend is a script run by an interpreter.
    Development,
    /// An installation: the backend is an executable beside the application.
    Packaged,
}

/// One step of a route.
#[derive(Debug, Clone, PartialEq, Eq)]
pub enum PathStep {
    /// To the directory that holds the current location; there may be none.
    Parent,
    /// To the entry of this name under the current location.
    Join(String),
}

/// A step over the characters of its name.
pub enum StepView {
    Parent,
    Join(Seq<char>),
}

impl View for PathStep {
    type V = StepView;

    open spec fn view(&self) -> StepView {
        match self {
            PathStep::Parent => StepView::Parent,
            PathStep::Join(name) => StepView::Join(name@),
        }
    }
}

/// The steps of `route`, each by its view.
pub open spec fn route_view(route: Seq<PathStep>) -> Seq<StepView> {
    Seq::new(route.len(), |i: int| route[i]@)
}

/// How to launch the backend.
#[derive(Debug, Clone, PartialEq, Eq)]
pub struct LaunchPlan {
    /// The command that runs the target, where the target is a script.
    pub interpreter: Option<String>,
    /// The route from the resource directory to the script or executable.
    pub target: Vec<PathStep>,
    /// Whether the target has to be on disk before the launch is tried.
    pub must_exist: bool,
}

/// A launch plan over plain sequences.
pub struct LaunchPlanView {
    pub interpreter: Option<Seq<char>>,
    pub target: Seq<StepView>,
    pub must_exist: bool,
}

impl View for LaunchPlan {
    type V = LaunchPlanView;

    open spec fn view(&self) -> LaunchPlanView {
        LaunchPlanView {
            interpreter: match self.interpreter {
                Some(command) => Some(command@),
                None => None,
            },
            target: route_view(self.target@),
            must_exist: self.must_exist,
        }
    }
}

impl LaunchPlan {
    /// Decides whether the launch may be tried, where `target_exists` tells
    /// whether the target is on disk: it may not where the target has to
    /// exist and does not. The start then fails with `ExecutableNotFound`.
    pub fn may_launch(&self, target_exists: bool) -> (go: bool)
        ensures
            go == (!self@.must_exist || target_exists),
    {
        !self.must_exist || target_exists
    }
}

/// How to serve the web content.
#[derive(Debug, Clone, PartialEq, Eq)]
pub struct ServePlan {
    /// The route from the resource directory to the content directory.
    pub root: Vec<PathStep>,
    /// Whether the content directory has to be on disk before the bind is
    /// tried.
    pub must_exist: bool,
    /// The address to listen on.
    pub host: String,
    /// The port to listen on.
    pub port: u16,
    /// The path under which the directory is served.
    pub mount: String,
    /// The document served for a directory.
    pub index_document: String,
    /// Whether a directory without that document is listed.
    pub listing: bool,
}

/// A serve plan over plain sequences.
pub struct ServePlanView {
    pub root: Seq<StepView>,
    pub must_exist: bool,
    pub host: Seq<char>,
    pub port: u16,
    pub mount: Seq<char>,
    pub index_document: Seq<char>,
    pub listing: bool,
}

impl View for ServePlan {
    type V = ServePlanView;

    open spec fn view(&self) -> ServePlanView {
        ServePlanView {
            root: route_view(self.root@),
            must_exist: self.must_exist,
            host: self.host@,
            port: self.port,
            mount: self.mount@,
            index_document: self.index_document@,
            listing: self.listing,
        }
    }
}

impl ServePlan {
    /// Decides whether the bind may be tried, where `root_exists` tells
    /// whether the content directory is on disk: it may not where the
    /// directory has to exist and does not. The start then fails with
    /// `ContentRootNotFound`.
    pub fn may_serve(&self, root_exists: bool) -> (go: bool)
        ensures
            go == (!self@.must_exist || root_exists),
    {
        !self.must_exist || root_exists
    }
}

/// The route that climbs three directories out of the resource directory of
/// a source tree and descends into `apps`, then `component`, then `leaf`.
pub open spec fn source_tree_route(component: Seq<char>, leaf: Seq<char>) -> Seq<StepView> {
    seq![
        StepView::Join(".."@),
        StepView::Join(".."@),
        StepView::Join(".."@),
        StepView::Join("apps"@),
        StepView::Join(component),
        StepView::Join(leaf),
    ]
}

/// The route to the entry `name` beside the resource directory of an
/// installation.
pub open spec fn sibling_route(name: Seq<char>) -> Seq<StepView> {
    seq![StepView::Parent, StepView::Join(name)]
}

impl Layout {
    /// The launch plan of this layout.
    pub open spec fn launch_plan(self) -> LaunchPlanView {
        match self {
            Layout::Development => LaunchPlanView {
                interpreter: Some("python"@),
                target: source_tree_route("server"@, "run.py"@),
                must_exist: false,
            },
            Layout::Packaged => LaunchPlanView {
                interpreter: None,
                target: sibling_route("dipeo-server.exe"@),
                must_exist: true,
            },
        }
    }

    /// The serve plan of this layout.
    pub open spec fn serve_plan(self) -> ServePlanView {
        ServePlanView {
            root: match self {
                Layout::Development => source_tree_route("web"@, "dist"@),
                Layout::Packaged => sibling_route("web"@),
            },
            must_exist: true,
            host: BIND_HOST@,
            port: SITE_PORT,
            mount: "/"@,
            index_document: "index.html"@,
            listing: true,
        }
    }

    /// The layout of a build: a development build runs from a source tree,
    /// any other from an installation.
    pub fn of_build(development: bool) -> (layout: Layout)
        ensures
            layout == (if development {
                Layout::Development
            } else {
                Layout::Packaged
            }),
    {
        if development {
            Layout::Development
        } else {
            Layout::Packaged
        }
    }

    /// Resolves the backend: what to run, and from where.
    pub fn backend(self) -> (plan: LaunchPlan)
        ensures
            plan@ == self.launch_plan(),
    {
        match self {
            Layout::Development => {
                let target = source_tree("server", "run.py");
                LaunchPlan {
                    interpreter: Some(String::from_str("python")),
                    target,
                    must_exist: false,
                }
            },
            Layout::Packaged => {
                let target = sibling("dipeo-server.exe");
                LaunchPlan { interpreter: None, target, must_exist: true }
            },
        }
    }

    /// Resolves the web content: what to serve, and where to listen.
    pub fn content(self) -> (plan: ServePlan)
        ensures
            plan@ == self.serve_plan(),
    {
        let root = match self {
            Layout::Development => source_tree("web", "dist"),
            Layout::Packaged => sibling("web"),
        };
        ServePlan {
            root,
            must_exist: true,
            host: String::from_str(BIND_HOST),
            port: SITE_PORT,
            mount: String::from_str("/"),
            index_document: String::from_str("index.html"),
            listing: true,
        }
    }
}

/// The backend may be launched unless the layout is an installation and the
/// executable is not on disk: a script in a source tree is handed to its
/// interpreter unseen. The content may be served only where its directory is
/// on disk, in either layout.
pub proof fn what_has_to_be_on_disk(layout: Layout, on_disk: bool)
    ensures
        (!layout.launch_plan().must_exist || on_disk) == (layout == Layout::Development
            || on_disk),
        (!layout.serve_plan().must_exist || on_disk) == on_disk,
{
}

/// Builds the route of a source tree to `apps`, `component`, `leaf`.
fn source_tree(component: &str, leaf: &str) -> (route: Vec<PathStep>)
    ensures
        route_view(route@) == source_tree_route(component@, leaf@),
{
    let mut route: Vec<PathStep> = Vec::new();
    route.push(PathStep::Join(String::from_str("..")));
    route.push(PathStep::Join(String::from_str("..")));
    route.push(PathStep::Join(String::from_str("..")));
    route.push(PathStep::Join(String::from_str("apps")));
    route.push(PathStep::Join(String::from_str(component)));
    route.push(PathStep::Join(String::from_str(leaf)));
    assert(route_view(route@) =~= source_tree_route(component@, leaf@));
    route
}

/// Builds the route to the entry `name` beside the resource directory.
fn sibling(name: &str) -> (route: Vec<PathStep>)
    ensures
        route_view(route@) == sibling_route(name@),
{
    let mut route: Vec<PathStep> = Vec::new();
    route.push(PathStep::Parent);
    route.push(PathStep::Join(String::from_str(name)));
    assert(route_view(route@) =~= sibling_route(name@));
    route
}

} // verus!
