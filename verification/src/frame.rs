//! The single screen of the launcher: what it shows for a given path field,
//! and what activating the launch control sets off.

use vstd::prelude::*;
use egui_extras::RetainedImage;
use crate::cache::{cache_bytes_of, write_cache};
use crate::checker::{launch_state, launch_state_of, target_exists, LaunchState, RUNTIME};
use crate::logo::{image_error, image_from_bytes, LOGO_NAME};
use crate::notifier::{display_notification, notice_of, Notice, NAME};
use crate::process::{launch_plan, LaunchPlan};

verus! {

/// Prompt shown above the path field.
pub const PROMPT: &'static str = "Enter the path to the old game files.";

/// Label of the launch control.
pub const LAUNCH: &'static str = "Launch";

/// Body of the notification shown when a launch begins.
pub const LAUNCHING: &'static str =
    "Launching, please open POS.22.exe as soon as you see the loading screen!";

/// Width of the logo, in points.
pub const LOGO_WIDTH: u32 = 424;

/// Height of the logo, in points.
pub const LOGO_HEIGHT: u32 = 151;

/// Font size of the title, in points.
pub const TITLE_SIZE: u32 = 42;

/// Font size of the prompt, in points.
pub const PROMPT_SIZE: u32 = 22;

/// The state of the session: the content of the path field, which changes
/// with every keystroke, and the logo, which never changes.
pub struct Layer {
    pub path: String,
    pub raw_logo: RetainedImage,
}

impl Layer {
    /// Starts a session with the given logo and an empty path field.
    pub fn with_logo(logo: RetainedImage) -> (layer: Layer)
        ensures
            layer.path@ == Seq::<char>::empty(),
            layer.raw_logo == logo,
    {
        Layer { path: String::new(), raw_logo: logo }
    }

    /// Starts a session with an empty path field, decoding the logo from the
    /// bytes of an image file. Fails, with the decoder's message, exactly
    /// where the bytes do not decode.
    pub fn new(logo: &[u8]) -> (made: Result<Layer, String>)
        ensures
            match made {
                Ok(layer) => image_error(logo@) is None && layer.path@ == Seq::<char>::empty(),
                Err(message) => image_error(logo@) == Some(message@),
            },
    {
        match image_from_bytes(LOGO_NAME, logo) {
            Ok(image) => Ok(Layer::with_logo(image)),
            Err(message) => Err(message),
        }
    }
}

/// What is shown below the path field.
#[derive(Debug)]
pub struct PathStatus {
    pub state: LaunchState,
    /// The message.
    pub label: String,
    /// The label of the launch control, where there is one.
    pub button: Option<String>,
}

/// The whole screen, top to bottom.
#[derive(Debug)]
pub struct Screen {
    pub logo_width: u32,
    pub logo_height: u32,
    pub title: String,
    pub title_size: u32,
    pub prompt: String,
    pub prompt_size: u32,
    /// The content of the path field.
    pub path: String,
    pub status: PathStatus,
}

/// What activating the launch control sets off, in this order: the cache
/// file gets `cache`, `notice` is shown, and `plan` is carried out.
#[derive(Debug)]
pub struct LaunchRequest {
    pub cache: Vec<u8>,
    pub notice: Notice,
    pub plan: LaunchPlan,
}

/// One thing that a launch does.
#[derive(Debug)]
pub enum LaunchEffect {
    /// Replace the content of the cache file by these bytes.
    Cache(Vec<u8>),
    /// Show this notification.
    Announce(Notice),
    /// Start the process and wait for it to end.
    Start(LaunchPlan),
}

/// The effects of a launch in the order in which they take place: the cache
/// file is written first, the launch is announced next, and the process is
/// started last.
pub open spec fn effects_of(request: LaunchRequest) -> Seq<LaunchEffect> {
    seq![
        LaunchEffect::Cache(request.cache),
        LaunchEffect::Announce(request.notice),
        LaunchEffect::Start(request.plan),
    ]
}

impl LaunchRequest {
    /// Whether this is the launch from `path`: the cache file gets the path,
    /// the notification announces the launch, and the target executable is
    /// started with `path` as its working directory.
    pub open spec fn launches(&self, path: Seq<char>) -> bool {
        &&& self.cache@ == cache_bytes_of(path)
        &&& self.notice@ == notice_of(RUNTIME@, LAUNCHING@)
        &&& self.plan.directory@ == path
        &&& self.plan.program@ == RUNTIME@
    }
}

/// The message shown for `path` in `state`.
pub open spec fn status_label_of(path: Seq<char>, state: LaunchState) -> Seq<char> {
    match state {
        LaunchState::Empty => "Waiting..."@,
        LaunchState::Ready => "Path: '"@ + path + "' contains '"@ + RUNTIME@
            + "', ready to launch!"@,
        LaunchState::Invalid => "Path '"@ + path + "' does not contain '"@ + RUNTIME@
            + "', please try a different path!"@,
    }
}

impl PathStatus {
    /// Whether this is what is shown for `path`, where `present` says whether
    /// the target executable is a regular file directly under it. The launch
    /// control is there in the `Ready` state and in no other.
    pub open spec fn shows(&self, path: Seq<char>, present: bool) -> bool {
        &&& self.state == launch_state_of(path, present)
        &&& self.label@ == status_label_of(path, self.state)
        &&& match self.button {
            Some(label) => self.state is Ready && label@ == LAUNCH@,
            None => !(self.state is Ready),
        }
    }
}

impl Screen {
    /// Whether this is the screen for `path`, with `present` as in
    /// [`PathStatus::shows`].
    pub open spec fn shows(&self, path: Seq<char>, present: bool) -> bool {
        &&& self.logo_width == LOGO_WIDTH
        &&& self.logo_height == LOGO_HEIGHT
        &&& self.title@ == NAME@
        &&& self.title_size == TITLE_SIZE
        &&& self.prompt@ == PROMPT@
        &&& self.prompt_size == PROMPT_SIZE
        &&& self.path@ == path
        &&& self.status.shows(path, present)
    }
}

/// Gives what is shown for `path`, given the outcome of the file check.
pub fn path_status(path: &str, present: bool) -> (status: PathStatus)
    ensures
        status.shows(path@, present),
{
    match launch_state(path, present) {
        LaunchState::Empty => PathStatus {
            state: LaunchState::Empty,
            label: String::from_str("Waiting..."),
            button: None,
        },
        LaunchState::Ready => {
            let label = String::from_str("Path: '").concat(path).concat("' contains '").concat(
                RUNTIME,
            ).concat("', ready to launch!");
            PathStatus {
                state: LaunchState::Ready,
                label: label,
                button: Some(String::from_str(LAUNCH)),
            }
        },
        LaunchState::Invalid => {
            let label = String::from_str("Path '").concat(path).concat(
                "' does not contain '",
            ).concat(RUNTIME).concat("', please try a different path!");
            PathStatus { state: LaunchState::Invalid, label: label, button: None }
        },
    }
}

/// Checks `path` and gives what is shown for it. The filesystem is asked
/// only where the path is not empty, and its answer decides between `Ready`
/// and `Invalid`.
pub fn check_path(path: &String) -> (status: PathStatus)
    ensures
        status.shows(path@, status.state is Ready),
        status.state is Empty <==> path@.len() == 0,
{
    if path.as_str().is_empty() {
        path_status(path.as_str(), false)
    } else {
        let present = target_exists(path);
        path_status(path.as_str(), present)
    }
}

/// Lays out the screen around a status that was already worked out.
fn compose(layer: &Layer, status: PathStatus) -> (shown: Screen)
    ensures
        shown.logo_width == LOGO_WIDTH,
        shown.logo_height == LOGO_HEIGHT,
        shown.title@ == NAME@,
        shown.title_size == TITLE_SIZE,
        shown.prompt@ == PROMPT@,
        shown.prompt_size == PROMPT_SIZE,
        shown.path@ == layer.path@,
        shown.status == status,
{
    Screen {
        logo_width: LOGO_WIDTH,
        logo_height: LOGO_HEIGHT,
        title: String::from_str(NAME),
        title_size: TITLE_SIZE,
        prompt: String::from_str(PROMPT),
        prompt_size: PROMPT_SIZE,
        path: layer.path.clone(),
        status: status,
    }
}

/// Gives the screen for the session's state, given the outcome of the file
/// check.
pub fn screen(layer: &Layer, present: bool) -> (shown: Screen)
    ensures
        shown.shows(layer.path@, present),
{
    compose(layer, path_status(layer.path.as_str(), present))
}

/// Checks the session's path and gives the screen for it. Nothing is kept
/// from one call to the next: every call asks the filesystem again.
pub fn draw(layer: &Layer) -> (shown: Screen)
    ensures
        shown.shows(layer.path@, shown.status.state is Ready),
        shown.status.state is Empty <==> layer.path@.len() == 0,
{
    compose(layer, check_path(&layer.path))
}

/// Gives what a launch from `path` consists of: the path is cached, the
/// launch is announced, and the target executable is started from `path`.
/// Whether the target is there is not looked at again.
pub fn launch_request(path: &str) -> (request: LaunchRequest)
    ensures
        request.launches(path@),
{
    LaunchRequest {
        cache: write_cache(path),
        notice: display_notification(RUNTIME, LAUNCHING),
        plan: launch_plan(path, RUNTIME),
    }
}

/// Lays the launch out as its effects, to be carried out one after the
/// other, each finished before the next begins: the cache file holds the
/// path before the process is started.
pub fn launch_effects(request: LaunchRequest) -> (steps: Vec<LaunchEffect>)
    ensures
        steps@ == effects_of(request),
{
    let mut steps: Vec<LaunchEffect> = Vec::new();
    steps.push(LaunchEffect::Cache(request.cache));
    steps.push(LaunchEffect::Announce(request.notice));
    steps.push(LaunchEffect::Start(request.plan));
    assert(steps@ =~= effects_of(request));
    steps
}

/// In every launch the cache file is written before the process is started.
pub proof fn lemma_cache_before_start(request: LaunchRequest, write: int, start: int)
    requires
        0 <= write < effects_of(request).len(),
        0 <= start < effects_of(request).len(),
        effects_of(request)[write] is Cache,
        effects_of(request)[start] is Start,
    ensures
        write < start,
{
}

/// Gives what activating the launch control sets off, for the path whose
/// status is `status`. There is a launch in the `Ready` state and in no
/// other: outside it nothing is cached, announced or started.
pub fn activate(status: &PathStatus, path: &str) -> (request: Option<LaunchRequest>)
    ensures
        request is Some <==> status.state is Ready,
        request is Some ==> request->0.launches(path@),
{
    match status.state {
        LaunchState::Ready => Some(launch_request(path)),
        _ => None,
    }
}

} // verus!
