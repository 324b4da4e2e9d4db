//! The workspace resolver: which directory the backend server is to serve.

use vstd::prelude::*;
use crate::events::{Notice, Notification};
use crate::text::{join, option_view, result_view};

verus! {

/// Reason given to the host when the user has to pick a workspace.
pub const PICKING_REASON: &'static str = "missing-or-invalid";

/// `Path::is_absolute` of std says whether a path stands for itself,
/// whatever the current directory is. What counts as absolute differs from
/// platform to platform, so nothing is claimed of the answer.
#[verifier::external_body]
fn is_absolute(raw: &str) -> (absolute: bool) {
    std::path::Path::new(raw).is_absolute()
}

/// A text without the white space at its two ends, as `str::trim` of std
/// leaves it.
pub uninterp spec fn trimmed(text: Seq<char>) -> Seq<char>;

/// `str::trim` of std removes leading and trailing white space.
#[verifier::external_body]
fn trim<'a>(text: &'a str) -> (rest: &'a str)
    ensures
        rest@ == trimmed(text@),
{
    text.trim()
}

/// One thing that the file system says of the path under validation.
#[derive(Debug, PartialEq, Eq)]
pub enum PathFact {
    /// The metadata of the path: whether it is a directory, or why the
    /// metadata could not be read.
    Metadata(Result<bool, String>),
    /// Whether the directory could be opened for listing, or why not.
    Listing(Result<(), String>),
}

/// Where the validation of a path stands.
#[derive(Clone, Copy, Debug, PartialEq, Eq, Structural)]
pub enum CheckStage {
    /// The metadata of the path is wanted.
    Metadata,
    /// A listing of the directory is wanted.
    Listing,
    /// The path is a readable directory.
    Accepted,
    /// The path was refused.
    Rejected,
}

/// What the validation of a path asks for next.
#[derive(Debug, PartialEq, Eq)]
pub enum CheckAction {
    /// Read the metadata of `path` and report it as `PathFact::Metadata`.
    Stat { path: String },
    /// Open the directory `path` for listing and report the outcome as
    /// `PathFact::Listing`.
    List { path: String },
    /// The validation has ended: `result` is the valid path or the error.
    Finish { result: Result<String, String> },
}

/// A validation step by the characters of its texts.
pub enum CheckActionView {
    Stat { path: Seq<char> },
    List { path: Seq<char> },
    Finish { result: Result<Seq<char>, Seq<char>> },
}

impl View for CheckAction {
    type V = CheckActionView;

    open spec fn view(&self) -> CheckActionView {
        match *self {
            CheckAction::Stat { path } => CheckActionView::Stat { path: path@ },
            CheckAction::List { path } => CheckActionView::List { path: path@ },
            CheckAction::Finish { result } => CheckActionView::Finish {
                result: result_view(result),
            },
        }
    }
}

/// The validation of a path as a mathematical value.
pub struct CheckModel {
    pub stage: CheckStage,
    pub raw: Seq<char>,
    /// The error, once the path was refused.
    pub error: Seq<char>,
}

impl CheckModel {
    /// The validation of `raw`, given whether it is absolute. A path that is
    /// not absolute is refused before the file system is asked anything.
    pub open spec fn start(raw: Seq<char>, absolute: bool) -> CheckModel {
        if absolute {
            CheckModel { stage: CheckStage::Metadata, raw, error: Seq::empty() }
        } else {
            CheckModel {
                stage: CheckStage::Rejected,
                raw,
                error: "workspace path must be absolute"@,
            }
        }
    }

    /// The validation after a fact. A fact that was not asked for changes
    /// nothing.
    pub open spec fn advance(self, fact: PathFact) -> CheckModel {
        match (self.stage, fact) {
            (CheckStage::Metadata, PathFact::Metadata(Ok(is_dir))) => if is_dir {
                CheckModel { stage: CheckStage::Listing, ..self }
            } else {
                CheckModel {
                    stage: CheckStage::Rejected,
                    error: "workspace path must be a directory"@,
                    ..self
                }
            },
            (CheckStage::Metadata, PathFact::Metadata(Err(e))) => CheckModel {
                stage: CheckStage::Rejected,
                error: "workspace path does not exist: "@ + e@,
                ..self
            },
            (CheckStage::Listing, PathFact::Listing(Ok(()))) => CheckModel {
                stage: CheckStage::Accepted,
                ..self
            },
            (CheckStage::Listing, PathFact::Listing(Err(e))) => CheckModel {
                stage: CheckStage::Rejected,
                error: "workspace directory is not readable: "@ + e@,
                ..self
            },
            _ => self,
        }
    }

    /// What the validation asks for in its present stage.
    pub open spec fn pending(self) -> CheckActionView {
        match self.stage {
            CheckStage::Metadata => CheckActionView::Stat { path: self.raw },
            CheckStage::Listing => CheckActionView::List { path: self.raw },
            CheckStage::Accepted => CheckActionView::Finish { result: Ok(self.raw) },
            CheckStage::Rejected => CheckActionView::Finish { result: Err(self.error) },
        }
    }
}

/// What the validation of `raw` comes to, given everything that could be
/// asked about it: the path itself where it is absolute, exists, is a
/// directory and can be listed, and otherwise the first of these that fails.
pub open spec fn validated(
    raw: Seq<char>,
    absolute: bool,
    metadata: Result<bool, String>,
    listing: Result<(), String>,
) -> Result<Seq<char>, Seq<char>> {
    if !absolute {
        Err("workspace path must be absolute"@)
    } else {
        match metadata {
            Err(e) => Err("workspace path does not exist: "@ + e@),
            Ok(false) => Err("workspace path must be a directory"@),
            Ok(true) => match listing {
                Err(e) => Err("workspace directory is not readable: "@ + e@),
                Ok(()) => Ok(raw),
            },
        }
    }
}

/// Asking what the validation asks for, and answering it, ends with the
/// verdict on the path; a path that is not absolute or has no metadata is
/// refused without a listing.
pub proof fn lemma_check_reaches_verdict(
    raw: Seq<char>,
    absolute: bool,
    metadata: Result<bool, String>,
    listing: Result<(), String>,
)
    ensures
        !absolute ==> CheckModel::start(raw, absolute).pending() == (CheckActionView::Finish {
            result: validated(raw, absolute, metadata, listing),
        }),
        absolute ==> CheckModel::start(raw, absolute).pending() == (CheckActionView::Stat {
            path: raw,
        }),
        absolute && metadata != Ok::<bool, String>(true) ==> CheckModel::start(
            raw,
            absolute,
        ).advance(PathFact::Metadata(metadata)).pending() == (CheckActionView::Finish {
            result: validated(raw, absolute, metadata, listing),
        }),
        absolute && metadata == Ok::<bool, String>(true) ==> {
            &&& CheckModel::start(raw, absolute).advance(PathFact::Metadata(metadata)).pending()
                == (CheckActionView::List { path: raw })
            &&& CheckModel::start(raw, absolute).advance(PathFact::Metadata(metadata)).advance(
                PathFact::Listing(listing),
            ).pending() == (CheckActionView::Finish {
                result: validated(raw, absolute, metadata, listing),
            })
        },
{
}

/// A validation that has ended stays as it is.
pub proof fn lemma_check_verdict_is_final(check: CheckModel, fact: PathFact)
    requires
        check.stage == CheckStage::Accepted || check.stage == CheckStage::Rejected,
    ensures
        check.advance(fact) == check,
{
}

/// The validation of one workspace path.
pub struct PathCheck {
    stage: CheckStage,
    raw: String,
    error: String,
}

impl View for PathCheck {
    type V = CheckModel;

    closed spec fn view(&self) -> CheckModel {
        CheckModel { stage: self.stage, raw: self.raw@, error: self.error@ }
    }
}

impl PathCheck {
    /// Starts the validation of `raw`, given whether it is absolute.
    pub fn start(raw: &str, absolute: bool) -> (check: PathCheck)
        ensures
            check@ == CheckModel::start(raw@, absolute),
    {
        if absolute {
            PathCheck { stage: CheckStage::Metadata, raw: String::from_str(raw), error: String::new() }
        } else {
            PathCheck {
                stage: CheckStage::Rejected,
                raw: String::from_str(raw),
                error: String::from_str("workspace path must be absolute"),
            }
        }
    }

    /// Starts the validation of `raw`. Whether `raw` is absolute is for the
    /// platform to say.
    pub fn begin(raw: &str) -> (check: PathCheck)
        ensures
            exists|absolute: bool| check@ == CheckModel::start(raw@, absolute),
    {
        let absolute = is_absolute(raw);
        PathCheck::start(raw, absolute)
    }

    /// Takes a fact about the path.
    pub fn advance(&mut self, fact: &PathFact)
        ensures
            final(self)@ == old(self)@.advance(*fact),
    {
        match self.stage {
            CheckStage::Metadata => match fact {
                PathFact::Metadata(Ok(is_dir)) => {
                    if *is_dir {
                        self.stage = CheckStage::Listing;
                    } else {
                        self.stage = CheckStage::Rejected;
                        self.error = String::from_str("workspace path must be a directory");
                    }
                },
                PathFact::Metadata(Err(e)) => {
                    self.stage = CheckStage::Rejected;
                    self.error = join("workspace path does not exist: ", e.as_str());
                },
                _ => {},
            },
            CheckStage::Listing => match fact {
                PathFact::Listing(Ok(())) => {
                    self.stage = CheckStage::Accepted;
                },
                PathFact::Listing(Err(e)) => {
                    self.stage = CheckStage::Rejected;
                    self.error = join("workspace directory is not readable: ", e.as_str());
                },
                _ => {},
            },
            _ => {},
        }
    }

    /// What the validation asks for in its present stage.
    pub fn pending(&self) -> (action: CheckAction)
        ensures
            action@ == self@.pending(),
    {
        match self.stage {
            CheckStage::Metadata => CheckAction::Stat { path: self.raw.clone() },
            CheckStage::Listing => CheckAction::List { path: self.raw.clone() },
            CheckStage::Accepted => CheckAction::Finish { result: Ok(self.raw.clone()) },
            CheckStage::Rejected => CheckAction::Finish { result: Err(self.error.clone()) },
        }
    }
}

/// What reading the persisted workspace state found.
#[derive(Clone, Debug, PartialEq, Eq)]
pub enum LoadOutcome {
    /// There is no state file.
    Missing,
    /// The state file holds this last workspace path.
    Found(String),
    /// The place of the state file could not be worked out.
    LocateFailed(String),
    /// The state file could not be read.
    ReadFailed(String),
    /// The state file does not hold what it should.
    ParseFailed(String),
}

/// The saved workspace that a path of the state file stands for, given the
/// text `rest` that trimming leaves of it: none where nothing is left, else
/// the path as it was saved.
pub open spec fn saved_path(path: Seq<char>, rest: Seq<char>) -> Option<Seq<char>> {
    if rest.len() == 0 {
        None
    } else {
        Some(path)
    }
}

/// Decides whether a path of the state file stands for a saved workspace,
/// from the text `rest` that trimming leaves of it.
pub fn saved_from(path: &str, rest: &str) -> (saved: Option<String>)
    ensures
        option_view(saved) == saved_path(path@, rest@),
{
    if rest.unicode_len() == 0 {
        None
    } else {
        Some(String::from_str(path))
    }
}

/// The workspace that was saved earlier, if any: none where there is no
/// state file or its path is blank.
pub open spec fn saved_workspace(outcome: LoadOutcome) -> Result<Option<Seq<char>>, Seq<char>> {
    match outcome {
        LoadOutcome::Missing => Ok(None),
        LoadOutcome::Found(path) => Ok(saved_path(path@, trimmed(path@))),
        LoadOutcome::LocateFailed(e) => Err("failed to resolve workspace state file path: "@ + e@),
        LoadOutcome::ReadFailed(e) => Err("failed to read workspace state file: "@ + e@),
        LoadOutcome::ParseFailed(e) => Err("failed to parse workspace state file: "@ + e@),
    }
}

/// A result with an optional text by the characters of its texts.
pub open spec fn saved_view(r: Result<Option<String>, String>) -> Result<
    Option<Seq<char>>,
    Seq<char>,
> {
    match r {
        Ok(Some(path)) => Ok(Some(path@)),
        Ok(None) => Ok(None),
        Err(e) => Err(e@),
    }
}

/// Decides which workspace was saved earlier, from what reading the state
/// found.
pub fn load_last_workspace_path(outcome: &LoadOutcome) -> (r: Result<Option<String>, String>)
    ensures
        saved_view(r) == saved_workspace(*outcome),
{
    match outcome {
        LoadOutcome::Missing => Ok(None),
        LoadOutcome::Found(path) => Ok(saved_from(path.as_str(), trim(path.as_str()))),
        LoadOutcome::LocateFailed(e) => Err(
            join("failed to resolve workspace state file path: ", e.as_str()),
        ),
        LoadOutcome::ReadFailed(e) => Err(join("failed to read workspace state file: ", e.as_str())),
        LoadOutcome::ParseFailed(e) => Err(
            join("failed to parse workspace state file: ", e.as_str()),
        ),
    }
}

/// How asking the user for a folder ended.
#[derive(Clone, Debug, PartialEq, Eq)]
pub enum PickOutcome {
    /// The task that shows the dialog failed.
    TaskFailed(String),
    /// The user closed the dialog without a choice.
    Cancelled,
    /// The choice is not a path of the local file system.
    NotLocal(String),
    /// The user chose this folder.
    Folder(String),
}

/// The folder that the user chose, still to be validated, or the error.
pub open spec fn picked_folder(outcome: PickOutcome) -> Result<Seq<char>, Seq<char>> {
    match outcome {
        PickOutcome::TaskFailed(e) => Err("workspace picker task failed: "@ + e@),
        PickOutcome::Cancelled => Err("workspace selection cancelled"@),
        PickOutcome::NotLocal(e) => Err("workspace selection is not a local path: "@ + e@),
        PickOutcome::Folder(path) => Ok(path@),
    }
}

/// Decides what the user's answer to the folder dialog amounts to.
pub fn pick_workspace_folder(outcome: &PickOutcome) -> (r: Result<String, String>)
    ensures
        result_view(r) == picked_folder(*outcome),
{
    match outcome {
        PickOutcome::TaskFailed(e) => Err(join("workspace picker task failed: ", e.as_str())),
        PickOutcome::Cancelled => Err(String::from_str("workspace selection cancelled")),
        PickOutcome::NotLocal(e) => Err(
            join("workspace selection is not a local path: ", e.as_str()),
        ),
        PickOutcome::Folder(path) => Ok(path.clone()),
    }
}

/// Why the workspace state could not be written.
#[derive(Clone, Debug, PartialEq, Eq)]
pub enum PersistFailure {
    /// The place of the state file could not be worked out.
    Locate(String),
    /// The directory of the state file could not be created.
    CreateDirectory(String),
    /// The state could not be turned into text.
    Serialize(String),
    /// The state file could not be written.
    Write(String),
}

impl PersistFailure {
    /// The error text of this failure.
    pub open spec fn describe(self) -> Seq<char> {
        match self {
            PersistFailure::Locate(e) => "failed to resolve workspace state file path: "@ + e@,
            PersistFailure::CreateDirectory(e) => "failed to create workspace state directory: "@
                + e@,
            PersistFailure::Serialize(e) => "failed to serialize workspace state: "@ + e@,
            PersistFailure::Write(e) => "failed to persist workspace state: "@ + e@,
        }
    }

    /// Renders the error text of this failure.
    pub fn message(&self) -> (text: String)
        ensures
            text@ == self.describe(),
    {
        match self {
            PersistFailure::Locate(e) => join(
                "failed to resolve workspace state file path: ",
                e.as_str(),
            ),
            PersistFailure::CreateDirectory(e) => join(
                "failed to create workspace state directory: ",
                e.as_str(),
            ),
            PersistFailure::Serialize(e) => join("failed to serialize workspace state: ", e.as_str()),
            PersistFailure::Write(e) => join("failed to persist workspace state: ", e.as_str()),
        }
    }
}

/// Where the choice of the workspace at startup stands.
#[derive(Clone, Copy, Debug, PartialEq, Eq, Structural)]
pub enum ResolveStage {
    /// The persisted state is to be read.
    Loading,
    /// The saved path is being validated.
    CheckingSaved,
    /// The host is to be told that the user will be asked.
    Announcing,
    /// The user is to be asked for a folder.
    Picking,
    /// The folder that the user chose is being validated.
    CheckingPicked,
    /// The chosen folder is to be saved.
    Persisting,
    /// The workspace is chosen.
    Done,
    /// No workspace could be chosen.
    Failed,
}

/// Something that happened on behalf of the startup resolver.
#[derive(Debug, PartialEq, Eq)]
pub enum ResolveEvent {
    /// The persisted state was read.
    Loaded(LoadOutcome),
    /// The path last asked about was validated.
    Checked(Result<String, String>),
    /// The host was told that the user will be asked, or could not be.
    Announced(Result<(), String>),
    /// The user answered the folder dialog.
    Picked(PickOutcome),
    /// The chosen folder was saved, or could not be.
    Persisted(Result<(), PersistFailure>),
}

/// What the startup resolver asks for next.
#[derive(Debug, PartialEq, Eq)]
pub enum ResolveAction {
    /// Read the persisted state and report `ResolveEvent::Loaded`.
    Load,
    /// Validate `path` and report `ResolveEvent::Checked`.
    Check { path: String },
    /// Send `notification` and report `ResolveEvent::Announced`.
    Announce { notification: Notification },
    /// Ask the user for a folder and report `ResolveEvent::Picked`.
    Pick,
    /// Save `path` as the last workspace and report `ResolveEvent::Persisted`.
    Persist { path: String },
    /// The resolver has ended: `result` is the workspace or the error.
    Finish { result: Result<String, String> },
}

/// A resolver step by the characters of its texts.
pub enum ResolveActionView {
    Load,
    Check { path: Seq<char> },
    Announce { notification: Notice },
    Pick,
    Persist { path: Seq<char> },
    Finish { result: Result<Seq<char>, Seq<char>> },
}

impl View for ResolveAction {
    type V = ResolveActionView;

    open spec fn view(&self) -> ResolveActionView {
        match *self {
            ResolveAction::Load => ResolveActionView::Load,
            ResolveAction::Check { path } => ResolveActionView::Check { path: path@ },
            ResolveAction::Announce { notification } => ResolveActionView::Announce {
                notification: notification@,
            },
            ResolveAction::Pick => ResolveActionView::Pick,
            ResolveAction::Persist { path } => ResolveActionView::Persist { path: path@ },
            ResolveAction::Finish { result } => ResolveActionView::Finish {
                result: result_view(result),
            },
        }
    }
}

/// The notification that precedes the folder dialog.
pub open spec fn picking_notice() -> Notice {
    Notice::WorkspacePicking { reason: PICKING_REASON@ }
}

/// The startup resolver as a mathematical value.
pub struct ResolveModel {
    pub stage: ResolveStage,
    /// The path under consideration, once there is one.
    pub path: Seq<char>,
    /// The error, once the resolver has failed.
    pub error: Seq<char>,
}

impl ResolveModel {
    /// The resolver before anything has happened.
    pub open spec fn start() -> ResolveModel {
        ResolveModel { stage: ResolveStage::Loading, path: Seq::empty(), error: Seq::empty() }
    }

    /// This resolver, failed with `error`.
    pub open spec fn fail(self, error: Seq<char>) -> ResolveModel {
        ResolveModel { stage: ResolveStage::Failed, error, ..self }
    }

    /// This resolver in `stage`, considering `path`.
    pub open spec fn consider(self, stage: ResolveStage, path: Seq<char>) -> ResolveModel {
        ResolveModel { stage, path, ..self }
    }

    /// The resolver after an event. An event that was not asked for changes
    /// nothing.
    pub open spec fn advance(self, event: ResolveEvent) -> ResolveModel {
        match (self.stage, event) {
            (ResolveStage::Loading, ResolveEvent::Loaded(outcome)) => match saved_workspace(
                outcome,
            ) {
                Ok(Some(path)) => self.consider(ResolveStage::CheckingSaved, path),
                Ok(None) => ResolveModel { stage: ResolveStage::Announcing, ..self },
                Err(e) => self.fail(e),
            },
            (ResolveStage::CheckingSaved, ResolveEvent::Checked(Ok(path))) => self.consider(
                ResolveStage::Done,
                path@,
            ),
            (ResolveStage::CheckingSaved, ResolveEvent::Checked(Err(_))) => ResolveModel {
                stage: ResolveStage::Announcing,
                ..self
            },
            (ResolveStage::Announcing, ResolveEvent::Announced(Ok(()))) => ResolveModel {
                stage: ResolveStage::Picking,
                ..self
            },
            (ResolveStage::Announcing, ResolveEvent::Announced(Err(e))) => self.fail(
                picking_notice().undelivered(e@),
            ),
            (ResolveStage::Picking, ResolveEvent::Picked(outcome)) => match picked_folder(outcome) {
                Ok(path) => self.consider(ResolveStage::CheckingPicked, path),
                Err(e) => self.fail(e),
            },
            (ResolveStage::CheckingPicked, ResolveEvent::Checked(Ok(path))) => self.consider(
                ResolveStage::Persisting,
                path@,
            ),
            (ResolveStage::CheckingPicked, ResolveEvent::Checked(Err(e))) => self.fail(e@),
            (ResolveStage::Persisting, ResolveEvent::Persisted(Ok(()))) => ResolveModel {
                stage: ResolveStage::Done,
                ..self
            },
            (ResolveStage::Persisting, ResolveEvent::Persisted(Err(failure))) => self.fail(
                failure.describe(),
            ),
            _ => self,
        }
    }

    /// What the resolver asks for in its present stage.
    pub open spec fn pending(self) -> ResolveActionView {
        match self.stage {
            ResolveStage::Loading => ResolveActionView::Load,
            ResolveStage::CheckingSaved => ResolveActionView::Check { path: self.path },
            ResolveStage::Announcing => ResolveActionView::Announce {
                notification: picking_notice(),
            },
            ResolveStage::Picking => ResolveActionView::Pick,
            ResolveStage::CheckingPicked => ResolveActionView::Check { path: self.path },
            ResolveStage::Persisting => ResolveActionView::Persist { path: self.path },
            ResolveStage::Done => ResolveActionView::Finish { result: Ok(self.path) },
            ResolveStage::Failed => ResolveActionView::Finish { result: Err(self.error) },
        }
    }

    /// The resolver after a series of events.
    pub open spec fn after(self, events: Seq<ResolveEvent>) -> ResolveModel
        decreases events.len(),
    {
        if events.len() == 0 {
            self
        } else {
            self.after(events.drop_last()).advance(events.last())
        }
    }
}

/// The choice of the workspace at startup: the saved one where it is still
/// valid, else the one that the user picks.
pub struct StartupResolve {
    stage: ResolveStage,
    path: String,
    error: String,
}

impl View for StartupResolve {
    type V = ResolveModel;

    closed spec fn view(&self) -> ResolveModel {
        ResolveModel { stage: self.stage, path: self.path@, error: self.error@ }
    }
}

impl StartupResolve {
    /// A resolver before anything has happened.
    pub fn new() -> (resolver: StartupResolve)
        ensures
            resolver@ == ResolveModel::start(),
    {
        StartupResolve { stage: ResolveStage::Loading, path: String::new(), error: String::new() }
    }

    fn fail(&mut self, error: String)
        ensures
            final(self)@ == old(self)@.fail(error@),
    {
        self.stage = ResolveStage::Failed;
        self.error = error;
    }

    fn consider(&mut self, stage: ResolveStage, path: String)
        ensures
            final(self)@ == old(self)@.consider(stage, path@),
    {
        self.stage = stage;
        self.path = path;
    }

    /// Takes an event.
    pub fn advance(&mut self, event: &ResolveEvent)
        ensures
            final(self)@ == old(self)@.advance(*event),
    {
        match self.stage {
            ResolveStage::Loading => match event {
                ResolveEvent::Loaded(outcome) => match load_last_workspace_path(outcome) {
                    Ok(Some(path)) => self.consider(ResolveStage::CheckingSaved, path),
                    Ok(None) => {
                        self.stage = ResolveStage::Announcing;
                    },
                    Err(e) => self.fail(e),
                },
                _ => {},
            },
            ResolveStage::CheckingSaved => match event {
                ResolveEvent::Checked(Ok(path)) => self.consider(ResolveStage::Done, path.clone()),
                ResolveEvent::Checked(Err(_)) => {
                    self.stage = ResolveStage::Announcing;
                },
                _ => {},
            },
            ResolveStage::Announcing => match event {
                ResolveEvent::Announced(Ok(())) => {
                    self.stage = ResolveStage::Picking;
                },
                ResolveEvent::Announced(Err(e)) => {
                    let notification = Notification::WorkspacePicking {
                        reason: String::from_str(PICKING_REASON),
                    };
                    self.fail(notification.emit_failure(e.as_str()));
                },
                _ => {},
            },
            ResolveStage::Picking => match event {
                ResolveEvent::Picked(outcome) => match pick_workspace_folder(outcome) {
                    Ok(path) => self.consider(ResolveStage::CheckingPicked, path),
                    Err(e) => self.fail(e),
                },
                _ => {},
            },
            ResolveStage::CheckingPicked => match event {
                ResolveEvent::Checked(Ok(path)) => self.consider(
                    ResolveStage::Persisting,
                    path.clone(),
                ),
                ResolveEvent::Checked(Err(e)) => self.fail(e.clone()),
                _ => {},
            },
            ResolveStage::Persisting => match event {
                ResolveEvent::Persisted(Ok(())) => {
                    self.stage = ResolveStage::Done;
                },
                ResolveEvent::Persisted(Err(failure)) => self.fail(failure.message()),
                _ => {},
            },
            _ => {},
        }
    }

    /// What the resolver asks for in its present stage.
    pub fn pending(&self) -> (action: ResolveAction)
        ensures
            action@ == self@.pending(),
    {
        match self.stage {
            ResolveStage::Loading => ResolveAction::Load,
            ResolveStage::CheckingSaved => ResolveAction::Check { path: self.path.clone() },
            ResolveStage::Announcing => ResolveAction::Announce {
                notification: Notification::WorkspacePicking {
                    reason: String::from_str(PICKING_REASON),
                },
            },
            ResolveStage::Picking => ResolveAction::Pick,
            ResolveStage::CheckingPicked => ResolveAction::Check { path: self.path.clone() },
            ResolveStage::Persisting => ResolveAction::Persist { path: self.path.clone() },
            ResolveStage::Done => ResolveAction::Finish { result: Ok(self.path.clone()) },
            ResolveStage::Failed => ResolveAction::Finish { result: Err(self.error.clone()) },
        }
    }
}

/// A saved path that is not blank and is still valid is the workspace: the
/// resolver asks to validate it and then ends with it, without telling the
/// host, asking the user or saving anything.
pub proof fn lemma_saved_path_is_reused(path: String)
    requires
        trimmed(path@).len() > 0,
    ensures
        ResolveModel::start().pending() == ResolveActionView::Load,
        ResolveModel::start().advance(ResolveEvent::Loaded(LoadOutcome::Found(path))).pending() == (
        ResolveActionView::Check { path: path@ }),
        ResolveModel::start().advance(ResolveEvent::Loaded(LoadOutcome::Found(path))).advance(
            ResolveEvent::Checked(Ok(path)),
        ).pending() == (ResolveActionView::Finish { result: Ok(path@) }),
{
}

/// Whether the resolver has come to the folder dialog or beyond.
pub open spec fn past_saved(stage: ResolveStage) -> bool {
    stage == ResolveStage::Picking || stage == ResolveStage::CheckingPicked || stage
        == ResolveStage::Persisting
}

/// Whether an event reports that the host was told of the coming dialog.
pub open spec fn reports_announcement(event: ResolveEvent) -> bool {
    event matches ResolveEvent::Announced(outcome) && outcome is Ok
}

/// The user is asked, and a path is saved, only after the host was told
/// that a workspace has to be picked.
pub proof fn lemma_picker_follows_announcement(events: Seq<ResolveEvent>)
    requires
        forall|i: int| 0 <= i < events.len() ==> !reports_announcement(#[trigger] events[i]),
    ensures
        !past_saved(ResolveModel::start().after(events).stage),
    decreases events.len(),
{
    if events.len() > 0 {
        let earlier = events.drop_last();
        assert forall|i: int| 0 <= i < earlier.len() implies !reports_announcement(
            #[trigger] earlier[i],
        ) by {
            assert(earlier[i] == events[i]);
        }
        lemma_picker_follows_announcement(earlier);
        assert(!reports_announcement(events[events.len() - 1]));
    }
}

/// Without a usable saved path the resolver tells the host, asks the user,
/// validates the answer, saves it and ends with it.
pub proof fn lemma_picked_folder_is_saved(outcome: LoadOutcome, folder: String, path: String)
    requires
        saved_workspace(outcome) == Ok::<Option<Seq<char>>, Seq<char>>(None),
    ensures
        ({
            let loaded = ResolveModel::start().advance(ResolveEvent::Loaded(outcome));
            let announced = loaded.advance(ResolveEvent::Announced(Ok(())));
            let picked = announced.advance(ResolveEvent::Picked(PickOutcome::Folder(folder)));
            let checked = picked.advance(ResolveEvent::Checked(Ok(path)));
            let persisted = checked.advance(ResolveEvent::Persisted(Ok(())));
            &&& loaded.pending() == (ResolveActionView::Announce { notification: picking_notice() })
            &&& announced.pending() == ResolveActionView::Pick
            &&& picked.pending() == (ResolveActionView::Check { path: folder@ })
            &&& checked.pending() == (ResolveActionView::Persist { path: path@ })
            &&& persisted.pending() == (ResolveActionView::Finish { result: Ok(path@) })
        }),
{
}

/// The resolver asks to save a path only when that very path has just come
/// back from validation as valid.
pub proof fn lemma_resolver_saves_only_validated(resolver: ResolveModel, event: ResolveEvent)
    requires
        resolver.stage != ResolveStage::Persisting,
        resolver.advance(event).stage == ResolveStage::Persisting,
    ensures
        resolver.stage == ResolveStage::CheckingPicked,
        event matches ResolveEvent::Checked(Ok(path)) && resolver.advance(event).pending() == (
        ResolveActionView::Persist { path: path@ }),
{
}

/// A folder that the user picked and that validation refused is never
/// saved: the resolver ends with the error of the validation and stays there.
pub proof fn lemma_refused_folder_is_never_saved(
    resolver: ResolveModel,
    e: String,
    events: Seq<ResolveEvent>,
)
    requires
        resolver.stage == ResolveStage::CheckingPicked,
    ensures
        resolver.advance(ResolveEvent::Checked(Err(e))).after(events).pending() == (
        ResolveActionView::Finish { result: Err(e@) }),
    decreases events.len(),
{
    if events.len() > 0 {
        lemma_refused_folder_is_never_saved(resolver, e, events.drop_last());
    }
}

} // verus!
