//! What a release is called, and in which order it reaches the distributors.
//!
//! A run goes through the targets in the order in which they are given, one
//! at a time. The front end carries out each action and reports how it
//! ended; [`begin`] and [`resume`] say what comes next. A target without a
//! token is skipped with a warning and the run goes on. A failed upload ends
//! the run: the targets behind it are not attempted, and what was published
//! before it stays published.

use crate::configuration::{Artifact, GitHub, Modrinth};
use crate::constants::VERSION_REPLACE;
use crate::keys::{Keys, KeysView};
use crate::util::VersionType;
use crate::vault::Distributor;
use vstd::prelude::*;
use vstd::std_specs::iter::IteratorSpec;
use vstd::string::*;

verus! {

/// `String::push`: appends one character.
pub assume_specification[ String::push ](text: &mut String, c: char)
    ensures
        final(text)@ == old(text)@.push(c),
;

/// What one character of a pattern stands for: the version where it is the
/// placeholder, and itself where it is not.
pub open spec fn piece(c: char, version: Seq<char>) -> Seq<char> {
    if c == VERSION_REPLACE {
        version
    } else {
        seq![c]
    }
}

/// The pattern with every placeholder replaced by the version, and every
/// other character kept.
pub open spec fn substituted(pattern: Seq<char>, version: Seq<char>) -> Seq<char>
    decreases pattern.len(),
{
    if pattern.len() == 0 {
        Seq::empty()
    } else {
        substituted(pattern.drop_last(), version) + piece(pattern.last(), version)
    }
}

/// The name of the artifact of a version: the pattern with the version in
/// place of every placeholder. The version is taken as it was entered.
pub fn artifact_name(pattern: &str, version: &str) -> (name: String)
    ensures
        name@ == substituted(pattern@, version@),
{
    let mut name = String::new();
    let mut rest = pattern.chars();
    let ghost mut seen: Seq<char> = Seq::empty();
    loop
        invariant
            seen + rest.remaining() == pattern@,
            name@ == substituted(seen, version@),
            rest.decrease() is Some,
        ensures
            name@ == substituted(pattern@, version@),
        decreases rest.decrease()->0,
    {
        let ghost before = rest.remaining();
        match rest.next() {
            Some(c) => {
                proof {
                    assert(seen.push(c).drop_last() == seen);
                    assert(seen.push(c).last() == c);
                    assert(seen.push(c) + rest.remaining() == seen + before);
                    seen = seen.push(c);
                }
                if c == VERSION_REPLACE {
                    name.append(version);
                } else {
                    assert(name@ + seq![c] == name@.push(c));
                    name.push(c);
                }
            },
            None => {
                proof {
                    assert(before.len() == 0);
                    assert(seen + before == seen);
                }
                break ;
            },
        }
    }
    name
}

/// A pattern without a placeholder names the artifact of every version: the
/// pattern itself.
pub proof fn lemma_pattern_without_placeholder(pattern: Seq<char>, version: Seq<char>)
    requires
        !pattern.contains(VERSION_REPLACE),
    ensures
        substituted(pattern, version) == pattern,
    decreases pattern.len(),
{
    if pattern.len() > 0 {
        let front = pattern.drop_last();
        assert forall|i: int| 0 <= i < front.len() implies front[i] != VERSION_REPLACE by {
            assert(pattern[i] == front[i]);
            assert(pattern.contains(pattern[i]));
        }
        assert(!front.contains(VERSION_REPLACE));
        lemma_pattern_without_placeholder(front, version);
        assert(pattern.contains(pattern.last()));
        assert(front + seq![pattern.last()] == pattern);
    } else {
        assert(pattern == Seq::<char>::empty());
    }
}

/// Substitution goes character by character: the name made from a pattern
/// in two parts is the name made from the first part, followed by the name
/// made from the second. So a character that is no placeholder stands in the
/// name once, between what stood before it and what stood behind it.
pub proof fn lemma_substituted_concat(front: Seq<char>, back: Seq<char>, version: Seq<char>)
    ensures
        substituted(front + back, version) == substituted(front, version) + substituted(
            back,
            version,
        ),
    decreases back.len(),
{
    if back.len() == 0 {
        assert(front + back == front);
    } else {
        lemma_substituted_concat(front, back.drop_last(), version);
        assert((front + back).drop_last() == front + back.drop_last());
        assert((front + back).last() == back.last());
    }
}

/// The tag of a version: the version behind a `v`.
pub open spec fn tag_of(version: Seq<char>) -> Seq<char> {
    "v"@ + version
}

/// What one run publishes.
#[derive(Debug, Clone, PartialEq, Eq)]
pub struct Release {
    /// The version, as it was entered.
    pub version: String,
    /// The tag under which the version is released.
    pub tag: String,
    pub changelog: Option<String>,
    /// The file name of the artifact.
    pub artifact_name: String,
    pub kind: VersionType,
}

impl Release {
    /// The release of `version`. Tag and artifact name follow from the
    /// version and the pattern alone: the kind of version changes neither.
    pub fn new(pattern: &str, version: String, changelog: Option<String>, kind: VersionType) -> (release:
        Release)
        ensures
            release.version@ == version@,
            release.tag@ == tag_of(version@),
            release.artifact_name@ == substituted(pattern@, version@),
            release.changelog == changelog,
            release.kind == kind,
    {
        let tag = String::from_str("v").concat(version.as_str());
        let artifact_name = artifact_name(pattern, version.as_str());
        Release { version, tag, changelog, artifact_name, kind }
    }
}

/// One place that a release is sent to, with the options given for it.
#[derive(Debug, PartialEq, Eq)]
pub enum Target {
    GitHub(GitHub),
    Modrinth(Modrinth),
}

impl Target {
    pub open spec fn spec_distributor(&self) -> Distributor {
        match self {
            Target::GitHub(_) => Distributor::GitHub,
            Target::Modrinth(_) => Distributor::Modrinth,
        }
    }

    /// The distributor whose token this target needs.
    #[verifier::when_used_as_spec(spec_distributor)]
    pub fn distributor(&self) -> (distributor: Distributor)
        ensures
            distributor == self.spec_distributor(),
    {
        match self {
            Target::GitHub(_) => Distributor::GitHub,
            Target::Modrinth(_) => Distributor::Modrinth,
        }
    }
}

/// The warning that is given where a target is skipped for want of a token.
pub open spec fn spec_skip_warning(distributor: Distributor) -> Seq<char> {
    match distributor {
        Distributor::GitHub =>
            "A GitHub token was not provided, skipping distributing to GitHub Releases"@,
        Distributor::Modrinth =>
            "A Modrinth token was not provided, skipping distributing to Modrinth"@,
    }
}

/// The warning that is given where a target is skipped for want of a token.
pub fn skip_warning(distributor: Distributor) -> (warning: String)
    ensures
        warning@ == spec_skip_warning(distributor),
{
    match distributor {
        Distributor::GitHub => String::from_str(
            "A GitHub token was not provided, skipping distributing to GitHub Releases",
        ),
        Distributor::Modrinth => String::from_str(
            "A Modrinth token was not provided, skipping distributing to Modrinth",
        ),
    }
}

/// The targets of a project, in the order in which they are published to:
/// GitHub before Modrinth, each only where it is configured.
pub open spec fn spec_targets(github: Option<GitHub>, modrinth: Option<Modrinth>) -> Seq<Target> {
    let first = match github {
        Some(g) => seq![Target::GitHub(g)],
        None => Seq::<Target>::empty(),
    };
    match modrinth {
        Some(m) => first.push(Target::Modrinth(m)),
        None => first,
    }
}

/// The targets of a project, in the order in which they are published to.
pub fn targets(github: Option<GitHub>, modrinth: Option<Modrinth>) -> (targets: Vec<Target>)
    ensures
        targets@ == spec_targets(github, modrinth),
{
    let mut targets: Vec<Target> = Vec::new();
    match github {
        Some(g) => {
            targets.push(Target::GitHub(g));
        },
        None => {},
    }
    match modrinth {
        Some(m) => {
            targets.push(Target::Modrinth(m));
        },
        None => {},
    }
    targets
}

/// How the last action ended.
#[derive(Debug, Clone, Copy, PartialEq, Eq, Structural)]
pub enum Outcome {
    /// The upload succeeded, or the warning was given.
    Completed,
    /// The distributor or the artifact failed the upload.
    Failed,
}

/// What the front end does next.
#[derive(Debug, Clone, PartialEq, Eq)]
pub enum Action {
    /// Create the release at the target with this index, authenticated by
    /// the token, and upload the artifact.
    Upload { target: usize, token: String },
    /// Warn that no token is held for the target with this index.
    Skip { target: usize },
    /// Every target was handled: the run ends well.
    Finish,
    /// An upload failed: the run ends with its error, and no further target
    /// is attempted.
    Abort,
}

/// Whether `action` is what is done about the target at `index`: with none
/// left the run is finished; a target whose distributor has a token is
/// uploaded to with that token; one without is skipped.
pub open spec fn decides(targets: Seq<Target>, keys: KeysView, index: int, action: Action) -> bool {
    if 0 <= index < targets.len() {
        match keys.token(targets[index].spec_distributor()) {
            Some(held) => action matches Action::Upload { target, token } && target == index
                && token@ == held,
            None => action == (Action::Skip { target: index as usize }),
        }
    } else {
        action == Action::Finish
    }
}

/// A target without a token is skipped, and nothing else is done about it:
/// no missing token ends a run or fails it.
pub proof fn lemma_missing_token_skips(
    targets: Seq<Target>,
    keys: KeysView,
    index: int,
    action: Action,
)
    requires
        0 <= index < targets.len(),
        keys.token(targets[index].spec_distributor()) is None,
        decides(targets, keys, index, action),
    ensures
        action == (Action::Skip { target: index as usize }),
{
}

/// An upload goes to a target that is there, with the token that is held for
/// the distributor of that target, and with no other.
pub proof fn lemma_upload_uses_own_token(
    targets: Seq<Target>,
    keys: KeysView,
    index: int,
    action: Action,
)
    requires
        decides(targets, keys, index, action),
        action is Upload,
    ensures
        0 <= index < targets.len(),
        action matches Action::Upload { target, token } && target == index && keys.token(
            targets[index].spec_distributor(),
        ) == Some(token@),
{
}

/// What is done about the target at `index`. A missing token is never a
/// failure: the target is skipped and the run goes on.
pub fn decide(targets: &Vec<Target>, keys: &Keys, index: usize) -> (action: Action)
    ensures
        decides(targets@, keys@, index as int, action),
        !(action is Abort),
{
    if index < targets.len() {
        match keys.token(targets[index].distributor()) {
            Some(token) => Action::Upload { target: index, token },
            None => Action::Skip { target: index },
        }
    } else {
        Action::Finish
    }
}

/// The first action of a run: what is done about the first target.
pub fn begin(targets: &Vec<Target>, keys: &Keys) -> (action: Action)
    ensures
        decides(targets@, keys@, 0, action),
{
    decide(targets, keys, 0)
}

/// The action that follows the one for the target at `current`. After a
/// failure the run is aborted, whatever targets are left and whatever tokens
/// are held. Otherwise the next target in order is decided on.
pub fn resume(targets: &Vec<Target>, keys: &Keys, current: usize, outcome: Outcome) -> (action:
    Action)
    ensures
        outcome == Outcome::Failed ==> action == Action::Abort,
        outcome == Outcome::Completed ==> decides(targets@, keys@, current + 1, action),
{
    match outcome {
        Outcome::Failed => Action::Abort,
        Outcome::Completed => {
            if current < targets.len() {
                decide(targets, keys, current + 1)
            } else {
                Action::Finish
            }
        },
    }
}

/// The release to create on GitHub, and the asset to attach to it.
#[derive(Debug, Clone, PartialEq, Eq)]
pub struct GitHubRelease {
    pub owner: String,
    pub repo: String,
    pub tag: String,
    pub name: String,
    pub body: String,
    pub draft: bool,
    pub prerelease: bool,
    pub asset_name: String,
    pub asset_label: String,
}

/// The text of a changelog that may be missing.
pub open spec fn body_of(changelog: Option<String>) -> Seq<char> {
    match changelog {
        Some(text) => text@,
        None => Seq::empty(),
    }
}

/// The release to create on GitHub: named by its tag, with the changelog as
/// its body, a draft where the target says so, and a prerelease exactly where
/// the version is not a `Release`. The artifact is attached under its name.
pub fn github_release(target: &GitHub, release: &Release) -> (request: GitHubRelease)
    ensures
        request.owner@ == target.repo.0@,
        request.repo@ == target.repo.1@,
        request.tag@ == release.tag@,
        request.name@ == release.tag@,
        request.body@ == body_of(release.changelog),
        request.draft == target.draft,
        request.prerelease == (release.kind != VersionType::Release),
        request.asset_name@ == release.artifact_name@,
        request.asset_label@ == release.artifact_name@,
{
    let body = match &release.changelog {
        Some(text) => text.clone(),
        None => String::new(),
    };
    GitHubRelease {
        owner: target.repo.0.clone(),
        repo: target.repo.1.clone(),
        tag: release.tag.clone(),
        name: release.tag.clone(),
        body,
        draft: target.draft,
        prerelease: release.kind.prerelease(),
        asset_name: release.artifact_name.clone(),
        asset_label: release.artifact_name.clone(),
    }
}

/// The version to create on Modrinth, and the file that comes with it.
#[derive(Debug, Clone, PartialEq, Eq)]
pub struct ModrinthVersion {
    pub name: String,
    pub version_number: String,
    pub changelog: Option<String>,
    pub game_versions: Vec<String>,
    pub loaders: Vec<String>,
    pub version_type: VersionType,
    pub featured: bool,
    pub project_id: String,
    pub file_parts: Vec<String>,
    pub primary_file: Option<String>,
}

/// The version to create on Modrinth: named by the tag, numbered by the
/// version, for the game versions and loaders of the artifact, of the kind
/// of the release, with the artifact as its one and primary file.
pub fn modrinth_version(target: &Modrinth, artifact: Artifact, release: &Release) -> (request:
    ModrinthVersion)
    ensures
        request.name@ == release.tag@,
        request.version_number@ == release.version@,
        request.changelog == release.changelog,
        request.game_versions == artifact.game_versions,
        request.loaders == artifact.loaders,
        request.version_type == release.kind,
        request.featured == target.featured,
        request.project_id@ == target.id@,
        request.file_parts@.len() == 1,
        request.file_parts@[0]@ == release.artifact_name@,
        request.primary_file matches Some(file) && file@ == release.artifact_name@,
{
    let changelog = match &release.changelog {
        Some(text) => Some(text.clone()),
        None => None,
    };
    ModrinthVersion {
        name: release.tag.clone(),
        version_number: release.version.clone(),
        changelog,
        game_versions: artifact.game_versions,
        loaders: artifact.loaders,
        version_type: release.kind,
        featured: target.featured,
        project_id: target.id.clone(),
        file_parts: vec![release.artifact_name.clone()],
        primary_file: Some(release.artifact_name.clone()),
    }
}

/// The address of a version on Modrinth.
pub open spec fn spec_version_url(project: Seq<char>, version: Seq<char>) -> Seq<char> {
    "https://modrinth.com/project/"@ + project + "/version/"@ + version
}

/// The address under which Modrinth shows a version of a project.
pub fn version_url(project: &str, version: &str) -> (url: String)
    ensures
        url@ == spec_version_url(project@, version@),
{
    String::from_str("https://modrinth.com/project/").concat(project).concat("/version/").concat(
        version,
    )
}

} // verus!
