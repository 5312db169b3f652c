//! The description of a project: where its artifact lies and where its
//! releases go.

use vstd::prelude::*;
use vstd::string::*;

verus! {

/// A project as its configuration file describes it.
#[derive(Debug, PartialEq, Eq)]
pub struct Configuration {
    pub artifact: Artifact,
    pub changelog: Option<Changelog>,
    pub modrinth: Option<Modrinth>,
    pub github: Option<GitHub>,
}

/// The file that a release publishes.
#[derive(Debug, Clone, PartialEq, Eq)]
pub struct Artifact {
    /// The directory that holds the artifact.
    pub folder: String,
    /// The artifact's file name, with a placeholder for the version.
    pub pattern: String,
    pub game_versions: Vec<String>,
    pub loaders: Vec<String>,
}

/// A project on Modrinth.
#[derive(Debug, Clone, PartialEq, Eq)]
pub struct Modrinth {
    pub id: String,
    pub featured: bool,
}

/// A repository on GitHub, as owner and name.
#[derive(Debug, PartialEq, Eq)]
pub struct GitHub {
    pub repo: (String, String),
    pub draft: bool,
}

/// Where the changelog of a release comes from.
#[derive(Debug, Clone, PartialEq, Eq)]
pub enum Changelog {
    /// It is the content of a file.
    File { file: String },
    /// It is written in an editor when the release is made.
    Editor,
}

/// What is done about the configuration file when a project is set up.
#[derive(Debug, Clone, Copy, PartialEq, Eq, Structural)]
pub enum Init {
    /// The default configuration is written.
    Write,
    /// A file is there: the user is asked whether to overwrite it.
    Ask,
    /// A file is there and stays as it is.
    Keep,
}

/// What is done about the configuration file when a project is set up.
/// `found` says whether a file is there, and `overwrite` what the user
/// answered when asked whether to overwrite it, if asked yet. Without a file
/// the default is written. A file is overwritten only once the user has
/// agreed.
pub fn init(found: bool, overwrite: Option<bool>) -> (step: Init)
    ensures
        step == if !found {
            Init::Write
        } else {
            match overwrite {
                None => Init::Ask,
                Some(true) => Init::Write,
                Some(false) => Init::Keep,
            }
        },
{
    if !found {
        Init::Write
    } else {
        match overwrite {
            None => Init::Ask,
            Some(true) => Init::Write,
            Some(false) => Init::Keep,
        }
    }
}

/// Whether a GitHub release is a draft where the configuration does not say.
pub fn default_draft() -> (draft: bool)
    ensures
        draft,
{
    true
}

/// Whether a Modrinth version is featured where the configuration does not
/// say.
pub fn default_featured() -> (featured: bool)
    ensures
        featured,
{
    true
}

impl Default for Configuration {
    /// The configuration that a new project starts from.
    fn default() -> (c: Configuration)
        ensures
            c.artifact.folder@ == "build/libs"@,
            c.artifact.pattern@ == "mod-#.jar"@,
            c.artifact.game_versions@.len() == 1,
            c.artifact.game_versions@[0]@ == "1.xx"@,
            c.artifact.loaders@.len() == 4,
            c.artifact.loaders@[0]@ == "fabric"@,
            c.artifact.loaders@[1]@ == "quilt"@,
            c.artifact.loaders@[2]@ == "forge"@,
            c.artifact.loaders@[3]@ == "neoforge"@,
            c.changelog == Some(Changelog::Editor),
            c.modrinth matches Some(m) && m.id@ == "modrinth project id"@ && m.featured,
            c.github matches Some(g) && g.repo.0@ == "user"@ && g.repo.1@ == "repo"@ && g.draft,
    {
        Configuration {
            artifact: Artifact {
                folder: String::from_str("build/libs"),
                pattern: String::from_str("mod-#.jar"),
                game_versions: vec![String::from_str("1.xx")],
                loaders: vec![
                    String::from_str("fabric"),
                    String::from_str("quilt"),
                    String::from_str("forge"),
                    String::from_str("neoforge"),
                ],
            },
            changelog: Some(Changelog::Editor),
            modrinth: Some(
                Modrinth { id: String::from_str("modrinth project id"), featured: default_featured() },
            ),
            github: Some(
                GitHub {
                    repo: (String::from_str("user"), String::from_str("repo")),
                    draft: default_draft(),
                },
            ),
        }
    }
}

} // verus!
