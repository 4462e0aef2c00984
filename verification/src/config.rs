//! The configuration model: authentication, output, download and source settings.
use vstd::prelude::*;
use crate::paths::{join, path_join};
use crate::text::{chars_of, starts_with, starts_with_str, string_of};

verus! {

/// The whole configuration file.
#[derive(Debug, Clone)]
pub struct Config {
    pub auth: AuthConfig,
    pub output: OutputConfig,
    pub download: DownloadConfig,
    pub sources: SourcesConfig,
}

/// Reddit "script" application credentials.
#[derive(Debug, Clone)]
pub struct AuthConfig {
    pub client_id: String,
    pub client_secret: String,
    pub username: String,
    pub password: String,
}

/// Where downloads are written.
#[derive(Debug, Clone)]
pub struct OutputConfig {
    pub directory: String,
    pub create_subdirs: bool,
}

impl Default for OutputConfig {
    fn default() -> (r: Self)
        ensures
            r.directory@ == default_output_dir_spec(),
            r.create_subdirs,
    {
        OutputConfig { directory: default_output_dir(), create_subdirs: true }
    }
}

/// How downloads are performed.
#[derive(Debug, Clone)]
pub struct DownloadConfig {
    pub max_concurrent: usize,
    pub include_metadata: bool,
    pub include_comments: bool,
    pub file_naming: FileNaming,
}

impl Default for DownloadConfig {
    fn default() -> (r: Self)
        ensures
            r.max_concurrent == 5,
            r.include_metadata,
            !r.include_comments,
            r.file_naming == FileNaming::Id,
    {
        DownloadConfig {
            max_concurrent: 5,
            include_metadata: true,
            include_comments: false,
            file_naming: FileNaming::Id,
        }
    }
}

/// How a post's files are named on disk.
#[derive(Debug, Clone, Copy, PartialEq, Eq)]
pub enum FileNaming {
    /// `{id}.{ext}`
    Id,
    /// `{sanitized title}.{ext}`
    Title,
    /// `{id}-{sanitized title}.{ext}`
    IdTitle,
}

impl Default for FileNaming {
    fn default() -> (r: Self)
        ensures
            r == FileNaming::Id,
    {
        FileNaming::Id
    }
}

/// Which built-in sources are synced when none is named on the command line.
#[derive(Debug, Clone)]
pub struct SourcesConfig {
    pub friends: bool,
    pub follows: bool,
    pub saved: bool,
}

impl Default for SourcesConfig {
    fn default() -> (r: Self)
        ensures
            !r.friends && !r.follows && !r.saved,
    {
        SourcesConfig { friends: false, follows: false, saved: false }
    }
}

/// The default output directory, `~/reddit-archive`.
pub open spec fn default_output_dir_spec() -> Seq<char> {
    "~/reddit-archive"@
}

/// The default output directory.
pub fn default_output_dir() -> (r: String)
    ensures
        r@ == default_output_dir_spec(),
{
    String::from_str("~/reddit-archive")
}

/// The default of every flag that is on unless configured otherwise.
pub fn default_true() -> (r: bool)
    ensures
        r,
{
    true
}

/// The default number of concurrent downloads.
pub fn default_max_concurrent() -> (r: usize)
    ensures
        r == 5,
{
    5
}

/// The default file naming scheme.
pub fn default_file_naming() -> (r: FileNaming)
    ensures
        r == FileNaming::Id,
{
    FileNaming::Id
}

/// The output directory with a leading `~/` expanded against `home`, when
/// there is one.
pub open spec fn resolved_output_dir(dir: Seq<char>, home: Option<Seq<char>>) -> Seq<char> {
    if starts_with(dir, "~/"@) && home is Some {
        join(home->0, dir.skip(2))
    } else {
        dir
    }
}

impl Config {
    /// The output directory, with `~/` expanded against the given home
    /// directory.
    pub fn resolve_output_dir_with(&self, home: Option<String>) -> (r: String)
        ensures
            r@ == resolved_output_dir(
                self.output.directory@,
                match home {
                    Some(h) => Some(h@),
                    None => None,
                },
            ),
    {
        let dir = chars_of(self.output.directory.as_str());
        proof {
            reveal_strlit("~/");
        }
        if starts_with_str(&dir, "~/") {
            match home {
                Some(h) => {
                    let rest = string_of(&dir, 2, dir.len());
                    assert(dir@.subrange(2, dir@.len() as int) == dir@.skip(2));
                    return path_join(h.as_str(), rest.as_str());
                },
                None => {},
            }
        }
        self.output.directory.clone()
    }

    /// The output directory, with `~/` expanded against the user's home
    /// directory when the platform reports one whose name is valid UTF-8.
    pub fn resolve_output_dir(&self) -> (r: String)
        ensures
            !starts_with(self.output.directory@, "~/"@) ==> r@ == self.output.directory@,
            starts_with(self.output.directory@, "~/"@) ==> r@ == self.output.directory@
                || exists|h: Seq<char>| r@ == join(h, self.output.directory@.skip(2)),
    {
        let home = dirs_home();
        self.resolve_output_dir_with(home)
    }
}

/// The user's home directory as reported by `directories::BaseDirs`, if the
/// platform reports one whose name is valid UTF-8 (`Path::to_str`); a name
/// that is not cannot be held as text, and is reported as no directory. It
/// depends on the environment, so nothing is stated of it.
#[verifier::external_body]
fn dirs_home() -> Option<String> {
    directories::BaseDirs::new().and_then(|d| d.home_dir().to_str().map(|s| s.to_owned()))
}

/// The per-user configuration directory of an application, as reported by
/// `directories::ProjectDirs::from`, if its name is valid UTF-8
/// (`Path::to_str`); a name that is not cannot be held as text, and is
/// reported as no directory. It depends on the environment, so nothing is
/// stated of it.
#[verifier::external_body]
fn project_config_dir(qualifier: &str, organization: &str, application: &str) -> Option<String> {
    directories::ProjectDirs::from(qualifier, organization, application).and_then(
        |d| d.config_dir().to_str().map(|s| s.to_owned()),
    )
}

/// The default location of the configuration file: `config.toml` inside the
/// platform's configuration directory for `reddit-dl`. Whether the platform
/// reports such a directory, and which, depends on the environment.
pub fn default_config_path() -> (r: Option<String>)
    ensures
        r matches Some(p) ==> exists|d: Seq<char>| p@ == join(d, "config.toml"@),
{
    let (qualifier, organization, application) = config_project_names();
    config_path_in(project_config_dir(qualifier, organization, application))
}

/// The names under which the platform keeps this application's
/// configuration directory: no qualifier, no organization, and the
/// application `reddit-dl`.
pub fn config_project_names() -> (r: (&'static str, &'static str, &'static str))
    ensures
        r.0@ == ""@,
        r.1@ == ""@,
        r.2@ == "reddit-dl"@,
{
    ("", "", "reddit-dl")
}

/// The configuration file inside a configuration directory, when there is
/// one: `config.toml` joined onto it.
pub fn config_path_in(config_dir: Option<String>) -> (r: Option<String>)
    ensures
        match config_dir {
            Some(d) => r matches Some(p) && p@ == join(d@, "config.toml"@),
            None => r is None,
        },
{
    match config_dir {
        Some(d) => Some(path_join(d.as_str(), "config.toml")),
        None => None,
    }
}

} // verus!
