//! Where compiled pipelines are kept between runs, and when they are written.

use vstd::prelude::*;
use vstd::string::*;

verus! {

/// The cache's own directory, and the file in it.
pub const DIRECTORY: &'static str = "orrin";

pub const FILE: &'static str = "pipelines.bin";

/// The systems that keep caches in different places.
#[derive(Clone, Copy, Debug, PartialEq, Eq, Structural)]
pub enum Platform {
    Windows,
    MacOs,
    /// Everything that follows the XDG directories.
    Other,
}

/// The environment as far as it says where caches go.
#[derive(Debug)]
pub struct Environment {
    /// Names the file outright, or turns the cache off where it is empty.
    pub override_path: Option<String>,
    pub local_app_data: Option<String>,
    pub xdg_cache_home: Option<String>,
    pub home: Option<String>,
}

/// Where the cache is kept: a path named outright, or a directory and the parts
/// that follow it.
#[derive(Debug)]
pub struct CachePath {
    pub base: String,
    pub parts: Vec<String>,
}

/// A path, as values.
#[verifier::ext_equal]
pub struct PathView {
    pub base: Seq<char>,
    pub parts: Seq<Seq<char>>,
}

impl CachePath {
    pub open spec fn view(&self) -> PathView {
        PathView { base: self.base@, parts: self.parts@.map_values(|part: String| part@) }
    }
}

/// Whether a path of an XDG system starts at the root.
pub open spec fn is_absolute(path: Seq<char>) -> bool {
    path.len() > 0 && path[0] == '/'
}

/// The directory caches go to.
pub open spec fn directory_of(platform: Platform, environment: &Environment) -> Option<PathView> {
    match platform {
        Platform::Windows => match environment.local_app_data {
            Some(base) => Some(PathView { base: base@, parts: Seq::empty() }),
            None => None,
        },
        Platform::MacOs => match environment.home {
            Some(base) => Some(PathView { base: base@, parts: seq!["Library"@, "Caches"@] }),
            None => None,
        },
        Platform::Other => if environment.xdg_cache_home is Some && is_absolute(
            environment.xdg_cache_home->0@,
        ) {
            Some(PathView { base: environment.xdg_cache_home->0@, parts: Seq::empty() })
        } else {
            match environment.home {
                Some(base) => Some(PathView { base: base@, parts: seq![".cache"@] }),
                None => None,
            }
        },
    }
}

/// The file the cache is kept in.
pub open spec fn path_of(platform: Platform, environment: &Environment) -> Option<PathView> {
    match environment.override_path {
        Some(path) => if path@.len() == 0 {
            None
        } else {
            Some(PathView { base: path@, parts: Seq::empty() })
        },
        None => match directory_of(platform, environment) {
            Some(directory) => Some(
                PathView {
                    base: directory.base,
                    parts: directory.parts + seq![DIRECTORY@, FILE@],
                },
            ),
            None => None,
        },
    }
}

/// The directory caches go to.
pub fn cache_dir(platform: Platform, environment: &Environment) -> (directory: Option<CachePath>)
    ensures
        directory is Some <==> directory_of(platform, environment) is Some,
        directory is Some ==> Some(directory->0@) == directory_of(platform, environment),
{
    let mut parts: Vec<String> = Vec::new();
    let ghost of = |part: String| part@;
    match platform {
        Platform::Windows => match &environment.local_app_data {
            Some(base) => {
                assert(parts@.map_values(of) =~= Seq::empty());
                Some(CachePath { base: base.clone(), parts })
            },
            None => None,
        },
        Platform::MacOs => match &environment.home {
            Some(base) => {
                parts.push("Library".to_owned());
                parts.push("Caches".to_owned());
                assert(parts@.map_values(of) =~= seq!["Library"@, "Caches"@]);
                Some(CachePath { base: base.clone(), parts })
            },
            None => None,
        },
        Platform::Other => {
            if let Some(base) = &environment.xdg_cache_home {
                if base.as_str().unicode_len() > 0 && base.as_str().get_char(0) == '/' {
                    assert(parts@.map_values(of) =~= Seq::empty());
                    return Some(CachePath { base: base.clone(), parts });
                }
            }
            match &environment.home {
                Some(base) => {
                    parts.push(".cache".to_owned());
                    assert(parts@.map_values(of) =~= seq![".cache"@]);
                    Some(CachePath { base: base.clone(), parts })
                },
                None => None,
            }
        },
    }
}

/// The file the cache is kept in, or `None` where there is nowhere to keep it or
/// it is turned off.
pub fn path(platform: Platform, environment: &Environment) -> (path: Option<CachePath>)
    ensures
        path is Some <==> path_of(platform, environment) is Some,
        path is Some ==> Some(path->0@) == path_of(platform, environment),
{
    let ghost of = |part: String| part@;
    if let Some(named) = &environment.override_path {
        if named.as_str().unicode_len() == 0 {
            return None;
        }
        let parts: Vec<String> = Vec::new();
        assert(parts@.map_values(of) =~= Seq::empty());
        return Some(CachePath { base: named.clone(), parts });
    }
    match cache_dir(platform, environment) {
        Some(directory) => {
            let mut parts = directory.parts;
            let ghost before = parts@;
            parts.push(DIRECTORY.to_owned());
            parts.push(FILE.to_owned());
            assert(parts@.map_values(of) =~= before.map_values(of) + seq![DIRECTORY@, FILE@]);
            Some(CachePath { base: directory.base, parts })
        },
        None => None,
    }
}

/// Whether the cache is written out at the end of a run: it exists, has somewhere
/// to go and could be read, and it grew or shrank since it was loaded.
pub fn worth_saving(has_cache: bool, has_path: bool, data: Option<usize>, loaded: usize) -> (worth:
    bool)
    ensures
        worth == (has_cache && has_path && data is Some && data->0 != loaded),
{
    if !has_cache || !has_path {
        return false;
    }
    match data {
        Some(len) => len != loaded,
        None => false,
    }
}

/// The next thing to do when writing the cache out.
#[derive(Clone, Copy, Debug, PartialEq, Eq, Structural)]
pub enum SaveStep {
    CreateDirectory,
    /// Write beside the file, so that a crash leaves the old one whole.
    WriteTemporary,
    /// Put what was written in the file's place.
    Replace,
    RemoveTemporary,
    Done,
}

/// What follows a step that worked out, or did not.
pub open spec fn step_after(step: SaveStep, worked: bool) -> SaveStep {
    match step {
        SaveStep::CreateDirectory => if worked {
            SaveStep::WriteTemporary
        } else {
            SaveStep::Done
        },
        SaveStep::WriteTemporary => if worked {
            SaveStep::Replace
        } else {
            SaveStep::Done
        },
        SaveStep::Replace => if worked {
            SaveStep::Done
        } else {
            SaveStep::RemoveTemporary
        },
        SaveStep::RemoveTemporary => SaveStep::Done,
        SaveStep::Done => SaveStep::Done,
    }
}

/// The first step of writing the cache out: its directory is created where it has
/// one.
pub fn first_step(has_parent: bool) -> (step: SaveStep)
    ensures
        step == (if has_parent {
            SaveStep::CreateDirectory
        } else {
            SaveStep::WriteTemporary
        }),
{
    if has_parent {
        SaveStep::CreateDirectory
    } else {
        SaveStep::WriteTemporary
    }
}

/// What follows a step that worked out, or did not.
pub fn next_step(step: SaveStep, worked: bool) -> (next: SaveStep)
    ensures
        next == step_after(step, worked),
{
    match step {
        SaveStep::CreateDirectory => if worked {
            SaveStep::WriteTemporary
        } else {
            SaveStep::Done
        },
        SaveStep::WriteTemporary => if worked {
            SaveStep::Replace
        } else {
            SaveStep::Done
        },
        SaveStep::Replace => if worked {
            SaveStep::Done
        } else {
            SaveStep::RemoveTemporary
        },
        SaveStep::RemoveTemporary | SaveStep::Done => SaveStep::Done,
    }
}

/// **The file is replaced only by a whole one.** The step that touches the file
/// follows only a write beside it that worked out.
pub proof fn replaced_only_after_a_whole_write(step: SaveStep, worked: bool)
    requires
        step_after(step, worked) is Replace,
    ensures
        step is WriteTemporary,
        worked,
{
}

/// **Saving ends.** Whatever works out, four steps are enough.
pub proof fn saving_ends(step: SaveStep, a: bool, b: bool, c: bool, d: bool)
    ensures
        step_after(step_after(step_after(step_after(step, a), b), c), d) is Done,
{
}

/// **A save that works out writes beside the file and then replaces it**; one whose
/// replacement fails cleans up after itself, and one that fails earlier has nothing to
/// clean up.
pub proof fn saving_goes_by_its_steps(step: SaveStep, worked: bool)
    ensures
        step_after(SaveStep::CreateDirectory, true) is WriteTemporary,
        step_after(SaveStep::WriteTemporary, true) is Replace,
        step_after(SaveStep::Replace, true) is Done,
        step_after(step, worked) is RemoveTemporary <==> step is Replace && !worked,
        !worked && !(step is Replace) ==> step_after(step, worked) is Done,
        step is RemoveTemporary || step is Done ==> step_after(step, worked) is Done,
{
}

/// **The environment has the first word on where the cache is.** A path named outright
/// is taken whole, an empty one turns the cache off, and neither looks any further.
pub proof fn a_named_file_is_taken_whole(platform: Platform, environment: &Environment)
    requires
        environment.override_path is Some,
    ensures
        path_of(platform, environment) is None <==> environment.override_path->0@.len() == 0,
        path_of(platform, environment) matches Some(path) ==> path.base
            == environment.override_path->0@ && path.parts.len() == 0,
{
}

/// **Every platform keeps caches in its own place.** Under it the cache has a directory
/// and a file of its own; where the place is not known, there is no cache. An XDG
/// directory counts only where it starts at the root.
pub proof fn caches_have_their_place(platform: Platform, environment: &Environment)
    requires
        environment.override_path is None,
    ensures
        ({
            let path = path_of(platform, environment);
            let xdg = environment.xdg_cache_home;
            let own = seq!["orrin"@, "pipelines.bin"@];
            &&& platform is Windows ==> {
                &&& path is Some <==> environment.local_app_data is Some
                &&& path matches Some(path) ==> path.base == environment.local_app_data->0@
                    && path.parts == own
            }
            &&& platform is MacOs ==> {
                &&& path is Some <==> environment.home is Some
                &&& path matches Some(path) ==> path.base == environment.home->0@ && path.parts
                    == seq!["Library"@, "Caches"@] + own
            }
            &&& platform is Other && xdg is Some && xdg->0@.len() > 0 && xdg->0@[0] == '/' ==> (
            path matches Some(path) && path.base == xdg->0@ && path.parts == own)
            &&& platform is Other && !(xdg is Some && xdg->0@.len() > 0 && xdg->0@[0] == '/') ==> {
                &&& path is Some <==> environment.home is Some
                &&& path matches Some(path) ==> path.base == environment.home->0@ && path.parts
                    == seq![".cache"@] + own
            }
        }),
{
    let own = seq!["orrin"@, "pipelines.bin"@];
    assert(Seq::<Seq<char>>::empty() + own =~= own);
}

} // verus!
