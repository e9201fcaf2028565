//! Which built-in scene a run opens with.

use crate::scene::{build_default_scene, is_rig, Scene};
use crate::showcase::{build_showcase_scene, is_courtyard};
use crate::text::{lowered, same_lowered, trim, trimmed, without_leading, without_trailing};
use vstd::prelude::*;
use vstd::string::*;

verus! {

/// Three scenes rather than one, because the jobs pull in different directions:
/// the rig separates variables, the courtyard composes them, and Sponza is
/// somebody else's geometry at somebody else's complexity.
#[derive(Clone, Copy, Debug, PartialEq, Eq, Structural)]
pub enum SceneChoice {
    /// The feature rig.
    Demo,
    /// The ruined courtyard.
    Showcase,
    /// Crytek's Sponza atrium, imported from a model on disk.
    Sponza,
}

impl Default for SceneChoice {
    fn default() -> (choice: Self)
        ensures
            choice == SceneChoice::Demo,
    {
        SceneChoice::Demo
    }
}

/// The scene that goes by a name, in lower case and without white space around
/// it.
pub open spec fn named(name: Seq<char>) -> Option<SceneChoice> {
    if name == ""@ || name == "demo"@ || name == "rig"@ || name == "default"@ {
        Some(SceneChoice::Demo)
    } else if name == "showcase"@ || name == "courtyard"@ {
        Some(SceneChoice::Showcase)
    } else if name == "sponza"@ || name == "crytek"@ {
        Some(SceneChoice::Sponza)
    } else {
        None
    }
}

/// The scene that a setting asks for.
pub open spec fn asked_for(raw: Seq<char>) -> Option<SceneChoice> {
    named(lowered(trimmed(raw)))
}

pub open spec fn label_of(choice: SceneChoice) -> Seq<char> {
    match choice {
        SceneChoice::Demo => "demo"@,
        SceneChoice::Showcase => "showcase"@,
        SceneChoice::Sponza => "sponza"@,
    }
}

impl SceneChoice {
    /// The scene that a setting asks for, or `None` for a name no scene has:
    /// worth a warning, since a typo that quietly changed what you were looking
    /// at is worse than one that says so.
    pub fn from_name(raw: &str) -> (choice: Option<Self>)
        ensures
            choice == asked_for(raw@),
    {
        let name = trim(raw);
        if same_lowered(name, "") || same_lowered(name, "demo") || same_lowered(name, "rig")
            || same_lowered(name, "default") {
            Some(SceneChoice::Demo)
        } else if same_lowered(name, "showcase") || same_lowered(name, "courtyard") {
            Some(SceneChoice::Showcase)
        } else if same_lowered(name, "sponza") || same_lowered(name, "crytek") {
            Some(SceneChoice::Sponza)
        } else {
            None
        }
    }

    /// The scene a run opens with: the one asked for, and the rig where none is
    /// or none goes by the name.
    pub fn from_env(raw: Option<&str>) -> (choice: Self)
        ensures
            choice == (match raw {
                Some(raw) => match asked_for(raw@) {
                    Some(choice) => choice,
                    None => SceneChoice::Demo,
                },
                None => SceneChoice::Demo,
            }),
    {
        match raw {
            Some(raw) => match Self::from_name(raw) {
                Some(choice) => choice,
                None => Self::default(),
            },
            None => Self::default(),
        }
    }

    /// Lay the scene out. The atrium's geometry is its model's: where that could
    /// be loaded there is nothing to lay out, and where it could not the rig
    /// opens instead, never an empty world.
    pub fn build(self, model_loaded: bool) -> (scene: Option<Scene>)
        ensures
            match self {
                SceneChoice::Demo => scene is Some && is_rig(scene->0),
                SceneChoice::Showcase => scene is Some && is_courtyard(scene->0),
                SceneChoice::Sponza => if model_loaded {
                    scene is None
                } else {
                    scene is Some && is_rig(scene->0)
                },
            },
    {
        match self {
            SceneChoice::Demo => Some(build_default_scene()),
            SceneChoice::Showcase => Some(build_showcase_scene()),
            SceneChoice::Sponza => if model_loaded {
                None
            } else {
                Some(build_default_scene())
            },
        }
    }

    /// For the run banner: which scene produced a frame time belongs in the line
    /// that describes the run.
    pub fn label(self) -> (label: &'static str)
        ensures
            label@ == label_of(self),
    {
        match self {
            SceneChoice::Demo => "demo",
            SceneChoice::Showcase => "showcase",
            SceneChoice::Sponza => "sponza",
        }
    }
}

/// **A label asks for its own scene.** What the banner prints, handed back as a
/// setting, opens the same scene again.
pub proof fn labels_round_trip(choice: SceneChoice)
    ensures
        asked_for(label_of(choice)) == Some(choice),
{
    reveal_strlit("");
    reveal_strlit("demo");
    reveal_strlit("rig");
    reveal_strlit("default");
    reveal_strlit("showcase");
    reveal_strlit("courtyard");
    reveal_strlit("sponza");
    reveal_strlit("crytek");
    let label = label_of(choice);
    assert(without_leading(label) == label);
    assert(without_trailing(label) == label);
    assert(lowered(label) =~= label);
    if choice is Showcase {
        assert("showcase"@[0] == 's');
        assert("demo"@[0] == 'd');
        assert("showcase"@.len() != "demo"@.len());
        assert("showcase"@.len() != "rig"@.len());
        assert("showcase"@.len() != "default"@.len());
    }
    if choice is Sponza {
        assert("sponza"@.len() != "demo"@.len());
        assert("sponza"@.len() != "rig"@.len());
        assert("sponza"@.len() != "default"@.len());
        assert("sponza"@.len() != "showcase"@.len());
        assert("sponza"@.len() != "courtyard"@.len());
    }
}

/// **Every scene goes by its names, and by no other's.** The rig opens where no name is
/// given; a name that no scene has opens none.
pub proof fn scenes_go_by_their_names(name: Seq<char>)
    ensures
        named(""@) == Some(SceneChoice::Demo),
        named("demo"@) == Some(SceneChoice::Demo),
        named("rig"@) == Some(SceneChoice::Demo),
        named("default"@) == Some(SceneChoice::Demo),
        named("showcase"@) == Some(SceneChoice::Showcase),
        named("courtyard"@) == Some(SceneChoice::Showcase),
        named("sponza"@) == Some(SceneChoice::Sponza),
        named("crytek"@) == Some(SceneChoice::Sponza),
        named(name) is Some ==> name == ""@ || name == "demo"@ || name == "rig"@ || name
            == "default"@ || name == "showcase"@ || name == "courtyard"@ || name == "sponza"@
            || name == "crytek"@,
{
    reveal_strlit("");
    reveal_strlit("demo");
    reveal_strlit("rig");
    reveal_strlit("default");
    reveal_strlit("showcase");
    reveal_strlit("courtyard");
    reveal_strlit("sponza");
    reveal_strlit("crytek");
    assert("demo"@.len() == 4 && "rig"@.len() == 3 && "default"@.len() == 7);
    assert("showcase"@.len() == 8 && "courtyard"@.len() == 9);
    assert("sponza"@.len() == 6 && "crytek"@.len() == 6 && ""@.len() == 0);
    assert("sponza"@[0] == 's' && "crytek"@[0] == 'c');
}

/// **A name is read without its case and the space around it.**
pub proof fn names_are_read_as_they_are_meant(raw: Seq<char>, other: Seq<char>)
    requires
        lowered(trimmed(raw)) == lowered(trimmed(other)),
    ensures
        asked_for(raw) == asked_for(other),
        asked_for(raw) == named(lowered(trimmed(raw))),
{
}

} // verus!
