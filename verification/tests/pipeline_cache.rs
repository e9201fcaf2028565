use ferron::pipeline_cache::{
    cache_dir, first_step, next_step, path, worth_saving, CachePath, Environment, Platform,
    SaveStep,
};

fn nothing() -> Environment {
    Environment { override_path: None, local_app_data: None, xdg_cache_home: None, home: None }
}

fn shown(path: Option<CachePath>) -> Option<String> {
    path.map(|path| {
        let mut text = path.base;
        for part in path.parts {
            text = text + "/" + &part;
        }
        text
    })
}

/// The override is the whole interface the perf harness has to this, and both of
/// its states have to work: a path to use, and empty for "don't".
#[test]
fn the_override_names_a_path_or_turns_the_cache_off() {
    let home = Some("/home/me".to_string());
    let named = Environment {
        override_path: Some("/tmp/orrin-test-cache.bin".to_string()),
        home: home.clone(),
        ..nothing()
    };
    assert_eq!(
        shown(path(Platform::Other, &named)),
        Some("/tmp/orrin-test-cache.bin".to_string())
    );

    let off = Environment { override_path: Some(String::new()), home, ..nothing() };
    assert_eq!(shown(path(Platform::Other, &off)), None);
}

#[test]
fn each_platform_has_its_place() {
    let environment = Environment {
        override_path: None,
        local_app_data: Some("C:\\Local".to_string()),
        xdg_cache_home: Some("/xdg".to_string()),
        home: Some("/home/me".to_string()),
    };
    assert_eq!(
        shown(path(Platform::Windows, &environment)),
        Some("C:\\Local/orrin/pipelines.bin".to_string())
    );
    assert_eq!(
        shown(path(Platform::MacOs, &environment)),
        Some("/home/me/Library/Caches/orrin/pipelines.bin".to_string())
    );
    assert_eq!(
        shown(path(Platform::Other, &environment)),
        Some("/xdg/orrin/pipelines.bin".to_string())
    );
    assert_eq!(shown(cache_dir(Platform::Other, &environment)), Some("/xdg".to_string()));
    // A relative directory is not one to use.
    let relative = Environment {
        xdg_cache_home: Some("xdg".to_string()),
        home: Some("/home/me".to_string()),
        ..nothing()
    };
    assert_eq!(
        shown(path(Platform::Other, &relative)),
        Some("/home/me/.cache/orrin/pipelines.bin".to_string())
    );
    let empty = Environment { xdg_cache_home: Some(String::new()), ..nothing() };
    assert_eq!(shown(path(Platform::Other, &empty)), None);
    for platform in [Platform::Windows, Platform::MacOs, Platform::Other] {
        assert_eq!(shown(path(platform, &nothing())), None);
    }
}

#[test]
fn an_unchanged_cache_is_not_written() {
    assert!(worth_saving(true, true, Some(10), 9));
    assert!(worth_saving(true, true, Some(8), 9));
    assert!(!worth_saving(true, true, Some(9), 9));
    assert!(!worth_saving(true, true, None, 9));
    assert!(!worth_saving(false, true, Some(10), 9));
    assert!(!worth_saving(true, false, Some(10), 9));
}

/// The file is replaced only by a whole one, and what is left of a failed
/// replacement is removed.
#[test]
fn saving_takes_its_steps() {
    assert_eq!(first_step(true), SaveStep::CreateDirectory);
    assert_eq!(first_step(false), SaveStep::WriteTemporary);
    assert_eq!(next_step(SaveStep::CreateDirectory, true), SaveStep::WriteTemporary);
    assert_eq!(next_step(SaveStep::CreateDirectory, false), SaveStep::Done);
    assert_eq!(next_step(SaveStep::WriteTemporary, true), SaveStep::Replace);
    assert_eq!(next_step(SaveStep::WriteTemporary, false), SaveStep::Done);
    assert_eq!(next_step(SaveStep::Replace, true), SaveStep::Done);
    assert_eq!(next_step(SaveStep::Replace, false), SaveStep::RemoveTemporary);
    assert_eq!(next_step(SaveStep::RemoveTemporary, false), SaveStep::Done);
    assert_eq!(next_step(SaveStep::Done, true), SaveStep::Done);
}
