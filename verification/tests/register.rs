use modscan::identifier::{ModIdentifier, ModPlatform};
use modscan::profile::{Mod, Profile};
use modscan::register::{register, Fetch, Registration};

fn profile_of(mods: Vec<Mod>) -> Profile {
    Profile { output_dir: "instance/mods".to_string(), mods }
}

fn recorded(identifier: ModIdentifier, name: &str) -> Mod {
    Mod { name: name.to_string(), identifier, check_game_version: None, check_mod_loader: None }
}

fn project(identifier: ModIdentifier, name: &str) -> Fetch {
    Fetch::Project { identifier, name: name.to_string() }
}

#[test]
fn a_fetched_project_is_appended() {
    let mut profile = profile_of(vec![recorded(ModIdentifier::CurseForgeProject(1), "One")]);
    let outcome = register(
        &mut profile,
        &project(ModIdentifier::ModrinthProject("AANobbMI".to_string()), "Sodium"),
    );
    assert_eq!(
        outcome,
        Registration::Added { name: "Sodium".to_string(), platform: ModPlatform::Modrinth }
    );
    assert_eq!(
        profile.mods,
        vec![
            recorded(ModIdentifier::CurseForgeProject(1), "One"),
            recorded(ModIdentifier::ModrinthProject("AANobbMI".to_string()), "Sodium"),
        ]
    );
    assert_eq!(profile.output_dir, "instance/mods");
}

#[test]
fn a_new_mod_has_no_compatibility_overrides() {
    let mut profile = profile_of(Vec::new());
    register(&mut profile, &project(ModIdentifier::CurseForgeProject(306612), "Fabric API"));
    assert_eq!(profile.mods.len(), 1);
    assert_eq!(profile.mods[0].name, "Fabric API");
    assert_eq!(profile.mods[0].identifier, ModIdentifier::CurseForgeProject(306612));
    assert_eq!(profile.mods[0].check_game_version, None);
    assert_eq!(profile.mods[0].check_mod_loader, None);
}

#[test]
fn registering_a_project_twice_adds_it_once() {
    let mut profile = profile_of(Vec::new());
    let fetch = project(ModIdentifier::ModrinthProject("222".to_string()), "Lithium");
    let first = register(&mut profile, &fetch);
    assert_eq!(
        first,
        Registration::Added { name: "Lithium".to_string(), platform: ModPlatform::Modrinth }
    );
    let after_first = profile.clone();
    let second = register(&mut profile, &fetch);
    assert_eq!(second, Registration::AlreadyTracked);
    assert_eq!(profile, after_first);
    assert_eq!(profile.mods.len(), 1);
}

#[test]
fn a_tracked_project_is_recognised_under_another_name() {
    let mut profile = profile_of(vec![recorded(ModIdentifier::CurseForgeProject(7), "Old name")]);
    let outcome = register(&mut profile, &project(ModIdentifier::CurseForgeProject(7), "New name"));
    assert_eq!(outcome, Registration::AlreadyTracked);
    assert_eq!(profile.mods, vec![recorded(ModIdentifier::CurseForgeProject(7), "Old name")]);
}

#[test]
fn projects_with_one_name_on_two_platforms_are_both_added() {
    let mut profile = profile_of(Vec::new());
    register(&mut profile, &project(ModIdentifier::CurseForgeProject(111), "Sodium"));
    let outcome = register(
        &mut profile,
        &project(ModIdentifier::ModrinthProject("111".to_string()), "Sodium"),
    );
    assert_eq!(
        outcome,
        Registration::Added { name: "Sodium".to_string(), platform: ModPlatform::Modrinth }
    );
    assert_eq!(profile.mods.len(), 2);
}

#[test]
fn a_project_that_the_platform_found_in_the_profile_changes_nothing() {
    let mut profile = profile_of(vec![recorded(ModIdentifier::CurseForgeProject(1), "One")]);
    let before = profile.clone();
    assert_eq!(register(&mut profile, &Fetch::AlreadyAdded), Registration::AlreadyTracked);
    assert_eq!(profile, before);
}

#[test]
fn a_failed_fetch_changes_nothing() {
    let mut profile = profile_of(vec![recorded(ModIdentifier::CurseForgeProject(1), "One")]);
    let before = profile.clone();
    assert_eq!(
        register(&mut profile, &Fetch::Failed("The project is not compatible".to_string())),
        Registration::Failed("The project is not compatible".to_string())
    );
    assert_eq!(profile, before);
}

#[test]
fn a_profile_knows_what_it_tracks() {
    let profile = profile_of(vec![
        recorded(ModIdentifier::CurseForgeProject(1), "One"),
        recorded(ModIdentifier::ModrinthProject("two".to_string()), "Two"),
    ]);
    assert!(profile.tracks(&ModIdentifier::CurseForgeProject(1)));
    assert!(profile.tracks(&ModIdentifier::ModrinthProject("two".to_string())));
    assert!(!profile.tracks(&ModIdentifier::CurseForgeProject(2)));
    assert!(!profile.tracks(&ModIdentifier::ModrinthProject("1".to_string())));
    assert!(!profile_of(Vec::new()).tracks(&ModIdentifier::CurseForgeProject(1)));
}

#[test]
fn track_says_whether_the_profile_changed() {
    let mut profile = profile_of(Vec::new());
    assert!(profile.track(ModIdentifier::CurseForgeProject(1), "One".to_string()));
    assert!(!profile.track(ModIdentifier::CurseForgeProject(1), "Uno".to_string()));
    assert!(profile.track(ModIdentifier::CurseForgeProject(2), "Two".to_string()));
    assert_eq!(
        profile.mods,
        vec![
            recorded(ModIdentifier::CurseForgeProject(1), "One"),
            recorded(ModIdentifier::CurseForgeProject(2), "Two"),
        ]
    );
}
