use modpack_installer::artifact::{artifact_path, needs_download, plan_save, SavePlan};
use modpack_installer::dispatch::{partition, WORKER_COUNT};
use modpack_installer::files::is_url;
use modpack_installer::install::{
    external_plan, join_path, launcher_profile, location_from_exe_path, server_requested,
};
use modpack_installer::model::{
    External, ModPackDescriptor, ModrinthDependency, ModrinthFile, ModrinthModInfo,
    ModrinthModVersion, Target,
};
use modpack_installer::modrinth::{is_compatible, mod_info, version_info};
use modpack_installer::ratelimit::{parse_seconds, request_step, RequestStep};
use modpack_installer::resolve::{is_supported, required_dependencies, Phase, Resolution, ResolveAction};
use modpack_installer::select::{PickStep, VersionPicker};

fn strings(xs: &[&str]) -> Vec<String> {
    xs.iter().map(|x| x.to_string()).collect()
}

fn info(id: &str, client: &str, server: &str, versions: &[&str]) -> ModrinthModInfo {
    ModrinthModInfo {
        id: id.to_string(),
        title: id.to_string(),
        client_side: client.to_string(),
        server_side: server.to_string(),
        versions: strings(versions),
    }
}

fn release(game: &[&str], loaders: &[&str], file: Option<(&str, &str)>, deps: &[(&str, &str)]) -> ModrinthModVersion {
    ModrinthModVersion {
        project_id: Some("p".to_string()),
        files: file
            .map(|(url, name)| vec![ModrinthFile { url: url.to_string(), filename: name.to_string() }])
            .unwrap_or_default(),
        dependencies: deps
            .iter()
            .map(|(id, kind)| ModrinthDependency { project_id: id.to_string(), dependency_type: kind.to_string() })
            .collect(),
        game_versions: strings(game),
        loaders: strings(loaders),
    }
}

fn target() -> Target {
    Target { file_path: "/packs/demo".to_string(), target_version: "1.20.1".to_string() }
}

#[test]
fn urls_are_recognised() {
    assert!(is_url("http://example.com/pack.json".to_string()));
    assert!(is_url("https://example.com".to_string()));
    assert!(!is_url("ftp://example.com".to_string()));
    assert!(!is_url("https:/example.com".to_string()));
    assert!(!is_url("".to_string()));
    assert!(!is_url("modpack".to_string()));
}

#[test]
fn registry_locations() {
    assert_eq!(mod_info("sodium".to_string()), "https://api.modrinth.com/v2/project/sodium");
    assert_eq!(
        version_info(info("AANobbMI", "required", "unsupported", &[]), "r2".to_string()),
        "https://api.modrinth.com/v2/project/AANobbMI/version/r2"
    );
}

#[test]
fn compatibility_needs_version_and_loader() {
    let gv = "1.20.1".to_string();
    assert!(is_compatible(&release(&["1.20", "1.20.1"], &["forge", "fabric"], None, &[]), &gv));
    assert!(!is_compatible(&release(&["1.20.1"], &["quilt"], None, &[]), &gv));
    assert!(!is_compatible(&release(&["1.19.4"], &["fabric"], None, &[]), &gv));
    assert!(!is_compatible(&release(&[], &[], None, &[]), &gv));
}

#[test]
fn empty_release_list_selects_empty_release_without_fetching() {
    let picker = VersionPicker::new("1.20.1".to_string(), &info("x", "required", "required", &[]));
    match picker.next_step() {
        PickStep::Done(v) => {
            assert!(v.files.is_empty());
            assert!(v.project_id.is_none());
            assert!(matches!(plan_save(&target(), &v), SavePlan::Skip));
        }
        PickStep::Fetch(_) => panic!("no release should be fetched"),
    }
}

#[test]
fn single_usable_release_is_found_after_len_minus_k_fetches() {
    // Five releases, only the one at position 1 (oldest first) is usable.
    let ids = ["a", "b", "c", "d", "e"];
    let mut picker = VersionPicker::new("1.20.1".to_string(), &info("x", "required", "required", &ids));
    let mut fetched: Vec<String> = Vec::new();
    let mut step = picker.next_step();
    let chosen = loop {
        match step {
            PickStep::Fetch(id) => {
                let usable = id == "b";
                fetched.push(id);
                let r = if usable {
                    release(&["1.20.1"], &["fabric"], Some(("https://cdn/b.jar", "b.jar")), &[])
                } else {
                    release(&["1.20.1"], &["forge"], Some(("https://cdn/x.jar", "x.jar")), &[])
                };
                step = picker.offer(Some(r));
            }
            PickStep::Done(v) => break v,
        }
    };
    assert_eq!(fetched, strings(&["e", "d", "c", "b"]));
    assert_eq!(chosen.files[0].filename, "b.jar");
}

#[test]
fn failed_fetches_are_passed_over() {
    let mut picker = VersionPicker::new("1.20.1".to_string(), &info("x", "required", "required", &["a", "b"]));
    assert!(matches!(picker.next_step(), PickStep::Fetch(ref id) if id == "b"));
    assert!(matches!(picker.offer(None), PickStep::Fetch(ref id) if id == "a"));
    match picker.offer(None) {
        PickStep::Done(v) => assert!(v.files.is_empty() && v.game_versions.is_empty()),
        PickStep::Fetch(_) => panic!("all candidates were tried"),
    }
}

#[test]
fn sodium_end_to_end() {
    let sodium = info("sodium", "required", "unsupported", &["r1", "r2", "r3"]);
    let mut picker = VersionPicker::new("1.20.1".to_string(), &sodium);
    assert!(matches!(picker.next_step(), PickStep::Fetch(ref id) if id == "r3"));
    let r3 = release(&["1.20.4"], &["fabric"], Some(("https://cdn/r3.jar", "sodium-1.20.4.jar")), &[]);
    assert!(matches!(picker.offer(Some(r3)), PickStep::Fetch(ref id) if id == "r2"));
    let r2 = release(&["1.20.1"], &["fabric"], Some(("https://cdn/r2.jar", "sodium-1.20.1.jar")), &[]);
    let chosen = match picker.offer(Some(r2)) {
        PickStep::Done(v) => v,
        PickStep::Fetch(_) => panic!("r2 is usable"),
    };
    assert_eq!(chosen.files[0].url, "https://cdn/r2.jar");
    let dest = Target { file_path: "/dest".to_string(), target_version: "1.20.1".to_string() };
    match plan_save(&dest, &chosen) {
        SavePlan::Download { url, path } => {
            assert_eq!(url, "https://cdn/r2.jar");
            assert_eq!(path, "/dest/mods/sodium-1.20.1.jar");
        }
        other => panic!("unexpected plan {:?}", other),
    }
}

#[test]
fn file_names_are_percent_decoded() {
    let v = release(&["1.20.1"], &["fabric"], Some(("https://cdn/x", "Fancy%20Menu%2B.jar")), &[]);
    match plan_save(&target(), &v) {
        SavePlan::Download { path, .. } => assert_eq!(path, "/packs/demo/mods/Fancy Menu+.jar"),
        other => panic!("unexpected plan {:?}", other),
    }
    assert_eq!(artifact_path(&target(), "a.jar"), "/packs/demo/mods/a.jar");
}

#[test]
fn undecodable_file_name_is_refused() {
    let v = release(&["1.20.1"], &["fabric"], Some(("https://cdn/x", "bad%FF.jar")), &[]);
    assert!(matches!(plan_save(&target(), &v), SavePlan::BadName));
}

#[test]
fn only_first_file_is_used() {
    let mut v = release(&["1.20.1"], &["fabric"], Some(("https://cdn/one", "one.jar")), &[]);
    v.files.push(ModrinthFile { url: "https://cdn/two".to_string(), filename: "two.jar".to_string() });
    match plan_save(&target(), &v) {
        SavePlan::Download { url, path } => {
            assert_eq!(url, "https://cdn/one");
            assert_eq!(path, "/packs/demo/mods/one.jar");
        }
        other => panic!("unexpected plan {:?}", other),
    }
}

#[test]
fn second_write_needs_no_download() {
    let v = release(&["1.20.1"], &["fabric"], Some(("https://cdn/x", "x.jar")), &[]);
    let plan = plan_save(&target(), &v);
    assert!(needs_download(&plan, false));
    assert!(!needs_download(&plan, true));
    assert!(!needs_download(&plan_save(&target(), &release(&[], &[], None, &[])), false));
}

#[test]
fn only_required_edges_are_followed() {
    let v = release(
        &["1.20.1"],
        &["fabric"],
        None,
        &[("api", "required"), ("extra", "optional"), ("bad", "incompatible"), ("inner", "embedded"), ("lib", "required")],
    );
    assert_eq!(required_dependencies(&v), strings(&["api", "lib"]));
    assert!(required_dependencies(&release(&[], &[], None, &[("x", "optional")])).is_empty());
}

#[test]
fn side_support_flags() {
    let server_less = info("x", "required", "unsupported", &[]);
    assert!(!is_supported(&server_less, true));
    assert!(is_supported(&server_less, false));
    let client_less = info("y", "unsupported", "optional", &[]);
    assert!(is_supported(&client_less, true));
    assert!(!is_supported(&client_less, false));
}

#[test]
fn unsupported_primary_stops_at_once() {
    let (mut walk, first) = Resolution::new("x".to_string(), true);
    assert!(matches!(first, ResolveAction::Fetch(ref id) if id == "x"));
    let v = release(&["1.20.1"], &["fabric"], Some(("https://cdn/x", "x.jar")), &[("dep", "required")]);
    let r = walk.resolved(info("x", "required", "unsupported", &["1"]), v.clone());
    assert!(matches!(r, ResolveAction::Finished(false)));
    assert_eq!(walk.phase, Phase::Over);

    let (mut walk, _) = Resolution::new("x".to_string(), false);
    let r = walk.resolved(info("x", "required", "unsupported", &["1"]), v);
    assert!(matches!(r, ResolveAction::Fetch(ref id) if id == "dep"));
}

#[test]
fn dependencies_are_stored_before_their_dependent() {
    let (mut walk, first) = Resolution::new("app".to_string(), false);
    assert!(matches!(first, ResolveAction::Fetch(ref id) if id == "app"));
    let app = release(&["1.20.1"], &["fabric"], Some(("u", "app.jar")), &[("lib", "required"), ("opt", "optional"), ("gone", "required")]);
    let r = walk.resolved(info("app", "required", "required", &["1"]), app);
    assert!(matches!(r, ResolveAction::Fetch(ref id) if id == "lib"));
    let lib = release(&["1.20.1"], &["fabric"], Some(("u", "lib.jar")), &[("core", "required")]);
    let r = walk.resolved(info("lib", "unsupported", "unsupported", &["1"]), lib);
    assert!(matches!(r, ResolveAction::Fetch(ref id) if id == "core"));
    let core = release(&["1.20.1"], &["fabric"], Some(("u", "core.jar")), &[]);
    let r = walk.resolved(info("core", "required", "required", &["1"]), core);
    assert!(matches!(r, ResolveAction::Save(ref i, _) if i.id == "core"));
    let r = walk.saved(true);
    assert!(matches!(r, ResolveAction::Save(ref i, _) if i.id == "lib"));
    let r = walk.saved(false);
    assert!(matches!(r, ResolveAction::Fetch(ref id) if id == "gone"));
    let r = walk.lookup_failed();
    assert!(matches!(r, ResolveAction::Save(ref i, _) if i.id == "app"));
    let r = walk.saved(true);
    assert!(matches!(r, ResolveAction::Finished(true)));
    assert_eq!(walk.phase, Phase::Over);
}

#[test]
fn failed_primary_lookup_ends_walk() {
    let (mut walk, _) = Resolution::new("x".to_string(), false);
    assert!(matches!(walk.lookup_failed(), ResolveAction::Finished(false)));
}

#[test]
fn failed_primary_write_is_reported() {
    let (mut walk, _) = Resolution::new("x".to_string(), false);
    let r = walk.resolved(info("x", "required", "required", &["1"]), release(&[], &[], None, &[]));
    assert!(matches!(r, ResolveAction::Save(_, _)));
    assert!(matches!(walk.saved(false), ResolveAction::Finished(false)));
}

#[test]
fn rate_limit_waits_one_second_past_reset() {
    assert_eq!(request_step(429, Some("3")), RequestStep::Retry(4));
    assert_eq!(request_step(429, Some("0")), RequestStep::Retry(1));
    assert_eq!(request_step(200, None), RequestStep::Deliver);
    assert_eq!(request_step(204, Some("3")), RequestStep::Deliver);
    assert_eq!(request_step(404, None), RequestStep::Reject);
    assert_eq!(request_step(500, None), RequestStep::Reject);
    assert_eq!(request_step(429, None), RequestStep::Reject);
    assert_eq!(request_step(429, Some("soon")), RequestStep::Reject);
    assert_eq!(request_step(429, Some("18446744073709551615")), RequestStep::Reject);
    assert_eq!(request_step(429, Some("18446744073709551614")), RequestStep::Retry(u64::MAX));
}

#[test]
fn reset_header_parsing() {
    assert_eq!(parse_seconds("60"), Some(60));
    assert_eq!(parse_seconds("007"), Some(7));
    assert_eq!(parse_seconds(""), None);
    assert_eq!(parse_seconds("-1"), None);
    assert_eq!(parse_seconds("1.5"), None);
    assert_eq!(parse_seconds("18446744073709551615"), Some(u64::MAX));
    assert_eq!(parse_seconds("18446744073709551616"), None);
}

#[test]
fn twelve_packages_over_five_workers() {
    let mods: Vec<String> = (0..12).map(|i| format!("m{}", i)).collect();
    let parts = partition(&mods, WORKER_COUNT);
    assert_eq!(parts.len(), 5);
    for (w, part) in parts.iter().enumerate() {
        let expected: Vec<String> = (0..12).filter(|i| i % 5 == w).map(|i| format!("m{}", i)).collect();
        assert_eq!(part, &expected);
    }
    let mut all: Vec<String> = parts.concat();
    all.sort();
    let mut sorted = mods.clone();
    sorted.sort();
    assert_eq!(all, sorted);
}

#[test]
fn partition_of_nothing_and_of_few() {
    let parts = partition(&Vec::new(), 5);
    assert_eq!(parts.len(), 5);
    assert!(parts.iter().all(|p| p.is_empty()));
    let parts = partition(&strings(&["a", "b"]), 5);
    assert_eq!(parts[0], strings(&["a"]));
    assert_eq!(parts[1], strings(&["b"]));
    assert!(parts[2].is_empty());
}

#[test]
fn server_flag_is_found_anywhere() {
    assert!(server_requested(&strings(&["installer", "-server"])));
    assert!(server_requested(&strings(&["-server", "x"])));
    assert!(!server_requested(&strings(&["installer", "--server", "server"])));
    assert!(!server_requested(&Vec::new()));
}

#[test]
fn paths_are_joined_with_slash() {
    assert_eq!(join_path("/home/me", "pack"), "/home/me/pack");
    assert_eq!(join_path("", "mods"), "/mods");
}

#[test]
fn manifest_location_from_executable_name() {
    assert_eq!(
        location_from_exe_path("C:\\Users\\me\\Downloads\\https;--example.com-packs-demo.json.exe"),
        "https://example.com/packs/demo.json"
    );
    assert_eq!(location_from_exe_path("installer.exe"), "installer");
    assert_eq!(location_from_exe_path("a.exe.exeb"), "ab");
    assert_eq!(location_from_exe_path("dir\\"), "");
    assert_eq!(location_from_exe_path(""), "");
}

#[test]
fn extra_file_plans() {
    let dir = "/packs/demo".to_string();
    let plain = External { url: "https://x/a.txt".to_string(), file: "a.txt".to_string(), extract: None };
    let p = external_plan(&dir, &plain);
    assert_eq!(p.path, "/packs/demo/a.txt");
    assert!(p.dir.is_none());
    assert!(p.extract_to.is_none());

    let nested = External {
        url: "https://x/r.zip".to_string(),
        file: "resourcepacks/sub/r.zip".to_string(),
        extract: Some("resourcepacks".to_string()),
    };
    let p = external_plan(&dir, &nested);
    assert_eq!(p.path, "/packs/demo/resourcepacks/sub/r.zip");
    assert_eq!(p.dir.as_deref(), Some("/packs/demo/resourcepacks"));
    assert_eq!(p.extract_to.as_deref(), Some("/packs/demo/resourcepacks"));

    let not_zip = External { url: "u".to_string(), file: "r.tar".to_string(), extract: Some("x".to_string()) };
    assert!(external_plan(&dir, &not_zip).extract_to.is_none());
    let zip_kept = External { url: "u".to_string(), file: "r.zip".to_string(), extract: None };
    assert!(external_plan(&dir, &zip_kept).extract_to.is_none());
}

#[test]
fn launcher_profile_of_pack() {
    let pack = ModPackDescriptor {
        name: "Demo".to_string(),
        version: "1.0".to_string(),
        loader: "fabric-loader-0.14.21-1.20.1".to_string(),
        folder: "demo".to_string(),
        target: "1.20.1".to_string(),
        fabric: "0.14.21".to_string(),
        mods: Vec::new(),
        external: Vec::new(),
    };
    let p = launcher_profile(&pack, &"/mc/versions/demo".to_string());
    assert_eq!(p.name, "Demo");
    assert_eq!(p.last_version_id, "fabric-loader-0.14.21-1.20.1");
    assert_eq!(p.game_dir, "/mc/versions/demo");
    assert!(p.icon.starts_with("data:image/png;base64,"));
    assert!(p.java_args.starts_with("-Xmx4G "));
}
