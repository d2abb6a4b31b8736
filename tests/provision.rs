use laravel_extension::provision::{
    entry_path, server_arguments, Effect, Event, InstallationStatus, Provisioner, Step,
    FAILURE_PREFIX, PACKAGE_NAME, PACKAGE_VERSION,
};

const ENTRY: &str = "node_modules/laravel-language-server/dist/server.js";

struct World {
    existing: Vec<String>,
    install: Result<(), String>,
    installs: Vec<(String, String)>,
}

impl World {
    fn new(existing: &[&str], install: Result<(), String>) -> World {
        World {
            existing: existing.iter().map(|s| s.to_string()).collect(),
            install,
            installs: Vec::new(),
        }
    }
}

/// Runs one whole resolution, answering each request from the world.
fn resolve(p: &mut Provisioner, world: &mut World) -> (Result<String, String>, Vec<InstallationStatus>) {
    let mut statuses = Vec::new();
    let mut event = Event::Start;
    loop {
        assert!(p.accepts(&event));
        let Step { status, effect } = p.step(event);
        if let Some(s) = status {
            statuses.push(s);
        }
        event = match effect {
            Effect::CheckPath(path) => Event::PathChecked(world.existing.contains(&path)),
            Effect::Install { package, version } => {
                world.installs.push((package, version));
                Event::InstallFinished(world.install.clone())
            }
            Effect::Finish(r) => return (r.map_err(|e| e.message), statuses),
        };
    }
}

#[test]
fn entry_path_follows_the_install_layout() {
    assert_eq!(entry_path(), ENTRY);
}

#[test]
fn server_is_started_with_stdio_flag() {
    let args = server_arguments("a/server.js".to_string());
    assert_eq!(args, vec!["a/server.js".to_string(), "--stdio".to_string()]);
}

#[test]
fn warm_cache_skips_installer_and_status() {
    let mut p = Provisioner::new();
    let mut world = World::new(&[ENTRY], Ok(()));
    let (r, _) = resolve(&mut p, &mut world);
    assert_eq!(r, Ok(ENTRY.to_string()));
    let (r, statuses) = resolve(&mut p, &mut world);
    assert_eq!(r, Ok(ENTRY.to_string()));
    assert!(statuses.is_empty());
    assert!(world.installs.is_empty());
}

#[test]
fn existing_entry_is_found_without_installing() {
    let mut p = Provisioner::new();
    let mut world = World::new(&[ENTRY], Err("never".to_string()));
    let (r, statuses) = resolve(&mut p, &mut world);
    assert_eq!(r, Ok(ENTRY.to_string()));
    assert!(world.installs.is_empty());
    assert_eq!(statuses.len(), 2);
    assert!(matches!(statuses[0], InstallationStatus::CheckingForUpdate));
    assert!(matches!(statuses[1], InstallationStatus::Idle));
}

#[test]
fn successful_install_returns_entry_and_warms_cache() {
    let mut p = Provisioner::new();
    let mut world = World::new(&[], Ok(()));
    let (r, statuses) = resolve(&mut p, &mut world);
    assert_eq!(r, Ok(ENTRY.to_string()));
    assert_eq!(world.installs, vec![(PACKAGE_NAME.to_string(), PACKAGE_VERSION.to_string())]);
    assert_eq!(world.installs[0].1, "latest");
    assert_eq!(statuses.len(), 3);
    assert!(matches!(statuses[0], InstallationStatus::CheckingForUpdate));
    assert!(matches!(statuses[1], InstallationStatus::Downloading));
    assert!(matches!(statuses[2], InstallationStatus::Idle));
    // The installer put the script on disk: the next call takes the cache.
    world.existing.push(ENTRY.to_string());
    let (r, statuses) = resolve(&mut p, &mut world);
    assert_eq!(r, Ok(ENTRY.to_string()));
    assert!(statuses.is_empty());
    assert_eq!(world.installs.len(), 1);
}

#[test]
fn failed_install_reports_error_and_retries_next_time() {
    let mut p = Provisioner::new();
    let mut world = World::new(&[], Err("network unreachable".to_string()));
    let (r, statuses) = resolve(&mut p, &mut world);
    assert_eq!(r, Err("network unreachable".to_string()));
    match statuses.last() {
        Some(InstallationStatus::Failed(m)) => {
            assert!(m.contains("network unreachable"));
            assert_eq!(
                m,
                "Failed to install Laravel Language Server: network unreachable"
            );
            assert!(m.starts_with(FAILURE_PREFIX));
        }
        other => panic!("unexpected status {:?}", other),
    }
    let (r, _) = resolve(&mut p, &mut world);
    assert_eq!(r, Err("network unreachable".to_string()));
    assert_eq!(world.installs.len(), 2);
    world.install = Ok(());
    let (r, _) = resolve(&mut p, &mut world);
    assert_eq!(r, Ok(ENTRY.to_string()));
    assert_eq!(world.installs.len(), 3);
}

#[test]
fn stale_cache_falls_back_to_lookup() {
    let mut p = Provisioner::new();
    let mut world = World::new(&[ENTRY], Ok(()));
    let (r, _) = resolve(&mut p, &mut world);
    assert_eq!(r, Ok(ENTRY.to_string()));
    world.existing.clear();
    let (r, statuses) = resolve(&mut p, &mut world);
    assert_eq!(r, Ok(ENTRY.to_string()));
    assert_eq!(world.installs.len(), 1);
    assert!(matches!(statuses[0], InstallationStatus::CheckingForUpdate));
}

#[test]
fn step_refuses_out_of_order_events() {
    let mut p = Provisioner::new();
    assert!(!p.accepts(&Event::PathChecked(true)));
    assert!(!p.accepts(&Event::InstallFinished(Ok(()))));
    assert!(p.accepts(&Event::Start));
    let step = p.step(Event::Start);
    assert!(matches!(step.effect, Effect::CheckPath(ref s) if s == ENTRY));
    assert!(!p.accepts(&Event::Start));
    assert!(p.accepts(&Event::PathChecked(false)));
}
