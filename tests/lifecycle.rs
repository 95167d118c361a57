use std::collections::HashSet;

use units::app::{App, AppConfig, SourceEntry};
use units::error::AppError;
use units::manager::{BatchOp, DirEntry, Manager};
use units::paths::join_path;
use units::plan::{Op, Plan, RunState, Runner};
use units::probe::Query;
use units::status::AppStatus;

/// A filesystem and service manager held in memory.
struct World {
    files: HashSet<String>,
    active: bool,
    enabled: bool,
    unremovable: HashSet<String>,
    confirm: bool,
    performed: Vec<String>,
    queries: usize,
}

impl World {
    fn new() -> World {
        World {
            files: HashSet::new(),
            active: false,
            enabled: false,
            unremovable: HashSet::new(),
            confirm: true,
            performed: Vec::new(),
            queries: 0,
        }
    }

    fn perform(&mut self, op: &Op) -> bool {
        match op {
            Op::Absent { path } => !self.files.contains(path),
            Op::Copy { from, to } => {
                self.performed.push(format!("copy {from} {to}"));
                self.files.insert(to.clone());
                true
            }
            Op::Remove { path } => {
                self.performed.push(format!("remove {path}"));
                if self.unremovable.contains(path) {
                    false
                } else {
                    self.files.remove(path)
                }
            }
            Op::Systemctl { args } => {
                let line = args.join(" ");
                self.performed.push(format!("systemctl {line}"));
                if args.iter().any(|a| a == "start") {
                    self.active = true;
                }
                if args.iter().any(|a| a == "stop") {
                    self.active = false;
                }
                true
            }
            Op::Confirm { prompt } => {
                self.performed.push(format!("confirm {prompt}"));
                self.confirm
            }
        }
    }

    fn run(&mut self, plan: Plan) -> Runner {
        let mut runner = Runner::new(plan);
        while let Some(i) = runner.pending() {
            let ok = self.perform(&runner.step(i).op);
            runner.record(ok);
        }
        runner
    }

    fn status(&mut self, app: &App, manifest: &Vec<String>) -> AppStatus {
        let mut probe = app.get_status(manifest);
        while let Some(q) = probe.query() {
            let yes = match q {
                Query::Exists(p) => self.files.contains(&p),
                Query::Service(args) => {
                    self.queries += 1;
                    if args.iter().any(|a| a == "is-active") {
                        self.active
                    } else {
                        self.enabled
                    }
                }
            };
            probe.answer(yes);
        }
        probe.status().unwrap()
    }
}

fn webapp(use_user: bool) -> App {
    let config = AppConfig { install_location: String::from("/tmp/units"), use_user };
    App::new("webapp", &String::from("/srv/fleet"), config)
}

fn manifest(names: &[&str]) -> Vec<String> {
    names.iter().map(|n| n.to_string()).collect()
}

#[test]
fn join_path_inserts_one_separator() {
    let rel = String::from("a.service");
    assert_eq!(join_path(&String::from("/tmp/units"), &rel), "/tmp/units/a.service");
    assert_eq!(join_path(&String::from("/tmp/units/"), &rel), "/tmp/units/a.service");
    assert_eq!(join_path(&String::new(), &rel), "a.service");
}

#[test]
fn new_app_roots_source_under_fleet() {
    let app = webapp(false);
    assert_eq!(app.name, "webapp");
    assert_eq!(app.app_dir, "/srv/fleet/webapp");
    assert_eq!(app.systemd_dir, "/tmp/units");
    assert_eq!(app.service_name(), "webapp.service");
    assert_eq!(app.source_path(&String::from("x.timer")), "/srv/fleet/webapp/x.timer");
    assert_eq!(app.target_path(&String::from("x.timer")), "/tmp/units/x.timer");
}

#[test]
fn manifest_skips_directories_and_config() {
    let entries = vec![
        SourceEntry { rel: String::from("config.toml"), is_dir: false },
        SourceEntry { rel: String::from("webapp.service"), is_dir: false },
        SourceEntry { rel: String::from("drop"), is_dir: true },
        SourceEntry { rel: String::from("drop/override.conf"), is_dir: false },
        SourceEntry { rel: String::from("drop/config.toml"), is_dir: false },
    ];
    assert_eq!(
        App::get_app_files(&entries),
        manifest(&["webapp.service", "drop/override.conf", "drop/config.toml"])
    );
    assert!(App::get_app_files(&Vec::new()).is_empty());
}

#[test]
fn systemctl_args_scoped_per_user() {
    let args = vec![String::from("daemon-reload")];
    assert_eq!(webapp(true).prepare_systemctl_args(args.clone()), vec!["--user", "daemon-reload"]);
    assert_eq!(webapp(false).prepare_systemctl_args(args), vec!["daemon-reload"]);
}

#[test]
fn status_labels() {
    assert_eq!(AppStatus::NotInstalled.label(), "Not Installed");
    assert_eq!(AppStatus::Installed.label(), "Installed");
    assert_eq!(AppStatus::Stopped.label(), "Stopped");
    assert_eq!(AppStatus::Running.label(), "Running");
}

#[test]
fn status_decision_table() {
    assert_eq!(AppStatus::from_observations(false, true, true), AppStatus::NotInstalled);
    assert_eq!(AppStatus::from_observations(true, true, false), AppStatus::Running);
    assert_eq!(AppStatus::from_observations(true, false, true), AppStatus::Stopped);
    assert_eq!(AppStatus::from_observations(true, false, false), AppStatus::Installed);
}

#[test]
fn absent_files_not_installed_without_service_query() {
    let app = webapp(false);
    let m = manifest(&["webapp.service", "webapp.timer"]);
    let mut world = World::new();
    world.active = true;
    world.enabled = true;
    assert_eq!(world.status(&app, &m), AppStatus::NotInstalled);
    assert_eq!(world.queries, 0);
}

#[test]
fn partly_installed_is_not_installed() {
    let app = webapp(false);
    let m = manifest(&["webapp.service", "webapp.timer"]);
    let mut world = World::new();
    world.files.insert(String::from("/tmp/units/webapp.service"));
    world.active = true;
    assert_eq!(world.status(&app, &m), AppStatus::NotInstalled);
}

#[test]
fn active_takes_precedence_over_enabled() {
    let app = webapp(false);
    let m = manifest(&["webapp.service"]);
    let mut world = World::new();
    world.files.insert(String::from("/tmp/units/webapp.service"));
    world.active = true;
    world.enabled = false;
    assert_eq!(world.status(&app, &m), AppStatus::Running);
    assert_eq!(world.queries, 1);
}

#[test]
fn enabled_inactive_is_stopped_else_installed() {
    let app = webapp(true);
    let m = manifest(&["webapp.service"]);
    let mut world = World::new();
    world.files.insert(String::from("/tmp/units/webapp.service"));
    world.enabled = true;
    assert_eq!(world.status(&app, &m), AppStatus::Stopped);
    world.enabled = false;
    assert_eq!(world.status(&app, &m), AppStatus::Installed);
}

#[test]
fn empty_manifest_status_goes_to_service_queries() {
    let app = webapp(false);
    let mut world = World::new();
    assert_eq!(world.status(&app, &Vec::new()), AppStatus::Installed);
    assert_eq!(world.queries, 2);
}

#[test]
fn probe_query_arguments() {
    let app = webapp(true);
    let probe = app.get_status(&Vec::new());
    match probe.query() {
        Some(Query::Service(args)) => {
            assert_eq!(args, vec!["--user", "is-active", "--quiet", "webapp.service"])
        }
        _ => panic!("expected a service query"),
    }
}

#[test]
fn empty_manifest_install_and_uninstall_refused() {
    let app = webapp(false);
    for dry_run in [false, true] {
        for force in [false, true] {
            match app.install(&Vec::new(), dry_run, force) {
                Err(AppError::EmptyManifest { app }) => assert_eq!(app, "webapp"),
                _ => panic!("expected an empty-manifest error"),
            }
            assert!(matches!(
                app.uninstall(&Vec::new(), dry_run, force),
                Err(AppError::EmptyManifest { .. })
            ));
        }
    }
}

#[test]
fn dry_run_performs_nothing() {
    let app = webapp(false);
    let m = manifest(&["webapp.service"]);
    let mut world = World::new();
    world.files.insert(String::from("/tmp/units/webapp.service"));
    let plan = app.install(&m, true, false).ok().unwrap();
    assert!(plan.dry_run);
    assert_eq!(plan.steps.len(), 4);
    let runner = world.run(plan);
    assert_eq!(runner.state, RunState::Done);
    assert!(world.performed.is_empty());
    let plan = app.uninstall(&m, true, false).ok().unwrap();
    world.run(plan);
    assert!(world.performed.is_empty());
    assert!(world.files.contains("/tmp/units/webapp.service"));
}

#[test]
fn collision_on_last_entry_copies_nothing() {
    let app = webapp(false);
    let m = manifest(&["a.service", "b.service", "webapp.service"]);
    let mut world = World::new();
    world.files.insert(String::from("/tmp/units/webapp.service"));
    let runner = world.run(app.install(&m, false, false).ok().unwrap());
    assert_eq!(runner.state, RunState::Failed(2));
    match runner.error() {
        Some(AppError::Collision { path }) => assert_eq!(path, "/tmp/units/webapp.service"),
        _ => panic!("expected a collision"),
    }
    assert!(world.performed.is_empty());
    assert_eq!(world.files.len(), 1);
}

#[test]
fn forced_install_overwrites_and_starts() {
    let app = webapp(false);
    let m = manifest(&["webapp.service"]);
    let mut world = World::new();
    world.files.insert(String::from("/tmp/units/webapp.service"));
    let runner = world.run(app.install(&m, false, true).ok().unwrap());
    assert_eq!(runner.state, RunState::Done);
    assert!(runner.error().is_none());
    assert_eq!(
        world.performed,
        vec![
            "copy /srv/fleet/webapp/webapp.service /tmp/units/webapp.service",
            "systemctl daemon-reload",
            "systemctl start webapp.service",
        ]
    );
    assert!(world.active);
}

#[test]
fn failed_start_is_service_command_error() {
    let app = webapp(true);
    let m = manifest(&["webapp.service"]);
    let mut runner = Runner::new(app.install(&m, false, true).ok().unwrap());
    runner.record(true);
    runner.record(true);
    runner.record(false);
    match runner.error() {
        Some(AppError::ServiceCommand { command }) => assert_eq!(command, "webapp.service"),
        _ => panic!("expected a service command error"),
    }
}

#[test]
fn failed_copy_is_copy_error() {
    let app = webapp(false);
    let m = manifest(&["webapp.service"]);
    let mut runner = Runner::new(app.install(&m, false, false).ok().unwrap());
    runner.record(true);
    runner.record(false);
    match runner.error() {
        Some(AppError::Copy { from, to }) => {
            assert_eq!(from, "/srv/fleet/webapp/webapp.service");
            assert_eq!(to, "/tmp/units/webapp.service");
        }
        _ => panic!("expected a copy error"),
    }
}

#[test]
fn refused_confirmation_changes_nothing() {
    let app = webapp(false);
    let m = manifest(&["webapp.service"]);
    let mut world = World::new();
    world.files.insert(String::from("/tmp/units/webapp.service"));
    world.active = true;
    world.confirm = false;
    let runner = world.run(app.uninstall(&m, false, false).ok().unwrap());
    assert_eq!(runner.state, RunState::Cancelled);
    assert!(runner.error().is_none());
    assert_eq!(world.performed, vec!["confirm Are you sure you want to uninstall webapp?"]);
    assert!(world.files.contains("/tmp/units/webapp.service"));
    assert!(world.active);
}

#[test]
fn uninstall_removes_past_failures_and_reloads() {
    let app = webapp(false);
    let m = manifest(&["a.service", "b.service", "c.service"]);
    let mut world = World::new();
    for t in ["/tmp/units/a.service", "/tmp/units/b.service", "/tmp/units/c.service"] {
        world.files.insert(String::from(t));
    }
    world.unremovable.insert(String::from("/tmp/units/a.service"));
    let runner = world.run(app.uninstall(&m, false, true).ok().unwrap());
    assert_eq!(runner.state, RunState::Done);
    assert_eq!(
        world.performed,
        vec![
            "systemctl stop webapp.service",
            "remove /tmp/units/a.service",
            "remove /tmp/units/b.service",
            "remove /tmp/units/c.service",
            "systemctl daemon-reload",
        ]
    );
    assert_eq!(world.files.len(), 1);
}

#[test]
fn failed_final_reload_is_an_error() {
    let app = webapp(false);
    let m = manifest(&["webapp.service"]);
    let mut runner = Runner::new(app.uninstall(&m, false, true).ok().unwrap());
    runner.record(false);
    runner.record(false);
    assert_eq!(runner.pending(), Some(2));
    runner.record(false);
    assert!(matches!(runner.error(), Some(AppError::ServiceCommand { .. })));
}

#[test]
fn fleet_install_then_uninstall_end_to_end() {
    let root = String::from("/srv/fleet");
    let listing = vec![DirEntry { name: String::from("webapp"), is_dir: true }];
    let manager = Manager::new(false, false, root.clone(), 0).ok().unwrap();
    let batch = manager.status(Some(String::from("webapp")), &Vec::new());
    assert_eq!(batch.names, vec!["webapp"]);
    let config = AppConfig { install_location: String::from("/tmp/units"), use_user: false };
    let app = App::new(&batch.names[0], &root, config);
    let walk = vec![
        SourceEntry { rel: String::from("config.toml"), is_dir: false },
        SourceEntry { rel: String::from("webapp.service"), is_dir: false },
    ];
    let m = App::get_app_files(&walk);
    let mut world = World::new();
    assert_eq!(world.status(&app, &m), AppStatus::NotInstalled);

    let batch = manager.install_apps(None, &listing);
    assert_eq!(batch.op, BatchOp::Install);
    assert_eq!(batch.names, vec!["webapp"]);
    let runner = world.run(app.install(&m, batch.dry_run, batch.force).ok().unwrap());
    assert_eq!(runner.state, RunState::Done);
    assert_eq!(world.status(&app, &m), AppStatus::Running);

    let forced = Manager::new(true, false, root, 0).ok().unwrap();
    let batch = forced.uninstall_apps(Some(String::from("webapp")), &Vec::new());
    let runner = world.run(app.uninstall(&m, batch.dry_run, batch.force).ok().unwrap());
    assert_eq!(runner.state, RunState::Done);
    assert_eq!(world.status(&app, &m), AppStatus::NotInstalled);
}

#[test]
fn manager_requires_root() {
    assert!(matches!(
        Manager::new(false, false, String::from("/srv"), 1000),
        Err(AppError::Privilege)
    ));
    let m = Manager::new(true, true, String::from("/srv"), 0).ok().unwrap();
    assert!(m.force && m.dry_run);
    assert_eq!(m.repo_dir, "/srv");
}

#[test]
fn discovery_keeps_visible_directories_in_order() {
    let entries = vec![
        DirEntry { name: String::from("web"), is_dir: true },
        DirEntry { name: String::from(".git"), is_dir: true },
        DirEntry { name: String::from("README"), is_dir: false },
        DirEntry { name: String::from("db"), is_dir: true },
    ];
    assert_eq!(Manager::discover_apps(&entries), vec!["web", "db"]);
    let manager = Manager::new(false, true, String::from("/srv"), 0).ok().unwrap();
    let batch = manager.uninstall_apps(None, &entries);
    assert_eq!(batch.names, vec!["web", "db"]);
    assert!(batch.dry_run && !batch.force);
    assert!(!batch.nothing_found());
    assert!(manager.status(None, &Vec::new()).nothing_found());
    assert!(!manager.status(Some(String::from("x")), &Vec::new()).nothing_found());
}

#[test]
fn batch_stops_at_first_failure() {
    let entries = vec![
        DirEntry { name: String::from("a"), is_dir: true },
        DirEntry { name: String::from("b"), is_dir: true },
        DirEntry { name: String::from("c"), is_dir: true },
    ];
    let manager = Manager::new(false, false, String::from("/srv"), 0).ok().unwrap();
    let mut batch = manager.install_apps(None, &entries);
    assert_eq!(batch.next_app(), None);
    while let Some(i) = batch.next_load() {
        assert_eq!(i, batch.loaded);
        batch.record_load(true);
    }
    assert_eq!(batch.loaded, 3);
    assert_eq!(batch.next_app(), Some(0));
    batch.record(true);
    assert_eq!(batch.next_app(), Some(1));
    batch.record(false);
    assert_eq!(batch.next_app(), None);
    assert!(batch.failed);
}

#[test]
fn logs_arguments_and_outcome() {
    let app = webapp(false);
    assert_eq!(app.logs(), vec!["-u", "webapp.service", "-f"]);
    assert!(app.logs_outcome(true).is_ok());
    match app.logs_outcome(false) {
        Err(AppError::Logs { app }) => assert_eq!(app, "webapp"),
        _ => panic!("expected a logs error"),
    }
    let manager = Manager::new(false, false, String::from("/srv"), 0).ok().unwrap();
    let batch = manager.show_logs(String::from("webapp"));
    assert_eq!(batch.op, BatchOp::Logs);
    assert_eq!(batch.names, vec!["webapp"]);
}

#[test]
fn failed_load_operates_on_nothing() {
    let entries = vec![
        DirEntry { name: String::from("a"), is_dir: true },
        DirEntry { name: String::from("b"), is_dir: true },
    ];
    let manager = Manager::new(false, false, String::from("/srv"), 0).ok().unwrap();
    let mut batch = manager.uninstall_apps(None, &entries);
    assert_eq!(batch.next_load(), Some(0));
    batch.record_load(true);
    assert_eq!(batch.next_load(), Some(1));
    batch.record_load(false);
    assert!(batch.failed);
    assert_eq!(batch.next_load(), None);
    assert_eq!(batch.next_app(), None);
    assert_eq!(batch.pos, 0);
}

#[test]
fn per_user_logs_are_scoped() {
    let app = webapp(true);
    assert_eq!(app.logs(), vec!["--user", "-u", "webapp.service", "-f"]);
}
