use floki::config::{load, Config, ImageSource, Passthrough};
use floki::dind::{decide, Augmentation, Decision, DindMode, DindPolicy, SOCKET_PATH};
use floki::environment::ProjectEnvironment;
use floki::errors::{LaunchError, Rule, Stage, SyntaxFault, FAILURE_STATUS};
use floki::launch::{
    assemble, build_command, chain_startup, command_in_shell, forward, plan, plan_from_text, value_of, wanted_by,
    working_dir,
    LaunchCommand, Variable,
};
use floki::text::holds;
use floki::volumes::{host_paths, resolve_volumes, target_of, Access, VolumeDecl, VolumeMount, MOUNT_POINT};

fn decl(host: &str, container: Option<&str>) -> VolumeDecl {
    VolumeDecl {
        host: host.to_string(),
        container: container.map(|c| c.to_string()),
        read_only: false,
        switch: false,
        create: false,
    }
}

fn mount(host: &str, container: &str) -> VolumeMount {
    VolumeMount { host: host.to_string(), container: container.to_string(), access: Access::ReadWrite, switch: false }
}

fn strings(words: &[&str]) -> Vec<String> {
    words.iter().map(|w| w.to_string()).collect()
}

fn variable(name: &str, value: &str) -> Variable {
    Variable { name: name.to_string(), value: value.to_string() }
}

fn environment(cwd: &str) -> ProjectEnvironment {
    ProjectEnvironment {
        config_file: "/home/me/project/floki.conf".to_string(),
        project_root: "/home/me/project".to_string(),
        working_dir: cwd.to_string(),
    }
}

fn plain(image: &str) -> Config {
    Config {
        image: ImageSource::Pull { reference: image.to_string() },
        volumes: vec![],
        shell: "sh".to_string(),
        dind: None,
        environment: vec![],
        entrypoint: None,
    }
}

#[test]
fn a_declaration_targets_its_container_path_or_the_mount_point() {
    assert_eq!(target_of(&decl(".", Some("/work"))), "/work");
    assert_eq!(target_of(&decl(".", None)), "/src");
    assert_eq!(MOUNT_POINT, "/src");
}

#[test]
fn holds_looks_for_the_exact_text() {
    let list = strings(&["/a", "/b/c"]);
    assert!(holds(&list, "/a"));
    assert!(holds(&list, "/b/c"));
    assert!(!holds(&list, "/b"));
    assert!(!holds(&vec![], "/a"));
}

#[test]
fn volumes_resolve_in_declaration_order() {
    let mut cache = decl("/var/cache", Some("/cache"));
    cache.read_only = true;
    let decls = vec![decl(".", Some("/work")), cache, decl("data", None)];
    let files = strings(&["/p", "/var/cache", "/p/data"]);
    assert_eq!(
        resolve_volumes(&decls, "/p", &files),
        Ok(vec![
            mount("/p", "/work"),
            VolumeMount {
                host: "/var/cache".to_string(),
                container: "/cache".to_string(),
                access: Access::ReadOnly,
                switch: false,
            },
            mount("/p/data", "/src"),
        ])
    );
    assert_eq!(resolve_volumes(&vec![], "/p", &vec![]), Ok(vec![]));
}

#[test]
fn two_volumes_at_one_path_without_switch_conflict() {
    let decls = vec![decl("a", Some("/data")), decl("b", Some("/data"))];
    let files = strings(&["/p/a", "/p/b"]);
    assert_eq!(
        resolve_volumes(&decls, "/p", &files),
        Err(LaunchError::VolumeConflict { paths: strings(&["/data"]) })
    );
    // the conflict is reported whether or not the host paths exist
    assert_eq!(
        resolve_volumes(&decls, "/p", &vec![]),
        Err(LaunchError::VolumeConflict { paths: strings(&["/data"]) })
    );
}

#[test]
fn a_later_volume_with_switch_wins() {
    let mut b = decl("b", Some("/data"));
    b.switch = true;
    let decls = vec![decl("a", Some("/data")), b, decl("c", Some("/other"))];
    let files = strings(&["/p/b", "/p/c"]);
    assert_eq!(
        resolve_volumes(&decls, "/p", &files),
        Ok(vec![
            VolumeMount {
                host: "/p/b".to_string(),
                container: "/data".to_string(),
                access: Access::ReadWrite,
                switch: true,
            },
            mount("/p/c", "/other"),
        ])
    );
}

#[test]
fn an_earlier_switch_does_not_excuse_a_later_volume() {
    let mut a = decl("a", Some("/data"));
    a.switch = true;
    let decls = vec![a, decl("b", Some("/data"))];
    assert_eq!(
        resolve_volumes(&decls, "/p", &strings(&["/p/a", "/p/b"])),
        Err(LaunchError::VolumeConflict { paths: strings(&["/data"]) })
    );
}

#[test]
fn every_colliding_path_is_listed_once() {
    let decls = vec![
        decl("a", Some("/x")),
        decl("b", Some("/y")),
        decl("c", Some("/y")),
        decl("d", Some("/x")),
        decl("e", Some("/x")),
        decl("f", None),
        decl("g", Some("/src")),
    ];
    assert_eq!(
        resolve_volumes(&decls, "/p", &vec![]),
        Err(LaunchError::VolumeConflict { paths: strings(&["/y", "/x", "/src"]) })
    );
}

#[test]
fn a_missing_host_path_is_reported_unless_it_is_to_be_created() {
    let decls = vec![decl("a", Some("/a")), decl("b", Some("/b")), decl("c", Some("/c"))];
    assert_eq!(
        resolve_volumes(&decls, "/p", &strings(&["/p/a"])),
        Err(LaunchError::VolumeHostPathMissing { path: "/p/b".to_string() })
    );
    let mut b = decl("b", Some("/b"));
    b.create = true;
    let decls = vec![decl("a", Some("/a")), b];
    assert_eq!(
        resolve_volumes(&decls, "/p", &strings(&["/p/a"])),
        Ok(vec![mount("/p/a", "/a"), mount("/p/b", "/b")])
    );
}

#[test]
fn an_overridden_volume_needs_no_host_path() {
    let mut b = decl("b", Some("/data"));
    b.switch = true;
    let decls = vec![decl("gone", Some("/data")), b];
    let r = resolve_volumes(&decls, "/p", &strings(&["/p/b"])).unwrap();
    assert_eq!(r.len(), 1);
    assert_eq!(r[0].host, "/p/b");
}

#[test]
fn the_policy_decides_by_mode_and_socket() {
    let nothing = Ok(Decision { augmentation: Augmentation::Nothing, warning: false });
    assert_eq!(decide(None, Some("/var/run/docker.sock")), nothing);
    assert_eq!(decide(None, None), nothing);
    let off = DindPolicy { enabled: false, mode: DindMode::Sibling, fallback: false };
    assert_eq!(decide(Some(off), None), nothing);
    assert_eq!(decide(Some(off), Some("/run/docker.sock")), nothing);

    let nested = DindPolicy { enabled: true, mode: DindMode::Nested, fallback: false };
    let runs_own = Ok(Decision { augmentation: Augmentation::Nested, warning: false });
    assert_eq!(decide(Some(nested), None), runs_own);
    assert_eq!(decide(Some(nested), Some("/run/docker.sock")), runs_own);

    let sibling = DindPolicy { enabled: true, mode: DindMode::Sibling, fallback: false };
    assert_eq!(
        decide(Some(sibling), Some("/run/user/1000/docker.sock")),
        Ok(Decision {
            augmentation: Augmentation::Sibling {
                socket: VolumeMount {
                    host: "/run/user/1000/docker.sock".to_string(),
                    container: "/var/run/docker.sock".to_string(),
                    access: Access::ReadWrite,
                    switch: false,
                },
            },
            warning: false,
        })
    );
    assert_eq!(SOCKET_PATH, "/var/run/docker.sock");
    assert_eq!(decide(Some(sibling), None), Err(LaunchError::DindSocketUnavailable));

    let lenient = DindPolicy { enabled: true, mode: DindMode::Sibling, fallback: true };
    assert_eq!(decide(Some(lenient), None), Ok(Decision { augmentation: Augmentation::Nothing, warning: true }));
    assert!(matches!(
        decide(Some(lenient), Some("/s")),
        Ok(Decision { augmentation: Augmentation::Sibling { .. }, warning: false })
    ));
}

#[test]
fn the_calling_environment_is_looked_up_by_name() {
    let calling = vec![variable("HOME", "/home/me"), variable("TERM", "xterm"), variable("HOME", "/other")];
    assert_eq!(value_of(&calling, "HOME"), Some("/home/me"));
    assert_eq!(value_of(&calling, "TERM"), Some("xterm"));
    assert_eq!(value_of(&calling, "LANG"), None);
    assert_eq!(value_of(&calling, "home"), None);
}

#[test]
fn the_allow_list_comes_before_the_configured_passthroughs() {
    let mut c = plain("a");
    c.environment = vec![Passthrough { name: "HOME".to_string(), optional: false }];
    assert_eq!(
        wanted_by(&c),
        vec![
            Passthrough { name: "TERM".to_string(), optional: true },
            Passthrough { name: "LANG".to_string(), optional: true },
            Passthrough { name: "HOME".to_string(), optional: false },
        ]
    );
}

#[test]
fn variables_are_forwarded_with_their_values() {
    let wanted = vec![
        Passthrough { name: "TERM".to_string(), optional: true },
        Passthrough { name: "LANG".to_string(), optional: true },
        Passthrough { name: "HOME".to_string(), optional: false },
        Passthrough { name: "EDITOR".to_string(), optional: true },
    ];
    let calling = vec![variable("HOME", "/home/me"), variable("PATH", "/bin"), variable("TERM", "xterm")];
    assert_eq!(forward(&wanted, &calling), Ok(vec![variable("TERM", "xterm"), variable("HOME", "/home/me")]));
    assert_eq!(forward(&vec![], &calling), Ok(vec![]));
}

#[test]
fn a_required_variable_that_is_not_set_fails_resolution() {
    let wanted = vec![
        Passthrough { name: "A".to_string(), optional: true },
        Passthrough { name: "B".to_string(), optional: false },
        Passthrough { name: "C".to_string(), optional: false },
    ];
    assert_eq!(
        forward(&wanted, &vec![variable("X", "1")]),
        Err(LaunchError::UnresolvedVariable { name: "B".to_string() })
    );
    assert_eq!(
        forward(&wanted, &vec![variable("B", "1")]),
        Err(LaunchError::UnresolvedVariable { name: "C".to_string() })
    );

    let mut c = plain("a");
    c.environment = vec![Passthrough { name: "TOKEN".to_string(), optional: false }];
    let r = plan(&environment("/home/me/project"), &c, &vec![], None, &vec![variable("TERM", "x")], &vec![], None);
    assert_eq!(r, Err(LaunchError::UnresolvedVariable { name: "TOKEN".to_string() }));
    let e = r.unwrap_err();
    assert_eq!(e.stage(), Stage::Resolution);
    assert_eq!(e.exit_status(), FAILURE_STATUS);
    assert_eq!(e.exit_status(), 125);
    assert_ne!(e.exit_status(), 0);
}

#[test]
fn commands_are_wrapped_for_the_shell() {
    assert_eq!(command_in_shell("bash", &strings(&["make", "test"])), "bash -c 'make test'");
    assert_eq!(command_in_shell("sh", &strings(&["echo", "it's"])), "sh -c 'echo it'\\''s'");
    assert_eq!(command_in_shell("sh", &strings(&["ls"])), "sh -c 'ls'");
}

#[test]
fn a_startup_script_is_chained_before_the_command() {
    assert_eq!(chain_startup("  source ~/.env\n", "bash"), "source ~/.env && bash");
    assert_eq!(chain_startup("a", "b -c 'c'"), "a && b -c 'c'");
    assert_eq!(chain_startup("", "bash"), " && bash");
}

#[test]
fn the_command_is_the_shell_alone_or_with_a_command_line() {
    assert_eq!(build_command("bash", &vec![], None), LaunchCommand { shell: "bash".to_string(), inner: None });
    assert_eq!(
        build_command("bash", &strings(&["make"]), None),
        LaunchCommand { shell: "bash".to_string(), inner: Some("bash -c 'make'".to_string()) }
    );
    assert_eq!(
        build_command("bash", &vec![], Some("setup\n")),
        LaunchCommand { shell: "bash".to_string(), inner: Some("setup && bash".to_string()) }
    );
    assert_eq!(
        build_command("bash", &strings(&["make", "all"]), Some("setup")),
        LaunchCommand { shell: "bash".to_string(), inner: Some("setup && bash -c 'make all'".to_string()) }
    );
}

#[test]
fn the_working_directory_is_where_the_project_root_is_mounted() {
    let mounts = vec![mount("/var/cache", "/cache"), mount("/p", "/work"), mount("/p", "/again")];
    assert_eq!(working_dir(&mounts, "/p"), "/work");
    assert_eq!(working_dir(&mounts, "/q"), "/src");
    assert_eq!(working_dir(&vec![], "/p"), "/src");
}

#[test]
fn without_volumes_there_are_no_mounts_and_the_conventional_working_directory() {
    for text in ["image = debian\n", "build = .\nshell = zsh\ndind = true\ndind_mode = nested\n", "image = a\n[env]\nname = TERM\n"] {
        let config = load(text, true).unwrap();
        let p = plan(
            &environment("/home/me/project/sub"),
            &config,
            &strings(&["ls"]),
            None,
            &vec![variable("TERM", "xterm")],
            &vec![],
            None,
        )
        .unwrap();
        assert_eq!(p.spec.mounts, vec![]);
        assert_eq!(p.spec.working_dir, "/src");
    }
}

#[test]
fn the_callers_working_directory_does_not_change_the_plan() {
    let config = load("image = debian\n[volume]\nhost = data\ncontainer = /data\n[volume]\nhost = .\ncontainer = /work\n", false).unwrap();
    let files = strings(&["/home/me/project", "/home/me/project/data"]);
    let calling = vec![variable("LANG", "C")];
    let a = plan(&environment("/home/me/project"), &config, &vec![], None, &calling, &files, None).unwrap();
    let b = plan(&environment("/home/me/project/deep/down"), &config, &vec![], None, &calling, &files, None).unwrap();
    assert_eq!(a, b);
    assert_eq!(a.spec.mounts[0].host, "/home/me/project/data");
    assert_eq!(a.spec.mounts[1].host, "/home/me/project");
}

#[test]
fn scenario_interactive_shell_with_one_volume() {
    let text = "image = debian:bullseye\nshell = bash\n\n[volume]\nhost = .\ncontainer = /work\n";
    let config = load(text, true).unwrap();
    let env = environment("/home/me/project");
    let files = strings(&["/home/me/project"]);
    let p = plan(&env, &config, &vec![], None, &vec![], &files, None).unwrap();
    assert!(!p.warning);
    assert_eq!(p.spec.image, ImageSource::Pull { reference: "debian:bullseye".to_string() });
    assert_eq!(p.spec.command, LaunchCommand { shell: "bash".to_string(), inner: None });
    assert!(p.spec.interactive);
    assert_eq!(p.spec.working_dir, "/work");
    assert_eq!(p.spec.mounts, vec![mount("/home/me/project", "/work")]);
    assert_eq!(p.spec.mounts.len(), 1);
    assert_eq!(p.spec.mounts[0].access, Access::ReadWrite);
    assert_eq!(p.spec.augmentation, Augmentation::Nothing);
    assert_eq!(p.spec.environment, vec![]);
    assert_eq!(p.spec.entrypoint, None);
}

#[test]
fn scenario_sibling_mode_adds_the_socket_mount() {
    let text = "image = debian:bullseye\ndind = true\ndind_mode = sibling\n[volume]\nhost = .\ncontainer = /work\n";
    let config = load(text, true).unwrap();
    let env = environment("/home/me/project");
    let files = strings(&["/home/me/project"]);
    let p = plan(&env, &config, &vec![], None, &vec![], &files, Some("/var/run/docker.sock")).unwrap();
    assert!(!p.warning);
    assert_eq!(p.spec.mounts, vec![mount("/home/me/project", "/work")]);
    assert_eq!(
        p.spec.augmentation,
        Augmentation::Sibling {
            socket: VolumeMount {
                host: "/var/run/docker.sock".to_string(),
                container: "/var/run/docker.sock".to_string(),
                access: Access::ReadWrite,
                switch: false,
            },
        }
    );
    let without = plan(&env, &config, &vec![], None, &vec![], &files, None);
    assert_eq!(without, Err(LaunchError::DindSocketUnavailable));
    assert_eq!(without.unwrap_err().stage(), Stage::DindPolicy);
}

#[test]
fn a_missing_socket_with_leave_to_go_on_warns() {
    let config = load("image = a\ndind = true\ndind_fallback = true\n", false).unwrap();
    let p = plan(&environment("/x"), &config, &vec![], None, &vec![], &vec![], None).unwrap();
    assert!(p.warning);
    assert_eq!(p.spec.augmentation, Augmentation::Nothing);
}

#[test]
fn volume_errors_come_before_all_others() {
    let text = "image = a\ndind = true\n[volume]\nhost = a\ncontainer = /x\n[volume]\nhost = b\ncontainer = /x\n[env]\nname = TOKEN\n";
    let config = load(text, false).unwrap();
    let r = plan(&environment("/x"), &config, &vec![], None, &vec![], &vec![], None);
    assert_eq!(r, Err(LaunchError::VolumeConflict { paths: strings(&["/x"]) }));
    assert_eq!(r.unwrap_err().stage(), Stage::VolumeResolution);
}

#[test]
fn a_build_is_anchored_at_the_project_root() {
    let config = load("build = docker\ndockerfile = docker/Dockerfile\nentrypoint = /init\n", false).unwrap();
    let spec = assemble(
        &environment("/anywhere"),
        &config,
        vec![],
        Augmentation::Nested,
        &strings(&["make"]),
        Some("setup"),
        &vec![variable("TERM", "vt100"), variable("LANG", "C")],
    )
    .unwrap();
    assert_eq!(
        spec.image,
        ImageSource::Build {
            context: "/home/me/project/docker".to_string(),
            dockerfile: Some("/home/me/project/docker/Dockerfile".to_string()),
        }
    );
    assert_eq!(spec.entrypoint, Some("/init".to_string()));
    assert_eq!(spec.augmentation, Augmentation::Nested);
    assert!(!spec.interactive);
    assert_eq!(spec.command.inner, Some("setup && sh -c 'make'".to_string()));
    assert_eq!(spec.environment, vec![variable("TERM", "vt100"), variable("LANG", "C")]);
}

#[test]
fn host_paths_are_anchored_at_the_project_root() {
    let decls = vec![decl(".", Some("/work")), decl("/var/cache", None), decl("data/in", Some("/in"))];
    assert_eq!(host_paths(&decls, "/p"), strings(&["/p", "/var/cache", "/p/data/in"]));
    assert_eq!(host_paths(&vec![], "/p"), Vec::<String>::new());
}

#[test]
fn a_text_is_loaded_and_resolved_in_one_go() {
    let env = environment("/home/me/project/src");
    let files = strings(&["/home/me/project"]);
    let text = "image = debian:bullseye\nshell = bash\n[volume]\nhost = .\ncontainer = /work\nmode = ro\n";
    let p = plan_from_text(text, true, &env, &strings(&["make"]), None, &vec![], &files, None).unwrap();
    assert_eq!(p.spec.working_dir, "/work");
    assert_eq!(p.spec.mounts.len(), 1);
    assert_eq!(p.spec.mounts[0].access, Access::ReadOnly);
    assert_eq!(p.spec.command.inner, Some("bash -c 'make'".to_string()));
    assert!(!p.spec.interactive);
    assert_eq!(
        plan_from_text("image = a\n[volume", false, &env, &vec![], None, &vec![], &files, None),
        Err(LaunchError::ConfigParse { line: 2, fault: SyntaxFault::MalformedSection })
    );
}

#[test]
fn an_ambiguous_image_is_rejected_before_anything_is_resolved() {
    let env = environment("/home/me/project");
    let text = "image = debian\nbuild = .\ndind = true\n[volume]\nhost = gone\ncontainer = /x\n[env]\nname = TOKEN\n";
    for files in [vec![], strings(&["/home/me/project/gone"])] {
        for socket in [None, Some("/var/run/docker.sock")] {
            for calling in [vec![], vec![variable("TOKEN", "t")]] {
                assert_eq!(
                    plan_from_text(text, false, &env, &vec![], None, &calling, &files, socket),
                    Err(LaunchError::ConfigValidation { rule: Rule::ImageAmbiguous })
                );
            }
        }
    }
}
