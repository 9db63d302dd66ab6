use floki::config::{load, ImageSource};
use floki::dind::Augmentation;
use floki::environment::{discover, Progress, ProjectEnvironment, Search, CONFIG_NAME};
use floki::errors::{decimal_of, LaunchError, Rule, Stage, SyntaxFault, FAILURE_STATUS};
use floki::execution::{
    exit_status, fetch_arguments, image_name_of, inspect_arguments, run_arguments, Job, Launcher, Phase, Report,
    Step,
    LOCAL_IMAGE, RUNTIME_FAILURE,
};
use floki::invocation::{append_global_config, intent_of, log_level, startup_script_path, Intent, Invocation, LogLevel};
use floki::launch::{anchor_image, LaunchCommand, LaunchSpecification, Variable};
use floki::volumes::{Access, VolumeMount};

fn strings(words: &[&str]) -> Vec<String> {
    words.iter().map(|w| w.to_string()).collect()
}

fn specification() -> LaunchSpecification {
    LaunchSpecification {
        image: ImageSource::Pull { reference: "debian:bullseye".to_string() },
        mounts: vec![
            VolumeMount {
                host: "/home/me/project".to_string(),
                container: "/work".to_string(),
                access: Access::ReadWrite,
                switch: false,
            },
            VolumeMount {
                host: "/var/cache".to_string(),
                container: "/cache".to_string(),
                access: Access::ReadOnly,
                switch: true,
            },
        ],
        working_dir: "/work".to_string(),
        command: LaunchCommand { shell: "bash".to_string(), inner: None },
        environment: vec![Variable { name: "TERM".to_string(), value: "xterm".to_string() }],
        augmentation: Augmentation::Nothing,
        entrypoint: None,
        interactive: true,
    }
}

#[test]
fn scenario_no_configuration_file() {
    let r = discover(None, "/home/me/project", &vec![]);
    assert_eq!(r, Err(LaunchError::ConfigNotFound));
    let e = r.unwrap_err();
    assert_eq!(e.stage(), Stage::Discovery);
    assert_eq!(e.exit_status(), FAILURE_STATUS);
    assert_eq!(FAILURE_STATUS, 125);
    assert_ne!(e.exit_status(), 0);
    let outcome: Result<i32, LaunchError> = Err(e);
    assert_eq!(exit_status(&outcome), 125);
    // files of other names do not count
    let files = strings(&["/home/me/project/floki.yaml", "/home/me/floki.conf.bak", "/floki.conf/x"]);
    assert_eq!(discover(None, "/home/me/project", &files), Err(LaunchError::ConfigNotFound));
}

#[test]
fn the_search_goes_upwards_and_stops_at_the_first_match() {
    assert_eq!(CONFIG_NAME, "floki.conf");
    let files = strings(&["/home/floki.conf", "/home/me/project/floki.conf", "/floki.conf"]);
    assert_eq!(
        discover(None, "/home/me/project/src/deep", &files),
        Ok(ProjectEnvironment {
            config_file: "/home/me/project/floki.conf".to_string(),
            project_root: "/home/me/project".to_string(),
            working_dir: "/home/me/project/src/deep".to_string(),
        })
    );
    assert_eq!(
        discover(None, "/home/you", &files),
        Ok(ProjectEnvironment {
            config_file: "/home/floki.conf".to_string(),
            project_root: "/home".to_string(),
            working_dir: "/home/you".to_string(),
        })
    );
    assert_eq!(
        discover(None, "/srv/www", &files),
        Ok(ProjectEnvironment {
            config_file: "/floki.conf".to_string(),
            project_root: "/".to_string(),
            working_dir: "/srv/www".to_string(),
        })
    );
    assert_eq!(discover(None, "/srv/www", &strings(&["/home/floki.conf"])), Err(LaunchError::ConfigNotFound));
}

#[test]
fn a_file_named_explicitly_is_taken_or_missed() {
    let files = strings(&["/etc/floki/dev.conf", "/home/me/project/other.conf", "/home/me/project/floki.conf"]);
    assert_eq!(
        discover(Some("/etc/floki/dev.conf"), "/home/me/project", &files),
        Ok(ProjectEnvironment {
            config_file: "/etc/floki/dev.conf".to_string(),
            project_root: "/etc/floki".to_string(),
            working_dir: "/home/me/project".to_string(),
        })
    );
    assert_eq!(
        discover(Some("other.conf"), "/home/me/project", &files),
        Ok(ProjectEnvironment {
            config_file: "/home/me/project/other.conf".to_string(),
            project_root: "/home/me/project".to_string(),
            working_dir: "/home/me/project".to_string(),
        })
    );
    // no search when a file is named
    assert_eq!(discover(Some("missing.conf"), "/home/me/project", &files), Err(LaunchError::ConfigNotFound));
}

#[test]
fn the_search_asks_one_file_at_a_time() {
    let mut search = Search::begin(None, "/a/b");
    let mut asked = Vec::new();
    loop {
        asked.push(search.probe().to_string());
        match search.answer(false) {
            Progress::Probe(next) => search = next,
            Progress::Found(_) => panic!("nothing exists"),
            Progress::Missing => break,
        }
    }
    assert_eq!(asked, strings(&["/a/b/floki.conf", "/a/floki.conf", "/floki.conf"]));

    let search = Search::begin(None, "/a/b");
    let next = match search.answer(false) {
        Progress::Probe(next) => next,
        _ => panic!("one more directory above"),
    };
    assert_eq!(next.probe(), "/a/floki.conf");
    match next.answer(true) {
        Progress::Found(env) => {
            assert_eq!(env.project_root, "/a");
            assert_eq!(env.config_file, "/a/floki.conf");
            assert_eq!(env.working_dir, "/a/b");
        }
        _ => panic!("the file exists"),
    }

    let search = Search::begin(Some("x.conf"), "/a/b");
    assert_eq!(search.probe(), "/a/b/x.conf");
    assert!(matches!(search.answer(false), Progress::Missing));
}

#[test]
fn the_run_arguments_follow_the_specification() {
    let spec = specification();
    assert_eq!(
        run_arguments(&spec),
        strings(&[
            "run", "--rm", "-i", "-t", "-v", "/home/me/project:/work", "-v", "/var/cache:/cache:ro", "-w", "/work",
            "-e", "TERM=xterm", "debian:bullseye", "bash",
        ])
    );
}

#[test]
fn the_run_arguments_carry_augmentation_entrypoint_and_command() {
    let mut spec = specification();
    spec.mounts = vec![];
    spec.environment = vec![];
    spec.interactive = false;
    spec.entrypoint = Some("/init".to_string());
    spec.command.inner = Some("bash -c 'make test'".to_string());
    spec.augmentation = Augmentation::Sibling {
        socket: VolumeMount {
            host: "/run/docker.sock".to_string(),
            container: "/var/run/docker.sock".to_string(),
            access: Access::ReadWrite,
            switch: false,
        },
    };
    spec.image = ImageSource::Build { context: "/p".to_string(), dockerfile: None };
    assert_eq!(
        run_arguments(&spec),
        strings(&[
            "run", "--rm", "-v", "/run/docker.sock:/var/run/docker.sock", "-w", "/work", "--entrypoint", "/init",
            "floki-local", "bash", "-c", "bash -c 'make test'",
        ])
    );
    spec.augmentation = Augmentation::Nested;
    spec.entrypoint = None;
    assert_eq!(
        run_arguments(&spec),
        strings(&["run", "--rm", "--privileged", "-w", "/work", "floki-local", "bash", "-c", "bash -c 'make test'"])
    );
}

#[test]
fn an_image_is_pulled_or_built() {
    let pull = ImageSource::Pull { reference: "debian:bullseye".to_string() };
    assert_eq!(fetch_arguments(&pull), strings(&["pull", "debian:bullseye"]));
    assert_eq!(inspect_arguments(&pull), strings(&["image", "inspect", "debian:bullseye"]));
    assert_eq!(image_name_of(&pull), "debian:bullseye");
    let build = ImageSource::Build { context: "/p/docker".to_string(), dockerfile: Some("/p/Dockerfile".to_string()) };
    assert_eq!(fetch_arguments(&build), strings(&["build", "-t", "floki-local", "-f", "/p/Dockerfile", "/p/docker"]));
    assert_eq!(inspect_arguments(&build), strings(&["image", "inspect", "floki-local"]));
    assert_eq!(image_name_of(&build), LOCAL_IMAGE);
    let plain = ImageSource::Build { context: "/p".to_string(), dockerfile: None };
    assert_eq!(fetch_arguments(&plain), strings(&["build", "-t", "floki-local", "/p"]));
}

fn invoke(step: Step) -> (Launcher, Vec<String>, bool) {
    match step {
        Step::Invoke { launcher, arguments, attach } => (launcher, arguments, attach),
        other => panic!("expected an invocation, got {:?}", other),
    }
}

#[test]
fn an_image_that_is_there_is_run_at_once() {
    let spec = specification();
    let (launcher, arguments, attach) = invoke(Launcher::begin(spec.clone()));
    assert_eq!(launcher.phase, Phase::Inspecting);
    assert_eq!(arguments, inspect_arguments(&spec.image));
    assert!(!attach);
    let (launcher, arguments, attach) = invoke(launcher.advance(Report::Exited { status: 0 }));
    assert_eq!(launcher.phase, Phase::Running);
    assert_eq!(arguments, run_arguments(&spec));
    assert!(attach);
    assert_eq!(launcher.advance(Report::Exited { status: 0 }), Step::Finish { status: 0 });
}

#[test]
fn an_image_that_is_not_there_is_fetched_first() {
    let spec = specification();
    let (launcher, _, _) = invoke(Launcher::begin(spec.clone()));
    let (launcher, arguments, attach) = invoke(launcher.advance(Report::Exited { status: 1 }));
    assert_eq!(launcher.phase, Phase::Fetching);
    assert_eq!(arguments, strings(&["pull", "debian:bullseye"]));
    assert!(!attach);
    let (launcher, arguments, _) = invoke(launcher.advance(Report::Exited { status: 0 }));
    assert_eq!(arguments, run_arguments(&spec));
    assert_eq!(launcher.advance(Report::Exited { status: 42 }), Step::Finish { status: 42 });
}

#[test]
fn a_failed_fetch_is_an_image_resolution_error() {
    let (launcher, _, _) = invoke(Launcher::begin(specification()));
    let (launcher, _, _) = invoke(launcher.advance(Report::Interrupted));
    assert_eq!(launcher.phase, Phase::Fetching);
    assert_eq!(
        launcher.clone().advance(Report::Exited { status: 1 }),
        Step::Fail { error: LaunchError::ImageResolution }
    );
    assert_eq!(launcher.advance(Report::Interrupted), Step::Fail { error: LaunchError::ImageResolution });
    assert_eq!(LaunchError::ImageResolution.stage(), Stage::Execution);
}

#[test]
fn the_containers_exit_status_is_handed_on_unchanged() {
    for status in [0, 1, 2, 126, 127, 130, 255] {
        let (launcher, _, _) = invoke(Launcher::begin(specification()));
        let (launcher, _, _) = invoke(launcher.advance(Report::Exited { status: 0 }));
        assert_eq!(launcher.advance(Report::Exited { status }), Step::Finish { status });
        assert_eq!(exit_status(&Ok(status)), status);
    }
}

#[test]
fn a_container_that_did_not_start_is_a_runtime_error() {
    assert_eq!(RUNTIME_FAILURE, 125);
    let (launcher, _, _) = invoke(Launcher::begin(specification()));
    let (launcher, _, _) = invoke(launcher.advance(Report::Exited { status: 0 }));
    assert_eq!(
        launcher.clone().advance(Report::Exited { status: 125 }),
        Step::Fail { error: LaunchError::RuntimeInvocation }
    );
    assert_eq!(launcher.advance(Report::Interrupted), Step::Fail { error: LaunchError::RuntimeInvocation });
    assert_eq!(exit_status(&Err(LaunchError::RuntimeInvocation)), 125);
    assert_eq!(LaunchError::RuntimeInvocation.stage(), Stage::Execution);
}

#[test]
fn a_pull_fetches_the_image_and_runs_nothing() {
    let image = ImageSource::Pull { reference: "debian:bullseye".to_string() };
    let (launcher, arguments, attach) = invoke(Launcher::pull(image.clone()));
    assert_eq!(launcher, Launcher { job: Job::Fetch { image: image.clone() }, phase: Phase::Fetching });
    assert_eq!(launcher.job.image(), &image);
    assert_eq!(arguments, strings(&["pull", "debian:bullseye"]));
    assert!(!attach);
    assert_eq!(launcher.clone().advance(Report::Exited { status: 0 }), Step::Finish { status: 0 });
    assert_eq!(launcher.clone().advance(Report::Exited { status: 1 }), Step::Fail { error: LaunchError::ImageResolution });
    assert_eq!(launcher.advance(Report::Interrupted), Step::Fail { error: LaunchError::ImageResolution });

    let build = ImageSource::Build { context: "/p".to_string(), dockerfile: None };
    let (launcher, arguments, _) = invoke(Launcher::pull(build));
    assert_eq!(arguments, strings(&["build", "-t", "floki-local", "/p"]));
    assert_eq!(launcher.advance(Report::Exited { status: 0 }), Step::Finish { status: 0 });
}

#[test]
fn a_pull_needs_only_the_image_of_the_configuration() {
    // volumes that collide, a socket that is not there and a variable that is
    // not set stand in the way of a launch, not of a pull
    let text = "image = debian:bullseye\ndind = true\n[volume]\nhost = a\ncontainer = /x\n[volume]\nhost = b\ncontainer = /x\n[env]\nname = TOKEN\n";
    let config = load(text, false).unwrap();
    let (_, arguments, _) = invoke(Launcher::pull(anchor_image(&config.image, "/home/me/project")));
    assert_eq!(arguments, strings(&["pull", "debian:bullseye"]));
    let config = load("build = docker\n", false).unwrap();
    let (_, arguments, _) = invoke(Launcher::pull(anchor_image(&config.image, "/home/me/project")));
    assert_eq!(arguments, strings(&["build", "-t", "floki-local", "/home/me/project/docker"]));
}

#[test]
fn the_failure_status_is_never_handed_on_as_a_containers() {
    for phase in [Phase::Inspecting, Phase::Fetching, Phase::Running] {
        for job in [
            Job::Launch { spec: specification() },
            Job::Fetch { image: ImageSource::Pull { reference: "a".to_string() } },
        ] {
            for report in [
                Report::Interrupted,
                Report::Exited { status: 0 },
                Report::Exited { status: 1 },
                Report::Exited { status: 124 },
                Report::Exited { status: 125 },
                Report::Exited { status: 126 },
                Report::Exited { status: -1 },
            ] {
                let launcher = Launcher { job: job.clone(), phase };
                if let Step::Finish { status } = launcher.advance(report) {
                    assert_ne!(status, FAILURE_STATUS);
                    assert_ne!(exit_status(&Ok(status)), exit_status(&Err(LaunchError::ConfigNotFound)));
                }
            }
        }
    }
    // a container's own exit 1 is handed on, and is not the status of a failure
    let running = Launcher { job: Job::Launch { spec: specification() }, phase: Phase::Running };
    assert_eq!(running.advance(Report::Exited { status: 1 }), Step::Finish { status: 1 });
    assert_ne!(LaunchError::ConfigNotFound.exit_status(), 1);
}

#[test]
fn only_an_interactive_run_has_the_callers_streams() {
    let mut spec = specification();
    spec.interactive = true;
    let (launcher, _, attach) = invoke(Launcher::begin(spec.clone()));
    assert!(!attach);
    let (_, _, attach) = invoke(launcher.clone().advance(Report::Exited { status: 0 }));
    assert!(attach);
    let (_, _, attach) = invoke(launcher.advance(Report::Exited { status: 1 }));
    assert!(!attach);
    spec.interactive = false;
    let (launcher, _, _) = invoke(Launcher::begin(spec));
    let (_, _, attach) = invoke(launcher.advance(Report::Exited { status: 0 }));
    assert!(!attach);
}

#[test]
fn every_error_gives_the_failure_status() {
    let errors = vec![
        LaunchError::ConfigNotFound,
        LaunchError::ConfigParse { line: 3, fault: SyntaxFault::EmptyKey },
        LaunchError::ConfigValidation { rule: Rule::ImageMissing },
        LaunchError::VolumeConflict { paths: strings(&["/x"]) },
        LaunchError::VolumeHostPathMissing { path: "/x".to_string() },
        LaunchError::DindSocketUnavailable,
        LaunchError::UnresolvedVariable { name: "X".to_string() },
        LaunchError::ImageResolution,
        LaunchError::RuntimeInvocation,
        LaunchError::InvalidVerbositySetting { setting: 9 },
    ];
    let stages = vec![
        Stage::Discovery,
        Stage::ConfigModel,
        Stage::ConfigModel,
        Stage::VolumeResolution,
        Stage::VolumeResolution,
        Stage::DindPolicy,
        Stage::Resolution,
        Stage::Execution,
        Stage::Execution,
        Stage::Invocation,
    ];
    for (e, s) in errors.into_iter().zip(stages) {
        assert_eq!(e.stage(), s);
        assert_eq!(e.exit_status(), 125);
        assert_eq!(exit_status(&Err(e)), 125);
    }
}

#[test]
fn verbosity_picks_the_log_level() {
    assert_eq!(log_level(0), Ok(LogLevel::Warn));
    assert_eq!(log_level(1), Ok(LogLevel::Info));
    assert_eq!(log_level(2), Ok(LogLevel::Debug));
    assert_eq!(log_level(3), Ok(LogLevel::Trace));
    assert_eq!(log_level(4), Err(LaunchError::InvalidVerbositySetting { setting: 4 }));
    assert_eq!(log_level(255), Err(LaunchError::InvalidVerbositySetting { setting: 255 }));
}

#[test]
fn the_subcommand_decides_what_is_done() {
    assert_eq!(intent_of(Invocation::Pull), Intent::Pull);
    assert_eq!(intent_of(Invocation::Shell), Intent::Launch { request: vec![] });
    assert_eq!(
        intent_of(Invocation::Run { command: strings(&["make", "test"]) }),
        Intent::Launch { request: strings(&["make", "test"]) }
    );
    assert_eq!(intent_of(Invocation::Completion), Intent::Completions);
}

#[test]
fn the_startup_script_is_under_the_home_directory() {
    assert_eq!(startup_script_path("/home/me"), "/home/me/.floki/startup.sh");
    assert_eq!(startup_script_path(""), "/.floki/startup.sh");
}

#[test]
fn the_global_configuration_is_put_before_the_command() {
    assert_eq!(append_global_config("bash", None), "bash");
    assert_eq!(append_global_config("bash", Some("\n. ~/.profile  \n")), ". ~/.profile && bash");
    assert_eq!(append_global_config("sh -c 'ls'", Some("true")), "true && sh -c 'ls'");
}

#[test]
fn diagnostics_name_stage_and_reason() {
    assert_eq!(decimal_of(0), "0");
    assert_eq!(decimal_of(7), "7");
    assert_eq!(decimal_of(10), "10");
    assert_eq!(decimal_of(1205), "1205");
    assert_eq!(decimal_of(usize::MAX), usize::MAX.to_string());
    assert_eq!(LaunchError::ConfigNotFound.describe(), "discovery: no configuration file found");
    assert_eq!(
        LaunchError::ConfigParse { line: 12, fault: SyntaxFault::MissingSeparator }.describe(),
        "configuration: line 12: expected `key = value`"
    );
    assert_eq!(
        LaunchError::ConfigParse { line: 1, fault: SyntaxFault::EmptyKey }.reason(),
        "line 1: no key before `=`"
    );
    assert_eq!(
        LaunchError::ConfigParse { line: 3, fault: SyntaxFault::MalformedSection }.reason(),
        "line 3: malformed section header"
    );
    assert_eq!(
        LaunchError::ConfigValidation { rule: Rule::ImageAmbiguous }.describe(),
        "configuration: both an image and a build are declared"
    );
    assert_eq!(
        LaunchError::VolumeConflict { paths: strings(&["/a", "/b"]) }.describe(),
        "volumes: volumes collide at /a, /b"
    );
    assert_eq!(
        LaunchError::VolumeHostPathMissing { path: "/p/x".to_string() }.describe(),
        "volumes: host path does not exist: /p/x"
    );
    assert_eq!(
        LaunchError::DindSocketUnavailable.describe(),
        "docker-in-docker: sibling mode needs the runtime socket, and none was found"
    );
    assert_eq!(
        LaunchError::UnresolvedVariable { name: "TOKEN".to_string() }.describe(),
        "resolution: required variable is not set: TOKEN"
    );
    assert_eq!(LaunchError::ImageResolution.describe(), "execution: the image could not be pulled or built");
    assert_eq!(LaunchError::RuntimeInvocation.describe(), "execution: the container did not start");
    assert_eq!(
        LaunchError::InvalidVerbositySetting { setting: 200 }.describe(),
        "invocation: invalid verbosity setting: 200"
    );
    for rule in [
        Rule::ImageAmbiguous, Rule::ImageMissing, Rule::UnknownSection, Rule::UnknownKey, Rule::RepeatedKey,
        Rule::InvalidValue, Rule::VolumeWithoutHostPath, Rule::VolumeWithoutContainerPath,
        Rule::ContainerPathNotAbsolute, Rule::UnnamedVariable, Rule::UnknownShell,
    ] {
        assert_eq!(LaunchError::ConfigValidation { rule }.reason(), rule.text());
        assert!(!rule.text().is_empty());
    }
}
