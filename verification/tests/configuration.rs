use floki::config::{is_allowed, is_recognized, load, lookup, validate, Config, ImageSource, Passthrough, Place};
use floki::dind::{DindMode, DindPolicy};
use floki::errors::{LaunchError, Rule, SyntaxFault};
use floki::syntax::{classify_line, parse_document, Document, Field, Line, Section};
use floki::volumes::VolumeDecl;

fn chars(s: &str) -> Vec<char> {
    s.chars().collect()
}

fn field(key: &str, value: &str, line: usize) -> Field {
    Field { key: key.to_string(), value: value.to_string(), line }
}

fn invalid(rule: Rule) -> Result<Config, LaunchError> {
    Err(LaunchError::ConfigValidation { rule })
}

#[test]
fn lines_are_classified() {
    assert_eq!(classify_line(&chars("")), Line::Blank);
    assert_eq!(classify_line(&chars("   \t")), Line::Blank);
    assert_eq!(classify_line(&chars("  # image = x")), Line::Blank);
    assert_eq!(classify_line(&chars("[volume]")), Line::Header { name: "volume".to_string() });
    assert_eq!(classify_line(&chars("  [ env ]  ")), Line::Header { name: "env".to_string() });
    assert_eq!(
        classify_line(&chars("image = debian:bullseye")),
        Line::Entry { key: "image".to_string(), value: "debian:bullseye".to_string() }
    );
    assert_eq!(
        classify_line(&chars("entrypoint=/bin/x --opt=1")),
        Line::Entry { key: "entrypoint".to_string(), value: "/bin/x --opt=1".to_string() }
    );
    assert_eq!(
        classify_line(&chars("shell =")),
        Line::Entry { key: "shell".to_string(), value: "".to_string() }
    );
}

#[test]
fn broken_lines_name_their_fault() {
    assert_eq!(classify_line(&chars("image debian")), Line::Broken { fault: SyntaxFault::MissingSeparator });
    assert_eq!(classify_line(&chars(" = debian")), Line::Broken { fault: SyntaxFault::EmptyKey });
    assert_eq!(classify_line(&chars("[volume")), Line::Broken { fault: SyntaxFault::MalformedSection });
    assert_eq!(classify_line(&chars("[]")), Line::Broken { fault: SyntaxFault::MalformedSection });
    assert_eq!(classify_line(&chars("[  ]")), Line::Broken { fault: SyntaxFault::MalformedSection });
    assert_eq!(classify_line(&chars("[")), Line::Broken { fault: SyntaxFault::MalformedSection });
    assert_eq!(classify_line(&chars("[a] b")), Line::Broken { fault: SyntaxFault::MalformedSection });
}

#[test]
fn a_document_keeps_fields_sections_and_line_numbers() {
    let text = "# project\nimage = debian:bullseye\n\n[volume]\nhost = .\ncontainer = /work\n[env]\nname = HOME\n";
    let doc = parse_document(text).unwrap();
    assert_eq!(
        doc,
        Document {
            fields: vec![field("image", "debian:bullseye", 2)],
            sections: vec![
                Section {
                    name: "volume".to_string(),
                    line: 4,
                    fields: vec![field("host", ".", 5), field("container", "/work", 6)],
                },
                Section { name: "env".to_string(), line: 7, fields: vec![field("name", "HOME", 8)] },
            ],
        }
    );
}

#[test]
fn the_empty_text_is_the_empty_document() {
    assert_eq!(parse_document(""), Ok(Document { fields: vec![], sections: vec![] }));
}

#[test]
fn the_first_broken_line_is_reported_with_its_number() {
    assert_eq!(
        parse_document("image = x\nnonsense\n = y\n"),
        Err(LaunchError::ConfigParse { line: 2, fault: SyntaxFault::MissingSeparator })
    );
    assert_eq!(
        parse_document("\n\n[volume\n"),
        Err(LaunchError::ConfigParse { line: 3, fault: SyntaxFault::MalformedSection })
    );
    assert_eq!(
        parse_document("=x"),
        Err(LaunchError::ConfigParse { line: 1, fault: SyntaxFault::EmptyKey })
    );
}

#[test]
fn malformed_and_invalid_are_different_errors() {
    assert_eq!(
        load("image: debian", false),
        Err(LaunchError::ConfigParse { line: 1, fault: SyntaxFault::MissingSeparator })
    );
    assert_eq!(load("colour = red", false), invalid(Rule::ImageMissing));
}

#[test]
fn lookup_gives_the_first_value_or_nothing() {
    let fields = vec![field("a", "1", 1), field("b", "2", 2), field("a", "3", 3)];
    assert_eq!(lookup(&fields, "a"), "1");
    assert_eq!(lookup(&fields, "b"), "2");
    assert_eq!(lookup(&fields, "c"), "");
}

#[test]
fn keys_are_allowed_by_place() {
    for k in ["image", "build", "dockerfile", "shell", "entrypoint", "dind", "dind_mode", "dind_fallback"] {
        assert!(is_allowed(Place::Root, k));
        assert!(!is_allowed(Place::Volume, k));
    }
    for k in ["host", "container", "mode", "switch", "create"] {
        assert!(is_allowed(Place::Volume, k));
        assert!(!is_allowed(Place::Root, k));
    }
    assert!(is_allowed(Place::Environment, "name"));
    assert!(is_allowed(Place::Environment, "optional"));
    assert!(!is_allowed(Place::Environment, "host"));
}

#[test]
fn shells_are_recognized() {
    for s in ["sh", "bash", "zsh", "fish", "dash", "ash", "ksh"] {
        assert!(is_recognized(s));
    }
    assert!(!is_recognized("powershell"));
    assert!(!is_recognized(""));
    assert!(!is_recognized("/bin/bash"));
}

#[test]
fn a_full_configuration_loads() {
    let text = "\
image = debian:bullseye
shell = bash
entrypoint = /init
dind = true
dind_mode = nested
dind_fallback = true

[volume]
host = .
container = /work

[volume]
host = /var/cache/build
container = /cache
mode = ro
switch = true
create = true

[env]
name = HOME

[env]
name = EDITOR
optional = true
";
    assert_eq!(
        load(text, true),
        Ok(Config {
            image: ImageSource::Pull { reference: "debian:bullseye".to_string() },
            volumes: vec![
                VolumeDecl {
                    host: ".".to_string(),
                    container: Some("/work".to_string()),
                    read_only: false,
                    switch: false,
                    create: false,
                },
                VolumeDecl {
                    host: "/var/cache/build".to_string(),
                    container: Some("/cache".to_string()),
                    read_only: true,
                    switch: true,
                    create: true,
                },
            ],
            shell: "bash".to_string(),
            dind: Some(DindPolicy { enabled: true, mode: DindMode::Nested, fallback: true }),
            environment: vec![
                Passthrough { name: "HOME".to_string(), optional: false },
                Passthrough { name: "EDITOR".to_string(), optional: true },
            ],
            entrypoint: Some("/init".to_string()),
        })
    );
}

#[test]
fn defaults_fill_what_is_not_written() {
    assert_eq!(
        load("image = alpine", true),
        Ok(Config {
            image: ImageSource::Pull { reference: "alpine".to_string() },
            volumes: vec![],
            shell: "sh".to_string(),
            dind: None,
            environment: vec![],
            entrypoint: None,
        })
    );
    let c = load("image = alpine\ndind = false\nshell =\n", false).unwrap();
    assert_eq!(c.dind, Some(DindPolicy { enabled: false, mode: DindMode::Sibling, fallback: false }));
    assert_eq!(c.shell, "sh");
    let c = load("image = alpine\ndind = true\ndind_mode = sibling\n", false).unwrap();
    assert_eq!(c.dind, Some(DindPolicy { enabled: true, mode: DindMode::Sibling, fallback: false }));
}

#[test]
fn a_build_is_an_image_source() {
    assert_eq!(
        load("build = docker\ndockerfile = docker/Dockerfile.dev\n", false).unwrap().image,
        ImageSource::Build { context: "docker".to_string(), dockerfile: Some("docker/Dockerfile.dev".to_string()) }
    );
    assert_eq!(
        load("build = .\n", false).unwrap().image,
        ImageSource::Build { context: ".".to_string(), dockerfile: None }
    );
}

#[test]
fn both_image_and_build_is_rejected() {
    assert_eq!(load("image = debian\nbuild = .\n", false), invalid(Rule::ImageAmbiguous));
    assert_eq!(load("build = .\nimage = debian\n", true), invalid(Rule::ImageAmbiguous));
    assert_eq!(load("image = debian\ndockerfile = Dockerfile\n", false), invalid(Rule::ImageAmbiguous));
    // whatever else is wrong, this rule is named first
    assert_eq!(load("image = debian\nbuild = .\ncolour = red\n[nonsense]\n", true), invalid(Rule::ImageAmbiguous));
}

#[test]
fn neither_image_nor_build_is_rejected() {
    assert_eq!(load("", false), invalid(Rule::ImageMissing));
    assert_eq!(load("shell = bash\n", false), invalid(Rule::ImageMissing));
    assert_eq!(load("image =\n", false), invalid(Rule::ImageMissing));
    assert_eq!(load("dockerfile = Dockerfile\n", false), invalid(Rule::ImageMissing));
}

#[test]
fn each_rule_has_an_input_that_breaks_it() {
    assert_eq!(load("image = a\ncolour = red\n", false), invalid(Rule::UnknownKey));
    assert_eq!(load("image = a\nshell = sh\nshell = bash\n", false), invalid(Rule::RepeatedKey));
    assert_eq!(load("image = a\ndind = yes\n", false), invalid(Rule::InvalidValue));
    assert_eq!(load("image = a\ndind = true\ndind_mode = cousin\n", false), invalid(Rule::InvalidValue));
    assert_eq!(load("image = a\ndind_fallback = 1\n", false), invalid(Rule::InvalidValue));
    assert_eq!(load("image = a\nshell = powershell\n", true), invalid(Rule::UnknownShell));
    assert_eq!(load("image = a\n[mount]\n", false), invalid(Rule::UnknownSection));
    assert_eq!(load("image = a\n[volume]\nhost = .\ncontainer = /w\nname = x\n", false), invalid(Rule::UnknownKey));
    assert_eq!(load("image = a\n[volume]\nhost = .\nhost = ..\ncontainer = /w\n", false), invalid(Rule::RepeatedKey));
    assert_eq!(load("image = a\n[volume]\nhost = .\ncontainer = /w\nmode = wo\n", false), invalid(Rule::InvalidValue));
    assert_eq!(load("image = a\n[volume]\nhost = .\ncontainer = /w\nswitch = on\n", false), invalid(Rule::InvalidValue));
    assert_eq!(load("image = a\n[volume]\nhost = .\ncontainer = /w\ncreate = no\n", false), invalid(Rule::InvalidValue));
    assert_eq!(load("image = a\n[volume]\ncontainer = /w\n", false), invalid(Rule::VolumeWithoutHostPath));
    assert_eq!(load("image = a\n[volume]\nhost = .\n", false), invalid(Rule::VolumeWithoutContainerPath));
    assert_eq!(load("image = a\n[volume]\nhost = .\ncontainer =\n", false), invalid(Rule::VolumeWithoutContainerPath));
    assert_eq!(load("image = a\n[volume]\nhost = .\ncontainer = work\n", false), invalid(Rule::ContainerPathNotAbsolute));
    assert_eq!(load("image = a\n[env]\noptional = true\n", false), invalid(Rule::UnnamedVariable));
    assert_eq!(load("image = a\n[env]\nname = X\noptional = maybe\n", false), invalid(Rule::InvalidValue));
    assert_eq!(load("image = a\n[env]\nname = X\nvalue = 1\n", false), invalid(Rule::UnknownKey));
    assert_eq!(load("image = a\n[env]\nname = X\nname = Y\n", false), invalid(Rule::RepeatedKey));
}

#[test]
fn the_shell_is_checked_only_on_request() {
    assert_eq!(load("image = a\nshell = powershell\n", false).unwrap().shell, "powershell");
    assert_eq!(load("image = a\nshell = powershell\n", true), invalid(Rule::UnknownShell));
    assert_eq!(load("image = a\nshell = zsh\n", true).unwrap().shell, "zsh");
    assert_eq!(load("image = a\n", true).unwrap().shell, "sh");
}

#[test]
fn the_first_faulty_section_is_reported() {
    let text = "image = a\n[volume]\nhost = .\ncontainer = /w\n[env]\noptional = true\n[volume]\nhost = .\n";
    assert_eq!(load(text, false), invalid(Rule::UnnamedVariable));
    // the fields before the sections come first
    assert_eq!(load("image = a\nshell = powershell\n[nonsense]\n", true), invalid(Rule::UnknownShell));
}

#[test]
fn validate_works_on_a_document_built_by_hand() {
    let doc = Document {
        fields: vec![field("image", "debian", 1)],
        sections: vec![Section {
            name: "volume".to_string(),
            line: 2,
            fields: vec![field("container", "/data", 3), field("host", "data", 4)],
        }],
    };
    let c = validate(&doc, true).unwrap();
    assert_eq!(c.volumes.len(), 1);
    assert_eq!(c.volumes[0].host, "data");
    assert_eq!(c.volumes[0].container, Some("/data".to_string()));
    let doc = Document { fields: vec![field("image", "a", 1), field("build", "b", 2)], sections: vec![] };
    assert_eq!(validate(&doc, false), invalid(Rule::ImageAmbiguous));
}
