use rps::location::{
    classify, needs_elevation, path_components, path_in_cargo_bin, path_lies_under,
    BinaryLocation, InstallClass,
};
use rps::text::chars_of;
use std::path::Path;

fn at(path: &str) -> BinaryLocation {
    BinaryLocation::new(path.to_string())
}

fn dir(parts: &[&str]) -> Vec<Vec<char>> {
    parts.iter().map(|p| chars_of(p)).collect()
}

#[test]
fn location_keeps_its_path() {
    let l = at("/usr/local/bin/rps");
    assert_eq!(l.as_str(), "/usr/local/bin/rps");
    assert_eq!(l.clone(), l);
}

#[test]
fn binaries_in_standard_locations_are_system_installs() {
    assert_eq!(classify(&at("/usr/local/bin/rps")), InstallClass::SystemInstall);
    assert_eq!(classify(&at("/opt/homebrew/bin/rps")), InstallClass::SystemInstall);
    assert_eq!(classify(&at("/home/u/.cargo/bin/rps")), InstallClass::SystemInstall);
    assert_eq!(classify(&at("/usr/local/bin")), InstallClass::SystemInstall);
}

#[test]
fn binaries_elsewhere_are_user_installs() {
    assert_eq!(classify(&at("/home/u/bin/rps")), InstallClass::UserInstall);
    assert_eq!(classify(&at("/usr/bin/rps")), InstallClass::UserInstall);
    assert_eq!(classify(&at("/opt/rps")), InstallClass::UserInstall);
    assert_eq!(classify(&at("/tmp/rps")), InstallClass::UserInstall);
    assert_eq!(classify(&at("")), InstallClass::UserInstall);
    assert_eq!(classify(&at("rps")), InstallClass::UserInstall);
}

#[test]
fn directories_match_by_whole_components() {
    assert_eq!(classify(&at("/usr/local/binary/rps")), InstallClass::UserInstall);
    assert_eq!(classify(&at("/usr/local/bin2")), InstallClass::UserInstall);
    assert_eq!(classify(&at("/opt/homebrew/bins/rps")), InstallClass::UserInstall);
    assert_eq!(classify(&at("/x/usr/local/bin/rps")), InstallClass::UserInstall);
    assert_eq!(classify(&at("usr/local/bin/rps")), InstallClass::UserInstall);
}

#[test]
fn repeated_slashes_and_dots_do_not_matter() {
    assert_eq!(classify(&at("/usr//local/./bin/rps")), InstallClass::SystemInstall);
    assert_eq!(classify(&at("//usr/local/bin/")), InstallClass::SystemInstall);
    assert_eq!(classify(&at("/./usr/local/bin/rps")), InstallClass::SystemInstall);
    assert_eq!(classify(&at("/usr/local/../local/bin/rps")), InstallClass::UserInstall);
}

#[test]
fn cargo_bin_directories_count_below_any_home() {
    assert_eq!(classify(&at("/home/u/.cargo/bin/rps")), InstallClass::SystemInstall);
    assert_eq!(classify(&at("/Users/me/.cargo/bin/rps")), InstallClass::SystemInstall);
    assert_eq!(classify(&at("/root/.cargo/bin")), InstallClass::SystemInstall);
    assert_eq!(classify(&at("/.cargo/bin/rps")), InstallClass::SystemInstall);
    assert_eq!(classify(&at("/home/u/.cargo//bin/./rps")), InstallClass::SystemInstall);
    assert_eq!(classify(&at("/home/u/.cargo/bin/tools/rps")), InstallClass::SystemInstall);
}

#[test]
fn text_that_only_looks_like_cargo_bin_does_not_count() {
    assert_eq!(classify(&at("/tmp/x.cargo/binx/rps")), InstallClass::UserInstall);
    assert_eq!(classify(&at("/srv/x.cargo/binary")), InstallClass::UserInstall);
    assert_eq!(classify(&at("/srv/x.cargo/bin/rps")), InstallClass::UserInstall);
    assert_eq!(classify(&at("/home/u/.cargo/binx/rps")), InstallClass::UserInstall);
    assert_eq!(classify(&at("/home/u/.cargo/rps")), InstallClass::UserInstall);
    assert_eq!(classify(&at("/home/u/cargo/bin/rps")), InstallClass::UserInstall);
    assert_eq!(classify(&at("/home/u/.cargo/x/bin/rps")), InstallClass::UserInstall);
    assert_eq!(classify(&at("/home/u/bin/.cargo/rps")), InstallClass::UserInstall);
    assert_eq!(classify(&at("/home/u/.cargo")), InstallClass::UserInstall);
    assert_eq!(classify(&at(".cargo/bin/rps")), InstallClass::UserInstall);
    assert_eq!(classify(&at("home/u/.cargo/bin/rps")), InstallClass::UserInstall);
}

#[test]
fn install_directories_are_matched_as_path_prefixes() {
    assert_eq!(classify(&at("/usr/local/bin/rps")), InstallClass::SystemInstall);
    assert_eq!(classify(&at("/opt/homebrew/bin/rps")), InstallClass::SystemInstall);
    assert_eq!(classify(&at("/usr/local/bin2/rps")), InstallClass::UserInstall);
    assert_eq!(classify(&at("/home/u/bin/rps")), InstallClass::UserInstall);
}

#[test]
fn cargo_bin_agrees_with_std_paths() {
    let paths = [
        "/home/u/.cargo/bin/rps",
        "/home/u/.cargo/bin",
        "/home/u/.cargo/bin/",
        "/home/u/.cargo/binx/rps",
        "/tmp/x.cargo/binx/rps",
        "/a/.cargo/b/bin",
        "/.cargo/bin",
        "/bin/.cargo",
        ".cargo/bin/rps",
        "/",
        "",
        "/home/u/.cargo/./bin/x",
        "/home/u/.cargo/../bin/x",
    ];
    for p in paths {
        let names: Vec<String> = Path::new(p)
            .components()
            .filter_map(|c| match c {
                std::path::Component::Normal(n) => Some(n.to_string_lossy().into_owned()),
                std::path::Component::ParentDir => Some("..".to_string()),
                _ => None,
            })
            .collect();
        let expected =
            Path::new(p).has_root() && names.windows(2).any(|w| w[0] == ".cargo" && w[1] == "bin");
        assert_eq!(path_in_cargo_bin(&chars_of(p)), expected, "{:?}", p);
    }
}

#[test]
fn components_are_the_names_between_slashes() {
    let parts = |p: &str| -> Vec<String> {
        path_components(&chars_of(p)).iter().map(|c| c.iter().collect()).collect()
    };
    assert_eq!(parts("/usr/local/bin/rps"), vec!["usr", "local", "bin", "rps"]);
    assert_eq!(parts("//usr///local/./bin/"), vec!["usr", "local", "bin"]);
    assert_eq!(parts("a/b"), vec!["a", "b"]);
    assert_eq!(parts("/a/../b"), vec!["a", "..", "b"]);
    assert_eq!(parts("/.cargo/.bin/..."), vec![".cargo", ".bin", "..."]);
    assert_eq!(parts("/"), Vec::<String>::new());
    assert_eq!(parts("."), Vec::<String>::new());
    assert_eq!(parts(""), Vec::<String>::new());
}

#[test]
fn classification_is_repeatable() {
    for p in ["/usr/local/bin/rps", "/home/u/rps", "/opt/homebrew/bin/x", ""] {
        assert_eq!(classify(&at(p)), classify(&at(p)));
        assert_eq!(needs_elevation(&at(p)), needs_elevation(&at(p)));
    }
}

#[test]
fn elevation_is_needed_under_the_system_directories() {
    assert!(needs_elevation(&at("/usr/local/bin/rps")));
    assert!(needs_elevation(&at("/usr/bin/rps")));
    assert!(needs_elevation(&at("/opt/rps")));
    assert!(needs_elevation(&at("/opt/homebrew/bin/rps")));
    assert!(needs_elevation(&at("/opt")));
}

#[test]
fn elevation_is_not_needed_elsewhere() {
    assert!(!needs_elevation(&at("/home/u/.cargo/bin/rps")));
    assert!(!needs_elevation(&at("/usr/local/rps")));
    assert!(!needs_elevation(&at("/usr/sbin/rps")));
    assert!(!needs_elevation(&at("/optional/rps")));
    assert!(!needs_elevation(&at("opt/rps")));
    assert!(!needs_elevation(&at("")));
}

#[test]
fn the_two_tables_differ() {
    let cargo = at("/home/u/.cargo/bin/rps");
    assert_eq!(classify(&cargo), InstallClass::SystemInstall);
    assert!(!needs_elevation(&cargo));
    let system = at("/usr/bin/rps");
    assert_eq!(classify(&system), InstallClass::UserInstall);
    assert!(needs_elevation(&system));
}

#[test]
fn system_directories_of_the_standard_table_need_elevation() {
    for p in ["/usr/local/bin/rps", "/opt/homebrew/bin/rps", "/usr/local/bin/a/b"] {
        assert_eq!(classify(&at(p)), InstallClass::SystemInstall);
        assert!(needs_elevation(&at(p)));
    }
}

#[test]
fn lies_under_agrees_with_std_paths() {
    let paths = [
        "/usr/local/bin/rps",
        "/usr/local/bin",
        "/usr/local/bin/",
        "/usr/local",
        "/usr//local///bin/x",
        "/usr/./local/bin/x",
        "/usr/local/bin/.",
        "/usr/local/binx",
        "/usr/../usr/local/bin",
        "/opt",
        "/opt/",
        "/optx",
        "/",
        "//",
        "/.",
        "usr/local/bin",
        "./usr/local/bin",
        "",
        ".",
        "/usr/local/b in/x",
        "/usr/local/bin/ünï",
    ];
    let dirs: [(&[&str], &str); 5] = [
        (&["usr", "local", "bin"], "/usr/local/bin"),
        (&["opt", "homebrew", "bin"], "/opt/homebrew/bin"),
        (&["usr", "bin"], "/usr/bin"),
        (&["opt"], "/opt"),
        (&[], "/"),
    ];
    for p in paths {
        for (parts, base) in dirs {
            assert_eq!(
                path_lies_under(&chars_of(p), &dir(parts)),
                Path::new(p).starts_with(base),
                "{:?} under {:?}",
                p,
                base
            );
        }
    }
}
