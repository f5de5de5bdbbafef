use cargo_c_pkgconfig::{
    CApiConfig, HeaderCApiConfig, InstallPaths, LibraryCApiConfig, PkgConfig, PkgConfigCApiConfig,
};
use semver::Version;
use structopt::clap::{App, Arg};

fn config(subdirectory: bool) -> CApiConfig {
    CApiConfig {
        header: HeaderCApiConfig {
            name: "foo".into(),
            subdirectory,
            generation: true,
        },
        pkg_config: PkgConfigCApiConfig {
            name: "foo".into(),
            description: "".into(),
            version: "0.1".into(),
        },
        library: LibraryCApiConfig {
            name: "foo".into(),
            version: Version::parse("0.1.0").unwrap().to_string(),
        },
    }
}

fn install_paths() -> InstallPaths {
    InstallPaths {
        prefix: "/opt/foo".into(),
        includedir: "/opt/foo/inc".into(),
        libdir: "/opt/foo/lib64".into(),
    }
}

fn lines_starting(text: &str, key: &str) -> Vec<usize> {
    text.lines()
        .enumerate()
        .filter(|(_, l)| l.starts_with(key))
        .map(|(i, _)| i)
        .collect()
}

#[test]
fn simple() {
    let mut pkg = PkgConfig::new(
        "foo",
        &CApiConfig {
            header: HeaderCApiConfig {
                name: "foo".into(),
                subdirectory: true,
                generation: true,
            },
            pkg_config: PkgConfigCApiConfig {
                name: "foo".into(),
                description: "".into(),
                version: "0.1".into(),
            },
            library: LibraryCApiConfig {
                name: "foo".into(),
                version: Version::parse("0.1.0").unwrap().to_string(),
            },
        },
    );
    pkg.add_lib("-lbar").add_cflag("-DFOO");

    println!("{:?}\n{}", pkg, pkg.render());
}

#[test]
fn default_document_renders_exactly() {
    let pkg = PkgConfig::new("foo", &config(true));
    assert_eq!(
        pkg.render(),
        "prefix=/usr/local\n\
         exec_prefix=${prefix}\n\
         libdir=${exec_prefix}/lib\n\
         includedir=${prefix}/include\n\
         \n\
         Name: foo\n\
         Description: \n\
         Version: 0.1\n\
         Libs: -L${libdir} -lfoo\n\
         Cflags: -I${includedir}/foo\n"
    );
}

#[test]
fn add_lib_and_add_cflag_both_extend_libs() {
    let mut pkg = PkgConfig::new("foo", &config(true));
    pkg.add_lib("-lbar").add_cflag("-DFOO");
    let text = pkg.render();
    assert!(text.contains("\nLibs: -L${libdir} -lfoo -lbar -DFOO\n"));
    assert!(text.contains("\nCflags: -I${includedir}/foo\n"));
}

#[test]
fn cflags_without_subdirectory() {
    let pkg = PkgConfig::new("foo", &config(false));
    let text = pkg.render();
    assert!(text.ends_with("Libs: -L${libdir} -lfoo\nCflags: -I${includedir}\n"));
}

#[test]
fn cflags_name_comes_from_the_name_argument() {
    let pkg = PkgConfig::new("bar", &config(true));
    let text = pkg.render();
    assert!(text.contains("\nName: foo\n"));
    assert!(text.contains("\nCflags: -I${includedir}/bar\n"));
}

#[test]
fn default_libs_name_the_library() {
    let mut cfg = config(true);
    cfg.library.name = "baz".into();
    let text = PkgConfig::new("foo", &cfg).render();
    assert_eq!(lines_starting(&text, "Libs: "), vec![8]);
    assert!(text.contains("\nLibs: -L${libdir} -lbaz\n"));
}

#[test]
fn fields_appear_once_in_order() {
    let mut pkg = PkgConfig::new("foo", &config(true));
    pkg.set_description("Name: not a field").add_lib_private("-lm");
    let text = pkg.render();
    assert_eq!(lines_starting(&text, "Name: "), vec![5]);
    assert_eq!(lines_starting(&text, "Description: "), vec![6]);
    assert_eq!(lines_starting(&text, "Version: "), vec![7]);
    assert_eq!(lines_starting(&text, "Libs: "), vec![8]);
    assert_eq!(lines_starting(&text, "Cflags: "), vec![9]);
}

#[test]
fn libs_private_line_only_when_present() {
    let mut pkg = PkgConfig::new("foo", &config(true));
    assert!(lines_starting(&pkg.render(), "Libs.private: ").is_empty());
    assert!(lines_starting(&pkg.render(), "Requires: ").is_empty());
    pkg.add_lib_private("-lm").add_lib_private("-lpthread");
    let text = pkg.render();
    assert!(text.ends_with("Cflags: -I${includedir}/foo\nLibs.private: -lm -lpthread\n"));
    assert!(lines_starting(&text, "Requires: ").is_empty());
}

#[test]
fn render_twice_is_identical() {
    let mut pkg = PkgConfig::new("foo", &config(true));
    pkg.add_lib_private("-ldl");
    assert_eq!(pkg.render(), pkg.render());
}

#[test]
fn set_description_replaces_it() {
    let mut pkg = PkgConfig::new("foo", &config(true));
    pkg.set_description("first").set_description("A foo library");
    assert!(pkg.render().contains("\nDescription: A foo library\nVersion: 0.1\n"));
}

#[test]
fn set_libs_replaces_all_link_flags() {
    let mut pkg = PkgConfig::new("foo", &config(true));
    pkg.add_lib("-lbar").set_libs("-lonly");
    assert!(pkg.render().contains("\nLibs: -lonly\nCflags: -I${includedir}/foo\n"));
}

#[test]
fn set_libs_private_replaces_link_flags() {
    let mut pkg = PkgConfig::new("foo", &config(true));
    pkg.set_libs_private("-lz");
    let text = pkg.render();
    assert!(text.contains("\nLibs: -lz\n"));
    assert!(lines_starting(&text, "Libs.private: ").is_empty());
}

#[test]
fn set_cflags_replaces_link_flags() {
    let mut pkg = PkgConfig::new("foo", &config(true));
    pkg.set_cflags("-DBAR").add_cflag("-DBAZ");
    let text = pkg.render();
    assert!(text.contains("\nLibs: -DBAR -DBAZ\nCflags: -I${includedir}/foo\n"));
}

#[test]
fn install_paths_override_prefix_only() {
    let pkg = PkgConfig::from_install_paths("foo", &install_paths(), false, false, &config(true));
    assert!(pkg.render().starts_with(
        "prefix=/opt/foo\nexec_prefix=${prefix}\nlibdir=${exec_prefix}/lib\nincludedir=${prefix}/include\n\n"
    ));
}

#[test]
fn install_paths_override_both_directories() {
    let pkg = PkgConfig::from_install_paths("foo", &install_paths(), true, true, &config(true));
    assert!(pkg.render().starts_with(
        "prefix=/opt/foo\nexec_prefix=${prefix}\nlibdir=/opt/foo/lib64\nincludedir=/opt/foo/inc\n\n"
    ));
}

#[test]
fn workspace_arguments_select_directories() {
    let app = App::new("cinstall")
        .arg(Arg::with_name("includedir").long("includedir").takes_value(true))
        .arg(Arg::with_name("libdir").long("libdir").takes_value(true));
    let args = app.get_matches_from(vec!["cinstall", "--libdir", "/opt/foo/lib64"]);
    let pkg = PkgConfig::from_workspace("foo", &install_paths(), &args, &config(true));
    assert!(pkg.render().starts_with(
        "prefix=/opt/foo\nexec_prefix=${prefix}\nlibdir=/opt/foo/lib64\nincludedir=${prefix}/include\n\n"
    ));
}
