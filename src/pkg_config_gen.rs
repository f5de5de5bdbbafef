//! The pkg-config metadata document: its fields, defaults, mutators and rendering.

use vstd::prelude::*;
use vstd::string::*;

use structopt::clap::ArgMatches;

use crate::cli::arg_given;
use crate::config::{CApiConfig, InstallPaths};
use crate::text::{join, join_strings, push_line, terminated, texts};

verus! {

/// A pkg-config metadata document.
///
/// Path fields are kept as the text that is written to the file; they may hold
/// placeholders such as `${prefix}` that pkg-config expands when it reads it.
#[derive(Debug, Clone)]
pub struct PkgConfig {
    prefix: String,
    exec_prefix: String,
    includedir: String,
    libdir: String,
    name: String,
    description: String,
    version: String,
    requires: Vec<String>,
    /// Held but never written to the rendered file.
    requires_private: Vec<String>,
    libs: Vec<String>,
    libs_private: Vec<String>,
    cflags: Vec<String>,
    /// Held but never written to the rendered file.
    conflicts: Vec<String>,
}

/// The contents of a [`PkgConfig`] as character sequences.
pub struct PkgConfigView {
    pub prefix: Seq<char>,
    pub exec_prefix: Seq<char>,
    pub includedir: Seq<char>,
    pub libdir: Seq<char>,
    pub name: Seq<char>,
    pub description: Seq<char>,
    pub version: Seq<char>,
    pub requires: Seq<Seq<char>>,
    pub requires_private: Seq<Seq<char>>,
    pub libs: Seq<Seq<char>>,
    pub libs_private: Seq<Seq<char>>,
    pub cflags: Seq<Seq<char>>,
    pub conflicts: Seq<Seq<char>>,
}

impl View for PkgConfig {
    type V = PkgConfigView;

    closed spec fn view(&self) -> PkgConfigView {
        PkgConfigView {
            prefix: self.prefix@,
            exec_prefix: self.exec_prefix@,
            includedir: self.includedir@,
            libdir: self.libdir@,
            name: self.name@,
            description: self.description@,
            version: self.version@,
            requires: texts(self.requires@),
            requires_private: texts(self.requires_private@),
            libs: texts(self.libs@),
            libs_private: texts(self.libs_private@),
            cflags: texts(self.cflags@),
            conflicts: texts(self.conflicts@),
        }
    }
}

/// The default link flags for a library: `-L${libdir} -l<library>`.
pub open spec fn default_libs(library: Seq<char>) -> Seq<Seq<char>> {
    seq!["-L${libdir} -l"@ + library]
}

/// The default compiler flags: the include directory, or its subdirectory
/// named `name` when headers are installed in a subdirectory.
pub open spec fn default_cflags(name: Seq<char>, subdirectory: bool) -> Seq<Seq<char>> {
    if subdirectory {
        seq!["-I${includedir}/"@ + name]
    } else {
        seq!["-I${includedir}"@]
    }
}

impl PkgConfigView {
    /// The lines of the rendered file, without their newlines: the four path
    /// variables, a blank line, the package fields, then `Libs.private:` and
    /// `Requires:` where their lists are non-empty.
    pub open spec fn lines(self) -> Seq<Seq<char>> {
        let base = seq![
            "prefix="@ + self.prefix,
            "exec_prefix="@ + self.exec_prefix,
            "libdir="@ + self.libdir,
            "includedir="@ + self.includedir,
            Seq::<char>::empty(),
            "Name: "@ + self.name,
            "Description: "@ + self.description,
            "Version: "@ + self.version,
            "Libs: "@ + join(self.libs, " "@),
            "Cflags: "@ + join(self.cflags, " "@),
        ];
        let with_private = if self.libs_private.len() > 0 {
            base.push("Libs.private: "@ + join(self.libs_private, " "@))
        } else {
            base
        };
        if self.requires.len() > 0 {
            with_private.push("Requires: "@ + join(self.requires, ", "@))
        } else {
            with_private
        }
    }

    /// The rendered file: each line followed by a newline.
    pub open spec fn text(self) -> Seq<char> {
        terminated(self.lines())
    }

    /// The document built from `cfg` with the default install layout under `/usr/local`.
    pub open spec fn defaults(name: Seq<char>, cfg: CApiConfig) -> PkgConfigView {
        PkgConfigView {
            prefix: "/usr/local"@,
            exec_prefix: "${prefix}"@,
            includedir: "${prefix}/include"@,
            libdir: "${exec_prefix}/lib"@,
            name: cfg.pkg_config.name@,
            description: cfg.pkg_config.description@,
            version: cfg.pkg_config.version@,
            requires: seq![],
            requires_private: seq![],
            libs: default_libs(cfg.library.name@),
            libs_private: seq![],
            cflags: default_cflags(name, cfg.header.subdirectory),
            conflicts: seq![],
        }
    }

    /// The default document with the prefix of the install layout, and its include
    /// and library directories where a custom one was asked for.
    ///
    /// `exec_prefix` keeps its default: a custom one is not supported.
    pub open spec fn installed(
        name: Seq<char>,
        paths: InstallPaths,
        custom_includedir: bool,
        custom_libdir: bool,
        cfg: CApiConfig,
    ) -> PkgConfigView {
        let d = Self::defaults(name, cfg);
        let includedir = if custom_includedir { paths.includedir@ } else { d.includedir };
        let libdir = if custom_libdir { paths.libdir@ } else { d.libdir };
        PkgConfigView { prefix: paths.prefix@, includedir, libdir, ..d }
    }
}

impl PkgConfig {
    /// Builds a document with these defaults:
    ///
    /// ```text
    /// prefix=/usr/local
    /// exec_prefix=${prefix}
    /// includedir=${prefix}/include
    /// libdir=${exec_prefix}/lib
    ///
    /// Name: $name
    /// Description: $description
    /// Version: $version
    /// Cflags: -I${includedir}/$name
    /// Libs: -L${libdir} -l$library
    /// ```
    ///
    /// The package fields come from `capi_config.pkg_config` and `$library`
    /// from `capi_config.library`; `Cflags:` names the subdirectory `name` only
    /// when `capi_config.header.subdirectory` is set.
    pub fn new(name: &str, capi_config: &CApiConfig) -> (r: PkgConfig)
        ensures
            r@ == PkgConfigView::defaults(name@, *capi_config),
    {
        let mut lib = String::from_str("-L${libdir} -l");
        lib.append(capi_config.library.name.as_str());
        let cflag = if capi_config.header.subdirectory {
            let mut f = String::from_str("-I${includedir}/");
            f.append(name);
            f
        } else {
            String::from_str("-I${includedir}")
        };
        let r = PkgConfig {
            prefix: String::from_str("/usr/local"),
            exec_prefix: String::from_str("${prefix}"),
            includedir: String::from_str("${prefix}/include"),
            libdir: String::from_str("${exec_prefix}/lib"),
            name: capi_config.pkg_config.name.clone(),
            description: capi_config.pkg_config.description.clone(),
            version: capi_config.pkg_config.version.clone(),
            requires: Vec::new(),
            requires_private: Vec::new(),
            libs: vec![lib],
            libs_private: Vec::new(),
            cflags: vec![cflag],
            conflicts: Vec::new(),
        };
        assert(texts(r.libs@) =~= default_libs(capi_config.library.name@));
        assert(texts(r.cflags@) =~= default_cflags(name@, capi_config.header.subdirectory));
        assert(texts(r.requires@) =~= seq![]);
        assert(texts(r.requires_private@) =~= seq![]);
        assert(texts(r.libs_private@) =~= seq![]);
        assert(texts(r.conflicts@) =~= seq![]);
        r
    }

    /// Builds the default document, then takes the prefix from `install_paths`,
    /// and its include and library directories where `custom_includedir` and
    /// `custom_libdir` ask for them.
    pub fn from_install_paths(
        name: &str,
        install_paths: &InstallPaths,
        custom_includedir: bool,
        custom_libdir: bool,
        capi_config: &CApiConfig,
    ) -> (r: PkgConfig)
        ensures
            r@ == PkgConfigView::installed(
                name@,
                *install_paths,
                custom_includedir,
                custom_libdir,
                *capi_config,
            ),
    {
        let mut pc = PkgConfig::new(name, capi_config);
        pc.prefix = install_paths.prefix.clone();
        if custom_includedir {
            pc.includedir = install_paths.includedir.clone();
        }
        if custom_libdir {
            pc.libdir = install_paths.libdir.clone();
        }
        pc
    }

    /// Builds the document for an install, where the `includedir` and `libdir`
    /// arguments of `args` ask for the custom directories of `install_paths`.
    pub fn from_workspace(
        name: &str,
        install_paths: &InstallPaths,
        args: &ArgMatches,
        capi_config: &CApiConfig,
    ) -> (r: PkgConfig)
        ensures
            (exists|custom_includedir: bool, custom_libdir: bool|
                r@ == PkgConfigView::installed(
                    name@,
                    *install_paths,
                    custom_includedir,
                    custom_libdir,
                    *capi_config,
                )),
    {
        let custom_includedir = arg_given(args, "includedir");
        let custom_libdir = arg_given(args, "libdir");
        PkgConfig::from_install_paths(name, install_paths, custom_includedir, custom_libdir, capi_config)
    }

    /// Replaces the description.
    pub fn set_description(&mut self, descr: &str) -> (r: &mut Self)
        ensures
            r@ == (PkgConfigView { description: descr@, ..old(self)@ }),
            *final(self) == *final(r),
    {
        self.description = descr.to_owned();
        self
    }

    /// Replaces the link flags with the single entry `lib`.
    pub fn set_libs(&mut self, lib: &str) -> (r: &mut Self)
        ensures
            r@ == (PkgConfigView { libs: seq![lib@], ..old(self)@ }),
            *final(self) == *final(r),
    {
        self.libs = vec![lib.to_owned()];
        assert(texts(self.libs@) =~= seq![lib@]);
        self
    }

    /// Appends `lib` to the link flags.
    pub fn add_lib(&mut self, lib: &str) -> (r: &mut Self)
        ensures
            r@ == (PkgConfigView { libs: old(self)@.libs.push(lib@), ..old(self)@ }),
            *final(self) == *final(r),
    {
        self.libs.push(lib.to_owned());
        assert(texts(self.libs@) =~= texts(old(self).libs@).push(lib@));
        self
    }

    /// Replaces the link flags (`Libs:`, not `Libs.private:`) with the single
    /// entry `lib`.
    ///
    /// Files already generated rely on this routing of the flag.
    pub fn set_libs_private(&mut self, lib: &str) -> (r: &mut Self)
        ensures
            r@ == (PkgConfigView { libs: seq![lib@], ..old(self)@ }),
            *final(self) == *final(r),
    {
        self.libs = vec![lib.to_owned()];
        assert(texts(self.libs@) =~= seq![lib@]);
        self
    }

    /// Appends `lib` to the private link flags.
    pub fn add_lib_private(&mut self, lib: &str) -> (r: &mut Self)
        ensures
            r@ == (PkgConfigView { libs_private: old(self)@.libs_private.push(lib@), ..old(self)@ }),
            *final(self) == *final(r),
    {
        self.libs_private.push(lib.to_owned());
        assert(texts(self.libs_private@) =~= texts(old(self).libs_private@).push(lib@));
        self
    }

    /// Replaces the link flags (`Libs:`, not `Cflags:`) with the single entry
    /// `flag`.
    ///
    /// Files already generated rely on this routing of the flag.
    pub fn set_cflags(&mut self, flag: &str) -> (r: &mut Self)
        ensures
            r@ == (PkgConfigView { libs: seq![flag@], ..old(self)@ }),
            *final(self) == *final(r),
    {
        self.libs = vec![flag.to_owned()];
        assert(texts(self.libs@) =~= seq![flag@]);
        self
    }

    /// Appends `flag` to the link flags (`Libs:`, not `Cflags:`).
    ///
    /// Files already generated rely on this routing of the flag.
    pub fn add_cflag(&mut self, flag: &str) -> (r: &mut Self)
        ensures
            r@ == (PkgConfigView { libs: old(self)@.libs.push(flag@), ..old(self)@ }),
            *final(self) == *final(r),
    {
        self.libs.push(flag.to_owned());
        assert(texts(self.libs@) =~= texts(old(self).libs@).push(flag@));
        self
    }

    /// Renders the document in the pkg-config file format.
    ///
    /// `requires_private` and `conflicts` are not written.
    pub fn render(&self) -> (r: String)
        ensures
            r@ == self@.text(),
    {
        let ghost v = self@;
        let ghost mut lines = Seq::<Seq<char>>::empty();
        let libs = join_strings(&self.libs, " ");
        let cflags = join_strings(&self.cflags, " ");
        let mut out = String::new();
        push_line(&mut out, "prefix=", self.prefix.as_str(), Ghost(lines));
        proof { lines = lines.push("prefix="@ + v.prefix); }
        push_line(&mut out, "exec_prefix=", self.exec_prefix.as_str(), Ghost(lines));
        proof { lines = lines.push("exec_prefix="@ + v.exec_prefix); }
        push_line(&mut out, "libdir=", self.libdir.as_str(), Ghost(lines));
        proof { lines = lines.push("libdir="@ + v.libdir); }
        push_line(&mut out, "includedir=", self.includedir.as_str(), Ghost(lines));
        proof { lines = lines.push("includedir="@ + v.includedir); }
        push_line(&mut out, "", "", Ghost(lines));
        proof { lines = lines.push(""@ + ""@); }
        push_line(&mut out, "Name: ", self.name.as_str(), Ghost(lines));
        proof { lines = lines.push("Name: "@ + v.name); }
        push_line(&mut out, "Description: ", self.description.as_str(), Ghost(lines));
        proof { lines = lines.push("Description: "@ + v.description); }
        push_line(&mut out, "Version: ", self.version.as_str(), Ghost(lines));
        proof { lines = lines.push("Version: "@ + v.version); }
        push_line(&mut out, "Libs: ", libs.as_str(), Ghost(lines));
        proof { lines = lines.push("Libs: "@ + join(v.libs, " "@)); }
        push_line(&mut out, "Cflags: ", cflags.as_str(), Ghost(lines));
        proof {
            lines = lines.push("Cflags: "@ + join(v.cflags, " "@));
            reveal_strlit("");
            assert(""@ + ""@ =~= Seq::<char>::empty());
        }
        if self.libs_private.len() > 0 {
            let private = join_strings(&self.libs_private, " ");
            push_line(&mut out, "Libs.private: ", private.as_str(), Ghost(lines));
            proof { lines = lines.push("Libs.private: "@ + join(v.libs_private, " "@)); }
        }
        if self.requires.len() > 0 {
            let deps = join_strings(&self.requires, ", ");
            push_line(&mut out, "Requires: ", deps.as_str(), Ghost(lines));
            proof { lines = lines.push("Requires: "@ + join(v.requires, ", "@)); }
        }
        assert(lines =~= v.lines());
        out
    }
}

} // verus!
