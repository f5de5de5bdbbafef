//! Facts about the layout of a rendered metadata file.

use vstd::prelude::*;

use crate::config::CApiConfig;
use crate::pkg_config_gen::PkgConfigView;
use crate::text::{join, only_line_starting, starts_with, terminated};

verus! {

/// Whether `s` holds no newline.
pub open spec fn single_line(s: Seq<char>) -> bool {
    forall|i: int| 0 <= i < s.len() ==> s[i] != '\n'
}

/// Whether every entry of `parts` holds no newline.
pub open spec fn single_line_all(parts: Seq<Seq<char>>) -> bool {
    forall|i: int| 0 <= i < parts.len() ==> single_line(#[trigger] parts[i])
}

impl PkgConfigView {
    /// Whether no rendered field holds a newline, so that each field stays on
    /// the line of its key.
    pub open spec fn single_line_fields(self) -> bool {
        &&& single_line(self.prefix)
        &&& single_line(self.exec_prefix)
        &&& single_line(self.includedir)
        &&& single_line(self.libdir)
        &&& single_line(self.name)
        &&& single_line(self.description)
        &&& single_line(self.version)
        &&& single_line_all(self.requires)
        &&& single_line_all(self.libs)
        &&& single_line_all(self.libs_private)
        &&& single_line_all(self.cflags)
    }
}

/// Joining single-line parts with a single-line separator gives a single line.
pub proof fn lemma_join_single_line(parts: Seq<Seq<char>>, sep: Seq<char>)
    requires
        single_line_all(parts),
        single_line(sep),
    ensures
        single_line(join(parts, sep)),
    decreases parts.len(),
{
    if parts.len() > 1 {
        lemma_join_single_line(parts.drop_last(), sep);
        assert(single_line(parts.last()));
    } else if parts.len() == 1 {
        assert(single_line(parts[0]));
    }
}

/// A text that begins with `key` starts with it.
proof fn lemma_starts_with_key(key: Seq<char>, value: Seq<char>)
    ensures
        starts_with(key + value, key),
{
    assert((key + value).subrange(0, key.len() as int) =~= key);
}

/// A text that differs from `key` at its first or fifth character does not
/// start with it.
proof fn lemma_differs_from_key(s: Seq<char>, key: Seq<char>)
    ensures
        s.len() > 0 && key.len() > 0 && s[0] != key[0] ==> !starts_with(s, key),
        s.len() > 4 && key.len() > 4 && s[4] != key[4] ==> !starts_with(s, key),
{
    if starts_with(s, key) {
        if key.len() > 0 {
            assert(s.subrange(0, key.len() as int)[0] == key[0]);
        }
        if key.len() > 4 {
            assert(s.subrange(0, key.len() as int)[4] == key[4]);
        }
    }
}

/// Every line of a rendered document whose fields hold no newline is a single
/// line, and `Name:`, `Description:`, `Version:`, `Libs:` and `Cflags:` each
/// begin exactly one line, in that order.
pub proof fn lemma_fields_once_in_order(v: PkgConfigView)
    requires
        v.single_line_fields(),
    ensures
        v.text() == terminated(v.lines()),
        single_line_all(v.lines()),
        only_line_starting(v.lines(), "Name: "@, 5),
        only_line_starting(v.lines(), "Description: "@, 6),
        only_line_starting(v.lines(), "Version: "@, 7),
        only_line_starting(v.lines(), "Libs: "@, 8),
        only_line_starting(v.lines(), "Cflags: "@, 9),
{
    reveal_strlit("prefix=");
    reveal_strlit("exec_prefix=");
    reveal_strlit("libdir=");
    reveal_strlit("includedir=");
    reveal_strlit("Name: ");
    reveal_strlit("Description: ");
    reveal_strlit("Version: ");
    reveal_strlit("Libs: ");
    reveal_strlit("Cflags: ");
    reveal_strlit("Libs.private: ");
    reveal_strlit("Requires: ");
    reveal_strlit(" ");
    reveal_strlit(", ");
    lemma_join_single_line(v.libs, " "@);
    lemma_join_single_line(v.cflags, " "@);
    lemma_join_single_line(v.libs_private, " "@);
    lemma_join_single_line(v.requires, ", "@);
    let lines = v.lines();
    assert(single_line_all(lines));
    assert forall|j: int| 0 <= j < lines.len() implies (starts_with(#[trigger] lines[j], "Name: "@) <==> j == 5) by {
        lemma_differs_from_key(lines[j], "Name: "@);
        if j == 5 {
            lemma_starts_with_key("Name: "@, v.name);
        }
        assert(0 <= j < 12);
    }
    assert forall|j: int| 0 <= j < lines.len() implies (starts_with(#[trigger] lines[j], "Description: "@) <==> j == 6) by {
        lemma_differs_from_key(lines[j], "Description: "@);
        if j == 6 {
            lemma_starts_with_key("Description: "@, v.description);
        }
        assert(0 <= j < 12);
    }
    assert forall|j: int| 0 <= j < lines.len() implies (starts_with(#[trigger] lines[j], "Version: "@) <==> j == 7) by {
        lemma_differs_from_key(lines[j], "Version: "@);
        if j == 7 {
            lemma_starts_with_key("Version: "@, v.version);
        }
        assert(0 <= j < 12);
    }
    assert forall|j: int| 0 <= j < lines.len() implies (starts_with(#[trigger] lines[j], "Libs: "@) <==> j == 8) by {
        lemma_differs_from_key(lines[j], "Libs: "@);
        if j == 8 {
            lemma_starts_with_key("Libs: "@, join(v.libs, " "@));
        }
        assert(0 <= j < 12);
    }
    assert forall|j: int| 0 <= j < lines.len() implies (starts_with(#[trigger] lines[j], "Cflags: "@) <==> j == 9) by {
        lemma_differs_from_key(lines[j], "Cflags: "@);
        if j == 9 {
            lemma_starts_with_key("Cflags: "@, join(v.cflags, " "@));
        }
        assert(0 <= j < 12);
    }
}

/// A rendered document whose fields hold no newline has a `Libs.private:` line
/// exactly when it has private link flags, and a `Requires:` line exactly when
/// it has required packages.
pub proof fn lemma_optional_lines(v: PkgConfigView)
    requires
        v.single_line_fields(),
    ensures
        (exists|j: int| 0 <= j < v.lines().len() && starts_with(#[trigger] v.lines()[j], "Libs.private: "@))
            <==> v.libs_private.len() > 0,
        (exists|j: int| 0 <= j < v.lines().len() && starts_with(#[trigger] v.lines()[j], "Requires: "@))
            <==> v.requires.len() > 0,
{
    reveal_strlit("prefix=");
    reveal_strlit("exec_prefix=");
    reveal_strlit("libdir=");
    reveal_strlit("includedir=");
    reveal_strlit("Name: ");
    reveal_strlit("Description: ");
    reveal_strlit("Version: ");
    reveal_strlit("Libs: ");
    reveal_strlit("Cflags: ");
    reveal_strlit("Libs.private: ");
    reveal_strlit("Requires: ");
    let lines = v.lines();
    if v.libs_private.len() > 0 {
        lemma_starts_with_key("Libs.private: "@, join(v.libs_private, " "@));
        assert(starts_with(lines[10], "Libs.private: "@));
    } else {
        assert forall|j: int| 0 <= j < lines.len() implies !starts_with(#[trigger] lines[j], "Libs.private: "@) by {
            lemma_differs_from_key(lines[j], "Libs.private: "@);
            assert(0 <= j < 11);
        }
    }
    if v.requires.len() > 0 {
        lemma_starts_with_key("Requires: "@, join(v.requires, ", "@));
        assert(starts_with(lines[lines.len() - 1], "Requires: "@));
    } else {
        assert forall|j: int| 0 <= j < lines.len() implies !starts_with(#[trigger] lines[j], "Requires: "@) by {
            lemma_differs_from_key(lines[j], "Requires: "@);
            assert(0 <= j < 11);
        }
    }
}

/// Rendering depends on the contents of the document alone: two documents
/// with equal contents render to the same text, so rendering twice with no
/// change in between gives the same text.
pub proof fn lemma_render_deterministic(a: PkgConfigView, b: PkgConfigView)
    requires
        a == b,
    ensures
        a.text() == b.text(),
{
}

/// In a default document, the `Libs:` line links `library` from `${libdir}`,
/// and the `Cflags:` line names the include directory, or its subdirectory
/// `name` when headers are installed in a subdirectory.
pub proof fn lemma_default_flag_lines(name: Seq<char>, cfg: CApiConfig)
    ensures
        PkgConfigView::defaults(name, cfg).lines()[8] == "Libs: "@ + ("-L${libdir} -l"@ + cfg.library.name@),
        cfg.header.subdirectory ==> PkgConfigView::defaults(name, cfg).lines()[9] == "Cflags: "@
            + ("-I${includedir}/"@ + name),
        !cfg.header.subdirectory ==> PkgConfigView::defaults(name, cfg).lines()[9] == "Cflags: "@
            + "-I${includedir}"@,
{
    let d = PkgConfigView::defaults(name, cfg);
    assert(join(d.libs, " "@) == d.libs[0]);
    assert(join(d.cflags, " "@) == d.cflags[0]);
}

} // verus!
