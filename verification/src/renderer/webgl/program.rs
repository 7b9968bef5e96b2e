//! Shader sources: `#define` macros, named code snippets, and the expansion
//! of `#include <name>` directives before a shader is compiled.
use vstd::prelude::*;

use super::capture::{capture_group, regex_capture};
use crate::utils::{lines_of, split_lines, str_eq, trim, trimmed};

verus! {

/// Name of the directive that injects the defines macros: `#include Defines`.
pub const GLSL_REPLACEMENT_DEFINES: &'static str = "Defines";

/// Regular expression matching a replacement directive `#include <snippet_name>`.
pub const GLSL_REPLACEMENT_DERIVATIVE_REGEX: &'static str = "^\\s*#include\\s+(.+)\\s*$";

/// GLSL `#define` macro definition.
#[derive(Debug, Clone, PartialEq, Eq)]
pub enum Define {
    /// Define macro with value, build to `#define <name> <value>`.
    WithValue(String, String),
    /// Define macro without value, build to `#define <name>`.
    WithoutValue(String),
}

impl Define {
    /// The name of the macro.
    pub open spec fn spec_name(&self) -> Seq<char> {
        match self {
            Define::WithValue(name, _) => name@,
            Define::WithoutValue(name) => name@,
        }
    }

    /// The value of the macro, if it has one.
    pub open spec fn spec_value(&self) -> Option<Seq<char>> {
        match self {
            Define::WithValue(_, value) => Some(value@),
            Define::WithoutValue(_) => None,
        }
    }

    /// The GLSL directive defining the macro.
    pub open spec fn spec_build(&self) -> Seq<char> {
        match self {
            Define::WithValue(name, value) => "#define "@ + name@ + " "@ + value@,
            Define::WithoutValue(name) => "#define "@ + name@,
        }
    }

    /// Returns name of define macro.
    pub fn name(&self) -> (r: &str)
        ensures
            r@ == self.spec_name(),
    {
        match self {
            Define::WithValue(name, _) => name.as_str(),
            Define::WithoutValue(name) => name.as_str(),
        }
    }

    /// Returns value of define macro.
    pub fn value(&self) -> (r: Option<&str>)
        ensures
            match r {
                Some(v) => self.spec_value() == Some(v@),
                None => self.spec_value() is None,
            },
    {
        match self {
            Define::WithValue(_, value) => Some(value.as_str()),
            Define::WithoutValue(_) => None,
        }
    }

    /// Builds to GLSL define macro derivative.
    pub fn build(&self) -> (r: String)
        ensures
            r@ == self.spec_build(),
    {
        let mut out = String::from_str("#define ");
        match self {
            Define::WithValue(name, value) => {
                out.append(name.as_str());
                out.append(" ");
                out.append(value.as_str());
            },
            Define::WithoutValue(name) => {
                out.append(name.as_str());
            },
        }
        out
    }
}

/// A source providing data for compiling a WebGL program. The spec functions
/// name what each method returns, and an implementation's methods return
/// them. Each has a default (empty, or no snippet) so that an implementation
/// outside verified code need not write it; for a source of unknown type
/// nothing is assumed of them but what its methods return.
pub trait ProgramSource {
    /// The global unique name of the program source.
    closed spec fn spec_name(&self) -> Seq<char> {
        Seq::empty()
    }

    /// The source code of the vertex shader.
    closed spec fn spec_vertex_source(&self) -> Seq<char> {
        Seq::empty()
    }

    /// The source code of the fragment shader.
    closed spec fn spec_fragment_source(&self) -> Seq<char> {
        Seq::empty()
    }

    /// The universal defines.
    closed spec fn spec_universal_defines(&self) -> Seq<Define> {
        Seq::empty()
    }

    /// The defines of the vertex shader.
    closed spec fn spec_vertex_defines(&self) -> Seq<Define> {
        Seq::empty()
    }

    /// The defines of the fragment shader.
    closed spec fn spec_fragment_defines(&self) -> Seq<Define> {
        Seq::empty()
    }

    /// The source's own snippet named `name`.
    closed spec fn spec_snippet(&self, name: Seq<char>) -> Option<Seq<char>> {
        None
    }

    /// Global unique name for the program source.
    fn name(&self) -> (r: String)
        ensures
            r@ == self.spec_name(),
    ;

    /// Returns source code of vertex shader.
    fn vertex_source(&self) -> (r: String)
        ensures
            r@ == self.spec_vertex_source(),
    ;

    /// Returns source code of fragment shader.
    fn fragment_source(&self) -> (r: String)
        ensures
            r@ == self.spec_fragment_source(),
    ;

    /// Returns universal defines macros for both vertex and fragment shaders.
    /// [`GLSL_REPLACEMENT_DEFINES`] should be placed once and only once in source code of vertex shader to make this work.
    fn universal_defines(&self) -> (r: Vec<Define>)
        ensures
            r@ == self.spec_universal_defines(),
    ;

    /// Returns defines macros for vertex shader.
    /// [`GLSL_REPLACEMENT_DEFINES`] should be placed once and only once in source code of vertex shader to make this work.
    fn vertex_defines(&self) -> (r: Vec<Define>)
        ensures
            r@ == self.spec_vertex_defines(),
    ;

    /// Returns defines macros for fragment shader.
    /// [`GLSL_REPLACEMENT_DEFINES`] should be placed once and only once in source code of fragment shader to make this work.
    fn fragment_defines(&self) -> (r: Vec<Define>)
        ensures
            r@ == self.spec_fragment_defines(),
    ;

    /// Returns self-associated GLSL code snippet by name.
    fn snippet(&self, name: &str) -> (r: Option<String>)
        ensures
            match r {
                Some(s) => self.spec_snippet(name@) == Some(s@),
                None => self.spec_snippet(name@) is None,
            },
    ;
}

/// The source's own snippets for the names `names`, in order.
pub open spec fn source_snippets<S: ProgramSource>(source: S, names: Seq<Seq<char>>) -> Seq<Option<Seq<char>>> {
    Seq::new(names.len(), |i: int| source.spec_snippet(names[i]))
}

/// The shader code that [`ProgramSnippets::replace_snippets`] makes of the
/// vertex (when `is_vertex`) or fragment shader of `source`, with the
/// snippets of `store`.
pub open spec fn replaced_source<S: ProgramSource>(store: ProgramSnippets, source: S, is_vertex: bool) -> Seq<char> {
    let code = if is_vertex {
        source.spec_vertex_source()
    } else {
        source.spec_fragment_source()
    };
    let defines = if is_vertex {
        source.spec_vertex_defines()
    } else {
        source.spec_fragment_defines()
    };
    let names = directive_names(lines_of(code));
    expanded_source(
        code,
        defines_text(source.spec_universal_defines() + defines),
        resolved_table(names, source_snippets(source, names), store),
    )
}

/// Each stage's code is made of that stage's own source and defines: two
/// sources that hand over the same universal defines and snippets give the
/// same fragment shader code when their fragment sources and fragment defines
/// agree, whatever their vertex shaders, and the same vertex shader code when
/// their vertex sources and vertex defines agree, whatever their fragment
/// shaders.
pub proof fn lemma_replaced_source_reads_its_stage<S: ProgramSource>(store: ProgramSnippets, a: S, b: S)
    requires
        a.spec_universal_defines() == b.spec_universal_defines(),
        forall|name: Seq<char>| #[trigger] a.spec_snippet(name) == b.spec_snippet(name),
    ensures
        a.spec_fragment_source() == b.spec_fragment_source() && a.spec_fragment_defines()
            == b.spec_fragment_defines() ==> replaced_source(store, a, false) == replaced_source(store, b, false),
        a.spec_vertex_source() == b.spec_vertex_source() && a.spec_vertex_defines() == b.spec_vertex_defines()
            ==> replaced_source(store, a, true) == replaced_source(store, b, true),
{
    assert forall|names: Seq<Seq<char>>| #[trigger] source_snippets(a, names) == source_snippets(b, names) by {
        assert(source_snippets(a, names) =~= source_snippets(b, names));
    }
}

/// The directives defining `defines`, one per line.
pub open spec fn defines_text(defines: Seq<Define>) -> Seq<char>
    decreases defines.len(),
{
    if defines.len() == 0 {
        Seq::empty()
    } else {
        defines_text(defines.drop_last()) + defines.last().spec_build() + "\n"@
    }
}

/// Builds the directives defining `universal` and then `defines`, one per line.
pub fn build_defines(universal: &Vec<Define>, defines: &Vec<Define>) -> (r: String)
    ensures
        r@ == defines_text(universal@ + defines@),
{
    let ghost all = universal@ + defines@;
    let mut out = String::new();
    let mut i: usize = 0;
    assert(defines_text(all.take(0)) =~= Seq::<char>::empty());
    while i < universal.len()
        invariant
            all == universal@ + defines@,
            i <= universal@.len(),
            out@ == defines_text(all.take(i as int)),
        decreases universal@.len() - i,
    {
        assert(universal@[i as int] == all[i as int]);
        assert(all.take(i + 1).drop_last() =~= all.take(i as int));
        out.append(universal[i].build().as_str());
        out.append("\n");
        i = i + 1;
    }
    let mut k: usize = 0;
    while k < defines.len()
        invariant
            all == universal@ + defines@,
            k <= defines@.len(),
            out@ == defines_text(all.take(universal@.len() + k)),
        decreases defines@.len() - k,
    {
        assert(defines@[k as int] == all[universal@.len() + k]);
        assert(all.take(universal@.len() + k + 1).drop_last() =~= all.take(universal@.len() + k));
        out.append(defines[k].build().as_str());
        out.append("\n");
        k = k + 1;
    }
    assert(all.take(all.len() as int) =~= all);
    out
}

/// The snippet named `name` in `table`: the first one of that name.
pub open spec fn snippet_lookup(table: Seq<(Seq<char>, Seq<char>)>, name: Seq<char>) -> Option<Seq<char>>
    decreases table.len(),
{
    if table.len() == 0 {
        None
    } else if table[0].0 == name {
        Some(table[0].1)
    } else {
        snippet_lookup(table.drop_first(), name)
    }
}

/// The text of a table of snippets.
pub open spec fn table_view(table: Seq<(String, String)>) -> Seq<(Seq<char>, Seq<char>)> {
    table.map_values(|e: (String, String)| (e.0@, e.1@))
}

/// Finds the snippet named `name` in `table`.
pub fn find_snippet<'a>(table: &'a Vec<(String, String)>, name: &str) -> (r: Option<&'a str>)
    ensures
        match r {
            Some(s) => snippet_lookup(table_view(table@), name@) == Some(s@),
            None => snippet_lookup(table_view(table@), name@) is None,
        },
{
    let ghost t = table_view(table@);
    let mut i: usize = 0;
    assert(t.subrange(0, t.len() as int) =~= t);
    while i < table.len()
        invariant
            t == table_view(table@),
            i <= table@.len(),
            snippet_lookup(t, name@) == snippet_lookup(t.subrange(i as int, t.len() as int), name@),
        decreases table@.len() - i,
    {
        assert(t.subrange(i as int, t.len() as int).drop_first() =~= t.subrange(i + 1, t.len() as int));
        if str_eq(table[i].0.as_str(), name) {
            return Some(table[i].1.as_str());
        }
        i = i + 1;
    }
    None
}

/// The snippet an include directive names in `line`, if `line` holds one:
/// the first group [`GLSL_REPLACEMENT_DERIVATIVE_REGEX`] captures, trimmed.
pub open spec fn include_of(line: Seq<char>) -> Option<Seq<char>> {
    match regex_capture(GLSL_REPLACEMENT_DERIVATIVE_REGEX@, line, 1) {
        Some(c) => Some(trimmed(c)),
        None => None,
    }
}

/// Returns the snippet an include directive names in `line`, if any.
pub fn include_name(line: &str) -> (r: Option<String>)
    ensures
        match r {
            Some(s) => include_of(line@) == Some(s@),
            None => include_of(line@) is None,
        },
{
    match capture_group(GLSL_REPLACEMENT_DERIVATIVE_REGEX, line, 1) {
        Some(captured) => Some(trim(captured.as_str())),
        None => None,
    }
}

/// What one line of code becomes, given the snippet its include directive
/// names (if it is one), the defines text, the snippets, and the names
/// included so far; and the names included after it. A line that is no
/// directive stays; a directive is replaced by the defines (for
/// [`GLSL_REPLACEMENT_DEFINES`]) or by the named snippet, each only the first
/// time; a directive whose snippet is unknown is dropped.
pub open spec fn expand_line(
    line: Seq<char>,
    directive: Option<Seq<char>>,
    defines: Seq<char>,
    table: Seq<(Seq<char>, Seq<char>)>,
    included: Seq<Seq<char>>,
) -> (Seq<char>, Seq<Seq<char>>) {
    match directive {
        None => (line + "\n"@, included),
        Some(name) => if included.contains(name) {
            (Seq::empty(), included)
        } else if name == GLSL_REPLACEMENT_DEFINES@ {
            (defines, included.push(name))
        } else {
            match snippet_lookup(table, name) {
                Some(snippet) => (snippet + "\n"@, included.push(name)),
                None => (Seq::empty(), included),
            }
        },
    }
}

/// What the lines of code become, one after the other.
pub open spec fn expand_lines(
    lines: Seq<Seq<char>>,
    includes: Seq<Option<Seq<char>>>,
    defines: Seq<char>,
    table: Seq<(Seq<char>, Seq<char>)>,
    included: Seq<Seq<char>>,
) -> Seq<char>
    decreases lines.len(),
{
    if lines.len() == 0 || includes.len() == 0 {
        Seq::empty()
    } else {
        let (text, next) = expand_line(lines[0], includes[0], defines, table, included);
        text + expand_lines(lines.drop_first(), includes.drop_first(), defines, table, next)
    }
}

/// The text of optional strings.
pub open spec fn options_view(v: Seq<Option<String>>) -> Seq<Option<Seq<char>>> {
    v.map_values(|o: Option<String>| match o {
        Some(s) => Some(s@),
        None => None,
    })
}

/// The text of strings.
pub open spec fn strings_view(v: Seq<String>) -> Seq<Seq<char>> {
    v.map_values(|s: String| s@)
}

fn included_contains(included: &Vec<String>, name: &str) -> (r: bool)
    ensures
        r == strings_view(included@).contains(name@),
{
    let mut i: usize = 0;
    while i < included.len()
        invariant
            i <= included@.len(),
            forall|j: int| 0 <= j < i ==> included@[j]@ != name@,
        decreases included@.len() - i,
    {
        if str_eq(included[i].as_str(), name) {
            assert(strings_view(included@)[i as int] == name@);
            return true;
        }
        i = i + 1;
    }
    assert forall|j: int| 0 <= j < strings_view(included@).len() implies strings_view(included@)[j] != name@ by {
        assert(strings_view(included@)[j] == included@[j]@);
    }
    false
}

/// Replaces the include directives of the lines of code: `includes` holds,
/// for each line, the snippet its directive names (if it is one), `defines`
/// the defines text and `table` the known snippets.
pub fn expand_includes(
    lines: &Vec<String>,
    includes: &Vec<Option<String>>,
    defines: &str,
    table: &Vec<(String, String)>,
) -> (r: String)
    requires
        lines@.len() == includes@.len(),
    ensures
        r@ == expand_lines(strings_view(lines@), options_view(includes@), defines@, table_view(table@), Seq::empty()),
{
    let ghost ls = strings_view(lines@);
    let ghost is = options_view(includes@);
    let ghost t = table_view(table@);
    let mut out = String::new();
    let mut included: Vec<String> = Vec::new();
    let mut i: usize = 0;
    assert(ls.subrange(0, ls.len() as int) =~= ls);
    assert(is.subrange(0, is.len() as int) =~= is);
    assert(strings_view(included@) =~= Seq::<Seq<char>>::empty());
    assert(out@ + expand_lines(ls, is, defines@, t, Seq::empty()) =~= expand_lines(ls, is, defines@, t, Seq::empty()));
    while i < lines.len()
        invariant
            ls == strings_view(lines@),
            is == options_view(includes@),
            t == table_view(table@),
            lines@.len() == includes@.len(),
            i <= lines@.len(),
            out@ + expand_lines(ls.subrange(i as int, ls.len() as int), is.subrange(i as int, is.len() as int),
                defines@, t, strings_view(included@)) == expand_lines(ls, is, defines@, t, Seq::empty()),
        decreases lines@.len() - i,
    {
        let ghost rest_l = ls.subrange(i as int, ls.len() as int);
        let ghost rest_i = is.subrange(i as int, is.len() as int);
        assert(rest_l.drop_first() =~= ls.subrange(i + 1, ls.len() as int));
        assert(rest_i.drop_first() =~= is.subrange(i + 1, is.len() as int));
        assert(rest_l[0] == lines@[i as int]@);
        let ghost before_out = out@;
        let ghost before_inc = strings_view(included@);
        let ghost step = expand_line(rest_l[0], rest_i[0], defines@, t, before_inc);
        match &includes[i] {
            None => {
                assert(rest_i[0] is None);
                out.append(lines[i].as_str());
                out.append("\n");
            },
            Some(name) => {
                assert(rest_i[0] == Some(name@));
                if included_contains(&included, name.as_str()) {
                } else if str_eq(name.as_str(), GLSL_REPLACEMENT_DEFINES) {
                    out.append(defines);
                    included.push(name.clone());
                    assert(strings_view(included@) =~= before_inc.push(name@));
                } else {
                    match find_snippet(table, name.as_str()) {
                        Some(snippet) => {
                            out.append(snippet);
                            out.append("\n");
                            included.push(name.clone());
                            assert(strings_view(included@) =~= before_inc.push(name@));
                        },
                        None => {},
                    }
                }
            },
        }
        assert(out@ =~= before_out + step.0);
        assert(strings_view(included@) =~= step.1);
        i = i + 1;
    }
    assert(out@ + Seq::<char>::empty() =~= out@);
    out
}

/// The code `code` with its include directives replaced.
pub open spec fn expanded_source(code: Seq<char>, defines: Seq<char>, table: Seq<(Seq<char>, Seq<char>)>) -> Seq<char> {
    let lines = lines_of(code);
    expand_lines(lines, lines.map_values(|line: Seq<char>| include_of(line)), defines, table, Seq::empty())
}

/// Replaces the include directives of `code`: the directive
/// [`GLSL_REPLACEMENT_DEFINES`] by `defines`, the others by the snippets of
/// `table`. Every line ends with a line feed.
pub fn expand_source(code: &str, defines: &str, table: &Vec<(String, String)>) -> (r: String)
    ensures
        r@ == expanded_source(code@, defines@, table_view(table@)),
{
    let lines = split_lines(code);
    let mut includes: Vec<Option<String>> = Vec::new();
    let mut i: usize = 0;
    while i < lines.len()
        invariant
            i <= lines@.len(),
            includes@.len() == i,
            forall|j: int| 0 <= j < i ==> #[trigger] options_view(includes@)[j] == include_of(lines@[j]@),
        decreases lines@.len() - i,
    {
        let name = include_name(lines[i].as_str());
        let ghost before = includes@;
        includes.push(name);
        proof {
            assert(includes@ == before.push(name));
            assert forall|j: int| 0 <= j < i + 1 implies #[trigger] options_view(includes@)[j] == include_of(
                lines@[j]@,
            ) by {
                if j < i {
                    assert(includes@[j] == before[j]);
                    assert(options_view(before)[j] == include_of(lines@[j]@));
                } else {
                    assert(includes@[j] == name);
                }
            }
        }
        i = i + 1;
    }
    proof {
        let ls = lines_of(code@);
        assert(strings_view(lines@) == ls);
        assert(options_view(includes@) =~= ls.map_values(|line: Seq<char>| include_of(line)));
    }
    expand_includes(&lines, &includes, defines, table)
}

/// No two snippets share a name.
pub open spec fn distinct_names(t: Seq<(Seq<char>, Seq<char>)>) -> bool {
    forall|i: int, j: int| 0 <= i < j < t.len() ==> t[i].0 != t[j].0
}

proof fn lemma_lookup_found(t: Seq<(Seq<char>, Seq<char>)>, i: int)
    requires
        distinct_names(t),
        0 <= i < t.len(),
    ensures
        snippet_lookup(t, t[i].0) == Some(t[i].1),
    decreases i,
{
    if i > 0 {
        assert(t[0].0 != t[i].0);
        assert(t.drop_first()[i - 1] == t[i]);
        lemma_lookup_found(t.drop_first(), i - 1);
    }
}

proof fn lemma_lookup_absent(t: Seq<(Seq<char>, Seq<char>)>, name: Seq<char>)
    requires
        forall|i: int| 0 <= i < t.len() ==> #[trigger] t[i].0 != name,
    ensures
        snippet_lookup(t, name) is None,
    decreases t.len(),
{
    if t.len() > 0 {
        assert(t[0].0 != name);
        assert forall|i: int| 0 <= i < t.drop_first().len() implies #[trigger] t.drop_first()[i].0 != name by {
            assert(t.drop_first()[i] == t[i + 1]);
        }
        lemma_lookup_absent(t.drop_first(), name);
    }
}

/// Looking a name up in a table without duplicate names finds the entry of
/// that name, if any.
proof fn lemma_lookup(t: Seq<(Seq<char>, Seq<char>)>, name: Seq<char>)
    requires
        distinct_names(t),
    ensures
        (exists|i: int| 0 <= i < t.len() && t[i].0 == name) ==> ({
            let i = choose|i: int| 0 <= i < t.len() && t[i].0 == name;
            snippet_lookup(t, name) == Some(t[i].1)
        }),
        (forall|i: int| 0 <= i < t.len() ==> #[trigger] t[i].0 != name) ==> snippet_lookup(t, name) is None,
{
    if exists|i: int| 0 <= i < t.len() && t[i].0 == name {
        let i = choose|i: int| 0 <= i < t.len() && t[i].0 == name;
        lemma_lookup_found(t, i);
    } else {
        lemma_lookup_absent(t, name);
    }
}

/// The snippet named `name` in `table`: the last one of that name.
pub open spec fn last_snippet(table: Seq<(Seq<char>, Seq<char>)>, name: Seq<char>) -> Option<Seq<char>>
    decreases table.len(),
{
    if table.len() == 0 {
        None
    } else if table.last().0 == name {
        Some(table.last().1)
    } else {
        last_snippet(table.drop_last(), name)
    }
}

/// The snippet names the include directives among `lines` name, in order.
pub open spec fn directive_names(lines: Seq<Seq<char>>) -> Seq<Seq<char>>
    decreases lines.len(),
{
    if lines.len() == 0 {
        Seq::empty()
    } else {
        let before = directive_names(lines.drop_last());
        match include_of(lines.last()) {
            Some(name) => before.push(name),
            None => before,
        }
    }
}

/// The snippets the names `names` resolve to: a name takes the source's
/// snippet (`from_source`, in the same order) when it has one and the
/// store's otherwise; a name known to neither is left out.
pub open spec fn resolved_table(
    names: Seq<Seq<char>>,
    from_source: Seq<Option<Seq<char>>>,
    store: ProgramSnippets,
) -> Seq<(Seq<char>, Seq<char>)>
    decreases names.len(),
{
    if names.len() == 0 || from_source.len() == 0 {
        Seq::empty()
    } else {
        let before = resolved_table(names.drop_last(), from_source.drop_last(), store);
        match from_source.last() {
            Some(snippet) => before.push((names.last(), snippet)),
            None => match store.spec_snippet(names.last()) {
                Some(snippet) => before.push((names.last(), snippet)),
                None => before,
            },
        }
    }
}

/// Named GLSL code snippets that shaders include.
pub struct ProgramSnippets {
    snippets: Vec<(String, String)>,
}

impl ProgramSnippets {
    /// The snippets, by name.
    pub closed spec fn spec_table(&self) -> Seq<(Seq<char>, Seq<char>)> {
        table_view(self.snippets@)
    }

    /// No two snippets share a name.
    pub open spec fn wf(&self) -> bool {
        distinct_names(self.spec_table())
    }

    /// The snippet named `name`, if any.
    pub open spec fn spec_snippet(&self, name: Seq<char>) -> Option<Seq<char>> {
        snippet_lookup(self.spec_table(), name)
    }

    /// Constructs a store without snippets.
    pub fn new() -> (r: Self)
        ensures
            r.wf(),
            forall|name: Seq<char>| #[trigger] r.spec_snippet(name) is None,
    {
        let r = ProgramSnippets { snippets: Vec::new() };
        assert forall|name: Seq<char>| #[trigger] r.spec_snippet(name) is None by {
            lemma_lookup_absent(r.spec_table(), name);
        }
        r
    }

    fn position(&self, name: &str) -> (r: Option<usize>)
        ensures
            match r {
                Some(i) => i < self.snippets@.len() && self.spec_table()[i as int].0 == name@,
                None => forall|j: int| 0 <= j < self.spec_table().len() ==> #[trigger] self.spec_table()[j].0 != name@,
            },
    {
        let mut i: usize = 0;
        while i < self.snippets.len()
            invariant
                i <= self.snippets@.len(),
                forall|j: int| 0 <= j < i ==> #[trigger] self.spec_table()[j].0 != name@,
            decreases self.snippets@.len() - i,
        {
            if str_eq(self.snippets[i].0.as_str(), name) {
                return Some(i);
            }
            i = i + 1;
        }
        None
    }

    /// Returns GLSL code snippet by name.
    pub fn snippet(&self, name: &str) -> (r: Option<&str>)
        requires
            self.wf(),
        ensures
            match r {
                Some(s) => self.spec_snippet(name@) == Some(s@),
                None => self.spec_snippet(name@) is None,
            },
    {
        proof {
            lemma_lookup(self.spec_table(), name@);
        }
        match self.position(name) {
            Some(i) => {
                proof {
                    lemma_lookup_found(self.spec_table(), i as int);
                }
                Some(self.snippets[i].1.as_str())
            },
            None => None,
        }
    }

    /// Sets the snippet named `name` (exactly) to `snippet`; returns the
    /// snippet it replaces, if any.
    fn insert(&mut self, name: String, snippet: String) -> (r: Option<String>)
        requires
            old(self).wf(),
        ensures
            final(self).wf(),
            match r {
                Some(s) => old(self).spec_snippet(name@) == Some(s@),
                None => old(self).spec_snippet(name@) is None,
            },
            forall|n: Seq<char>| #[trigger] final(self).spec_snippet(n) == if n == name@ {
                Some(snippet@)
            } else {
                old(self).spec_snippet(n)
            },
    {
        let ghost t0 = self.spec_table();
        proof {
            lemma_lookup(t0, name@);
        }
        match self.position(name.as_str()) {
            Some(i) => {
                proof {
                    lemma_lookup_found(t0, i as int);
                }
                let entry = (name, snippet);
                let (_, previous) = self.snippets.remove(i);
                self.snippets.insert(i, entry);
                proof {
                    let t1 = self.spec_table();
                    assert(t1 =~= t0.update(i as int, (name@, snippet@)));
                    assert forall|a: int, b: int| 0 <= a < b < t1.len() implies t1[a].0 != t1[b].0 by {
                        assert(t0[a].0 != t0[b].0);
                    }
                    assert forall|n: Seq<char>| #[trigger] self.spec_snippet(n) == if n == name@ {
                        Some(snippet@)
                    } else {
                        old(self).spec_snippet(n)
                    } by {
                        lemma_lookup(t1, n);
                        lemma_lookup(t0, n);
                        if n == name@ {
                            lemma_lookup_found(t1, i as int);
                        } else if exists|j: int| 0 <= j < t0.len() && t0[j].0 == n {
                            let j = choose|j: int| 0 <= j < t0.len() && t0[j].0 == n;
                            lemma_lookup_found(t0, j);
                            lemma_lookup_found(t1, j);
                        } else {
                            assert forall|j: int| 0 <= j < t1.len() implies #[trigger] t1[j].0 != n by {
                                if j != i {
                                    assert(t1[j] == t0[j]);
                                }
                            }
                            lemma_lookup_absent(t1, n);
                        }
                    }
                }
                Some(previous)
            },
            None => {
                let ghost nv = name@;
                let ghost sv = snippet@;
                self.snippets.push((name, snippet));
                proof {
                    let t1 = self.spec_table();
                    assert(t1 =~= t0.push((nv, sv)));
                    assert forall|n: Seq<char>| #[trigger] self.spec_snippet(n) == if n == nv {
                        Some(sv)
                    } else {
                        old(self).spec_snippet(n)
                    } by {
                        if n == nv {
                            lemma_lookup_found(t1, t0.len() as int);
                        } else if exists|j: int| 0 <= j < t0.len() && t0[j].0 == n {
                            let j = choose|j: int| 0 <= j < t0.len() && t0[j].0 == n;
                            lemma_lookup_found(t0, j);
                            lemma_lookup_found(t1, j);
                        } else {
                            assert forall|j: int| 0 <= j < t1.len() implies #[trigger] t1[j].0 != n by {
                                if j < t0.len() {
                                    assert(t1[j] == t0[j]);
                                }
                            }
                            lemma_lookup_absent(t1, n);
                            lemma_lookup_absent(t0, n);
                        }
                    }
                }
                None
            },
        }
    }

    /// Constructs a store holding `snippets`; of two snippets with the same
    /// name, the later one stays.
    pub fn with_snippets(snippets: Vec<(String, String)>) -> (r: Self)
        ensures
            r.wf(),
            forall|n: Seq<char>| #[trigger] r.spec_snippet(n) == last_snippet(table_view(snippets@), n),
    {
        let ghost all = table_view(snippets@);
        let mut store = ProgramSnippets::new();
        let mut i: usize = 0;
        assert(all.take(0) =~= Seq::<(Seq<char>, Seq<char>)>::empty());
        while i < snippets.len()
            invariant
                store.wf(),
                all == table_view(snippets@),
                i <= snippets@.len(),
                forall|n: Seq<char>| #[trigger] store.spec_snippet(n) == last_snippet(all.take(i as int), n),
            decreases snippets@.len() - i,
        {
            let name = snippets[i].0.clone();
            let snippet = snippets[i].1.clone();
            proof {
                assert(all[i as int] == (name@, snippet@));
                assert(all.take(i + 1).drop_last() =~= all.take(i as int));
            }
            store.insert(name, snippet);
            i = i + 1;
        }
        assert(all.take(all.len() as int) =~= all);
        store
    }

    /// Adds new GLSL code snippet with an unique name, without its leading
    /// and trailing white space. Returns the old one if exists.
    pub fn add_snippet(&mut self, name: &str, snippet: String) -> (r: Option<String>)
        requires
            old(self).wf(),
        ensures
            final(self).wf(),
            match r {
                Some(s) => old(self).spec_snippet(trimmed(name@)) == Some(s@),
                None => old(self).spec_snippet(trimmed(name@)) is None,
            },
            forall|n: Seq<char>| #[trigger] final(self).spec_snippet(n) == if n == trimmed(name@) {
                Some(snippet@)
            } else {
                old(self).spec_snippet(n)
            },
    {
        let name = trim(name);
        self.insert(name, snippet)
    }

    /// Removes GLSL code snippet by name, without its leading and trailing
    /// white space; returns it.
    pub fn remove_snippet(&mut self, name: &str) -> (r: Option<String>)
        requires
            old(self).wf(),
        ensures
            final(self).wf(),
            match r {
                Some(s) => old(self).spec_snippet(trimmed(name@)) == Some(s@),
                None => old(self).spec_snippet(trimmed(name@)) is None,
            },
            forall|n: Seq<char>| #[trigger] final(self).spec_snippet(n) == if n == trimmed(name@) {
                None
            } else {
                old(self).spec_snippet(n)
            },
    {
        let name = trim(name);
        let ghost t0 = self.spec_table();
        proof {
            lemma_lookup(t0, name@);
        }
        match self.position(name.as_str()) {
            Some(i) => {
                proof {
                    lemma_lookup_found(t0, i as int);
                }
                let (_, removed) = self.snippets.remove(i);
                proof {
                    let t1 = self.spec_table();
                    assert(t1 =~= t0.remove(i as int));
                    assert forall|a: int, b: int| 0 <= a < b < t1.len() implies t1[a].0 != t1[b].0 by {
                        let a2 = if a < i { a } else { a + 1 };
                        let b2 = if b < i { b } else { b + 1 };
                        assert(t0[a2].0 != t0[b2].0);
                    }
                    assert forall|n: Seq<char>| #[trigger] self.spec_snippet(n) == if n == name@ {
                        None
                    } else {
                        old(self).spec_snippet(n)
                    } by {
                        if exists|j: int| 0 <= j < t1.len() && t1[j].0 == n {
                            let j = choose|j: int| 0 <= j < t1.len() && t1[j].0 == n;
                            let j0 = if j < i { j } else { j + 1 };
                            assert(t1[j] == t0[j0]);
                            assert(j0 != i);
                            lemma_lookup_found(t1, j);
                            lemma_lookup_found(t0, j0);
                        } else {
                            lemma_lookup_absent(t1, n);
                            if n != name@ {
                                assert forall|j: int| 0 <= j < t0.len() implies #[trigger] t0[j].0 != n by {
                                    if j < i {
                                        assert(t1[j] == t0[j]);
                                    } else if j > i {
                                        assert(t1[j - 1] == t0[j]);
                                    }
                                }
                                lemma_lookup_absent(t0, n);
                            }
                        }
                    }
                }
                Some(removed)
            },
            None => None,
        }
    }

    /// Clears all code snippets.
    pub fn clear_snippets(&mut self)
        ensures
            final(self).wf(),
            forall|n: Seq<char>| #[trigger] final(self).spec_snippet(n) is None,
    {
        self.snippets.clear();
        assert forall|n: Seq<char>| #[trigger] self.spec_snippet(n) is None by {
            lemma_lookup_absent(self.spec_table(), n);
        }
    }

    /// Resolves the snippet names `names`: each takes the source's snippet
    /// (`from_source`, in the same order) when it has one and this store's
    /// otherwise; a name known to neither is left out.
    pub fn resolve_snippets(&self, names: &Vec<String>, from_source: &Vec<Option<String>>) -> (r: Vec<(String, String)>)
        requires
            self.wf(),
            names@.len() == from_source@.len(),
        ensures
            table_view(r@) == resolved_table(strings_view(names@), options_view(from_source@), *self),
    {
        let ghost ns = strings_view(names@);
        let ghost fs = options_view(from_source@);
        let mut table: Vec<(String, String)> = Vec::new();
        let mut i: usize = 0;
        assert(ns.take(0) =~= Seq::<Seq<char>>::empty());
        while i < names.len()
            invariant
                self.wf(),
                ns == strings_view(names@),
                fs == options_view(from_source@),
                names@.len() == from_source@.len(),
                i <= names@.len(),
                table_view(table@) == resolved_table(ns.take(i as int), fs.take(i as int), *self),
            decreases names@.len() - i,
        {
            proof {
                assert(ns.take(i + 1).drop_last() =~= ns.take(i as int));
                assert(fs.take(i + 1).drop_last() =~= fs.take(i as int));
                assert(ns.take(i + 1).last() == names@[i as int]@);
            }
            let ghost before = table@;
            match &from_source[i] {
                Some(snippet) => {
                    assert(fs.take(i + 1).last() == Some(snippet@));
                    table.push((names[i].clone(), snippet.clone()));
                    assert(table_view(table@) =~= table_view(before).push((names@[i as int]@, snippet@)));
                },
                None => {
                    assert(fs.take(i + 1).last() is None);
                    match self.snippet(names[i].as_str()) {
                        Some(snippet) => {
                            let ghost sv = snippet@;
                            table.push((names[i].clone(), String::from_str(snippet)));
                            assert(table_view(table@) =~= table_view(before).push((names@[i as int]@, sv)));
                        },
                        None => {},
                    }
                },
            }
            i = i + 1;
        }
        assert(ns.take(names@.len() as int) =~= ns);
        assert(fs.take(names@.len() as int) =~= fs);
        table
    }

    /// Replaces the include directives of the vertex (when `is_vertex`) or
    /// fragment shader code of `source`: the directive
    /// [`GLSL_REPLACEMENT_DEFINES`] by the universal defines and those of the
    /// shader, the others by the snippet of that name, taken from the source
    /// first and from this store otherwise.
    pub fn replace_snippets<S: ProgramSource>(&self, source: &S, is_vertex: bool) -> (r: String)
        requires
            self.wf(),
        ensures
            r@ == replaced_source(*self, *source, is_vertex),
    {
        let universal = source.universal_defines();
        let (code, defines) = if is_vertex {
            (source.vertex_source(), source.vertex_defines())
        } else {
            (source.fragment_source(), source.fragment_defines())
        };
        let defines_text = build_defines(&universal, &defines);
        let lines = split_lines(code.as_str());
        let ghost ls = lines_of(code@);
        let mut names: Vec<String> = Vec::new();
        let mut from_source: Vec<Option<String>> = Vec::new();
        let mut i: usize = 0;
        assert(ls.take(0) =~= Seq::<Seq<char>>::empty());
        while i < lines.len()
            invariant
                strings_view(lines@) == ls,
                i <= lines@.len(),
                names@.len() == from_source@.len(),
                strings_view(names@) == directive_names(ls.take(i as int)),
                options_view(from_source@) == source_snippets(*source, strings_view(names@)),
            decreases lines@.len() - i,
        {
            proof {
                assert(ls.take(i + 1).drop_last() =~= ls.take(i as int));
                assert(ls.take(i + 1).last() == lines@[i as int]@);
            }
            match include_name(lines[i].as_str()) {
                Some(name) => {
                    let ghost before = names@;
                    let ghost before_source = from_source@;
                    let got = source.snippet(name.as_str());
                    let ghost got_view: Option<Seq<char>> = options_view(seq![got])[0];
                    assert(got_view == source.spec_snippet(name@));
                    from_source.push(got);
                    names.push(name);
                    assert(strings_view(names@) =~= strings_view(before).push(names@.last()@));
                    assert(options_view(from_source@) =~= options_view(before_source).push(got_view));
                    assert(source_snippets(*source, strings_view(names@)) =~= source_snippets(
                        *source,
                        strings_view(before),
                    ).push(source.spec_snippet(name@)));
                },
                None => {},
            }
            i = i + 1;
        }
        assert(ls.take(lines@.len() as int) =~= ls);
        let table = self.resolve_snippets(&names, &from_source);
        let r = expand_source(code.as_str(), defines_text.as_str(), &table);
        r
    }
}

} // verus!
