//! Assembly of the program that the script engine runs: the visitor
//! framework without its module exports, the user's transform without its
//! imports of the framework, and a last line that runs the visitor.
//!
//! Both inputs are filtered line by line: a statement that spans several
//! lines is not recognised.

use vstd::prelude::*;
use vstd::string::StringExecFns;

use crate::text::{
    is_plain_line, join_lines, joined, lemma_lines_hold_no_line_feed, lemma_lines_of_joined,
    lines_end_cleanly, lines_of, split_lines, starts_with, LINE_FEED,
};

verus! {

/// A framework line that begins with this assigns to the module's exports.
pub const EXPORTS_PREFIX: &'static str = "exports.";

/// A framework line that begins with this marks the module as an ES module.
pub const ES_MODULE_MARKER: &'static str =
    "Object.defineProperty(exports, \"__esModule\", { value: true });";

/// The regular expression by which a line of a transform counts as an
/// import of the visitor framework: the word `import`, bindings and `from`
/// or neither, and the framework module by its name `@swc/core/Visitor` in
/// quotes. It is searched for anywhere in the line.
pub const VISITOR_IMPORT_PATTERN: &'static str =
    "import(?:([\\w*{Visitor}\\n\\r\\t, ]+)[\\s*]from)?[\\s*](?:[\"']@swc\\/core\\/Visitor[\"'])";

/// What stands before the visitor's class name in the last line.
pub const TRAILER_HEAD: &'static str = "JSON.stringify((new ";

/// What stands after the visitor's class name in the last line.
pub const TRAILER_TAIL: &'static str = "()).visitProgram(JSON.parse(ast)))";

/// The two rules by which lines are dropped.
#[derive(Clone, Copy, Debug, PartialEq, Eq)]
pub enum LineRule {
    /// Drops the module exports of the framework.
    FrameworkExport,
    /// Drops the imports of the framework from a transform.
    FrameworkImport,
}

/// What a search for `pattern` in `haystack` gives with the `regex` crate:
/// `None` when `pattern` is not a regular expression that the crate
/// compiles, else whether `haystack` holds a match anywhere.
pub uninterp spec fn pattern_search(pattern: Seq<char>, haystack: Seq<char>) -> Option<bool>;

/// Whether `line` is a module export of the framework.
pub open spec fn is_export_line(line: Seq<char>) -> bool {
    EXPORTS_PREFIX@.is_prefix_of(line) || ES_MODULE_MARKER@.is_prefix_of(line)
}

/// Whether a search result says that the pattern was found.
pub open spec fn is_hit(found: Option<bool>) -> bool {
    found == Some(true)
}

/// Whether `line` imports the visitor framework.
pub open spec fn is_import_line(line: Seq<char>) -> bool {
    is_hit(pattern_search(VISITOR_IMPORT_PATTERN@, line))
}

/// Whether `rule` drops `line`.
pub open spec fn drops(rule: LineRule, line: Seq<char>) -> bool {
    match rule {
        LineRule::FrameworkExport => is_export_line(line),
        LineRule::FrameworkImport => is_import_line(line),
    }
}

/// The lines that `rule` keeps, as a predicate.
pub open spec fn keeps(rule: LineRule) -> spec_fn(Seq<char>) -> bool {
    |line: Seq<char>| !drops(rule, line)
}

/// The lines of `text` that `rule` keeps, in their order.
pub open spec fn sanitized(text: Seq<char>, rule: LineRule) -> Seq<Seq<char>> {
    lines_of(text).filter(keeps(rule))
}

/// The last line of the program for a visitor class of the given name: it
/// parses the tree bound to `ast`, has a new visitor visit it, and yields the
/// result as JSON.
pub open spec fn trailer_of(visitor_class_name: Seq<char>) -> Seq<char> {
    TRAILER_HEAD@ + visitor_class_name + TRAILER_TAIL@
}

/// The lines of the assembled program: framework, transform, trailer.
pub open spec fn program_lines(
    framework: Seq<char>,
    user_impl: Seq<char>,
    visitor_class_name: Seq<char>,
) -> Seq<Seq<char>> {
    sanitized(framework, LineRule::FrameworkExport) + sanitized(
        user_impl,
        LineRule::FrameworkImport,
    ) + seq![trailer_of(visitor_class_name)]
}

/// The assembled program.
pub open spec fn assembled_program(
    framework: Seq<char>,
    user_impl: Seq<char>,
    visitor_class_name: Seq<char>,
) -> Seq<char> {
    joined(program_lines(framework, user_impl, visitor_class_name))
}

/// Sanitizing only drops lines: each line that is kept is a line of the
/// text, holds no line feed, and is not one that the rule drops.
pub proof fn lemma_sanitized_lines(text: Seq<char>, rule: LineRule)
    ensures
        forall|i: int|
            0 <= i < sanitized(text, rule).len() ==> {
                &&& !drops(rule, #[trigger] sanitized(text, rule)[i])
                &&& lines_of(text).contains(sanitized(text, rule)[i])
                &&& forall|j: int|
                    0 <= j < sanitized(text, rule)[i].len() ==> sanitized(text, rule)[i][j]
                        != LINE_FEED
            },
{
    let lines = lines_of(text);
    let kept = sanitized(text, rule);
    lemma_lines_hold_no_line_feed(text);
    assert forall|i: int| 0 <= i < kept.len() implies {
        &&& !drops(rule, #[trigger] kept[i])
        &&& lines.contains(kept[i])
        &&& forall|j: int| 0 <= j < kept[i].len() ==> kept[i][j] != LINE_FEED
    } by {
        lines.lemma_filter_pred(keeps(rule), i);
        assert(kept.contains(kept[i]));
        lines.lemma_filter_contains_rev(keeps(rule), kept[i]);
        let at = choose|at: int| 0 <= at < lines.len() && lines[at] == kept[i];
        assert(lines[at] == kept[i]);
    }
}

/// A text of which the rule drops no line keeps all its lines.
pub proof fn lemma_sanitized_without_drops(text: Seq<char>, rule: LineRule)
    requires
        forall|i: int| 0 <= i < lines_of(text).len() ==> !drops(rule, #[trigger] lines_of(text)[i]),
    ensures
        sanitized(text, rule) == lines_of(text),
{
    let lines = lines_of(text);
    lemma_filter_keeps_all(lines, rule, lines.len() as int);
    assert(lines.take(lines.len() as int) == lines);
}

/// The first `n` lines are all kept when the rule drops none of them.
proof fn lemma_filter_keeps_all(lines: Seq<Seq<char>>, rule: LineRule, n: int)
    requires
        0 <= n <= lines.len(),
        forall|i: int| 0 <= i < lines.len() ==> !drops(rule, #[trigger] lines[i]),
    ensures
        lines.take(n).filter(keeps(rule)) == lines.take(n),
    decreases n,
{
    reveal(Seq::filter);
    if n > 0 {
        lemma_filter_keeps_all(lines, rule, n - 1);
        assert(lines.take(n).drop_last() == lines.take(n - 1));
        assert(lines.take(n).last() == lines[n - 1]);
        assert(lines.take(n - 1).push(lines[n - 1]) == lines.take(n));
    }
}

/// The trailer for a class name without a line feed is a plain line, and
/// it is not empty.
pub proof fn lemma_trailer_is_plain(visitor_class_name: Seq<char>)
    requires
        forall|j: int| 0 <= j < visitor_class_name.len() ==> visitor_class_name[j] != LINE_FEED,
    ensures
        is_plain_line(trailer_of(visitor_class_name)),
        trailer_of(visitor_class_name).len() > 0,
{
    reveal_strlit("JSON.stringify((new ");
    reveal_strlit("()).visitProgram(JSON.parse(ast)))");
    let head = TRAILER_HEAD@;
    let tail = TRAILER_TAIL@;
    let trailer = trailer_of(visitor_class_name);
    assert(head.len() == 20);
    assert(tail.len() == 34);
    assert forall|j: int| 0 <= j < trailer.len() implies trailer[j] != LINE_FEED by {
        if j < head.len() {
            assert(trailer[j] == head[j]);
        } else if j < head.len() + visitor_class_name.len() {
            assert(trailer[j] == visitor_class_name[j - head.len()]);
        } else {
            assert(trailer[j] == tail[j - head.len() - visitor_class_name.len()]);
        }
    }
    assert(trailer.last() == tail[33]);
}

/// The program ends with the trailer: nothing of the framework or of the
/// transform follows the line that runs the visitor.
pub proof fn lemma_program_ends_with_trailer(
    framework: Seq<char>,
    user_impl: Seq<char>,
    visitor_class_name: Seq<char>,
)
    ensures
        trailer_of(visitor_class_name).is_suffix_of(
            assembled_program(framework, user_impl, visitor_class_name),
        ),
{
    let lines = program_lines(framework, user_impl, visitor_class_name);
    let trailer = trailer_of(visitor_class_name);
    let program = joined(lines);
    assert(lines.last() == trailer);
    if lines.len() > 1 {
        let before = joined(lines.drop_last()) + seq![LINE_FEED];
        assert(program == before + trailer);
        assert(program.subrange(program.len() - trailer.len(), program.len() as int) == trailer);
    } else {
        assert(program == trailer);
        assert(program.subrange(0, program.len() as int) == trailer);
    }
}

/// The program, read line by line, is what was put into it: the lines
/// that were kept of the framework, the lines that were kept of the
/// transform, and the trailer. Dropping a line neither merges nor splits
/// its neighbours. This holds where no line of the framework or of the
/// transform ends in a carriage return, and the class name holds no line
/// feed.
pub proof fn lemma_program_reads_back(
    framework: Seq<char>,
    user_impl: Seq<char>,
    visitor_class_name: Seq<char>,
)
    requires
        lines_end_cleanly(framework),
        lines_end_cleanly(user_impl),
        forall|j: int| 0 <= j < visitor_class_name.len() ==> visitor_class_name[j] != LINE_FEED,
    ensures
        lines_of(assembled_program(framework, user_impl, visitor_class_name)) == program_lines(
            framework,
            user_impl,
            visitor_class_name,
        ),
{
    let from_framework = sanitized(framework, LineRule::FrameworkExport);
    let from_transform = sanitized(user_impl, LineRule::FrameworkImport);
    let trailer = trailer_of(visitor_class_name);
    let lines = program_lines(framework, user_impl, visitor_class_name);
    lemma_sanitized_lines(framework, LineRule::FrameworkExport);
    lemma_sanitized_lines(user_impl, LineRule::FrameworkImport);
    lemma_trailer_is_plain(visitor_class_name);
    assert forall|i: int| 0 <= i < lines.len() implies is_plain_line(#[trigger] lines[i]) by {
        if i < from_framework.len() {
            let line = from_framework[i];
            assert(lines[i] == line);
            let at = choose|at: int|
                0 <= at < lines_of(framework).len() && lines_of(framework)[at] == line;
            assert(lines_of(framework)[at] == line);
        } else if i < from_framework.len() + from_transform.len() {
            let line = from_transform[i - from_framework.len()];
            assert(lines[i] == line);
            let at = choose|at: int|
                0 <= at < lines_of(user_impl).len() && lines_of(user_impl)[at] == line;
            assert(lines_of(user_impl)[at] == line);
        } else {
            assert(lines[i] == trailer);
        }
    }
    assert(lines.last() == trailer);
    lemma_lines_of_joined(lines);
}

/// `Regex::new` on `pattern`, then `Regex::is_match` on `haystack`, both of
/// the `regex` crate as `lazy_regex` hands it on. The result is `None` when
/// the pattern does not compile; nothing more is claimed than that the same
/// pattern and haystack always give the same result.
#[verifier::external_body]
fn search_pattern(pattern: &str, haystack: &str) -> (found: Option<bool>)
    ensures
        found == pattern_search(pattern@, haystack@),
{
    match lazy_regex::Regex::new(pattern) {
        Ok(regex) => Some(regex.is_match(haystack)),
        Err(_) => None,
    }
}

/// Tells whether a search result says that the pattern was found. A pattern
/// that did not compile finds nothing.
pub fn found_match(found: Option<bool>) -> (hit: bool)
    ensures
        hit == is_hit(found),
{
    match found {
        Some(hit) => hit,
        None => false,
    }
}

/// Tells whether `line` is a module export of the framework.
pub fn is_framework_export_line(line: &str) -> (hit: bool)
    ensures
        hit == is_export_line(line@),
{
    starts_with(line, EXPORTS_PREFIX) || starts_with(line, ES_MODULE_MARKER)
}

/// Tells whether `line` imports the visitor framework.
pub fn is_visitor_import_line(line: &str) -> (hit: bool)
    ensures
        hit == is_import_line(line@),
{
    found_match(search_pattern(VISITOR_IMPORT_PATTERN, line))
}

/// Tells whether `rule` drops `line`.
pub fn rule_drops(rule: LineRule, line: &str) -> (hit: bool)
    ensures
        hit == drops(rule, line@),
{
    match rule {
        LineRule::FrameworkExport => is_framework_export_line(line),
        LineRule::FrameworkImport => is_visitor_import_line(line),
    }
}

/// The lines of `text` that `rule` keeps, in their order.
pub fn sanitize(text: &str, rule: LineRule) -> (kept: Vec<String>)
    ensures
        kept.deep_view() == sanitized(text@, rule),
{
    let lines = split_lines(text);
    let mut kept: Vec<String> = Vec::new();
    let mut i: usize = 0;
    proof {
        reveal(Seq::filter);
        assert(lines.deep_view().take(0).filter(keeps(rule)) == Seq::<Seq<char>>::empty());
    }
    while i < lines.len()
        invariant
            0 <= i <= lines.len(),
            kept.deep_view() == lines.deep_view().take(i as int).filter(keeps(rule)),
        decreases lines.len() - i,
    {
        proof {
            let done = lines.deep_view().take(i as int);
            assert(lines.deep_view().take(i + 1) == done.push(lines[i as int]@));
            done.lemma_filter_push(lines[i as int]@, keeps(rule));
        }
        if !rule_drops(rule, lines[i].as_str()) {
            let ghost before = kept.deep_view();
            kept.push(lines[i].clone());
            proof {
                assert(kept.deep_view() == before.push(lines[i as int]@));
            }
        }
        i += 1;
    }
    proof {
        assert(lines.deep_view().take(lines.len() as int) == lines.deep_view());
    }
    kept
}

/// The framework's lines without its module exports.
pub fn strip_framework_exports(framework: &str) -> (kept: Vec<String>)
    ensures
        kept.deep_view() == sanitized(framework@, LineRule::FrameworkExport),
{
    sanitize(framework, LineRule::FrameworkExport)
}

/// The transform's lines without its imports of the framework.
pub fn strip_visitor_imports(user_impl: &str) -> (kept: Vec<String>)
    ensures
        kept.deep_view() == sanitized(user_impl@, LineRule::FrameworkImport),
{
    sanitize(user_impl, LineRule::FrameworkImport)
}

/// The last line of the program for a visitor class of the given name.
pub fn invocation_trailer(visitor_class_name: &str) -> (code: String)
    ensures
        code@ == trailer_of(visitor_class_name@),
{
    let mut code = String::from_str(TRAILER_HEAD);
    code.append(visitor_class_name);
    code.append(TRAILER_TAIL);
    code
}

/// Assembles the program: the framework without its exports, the transform
/// without its imports of the framework, and the trailer, one line each,
/// joined by line feeds.
pub fn assemble(framework: &str, user_impl: &str, visitor_class_name: &str) -> (code: String)
    ensures
        code@ == assembled_program(framework@, user_impl@, visitor_class_name@),
{
    let mut lines = strip_framework_exports(framework);
    let mut user_lines = strip_visitor_imports(user_impl);
    let trailer = invocation_trailer(visitor_class_name);
    let ghost framework_lines = lines.deep_view();
    let ghost transform_lines = user_lines.deep_view();
    lines.append(&mut user_lines);
    proof {
        assert(lines.deep_view() == framework_lines + transform_lines);
    }
    lines.push(trailer);
    proof {
        assert(lines.deep_view() == (framework_lines + transform_lines).push(trailer@));
        assert(lines.deep_view() == program_lines(framework@, user_impl@, visitor_class_name@));
    }
    join_lines(&lines)
}

} // verus!
