use vstd::prelude::*;
use vstd::string::*;

verus! {

/// The components of `path` below `target`: those after as many leading
/// components as `target` has (none when `path` is not longer).
pub open spec fn relative_components(target: Seq<String>, path: Seq<String>) -> Seq<String> {
    if path.len() > target.len() {
        path.skip(target.len() as int)
    } else {
        Seq::empty()
    }
}

/// The components of `path` below `target`.
pub fn relativize_path(target: &Vec<String>, path: &Vec<String>) -> (r: Option<Vec<String>>)
    ensures
        r is Some,
        r->Some_0@ == relative_components(target@, path@),
{
    let mut components: Vec<String> = Vec::new();
    let mut i: usize = target.len();
    while i < path.len()
        invariant
            target@.len() <= i <= path@.len() || (path@.len() <= target@.len() && i == target@.len()),
            path@.len() > target@.len() ==> components@ == path@.subrange(
                target@.len() as int,
                i as int,
            ),
            path@.len() <= target@.len() ==> components@.len() == 0,
        decreases path@.len() - i,
    {
        components.push(path[i].clone());
        i = i + 1;
    }
    assert(components@ =~= relative_components(target@, path@));
    Some(components)
}

/// Components joined by `/`.
pub open spec fn joined(components: Seq<String>) -> Seq<char>
    decreases components.len(),
{
    if components.len() == 0 {
        Seq::empty()
    } else if components.len() == 1 {
        components[0]@
    } else {
        joined(components.drop_last()) + "/"@ + components.last()@
    }
}

/// The text of a relative path: its components joined by `/`.
pub fn join_components(components: &Vec<String>) -> (r: String)
    ensures
        r@ == joined(components@),
{
    let mut r = String::new();
    let mut i: usize = 0;
    while i < components.len()
        invariant
            i <= components@.len(),
            r@ == joined(components@.subrange(0, i as int)),
        decreases components@.len() - i,
    {
        let ghost pre = components@.subrange(0, i as int);
        let ghost cur = components@.subrange(0, i as int + 1);
        assert(cur.drop_last() =~= pre);
        if i > 0 {
            r.append("/");
        }
        r.append(components[i].as_str());
        i = i + 1;
        proof {
            reveal_strlit("/");
            if i == 1 {
                assert(r@ =~= cur[0]@);
            }
        }
    }
    assert(components@.subrange(0, components@.len() as int) =~= components@);
    r
}

#[verifier::external_type_specification]
#[verifier::external_body]
pub struct ExGlobSet(globset::GlobSet);

#[verifier::external_type_specification]
#[verifier::external_body]
pub struct ExGlobSetBuilder(globset::GlobSetBuilder);

#[verifier::external_type_specification]
#[verifier::external_body]
pub struct ExGlobError(globset::Error);

#[verifier::external_type_specification]
#[verifier::external_body]
pub struct ExGitignore(ignore::gitignore::Gitignore);

#[verifier::external_type_specification]
#[verifier::external_body]
pub struct ExGitignoreBuilder(ignore::gitignore::GitignoreBuilder);

#[verifier::external_type_specification]
#[verifier::external_body]
pub struct ExIgnoreError(ignore::Error);

/// Whether text parses as a glob.
pub uninterp spec fn glob_valid(pattern: Seq<char>) -> bool;

/// Whether a glob matches a path.
pub uninterp spec fn glob_matches(pattern: Seq<char>, path: Seq<char>) -> bool;

/// Whether valid globs compile together into one set.
pub uninterp spec fn glob_set_builds(patterns: Seq<Seq<char>>) -> bool;

/// The patterns of the globs a set builder holds, in the order added.
pub uninterp spec fn builder_globs(b: globset::GlobSetBuilder) -> Seq<Seq<char>>;

/// The patterns of the globs a set holds.
pub uninterp spec fn set_globs(s: globset::GlobSet) -> Seq<Seq<char>>;

/// Whether a gitignore line parses.
pub uninterp spec fn ignore_line_valid(line: Seq<char>) -> bool;

/// The rule a valid gitignore line adds; none for a comment or a blank line.
pub uninterp spec fn ignore_rule_of(line: Seq<char>) -> Option<Seq<char>>;

/// Whether gitignore rules compile into one matcher.
pub uninterp spec fn ignore_rules_build(rules: Seq<Seq<char>>) -> bool;

/// The directory that gitignore rules given at `root` are matched against.
pub uninterp spec fn ignore_root_of(root: Seq<char>) -> Seq<char>;

/// The rules a gitignore builder holds, in the order added.
pub uninterp spec fn ignore_builder_rules(b: ignore::gitignore::GitignoreBuilder) -> Seq<Seq<char>>;

/// The directory a gitignore builder matches against.
pub uninterp spec fn ignore_builder_root(b: ignore::gitignore::GitignoreBuilder) -> Seq<char>;

/// The rules a gitignore matcher holds.
pub uninterp spec fn gitignore_rules(g: ignore::gitignore::Gitignore) -> Seq<Seq<char>>;

/// The directory a gitignore matcher matches against.
pub uninterp spec fn gitignore_root(g: ignore::gitignore::Gitignore) -> Seq<char>;

/// Whether gitignore rules matched against `root` ignore a file path (the
/// last rule that matches decides; a `!` rule re-includes).
pub uninterp spec fn ignored_by(root: Seq<char>, rules: Seq<Seq<char>>, path: Seq<char>) -> bool;

/// Relies on globset's `GlobSetBuilder::new`: a builder that holds no glob.
#[verifier::external_body]
fn glob_builder() -> (r: globset::GlobSetBuilder)
    ensures
        builder_globs(r) == Seq::<Seq<char>>::empty(),
{
    globset::GlobSetBuilder::new()
}

/// Relies on globset's `GlobSetBuilder::add`, given the glob that
/// `Glob::new` parses from the pattern: parsing fails exactly for invalid
/// globs, and then the builder is left alone.
#[verifier::external_body]
fn glob_builder_add(b: &mut globset::GlobSetBuilder, pattern: &str) -> (r: Result<
    (),
    globset::Error,
>)
    ensures
        r is Ok <==> glob_valid(pattern@),
        r is Ok ==> builder_globs(*final(b)) == builder_globs(*old(b)).push(pattern@),
        r is Err ==> builder_globs(*final(b)) == builder_globs(*old(b)),
{
    match globset::Glob::new(pattern) {
        Ok(g) => {
            b.add(g);
            Ok(())
        },
        Err(e) => Err(e),
    }
}

/// Relies on globset's `GlobSetBuilder::build`: the set of the builder's
/// globs, when they compile.
#[verifier::external_body]
fn glob_builder_build(b: &globset::GlobSetBuilder) -> (r: Result<globset::GlobSet, globset::Error>)
    ensures
        r is Ok <==> glob_set_builds(builder_globs(*b)),
        r is Ok ==> set_globs(r->Ok_0) == builder_globs(*b),
{
    b.build()
}

/// Relies on globset's `GlobSet::is_match`: true when any glob of the set
/// matches.
#[verifier::external_body]
fn glob_set_matches(s: &globset::GlobSet, path: &str) -> (r: bool)
    ensures
        r == (exists|i: int|
            0 <= i < set_globs(*s).len() && glob_matches(#[trigger] set_globs(*s)[i], path@)),
{
    s.is_match(path)
}

/// Relies on ignore's `GitignoreBuilder::new`: a builder that holds no rule,
/// matched against `root`.
#[verifier::external_body]
fn ignore_builder(root: &str) -> (r: ignore::gitignore::GitignoreBuilder)
    ensures
        ignore_builder_rules(r) == Seq::<Seq<char>>::empty(),
        ignore_builder_root(r) == ignore_root_of(root@),
{
    ignore::gitignore::GitignoreBuilder::new(root)
}

/// Relies on ignore's `GitignoreBuilder::add_line`: it fails exactly for
/// lines that do not parse, leaving the builder alone; otherwise it adds the
/// line's rule, if any.
#[verifier::external_body]
fn ignore_add_line(b: &mut ignore::gitignore::GitignoreBuilder, line: &str) -> (r: Result<
    (),
    ignore::Error,
>)
    ensures
        r is Ok <==> ignore_line_valid(line@),
        ignore_builder_root(*final(b)) == ignore_builder_root(*old(b)),
        r is Ok ==> ignore_builder_rules(*final(b)) == match ignore_rule_of(line@) {
            Some(rule) => ignore_builder_rules(*old(b)).push(rule),
            None => ignore_builder_rules(*old(b)),
        },
        r is Err ==> ignore_builder_rules(*final(b)) == ignore_builder_rules(*old(b)),
{
    match b.add_line(None, line) {
        Ok(_) => Ok(()),
        Err(e) => Err(e),
    }
}

/// Relies on ignore's `GitignoreBuilder::build`: the matcher of the
/// builder's rules and root, when the rules compile.
#[verifier::external_body]
fn ignore_build(b: &ignore::gitignore::GitignoreBuilder) -> (r: Result<
    ignore::gitignore::Gitignore,
    ignore::Error,
>)
    ensures
        r is Ok <==> ignore_rules_build(ignore_builder_rules(*b)),
        r is Ok ==> gitignore_rules(r->Ok_0) == ignore_builder_rules(*b),
        r is Ok ==> gitignore_root(r->Ok_0) == ignore_builder_root(*b),
{
    b.build()
}

/// Relies on ignore's `Gitignore::matched` (for a file) and
/// `Match::is_ignore`.
#[verifier::external_body]
fn gitignore_ignores(g: &ignore::gitignore::Gitignore, path: &str) -> (r: bool)
    ensures
        r == ignored_by(gitignore_root(*g), gitignore_rules(*g), path@),
{
    g.matched(path, false).is_ignore()
}

/// The rules after a valid line was added.
pub open spec fn added_rule(rules: Seq<Seq<char>>, line: Seq<char>) -> Seq<Seq<char>> {
    match ignore_rule_of(line) {
        Some(rule) => rules.push(rule),
        None => rules,
    }
}

/// The rules that a list of valid lines adds, in order.
pub open spec fn rules_of_lines(lines: Seq<Seq<char>>) -> Seq<Seq<char>>
    decreases lines.len(),
{
    if lines.len() == 0 {
        Seq::empty()
    } else {
        added_rule(rules_of_lines(lines.drop_last()), lines.last())
    }
}

/// The texts of a list of strings.
pub open spec fn texts(v: Seq<String>) -> Seq<Seq<char>> {
    v.map_values(|s: String| s@)
}

/// Whether some glob of `globs` matches a path.
pub open spec fn matches_any(globs: Seq<Seq<char>>, path: Seq<char>) -> bool {
    exists|i: int| 0 <= i < globs.len() && glob_matches(#[trigger] globs[i], path)
}

/// Whether a filter with include `globs` and exclude `rules` matched against
/// `root` keeps a path.
pub open spec fn path_selected(
    globs: Seq<Seq<char>>,
    root: Seq<char>,
    rules: Seq<Seq<char>>,
    path: Seq<char>,
) -> bool {
    matches_any(globs, path) && !ignored_by(root, rules, path)
}

/// Whether include globs give a filter.
pub open spec fn includes_build(globs: Seq<Seq<char>>) -> bool {
    (forall|i: int| 0 <= i < globs.len() ==> glob_valid(#[trigger] globs[i])) && glob_set_builds(
        globs,
    )
}

/// Whether exclude lines give a filter.
pub open spec fn excludes_build(lines: Seq<Seq<char>>) -> bool {
    (forall|k: int| 0 <= k < lines.len() ==> ignore_line_valid(#[trigger] lines[k]))
        && ignore_rules_build(rules_of_lines(lines))
}

/// Why a [`PathFilter`] could not be built.
#[derive(PartialEq, Eq, Structural, Clone, Copy, Debug)]
pub enum FilterError {
    /// An include glob is invalid, or the set of them could not be compiled.
    Include,
    /// An exclude line is invalid, or the rules could not be compiled.
    Exclude,
}

/// Which scanned paths are kept: those that match an include glob and are not
/// ignored by the exclude rules, which are matched against the current
/// directory.
pub struct PathFilter {
    includes: globset::GlobSet,
    excludes: ignore::gitignore::Gitignore,
}

impl PathFilter {
    /// The include globs.
    pub closed spec fn globs(&self) -> Seq<Seq<char>> {
        set_globs(self.includes)
    }

    /// The exclude rules.
    pub closed spec fn rules(&self) -> Seq<Seq<char>> {
        gitignore_rules(self.excludes)
    }

    /// The directory the exclude rules are matched against.
    pub closed spec fn root(&self) -> Seq<char> {
        gitignore_root(self.excludes)
    }

    /// A filter from include globs and gitignore-style exclude lines: refused
    /// for the includes when a glob is invalid or the globs do not compile
    /// together, else for the excludes when a line is invalid or the rules do
    /// not compile.
    pub fn new(include_globs: &Vec<String>, excludes: &Vec<String>) -> (r: Result<
        PathFilter,
        FilterError,
    >)
        ensures
            ({
                let globs = texts(include_globs@);
                let lines = texts(excludes@);
                if !includes_build(globs) {
                    r == Err::<PathFilter, FilterError>(FilterError::Include)
                } else if !excludes_build(lines) {
                    r == Err::<PathFilter, FilterError>(FilterError::Exclude)
                } else {
                    &&& r is Ok
                    &&& r->Ok_0.globs() == globs
                    &&& r->Ok_0.rules() == rules_of_lines(lines)
                    &&& r->Ok_0.root() == ignore_root_of("."@)
                }
            }),
    {
        let ghost globs = texts(include_globs@);
        let ghost lines = texts(excludes@);
        let mut builder = glob_builder();
        let mut i: usize = 0;
        while i < include_globs.len()
            invariant
                i <= include_globs@.len(),
                globs == texts(include_globs@),
                forall|j: int| 0 <= j < i ==> glob_valid(#[trigger] globs[j]),
                builder_globs(builder) == globs.subrange(0, i as int),
            decreases include_globs@.len() - i,
        {
            match glob_builder_add(&mut builder, include_globs[i].as_str()) {
                Ok(()) => {},
                Err(_) => {
                    assert(!glob_valid(globs[i as int]));
                    assert(!(forall|j: int| 0 <= j < globs.len() ==> glob_valid(#[trigger] globs[j])));
                    return Err(FilterError::Include);
                },
            }
            assert(globs.subrange(0, i as int + 1) =~= globs.subrange(0, i as int).push(
                globs[i as int],
            ));
            i = i + 1;
        }
        assert(globs.subrange(0, globs.len() as int) =~= globs);
        let includes = match glob_builder_build(&builder) {
            Ok(s) => s,
            Err(_) => {
                return Err(FilterError::Include);
            },
        };
        proof {
            reveal_strlit(".");
        }
        let mut rules = ignore_builder(".");
        let mut k: usize = 0;
        while k < excludes.len()
            invariant
                k <= excludes@.len(),
                lines == texts(excludes@),
                globs == texts(include_globs@),
                includes_build(globs),
                set_globs(includes) == globs,
                forall|j: int| 0 <= j < k ==> ignore_line_valid(#[trigger] lines[j]),
                ignore_builder_rules(rules) == rules_of_lines(lines.subrange(0, k as int)),
                ignore_builder_root(rules) == ignore_root_of("."@),
            decreases excludes@.len() - k,
        {
            match ignore_add_line(&mut rules, excludes[k].as_str()) {
                Ok(()) => {},
                Err(_) => {
                    assert(!ignore_line_valid(lines[k as int]));
                    assert(!(forall|j: int|
                        0 <= j < lines.len() ==> ignore_line_valid(#[trigger] lines[j])));
                    return Err(FilterError::Exclude);
                },
            }
            let ghost cur = lines.subrange(0, k as int + 1);
            assert(cur.drop_last() =~= lines.subrange(0, k as int));
            assert(cur.last() == lines[k as int]);
            k = k + 1;
        }
        assert(lines.subrange(0, lines.len() as int) =~= lines);
        let excluded = match ignore_build(&rules) {
            Ok(g) => g,
            Err(_) => {
                return Err(FilterError::Exclude);
            },
        };
        Ok(PathFilter { includes, excludes: excluded })
    }

    /// Whether the filter keeps a relative path.
    pub fn selects(&self, path: &str) -> (r: bool)
        ensures
            r == path_selected(self.globs(), self.root(), self.rules(), path@),
    {
        glob_set_matches(&self.includes, path) && !gitignore_ignores(&self.excludes, path)
    }

    /// The relative text of a walked path below `target`, when the filter
    /// keeps it.
    pub fn select(&self, target: &Vec<String>, path: &Vec<String>) -> (r: Option<String>)
        ensures
            match r {
                Some(t) => t@ == joined(relative_components(target@, path@)) && path_selected(
                    self.globs(),
                    self.root(),
                    self.rules(),
                    t@,
                ),
                None => !path_selected(
                    self.globs(),
                    self.root(),
                    self.rules(),
                    joined(relative_components(target@, path@)),
                ),
            },
    {
        let rel = match relativize_path(target, path) {
            Some(c) => c,
            None => {
                return None;
            },
        };
        let text = join_components(&rel);
        if self.selects(text.as_str()) {
            Some(text)
        } else {
            None
        }
    }
}

} // verus!
