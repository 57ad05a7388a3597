//! Searching a text for the lines that hold a query.

use vstd::prelude::*;

verus! {

/// What to search for, and in which file.
pub struct Config {
    pub query: String,
    pub file_path: String,
}

impl Config {
    /// Reads the query and the file's path from a program's arguments, of
    /// which the first is the program's own name. Fewer than three arguments
    /// are refused; more than three are not looked at.
    pub fn build(args: &[String]) -> (built: Result<Config, &'static str>)
        ensures
            args@.len() < 3 ==> built is Err && built->Err_0@ == "not enough arguments"@,
            args@.len() >= 3 ==> built is Ok && built->Ok_0.query@ == args@[1]@
                && built->Ok_0.file_path@ == args@[2]@,
    {
        if args.len() < 3 {
            return Err("not enough arguments");
        }
        let query = args[1].clone();
        let file_path = args[2].clone();
        Ok(Config { query, file_path })
    }
}

/// The place of the first line feed in `text`, and the length of `text`
/// where it holds none.
pub open spec fn line_end(text: Seq<char>) -> nat
    decreases text.len(),
{
    if text.len() == 0 || text[0] == '\n' {
        0
    } else {
        1 + line_end(text.subrange(1, text.len() as int))
    }
}

/// The lines of a text. A line ends with a line feed, or with a carriage
/// return and the line feed that follows it, and neither belongs to the
/// line; the last line may do without. A carriage return that no line feed
/// follows stays in its line.
pub open spec fn str_lines(text: Seq<char>) -> Seq<Seq<char>>
    decreases text.len(),
{
    let end = line_end(text);
    if text.len() == 0 {
        Seq::empty()
    } else if end >= text.len() {
        seq![text]
    } else {
        let line = text.subrange(0, end as int);
        let rest = text.subrange(end as int + 1, text.len() as int);
        if line.len() > 0 && line.last() == '\r' {
            seq![line.drop_last()] + str_lines(rest)
        } else {
            seq![line] + str_lines(rest)
        }
    }
}

/// Whether `query` occurs in `text` as a run of consecutive characters.
pub open spec fn has_substring(text: Seq<char>, query: Seq<char>) -> bool {
    exists|at: int|
        0 <= at && at + query.len() <= text.len() && #[trigger] text.subrange(
            at,
            at + query.len(),
        ) == query
}

/// The characters of each string slice of `lines`.
pub open spec fn texts(lines: Seq<&str>) -> Seq<Seq<char>> {
    lines.map_values(|line: &str| line@)
}

/// Those of `lines` in which `query` occurs, in their order.
pub open spec fn matching(lines: Seq<Seq<char>>, query: Seq<char>) -> Seq<Seq<char>> {
    lines.filter(|line: Seq<char>| has_substring(line, query))
}

/// Calls `str::lines` of the standard library and collects what it yields.
/// Trusted: the slices that come back are, in order, the lines of
/// `contents` as `str_lines` cuts them.
#[verifier::external_body]
fn lines_of<'a>(contents: &'a str) -> (lines: Vec<&'a str>)
    ensures
        texts(lines@) == str_lines(contents@),
{
    contents.lines().collect()
}

/// Calls `str::contains` of the standard library with a string slice as the
/// pattern. Trusted: the answer is whether `query` occurs in `line`; the
/// empty query occurs in every line.
#[verifier::external_body]
fn contains(line: &str, query: &str) -> (found: bool)
    ensures
        found == has_substring(line@, query@),
{
    line.contains(query)
}

/// Keeps those of `lines` in which `query` occurs, in their order.
pub fn matching_lines<'a>(query: &str, lines: Vec<&'a str>) -> (found: Vec<&'a str>)
    ensures
        texts(found@) == matching(texts(lines@), query@),
{
    let ghost pred = |line: Seq<char>| has_substring(line, query@);
    let mut found: Vec<&'a str> = Vec::new();
    let mut at: usize = 0;
    assert(texts(lines@).take(0) =~= Seq::<Seq<char>>::empty());
    assert(texts(found@) =~= texts(lines@).take(0).filter(pred)) by {
        reveal_with_fuel(Seq::filter, 1);
    }
    while at < lines.len()
        invariant
            at <= lines@.len(),
            pred == (|line: Seq<char>| has_substring(line, query@)),
            texts(found@) == texts(lines@).take(at as int).filter(pred),
        decreases lines@.len() - at,
    {
        let line = lines[at];
        let ghost before = texts(lines@).take(at as int);
        let ghost one = seq![line@];
        proof {
            assert(texts(lines@).take(at + 1) =~= before + one);
            Seq::filter_distributes_over_add(before, one, pred);
            reveal_with_fuel(Seq::filter, 2);
            assert(one.drop_last() =~= Seq::<Seq<char>>::empty());
            assert(one.filter(pred) =~= (if pred(line@) {
                one
            } else {
                Seq::<Seq<char>>::empty()
            }));
        }
        if contains(line, query) {
            let ghost old_found = texts(found@);
            found.push(line);
            assert(texts(found@) =~= old_found + one);
        }
        at += 1;
    }
    assert(texts(lines@).take(at as int) =~= texts(lines@));
    found
}

/// The lines of `contents` in which `query` occurs, in their order.
pub fn search<'a>(query: &str, contents: &'a str) -> (found: Vec<&'a str>)
    ensures
        texts(found@) == matching(str_lines(contents@), query@),
{
    matching_lines(query, lines_of(contents))
}

} // verus!
