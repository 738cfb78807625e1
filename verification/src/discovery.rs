//! Choosing the browser to run: the first of the usual places that holds
//! one, or else what a search of the path turns up.

use vstd::prelude::*;
use vstd::string::*;

verus! {

/// The kind of system the service runs on.
#[derive(Debug, Clone, Copy, PartialEq, Eq, Structural)]
pub enum Platform {
    MacOs,
    Linux,
    Other,
}

/// The places where a browser is usually installed, most wanted first.
pub open spec fn usual_places(platform: Platform) -> Seq<Seq<char>> {
    match platform {
        Platform::MacOs => seq![
            "/Applications/Google Chrome.app/Contents/MacOS/Google Chrome"@,
            "/Applications/Brave Browser.app/Contents/MacOS/Brave Browser"@,
            "/Applications/Chromium.app/Contents/MacOS/Chromium"@,
            "/opt/homebrew/bin/chromium"@,
            "/usr/local/bin/chromium"@,
        ],
        Platform::Linux => seq![
            "/usr/bin/google-chrome"@,
            "/usr/bin/brave"@,
            "/usr/bin/chromium"@,
            "/usr/bin/chromium-browser"@,
        ],
        Platform::Other => seq![],
    }
}

/// The names under which a browser is searched on the path.
pub open spec fn searched_names() -> Seq<Seq<char>> {
    seq!["google-chrome"@, "brave"@, "chromium"@, "chromium-browser"@]
}

/// The texts as sequences of characters.
pub open spec fn texts(list: Seq<&'static str>) -> Seq<Seq<char>> {
    Seq::new(list.len(), |i: int| list[i]@)
}

/// Where the line that begins at `from` ends: at the next line feed, or at
/// the end of the text.
pub open spec fn line_end(text: Seq<char>, from: int) -> int
    decreases text.len() - from,
{
    if from < 0 || from >= text.len() {
        text.len() as int
    } else if text[from] == '\n' {
        from
    } else {
        line_end(text, from + 1)
    }
}

/// The line that begins at `from`, without the line feed that ends it and
/// without a carriage return in front of that line feed.
pub open spec fn line_at(text: Seq<char>, from: int) -> Seq<char> {
    let end = line_end(text, from);
    if from < end < text.len() && text[end - 1] == '\r' {
        text.subrange(from, end - 1)
    } else {
        text.subrange(from, end)
    }
}

/// The first line at or after `from` that is not empty.
pub open spec fn first_line_from(text: Seq<char>, from: int) -> Option<Seq<char>>
    decreases text.len() - from,
{
    if from < 0 || from >= text.len() {
        None
    } else if line_at(text, from).len() > 0 {
        Some(line_at(text, from))
    } else {
        proof {
            lemma_line_end_bounds(text, from);
        }
        first_line_from(text, line_end(text, from) + 1)
    }
}

/// A line ends at or after the place where it begins, and within the text.
pub proof fn lemma_line_end_bounds(text: Seq<char>, from: int)
    requires
        0 <= from <= text.len(),
    ensures
        from <= line_end(text, from) <= text.len(),
    decreases text.len() - from,
{
    if from < text.len() && text[from] != '\n' {
        lemma_line_end_bounds(text, from + 1);
    }
}

/// The usual places for a platform.
pub fn candidate_paths(platform: Platform) -> (paths: Vec<&'static str>)
    ensures
        texts(paths@) == usual_places(platform),
{
    let mut paths: Vec<&'static str> = Vec::new();
    match platform {
        Platform::MacOs => {
            paths.push("/Applications/Google Chrome.app/Contents/MacOS/Google Chrome");
            paths.push("/Applications/Brave Browser.app/Contents/MacOS/Brave Browser");
            paths.push("/Applications/Chromium.app/Contents/MacOS/Chromium");
            paths.push("/opt/homebrew/bin/chromium");
            paths.push("/usr/local/bin/chromium");
        },
        Platform::Linux => {
            paths.push("/usr/bin/google-chrome");
            paths.push("/usr/bin/brave");
            paths.push("/usr/bin/chromium");
            paths.push("/usr/bin/chromium-browser");
        },
        Platform::Other => {},
    }
    paths
}

/// The names to search the path for.
pub fn search_names() -> (names: Vec<&'static str>)
    ensures
        texts(names@) == searched_names(),
{
    let mut names: Vec<&'static str> = Vec::new();
    names.push("google-chrome");
    names.push("brave");
    names.push("chromium");
    names.push("chromium-browser");
    names
}

/// The position of the first place that holds a browser, given for each
/// place whether it does.
pub fn first_present(present: &[bool]) -> (found: Option<usize>)
    ensures
        match found {
            Some(i) => i < present@.len() && present@[i as int] && forall|j: int|
                0 <= j < i ==> !present@[j],
            None => forall|j: int| 0 <= j < present@.len() ==> !present@[j],
        },
{
    let mut i: usize = 0;
    while i < present.len()
        invariant
            i <= present@.len(),
            forall|j: int| 0 <= j < i ==> !present@[j],
        decreases present@.len() - i,
    {
        if present[i] {
            return Some(i);
        }
        i += 1;
    }
    None
}

fn find_line_end(text: &str, from: usize, len: usize) -> (end: usize)
    requires
        len == text@.len(),
        from <= len,
    ensures
        end == line_end(text@, from as int),
        from <= end <= len,
{
    let mut i = from;
    while i < len
        invariant
            from <= i <= len,
            len == text@.len(),
            line_end(text@, i as int) == line_end(text@, from as int),
        decreases len - i,
    {
        if text.get_char(i) == '\n' {
            return i;
        }
        i += 1;
    }
    i
}

/// The first line of a text that is not empty. Lines end with a line feed,
/// or with a carriage return and a line feed; the last line may end with
/// the text.
pub fn first_nonempty_line(text: &str) -> (line: Option<String>)
    ensures
        line.deep_view() == first_line_from(text@, 0),
{
    let len = text.unicode_len();
    let mut from: usize = 0;
    while from < len
        invariant
            from <= len,
            len == text@.len(),
            first_line_from(text@, from as int) == first_line_from(text@, 0),
        decreases len - from,
    {
        let end = find_line_end(text, from, len);
        let mut stop = end;
        if from < end && end < len && text.get_char(end - 1) == '\r' {
            stop = end - 1;
        }
        if stop > from {
            return Some(String::from_str(text.substring_char(from, stop)));
        }
        from = end + 1;
    }
    None
}

} // verus!
