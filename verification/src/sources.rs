//! Which sources the configuration is read from, and in which order.

use vstd::prelude::*;
use crate::error::Error;
use crate::schema::{DEFAULT_CONFIG, DEFAULT_CONFIG_SYS};
use crate::text::{lemma_precedes_total, lemma_precedes_transitive, precedes, text_precedes};

verus! {

/// The pattern of the snippets that follow the system-wide file.
pub const DEFAULT_CONFIG_SYS_SNIPPETS: &'static str = "/usr/etc/keylime/agent.conf.d/*";

/// The pattern of the snippets that follow the user's file.
pub const DEFAULT_CONFIG_SNIPPETS: &'static str = "/etc/keylime/agent.conf.d/*";

/// A source of the configuration.
#[derive(Debug, PartialEq, Eq)]
pub enum Source {
    /// The file at `path`. A file that is `required` must be there; one that
    /// is not and is missing sets nothing.
    File { path: String, required: bool },
    /// Every file that matches `pattern`, in the order of their names; none
    /// of them is required.
    Snippets { pattern: String },
    /// The variables of the environment.
    Environment,
}

/// A `Source` with its text as a sequence of characters.
pub enum SourceView {
    File { path: Seq<char>, required: bool },
    Snippets { pattern: Seq<char> },
    Environment,
}

impl View for Source {
    type V = SourceView;

    open spec fn view(&self) -> SourceView {
        match self {
            Source::File { path, required } => SourceView::File {
                path: path@,
                required: *required,
            },
            Source::Snippets { pattern } => SourceView::Snippets { pattern: pattern@ },
            Source::Environment => SourceView::Environment,
        }
    }
}

impl DeepView for Source {
    type V = SourceView;

    open spec fn deep_view(&self) -> SourceView {
        self@
    }
}

/// The sources that are read where no file is named from outside, the
/// lowest in precedence first: the system-wide file and its snippets, the
/// user's file and its snippets, the environment.
pub open spec fn default_sources() -> Seq<SourceView> {
    seq![
        SourceView::File { path: DEFAULT_CONFIG_SYS@, required: false },
        SourceView::Snippets { pattern: DEFAULT_CONFIG_SYS_SNIPPETS@ },
        SourceView::File { path: DEFAULT_CONFIG@, required: false },
        SourceView::Snippets { pattern: DEFAULT_CONFIG_SNIPPETS@ },
        SourceView::Environment,
    ]
}

/// The message for a file named from outside that is not there.
pub open spec fn explicit_missing_message() -> Seq<char> {
    "Configuration set in KEYLIME_AGENT_CONFIG environment variable not found"@
}

/// The sources to read, the lowest in precedence first. Where a file is
/// named from outside and the name is not empty, that file takes the place
/// of all other files: it must be there, and only the environment stands
/// above it. Else the default sources are read.
pub open spec fn source_plan(explicit: Option<Seq<char>>, exists: bool) -> Result<
    Seq<SourceView>,
    Seq<char>,
> {
    if explicit is Some && explicit->0.len() > 0 {
        if exists {
            Ok(
                seq![
                    SourceView::File { path: explicit->0, required: true },
                    SourceView::Environment,
                ],
            )
        } else {
            Err(explicit_missing_message())
        }
    } else {
        Ok(default_sources())
    }
}

/// The sources that are read where no file is named from outside.
pub fn config_get_file_setting() -> (sources: Vec<Source>)
    ensures
        sources.deep_view() == default_sources(),
{
    let mut sources: Vec<Source> = Vec::new();
    sources.push(Source::File { path: DEFAULT_CONFIG_SYS.to_owned(), required: false });
    sources.push(Source::Snippets { pattern: DEFAULT_CONFIG_SYS_SNIPPETS.to_owned() });
    sources.push(Source::File { path: DEFAULT_CONFIG.to_owned(), required: false });
    sources.push(Source::Snippets { pattern: DEFAULT_CONFIG_SNIPPETS.to_owned() });
    sources.push(Source::Environment);
    assert(sources.deep_view() =~= default_sources());
    sources
}

/// The sources to read. `explicit` is the file named from outside, if one
/// is named; `exists` says whether that file is there, and counts only
/// where one is named and the name is not empty.
pub fn config_get_setting(explicit: Option<&str>, exists: bool) -> (plan: Result<
    Vec<Source>,
    Error,
>)
    ensures
        match source_plan(
            match explicit {
                Some(path) => Some(path@),
                None => None,
            },
            exists,
        ) {
            Ok(sources) => plan matches Ok(found) && found.deep_view() == sources,
            Err(message) => plan matches Err(error) && error.message() == message,
        },
{
    match explicit {
        Some(path) => {
            if !path.is_empty() {
                if exists {
                    let mut sources: Vec<Source> = Vec::new();
                    sources.push(Source::File { path: path.to_owned(), required: true });
                    sources.push(Source::Environment);
                    assert(sources.deep_view() =~= seq![
                        SourceView::File { path: path@, required: true },
                        SourceView::Environment,
                    ]);
                    return Ok(sources);
                } else {
                    let message =
                        "Configuration set in KEYLIME_AGENT_CONFIG environment variable not found";
                    return Err(Error::Configuration(message.to_owned()));
                }
            }
        },
        None => {},
    }
    Ok(config_get_file_setting())
}

/// Whether each text stands before all that follow it, or is the same.
pub open spec fn is_sorted(texts: Seq<Seq<char>>) -> bool {
    forall|i: int, j: int| 0 <= i < j < texts.len() ==> precedes(texts[i], texts[j])
}

/// The snippets in the order in which they are read: by their names, as a
/// dictionary would have them. `paths` are the files that one pattern
/// matched, in any order; they lie in one directory, so the order of the
/// paths is the order of the names. The result holds the same paths, each
/// as often as `paths` does.
pub fn sort_snippets(paths: &Vec<String>) -> (sorted: Vec<String>)
    ensures
        sorted.deep_view().to_multiset() == paths.deep_view().to_multiset(),
        is_sorted(sorted.deep_view()),
{
    let mut sorted: Vec<String> = Vec::new();
    let mut i: usize = 0;
    assert(paths.deep_view().take(0) =~= sorted.deep_view());
    while i < paths.len()
        invariant
            0 <= i <= paths.len(),
            sorted.deep_view().to_multiset() == paths.deep_view().take(i as int).to_multiset(),
            is_sorted(sorted.deep_view()),
        decreases paths.len() - i,
    {
        let path = paths[i].clone();
        let mut at: usize = 0;
        while at < sorted.len() && text_precedes(sorted[at].as_str(), path.as_str())
            invariant
                0 <= at <= sorted.len(),
                forall|k: int| 0 <= k < at ==> precedes(#[trigger] sorted.deep_view()[k], path@),
            decreases sorted.len() - at,
        {
            at += 1;
        }
        let ghost before = sorted.deep_view();
        let ghost taken = paths.deep_view().take(i as int);
        sorted.insert(at, path);
        proof {
            let after = sorted.deep_view();
            assert(after =~= before.insert(at as int, path@));
            assert(after.remove(at as int) =~= before);
            assert(after[at as int] == path@);
            vstd::seq_lib::to_multiset_remove(after, at as int);
            after.to_multiset_ensures();
            assert(after.contains(path@));
            assert(after.to_multiset() =~= before.to_multiset().insert(path@));
            assert(paths.deep_view().take(i + 1) =~= taken.push(path@));
            vstd::seq_lib::to_multiset_build(taken, path@);
            assert forall|x: int, y: int| 0 <= x < y < after.len() implies precedes(
                after[x],
                after[y],
            ) by {
                if y == at {
                    assert(after[x] == before[x]);
                } else if x == at {
                    assert(after[y] == before[y - 1]);
                    if at < before.len() {
                        lemma_precedes_total(before[at as int], path@, 0);
                        if y - 1 > at {
                            assert(precedes(before[at as int], before[y - 1]));
                            lemma_precedes_transitive(path@, before[at as int], before[y - 1], 0);
                        }
                    }
                } else {
                    let bx = if x < at { x } else { x - 1 };
                    let by = if y < at { y } else { y - 1 };
                    assert(after[x] == before[bx]);
                    assert(after[y] == before[by]);
                }
            }
        }
        i += 1;
    }
    assert(paths.deep_view().take(i as int) =~= paths.deep_view());
    sorted
}

} // verus!
