use vstd::prelude::*;
use crate::text::{is_blank, is_trim_of, trim, lemma_trim_empty_iff_blank};

verus! {

/// How long typing has to pause, in milliseconds, before the city search runs.
pub const SEARCH_PAUSE_MS: u64 = 300;

/// What to do about the city search in a frame of the settings window.
#[derive(Debug, Clone, PartialEq, Eq)]
pub enum Debounce {
    /// Nothing was typed since the last search.
    Idle,
    /// Typing paused too briefly: look again shortly.
    Wait,
    /// The pause is over, but the query is blank: forget the keystroke, search nothing.
    Expired,
    /// The pause is over: forget the keystroke and search for this (trimmed) query.
    Search(String),
}

/// Decides whether the city search runs now.  `since_last_key_ms` is the time
/// since the query last changed, `None` when it has not changed since the last search.
pub fn debounce(since_last_key_ms: Option<u64>, query: &str) -> (r: Debounce)
    ensures
        since_last_key_ms is None ==> r == Debounce::Idle,
        since_last_key_ms matches Some(t) && t < SEARCH_PAUSE_MS ==> r == Debounce::Wait,
        since_last_key_ms matches Some(t) && t >= SEARCH_PAUSE_MS && is_blank(query@) ==> r
            == Debounce::Expired,
        since_last_key_ms matches Some(t) && t >= SEARCH_PAUSE_MS && !is_blank(query@) ==> (r matches Debounce::Search(q)
            && is_trim_of(q@, query@)),
{
    match since_last_key_ms {
        None => Debounce::Idle,
        Some(t) => {
            if t >= SEARCH_PAUSE_MS {
                let q = trim(query);
                proof {
                    lemma_trim_empty_iff_blank(q@, query@);
                }
                if q.is_empty() {
                    Debounce::Expired
                } else {
                    Debounce::Search(String::from_str(q))
                }
            } else {
                Debounce::Wait
            }
        },
    }
}

/// The city search as the settings window shows it.
#[derive(Debug, Clone)]
pub struct SearchState<R> {
    /// Cities found by the last search.
    pub results: Vec<R>,
    /// A search is under way.
    pub loading: bool,
    /// Why the last search failed.
    pub error: Option<String>,
}

/// What the settings window shows under the query.
#[derive(Debug, Clone, Copy, PartialEq, Eq, Structural)]
pub enum SearchView {
    /// A spinner: a search is under way.
    Loading,
    /// The error of the last search.
    Failed,
    /// The cities to choose from.
    Choices,
    /// Nothing.
    Empty,
}

impl<R> SearchState<R> {
    /// No search yet.
    pub fn new() -> (r: Self)
        ensures
            r.results@.len() == 0,
            !r.loading,
            r.error is None,
    {
        SearchState { results: Vec::new(), loading: false, error: None }
    }

    /// A search starts: earlier results and errors are forgotten.
    pub fn start(&mut self)
        ensures
            final(self).results@.len() == 0,
            final(self).loading,
            final(self).error is None,
    {
        self.loading = true;
        self.results.clear();
        self.error = None;
    }

    /// A search ended: its cities, or its error, replace the spinner.
    pub fn finish(&mut self, outcome: Result<Vec<R>, String>)
        ensures
            !final(self).loading,
            outcome matches Ok(found) ==> final(self).results@ == found@ && final(self).error
                == old(self).error,
            outcome matches Err(msg) ==> final(self).error == Some(msg) && final(self).results@
                == old(self).results@,
    {
        match outcome {
            Ok(found) => {
                self.results = found;
            },
            Err(msg) => {
                self.error = Some(msg);
            },
        }
        self.loading = false;
    }

    /// The query was edited or a city was picked: the choices go away.
    pub fn clear_results(&mut self)
        ensures
            final(self).results@.len() == 0,
            final(self).loading == old(self).loading,
            final(self).error == old(self).error,
    {
        self.results.clear();
    }

    /// What to show: the spinner first, then an error, then the choices.
    pub fn view(&self) -> (r: SearchView)
        ensures
            r == (if self.loading {
                SearchView::Loading
            } else if self.error is Some {
                SearchView::Failed
            } else if self.results@.len() > 0 {
                SearchView::Choices
            } else {
                SearchView::Empty
            }),
    {
        if self.loading {
            SearchView::Loading
        } else if self.error.is_some() {
            SearchView::Failed
        } else if self.results.len() > 0 {
            SearchView::Choices
        } else {
            SearchView::Empty
        }
    }
}

} // verus!
