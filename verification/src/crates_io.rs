//! What the registry is asked and what it answers: sort orders, package
//! records, result sets and search requests.

use crate::channel::send_event;
use crate::input::{EventView, InputEvent};
use crossbeam_channel::Sender;
use vstd::prelude::*;
use vstd::string::StringExecFns;

verus! {

/// The order in which the registry lists the packages that match a query.
#[derive(Clone, Copy, Debug, PartialEq, Eq, Structural)]
pub enum CratesSort {
    Relevance,
    AllTimeDownload,
    RecentDownload,
    RecentUpdate,
    NewlyAdded,
}

impl CratesSort {
    /// The five sort orders, in the order in which a picker offers them.
    pub open spec fn all_spec() -> Seq<CratesSort> {
        seq![
            CratesSort::Relevance,
            CratesSort::AllTimeDownload,
            CratesSort::RecentDownload,
            CratesSort::RecentUpdate,
            CratesSort::NewlyAdded,
        ]
    }

    /// Where a sort order stands among the five.
    pub open spec fn position_spec(self) -> int {
        match self {
            CratesSort::Relevance => 0,
            CratesSort::AllTimeDownload => 1,
            CratesSort::RecentDownload => 2,
            CratesSort::RecentUpdate => 3,
            CratesSort::NewlyAdded => 4,
        }
    }

    /// The text under which a sort order is shown.
    pub open spec fn label_spec(self) -> Seq<char> {
        match self {
            CratesSort::Relevance => "Relevance"@,
            CratesSort::AllTimeDownload => "All Time Downloads"@,
            CratesSort::RecentDownload => "Recent Downloads"@,
            CratesSort::RecentUpdate => "Recent Updates"@,
            CratesSort::NewlyAdded => "Newly Added"@,
        }
    }

    /// The labels of a sequence of sort orders, one for one.
    pub open spec fn labels_spec(items: Seq<CratesSort>) -> Seq<Seq<char>> {
        Seq::new(items.len(), |i: int| items[i].label_spec())
    }

    /// The five sort orders in their fixed order.
    pub fn all() -> (items: Vec<CratesSort>)
        ensures
            items@ == Self::all_spec(),
    {
        let mut items: Vec<CratesSort> = Vec::with_capacity(5);
        items.push(CratesSort::Relevance);
        items.push(CratesSort::AllTimeDownload);
        items.push(CratesSort::RecentDownload);
        items.push(CratesSort::RecentUpdate);
        items.push(CratesSort::NewlyAdded);
        assert(items@ =~= Self::all_spec());
        items
    }

    /// The index of this sort order among the five.
    pub fn position(&self) -> (i: usize)
        ensures
            i as int == self.position_spec(),
            i < 5,
    {
        match self {
            CratesSort::Relevance => 0,
            CratesSort::AllTimeDownload => 1,
            CratesSort::RecentDownload => 2,
            CratesSort::RecentUpdate => 3,
            CratesSort::NewlyAdded => 4,
        }
    }

    /// The display label of this sort order.
    pub fn label(&self) -> (text: String)
        ensures
            text@ == self.label_spec(),
    {
        match self {
            CratesSort::Relevance => "Relevance".to_owned(),
            CratesSort::AllTimeDownload => "All Time Downloads".to_owned(),
            CratesSort::RecentDownload => "Recent Downloads".to_owned(),
            CratesSort::RecentUpdate => "Recent Updates".to_owned(),
            CratesSort::NewlyAdded => "Newly Added".to_owned(),
        }
    }

    /// The sort order that a label names, if it names one.
    pub fn from_label(text: &str) -> (sort: Option<CratesSort>)
        ensures
            match sort {
                Some(s) => s.label_spec() == text@,
                None => forall|s: CratesSort| s.label_spec() != text@,
            },
    {
        let wanted = text.to_owned();
        if wanted == "Relevance".to_owned() {
            Some(CratesSort::Relevance)
        } else if wanted == "All Time Downloads".to_owned() {
            Some(CratesSort::AllTimeDownload)
        } else if wanted == "Recent Downloads".to_owned() {
            Some(CratesSort::RecentDownload)
        } else if wanted == "Recent Updates".to_owned() {
            Some(CratesSort::RecentUpdate)
        } else if wanted == "Newly Added".to_owned() {
            Some(CratesSort::NewlyAdded)
        } else {
            None
        }
    }
}

impl Default for CratesSort {
    /// Results come by relevance unless another order is chosen.
    fn default() -> (sort: CratesSort)
        ensures
            sort == CratesSort::Relevance,
    {
        CratesSort::Relevance
    }
}

/// Every sort order stands at its position among the five, and nowhere else.
pub proof fn lemma_position_in_all(sort: CratesSort)
    ensures
        CratesSort::all_spec().len() == 5,
        0 <= sort.position_spec() < 5,
        CratesSort::all_spec()[sort.position_spec()] == sort,
        forall|i: int|
            0 <= i < 5 && CratesSort::all_spec()[i] == sort ==> i == sort.position_spec(),
{
}

/// No two sort orders share a label.
pub proof fn lemma_labels_distinct(a: CratesSort, b: CratesSort)
    ensures
        a.label_spec() == b.label_spec() <==> a == b,
{
    reveal_strlit("Relevance");
    reveal_strlit("All Time Downloads");
    reveal_strlit("Recent Downloads");
    reveal_strlit("Recent Updates");
    reveal_strlit("Newly Added");
    assert(CratesSort::Relevance.label_spec().len() == 9);
    assert(CratesSort::AllTimeDownload.label_spec().len() == 18);
    assert(CratesSort::RecentDownload.label_spec().len() == 16);
    assert(CratesSort::RecentUpdate.label_spec().len() == 14);
    assert(CratesSort::NewlyAdded.label_spec().len() == 11);
}

/// One package as the registry describes it.
#[derive(Clone, Debug, PartialEq, Eq)]
pub struct CrateSearch {
    pub name: String,
    pub version: String,
    pub description: String,
    pub downloads: u64,
    pub recent_downloads: u64,
}

/// A package record as plain values.
pub struct CrateSearchView {
    pub name: Seq<char>,
    pub version: Seq<char>,
    pub description: Seq<char>,
    pub downloads: u64,
    pub recent_downloads: u64,
}

impl CrateSearchView {
    /// The line that declares a dependency on this package: its name, an
    /// equals sign with a space on either side, and its version in double
    /// quotes.
    pub open spec fn toml_line(self) -> Seq<char> {
        self.name + " = \""@ + self.version + "\""@
    }
}

impl View for CrateSearch {
    type V = CrateSearchView;

    open spec fn view(&self) -> CrateSearchView {
        CrateSearchView {
            name: self.name@,
            version: self.version@,
            description: self.description@,
            downloads: self.downloads,
            recent_downloads: self.recent_downloads,
        }
    }
}

impl CrateSearch {
    /// The dependency declaration for this package.
    pub fn get_toml_str(&self) -> (line: String)
        ensures
            line@ == self@.toml_line(),
    {
        let mut line = self.name.clone();
        line.append(" = \"");
        line.append(self.version.as_str());
        line.append("\"");
        line
    }
}

/// The packages that one search returned, best match first.
#[derive(Clone, Debug, PartialEq, Eq)]
pub struct CrateSearchResponse {
    pub crates: Vec<CrateSearch>,
}

impl View for CrateSearchResponse {
    type V = Seq<CrateSearchView>;

    open spec fn view(&self) -> Seq<CrateSearchView> {
        Seq::new(self.crates@.len(), |i: int| self.crates@[i]@)
    }
}

impl CrateSearchResponse {
    /// A result set without packages.
    pub fn empty() -> (response: CrateSearchResponse)
        ensures
            response@ == Seq::<CrateSearchView>::empty(),
    {
        let response = CrateSearchResponse { crates: Vec::new() };
        assert(response@ =~= Seq::<CrateSearchView>::empty());
        response
    }
}

/// One search as the registry is asked for it.
#[derive(Clone, Debug, PartialEq, Eq)]
pub struct SearchRequest {
    pub query: String,
    pub page: u32,
    pub sort: CratesSort,
}

/// A search request as plain values.
pub struct SearchRequestView {
    pub query: Seq<char>,
    pub page: int,
    pub sort: CratesSort,
}

impl View for SearchRequest {
    type V = SearchRequestView;

    open spec fn view(&self) -> SearchRequestView {
        SearchRequestView { query: self.query@, page: self.page as int, sort: self.sort }
    }
}

/// The number of packages that a page of the browser asks for: as many as
/// the result grid shows.
pub const PAGE_SIZE: u32 = 5;

/// The end of the search client that reports back: whatever became of a
/// search, it puts one event on the event channel.
pub struct CrateSearcher {
    tx: Sender<InputEvent>,
}

impl CrateSearcher {
    /// The sending end on which this client reports.
    pub closed spec fn sender(&self) -> Sender<InputEvent> {
        self.tx
    }

    /// The event that reports the outcome of a search: the packages found,
    /// or that the search failed.
    pub open spec fn outcome_spec(outcome: Option<Seq<CrateSearchView>>) -> EventView {
        match outcome {
            Some(found) => EventView::Results(found),
            None => EventView::SearchFailed,
        }
    }

    /// A client that reports on `tx`.
    pub fn new(tx: Sender<InputEvent>) -> (client: Self)
        ensures
            client.sender() == tx,
    {
        CrateSearcher { tx }
    }

    /// The one event that reports the outcome of a search, where `None`
    /// stands for a search that failed.
    pub fn outcome_event(outcome: Option<CrateSearchResponse>) -> (event: InputEvent)
        ensures
            event@ == Self::outcome_spec(
                match outcome {
                    Some(response) => Some(response@),
                    None => None,
                },
            ),
    {
        match outcome {
            Some(response) => InputEvent::Results(response),
            None => InputEvent::SearchFailed,
        }
    }

    /// Reports the outcome of a search on the event channel, once. When
    /// nobody listens any more, the event that reports the outcome comes
    /// back as the error.
    pub fn report(&self, outcome: Option<CrateSearchResponse>) -> (sent: Result<(), InputEvent>)
        ensures
            sent matches Err(back) ==> back@ == Self::outcome_spec(
                match outcome {
                    Some(response) => Some(response@),
                    None => None,
                },
            ),
    {
        send_event(&self.tx, Self::outcome_event(outcome))
    }
}

} // verus!
