//! The search for the device: enumerate the ports, keep the candidates, and
//! probe them one after the other until one matches.

use crate::ports::{
    descriptors_view, list_available_serial_ports, listed, scan_view, PortDescriptor,
    PortDescriptorView, SystemPort, SystemPortView,
};
use crate::probe::{ProbeOutcome, ProbeOutcomeView, ProbeResult, ProbeResultView};
use crate::text::{contains, contains_text};
use vstd::prelude::*;
use vstd::string::*;

verus! {

/// The name of a port if the port is a candidate: if its name contains the
/// filter.
pub open spec fn candidate(filter: Seq<char>) -> spec_fn(PortDescriptorView) -> Option<Seq<char>> {
    |descriptor: PortDescriptorView|
        if contains_text(descriptor.name, filter) {
            Some(descriptor.name)
        } else {
            None
        }
}

/// The names of the candidates, in the order of the listing.
pub open spec fn candidate_names(descriptors: Seq<PortDescriptorView>, filter: Seq<char>) -> Seq<
    Seq<char>,
> {
    descriptors.filter_map(candidate(filter))
}

/// The views of a list of names.
pub open spec fn names_view(names: Seq<String>) -> Seq<Seq<char>> {
    names.map_values(|name: String| name@)
}

/// Picks the candidates out of a listing.
pub fn select_candidates(descriptors: &Vec<PortDescriptor>, filter: &str) -> (names: Vec<String>)
    ensures
        names_view(names@) == candidate_names(descriptors_view(descriptors@), filter@),
{
    let ghost views = descriptors_view(descriptors@);
    let mut names: Vec<String> = Vec::new();
    let mut at: usize = 0;
    while at < descriptors.len()
        invariant
            at <= descriptors.len(),
            views == descriptors_view(descriptors@),
            names_view(names@) == views.take(at as int).filter_map(candidate(filter@)),
        decreases descriptors.len() - at,
    {
        proof {
            views.lemma_filter_map_take_succ(candidate(filter@), at as int);
        }
        if contains(descriptors[at].name.as_str(), filter) {
            names.push(descriptors[at].name.clone());
        }
        at += 1;
        assert(names_view(names@) =~= views.take(at as int).filter_map(candidate(filter@)));
    }
    assert(views.take(at as int) == views);
    names
}

/// The device that a search found.
#[derive(Debug, PartialEq, Eq)]
pub struct Detection {
    /// The port that the device is on.
    pub port_name: String,
    /// What the device replied to the query.
    pub reply: String,
}

/// The mathematical value of a `Detection`.
pub struct DetectionView {
    pub port_name: Seq<char>,
    pub reply: Seq<char>,
}

impl View for Detection {
    type V = DetectionView;

    open spec fn view(&self) -> DetectionView {
        DetectionView { port_name: self.port_name@, reply: self.reply@ }
    }
}

/// What the driver of a search reports back after it has carried out a
/// request.
#[derive(Debug, PartialEq, Eq)]
pub enum SearchEvent {
    /// The ports of the system were scanned.
    Enumerated { scan: Result<Vec<SystemPort>, String> },
    /// A port was probed.
    Probed { result: ProbeResult },
}

/// The mathematical value of a `SearchEvent`.
pub enum SearchEventView {
    Enumerated { scan: Result<Seq<SystemPortView>, Seq<char>> },
    Probed { result: ProbeResultView },
}

impl View for SearchEvent {
    type V = SearchEventView;

    open spec fn view(&self) -> SearchEventView {
        match self {
            SearchEvent::Enumerated { scan } => SearchEventView::Enumerated {
                scan: scan_view(*scan),
            },
            SearchEvent::Probed { result } => SearchEventView::Probed { result: result@ },
        }
    }
}

/// What a search asks its driver to do next.
#[derive(Debug, PartialEq, Eq)]
pub enum SearchRequest {
    /// Scan the ports of the system.
    Enumerate,
    /// Probe this port with this query.
    Probe { port_name: String, query: String, timeout_ms: u64 },
}

/// The mathematical value of a `SearchRequest`.
pub enum SearchRequestView {
    Enumerate,
    Probe { port_name: Seq<char>, query: Seq<char>, timeout_ms: u64 },
}

impl View for SearchRequest {
    type V = SearchRequestView;

    open spec fn view(&self) -> SearchRequestView {
        match self {
            SearchRequest::Enumerate => SearchRequestView::Enumerate,
            SearchRequest::Probe { port_name, query, timeout_ms } => SearchRequestView::Probe {
                port_name: port_name@,
                query: query@,
                timeout_ms: *timeout_ms,
            },
        }
    }
}

/// The search, as a machine that a driver steps.
#[derive(Debug)]
pub struct Search {
    filter: String,
    query: String,
    timeout_ms: u64,
    enumerated: bool,
    candidates: Vec<String>,
    position: usize,
}

/// The mathematical value of a `Search`.
pub struct SearchView {
    pub filter: Seq<char>,
    pub query: Seq<char>,
    pub timeout_ms: u64,
    /// The ports were enumerated, and the candidates are known.
    pub enumerated: bool,
    pub candidates: Seq<Seq<char>>,
    /// The index of the candidate whose probe is awaited.
    pub position: nat,
}

impl SearchView {
    /// After the enumeration there is a candidate to probe.
    pub open spec fn well_formed(self) -> bool {
        self.enumerated ==> self.position < self.candidates.len()
    }

    /// What the search waits for: the enumeration, then the probe of the
    /// candidate at its position.
    pub open spec fn request(self) -> SearchRequestView {
        if !self.enumerated {
            SearchRequestView::Enumerate
        } else {
            SearchRequestView::Probe {
                port_name: self.candidates[self.position as int],
                query: self.query,
                timeout_ms: self.timeout_ms,
            }
        }
    }
}

/// How a search goes on after an event.
#[derive(Debug)]
pub enum SearchStep {
    /// The search is not over: carry out its request.
    Pending { search: Search },
    /// The search is over: the device was found, or no candidate is left.
    Done { found: Option<Detection> },
}

/// The mathematical value of a `SearchStep`.
pub enum SearchStepView {
    Pending { search: SearchView },
    Done { found: Option<DetectionView> },
}

impl View for SearchStep {
    type V = SearchStepView;

    open spec fn view(&self) -> SearchStepView {
        match self {
            SearchStep::Pending { search } => SearchStepView::Pending { search: search@ },
            SearchStep::Done { found } => SearchStepView::Done {
                found: match found {
                    Some(detection) => Some(detection@),
                    None => None,
                },
            },
        }
    }
}

/// The search after the enumeration: it goes on with the first candidate, and
/// is over without a device where the scan failed or left no candidate.
pub open spec fn enumeration_step(
    search: SearchView,
    scan: Result<Seq<SystemPortView>, Seq<char>>,
) -> SearchStepView {
    match listed(scan) {
        Ok(descriptors) => {
            let names = candidate_names(descriptors, search.filter);
            if names.len() == 0 {
                SearchStepView::Done { found: None }
            } else {
                SearchStepView::Pending {
                    search: SearchView {
                        enumerated: true,
                        candidates: names,
                        position: 0,
                        ..search
                    },
                }
            }
        },
        Err(_) => SearchStepView::Done { found: None },
    }
}

/// The search after the probe of the candidate at its position: a match ends
/// it with the device, anything else moves it to the next candidate, and
/// after the last candidate it is over without a device.
pub open spec fn probe_result_step(search: SearchView, result: ProbeResultView) -> SearchStepView {
    match result.outcome {
        ProbeOutcomeView::Matched { reply } => SearchStepView::Done {
            found: Some(DetectionView { port_name: result.port_name, reply }),
        },
        _ => if search.position + 1 < search.candidates.len() {
            SearchStepView::Pending {
                search: SearchView { position: search.position + 1, ..search },
            }
        } else {
            SearchStepView::Done { found: None }
        },
    }
}

/// The rule of the search. Before the enumeration only a scan counts, after
/// it only the result of the probe that was asked for: the one of the
/// candidate at the search's position. Any other event changes nothing.
pub open spec fn search_step(search: SearchView, event: SearchEventView) -> SearchStepView {
    match event {
        SearchEventView::Enumerated { scan } => if !search.enumerated {
            enumeration_step(search, scan)
        } else {
            SearchStepView::Pending { search }
        },
        SearchEventView::Probed { result } => if search.enumerated && search.position
            < search.candidates.len() && result.port_name == search.candidates[search.position as int] {
            probe_result_step(search, result)
        } else {
            SearchStepView::Pending { search }
        },
    }
}

impl View for Search {
    type V = SearchView;

    closed spec fn view(&self) -> SearchView {
        SearchView {
            filter: self.filter@,
            query: self.query@,
            timeout_ms: self.timeout_ms,
            enumerated: self.enumerated,
            candidates: names_view(self.candidates@),
            position: self.position as nat,
        }
    }
}

impl Search {
    #[verifier::type_invariant]
    spec fn has_a_candidate(&self) -> bool {
        self@.well_formed()
    }

    /// Starts a search among the ports whose name contains `filter`, for the
    /// device that gives a positive reply to `query`.
    pub fn new(filter: &str, query: &str, timeout_ms: u64) -> (search: Search)
        ensures
            search@ == (SearchView {
                filter: filter@,
                query: query@,
                timeout_ms,
                enumerated: false,
                candidates: Seq::empty(),
                position: 0,
            }),
    {
        let search = Search {
            filter: filter.to_owned(),
            query: query.to_owned(),
            timeout_ms,
            enumerated: false,
            candidates: Vec::new(),
            position: 0,
        };
        assert(search@.candidates =~= Seq::empty());
        search
    }

    /// What the search asks of its driver now.
    pub fn request(&self) -> (request: SearchRequest)
        ensures
            request@ == self@.request(),
            self@.well_formed(),
    {
        proof {
            use_type_invariant(self);
        }
        if !self.enumerated {
            SearchRequest::Enumerate
        } else {
            SearchRequest::Probe {
                port_name: self.candidates[self.position].clone(),
                query: self.query.clone(),
                timeout_ms: self.timeout_ms,
            }
        }
    }
}

/// Advances the search for the device by one event.
pub fn find_t10(search: Search, event: SearchEvent) -> (step: SearchStep)
    ensures
        step@ == search_step(search@, event@),
        step matches SearchStep::Pending { search: next } ==> next@.well_formed(),
{
    proof {
        use_type_invariant(&search);
    }
    let Search { filter, query, timeout_ms, enumerated, candidates, position } = search;
    assert(names_view(candidates@).len() == candidates.len());
    match event {
        SearchEvent::Enumerated { scan } => {
            if enumerated {
                return SearchStep::Pending {
                    search: Search { filter, query, timeout_ms, enumerated, candidates, position },
                };
            }
            match list_available_serial_ports(scan) {
                Ok(descriptors) => {
                    let names = select_candidates(&descriptors, filter.as_str());
                    if names.len() == 0 {
                        SearchStep::Done { found: None }
                    } else {
                        SearchStep::Pending {
                            search: Search {
                                filter,
                                query,
                                timeout_ms,
                                enumerated: true,
                                candidates: names,
                                position: 0,
                            },
                        }
                    }
                },
                Err(_) => SearchStep::Done { found: None },
            }
        },
        SearchEvent::Probed { result } => {
            if !enumerated || result.port_name != candidates[position] {
                return SearchStep::Pending {
                    search: Search { filter, query, timeout_ms, enumerated, candidates, position },
                };
            }
            let ProbeResult { port_name, outcome } = result;
            match outcome {
                ProbeOutcome::Matched { reply } => SearchStep::Done {
                    found: Some(Detection { port_name, reply }),
                },
                _ => {
                    if position + 1 < candidates.len() {
                        SearchStep::Pending {
                            search: Search {
                                filter,
                                query,
                                timeout_ms,
                                enumerated,
                                candidates,
                                position: position + 1,
                            },
                        }
                    } else {
                        SearchStep::Done { found: None }
                    }
                },
            }
        },
    }
}

/// Where a search stands after the results of a row of probes, each handed
/// to it in turn for as long as it is not over.
pub open spec fn search_run(search: SearchView, results: Seq<ProbeResultView>) -> SearchStepView
    decreases results.len(),
{
    if results.len() == 0 {
        SearchStepView::Pending { search }
    } else {
        match search_step(search, SearchEventView::Probed { result: results.first() }) {
            SearchStepView::Pending { search: next } => search_run(next, results.drop_first()),
            done => done,
        }
    }
}

/// `results` answers the probes of the next `count` candidates of `search`,
/// in order, and none of them is a match.
pub open spec fn all_fail(search: SearchView, results: Seq<ProbeResultView>, count: int) -> bool {
    &&& 0 <= count <= results.len()
    &&& search.position + count <= search.candidates.len()
    &&& forall|i: int|
        0 <= i < count ==> (#[trigger] results[i]).port_name == search.candidates[search.position
            + i] && !(results[i].outcome is Matched)
}

/// The first match wins. Where the probes of the next candidates fail one
/// after the other and then one matches, the search ends with that
/// candidate's port and reply, whatever results might follow: no later
/// candidate is probed.
pub proof fn law_search_stops_at_first_match(
    search: SearchView,
    results: Seq<ProbeResultView>,
    count: int,
    reply: Seq<char>,
)
    requires
        search.enumerated,
        all_fail(search, results, count),
        count < results.len(),
        search.position + count < search.candidates.len(),
        results[count].port_name == search.candidates[search.position + count],
        results[count].outcome == (ProbeOutcomeView::Matched { reply }),
    ensures
        search_run(search, results) == (SearchStepView::Done {
            found: Some(
                DetectionView { port_name: search.candidates[search.position + count], reply },
            ),
        }),
    decreases count,
{
    if count > 0 {
        let next = SearchView { position: search.position + 1, ..search };
        let rest = results.drop_first();
        assert(results[0].port_name == search.candidates[search.position as int]);
        assert forall|i: int| 0 <= i < count - 1 implies (#[trigger] rest[i]).port_name
            == next.candidates[next.position + i] && !(rest[i].outcome is Matched) by {
            assert(rest[i] == results[i + 1]);
        }
        assert(rest[count - 1] == results[count]);
        law_search_stops_at_first_match(next, rest, count - 1, reply);
    }
}

/// Not found is no error. Where the probe of every candidate that is left
/// fails or gives a negative reply, the search ends without a device, and
/// hands on none of the errors.
pub proof fn law_search_ends_without_match(search: SearchView, results: Seq<ProbeResultView>)
    requires
        search.enumerated,
        search.position < search.candidates.len(),
        results.len() == search.candidates.len() - search.position,
        all_fail(search, results, results.len() as int),
    ensures
        search_run(search, results) == (SearchStepView::Done { found: None }),
    decreases results.len(),
{
    assert(results[0].port_name == search.candidates[search.position as int]);
    if search.position + 1 < search.candidates.len() {
        let next = SearchView { position: search.position + 1, ..search };
        let rest = results.drop_first();
        assert forall|i: int| 0 <= i < rest.len() implies (#[trigger] rest[i]).port_name
            == next.candidates[next.position + i] && !(rest[i].outcome is Matched) by {
            assert(rest[i] == results[i + 1]);
        }
        law_search_ends_without_match(next, rest);
    }
}

/// A search whose enumeration fails, or finds no candidate, ends at once
/// without a device.
pub proof fn law_search_without_candidates(
    search: SearchView,
    scan: Result<Seq<SystemPortView>, Seq<char>>,
)
    requires
        !search.enumerated,
        listed(scan) matches Ok(descriptors) ==> candidate_names(descriptors, search.filter).len()
            == 0,
    ensures
        search_step(search, SearchEventView::Enumerated { scan }) == (SearchStepView::Done {
            found: None,
        }),
{
}

} // verus!
