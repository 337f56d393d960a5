//! The data model the dashboard works on: one record per container, the
//! filter over the listing, and the events the key bindings produce.

use vstd::prelude::*;

use crate::text::{lower_of, regex_match, regex_valid, seq_contains, split_sep};

verus! {

/// One row of the container listing, as plain text fields taken from the
/// runtime's output.
#[derive(Debug, Clone)]
pub struct Container {
    pub name: String,
    pub image: String,
    pub status: String,
    pub ip_address: String,
    pub ports: String,
}

/// Which containers the listing shows.
#[derive(Clone, Copy, PartialEq, Eq, Debug, Structural)]
pub enum ContainerFilter {
    Running,
    Recent,
    All,
}

impl ContainerFilter {
    /// The label shown for the filter in the status line.
    pub fn display_name(&self) -> (r: &'static str)
        ensures
            r@ == match self {
                ContainerFilter::Running => "RUNNING"@,
                ContainerFilter::Recent => "RECENT"@,
                ContainerFilter::All => "ALL"@,
            },
    {
        match self {
            ContainerFilter::Running => "RUNNING",
            ContainerFilter::Recent => "RECENT",
            ContainerFilter::All => "ALL",
        }
    }

    /// The filter after toggling between the running and the recent
    /// listing; from the full listing it falls back to recent.
    pub fn toggled_recent(self) -> (r: Self)
        ensures
            r == match self {
                ContainerFilter::Running => ContainerFilter::Recent,
                ContainerFilter::Recent => ContainerFilter::Running,
                ContainerFilter::All => ContainerFilter::Recent,
            },
    {
        match self {
            ContainerFilter::Running => ContainerFilter::Recent,
            ContainerFilter::Recent => ContainerFilter::Running,
            ContainerFilter::All => ContainerFilter::Recent,
        }
    }

    /// The filter after toggling between the running and the full listing;
    /// from the recent listing it moves to the full one.
    pub fn toggled_all(self) -> (r: Self)
        ensures
            r == match self {
                ContainerFilter::Running => ContainerFilter::All,
                ContainerFilter::Recent => ContainerFilter::All,
                ContainerFilter::All => ContainerFilter::Running,
            },
    {
        match self {
            ContainerFilter::Running => ContainerFilter::All,
            ContainerFilter::Recent => ContainerFilter::All,
            ContainerFilter::All => ContainerFilter::Running,
        }
    }
}

/// What a key binding asks the application to do.
pub enum AppEvent {
    SelectNext,
    SelectPrevious,
    Refresh,
    CopyIp,
    OpenBrowser,
    StopContainer,
    RestartContainer,
    Quit,
    EnterFilterMode,
    ExitFilterMode,
    ClearFilter,
    EnterNormalMode,
    EnterVisualMode,
    EnterCommandMode,
    EnterSearchMode,
    GoToFirst,
    GoToLast,
    WordNext,
    WordPrevious,
    HalfPageUp,
    HalfPageDown,
    NextSearchResult,
    PreviousSearchResult,
    ExtendSelection,
    StopSelectedContainers,
    RestartSelectedContainers,
    ToggleTabular,
    ExecuteCommand,
    CancelCommand,
}


/// One row of the runtime's listing as the dashboard reads it: the four
/// `|`-separated fields name, image, status and ports.  A line with fewer
/// fields carries no container; the address field is filled in later by a
/// separate query.
pub fn parse_container_line(line: &str) -> (r: Option<Container>)
    ensures
        match r {
            Some(c) => {
                let fields = split_sep(line@, '|');
                &&& fields.len() >= 4
                &&& c.name@ == fields[0]
                &&& c.image@ == fields[1]
                &&& c.status@ == fields[2]
                &&& c.ports@ == fields[3]
                &&& c.ip_address@.len() == 0
            },
            None => split_sep(line@, '|').len() < 4,
        },
{
    let mut fields = crate::text::split_on_char(line, '|');
    if fields.len() < 4 {
        return None;
    }
    let ports = fields.remove(3);
    let status = fields.remove(2);
    let image = fields.remove(1);
    let name = fields.remove(0);
    Some(
        Container {
            name,
            image,
            status,
            ip_address: String::new(),
            ports,
        },
    )
}

/// Whether a container matches the list filter: the filter text occurs,
/// case-insensitively, in its name, image or status.
pub open spec fn filter_matches(filter_lower: Seq<char>, c: Container) -> bool {
    seq_contains(lower_of(c.name@), filter_lower) || seq_contains(lower_of(c.image@), filter_lower)
        || seq_contains(lower_of(c.status@), filter_lower)
}

/// The positions from `i` on of the containers the filter keeps.
pub open spec fn filtered_positions(
    filter_lower: Seq<char>,
    containers: Seq<Container>,
    i: int,
) -> Seq<usize>
    decreases containers.len() - i,
{
    if i < 0 || i >= containers.len() {
        Seq::empty()
    } else if filter_matches(filter_lower, containers[i]) {
        seq![i as usize] + filtered_positions(filter_lower, containers, i + 1)
    } else {
        filtered_positions(filter_lower, containers, i + 1)
    }
}

/// The positions of the containers whose name, image or status holds the
/// filter text, compared without regard to case, in list order.
pub fn filter_containers(filter_text: &str, containers: &Vec<Container>) -> (r: Vec<usize>)
    ensures
        r@ == filtered_positions(lower_of(filter_text@), containers@, 0),
{
    let filter_lower = crate::text::to_lowercase(filter_text);
    let ghost fl = lower_of(filter_text@);
    let n = containers.len();
    let mut out: Vec<usize> = Vec::new();
    proof {
        assert(out@ =~= Seq::<usize>::empty());
    }
    let mut i: usize = 0;
    while i < n
        invariant
            i <= n,
            n == containers@.len(),
            filter_lower@ == fl,
            out@ + filtered_positions(fl, containers@, i as int) =~= filtered_positions(
                fl,
                containers@,
                0,
            ),
        decreases n - i,
    {
        let c = &containers[i];
        let name_lower = crate::text::to_lowercase(c.name.as_str());
        let image_lower = crate::text::to_lowercase(c.image.as_str());
        let status_lower = crate::text::to_lowercase(c.status.as_str());
        if crate::text::str_contains(name_lower.as_str(), filter_lower.as_str())
            || crate::text::str_contains(image_lower.as_str(), filter_lower.as_str())
            || crate::text::str_contains(status_lower.as_str(), filter_lower.as_str()) {
            let ghost pre = out@;
            out.push(i);
            proof {
                assert(pre.push(i as usize) + filtered_positions(fl, containers@, i as int + 1)
                    =~= pre + filtered_positions(fl, containers@, i as int));
            }
        }
        i += 1;
    }
    proof {
        assert(out@ + Seq::<usize>::empty() =~= out@);
    }
    out
}

/// Whether a container matches a search: by the regular expression when
/// the query compiles as one, otherwise by case-insensitive containment;
/// both ways over the name, the image and the status.
pub open spec fn search_matches(query: Seq<char>, c: Container) -> bool {
    if regex_valid(query) {
        regex_match(query, c.name@) || regex_match(query, c.image@) || regex_match(
            query,
            c.status@,
        )
    } else {
        seq_contains(lower_of(c.name@), lower_of(query)) || seq_contains(
            lower_of(c.image@),
            lower_of(query),
        ) || seq_contains(lower_of(c.status@), lower_of(query))
    }
}

/// The positions from `i` on of the containers a search finds.
pub open spec fn search_positions(query: Seq<char>, containers: Seq<Container>, i: int) -> Seq<
    usize,
>
    decreases containers.len() - i,
{
    if i < 0 || i >= containers.len() {
        Seq::empty()
    } else if search_matches(query, containers[i]) {
        seq![i as usize] + search_positions(query, containers, i + 1)
    } else {
        search_positions(query, containers, i + 1)
    }
}

/// The positions of the containers a search query finds, in list order;
/// see [`search_matches`] for how the query is read.
pub fn search_containers(query: &str, containers: &Vec<Container>) -> (r: Vec<usize>)
    ensures
        r@ == search_positions(query@, containers@, 0),
{
    let n = containers.len();
    let mut out: Vec<usize> = Vec::new();
    proof {
        assert(out@ =~= Seq::<usize>::empty());
    }
    let uses_regex = crate::text::regex_compiles(query);
    let query_lower = crate::text::to_lowercase(query);
    let mut i: usize = 0;
    while i < n
        invariant
            i <= n,
            n == containers@.len(),
            uses_regex == regex_valid(query@),
            query_lower@ == lower_of(query@),
            out@ + search_positions(query@, containers@, i as int) =~= search_positions(
                query@,
                containers@,
                0,
            ),
        decreases n - i,
    {
        let c = &containers[i];
        let hit = if uses_regex {
            crate::text::regex_is_match(query, c.name.as_str()) || crate::text::regex_is_match(
                query,
                c.image.as_str(),
            ) || crate::text::regex_is_match(query, c.status.as_str())
        } else {
            let name_lower = crate::text::to_lowercase(c.name.as_str());
            let image_lower = crate::text::to_lowercase(c.image.as_str());
            let status_lower = crate::text::to_lowercase(c.status.as_str());
            crate::text::str_contains(name_lower.as_str(), query_lower.as_str())
                || crate::text::str_contains(image_lower.as_str(), query_lower.as_str())
                || crate::text::str_contains(status_lower.as_str(), query_lower.as_str())
        };
        if hit {
            let ghost pre = out@;
            out.push(i);
            proof {
                assert(pre.push(i as usize) + search_positions(query@, containers@, i as int + 1)
                    =~= pre + search_positions(query@, containers@, i as int));
            }
        }
        i += 1;
    }
    proof {
        assert(out@ + Seq::<usize>::empty() =~= out@);
    }
    out
}

} // verus!
