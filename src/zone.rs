//! Zone discovery: the provider matches zone names exactly, so a domain is
//! looked up as given and then with its leftmost label stripped, one label at
//! a time, until a zone answers.
use vstd::prelude::*;

verus! {

/// What follows the first '.' of `d`, or `None` where `d` has no '.'.
pub open spec fn after_first_dot(d: Seq<char>) -> Option<Seq<char>>
    decreases d.len(),
{
    if d.len() == 0 {
        None
    } else if d[0] == '.' {
        Some(d.drop_first())
    } else {
        after_first_dot(d.drop_first())
    }
}

/// The domain reached from `d` by stripping `k` leftmost labels, if it has that many.
pub open spec fn ancestor(d: Seq<char>, k: nat) -> Option<Seq<char>>
    decreases k,
{
    if k == 0 {
        Some(d)
    } else {
        match after_first_dot(d) {
            Some(p) => ancestor(p, (k - 1) as nat),
            None => None,
        }
    }
}

/// What one zone query for a domain leads to.
#[derive(Debug, Clone, PartialEq, Eq)]
pub enum ZoneStep {
    /// Exactly one zone matched: its id.
    Found(String),
    /// No zone matched: query again with this shorter domain.
    Query(String),
    /// No zone matched and no label is left to strip.
    NoZoneFound,
    /// More than one zone matched.
    AmbiguousZone,
}

/// The mathematical form of [`ZoneStep`].
pub enum ZoneStepView {
    Found(Seq<char>),
    Query(Seq<char>),
    NoZoneFound,
    AmbiguousZone,
}

impl View for ZoneStep {
    type V = ZoneStepView;

    open spec fn view(&self) -> ZoneStepView {
        match self {
            ZoneStep::Found(id) => ZoneStepView::Found(id@),
            ZoneStep::Query(d) => ZoneStepView::Query(d@),
            ZoneStep::NoZoneFound => ZoneStepView::NoZoneFound,
            ZoneStep::AmbiguousZone => ZoneStepView::AmbiguousZone,
        }
    }
}

/// The outcome of resolving a domain to a zone.
pub enum ZoneResolution {
    Found(Seq<char>),
    NoZoneFound,
    AmbiguousZone,
}

/// The views of a list of strings.
pub open spec fn views(v: Seq<String>) -> Seq<Seq<char>> {
    v.map_values(|s: String| s@)
}

/// The step taken after the zones with name `domain` came back as `ids`.
pub open spec fn zone_step_of(domain: Seq<char>, ids: Seq<Seq<char>>) -> ZoneStepView {
    if ids.len() == 1 {
        ZoneStepView::Found(ids[0])
    } else if ids.len() > 1 {
        ZoneStepView::AmbiguousZone
    } else {
        match after_first_dot(domain) {
            Some(p) => ZoneStepView::Query(p),
            None => ZoneStepView::NoZoneFound,
        }
    }
}

proof fn lemma_after_first_dot_shorter(d: Seq<char>)
    ensures
        after_first_dot(d) matches Some(p) ==> p.len() < d.len(),
    decreases d.len(),
{
    if d.len() > 0 && d[0] != '.' {
        lemma_after_first_dot_shorter(d.drop_first());
    }
}

#[via_fn]
proof fn resolve_zone_decreases(domain: Seq<char>, lookup: spec_fn(Seq<char>) -> Seq<Seq<char>>) {
    lemma_after_first_dot_shorter(domain);
}

/// Resolution of `domain` against a provider whose exact-name zone search
/// answers `lookup(name)` with the ids of the matching zones.
pub open spec fn resolve_zone(
    domain: Seq<char>,
    lookup: spec_fn(Seq<char>) -> Seq<Seq<char>>,
) -> ZoneResolution
    decreases domain.len(),
    via resolve_zone_decreases
{
    match zone_step_of(domain, lookup(domain)) {
        ZoneStepView::Found(id) => ZoneResolution::Found(id),
        ZoneStepView::Query(p) => resolve_zone(p, lookup),
        ZoneStepView::NoZoneFound => ZoneResolution::NoZoneFound,
        ZoneStepView::AmbiguousZone => ZoneResolution::AmbiguousZone,
    }
}

proof fn lemma_no_dot(d: Seq<char>)
    requires
        forall|i: int| 0 <= i < d.len() ==> d[i] != '.',
    ensures
        after_first_dot(d) is None,
    decreases d.len(),
{
    if d.len() > 0 {
        lemma_no_dot(d.drop_first());
    }
}

/// A domain without any '.' for which the provider has no zone of that exact
/// name resolves to no zone.
pub proof fn lemma_dotless_unmatched_has_no_zone(
    domain: Seq<char>,
    lookup: spec_fn(Seq<char>) -> Seq<Seq<char>>,
)
    requires
        forall|i: int| 0 <= i < domain.len() ==> domain[i] != '.',
        lookup(domain).len() == 0,
    ensures
        resolve_zone(domain, lookup) == ZoneResolution::NoZoneFound,
{
    lemma_no_dot(domain);
}

/// Where the provider has exactly one zone named like the ancestor `k` labels
/// up, and none named like any nearer ancestor (the domain itself included),
/// the domain resolves to that zone, whatever `k` is.
pub proof fn lemma_resolves_at_matching_ancestor(
    domain: Seq<char>,
    lookup: spec_fn(Seq<char>) -> Seq<Seq<char>>,
    k: nat,
    zone_id: Seq<char>,
)
    requires
        ancestor(domain, k) is Some,
        lookup(ancestor(domain, k)->Some_0) == seq![zone_id],
        forall|j: nat| j < k ==> (#[trigger] ancestor(domain, j) matches Some(a) && lookup(a).len() == 0),
    ensures
        resolve_zone(domain, lookup) == ZoneResolution::Found(zone_id),
    decreases k,
{
    if k == 0 {
        assert(lookup(domain).len() == 1);
    } else {
        assert(ancestor(domain, 0) == Some(domain));
        assert(lookup(domain).len() == 0);
        let p = after_first_dot(domain)->Some_0;
        assert forall|j: nat| j < (k - 1) as nat implies (#[trigger] ancestor(p, j) matches Some(a)
            && lookup(a).len() == 0) by {
            assert(ancestor(domain, j + 1) == ancestor(p, j));
        }
        lemma_resolves_at_matching_ancestor(p, lookup, (k - 1) as nat, zone_id);
    }
}

/// The domain that follows the first '.' of `domain`, or `None` where it has no '.'.
pub fn parent_domain(domain: &str) -> (r: Option<String>)
    ensures
        r is None <==> after_first_dot(domain@) is None,
        r matches Some(p) ==> after_first_dot(domain@) == Some(p@),
{
    let n = domain.unicode_len();
    let ghost d = domain@;
    let mut i: usize = 0;
    assert(d.subrange(0, n as int) =~= d);
    while i < n
        invariant
            n == d.len(),
            d == domain@,
            i <= n,
            after_first_dot(d) == after_first_dot(d.subrange(i as int, n as int)),
        decreases n - i,
    {
        let ghost rest = d.subrange(i as int, n as int);
        assert(rest.drop_first() =~= d.subrange(i + 1, n as int));
        if domain.get_char(i) == '.' {
            let p = domain.substring_char(i + 1, n);
            return Some(String::from_str(p));
        }
        i = i + 1;
    }
    None
}

/// The step to take after the zone search for `domain` answered `zone_ids`.
pub fn next_zone_step(domain: &str, zone_ids: Vec<String>) -> (r: ZoneStep)
    ensures
        r@ == zone_step_of(domain@, views(zone_ids@)),
{
    let mut zone_ids = zone_ids;
    if zone_ids.len() == 1 {
        let id = zone_ids.pop().unwrap();
        ZoneStep::Found(id)
    } else if zone_ids.len() > 1 {
        ZoneStep::AmbiguousZone
    } else {
        match parent_domain(domain) {
            Some(p) => ZoneStep::Query(p),
            None => ZoneStep::NoZoneFound,
        }
    }
}

/// A step leads where resolution leads: resolving `domain` is finding its
/// zone in one step, failing in one step, or resolving the shorter domain
/// that the step queries next.
pub proof fn lemma_step_continues_resolution(
    domain: Seq<char>,
    lookup: spec_fn(Seq<char>) -> Seq<Seq<char>>,
)
    ensures
        resolve_zone(domain, lookup) == match zone_step_of(domain, lookup(domain)) {
            ZoneStepView::Found(id) => ZoneResolution::Found(id),
            ZoneStepView::Query(p) => resolve_zone(p, lookup),
            ZoneStepView::NoZoneFound => ZoneResolution::NoZoneFound,
            ZoneStepView::AmbiguousZone => ZoneResolution::AmbiguousZone,
        },
{
}

} // verus!
