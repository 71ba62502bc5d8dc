use crate::config::{enabled, RegistrySettings};
use crate::registry::{domain_name, domain_of, kind_rank, AvailabilityResult, OutcomeView, RegistryType};
use vstd::prelude::*;
use vstd::string::*;

verus! {

/// Number of kinds a search can fan out to: every kind.
pub const PROBED_KIND_COUNT: usize = 8;

/// The kinds, in declaration order.
pub open spec fn probed_kind(i: int) -> RegistryType {
    if i == 0 {
        RegistryType::Npm
    } else if i == 1 {
        RegistryType::Crates
    } else if i == 2 {
        RegistryType::PyPi
    } else if i == 3 {
        RegistryType::Brew
    } else if i == 4 {
        RegistryType::Flatpak
    } else if i == 5 {
        RegistryType::Debian
    } else if i == 6 {
        RegistryType::DevDomain
    } else {
        RegistryType::GitHub
    }
}

fn probed_kind_at(i: usize) -> (r: RegistryType)
    requires
        i < PROBED_KIND_COUNT,
    ensures
        r == probed_kind(i as int),
        kind_rank(r) == i,
{
    if i == 0 {
        RegistryType::Npm
    } else if i == 1 {
        RegistryType::Crates
    } else if i == 2 {
        RegistryType::PyPi
    } else if i == 3 {
        RegistryType::Brew
    } else if i == 4 {
        RegistryType::Flatpak
    } else if i == 5 {
        RegistryType::Debian
    } else if i == 6 {
        RegistryType::DevDomain
    } else {
        RegistryType::GitHub
    }
}

/// The enabled kinds among the first `n` probed kinds, in order.
pub open spec fn plan_upto(s: RegistrySettings, n: nat) -> Seq<RegistryType>
    decreases n,
{
    if n == 0 {
        Seq::empty()
    } else {
        let p = plan_upto(s, (n - 1) as nat);
        let k = probed_kind(n - 1);
        if enabled(s, k) {
            p.push(k)
        } else {
            p
        }
    }
}

/// The kinds a search under `s` probes, in declaration order.
pub open spec fn plan(s: RegistrySettings) -> Seq<RegistryType> {
    plan_upto(s, PROBED_KIND_COUNT as nat)
}

pub open spec fn bit(b: bool) -> int {
    if b {
        1
    } else {
        0
    }
}

/// How many kinds `s` switches on.
pub open spec fn enabled_probe_count(s: RegistrySettings) -> int {
    bit(s.npm) + bit(s.crates) + bit(s.pypi) + bit(s.brew) + bit(s.flatpak) + bit(s.debian) + bit(s.dev_domain)
        + bit(s.github)
}

pub open spec fn count_upto(s: RegistrySettings, n: nat) -> int
    decreases n,
{
    if n == 0 {
        0
    } else {
        count_upto(s, (n - 1) as nat) + bit(enabled(s, probed_kind(n - 1)))
    }
}

proof fn lemma_plan_upto(s: RegistrySettings, n: nat)
    requires
        n <= PROBED_KIND_COUNT,
    ensures
        plan_upto(s, n).len() == count_upto(s, n),
        forall|i: int, j: int|
            0 <= i < j < plan_upto(s, n).len() ==> kind_rank(plan_upto(s, n)[i]) < kind_rank(
                plan_upto(s, n)[j],
            ),
        forall|i: int|
            0 <= i < plan_upto(s, n).len() ==> kind_rank(#[trigger] plan_upto(s, n)[i]) < n && enabled(
                s,
                plan_upto(s, n)[i],
            ),
        forall|m: int|
            0 <= m < n && enabled(s, #[trigger] probed_kind(m)) ==> plan_upto(s, n).contains(
                probed_kind(m),
            ),
    decreases n,
{
    if n > 0 {
        lemma_plan_upto(s, (n - 1) as nat);
        let p = plan_upto(s, (n - 1) as nat);
        let k = probed_kind(n - 1);
        assert(kind_rank(k) == n - 1);
        if enabled(s, k) {
            assert(p.push(k)[p.len() as int] == k);
            assert forall|m: int| 0 <= m < n && enabled(s, #[trigger] probed_kind(m)) implies p.push(
                k,
            ).contains(probed_kind(m)) by {
                if m < n - 1 {
                    let w = choose|w: int| 0 <= w < p.len() && p[w] == probed_kind(m);
                    assert(p.push(k)[w] == probed_kind(m));
                } else {
                    assert(p.push(k)[p.len() as int] == probed_kind(m));
                }
            }
        }
    }
}

/// The fan-out of a search: exactly the enabled kinds, one each, in
/// declaration order, as many as are switched on.
pub proof fn lemma_plan(s: RegistrySettings)
    ensures
        plan(s).len() == enabled_probe_count(s),
        forall|i: int, j: int| 0 <= i < j < plan(s).len() ==> kind_rank(plan(s)[i]) < kind_rank(plan(s)[j]),
        forall|k: RegistryType| plan(s).contains(k) <==> enabled(s, k),
{
    lemma_plan_upto(s, PROBED_KIND_COUNT as nat);
    reveal_with_fuel(count_upto, 9);
    assert forall|k: RegistryType| plan(s).contains(k) <==> enabled(s, k) by {
        if plan(s).contains(k) {
            let w = choose|w: int| 0 <= w < plan(s).len() && plan(s)[w] == k;
            assert(enabled(s, plan(s)[w]));
        }
        if enabled(s, k) {
            assert(probed_kind(kind_rank(k)) == k);
        }
    }
}

/// The kinds a search under `settings` probes, in declaration order.
pub fn planned_probes(settings: &RegistrySettings) -> (r: Vec<RegistryType>)
    ensures
        r@ == plan(*settings),
{
    let mut v: Vec<RegistryType> = Vec::new();
    let mut i: usize = 0;
    while i < PROBED_KIND_COUNT
        invariant
            i <= PROBED_KIND_COUNT,
            v@ == plan_upto(*settings, i as nat),
        decreases PROBED_KIND_COUNT - i,
    {
        let k = probed_kind_at(i);
        if settings.is_enabled(k) {
            v.push(k);
        }
        i = i + 1;
    }
    v
}

/// `j` is the first position of `reported` that holds an outcome of `kind`.
pub open spec fn first_report_at(reported: Seq<AvailabilityResult>, kind: RegistryType, j: int) -> bool {
    &&& 0 <= j < reported.len()
    &&& reported[j].registry == kind
    &&& forall|m: int| 0 <= m < j ==> #[trigger] reported[m].registry != kind
}

/// The name an outcome of `kind` for the query `name` is filed under: the
/// looked-up domain for the domain kind, the query itself for the others.
pub open spec fn probed_name(kind: RegistryType, name: Seq<char>) -> Seq<char> {
    if kind == RegistryType::DevDomain {
        domain_of(name, "dev"@)
    } else {
        name
    }
}

/// The outcome that stands for a probe that never reported.
pub open spec fn missing_outcome(kind: RegistryType, name: Seq<char>) -> OutcomeView {
    OutcomeView { registry: kind, name: probed_name(kind, name), available: None, error: Some("probe did not report"@) }
}

/// The outcome that a batch holds for `kind`: the first one reported for it,
/// or an undetermined one when none was.
pub open spec fn settled(kind: RegistryType, name: Seq<char>, reported: Seq<AvailabilityResult>) -> OutcomeView {
    if exists|j: int| first_report_at(reported, kind, j) {
        reported[choose|j: int| first_report_at(reported, kind, j)]@
    } else {
        missing_outcome(kind, name)
    }
}

fn settle(kind: RegistryType, name: &str, reported: &Vec<AvailabilityResult>) -> (r: AvailabilityResult)
    ensures
        r@ == settled(kind, name@, reported@),
{
    let mut j: usize = 0;
    while j < reported.len()
        invariant
            j <= reported@.len(),
            forall|m: int| 0 <= m < j ==> #[trigger] reported@[m].registry != kind,
        decreases reported@.len() - j,
    {
        if reported[j].registry == kind {
            assert(first_report_at(reported@, kind, j as int));
            let ghost c = choose|c: int| first_report_at(reported@, kind, c);
            assert(c == j) by {
                if c < j {
                    assert(reported@[c].registry != kind);
                } else if c > j {
                    assert(reported@[j as int].registry != kind);
                }
            }
            return reported[j].duplicate();
        }
        j = j + 1;
    }
    proof {
        reveal_strlit("probe did not report");
    }
    let filed = if kind == RegistryType::DevDomain {
        domain_name(name, "dev")
    } else {
        String::from_str(name)
    };
    AvailabilityResult {
        registry: kind,
        name: filed,
        available: None,
        error: Some(String::from_str("probe did not report")),
    }
}

/// Assembles the outcomes of one search. `reported` holds what the probes of
/// `planned_probes(settings)` returned, in any order (the order in which they
/// completed). The batch holds one outcome per planned kind, in declaration
/// order; a kind that reported nothing is undetermined rather than dropped.
pub fn check_all(name: &str, settings: &RegistrySettings, reported: &Vec<AvailabilityResult>) -> (r: Vec<AvailabilityResult>)
    ensures
        r@.len() == plan(*settings).len(),
        forall|i: int| 0 <= i < r@.len() ==> #[trigger] r@[i]@ == settled(plan(*settings)[i], name@, reported@),
{
    let kinds = planned_probes(settings);
    let mut out: Vec<AvailabilityResult> = Vec::new();
    let mut i: usize = 0;
    while i < kinds.len()
        invariant
            kinds@ == plan(*settings),
            i <= kinds@.len(),
            out@.len() == i,
            forall|m: int| 0 <= m < i ==> #[trigger] out@[m]@ == settled(kinds@[m], name@, reported@),
        decreases kinds@.len() - i,
    {
        let o = settle(kinds[i], name, reported);
        out.push(o);
        i = i + 1;
    }
    out
}

/// Every outcome of a batch is of its own planned kind.
pub proof fn lemma_settled_kind(kind: RegistryType, name: Seq<char>, reported: Seq<AvailabilityResult>)
    ensures
        settled(kind, name, reported).registry == kind,
{
    if exists|j: int| first_report_at(reported, kind, j) {
        let j = choose|j: int| first_report_at(reported, kind, j);
        assert(reported[j].registry == kind);
    }
}

/// Completion order does not matter: a kind reported once is settled with
/// its own outcome, wherever that outcome stands among the reports.
pub proof fn lemma_settled_own_report(kind: RegistryType, name: Seq<char>, reported: Seq<AvailabilityResult>, j: int)
    requires
        0 <= j < reported.len(),
        reported[j].registry == kind,
        forall|m: int| 0 <= m < reported.len() && m != j ==> #[trigger] reported[m].registry != kind,
    ensures
        settled(kind, name, reported) == reported[j]@,
{
    assert(first_report_at(reported, kind, j));
    let c = choose|c: int| first_report_at(reported, kind, c);
    assert(c == j) by {
        if c != j {
            assert(reported[c].registry != kind);
        }
    }
}

/// A search under `s` yields exactly as many outcomes as `s` enables probed
/// kinds, each of an enabled kind, in declaration order, whatever was
/// reported and in whatever order the probes completed.
pub proof fn lemma_batch_shape(s: RegistrySettings, name: Seq<char>, reported: Seq<AvailabilityResult>)
    ensures
        plan(s).len() == enabled_probe_count(s),
        forall|i: int|
            0 <= i < plan(s).len() ==> #[trigger] settled(plan(s)[i], name, reported).registry == plan(s)[i]
                && enabled(s, plan(s)[i]),
        forall|i: int, j: int|
            0 <= i < j < plan(s).len() ==> kind_rank(settled(plan(s)[i], name, reported).registry)
                < kind_rank(settled(plan(s)[j], name, reported).registry),
{
    lemma_plan(s);
    assert forall|i: int| 0 <= i < plan(s).len() implies #[trigger] settled(plan(s)[i], name, reported).registry
        == plan(s)[i] && enabled(s, plan(s)[i]) by {
        lemma_settled_kind(plan(s)[i], name, reported);
        assert(plan(s).contains(plan(s)[i]));
    }
    assert forall|i: int, j: int| 0 <= i < j < plan(s).len() implies kind_rank(
        settled(plan(s)[i], name, reported).registry,
    ) < kind_rank(settled(plan(s)[j], name, reported).registry) by {
        lemma_settled_kind(plan(s)[i], name, reported);
        lemma_settled_kind(plan(s)[j], name, reported);
    }
}

/// An outcome that could not tell, and says why.
pub open spec fn undetermined_with_reason(o: OutcomeView) -> bool {
    &&& o.available is None
    &&& o.error is Some
    &&& o.error->0.len() > 0
}

/// A probe whose request failed keeps its place in the batch: its kind is
/// there, undetermined, with a non-empty reason.
pub proof fn lemma_failed_probe_kept(
    s: RegistrySettings,
    name: Seq<char>,
    reported: Seq<AvailabilityResult>,
    kind: RegistryType,
)
    requires
        enabled(s, kind),
        exists|j: int| first_report_at(reported, kind, j) && undetermined_with_reason(#[trigger] reported[j]@),
    ensures
        exists|i: int|
            0 <= i < plan(s).len() && plan(s)[i] == kind && undetermined_with_reason(
                #[trigger] settled(plan(s)[i], name, reported),
            ),
{
    lemma_plan(s);
    assert(plan(s).contains(kind));
    let i = choose|i: int| 0 <= i < plan(s).len() && plan(s)[i] == kind;
    let w = choose|j: int| first_report_at(reported, kind, j) && undetermined_with_reason(#[trigger] reported[j]@);
    let c = choose|j: int| first_report_at(reported, kind, j);
    assert(c == w) by {
        if c < w {
            assert(reported[c].registry != kind);
        } else if c > w {
            assert(reported[w].registry != kind);
        }
    }
    assert(undetermined_with_reason(settled(plan(s)[i], name, reported)));
}

/// Every kind of `reported` is reported once, and every kind `s` enables
/// is among them.
pub open spec fn reports_each_once(s: RegistrySettings, reported: Seq<AvailabilityResult>) -> bool {
    &&& forall|i: int, j: int|
        0 <= i < reported.len() && 0 <= j < reported.len() && i != j ==> #[trigger] reported[i].registry
            != #[trigger] reported[j].registry
    &&& forall|k: RegistryType| enabled(s, k) ==> exists|j: int| 0 <= j < reported.len() && #[trigger] reported[j].registry == k
}

/// One probe times out while every other enabled probe answers: the batch
/// holds every enabled kind, each with its own outcome, and exactly one entry
/// carries an error, the undetermined one of the probe that timed out.
pub proof fn lemma_one_failure_one_error(
    s: RegistrySettings,
    name: Seq<char>,
    reported: Seq<AvailabilityResult>,
    failed: RegistryType,
)
    requires
        enabled(s, failed),
        reports_each_once(s, reported),
        forall|j: int|
            0 <= j < reported.len() && reported[j].registry == failed ==> undetermined_with_reason(#[trigger] reported[j]@),
        forall|j: int|
            0 <= j < reported.len() && reported[j].registry != failed ==> (#[trigger] reported[j]).error is None,
    ensures
        exists|i: int| 0 <= i < plan(s).len() && plan(s)[i] == failed,
        forall|i: int|
            0 <= i < plan(s).len() ==> ((#[trigger] settled(plan(s)[i], name, reported)).error is Some <==> plan(s)[i]
                == failed),
        forall|i: int|
            0 <= i < plan(s).len() && plan(s)[i] == failed ==> undetermined_with_reason(
                #[trigger] settled(plan(s)[i], name, reported),
            ),
        forall|i: int, j: int|
            0 <= i < plan(s).len() && 0 <= j < reported.len() && reported[j].registry == plan(s)[i] ==> #[trigger] settled(
                plan(s)[i],
                name,
                reported,
            ) == #[trigger] reported[j]@,
{
    lemma_plan(s);
    assert(plan(s).contains(failed));
    assert forall|i: int, j: int|
        0 <= i < plan(s).len() && 0 <= j < reported.len() && reported[j].registry == plan(s)[i] implies #[trigger] settled(
        plan(s)[i],
        name,
        reported,
    ) == #[trigger] reported[j]@ by {
        assert forall|m: int| 0 <= m < reported.len() && m != j implies #[trigger] reported[m].registry
            != plan(s)[i] by {
            assert(reported[m].registry != reported[j].registry);
        }
        lemma_settled_own_report(plan(s)[i], name, reported, j);
    }
    assert forall|i: int| 0 <= i < plan(s).len() implies ((#[trigger] settled(plan(s)[i], name, reported)).error
        is Some <==> plan(s)[i] == failed) && (plan(s)[i] == failed ==> undetermined_with_reason(
        settled(plan(s)[i], name, reported),
    )) by {
        let k = plan(s)[i];
        assert(plan(s).contains(k));
        assert(enabled(s, k));
        let j = choose|j: int| 0 <= j < reported.len() && #[trigger] reported[j].registry == k;
        assert(settled(k, name, reported) == reported[j]@);
    }
}

} // verus!
