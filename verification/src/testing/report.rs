//! Report formatting for test scenario coverage.

use vstd::prelude::*;

use crate::testing::scenarios::{spec_scenario_names, ScenarioMatch, TestScenario};
use crate::text::{concat_str, seq_views, str_eq, u64_to_string};

verus! {

/// Test scenario coverage report.
///
/// Matches are grouped by scenario display name, first-seen order; the
/// uncovered list names the scenarios with no matches.
pub struct ScenarioReport {
    /// Total groups analyzed
    pub total_groups: usize,

    /// Matches grouped by scenario display name
    pub coverage: Vec<(String, Vec<ScenarioMatch>)>,

    /// Scenarios with no matches
    pub uncovered: Vec<String>,

    /// Unexpected patterns discovered
    pub unexpected: Vec<String>,
}

/// Whether a coverage table is well-formed: keys are distinct, every bucket
/// is nonempty, and every match sits under its own scenario's name.
pub open spec fn coverage_wf(coverage: Seq<(String, Vec<ScenarioMatch>)>) -> bool {
    &&& forall|i: int, j: int|
        0 <= i < j < coverage.len() ==> (#[trigger] coverage[i]).0@ != (
        #[trigger] coverage[j]).0@
    &&& forall|i: int| 0 <= i < coverage.len() ==> (#[trigger] coverage[i]).1@.len() > 0
    &&& forall|i: int, t: int|
        0 <= i < coverage.len() && 0 <= t < coverage[i].1@.len() ==> (#[trigger] coverage[i].1@[t]).scenario.spec_name()@
            == coverage[i].0@
}

/// The display name a match files under.
pub open spec fn name_of(m: ScenarioMatch) -> Seq<char> {
    m.scenario.spec_name()@
}

/// The matches of `ms` whose scenario carries `name`, in input order.
pub open spec fn filter_by_name(ms: Seq<ScenarioMatch>, name: Seq<char>) -> Seq<ScenarioMatch>
    decreases ms.len(),
{
    if ms.len() == 0 {
        Seq::empty()
    } else {
        let rest = filter_by_name(ms.drop_last(), name);
        if name_of(ms.last()) == name {
            rest.push(ms.last())
        } else {
            rest
        }
    }
}

/// The number of matches a coverage table holds.
pub open spec fn coverage_total(s: Seq<(String, Vec<ScenarioMatch>)>) -> nat
    decreases s.len(),
{
    if s.len() == 0 {
        0
    } else {
        coverage_total(s.drop_last()) + s.last().1@.len()
    }
}

/// Whether a coverage table holds a bucket keyed by `name`.
pub open spec fn covers_name(s: Seq<(String, Vec<ScenarioMatch>)>, name: Seq<char>) -> bool {
    exists|i: int| 0 <= i < s.len() && (#[trigger] s[i]).0@ == name
}

/// The names of `names` that no bucket of the coverage table carries, in
/// order.
pub open spec fn uncovered_of(
    names: Seq<Seq<char>>,
    coverage: Seq<(String, Vec<ScenarioMatch>)>,
) -> Seq<Seq<char>>
    decreases names.len(),
{
    if names.len() == 0 {
        Seq::empty()
    } else {
        let rest = uncovered_of(names.drop_last(), coverage);
        if covers_name(coverage, names.last()) {
            rest
        } else {
            rest.push(names.last())
        }
    }
}

/// A name matched by no element stays out of the filter entirely.
proof fn lemma_filter_by_name_absent(ms: Seq<ScenarioMatch>, name: Seq<char>)
    requires
        forall|k: int| 0 <= k < ms.len() ==> name_of(#[trigger] ms[k]) != name,
    ensures
        filter_by_name(ms, name) == Seq::<ScenarioMatch>::empty(),
    decreases ms.len(),
{
    if ms.len() > 0 {
        assert(forall|k: int|
            0 <= k < ms.len() - 1 ==> #[trigger] ms.drop_last()[k] == ms[k]);
        lemma_filter_by_name_absent(ms.drop_last(), name);
    }
}

/// Replacing one bucket changes the total by the difference in its size.
proof fn lemma_coverage_total_update(
    s: Seq<(String, Vec<ScenarioMatch>)>,
    i: int,
    e: (String, Vec<ScenarioMatch>),
)
    requires
        0 <= i < s.len(),
    ensures
        coverage_total(s.update(i, e)) + s[i].1@.len() == coverage_total(s) + e.1@.len(),
    decreases s.len(),
{
    if s.len() > 0 {
        if i == s.len() - 1 {
            assert(s.update(i, e).drop_last() =~= s.drop_last());
            assert(s.update(i, e).last() == e);
        } else {
            assert(s.update(i, e).drop_last() =~= s.drop_last().update(i, e));
            assert(s.update(i, e).last() == s.last());
            lemma_coverage_total_update(s.drop_last(), i, e);
        }
    }
}

/// Finds the bucket keyed by `name`.
fn find_key(coverage: &Vec<(String, Vec<ScenarioMatch>)>, name: &str) -> (r: Option<usize>)
    ensures
        r is Some ==> r.unwrap() < coverage@.len() && coverage@[r.unwrap() as int].0@ == name@,
        r is None ==> forall|i: int| 0 <= i < coverage@.len() ==> (#[trigger] coverage@[i]).0@
            != name@,
{
    let n = coverage.len();
    let mut i: usize = 0;
    while i < n
        invariant
            n == coverage@.len(),
            i <= n,
            forall|k: int| 0 <= k < i ==> (#[trigger] coverage@[k]).0@ != name@,
        decreases n - i,
    {
        if str_eq(coverage[i].0.as_str(), name) {
            return Option::Some(i);
        }
        i = i + 1;
    }
    Option::None
}

impl ScenarioReport {
    /// Create a report from scenario matches: group them by scenario name
    /// in first-seen key order, keeping every match in its own scenario's
    /// bucket in input order, and list every tracked scenario with no match
    /// as uncovered.
    #[verifier::rlimit(60)]
    pub fn from_matches(matches: Vec<ScenarioMatch>, total_groups: usize) -> (r: Self)
        ensures
            r.total_groups == total_groups,
            coverage_wf(r.coverage@),
            forall|i: int|
                0 <= i < r.coverage@.len() ==> (#[trigger] r.coverage@[i]).1@ == filter_by_name(
                    matches@,
                    r.coverage@[i].0@,
                ),
            forall|k: int|
                0 <= k < matches@.len() ==> covers_name(
                    r.coverage@,
                    name_of(#[trigger] matches@[k]),
                ),
            coverage_total(r.coverage@) == matches@.len(),
            seq_views(r.uncovered@) == uncovered_of(spec_scenario_names(), r.coverage@),
            forall|u: int, i: int|
                0 <= u < r.uncovered@.len() && 0 <= i < r.coverage@.len() ==> (
                #[trigger] r.coverage@[i]).0@ != (#[trigger] r.uncovered@[u])@,
            r.unexpected@.len() == 0,
    {
        let ghost orig = matches@;
        let mut matches = matches;
        let mut coverage: Vec<(String, Vec<ScenarioMatch>)> = Vec::new();
        let ghost mut consumed: int = 0;

        while matches.len() > 0
            invariant
                0 <= consumed <= orig.len(),
                matches@ == orig.skip(consumed),
                coverage_wf(coverage@),
                forall|i: int|
                    0 <= i < coverage@.len() ==> (#[trigger] coverage@[i]).1@ == filter_by_name(
                        orig.take(consumed),
                        coverage@[i].0@,
                    ),
                forall|k: int|
                    0 <= k < consumed ==> covers_name(coverage@, name_of(#[trigger] orig[k])),
                coverage_total(coverage@) == consumed,
            decreases matches@.len(),
        {
            let m = matches.remove(0);
            let name = m.scenario.name();
            proof {
                assert(m == orig[consumed]);
                assert(orig.skip(consumed).remove(0) =~= orig.skip(consumed + 1));
                assert(orig.take(consumed + 1).drop_last() =~= orig.take(consumed));
                assert(orig.take(consumed + 1).last() == orig[consumed]);
                assert(name@ == name_of(orig[consumed]));
            }
            match find_key(&coverage, name) {
                Option::Some(i) => {
                    let ghost old_coverage = coverage@;
                    let mut entry = coverage.remove(i);
                    entry.1.push(m);
                    coverage.insert(i, entry);
                    proof {
                        assert(coverage@ =~= old_coverage.update(i as int, coverage@[i as int]));
                        assert(coverage@[i as int].0@ == old_coverage[i as int].0@);
                        assert(coverage@[i as int].1@ =~= old_coverage[i as int].1@.push(
                            orig[consumed],
                        ));
                        lemma_coverage_total_update(
                            old_coverage,
                            i as int,
                            coverage@[i as int],
                        );
                        assert forall|a: int, t: int|
                            0 <= a < coverage@.len() && 0 <= t
                                < coverage@[a].1@.len() implies (#[trigger] coverage@[a].1@[t]).scenario.spec_name()@
                            == coverage@[a].0@ by {
                            if a == i {
                                if t < old_coverage[a].1@.len() {
                                    assert(coverage@[a].1@[t] == old_coverage[a].1@[t]);
                                }
                            } else {
                                assert(coverage@[a] == old_coverage[a]);
                            }
                        }
                        assert forall|a: int| 0 <= a < coverage@.len() implies (
                        #[trigger] coverage@[a]).1@ == filter_by_name(
                            orig.take(consumed + 1),
                            coverage@[a].0@,
                        ) by {
                            if a == i {
                                assert(name_of(orig[consumed]) == coverage@[a].0@);
                            } else {
                                assert(coverage@[a] == old_coverage[a]);
                                assert(coverage@[a].0@ != old_coverage[i as int].0@);
                                assert(name_of(orig[consumed]) != coverage@[a].0@);
                            }
                        }
                        assert forall|k: int| 0 <= k < consumed + 1 implies covers_name(
                            coverage@,
                            name_of(#[trigger] orig[k]),
                        ) by {
                            if k < consumed {
                                let i0 = choose|i0: int|
                                    0 <= i0 < old_coverage.len() && (#[trigger] old_coverage[
                                    i0]).0@ == name_of(orig[k]);
                                assert(coverage@[i0].0@ == old_coverage[i0].0@);
                            } else {
                                assert(coverage@[i as int].0@ == name_of(orig[consumed]));
                            }
                        }
                    }
                },
                Option::None => {
                    let mut bucket: Vec<ScenarioMatch> = Vec::new();
                    bucket.push(m);
                    let key = name.to_owned();
                    let ghost old_coverage = coverage@;
                    coverage.push((key, bucket));
                    proof {
                        assert(coverage@.drop_last() =~= old_coverage);
                        assert forall|k: int|
                            0 <= k < consumed implies name_of(#[trigger] orig[k]) != name@ by {
                            let i0 = choose|i0: int|
                                0 <= i0 < old_coverage.len() && (#[trigger] old_coverage[i0]).0@
                                    == name_of(orig[k]);
                        }
                        assert(forall|k: int|
                            0 <= k < orig.take(consumed).len() ==> name_of(
                                #[trigger] orig.take(consumed)[k],
                            ) != name@);
                        lemma_filter_by_name_absent(orig.take(consumed), name@);
                        assert forall|a: int| 0 <= a < coverage@.len() implies (
                        #[trigger] coverage@[a]).1@ == filter_by_name(
                            orig.take(consumed + 1),
                            coverage@[a].0@,
                        ) by {
                            if a < old_coverage.len() {
                                assert(coverage@[a] == old_coverage[a]);
                                assert(covers_name(old_coverage, old_coverage[a].0@));
                                assert(name_of(orig[consumed]) != coverage@[a].0@);
                            } else {
                                assert(coverage@[a].0@ == name@);
                                assert(coverage@[a].1@ =~= filter_by_name(
                                    orig.take(consumed),
                                    name@,
                                ).push(orig[consumed]));
                            }
                        }
                        assert forall|k: int| 0 <= k < consumed + 1 implies covers_name(
                            coverage@,
                            name_of(#[trigger] orig[k]),
                        ) by {
                            if k < consumed {
                                let i0 = choose|i0: int|
                                    0 <= i0 < old_coverage.len() && (#[trigger] old_coverage[
                                    i0]).0@ == name_of(orig[k]);
                                assert(coverage@[i0].0@ == old_coverage[i0].0@);
                            } else {
                                assert(coverage@[coverage@.len() - 1].0@ == name_of(
                                    orig[consumed],
                                ));
                            }
                        }
                        assert forall|i2: int, j2: int|
                            0 <= i2 < j2 < coverage@.len() implies (#[trigger] coverage@[i2]).0@
                            != (#[trigger] coverage@[j2]).0@ by {
                            if j2 < old_coverage.len() {
                                assert(coverage@[i2] == old_coverage[i2]);
                                assert(coverage@[j2] == old_coverage[j2]);
                            } else {
                                assert(coverage@[i2] == old_coverage[i2]);
                            }
                        }
                    }
                },
            }
            proof {
                consumed = consumed + 1;
            }
        }
        proof {
            assert(orig.take(consumed) =~= orig);
        }

        let all_scenarios = TestScenario::all();
        let mut uncovered: Vec<String> = Vec::new();
        let count = all_scenarios.len();
        let mut s: usize = 0;
        while s < count
            invariant
                count == all_scenarios@.len(),
                all_scenarios@.len() == spec_scenario_names().len(),
                forall|j: int|
                    0 <= j < all_scenarios@.len() ==> (#[trigger] all_scenarios@[j]).spec_name()@
                        == spec_scenario_names()[j],
                s <= count,
                seq_views(uncovered@) == uncovered_of(
                    spec_scenario_names().take(s as int),
                    coverage@,
                ),
                forall|u: int, i: int|
                    0 <= u < uncovered@.len() && 0 <= i < coverage@.len() ==> (
                    #[trigger] coverage@[i]).0@ != (#[trigger] uncovered@[u])@,
            decreases count - s,
        {
            let name = all_scenarios[s].name();
            proof {
                assert(name@ == spec_scenario_names()[s as int]);
                assert(spec_scenario_names().take(s + 1).drop_last() =~= spec_scenario_names().take(
                    s as int,
                ));
                assert(spec_scenario_names().take(s + 1).last() == spec_scenario_names()[s as int]);
            }
            match find_key(&coverage, name) {
                Option::Some(_) => {
                    proof {
                        assert(covers_name(coverage@, spec_scenario_names()[s as int]));
                    }
                },
                Option::None => {
                    uncovered.push(name.to_owned());
                    proof {
                        assert(!covers_name(coverage@, spec_scenario_names()[s as int]));
                        assert(seq_views(uncovered@) =~= uncovered_of(
                            spec_scenario_names().take(s + 1),
                            coverage@,
                        ));
                    }
                },
            }
            s = s + 1;
        }
        proof {
            assert(spec_scenario_names().take(count as int) =~= spec_scenario_names());
        }

        ScenarioReport { total_groups, coverage, uncovered, unexpected: Vec::new() }
    }

    /// Add an unexpected pattern.
    pub fn add_unexpected(&mut self, pattern: String)
        ensures
            final(self).total_groups == old(self).total_groups,
            final(self).coverage@ == old(self).coverage@,
            final(self).uncovered@ == old(self).uncovered@,
            final(self).unexpected@ == old(self).unexpected@.push(pattern),
    {
        self.unexpected.push(pattern);
    }
}

/// Appends a usize as decimal digits.
fn append_count(out: &mut String, n: usize)
{
    let digits = u64_to_string(n as u64);
    out.append(digits.as_str());
}

/// Format the report for text output: the covered scenarios by category
/// with one example each, the uncovered scenarios, the unexpected patterns,
/// and a summary.
pub fn format_report(report: &ScenarioReport) -> (r: String)
    ensures
        r@.len() >= "=== Test Scenario Coverage Report ===\n\n"@.len(),
        r@.take("=== Test Scenario Coverage Report ===\n\n"@.len() as int)
            == "=== Test Scenario Coverage Report ===\n\n"@,
{
    let mut body = String::new();

    let covered_count = report.coverage.len();
    let total_scenarios: usize = TestScenario::all().len();
    let capped = if covered_count > total_scenarios {
        total_scenarios
    } else {
        covered_count
    };
    let pct: u64 = (((capped as u64) * 100 + (total_scenarios as u64) / 2)
        / (total_scenarios as u64)) as u64;

    body.append("COVERED (");
    append_count(&mut body, covered_count);
    body.append("/");
    append_count(&mut body, total_scenarios);
    body.append(" scenarios, ");
    let pct_digits = u64_to_string(pct);
    body.append(pct_digits.as_str());
    body.append("%):\n");

    let categories: [&str; 4] = ["Winner Selection", "Consolidation", "Conflicts", "Edge Cases"];
    let prefixes: [char; 4] = ['W', 'C', 'F', 'X'];
    let mut c: usize = 0;
    while c < 4
        decreases 4 - c,
    {
        let category: &str = categories[c];
        let prefix: char = prefixes[c];
        let mut wrote_header = false;
        let n = report.coverage.len();
        let mut i: usize = 0;
        while i < n
            invariant
                n == report.coverage@.len(),
            decreases n - i,
        {
            let entry = &report.coverage[i];
            let key = &entry.0;
            let key_prefix = if key.as_str().unicode_len() > 0 {
                key.as_str().get_char(0)
            } else {
                '?'
            };
            if key_prefix == prefix {
                if !wrote_header {
                    body.append("\n  ");
                    body.append(category);
                    body.append(":\n");
                    wrote_header = true;
                }
                body.append("    ");
                body.append(key.as_str());
                body.append(": ");
                append_count(&mut body, entry.1.len());
                body.append(" groups\n");
                if entry.1.len() > 0 {
                    let first = &entry.1[0];
                    body.append("      Example: ");
                    body.append(first.duplicate_id.as_str());
                    body.append(" (");
                    body.append(first.details.as_str());
                    body.append(")\n");
                }
            }
            i = i + 1;
        }
        c = c + 1;
    }

    if report.uncovered.len() > 0 {
        body.append("\nNOT COVERED (");
        append_count(&mut body, report.uncovered.len());
        body.append(" scenarios):\n");
        let n = report.uncovered.len();
        let mut i: usize = 0;
        while i < n
            invariant
                n == report.uncovered@.len(),
            decreases n - i,
        {
            body.append("  ");
            body.append(report.uncovered[i].as_str());
            body.append(": 0 groups\n");
            i = i + 1;
        }
    }

    if report.unexpected.len() > 0 {
        body.append("\nUNEXPECTED PATTERNS:\n");
        let n = report.unexpected.len();
        let mut i: usize = 0;
        while i < n
            invariant
                n == report.unexpected@.len(),
            decreases n - i,
        {
            body.append("  - ");
            body.append(report.unexpected[i].as_str());
            body.append("\n");
            i = i + 1;
        }
    }

    body.append("\n=== Summary ===\n");
    body.append("Total groups analyzed: ");
    append_count(&mut body, report.total_groups);
    body.append("\nScenarios covered: ");
    append_count(&mut body, covered_count);
    body.append("/");
    append_count(&mut body, total_scenarios);
    body.append(" (");
    body.append(pct_digits.as_str());
    body.append("%)\nSynthetic images needed for: ");
    append_count(&mut body, report.uncovered.len());
    body.append(" scenarios\n");

    let out = concat_str("=== Test Scenario Coverage Report ===\n\n", body.as_str());
    proof {
        assert(out@.take("=== Test Scenario Coverage Report ===\n\n"@.len() as int)
            =~= "=== Test Scenario Coverage Report ===\n\n"@);
    }
    out
}

} // verus!
