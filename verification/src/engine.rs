//! A run over a stream of lines: every line is put to the detectors, the
//! candidates that pass the filter are recorded in the store, and the store
//! is reported at the end. Lines are handled one by one and independently
//! of each other.

use vstd::prelude::*;
use crate::aggregate::{
    blank_ledger, is_distinct, lemma_recorded_is_distinct, recorded, Aggregate, Ledger,
};
use crate::detect::{candidates_view, extract_all_matches, line_candidates, Candidate};
use crate::filter::{expanded, Args, Configuration};
use crate::patterns::{battery_findings, Battery};
use crate::render::{final_summary_lines, lemma_blank_report_is_empty, report, summary_lines};
use crate::taxonomy::StringType;

verus! {

/// Those of `candidates`, in order, whose kind passes the filter.
pub open spec fn accepted(config: Configuration, candidates: Seq<Candidate>) -> Seq<Candidate>
    decreases candidates.len(),
{
    if candidates.len() == 0 {
        Seq::empty()
    } else {
        let before = accepted(config, candidates.drop_last());
        if config.includes(candidates.last().0) {
            before.push(candidates.last())
        } else {
            before
        }
    }
}

/// The ledger after each of `candidates` was recorded, in order.
pub open spec fn recorded_all(ledger: Ledger, candidates: Seq<Candidate>) -> Ledger
    decreases candidates.len(),
{
    if candidates.len() == 0 {
        ledger
    } else {
        recorded(
            recorded_all(ledger, candidates.drop_last()),
            candidates.last().0,
            candidates.last().1,
        )
    }
}

/// The ledger after a line was handled: the candidates of the line that
/// pass the filter are recorded.
pub open spec fn line_recorded(config: Configuration, ledger: Ledger, line: Seq<char>) -> Ledger {
    recorded_all(ledger, accepted(config, line_candidates(line, battery_findings(line))))
}

/// The ledger at the end of a stream of lines that started on `ledger`.
pub open spec fn stream_recorded(config: Configuration, ledger: Ledger, lines: Seq<Seq<char>>) -> Ledger
    decreases lines.len(),
{
    if lines.len() == 0 {
        ledger
    } else {
        line_recorded(config, stream_recorded(config, ledger, lines.drop_last()), lines.last())
    }
}

/// The report of a run over `lines`.
pub open spec fn stream_report(config: Configuration, lines: Seq<Seq<char>>) -> Seq<Seq<char>> {
    report(stream_recorded(config, blank_ledger(), lines), config.analyze, config.max_items)
}

/// With a non-empty include list, every accepted candidate is of a kind
/// that the include list expands to, whatever the exclude list and the
/// defaults say.
pub proof fn lemma_include_list_decides(config: Configuration, candidates: Seq<Candidate>)
    requires
        config.with.len() > 0,
    ensures
        forall|i: int|
            0 <= i < accepted(config, candidates).len() ==> expanded(config.with).contains(
                (#[trigger] accepted(config, candidates)[i]).0,
            ),
    decreases candidates.len(),
{
    if candidates.len() > 0 {
        lemma_include_list_decides(config, candidates.drop_last());
        let acc = accepted(config, candidates);
        let before = accepted(config, candidates.drop_last());
        assert forall|i: int| 0 <= i < acc.len() implies expanded(config.with).contains(
            (#[trigger] acc[i]).0,
        ) by {
            if i < before.len() {
                assert(acc[i] == before[i]);
            }
        }
    }
}

/// Every accepted candidate is one of the candidates and passes the filter;
/// a candidate that passes the filter is accepted.
pub proof fn lemma_accepted_are_included(config: Configuration, candidates: Seq<Candidate>)
    ensures
        forall|i: int|
            0 <= i < accepted(config, candidates).len() ==> config.includes(
                (#[trigger] accepted(config, candidates)[i]).0,
            ) && candidates.contains(accepted(config, candidates)[i]),
        forall|i: int|
            0 <= i < candidates.len() && config.includes((#[trigger] candidates[i]).0)
                ==> accepted(config, candidates).contains(candidates[i]),
    decreases candidates.len(),
{
    if candidates.len() > 0 {
        let shorter = candidates.drop_last();
        lemma_accepted_are_included(config, shorter);
        let acc = accepted(config, candidates);
        let before = accepted(config, shorter);
        assert forall|i: int| 0 <= i < acc.len() implies config.includes((#[trigger] acc[i]).0)
            && candidates.contains(acc[i]) by {
            if i < before.len() {
                assert(acc[i] == before[i]);
                let j = choose|j: int| 0 <= j < shorter.len() && shorter[j] == before[i];
                assert(candidates[j] == acc[i]);
            } else {
                assert(candidates[candidates.len() - 1] == acc[i]);
            }
        }
        assert forall|i: int|
            0 <= i < candidates.len() && config.includes(
                (#[trigger] candidates[i]).0,
            ) implies acc.contains(candidates[i]) by {
            if i < shorter.len() {
                assert(shorter[i] == candidates[i]);
                let j = choose|j: int| 0 <= j < before.len() && before[j] == shorter[i];
                assert(acc[j] == candidates[i]);
            } else {
                assert(acc[acc.len() - 1] == candidates[i]);
            }
        }
    }
}

/// Recording any candidates keeps the texts of every kind distinct.
pub proof fn lemma_recorded_all_is_distinct(ledger: Ledger, candidates: Seq<Candidate>)
    requires
        is_distinct(ledger),
    ensures
        is_distinct(recorded_all(ledger, candidates)),
    decreases candidates.len(),
{
    if candidates.len() > 0 {
        lemma_recorded_all_is_distinct(ledger, candidates.drop_last());
        lemma_recorded_is_distinct(
            recorded_all(ledger, candidates.drop_last()),
            candidates.last().0,
            candidates.last().1,
        );
    }
}

/// Whatever the lines of a stream are, and however often a text recurs in
/// them, at the end no kind holds a text twice.
pub proof fn lemma_stream_is_distinct(config: Configuration, lines: Seq<Seq<char>>)
    ensures
        is_distinct(stream_recorded(config, blank_ledger(), lines)),
    decreases lines.len(),
{
    if lines.len() == 0 {
        assert forall|kind: StringType| (#[trigger] blank_ledger()[kind]).no_duplicates() by {}
    } else {
        lemma_stream_is_distinct(config, lines.drop_last());
        lemma_recorded_all_is_distinct(
            stream_recorded(config, blank_ledger(), lines.drop_last()),
            accepted(
                config,
                line_candidates(lines.last(), battery_findings(lines.last())),
            ),
        );
    }
}

/// A run over no lines reports nothing: no section and no closing block.
pub proof fn lemma_empty_stream_reports_nothing(config: Configuration)
    ensures
        stream_report(config, Seq::empty()).len() == 0,
{
    lemma_blank_report_is_empty(blank_ledger(), config.analyze, config.max_items);
}

/// Two runs with the same configuration over the same lines give the same
/// report.
pub proof fn lemma_same_run_same_report(
    first: Configuration,
    second: Configuration,
    first_lines: Seq<Seq<char>>,
    second_lines: Seq<Seq<char>>,
)
    requires
        first == second,
        first_lines == second_lines,
    ensures
        stream_report(first, first_lines) == stream_report(second, second_lines),
{
}

/// Records those of `candidates` that pass the filter, in order.
pub fn record_candidates(store: &mut Aggregate, args: &Args, candidates: Vec<(StringType, String)>)
    ensures
        final(store).ledger() == recorded_all(
            old(store).ledger(),
            accepted(args@, candidates_view(candidates@)),
        ),
{
    let ghost all = candidates_view(candidates@);
    let mut i: usize = 0;
    assert(all.take(0) =~= Seq::<Candidate>::empty());
    while i < candidates.len()
        invariant
            i <= candidates.len(),
            all == candidates_view(candidates@),
            store.ledger() == recorded_all(old(store).ledger(), accepted(args@, all.take(i as int))),
        decreases candidates.len() - i,
    {
        let kind = candidates[i].0;
        proof {
            assert(all.take(i + 1).drop_last() =~= all.take(i as int));
            assert(all.take(i + 1).last() == (kind, candidates[i as int].1@));
        }
        if args.should_include_type(kind) {
            store.record(kind, candidates[i].1.clone());
            proof {
                let before = accepted(args@, all.take(i as int));
                let last = (kind, candidates[i as int].1@);
                assert(accepted(args@, all.take(i + 1)) == before.push(last));
                assert(before.push(last).drop_last() =~= before);
            }
        }
        i += 1;
    }
    assert(all.take(i as int) =~= all);
}

/// Handles one line: puts it to the detectors and records the candidates
/// that pass the filter.
pub fn process_line(battery: &Battery, args: &Args, store: &mut Aggregate, line: &str)
    ensures
        final(store).ledger() == line_recorded(args@, old(store).ledger(), line@),
{
    let candidates = extract_all_matches(battery, line);
    record_candidates(store, args, candidates);
}

/// The lines of the whole report on a store: the per-kind sections, then
/// the closing block.
pub fn report_lines(store: &Aggregate, args: &Args) -> (r: Vec<String>)
    ensures
        r.deep_view() == report(store.ledger(), args.analyze, args.max_items),
{
    let mut out = summary_lines(store, args.analyze, args.max_items);
    let mut closing = final_summary_lines(store);
    let ghost first = out.deep_view();
    let ghost second = closing.deep_view();
    out.append(&mut closing);
    assert(out.deep_view() =~= first + second);
    out
}

/// A whole run: handles `lines` in order on a fresh store and reports.
pub fn run(battery: &Battery, args: &Args, lines: &Vec<String>) -> (r: Vec<String>)
    ensures
        r.deep_view() == stream_report(args@, lines.deep_view()),
{
    let mut store = Aggregate::new();
    let mut i: usize = 0;
    assert(lines.deep_view().take(0) =~= Seq::<Seq<char>>::empty());
    while i < lines.len()
        invariant
            i <= lines.len(),
            store.ledger() == stream_recorded(
                args@,
                blank_ledger(),
                lines.deep_view().take(i as int),
            ),
        decreases lines.len() - i,
    {
        proof {
            assert(lines.deep_view().take(i + 1).drop_last() =~= lines.deep_view().take(i as int));
            assert(lines.deep_view().take(i + 1).last() == lines[i as int]@);
        }
        process_line(battery, args, &mut store, lines[i].as_str());
        i += 1;
    }
    assert(lines.deep_view().take(i as int) =~= lines.deep_view());
    report_lines(&store, args)
}

} // verus!
