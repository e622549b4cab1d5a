//! The summary report: one section per kind that has texts, ordered by the
//! kind's display name, and a closing block that lists the kinds seen and
//! explains the filter options. The report is computed as a list of output
//! lines; printing them is left to the caller.

use vstd::prelude::*;
use crate::aggregate::{is_blank, Aggregate, Ledger};
use crate::taxonomy::{StringType, KIND_COUNT};

verus! {

/// The character of a decimal digit.
pub open spec fn digit(d: nat) -> char {
    if d == 0 {
        '0'
    } else if d == 1 {
        '1'
    } else if d == 2 {
        '2'
    } else if d == 3 {
        '3'
    } else if d == 4 {
        '4'
    } else if d == 5 {
        '5'
    } else if d == 6 {
        '6'
    } else if d == 7 {
        '7'
    } else if d == 8 {
        '8'
    } else {
        '9'
    }
}

/// A number in decimal notation, without leading zeros.
pub open spec fn decimal(n: nat) -> Seq<char>
    decreases n,
{
    if n < 10 {
        seq![digit(n)]
    } else {
        decimal(n / 10).push(digit(n % 10))
    }
}

/// The line that opens the section of a kind: its name, and in brackets
/// the number of its texts.
pub open spec fn header(kind: StringType, count: nat) -> Seq<char> {
    kind.name() + " ["@ + decimal(count) + "]:"@
}

/// The line that shows one text.
pub open spec fn item(text: Seq<char>) -> Seq<char> {
    "  "@ + text
}

/// The line that says how many texts were left out.
pub open spec fn more_notice(hidden: nat) -> Seq<char> {
    "  ... ("@ + decimal(hidden) + " more)"@
}

/// The lines that show the first `n` of `texts`.
pub open spec fn items(texts: Seq<Seq<char>>, n: nat) -> Seq<Seq<char>> {
    Seq::new(n, |i: int| item(texts[i]))
}

/// The lines that show `texts` under a limit: all of them if the limit is
/// zero or not exceeded, else the first `limit` and a notice of how many
/// more there are.
pub open spec fn listing(texts: Seq<Seq<char>>, limit: nat) -> Seq<Seq<char>> {
    if limit > 0 && texts.len() > limit {
        items(texts, limit).push(more_notice((texts.len() - limit) as nat))
    } else {
        items(texts, texts.len())
    }
}

/// The section of one kind: nothing if the kind has no texts, else an
/// empty line, the header, and, unless only counts are wanted, the listing.
pub open spec fn section(kind: StringType, texts: Seq<Seq<char>>, analyze: bool, limit: nat) -> Seq<
    Seq<char>,
> {
    if texts.len() == 0 {
        Seq::empty()
    } else if analyze {
        seq![Seq::empty(), header(kind, texts.len())]
    } else {
        seq![Seq::empty(), header(kind, texts.len())] + listing(texts, limit)
    }
}

/// The sections of the first `upto` kinds in the order of display names.
pub open spec fn sections(ledger: Ledger, analyze: bool, limit: nat, upto: nat) -> Seq<Seq<char>>
    decreases upto,
{
    if upto == 0 {
        Seq::empty()
    } else {
        let kind = StringType::by_name()[upto - 1];
        sections(ledger, analyze, limit, (upto - 1) as nat) + section(
            kind,
            ledger[kind],
            analyze,
            limit,
        )
    }
}

/// The limit that an optional item cap stands for: none means no limit,
/// which is written as zero.
pub open spec fn limit_of(max_items: Option<usize>) -> nat {
    match max_items {
        Some(n) => n as nat,
        None => 0,
    }
}

/// The per-kind part of the report.
pub open spec fn summary(ledger: Ledger, analyze: bool, max_items: Option<usize>) -> Seq<
    Seq<char>,
> {
    sections(ledger, analyze, limit_of(max_items), KIND_COUNT as nat)
}

/// The names of those of the first `upto` kinds, in the order of display
/// names, that have texts.
pub open spec fn seen_names(ledger: Ledger, upto: nat) -> Seq<Seq<char>>
    decreases upto,
{
    if upto == 0 {
        Seq::empty()
    } else {
        let kind = StringType::by_name()[upto - 1];
        if ledger[kind].len() > 0 {
            seen_names(ledger, (upto - 1) as nat).push(kind.name())
        } else {
            seen_names(ledger, (upto - 1) as nat)
        }
    }
}

/// `names` in one line, separated by a comma and a space.
pub open spec fn joined(names: Seq<Seq<char>>) -> Seq<char>
    decreases names.len(),
{
    if names.len() == 0 {
        Seq::empty()
    } else if names.len() == 1 {
        names[0]
    } else {
        joined(names.drop_last()) + ", "@ + names.last()
    }
}

/// The fixed lines that close the report, after the line that lists the
/// kinds seen.
pub open spec fn usage_lines() -> Seq<Seq<char>> {
    seq![
        Seq::empty(),
        "To filter, use:"@,
        "  --with <type>     (include only specific types, can repeat)"@,
        "  --without <type>  (exclude specific types, can repeat)"@,
        "  --analyze         (show only counts)"@,
        "  --max-items N     (limit items per type)"@,
        "  --no-defaults     (disable default filters)"@,
        Seq::empty(),
        "Examples:"@,
        "  --with url --with email"@,
        "  --without errors --without cpp"@,
    ]
}

/// The closing block of the report: nothing if no kind has texts, else a
/// title, the line of the kinds seen, and the usage lines.
pub open spec fn final_summary(ledger: Ledger) -> Seq<Seq<char>> {
    let names = seen_names(ledger, KIND_COUNT as nat);
    if names.len() == 0 {
        Seq::empty()
    } else {
        seq![Seq::empty(), Seq::empty(), "=== Summary ==="@, "Detected types: "@ + joined(names)]
            + usage_lines()
    }
}

/// The whole report.
pub open spec fn report(ledger: Ledger, analyze: bool, max_items: Option<usize>) -> Seq<
    Seq<char>,
> {
    summary(ledger, analyze, max_items) + final_summary(ledger)
}

fn digit_text(d: usize) -> (r: &'static str)
    requires
        d < 10,
    ensures
        r@ == seq![digit(d as nat)],
{
    proof {
        reveal_strlit("0");
        reveal_strlit("1");
        reveal_strlit("2");
        reveal_strlit("3");
        reveal_strlit("4");
        reveal_strlit("5");
        reveal_strlit("6");
        reveal_strlit("7");
        reveal_strlit("8");
        reveal_strlit("9");
    }
    let r = if d == 0 {
        "0"
    } else if d == 1 {
        "1"
    } else if d == 2 {
        "2"
    } else if d == 3 {
        "3"
    } else if d == 4 {
        "4"
    } else if d == 5 {
        "5"
    } else if d == 6 {
        "6"
    } else if d == 7 {
        "7"
    } else if d == 8 {
        "8"
    } else {
        "9"
    };
    assert(r@ =~= seq![digit(d as nat)]);
    r
}

/// A number in decimal notation.
pub fn decimal_text(n: usize) -> (r: String)
    ensures
        r@ == decimal(n as nat),
    decreases n,
{
    if n < 10 {
        String::from_str(digit_text(n))
    } else {
        let mut r = decimal_text(n / 10);
        r.append(digit_text(n % 10));
        assert(r@ =~= decimal(n as nat));
        r
    }
}

fn header_text(kind: StringType, count: usize) -> (r: String)
    ensures
        r@ == header(kind, count as nat),
{
    let mut r = String::from_str(kind.as_str());
    r.append(" [");
    r.append(decimal_text(count).as_str());
    r.append("]:");
    r
}

fn item_text(text: &String) -> (r: String)
    ensures
        r@ == item(text@),
{
    let mut r = String::from_str("  ");
    r.append(text.as_str());
    r
}

fn more_text(hidden: usize) -> (r: String)
    ensures
        r@ == more_notice(hidden as nat),
{
    let mut r = String::from_str("  ... (");
    r.append(decimal_text(hidden).as_str());
    r.append(" more)");
    r
}

fn push_line(out: &mut Vec<String>, line: String)
    ensures
        final(out).deep_view() == old(out).deep_view().push(line@),
{
    out.push(line);
    assert(out.deep_view() =~= old(out).deep_view().push(line@));
}

fn push_section(out: &mut Vec<String>, kind: StringType, texts: &Vec<String>, analyze: bool, limit: usize)
    ensures
        final(out).deep_view() == old(out).deep_view() + section(
            kind,
            texts.deep_view(),
            analyze,
            limit as nat,
        ),
{
    let ghost base = out.deep_view();
    let ghost all = texts.deep_view();
    if texts.len() == 0 {
        assert(base + Seq::<Seq<char>>::empty() =~= base);
        return ;
    }
    push_line(out, String::new());
    push_line(out, header_text(kind, texts.len()));
    let ghost opened = base + seq![Seq::<char>::empty(), header(kind, all.len())];
    assert(out.deep_view() =~= opened);
    if analyze {
        return ;
    }
    let shown: usize = if limit > 0 && texts.len() > limit {
        limit
    } else {
        texts.len()
    };
    let mut k: usize = 0;
    assert(opened + items(all, 0) =~= opened);
    while k < shown
        invariant
            k <= shown <= texts.len(),
            all == texts.deep_view(),
            out.deep_view() == opened + items(all, k as nat),
        decreases shown - k,
    {
        push_line(out, item_text(&texts[k]));
        assert(items(all, (k + 1) as nat) =~= items(all, k as nat).push(item(all[k as int])));
        assert(out.deep_view() =~= opened + items(all, (k + 1) as nat));
        k += 1;
    }
    if shown < texts.len() {
        push_line(out, more_text(texts.len() - limit));
        assert(out.deep_view() =~= base + (seq![Seq::<char>::empty(), header(kind, all.len())]
            + listing(all, limit as nat)));
    } else {
        assert(out.deep_view() =~= base + (seq![Seq::<char>::empty(), header(kind, all.len())]
            + listing(all, limit as nat)));
    }
}

proof fn lemma_blank_sections(ledger: Ledger, analyze: bool, limit: nat, upto: nat)
    requires
        is_blank(ledger),
    ensures
        sections(ledger, analyze, limit, upto).len() == 0,
        seen_names(ledger, upto).len() == 0,
    decreases upto,
{
    if upto > 0 {
        lemma_blank_sections(ledger, analyze, limit, (upto - 1) as nat);
        let kind = StringType::by_name()[upto - 1];
        assert(ledger[kind].len() == 0);
    }
}

/// A report on a blank ledger has no lines: no sections, and no closing
/// block.
pub proof fn lemma_blank_report_is_empty(ledger: Ledger, analyze: bool, max_items: Option<usize>)
    requires
        is_blank(ledger),
    ensures
        summary(ledger, analyze, max_items).len() == 0,
        final_summary(ledger).len() == 0,
        report(ledger, analyze, max_items).len() == 0,
{
    lemma_blank_sections(ledger, analyze, limit_of(max_items), KIND_COUNT as nat);
}

/// The per-kind part of the report, as output lines: for each kind that has
/// texts, in the order of display names, an empty line, a header with the
/// name and the number of texts, and, unless `analyze` is set, the texts
/// themselves, at most `max_items` of them if that is given and not zero.
pub fn summary_lines(store: &Aggregate, analyze: bool, max_items: Option<usize>) -> (r: Vec<String>)
    ensures
        r.deep_view() == summary(store.ledger(), analyze, max_items),
        is_blank(store.ledger()) ==> r.len() == 0,
{
    let limit: usize = match max_items {
        Some(n) => n,
        None => 0,
    };
    let kinds = StringType::all_by_name();
    let mut out: Vec<String> = Vec::new();
    let mut i: usize = 0;
    assert(out.deep_view() =~= sections(store.ledger(), analyze, limit as nat, 0));
    while i < kinds.len()
        invariant
            i <= kinds.len(),
            kinds@ == StringType::by_name(),
            kinds.len() == KIND_COUNT,
            out.deep_view() == sections(store.ledger(), analyze, limit as nat, i as nat),
        decreases kinds.len() - i,
    {
        let kind = kinds[i];
        push_section(&mut out, kind, store.texts_of(kind), analyze, limit);
        i += 1;
    }
    proof {
        if is_blank(store.ledger()) {
            lemma_blank_sections(store.ledger(), analyze, limit as nat, KIND_COUNT as nat);
        }
    }
    out
}

/// The closing block of the report, as output lines: nothing if the store
/// is blank, else a title, the names of the kinds that have texts in the
/// order of display names, and the usage lines.
pub fn final_summary_lines(store: &Aggregate) -> (r: Vec<String>)
    ensures
        r.deep_view() == final_summary(store.ledger()),
        is_blank(store.ledger()) ==> r.len() == 0,
{
    let kinds = StringType::all_by_name();
    let mut names = String::new();
    let mut seen: usize = 0;
    let mut i: usize = 0;
    while i < kinds.len()
        invariant
            i <= kinds.len(),
            kinds@ == StringType::by_name(),
            kinds.len() == KIND_COUNT,
            seen <= i,
            seen == seen_names(store.ledger(), i as nat).len(),
            names@ == joined(seen_names(store.ledger(), i as nat)),
        decreases kinds.len() - i,
    {
        let kind = kinds[i];
        if store.count(kind) > 0 {
            let ghost before = seen_names(store.ledger(), i as nat);
            if seen > 0 {
                names.append(", ");
            }
            names.append(kind.as_str());
            seen += 1;
            proof {
                let after = seen_names(store.ledger(), (i + 1) as nat);
                assert(after == before.push(kind.name()));
                assert(after.drop_last() =~= before);
                if before.len() == 0 {
                    assert(names@ =~= kind.name());
                }
            }
        }
        i += 1;
    }
    proof {
        if is_blank(store.ledger()) {
            lemma_blank_sections(store.ledger(), false, 0, KIND_COUNT as nat);
        }
    }
    let mut out: Vec<String> = Vec::new();
    if seen == 0 {
        assert(out.deep_view() =~= final_summary(store.ledger()));
        return out;
    }
    let mut detected = String::from_str("Detected types: ");
    detected.append(names.as_str());
    push_line(&mut out, String::new());
    push_line(&mut out, String::new());
    push_line(&mut out, String::from_str("=== Summary ==="));
    push_line(&mut out, detected);
    push_line(&mut out, String::new());
    push_line(&mut out, String::from_str("To filter, use:"));
    push_line(
        &mut out,
        String::from_str("  --with <type>     (include only specific types, can repeat)"),
    );
    push_line(
        &mut out,
        String::from_str("  --without <type>  (exclude specific types, can repeat)"),
    );
    push_line(&mut out, String::from_str("  --analyze         (show only counts)"));
    push_line(&mut out, String::from_str("  --max-items N     (limit items per type)"));
    push_line(&mut out, String::from_str("  --no-defaults     (disable default filters)"));
    push_line(&mut out, String::new());
    push_line(&mut out, String::from_str("Examples:"));
    push_line(&mut out, String::from_str("  --with url --with email"));
    push_line(&mut out, String::from_str("  --without errors --without cpp"));
    assert(out.deep_view() =~= final_summary(store.ledger()));
    out
}

} // verus!
