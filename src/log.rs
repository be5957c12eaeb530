//! The words of the run log for checks passed and failed, merges and errors.
use crate::domain::{
    Disqualification, DisqualificationView, MergedPR, Qualification, QualificationView,
};
use crate::summary::{RunSummary, RunSummaryView};
use vstd::prelude::*;

verus! {

/// `tag`, a space, then `text` in double quotes.
pub open spec fn tagged_quote(tag: &str, text: Seq<char>) -> Seq<char> {
    tag@ + " \""@ + text + "\""@
}

fn push_tagged_quote(tag: &str, text: &str) -> (r: String)
    ensures
        r@ == tagged_quote(tag, text@),
{
    let mut s = tag.to_string();
    s.append(" \"");
    s.append(text);
    s.append("\"");
    s
}

/// The log line of a passed check.
pub open spec fn qualification_text(q: QualificationView) -> Seq<char> {
    match q {
        QualificationView::Head(h) => tagged_quote("[ head  ]  ", h) + " matches the allowed head pattern"@,
        QualificationView::Author(a) => tagged_quote("[ author ]  ", a)
            + " is in the list of trusted authors"@,
        QualificationView::Check { name, conclusion } => tagged_quote("[ check  ]  ", name)
            + " concluded with desired status: \""@ + conclusion + "\""@,
        QualificationView::State(s) => tagged_quote("[ state  ]  ", s) + " is desirable"@,
    }
}

/// The log line of a failed check.
pub open spec fn disqualification_text(d: DisqualificationView) -> Seq<char> {
    match d {
        DisqualificationView::Head(h) => tagged_quote("[ head  ]  ", h)
            + " doesn't match the allowed head pattern"@,
        DisqualificationView::Author(Some(a)) => tagged_quote("[ author ]  ", a)
            + " is not in the list of trusted authors"@,
        DisqualificationView::Author(None) => "[ author ]  "@
            + " Github sent an empty user; skipping as I can't make any assumptions here"@,
        DisqualificationView::Check { name, conclusion: Some(c) } => tagged_quote("[ check  ]  ", name)
            + " concluded with undesired status: \""@ + c + "\""@,
        DisqualificationView::Check { name, conclusion: None } => "[ check  ]  "@
            + " Github returned with an empty conclusion for the check "@ + name
            + "; skipping as I can't make any assumptions here"@,
        DisqualificationView::State(Some(s)) => tagged_quote("[ state  ]  ", s) + " is undesirable"@,
        DisqualificationView::State(None) => "[ state  ]  "@
            + " Github returned with an empty mergeable state; skipping as I can't make any assumptions here"@,
    }
}

pub fn qualification_line(q: &Qualification) -> (r: String)
    ensures
        r@ == qualification_text(q@),
{
    match q {
        Qualification::Head(h) => {
            let mut s = push_tagged_quote("[ head  ]  ", h.as_str());
            s.append(" matches the allowed head pattern");
            s
        },
        Qualification::Author(a) => {
            let mut s = push_tagged_quote("[ author ]  ", a.as_str());
            s.append(" is in the list of trusted authors");
            s
        },
        Qualification::Check { name, conclusion } => {
            let mut s = push_tagged_quote("[ check  ]  ", name.as_str());
            s.append(" concluded with desired status: \"");
            s.append(conclusion.as_str());
            s.append("\"");
            s
        },
        Qualification::State(st) => {
            let mut s = push_tagged_quote("[ state  ]  ", st.as_str());
            s.append(" is desirable");
            s
        },
    }
}

pub fn disqualification_line(dq: &Disqualification) -> (r: String)
    ensures
        r@ == disqualification_text(dq@),
{
    match dq {
        Disqualification::Head(h) => {
            let mut s = push_tagged_quote("[ head  ]  ", h.as_str());
            s.append(" doesn't match the allowed head pattern");
            s
        },
        Disqualification::Author(Some(a)) => {
            let mut s = push_tagged_quote("[ author ]  ", a.as_str());
            s.append(" is not in the list of trusted authors");
            s
        },
        Disqualification::Author(None) => {
            let mut s = "[ author ]  ".to_string();
            s.append(" Github sent an empty user; skipping as I can't make any assumptions here");
            s
        },
        Disqualification::Check { name, conclusion: Some(c) } => {
            let mut s = push_tagged_quote("[ check  ]  ", name.as_str());
            s.append(" concluded with undesired status: \"");
            s.append(c.as_str());
            s.append("\"");
            s
        },
        Disqualification::Check { name, conclusion: None } => {
            let mut s = "[ check  ]  ".to_string();
            s.append(" Github returned with an empty conclusion for the check ");
            s.append(name.as_str());
            s.append("; skipping as I can't make any assumptions here");
            s
        },
        Disqualification::State(Some(st)) => {
            let mut s = push_tagged_quote("[ state  ]  ", st.as_str());
            s.append(" is undesirable");
            s
        },
        Disqualification::State(None) => {
            let mut s = "[ state  ]  ".to_string();
            s.append(
                " Github returned with an empty mergeable state; skipping as I can't make any assumptions here",
            );
            s
        },
    }
}

/// The log line of a pull request that passed every check.
pub fn merge_line(execute: bool) -> (r: &'static str)
    ensures
        execute ==> r@ == "PR merged! 🎉 ✅"@,
        !execute ==> r@
            == "PR matches all criteria, I would've merged it if this weren't a dry run ✅"@,
{
    if execute {
        "PR merged! 🎉 ✅"
    } else {
        "PR matches all criteria, I would've merged it if this weren't a dry run ✅"
    }
}

/// The log block that opens the section of repository `name`.
pub fn repo_header(name: &str) -> (r: String)
    ensures
        r@ == "\n\n=============\n  "@ + name@ + "\n============="@,
{
    let mut s = String::from_str("\n\n=============\n  ");
    s.append(name);
    s.append("\n=============");
    s
}

/// The log line of an error.
pub fn error_line(error: &str) -> (r: String)
    ensures
        r@ == "        error 😵: "@ + error@,
{
    let mut s = String::from_str("        error 😵: ");
    s.append(error);
    s
}

/// The decimal digit `d`.
pub open spec fn digit(d: nat) -> char {
    if d == 0 {
        '0'
    } else if d == 1 {
        '1'
    } else if d == 2 {
        '2'
    } else if d == 3 {
        '3'
    } else if d == 4 {
        '4'
    } else if d == 5 {
        '5'
    } else if d == 6 {
        '6'
    } else if d == 7 {
        '7'
    } else if d == 8 {
        '8'
    } else {
        '9'
    }
}

/// `n` written in decimal.
pub open spec fn decimal(n: nat) -> Seq<char>
    decreases n,
{
    if n < 10 {
        seq![digit(n)]
    } else {
        decimal(n / 10) + seq![digit(n % 10)]
    }
}

fn digit_str(d: u64) -> (r: &'static str)
    requires
        d < 10,
    ensures
        r@ == seq![digit(d as nat)],
{
    proof {
        reveal_strlit("0");
        reveal_strlit("1");
        reveal_strlit("2");
        reveal_strlit("3");
        reveal_strlit("4");
        reveal_strlit("5");
        reveal_strlit("6");
        reveal_strlit("7");
        reveal_strlit("8");
        reveal_strlit("9");
    }
    let r = if d == 0 {
        "0"
    } else if d == 1 {
        "1"
    } else if d == 2 {
        "2"
    } else if d == 3 {
        "3"
    } else if d == 4 {
        "4"
    } else if d == 5 {
        "5"
    } else if d == 6 {
        "6"
    } else if d == 7 {
        "7"
    } else if d == 8 {
        "8"
    } else {
        "9"
    };
    assert(r@ =~= seq![digit(d as nat)]);
    r
}

/// `n` written in decimal.
pub fn decimal_string(n: u64) -> (r: String)
    ensures
        r@ == decimal(n as nat),
    decreases n,
{
    if n < 10 {
        digit_str(n).to_string()
    } else {
        let mut s = decimal_string(n / 10);
        s.append(digit_str(n % 10));
        s
    }
}

/// `n` spaces.
pub open spec fn spaces(n: nat) -> Seq<char> {
    Seq::new(n, |i: int| ' ')
}

/// `s` followed by spaces up to `width` characters.
pub open spec fn padded(s: Seq<char>, width: nat) -> Seq<char> {
    if s.len() >= width {
        s
    } else {
        s + spaces((width - s.len()) as nat)
    }
}

fn pad_right(s: &str, width: usize) -> (r: String)
    ensures
        r@ == padded(s@, width as nat),
{
    let mut r = s.to_string();
    let n = s.unicode_len();
    let mut i: usize = n;
    proof {
        reveal_strlit(" ");
        assert(spaces(0) =~= Seq::<char>::empty());
        assert(r@ =~= s@ + spaces(0));
    }
    while i < width
        invariant
            n == s@.len(),
            i >= n,
            i <= width || i == n,
            r@ == s@ + spaces((i - n) as nat),
        decreases width - i,
    {
        let ghost before = r@;
        r.append(" ");
        proof {
            reveal_strlit(" ");
        }
        assert(" "@ =~= seq![' ']);
        assert(spaces((i + 1 - n) as nat) =~= spaces((i - n) as nat).push(' '));
        assert(r@ =~= before + seq![' ']);
        assert(r@ =~= s@ + spaces((i + 1 - n) as nat));
        i = i + 1;
    }
    if n >= width {
        assert(i == n);
        assert(r@ =~= s@);
    }
    r
}

/// Lines joined with newlines.
pub open spec fn joined(lines: Seq<Seq<char>>) -> Seq<char>
    decreases lines.len(),
{
    if lines.len() == 0 {
        Seq::empty()
    } else if lines.len() == 1 {
        lines[0]
    } else {
        joined(lines.drop_last()) + "\n"@ + lines.last()
    }
}

/// The summary line of a merged pull request.
pub open spec fn merged_line(m: (Seq<char>, Seq<char>)) -> Seq<char> {
    "- ["@ + m.0 + "] "@ + m.1
}

/// The summary lines of the merged pull requests.
pub open spec fn merged_lines(ms: Seq<(Seq<char>, Seq<char>)>) -> Seq<Seq<char>> {
    ms.map_values(|m: (Seq<char>, Seq<char>)| merged_line(m))
}

/// The longest URL among the disqualifications.
pub open spec fn widest(ds: Seq<(Seq<char>, Seq<char>)>) -> nat
    decreases ds.len(),
{
    if ds.len() == 0 {
        0
    } else {
        let w = widest(ds.drop_last());
        if ds.last().0.len() > w {
            ds.last().0.len()
        } else {
            w
        }
    }
}

/// The summary line of a disqualification, its URL padded to `width`.
pub open spec fn disqualified_line(d: (Seq<char>, Seq<char>), width: nat) -> Seq<char> {
    "- "@ + padded(d.0, width) + "        "@ + d.1
}

/// The summary lines of the disqualifications, their URLs aligned.
pub open spec fn disqualified_lines(ds: Seq<(Seq<char>, Seq<char>)>) -> Seq<Seq<char>> {
    ds.map_values(|d: (Seq<char>, Seq<char>)| disqualified_line(d, widest(ds)))
}

/// The text of a run summary; disqualifications are left out when `skip`
/// holds.
pub open spec fn summary_spec(s: RunSummaryView, skip: bool) -> Seq<char> {
    let merged = if s.prs_merged.len() == 0 {
        Seq::empty()
    } else {
        "\n\nPRs merged\n---\n\n"@ + joined(merged_lines(s.prs_merged))
    };
    let disqualified = if skip || s.disqualifications.len() == 0 {
        Seq::empty()
    } else {
        "\n\nDisqualifications\n---\n\n"@ + joined(disqualified_lines(s.disqualifications))
    };
    "\n===========\n  SUMMARY\n===========\n\n- PRs merged:                    "@
        + decimal(s.prs_merged.len()) + "\n- PRs disqualified:              "@ + decimal(
        s.disqualifications.len(),
    ) + "\n- Repos checked:                 "@ + decimal(s.num_repos as nat)
        + "\n- Repos with no relevant PRs:    "@ + decimal(s.num_repos_with_no_prs as nat)
        + "\n- Errors encountered:            "@ + decimal(s.num_errors as nat) + merged
        + disqualified
}

fn merged_section(summary: &RunSummary) -> (r: String)
    ensures
        r@ == joined(merged_lines(summary@.prs_merged)),
{
    let prs = &summary.prs_merged;
    let ghost lines = merged_lines(summary@.prs_merged);
    let mut r = String::new();
    let mut i: usize = 0;
    while i < prs.len()
        invariant
            prs == &summary.prs_merged,
            i <= prs@.len(),
            lines.len() == prs@.len(),
            lines == merged_lines(summary@.prs_merged),
            r@ == joined(lines.take(i as int)),
        decreases prs.len() - i,
    {
        assert(lines.take(i + 1).drop_last() =~= lines.take(i as int));
        if i > 0 {
            r.append("\n");
        }
        r.append("- [");
        r.append(prs[i].repo.as_str());
        r.append("] ");
        r.append(prs[i].title.as_str());
        proof {
            assert(summary@.prs_merged[i as int] == (prs@[i as int].repo@, prs@[i as int].title@));
            assert(lines[i as int] == merged_line(summary@.prs_merged[i as int]));
            if i == 0 {
                assert(joined(lines.take(0)) =~= Seq::<char>::empty());
            }
        }
        assert(r@ =~= joined(lines.take(i + 1)));
        i = i + 1;
    }
    assert(lines.take(prs@.len() as int) =~= lines);
    r
}

fn widest_url(summary: &RunSummary) -> (w: usize)
    ensures
        w as nat == widest(summary@.disqualifications),
{
    let ds = &summary.disqualifications;
    let ghost v = summary@.disqualifications;
    let mut w: usize = 0;
    let mut i: usize = 0;
    while i < ds.len()
        invariant
            ds == &summary.disqualifications,
            v == summary@.disqualifications,
            v.len() == ds@.len(),
            i <= ds@.len(),
            w as nat == widest(v.take(i as int)),
        decreases ds.len() - i,
    {
        assert(v.take(i + 1).drop_last() =~= v.take(i as int));
        assert(v[i as int].0 == ds@[i as int].0@);
        let n = ds[i].0.unicode_len();
        if n > w {
            w = n;
        }
        i = i + 1;
    }
    assert(v.take(ds@.len() as int) =~= v);
    w
}

fn disqualification_section(summary: &RunSummary) -> (r: String)
    ensures
        r@ == joined(disqualified_lines(summary@.disqualifications)),
{
    let width = widest_url(summary);
    let ds = &summary.disqualifications;
    let ghost lines = disqualified_lines(summary@.disqualifications);
    let mut r = String::new();
    let mut i: usize = 0;
    while i < ds.len()
        invariant
            ds == &summary.disqualifications,
            width as nat == widest(summary@.disqualifications),
            i <= ds@.len(),
            lines.len() == ds@.len(),
            lines == disqualified_lines(summary@.disqualifications),
            r@ == joined(lines.take(i as int)),
        decreases ds.len() - i,
    {
        assert(lines.take(i + 1).drop_last() =~= lines.take(i as int));
        if i > 0 {
            r.append("\n");
        }
        r.append("- ");
        let url = pad_right(ds[i].0.as_str(), width);
        r.append(url.as_str());
        r.append("        ");
        r.append(ds[i].1.as_str());
        proof {
            assert(summary@.disqualifications[i as int] == (ds@[i as int].0@, ds@[i as int].1@));
            assert(lines[i as int] == disqualified_line(
                summary@.disqualifications[i as int],
                width as nat,
            ));
            if i == 0 {
                assert(joined(lines.take(0)) =~= Seq::<char>::empty());
            }
        }
        assert(r@ =~= joined(lines.take(i + 1)));
        i = i + 1;
    }
    assert(lines.take(ds@.len() as int) =~= lines);
    r
}

/// The text of the run summary; the disqualifications are left out when
/// `skip_disqualifications` holds.
pub fn summary_text(summary: &RunSummary, skip_disqualifications: bool) -> (r: String)
    ensures
        r@ == summary_spec(summary@, skip_disqualifications),
{
    let mut r = String::from_str("\n===========\n  SUMMARY\n===========\n\n- PRs merged:                    ");
    r.append(decimal_string(summary.prs_merged.len() as u64).as_str());
    r.append("\n- PRs disqualified:              ");
    r.append(decimal_string(summary.disqualifications.len() as u64).as_str());
    r.append("\n- Repos checked:                 ");
    r.append(decimal_string(summary.num_repos as u64).as_str());
    r.append("\n- Repos with no relevant PRs:    ");
    r.append(decimal_string(summary.num_repos_with_no_prs as u64).as_str());
    r.append("\n- Errors encountered:            ");
    r.append(decimal_string(summary.num_errors as u64).as_str());
    let ghost head = r@;
    if summary.prs_merged.len() > 0 {
        r.append("\n\nPRs merged\n---\n\n");
        r.append(merged_section(summary).as_str());
    }
    let ghost with_merged = r@;
    if !skip_disqualifications && summary.disqualifications.len() > 0 {
        r.append("\n\nDisqualifications\n---\n\n");
        r.append(disqualification_section(summary).as_str());
    }
    proof {
        let v = summary@;
        let merged = if v.prs_merged.len() == 0 {
            Seq::<char>::empty()
        } else {
            "\n\nPRs merged\n---\n\n"@ + joined(merged_lines(v.prs_merged))
        };
        let disqualified = if skip_disqualifications || v.disqualifications.len() == 0 {
            Seq::<char>::empty()
        } else {
            "\n\nDisqualifications\n---\n\n"@ + joined(disqualified_lines(v.disqualifications))
        };
        assert(with_merged =~= head + merged);
        assert(r@ =~= head + merged + disqualified);
    }
    r
}

} // verus!
