//! The text that reports the solver's answers.
use vstd::prelude::*;

verus! {

pub open spec fn digit_chars() -> Seq<char> {
    seq!['0', '1', '2', '3', '4', '5', '6', '7', '8', '9']
}

/// `n` written in decimal, without leading zeros.
pub open spec fn decimal_text(n: nat) -> Seq<char>
    decreases n,
{
    if n < 10 {
        seq![digit_chars()[n as int]]
    } else {
        decimal_text(n / 10).push(digit_chars()[(n % 10) as int])
    }
}

/// The lines that show solution `index` (counted from 0) and its board.
pub open spec fn solution_entry(index: nat, board: Seq<char>) -> Seq<char> {
    "Solution "@ + decimal_text(index) + ":\n"@ + board + "=======\n"@
}

/// The entries of the first `k` boards, in order.
pub open spec fn solution_entries(boards: Seq<Seq<char>>, k: nat) -> Seq<char>
    decreases k,
{
    if k == 0 {
        Seq::empty()
    } else {
        solution_entries(boards, (k - 1) as nat) + solution_entry((k - 1) as nat, boards[k - 1])
    }
}

/// The command line's report on the rendered boards of the solutions: a fixed
/// line when there is none, else their count and then each of them in turn.
pub open spec fn report_text(boards: Seq<Seq<char>>) -> Seq<char> {
    if boards.len() == 0 {
        "Solution not found\n"@
    } else {
        decimal_text(boards.len()) + " solutions found.\n"@ + solution_entries(boards, boards.len())
    }
}

/// The one-character text of digit `d`.
fn digit_text(d: usize) -> (r: &'static str)
    requires
        d < 10,
    ensures
        r@ == seq![digit_chars()[d as int]],
{
    proof {
        reveal_strlit("0");
        reveal_strlit("1");
        reveal_strlit("2");
        reveal_strlit("3");
        reveal_strlit("4");
        reveal_strlit("5");
        reveal_strlit("6");
        reveal_strlit("7");
        reveal_strlit("8");
        reveal_strlit("9");
    }
    let r = match d {
        0 => "0",
        1 => "1",
        2 => "2",
        3 => "3",
        4 => "4",
        5 => "5",
        6 => "6",
        7 => "7",
        8 => "8",
        _ => "9",
    };
    assert(r@ =~= seq![digit_chars()[d as int]]);
    r
}

/// `n` written in decimal.
pub fn decimal_string(n: usize) -> (r: String)
    ensures
        r@ == decimal_text(n as nat),
    decreases n,
{
    let mut s = if n >= 10 {
        decimal_string(n / 10)
    } else {
        String::new()
    };
    s.append(digit_text(n % 10));
    assert(s@ =~= decimal_text(n as nat));
    s
}

/// The command line's report on the rendered boards of the solutions, in the
/// order the search found them.
pub fn cli_report(boards: &Vec<String>) -> (r: String)
    ensures
        r@ == report_text(boards.deep_view()),
{
    if boards.len() == 0 {
        return String::from_str("Solution not found\n");
    }
    let mut out = decimal_string(boards.len());
    out.append(" solutions found.\n");
    let ghost head = out@;
    let mut i: usize = 0;
    while i < boards.len()
        invariant
            0 <= i <= boards.len(),
            head == decimal_text(boards.len() as nat) + " solutions found.\n"@,
            out@ == head + solution_entries(boards.deep_view(), i as nat),
        decreases boards.len() - i,
    {
        let ghost before = out@;
        out.append("Solution ");
        let index = decimal_string(i);
        out.append(index.as_str());
        out.append(":\n");
        out.append(boards[i].as_str());
        out.append("=======\n");
        assert(boards.deep_view()[i as int] == boards[i as int]@);
        assert(out@ =~= before + solution_entry(i as nat, boards.deep_view()[i as int]));
        assert(solution_entries(boards.deep_view(), (i + 1) as nat) == solution_entries(
            boards.deep_view(),
            i as nat,
        ) + solution_entry(i as nat, boards.deep_view()[i as int]));
        i = i + 1;
    }
    out
}

/// The text of the first solution's board, or the empty text when there is
/// none.
pub fn first_rendering(boards: &Vec<String>) -> (r: String)
    ensures
        boards.len() == 0 ==> r@ == Seq::<char>::empty(),
        boards.len() > 0 ==> r@ == boards[0]@,
{
    if boards.len() == 0 {
        String::new()
    } else {
        boards[0].clone()
    }
}

} // verus!
