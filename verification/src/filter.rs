use vstd::prelude::*;

verus! {

/// A decimal digit.
pub open spec fn is_digit(c: char) -> bool {
    '0' <= c && c <= '9'
}

/// Four consecutive decimal digits start at position `i`.
pub open spec fn four_digits_at(s: Seq<char>, i: int) -> bool {
    &&& 0 <= i
    &&& i + 4 <= s.len()
    &&& forall|j: int| i <= j < i + 4 ==> is_digit(#[trigger] s[j])
}

/// The fixed numeric pattern starts at position `i`: four decimal digits,
/// optionally preceded by a literal dot.
pub open spec fn pattern_at(s: Seq<char>, i: int) -> bool {
    four_digits_at(s, i) || (0 <= i < s.len() && s[i] == '.' && four_digits_at(s, i + 1))
}

/// The line contains the pattern somewhere.
pub open spec fn has_pattern(s: Seq<char>) -> bool {
    exists|i: int| pattern_at(s, i)
}

/// The filter keeps a line iff it is longer than one character and contains
/// the pattern.
pub open spec fn accepted(s: Seq<char>) -> bool {
    s.len() > 1 && has_pattern(s)
}

/// The dot alternative of the pattern contains a plain four-digit run, so the
/// pattern occurs somewhere iff a four-digit run does.
pub proof fn lemma_pattern_iff_digit_run(s: Seq<char>)
    ensures
        has_pattern(s) <==> exists|i: int| four_digits_at(s, i),
{
    if has_pattern(s) {
        let i = choose|i: int| pattern_at(s, i);
        if four_digits_at(s, i) {
            assert(exists|k: int| four_digits_at(s, k));
        } else {
            assert(four_digits_at(s, i + 1));
            assert(exists|k: int| four_digits_at(s, k));
        }
    }
    if exists|i: int| four_digits_at(s, i) {
        let i = choose|i: int| four_digits_at(s, i);
        assert(pattern_at(s, i));
    }
}

/// Whether a recognized line passes the result filter: longer than one
/// character and containing four consecutive digits, optionally dot-prefixed.
pub fn line_accepted(line: &str) -> (r: bool)
    ensures
        r == accepted(line@),
{
    let n = line.unicode_len();
    if n <= 1 {
        return false;
    }
    let ghost s = line@;
    let mut i: usize = 0;
    let mut run: usize = 0;
    while i < n
        invariant
            n == s.len(),
            s == line@,
            n > 1,
            i <= n,
            run <= i,
            run < 4,
            forall|j: int| i - run <= j < i ==> is_digit(#[trigger] s[j]),
            run == i || !is_digit(s[i - run - 1]),
            forall|k: int| 0 <= k && k + 4 <= i ==> !four_digits_at(s, k),
        decreases n - i,
    {
        let c = line.get_char(i);
        if '0' <= c && c <= '9' {
            run = run + 1;
            if run == 4 {
                assert(four_digits_at(s, i - 3));
                assert(pattern_at(s, i - 3));
                return true;
            }
            proof {
                if i + 1 >= 4 && run < i + 1 {
                    assert(!is_digit(s[i - run]));
                    assert(!four_digits_at(s, i + 1 - 4));
                }
            }
        } else {
            run = 0;
            proof {
                if i + 1 >= 4 {
                    assert(!is_digit(s[i as int]));
                    assert(!four_digits_at(s, i + 1 - 4));
                }
            }
        }
        i = i + 1;
    }
    proof {
        lemma_pattern_iff_digit_run(s);
        assert forall|k: int| !four_digits_at(s, k) by {
            if 0 <= k && k + 4 <= n {
                assert(!four_digits_at(s, k));
            }
        }
    }
    false
}

/// The subsequence of lines that the filter keeps, in their original order.
pub open spec fn accepted_of(lines: Seq<Seq<char>>) -> Seq<Seq<char>> {
    lines.filter(|s: Seq<char>| accepted(s))
}

/// The accepted lines, kept in their original order. This is the Result
/// Filter applied to a whole OCR output; barcode payloads never pass through
/// it.
pub fn filter_lines(lines: &Vec<String>) -> (r: Vec<String>)
    ensures
        r.deep_view() == accepted_of(lines.deep_view()),
{
    broadcast use vstd::seq_lib::group_filter_ensures;

    let ghost pred = (|s: Seq<char>| accepted(s));
    let mut r: Vec<String> = Vec::new();
    let mut idx: usize = 0;
    assert(lines.deep_view().take(0int) =~= Seq::<Seq<char>>::empty());
    assert(Seq::<Seq<char>>::empty().filter(pred) =~= Seq::<Seq<char>>::empty());
    while idx < lines.len()
        invariant
            idx <= lines@.len(),
            lines.deep_view().len() == lines@.len(),
            r.deep_view() == lines.deep_view().take(idx as int).filter(pred),
            pred == (|s: Seq<char>| accepted(s)),
        decreases lines@.len() - idx,
    {
        let line = &lines[idx];
        let keep = line_accepted(line.as_str());
        if keep {
            r.push(line.clone());
        }
        proof {
            let lv = lines.deep_view();
            assert(lv[idx as int] == line@);
            assert(lv.take(idx as int + 1) =~= lv.take(idx as int).push(line@));
            lv.take(idx as int).lemma_filter_push(line@, pred);
            if keep {
                assert(r.deep_view() =~= lv.take(idx as int).filter(pred).push(line@));
            }
        }
        idx = idx + 1;
    }
    proof {
        assert(lines.deep_view().take(lines@.len() as int) =~= lines.deep_view());
    }
    r
}

} // verus!
