use vstd::prelude::*;

use crate::error::Error;
use crate::filter::accepted;
use crate::filter::line_accepted;

verus! {

/// The payload of a trigger outcome, with the text viewed mathematically.
pub open spec fn outcome_view(r: Result<String, Error>) -> Result<Seq<char>, Error> {
    match r {
        Ok(s) => Ok(s@),
        Err(e) => Err(e),
    }
}

/// What the field shows after a barcode trigger resolves to `outcome`: a
/// decoded payload overwrites it, a failure leaves it alone.
pub open spec fn field_after_barcode(f0: Seq<char>, outcome: Result<Seq<char>, Error>) -> Seq<
    char,
> {
    match outcome {
        Ok(s) => s,
        Err(_) => f0,
    }
}

/// What the field shows after an OCR trigger surfaces `lines`: every accepted
/// line overwrites the field in order, so the last accepted line wins and the
/// field keeps its old value when no line is accepted.
pub open spec fn field_after_ocr(f0: Seq<char>, lines: Seq<Seq<char>>) -> Seq<char>
    decreases lines.len(),
{
    if lines.len() == 0 {
        f0
    } else if accepted(lines.last()) {
        lines.last()
    } else {
        field_after_ocr(f0, lines.drop_last())
    }
}

/// The single text value bound to the visible UI. Only the two trigger
/// handlers mutate it, and only on success.
pub struct UiField {
    value: String,
}

impl View for UiField {
    type V = Seq<char>;

    closed spec fn view(&self) -> Seq<char> {
        self.value@
    }
}

impl UiField {
    /// The field starts empty.
    pub fn new() -> (r: UiField)
        ensures
            r@ == Seq::<char>::empty(),
    {
        let value = String::new();
        proof {
            assert(value@ =~= Seq::<char>::empty());
        }
        UiField { value }
    }

    /// The text currently shown.
    pub fn text(&self) -> (t: &String)
        ensures
            t@ == self@,
    {
        &self.value
    }

    /// Barcode trigger boundary: a successful decode overwrites the field
    /// with the payload, a failure leaves the field unchanged.
    pub fn apply_barcode(&mut self, outcome: Result<String, Error>)
        ensures
            final(self)@ == field_after_barcode(old(self)@, outcome_view(outcome)),
            outcome matches Ok(s) ==> final(self)@ == s@,
            outcome matches Err(_) ==> final(self)@ == old(self)@,
    {
        match outcome {
            Ok(s) => {
                self.value = s;
            },
            Err(_) => {},
        }
    }

    /// OCR trigger boundary: each recognized line that passes the result
    /// filter overwrites the field in order, so the last accepted line is the
    /// one left visible; when no line is accepted the field is unchanged.
    pub fn apply_ocr(&mut self, lines: &Vec<String>)
        ensures
            final(self)@ == field_after_ocr(old(self)@, lines.deep_view()),
    {
        let ghost f0 = self@;
        let ghost lv = lines.deep_view();
        let mut idx: usize = 0;
        proof {
            assert(lv.take(0int) =~= Seq::<Seq<char>>::empty());
        }
        while idx < lines.len()
            invariant
                idx <= lines@.len(),
                lv == lines.deep_view(),
                lv.len() == lines@.len(),
                self@ == field_after_ocr(f0, lv.take(idx as int)),
            decreases lines@.len() - idx,
        {
            let line = &lines[idx];
            proof {
                assert(lv[idx as int] == line@);
                assert(lv.take(idx as int + 1).drop_last() =~= lv.take(idx as int));
                assert(lv.take(idx as int + 1).last() == line@);
            }
            if line_accepted(line.as_str()) {
                self.value = line.clone();
            }
            idx = idx + 1;
        }
        proof {
            assert(lv.take(lines@.len() as int) =~= lv);
        }
    }
}

/// Law: triggering the barcode path twice with the same outcome shows the
/// same field value both times — the second run rewrites what the first run
/// left there.
pub proof fn lemma_barcode_idempotent(f0: Seq<char>, outcome: Result<Seq<char>, Error>)
    ensures
        field_after_barcode(field_after_barcode(f0, outcome), outcome) == field_after_barcode(
            f0,
            outcome,
        ),
{
}

/// Law: the binder's overwrite-per-accepted-line semantics shows exactly the
/// last line the Result Filter keeps, and leaves the field alone when the
/// filter keeps nothing.
pub proof fn lemma_field_shows_last_filtered(f0: Seq<char>, lines: Seq<Seq<char>>)
    ensures
        crate::filter::accepted_of(lines).len() == 0 ==> field_after_ocr(f0, lines) == f0,
        crate::filter::accepted_of(lines).len() > 0 ==> field_after_ocr(f0, lines)
            == crate::filter::accepted_of(lines).last(),
    decreases lines.len(),
{
    reveal(Seq::filter);
    if lines.len() == 0 {
    } else {
        lemma_field_shows_last_filtered(f0, lines.drop_last());
    }
}

/// Law: triggering the OCR path twice over the same recognized lines shows
/// the same field value both times.
pub proof fn lemma_ocr_idempotent(f0: Seq<char>, lines: Seq<Seq<char>>)
    ensures
        field_after_ocr(field_after_ocr(f0, lines), lines) == field_after_ocr(f0, lines),
    decreases lines.len(),
{
    if lines.len() == 0 {
    } else if accepted(lines.last()) {
    } else {
        lemma_ocr_idempotent(f0, lines.drop_last());
    }
}

} // verus!
