use vstd::prelude::*;
use vstd::string::*;
use crate::response::texts_view;

verus! {

/// The characters that sanitising removes: newline, carriage return and tab.
pub open spec fn is_control(c: char) -> bool {
    c == '\n' || c == '\r' || c == '\t'
}

/// `s` without its newline, carriage-return and tab characters.
pub open spec fn strip_controls(s: Seq<char>) -> Seq<char>
    decreases s.len(),
{
    if s.len() == 0 {
        s
    } else if is_control(s.last()) {
        strip_controls(s.drop_last())
    } else {
        strip_controls(s.drop_last()).push(s.last())
    }
}

/// Relies on `String::push`: appends one character.
#[verifier::external_body]
fn push_char(s: &mut String, c: char)
    ensures
        final(s)@ == old(s)@.push(c),
{
    s.push(c)
}

/// Removes every newline, carriage-return and tab character.
pub fn sanitize_string(input: String) -> (r: String)
    ensures
        r@ == strip_controls(input@),
{
    let n = input.unicode_len();
    let mut out = String::new();
    let mut i: usize = 0;
    while i < n
        invariant
            n == input@.len(),
            i <= n,
            out@ == strip_controls(input@.take(i as int)),
        decreases n - i,
    {
        let c = input.as_str().get_char(i);
        assert(input@.take(i + 1).drop_last() =~= input@.take(i as int));
        if !(c == '\n' || c == '\r' || c == '\t') {
            push_char(&mut out, c);
        }
        i = i + 1;
    }
    assert(input@.take(n as int) =~= input@);
    out
}

/// The pieces of `s` between commas, in order; a text without commas is one
/// piece.
pub open spec fn comma_fields(s: Seq<char>) -> Seq<Seq<char>>
    decreases s.len(),
{
    if s.len() == 0 {
        seq![Seq::empty()]
    } else {
        let f = comma_fields(s.drop_last());
        if s.last() == ',' {
            f.push(Seq::empty())
        } else {
            f.update(f.len() - 1, f.last().push(s.last()))
        }
    }
}

proof fn lemma_comma_fields_nonempty(s: Seq<char>)
    ensures
        comma_fields(s).len() >= 1,
    decreases s.len(),
{
    if s.len() > 0 {
        lemma_comma_fields_nonempty(s.drop_last());
    }
}

/// Splits a text at every comma.
pub fn split_commas(s: &str) -> (r: Vec<String>)
    ensures
        texts_view(r@) == comma_fields(s@),
{
    let n = s.unicode_len();
    let mut done: Vec<String> = Vec::new();
    let mut cur = String::new();
    let mut i: usize = 0;
    while i < n
        invariant
            n == s@.len(),
            i <= n,
            texts_view(done@).push(cur@) == comma_fields(s@.take(i as int)),
        decreases n - i,
    {
        let c = s.get_char(i);
        let ghost prev = s@.take(i as int);
        assert(s@.take(i + 1).drop_last() =~= prev);
        assert(s@.take(i + 1).last() == c);
        proof {
            lemma_comma_fields_nonempty(prev);
        }
        if c == ',' {
            let ghost old_done = done@;
            let piece = cur;
            done.push(piece);
            cur = String::new();
            assert(texts_view(done@) =~= texts_view(old_done).push(piece@));
            assert(texts_view(done@).push(cur@) =~= comma_fields(prev).push(Seq::empty()));
        } else {
            let ghost old_cur = cur@;
            push_char(&mut cur, c);
            assert(texts_view(done@).push(cur@) =~= comma_fields(prev).update(
                comma_fields(prev).len() - 1,
                comma_fields(prev).last().push(c),
            ));
        }
        i = i + 1;
    }
    assert(s@.take(n as int) =~= s@);
    let ghost old_done = done@;
    done.push(cur);
    assert(texts_view(done@) =~= texts_view(old_done).push(cur@));
    done
}

/// A sanitised text holds no newline, carriage return or tab.
pub proof fn lemma_sanitized_has_no_controls(s: Seq<char>)
    ensures
        forall|i: int| 0 <= i < strip_controls(s).len() ==> !is_control(#[trigger] strip_controls(s)[i]),
    decreases s.len(),
{
    if s.len() > 0 {
        let rest = strip_controls(s.drop_last());
        lemma_sanitized_has_no_controls(s.drop_last());
        if !is_control(s.last()) {
            assert forall|i: int| 0 <= i < rest.push(s.last()).len() implies !is_control(
                #[trigger] rest.push(s.last())[i],
            ) by {
                if i < rest.len() {
                    assert(rest.push(s.last())[i] == rest[i]);
                }
            }
        }
    }
}

/// Text without controls is left as it is.
pub proof fn lemma_strip_keeps_clean(s: Seq<char>)
    requires
        forall|i: int| 0 <= i < s.len() ==> !is_control(#[trigger] s[i]),
    ensures
        strip_controls(s) == s,
    decreases s.len(),
{
    if s.len() > 0 {
        assert forall|i: int| 0 <= i < s.drop_last().len() implies !is_control(
            #[trigger] s.drop_last()[i],
        ) by {
            assert(s.drop_last()[i] == s[i]);
        }
        lemma_strip_keeps_clean(s.drop_last());
        assert(s.drop_last().push(s.last()) =~= s);
    }
}

/// Sanitising twice gives what sanitising once gives.
pub proof fn lemma_sanitize_idempotent(s: Seq<char>)
    ensures
        strip_controls(strip_controls(s)) == strip_controls(s),
{
    lemma_sanitized_has_no_controls(s);
    lemma_strip_keeps_clean(strip_controls(s));
}

} // verus!
