//! The text keys under which tasks and submissions are stored.
use vstd::prelude::*;

verus! {

/// The character that stands for a digit below ten.
pub open spec fn digit_char(d: nat) -> char
    recommends
        d < 10,
{
    (48 + d) as u8 as char
}

/// A number in decimal, without sign, padding or leading zeros.
pub open spec fn decimal_text(n: nat) -> Seq<char>
    decreases n,
{
    if n < 10 {
        seq![digit_char(n)]
    } else {
        decimal_text(n / 10).push(digit_char(n % 10))
    }
}

/// The key of a task: story id and task id in decimal, with a comma between.
pub open spec fn task_key_text(story_id: u64, task_id: u64) -> Seq<char> {
    decimal_text(story_id as nat) + seq![','] + decimal_text(task_id as nat)
}

/// The key of a submission: the key of its task, a comma, and the submission
/// id in decimal.
pub open spec fn submit_key_text(story_id: u64, task_id: u64, submit_id: u64) -> Seq<char> {
    task_key_text(story_id, task_id) + seq![','] + decimal_text(submit_id as nat)
}

/// No character of the text is a comma.
pub open spec fn comma_free(s: Seq<char>) -> bool {
    forall|i: int| 0 <= i < s.len() ==> s[i] != ','
}

/// The number that a digit stands for.
pub open spec fn digit_value(c: char) -> nat {
    (c as u32 - 48) as nat
}

/// The number that a decimal text stands for.
pub open spec fn decimal_value(s: Seq<char>) -> nat
    decreases s.len(),
{
    if s.len() == 0 {
        0
    } else {
        decimal_value(s.drop_last()) * 10 + digit_value(s.last())
    }
}

/// A number's decimal text holds no comma, and reads back as the number.
pub proof fn lemma_decimal_text(n: nat)
    ensures
        comma_free(decimal_text(n)),
        decimal_text(n).len() >= 1,
        decimal_value(decimal_text(n)) == n,
    decreases n,
{
    if n < 10 {
        assert(decimal_text(n).drop_last() =~= Seq::<char>::empty());
        assert(decimal_value(decimal_text(n).drop_last()) == 0);
        assert(digit_value(digit_char(n)) == n);
    } else {
        lemma_decimal_text(n / 10);
        assert(decimal_text(n).drop_last() =~= decimal_text(n / 10));
        assert(digit_value(digit_char(n % 10)) == n % 10);
    }
}

/// Two texts that agree up to and beyond their first comma agree before it
/// and after it.
proof fn lemma_split_at_comma(a: Seq<char>, x: Seq<char>, b: Seq<char>, y: Seq<char>)
    requires
        comma_free(a),
        comma_free(b),
        a + seq![','] + x == b + seq![','] + y,
    ensures
        a == b,
        x == y,
{
    let l = a + seq![','] + x;
    let r = b + seq![','] + y;
    assert(l[a.len() as int] == ',');
    assert(r[b.len() as int] == ',');
    if a.len() < b.len() {
        assert(r[a.len() as int] == b[a.len() as int]);
    }
    if b.len() < a.len() {
        assert(l[b.len() as int] == a[b.len() as int]);
    }
    assert(a =~= l.subrange(0, a.len() as int));
    assert(b =~= r.subrange(0, b.len() as int));
    assert(x =~= l.subrange(a.len() as int + 1, l.len() as int));
    assert(y =~= r.subrange(b.len() as int + 1, r.len() as int));
}

/// Task keys do not collide: two of them are the same text only for the same
/// story id and task id.
pub proof fn lemma_task_keys_differ(s1: u64, t1: u64, s2: u64, t2: u64)
    ensures
        task_key_text(s1, t1) == task_key_text(s2, t2) <==> s1 == s2 && t1 == t2,
{
    lemma_decimal_text(s1 as nat);
    lemma_decimal_text(s2 as nat);
    lemma_decimal_text(t1 as nat);
    lemma_decimal_text(t2 as nat);
    if task_key_text(s1, t1) == task_key_text(s2, t2) {
        lemma_split_at_comma(
            decimal_text(s1 as nat),
            decimal_text(t1 as nat),
            decimal_text(s2 as nat),
            decimal_text(t2 as nat),
        );
    }
}

/// Submission keys do not collide: two of them are the same text only for the
/// same story id, task id and submission id.
pub proof fn lemma_submit_keys_differ(s1: u64, t1: u64, u1: u64, s2: u64, t2: u64, u2: u64)
    ensures
        submit_key_text(s1, t1, u1) == submit_key_text(s2, t2, u2) <==> s1 == s2 && t1 == t2
            && u1 == u2,
{
    lemma_decimal_text(s1 as nat);
    lemma_decimal_text(s2 as nat);
    lemma_decimal_text(t1 as nat);
    lemma_decimal_text(t2 as nat);
    lemma_decimal_text(u1 as nat);
    lemma_decimal_text(u2 as nat);
    if submit_key_text(s1, t1, u1) == submit_key_text(s2, t2, u2) {
        let x1 = decimal_text(t1 as nat) + seq![','] + decimal_text(u1 as nat);
        let x2 = decimal_text(t2 as nat) + seq![','] + decimal_text(u2 as nat);
        assert(submit_key_text(s1, t1, u1) =~= decimal_text(s1 as nat) + seq![','] + x1);
        assert(submit_key_text(s2, t2, u2) =~= decimal_text(s2 as nat) + seq![','] + x2);
        lemma_split_at_comma(decimal_text(s1 as nat), x1, decimal_text(s2 as nat), x2);
        lemma_split_at_comma(
            decimal_text(t1 as nat),
            decimal_text(u1 as nat),
            decimal_text(t2 as nat),
            decimal_text(u2 as nat),
        );
    }
}

/// No task key is a submission key.
pub proof fn lemma_task_key_is_no_submit_key(s1: u64, t1: u64, s2: u64, t2: u64, u2: u64)
    ensures
        task_key_text(s1, t1) != submit_key_text(s2, t2, u2),
{
    lemma_decimal_text(s1 as nat);
    lemma_decimal_text(s2 as nat);
    lemma_decimal_text(t1 as nat);
    lemma_decimal_text(t2 as nat);
    if task_key_text(s1, t1) == submit_key_text(s2, t2, u2) {
        let x2 = decimal_text(t2 as nat) + seq![','] + decimal_text(u2 as nat);
        assert(submit_key_text(s2, t2, u2) =~= decimal_text(s2 as nat) + seq![','] + x2);
        lemma_split_at_comma(
            decimal_text(s1 as nat),
            decimal_text(t1 as nat),
            decimal_text(s2 as nat),
            x2,
        );
        assert(x2[decimal_text(t2 as nat).len() as int] == ',');
    }
}

/// `String::from_iter` over the characters of a vector: the string made of
/// those characters, in order.
#[verifier::external_body]
fn text_of_chars(chars: &Vec<char>) -> (text: String)
    ensures
        text@ == chars@,
{
    String::from_iter(chars.iter())
}

/// Appends the decimal text of `n` to `out`.
fn push_decimal(out: &mut Vec<char>, n: u64)
    ensures
        final(out)@ == old(out)@ + decimal_text(n as nat),
    decreases n,
{
    if n >= 10 {
        push_decimal(out, n / 10);
    }
    let d: u8 = (n % 10) as u8;
    out.push((48 + d) as char);
    proof {
        if n >= 10 {
            assert(final(out)@ =~= old(out)@ + decimal_text(n as nat / 10).push(
                digit_char(n as nat % 10),
            ));
        } else {
            assert(final(out)@ =~= old(out)@ + seq![digit_char(n as nat)]);
        }
    }
}

/// Builds the keys that address tasks and submissions.
pub struct Processing;

impl Processing {
    /// The key of task `task_id` of story `story_id`.
    pub fn make_task_key(story_id: u64, task_id: u64) -> (key: String)
        ensures
            key@ == task_key_text(story_id, task_id),
    {
        let mut chars: Vec<char> = Vec::new();
        push_decimal(&mut chars, story_id);
        chars.push(',');
        push_decimal(&mut chars, task_id);
        proof {
            assert(chars@ =~= task_key_text(story_id, task_id));
        }
        text_of_chars(&chars)
    }

    /// The key of submission `submit_id` to task `task_id` of story `story_id`.
    pub fn make_submit_key(story_id: u64, task_id: u64, submit_id: u64) -> (key: String)
        ensures
            key@ == submit_key_text(story_id, task_id, submit_id),
    {
        let mut chars: Vec<char> = Vec::new();
        push_decimal(&mut chars, story_id);
        chars.push(',');
        push_decimal(&mut chars, task_id);
        chars.push(',');
        push_decimal(&mut chars, submit_id);
        proof {
            assert(chars@ =~= submit_key_text(story_id, task_id, submit_id));
        }
        text_of_chars(&chars)
    }
}

} // verus!
