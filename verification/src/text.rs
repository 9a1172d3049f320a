//! Literal search and replacement in text, on sequences of characters.

use vstd::prelude::*;
use vstd::string::*;

verus! {

/// `token` stands in `text` at position `at`.
pub open spec fn occurs_at(text: Seq<char>, token: Seq<char>, at: int) -> bool {
    &&& 0 <= at
    &&& at + token.len() <= text.len()
    &&& text.subrange(at, at + token.len()) == token
}

/// `token` stands somewhere in `text`.
pub open spec fn occurs(text: Seq<char>, token: Seq<char>) -> bool {
    exists|at: int| occurs_at(text, token, at)
}

/// `token` stands in `text` at position `at` and nowhere else.
pub open spec fn occurs_once_at(text: Seq<char>, token: Seq<char>, at: int) -> bool {
    &&& occurs_at(text, token, at)
    &&& forall|other: int| occurs_at(text, token, other) ==> other == at
}

/// `text` with every occurrence of `token` replaced by `with`, reading from
/// the left: where the token stands, `with` takes its place and the reading
/// goes on behind the token; elsewhere one character is kept. An empty token
/// stands for nothing and leaves the text as it is.
pub open spec fn replaced(text: Seq<char>, token: Seq<char>, with: Seq<char>) -> Seq<char>
    decreases text.len(),
{
    if token.len() == 0 || text.len() == 0 {
        text
    } else if occurs_at(text, token, 0) {
        with + replaced(text.skip(token.len() as int), token, with)
    } else {
        seq![text[0]] + replaced(text.skip(1), token, with)
    }
}

/// The characters of `text`, in order.
pub fn chars_of(text: &str) -> (chars: Vec<char>)
    ensures
        chars@ == text@,
{
    let mut chars: Vec<char> = Vec::new();
    for c in it: text.chars()
        invariant
            it.seq() == text@,
            chars@ == it.seq().take(it.index()),
    {
        chars.push(c);
    }
    chars
}

/// Tells whether `token` stands in `text` at position `at`.
pub fn stands_at(text: &Vec<char>, token: &Vec<char>, at: usize) -> (found: bool)
    ensures
        found == occurs_at(text@, token@, at as int),
{
    let m: usize = token.len();
    if at > text.len() || m > text.len() - at {
        return false;
    }
    let mut k: usize = 0;
    while k < m
        invariant
            k <= m,
            m == token.len(),
            at + m <= text.len(),
            forall|j: int| 0 <= j < k ==> text@[at + j] == token@[j],
        decreases m - k,
    {
        if text[at + k] != token[k] {
            assert(text@.subrange(at as int, at + m)[k as int] != token@[k as int]);
            return false;
        }
        k += 1;
    }
    assert(text@.subrange(at as int, at + m) =~= token@);
    true
}

/// Reading on from position `at`: one step of `replaced` on the rest of the
/// text, where the token stands there and where it does not.
pub proof fn lemma_replaced_step(text: Seq<char>, token: Seq<char>, with: Seq<char>, at: int)
    requires
        token.len() > 0,
        0 <= at < text.len(),
    ensures
        occurs_at(text, token, at) ==> replaced(text.skip(at), token, with) == with + replaced(
            text.skip(at + token.len()),
            token,
            with,
        ),
        !occurs_at(text, token, at) ==> replaced(text.skip(at), token, with) == seq![text[at]]
            + replaced(text.skip(at + 1), token, with),
{
    let rest = text.skip(at);
    assert(rest.len() > 0);
    assert(rest[0] == text[at]);
    assert(rest.skip(1) =~= text.skip(at + 1));
    if at + token.len() <= text.len() {
        assert(rest.subrange(0, token.len() as int) =~= text.subrange(at, at + token.len()));
        assert(rest.skip(token.len() as int) =~= text.skip(at + token.len()));
    }
    assert(occurs_at(rest, token, 0) == occurs_at(text, token, at));
}

/// The token's last character stands nowhere else in it. Two occurrences of
/// such a token in one text never overlap.
pub open spec fn ends_uniquely(token: Seq<char>) -> bool {
    &&& token.len() > 0
    &&& forall|k: int| 0 <= k < token.len() - 1 ==> #[trigger] token[k] != token.last()
}

/// An occurrence in the second of two joined texts is one in the whole, moved
/// by the length of the first, and the other way round.
pub proof fn lemma_occurs_at_behind(head: Seq<char>, tail: Seq<char>, token: Seq<char>, at: int)
    requires
        0 <= at,
    ensures
        occurs_at(tail, token, at) == occurs_at(head + tail, token, head.len() + at),
{
    let whole = head + tail;
    if at + token.len() <= tail.len() {
        assert(whole.subrange(head.len() + at, head.len() + at + token.len()) =~= tail.subrange(
            at,
            at + token.len(),
        ));
    }
}

/// An occurrence that ends inside the first of two joined texts is one in the
/// whole, at the same place, and the other way round.
pub proof fn lemma_occurs_at_within(head: Seq<char>, tail: Seq<char>, token: Seq<char>, at: int)
    requires
        at + token.len() <= head.len(),
    ensures
        occurs_at(head, token, at) == occurs_at(head + tail, token, at),
{
    let whole = head + tail;
    if 0 <= at {
        assert(whole.subrange(at, at + token.len()) =~= head.subrange(at, at + token.len()));
    }
}

/// Two occurrences of a token whose last character is unique in it lie apart.
pub proof fn lemma_occurrences_apart(text: Seq<char>, token: Seq<char>, first: int, second: int)
    requires
        ends_uniquely(token),
        occurs_at(text, token, first),
        occurs_at(text, token, second),
        first < second,
    ensures
        first + token.len() <= second,
{
    if second < first + token.len() {
        let last = token.len() - 1;
        let at = first + last;
        assert(text.subrange(first, first + token.len())[last] == text[at]);
        assert(text.subrange(second, second + token.len())[at - second] == text[at]);
        assert(token[at - second] == token[last]);
    }
}

/// Occurrences of two tokens that end in the same character, unique in
/// each, overlap only where they end at the same place.
pub proof fn lemma_overlap_ends_together(
    text: Seq<char>,
    one: Seq<char>,
    at_one: int,
    other: Seq<char>,
    at_other: int,
)
    requires
        ends_uniquely(one),
        ends_uniquely(other),
        one.last() == other.last(),
        occurs_at(text, one, at_one),
        occurs_at(text, other, at_other),
        at_one < at_other + other.len(),
        at_other < at_one + one.len(),
    ensures
        at_one + one.len() == at_other + other.len(),
{
    let end_one = at_one + one.len() - 1;
    let end_other = at_other + other.len() - 1;
    assert(text.subrange(at_one, at_one + one.len())[one.len() - 1] == text[end_one]);
    assert(text.subrange(at_other, at_other + other.len())[other.len() - 1] == text[end_other]);
    if end_one < end_other {
        assert(text.subrange(at_other, at_other + other.len())[end_one - at_other]
            == text[end_one]);
        assert(other[end_one - at_other] == other.last());
    } else if end_other < end_one {
        assert(text.subrange(at_one, at_one + one.len())[end_other - at_one] == text[end_other]);
        assert(one[end_other - at_one] == one.last());
    }
}

/// A text in which the token stands nowhere is left as it is.
pub proof fn lemma_replaced_absent(text: Seq<char>, token: Seq<char>, with: Seq<char>)
    requires
        !occurs(text, token),
    ensures
        replaced(text, token, with) == text,
    decreases text.len(),
{
    if token.len() > 0 && text.len() > 0 {
        assert(!occurs_at(text, token, 0));
        let rest = text.skip(1);
        assert forall|at: int| !occurs_at(rest, token, at) by {
            if 0 <= at {
                lemma_occurs_at_behind(text.take(1), rest, token, at);
                assert(text.take(1) + rest =~= text);
                assert(!occurs_at(text, token, 1 + at));
            }
        }
        lemma_replaced_absent(rest, token, with);
        assert(seq![text[0]] + rest =~= text);
    }
}

/// Where the token stands in a text at one place only, replacing it puts
/// `with` there and leaves what is before and behind as it is.
pub proof fn lemma_replaced_once(
    head: Seq<char>,
    token: Seq<char>,
    tail: Seq<char>,
    with: Seq<char>,
)
    requires
        token.len() > 0,
        forall|at: int| occurs_at(head + token + tail, token, at) ==> at == head.len(),
    ensures
        replaced(head + token + tail, token, with) == head + with + tail,
    decreases head.len(),
{
    let text = head + token + tail;
    assert(text.subrange(head.len() as int, (head.len() + token.len()) as int) =~= token);
    assert(occurs_at(text, token, head.len() as int));
    if head.len() == 0 {
        assert(text.skip(token.len() as int) =~= tail);
        assert forall|at: int| !occurs_at(tail, token, at) by {
            if 0 <= at {
                lemma_occurs_at_behind(head + token, tail, token, at);
                assert(!occurs_at(text, token, token.len() + at));
            }
        }
        lemma_replaced_absent(tail, token, with);
        assert(with + tail =~= head + with + tail);
    } else {
        assert(!occurs_at(text, token, 0));
        let shorter = head.skip(1);
        assert(text.skip(1) =~= shorter + token + tail);
        assert forall|at: int| occurs_at(shorter + token + tail, token, at) implies at
            == shorter.len() by {
            lemma_occurs_at_behind(text.take(1), text.skip(1), token, at);
            assert(text.take(1) + text.skip(1) =~= text);
            assert(occurs_at(text, token, 1 + at));
        }
        lemma_replaced_once(shorter, token, tail, with);
        assert(seq![text[0]] + (shorter + with + tail) =~= head + with + tail);
    }
}

/// Where the text that comes out holds the token nowhere, the token stood in
/// the text that went in at the one place only, and replacing it puts `with`
/// there: nothing else changes.
pub proof fn lemma_replaced_sole(
    head: Seq<char>,
    token: Seq<char>,
    tail: Seq<char>,
    with: Seq<char>,
)
    requires
        ends_uniquely(token),
        !occurs(head + with + tail, token),
    ensures
        forall|at: int| occurs_at(head + token + tail, token, at) ==> at == head.len(),
        replaced(head + token + tail, token, with) == head + with + tail,
{
    let text = head + token + tail;
    let out = head + with + tail;
    assert(text.subrange(head.len() as int, (head.len() + token.len()) as int) =~= token);
    assert forall|at: int| occurs_at(text, token, at) implies at == head.len() by {
        if at < head.len() {
            lemma_occurrences_apart(text, token, at, head.len() as int);
            assert(text =~= head + (token + tail));
            lemma_occurs_at_within(head, token + tail, token, at);
            assert(out =~= head + (with + tail));
            lemma_occurs_at_within(head, with + tail, token, at);
            assert(occurs_at(out, token, at));
        } else if at > head.len() {
            lemma_occurrences_apart(text, token, head.len() as int, at);
            let inner = at - head.len() - token.len();
            lemma_occurs_at_behind(head + token, tail, token, inner);
            lemma_occurs_at_behind(head + with, tail, token, inner);
            assert(occurs_at(out, token, head.len() + with.len() + inner));
        }
    }
    lemma_replaced_once(head, token, tail, with);
}

/// Returns `text` with every occurrence of `token` replaced by `with`. An
/// empty token stands nowhere: the text comes back as it is.
///
/// The text is read once, with one comparison of the token at each place;
/// each occurrence found costs one more pass over the text before it.
pub fn substitute(text: &str, token: &str, with: &str) -> (result: String)
    ensures
        result@ == replaced(text@, token@, with@),
{
    let hay = chars_of(text);
    let needle = chars_of(token);
    let n: usize = hay.len();
    let m: usize = needle.len();
    if m == 0 {
        return text.to_owned();
    }
    let mut result = String::new();
    let mut kept: usize = 0;
    let mut at: usize = 0;
    assert(hay@.skip(0) =~= hay@);
    assert(result@ + hay@.subrange(0, 0) =~= Seq::<char>::empty());
    assert(Seq::<char>::empty() + replaced(hay@, needle@, with@) =~= replaced(
        hay@,
        needle@,
        with@,
    ));
    while at < n
        invariant
            hay@ == text@,
            needle@ == token@,
            n == hay.len(),
            m == needle.len(),
            m > 0,
            kept <= at <= n,
            result@ + hay@.subrange(kept as int, at as int) + replaced(
                hay@.skip(at as int),
                needle@,
                with@,
            ) == replaced(hay@, needle@, with@),
        decreases n - at,
    {
        let ghost before = result@;
        let ghost pending = hay@.subrange(kept as int, at as int);
        let ghost rest = replaced(hay@.skip(at as int), needle@, with@);
        proof {
            lemma_replaced_step(hay@, needle@, with@, at as int);
        }
        if stands_at(&hay, &needle, at) {
            result.append(text.substring_char(kept, at));
            result.append(with);
            at += m;
            kept = at;
            proof {
                let tail = replaced(hay@.skip(at as int), needle@, with@);
                assert(rest == with@ + tail);
                assert(hay@.subrange(kept as int, at as int) =~= Seq::<char>::empty());
                assert(result@ + hay@.subrange(kept as int, at as int) + tail =~= before + pending
                    + rest);
            }
        } else {
            at += 1;
            proof {
                let tail = replaced(hay@.skip(at as int), needle@, with@);
                assert(rest == seq![hay@[at - 1]] + tail);
                assert(hay@.subrange(kept as int, at as int) =~= pending + seq![hay@[at - 1]]);
                assert(result@ + hay@.subrange(kept as int, at as int) + tail =~= before + pending
                    + rest);
            }
        }
    }
    assert(hay@.skip(n as int) =~= Seq::<char>::empty());
    assert(replaced(hay@.skip(n as int), needle@, with@) =~= Seq::<char>::empty());
    assert(result@ + hay@.subrange(kept as int, n as int) =~= replaced(hay@, needle@, with@));
    result.append(text.substring_char(kept, n));
    result
}

} // verus!
