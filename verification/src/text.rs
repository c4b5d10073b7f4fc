//! Text primitives: whitespace trimming, decimal digits and escaping of
//! characters that the alert markup reserves.

use vstd::prelude::*;

verus! {

/// `String::push` of std, taken on trust: it appends `ch` at the end of `s`
/// and changes nothing else.
pub assume_specification[ String::push ](s: &mut String, ch: char)
    ensures
        final(s)@ == old(s)@.push(ch),
;

/// `==` on `str` of std, taken on trust: two string slices are equal exactly
/// when they hold the same characters in the same order.
pub assume_specification[ <str as PartialEq>::eq ](a: &str, b: &str) -> (same: bool)
    ensures
        same == (a@ == b@),
;

/// Whether `c` has the Unicode property White_Space.
pub open spec fn is_whitespace(c: char) -> bool {
    let u = c as u32;
    ||| 0x09 <= u <= 0x0D
    ||| u == 0x20
    ||| u == 0x85
    ||| u == 0xA0
    ||| u == 0x1680
    ||| 0x2000 <= u <= 0x200A
    ||| u == 0x2028
    ||| u == 0x2029
    ||| u == 0x202F
    ||| u == 0x205F
    ||| u == 0x3000
}

/// Whether `c` has the Unicode property White_Space.
pub fn whitespace(c: char) -> (b: bool)
    ensures
        b == is_whitespace(c),
{
    let u: u32 = c as u32;
    (0x09 <= u && u <= 0x0D) || u == 0x20 || u == 0x85 || u == 0xA0 || u == 0x1680 || (0x2000 <= u
        && u <= 0x200A) || u == 0x2028 || u == 0x2029 || u == 0x202F || u == 0x205F || u == 0x3000
}

/// Number of whitespace characters at the front of `s`.
pub open spec fn leading_whitespace(s: Seq<char>) -> nat
    decreases s.len(),
{
    if s.len() > 0 && is_whitespace(s[0]) {
        1 + leading_whitespace(s.drop_first())
    } else {
        0
    }
}

/// Number of whitespace characters at the back of `s`.
pub open spec fn trailing_whitespace(s: Seq<char>) -> nat
    decreases s.len(),
{
    if s.len() > 0 && is_whitespace(s.last()) {
        1 + trailing_whitespace(s.drop_last())
    } else {
        0
    }
}

/// `s` without the whitespace at its front and at its back.
pub open spec fn trimmed(s: Seq<char>) -> Seq<char> {
    let rest = s.skip(leading_whitespace(s) as int);
    rest.take(rest.len() - trailing_whitespace(rest))
}

/// The front run of whitespace ends at `n` when everything before `n` is
/// whitespace and the character at `n`, if there is one, is not.
pub proof fn lemma_leading_whitespace(s: Seq<char>, n: int)
    requires
        0 <= n <= s.len(),
        forall|k: int| 0 <= k < n ==> is_whitespace(#[trigger] s[k]),
        n < s.len() ==> !is_whitespace(s[n]),
    ensures
        leading_whitespace(s) == n,
    decreases n,
{
    if n > 0 {
        let rest = s.drop_first();
        assert forall|k: int| 0 <= k < n - 1 implies is_whitespace(#[trigger] rest[k]) by {
            assert(rest[k] == s[k + 1]);
        }
        lemma_leading_whitespace(rest, n - 1);
    }
}

/// The back run of whitespace starts at `n` when everything from `n` on is
/// whitespace and the character before `n`, if there is one, is not.
pub proof fn lemma_trailing_whitespace(s: Seq<char>, n: int)
    requires
        0 <= n <= s.len(),
        forall|k: int| n <= k < s.len() ==> is_whitespace(#[trigger] s[k]),
        n > 0 ==> !is_whitespace(s[n - 1]),
    ensures
        trailing_whitespace(s) == s.len() - n,
    decreases s.len() - n,
{
    if n < s.len() {
        let rest = s.drop_last();
        assert forall|k: int| n <= k < rest.len() implies is_whitespace(#[trigger] rest[k]) by {
            assert(rest[k] == s[k]);
        }
        lemma_trailing_whitespace(rest, n);
    }
}

/// The front run of whitespace is whitespace, stays within `s`, and ends
/// before a character that is none.
pub proof fn lemma_leading_whitespace_ends(s: Seq<char>)
    ensures
        leading_whitespace(s) <= s.len(),
        forall|k: int| 0 <= k < leading_whitespace(s) ==> is_whitespace(#[trigger] s[k]),
        leading_whitespace(s) < s.len() ==> !is_whitespace(s[leading_whitespace(s) as int]),
    decreases s.len(),
{
    if s.len() > 0 && is_whitespace(s[0]) {
        let rest = s.drop_first();
        lemma_leading_whitespace_ends(rest);
        assert forall|k: int| 0 <= k < leading_whitespace(s) implies is_whitespace(
            #[trigger] s[k],
        ) by {
            if k > 0 {
                assert(s[k] == rest[k - 1]);
            }
        }
        if leading_whitespace(s) < s.len() {
            assert(s[leading_whitespace(s) as int] == rest[leading_whitespace(rest) as int]);
        }
    }
}

/// The back run of whitespace is whitespace, stays within `s`, and starts
/// behind a character that is none.
pub proof fn lemma_trailing_whitespace_starts(s: Seq<char>)
    ensures
        trailing_whitespace(s) <= s.len(),
        forall|k: int|
            s.len() - trailing_whitespace(s) <= k < s.len() ==> is_whitespace(#[trigger] s[k]),
        trailing_whitespace(s) < s.len() ==> !is_whitespace(
            s[s.len() - trailing_whitespace(s) - 1],
        ),
    decreases s.len(),
{
    if s.len() > 0 && is_whitespace(s.last()) {
        let rest = s.drop_last();
        lemma_trailing_whitespace_starts(rest);
        assert forall|k: int| s.len() - trailing_whitespace(s) <= k < s.len() implies is_whitespace(
            #[trigger] s[k],
        ) by {
            if k < s.len() - 1 {
                assert(s[k] == rest[k]);
            }
        }
        if trailing_whitespace(s) < s.len() {
            assert(s[s.len() - trailing_whitespace(s) - 1] == rest[rest.len() - trailing_whitespace(
                rest,
            ) - 1]);
        }
    }
}

/// What trimming leaves: a stretch of `s` with nothing but whitespace before
/// it and behind it, which is empty or starts and ends with a character that
/// is no whitespace.
pub proof fn lemma_trimmed_is_the_middle(s: Seq<char>)
    ensures
        ({
            let front = leading_whitespace(s) as int;
            let back = front + trimmed(s).len();
            &&& 0 <= front <= back <= s.len()
            &&& trimmed(s) == s.subrange(front, back)
            &&& forall|k: int| 0 <= k < front ==> is_whitespace(#[trigger] s[k])
            &&& forall|k: int| back <= k < s.len() ==> is_whitespace(#[trigger] s[k])
            &&& trimmed(s).len() > 0 ==> !is_whitespace(trimmed(s).first()) && !is_whitespace(
                trimmed(s).last(),
            )
        }),
{
    lemma_leading_whitespace_ends(s);
    let front = leading_whitespace(s) as int;
    let rest = s.skip(front);
    lemma_trailing_whitespace_starts(rest);
    let back = front + trimmed(s).len();
    assert(trimmed(s) == s.subrange(front, back));
    assert forall|k: int| back <= k < s.len() implies is_whitespace(#[trigger] s[k]) by {
        assert(s[k] == rest[k - front]);
    }
    if trimmed(s).len() > 0 {
        assert(trimmed(s).first() == s[front]);
        assert(trimmed(s).last() == rest[rest.len() - trailing_whitespace(rest) - 1]);
    }
}

/// Whether `s` holds nothing but whitespace.
pub open spec fn all_whitespace(s: Seq<char>) -> bool {
    forall|k: int| 0 <= k < s.len() ==> is_whitespace(#[trigger] s[k])
}

/// Whether `s` is tight: not empty, and neither its first nor its last
/// character is whitespace.
pub open spec fn is_tight(s: Seq<char>) -> bool {
    s.len() > 0 && !is_whitespace(s.first()) && !is_whitespace(s.last())
}

/// Trimming removes the whitespace around a tight text, and nothing of the
/// text itself.
pub proof fn lemma_trimmed_of_padded_text(front: Seq<char>, tight: Seq<char>, back: Seq<char>)
    requires
        all_whitespace(front),
        is_tight(tight),
        all_whitespace(back),
    ensures
        trimmed(front + tight + back) == tight,
{
    let s = front + tight + back;
    assert(s[front.len() as int] == tight.first());
    lemma_leading_whitespace(s, front.len() as int);
    let rest = s.skip(front.len() as int);
    assert(rest == tight + back);
    assert(rest[tight.len() - 1] == tight.last());
    lemma_trailing_whitespace(rest, tight.len() as int);
    assert(rest.take(tight.len() as int) == tight);
}

/// What trims to a tight text is that text with nothing but whitespace
/// before it and behind it.
pub proof fn lemma_trimmed_to_tight_text(s: Seq<char>, tight: Seq<char>)
    requires
        is_tight(tight),
    ensures
        trimmed(s) == tight <==> exists|front: Seq<char>, back: Seq<char>|
            #![trigger front + tight + back]
            all_whitespace(front) && all_whitespace(back) && s == front + tight + back,
{
    if trimmed(s) == tight {
        lemma_trimmed_is_the_middle(s);
        let at = leading_whitespace(s) as int;
        let front = s.take(at);
        let back = s.skip(at + tight.len());
        assert(all_whitespace(front));
        assert(all_whitespace(back)) by {
            assert forall|k: int| 0 <= k < back.len() implies is_whitespace(#[trigger] back[k]) by {
                assert(back[k] == s[at + tight.len() + k]);
            }
        }
        assert(s == front + tight + back);
    }
    if exists|front: Seq<char>, back: Seq<char>|
        #![trigger front + tight + back]
        all_whitespace(front) && all_whitespace(back) && s == front + tight + back {
        let (front, back) = choose|front: Seq<char>, back: Seq<char>|
            #![trigger front + tight + back]
            all_whitespace(front) && all_whitespace(back) && s == front + tight + back;
        lemma_trimmed_of_padded_text(front, tight, back);
    }
}

/// `s` without the whitespace at its front and at its back, as a slice of `s`.
pub fn trim(s: &str) -> (t: &str)
    ensures
        t@ == trimmed(s@),
{
    let len: usize = s.unicode_len();
    let mut start: usize = 0;
    let mut end: usize = 0;
    let mut i: usize = 0;
    let mut seen: bool = false;
    for c in it: s.chars()
        invariant
            it.seq() == s@,
            i == it.index(),
            len == s@.len(),
            !seen ==> start == i && end == i,
            forall|k: int| 0 <= k < start ==> is_whitespace(#[trigger] s@[k]),
            seen ==> start < end <= i && !is_whitespace(s@[start as int]) && !is_whitespace(
                s@[end - 1],
            ),
            forall|k: int| end <= k < i ==> is_whitespace(#[trigger] s@[k]),
    {
        assert(c == s@[i as int]);
        if !whitespace(c) {
            if !seen {
                start = i;
                seen = true;
            }
            end = i + 1;
        } else if !seen {
            start = i + 1;
            end = i + 1;
        }
        i = i + 1;
    }
    proof {
        lemma_leading_whitespace(s@, start as int);
        let rest = s@.skip(start as int);
        assert forall|k: int| end - start <= k < rest.len() implies is_whitespace(
            #[trigger] rest[k],
        ) by {
            assert(rest[k] == s@[k + start]);
        }
        if seen {
            assert(rest[end - start - 1] == s@[end - 1]);
        }
        lemma_trailing_whitespace(rest, end - start);
        assert(rest.take(end - start) == s@.subrange(start as int, end as int));
    }
    s.substring_char(start, end)
}

/// Whether the alert markup reserves `c`, so that it has to be escaped.
pub open spec fn is_reserved(c: char) -> bool {
    c == '-' || c == '.' || c == '_'
}

/// `c` as it stands in an alert: behind a backslash where it is reserved.
pub open spec fn escaped_char(c: char) -> Seq<char> {
    if is_reserved(c) {
        seq!['\\', c]
    } else {
        seq![c]
    }
}

/// `s` with each of its characters escaped, in order.
pub open spec fn escaped(s: Seq<char>) -> Seq<char>
    decreases s.len(),
{
    if s.len() == 0 {
        Seq::empty()
    } else {
        escaped(s.drop_last()) + escaped_char(s.last())
    }
}

/// Appends `s` to `out`, each character escaped.
pub fn push_escaped(out: &mut String, s: &str)
    ensures
        final(out)@ == old(out)@ + escaped(s@),
{
    let ghost before = out@;
    for c in it: s.chars()
        invariant
            it.seq() == s@,
            out@ == before + escaped(s@.take(it.index())),
    {
        proof {
            let upto = s@.take(it.index() + 1);
            assert(upto.drop_last() == s@.take(it.index()));
            assert(upto.last() == c);
        }
        if c == '-' || c == '.' || c == '_' {
            out.push('\\');
        }
        out.push(c);
    }
    proof {
        assert(s@.take(s@.len() as int) == s@);
    }
}

/// The character of the decimal digit `d`.
pub open spec fn digit_char(d: int) -> char
    recommends
        0 <= d <= 9,
{
    (d + 48) as u8 as char
}

/// `n` in decimal, without leading zeros.
pub open spec fn decimal(n: nat) -> Seq<char>
    decreases n,
{
    if n < 10 {
        seq![digit_char(n as int)]
    } else {
        decimal(n / 10).push(digit_char((n % 10) as int))
    }
}

/// `n` in decimal, without leading zeros.
pub fn to_decimal(n: u32) -> (text: String)
    ensures
        text@ == decimal(n as nat),
{
    let mut low_first: Vec<char> = Vec::new();
    let mut rest: u32 = n;
    while rest >= 10
        invariant
            decimal(n as nat) == decimal(rest as nat) + low_first@.reverse(),
        decreases rest,
    {
        let d: u8 = (rest % 10) as u8;
        let ghost prior = low_first@;
        low_first.push((d + 48) as char);
        proof {
            assert(low_first@.reverse() == seq![digit_char(d as int)] + prior.reverse());
            assert(decimal(rest as nat) == decimal((rest / 10) as nat) + seq![
                digit_char(d as int),
            ]);
        }
        rest = rest / 10;
    }
    let mut text = String::new();
    text.push((rest as u8 + 48) as char);
    let mut i: usize = low_first.len();
    while i > 0
        invariant
            i <= low_first.len(),
            text@ == decimal(rest as nat) + low_first@.reverse().take(low_first.len() - i),
            rest < 10,
        decreases i,
    {
        i = i - 1;
        text.push(low_first[i]);
        proof {
            let rev = low_first@.reverse();
            assert(rev.take(low_first.len() - i) == rev.take(low_first.len() - i - 1).push(
                low_first@[i as int],
            ));
        }
    }
    proof {
        assert(low_first@.reverse().take(low_first.len() as int) == low_first@.reverse());
    }
    text
}

} // verus!
