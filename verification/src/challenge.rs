//! The one-time code of an attempt: how it is drawn, written and compared.

use crate::attempt::{text_of, LoginAttempt, LoginAttemptView};
use crate::text::{
    all_whitespace, decimal, is_tight, lemma_trimmed_of_padded_text, lemma_trimmed_to_tight_text,
    to_decimal, trim, trimmed,
};
use rand::Rng;
use vstd::prelude::*;

verus! {

/// The smallest number that a code is written from.
pub const LOWEST_CODE: u32 = 100000;

/// The largest number that a code is written from.
pub const HIGHEST_CODE: u32 = 999999;

/// Whether `c` is a decimal digit.
pub open spec fn is_digit(c: char) -> bool {
    '0' <= c <= '9'
}

/// Whether `text` is a code: six decimal digits, the first of them not zero.
pub open spec fn is_code(text: Seq<char>) -> bool {
    &&& text.len() == 6
    &&& text[0] != '0'
    &&& forall|i: int| 0 <= i < 6 ==> is_digit(#[trigger] text[i])
}

/// The numbers from `LOWEST_CODE` to `HIGHEST_CODE` are written as codes.
pub proof fn lemma_number_in_range_is_code(n: u32)
    requires
        LOWEST_CODE <= n <= HIGHEST_CODE,
    ensures
        is_code(decimal(n as nat)),
{
    reveal_with_fuel(decimal, 7);
}

/// A code neither starts nor ends with whitespace.
pub proof fn lemma_code_is_tight(code: Seq<char>)
    requires
        is_code(code),
    ensures
        is_tight(code),
{
    assert(is_digit(code[0]));
    assert(is_digit(code[5]));
}

/// The inputs that match a code are the code itself and the code with
/// nothing but whitespace before it and behind it; no other input matches.
pub proof fn law_inputs_that_match(code: Seq<char>, input: Seq<char>)
    requires
        is_code(code),
    ensures
        trimmed(code) == code,
        trimmed(input) == code <==> exists|front: Seq<char>, back: Seq<char>|
            #![trigger front + code + back]
            all_whitespace(front) && all_whitespace(back) && input == front + code + back,
{
    lemma_code_is_tight(code);
    lemma_trimmed_to_tight_text(input, code);
    lemma_trimmed_of_padded_text(Seq::empty(), code, Seq::empty());
    assert(Seq::<char>::empty() + code + Seq::<char>::empty() == code);
}

/// A number from `low` to `high`, both included, which `rand::Rng::gen_range`
/// picks with the generator that `rand::thread_rng` hands out. Taken on trust,
/// and of the number nothing is claimed but its range. An empty range would
/// make `gen_range` panic, so `low` may not exceed `high`. The generator seeds
/// itself from the operating system when a thread first asks for it, and
/// panics where the system gives it nothing.
#[verifier::external_body]
fn draw(low: u32, high: u32) -> (n: u32)
    requires
        low <= high,
    ensures
        low <= n <= high,
{
    rand::thread_rng().gen_range(low..=high)
}

/// A fresh code, drawn at random.
pub fn generate_code() -> (code: String)
    ensures
        is_code(code@),
{
    let n = draw(LOWEST_CODE, HIGHEST_CODE);
    proof {
        lemma_number_in_range_is_code(n);
    }
    to_decimal(n)
}

/// Whether what the human typed is the code: the input is compared without
/// the whitespace around it, and apart from that exactly.
pub fn code_matches(code: &str, input: &str) -> (same: bool)
    ensures
        same == (trimmed(input@) == code@),
{
    trim(input).eq(code)
}

/// A code, and the attempt that it was issued to.
#[derive(Debug, PartialEq, Eq)]
pub struct Challenge {
    /// The code that the human has to type.
    pub code: String,
    /// The attempt that the code belongs to.
    pub owner: LoginAttempt,
}

/// A challenge as plain values.
pub struct ChallengeView {
    pub code: Seq<char>,
    pub owner: LoginAttemptView,
}

impl View for Challenge {
    type V = ChallengeView;

    open spec fn view(&self) -> ChallengeView {
        ChallengeView { code: self.code@, owner: self.owner@ }
    }
}

impl Clone for Challenge {
    fn clone(&self) -> (copy: Challenge)
        ensures
            copy == *self,
    {
        Challenge { code: self.code.clone(), owner: self.owner.clone() }
    }
}

impl ChallengeView {
    /// The code is one, and the owner names a command in an escalation only.
    pub open spec fn wf(self) -> bool {
        is_code(self.code) && self.owner.wf()
    }

    /// Whether `input` answers this challenge: it is there, and without the
    /// whitespace around it it is the code.
    pub open spec fn accepts(self, input: Option<Seq<char>>) -> bool {
        input matches Some(text) && trimmed(text) == self.code
    }
}

impl Challenge {
    /// The code is one, and the owner names a command in an escalation only.
    pub open spec fn wf(&self) -> bool {
        self@.wf()
    }

    /// Whether `input` answers this challenge: it is there, and without the
    /// whitespace around it it is the code.
    pub fn accepts(&self, input: &Option<String>) -> (same: bool)
        ensures
            same == self@.accepts(text_of(*input)),
    {
        match input {
            Some(text) => code_matches(self.code.as_str(), text.as_str()),
            None => false,
        }
    }
}

} // verus!
