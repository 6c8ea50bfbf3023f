//! The token budget manager: what a text costs in tokens, and how a text that
//! costs too much is cut down to what is available.

use crate::error::CommitauraError;
use crate::text::{chars_of, is_whitespace, whitespace};
use vstd::prelude::*;
use vstd::utf8::{
    decode_utf8, encode_utf8, encode_utf8_decode_utf8, encode_utf8_valid_utf8,
    length_of_first_scalar, pop_first_scalar, valid_utf8,
};

verus! {

/// The tokenizer of `tiktoken_rs`, taken as it is: nothing inside it is read
/// here.
#[verifier::external_type_specification]
#[verifier::external_body]
pub struct ExCoreBPE(tiktoken_rs::CoreBPE);

/// The error that the tokenizer's functions return, taken as it is.
#[verifier::external_type_specification]
#[verifier::external_body]
pub struct ExAnyhowError(anyhow::Error);

/// The context size of the model that the prompts are sent to.
pub const MAX_TOKENS: usize = 128000;

/// A text with this many characters of one kind in a row is not handed to the
/// tokenizer: it is the shortest run that is refused. The pattern that cuts a
/// text into pieces takes the characters of a piece one at a time, whatever
/// their kind, and keeps a mark for each on a stack that holds 1,000,000
/// marks; the tokenizer panics when that stack is full. Besides the marks of
/// the run the stack holds a handful for the rest of the pattern, for which
/// the bound leaves room.
pub const RUN_LIMIT: usize = 999000;

/// The kinds of characters that the tokenizer's pattern tells apart: a piece
/// of a text is a run of characters of one kind.
#[derive(Clone, Copy, Debug, PartialEq, Eq, Structural)]
pub enum CharKind {
    /// Characters with the Unicode property White_Space.
    Whitespace,
    /// Letters.
    Letter,
    /// Numbers.
    Number,
    /// Whatever is none of the three above.
    Other,
}

/// Whether `c` may count as a character of this kind. Whitespace is
/// whitespace and nothing else. Of the other ASCII characters the letters are
/// letters, the digits are numbers, and the rest is of the last kind. Of any
/// other character this library does not know whether it is a letter, a
/// number or neither: it counts as each of the three, so that no run is taken
/// for shorter than it is.
pub open spec fn may_be(kind: CharKind, c: char) -> bool {
    let u = c as u32;
    if is_whitespace(c) {
        kind is Whitespace
    } else if u >= 0x80 {
        !(kind is Whitespace)
    } else if 0x41 <= u <= 0x5A || 0x61 <= u <= 0x7A {
        kind is Letter
    } else if 0x30 <= u <= 0x39 {
        kind is Number
    } else {
        kind is Other
    }
}

/// Whether the `len` characters of `s` from index `i` on may all be of one
/// kind.
pub open spec fn run_at(s: Seq<char>, kind: CharKind, i: int, len: nat) -> bool {
    &&& 0 <= i
    &&& i + len <= s.len()
    &&& forall|j: int| i <= j < i + len ==> may_be(kind, #[trigger] s[j])
}

/// Whether `s` holds `len` characters in a row that may all be of one kind.
pub open spec fn has_run(s: Seq<char>, kind: CharKind, len: nat) -> bool {
    exists|i: int| run_at(s, kind, i, len)
}

/// Whether `bpe` is the tokenizer that `tiktoken_rs::p50k_base` builds.
pub uninterp spec fn is_p50k_base(bpe: tiktoken_rs::CoreBPE) -> bool;

/// The token ids that `CoreBPE::encode_with_special_tokens` gives for `text`
/// under the p50k_base vocabulary.
pub uninterp spec fn p50k_tokens(text: Seq<char>) -> Seq<usize>;

/// The bytes that `token` stands for in the p50k_base vocabulary, `None` where
/// the vocabulary has no such token.
pub uninterp spec fn p50k_token_bytes(token: usize) -> Option<Seq<u8>>;

/// The bytes that a run of tokens stands for: those of each token, in order.
pub open spec fn token_bytes(tokens: Seq<usize>) -> Seq<u8>
    decreases tokens.len(),
{
    if tokens.len() == 0 {
        Seq::empty()
    } else {
        token_bytes(tokens.drop_last()) + p50k_token_bytes(tokens.last()).unwrap()
    }
}

/// Whether every token of `tokens` is in the p50k_base vocabulary.
pub open spec fn known_tokens(tokens: Seq<usize>) -> bool {
    forall|i: int| 0 <= i < tokens.len() ==> (#[trigger] p50k_token_bytes(tokens[i])) is Some
}

/// Whether every token of `tokens` is in the p50k_base vocabulary and stands
/// for at least one byte.
pub open spec fn solid_tokens(tokens: Seq<usize>) -> bool {
    forall|i: int|
        0 <= i < tokens.len() ==> ((#[trigger] p50k_token_bytes(tokens[i])) matches Some(bytes)
            && bytes.len() > 0)
}

/// Whether the tokenizer can take `text`: it holds no run of [`RUN_LIMIT`]
/// characters of one kind, whichever the kind.
pub open spec fn tokenizable(text: Seq<char>) -> bool {
    &&& !has_run(text, CharKind::Whitespace, RUN_LIMIT as nat)
    &&& !has_run(text, CharKind::Letter, RUN_LIMIT as nat)
    &&& !has_run(text, CharKind::Number, RUN_LIMIT as nat)
    &&& !has_run(text, CharKind::Other, RUN_LIMIT as nat)
}

/// What `text` costs: the number of its tokens.
pub open spec fn token_count(text: Seq<char>) -> nat {
    p50k_tokens(text).len()
}

/// Whether `text` can be tokenized and costs no more than `available`.
pub open spec fn within_budget(text: Seq<char>, available: nat) -> bool {
    tokenizable(text) && token_count(text) <= available
}

/// The text that the first `n` tokens of `text` stand for; `None` where their
/// bytes end inside a character.
pub open spec fn decoded_prefix(text: Seq<char>, n: nat) -> Option<Seq<char>> {
    let bytes = token_bytes(p50k_tokens(text).take(n as int));
    if valid_utf8(bytes) {
        Some(decode_utf8(bytes))
    } else {
        None
    }
}

/// Whether the first `n` tokens of `text` decode to a text within the budget.
pub open spec fn prefix_fits(text: Seq<char>, n: nat, available: nat) -> bool {
    decoded_prefix(text, n) matches Some(s) && within_budget(s, available)
}

/// The largest count of leading tokens, not above `n`, that decode to a text
/// within the budget; `None` where no count does.
pub open spec fn longest_fitting_prefix(text: Seq<char>, n: nat, available: nat) -> Option<nat>
    decreases n,
{
    if prefix_fits(text, n, available) {
        Some(n)
    } else if n == 0 {
        None
    } else {
        longest_fitting_prefix(text, (n - 1) as nat, available)
    }
}

/// What fitting `text` into `available` tokens gives: the text itself where it
/// is within the budget, else the longest run of its leading tokens that
/// decodes to a text within the budget. `None` where the text cannot be
/// tokenized or no such run exists.
pub open spec fn fitted(text: Seq<char>, available: nat) -> Option<Seq<char>> {
    if !tokenizable(text) {
        None
    } else if token_count(text) <= available {
        Some(text)
    } else {
        match longest_fitting_prefix(text, available, available) {
            Some(n) => decoded_prefix(text, n),
            None => None,
        }
    }
}

/// Calls `tiktoken_rs::p50k_base`, which parses the vocabulary that the crate
/// carries and compiles its splitting pattern. Either step may fail; what comes
/// back on success is the p50k_base tokenizer.
#[verifier::external_body]
fn load_p50k_base() -> (r: Result<tiktoken_rs::CoreBPE, anyhow::Error>)
    ensures
        r matches Ok(bpe) ==> is_p50k_base(bpe),
{
    tiktoken_rs::p50k_base()
}

/// Calls `to_string` on an `anyhow::Error`: the error's own description, of
/// which nothing is claimed.
#[verifier::external_body]
fn describe(e: &anyhow::Error) -> String {
    e.to_string()
}

/// Calls `CoreBPE::encode_with_special_tokens`. The result depends on the text
/// and the vocabulary alone, and every id in it is taken from the tables that
/// decoding reads, so each has bytes to decode to.
///
/// The tokens stand for the text and nothing else. The text is cut into
/// pieces, and each token of the result stands for a part of a piece that is
/// not empty, or for the whole text of a special token; the parts of a piece
/// follow one another and make up the piece. The pieces make up the text,
/// because the pattern that cuts them has a case for every character:
/// whitespace, a letter, a number, or anything else.
///
/// The call is kept to where it returns. The merge step looks single bytes up
/// without a fallback: the p50k_base vocabulary has a token for each of them.
/// The result of the pattern matcher is unwrapped: the matcher fails only when
/// its stack is full, which takes a run of characters of one kind of the
/// length that [`RUN_LIMIT`] keeps out.
#[verifier::external_body]
fn encode(bpe: &tiktoken_rs::CoreBPE, text: &str) -> (tokens: Vec<usize>)
    requires
        is_p50k_base(*bpe),
        tokenizable(text@),
    ensures
        tokens@ == p50k_tokens(text@),
        forall|i: int| 0 <= i < tokens.len() ==> (#[trigger] p50k_token_bytes(tokens[i])) is Some,
        solid_tokens(tokens@),
        token_bytes(tokens@) == encode_utf8(text@),
{
    bpe.encode_with_special_tokens(text)
}

/// Calls `CoreBPE::decode`, which joins the bytes of the tokens and reads them
/// as UTF-8: it gives the text where the bytes are valid UTF-8 and an error
/// where they are not. It looks each token up without a fallback, so the call
/// is kept to tokens that the vocabulary has.
#[verifier::external_body]
fn decode(bpe: &tiktoken_rs::CoreBPE, tokens: Vec<usize>) -> (r: Result<String, anyhow::Error>)
    requires
        is_p50k_base(*bpe),
        known_tokens(tokens@),
    ensures
        r is Ok <==> valid_utf8(token_bytes(tokens@)),
        r matches Ok(s) ==> s@ == decode_utf8(token_bytes(tokens@)),
{
    bpe.decode(tokens)
}

/// Whether `c` may count as a character of this kind.
pub fn may_count_as(kind: CharKind, c: char) -> (b: bool)
    ensures
        b == may_be(kind, c),
{
    let u: u32 = c as u32;
    if whitespace(c) {
        matches!(kind, CharKind::Whitespace)
    } else if u >= 0x80 {
        !matches!(kind, CharKind::Whitespace)
    } else if (0x41 <= u && u <= 0x5A) || (0x61 <= u && u <= 0x7A) {
        matches!(kind, CharKind::Letter)
    } else if 0x30 <= u && u <= 0x39 {
        matches!(kind, CharKind::Number)
    } else {
        matches!(kind, CharKind::Other)
    }
}

/// Looks for `len` characters in a row that may all be of one kind, in one
/// pass.
pub fn find_run(chars: &Vec<char>, kind: CharKind, len: usize) -> (found: bool)
    ensures
        found == has_run(chars@, kind, len as nat),
{
    if len == 0 {
        assert(run_at(chars@, kind, 0, 0));
        return true;
    }
    let mut run: usize = 0;
    let mut i: usize = 0;
    while i < chars.len()
        invariant
            0 < len,
            i <= chars.len(),
            run <= i,
            run < len,
            forall|j: int| i - run <= j < i ==> may_be(kind, #[trigger] chars@[j]),
            run < i ==> !may_be(kind, chars@[i - run - 1]),
            forall|k: int| k + len <= i ==> !run_at(chars@, kind, k, len as nat),
        decreases chars.len() - i,
    {
        if may_count_as(kind, chars[i]) {
            run = run + 1;
            if run >= len {
                assert(run_at(chars@, kind, i + 1 - len, len as nat));
                return true;
            }
        } else {
            run = 0;
        }
        i = i + 1;
    }
    false
}

/// Whether the tokenizer can take `text`.
pub fn can_tokenize(text: &str) -> (b: bool)
    ensures
        b == tokenizable(text@),
{
    let chars = chars_of(text);
    !find_run(&chars, CharKind::Whitespace, RUN_LIMIT) && !find_run(
        &chars,
        CharKind::Letter,
        RUN_LIMIT,
    ) && !find_run(&chars, CharKind::Number, RUN_LIMIT) && !find_run(
        &chars,
        CharKind::Other,
        RUN_LIMIT,
    )
}

/// A text cut down to a token budget.
#[derive(Debug)]
pub struct Fitted {
    /// The text that fits.
    pub text: String,
    /// Whether anything was dropped from the end of the text to make it fit.
    pub truncated: bool,
}

/// The p50k_base tokenizer.
pub struct Tokenizer {
    bpe: tiktoken_rs::CoreBPE,
}

impl Tokenizer {
    #[verifier::type_invariant]
    spec fn well_formed(self) -> bool {
        is_p50k_base(self.bpe)
    }

    /// Sets the tokenizer up. A failure to do so is fatal: trying again will
    /// not help.
    pub fn p50k_base() -> (r: Result<Tokenizer, CommitauraError>)
        ensures
            r matches Err(e) ==> e is TokenizationFailed,
    {
        match load_p50k_base() {
            Ok(bpe) => Ok(Tokenizer { bpe }),
            Err(e) => Err(CommitauraError::TokenizationFailed(describe(&e))),
        }
    }

    /// Counts the tokens of `text`. Fails on a text that the tokenizer cannot
    /// take (see [`tokenizable`]), and on no other. The count is never above
    /// the number of bytes of the text, and it is zero for the empty text
    /// alone.
    pub fn estimate(&self, text: &str) -> (r: Result<usize, CommitauraError>)
        ensures
            match r {
                Ok(n) => {
                    &&& tokenizable(text@)
                    &&& n == token_count(text@)
                    &&& n <= encode_utf8(text@).len()
                    &&& n == 0 <==> text@.len() == 0
                },
                Err(e) => {
                    &&& !tokenizable(text@)
                    &&& e matches CommitauraError::TokenizationFailed(d)
                    &&& d@ == long_run_text()
                },
            },
    {
        proof {
            use_type_invariant(self);
        }
        if !can_tokenize(text) {
            return Err(CommitauraError::TokenizationFailed(long_run_detail()));
        }
        let tokens = encode(&self.bpe, text);
        proof {
            lemma_tokens_and_bytes(tokens@);
            lemma_no_bytes_no_text(text@);
        }
        Ok(tokens.len())
    }

    /// Fits `text` into `available` tokens. A text within the budget comes back
    /// as it is. From any other, tokens are dropped at the end, as few as
    /// possible, until what is left decodes to a text within the budget. The
    /// result says whether anything was dropped; it is always within the
    /// budget, and it is always a leading part of the text. Fails on a text
    /// that the tokenizer cannot take, and on no other: where nothing else
    /// fits, no tokens at all do, and what is left is the empty text.
    pub fn fit(&self, text: &str, available: usize) -> (r: Result<Fitted, CommitauraError>)
        ensures
            match r {
                Ok(f) => {
                    &&& fitted(text@, available as nat) == Some(f.text@)
                    &&& f.truncated == (token_count(text@) > available)
                    &&& within_budget(f.text@, available as nat)
                    &&& f.text@.is_prefix_of(text@)
                },
                Err(e) => {
                    &&& !tokenizable(text@)
                    &&& e matches CommitauraError::TokenizationFailed(d)
                    &&& d@ == long_run_text()
                },
            },
    {
        proof {
            use_type_invariant(self);
        }
        if !can_tokenize(text) {
            return Err(CommitauraError::TokenizationFailed(long_run_detail()));
        }
        let mut prefix = encode(&self.bpe, text);
        if prefix.len() <= available {
            return Ok(Fitted { text: text.to_owned(), truncated: false });
        }
        prefix.truncate(available);
        let mut n: usize = available;
        loop
            invariant
                is_p50k_base(self.bpe),
                tokenizable(text@),
                n <= available,
                available < token_count(text@),
                prefix@ == p50k_tokens(text@).take(n as int),
                known_tokens(prefix@),
                solid_tokens(p50k_tokens(text@)),
                token_bytes(p50k_tokens(text@)) == encode_utf8(text@),
                longest_fitting_prefix(text@, available as nat, available as nat)
                    == longest_fitting_prefix(text@, n as nat, available as nat),
            decreases n,
        {
            match self.decode_within_budget(prefix.clone(), available) {
                Some(candidate) => {
                    proof {
                        lemma_leading_tokens_decode_to_leading_text(text@, n as int);
                    }
                    return Ok(Fitted { text: candidate, truncated: true });
                },
                None => {},
            }
            n = n - 1;
            prefix.pop();
        }
    }

    /// The text that `tokens` stand for, where they stand for a text and that
    /// text is within the budget. No tokens stand for the empty text, which
    /// costs nothing, so it is always within the budget.
    fn decode_within_budget(&self, tokens: Vec<usize>, available: usize) -> (r: Option<String>)
        requires
            known_tokens(tokens@),
        ensures
            match r {
                Some(s) => {
                    &&& valid_utf8(token_bytes(tokens@))
                    &&& s@ == decode_utf8(token_bytes(tokens@))
                    &&& within_budget(s@, available as nat)
                },
                None => !(valid_utf8(token_bytes(tokens@)) && within_budget(
                    decode_utf8(token_bytes(tokens@)),
                    available as nat,
                )),
            },
            tokens@.len() == 0 ==> r is Some,
    {
        proof {
            use_type_invariant(self);
        }
        match decode(&self.bpe, tokens) {
            Ok(candidate) => match self.estimate(candidate.as_str()) {
                Ok(cost) => if cost <= available {
                    Some(candidate)
                } else {
                    None
                },
                Err(_) => None,
            },
            Err(_) => None,
        }
    }
}

/// Counts the tokens of `text` with a tokenizer set up for this one call. The
/// count is never above the number of bytes of the text, and it is zero for
/// the empty text alone.
pub fn estimate_tokens(text: &str) -> (r: Result<usize, CommitauraError>)
    ensures
        match r {
            Ok(n) => {
                &&& tokenizable(text@)
                &&& n == token_count(text@)
                &&& n <= encode_utf8(text@).len()
                &&& n == 0 <==> text@.len() == 0
            },
            Err(e) => e is TokenizationFailed,
        },
{
    match Tokenizer::p50k_base() {
        Ok(tokenizer) => tokenizer.estimate(text),
        Err(e) => Err(e),
    }
}

/// The token budget of one prompt: the most that the model takes, and what the
/// parts of the prompt that are never cut cost. The fixed cost never exceeds the
/// maximum.
#[derive(Debug)]
pub struct TokenBudget {
    max_tokens: usize,
    fixed_cost: usize,
}

impl TokenBudget {
    #[verifier::type_invariant]
    spec fn well_formed(self) -> bool {
        self.fixed_cost <= self.max_tokens
    }

    /// The most tokens that a prompt may cost.
    pub closed spec fn max_tokens_of(self) -> nat {
        self.max_tokens as nat
    }

    /// What the fixed parts of the prompt cost.
    pub closed spec fn fixed_cost_of(self) -> nat {
        self.fixed_cost as nat
    }

    /// What is left for the part of the prompt that may be cut.
    pub open spec fn available_of(self) -> nat {
        (self.max_tokens_of() - self.fixed_cost_of()) as nat
    }

    /// A budget of `max_tokens` for a prompt whose system instructions cost
    /// `system_cost` and whose task instructions cost `instruction_cost`. Fails
    /// where these two alone cost more than the maximum: nothing would be left
    /// to cut.
    pub fn new(max_tokens: usize, system_cost: usize, instruction_cost: usize) -> (r: Result<
        TokenBudget,
        CommitauraError,
    >)
        ensures
            match r {
                Ok(b) => {
                    &&& system_cost + instruction_cost <= max_tokens
                    &&& b.max_tokens_of() == max_tokens
                    &&& b.fixed_cost_of() == system_cost + instruction_cost
                },
                Err(e) => {
                    &&& system_cost + instruction_cost > max_tokens
                    &&& e matches CommitauraError::TokenizationFailed(d)
                    &&& d@ == fixed_cost_text()
                },
            },
    {
        if system_cost > max_tokens || instruction_cost > max_tokens - system_cost {
            return Err(CommitauraError::TokenizationFailed(fixed_cost_detail()));
        }
        Ok(TokenBudget { max_tokens, fixed_cost: system_cost + instruction_cost })
    }

    /// The most tokens that a prompt may cost.
    pub fn max_tokens(&self) -> (n: usize)
        ensures
            n == self.max_tokens_of(),
    {
        self.max_tokens
    }

    /// What the fixed parts of the prompt cost.
    pub fn fixed_cost(&self) -> (n: usize)
        ensures
            n == self.fixed_cost_of(),
    {
        self.fixed_cost
    }

    /// The tokens left for the part of the prompt that may be cut.
    pub fn available(&self) -> (n: usize)
        ensures
            n == self.available_of(),
            n + self.fixed_cost_of() == self.max_tokens_of(),
    {
        proof {
            use_type_invariant(self);
        }
        self.max_tokens - self.fixed_cost
    }
}

/// Tokens that each stand for at least one byte stand for at least as many
/// bytes as there are tokens.
pub proof fn lemma_tokens_and_bytes(tokens: Seq<usize>)
    requires
        solid_tokens(tokens),
    ensures
        tokens.len() <= token_bytes(tokens).len(),
    decreases tokens.len(),
{
    if tokens.len() > 0 {
        lemma_tokens_and_bytes(tokens.drop_last());
    }
}

/// A text without bytes is the empty text.
pub proof fn lemma_no_bytes_no_text(text: Seq<char>)
    ensures
        encode_utf8(text).len() == 0 <==> text.len() == 0,
{
    encode_utf8_decode_utf8(text);
    if encode_utf8(text).len() == 0 {
        encode_utf8_decode_utf8(Seq::<char>::empty());
    }
}

/// The bytes of leading tokens are leading bytes: the first `n` tokens stand
/// for the bytes that all of them stand for, up to some place.
pub proof fn lemma_leading_tokens_have_leading_bytes(tokens: Seq<usize>, n: int)
    requires
        0 <= n <= tokens.len(),
    ensures
        token_bytes(tokens.take(n)).is_prefix_of(token_bytes(tokens)),
    decreases tokens.len() - n,
{
    if n < tokens.len() {
        lemma_leading_tokens_have_leading_bytes(tokens, n + 1);
        assert(tokens.take(n + 1).drop_last() == tokens.take(n));
    } else {
        assert(tokens.take(n) == tokens);
    }
}

/// Leading bytes of valid UTF-8 that are valid UTF-8 themselves decode to a
/// leading part of what the whole decodes to.
pub proof fn lemma_leading_bytes_decode_to_leading_text(bytes: Seq<u8>, k: int)
    requires
        0 <= k <= bytes.len(),
        valid_utf8(bytes),
        valid_utf8(bytes.take(k)),
    ensures
        decode_utf8(bytes.take(k)).is_prefix_of(decode_utf8(bytes)),
    decreases k,
{
    if k > 0 {
        let len = length_of_first_scalar(bytes);
        assert(pop_first_scalar(bytes.take(k)) == pop_first_scalar(bytes).take(k - len));
        lemma_leading_bytes_decode_to_leading_text(pop_first_scalar(bytes), k - len);
    }
}

/// Where the first `n` tokens of a text stand for valid UTF-8, they decode to
/// a leading part of the text, given that all the tokens stand for the bytes
/// of the text.
pub proof fn lemma_leading_tokens_decode_to_leading_text(text: Seq<char>, n: int)
    requires
        0 <= n <= p50k_tokens(text).len(),
        token_bytes(p50k_tokens(text)) == encode_utf8(text),
        valid_utf8(token_bytes(p50k_tokens(text).take(n))),
    ensures
        decode_utf8(token_bytes(p50k_tokens(text).take(n))).is_prefix_of(text),
{
    let head = token_bytes(p50k_tokens(text).take(n));
    lemma_leading_tokens_have_leading_bytes(p50k_tokens(text), n);
    encode_utf8_valid_utf8(text);
    encode_utf8_decode_utf8(text);
    lemma_leading_bytes_decode_to_leading_text(encode_utf8(text), head.len() as int);
}

/// Where some count of leading tokens fits, the count that is found is not
/// above the bound, and it fits.
pub proof fn lemma_longest_fitting_prefix(text: Seq<char>, n: nat, available: nat)
    ensures
        longest_fitting_prefix(text, n, available) matches Some(m) ==> m <= n && prefix_fits(
            text,
            m,
            available,
        ),
    decreases n,
{
    if !prefix_fits(text, n, available) && n > 0 {
        lemma_longest_fitting_prefix(text, (n - 1) as nat, available);
    }
}

/// What fitting gives can be tokenized and costs no more than what is
/// available.
pub proof fn lemma_fitted_within_budget(text: Seq<char>, available: nat)
    ensures
        fitted(text, available) matches Some(s) ==> within_budget(s, available),
{
    lemma_longest_fitting_prefix(text, available, available);
}

/// Fitting is idempotent: a text that came out of fitting comes out of fitting
/// again unchanged.
pub proof fn lemma_fitted_idempotent(text: Seq<char>, available: nat)
    ensures
        fitted(text, available) matches Some(s) ==> fitted(s, available) == Some(s),
{
    lemma_fitted_within_budget(text, available);
}

/// What the failure of a budget says whose fixed cost exceeds its maximum.
pub open spec fn fixed_cost_text() -> Seq<char> {
    "the fixed parts of the prompt alone exceed the token budget"@
}

/// What the failure says of a text that the tokenizer cannot take.
pub open spec fn long_run_text() -> Seq<char> {
    "the text holds more characters of one kind in a row than the tokenizer's pattern matcher can take"@
}

/// The detail of the failure of a budget whose fixed cost exceeds its maximum.
fn fixed_cost_detail() -> (detail: String)
    ensures
        detail@ == fixed_cost_text(),
{
    "the fixed parts of the prompt alone exceed the token budget".to_owned()
}

/// The detail of the failure on a text that the tokenizer cannot take.
fn long_run_detail() -> (detail: String)
    ensures
        detail@ == long_run_text(),
{
    "the text holds more characters of one kind in a row than the tokenizer's pattern matcher can take".to_owned()
}


} // verus!
