//! A YouTube Player associated with a video.
//!
//! The player's script holds a plan of small transformations that turn the
//! scrambled signature of a stream into the one that its URL needs. This
//! module reads that plan from the script and runs it.

use vstd::prelude::*;
use vstd::string::StringExecFns;
use vstd::utf8::{decode_utf8, encode_utf8, valid_utf8};
use crate::error::RequestError;
use crate::text::{
    all_digits, char_views, chars_of, contains, digits_value, lemma_parse_digits, parse_usize,
    parse_usize_exec, split_on, split_on_exec, str_contains, string_from_chars,
};

verus! {

// ---------------------------------------------------------------------------
// Errors
// ---------------------------------------------------------------------------

/// An error that can happen while the [`Player`] is read.
#[derive(Debug)]
pub enum Error {
    /// An unknown cipher was encountered.
    UnknownCipher {
        /// The JS name of the cipher.
        function_name: String,
        /// The body of the JS function.
        body: String,
    },
    /// The cipher plan was unable to be found.
    CipherPlanNotFound,
    /// A specific cipher function was not found.
    CipherFunctionNotFound(String),
    /// A JS statement was unable to be parsed.
    Statement(String),
    /// The player could not be fetched.
    PlayerNotFound(RequestError),
}

/// The mathematical form of an [`Error`].
pub enum ErrorView {
    /// See [`Error::UnknownCipher`].
    UnknownCipher { function_name: Seq<char>, body: Seq<char> },
    /// See [`Error::CipherPlanNotFound`].
    CipherPlanNotFound,
    /// See [`Error::CipherFunctionNotFound`].
    CipherFunctionNotFound(Seq<char>),
    /// See [`Error::Statement`].
    Statement(Seq<char>),
    /// See [`Error::PlayerNotFound`].
    PlayerNotFound(Seq<char>),
}

impl View for Error {
    type V = ErrorView;

    open spec fn view(&self) -> ErrorView {
        match self {
            Error::UnknownCipher { function_name, body } => ErrorView::UnknownCipher {
                function_name: function_name@,
                body: body@,
            },
            Error::CipherPlanNotFound => ErrorView::CipherPlanNotFound,
            Error::CipherFunctionNotFound(name) => ErrorView::CipherFunctionNotFound(name@),
            Error::Statement(s) => ErrorView::Statement(s@),
            Error::PlayerNotFound(e) => ErrorView::PlayerNotFound(e.message@),
        }
    }
}

// ---------------------------------------------------------------------------
// Ciphers
// ---------------------------------------------------------------------------

/// Removes the first `index` bytes.
#[derive(Debug, Clone, Copy, PartialEq, Eq)]
pub struct SpliceCipher {
    /// How many bytes are removed.
    pub index: usize,
}

/// Swaps the first byte with the byte at `index`.
#[derive(Debug, Clone, Copy, PartialEq, Eq)]
pub struct SwapCipher {
    /// The byte that changes place with the first one.
    pub index: usize,
}

/// Reverses the bytes.
#[derive(Debug, Clone, Copy, PartialEq, Eq)]
pub struct ReverseCipher;

/// A JS cipher implemented in Rust.
#[derive(Debug, Clone, Copy, PartialEq, Eq)]
pub enum Cipher {
    /// See [`SpliceCipher`].
    Splice(SpliceCipher),
    /// See [`SwapCipher`].
    Swap(SwapCipher),
    /// See [`ReverseCipher`].
    Reverse(ReverseCipher),
}

/// `c` can be applied to the bytes `s` (the indices it names exist).
pub open spec fn applicable(c: Cipher, s: Seq<u8>) -> bool {
    match c {
        Cipher::Splice(sc) => sc.index <= s.len(),
        Cipher::Swap(sw) => 0 < s.len() && sw.index < s.len(),
        Cipher::Reverse(_) => true,
    }
}

/// What applying `c` to the bytes `s` gives.
pub open spec fn spec_decipher(c: Cipher, s: Seq<u8>) -> Seq<u8> {
    match c {
        Cipher::Splice(sc) => s.subrange(sc.index as int, s.len() as int),
        Cipher::Swap(sw) => s.update(0, s[sw.index as int]).update(sw.index as int, s[0]),
        Cipher::Reverse(_) => s.reverse(),
    }
}

/// Every cipher of `plan`, in order, can be applied to what the ones before
/// it left of `s`.
pub open spec fn plan_applicable(plan: Seq<Cipher>, s: Seq<u8>) -> bool
    decreases plan.len(),
{
    if plan.len() == 0 {
        true
    } else {
        plan_applicable(plan.drop_last(), s) && applicable(
            plan.last(),
            run_plan(plan.drop_last(), s),
        )
    }
}

/// What applying every cipher of `plan`, in order, to `s` gives.
pub open spec fn run_plan(plan: Seq<Cipher>, s: Seq<u8>) -> Seq<u8>
    decreases plan.len(),
{
    if plan.len() == 0 {
        s
    } else {
        spec_decipher(plan.last(), run_plan(plan.drop_last(), s))
    }
}

impl SpliceCipher {
    /// Deciphers the input according to the JS function.
    pub fn decipher(&self, input: &mut Vec<u8>)
        requires
            self.index <= old(input)@.len(),
        ensures
            final(input)@ == old(input)@.subrange(self.index as int, old(input)@.len() as int),
    {
        let mut out: Vec<u8> = Vec::new();
        let mut i: usize = self.index;
        while i < input.len()
            invariant
                self.index <= i <= input@.len(),
                out@ == input@.subrange(self.index as int, i as int),
            decreases input@.len() - i,
        {
            out.push(input[i]);
            i += 1;
        }
        *input = out;
    }
}

impl SwapCipher {
    /// Deciphers the input according to the JS function.
    pub fn decipher(&self, input: &mut Vec<u8>)
        requires
            0 < old(input)@.len(),
            self.index < old(input)@.len(),
        ensures
            final(input)@ == old(input)@.update(0, old(input)@[self.index as int]).update(
                self.index as int,
                old(input)@[0],
            ),
    {
        let first = input[0];
        let other = input[self.index];
        input.set(0, other);
        input.set(self.index, first);
    }
}

impl ReverseCipher {
    /// Deciphers the input according to the JS function.
    pub fn decipher(&self, input: &mut Vec<u8>)
        ensures
            final(input)@ == old(input)@.reverse(),
    {
        let mut out: Vec<u8> = Vec::new();
        let n = input.len();
        let mut i: usize = 0;
        while i < n
            invariant
                n == input@.len(),
                i <= n,
                out@ == input@.reverse().subrange(0, i as int),
            decreases n - i,
        {
            out.push(input[n - 1 - i]);
            i += 1;
        }
        assert(out@ =~= input@.reverse());
        *input = out;
    }
}

impl Cipher {
    /// Whether the cipher can be applied to `input` (the indices it names
    /// exist).
    pub fn applies_to(&self, input: &Vec<u8>) -> (b: bool)
        ensures
            b == applicable(*self, input@),
    {
        match self {
            Cipher::Splice(c) => c.index <= input.len(),
            Cipher::Swap(c) => 0 < input.len() && c.index < input.len(),
            Cipher::Reverse(_) => true,
        }
    }

    /// Deciphers the input according to the JS function.
    pub fn decipher(&self, input: &mut Vec<u8>)
        requires
            applicable(*self, old(input)@),
        ensures
            final(input)@ == spec_decipher(*self, old(input)@),
    {
        match self {
            Cipher::Splice(c) => c.decipher(input),
            Cipher::Swap(c) => c.decipher(input),
            Cipher::Reverse(c) => c.decipher(input),
        }
    }
}

/// Reversing twice gives the bytes back.
pub proof fn law_reverse_involution(s: Seq<u8>)
    ensures
        spec_decipher(
            Cipher::Reverse(ReverseCipher),
            spec_decipher(Cipher::Reverse(ReverseCipher), s),
        ) == s,
{
    assert(s.reverse().reverse() =~= s);
}

/// Swapping the same bytes twice gives the bytes back.
pub proof fn law_swap_involution(index: usize, s: Seq<u8>)
    requires
        0 < s.len(),
        index < s.len(),
    ensures
        spec_decipher(
            Cipher::Swap(SwapCipher { index }),
            spec_decipher(Cipher::Swap(SwapCipher { index }), s),
        ) == s,
{
    let t = spec_decipher(Cipher::Swap(SwapCipher { index }), s);
    assert(spec_decipher(Cipher::Swap(SwapCipher { index }), t) =~= s);
}

/// Running two plans one after the other is running the plan made of both.
pub proof fn law_plan_concat(p: Seq<Cipher>, q: Seq<Cipher>, s: Seq<u8>)
    ensures
        run_plan(p + q, s) == run_plan(q, run_plan(p, s)),
        plan_applicable(p + q, s) == (plan_applicable(p, s) && plan_applicable(q, run_plan(p, s))),
    decreases q.len(),
{
    if q.len() == 0 {
        assert(p + q =~= p);
    } else {
        law_plan_concat(p, q.drop_last(), s);
        assert((p + q).drop_last() =~= p + q.drop_last());
        assert((p + q).last() == q.last());
    }
}

// ---------------------------------------------------------------------------
// Running a plan
// ---------------------------------------------------------------------------

/// Calls `String::from_utf8`: a string exactly when `bytes` is valid UTF-8,
/// holding the characters that the bytes encode.
#[verifier::external_body]
fn string_from_utf8(bytes: Vec<u8>) -> (r: Option<String>)
    ensures
        r is Some <==> valid_utf8(bytes@),
        r matches Some(s) ==> s@ == decode_utf8(bytes@),
{
    match String::from_utf8(bytes) {
        Ok(s) => Some(s),
        Err(_) => None,
    }
}

/// The plan of ciphers that turns a scrambled signature into the real one.
#[derive(Debug, Clone)]
pub struct CipherPlan {
    ciphers: Vec<Cipher>,
}

impl Default for CipherPlan {
    fn default() -> (p: Self)
        ensures
            p@.len() == 0,
    {
        CipherPlan { ciphers: Vec::new() }
    }
}

impl View for CipherPlan {
    type V = Seq<Cipher>;

    closed spec fn view(&self) -> Seq<Cipher> {
        self.ciphers@
    }
}

impl CipherPlan {
    /// A plan made of the given ciphers, in order.
    pub fn new(ciphers: Vec<Cipher>) -> (p: CipherPlan)
        ensures
            p@ == ciphers@,
    {
        CipherPlan { ciphers }
    }

    /// Whether the plan can be run on `signature`: every cipher applies to
    /// what the ones before it left, and the result is text.
    pub fn can_run(&self, signature: &str) -> (b: bool)
        ensures
            b == (plan_applicable(self@, encode_utf8(signature@)) && valid_utf8(
                run_plan(self@, encode_utf8(signature@)),
            )),
    {
        let bytes = signature.as_bytes();
        let mut sig: Vec<u8> = vstd::slice::slice_to_vec(bytes);
        let ghost start = sig@;
        let mut i: usize = 0;
        while i < self.ciphers.len()
            invariant
                i <= self@.len(),
                start == encode_utf8(signature@),
                plan_applicable(self@.subrange(0, i as int), start),
                sig@ == run_plan(self@.subrange(0, i as int), start),
            decreases self@.len() - i,
        {
            proof {
                assert(self@.subrange(0, i + 1).drop_last() =~= self@.subrange(0, i as int));
            }
            if !self.ciphers[i].applies_to(&sig) {
                proof {
                    if plan_applicable(self@, start) {
                        lemma_plan_applicable_prefix(self@, start, i as int + 1);
                    }
                }
                return false;
            }
            self.ciphers[i].decipher(&mut sig);
            i += 1;
        }
        assert(self@.subrange(0, self@.len() as int) =~= self@);
        string_from_utf8(sig).is_some()
    }

    /// Run the plan on a provided signature.
    pub fn run(&self, signature: String) -> (r: String)
        requires
            plan_applicable(self@, encode_utf8(signature@)),
            valid_utf8(run_plan(self@, encode_utf8(signature@))),
        ensures
            r@ == decode_utf8(run_plan(self@, encode_utf8(signature@))),
    {
        let bytes = signature.as_str().as_bytes();
        let mut sig: Vec<u8> = vstd::slice::slice_to_vec(bytes);
        let ghost start = sig@;
        let mut i: usize = 0;
        while i < self.ciphers.len()
            invariant
                i <= self@.len(),
                plan_applicable(self@, start),
                sig@ == run_plan(self@.subrange(0, i as int), start),
            decreases self@.len() - i,
        {
            proof {
                lemma_plan_applicable_prefix(self@, start, i as int + 1);
                assert(self@.subrange(0, i + 1).drop_last() =~= self@.subrange(0, i as int));
            }
            self.ciphers[i].decipher(&mut sig);
            i += 1;
        }
        assert(self@.subrange(0, self@.len() as int) =~= self@);
        match string_from_utf8(sig) {
            Some(s) => s,
            None => String::new(),
        }
    }
}

/// A prefix of an applicable plan is applicable.
proof fn lemma_plan_applicable_prefix(plan: Seq<Cipher>, s: Seq<u8>, j: int)
    requires
        0 <= j <= plan.len(),
        plan_applicable(plan, s),
    ensures
        plan_applicable(plan.subrange(0, j), s),
        j > 0 ==> applicable(plan[j - 1], run_plan(plan.subrange(0, j - 1), s)),
    decreases plan.len() - j,
{
    if j < plan.len() {
        lemma_plan_applicable_prefix(plan, s, j + 1);
        assert(plan.subrange(0, j + 1).drop_last() =~= plan.subrange(0, j));
    } else {
        assert(plan.subrange(0, j) =~= plan);
    }
    if j > 0 {
        assert(plan.subrange(0, j).drop_last() =~= plan.subrange(0, j - 1));
    }
}


// ---------------------------------------------------------------------------
// Reading a plan from the player's script
// ---------------------------------------------------------------------------

/// The capture groups of the leftmost match that the `regex` crate finds for
/// `pattern` in `text`: `Err` where `pattern` does not compile, `Ok(None)`
/// where nothing matches, else one entry per group (group 0 first), `None`
/// for a group that took no part in the match.
pub uninterp spec fn regex_captures(pattern: Seq<char>, text: Seq<char>) -> Result<
    Option<Seq<Option<Seq<char>>>>,
    (),
>;

/// The characters held by optional strings.
pub open spec fn optional_views(v: Seq<Option<String>>) -> Seq<Option<Seq<char>>> {
    Seq::new(
        v.len(),
        |i: int|
            match v[i] {
                Some(s) => Some(s@),
                None => None,
            },
    )
}

/// Calls `regex::Regex::new(pattern)` and then `captures(text)` on it; the
/// result is the named one (`regex_captures`). As the crate documents, group
/// 0 always takes part in a match, so a match has at least that entry.
#[verifier::external_body]
fn captures(pattern: &str, text: &str) -> (r: Result<Option<Vec<Option<String>>>, ()>)
    ensures
        (match r {
            Ok(Some(v)) => regex_captures(pattern@, text@) == Ok::<
                Option<Seq<Option<Seq<char>>>>,
                (),
            >(Some(optional_views(v@))) && v@.len() >= 1 && v@[0] is Some,
            Ok(None) => regex_captures(pattern@, text@) == Ok::<
                Option<Seq<Option<Seq<char>>>>,
                (),
            >(None),
            Err(_) => regex_captures(pattern@, text@) is Err,
        }),
{
    match regex::Regex::new(pattern) {
        Ok(re) => Ok(
            re.captures(text).map(
                |c| c.iter().map(|m| m.map(|m| m.as_str().to_string())).collect(),
            ),
        ),
        Err(_) => Err(()),
    }
}

/// `c` has a special meaning in a regular expression (as
/// `regex_syntax::is_meta_character`).
pub open spec fn is_meta_character(c: char) -> bool {
    c == '\\' || c == '.' || c == '+' || c == '*' || c == '?' || c == '(' || c == ')' || c == '|'
        || c == '[' || c == ']' || c == '{' || c == '}' || c == '^' || c == '$' || c == '#' || c
        == '&' || c == '-' || c == '~'
}

/// `s` with a backslash before every meta character.
pub open spec fn escape(s: Seq<char>) -> Seq<char>
    decreases s.len(),
{
    if s.len() == 0 {
        s
    } else if is_meta_character(s.last()) {
        escape(s.drop_last()) + seq!['\\', s.last()]
    } else {
        escape(s.drop_last()).push(s.last())
    }
}

/// Calls `regex::escape`, which puts a backslash before every meta character
/// of `text` (see `regex_syntax::escape_into`).
#[verifier::external_body]
fn regex_escape(text: &str) -> (r: String)
    ensures
        r@ == escape(text@),
{
    regex::escape(text)
}

/// The pattern that finds the body of the decipher function in the script.
pub open spec fn plan_pattern() -> Seq<char> {
    r#"\w+=function\(\w+\)\{\w+=\w+\.split\(""\);(.*)?return\s+\w+\.join\(""\)\};"#@
}

/// The pattern that reads one statement of the decipher function: the name
/// of the cipher function it calls and the argument it passes.
pub open spec fn statement_pattern() -> Seq<char> {
    r"\w+\.(\w+)\(\w+,(\w+)\)"@
}

/// The pattern that finds the body of the cipher function `name`.
pub open spec fn function_pattern(name: Seq<char>) -> Seq<char> {
    r"\b"@ + escape(name) + r":function\([\w,]+\)\{(.*?)\}"@
}

/// The body of the decipher function found in `script`: `None` where the
/// plan pattern does not match, an empty text where its group is absent.
pub open spec fn spec_decipher_body(script: Seq<char>) -> Option<Seq<char>> {
    match regex_captures(plan_pattern(), script) {
        Ok(Some(caps)) => if caps.len() > 1 && caps[1] is Some {
            Some(caps[1]->0)
        } else {
            Some(Seq::<char>::empty())
        },
        _ => None,
    }
}

/// The cipher that a function whose body is `body` stands for, called with
/// `arg`: reverse, splice or swap, by what the body does.
pub open spec fn spec_classify(name: Seq<char>, body: Seq<char>, arg: Seq<char>) -> Result<
    Cipher,
    ErrorView,
> {
    if contains(body, "reverse"@) {
        Ok(Cipher::Reverse(ReverseCipher))
    } else if contains(body, "splice"@) {
        Ok(Cipher::Splice(SpliceCipher { index: parse_usize(arg).unwrap() }))
    } else if contains(body, "%"@) {
        Ok(Cipher::Swap(SwapCipher { index: parse_usize(arg).unwrap() }))
    } else {
        Err(ErrorView::UnknownCipher { function_name: name, body })
    }
}

/// The argument `arg` is an index wherever the body `body` needs one.
pub open spec fn argument_readable(body: Seq<char>, arg: Seq<char>) -> bool {
    !contains(body, "reverse"@) && (contains(body, "splice"@) || contains(body, "%"@)) ==> parse_usize(
        arg,
    ) is Some
}

/// The cipher that the statement `stmt` of the decipher function calls, as
/// the cipher functions in `script` define it. A statement that the
/// statement pattern does not read, or whose argument is not an index where
/// one is needed, is reported as unreadable.
pub open spec fn spec_statement(script: Seq<char>, stmt: Seq<char>) -> Result<Cipher, ErrorView> {
    match regex_captures(statement_pattern(), stmt) {
        Ok(Some(caps)) => if caps.len() >= 3 && caps[1] is Some && caps[2] is Some {
            let name = caps[1]->0;
            let arg = caps[2]->0;
            match regex_captures(function_pattern(name), script) {
                Ok(Some(fc)) => if fc.len() >= 2 && fc[1] is Some {
                    if argument_readable(fc[1]->0, arg) {
                        spec_classify(name, fc[1]->0, arg)
                    } else {
                        Err(ErrorView::Statement(stmt))
                    }
                } else {
                    Err(ErrorView::CipherFunctionNotFound(name))
                },
                _ => Err(ErrorView::CipherFunctionNotFound(name)),
            }
        } else {
            Err(ErrorView::Statement(stmt))
        },
        _ => Err(ErrorView::Statement(stmt)),
    }
}

/// The ciphers that the statements `stmts` call, empty statements skipped;
/// the first unreadable statement gives the error.
pub open spec fn spec_ciphers(script: Seq<char>, stmts: Seq<Seq<char>>) -> Result<
    Seq<Cipher>,
    ErrorView,
>
    decreases stmts.len(),
{
    if stmts.len() == 0 {
        Ok(Seq::empty())
    } else {
        match spec_ciphers(script, stmts.drop_last()) {
            Err(e) => Err(e),
            Ok(cs) => if stmts.last().len() == 0 {
                Ok(cs)
            } else {
                match spec_statement(script, stmts.last()) {
                    Err(e) => Err(e),
                    Ok(c) => Ok(cs.push(c)),
                }
            },
        }
    }
}

/// What [`CipherPlan::from_body`] gives for the player script `script`.
pub open spec fn spec_plan(script: Seq<char>) -> Result<Seq<Cipher>, ErrorView> {
    match spec_decipher_body(script) {
        None => Err(ErrorView::CipherPlanNotFound),
        Some(body) => spec_ciphers(script, split_on(body, ';')),
    }
}

/// Once the statements read so far give an error, more statements give the
/// same error.
proof fn lemma_ciphers_error_sticks(script: Seq<char>, stmts: Seq<Seq<char>>, j: int, k: int)
    requires
        0 <= j <= k <= stmts.len(),
        spec_ciphers(script, stmts.subrange(0, j)) is Err,
    ensures
        spec_ciphers(script, stmts.subrange(0, k)) == spec_ciphers(script, stmts.subrange(0, j)),
    decreases k - j,
{
    if k > j {
        lemma_ciphers_error_sticks(script, stmts, j, k - 1);
        assert(stmts.subrange(0, k).drop_last() =~= stmts.subrange(0, k - 1));
    }
}

/// The cipher that a function whose body is `body` stands for, called with
/// `arg`.
pub fn classify_cipher(function_name: &str, body: &str, arg: &str) -> (r: Result<Cipher, Error>)
    requires
        argument_readable(body@, arg@),
    ensures
        r matches Ok(c) ==> spec_classify(function_name@, body@, arg@) == Ok::<Cipher, ErrorView>(
            c,
        ),
        r matches Err(e) ==> spec_classify(function_name@, body@, arg@) == Err::<
            Cipher,
            ErrorView,
        >(e@),
{
    let arg_chars = chars_of(arg);
    if str_contains(body, "reverse") {
        Ok(Cipher::Reverse(ReverseCipher))
    } else if str_contains(body, "splice") {
        let index = parse_usize_exec(arg_chars.as_slice()).unwrap();
        Ok(Cipher::Splice(SpliceCipher { index }))
    } else if str_contains(body, "%") {
        let index = parse_usize_exec(arg_chars.as_slice()).unwrap();
        Ok(Cipher::Swap(SwapCipher { index }))
    } else {
        Err(Error::UnknownCipher { function_name: function_name.to_owned(), body: body.to_owned() })
    }
}

/// A splice or swap reads its whole decimal argument as the index: for a
/// run of digits `arg` denoting `n`, a body with `splice` (and no `reverse`)
/// stands for removing the first `n` bytes, and a body with `%` (and neither
/// `reverse` nor `splice`) for swapping the first byte with byte `n`.
pub proof fn law_index_argument(name: Seq<char>, body: Seq<char>, arg: Seq<char>)
    requires
        !contains(body, "reverse"@),
        arg.len() > 0,
        all_digits(arg),
        digits_value(arg) <= usize::MAX,
    ensures
        contains(body, "splice"@) ==> spec_classify(name, body, arg) == Ok::<Cipher, ErrorView>(
            Cipher::Splice(SpliceCipher { index: digits_value(arg) as usize }),
        ),
        !contains(body, "splice"@) && contains(body, "%"@) ==> spec_classify(name, body, arg)
            == Ok::<Cipher, ErrorView>(
            Cipher::Swap(SwapCipher { index: digits_value(arg) as usize }),
        ),
        argument_readable(body, arg),
{
    lemma_parse_digits(arg);
}

/// A body that reverses stands for a reverse whatever else it holds and
/// whatever the argument; a body with none of `reverse`, `splice` and `%` is
/// an unknown cipher, reported with the function's name and body.
pub proof fn law_cipher_kind(name: Seq<char>, body: Seq<char>, arg: Seq<char>)
    ensures
        contains(body, "reverse"@) ==> spec_classify(name, body, arg) == Ok::<Cipher, ErrorView>(
            Cipher::Reverse(ReverseCipher),
        ),
        !contains(body, "reverse"@) && !contains(body, "splice"@) && !contains(body, "%"@)
            ==> spec_classify(name, body, arg) == Err::<Cipher, ErrorView>(
            ErrorView::UnknownCipher { function_name: name, body },
        ),
{
}

/// The cipher that the statement `stmt` of the decipher function calls, as
/// the cipher functions in `script` define it.
pub fn statement_cipher(script: &str, stmt: &str) -> (r: Result<Cipher, Error>)
    ensures
        r matches Ok(c) ==> spec_statement(script@, stmt@) == Ok::<Cipher, ErrorView>(c),
        r matches Err(e) ==> spec_statement(script@, stmt@) == Err::<Cipher, ErrorView>(e@),
{
    let caps = match captures(r"\w+\.(\w+)\(\w+,(\w+)\)", stmt) {
        Ok(Some(c)) => c,
        _ => {
            return Err(Error::Statement(stmt.to_owned()));
        },
    };
    if caps.len() < 3 {
        return Err(Error::Statement(stmt.to_owned()));
    }
    let name = match &caps[1] {
        Some(n) => n.clone(),
        None => {
            return Err(Error::Statement(stmt.to_owned()));
        },
    };
    let arg = match &caps[2] {
        Some(a) => a.clone(),
        None => {
            return Err(Error::Statement(stmt.to_owned()));
        },
    };
    let mut pattern = r"\b".to_owned();
    let escaped = regex_escape(name.as_str());
    pattern.append(escaped.as_str());
    pattern.append(r":function\([\w,]+\)\{(.*?)\}");
    assert(pattern@ == function_pattern(name@));
    let fc = match captures(pattern.as_str(), script) {
        Ok(Some(c)) => c,
        _ => {
            return Err(Error::CipherFunctionNotFound(name));
        },
    };
    if fc.len() < 2 {
        return Err(Error::CipherFunctionNotFound(name));
    }
    let body = match &fc[1] {
        Some(b) => b.clone(),
        None => {
            return Err(Error::CipherFunctionNotFound(name));
        },
    };
    let arg_chars = chars_of(arg.as_str());
    let needs_index = !str_contains(body.as_str(), "reverse") && (str_contains(
        body.as_str(),
        "splice",
    ) || str_contains(body.as_str(), "%"));
    if needs_index && parse_usize_exec(arg_chars.as_slice()).is_none() {
        return Err(Error::Statement(stmt.to_owned()));
    }
    classify_cipher(name.as_str(), body.as_str(), arg.as_str())
}

impl CipherPlan {
    /// Reads the plan from the script of a player: finds the decipher
    /// function, and for each of its statements the cipher function that it
    /// calls.
    pub fn from_body(body: &str) -> (r: Result<Self, Error>)
        ensures
            r matches Ok(p) ==> spec_plan(body@) == Ok::<Seq<Cipher>, ErrorView>(p@),
            r matches Err(e) ==> spec_plan(body@) == Err::<Seq<Cipher>, ErrorView>(e@),
    {
        let caps = match captures(
            r#"\w+=function\(\w+\)\{\w+=\w+\.split\(""\);(.*)?return\s+\w+\.join\(""\)\};"#,
            body,
        ) {
            Ok(Some(c)) => c,
            _ => {
                return Err(Error::CipherPlanNotFound);
            },
        };
        let decipher_body = if caps.len() > 1 {
            match &caps[1] {
                Some(d) => d.clone(),
                None => String::new(),
            }
        } else {
            String::new()
        };
        assert(spec_decipher_body(body@) == Some(decipher_body@));
        let dchars = chars_of(decipher_body.as_str());
        let parts = split_on_exec(dchars.as_slice(), ';');
        let ghost stmts = split_on(decipher_body@, ';');
        assert(char_views(parts@) =~= stmts);
        let mut ciphers: Vec<Cipher> = Vec::new();
        let mut i: usize = 0;
        assert(stmts.subrange(0, 0) =~= Seq::<Seq<char>>::empty());
        while i < parts.len()
            invariant
                i <= parts@.len(),
                stmts == char_views(parts@),
                stmts == split_on(decipher_body@, ';'),
                spec_decipher_body(body@) == Some(decipher_body@),
                spec_ciphers(body@, stmts.subrange(0, i as int)) == Ok::<Seq<Cipher>, ErrorView>(
                    ciphers@,
                ),
            decreases parts@.len() - i,
        {
            assert(stmts.subrange(0, i + 1).drop_last() =~= stmts.subrange(0, i as int));
            assert(stmts.subrange(0, i + 1).last() == parts@[i as int]@);
            if parts[i].len() > 0 {
                let stmt = string_from_chars(parts[i].as_slice());
                match statement_cipher(body, stmt.as_str()) {
                    Ok(c) => {
                        ciphers.push(c);
                    },
                    Err(e) => {
                        proof {
                            let pre = stmts.subrange(0, i + 1);
                            assert(pre.last() == stmt@);
                            assert(pre.last().len() > 0);
                            assert(spec_ciphers(body@, pre) == Err::<Seq<Cipher>, ErrorView>(e@));
                            lemma_ciphers_error_sticks(
                                body@,
                                stmts,
                                i + 1,
                                stmts.len() as int,
                            );
                            assert(stmts.subrange(0, stmts.len() as int) =~= stmts);
                        }
                        return Err(e);
                    },
                }
            }
            i += 1;
        }
        assert(stmts.subrange(0, stmts.len() as int) =~= stmts);
        Ok(CipherPlan { ciphers })
    }
}

/// Where nothing in the player's script matches the decipher pattern, no
/// plan is read and the error says that the plan was not found.
pub proof fn law_plan_not_found(script: Seq<char>)
    requires
        regex_captures(plan_pattern(), script) is Err || regex_captures(plan_pattern(), script)
            == Ok::<Option<Seq<Option<Seq<char>>>>, ()>(None),
    ensures
        spec_plan(script) == Err::<Seq<Cipher>, ErrorView>(ErrorView::CipherPlanNotFound),
{
}


// ---------------------------------------------------------------------------
// The player
// ---------------------------------------------------------------------------

/// A YouTube player, of which this crate keeps the cipher plan.
#[derive(Debug)]
pub struct Player {
    cipher_plan: CipherPlan,
}

impl View for Player {
    type V = Seq<Cipher>;

    closed spec fn view(&self) -> Seq<Cipher> {
        self.cipher_plan@
    }
}

impl Player {
    /// A player with the given cipher plan.
    pub fn new(cipher_plan: CipherPlan) -> (p: Player)
        ensures
            p@ == cipher_plan@,
    {
        Player { cipher_plan }
    }

    /// Reads a player from its script.
    pub fn from_script(script: &str) -> (r: Result<Player, Error>)
        ensures
            r matches Ok(p) ==> spec_plan(script@) == Ok::<Seq<Cipher>, ErrorView>(p@),
            r matches Err(e) ==> spec_plan(script@) == Err::<Seq<Cipher>, ErrorView>(e@),
    {
        match CipherPlan::from_body(script) {
            Ok(cipher_plan) => Ok(Player { cipher_plan }),
            Err(e) => Err(e),
        }
    }

    /// Get the [`CipherPlan`] of the player.
    pub fn cipher(&self) -> (p: &CipherPlan)
        ensures
            p@ == self@,
    {
        &self.cipher_plan
    }
}

/// The address of a player's script, given the path that a page names.
pub fn player_url(path: &str) -> (url: String)
    ensures
        url@ == "https://youtube.com"@ + path@,
{
    let mut url = "https://youtube.com".to_owned();
    url.append(path);
    url
}

} // verus!
