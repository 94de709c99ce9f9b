//! The text form of key-value commands: `PUT <key> <value>`, `GET <key>` and
//! `DELETE <key>`, with words separated by whitespace.

use vstd::prelude::*;
use vstd::string::StringExecFns;
use vstd::string::StrSliceExecFns;
use super::{Command, DeleteCommand, GetCommand, MutationCommand, PutCommand, QueryCommand};

verus! {

/// Whether `c` is a Unicode white-space character.
pub open spec fn is_white_space(c: char) -> bool {
    let n = c as u32;
    ||| 0x09 <= n <= 0x0D
    ||| n == 0x20
    ||| n == 0x85
    ||| n == 0xA0
    ||| n == 0x1680
    ||| 0x2000 <= n <= 0x200A
    ||| n == 0x2028
    ||| n == 0x2029
    ||| n == 0x202F
    ||| n == 0x205F
    ||| n == 0x3000
}

/// Whether `c` is a Unicode white-space character.
pub fn white_space(c: char) -> (r: bool)
    ensures
        r == is_white_space(c),
        0x21 <= c as u32 <= 0x7E ==> !r,
        c == ' ' || c == '\t' || c == '\n' || c == '\r' ==> r,
{
    let n = c as u32;
    (0x09 <= n && n <= 0x0D) || n == 0x20 || n == 0x85 || n == 0xA0 || n == 0x1680 || (0x2000 <= n
        && n <= 0x200A) || n == 0x2028 || n == 0x2029 || n == 0x202F || n == 0x205F || n == 0x3000
}

/// The end of the word that starts at `from`: the first white-space
/// character at or after `from`, or the end of `s`.
pub open spec fn word_end(s: Seq<char>, from: int) -> int
    decreases s.len() - from,
{
    if from >= s.len() {
        s.len() as int
    } else if is_white_space(s[from]) {
        from
    } else {
        word_end(s, from + 1)
    }
}

/// The words of `s` from position `from` on: its maximal runs of
/// non-white-space characters, in order.
pub open spec fn words_from(s: Seq<char>, from: int) -> Seq<Seq<char>>
    decreases s.len() - from,
{
    if from >= s.len() || from < 0 {
        Seq::empty()
    } else if is_white_space(s[from]) {
        words_from(s, from + 1)
    } else {
        let end = word_end(s, from);
        proof {
            lemma_word_end_bounds(s, from);
        }
        if end <= from {
            Seq::empty()
        } else {
            seq![s.subrange(from, end)] + words_from(s, end)
        }
    }
}

/// The words of `s`: its maximal runs of non-white-space characters, in order.
pub open spec fn words(s: Seq<char>) -> Seq<Seq<char>> {
    words_from(s, 0)
}

/// No printable ASCII character but the space is white space, nor any ASCII
/// control character but tab, line feed, vertical tab, form feed and
/// carriage return, so such a character never separates words; the space,
/// tab, line feed and carriage return do.
pub proof fn lemma_printable_ascii_is_not_white_space(c: char)
    ensures
        0x21 <= c as u32 <= 0x7E ==> !is_white_space(c),
        c as u32 <= 0x08 || 0x0E <= c as u32 <= 0x1F || c as u32 == 0x7F ==> !is_white_space(c),
        c == ' ' || c == '\t' || c == '\n' || c == '\r' ==> is_white_space(c),
{
}

proof fn lemma_word_end_without_white_space(s: Seq<char>, from: int)
    requires
        0 <= from <= s.len(),
        forall|i: int| from <= i < s.len() ==> !is_white_space(#[trigger] s[i]),
    ensures
        word_end(s, from) == s.len(),
    decreases s.len() - from,
{
    if from < s.len() {
        lemma_word_end_without_white_space(s, from + 1);
    }
}

/// A non-empty text without white space is one word, whatever characters
/// it holds.
pub proof fn lemma_text_without_white_space_is_one_word(s: Seq<char>)
    requires
        s.len() > 0,
        forall|i: int| 0 <= i < s.len() ==> !is_white_space(#[trigger] s[i]),
    ensures
        words(s) == seq![s],
{
    lemma_word_end_without_white_space(s, 0);
    assert(s.subrange(0, s.len() as int) =~= s);
    assert(words_from(s, s.len() as int) =~= Seq::<Seq<char>>::empty());
    assert(words(s) =~= seq![s]);
}

proof fn lemma_word_end_shift(prefix: Seq<char>, rest: Seq<char>, from: int)
    requires
        0 <= from,
    ensures
        word_end(prefix + rest, prefix.len() + from) == prefix.len() + word_end(rest, from),
    decreases rest.len() - from,
{
    let s = prefix + rest;
    if from < rest.len() {
        assert(s[prefix.len() + from] == rest[from]);
        if !is_white_space(rest[from]) {
            lemma_word_end_shift(prefix, rest, from + 1);
        }
    }
}

proof fn lemma_words_from_shift(prefix: Seq<char>, rest: Seq<char>, from: int)
    requires
        0 <= from,
    ensures
        words_from(prefix + rest, prefix.len() + from) == words_from(rest, from),
    decreases rest.len() - from,
{
    let s = prefix + rest;
    let p = prefix.len() as int;
    if from < rest.len() {
        assert(s[p + from] == rest[from]);
        if is_white_space(rest[from]) {
            lemma_words_from_shift(prefix, rest, from + 1);
        } else {
            lemma_word_end_shift(prefix, rest, from);
            lemma_word_end_bounds(rest, from);
            let end = word_end(rest, from);
            if end > from {
                lemma_words_from_shift(prefix, rest, end);
                assert(s.subrange(p + from, p + end) =~= rest.subrange(from, end));
            }
        }
    }
}

/// A word followed by a space and more text: the word, then the words of
/// the rest. So words separated by spaces are read back one by one, whatever
/// characters other than white space they hold.
pub proof fn lemma_word_then_space(word: Seq<char>, rest: Seq<char>)
    requires
        word.len() > 0,
        forall|i: int| 0 <= i < word.len() ==> !is_white_space(#[trigger] word[i]),
    ensures
        words(word + seq![' '] + rest) == seq![word] + words(rest),
{
    let s = word + seq![' '] + rest;
    let n = word.len() as int;
    assert forall|i: int| 0 <= i < n implies !is_white_space(#[trigger] s[i]) by {
        assert(s[i] == word[i]);
    }
    assert(s[n] == ' ');
    lemma_word_end_exact(s, 0, n);
    lemma_words_from_shift(word + seq![' '], rest, 0);
    assert((word + seq![' ']).len() == n + 1);
    assert(s =~= (word + seq![' ']) + rest);
    assert(words_from(s, n) == words_from(s, n + 1));
    assert(s.subrange(0, n) =~= word);
}

proof fn lemma_word_end_exact(s: Seq<char>, from: int, end: int)
    requires
        0 <= from <= end < s.len(),
        forall|i: int| from <= i < end ==> !is_white_space(#[trigger] s[i]),
        is_white_space(s[end]),
    ensures
        word_end(s, from) == end,
    decreases end - from,
{
    if from < end {
        lemma_word_end_exact(s, from + 1, end);
    }
}

/// A word ends at or after where it starts, and within the text.
pub proof fn lemma_word_end_bounds(s: Seq<char>, from: int)
    requires
        0 <= from <= s.len(),
    ensures
        from <= word_end(s, from) <= s.len(),
    decreases s.len() - from,
{
    if from < s.len() && !is_white_space(s[from]) {
        lemma_word_end_bounds(s, from + 1);
    }
}

/// Splits `s` into its words, as `str::split_whitespace` does.
pub fn split_words(s: &str) -> (split: Vec<&str>)
    ensures
        split@.len() == words(s@).len(),
        forall|i: int| 0 <= i < split@.len() ==> #[trigger] split@[i]@ == words(s@)[i],
{
    let n = s.unicode_len();
    let mut split: Vec<&str> = Vec::new();
    let mut i: usize = 0;
    while i < n
        invariant
            n == s@.len(),
            i <= n,
            split@.len() + words_from(s@, i as int).len() == words(s@).len(),
            forall|k: int| 0 <= k < split@.len() ==> #[trigger] split@[k]@ == words(s@)[k],
            forall|k: int|
                0 <= k < words_from(s@, i as int).len() ==> #[trigger] words_from(s@, i as int)[k]
                    == words(s@)[split@.len() + k],
        decreases n - i,
    {
        if white_space(s.get_char(i)) {
            i = i + 1;
        } else {
            let mut j: usize = i + 1;
            while j < n && !white_space(s.get_char(j))
                invariant
                    n == s@.len(),
                    i < j <= n,
                    !is_white_space(s@[i as int]),
                    word_end(s@, i as int) == word_end(s@, j as int),
                decreases n - j,
            {
                j = j + 1;
            }
            proof {
                lemma_word_end_bounds(s@, j as int);
                assert(word_end(s@, i as int) == j);
                let rest = words_from(s@, j as int);
                assert(words_from(s@, i as int) == seq![s@.subrange(i as int, j as int)] + rest);
                assert(words_from(s@, i as int)[0] == s@.subrange(i as int, j as int));
                assert forall|k: int| 0 <= k < rest.len() implies #[trigger] rest[k]
                    == words(s@)[split@.len() + 1 + k] by {
                    assert(rest[k] == words_from(s@, i as int)[k + 1]);
                }
            }
            let word = s.substring_char(i, j);
            split.push(word);
            i = j;
        }
    }
    split
}

/// Whether `word` is the text `expected`.
pub(crate) fn word_is(word: &str, expected: &str) -> (r: bool)
    ensures
        r == (word@ == expected@),
{
    let n = word.unicode_len();
    if n != expected.unicode_len() {
        return false;
    }
    let mut i: usize = 0;
    while i < n
        invariant
            n == word@.len(),
            n == expected@.len(),
            i <= n,
            forall|k: int| 0 <= k < i ==> word@[k] == expected@[k],
        decreases n - i,
    {
        if word.get_char(i) != expected.get_char(i) {
            return false;
        }
        i = i + 1;
    }
    assert(word@ =~= expected@);
    true
}

/// A type whose values can be read from one word of a command.
pub trait FromToken: Sized {
    /// Why a word could not be read.
    type Err;

    /// Whether `token` cannot be read as a value of this type.
    spec fn token_rejected(token: Seq<char>) -> bool;

    /// Whether `value` is what `token` reads as.
    spec fn token_parses_as(token: Seq<char>, value: Self) -> bool;

    /// Why `token` cannot be read, when it cannot.
    spec fn token_error(token: Seq<char>) -> Self::Err;

    /// Reads a value from `token`.
    fn from_token(token: &str) -> (result: Result<Self, Self::Err>)
        ensures
            result is Err <==> Self::token_rejected(token@),
            result matches Ok(value) ==> Self::token_parses_as(token@, value),
            result matches Err(e) ==> e == Self::token_error(token@),
    ;
}

/// Why a word could not be read as an unsigned integer.
#[derive(Debug, Clone, Copy, PartialEq, Eq)]
pub enum IntParseError {
    /// The word is empty.
    Empty,
    /// The word holds a character that is not a decimal digit.
    InvalidDigit,
    /// The number is above the largest value of the type.
    PosOverflow,
}

/// The value of the decimal digit `c`.
pub open spec fn digit_value(c: char) -> int {
    (c as u32) - ('0' as u32)
}

/// Whether `c` is a decimal digit.
pub open spec fn is_decimal_digit(c: char) -> bool {
    '0' <= c <= '9'
}

/// Reading the digits of `s` from position `from` on, after `value` was read
/// so far: the first character that is not a digit is an invalid digit; the
/// first digit that takes the number above `max` is an overflow.
pub open spec fn scan_digits(s: Seq<char>, from: int, value: int, max: int) -> Result<int, IntParseError>
    decreases s.len() - from,
{
    if from >= s.len() || from < 0 {
        Ok(value)
    } else if !is_decimal_digit(s[from]) {
        Err(IntParseError::InvalidDigit)
    } else if value * 10 + digit_value(s[from]) > max {
        Err(IntParseError::PosOverflow)
    } else {
        scan_digits(s, from + 1, value * 10 + digit_value(s[from]), max)
    }
}

/// What a word reads as, as an unsigned decimal integer of at most `max`: an
/// optional leading `+`, then digits.
pub open spec fn unsigned_value(s: Seq<char>, max: int) -> Result<int, IntParseError> {
    if s.len() == 0 {
        Err(IntParseError::Empty)
    } else if s.len() == 1 && (s[0] == '+' || s[0] == '-') {
        Err(IntParseError::InvalidDigit)
    } else if s[0] == '+' {
        scan_digits(s, 1, 0, max)
    } else {
        scan_digits(s, 0, 0, max)
    }
}

proof fn lemma_scan_digits_bounded(s: Seq<char>, from: int, value: int, max: int)
    requires
        0 <= value <= max,
    ensures
        scan_digits(s, from, value, max) matches Ok(v) ==> 0 <= v <= max,
    decreases s.len() - from,
{
    if from < s.len() && from >= 0 && is_decimal_digit(s[from]) && value * 10 + digit_value(s[from])
        <= max {
        lemma_scan_digits_bounded(s, from + 1, value * 10 + digit_value(s[from]), max);
    }
}

proof fn lemma_unsigned_value_bounded(s: Seq<char>, max: int)
    requires
        0 <= max,
    ensures
        unsigned_value(s, max) matches Ok(v) ==> 0 <= v <= max,
{
    lemma_scan_digits_bounded(s, 0, 0, max);
    lemma_scan_digits_bounded(s, 1, 0, max);
}

/// Reads an unsigned decimal integer of at most `max` from `token`.
fn parse_unsigned(token: &str, max: u64) -> (result: Result<u64, IntParseError>)
    ensures
        match (result, unsigned_value(token@, max as int)) {
            (Ok(v), Ok(w)) => v == w,
            (Err(e), Err(f)) => e == f,
            _ => false,
        },
{
    let n = token.unicode_len();
    if n == 0 {
        return Err(IntParseError::Empty);
    }
    let first = token.get_char(0);
    if n == 1 && (first == '+' || first == '-') {
        return Err(IntParseError::InvalidDigit);
    }
    let mut i: usize = if first == '+' {
        1
    } else {
        0
    };
    let ghost start = i as int;
    let mut value: u64 = 0;
    while i < n
        invariant
            n == token@.len(),
            start <= i <= n,
            0 <= value <= max,
            unsigned_value(token@, max as int) == scan_digits(
                token@,
                i as int,
                value as int,
                max as int,
            ),
        decreases n - i,
    {
        let c = token.get_char(i);
        if !('0' <= c && c <= '9') {
            return Err(IntParseError::InvalidDigit);
        }
        let digit = (c as u32 - '0' as u32) as u64;
        let next: u128 = (value as u128) * 10 + (digit as u128);
        if next > max as u128 {
            return Err(IntParseError::PosOverflow);
        }
        value = next as u64;
        i = i + 1;
    }
    Ok(value)
}

impl FromToken for u64 {
    type Err = IntParseError;

    open spec fn token_rejected(token: Seq<char>) -> bool {
        unsigned_value(token, u64::MAX as int) is Err
    }

    open spec fn token_parses_as(token: Seq<char>, value: u64) -> bool {
        unsigned_value(token, u64::MAX as int) == Ok::<int, IntParseError>(value as int)
    }

    open spec fn token_error(token: Seq<char>) -> IntParseError {
        match unsigned_value(token, u64::MAX as int) {
            Err(e) => e,
            Ok(_) => IntParseError::Empty,
        }
    }

    /// Reads a decimal `u64`, as `u64::from_str` does.
    fn from_token(token: &str) -> (result: Result<u64, IntParseError>) {
        parse_unsigned(token, u64::MAX)
    }
}

impl FromToken for usize {
    type Err = IntParseError;

    open spec fn token_rejected(token: Seq<char>) -> bool {
        unsigned_value(token, usize::MAX as int) is Err
    }

    open spec fn token_parses_as(token: Seq<char>, value: usize) -> bool {
        unsigned_value(token, usize::MAX as int) == Ok::<int, IntParseError>(value as int)
    }

    open spec fn token_error(token: Seq<char>) -> IntParseError {
        match unsigned_value(token, usize::MAX as int) {
            Err(e) => e,
            Ok(_) => IntParseError::Empty,
        }
    }

    /// Reads a decimal `usize`, as `usize::from_str` does.
    fn from_token(token: &str) -> (result: Result<usize, IntParseError>) {
        let result = parse_unsigned(token, usize::MAX as u64);
        proof {
            lemma_unsigned_value_bounded(token@, usize::MAX as int);
        }
        match result {
            Ok(v) => Ok(v as usize),
            Err(e) => Err(e),
        }
    }
}

impl FromToken for String {
    type Err = ();

    open spec fn token_rejected(token: Seq<char>) -> bool {
        false
    }

    open spec fn token_parses_as(token: Seq<char>, value: String) -> bool {
        value@ == token
    }

    open spec fn token_error(token: Seq<char>) -> () {
        ()
    }

    /// Any word reads as itself.
    fn from_token(token: &str) -> (result: Result<String, ()>) {
        Ok(String::from_str(token))
    }
}

#[verifier::external_type_specification]
#[verifier::external_body]
pub struct ExJsonValue(serde_json::Value);

#[verifier::external_type_specification]
#[verifier::external_body]
pub struct ExJsonError(serde_json::Error);

/// What `serde_json::from_str::<serde_json::Value>` reads out of `text`: the
/// JSON value, or the error that tells why `text` is not JSON.
pub uninterp spec fn json_read(text: Seq<char>) -> Result<serde_json::Value, serde_json::Error>;

/// `serde_json::from_str::<serde_json::Value>`. Claimed: its result is
/// `json_read(text)`.
#[verifier::external_body]
fn json_from_str(text: &str) -> (result: Result<serde_json::Value, serde_json::Error>)
    ensures
        result == json_read(text@),
{
    serde_json::from_str(text)
}

impl FromToken for serde_json::Value {
    type Err = serde_json::Error;

    open spec fn token_rejected(token: Seq<char>) -> bool {
        json_read(token) is Err
    }

    open spec fn token_parses_as(token: Seq<char>, value: serde_json::Value) -> bool {
        json_read(token) == Ok::<serde_json::Value, serde_json::Error>(value)
    }

    open spec fn token_error(token: Seq<char>) -> serde_json::Error {
        json_read(token)->Err_0
    }

    /// Reads a word as a JSON value.
    fn from_token(token: &str) -> (result: Result<serde_json::Value, serde_json::Error>) {
        json_from_str(token)
    }
}

/// Why a word of a command could not be read.
#[derive(Debug)]
pub struct ParseError<T> {
    pub error: T,
}

/// Why a command with a key and a value could not be read.
#[derive(Debug)]
pub enum KeyValueError<K, V> {
    KeyError(ParseError<K>),
    ValueError(ParseError<V>),
    CommandError(ParseError<&'static str>),
}

/// Why a command with a key could not be read.
#[derive(Debug)]
pub enum KeyError<K> {
    KeyError(ParseError<K>),
    CommandError(ParseError<&'static str>),
}

pub const PUT_SHAPE: &'static str = "Invalid command. A PUT command should look like: PUT <key> <value>";

pub const PUT_START: &'static str = "Invalid command. A PUT command must start with: PUT";

pub const GET_SHAPE: &'static str = "Invalid command. A GET command should look like: GET <key>";

pub const GET_START: &'static str = "Invalid command. A GET command must start with: GET";

pub const DELETE_SHAPE: &'static str = "Invalid command. A DELETE command should look like: DELETE <key>";

pub const DELETE_START: &'static str = "Invalid command. A DELETE command must start with: DELETE";

pub const MUTATION_UNKNOWN: &'static str = "Could not parse mutation command.";

pub const QUERY_UNKNOWN: &'static str = "Could not parse query command.";

pub const COMMAND_UNKNOWN: &'static str = "Could not parse given value into a valid command.";

/// The word `PUT`.
pub open spec fn put_word() -> Seq<char> {
    seq!['P', 'U', 'T']
}

/// The word `GET`.
pub open spec fn get_word() -> Seq<char> {
    seq!['G', 'E', 'T']
}

/// The word `DELETE`.
pub open spec fn delete_word() -> Seq<char> {
    seq!['D', 'E', 'L', 'E', 'T', 'E']
}

/// Whether `s` reads as a put: three words, the first `PUT`, then a key
/// and a value that both read.
pub open spec fn reads_as_put<K: FromToken, V: FromToken>(s: Seq<char>) -> bool {
    let w = words(s);
    &&& w.len() == 3
    &&& w[0] == put_word()
    &&& !K::token_rejected(w[1])
    &&& !V::token_rejected(w[2])
}

/// Whether `s` reads as a get: two words, the first `GET`, then a key that reads.
pub open spec fn reads_as_get<K: FromToken>(s: Seq<char>) -> bool {
    let w = words(s);
    &&& w.len() == 2
    &&& w[0] == get_word()
    &&& !K::token_rejected(w[1])
}

/// Whether `s` reads as a delete: two words, the first `DELETE`, then a key
/// that reads.
pub open spec fn reads_as_delete<K: FromToken>(s: Seq<char>) -> bool {
    let w = words(s);
    &&& w.len() == 2
    &&& w[0] == delete_word()
    &&& !K::token_rejected(w[1])
}

/// Whether `command` is what `s` reads as, given that it reads as a put.
pub open spec fn put_read_from<K: FromToken, V: FromToken>(s: Seq<char>, command: PutCommand<K, V>) -> bool {
    &&& K::token_parses_as(words(s)[1], command.key)
    &&& V::token_parses_as(words(s)[2], command.value)
}

/// Whether `key` is the key that `s` reads as, given that it reads as a get
/// or a delete.
pub open spec fn key_read_from<K: FromToken>(s: Seq<char>, key: K) -> bool {
    K::token_parses_as(words(s)[1], key)
}

/// Whether `s` reads as any command: a put, a delete or a get.
pub open spec fn reads_as_command<K: FromToken, V: FromToken>(s: Seq<char>) -> bool {
    reads_as_put::<K, V>(s) || reads_as_delete::<K>(s) || reads_as_get::<K>(s)
}

/// Whether `command` is what `s` reads as, when a put, a delete and a get are
/// tried in that order.
pub open spec fn command_read_from<K: FromToken, V: FromToken>(s: Seq<char>, command: Command<K, V>) -> bool {
    match command {
        Command::PUT(put) => reads_as_put::<K, V>(s) && put_read_from(s, put),
        Command::DELETE(delete) => !reads_as_put::<K, V>(s) && reads_as_delete::<K>(s)
            && key_read_from(s, delete.key),
        Command::GET(get) => !reads_as_put::<K, V>(s) && !reads_as_delete::<K>(s) && reads_as_get::<
            K,
        >(s) && key_read_from(s, get.key),
    }
}

proof fn lemma_literals()
    ensures
        "PUT"@ == put_word(),
        "GET"@ == get_word(),
        "DELETE"@ == delete_word(),
{
    reveal_strlit("PUT");
    reveal_strlit("GET");
    reveal_strlit("DELETE");
    assert("PUT"@ =~= put_word());
    assert("GET"@ =~= get_word());
    assert("DELETE"@ =~= delete_word());
}

impl<K: FromToken, V: FromToken> PutCommand<K, V> {
    /// Reads `PUT <key> <value>`. A text that is not three words fails with
    /// `PUT_SHAPE`, one whose first word is not `PUT` with `PUT_START`; then a
    /// value that does not read fails with a value error, and otherwise a key
    /// that does not read with a key error.
    pub fn try_from(value: &str) -> (result: Result<Self, KeyValueError<K::Err, V::Err>>)
        ensures
            match result {
                Ok(command) => reads_as_put::<K, V>(value@) && put_read_from(value@, command),
                Err(KeyValueError::CommandError(e)) => {
                    ||| (words(value@).len() != 3 && e.error == PUT_SHAPE)
                    ||| (words(value@).len() == 3 && words(value@)[0] != put_word() && e.error
                        == PUT_START)
                },
                Err(KeyValueError::ValueError(e)) => {
                    &&& words(value@).len() == 3
                    &&& words(value@)[0] == put_word()
                    &&& V::token_rejected(words(value@)[2])
                    &&& e.error == V::token_error(words(value@)[2])
                },
                Err(KeyValueError::KeyError(e)) => {
                    &&& words(value@).len() == 3
                    &&& words(value@)[0] == put_word()
                    &&& !V::token_rejected(words(value@)[2])
                    &&& K::token_rejected(words(value@)[1])
                    &&& e.error == K::token_error(words(value@)[1])
                },
            },
    {
        proof {
            lemma_literals();
        }
        let tokens = split_words(value);
        if tokens.len() != 3 {
            return Err(KeyValueError::CommandError(ParseError { error: PUT_SHAPE }));
        }
        if !word_is(tokens[0], "PUT") {
            return Err(KeyValueError::CommandError(ParseError { error: PUT_START }));
        }
        let key = K::from_token(tokens[1]);
        let val = V::from_token(tokens[2]);
        match (key, val) {
            (Ok(k), Ok(v)) => Ok(PutCommand { key: k, value: v }),
            (_, Err(err)) => Err(KeyValueError::ValueError(ParseError { error: err })),
            (Err(err), _) => Err(KeyValueError::KeyError(ParseError { error: err })),
        }
    }
}

impl<K: FromToken> GetCommand<K> {
    /// Reads `GET <key>`. A text that is not two words fails with
    /// `GET_SHAPE`, one whose first word is not `GET` with `GET_START`, and
    /// a key that does not read with a key error.
    pub fn try_from(value: &str) -> (result: Result<Self, KeyError<K::Err>>)
        ensures
            match result {
                Ok(command) => reads_as_get::<K>(value@) && key_read_from(value@, command.key),
                Err(KeyError::CommandError(e)) => {
                    ||| (words(value@).len() != 2 && e.error == GET_SHAPE)
                    ||| (words(value@).len() == 2 && words(value@)[0] != get_word() && e.error
                        == GET_START)
                },
                Err(KeyError::KeyError(e)) => {
                    &&& words(value@).len() == 2
                    &&& words(value@)[0] == get_word()
                    &&& K::token_rejected(words(value@)[1])
                    &&& e.error == K::token_error(words(value@)[1])
                },
            },
    {
        proof {
            lemma_literals();
        }
        let tokens = split_words(value);
        if tokens.len() != 2 {
            return Err(KeyError::CommandError(ParseError { error: GET_SHAPE }));
        }
        if !word_is(tokens[0], "GET") {
            return Err(KeyError::CommandError(ParseError { error: GET_START }));
        }
        match K::from_token(tokens[1]) {
            Ok(k) => Ok(GetCommand { key: k }),
            Err(err) => Err(KeyError::KeyError(ParseError { error: err })),
        }
    }
}

impl<K: FromToken> DeleteCommand<K> {
    /// Reads `DELETE <key>`. A text that is not two words fails with
    /// `DELETE_SHAPE`, one whose first word is not `DELETE` with
    /// `DELETE_START`, and a key that does not read with a key error.
    pub fn try_from(value: &str) -> (result: Result<Self, KeyError<K::Err>>)
        ensures
            match result {
                Ok(command) => reads_as_delete::<K>(value@) && key_read_from(value@, command.key),
                Err(KeyError::CommandError(e)) => {
                    ||| (words(value@).len() != 2 && e.error == DELETE_SHAPE)
                    ||| (words(value@).len() == 2 && words(value@)[0] != delete_word() && e.error
                        == DELETE_START)
                },
                Err(KeyError::KeyError(e)) => {
                    &&& words(value@).len() == 2
                    &&& words(value@)[0] == delete_word()
                    &&& K::token_rejected(words(value@)[1])
                    &&& e.error == K::token_error(words(value@)[1])
                },
            },
    {
        proof {
            lemma_literals();
        }
        let tokens = split_words(value);
        if tokens.len() != 2 {
            return Err(KeyError::CommandError(ParseError { error: DELETE_SHAPE }));
        }
        if !word_is(tokens[0], "DELETE") {
            return Err(KeyError::CommandError(ParseError { error: DELETE_START }));
        }
        match K::from_token(tokens[1]) {
            Ok(k) => Ok(DeleteCommand { key: k }),
            Err(err) => Err(KeyError::KeyError(ParseError { error: err })),
        }
    }
}

impl<K: FromToken, V: FromToken> MutationCommand<K, V> {
    /// Reads a put or, failing that, a delete; fails with `MUTATION_UNKNOWN`
    /// when the text is neither.
    pub fn try_from(value: &str) -> (result: Result<Self, KeyValueError<K::Err, V::Err>>)
        ensures
            match result {
                Ok(MutationCommand::PUT(command)) => reads_as_put::<K, V>(value@) && put_read_from(
                    value@,
                    command,
                ),
                Ok(MutationCommand::DELETE(command)) => !reads_as_put::<K, V>(value@)
                    && reads_as_delete::<K>(value@) && key_read_from(value@, command.key),
                Err(e) => !reads_as_put::<K, V>(value@) && !reads_as_delete::<K>(value@) && (
                e matches KeyValueError::CommandError(pe) && pe.error == MUTATION_UNKNOWN),
            },
    {
        if let Ok(put) = PutCommand::<K, V>::try_from(value) {
            Ok(MutationCommand::PUT(put))
        } else if let Ok(delete) = DeleteCommand::<K>::try_from(value) {
            Ok(MutationCommand::DELETE(delete))
        } else {
            Err(KeyValueError::CommandError(ParseError { error: MUTATION_UNKNOWN }))
        }
    }
}

impl<K: FromToken> QueryCommand<K> {
    /// Reads a get; fails with `QUERY_UNKNOWN` when the text is not one.
    pub fn try_from(value: &str) -> (result: Result<Self, KeyError<K::Err>>)
        ensures
            match result {
                Ok(QueryCommand::GET(command)) => reads_as_get::<K>(value@) && key_read_from(
                    value@,
                    command.key,
                ),
                Err(e) => !reads_as_get::<K>(value@) && (e matches KeyError::CommandError(pe)
                    && pe.error == QUERY_UNKNOWN),
            },
    {
        if let Ok(get) = GetCommand::<K>::try_from(value) {
            Ok(QueryCommand::GET(get))
        } else {
            Err(KeyError::CommandError(ParseError { error: QUERY_UNKNOWN }))
        }
    }
}

impl<K: FromToken, V: FromToken> Command<K, V> {
    /// Reads a put, a delete or a get, tried in that order; fails with
    /// `COMMAND_UNKNOWN` when the text is none of them.
    pub fn try_from(value: &str) -> (result: Result<Self, KeyValueError<K::Err, V::Err>>)
        ensures
            match result {
                Ok(command) => command_read_from(value@, command),
                Err(e) => !reads_as_command::<K, V>(value@) && (e matches KeyValueError::CommandError(
                    pe,
                ) && pe.error == COMMAND_UNKNOWN),
            },
    {
        if let Ok(put) = PutCommand::<K, V>::try_from(value) {
            Ok(Command::PUT(put))
        } else if let Ok(delete) = DeleteCommand::<K>::try_from(value) {
            Ok(Command::DELETE(delete))
        } else if let Ok(get) = GetCommand::<K>::try_from(value) {
            Ok(Command::GET(get))
        } else {
            Err(KeyValueError::CommandError(ParseError { error: COMMAND_UNKNOWN }))
        }
    }
}

} // verus!
