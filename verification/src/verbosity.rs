//! How verbose the program's trace output is: the level named by the
//! `VERBOSITY` setting, read as tracing reads a level.
use vstd::prelude::*;

verus! {

/// The trace levels, from the least verbose to the most.
#[derive(Debug, Clone, Copy, PartialEq, Eq)]
pub enum Verbosity {
    Error,
    Warn,
    Info,
    Debug,
    Trace,
}

/// Whether `c` is an ASCII decimal digit.
pub open spec fn is_digit(c: char) -> bool {
    '0' <= c && c <= '9'
}

/// The value of a string of decimal digits.
pub open spec fn digits_value(digits: Seq<char>) -> nat
    decreases digits.len(),
{
    if digits.len() == 0 {
        0
    } else {
        digits_value(digits.drop_last()) * 10 + (digits.last() as nat - '0' as nat) as nat
    }
}

/// `text` without the `+` it may start with.
pub open spec fn unsigned_digits(text: Seq<char>) -> Seq<char> {
    if text.len() > 0 && text[0] == '+' {
        text.drop_first()
    } else {
        text
    }
}

/// The number that `text` spells as an unsigned integer: an optional `+`
/// followed by one or more decimal digits, and nothing else.
pub open spec fn unsigned_number(text: Seq<char>) -> Option<nat> {
    let digits = unsigned_digits(text);
    if digits.len() > 0 && (forall|i: int| 0 <= i < digits.len() ==> is_digit(#[trigger] digits[i])) {
        Some(digits_value(digits))
    } else {
        None
    }
}

/// Whether `text` is `name`, a word of lower-case ASCII letters, ignoring
/// ASCII case.
pub open spec fn names(text: Seq<char>, name: Seq<char>) -> bool {
    &&& text.len() == name.len()
    &&& forall|i: int|
        0 <= i < text.len() ==> (#[trigger] text[i] == name[i] || text[i] as int == name[i] as int
            - 32)
}

/// The level that `text` names: a number from 1 (`Error`) to 5 (`Trace`),
/// or else the level's name in any ASCII case; `None` for anything else.
pub open spec fn named_level(text: Seq<char>) -> Option<Verbosity> {
    let number = unsigned_number(text);
    if number == Some(1nat) {
        Some(Verbosity::Error)
    } else if number == Some(2nat) {
        Some(Verbosity::Warn)
    } else if number == Some(3nat) {
        Some(Verbosity::Info)
    } else if number == Some(4nat) {
        Some(Verbosity::Debug)
    } else if number == Some(5nat) {
        Some(Verbosity::Trace)
    } else if names(text, "error"@) {
        Some(Verbosity::Error)
    } else if names(text, "warn"@) {
        Some(Verbosity::Warn)
    } else if names(text, "info"@) {
        Some(Verbosity::Info)
    } else if names(text, "debug"@) {
        Some(Verbosity::Debug)
    } else if names(text, "trace"@) {
        Some(Verbosity::Trace)
    } else {
        None
    }
}

/// The level chosen for the setting `verbosity`: an unset setting stands for
/// `"INFO"`, and a setting that names no level gives `Info`.
pub open spec fn chosen_level(verbosity: Option<Seq<char>>) -> Verbosity {
    let text = match verbosity {
        Some(text) => text,
        None => "INFO"@,
    };
    match named_level(text) {
        Some(level) => level,
        None => Verbosity::Info,
    }
}

/// Reads `text` as tracing's `Level` parser (`FromStr for tracing::Level`)
/// does: as an unsigned number from 1 to 5, else as a level name ignoring
/// ASCII case.
#[verifier::external_body]
fn parse_verbosity(text: &str) -> (level: Option<Verbosity>)
    ensures
        level == named_level(text@),
{
    match text.parse::<tracing::Level>() {
        Ok(tracing::Level::ERROR) => Some(Verbosity::Error),
        Ok(tracing::Level::WARN) => Some(Verbosity::Warn),
        Ok(tracing::Level::INFO) => Some(Verbosity::Info),
        Ok(tracing::Level::DEBUG) => Some(Verbosity::Debug),
        Ok(tracing::Level::TRACE) => Some(Verbosity::Trace),
        Err(_) => None,
    }
}

/// The level for the `VERBOSITY` setting, `None` where it is not set.
pub fn verbosity_level(verbosity: Option<&str>) -> (level: Verbosity)
    ensures
        level == chosen_level(
            match verbosity {
                Some(text) => Some(text@),
                None => None,
            },
        ),
{
    let parsed = match verbosity {
        Some(text) => parse_verbosity(text),
        None => parse_verbosity("INFO"),
    };
    match parsed {
        Some(level) => level,
        None => Verbosity::Info,
    }
}

/// `c`, with an ASCII upper-case letter turned to lower case.
pub open spec fn ascii_lowercase(c: char) -> char {
    if 'A' <= c && c <= 'Z' {
        (c as int + 32) as char
    } else {
        c
    }
}

/// Whether `c` is an ASCII lower-case letter.
pub open spec fn is_lowercase_letter(c: char) -> bool {
    'a' <= c && c <= 'z'
}

/// A setting that is a level's name, in any mix of ASCII cases, chooses that
/// level.
pub proof fn lemma_level_names_choose_their_level(text: Seq<char>)
    ensures
        text.map_values(|c: char| ascii_lowercase(c)) == "error"@ ==> chosen_level(Some(text))
            == Verbosity::Error,
        text.map_values(|c: char| ascii_lowercase(c)) == "warn"@ ==> chosen_level(Some(text))
            == Verbosity::Warn,
        text.map_values(|c: char| ascii_lowercase(c)) == "info"@ ==> chosen_level(Some(text))
            == Verbosity::Info,
        text.map_values(|c: char| ascii_lowercase(c)) == "debug"@ ==> chosen_level(Some(text))
            == Verbosity::Debug,
        text.map_values(|c: char| ascii_lowercase(c)) == "trace"@ ==> chosen_level(Some(text))
            == Verbosity::Trace,
{
    reveal_strlit("error");
    reveal_strlit("warn");
    reveal_strlit("info");
    reveal_strlit("debug");
    reveal_strlit("trace");
    let lower = text.map_values(|c: char| ascii_lowercase(c));
    if lower == "error"@ {
        lemma_spelled_word(text, "error"@);
        lemma_other_word(text, "error"@, "warn"@);
        assert(named_level(text) == Some(Verbosity::Error));
    } else if lower == "warn"@ {
        lemma_spelled_word(text, "warn"@);
        lemma_other_word(text, "warn"@, "error"@);
        assert(named_level(text) == Some(Verbosity::Warn));
    } else if lower == "info"@ {
        lemma_spelled_word(text, "info"@);
        lemma_other_word(text, "info"@, "error"@);
        lemma_other_word(text, "info"@, "warn"@);
        assert(named_level(text) == Some(Verbosity::Info));
    } else if lower == "debug"@ {
        lemma_spelled_word(text, "debug"@);
        lemma_other_word(text, "debug"@, "error"@);
        lemma_other_word(text, "debug"@, "warn"@);
        lemma_other_word(text, "debug"@, "info"@);
        assert(named_level(text) == Some(Verbosity::Debug));
    } else if lower == "trace"@ {
        lemma_spelled_word(text, "trace"@);
        lemma_other_word(text, "trace"@, "error"@);
        lemma_other_word(text, "trace"@, "warn"@);
        lemma_other_word(text, "trace"@, "info"@);
        lemma_other_word(text, "trace"@, "debug"@);
        assert(named_level(text) == Some(Verbosity::Trace));
    }
}

/// A text that spells `word`, a word of lower-case letters, in any case is no
/// number and is that word ignoring case.
proof fn lemma_spelled_word(text: Seq<char>, word: Seq<char>)
    requires
        word.len() > 0,
        forall|i: int| 0 <= i < word.len() ==> is_lowercase_letter(#[trigger] word[i]),
        text.map_values(|c: char| ascii_lowercase(c)) == word,
    ensures
        unsigned_number(text) is None,
        names(text, word),
{
    assert(text.len() == word.len());
    assert forall|i: int| 0 <= i < text.len() implies (#[trigger] text[i] == word[i] || text[i] as int
        == word[i] as int - 32) by {
        assert(text.map_values(|c: char| ascii_lowercase(c))[i] == ascii_lowercase(text[i]));
        assert(is_lowercase_letter(word[i]));
    }
    assert(text[0] == word[0] || text[0] as int == word[0] as int - 32);
    assert(is_lowercase_letter(word[0]));
    assert(!is_digit(text[0]) && text[0] != '+');
    assert(unsigned_digits(text) == text);
    assert(!is_digit(unsigned_digits(text)[0]));
}

/// A text that spells `word` ignoring case is not `other`, a word whose first
/// letter differs, ignoring case.
proof fn lemma_other_word(text: Seq<char>, word: Seq<char>, other: Seq<char>)
    requires
        word.len() > 0,
        other.len() > 0,
        is_lowercase_letter(word[0]),
        is_lowercase_letter(other[0]),
        word[0] != other[0],
        text.map_values(|c: char| ascii_lowercase(c)) == word,
    ensures
        !names(text, other),
{
    if text.len() == other.len() {
        assert(text.map_values(|c: char| ascii_lowercase(c))[0] == ascii_lowercase(text[0]));
        assert(!(text[0] == other[0] || text[0] as int == other[0] as int - 32));
    }
}

/// The text of a level number: an optional `+`, any number of leading
/// zeros, then the digit.
pub open spec fn numeral(plus: bool, zeros: nat, digit: char) -> Seq<char> {
    (if plus {
        seq!['+']
    } else {
        Seq::empty()
    }) + Seq::new(zeros, |i: int| '0') + seq![digit]
}

/// A setting that is a number from 1 to 5 chooses the levels from `Error`
/// (1) to `Trace` (5), with or without a `+` and leading zeros.
pub proof fn lemma_level_numbers_choose_their_level(plus: bool, zeros: nat)
    ensures
        chosen_level(Some(numeral(plus, zeros, '1'))) == Verbosity::Error,
        chosen_level(Some(numeral(plus, zeros, '2'))) == Verbosity::Warn,
        chosen_level(Some(numeral(plus, zeros, '3'))) == Verbosity::Info,
        chosen_level(Some(numeral(plus, zeros, '4'))) == Verbosity::Debug,
        chosen_level(Some(numeral(plus, zeros, '5'))) == Verbosity::Trace,
{
    lemma_numeral_value(plus, zeros, '1');
    lemma_numeral_value(plus, zeros, '2');
    lemma_numeral_value(plus, zeros, '3');
    lemma_numeral_value(plus, zeros, '4');
    lemma_numeral_value(plus, zeros, '5');
}

/// A numeral's value is its last digit.
proof fn lemma_numeral_value(plus: bool, zeros: nat, digit: char)
    requires
        is_digit(digit),
    ensures
        unsigned_number(numeral(plus, zeros, digit)) == Some((digit as int - '0' as int) as nat),
{
    let text = numeral(plus, zeros, digit);
    let digits = Seq::new(zeros, |i: int| '0').push(digit);
    if plus {
        assert(text[0] == '+');
        assert(text.drop_first() =~= digits);
    } else {
        assert(text =~= digits);
        assert(text[0] != '+');
    }
    assert(forall|i: int| 0 <= i < digits.len() ==> is_digit(#[trigger] digits[i]));
    lemma_zeros_value(zeros);
    assert(digits.drop_last() =~= Seq::new(zeros, |i: int| '0'));
    assert(digits.last() == digit);
}

/// A run of zeros has the value zero.
proof fn lemma_zeros_value(zeros: nat)
    ensures
        digits_value(Seq::new(zeros, |i: int| '0')) == 0,
    decreases zeros,
{
    if zeros > 0 {
        lemma_zeros_value((zeros - 1) as nat);
        assert(Seq::new(zeros, |i: int| '0').drop_last() =~= Seq::new(
            (zeros - 1) as nat,
            |i: int| '0',
        ));
    }
}

/// An unset setting chooses `Info`, as does a set one that is empty, only
/// zeros, or holds a character that is no ASCII letter, digit or `+`.
pub proof fn lemma_settings_naming_no_level_give_info(text: Seq<char>)
    ensures
        chosen_level(None) == Verbosity::Info,
        (forall|i: int| 0 <= i < text.len() ==> #[trigger] text[i] == '0') ==> chosen_level(
            Some(text),
        ) == Verbosity::Info,
        (exists|i: int|
            0 <= i < text.len() && !('a' <= #[trigger] text[i] <= 'z' || 'A' <= text[i] <= 'Z'
                || is_digit(text[i]) || text[i] == '+')) ==> chosen_level(Some(text))
            == Verbosity::Info,
{
    lemma_spelled_word_info();
    if text.len() == 0 {
        lemma_no_letter_at(text, 0);
    } else if forall|i: int| 0 <= i < text.len() ==> #[trigger] text[i] == '0' {
        assert(text[0] == '0');
        assert(text =~= Seq::new(text.len(), |i: int| '0'));
        lemma_zeros_value(text.len());
        assert(forall|i: int| 0 <= i < text.len() ==> is_digit(#[trigger] text[i]));
        assert(unsigned_number(text) == Some(0nat));
        lemma_no_letter_at(text, 0);
    }
    if exists|i: int|
        0 <= i < text.len() && !('a' <= #[trigger] text[i] <= 'z' || 'A' <= text[i] <= 'Z'
            || is_digit(text[i]) || text[i] == '+') {
        let k = choose|i: int|
            0 <= i < text.len() && !('a' <= #[trigger] text[i] <= 'z' || 'A' <= text[i] <= 'Z'
                || is_digit(text[i]) || text[i] == '+');
        if text[0] == '+' {
            assert(k > 0);
            assert(unsigned_digits(text)[k - 1] == text[k]);
            assert(!is_digit(unsigned_digits(text)[k - 1]));
        } else {
            assert(!is_digit(unsigned_digits(text)[k]));
        }
        assert(unsigned_number(text) is None);
        lemma_no_letter_at(text, k);
    }
}

/// A text with no letter at `at` (or an empty one, for `at == 0`) names no
/// level.
proof fn lemma_no_letter_at(text: Seq<char>, at: int)
    requires
        text.len() == 0 && at == 0 || 0 <= at < text.len() && !('a' <= text[at] <= 'z' || 'A'
            <= text[at] <= 'Z'),
    ensures
        !names(text, "error"@),
        !names(text, "warn"@),
        !names(text, "info"@),
        !names(text, "debug"@),
        !names(text, "trace"@),
{
    reveal_strlit("error");
    reveal_strlit("warn");
    reveal_strlit("info");
    reveal_strlit("debug");
    reveal_strlit("trace");
    if text.len() > 0 {
        assert(is_lowercase_letter("error"@[at]) || at >= 5);
        assert(is_lowercase_letter("warn"@[at]) || at >= 4);
        assert(is_lowercase_letter("info"@[at]) || at >= 4);
        assert(is_lowercase_letter("debug"@[at]) || at >= 5);
        assert(is_lowercase_letter("trace"@[at]) || at >= 5);
    }
}

/// The text an unset setting stands for names `Info`.
proof fn lemma_spelled_word_info()
    ensures
        named_level("INFO"@) == Some(Verbosity::Info),
{
    reveal_strlit("INFO");
    reveal_strlit("info");
    reveal_strlit("error");
    reveal_strlit("warn");
    assert("INFO"@.map_values(|c: char| ascii_lowercase(c)) =~= "info"@);
    lemma_spelled_word("INFO"@, "info"@);
    lemma_other_word("INFO"@, "info"@, "error"@);
    lemma_other_word("INFO"@, "info"@, "warn"@);
}

} // verus!
