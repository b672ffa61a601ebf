use vstd::prelude::*;

verus! {

/// Whether `c` has the Unicode `White_Space` property, which is what
/// `char::is_whitespace` tests: tab to carriage return, space, next line,
/// no-break space, ogham space mark, the spaces from en quad to hair space,
/// line and paragraph separators, narrow no-break space, medium
/// mathematical space and ideographic space.
pub open spec fn is_white_space(c: char) -> bool {
    let u = c as int;
    ||| 0x9 <= u <= 0xD
    ||| u == 0x20
    ||| u == 0x85
    ||| u == 0xA0
    ||| u == 0x1680
    ||| 0x2000 <= u <= 0x200A
    ||| u == 0x2028
    ||| u == 0x2029
    ||| u == 0x202F
    ||| u == 0x205F
    ||| u == 0x3000
}

/// `s` without its leading whitespace.
pub open spec fn trimmed_start(s: Seq<char>) -> Seq<char>
    decreases s.len(),
{
    if s.len() > 0 && is_white_space(s[0]) {
        trimmed_start(s.drop_first())
    } else {
        s
    }
}

/// `s` without its trailing whitespace.
pub open spec fn trimmed_end(s: Seq<char>) -> Seq<char>
    decreases s.len(),
{
    if s.len() > 0 && is_white_space(s.last()) {
        trimmed_end(s.drop_last())
    } else {
        s
    }
}

/// What `str::trim` returns for a string: the string without its leading
/// and trailing whitespace.
pub open spec fn trimmed(s: Seq<char>) -> Seq<char> {
    trimmed_end(trimmed_start(s))
}

/// What `str::to_lowercase` returns for a string: its Unicode lowercase
/// mapping.
pub uninterp spec fn lowercased(s: Seq<char>) -> Seq<char>;

/// Dropping leading whitespace removes a whitespace prefix: what is left is
/// a suffix of `s` that does not start with whitespace.
proof fn trim_start_is_suffix(s: Seq<char>)
    ensures
        trimmed_start(s).len() <= s.len(),
        trimmed_start(s) == s.subrange(s.len() - trimmed_start(s).len(), s.len() as int),
        forall|k: int| 0 <= k < s.len() - trimmed_start(s).len() ==> is_white_space(#[trigger] s[k]),
        trimmed_start(s).len() > 0 ==> !is_white_space(trimmed_start(s)[0]),
    decreases s.len(),
{
    if s.len() > 0 && is_white_space(s[0]) {
        let t = s.drop_first();
        trim_start_is_suffix(t);
        assert forall|k: int| 0 <= k < s.len() - trimmed_start(s).len() implies is_white_space(#[trigger] s[k]) by {
            if k > 0 {
                assert(s[k] == t[k - 1]);
            }
        }
        assert(trimmed_start(s) =~= s.subrange(s.len() - trimmed_start(s).len(), s.len() as int));
    } else {
        assert(s.subrange(0, s.len() as int) =~= s);
    }
}

/// Dropping trailing whitespace removes a whitespace suffix: what is left
/// is a prefix of `s` that does not end with whitespace.
proof fn trim_end_is_prefix(s: Seq<char>)
    ensures
        trimmed_end(s).len() <= s.len(),
        trimmed_end(s) == s.subrange(0, trimmed_end(s).len() as int),
        forall|k: int| trimmed_end(s).len() <= k < s.len() ==> is_white_space(#[trigger] s[k]),
        trimmed_end(s).len() > 0 ==> !is_white_space(trimmed_end(s).last()),
    decreases s.len(),
{
    if s.len() > 0 && is_white_space(s.last()) {
        let t = s.drop_last();
        trim_end_is_prefix(t);
        assert forall|k: int| trimmed_end(s).len() <= k < s.len() implies is_white_space(#[trigger] s[k]) by {
            if k < s.len() - 1 {
                assert(s[k] == t[k]);
            }
        }
        assert(trimmed_end(s) =~= s.subrange(0, trimmed_end(s).len() as int));
    } else {
        assert(s.subrange(0, s.len() as int) =~= s);
    }
}

/// Trimming keeps a contiguous middle part of the text: everything before
/// it and after it is whitespace, and the part itself neither starts nor
/// ends with whitespace.
pub proof fn trim_keeps_middle(s: Seq<char>)
    ensures
        exists|i: int, j: int|
            0 <= i <= j <= s.len() && trimmed(s) == s.subrange(i, j)
            && (forall|k: int| 0 <= k < i ==> is_white_space(#[trigger] s[k]))
            && (forall|k: int| j <= k < s.len() ==> is_white_space(#[trigger] s[k])),
        trimmed(s).len() > 0 ==> !is_white_space(trimmed(s)[0]) && !is_white_space(trimmed(s).last()),
{
    let a = trimmed_start(s);
    trim_start_is_suffix(s);
    trim_end_is_prefix(a);
    let i = s.len() - a.len();
    let j = i + trimmed_end(a).len();
    assert(trimmed(s) =~= s.subrange(i, j));
    assert forall|k: int| j <= k < s.len() implies is_white_space(#[trigger] s[k]) by {
        assert(s[k] == a[k - i]);
    }
    if trimmed(s).len() > 0 {
        assert(trimmed(s)[0] == a[0]);
    }
    assert(0 <= i <= j <= s.len());
}

/// Calls `str::trim`; the contract states what its documentation gives:
/// leading and trailing characters with the `White_Space` property removed.
#[verifier::external_body]
fn trim_str(s: &str) -> (r: &str)
    ensures
        r@ == trimmed(s@),
{
    s.trim()
}

/// Calls `str::to_lowercase`; the contract claims that the result depends
/// on the string's characters alone (it is named `lowercased`), nothing more.
#[verifier::external_body]
fn lowercase_str(s: &str) -> (r: String)
    ensures
        r@ == lowercased(s@),
{
    s.to_lowercase()
}

/// Whether `c` is an ASCII decimal digit.
pub open spec fn is_decimal_digit(c: char) -> bool {
    '0' <= c && c <= '9'
}

/// The number that the decimal digits `s` write.
pub open spec fn digits_value(s: Seq<char>) -> int
    decreases s.len(),
{
    if s.len() == 0 {
        0
    } else {
        digits_value(s.drop_last()) * 10 + (s.last() as int - '0' as int)
    }
}

/// The result of parsing `s` as a `usize`: an optional `+` followed by at
/// least one ASCII decimal digit, whose value fits in `usize`; anything
/// else (empty text, a sign alone, `-`, other characters, overflow) fails.
pub open spec fn decimal_usize(s: Seq<char>) -> Option<usize> {
    let d = unsigned_digits(s);
    if d.len() > 0 && all_decimal_digits(d) && digits_value(d) <= usize::MAX {
        Some(digits_value(d) as usize)
    } else {
        None
    }
}

/// `s` without one leading `+`, if it has one.
pub open spec fn unsigned_digits(s: Seq<char>) -> Seq<char> {
    if s.len() > 0 && s[0] == '+' {
        s.drop_first()
    } else {
        s
    }
}

/// Whether every character of `d` is an ASCII decimal digit.
pub open spec fn all_decimal_digits(d: Seq<char>) -> bool {
    forall|i: int| 0 <= i < d.len() ==> is_decimal_digit(#[trigger] d[i])
}

/// Plain digits and digits after one `+` read as their value when it fits;
/// empty text, a sign alone and a leading `-` are refused.
pub proof fn decimal_reading(d: Seq<char>)
    ensures
        decimal_usize(Seq::<char>::empty()) is None,
        decimal_usize(seq!['+']) is None,
        d.len() > 0 && d[0] == '-' ==> decimal_usize(d) is None,
        d.len() > 0 && (forall|i: int| 0 <= i < d.len() ==> is_decimal_digit(#[trigger] d[i]))
            && digits_value(d) <= usize::MAX ==> decimal_usize(d) == Some(digits_value(d) as usize)
            && decimal_usize(seq!['+'] + d) == Some(digits_value(d) as usize),
{
    let p = seq!['+'] + d;
    assert(p[0] == '+');
    assert(p.drop_first() =~= d);
    assert(seq!['+'].drop_first() =~= Seq::<char>::empty());
    if d.len() > 0 && d[0] == '-' {
        assert(('-' as int) == 45 && ('0' as int) == 48);
        assert(unsigned_digits(d) == d);
        assert(!is_decimal_digit(d[0]));
        assert(!all_decimal_digits(d));
    }
}

/// Each further digit multiplies the value read so far by ten and adds the
/// digit's own value.
pub proof fn digits_value_appends(d: Seq<char>, c: char)
    ensures
        digits_value(d.push(c)) == 10 * digits_value(d) + (c as int - '0' as int),
        digits_value(Seq::<char>::empty()) == 0,
{
    assert(d.push(c).drop_last() =~= d);
}

/// Calls `str::parse::<usize>` and keeps the value, dropping the error.
/// The contract states what the documentation of `usize::from_str` gives:
/// an optional `+` and then decimal digits, within range.
#[verifier::external_body]
fn parse_usize(s: &str) -> (r: Option<usize>)
    ensures
        r == decimal_usize(s@),
{
    s.parse::<usize>().ok()
}

/// The meaning of a normalized yes/no answer.
pub open spec fn answer_meaning(s: Seq<char>) -> Option<bool> {
    if s == "y"@ || s == "ya"@ {
        Some(true)
    } else if s == "n"@ || s == "tidak"@ {
        Some(false)
    } else {
        None
    }
}

/// The yes words "y" and "ya" and the no words "n" and "tidak" are four
/// different texts.
proof fn yes_and_no_words_differ()
    ensures
        "y"@ != "n"@,
        "y"@ != "tidak"@,
        "ya"@ != "n"@,
        "ya"@ != "tidak"@,
{
    reveal_strlit("y");
    reveal_strlit("ya");
    reveal_strlit("n");
    reveal_strlit("tidak");
    assert("y"@[0] != "n"@[0]);
    assert("y"@.len() != "tidak"@.len());
    assert("ya"@.len() != "n"@.len());
    assert("ya"@.len() != "tidak"@.len());
}

/// An answer is yes only when it is "y" or "ya", no only when it is "n" or
/// "tidak", and every other answer is refused; no answer is both.
pub proof fn answers_are_exact(s: Seq<char>)
    ensures
        answer_meaning(s) == Some(true) <==> (s == "y"@ || s == "ya"@),
        answer_meaning(s) == Some(false) <==> (s == "n"@ || s == "tidak"@),
        answer_meaning(s) is None <==> !(s == "y"@ || s == "ya"@ || s == "n"@ || s == "tidak"@),
{
    yes_and_no_words_differ();
}

/// Reads a normalized answer: "y" or "ya" is yes, "n" or "tidak" is no,
/// anything else is no answer.
pub fn answer_of(answer: &String) -> (r: Option<bool>)
    ensures
        r == answer_meaning(answer@),
        r == Some(true) <==> (answer@ == "y"@ || answer@ == "ya"@),
        r == Some(false) <==> (answer@ == "n"@ || answer@ == "tidak"@),
        r is None <==> !(answer@ == "y"@ || answer@ == "ya"@ || answer@ == "n"@ || answer@ == "tidak"@),
{
    proof {
        yes_and_no_words_differ();
    }
    if *answer == String::from_str("y") || *answer == String::from_str("ya") {
        Some(true)
    } else if *answer == String::from_str("n") || *answer == String::from_str("tidak") {
        Some(false)
    } else {
        None
    }
}

/// Reads a yes/no answer from a line typed by the operator, ignoring
/// surrounding whitespace and letter case.
pub fn yes_no(line: &str) -> (r: Option<bool>)
    ensures
        r == answer_meaning(lowercased(trimmed(line@))),
        r == Some(true) <==> (lowercased(trimmed(line@)) == "y"@ || lowercased(trimmed(line@)) == "ya"@),
        r == Some(false) <==> (lowercased(trimmed(line@)) == "n"@ || lowercased(trimmed(line@)) == "tidak"@),
{
    let t = trim_str(line);
    let l = lowercase_str(t);
    answer_of(&l)
}

/// Reads a non-negative whole number from a line typed by the operator,
/// ignoring surrounding whitespace.
pub fn read_number(line: &str) -> (r: Option<usize>)
    ensures
        r == decimal_usize(trimmed(line@)),
{
    let t = trim_str(line);
    parse_usize(t)
}

} // verus!
