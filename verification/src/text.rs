//! Character classes and the string operations that the compilers are built from.
//!
//! Everything is stated over `Seq<char>`, the view of `str` and `String`.

use crate::views::lemma_pushed;
use vstd::prelude::*;
use vstd::string::StringExecFns;

verus! {

/// Whether a character beyond ASCII is alphabetic or numeric in the Unicode sense.
pub uninterp spec fn unicode_alphanumeric(c: char) -> bool;

/// `char::is_alphanumeric`: true for a character with the Unicode `Alphabetic` property or
/// in one of the numeric categories. Within ASCII these are the letters and the digits and
/// nothing else; beyond ASCII the answer is a fixed property of the character.
pub assume_specification[ char::is_alphanumeric ](c: char) -> (yes: bool)
    ensures
        (c as u32) < 128 ==> yes == (ascii_digit(c) || ascii_letter(c)),
        (c as u32) >= 128 ==> yes == unicode_alphanumeric(c),
;

/// Whether a character beyond ASCII is white space in the Unicode sense.
pub uninterp spec fn unicode_whitespace(c: char) -> bool;

/// `char::is_whitespace`: true for a character with the Unicode `White_Space` property.
/// Within ASCII these are the space and the controls from tab to carriage return; beyond
/// ASCII the answer is a fixed property of the character.
pub assume_specification[ char::is_whitespace ](c: char) -> (yes: bool)
    ensures
        (c as u32) < 128 ==> yes == ascii_whitespace(c),
        (c as u32) >= 128 ==> yes == unicode_whitespace(c),
;

/// `String::push`: appends one character at the end.
pub assume_specification[ String::push ](s: &mut String, c: char)
    ensures
        final(s)@ == old(s)@.push(c),
;

pub open spec fn ascii_digit(c: char) -> bool {
    '0' <= c <= '9'
}

pub open spec fn ascii_letter(c: char) -> bool {
    ('a' <= c <= 'z') || ('A' <= c <= 'Z')
}

pub open spec fn ascii_whitespace(c: char) -> bool {
    c == ' ' || ('\u{9}' <= c <= '\u{d}')
}

/// White space: the ASCII kind, and beyond ASCII whatever Unicode counts as such.
pub open spec fn whitespace(c: char) -> bool {
    if (c as u32) < 128 {
        ascii_whitespace(c)
    } else {
        unicode_whitespace(c)
    }
}

/// Letters and digits: the ASCII ones, and beyond ASCII whatever Unicode counts as such.
pub open spec fn alphanumeric(c: char) -> bool {
    if (c as u32) < 128 {
        ascii_digit(c) || ascii_letter(c)
    } else {
        unicode_alphanumeric(c)
    }
}

/// The characters that terminate or escape a quoted literal, or separate statements.
pub open spec fn sql_metachar(c: char) -> bool {
    c == '\'' || c == '"' || c == '`' || c == ';' || c == '\\'
}

/// A restrictive character filter for text that is interpolated into a query.
#[derive(Debug, Clone, Copy, PartialEq, Eq, Structural)]
pub enum Charset {
    /// Digits and hyphens: dates and plain numbers.
    DateLike,
    /// Letters, digits and underscores.
    Word,
    /// Letters, digits, hyphens and underscores.
    Identifier,
    /// Letters, digits, hyphens, underscores and spaces.
    Label,
}

impl Charset {
    pub open spec fn admits(self, c: char) -> bool {
        match self {
            Charset::DateLike => ascii_digit(c) || c == '-',
            Charset::Word => alphanumeric(c) || c == '_',
            Charset::Identifier => alphanumeric(c) || c == '-' || c == '_',
            Charset::Label => alphanumeric(c) || c == '-' || c == '_' || c == ' ',
        }
    }

    pub fn accepts(self, c: char) -> (yes: bool)
        ensures
            yes == self.admits(c),
    {
        match self {
            Charset::DateLike => ('0' <= c && c <= '9') || c == '-',
            Charset::Word => c.is_alphanumeric() || c == '_',
            Charset::Identifier => c.is_alphanumeric() || c == '-' || c == '_',
            Charset::Label => c.is_alphanumeric() || c == '-' || c == '_' || c == ' ',
        }
    }
}

/// No filter lets a quote, a backslash or a statement separator through.
pub proof fn lemma_admitted_is_inert(set: Charset, c: char)
    requires
        set.admits(c),
    ensures
        !sql_metachar(c),
{
}

/// Whether every character of `s` passes `set`.
pub open spec fn all_admitted(s: Seq<char>, set: Charset) -> bool {
    forall|i: int| 0 <= i < s.len() ==> set.admits(#[trigger] s[i])
}

/// Whether `s` is free of quotes, backslashes and statement separators.
pub open spec fn inert(s: Seq<char>) -> bool {
    forall|i: int| 0 <= i < s.len() ==> !sql_metachar(#[trigger] s[i])
}

/// The characters of `s` that pass `set`, in their order.
pub open spec fn retain(s: Seq<char>, set: Charset) -> Seq<char>
    decreases s.len(),
{
    if s.len() == 0 {
        Seq::empty()
    } else if set.admits(s.last()) {
        retain(s.drop_last(), set).push(s.last())
    } else {
        retain(s.drop_last(), set)
    }
}

/// What a filter keeps passes the filter, and is no longer than what went in.
pub proof fn lemma_retain_admitted(s: Seq<char>, set: Charset)
    ensures
        all_admitted(retain(s, set), set),
        inert(retain(s, set)),
        retain(s, set).len() <= s.len(),
    decreases s.len(),
{
    if s.len() > 0 {
        lemma_retain_admitted(s.drop_last(), set);
        assert forall|i: int| 0 <= i < retain(s, set).len() implies !sql_metachar(
            #[trigger] retain(s, set)[i],
        ) by {
            lemma_admitted_is_inert(set, retain(s, set)[i]);
        }
    }
}

/// A filter leaves text alone that already passes it.
pub proof fn lemma_retain_identity(s: Seq<char>, set: Charset)
    requires
        all_admitted(s, set),
    ensures
        retain(s, set) == s,
    decreases s.len(),
{
    if s.len() > 0 {
        lemma_retain_identity(s.drop_last(), set);
        assert(s.drop_last().push(s.last()) =~= s);
    } else {
        assert(s =~= Seq::empty());
    }
}

/// Filtering is idempotent.
pub proof fn lemma_retain_idempotent(s: Seq<char>, set: Charset)
    ensures
        retain(retain(s, set), set) == retain(s, set),
{
    lemma_retain_admitted(s, set);
    lemma_retain_identity(retain(s, set), set);
}

pub fn passes(s: &str, set: Charset) -> (yes: bool)
    ensures
        yes == all_admitted(s@, set),
{
    broadcast use vstd::string::group_string_axioms;

    let mut yes = true;
    for c in it: s.chars()
        invariant
            it.seq() == s@,
            yes == all_admitted(s@.take(it.index()), set),
    {
        let ok = set.accepts(c);
        proof {
            let before = s@.take(it.index());
            let after = s@.take(it.index() + 1);
            assert(after[it.index()] == c);
            if yes && ok {
                assert forall|i: int| 0 <= i < after.len() implies set.admits(
                    #[trigger] after[i],
                ) by {
                    if i < it.index() {
                        assert(before[i] == after[i]);
                    }
                }
            } else if yes {
                assert(!set.admits(after[it.index()]));
            } else {
                let bad = choose|i: int| 0 <= i < before.len() && !set.admits(#[trigger] before[i]);
                assert(after[bad] == before[bad]);
            }
        }
        yes = yes && ok;
    }
    proof {
        assert(s@.take(s@.len() as int) =~= s@);
    }
    yes
}

/// Copies the characters of `s` that pass `set`.
pub fn retain_chars(s: &str, set: Charset) -> (out: String)
    ensures
        out@ == retain(s@, set),
        all_admitted(out@, set),
        inert(out@),
{
    broadcast use vstd::string::group_string_axioms;

    let mut out = String::new();
    for c in it: s.chars()
        invariant
            it.seq() == s@,
            out@ == retain(s@.take(it.index()), set),
    {
        proof {
            let after = s@.take(it.index() + 1);
            assert(after.last() == c);
            assert(after.drop_last() =~= s@.take(it.index()));
        }
        if set.accepts(c) {
            out.push(c);
        }
    }
    proof {
        assert(s@.take(s@.len() as int) =~= s@);
        lemma_retain_admitted(s@, set);
    }
    out
}

/// `s` with every single quote written twice.
pub open spec fn double_quotes(s: Seq<char>) -> Seq<char>
    decreases s.len(),
{
    if s.len() == 0 {
        Seq::empty()
    } else if s.last() == '\'' {
        double_quotes(s.drop_last()).push('\'').push('\'')
    } else {
        double_quotes(s.drop_last()).push(s.last())
    }
}

/// Doubling the quotes changes nothing once a filter has run that drops every quote.
pub proof fn lemma_retain_after_doubling(s: Seq<char>, set: Charset)
    ensures
        retain(double_quotes(s), set) == retain(s, set),
    decreases s.len(),
{
    if s.len() > 0 {
        lemma_retain_after_doubling(s.drop_last(), set);
        let head = double_quotes(s.drop_last());
        if s.last() == '\'' {
            let once = head.push('\'');
            let twice = once.push('\'');
            assert(twice.drop_last() =~= once);
            assert(once.drop_last() =~= head);
            assert(!set.admits('\''));
            assert(retain(once, set) == retain(head, set));
            assert(retain(twice, set) == retain(once, set));
        } else {
            let whole = head.push(s.last());
            assert(whole.drop_last() =~= head);
            assert(whole.last() == s.last());
            assert(retain(whole, set) == if set.admits(s.last()) {
                retain(head, set).push(s.last())
            } else {
                retain(head, set)
            });
        }
    }
}

pub fn double_single_quotes(s: &str) -> (out: String)
    ensures
        out@ == double_quotes(s@),
{
    broadcast use vstd::string::group_string_axioms;

    let mut out = String::new();
    for c in it: s.chars()
        invariant
            it.seq() == s@,
            out@ == double_quotes(s@.take(it.index())),
    {
        proof {
            let after = s@.take(it.index() + 1);
            assert(after.last() == c);
            assert(after.drop_last() =~= s@.take(it.index()));
        }
        if c == '\'' {
            out.push('\'');
            out.push('\'');
        } else {
            out.push(c);
        }
    }
    proof {
        assert(s@.take(s@.len() as int) =~= s@);
    }
    out
}

/// Whether `c` does not occur in `s`.
pub open spec fn lacks(s: Seq<char>, c: char) -> bool {
    forall|i: int| 0 <= i < s.len() ==> #[trigger] s[i] != c
}

/// Whether `s` holds neither a single quote nor a statement separator.
pub open spec fn plain(s: Seq<char>) -> bool {
    lacks(s, '\'') && lacks(s, ';')
}

/// Inert text is plain.
pub proof fn lemma_inert_is_plain(s: Seq<char>)
    requires
        inert(s),
    ensures
        plain(s),
{
    assert forall|i: int| 0 <= i < s.len() implies #[trigger] s[i] != '\'' && s[i] != ';' by {
        assert(!sql_metachar(s[i]));
    }
}

/// Where a reader of a statement stands after some text: outside every literal, inside a
/// literal, or nowhere, because the text cannot be read.
#[derive(Debug, Clone, Copy, PartialEq, Eq, Structural)]
pub enum Reading {
    Outside,
    Inside,
    Lost,
}

/// Reads one character. A single quote opens a literal and the next one closes it. A
/// statement separator cannot be read, and inside a literal neither can any other character
/// that would end or escape it.
pub open spec fn read_char(at: Reading, c: char) -> Reading {
    match at {
        Reading::Outside => if c == '\'' {
            Reading::Inside
        } else if c == ';' {
            Reading::Lost
        } else {
            Reading::Outside
        },
        Reading::Inside => if c == '\'' {
            Reading::Outside
        } else if sql_metachar(c) {
            Reading::Lost
        } else {
            Reading::Inside
        },
        Reading::Lost => Reading::Lost,
    }
}

/// Reads a text from a given position.
pub open spec fn read(s: Seq<char>, from: Reading) -> Reading
    decreases s.len(),
{
    if s.len() == 0 {
        from
    } else {
        read_char(read(s.drop_last(), from), s.last())
    }
}

/// Whether `s` can stand in a statement: read from outside every literal it ends outside
/// every literal. Then every single quote in it opens or closes a literal, no literal holds
/// a quote, a backslash or a statement separator, and no statement separator stands between
/// the literals.
pub open spec fn well_quoted(s: Seq<char>) -> bool {
    read(s, Reading::Outside) == Reading::Outside
}

/// Reading two texts one after the other is reading the second from where the first ends.
pub proof fn lemma_read_concat(a: Seq<char>, b: Seq<char>, from: Reading)
    ensures
        read(a + b, from) == read(b, read(a, from)),
    decreases b.len(),
{
    if b.len() == 0 {
        assert(a + b =~= a);
    } else {
        lemma_read_concat(a, b.drop_last(), from);
        assert((a + b).drop_last() =~= a + b.drop_last());
        assert((a + b).last() == b.last());
    }
}

/// Plain text is well quoted.
pub proof fn lemma_plain_is_well_quoted(s: Seq<char>)
    requires
        plain(s),
    ensures
        well_quoted(s),
    decreases s.len(),
{
    if s.len() > 0 {
        assert forall|i: int| 0 <= i < s.drop_last().len() implies #[trigger] s.drop_last()[i]
            != '\'' && s.drop_last()[i] != ';' by {
            assert(s.drop_last()[i] == s[i]);
        }
        lemma_plain_is_well_quoted(s.drop_last());
        assert(s[s.len() - 1] != '\'' && s[s.len() - 1] != ';');
    }
}

/// Inert text keeps the reader inside the literal that holds it.
pub proof fn lemma_inert_stays_inside(s: Seq<char>)
    requires
        inert(s),
    ensures
        read(s, Reading::Inside) == Reading::Inside,
    decreases s.len(),
{
    if s.len() > 0 {
        assert forall|i: int| 0 <= i < s.drop_last().len() implies !sql_metachar(
            #[trigger] s.drop_last()[i],
        ) by {
            assert(s.drop_last()[i] == s[i]);
        }
        lemma_inert_stays_inside(s.drop_last());
        assert(!sql_metachar(s[s.len() - 1]));
    }
}

/// Well-quoted text holds no statement separator.
pub proof fn lemma_well_quoted_has_no_separator(s: Seq<char>)
    requires
        read(s, Reading::Outside) != Reading::Lost,
    ensures
        lacks(s, ';'),
    decreases s.len(),
{
    if s.len() > 0 {
        let before = read(s.drop_last(), Reading::Outside);
        assert(before != Reading::Lost);
        lemma_well_quoted_has_no_separator(s.drop_last());
        assert(s.last() != ';');
        assert forall|i: int| 0 <= i < s.len() implies #[trigger] s[i] != ';' by {
            if i < s.len() - 1 {
                assert(s.drop_last()[i] == s[i]);
            }
        }
    }
}

/// How often `c` occurs in `s`.
pub open spec fn count(s: Seq<char>, c: char) -> nat
    decreases s.len(),
{
    if s.len() == 0 {
        0
    } else if s.last() == c {
        count(s.drop_last(), c) + 1
    } else {
        count(s.drop_last(), c)
    }
}

/// A reader that can read a text stands outside every literal after an even number of
/// single quotes, and inside one after an odd number.
pub proof fn lemma_reading_counts_quotes(s: Seq<char>)
    ensures
        read(s, Reading::Outside) == Reading::Outside ==> count(s, '\'') % 2 == 0,
        read(s, Reading::Outside) == Reading::Inside ==> count(s, '\'') % 2 == 1,
    decreases s.len(),
{
    if s.len() > 0 {
        lemma_reading_counts_quotes(s.drop_last());
    }
}

/// The single quotes of a well-quoted text come in pairs.
pub proof fn lemma_well_quoted_pairs_quotes(s: Seq<char>)
    requires
        well_quoted(s),
    ensures
        count(s, '\'') % 2 == 0,
{
    lemma_reading_counts_quotes(s);
}

/// Well-quoted texts written one after the other are well quoted.
pub proof fn lemma_well_quoted_concat(a: Seq<char>, b: Seq<char>)
    requires
        well_quoted(a),
        well_quoted(b),
    ensures
        well_quoted(a + b),
{
    lemma_read_concat(a, b, Reading::Outside);
}

/// Well-quoted parts joined by a plain separator are well quoted.
pub proof fn lemma_well_quoted_join(parts: Seq<Seq<char>>, sep: Seq<char>)
    requires
        forall|i: int| 0 <= i < parts.len() ==> well_quoted(#[trigger] parts[i]),
        plain(sep),
    ensures
        well_quoted(join(parts, sep)),
    decreases parts.len(),
{
    if parts.len() >= 2 {
        lemma_well_quoted_join(parts.drop_last(), sep);
        lemma_plain_is_well_quoted(sep);
        lemma_well_quoted_concat(join(parts.drop_last(), sep), sep);
        lemma_well_quoted_concat(join(parts.drop_last(), sep) + sep, parts.last());
    }
}

/// The parts written one after another with `sep` between neighbours.
pub open spec fn join(parts: Seq<Seq<char>>, sep: Seq<char>) -> Seq<char>
    decreases parts.len(),
{
    if parts.len() == 0 {
        Seq::empty()
    } else if parts.len() == 1 {
        parts[0]
    } else {
        join(parts.drop_last(), sep) + sep + parts.last()
    }
}

pub fn join_strings(parts: &Vec<String>, sep: &str) -> (out: String)
    ensures
        out@ == join(parts.deep_view(), sep@),
{
    let mut out = String::new();
    let mut i: usize = 0;
    while i < parts.len()
        invariant
            i <= parts.len(),
            out@ == join(parts.deep_view().take(i as int), sep@),
        decreases parts.len() - i,
    {
        proof {
            let after = parts.deep_view().take(i + 1);
            assert(after.drop_last() =~= parts.deep_view().take(i as int));
            assert(after.last() == parts@[i as int]@);
            if i == 0 {
                assert(out@ + parts@[i as int]@ =~= parts@[i as int]@);
            }
        }
        if i > 0 {
            out.append(sep);
        }
        out.append(parts[i].as_str());
        i += 1;
    }
    proof {
        assert(parts.deep_view().take(parts.len() as int) =~= parts.deep_view());
    }
    out
}

/// The decimal digit for a value below ten.
pub open spec fn digit_char(d: nat) -> char {
    if d == 0 {
        '0'
    } else if d == 1 {
        '1'
    } else if d == 2 {
        '2'
    } else if d == 3 {
        '3'
    } else if d == 4 {
        '4'
    } else if d == 5 {
        '5'
    } else if d == 6 {
        '6'
    } else if d == 7 {
        '7'
    } else if d == 8 {
        '8'
    } else {
        '9'
    }
}

/// The decimal numeral of `n`, without sign or leading zeros.
pub open spec fn decimal(n: nat) -> Seq<char>
    decreases n,
{
    if n < 10 {
        seq![digit_char(n)]
    } else {
        decimal(n / 10).push(digit_char(n % 10))
    }
}

/// A numeral holds digits only.
pub proof fn lemma_decimal_digits(n: nat)
    ensures
        decimal(n).len() >= 1,
        all_admitted(decimal(n), Charset::DateLike),
        inert(decimal(n)),
        plain(decimal(n)),
    decreases n,
{
    if n >= 10 {
        lemma_decimal_digits(n / 10);
    }
    assert forall|i: int| 0 <= i < decimal(n).len() implies !sql_metachar(#[trigger] decimal(n)[i]) by {
        assert(Charset::DateLike.admits(decimal(n)[i]));
    }
    lemma_inert_is_plain(decimal(n));
}

/// The number that a sequence of decimal digits stands for.
pub open spec fn digits_value(digits: Seq<char>) -> nat
    decreases digits.len(),
{
    if digits.len() == 0 {
        0
    } else {
        digits_value(digits.drop_last()) * 10 + (digits.last() as nat - '0' as nat) as nat
    }
}

pub open spec fn all_digits(text: Seq<char>) -> bool {
    forall|i: int| 0 <= i < text.len() ==> ascii_digit(#[trigger] text[i])
}

/// A numeral is made of digits, and reading it gives the number that was written.
pub proof fn lemma_decimal_value(n: nat)
    ensures
        all_digits(decimal(n)),
        digits_value(decimal(n)) == n,
    decreases n,
{
    if n < 10 {
        let numeral = decimal(n);
        assert(numeral.len() == 1 && numeral[0] == digit_char(n));
        assert(numeral.drop_last() =~= Seq::<char>::empty());
        assert(digits_value(numeral.drop_last()) == 0);
    } else {
        lemma_decimal_value(n / 10);
        let head = decimal(n / 10);
        let numeral = head.push(digit_char(n % 10));
        assert(numeral.drop_last() =~= head);
        assert(numeral.last() == digit_char(n % 10));
        assert forall|i: int| 0 <= i < numeral.len() implies ascii_digit(#[trigger] numeral[i]) by {
            if i < head.len() {
                assert(numeral[i] == head[i]);
            }
        }
    }
}

fn digit_of(d: u64) -> (c: char)
    requires
        d < 10,
    ensures
        c == digit_char(d as nat),
{
    if d == 0 {
        '0'
    } else if d == 1 {
        '1'
    } else if d == 2 {
        '2'
    } else if d == 3 {
        '3'
    } else if d == 4 {
        '4'
    } else if d == 5 {
        '5'
    } else if d == 6 {
        '6'
    } else if d == 7 {
        '7'
    } else if d == 8 {
        '8'
    } else {
        '9'
    }
}

/// Writes `n` in decimal.
pub fn decimal_string(n: u64) -> (out: String)
    ensures
        out@ == decimal(n as nat),
{
    let mut digits: Vec<char> = Vec::new();
    let mut rest = n;
    while rest >= 10
        invariant
            decimal(n as nat) == decimal(rest as nat) + digits@.reverse(),
        decreases rest,
    {
        let d = digit_of(rest % 10);
        proof {
            let tail = digits@.reverse();
            assert(digits@.push(d).reverse() =~= seq![d] + tail);
            assert(decimal(rest as nat) == decimal((rest / 10) as nat).push(d));
            assert(decimal((rest / 10) as nat).push(d) + tail =~= decimal((rest / 10) as nat) + (
            seq![d] + tail));
        }
        digits.push(d);
        rest = rest / 10;
    }
    let mut out = String::new();
    out.push(digit_of(rest));
    let mut i = digits.len();
    while i > 0
        invariant
            i <= digits.len(),
            out@ == decimal(rest as nat) + digits@.reverse().take(digits.len() - i),
            rest < 10,
        decreases i,
    {
        i -= 1;
        proof {
            let rev = digits@.reverse();
            let k = digits.len() - i - 1;
            assert(rev[k] == digits@[i as int]);
            assert(rev.take(k + 1) =~= rev.take(k).push(rev[k]));
            assert((decimal(rest as nat) + rev.take(k)).push(rev[k]) =~= decimal(rest as nat)
                + rev.take(k + 1));
        }
        out.push(digits[i]);
    }
    proof {
        assert(digits@.reverse().take(digits.len() as int) =~= digits@.reverse());
    }
    out
}

/// Whether `s` begins with `prefix`.
pub open spec fn has_prefix(s: Seq<char>, prefix: Seq<char>) -> bool {
    prefix.len() <= s.len() && s.take(prefix.len() as int) == prefix
}

/// Whether `s` ends with `suffix`.
pub open spec fn has_suffix(s: Seq<char>, suffix: Seq<char>) -> bool {
    suffix.len() <= s.len() && s.skip(s.len() - suffix.len()) == suffix
}

/// The length of a name with its first and its last character.
pub open spec fn ends(name: Seq<char>) -> (nat, char, char) {
    (name.len(), name[0], name[name.len() - 1])
}

/// The characters of a string, one by one.
pub fn chars_of(s: &str) -> (out: Vec<char>)
    ensures
        out@ == s@,
{
    broadcast use vstd::string::group_string_axioms;

    let mut out: Vec<char> = Vec::new();
    for c in it: s.chars()
        invariant
            it.seq() == s@,
            out@ == s@.take(it.index()),
    {
        proof {
            assert(s@.take(it.index() + 1) =~= s@.take(it.index()).push(c));
        }
        out.push(c);
    }
    proof {
        assert(s@.take(s@.len() as int) =~= s@);
    }
    out
}

pub fn starts_with(s: &str, prefix: &str) -> (yes: bool)
    ensures
        yes == has_prefix(s@, prefix@),
{
    let text = chars_of(s);
    let head = chars_of(prefix);
    if head.len() > text.len() {
        return false;
    }
    let mut i: usize = 0;
    while i < head.len()
        invariant
            i <= head.len() <= text.len(),
            text@ == s@,
            head@ == prefix@,
            forall|j: int| 0 <= j < i ==> text@[j] == head@[j],
        decreases head.len() - i,
    {
        if text[i] != head[i] {
            proof {
                assert(s@.take(prefix@.len() as int)[i as int] == text@[i as int]);
            }
            return false;
        }
        i += 1;
    }
    proof {
        assert(s@.take(prefix@.len() as int) =~= prefix@);
    }
    true
}

pub fn ends_with(s: &str, suffix: &str) -> (yes: bool)
    ensures
        yes == has_suffix(s@, suffix@),
{
    let text = chars_of(s);
    let tail = chars_of(suffix);
    if tail.len() > text.len() {
        return false;
    }
    let shift = text.len() - tail.len();
    let mut i: usize = 0;
    while i < tail.len()
        invariant
            i <= tail.len() <= text.len(),
            shift == text.len() - tail.len(),
            text@ == s@,
            tail@ == suffix@,
            forall|j: int| 0 <= j < i ==> text@[shift + j] == tail@[j],
        decreases tail.len() - i,
    {
        if text[shift + i] != tail[i] {
            proof {
                assert(s@.skip(s@.len() - suffix@.len())[i as int] == text@[shift + i]);
            }
            return false;
        }
        i += 1;
    }
    proof {
        assert(s@.skip(s@.len() - suffix@.len()) =~= suffix@);
    }
    true
}

/// Whether two strings hold the same characters.
pub fn same_text(a: &str, b: &str) -> (yes: bool)
    ensures
        yes == (a@ == b@),
{
    let left = chars_of(a);
    let right = chars_of(b);
    if left.len() != right.len() {
        return false;
    }
    let mut i: usize = 0;
    while i < left.len()
        invariant
            i <= left.len(),
            left.len() == right.len(),
            left@ == a@,
            right@ == b@,
            forall|j: int| 0 <= j < i ==> left@[j] == right@[j],
        decreases left.len() - i,
    {
        if left[i] != right[i] {
            return false;
        }
        i += 1;
    }
    proof {
        assert(a@ =~= b@);
    }
    true
}

/// `s` without the white space that it begins with.
pub open spec fn trim_start(s: Seq<char>) -> Seq<char>
    decreases s.len(),
{
    if s.len() > 0 && whitespace(s[0]) {
        trim_start(s.drop_first())
    } else {
        s
    }
}

/// `s` without the white space that it ends with.
pub open spec fn trim_end(s: Seq<char>) -> Seq<char>
    decreases s.len(),
{
    if s.len() > 0 && whitespace(s.last()) {
        trim_end(s.drop_last())
    } else {
        s
    }
}

/// `s` without the white space around it.
pub open spec fn trimmed(s: Seq<char>) -> Seq<char> {
    trim_end(trim_start(s))
}

proof fn lemma_trim_start_skips(s: Seq<char>, k: int)
    requires
        0 <= k <= s.len(),
        forall|j: int| 0 <= j < k ==> whitespace(#[trigger] s[j]),
        k == s.len() || !whitespace(s[k]),
    ensures
        trim_start(s) == s.skip(k),
    decreases k,
{
    if k == 0 {
        assert(s.skip(0) =~= s);
    } else {
        assert(whitespace(s[0]));
        let rest = s.drop_first();
        assert forall|j: int| 0 <= j < k - 1 implies whitespace(#[trigger] rest[j]) by {
            assert(rest[j] == s[j + 1]);
        }
        lemma_trim_start_skips(rest, k - 1);
        assert(rest.skip(k - 1) =~= s.skip(k));
    }
}

proof fn lemma_trim_end_takes(s: Seq<char>, k: int)
    requires
        0 <= k <= s.len(),
        forall|j: int| k <= j < s.len() ==> whitespace(#[trigger] s[j]),
        k == 0 || !whitespace(s[k - 1]),
    ensures
        trim_end(s) == s.take(k),
    decreases s.len() - k,
{
    if k == s.len() {
        assert(s.take(k) =~= s);
    } else {
        assert(whitespace(s[s.len() - 1]));
        let rest = s.drop_last();
        assert forall|j: int| k <= j < rest.len() implies whitespace(#[trigger] rest[j]) by {
            assert(rest[j] == s[j]);
        }
        lemma_trim_end_takes(rest, k);
        assert(rest.take(k) =~= s.take(k));
    }
}

/// Copies `s` without the white space around it.
pub fn trim(s: &str) -> (out: String)
    ensures
        out@ == trimmed(s@),
{
    let text = chars_of(s);
    let mut start: usize = 0;
    while start < text.len() && text[start].is_whitespace()
        invariant
            start <= text.len(),
            forall|j: int| 0 <= j < start ==> whitespace(#[trigger] text@[j]),
        decreases text.len() - start,
    {
        start += 1;
    }
    let mut end: usize = text.len();
    while end > start && text[end - 1].is_whitespace()
        invariant
            start <= end <= text.len(),
            forall|j: int| end <= j < text.len() ==> whitespace(#[trigger] text@[j]),
        decreases end,
    {
        end -= 1;
    }
    proof {
        lemma_trim_start_skips(text@, start as int);
        let tail = text@.skip(start as int);
        assert forall|j: int| end - start <= j < tail.len() implies whitespace(
            #[trigger] tail[j],
        ) by {
            assert(tail[j] == text@[j + start]);
        }
        if end > start {
            assert(tail[end - start - 1] == text@[end - 1]);
        }
        lemma_trim_end_takes(tail, end - start);
    }
    let mut out = String::new();
    let mut i: usize = start;
    while i < end
        invariant
            start <= i <= end <= text.len(),
            out@ == text@.skip(start as int).take(i - start),
        decreases end - i,
    {
        out.push(text[i]);
        proof {
            let tail = text@.skip(start as int);
            assert(tail.take(i + 1 - start) =~= tail.take(i - start).push(text@[i as int]));
        }
        i += 1;
    }
    out
}

/// The pieces of `text` between the occurrences of `sep`: one more than there are
/// occurrences.
pub open spec fn split(text: Seq<char>, sep: char) -> Seq<Seq<char>>
    decreases text.len(),
{
    if text.len() == 0 {
        seq![Seq::empty()]
    } else if text.last() == sep {
        split(text.drop_last(), sep).push(Seq::empty())
    } else {
        let head = split(text.drop_last(), sep);
        head.drop_last().push(head.last().push(text.last()))
    }
}

/// There is always at least one piece.
pub proof fn lemma_split_nonempty(text: Seq<char>, sep: char)
    ensures
        split(text, sep).len() >= 1,
    decreases text.len(),
{
    if text.len() > 0 {
        lemma_split_nonempty(text.drop_last(), sep);
    }
}

/// Splits `s` at every occurrence of `sep`.
pub fn split_at(s: &str, sep: char) -> (pieces: Vec<String>)
    ensures
        pieces.deep_view() == split(s@, sep),
        pieces@.len() >= 1,
{
    broadcast use vstd::string::group_string_axioms;

    let mut pieces: Vec<String> = Vec::new();
    let mut pending = String::new();
    proof {
        assert(pieces.deep_view().push(pending@) =~= split(s@.take(0), sep));
    }
    for c in it: s.chars()
        invariant
            it.seq() == s@,
            pieces.deep_view().push(pending@) == split(s@.take(it.index()), sep),
    {
        let ghost done = s@.take(it.index());
        let ghost next = s@.take(it.index() + 1);
        let ghost before = pieces;
        let ghost held = pending@;
        proof {
            assert(next.drop_last() =~= done);
            assert(next.last() == c);
        }
        if c == sep {
            let ghost piece = pending;
            pieces.push(pending);
            pending = String::new();
            proof {
                lemma_pushed(before, pieces, piece);
            }
        } else {
            pending.push(c);
            proof {
                let head = before.deep_view().push(held);
                assert(head.drop_last() =~= before.deep_view());
                assert(head.last() == held);
            }
        }
    }
    let ghost before = pieces;
    let ghost piece = pending;
    proof {
        assert(s@.take(s@.len() as int) =~= s@);
    }
    pieces.push(pending);
    proof {
        lemma_pushed(before, pieces, piece);
    }
    pieces
}

} // verus!
