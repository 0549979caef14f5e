//! Text helpers shared by the rest of the crate: whitespace trimming, equality,
//! prefixes and line splitting, each with its model over sequences of characters.
use vstd::prelude::*;
use vstd::string::*;
use vstd::utf8::*;

verus! {

/// The Unicode `White_Space` characters, which `str::trim` removes from both ends.
pub open spec fn is_white_space(c: char) -> bool {
    ||| '\u{9}' <= c <= '\u{d}'
    ||| c == ' '
    ||| c == '\u{85}'
    ||| c == '\u{a0}'
    ||| c == '\u{1680}'
    ||| '\u{2000}' <= c <= '\u{200a}'
    ||| c == '\u{2028}'
    ||| c == '\u{2029}'
    ||| c == '\u{202f}'
    ||| c == '\u{205f}'
    ||| c == '\u{3000}'
}

/// `s` without its leading whitespace.
pub open spec fn trim_start(s: Seq<char>) -> Seq<char>
    decreases s.len(),
{
    if s.len() > 0 && is_white_space(s[0]) {
        trim_start(s.subrange(1, s.len() as int))
    } else {
        s
    }
}

/// `s` without its trailing whitespace.
pub open spec fn trim_end(s: Seq<char>) -> Seq<char>
    decreases s.len(),
{
    if s.len() > 0 && is_white_space(s.last()) {
        trim_end(s.drop_last())
    } else {
        s
    }
}

/// `s` without whitespace at either end.
pub open spec fn trimmed(s: Seq<char>) -> Seq<char> {
    trim_end(trim_start(s))
}

/// Whether nothing but whitespace is in `s`.
pub open spec fn is_blank(s: Seq<char>) -> bool {
    trimmed(s).len() == 0
}

/// `str::trim` returns the text without leading and trailing whitespace, where
/// whitespace is the Unicode property `White_Space`.
pub assume_specification[ str::trim ](s: &str) -> (res: &str)
    ensures
        res@ == trimmed(s@),
;

/// `String::push` appends one character to the end of the text.
pub assume_specification[ String::push ](s: &mut String, c: char)
    ensures
        final(s)@ == old(s)@.push(c),
;

/// The text of an optional borrowed string.
pub open spec fn opt_str(o: Option<&str>) -> Option<Seq<char>> {
    match o {
        Some(s) => Some(s@),
        None => None,
    }
}

/// The text of an optional owned string.
pub open spec fn opt_text(o: Option<String>) -> Option<Seq<char>> {
    match o {
        Some(s) => Some(s@),
        None => None,
    }
}

/// The texts of a list of borrowed strings.
pub open spec fn strs(v: Seq<&'static str>) -> Seq<Seq<char>> {
    v.map_values(|s: &'static str| s@)
}

/// The texts of a list of owned strings.
pub open spec fn texts(v: Seq<String>) -> Seq<Seq<char>> {
    v.map_values(|s: String| s@)
}

/// An optional text, trimmed; blank text counts as absent.
pub open spec fn trimmed_present(o: Option<Seq<char>>) -> Option<Seq<char>> {
    match o {
        Some(s) => if is_blank(s) {
            None
        } else {
            Some(trimmed(s))
        },
        None => None,
    }
}

/// Borrows the text of an optional owned string.
pub fn as_opt_str(o: &Option<String>) -> (r: Option<&str>)
    ensures
        opt_str(r) == opt_text(*o),
{
    match o {
        Some(s) => Some(s.as_str()),
        None => None,
    }
}

/// Trims an optional field and drops it when nothing is left.
pub fn trimmed_field(field: Option<&str>) -> (r: Option<&str>)
    ensures
        opt_str(r) == trimmed_present(opt_str(field)),
{
    match field {
        Some(s) => {
            let t = s.trim();
            if t.is_empty() {
                None
            } else {
                Some(t)
            }
        },
        None => None,
    }
}

/// An optional text, or the empty text.
pub open spec fn or_empty(o: Option<String>) -> Seq<char> {
    match o {
        Some(s) => s@,
        None => seq![],
    }
}

/// An optional text, or the empty text.
pub fn text_or_empty(o: Option<String>) -> (r: String)
    ensures
        r@ == or_empty(o),
{
    match o {
        Some(s) => s,
        None => {
            let r = String::new();
            assert(r@ =~= seq![]);
            r
        },
    }
}

/// Copies an optional text, or gives the empty text.
pub fn copy_or_empty(o: &Option<String>) -> (r: String)
    ensures
        r@ == or_empty(*o),
{
    match o {
        Some(s) => s.clone(),
        None => {
            let r = String::new();
            assert(r@ =~= seq![]);
            r
        },
    }
}

/// Whether two texts are equal.
pub fn str_eq(a: &str, b: &str) -> (r: bool)
    ensures
        r == (a@ == b@),
{
    let x = a.as_bytes();
    let y = b.as_bytes();
    proof {
        encode_utf8_decode_utf8(a@);
        encode_utf8_decode_utf8(b@);
    }
    if x.len() != y.len() {
        return false;
    }
    let n: usize = x.len();
    for i in 0..n
        invariant
            n == x@.len(),
            n == y@.len(),
            x@ == encode_utf8(a@),
            y@ == encode_utf8(b@),
            forall|j: int| 0 <= j < i ==> x@[j] == y@[j],
    {
        if x[i] != y[i] {
            return false;
        }
    }
    assert(x@ =~= y@);
    true
}

/// The string that holds the characters of `chars` from `from` up to `to`.
pub fn string_of(chars: &Vec<char>, from: usize, to: usize) -> (r: String)
    requires
        from <= to <= chars@.len(),
    ensures
        r@ == chars@.subrange(from as int, to as int),
{
    let mut out = String::new();
    for i in from..to
        invariant
            from <= to <= chars@.len(),
            out@ == chars@.subrange(from as int, i as int),
    {
        out.push(chars[i]);
        assert(chars@.subrange(from as int, i + 1) =~= chars@.subrange(from as int, i as int).push(
            chars@[i as int],
        ));
    }
    out
}

/// The characters of a text.
pub fn chars_of(s: &str) -> (r: Vec<char>)
    ensures
        r@ == s@,
{
    let mut out: Vec<char> = Vec::new();
    for c in it: s.chars()
        invariant
            it.seq() == s@,
            out@ == s@.take(it.index() as int),
    {
        out.push(c);
        assert(s@.take(it.index() + 1) =~= s@.take(it.index() as int).push(s@[it.index() as int]));
    }
    assert(s@.take(s@.len() as int) =~= s@);
    out
}

/// Whether `s` begins with `prefix`.
pub open spec fn starts_with(s: Seq<char>, prefix: Seq<char>) -> bool {
    prefix.len() <= s.len() && s.take(prefix.len() as int) == prefix
}

/// What follows `prefix` in `s`, when `s` begins with it.
pub open spec fn stripped_prefix(s: Seq<char>, prefix: Seq<char>) -> Option<Seq<char>> {
    if starts_with(s, prefix) {
        Some(s.skip(prefix.len() as int))
    } else {
        None
    }
}

/// Removes `prefix` from the front of `s`; `None` when `s` does not begin with it.
pub fn strip_prefix(s: &str, prefix: &str) -> (r: Option<String>)
    ensures
        opt_text(r) == stripped_prefix(s@, prefix@),
{
    let text = chars_of(s);
    let head = chars_of(prefix);
    if text.len() < head.len() {
        return None;
    }
    let n: usize = head.len();
    for i in 0..n
        invariant
            n == head@.len(),
            n <= text@.len(),
            text@ == s@,
            head@ == prefix@,
            forall|j: int| 0 <= j < i ==> text@[j] == head@[j],
    {
        if text[i] != head[i] {
            assert(s@.take(n as int)[i as int] != prefix@[i as int]);
            return None;
        }
    }
    assert(s@.take(n as int) =~= prefix@);
    let rest = string_of(&text, n, text.len());
    assert(rest@ =~= s@.skip(n as int));
    Some(rest)
}

/// `s` without any `c` at its end.
pub open spec fn without_trailing(s: Seq<char>, c: char) -> Seq<char>
    decreases s.len(),
{
    if s.len() > 0 && s.last() == c {
        without_trailing(s.drop_last(), c)
    } else {
        s
    }
}

/// Removes every `c` from the end of `s`.
pub fn trim_end_char(s: &str, c: char) -> (r: String)
    ensures
        r@ == without_trailing(s@, c),
{
    let text = chars_of(s);
    let mut n: usize = text.len();
    assert(s@.take(n as int) =~= s@);
    while n > 0 && text[n - 1] == c
        invariant
            n <= text@.len(),
            text@ == s@,
            without_trailing(s@.take(n as int), c) == without_trailing(s@, c),
        decreases n,
    {
        assert(s@.take(n as int).drop_last() =~= s@.take(n - 1));
        n = n - 1;
    }
    let r = string_of(&text, 0, n);
    assert(r@ =~= s@.take(n as int));
    r
}

/// `line` without one carriage return at its end.
pub open spec fn without_carriage_return(line: Seq<char>) -> Seq<char> {
    if line.len() > 0 && line.last() == '\r' {
        line.drop_last()
    } else {
        line
    }
}

/// Reading `s` up to its last line feed: the lines that it ends, and what follows.
pub open spec fn ended_lines(s: Seq<char>) -> (Seq<Seq<char>>, Seq<char>)
    decreases s.len(),
{
    if s.len() == 0 {
        (seq![], seq![])
    } else {
        let (lines, rest) = ended_lines(s.drop_last());
        if s.last() == '\n' {
            (lines.push(without_carriage_return(rest)), seq![])
        } else {
            (lines, rest.push(s.last()))
        }
    }
}

/// The lines of `s`: each ends at a line feed, or a carriage return and a line
/// feed, and the last one may end with the text.
pub open spec fn lines_of(s: Seq<char>) -> Seq<Seq<char>> {
    let (lines, rest) = ended_lines(s);
    if rest.len() == 0 {
        lines
    } else {
        lines.push(rest)
    }
}

/// Splits a text into its lines, without their line endings.
pub fn split_lines(s: &str) -> (r: Vec<String>)
    ensures
        texts(r@) == lines_of(s@),
{
    let text = chars_of(s);
    let mut lines: Vec<String> = Vec::new();
    let mut start: usize = 0;
    let n: usize = text.len();
    assert(texts(lines@) =~= seq![]);
    for i in 0..n
        invariant
            n == text@.len(),
            text@ == s@,
            start <= i,
            ended_lines(s@.take(i as int)) == (texts(lines@), s@.subrange(start as int, i as int)),
    {
        let ghost before = texts(lines@);
        assert(s@.take(i + 1).drop_last() =~= s@.take(i as int));
        assert(s@.take(i + 1).last() == s@[i as int]);
        if text[i] == '\n' {
            let end: usize = if i > start && text[i - 1] == '\r' {
                i - 1
            } else {
                i
            };
            let line = string_of(&text, start, end);
            assert(line@ =~= without_carriage_return(s@.subrange(start as int, i as int)));
            lines.push(line);
            start = i + 1;
            assert(texts(lines@) =~= before.push(line@));
            assert(s@.subrange(start as int, i + 1) =~= seq![]);
        } else {
            assert(s@.subrange(start as int, i + 1) =~= s@.subrange(start as int, i as int).push(
                s@[i as int],
            ));
        }
    }
    assert(s@.take(n as int) =~= s@);
    if start < n {
        let ghost before = texts(lines@);
        let line = string_of(&text, start, n);
        lines.push(line);
        assert(texts(lines@) =~= before.push(line@));
    }
    lines
}

/// The decimal digit of `d`, for `d` below ten.
pub open spec fn digit(d: nat) -> char {
    ('0' as nat + d) as char
}

/// `n` in decimal, without leading zeros.
pub open spec fn decimal(n: nat) -> Seq<char>
    decreases n,
{
    if n < 10 {
        seq![digit(n)]
    } else {
        decimal(n / 10).push(digit(n % 10))
    }
}

/// The decimal digit of `d`.
fn digit_char(d: u16) -> (r: char)
    requires
        d < 10,
    ensures
        r == digit(d as nat),
{
    match d {
        0 => '0',
        1 => '1',
        2 => '2',
        3 => '3',
        4 => '4',
        5 => '5',
        6 => '6',
        7 => '7',
        8 => '8',
        _ => '9',
    }
}

/// Prints `n` in decimal.
pub fn decimal_text(n: u16) -> (r: String)
    ensures
        r@ == decimal(n as nat),
    decreases n,
{
    if n < 10 {
        let mut out = String::new();
        out.push(digit_char(n));
        assert(out@ =~= seq![digit(n as nat)]);
        out
    } else {
        let mut out = decimal_text(n / 10);
        out.push(digit_char(n % 10));
        out
    }
}

proof fn lemma_trim_start_shape(s: Seq<char>)
    ensures
        trim_start(s).len() <= s.len(),
        trim_start(s) == s.skip(s.len() - trim_start(s).len()),
        trim_start(s).len() > 0 ==> !is_white_space(trim_start(s)[0]),
    decreases s.len(),
{
    if s.len() > 0 && is_white_space(s[0]) {
        let rest = s.subrange(1, s.len() as int);
        lemma_trim_start_shape(rest);
        assert(trim_start(s) =~= s.skip(s.len() - trim_start(s).len()));
    } else {
        assert(s.skip(0) =~= s);
    }
}

proof fn lemma_trim_end_shape(s: Seq<char>)
    ensures
        trim_end(s).len() <= s.len(),
        trim_end(s) == s.take(trim_end(s).len() as int),
        trim_end(s).len() > 0 ==> !is_white_space(trim_end(s).last()),
    decreases s.len(),
{
    if s.len() > 0 && is_white_space(s.last()) {
        lemma_trim_end_shape(s.drop_last());
        assert(trim_end(s) =~= s.take(trim_end(s).len() as int));
    } else {
        assert(s.take(s.len() as int) =~= s);
    }
}

/// Trimming twice is trimming once.
pub proof fn lemma_trimmed_idempotent(s: Seq<char>)
    ensures
        trimmed(trimmed(s)) == trimmed(s),
{
    let a = trim_start(s);
    let t = trim_end(a);
    lemma_trim_start_shape(s);
    lemma_trim_end_shape(a);
    if t.len() > 0 {
        assert(t[0] == a[0]);
        assert(trim_start(t) == t);
        assert(trim_end(t) == t);
    }
}

/// Whether `s` holds nothing but whitespace from `from` up to `to`.
pub open spec fn all_white(s: Seq<char>, from: int, to: int) -> bool {
    forall|i: int| from <= i < to ==> is_white_space(#[trigger] s[i])
}

proof fn lemma_trim_start_drops_white(s: Seq<char>)
    ensures
        trim_start(s).len() <= s.len(),
        trim_start(s) == s.skip(s.len() - trim_start(s).len()),
        all_white(s, 0, s.len() - trim_start(s).len()),
    decreases s.len(),
{
    lemma_trim_start_shape(s);
    if s.len() > 0 && is_white_space(s[0]) {
        let rest = s.subrange(1, s.len() as int);
        lemma_trim_start_drops_white(rest);
        assert forall|i: int| 0 <= i < s.len() - trim_start(s).len() implies is_white_space(
            #[trigger] s[i],
        ) by {
            if i > 0 {
                assert(is_white_space(rest[i - 1]));
            }
        }
    }
}

proof fn lemma_trim_end_drops_white(s: Seq<char>)
    ensures
        trim_end(s).len() <= s.len(),
        trim_end(s) == s.take(trim_end(s).len() as int),
        all_white(s, trim_end(s).len() as int, s.len() as int),
    decreases s.len(),
{
    lemma_trim_end_shape(s);
    if s.len() > 0 && is_white_space(s.last()) {
        let rest = s.drop_last();
        lemma_trim_end_drops_white(rest);
        assert forall|i: int| trim_end(s).len() <= i < s.len() implies is_white_space(
            #[trigger] s[i],
        ) by {
            if i < s.len() - 1 {
                assert(is_white_space(rest[i]));
            }
        }
    }
}

/// A trimmed text is what is left of the text between its outer whitespace: only
/// whitespace was taken off, and none is left at the ends.
pub proof fn law_trimming_takes_off_the_outer_whitespace(s: Seq<char>) -> (cut: (int, int))
    ensures
        0 <= cut.0 <= cut.1 <= s.len(),
        trimmed(s) == s.subrange(cut.0, cut.1),
        all_white(s, 0, cut.0),
        all_white(s, cut.1, s.len() as int),
        cut.0 < cut.1 ==> !is_white_space(s[cut.0]) && !is_white_space(s[cut.1 - 1]),
{
    let a = trim_start(s);
    let from = s.len() - a.len();
    lemma_trim_start_drops_white(s);
    lemma_trim_end_drops_white(a);
    lemma_trim_start_shape(s);
    lemma_trim_end_shape(a);
    let to = from + trim_end(a).len();
    assert(trimmed(s) =~= s.subrange(from, to));
    assert forall|i: int| to <= i < s.len() implies is_white_space(#[trigger] s[i]) by {
        assert(is_white_space(a[i - from]));
    }
    if from < to {
        assert(s[from] == a[0]);
        assert(s[to - 1] == trim_end(a).last());
    }
    (from, to)
}

/// A text is blank exactly when all its characters are whitespace.
pub proof fn law_blank_is_all_whitespace(s: Seq<char>)
    ensures
        is_blank(s) <==> all_white(s, 0, s.len() as int),
{
    let cut = law_trimming_takes_off_the_outer_whitespace(s);
    if is_blank(s) {
        assert(cut.0 == cut.1);
    } else {
        assert(!is_white_space(s[cut.0]));
    }
}

/// A field is present exactly when it has a character that is not whitespace; what is
/// present is its trimmed text, and that is never empty.
pub proof fn law_field_is_present_unless_blank(field: Option<Seq<char>>)
    ensures
        trimmed_present(field) is None <==> match field {
            Some(s) => all_white(s, 0, s.len() as int),
            None => true,
        },
        trimmed_present(field) matches Some(t) ==> t == trimmed(field->0) && t.len() > 0,
{
    if let Some(s) = field {
        law_blank_is_all_whitespace(s);
    }
}

/// A prefix comes off exactly when the text is the prefix and something more, and that is
/// what is left.
pub proof fn law_prefix_and_rest_make_the_text(s: Seq<char>, prefix: Seq<char>, rest: Seq<char>)
    ensures
        stripped_prefix(s, prefix) == Some(rest) <==> s == prefix + rest,
        stripped_prefix(prefix + rest, prefix) == Some(rest),
        stripped_prefix(s, prefix) is None <==> !prefix.is_prefix_of(s),
{
    let whole = prefix + rest;
    assert(whole.take(prefix.len() as int) =~= prefix);
    assert(whole.skip(prefix.len() as int) =~= rest);
    if starts_with(s, prefix) {
        assert(s =~= prefix + s.skip(prefix.len() as int));
        assert(s.subrange(0, prefix.len() as int) =~= prefix);
    }
    if prefix.is_prefix_of(s) {
        assert(s.take(prefix.len() as int) =~= prefix);
    }
}

/// Taking a trailing character off leaves the front of the text: what went is nothing but
/// that character, and what is left does not end with it.
pub proof fn law_only_trailing_characters_come_off(s: Seq<char>, c: char)
    ensures
        without_trailing(s, c).is_prefix_of(s),
        forall|i: int| without_trailing(s, c).len() <= i < s.len() ==> #[trigger] s[i] == c,
        without_trailing(s, c).len() > 0 ==> without_trailing(s, c).last() != c,
    decreases s.len(),
{
    if s.len() > 0 && s.last() == c {
        law_only_trailing_characters_come_off(s.drop_last(), c);
        let w = without_trailing(s, c);
        assert(w =~= s.subrange(0, w.len() as int));
        assert forall|i: int| w.len() <= i < s.len() implies #[trigger] s[i] == c by {
            if i < s.len() - 1 {
                assert(s.drop_last()[i] == c);
            }
        }
    } else {
        assert(s =~= s.subrange(0, s.len() as int));
    }
}

/// Whether a text has no line feed in it.
pub open spec fn on_one_line(s: Seq<char>) -> bool {
    forall|i: int| 0 <= i < s.len() ==> #[trigger] s[i] != '\n'
}

proof fn lemma_ended_lines_concat(a: Seq<char>, b: Seq<char>)
    requires
        ended_lines(a).1.len() == 0,
    ensures
        ended_lines(a + b).0 == ended_lines(a).0 + ended_lines(b).0,
        ended_lines(a + b).1 == ended_lines(b).1,
    decreases b.len(),
{
    if b.len() == 0 {
        assert(a + b =~= a);
        assert(ended_lines(a).0 + ended_lines(b).0 =~= ended_lines(a).0);
        assert(ended_lines(a).1 =~= ended_lines(b).1);
    } else {
        lemma_ended_lines_concat(a, b.drop_last());
        assert((a + b).drop_last() =~= a + b.drop_last());
        assert((a + b).last() == b.last());
        let (lines, rest) = ended_lines(b.drop_last());
        if b.last() == '\n' {
            assert((ended_lines(a).0 + lines).push(without_carriage_return(rest))
                =~= ended_lines(a).0 + lines.push(without_carriage_return(rest)));
        }
    }
}

proof fn lemma_ended_lines_of_one_line(s: Seq<char>)
    requires
        on_one_line(s),
    ensures
        ended_lines(s).0.len() == 0,
        ended_lines(s).1 == s,
    decreases s.len(),
{
    if s.len() > 0 {
        let init = s.drop_last();
        assert forall|i: int| 0 <= i < init.len() implies #[trigger] init[i] != '\n' by {
            assert(s[i] != '\n');
        }
        lemma_ended_lines_of_one_line(init);
        assert(s[s.len() - 1] != '\n');
        assert(init.push(s.last()) =~= s);
    } else {
        assert(ended_lines(s).1 =~= s);
    }
}

/// The first line of a text ends at the first line feed, without a carriage return that
/// stands before it, and the lines of what follows come next; a text without a line feed
/// is one line, and an empty text has none.
pub proof fn law_lines_end_at_line_feeds(line: Seq<char>, rest: Seq<char>)
    requires
        on_one_line(line),
    ensures
        lines_of(line + seq!['\n'] + rest) == seq![
            if line.len() > 0 && line.last() == '\r' {
                line.drop_last()
            } else {
                line
            },
        ] + lines_of(rest),
        lines_of(line) == if line.len() == 0 {
            Seq::<Seq<char>>::empty()
        } else {
            seq![line]
        },
{
    let ended = line + seq!['\n'];
    lemma_ended_lines_of_one_line(line);
    assert(ended.drop_last() =~= line);
    assert(ended_lines(ended).0 =~= seq![without_carriage_return(line)]);
    lemma_ended_lines_concat(ended, rest);
    assert(lines_of(ended + rest) =~= seq![without_carriage_return(line)] + lines_of(rest));
    assert(ended_lines(line).0 =~= Seq::<Seq<char>>::empty());
    assert(line.len() > 0 ==> lines_of(line) =~= seq![line]);
}

/// The number that decimal digits stand for.
pub open spec fn value_of(digits: Seq<char>) -> int
    decreases digits.len(),
{
    if digits.len() == 0 {
        0
    } else {
        10 * value_of(digits.drop_last()) + (digits.last() as int - '0' as int)
    }
}

/// The decimal text of a number is made of digits, stands for the number, and begins with
/// a zero only where it is one.
pub proof fn law_decimal_text_stands_for_the_number(n: nat)
    ensures
        value_of(decimal(n)) == n,
        decimal(n).len() > 0,
        forall|i: int| 0 <= i < decimal(n).len() ==> '0' <= #[trigger] decimal(n)[i] <= '9',
        decimal(n)[0] == '0' ==> n == 0,
    decreases n,
{
    reveal_with_fuel(value_of, 2);
    if n >= 10 {
        law_decimal_text_stands_for_the_number(n / 10);
        assert(decimal(n).drop_last() =~= decimal(n / 10));
        assert(decimal(n)[0] == decimal(n / 10)[0]);
    } else {
        assert(decimal(n).drop_last() =~= Seq::<char>::empty());
    }
}

/// An optional text that is there stays as it is; one that is not is empty.
pub proof fn law_absent_text_is_empty(o: Option<String>)
    ensures
        o matches Some(s) ==> or_empty(o) == s@,
        o is None ==> or_empty(o).len() == 0,
{
}

} // verus!
