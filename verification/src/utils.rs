use vstd::prelude::*;
use vstd::string::*;

verus! {

/// The decimal digit character for `d` (`d < 10`).
pub open spec fn digit_char(d: nat) -> char {
    if d == 0 { '0' } else if d == 1 { '1' } else if d == 2 { '2' } else if d == 3 { '3' }
    else if d == 4 { '4' } else if d == 5 { '5' } else if d == 6 { '6' } else if d == 7 { '7' }
    else if d == 8 { '8' } else { '9' }
}

/// The decimal representation of `n`, most significant digit first, without leading zeros.
pub open spec fn decimal(n: nat) -> Seq<char>
    decreases n,
{
    if n < 10 {
        seq![digit_char(n)]
    } else {
        decimal(n / 10).push(digit_char(n % 10))
    }
}

fn digit_str(d: usize) -> (r: &'static str)
    requires
        d < 10,
    ensures
        r@ == seq![digit_char(d as nat)],
{
    proof {
        reveal_strlit("0");
        reveal_strlit("1");
        reveal_strlit("2");
        reveal_strlit("3");
        reveal_strlit("4");
        reveal_strlit("5");
        reveal_strlit("6");
        reveal_strlit("7");
        reveal_strlit("8");
        reveal_strlit("9");
    }
    if d == 0 { "0" } else if d == 1 { "1" } else if d == 2 { "2" } else if d == 3 { "3" }
    else if d == 4 { "4" } else if d == 5 { "5" } else if d == 6 { "6" } else if d == 7 { "7" }
    else if d == 8 { "8" } else { "9" }
}

/// Appends the decimal representation of `n` to `out`.
fn push_decimal(out: &mut String, n: usize)
    ensures
        final(out)@ == old(out)@ + decimal(n as nat),
    decreases n,
{
    if n < 10 {
        out.append(digit_str(n));
    } else {
        push_decimal(out, n / 10);
        out.append(digit_str(n % 10));
        assert(decimal(n as nat) == decimal((n / 10) as nat).push(digit_char((n % 10) as nat)));
    }
}

/// The human readable text for a byte count `len`, as [`format_byte_length`] renders it.
pub open spec fn byte_length_text(len: nat) -> Seq<char> {
    if len == 0 || len == 1 {
        decimal(len) + " Byte"@
    } else if len <= 10240 {
        decimal(len) + " Bytes"@
    } else if 12034 < len && len <= 10485760 {
        decimal(len / 1024) + " KiB"@
    } else {
        decimal(len / 1024 / 1024) + " MiB"@
    }
}

/// Formats bytes length to human readable string following rules below:
///
/// - For `N == 0 || N == 1`, uses unit `Byte`.
/// - For `N <= 10240`, uses unit `Bytes`.
/// - For `12034 < N <= 10485760`, uses unit `KiB` and no digit.
/// - For others, uses unit `MiB` and no digit.
pub fn format_byte_length(len: usize) -> (r: String)
    ensures
        r@ == byte_length_text(len as nat),
{
    let mut out = String::new();
    if len == 0 || len == 1 {
        push_decimal(&mut out, len);
        out.append(" Byte");
    } else if len <= 10240 {
        push_decimal(&mut out, len);
        out.append(" Bytes");
    } else if 12034 < len && len <= 10485760 {
        push_decimal(&mut out, len / 1024);
        out.append(" KiB");
    } else {
        push_decimal(&mut out, len / 1024 / 1024);
        out.append(" MiB");
    }
    out
}

/// The text of a byte count gives the count in the unit its rules pick:
/// bytes as they are, and KiB and MiB as the number of whole kibibytes
/// (1024 bytes) or mebibytes (1024 * 1024 bytes) in it, rounded down.
pub proof fn lemma_byte_length_units(len: nat)
    ensures
        len <= 1 ==> byte_length_text(len) == decimal(len) + " Byte"@,
        2 <= len <= 10240 ==> byte_length_text(len) == decimal(len) + " Bytes"@,
        12034 < len <= 10485760 ==> exists|n: nat|
            #![trigger decimal(n)]
            byte_length_text(len) == decimal(n) + " KiB"@ && n * 1024 <= len < (n + 1) * 1024,
        (10240 < len <= 12034 || len > 10485760) ==> exists|n: nat|
            #![trigger decimal(n)]
            byte_length_text(len) == decimal(n) + " MiB"@ && n * 1048576 <= len < (n + 1) * 1048576,
{
    let k = len / 1024;
    let m = len / 1024 / 1024;
    assert(k * 1024 <= len < (k + 1) * 1024);
    assert(m * 1024 <= k < (m + 1) * 1024);
    assert(m * 1048576 <= len < (m + 1) * 1048576);
    if 12034 < len <= 10485760 {
        assert(byte_length_text(len) == decimal(k) + " KiB"@);
    }
    if 10240 < len <= 12034 || len > 10485760 {
        assert(byte_length_text(len) == decimal(m) + " MiB"@);
    }
}

/// Whether two strings hold the same characters.
pub fn str_eq(a: &str, b: &str) -> (r: bool)
    ensures
        r == (a@ == b@),
{
    let n = a.unicode_len();
    if n != b.unicode_len() {
        return false;
    }
    let mut i: usize = 0;
    while i < n
        invariant
            n == a@.len(),
            n == b@.len(),
            i <= n,
            forall|j: int| 0 <= j < i ==> a@[j] == b@[j],
        decreases n - i,
    {
        if a.get_char(i) != b.get_char(i) {
            return false;
        }
        i = i + 1;
    }
    assert(a@ =~= b@);
    true
}

/// Whether `c` has the Unicode `White_Space` property, as `char::is_whitespace`
/// decides it.
pub open spec fn is_white_space(c: char) -> bool {
    let n = c as u32;
    (0x9 <= n <= 0xd) || n == 0x20 || n == 0x85 || n == 0xa0 || n == 0x1680 || (0x2000 <= n <= 0x200a)
        || n == 0x2028 || n == 0x2029 || n == 0x202f || n == 0x205f || n == 0x3000
}

/// Returns whether `c` has the Unicode `White_Space` property.
pub fn white_space(c: char) -> (r: bool)
    ensures
        r == is_white_space(c),
{
    let n = c as u32;
    (0x9 <= n && n <= 0xd) || n == 0x20 || n == 0x85 || n == 0xa0 || n == 0x1680 || (0x2000 <= n && n <= 0x200a)
        || n == 0x2028 || n == 0x2029 || n == 0x202f || n == 0x205f || n == 0x3000
}

/// Number of white space characters `s` starts with.
pub open spec fn leading_white_space(s: Seq<char>) -> nat
    decreases s.len(),
{
    if s.len() == 0 {
        0
    } else if is_white_space(s[0]) {
        1 + leading_white_space(s.drop_first())
    } else {
        0
    }
}

/// Number of white space characters `s` ends with.
pub open spec fn trailing_white_space(s: Seq<char>) -> nat
    decreases s.len(),
{
    if s.len() == 0 {
        0
    } else if is_white_space(s.last()) {
        1 + trailing_white_space(s.drop_last())
    } else {
        0
    }
}

/// `s` without leading and trailing white space, as `str::trim` gives it.
pub open spec fn trimmed(s: Seq<char>) -> Seq<char> {
    if leading_white_space(s) == s.len() {
        Seq::empty()
    } else {
        s.subrange(leading_white_space(s) as int, s.len() - trailing_white_space(s))
    }
}

proof fn lemma_leading(s: Seq<char>, i: int)
    requires
        0 <= i <= s.len(),
        forall|j: int| 0 <= j < i ==> is_white_space(#[trigger] s[j]),
        i == s.len() || !is_white_space(s[i]),
    ensures
        leading_white_space(s) == i,
    decreases i,
{
    if i > 0 {
        lemma_leading(s.drop_first(), i - 1);
    }
}

proof fn lemma_trailing(s: Seq<char>, k: int)
    requires
        0 <= k <= s.len(),
        forall|j: int| s.len() - k <= j < s.len() ==> is_white_space(#[trigger] s[j]),
        k == s.len() || !is_white_space(s[s.len() - k - 1]),
    ensures
        trailing_white_space(s) == k,
    decreases k,
{
    if k > 0 {
        lemma_trailing(s.drop_last(), k - 1);
    }
}

/// Returns `s` without leading and trailing white space.
pub fn trim(s: &str) -> (r: String)
    ensures
        r@ == trimmed(s@),
{
    let n = s.unicode_len();
    let mut start: usize = 0;
    while start < n && white_space(s.get_char(start))
        invariant
            n == s@.len(),
            start <= n,
            forall|j: int| 0 <= j < start ==> is_white_space(#[trigger] s@[j]),
        decreases n - start,
    {
        start = start + 1;
    }
    proof {
        lemma_leading(s@, start as int);
    }
    if start == n {
        return String::new();
    }
    let mut end: usize = n;
    while end > start && white_space(s.get_char(end - 1))
        invariant
            n == s@.len(),
            start < n,
            !is_white_space(s@[start as int]),
            start <= end <= n,
            forall|j: int| end <= j < n ==> is_white_space(#[trigger] s@[j]),
        decreases end,
    {
        end = end - 1;
    }
    proof {
        lemma_trailing(s@, (n - end) as int);
    }
    String::from_str(s.substring_char(start, end))
}

/// Index of the first line feed in `s`, or its length when there is none.
pub open spec fn first_line_feed(s: Seq<char>) -> nat
    decreases s.len(),
{
    if s.len() == 0 {
        0
    } else if s[0] == '\n' {
        0
    } else {
        1 + first_line_feed(s.drop_first())
    }
}

/// A line that ended with a line feed, without the carriage return before it.
pub open spec fn without_carriage_return(line: Seq<char>) -> Seq<char> {
    if line.len() > 0 && line.last() == '\r' {
        line.drop_last()
    } else {
        line
    }
}

/// The lines of `s`, as `str::lines` gives them: split at each `\n` or
/// `\r\n`; the last line ending is optional.
pub open spec fn lines_of(s: Seq<char>) -> Seq<Seq<char>>
    decreases s.len(),
{
    if s.len() == 0 {
        Seq::empty()
    } else {
        let i = first_line_feed(s);
        if i >= s.len() {
            seq![s]
        } else {
            seq![without_carriage_return(s.subrange(0, i as int))] + lines_of(s.subrange(i as int + 1, s.len() as int))
        }
    }
}

proof fn lemma_first_line_feed(s: Seq<char>, i: int)
    requires
        0 <= i <= s.len(),
        forall|j: int| 0 <= j < i ==> #[trigger] s[j] != '\n',
        i == s.len() || s[i] == '\n',
    ensures
        first_line_feed(s) == i,
    decreases i,
{
    if i > 0 {
        lemma_first_line_feed(s.drop_first(), i - 1);
    }
}

/// Returns the lines of `s`.
pub fn split_lines(s: &str) -> (r: Vec<String>)
    ensures
        r@.map_values(|line: String| line@) == lines_of(s@),
{
    let n = s.unicode_len();
    let mut lines: Vec<String> = Vec::new();
    let mut start: usize = 0;
    let mut i: usize = 0;
    assert(s@.subrange(0, n as int) =~= s@);
    assert(lines@.map_values(|line: String| line@) =~= Seq::<Seq<char>>::empty());
    assert(Seq::<Seq<char>>::empty() + lines_of(s@) =~= lines_of(s@));
    while i < n
        invariant
            n == s@.len(),
            start <= i <= n,
            forall|j: int| start <= j < i ==> #[trigger] s@[j] != '\n',
            lines@.map_values(|line: String| line@) + lines_of(s@.subrange(start as int, n as int)) == lines_of(s@),
        decreases n - i,
    {
        if s.get_char(i) == '\n' {
            let ghost rest = s@.subrange(start as int, n as int);
            proof {
                lemma_first_line_feed(rest, (i - start) as int);
                assert(rest.subrange(0, (i - start) as int) =~= s@.subrange(start as int, i as int));
                assert(rest.subrange((i - start) + 1, rest.len() as int) =~= s@.subrange(i + 1, n as int));
            }
            let line = if i > start && s.get_char(i - 1) == '\r' {
                s.substring_char(start, i - 1)
            } else {
                s.substring_char(start, i)
            };
            proof {
                if i > start && s@[i - 1] == '\r' {
                    assert(s@.subrange(start as int, i as int).drop_last() =~= s@.subrange(start as int, i - 1));
                }
                assert(line@ == without_carriage_return(s@.subrange(start as int, i as int)));
            }
            let ghost before = lines@;
            lines.push(String::from_str(line));
            proof {
                assert(lines@.map_values(|line: String| line@) =~= before.map_values(|line: String| line@).push(
                    without_carriage_return(s@.subrange(start as int, i as int)),
                ));
            }
            start = i + 1;
        }
        i = i + 1;
    }
    if start < n {
        let ghost rest = s@.subrange(start as int, n as int);
        proof {
            lemma_first_line_feed(rest, rest.len() as int);
            assert(rest.subrange(0, rest.len() as int) =~= rest);
        }
        let ghost before = lines@;
        lines.push(String::from_str(s.substring_char(start, n)));
        proof {
            assert(lines@.map_values(|line: String| line@) =~= before.map_values(|line: String| line@).push(rest));
        }
    } else {
        assert(s@.subrange(start as int, n as int).len() == 0);
    }
    assert(lines_of(s@.subrange(n as int, n as int)) =~= Seq::<Seq<char>>::empty());
    lines
}

} // verus!
