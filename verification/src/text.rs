//! Text helpers shared by the library: decimal rendering of integers,
//! trimming of Unicode white space, joining of lines, and document ids.
use vstd::prelude::*;

verus! {

/// The character of a decimal digit `d` (`0 <= d < 10`).
pub open spec fn digit_char(d: nat) -> char {
    if d == 0 {
        '0'
    } else if d == 1 {
        '1'
    } else if d == 2 {
        '2'
    } else if d == 3 {
        '3'
    } else if d == 4 {
        '4'
    } else if d == 5 {
        '5'
    } else if d == 6 {
        '6'
    } else if d == 7 {
        '7'
    } else if d == 8 {
        '8'
    } else {
        '9'
    }
}

/// The decimal representation of `n`, most significant digit first, with
/// no sign and no leading zeros (this is what `Display` prints for an
/// unsigned integer).
pub open spec fn decimal(n: nat) -> Seq<char>
    decreases n,
{
    if n < 10 {
        seq![digit_char(n)]
    } else {
        decimal(n / 10).push(digit_char(n % 10))
    }
}

fn digit_string(d: u64) -> (s: String)
    requires
        d < 10,
    ensures
        s@ == seq![digit_char(d as nat)],
{
    let text = if d == 0 {
        "0"
    } else if d == 1 {
        "1"
    } else if d == 2 {
        "2"
    } else if d == 3 {
        "3"
    } else if d == 4 {
        "4"
    } else if d == 5 {
        "5"
    } else if d == 6 {
        "6"
    } else if d == 7 {
        "7"
    } else if d == 8 {
        "8"
    } else {
        "9"
    };
    proof {
        reveal_strlit("0");
        reveal_strlit("1");
        reveal_strlit("2");
        reveal_strlit("3");
        reveal_strlit("4");
        reveal_strlit("5");
        reveal_strlit("6");
        reveal_strlit("7");
        reveal_strlit("8");
        reveal_strlit("9");
    }
    let s = text.to_string();
    s
}

/// Renders `n` in decimal, as `n.to_string()` does.
pub fn decimal_string(n: u64) -> (s: String)
    ensures
        s@ == decimal(n as nat),
    decreases n,
{
    if n < 10 {
        digit_string(n)
    } else {
        let mut s = decimal_string(n / 10);
        let d = digit_string(n % 10);
        s.append(d.as_str());
        s
    }
}

/// The Unicode `White_Space` property, which `char::is_whitespace` and
/// `str::trim` use.
pub open spec fn is_white_space(c: char) -> bool {
    let v = c as u32;
    ||| 9 <= v <= 13
    ||| v == 32
    ||| v == 0x85
    ||| v == 0xa0
    ||| v == 0x1680
    ||| 0x2000 <= v <= 0x200a
    ||| v == 0x2028
    ||| v == 0x2029
    ||| v == 0x202f
    ||| v == 0x205f
    ||| v == 0x3000
}

/// `s` without its leading white space.
pub open spec fn trim_start(s: Seq<char>) -> Seq<char>
    decreases s.len(),
{
    if s.len() > 0 && is_white_space(s[0]) {
        trim_start(s.drop_first())
    } else {
        s
    }
}

/// `s` without its trailing white space.
pub open spec fn trim_end(s: Seq<char>) -> Seq<char>
    decreases s.len(),
{
    if s.len() > 0 && is_white_space(s.last()) {
        trim_end(s.drop_last())
    } else {
        s
    }
}

/// `s` without leading and trailing white space, as `str::trim` gives it.
pub open spec fn trim(s: Seq<char>) -> Seq<char> {
    trim_end(trim_start(s))
}

fn char_is_white_space(c: char) -> (b: bool)
    ensures
        b == is_white_space(c),
{
    let v = c as u32;
    (9 <= v && v <= 13) || v == 32 || v == 0x85 || v == 0xa0 || v == 0x1680 || (0x2000 <= v && v
        <= 0x200a) || v == 0x2028 || v == 0x2029 || v == 0x202f || v == 0x205f || v == 0x3000
}

/// Returns `s` with leading and trailing white space removed.
pub fn trim_string(s: &str) -> (t: String)
    ensures
        t@ == trim(s@),
{
    let n = s.unicode_len();
    let mut i: usize = 0;
    assert(s@.subrange(0, n as int) =~= s@);
    while i < n && char_is_white_space(s.get_char(i))
        invariant
            n == s@.len(),
            i <= n,
            trim_start(s@) == trim_start(s@.subrange(i as int, n as int)),
        decreases n - i,
    {
        assert(s@.subrange(i as int, n as int).drop_first() =~= s@.subrange(i + 1, n as int));
        i = i + 1;
    }
    let mut j: usize = n;
    while j > i && char_is_white_space(s.get_char(j - 1))
        invariant
            n == s@.len(),
            i <= j <= n,
            trim(s@) == trim_end(s@.subrange(i as int, j as int)),
        decreases j,
    {
        assert(s@.subrange(i as int, j as int).drop_last() =~= s@.subrange(i as int, j - 1));
        j = j - 1;
    }
    let t = s.substring_char(i, j);
    String::from_str(t)
}

/// Joins `lines` with `sep` between consecutive lines, as `[String]::join`.
pub open spec fn join(lines: Seq<Seq<char>>, sep: Seq<char>) -> Seq<char>
    decreases lines.len(),
{
    if lines.len() == 0 {
        Seq::empty()
    } else if lines.len() == 1 {
        lines[0]
    } else {
        join(lines.drop_last(), sep) + sep + lines.last()
    }
}

/// Where line `i` starts in `join(lines, sep)` when the separator has
/// `sep_len` characters: after every earlier line, each followed by the
/// separator.
pub open spec fn join_offset(lines: Seq<Seq<char>>, sep_len: nat, i: nat) -> nat
    decreases i,
{
    if i == 0 {
        0
    } else {
        join_offset(lines, sep_len, (i - 1) as nat) + lines[i - 1].len() + sep_len
    }
}

proof fn lemma_join_offset_drop_last(lines: Seq<Seq<char>>, sep_len: nat, i: nat)
    requires
        i < lines.len(),
    ensures
        join_offset(lines.drop_last(), sep_len, i) == join_offset(lines, sep_len, i),
    decreases i,
{
    if i > 0 {
        lemma_join_offset_drop_last(lines, sep_len, (i - 1) as nat);
    }
}

/// Later lines start later.
pub proof fn lemma_join_offset_monotonic(lines: Seq<Seq<char>>, sep_len: nat, i: nat, j: nat)
    requires
        i <= j,
    ensures
        join_offset(lines, sep_len, i) <= join_offset(lines, sep_len, j),
    decreases j,
{
    if i < j {
        lemma_join_offset_monotonic(lines, sep_len, i, (j - 1) as nat);
    }
}

/// The length of a join: every line, each followed by the separator, less
/// the last separator.
pub proof fn lemma_join_len(lines: Seq<Seq<char>>, sep: Seq<char>)
    requires
        lines.len() >= 1,
    ensures
        join(lines, sep).len() + sep.len() == join_offset(lines, sep.len(), lines.len()),
    decreases lines.len(),
{
    let n = lines.len();
    assert(join_offset(lines, sep.len(), 0) == 0);
    if n >= 2 {
        lemma_join_len(lines.drop_last(), sep);
        lemma_join_offset_drop_last(lines, sep.len(), (n - 1) as nat);
        assert(join(lines, sep) == join(lines.drop_last(), sep) + sep + lines.last());
        assert(join_offset(lines, sep.len(), n) == join_offset(lines, sep.len(), (n - 1) as nat)
            + lines[n - 1].len() + sep.len());
    }
}

/// A join holds every line, unchanged, at its offset.
pub proof fn lemma_join_places_lines(lines: Seq<Seq<char>>, sep: Seq<char>, i: int)
    requires
        0 <= i < lines.len(),
    ensures
        join(lines, sep).subrange(
            join_offset(lines, sep.len(), i as nat) as int,
            (join_offset(lines, sep.len(), i as nat) + lines[i].len()) as int,
        ) == lines[i],
    decreases lines.len(),
{
    let n = lines.len();
    if n == 1 {
        assert(join(lines, sep).subrange(0, lines[0].len() as int) =~= lines[0]);
    } else {
        let dl = lines.drop_last();
        let j = join(lines, sep);
        let jd = join(dl, sep);
        assert(j == jd + sep + lines.last());
        lemma_join_len(dl, sep);
        lemma_join_offset_drop_last(lines, sep.len(), (n - 1) as nat);
        if i < n - 1 {
            lemma_join_places_lines(dl, sep, i);
            lemma_join_offset_drop_last(lines, sep.len(), i as nat);
            lemma_join_offset_monotonic(lines, sep.len(), (i + 1) as nat, (n - 1) as nat);
            let o = join_offset(lines, sep.len(), i as nat) as int;
            assert(j.subrange(o, o + lines[i].len()) =~= jd.subrange(o, o + lines[i].len()));
        } else {
            let o = join_offset(lines, sep.len(), i as nat) as int;
            assert(o == jd.len() + sep.len());
            assert(j.subrange(o, o + lines[i].len()) =~= lines.last());
        }
    }
}

/// A lower-case hexadecimal digit.
pub open spec fn is_lower_hex(c: char) -> bool {
    let v = c as u32;
    (48 <= v <= 57) || (97 <= v <= 102)
}

/// The hyphenated lower-case text of a random (version 4) UUID, such as
/// `67e55044-10b1-426f-9247-bb680e5fe0c8`.
pub open spec fn is_uuid_v4_text(s: Seq<char>) -> bool {
    &&& s.len() == 36
    &&& forall|i: int|
        #![trigger s[i]]
        0 <= i < 36 ==> if i == 8 || i == 13 || i == 18 || i == 23 {
            s[i] == '-'
        } else {
            is_lower_hex(s[i])
        }
    &&& s[14] == '4'
}

/// Calls `uuid::Uuid::new_v4` and renders the id with `Display`. The id is
/// random; the contract claims only the documented shape of its text: 36
/// characters, hyphens at 8, 13, 18 and 23, lower-case hex digits elsewhere
/// and the version digit `4` at 14. `new_v4` panics when the operating
/// system's random source fails, which no argument can prevent.
#[verifier::external_body]
pub(crate) fn new_uuid_v4_text() -> (id: String)
    ensures
        is_uuid_v4_text(id@),
{
    uuid::Uuid::new_v4().to_string()
}

} // verus!
