//! Character-level string helpers with their mathematical models.

use vstd::prelude::*;

verus! {

/// Equality of two string slices by their characters.
pub fn str_eq(a: &str, b: &str) -> (r: bool)
    ensures
        r == (a@ == b@),
{
    let n = a.unicode_len();
    if n != b.unicode_len() {
        return false;
    }
    let mut i: usize = 0;
    while i < n
        invariant
            n == a@.len(),
            n == b@.len(),
            i <= n,
            forall|j: int| 0 <= j < i ==> a@[j] == b@[j],
        decreases n - i,
    {
        if a.get_char(i) != b.get_char(i) {
            return false;
        }
        i = i + 1;
    }
    assert(a@ =~= b@);
    true
}


/// The ASCII lower-case form of a character; other characters stay as they are.
pub open spec fn ascii_lower(c: char) -> char {
    if 'A' <= c && c <= 'Z' {
        ((c as u32) + 32) as char
    } else {
        c
    }
}

/// Two character sequences that are equal once ASCII letters are folded to lower case.
pub open spec fn eq_ignore_ascii_case_spec(a: Seq<char>, b: Seq<char>) -> bool {
    &&& a.len() == b.len()
    &&& forall|i: int| 0 <= i < a.len() ==> ascii_lower(#[trigger] a[i]) == ascii_lower(b[i])
}

fn lower_char(c: char) -> (r: char)
    ensures
        r == ascii_lower(c),
{
    if 'A' <= c && c <= 'Z' {
        let code: u32 = c as u32;
        let lowered: u8 = (code + 32) as u8;
        proof {
            assert((lowered as char) == ((c as u32) + 32) as char);
        }
        lowered as char
    } else {
        c
    }
}

/// Case-insensitive comparison over ASCII letters, as `str::eq_ignore_ascii_case` does.
///
/// Folding only touches ASCII bytes, so comparing the folded byte strings and comparing
/// the folded character sequences give the same answer.
pub fn eq_ignore_ascii_case(a: &str, b: &str) -> (r: bool)
    ensures
        r == eq_ignore_ascii_case_spec(a@, b@),
{
    let n = a.unicode_len();
    if n != b.unicode_len() {
        return false;
    }
    let mut i: usize = 0;
    while i < n
        invariant
            n == a@.len(),
            n == b@.len(),
            i <= n,
            forall|j: int| 0 <= j < i ==> ascii_lower(#[trigger] a@[j]) == ascii_lower(b@[j]),
        decreases n - i,
    {
        if lower_char(a.get_char(i)) != lower_char(b.get_char(i)) {
            return false;
        }
        i = i + 1;
    }
    true
}


/// `s` with every trailing occurrence of `c` removed.
pub open spec fn trim_end_char(s: Seq<char>, c: char) -> Seq<char>
    decreases s.len(),
{
    if s.len() > 0 && s.last() == c {
        trim_end_char(s.drop_last(), c)
    } else {
        s
    }
}

/// Removes every trailing `'/'`, as `str::trim_end_matches('/')` does.
pub fn trim_trailing_slashes(s: &str) -> (r: &str)
    ensures
        r@ == trim_end_char(s@, '/'),
{
    let n = s.unicode_len();
    let mut k: usize = n;
    assert(s@.subrange(0, n as int) =~= s@);
    while k > 0 && s.get_char(k - 1) == '/'
        invariant
            n == s@.len(),
            k <= n,
            trim_end_char(s@.subrange(0, k as int), '/') == trim_end_char(s@, '/'),
        decreases k,
    {
        assert(s@.subrange(0, k as int).drop_last() =~= s@.subrange(0, k - 1));
        k = k - 1;
    }
    let r = s.substring_char(0, k);
    r
}

/// The sequences of `parts` joined with `sep` between neighbours.
pub open spec fn join_spec(parts: Seq<Seq<char>>, sep: Seq<char>) -> Seq<char>
    decreases parts.len(),
{
    if parts.len() == 0 {
        Seq::empty()
    } else if parts.len() == 1 {
        parts[0]
    } else {
        join_spec(parts.drop_last(), sep) + sep + parts.last()
    }
}

/// The character sequences of a vector of strings.
pub open spec fn strings_view(v: Seq<String>) -> Seq<Seq<char>> {
    v.map_values(|s: String| s@)
}

/// Joins `parts` with `sep`, as `[String]::join` does.
pub fn join(parts: &Vec<String>, sep: &str) -> (r: String)
    ensures
        r@ == join_spec(strings_view(parts@), sep@),
{
    let mut r = String::new();
    let mut i: usize = 0;
    while i < parts.len()
        invariant
            i <= parts.len(),
            r@ == join_spec(strings_view(parts@).take(i as int), sep@),
        decreases parts.len() - i,
    {
        let ghost before = strings_view(parts@).take(i as int);
        assert(strings_view(parts@).take(i + 1).drop_last() =~= before);
        if i > 0 {
            r.append(sep);
        }
        r.append(parts[i].as_str());
        proof {
            if i == 0 {
                assert(strings_view(parts@).take(1) =~= seq![parts@[0]@]);
            }
        }
        i = i + 1;
    }
    assert(strings_view(parts@).take(parts.len() as int) =~= strings_view(parts@));
    r
}

/// `n` written in decimal digits, most significant first.
pub open spec fn decimal(n: nat) -> Seq<char>
    decreases n,
{
    if n < 10 {
        seq![digit_char(n)]
    } else {
        decimal(n / 10).push(digit_char(n % 10))
    }
}

/// The character of a decimal digit.
pub open spec fn digit_char(d: nat) -> char {
    ((48 + d) as u32) as char
}

fn digit_str(d: u32) -> (r: &'static str)
    requires
        d < 10,
    ensures
        r@ == seq![digit_char(d as nat)],
{
    proof {
        reveal_strlit("0");
        reveal_strlit("1");
        reveal_strlit("2");
        reveal_strlit("3");
        reveal_strlit("4");
        reveal_strlit("5");
        reveal_strlit("6");
        reveal_strlit("7");
        reveal_strlit("8");
        reveal_strlit("9");
    }
    let r = match d {
        0 => "0",
        1 => "1",
        2 => "2",
        3 => "3",
        4 => "4",
        5 => "5",
        6 => "6",
        7 => "7",
        8 => "8",
        _ => "9",
    };
    assert(r@ =~= seq![digit_char(d as nat)]);
    r
}

/// The decimal representation of `n`, as `u64::to_string` gives it.
pub fn decimal_string(n: u64) -> (r: String)
    ensures
        r@ == decimal(n as nat),
    decreases n,
{
    if n < 10 {
        String::from_str(digit_str(n as u32))
    } else {
        let mut r = decimal_string(n / 10);
        r.append(digit_str((n % 10) as u32));
        r
    }
}

/// `s` followed by enough spaces to make it `width` characters long.
pub open spec fn pad_right_spec(s: Seq<char>, width: nat) -> Seq<char> {
    if s.len() >= width {
        s
    } else {
        s + Seq::new((width - s.len()) as nat, |i: int| ' ')
    }
}

/// Left-aligns `s` in a field of `width` characters, as the `{:<width}` format does.
pub fn pad_right(s: &str, width: usize) -> (r: String)
    ensures
        r@ == pad_right_spec(s@, width as nat),
{
    let mut r = String::from_str(s);
    let mut len = s.unicode_len();
    while len < width
        invariant
            len == r@.len(),
            s@.len() <= len,
            len <= width || len == s@.len(),
            r@ =~= s@ + Seq::new((len - s@.len()) as nat, |i: int| ' '),
        decreases width - len,
    {
        proof {
            reveal_strlit(" ");
        }
        r.append(" ");
        len = len + 1;
    }
    assert(r@ =~= pad_right_spec(s@, width as nat));
    r
}

} // verus!
