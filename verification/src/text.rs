//! Small text helpers shared by the command builders: shell quoting, path
//! joining, file-name extraction and decimal rendering of numbers.

use vstd::prelude::*;

verus! {

/// A string wrapped in single quotes, the way every remote command built by
/// this library quotes the path arguments it embeds. The content is not
/// escaped; paths that themselves contain a single quote are outside this
/// tool's scope and simply produce a command the remote shell will reject.
pub open spec fn quoted(s: Seq<char>) -> Seq<char> {
    "'"@ + s + "'"@
}

/// Wraps `s` in single quotes.
pub fn sh_quote(s: &str) -> (r: String)
    ensures
        r@ == quoted(s@),
{
    let mut r = String::from_str("'");
    r.append(s);
    r.append("'");
    proof {
        assert(r@ =~= quoted(s@));
    }
    r
}

/// `base` and `name` joined with a single path separator.
pub open spec fn joined(base: Seq<char>, name: Seq<char>) -> Seq<char> {
    base + "/"@ + name
}

/// Joins `base` and `name` with a `/` between them. Bases handed in by the
/// workflows never end in a separator, so no normalisation is attempted.
pub fn join_path(base: &str, name: &str) -> (r: String)
    ensures
        r@ == joined(base@, name@),
{
    let mut r = String::from_str(base);
    r.append("/");
    r.append(name);
    proof {
        assert(r@ =~= joined(base@, name@));
    }
    r
}

/// The text after the last `/` of `s`: empty when `s` is empty or ends in a
/// separator.
pub open spec fn file_name_part(s: Seq<char>) -> Seq<char>
    decreases s.len(),
{
    if s.len() == 0 {
        Seq::empty()
    } else if s.last() == '/' {
        Seq::empty()
    } else {
        file_name_part(s.drop_last()).push(s.last())
    }
}

/// The file-name component of a path: the non-empty text after its last
/// separator. `None` when the path is empty or ends in `/`, so has nothing a
/// remote copy could be named after.
pub open spec fn file_name_of(s: Seq<char>) -> Option<Seq<char>> {
    if file_name_part(s).len() == 0 {
        None
    } else {
        Some(file_name_part(s))
    }
}

/// A suffix that contains no separator and starts right after one (or at the
/// start of the path) is exactly the file-name part.
proof fn lemma_file_name_part(s: Seq<char>, i: int)
    requires
        0 <= i <= s.len(),
        forall|j: int| i <= j < s.len() ==> s[j] != '/',
        i > 0 ==> s[i - 1] == '/',
    ensures
        file_name_part(s) == s.subrange(i, s.len() as int),
    decreases s.len(),
{
    if i == s.len() {
        assert(file_name_part(s) =~= s.subrange(i, s.len() as int));
    } else {
        lemma_file_name_part(s.drop_last(), i);
        assert(file_name_part(s) =~= s.subrange(i, s.len() as int));
    }
}

/// The file-name component of `path`, or `None` when it has none.
pub fn file_name(path: &str) -> (r: Option<String>)
    ensures
        match r {
            Some(name) => file_name_of(path@) == Some(name@),
            None => file_name_of(path@) is None,
        },
{
    let n = path.unicode_len();
    let mut i = n;
    while i > 0 && path.get_char(i - 1) != '/'
        invariant
            i <= n,
            n == path@.len(),
            forall|j: int| i <= j < n ==> path@[j] != '/',
        decreases i,
    {
        i = i - 1;
    }
    proof {
        lemma_file_name_part(path@, i as int);
    }
    if i == n {
        None
    } else {
        let name = path.substring_char(i, n);
        Some(String::from_str(name))
    }
}

/// The character for one decimal digit.
pub open spec fn digit_char(d: nat) -> char {
    if d == 0 {
        '0'
    } else if d == 1 {
        '1'
    } else if d == 2 {
        '2'
    } else if d == 3 {
        '3'
    } else if d == 4 {
        '4'
    } else if d == 5 {
        '5'
    } else if d == 6 {
        '6'
    } else if d == 7 {
        '7'
    } else if d == 8 {
        '8'
    } else {
        '9'
    }
}

/// The decimal digits of `n`, most significant first, without a sign and
/// without leading zeros (a single `0` for zero itself).
pub open spec fn dec_str(n: nat) -> Seq<char>
    decreases n,
{
    if n < 10 {
        seq![digit_char(n)]
    } else {
        dec_str(n / 10) + seq![digit_char(n % 10)]
    }
}

/// The decimal rendering of `i`, with a leading `-` when it is negative.
pub open spec fn int_str(i: int) -> Seq<char> {
    if i < 0 {
        "-"@ + dec_str((-i) as nat)
    } else {
        dec_str(i as nat)
    }
}

/// One decimal digit as a string.
fn digit_string(d: u32) -> (r: String)
    requires
        d < 10,
    ensures
        r@ == seq![digit_char(d as nat)],
{
    let r = match d {
        0 => String::from_str("0"),
        1 => String::from_str("1"),
        2 => String::from_str("2"),
        3 => String::from_str("3"),
        4 => String::from_str("4"),
        5 => String::from_str("5"),
        6 => String::from_str("6"),
        7 => String::from_str("7"),
        8 => String::from_str("8"),
        _ => String::from_str("9"),
    };
    proof {
        reveal_strlit("0");
        reveal_strlit("1");
        reveal_strlit("2");
        reveal_strlit("3");
        reveal_strlit("4");
        reveal_strlit("5");
        reveal_strlit("6");
        reveal_strlit("7");
        reveal_strlit("8");
        reveal_strlit("9");
        assert(r@ =~= seq![digit_char(d as nat)]);
    }
    r
}

/// Renders `n` in decimal.
pub fn u32_to_dec(n: u32) -> (r: String)
    ensures
        r@ == dec_str(n as nat),
    decreases n,
{
    if n < 10 {
        digit_string(n)
    } else {
        let mut r = u32_to_dec(n / 10);
        let d = digit_string(n % 10);
        r.append(d.as_str());
        proof {
            assert(r@ =~= dec_str(n as nat));
        }
        r
    }
}

/// Renders `n` in decimal, with a `-` for negative values.
pub fn i32_to_dec(n: i32) -> (r: String)
    ensures
        r@ == int_str(n as int),
{
    if n >= 0 {
        let r = u32_to_dec(n as u32);
        proof {
            assert(n as u32 as nat == n as int as nat);
        }
        r
    } else {
        let wide: i64 = -(n as i64);
        proof {
            assert(0 <= wide <= u32::MAX as i64);
        }
        let mag: u32 = wide as u32;
        let mut r = String::from_str("-");
        let digits = u32_to_dec(mag);
        r.append(digits.as_str());
        proof {
            assert(mag as nat == (-(n as int)) as nat);
            assert(r@ =~= int_str(n as int));
        }
        r
    }
}

} // verus!
