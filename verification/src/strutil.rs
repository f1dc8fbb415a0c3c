//! String helpers the runtime's path and protocol logic is built on:
//! decimal rendering, equality, suffix tests, path joining and path
//! splitting.

use vstd::prelude::*;
use vstd::string::StrSliceExecFns;
use vstd::string::StringExecFns;
use vstd::string::StringSliceAdditionalSpecFns;

verus! {

/// The decimal digit character for a value below ten.
pub open spec fn dec_digit(d: int) -> char
    recommends
        0 <= d < 10,
{
    ((0x30 + d) as u8) as char
}

/// The decimal rendering of a natural number, most significant digit first.
pub open spec fn dec_str(n: nat) -> Seq<char>
    decreases n,
{
    if n < 10 {
        seq![dec_digit(n as int)]
    } else {
        dec_str(n / 10).push(dec_digit((n % 10) as int))
    }
}

/// The decimal rendering of an integer: a minus sign for negative values.
pub open spec fn dec_int_str(n: int) -> Seq<char> {
    if n < 0 {
        seq!['-'] + dec_str((-n) as nat)
    } else {
        dec_str(n as nat)
    }
}

fn digit_str(d: u64) -> (r: &'static str)
    requires
        d < 10,
    ensures
        r@ =~= seq![dec_digit(d as int)],
{
    proof {
        reveal_strlit("0");
        reveal_strlit("1");
        reveal_strlit("2");
        reveal_strlit("3");
        reveal_strlit("4");
        reveal_strlit("5");
        reveal_strlit("6");
        reveal_strlit("7");
        reveal_strlit("8");
        reveal_strlit("9");
    }
    match d {
        0 => "0",
        1 => "1",
        2 => "2",
        3 => "3",
        4 => "4",
        5 => "5",
        6 => "6",
        7 => "7",
        8 => "8",
        _ => "9",
    }
}

/// Render an unsigned value in decimal.
pub fn u64_to_string(n: u64) -> (r: String)
    ensures
        r@ == dec_str(n as nat),
    decreases n,
{
    if n < 10 {
        digit_str(n).to_owned()
    } else {
        let mut s = u64_to_string(n / 10);
        s.append(digit_str(n % 10));
        proof {
            assert(dec_str(n as nat) == dec_str((n / 10) as nat).push(dec_digit((n % 10) as int)));
            assert(s@ =~= dec_str(n as nat));
        }
        s
    }
}

/// Render a signed value in decimal.
pub fn i64_to_string(n: i64) -> (r: String)
    ensures
        r@ == dec_int_str(n as int),
{
    if n >= 0 {
        u64_to_string(n as u64)
    } else {
        let m: u64 = if n == i64::MIN {
            9223372036854775808u64
        } else {
            (-n) as u64
        };
        let mut s = String::from_str("-");
        s.append(u64_to_string(m).as_str());
        proof {
            reveal_strlit("-");
            assert(s@ =~= dec_int_str(n as int));
        }
        s
    }
}

/// Whether two byte slices hold the same bytes.
pub fn bytes_eq(a: &[u8], b: &[u8]) -> (r: bool)
    ensures
        r == (a@ == b@),
{
    if a.len() != b.len() {
        return false;
    }
    let n = a.len();
    let mut i: usize = 0;
    while i < n
        invariant
            n == a@.len() == b@.len(),
            i <= n,
            forall|j: int| 0 <= j < i ==> a@[j] == b@[j],
        decreases n - i,
    {
        if a[i] != b[i] {
            return false;
        }
        i += 1;
    }
    proof {
        assert(a@ =~= b@);
    }
    true
}

/// Whether two string slices hold the same characters.
pub fn str_eq(a: &str, b: &str) -> (r: bool)
    ensures
        r == (a@ == b@),
{
    let r = bytes_eq(a.as_bytes(), b.as_bytes());
    proof {
        if a.spec_bytes() == b.spec_bytes() {
            vstd::utf8::encode_utf8_decode_utf8(a@);
            vstd::utf8::encode_utf8_decode_utf8(b@);
        }
    }
    r
}

/// Whether `s` ends with `suffix`, as character sequences.
pub open spec fn spec_ends_with(s: Seq<char>, suffix: Seq<char>) -> bool {
    suffix.len() <= s.len() && s.skip(s.len() - suffix.len()) == suffix
}

/// Whether the string ends with the given suffix.
pub fn str_ends_with(s: &str, suffix: &str) -> (r: bool)
    ensures
        r == spec_ends_with(s@, suffix@),
{
    let n = s.unicode_len();
    let m = suffix.unicode_len();
    if m > n {
        return false;
    }
    let mut i: usize = 0;
    while i < m
        invariant
            m <= n,
            n == s@.len(),
            m == suffix@.len(),
            i <= m,
            forall|j: int| 0 <= j < i ==> s@[n - m + j] == suffix@[j],
        decreases m - i,
    {
        let c1 = s.get_char(n - m + i);
        let c2 = suffix.get_char(i);
        if c1 as u32 != c2 as u32 {
            proof {
                assert(s@.skip(n - m)[i as int] == s@[n - m + i]);
            }
            return false;
        }
        i += 1;
    }
    proof {
        assert(s@.skip(n - m) =~= suffix@);
    }
    true
}

/// The join of a base path and a further path: exactly one slash between
/// them, whether or not the second part brings its own.
pub open spec fn spec_path_join(base: Seq<char>, rel: Seq<char>) -> Seq<char> {
    if rel.len() > 0 && rel[0] == '/' {
        base + rel
    } else {
        base + seq!['/'] + rel
    }
}

/// Join a base path and a further path with exactly one slash between them.
pub fn path_join(base: &str, rel: &str) -> (r: String)
    ensures
        r@ == spec_path_join(base@, rel@),
{
    proof {
        reveal_strlit("/");
    }
    if rel.unicode_len() > 0 && rel.get_char(0) as u32 == '/' as u32 {
        let r = String::from_str(base).concat(rel);
        proof {
            assert(r@ =~= spec_path_join(base@, rel@));
        }
        r
    } else {
        let r = String::from_str(base).concat("/").concat(rel);
        proof {
            assert(r@ =~= spec_path_join(base@, rel@));
        }
        r
    }
}

/// The components of a slash-separated path, continuing a scan that has
/// already collected the characters `cur` of the component under way.
/// Empty components (leading, trailing or doubled slashes) are dropped.
pub open spec fn split_acc(s: Seq<char>, cur: Seq<char>) -> Seq<Seq<char>>
    decreases s.len(),
{
    if s.len() == 0 {
        if cur.len() > 0 {
            seq![cur]
        } else {
            Seq::empty()
        }
    } else if s[0] == '/' {
        if cur.len() > 0 {
            seq![cur] + split_acc(s.drop_first(), Seq::empty())
        } else {
            split_acc(s.drop_first(), Seq::empty())
        }
    } else {
        split_acc(s.drop_first(), cur.push(s[0]))
    }
}

/// The non-empty components of a slash-separated path.
pub open spec fn spec_components(s: Seq<char>) -> Seq<Seq<char>> {
    split_acc(s, Seq::empty())
}

/// Split a path at its slashes, dropping empty components.
pub fn split_components(s: &str) -> (parts: Vec<String>)
    ensures
        parts@.map_values(|p: String| p@) == spec_components(s@),
{
    let n = s.unicode_len();
    let mut parts: Vec<String> = Vec::new();
    let mut start: usize = 0;
    let mut i: usize = 0;
    proof {
        assert(s@.skip(0) =~= s@);
        assert(s@.subrange(0, 0) =~= Seq::<char>::empty());
        assert(parts@.map_values(|p: String| p@) =~= Seq::<Seq<char>>::empty());
    }
    while i < n
        invariant
            n == s@.len(),
            start <= i <= n,
            forall|j: int| start <= j < i ==> s@[j] != '/',
            parts@.map_values(|p: String| p@) + split_acc(
                s@.skip(i as int),
                s@.subrange(start as int, i as int),
            ) == spec_components(s@),
        decreases n - i,
    {
        let ghost pre = parts@.map_values(|p: String| p@);
        let ghost cur = s@.subrange(start as int, i as int);
        let ghost tail = s@.skip(i as int);
        proof {
            assert(tail.len() == n - i);
            assert(tail[0] == s@[i as int]);
            assert(tail.drop_first() =~= s@.skip(i as int + 1));
        }
        if s.get_char(i) as u32 == '/' as u32 {
            if i > start {
                let piece = s.substring_char(start, i).to_owned();
                parts.push(piece);
                proof {
                    assert(split_acc(tail, cur) == seq![cur] + split_acc(
                        s@.skip(i as int + 1),
                        Seq::empty(),
                    ));
                    assert(parts@.map_values(|p: String| p@) =~= pre + seq![cur]);
                    assert((pre + seq![cur]) + split_acc(s@.skip(i as int + 1), Seq::empty())
                        =~= pre + (seq![cur] + split_acc(s@.skip(i as int + 1), Seq::empty())));
                }
            } else {
                proof {
                    assert(cur =~= Seq::<char>::empty());
                    assert(split_acc(tail, cur) == split_acc(
                        s@.skip(i as int + 1),
                        Seq::empty(),
                    ));
                }
            }
            start = i + 1;
            i += 1;
            proof {
                assert(s@.subrange(start as int, i as int) =~= Seq::<char>::empty());
            }
        } else {
            proof {
                assert(split_acc(tail, cur) == split_acc(
                    s@.skip(i as int + 1),
                    cur.push(s@[i as int]),
                ));
                assert(cur.push(s@[i as int]) =~= s@.subrange(start as int, i as int + 1));
            }
            i += 1;
        }
    }
    proof {
        assert(s@.skip(n as int) =~= Seq::<char>::empty());
    }
    if start < n {
        let piece = s.substring_char(start, n).to_owned();
        let ghost pre = parts@.map_values(|p: String| p@);
        parts.push(piece);
        proof {
            assert(parts@.map_values(|p: String| p@) =~= pre + seq![s@.subrange(
                start as int,
                n as int,
            )]);
        }
    }
    parts
}

} // verus!
