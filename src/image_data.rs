//! Decoding the base64 payload of an edited image, with or without a
//! leading media-type marker (`data:image/png;base64,`).

use vstd::prelude::*;
use crate::text::chars_of;

verus! {

/// The six-bit value of a character of the standard base64 alphabet.
pub open spec fn sextet(c: char) -> Option<u8> {
    if 'A' <= c && c <= 'Z' {
        Some((c as int - 'A' as int) as u8)
    } else if 'a' <= c && c <= 'z' {
        Some((c as int - 'a' as int + 26) as u8)
    } else if '0' <= c && c <= '9' {
        Some((c as int - '0' as int + 52) as u8)
    } else if c == '+' {
        Some(62u8)
    } else if c == '/' {
        Some(63u8)
    } else {
        None
    }
}

pub open spec fn is_sextet(c: char) -> bool {
    sextet(c) is Some
}

pub open spec fn sv(c: char) -> int {
    sextet(c)->Some_0 as int
}

/// Four alphabet characters: three bytes.
pub open spec fn full_group(g: Seq<char>) -> bool {
    g.len() == 4 && is_sextet(g[0]) && is_sextet(g[1]) && is_sextet(g[2]) && is_sextet(g[3])
}

/// The last group: four alphabet characters, or three and one `=`, or two
/// and two `=`.
pub open spec fn final_group(g: Seq<char>) -> bool {
    &&& g.len() == 4
    &&& is_sextet(g[0])
    &&& is_sextet(g[1])
    &&& (is_sextet(g[2]) && is_sextet(g[3]) || is_sextet(g[2]) && g[3] == '=' || g[2] == '='
        && g[3] == '=')
}

pub open spec fn byte0(g: Seq<char>) -> u8 {
    (sv(g[0]) * 4 + sv(g[1]) / 16) as u8
}

pub open spec fn byte1(g: Seq<char>) -> u8 {
    ((sv(g[1]) % 16) * 16 + sv(g[2]) / 4) as u8
}

pub open spec fn byte2(g: Seq<char>) -> u8 {
    ((sv(g[2]) % 4) * 64 + sv(g[3])) as u8
}

/// The bytes of a group; padding drops the bytes it stands for.
pub open spec fn group_bytes(g: Seq<char>) -> Seq<u8> {
    if g[2] == '=' {
        seq![byte0(g)]
    } else if g[3] == '=' {
        seq![byte0(g), byte1(g)]
    } else {
        seq![byte0(g), byte1(g), byte2(g)]
    }
}

/// `s` is a run of full groups.
pub open spec fn full_groups(s: Seq<char>) -> bool
    decreases s.len(),
{
    if s.len() == 0 {
        true
    } else if s.len() < 4 {
        false
    } else {
        full_group(s.subrange(s.len() - 4, s.len() as int)) && full_groups(
            s.subrange(0, s.len() - 4),
        )
    }
}

/// The bytes of a run of full groups.
pub open spec fn full_bytes(s: Seq<char>) -> Seq<u8>
    decreases s.len(),
{
    if s.len() < 4 {
        Seq::empty()
    } else {
        full_bytes(s.subrange(0, s.len() - 4)) + group_bytes(
            s.subrange(s.len() - 4, s.len() as int),
        )
    }
}

/// `s` is padded standard base64: full groups, then a last group that may
/// end in padding. The empty text is well formed.
pub open spec fn well_formed(s: Seq<char>) -> bool {
    s.len() == 0 || (s.len() >= 4 && full_groups(s.subrange(0, s.len() - 4)) && final_group(
        s.subrange(s.len() - 4, s.len() as int),
    ))
}

/// The bytes that well-formed base64 text `s` stands for.
pub open spec fn decoded(s: Seq<char>) -> Seq<u8> {
    if s.len() == 0 {
        Seq::empty()
    } else {
        full_bytes(s.subrange(0, s.len() - 4)) + group_bytes(
            s.subrange(s.len() - 4, s.len() as int),
        )
    }
}

/// `s` has no comma before position `k`.
pub open spec fn no_comma_before(s: Seq<char>, k: int) -> bool {
    forall|j: int| 0 <= j < k ==> s[j] != ','
}

/// The base64 part of an image payload: what follows the first comma,
/// which ends a media-type marker, or all of it where there is no comma.
pub open spec fn payload_of(s: Seq<char>) -> Seq<char> {
    if exists|k: int| 0 <= k < s.len() && s[k] == ',' {
        let k = choose|k: int| 0 <= k < s.len() && s[k] == ',' && no_comma_before(s, k);
        s.subrange(k + 1, s.len() as int)
    } else {
        s
    }
}

/// Why an image payload could not be decoded.
#[derive(PartialEq, Eq, Structural, Clone, Copy, Debug)]
pub enum ImageDataError {
    /// The payload is not padded standard base64.
    Malformed,
}

fn sextet_of(c: char) -> (r: Option<u8>)
    ensures
        r == sextet(c),
{
    if 'A' <= c && c <= 'Z' {
        Some((c as u32 - 'A' as u32) as u8)
    } else if 'a' <= c && c <= 'z' {
        Some((c as u32 - 'a' as u32 + 26) as u8)
    } else if '0' <= c && c <= '9' {
        Some((c as u32 - '0' as u32 + 52) as u8)
    } else if c == '+' {
        Some(62)
    } else if c == '/' {
        Some(63)
    } else {
        None
    }
}

proof fn lemma_full_groups_prefix(s: Seq<char>, k: int)
    requires
        full_groups(s),
        0 <= k <= s.len(),
        k % 4 == s.len() % 4,
    ensures
        full_groups(s.subrange(0, k)),
    decreases s.len(),
{
    if k == s.len() {
        assert(s.subrange(0, k) =~= s);
    } else {
        let t = s.subrange(0, s.len() - 4);
        lemma_full_groups_prefix(t, k);
        assert(t.subrange(0, k) =~= s.subrange(0, k));
    }
}

/// The index of the first comma in `s`, if any.
fn first_comma(s: &Vec<char>) -> (r: Option<usize>)
    ensures
        r matches Some(k) ==> k < s@.len() && s@[k as int] == ',' && no_comma_before(s@, k as int),
        r is None ==> no_comma_before(s@, s@.len() as int),
{
    let mut i: usize = 0;
    while i < s.len()
        invariant
            i <= s@.len(),
            no_comma_before(s@, i as int),
        decreases s@.len() - i,
    {
        if s[i] == ',' {
            return Some(i);
        }
        i = i + 1;
    }
    None
}

/// Decodes the base64 payload of an edited image, after the media-type
/// marker where there is one. Fails exactly where the payload is not padded
/// standard base64.
pub fn decode_image_data(data: &str) -> (r: Result<Vec<u8>, ImageDataError>)
    ensures
        r is Ok <==> well_formed(payload_of(data@)),
        r matches Ok(bytes) ==> bytes@ == decoded(payload_of(data@)),
        !well_formed(payload_of(data@)) ==> r == Err::<Vec<u8>, ImageDataError>(
            ImageDataError::Malformed,
        ),
{
    let chars = chars_of(data);
    let total = chars.len();
    let start: usize = match first_comma(&chars) {
        Some(k) => k + 1,
        None => 0,
    };
    let ghost p = chars@.subrange(start as int, chars@.len() as int);
    proof {
        let s = data@;
        if exists|k: int| 0 <= k < s.len() && s[k] == ',' {
            let k = choose|k: int| 0 <= k < s.len() && s[k] == ',' && no_comma_before(s, k);
            assert(start == k + 1);
            assert(p == payload_of(s));
        } else {
            assert(p =~= s);
        }
    }
    decode_payload(&chars, start)
}

/// Decodes the base64 text `s@[start..]`.
fn decode_payload(chars: &Vec<char>, start: usize) -> (r: Result<Vec<u8>, ImageDataError>)
    requires
        start <= chars@.len(),
    ensures
        ({
            let p = chars@.subrange(start as int, chars@.len() as int);
            &&& r is Ok <==> well_formed(p)
            &&& r matches Ok(bytes) ==> bytes@ == decoded(p)
            &&& !well_formed(p) ==> r == Err::<Vec<u8>, ImageDataError>(ImageDataError::Malformed)
        }),
{
    let ghost p = chars@.subrange(start as int, chars@.len() as int);
    let n = chars.len();
    let len = n - start;
    if len == 0 {
        return Ok(Vec::new());
    }
    if len < 4 || len % 4 != 0 {
        assert(!full_groups(p.subrange(0, p.len() - 4)) || p.len() < 4) by {
            if p.len() >= 4 && full_groups(p.subrange(0, p.len() - 4)) {
                lemma_full_groups_len(p.subrange(0, p.len() - 4));
            }
        }
        return Err(ImageDataError::Malformed);
    }
    let mut out: Vec<u8> = Vec::new();
    let last = n - 4;
    let mut i: usize = start;
    while i < last
        invariant
            n == chars@.len(),
            p == chars@.subrange(start as int, n as int),
            start <= i <= last,
            last == n - 4,
            (i - start) % 4 == 0,
            (last - start) % 4 == 0,
            full_groups(p.subrange(0, i - start)),
            out@ == full_bytes(p.subrange(0, i - start)),
        decreases last - i,
    {
        let ghost k = i - start;
        let ghost g = p.subrange(k, k + 4);
        assert(g =~= chars@.subrange(i as int, i + 4));
        match decode_full_group(chars, i) {
            None => {
                proof {
                    if full_groups(p.subrange(0, p.len() - 4)) {
                        lemma_group_of_full_groups(p, k);
                    }
                }
                return Err(ImageDataError::Malformed);
            },
            Some(bytes) => {
                out.push(bytes.0);
                out.push(bytes.1);
                out.push(bytes.2);
                proof {
                    assert(p.subrange(0, k + 4).subrange(0, k) =~= p.subrange(0, k));
                    assert(p.subrange(0, k + 4).subrange(k, k + 4) =~= g);
                    assert(out@ =~= full_bytes(p.subrange(0, k + 4)));
                }
            },
        }
        i = i + 4;
    }
    let ghost g = p.subrange(p.len() - 4, p.len() as int);
    assert(g =~= chars@.subrange(last as int, n as int));
    assert(p.subrange(0, last - start) =~= p.subrange(0, p.len() - 4));
    match decode_last_group(chars, last) {
        None => {
            return Err(ImageDataError::Malformed);
        },
        Some(tail) => {
            let mut tail = tail;
            out.append(&mut tail);
        },
    }
    assert(out@ =~= decoded(p));
    Ok(out)
}

/// A group inside the run of full groups that precedes the last group is
/// full.
proof fn lemma_group_of_full_groups(p: Seq<char>, k: int)
    requires
        p.len() >= 4,
        0 <= k,
        k + 4 <= p.len() - 4,
        k % 4 == 0,
        (p.len() - 4) % 4 == 0,
        full_groups(p.subrange(0, p.len() - 4)),
    ensures
        full_group(p.subrange(k, k + 4)),
{
    lemma_full_groups_prefix(p.subrange(0, p.len() - 4), k + 4);
    assert(p.subrange(0, p.len() - 4).subrange(0, k + 4) =~= p.subrange(0, k + 4));
    assert(p.subrange(0, k + 4).subrange(k, k + 4) =~= p.subrange(k, k + 4));
}

/// The bytes of the last group at `i`, or `None` where it is malformed.
fn decode_last_group(s: &Vec<char>, i: usize) -> (r: Option<Vec<u8>>)
    requires
        i + 4 <= s@.len(),
    ensures
        r is Some <==> final_group(s@.subrange(i as int, i + 4)),
        r matches Some(v) ==> v@ == group_bytes(s@.subrange(i as int, i + 4)),
{
    let n = s.len();
    let ghost g = s@.subrange(i as int, i + 4);
    assert(g[0] == s@[i as int] && g[1] == s@[i + 1] && g[2] == s@[i + 2] && g[3] == s@[i + 3]);
    let a = sextet_of(s[i]);
    let b = sextet_of(s[i + 1]);
    let c3 = s[i + 2];
    let c4 = s[i + 3];
    let c = sextet_of(c3);
    let d = sextet_of(c4);
    let mut v: Vec<u8> = Vec::new();
    match (a, b) {
        (Some(a), Some(b)) => {
            v.push(a * 4 + b / 16);
            if c3 == '=' && c4 == '=' {
                assert(v@ =~= group_bytes(g));
                return Some(v);
            }
            match c {
                None => None,
                Some(c) => {
                    v.push((b % 16) * 16 + c / 4);
                    if c4 == '=' {
                        assert(v@ =~= group_bytes(g));
                        return Some(v);
                    }
                    match d {
                        None => None,
                        Some(d) => {
                            v.push((c % 4) * 64 + d);
                            assert(v@ =~= group_bytes(g));
                            Some(v)
                        },
                    }
                },
            }
        },
        _ => None,
    }
}

/// The three bytes of the full group at `i`, or `None` where it is not one.
fn decode_full_group(s: &Vec<char>, i: usize) -> (r: Option<(u8, u8, u8)>)
    requires
        i + 4 <= s@.len(),
    ensures
        r is Some <==> full_group(s@.subrange(i as int, i + 4)),
        r matches Some(b) ==> seq![b.0, b.1, b.2] == group_bytes(s@.subrange(i as int, i + 4)),
{
    let n = s.len();
    let ghost g = s@.subrange(i as int, i + 4);
    assert(g[0] == s@[i as int] && g[1] == s@[i + 1] && g[2] == s@[i + 2] && g[3] == s@[i + 3]);
    let a = sextet_of(s[i]);
    let b = sextet_of(s[i + 1]);
    let c = sextet_of(s[i + 2]);
    let d = sextet_of(s[i + 3]);
    match (a, b, c, d) {
        (Some(a), Some(b), Some(c), Some(d)) => {
            let r = (a * 4 + b / 16, (b % 16) * 16 + c / 4, (c % 4) * 64 + d);
            assert(seq![r.0, r.1, r.2] =~= group_bytes(g));
            Some(r)
        },
        _ => None,
    }
}

proof fn lemma_full_groups_len(s: Seq<char>)
    requires
        full_groups(s),
    ensures
        s.len() % 4 == 0,
    decreases s.len(),
{
    if s.len() > 0 {
        lemma_full_groups_len(s.subrange(0, s.len() - 4));
    }
}

} // verus!
