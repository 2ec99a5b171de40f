//! The project hash: the MD5 digest of the project directory, written as
//! lower-case hexadecimal. It keys the per-project caches kept in shared
//! directories.

use vstd::prelude::*;

verus! {

/// The MD5 digest of a byte sequence, as `md5::compute` gives it.
pub uninterp spec fn md5_digest(data: Seq<u8>) -> Seq<u8>;

/// Calls `md5::compute` and hands back the digest's sixteen bytes. The
/// contract claims only that the bytes are the MD5 digest of the input
/// (named, not spelled out), sixteen of them.
#[verifier::external_body]
fn md5_compute(data: &[u8]) -> (digest: [u8; 16])
    ensures
        digest@ == md5_digest(data@),
{
    md5::compute(data).0
}

/// Appends one character with `String::push`; the contract claims that the
/// string afterwards is the old one followed by `c`.
#[verifier::external_body]
pub(crate) fn string_push(s: &mut String, c: char)
    ensures
        final(s)@ == old(s)@.push(c),
{
    s.push(c);
}

/// The lower-case hexadecimal digit for a value below sixteen.
pub open spec fn hex_digit(n: u8) -> char {
    if n == 0 { '0' }
    else if n == 1 { '1' }
    else if n == 2 { '2' }
    else if n == 3 { '3' }
    else if n == 4 { '4' }
    else if n == 5 { '5' }
    else if n == 6 { '6' }
    else if n == 7 { '7' }
    else if n == 8 { '8' }
    else if n == 9 { '9' }
    else if n == 10 { 'a' }
    else if n == 11 { 'b' }
    else if n == 12 { 'c' }
    else if n == 13 { 'd' }
    else if n == 14 { 'e' }
    else { 'f' }
}

/// Bytes written as `{:02x}` each, one after the other: the `LowerHex` form
/// of an `md5::Digest`.
pub open spec fn spec_lower_hex(bytes: Seq<u8>) -> Seq<char>
    decreases bytes.len(),
{
    if bytes.len() == 0 {
        seq![]
    } else {
        spec_lower_hex(bytes.drop_last()) + seq![
            hex_digit(bytes.last() / 16),
            hex_digit(bytes.last() % 16),
        ]
    }
}

/// The hash that keys a project's caches: the MD5 digest of the UTF-8
/// bytes of its directory's text, in lower-case hexadecimal.
pub open spec fn spec_project_hash(project_dir: Seq<char>) -> Seq<char> {
    spec_lower_hex(md5_digest(vstd::utf8::encode_utf8(project_dir)))
}

fn hex_char(n: u8) -> (c: char)
    requires
        n < 16,
    ensures
        c == hex_digit(n),
{
    match n {
        0 => '0',
        1 => '1',
        2 => '2',
        3 => '3',
        4 => '4',
        5 => '5',
        6 => '6',
        7 => '7',
        8 => '8',
        9 => '9',
        10 => 'a',
        11 => 'b',
        12 => 'c',
        13 => 'd',
        14 => 'e',
        _ => 'f',
    }
}

/// Writes bytes in lower-case hexadecimal, two digits per byte.
pub fn lower_hex(bytes: &[u8]) -> (s: String)
    ensures
        s@ == spec_lower_hex(bytes@),
        s@.len() == 2 * bytes@.len(),
{
    let mut s = String::new();
    let n = bytes.len();
    let mut i: usize = 0;
    while i < n
        invariant
            n == bytes@.len(),
            i <= n,
            s@ == spec_lower_hex(bytes@.subrange(0, i as int)),
            s@.len() == 2 * i,
        decreases n - i,
    {
        let b = bytes[i];
        let ghost before = bytes@.subrange(0, i as int);
        assert(bytes@.subrange(0, i + 1).drop_last() =~= before);
        assert(bytes@.subrange(0, i + 1).last() == b);
        string_push(&mut s, hex_char(b / 16));
        string_push(&mut s, hex_char(b % 16));
        assert(s@ =~= spec_lower_hex(before) + seq![hex_digit(b / 16), hex_digit(b % 16)]);
        i = i + 1;
    }
    assert(bytes@.subrange(0, n as int) =~= bytes@);
    s
}

/// The hash that keys a project's caches, for the project directory's text.
pub fn project_hash(project_dir: &str) -> (h: String)
    ensures
        h@ == spec_project_hash(project_dir@),
        h@.len() == 32,
{
    let digest = md5_compute(project_dir.as_bytes());
    proof {
        assert(digest@.len() == 16);
    }
    lower_hex(&digest)
}

} // verus!
