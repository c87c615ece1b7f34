//! Character-level predicates for identifiers, hashes and release versions.

use vstd::prelude::*;

verus! {

/// A lowercase hexadecimal digit.
pub open spec fn is_lower_hex(c: char) -> bool {
    ('0' <= c && c <= '9') || ('a' <= c && c <= 'f')
}

/// An ASCII decimal digit.
pub open spec fn is_ascii_digit(c: char) -> bool {
    '0' <= c && c <= '9'
}

/// An ASCII letter or digit.
pub open spec fn is_ascii_alnum(c: char) -> bool {
    ('0' <= c && c <= '9') || ('a' <= c && c <= 'z') || ('A' <= c && c <= 'Z')
}

/// `s` consists of exactly `n` lowercase hexadecimal characters.
pub open spec fn lower_hex_of_len(s: Seq<char>, n: nat) -> bool {
    &&& s.len() == n
    &&& forall|i: int| 0 <= i < s.len() ==> is_lower_hex(#[trigger] s[i])
}

/// The pieces of `s` between occurrences of `sep`, as `str::split` yields them:
/// one piece more than there are separators, empty pieces included.
pub open spec fn split_on(s: Seq<char>, sep: char) -> Seq<Seq<char>>
    decreases s.len(),
{
    if s.len() == 0 {
        seq![Seq::<char>::empty()]
    } else {
        let rest = split_on(s.drop_last(), sep);
        if s.last() == sep {
            rest.push(Seq::<char>::empty())
        } else {
            rest.update(rest.len() - 1, rest.last().push(s.last()))
        }
    }
}

pub proof fn lemma_split_on_nonempty(s: Seq<char>, sep: char)
    ensures
        split_on(s, sep).len() >= 1,
    decreases s.len(),
{
    if s.len() > 0 {
        lemma_split_on_nonempty(s.drop_last(), sep);
    }
}

/// Where the `k`-th piece begins, given the separator positions `dots`.
pub open spec fn piece_start(dots: Seq<usize>, k: int) -> int {
    if k == 0 {
        0
    } else {
        dots[k - 1] + 1
    }
}

/// Where the `k`-th piece ends, given the separator positions `dots` and the text length `end`.
pub open spec fn piece_end(dots: Seq<usize>, k: int, end: int) -> int {
    if k < dots.len() {
        dots[k] as int
    } else {
        end
    }
}

/// The pieces of `s[..end]` cut at the positions `dots`.
pub open spec fn pieces_at(s: Seq<char>, dots: Seq<usize>, end: int) -> Seq<Seq<char>> {
    Seq::new(
        (dots.len() + 1) as nat,
        |k: int| s.subrange(piece_start(dots, k), piece_end(dots, k, end)),
    )
}

/// `dots` are increasing positions below `end`, so every piece is a valid range.
pub open spec fn dots_well_formed(dots: Seq<usize>, end: int) -> bool {
    &&& forall|k: int| 0 <= k < dots.len() ==> #[trigger] dots[k] < end
    &&& forall|a: int, b: int| 0 <= a < b < dots.len() ==> dots[a] < dots[b]
}

pub proof fn lemma_piece_bounds(dots: Seq<usize>, k: int, end: int)
    requires
        dots_well_formed(dots, end),
        0 <= k <= dots.len(),
        end >= 0,
    ensures
        0 <= piece_start(dots, k) <= piece_end(dots, k, end) <= end,
{
    if k > 0 && k < dots.len() {
        assert(dots[k - 1] < dots[k]);
    }
}

/// Finds the positions of every `sep` character in `value`.
pub fn separator_positions(value: &str, sep: char) -> (dots: Vec<usize>)
    ensures
        dots_well_formed(dots@, value@.len() as int),
        dots@.len() <= value@.len(),
        split_on(value@, sep) == pieces_at(value@, dots@, value@.len() as int),
{
    let len = value.unicode_len();
    let mut dots: Vec<usize> = Vec::new();
    let mut i: usize = 0;
    assert(value@.take(0) =~= Seq::<char>::empty());
    assert(pieces_at(value@, dots@, 0) =~= seq![Seq::<char>::empty()]) by {
        assert(value@.subrange(0, 0) =~= Seq::<char>::empty());
    }
    while i < len
        invariant
            len == value@.len(),
            i <= len,
            dots_well_formed(dots@, i as int),
            dots@.len() <= i,
            split_on(value@.take(i as int), sep) == pieces_at(value@, dots@, i as int),
        decreases len - i,
    {
        let c = value.get_char(i);
        let ghost prefix = value@.take(i as int);
        let ghost next = value@.take(i + 1);
        let ghost old_dots = dots@;
        assert(next.drop_last() =~= prefix);
        assert(next.last() == c);
        if c == sep {
            dots.push(i);
            assert(pieces_at(value@, dots@, i + 1) =~= pieces_at(value@, old_dots, i as int).push(
                Seq::<char>::empty(),
            )) by {
                assert forall|k: int| 0 <= k < dots@.len() + 1 implies #[trigger] pieces_at(
                    value@,
                    dots@,
                    i + 1,
                )[k] == pieces_at(value@, old_dots, i as int).push(Seq::<char>::empty())[k] by {
                    if k < old_dots.len() + 1 {
                        assert(piece_start(dots@, k) == piece_start(old_dots, k));
                        assert(piece_end(dots@, k, i + 1) == piece_end(old_dots, k, i as int));
                    } else {
                        assert(piece_start(dots@, k) == i + 1);
                        assert(value@.subrange(i + 1, i + 1) =~= Seq::<char>::empty());
                    }
                }
            }
        } else {
            let ghost old_pieces = pieces_at(value@, old_dots, i as int);
            assert(pieces_at(value@, dots@, i + 1) =~= old_pieces.update(
                old_pieces.len() - 1,
                old_pieces.last().push(c),
            )) by {
                assert forall|k: int| 0 <= k < dots@.len() + 1 implies #[trigger] pieces_at(
                    value@,
                    dots@,
                    i + 1,
                )[k] == old_pieces.update(old_pieces.len() - 1, old_pieces.last().push(c))[k] by {
                    lemma_piece_bounds(old_dots, k, i as int);
                    if k == dots@.len() {
                        assert(value@.subrange(piece_start(dots@, k), i + 1) =~= value@.subrange(
                            piece_start(dots@, k),
                            i as int,
                        ).push(c));
                    }
                }
            }
        }
        i = i + 1;
    }
    assert(value@.take(len as int) =~= value@);
    dots
}

/// One label of a reverse-DNS identifier: ASCII letters, digits and hyphens,
/// starting and ending with a letter or digit.
pub open spec fn valid_dns_label(p: Seq<char>) -> bool {
    &&& p.len() > 0
    &&& is_ascii_alnum(p[0])
    &&& is_ascii_alnum(p.last())
    &&& forall|i: int| 0 <= i < p.len() ==> is_ascii_alnum(#[trigger] p[i]) || p[i] == '-'
}

/// A reverse-DNS bundle identifier: at most 255 characters and at least two
/// dot-separated labels, each of them valid.
pub open spec fn valid_bundle_id(s: Seq<char>) -> bool {
    let parts = split_on(s, '.');
    &&& s.len() <= 255
    &&& parts.len() >= 2
    &&& forall|k: int| 0 <= k < parts.len() ==> valid_dns_label(#[trigger] parts[k])
}

/// An ASCII decimal numeral without leading zeros (a single `0` is allowed).
pub open spec fn valid_numeral(p: Seq<char>) -> bool {
    &&& p.len() > 0
    &&& forall|i: int| 0 <= i < p.len() ==> is_ascii_digit(#[trigger] p[i])
    &&& (p.len() == 1 || p[0] != '0')
}

/// The value of a string of decimal digits.
pub open spec fn decimal_value(p: Seq<char>) -> int
    decreases p.len(),
{
    if p.len() == 0 {
        0
    } else {
        decimal_value(p.drop_last()) * 10 + (p.last() as int - '0' as int)
    }
}

/// A numeral that also fits in a `u64`, with its value.
pub open spec fn numeral_u64(p: Seq<char>) -> Option<u64> {
    if valid_numeral(p) && decimal_value(p) <= u64::MAX {
        Some(decimal_value(p) as u64)
    } else {
        None
    }
}

/// A `major.minor.patch` version of three numerals without leading zeros.
pub open spec fn valid_version_syntax(s: Seq<char>) -> bool {
    let parts = split_on(s, '.');
    &&& parts.len() == 3
    &&& forall|k: int| 0 <= k < 3 ==> valid_numeral(#[trigger] parts[k])
}

/// The numeric `(major, minor, patch)` of a version whose parts each fit in a `u64`.
pub open spec fn parsed_version(s: Seq<char>) -> Option<(u64, u64, u64)> {
    let parts = split_on(s, '.');
    if parts.len() == 3 && numeral_u64(parts[0]) is Some && numeral_u64(parts[1]) is Some
        && numeral_u64(parts[2]) is Some {
        Some((numeral_u64(parts[0])->0, numeral_u64(parts[1])->0, numeral_u64(parts[2])->0))
    } else {
        None
    }
}

pub proof fn lemma_decimal_prefix_le(p: Seq<char>, n: int)
    requires
        0 <= n <= p.len(),
        forall|i: int| 0 <= i < p.len() ==> is_ascii_digit(#[trigger] p[i]),
    ensures
        0 <= decimal_value(p.take(n)) <= decimal_value(p),
    decreases p.len(),
{
    if p.len() > 0 {
        let q = p.drop_last();
        if n == p.len() {
            assert(p.take(n) =~= p);
            lemma_decimal_prefix_le(q, q.len() as int);
            assert(q.take(q.len() as int) =~= q);
        } else {
            lemma_decimal_prefix_le(q, n);
            assert(q.take(n) =~= p.take(n));
            lemma_decimal_prefix_le(q, q.len() as int);
            assert(q.take(q.len() as int) =~= q);
        }
    } else {
        assert(p.take(n) =~= p);
    }
}

/// Checks whether every character of `value[from..to]` satisfies the label rule.
fn check_label(value: &str, from: usize, to: usize) -> (r: bool)
    requires
        from <= to <= value@.len(),
    ensures
        r == valid_dns_label(value@.subrange(from as int, to as int)),
{
    let ghost p = value@.subrange(from as int, to as int);
    if from == to {
        return false;
    }
    let first = value.get_char(from);
    let last = value.get_char(to - 1);
    if !((('0' <= first && first <= '9') || ('a' <= first && first <= 'z') || ('A' <= first && first
        <= 'Z')) && (('0' <= last && last <= '9') || ('a' <= last && last <= 'z') || ('A' <= last
        && last <= 'Z'))) {
        return false;
    }
    let mut i = from;
    while i < to
        invariant
            from <= i <= to,
            to <= value@.len(),
            p == value@.subrange(from as int, to as int),
            forall|j: int| 0 <= j < i - from ==> is_ascii_alnum(#[trigger] p[j]) || p[j] == '-',
        decreases to - i,
    {
        let c = value.get_char(i);
        assert(p[i - from] == c);
        if !(('0' <= c && c <= '9') || ('a' <= c && c <= 'z') || ('A' <= c && c <= 'Z') || c
            == '-') {
            return false;
        }
        i = i + 1;
    }
    true
}

/// Checks a reverse-DNS bundle identifier.
pub fn is_valid_bundle_id(value: &str) -> (r: bool)
    ensures
        r == valid_bundle_id(value@),
{
    let len = value.unicode_len();
    let dots = separator_positions(value, '.');
    let ghost parts = split_on(value@, '.');
    if len > 255 || dots.len() == 0 {
        return false;
    }
    let mut k: usize = 0;
    while k <= dots.len()
        invariant
            len == value@.len(),
            len <= 255,
            dots@.len() <= len,
            parts == split_on(value@, '.'),
            dots_well_formed(dots@, len as int),
            parts == pieces_at(value@, dots@, len as int),
            k <= dots@.len() + 1,
            forall|j: int| 0 <= j < k ==> valid_dns_label(#[trigger] parts[j]),
        decreases dots@.len() + 1 - k,
    {
        proof {
            lemma_piece_bounds(dots@, k as int, len as int);
        }
        let from: usize = if k == 0 {
            0
        } else {
            dots[k - 1] + 1
        };
        let to: usize = if k < dots.len() {
            dots[k]
        } else {
            len
        };
        assert(parts[k as int] == value@.subrange(from as int, to as int));
        if !check_label(value, from, to) {
            assert(!valid_dns_label(parts[k as int]));
            return false;
        }
        k = k + 1;
    }
    true
}

/// Parses `value[from..to]` as a numeral that fits in a `u64`.
fn parse_numeral(value: &str, from: usize, to: usize) -> (r: Option<u64>)
    requires
        from <= to <= value@.len(),
    ensures
        r == numeral_u64(value@.subrange(from as int, to as int)),
{
    let ghost p = value@.subrange(from as int, to as int);
    if from == to {
        return None;
    }
    if to - from > 1 && value.get_char(from) == '0' {
        return None;
    }
    let mut acc: u64 = 0;
    let mut i = from;
    assert(p.take(0) =~= Seq::<char>::empty());
    while i < to
        invariant
            from <= i <= to,
            to <= value@.len(),
            p == value@.subrange(from as int, to as int),
            forall|j: int| 0 <= j < i - from ==> is_ascii_digit(#[trigger] p[j]),
            acc == decimal_value(p.take(i - from)),
        decreases to - i,
    {
        let c = value.get_char(i);
        assert(p[i - from] == c);
        if !('0' <= c && c <= '9') {
            return None;
        }
        let ghost n = i - from;
        assert(p.take(n + 1).drop_last() =~= p.take(n));
        let digit: u64 = ((c as u32) - ('0' as u32)) as u64;
        let next = acc.checked_mul(10);
        match next {
            None => {
                proof {
                    if forall|j: int| 0 <= j < p.len() ==> is_ascii_digit(#[trigger] p[j]) {
                        lemma_decimal_prefix_le(p, n + 1);
                    }
                }
                return None;
            },
            Some(m) => {
                match m.checked_add(digit) {
                    None => {
                        proof {
                            if forall|j: int| 0 <= j < p.len() ==> is_ascii_digit(#[trigger] p[j]) {
                                lemma_decimal_prefix_le(p, n + 1);
                            }
                        }
                        return None;
                    },
                    Some(v) => {
                        acc = v;
                    },
                }
            },
        }
        i = i + 1;
    }
    assert(p.take(p.len() as int) =~= p);
    Some(acc)
}

/// Parses a `major.minor.patch` version into its three numbers.
pub fn parse_version(value: &str) -> (r: Option<(u64, u64, u64)>)
    ensures
        r == parsed_version(value@),
{
    let len = value.unicode_len();
    let dots = separator_positions(value, '.');
    if dots.len() != 2 {
        return None;
    }
    proof {
        lemma_piece_bounds(dots@, 0, len as int);
        lemma_piece_bounds(dots@, 1, len as int);
        lemma_piece_bounds(dots@, 2, len as int);
    }
    let major = parse_numeral(value, 0, dots[0]);
    let minor = parse_numeral(value, dots[0] + 1, dots[1]);
    let patch = parse_numeral(value, dots[1] + 1, len);
    match (major, minor, patch) {
        (Some(a), Some(b), Some(c)) => Some((a, b, c)),
        _ => None,
    }
}

/// Checks the `major.minor.patch` syntax without bounding the numbers.
pub fn is_valid_version_syntax(value: &str) -> (r: bool)
    ensures
        r == valid_version_syntax(value@),
{
    let len = value.unicode_len();
    let dots = separator_positions(value, '.');
    if dots.len() != 2 {
        return false;
    }
    proof {
        lemma_piece_bounds(dots@, 0, len as int);
        lemma_piece_bounds(dots@, 1, len as int);
        lemma_piece_bounds(dots@, 2, len as int);
    }
    let ghost parts = split_on(value@, '.');
    let a = check_numeral(value, 0, dots[0]);
    let b = check_numeral(value, dots[0] + 1, dots[1]);
    let c = check_numeral(value, dots[1] + 1, len);
    assert(parts[0] == value@.subrange(0, dots@[0] as int));
    assert(parts[1] == value@.subrange(dots@[0] + 1, dots@[1] as int));
    assert(parts[2] == value@.subrange(dots@[1] + 1, len as int));
    a && b && c
}

/// Checks that `value[from..to]` is a numeral without leading zeros.
fn check_numeral(value: &str, from: usize, to: usize) -> (r: bool)
    requires
        from <= to <= value@.len(),
    ensures
        r == valid_numeral(value@.subrange(from as int, to as int)),
{
    let ghost p = value@.subrange(from as int, to as int);
    if from == to {
        return false;
    }
    if to - from > 1 && value.get_char(from) == '0' {
        return false;
    }
    let mut i = from;
    while i < to
        invariant
            from <= i <= to,
            to <= value@.len(),
            p == value@.subrange(from as int, to as int),
            forall|j: int| 0 <= j < i - from ==> is_ascii_digit(#[trigger] p[j]),
        decreases to - i,
    {
        let c = value.get_char(i);
        assert(p[i - from] == c);
        if !('0' <= c && c <= '9') {
            return false;
        }
        i = i + 1;
    }
    true
}

/// Checks that `value` holds exactly `n` lowercase hexadecimal characters.
pub fn is_lower_hex_of_len(value: &str, n: usize) -> (r: bool)
    ensures
        r == lower_hex_of_len(value@, n as nat),
{
    let len = value.unicode_len();
    if len != n {
        return false;
    }
    let mut i: usize = 0;
    while i < len
        invariant
            len == value@.len(),
            i <= len,
            forall|j: int| 0 <= j < i ==> is_lower_hex(#[trigger] value@[j]),
        decreases len - i,
    {
        let c = value.get_char(i);
        if !(('0' <= c && c <= '9') || ('a' <= c && c <= 'f')) {
            return false;
        }
        i = i + 1;
    }
    true
}

/// Compares two texts character by character.
pub fn same_text(a: &str, b: &str) -> (r: bool)
    ensures
        r == (a@ == b@),
{
    let len = a.unicode_len();
    if len != b.unicode_len() {
        return false;
    }
    let mut i: usize = 0;
    while i < len
        invariant
            len == a@.len(),
            len == b@.len(),
            i <= len,
            forall|j: int| 0 <= j < i ==> a@[j] == b@[j],
        decreases len - i,
    {
        if a.get_char(i) != b.get_char(i) {
            return false;
        }
        i = i + 1;
    }
    assert(a@ =~= b@);
    true
}

/// Checks that `bytes` is one non-empty line of at most `max_len` bytes that
/// ends with its only newline.
pub open spec fn single_line_framed(bytes: Seq<u8>, max_len: nat) -> bool {
    &&& bytes.len() > 0
    &&& bytes.len() <= max_len
    &&& bytes.last() == 10u8
    &&& forall|i: int| 0 <= i < bytes.len() - 1 ==> #[trigger] bytes[i] != 10u8
}

/// Checks the line framing that a canonical receipt file must have.
pub fn is_single_line_framed(bytes: &[u8], max_len: usize) -> (r: bool)
    ensures
        r == single_line_framed(bytes@, max_len as nat),
{
    let len = bytes.len();
    if len == 0 || len > max_len || bytes[len - 1] != 10u8 {
        return false;
    }
    let mut i: usize = 0;
    while i < len - 1
        invariant
            len == bytes@.len(),
            len > 0,
            i <= len - 1,
            forall|j: int| 0 <= j < i ==> #[trigger] bytes@[j] != 10u8,
        decreases len - 1 - i,
    {
        if bytes[i] == 10u8 {
            return false;
        }
        i = i + 1;
    }
    true
}


/// `needle` occurs in `hay` starting at position `i`.
pub open spec fn occurs_at(hay: Seq<char>, needle: Seq<char>, i: int) -> bool {
    0 <= i && i + needle.len() <= hay.len() && hay.subrange(i, i + needle.len()) == needle
}

/// `needle` occurs somewhere in `hay`.
pub open spec fn contains_seq(hay: Seq<char>, needle: Seq<char>) -> bool {
    exists|i: int| #[trigger] occurs_at(hay, needle, i)
}

fn matches_at(hay: &str, needle: &str, i: usize) -> (r: bool)
    requires
        i + needle@.len() <= hay@.len(),
    ensures
        r == occurs_at(hay@, needle@, i as int),
{
    let n = needle.unicode_len();
    let h = hay.unicode_len();
    let mut k: usize = 0;
    while k < n
        invariant
            n == needle@.len(),
            h == hay@.len(),
            i + n <= h,
            k <= n,
            forall|j: int| 0 <= j < k ==> hay@[i + j] == needle@[j],
        decreases n - k,
    {
        if hay.get_char(i + k) != needle.get_char(k) {
            assert(hay@.subrange(i as int, i + n)[k as int] != needle@[k as int]);
            return false;
        }
        k = k + 1;
    }
    assert(hay@.subrange(i as int, i + n) =~= needle@);
    true
}

/// Whether `needle` occurs in `hay`, as `str::contains` reports it.
pub fn contains_text(hay: &str, needle: &str) -> (r: bool)
    ensures
        r == contains_seq(hay@, needle@),
{
    let h = hay.unicode_len();
    let n = needle.unicode_len();
    if n > h {
        assert forall|i: int| !occurs_at(hay@, needle@, i) by {}
        return false;
    }
    let mut i: usize = 0;
    while i < h - n
        invariant
            h == hay@.len(),
            n == needle@.len(),
            n <= h,
            i <= h - n,
            forall|j: int| 0 <= j < i ==> !#[trigger] occurs_at(hay@, needle@, j),
        decreases h - n - i,
    {
        if matches_at(hay, needle, i) {
            return true;
        }
        i = i + 1;
    }
    if matches_at(hay, needle, i) {
        return true;
    }
    assert forall|j: int| !occurs_at(hay@, needle@, j) by {
        if 0 <= j <= i {
        }
    }
    false
}

} // verus!
