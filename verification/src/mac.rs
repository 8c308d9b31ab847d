use vstd::prelude::*;

verus! {

/// The colon that separates the fields of a MAC address.
pub const COLON: u8 = 58;

/// Whether a byte is ASCII white space.
pub open spec fn spec_is_space(c: u8) -> bool {
    c == 32 || (9 <= c <= 13)
}

/// The value of a hexadecimal digit of either case, or none.
pub open spec fn spec_hex_digit(c: u8) -> Option<u8> {
    if 48 <= c <= 57 {
        Some((c - 48) as u8)
    } else if 97 <= c <= 102 {
        Some((c - 87) as u8)
    } else if 65 <= c <= 70 {
        Some((c - 55) as u8)
    } else {
        None
    }
}

/// The value of a run of hexadecimal digits, most significant first, or
/// none where a byte is no digit.
pub open spec fn spec_hex_number(digits: Seq<u8>) -> Option<nat>
    decreases digits.len(),
{
    if digits.len() == 0 {
        Some(0)
    } else {
        match (spec_hex_number(digits.drop_last()), spec_hex_digit(digits.last())) {
            (Some(high), Some(low)) => Some(high * 16 + low as nat),
            _ => None,
        }
    }
}

/// The byte that a field of a MAC address stands for: an optional plus
/// sign, then at least one hexadecimal digit, with a value of at most 255.
pub open spec fn spec_hex_byte(field: Seq<u8>) -> Option<u8> {
    let digits = if field.len() > 0 && field[0] == 43 {
        field.subrange(1, field.len() as int)
    } else {
        field
    };
    if digits.len() == 0 {
        None
    } else {
        match spec_hex_number(digits) {
            Some(v) => if v <= 255 {
                Some(v as u8)
            } else {
                None
            },
            None => None,
        }
    }
}

/// The text without the white space at its ends.
pub open spec fn spec_trim(t: Seq<u8>) -> Seq<u8>
    decreases t.len(),
{
    if t.len() > 0 && spec_is_space(t[0]) {
        spec_trim(t.subrange(1, t.len() as int))
    } else if t.len() > 0 && spec_is_space(t.last()) {
        spec_trim(t.drop_last())
    } else {
        t
    }
}

/// Bytes in front of the first colon of the text.
pub open spec fn spec_first_colon(t: Seq<u8>) -> int
    decreases t.len(),
{
    if t.len() == 0 || t[0] == COLON {
        0
    } else {
        1 + spec_first_colon(t.subrange(1, t.len() as int))
    }
}

/// The fields that the colons of the text separate; a text without colon
/// is one field.
pub open spec fn spec_fields(t: Seq<u8>) -> Seq<Seq<u8>>
    decreases t.len(),
{
    let i = spec_first_colon(t);
    if 0 <= i < t.len() {
        seq![t.subrange(0, i)] + spec_fields(t.subrange(i + 1, t.len() as int))
    } else {
        seq![t]
    }
}

/// The MAC address that a text spells: six fields between colons, each a
/// byte in hexadecimal, with white space allowed around the whole.
pub open spec fn spec_parse_mac(text: Seq<u8>) -> Option<Seq<u8>> {
    let fields = spec_fields(spec_trim(text));
    if fields.len() == 6 && (forall|k: int| 0 <= k < 6 ==> spec_hex_byte(#[trigger] fields[k]).is_some()) {
        Some(Seq::new(6, |k: int| spec_hex_byte(fields[k]).unwrap()))
    } else {
        None
    }
}

proof fn lemma_first_colon(t: Seq<u8>, i: int)
    requires
        0 <= i <= t.len(),
        forall|k: int| 0 <= k < i ==> t[k] != COLON,
        i == t.len() || t[i] == COLON,
    ensures
        spec_first_colon(t) == i,
    decreases i,
{
    if i > 0 {
        let rest = t.subrange(1, t.len() as int);
        assert forall|k: int| 0 <= k < i - 1 implies rest[k] != COLON by {
            assert(rest[k] == t[k + 1]);
        }
        lemma_first_colon(rest, i - 1);
    }
}

proof fn lemma_fields_not_empty(t: Seq<u8>)
    ensures
        spec_fields(t).len() >= 1,
    decreases t.len(),
{
    let i = spec_first_colon(t);
    if 0 <= i < t.len() {
        lemma_fields_not_empty(t.subrange(i + 1, t.len() as int));
    }
}

proof fn lemma_trim_window(t: Seq<u8>, lo: int, hi: int)
    requires
        0 <= lo <= hi <= t.len(),
        forall|k: int| 0 <= k < lo ==> spec_is_space(t[k]),
        forall|k: int| hi <= k < t.len() ==> spec_is_space(t[k]),
        lo == hi || (!spec_is_space(t[lo]) && !spec_is_space(t[hi - 1])),
    ensures
        spec_trim(t) == t.subrange(lo, hi),
    decreases t.len(),
{
    if t.len() > 0 && spec_is_space(t[0]) {
        let rest = t.subrange(1, t.len() as int);
        if lo == 0 {
            // then lo == hi == 0 and every byte is white space
            lemma_trim_window(rest, 0, 0);
            assert(rest.subrange(0, 0) =~= t.subrange(0, 0));
        } else {
            lemma_trim_window(rest, lo - 1, hi - 1);
            assert(rest.subrange(lo - 1, hi - 1) =~= t.subrange(lo, hi));
        }
    } else if t.len() > 0 && spec_is_space(t.last()) {
        let rest = t.drop_last();
        assert(lo == 0);
        assert(hi < t.len());
        lemma_trim_window(rest, lo, hi);
        assert(rest.subrange(lo, hi) =~= t.subrange(lo, hi));
    } else {
        assert(t.subrange(lo, hi) =~= t);
    }
}

/// Whether a byte is ASCII white space.
pub fn is_space(c: u8) -> (r: bool)
    ensures
        r == spec_is_space(c),
{
    c == 32 || (9 <= c && c <= 13)
}

/// The value of a hexadecimal digit.
pub fn hex_digit(c: u8) -> (r: Option<u8>)
    ensures
        r == spec_hex_digit(c),
{
    if 48 <= c && c <= 57 {
        Some(c - 48)
    } else if 97 <= c && c <= 102 {
        Some(c - 87)
    } else if 65 <= c && c <= 70 {
        Some(c - 55)
    } else {
        None
    }
}

proof fn lemma_hex_number_grows(digits: Seq<u8>, n: int)
    requires
        0 <= n <= digits.len(),
    ensures
        spec_hex_number(digits.subrange(0, n)) is None ==> spec_hex_number(digits) is None,
        (spec_hex_number(digits.subrange(0, n)) matches Some(v) && v > 255)
            ==> (spec_hex_number(digits) matches Some(w) ==> w > 255),
    decreases digits.len() - n,
{
    if n < digits.len() {
        lemma_hex_number_grows(digits, n + 1);
        assert(digits.subrange(0, n + 1).drop_last() =~= digits.subrange(0, n));
    } else {
        assert(digits.subrange(0, n) =~= digits);
    }
}

/// The byte that the field `text[lo..hi]` stands for.
pub fn hex_byte(text: &[u8], lo: usize, hi: usize) -> (r: Option<u8>)
    requires
        lo <= hi <= text@.len(),
    ensures
        r == spec_hex_byte(text@.subrange(lo as int, hi as int)),
{
    let ghost field = text@.subrange(lo as int, hi as int);
    let start: usize = if lo < hi && text[lo] == 43 {
        lo + 1
    } else {
        lo
    };
    let ghost digits = text@.subrange(start as int, hi as int);
    assert(digits =~= if field.len() > 0 && field[0] == 43 {
        field.subrange(1, field.len() as int)
    } else {
        field
    });
    if start == hi {
        return None;
    }
    let ghost goal = spec_hex_byte(field);
    assert(goal == match spec_hex_number(digits) {
        Some(v) => if v <= 255 {
            Some(v as u8)
        } else {
            None
        },
        None => None,
    });
    let mut value: u32 = 0;
    let mut i: usize = start;
    while i < hi
        invariant
            lo <= start <= i <= hi <= text@.len(),
            digits == text@.subrange(start as int, hi as int),
            goal == spec_hex_byte(text@.subrange(lo as int, hi as int)),
            goal == match spec_hex_number(digits) {
                Some(v) => if v <= 255 {
                    Some(v as u8)
                } else {
                    None
                },
                None => None,
            },
            spec_hex_number(digits.subrange(0, i - start)) == Some(value as nat),
            value <= 255,
        decreases hi - i,
    {
        let ghost seen = digits.subrange(0, i - start + 1);
        proof {
            assert(seen.drop_last() =~= digits.subrange(0, i - start));
            assert(seen.last() == text@[i as int]);
            lemma_hex_number_grows(digits, i - start + 1);
        }
        match hex_digit(text[i]) {
            Some(d) => {
                value = value * 16 + d as u32;
                assert(spec_hex_number(seen) == Some(value as nat));
                if value > 255 {
                    return None;
                }
            },
            None => {
                assert(spec_hex_number(seen) is None);
                return None;
            },
        }
        i += 1;
    }
    assert(digits.subrange(0, hi - start) =~= digits);
    Some(value as u8)
}

/// The end of the field that starts at `from`: the next colon, or the end
/// of the text at `end`.
fn field_end(text: &[u8], from: usize, end: usize) -> (e: usize)
    requires
        from <= end <= text@.len(),
    ensures
        from <= e <= end,
        spec_first_colon(text@.subrange(from as int, end as int)) == e - from,
{
    let mut e: usize = from;
    while e < end && text[e] != COLON
        invariant
            from <= e <= end <= text@.len(),
            forall|k: int| from <= k < e ==> text@[k] != COLON,
        decreases end - e,
    {
        e += 1;
    }
    proof {
        lemma_first_colon(text@.subrange(from as int, end as int), e - from);
    }
    e
}

/// The MAC address that `text` spells, if it spells one.
pub fn parse_mac(text: &[u8]) -> (r: Option<[u8; 6]>)
    ensures
        match spec_parse_mac(text@) {
            Some(mac) => r matches Some(m) && m@ == mac,
            None => r.is_none(),
        },
{
    let n: usize = text.len();
    let mut lo: usize = 0;
    while lo < n && is_space(text[lo])
        invariant
            lo <= n == text@.len(),
            forall|k: int| 0 <= k < lo ==> spec_is_space(text@[k]),
        decreases n - lo,
    {
        lo += 1;
    }
    let mut hi: usize = n;
    while hi > lo && is_space(text[hi - 1])
        invariant
            lo <= hi <= n == text@.len(),
            lo == n || !spec_is_space(text@[lo as int]),
            forall|k: int| hi <= k < n ==> spec_is_space(text@[k]),
        decreases hi,
    {
        hi -= 1;
    }
    proof {
        lemma_trim_window(text@, lo as int, hi as int);
    }
    let ghost t = text@.subrange(lo as int, hi as int);
    let mut mac: [u8; 6] = [0;6];
    let mut pos: usize = lo;
    let mut f: usize = 0;
    let ghost mut done: Seq<Seq<u8>> = Seq::empty();
    assert(t.subrange(0, t.len() as int) =~= t);
    assert(done + spec_fields(t) =~= spec_fields(t));
    while f < 6
        invariant
            lo <= pos <= hi <= n == text@.len(),
            f <= 6,
            t == text@.subrange(lo as int, hi as int),
            t == spec_trim(text@),
            done.len() == f,
            spec_fields(t) == done + spec_fields(text@.subrange(pos as int, hi as int)),
            forall|k: int| 0 <= k < f ==> spec_hex_byte(#[trigger] done[k]) == Some(mac@[k]),
        decreases 6 - f,
    {
        let ghost rest = text@.subrange(pos as int, hi as int);
        let e: usize = field_end(text, pos, hi);
        let ghost field = text@.subrange(pos as int, e as int);
        assert(rest.subrange(0, e - pos) =~= field);
        let byte = hex_byte(text, pos, e);
        if e == hi {
            // the last field of the text
            assert(spec_fields(rest) =~= seq![rest]);
            assert(rest =~= field);
            assert(spec_fields(t) =~= done.push(field));
            match byte {
                Some(b) => {
                    if f == 5 {
                        mac[5] = b;
                        proof {
                            let fields = spec_fields(t);
                            assert forall|k: int| 0 <= k < 6 implies spec_hex_byte(
                                #[trigger] fields[k],
                            ) == Some(mac@[k]) by {
                                if k < 5 {
                                    assert(fields[k] == done[k]);
                                }
                            }
                            assert(fields.len() == 6);
                            assert(spec_trim(text@) == t);
                            assert(spec_parse_mac(text@) is Some);
                            assert(spec_parse_mac(text@).unwrap() =~= mac@);
                        }
                        return Some(mac);
                    }
                    return None;
                },
                None => {
                    proof {
                        let fields = spec_fields(t);
                        assert(fields[f as int] == field);
                    }
                    return None;
                },
            }
        }
        let ghost tail = text@.subrange(e as int + 1, hi as int);
        assert(rest.subrange(e - pos + 1, rest.len() as int) =~= tail);
        assert(spec_fields(rest) =~= seq![field] + spec_fields(tail));
        assert(spec_fields(t) =~= done.push(field) + spec_fields(tail));
        proof {
            lemma_fields_not_empty(tail);
        }
        if f == 5 {
            // a seventh field follows
            return None;
        }
        match byte {
            Some(b) => {
                mac[f] = b;
            },
            None => {
                proof {
                    let fields = spec_fields(t);
                    assert(fields[f as int] == field);
                }
                return None;
            },
        }
        proof {
            done = done.push(field);
        }
        pos = e + 1;
        f += 1;
    }
    None
}

} // verus!
