use vstd::prelude::*;

verus! {

/// The 16-bit units of `s`, one per character. For text in the Basic Multilingual
/// Plane this is its UTF-16 encoding.
pub open spec fn wide_of(s: Seq<char>) -> Seq<u16> {
    s.map_values(|c: char| c as u16)
}

/// `wide_of(s)` followed by a NUL terminator.
pub open spec fn wide_c_of(s: Seq<char>) -> Seq<u16> {
    wide_of(s).push(0)
}

/// Whether `pat` occurs in `hay` as a contiguous run.
pub open spec fn contains_units(hay: Seq<u16>, pat: Seq<u16>) -> bool {
    exists|i: int|
        0 <= i && i + pat.len() <= hay.len() && #[trigger] hay.subrange(i, i + pat.len()) == pat
}

/// The little-endian byte image of a sequence of 16-bit units.
pub open spec fn le_bytes_of(units: Seq<u16>) -> Seq<u8> {
    Seq::new(
        2 * units.len(),
        |i: int|
            if i % 2 == 0 {
                (units[i / 2] % 256) as u8
            } else {
                (units[i / 2] / 256) as u8
            },
    )
}

/// The caller's buffer after a stand-in offered `out` for a declared capacity `cap`:
/// all of `out` at the front when it fits, the buffer untouched otherwise.
pub open spec fn written<T>(buf: Seq<T>, out: Seq<T>, cap: int) -> Seq<T> {
    if out.len() <= cap {
        out + buf.subrange(out.len() as int, buf.len() as int)
    } else {
        buf
    }
}

/// Converts `s` to 16-bit units, one per character.
pub fn to_wide(s: &str) -> (r: Vec<u16>)
    ensures
        r@ == wide_of(s@),
{
    let n = s.unicode_len();
    let mut r: Vec<u16> = Vec::new();
    let mut i: usize = 0;
    while i < n
        invariant
            n == s@.len(),
            0 <= i <= n,
            r@ =~= wide_of(s@.subrange(0, i as int)),
        decreases n - i,
    {
        let c = s.get_char(i);
        r.push(c as u16);
        i = i + 1;
        assert(r@ =~= wide_of(s@.subrange(0, i as int)));
    }
    assert(s@.subrange(0, n as int) =~= s@);
    r
}

/// Converts `s` to 16-bit units followed by a NUL terminator.
pub fn to_wide_c(s: &str) -> (r: Vec<u16>)
    ensures
        r@ == wide_c_of(s@),
{
    let mut r = to_wide(s);
    r.push(0);
    r
}

/// Whether `a` and `b` hold the same units.
pub fn units_equal(a: &[u16], b: &[u16]) -> (r: bool)
    ensures
        r == (a@ == b@),
{
    if a.len() != b.len() {
        return false;
    }
    let mut i: usize = 0;
    while i < a.len()
        invariant
            a@.len() == b@.len(),
            0 <= i <= a@.len(),
            forall|j: int| 0 <= j < i ==> a@[j] == b@[j],
        decreases a@.len() - i,
    {
        if a[i] != b[i] {
            return false;
        }
        i = i + 1;
    }
    assert(a@ =~= b@);
    true
}

/// Whether `pat` occurs in `hay` starting at `start`.
fn matches_at(hay: &[u16], pat: &[u16], start: usize) -> (r: bool)
    requires
        start + pat@.len() <= hay@.len(),
    ensures
        r == (hay@.subrange(start as int, start + pat@.len()) == pat@),
{
    let n = hay.len();
    let mut j: usize = 0;
    while j < pat.len()
        invariant
            n == hay@.len(),
            start + pat@.len() <= hay@.len(),
            0 <= j <= pat@.len(),
            forall|k: int| 0 <= k < j ==> hay@[start + k] == pat@[k],
        decreases pat@.len() - j,
    {
        if hay[start + j] != pat[j] {
            assert(hay@.subrange(start as int, start + pat@.len())[j as int] != pat@[j as int]);
            return false;
        }
        j = j + 1;
    }
    assert(hay@.subrange(start as int, start + pat@.len()) =~= pat@);
    true
}

/// Whether `pat` occurs in `hay` as a contiguous run.
pub fn contains_wide(hay: &[u16], pat: &[u16]) -> (r: bool)
    ensures
        r == contains_units(hay@, pat@),
{
    if pat.len() > hay.len() {
        return false;
    }
    let last = hay.len() - pat.len();
    let mut i: usize = 0;
    loop
        invariant
            last == hay@.len() - pat@.len(),
            0 <= i <= last,
            forall|k: int| 0 <= k < i ==> #[trigger] hay@.subrange(k, k + pat@.len()) != pat@,
        decreases last - i,
    {
        if matches_at(hay, pat, i) {
            return true;
        }
        if i == last {
            return false;
        }
        i = i + 1;
    }
}

/// The little-endian byte image of `units`.
pub fn to_le_bytes(units: &[u16]) -> (r: Vec<u8>)
    ensures
        r@ == le_bytes_of(units@),
{
    let mut r: Vec<u8> = Vec::new();
    let mut i: usize = 0;
    while i < units.len()
        invariant
            0 <= i <= units@.len(),
            r@ =~= le_bytes_of(units@.subrange(0, i as int)),
        decreases units@.len() - i,
    {
        let u = units[i];
        r.push((u % 256) as u8);
        r.push((u / 256) as u8);
        i = i + 1;
        assert(r@ =~= le_bytes_of(units@.subrange(0, i as int)));
    }
    assert(units@.subrange(0, units@.len() as int) =~= units@);
    r
}

/// Offers `output` to a caller buffer of declared capacity `capacity`. When it fits,
/// exactly its elements are written at the front; otherwise nothing is written.
pub fn write_within_capacity<T: Copy>(output: &[T], buffer: &mut Vec<T>, capacity: usize) -> (r:
    bool)
    requires
        capacity <= old(buffer)@.len(),
    ensures
        r == (output@.len() <= capacity),
        final(buffer)@ == written(old(buffer)@, output@, capacity as int),
{
    if output.len() > capacity {
        return false;
    }
    let mut i: usize = 0;
    while i < output.len()
        invariant
            output@.len() <= capacity <= buffer@.len(),
            buffer@.len() == old(buffer)@.len(),
            0 <= i <= output@.len(),
            forall|k: int| 0 <= k < i ==> buffer@[k] == output@[k],
            forall|k: int| i <= k < buffer@.len() ==> buffer@[k] == old(buffer)@[k],
        decreases output@.len() - i,
    {
        buffer.set(i, output[i]);
        i = i + 1;
    }
    assert(buffer@ =~= written(old(buffer)@, output@, capacity as int));
    true
}

} // verus!
