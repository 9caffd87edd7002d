//! Character-level helpers: digits, comparison, case folding and substring search.
use vstd::prelude::*;
use vstd::string::*;

verus! {

/// The hexadecimal digit for `d` (below 16), lower or upper case.
pub open spec fn hex_digit(d: nat, upper: bool) -> char {
    if upper {
        "0123456789ABCDEF"@[d as int]
    } else {
        "0123456789abcdef"@[d as int]
    }
}

/// The last `w` hexadecimal digits of `n`, most significant first, zero-padded.
pub open spec fn hex_fixed(n: nat, w: nat, upper: bool) -> Seq<char>
    decreases w,
{
    if w == 0 {
        Seq::empty()
    } else {
        hex_fixed(n / 16, (w - 1) as nat, upper) + seq![hex_digit(n % 16, upper)]
    }
}

/// The decimal digits of `n`, without leading zeros.
pub open spec fn dec_nat(n: nat) -> Seq<char>
    decreases n,
{
    if n < 10 {
        seq![hex_digit(n, false)]
    } else {
        dec_nat(n / 10) + seq![hex_digit(n % 10, false)]
    }
}

/// The decimal text of a signed integer.
pub open spec fn dec_int(v: int) -> Seq<char> {
    if v < 0 {
        seq!['-'] + dec_nat((-v) as nat)
    } else {
        dec_nat(v as nat)
    }
}

/// The code of `c` after folding ASCII upper case to lower case.
pub open spec fn fold_code(c: char) -> u32 {
    if 65 <= (c as u32) && (c as u32) <= 90 {
        (c as u32 + 32) as u32
    } else {
        c as u32
    }
}

/// A character sequence with ASCII letters folded to lower case.
pub open spec fn folded(s: Seq<char>) -> Seq<u32> {
    s.map_values(|c: char| fold_code(c))
}

/// `q` occurs in `s` as a contiguous run.
pub open spec fn has_infix<T>(s: Seq<T>, q: Seq<T>) -> bool {
    exists|i: int| 0 <= i && i + q.len() <= s.len() && #[trigger] s.subrange(i, i + q.len()) == q
}

/// The lower-case form of a text, as `str::to_lowercase` gives it.
pub uninterp spec fn lower_of(s: Seq<char>) -> Seq<char>;

/// `q` occurs in `s` when both are put in lower case.
pub open spec fn contains_lower(s: Seq<char>, q: Seq<char>) -> bool {
    has_infix(lower_of(s), lower_of(q))
}

/// Relies on str::to_lowercase: the lower-case form depends on the characters alone.
#[verifier::external_body]
pub fn lowercase(s: &Vec<char>) -> (r: Vec<char>)
    ensures
        r@ == lower_of(s@),
{
    s.iter().collect::<String>().to_lowercase().chars().collect()
}

/// Appends one hexadecimal digit.
fn push_digit(out: &mut String, d: u64, upper: bool)
    requires
        d < 16,
    ensures
        final(out)@ == old(out)@ + seq![hex_digit(d as nat, upper)],
{
    let table = if upper {
        "0123456789ABCDEF"
    } else {
        "0123456789abcdef"
    };
    proof {
        reveal_strlit("0123456789ABCDEF");
        reveal_strlit("0123456789abcdef");
    }
    let s = table.substring_char(d as usize, d as usize + 1);
    assert(s@ =~= seq![hex_digit(d as nat, upper)]);
    out.append(s);
}

/// Appends the last `w` hexadecimal digits of `n`.
pub fn push_hex(out: &mut String, n: u64, w: u32, upper: bool)
    ensures
        final(out)@ == old(out)@ + hex_fixed(n as nat, w as nat, upper),
    decreases w,
{
    if w > 0 {
        push_hex(out, n / 16, w - 1, upper);
        push_digit(out, n % 16, upper);
        proof {
            assert(final(out)@ =~= old(out)@ + hex_fixed(n as nat, w as nat, upper));
        }
    }
}

/// Appends the decimal digits of `n`.
pub fn push_dec(out: &mut String, n: u64)
    ensures
        final(out)@ == old(out)@ + dec_nat(n as nat),
    decreases n,
{
    if n >= 10 {
        push_dec(out, n / 10);
    }
    push_digit(out, n % 10, false);
    proof {
        assert(final(out)@ =~= old(out)@ + dec_nat(n as nat));
    }
}

/// Appends the decimal text of a signed 32-bit integer.
pub fn push_i32(out: &mut String, v: i32)
    ensures
        final(out)@ == old(out)@ + dec_int(v as int),
{
    if v < 0 {
        out.append("-");
        proof {
            reveal_strlit("-");
        }
        let m: u64 = (0 - (v as i64)) as u64;
        push_dec(out, m);
        assert(final(out)@ =~= old(out)@ + dec_int(v as int));
    } else {
        push_dec(out, v as u64);
    }
}

/// The characters of a string, one by one.
pub fn chars_of(s: &str) -> (r: Vec<char>)
    ensures
        r@ == s@,
{
    let n = s.unicode_len();
    let mut r: Vec<char> = Vec::new();
    let mut i: usize = 0;
    while i < n
        invariant
            n == s@.len(),
            i <= n,
            r@ == s@.subrange(0, i as int),
        decreases n - i,
    {
        r.push(s.get_char(i));
        i = i + 1;
        assert(r@ =~= s@.subrange(0, i as int));
    }
    assert(r@ =~= s@);
    r
}

/// Whether two strings hold the same characters.
pub fn same_text(a: &str, b: &str) -> (r: bool)
    ensures
        r == (a@ == b@),
{
    let x = chars_of(a);
    let y = chars_of(b);
    if x.len() != y.len() {
        return false;
    }
    let mut i: usize = 0;
    while i < x.len()
        invariant
            x@ == a@,
            y@ == b@,
            x.len() == y.len(),
            i <= x.len(),
            forall|k: int| 0 <= k < i ==> x@[k] == y@[k],
        decreases x.len() - i,
    {
        if x[i] != y[i] {
            return false;
        }
        i = i + 1;
    }
    assert(x@ =~= y@);
    true
}

/// The folded code of one character.
pub fn fold_char(c: char) -> (r: u32)
    ensures
        r == fold_code(c),
{
    let v = c as u32;
    if 65 <= v && v <= 90 {
        v + 32
    } else {
        v
    }
}

/// Whether `q` occurs in `s` at position `at`, ignoring ASCII case.
fn folded_match_at(s: &Vec<char>, q: &Vec<char>, at: usize) -> (r: bool)
    requires
        at + q.len() <= s.len(),
    ensures
        r == (folded(s@).subrange(at as int, at + q.len()) == folded(q@)),
{
    let mut k: usize = 0;
    while k < q.len()
        invariant
            at + q.len() <= s.len(),
            k <= q.len(),
            forall|j: int| 0 <= j < k ==> fold_code(s@[at + j]) == fold_code(q@[j]),
        decreases q.len() - k,
    {
        if fold_char(s[at + k]) != fold_char(q[k]) {
            assert(folded(s@).subrange(at as int, at + q.len())[k as int] != folded(q@)[k as int]);
            return false;
        }
        k = k + 1;
    }
    assert(folded(s@).subrange(at as int, at + q.len()) =~= folded(q@));
    true
}

/// Whether `q` occurs in `s` at position `at`.
fn match_at(s: &Vec<char>, q: &Vec<char>, at: usize) -> (r: bool)
    requires
        at + q.len() <= s.len(),
    ensures
        r == (s@.subrange(at as int, at + q.len()) == q@),
{
    let mut k: usize = 0;
    while k < q.len()
        invariant
            at + q.len() <= s.len(),
            k <= q.len(),
            forall|j: int| 0 <= j < k ==> s@[at + j] == q@[j],
        decreases q.len() - k,
    {
        if s[at + k] != q[k] {
            assert(s@.subrange(at as int, at + q.len())[k as int] != q@[k as int]);
            return false;
        }
        k = k + 1;
    }
    assert(s@.subrange(at as int, at + q.len()) =~= q@);
    true
}

/// Whether `q` occurs in `s`.
pub fn contains_seq(s: &Vec<char>, q: &Vec<char>) -> (r: bool)
    ensures
        r == has_infix(s@, q@),
{
    if q.len() > s.len() {
        return false;
    }
    if q.len() == 0 {
        assert(s@.subrange(0, 0 + q@.len() as int) =~= q@);
        return true;
    }
    let last = s.len() - q.len();
    let mut i: usize = 0;
    while i <= last
        invariant
            last + q.len() == s.len(),
            q.len() > 0,
            forall|j: int| 0 <= j < i ==> #[trigger] s@.subrange(j, j + q.len()) != q@,
        decreases last + 1 - i,
    {
        if match_at(s, q, i) {
            return true;
        }
        i = i + 1;
    }
    proof {
        assert forall|j: int| 0 <= j && j + q@.len() <= s@.len() implies #[trigger] s@.subrange(
            j,
            j + q@.len(),
        ) != q@ by {
            assert(j < i);
        }
    }
    false
}

/// Whether `q` occurs in `s` when both are put in lower case.
pub fn contains_lower_of(s: &Vec<char>, q: &Vec<char>) -> (r: bool)
    ensures
        r == contains_lower(s@, q@),
{
    contains_seq(&lowercase(s), &lowercase(q))
}

/// Whether two character sequences are equal.
pub fn same_chars(a: &Vec<char>, b: &Vec<char>) -> (r: bool)
    ensures
        r == (a@ == b@),
{
    if a.len() != b.len() {
        return false;
    }
    let r = match_at(a, b, 0);
    assert(a@.subrange(0, a.len() as int) =~= a@);
    r
}

/// Whether two character sequences are equal when both are put in lower case.
pub fn eq_lower(a: &Vec<char>, b: &Vec<char>) -> (r: bool)
    ensures
        r == (lower_of(a@) == lower_of(b@)),
{
    same_chars(&lowercase(a), &lowercase(b))
}

/// Whether two character sequences are equal when ASCII case is ignored.
pub fn eq_ci(a: &Vec<char>, b: &Vec<char>) -> (r: bool)
    ensures
        r == (folded(a@) == folded(b@)),
{
    if a.len() != b.len() {
        proof {
            assert(folded(a@).len() != folded(b@).len());
        }
        return false;
    }
    let r = folded_match_at(a, b, 0);
    assert(folded(a@).subrange(0, a.len() as int) =~= folded(a@));
    r
}


/// The parts laid end to end.
pub open spec fn concat(parts: Seq<Seq<char>>) -> Seq<char>
    decreases parts.len(),
{
    if parts.len() == 0 {
        Seq::empty()
    } else {
        concat(parts.drop_last()) + parts.last()
    }
}

/// The parts laid end to end with `sep` between neighbours.
pub open spec fn join(parts: Seq<Seq<char>>, sep: Seq<char>) -> Seq<char>
    decreases parts.len(),
{
    if parts.len() == 0 {
        Seq::empty()
    } else if parts.len() == 1 {
        parts[0]
    } else {
        join(parts.drop_last(), sep) + sep + parts.last()
    }
}

/// One more part extends a prefix's concatenation by that part.
pub proof fn lemma_concat_push(parts: Seq<Seq<char>>, i: int)
    requires
        0 <= i < parts.len(),
    ensures
        concat(parts.subrange(0, i + 1)) == concat(parts.subrange(0, i)) + parts[i],
{
    assert(parts.subrange(0, i + 1).drop_last() =~= parts.subrange(0, i));
}

/// One more part extends a prefix's join by the separator and that part.
pub proof fn lemma_join_push(parts: Seq<Seq<char>>, sep: Seq<char>, i: int)
    requires
        0 <= i < parts.len(),
    ensures
        join(parts.subrange(0, i + 1), sep) == if i == 0 {
            parts[0]
        } else {
            join(parts.subrange(0, i), sep) + sep + parts[i]
        },
{
    assert(parts.subrange(0, i + 1).drop_last() =~= parts.subrange(0, i));
}

/// A run inside `x` is also inside `a + x` and inside `x + b`.
pub proof fn lemma_infix_extend(a: Seq<char>, x: Seq<char>, b: Seq<char>, y: Seq<char>)
    requires
        has_infix(x, y),
    ensures
        has_infix(a + x, y),
        has_infix(x + b, y),
{
    let i = choose|i: int| 0 <= i && i + y.len() <= x.len() && #[trigger] x.subrange(i, i + y.len()) == y;
    assert((a + x).subrange(a.len() + i, a.len() + i + y.len()) =~= y);
    assert((x + b).subrange(i, i + y.len()) =~= y);
}

/// A sequence holds itself, and so does anything it ends or starts.
pub proof fn lemma_infix_self(a: Seq<char>, y: Seq<char>)
    ensures
        has_infix(y, y),
        has_infix(a + y, y),
        has_infix(y + a, y),
{
    assert(y.subrange(0, 0 + y.len() as int) =~= y);
    lemma_infix_extend(a, y, a, y);
}

/// Every part of a concatenation occurs in it.
pub proof fn lemma_concat_part(parts: Seq<Seq<char>>, i: int)
    requires
        0 <= i < parts.len(),
    ensures
        has_infix(concat(parts), parts[i]),
    decreases parts.len(),
{
    if i == parts.len() - 1 {
        lemma_infix_self(concat(parts.drop_last()), parts[i]);
    } else {
        lemma_concat_part(parts.drop_last(), i);
        lemma_infix_extend(Seq::empty(), concat(parts.drop_last()), parts.last(), parts[i]);
    }
}

/// Appends the parts with `sep` between neighbours.
pub fn push_joined(out: &mut String, parts: &Vec<String>, sep: &str)
    ensures
        final(out)@ == old(out)@ + join(parts@.map_values(|s: String| s@), sep@),
{
    let ghost start = out@;
    let ghost v = parts@.map_values(|s: String| s@);
    let mut i: usize = 0;
    while i < parts.len()
        invariant
            v == parts@.map_values(|s: String| s@),
            i <= parts.len(),
            out@ == start + join(v.subrange(0, i as int), sep@),
        decreases parts.len() - i,
    {
        proof {
            lemma_join_push(v, sep@, i as int);
        }
        if i > 0 {
            out.append(sep);
        }
        out.append(parts[i].as_str());
        i = i + 1;
        assert(out@ =~= start + join(v.subrange(0, i as int), sep@));
    }
    assert(v.subrange(0, i as int) =~= v);
}

} // verus!
