//! The Lock Record: a process id stored as decimal text.
use vstd::prelude::*;

verus! {

/// Whitespace bytes stripped around the recorded number.
pub open spec fn is_space(b: u8) -> bool {
    b == 32 || b == 9 || b == 10 || b == 11 || b == 12 || b == 13
}

pub open spec fn is_digit(b: u8) -> bool {
    48 <= b <= 57
}

pub open spec fn all_digits(s: Seq<u8>) -> bool {
    forall|i: int| 0 <= i < s.len() ==> is_digit(#[trigger] s[i])
}

/// The number that a sequence of decimal digits denotes.
pub open spec fn digits_value(s: Seq<u8>) -> int
    decreases s.len(),
{
    if s.len() == 0 {
        0
    } else {
        digits_value(s.drop_last()) * 10 + (s.last() - 48)
    }
}

pub open spec fn trim_start(s: Seq<u8>) -> Seq<u8>
    decreases s.len(),
{
    if s.len() > 0 && is_space(s[0]) {
        trim_start(s.drop_first())
    } else {
        s
    }
}

pub open spec fn trim_end(s: Seq<u8>) -> Seq<u8>
    decreases s.len(),
{
    if s.len() > 0 && is_space(s.last()) {
        trim_end(s.drop_last())
    } else {
        s
    }
}

/// An optionally signed decimal integer, as `i32::from_str` reads it
/// (before the range check).
pub open spec fn signed_value(t: Seq<u8>) -> Option<int> {
    if t.len() > 0 && (t[0] == 43 || t[0] == 45) {
        let d = t.drop_first();
        if d.len() > 0 && all_digits(d) {
            Some(if t[0] == 45 { -digits_value(d) } else { digits_value(d) })
        } else {
            None
        }
    } else if t.len() > 0 && all_digits(t) {
        Some(digits_value(t))
    } else {
        None
    }
}

/// The process id that a Lock Record's contents name, if they name one.
pub open spec fn pid_of_record(s: Seq<u8>) -> Option<i32> {
    match signed_value(trim_end(trim_start(s))) {
        Some(v) => if i32::MIN <= v <= i32::MAX {
            Some(v as i32)
        } else {
            None
        },
        None => None,
    }
}

/// The decimal digits of a natural number, most significant first.
pub open spec fn decimal(n: nat) -> Seq<u8>
    decreases n,
{
    if n < 10 {
        seq![(48 + n) as u8]
    } else {
        decimal(n / 10).push((48 + n % 10) as u8)
    }
}

/// The contents written for a process id.
pub open spec fn pid_record(pid: i32) -> Seq<u8> {
    if pid < 0 {
        seq![45u8] + decimal((-pid) as nat)
    } else {
        decimal(pid as nat)
    }
}

proof fn lemma_decimal(n: nat)
    ensures
        decimal(n).len() > 0,
        all_digits(decimal(n)),
        digits_value(decimal(n)) == n,
    decreases n,
{
    if n >= 10 {
        lemma_decimal(n / 10);
        let d = decimal(n);
        assert(d.drop_last() =~= decimal(n / 10));
        assert(d.last() == (48 + n % 10) as u8);
        assert(n == (n / 10) * 10 + n % 10);
        assert(digits_value(d) == digits_value(d.drop_last()) * 10 + (d.last() - 48));
        assert forall|i: int| 0 <= i < d.len() implies is_digit(#[trigger] d[i]) by {
            if i < d.len() - 1 {
                assert(d[i] == decimal(n / 10)[i]);
            }
        }
    } else {
        let d = decimal(n);
        assert(d.drop_last() =~= Seq::<u8>::empty());
        assert(digits_value(d) == digits_value(d.drop_last()) * 10 + (d.last() - 48));
    }
}

proof fn lemma_digits_monotone(s: Seq<u8>, m: int)
    requires
        all_digits(s),
        0 <= m <= s.len(),
    ensures
        0 <= digits_value(s.subrange(0, m)) <= digits_value(s),
    decreases s.len(),
{
    if s.len() > 0 {
        let p = s.drop_last();
        assert forall|i: int| 0 <= i < p.len() implies is_digit(#[trigger] p[i]) by {
            assert(p[i] == s[i]);
        }
        assert(is_digit(s[s.len() - 1]));
        if m < s.len() {
            lemma_digits_monotone(p, m);
            assert(p.subrange(0, m) =~= s.subrange(0, m));
        } else {
            lemma_digits_monotone(p, 0);
            assert(s.subrange(0, m) =~= s);
        }
    } else {
        assert(s.subrange(0, m) =~= s);
    }
}

/// Writing a process id and reading the record back gives the same id.
pub proof fn lemma_record_round_trip(pid: i32)
    ensures
        pid_of_record(pid_record(pid)) == Some(pid),
{
    let r = pid_record(pid);
    let n: nat = if pid < 0 { (-pid) as nat } else { pid as nat };
    lemma_decimal(n);
    let d = decimal(n);
    assert(r.len() > 0);
    assert(!is_space(r[0]));
    assert(trim_start(r) == r);
    assert(r.last() == d.last());
    assert(is_digit(d[d.len() - 1]));
    assert(!is_space(r.last()));
    assert(trim_end(r) == r);
    if pid < 0 {
        assert(r.drop_first() =~= d);
    } else {
        assert(is_digit(d[0]));
    }
}

fn is_space_byte(b: u8) -> (r: bool)
    ensures
        r == is_space(b),
{
    b == 32 || b == 9 || b == 10 || b == 11 || b == 12 || b == 13
}

proof fn lemma_digit_step(s: Seq<u8>, a: int, k: int)
    requires
        0 <= a <= k < s.len(),
    ensures
        digits_value(s.subrange(a, k + 1)) == digits_value(s.subrange(a, k)) * 10 + (s[k] - 48),
{
    let t = s.subrange(a, k + 1);
    assert(t.drop_last() =~= s.subrange(a, k));
}

/// Reads the process id out of a Lock Record's contents: surrounding
/// whitespace is ignored, then an optionally signed decimal number that
/// fits in `i32` is required.
pub fn parse_pid(record: &[u8]) -> (r: Option<i32>)
    ensures
        r == pid_of_record(record@),
{
    let ghost s = record@;
    let n = record.len();
    let mut i: usize = 0;
    assert(s.subrange(0, n as int) =~= s);
    while i < n && is_space_byte(record[i])
        invariant
            0 <= i <= n,
            n == s.len(),
            s == record@,
            trim_start(s) == trim_start(s.subrange(i as int, n as int)),
        decreases n - i,
    {
        proof {
            let t = s.subrange(i as int, n as int);
            assert(t.drop_first() =~= s.subrange(i + 1, n as int));
        }
        i += 1;
    }
    assert(trim_start(s) == s.subrange(i as int, n as int));
    let mut j: usize = n;
    while j > i && is_space_byte(record[j - 1])
        invariant
            i <= j <= n,
            n == s.len(),
            s == record@,
            trim_end(s.subrange(i as int, n as int)) == trim_end(s.subrange(i as int, j as int)),
        decreases j,
    {
        proof {
            let t = s.subrange(i as int, j as int);
            assert(t.drop_last() =~= s.subrange(i as int, j - 1));
        }
        j -= 1;
    }
    let ghost t = s.subrange(i as int, j as int);
    assert(trim_end(trim_start(s)) == t);
    if i == j {
        return None;
    }
    let neg = record[i] == 45;
    let signed = neg || record[i] == 43;
    let start: usize = if signed { i + 1 } else { i };
    let ghost d = s.subrange(start as int, j as int);
    assert(t[0] == s[i as int]);
    assert(signed <==> (t[0] == 43 || t[0] == 45));
    assert(signed ==> t.drop_first() =~= d);
    assert(!signed ==> t =~= d);
    if start == j {
        return None;
    }
    let mut val: u64 = 0;
    let mut k: usize = start;
    while k < j
        invariant
            start <= k <= j <= n,
            n == s.len(),
            s == record@,
            d == s.subrange(start as int, j as int),
            t.len() > 0,
            trim_end(trim_start(s)) == t,
            signed <==> (t[0] == 43 || t[0] == 45),
            neg <==> t[0] == 45,
            signed ==> t.drop_first() == d,
            !signed ==> t == d,
            val == digits_value(s.subrange(start as int, k as int)),
            val <= 2147483648,
            all_digits(s.subrange(start as int, k as int)),
        decreases j - k,
    {
        let b = record[k];
        if !(48 <= b && b <= 57) {
            assert(d[k - start] == s[k as int]);
            assert(!is_digit(d[k - start]));
            assert(!all_digits(d));
            assert(signed_value(t) is None);
            return None;
        }
        proof {
            lemma_digit_step(s, start as int, k as int);
        }
        let next: u64 = val * 10 + (b - 48) as u64;
        if next > 2147483648 {
            proof {
                if all_digits(d) {
                    lemma_digits_monotone(d, k + 1 - start);
                    assert(d.subrange(0, k + 1 - start) =~= s.subrange(start as int, k + 1));
                    assert(digits_value(d) > 2147483648);
                }
                assert(pid_of_record(s) is None);
            }
            return None;
        }
        proof {
            let p = s.subrange(start as int, k + 1);
            assert forall|x: int| 0 <= x < p.len() implies is_digit(#[trigger] p[x]) by {
                if x < k - start {
                    assert(p[x] == s.subrange(start as int, k as int)[x]);
                }
            }
        }
        val = next;
        k += 1;
    }
    assert(s.subrange(start as int, k as int) =~= d);
    if neg {
        Some((0i64 - val as i64) as i32)
    } else if val <= 2147483647 {
        Some(val as i32)
    } else {
        None
    }
}

fn push_decimal(n: u32, out: &mut Vec<u8>)
    ensures
        final(out)@ == old(out)@ + decimal(n as nat),
    decreases n,
{
    if n >= 10 {
        push_decimal(n / 10, out);
    }
    out.push(48 + (n % 10) as u8);
    proof {
        if n >= 10 {
            assert(old(out)@ + decimal((n / 10) as nat) + seq![(48 + n % 10) as u8] =~= old(out)@
                + decimal(n as nat));
        } else {
            assert(old(out)@ + seq![(48 + n % 10) as u8] =~= old(out)@ + decimal(n as nat));
        }
    }
}

/// The Lock Record contents for a process id: its decimal text.
pub fn render_pid(pid: i32) -> (r: Vec<u8>)
    ensures
        r@ == pid_record(pid),
{
    let mut out: Vec<u8> = Vec::new();
    if pid < 0 {
        out.push(45);
        let m: u32 = (0i64 - pid as i64) as u32;
        push_decimal(m, &mut out);
        assert(out@ =~= pid_record(pid));
    } else {
        push_decimal(pid as u32, &mut out);
        assert(out@ =~= pid_record(pid));
    }
    out
}

} // verus!
