//! Text building blocks: decimal rendering, padding, whitespace splitting and joining.
use vstd::prelude::*;

verus! {

/// The character of a decimal digit.
pub open spec fn digit_char(d: nat) -> char {
    (d + 48) as char
}

/// Decimal rendering of a natural number, most significant digit first, without leading zeros.
pub open spec fn decimal(n: nat) -> Seq<char>
    decreases n,
{
    if n < 10 {
        seq![digit_char(n)]
    } else {
        decimal(n / 10).push(digit_char(n % 10))
    }
}

/// Rendering with at least two digits, padded with a leading zero (`{:02}`).
pub open spec fn decimal_two_digits(n: nat) -> Seq<char> {
    if n < 10 {
        seq!['0'] + decimal(n)
    } else {
        decimal(n)
    }
}

/// `n` space characters.
pub open spec fn spaces(n: nat) -> Seq<char> {
    Seq::new(n, |i: int| ' ')
}

/// Left-aligned text in a field of `width` characters (`{:width}`).
pub open spec fn pad_right(s: Seq<char>, width: nat) -> Seq<char> {
    if s.len() >= width {
        s
    } else {
        s + spaces((width - s.len()) as nat)
    }
}

/// `n` copies of `c`.
pub open spec fn repeat_char(c: char, n: nat) -> Seq<char> {
    Seq::new(n, |i: int| c)
}

/// The parts joined with `sep` between consecutive parts.
pub open spec fn join(parts: Seq<Seq<char>>, sep: Seq<char>) -> Seq<char>
    decreases parts.len(),
{
    if parts.len() == 0 {
        seq![]
    } else if parts.len() == 1 {
        parts[0]
    } else {
        join(parts.drop_last(), sep) + sep + parts.last()
    }
}

/// Unicode `White_Space`, the property that `char::is_whitespace` tests.
pub open spec fn is_ws(c: char) -> bool {
    let v = c as u32;
    ||| 0x09 <= v <= 0x0D
    ||| v == 0x20
    ||| v == 0x85
    ||| v == 0xA0
    ||| v == 0x1680
    ||| 0x2000 <= v <= 0x200A
    ||| v == 0x2028
    ||| v == 0x2029
    ||| v == 0x202F
    ||| v == 0x205F
    ||| v == 0x3000
}

/// One step of splitting at whitespace: the finished words and the word being read.
pub open spec fn split_step(st: (Seq<Seq<char>>, Seq<char>), c: char) -> (Seq<Seq<char>>, Seq<char>) {
    if is_ws(c) {
        if st.1.len() > 0 {
            (st.0.push(st.1), Seq::empty())
        } else {
            st
        }
    } else {
        (st.0, st.1.push(c))
    }
}

pub open spec fn split_state(s: Seq<char>) -> (Seq<Seq<char>>, Seq<char>)
    decreases s.len(),
{
    if s.len() == 0 {
        (Seq::empty(), Seq::empty())
    } else {
        split_step(split_state(s.drop_last()), s.last())
    }
}

/// The maximal runs of non-whitespace characters of `s`, in order (`str::split_whitespace`).
pub open spec fn words(s: Seq<char>) -> Seq<Seq<char>> {
    let st = split_state(s);
    if st.1.len() > 0 {
        st.0.push(st.1)
    } else {
        st.0
    }
}

proof fn lemma_split_state_nonempty(s: Seq<char>)
    ensures
        forall|k: int| 0 <= k < split_state(s).0.len() ==> (#[trigger] split_state(s).0[k]).len() > 0,
    decreases s.len(),
{
    if s.len() > 0 {
        lemma_split_state_nonempty(s.drop_last());
        let prev = split_state(s.drop_last());
        let next = split_state(s);
        assert forall|k: int| 0 <= k < next.0.len() implies (#[trigger] next.0[k]).len() > 0 by {
            if k < prev.0.len() {
                assert(next.0[k] == prev.0[k]);
            }
        }
    }
}

/// Every word is non-empty.
pub proof fn lemma_words_nonempty(s: Seq<char>)
    ensures
        forall|k: int| 0 <= k < words(s).len() ==> (#[trigger] words(s)[k]).len() > 0,
{
    lemma_split_state_nonempty(s);
}

/// The UTF-8 encoding of a concatenation is the concatenation of the encodings.
pub proof fn lemma_encode_utf8_concat(a: Seq<char>, b: Seq<char>)
    ensures
        vstd::utf8::encode_utf8(a + b) == vstd::utf8::encode_utf8(a) + vstd::utf8::encode_utf8(b),
    decreases a.len(),
{
    if a.len() > 0 {
        assert((a + b).drop_first() == a.drop_first() + b);
        lemma_encode_utf8_concat(a.drop_first(), b);
        assert(vstd::utf8::encode_scalar(a[0] as u32) + (vstd::utf8::encode_utf8(a.drop_first())
            + vstd::utf8::encode_utf8(b)) == (vstd::utf8::encode_scalar(a[0] as u32)
            + vstd::utf8::encode_utf8(a.drop_first())) + vstd::utf8::encode_utf8(b));
    }
}

/// The total length of the UTF-8 encodings of the parts.
pub open spec fn encoded_total(parts: Seq<Seq<char>>) -> int
    decreases parts.len(),
{
    if parts.len() == 0 {
        0
    } else {
        encoded_total(parts.drop_last()) + vstd::utf8::encode_utf8(parts.last()).len()
    }
}

proof fn lemma_encoded_total_nonneg(parts: Seq<Seq<char>>)
    ensures
        encoded_total(parts) >= 0,
    decreases parts.len(),
{
    if parts.len() > 0 {
        lemma_encoded_total_nonneg(parts.drop_last());
    }
}

proof fn lemma_encoded_total_part(parts: Seq<Seq<char>>, k: int)
    requires
        0 <= k < parts.len(),
    ensures
        vstd::utf8::encode_utf8(parts[k]).len() <= encoded_total(parts),
    decreases parts.len(),
{
    lemma_encoded_total_nonneg(parts.drop_last());
    if k < parts.len() - 1 {
        lemma_encoded_total_part(parts.drop_last(), k);
    }
}

proof fn lemma_split_state_encoded(s: Seq<char>)
    ensures
        encoded_total(split_state(s).0) + vstd::utf8::encode_utf8(split_state(s).1).len()
            <= vstd::utf8::encode_utf8(s).len(),
    decreases s.len(),
{
    if s.len() > 0 {
        let prev = s.drop_last();
        let c = s.last();
        lemma_split_state_encoded(prev);
        assert(s == prev + seq![c]);
        lemma_encode_utf8_concat(prev, seq![c]);
        let st = split_state(prev);
        if !is_ws(c) {
            assert(st.1.push(c) == st.1 + seq![c]);
            lemma_encode_utf8_concat(st.1, seq![c]);
        } else if st.1.len() > 0 {
            assert(st.0.push(st.1).drop_last() == st.0);
        }
    }
}

/// No word is longer in UTF-8 than the text it comes from.
pub proof fn lemma_word_encoded_len(s: Seq<char>, k: int)
    requires
        0 <= k < words(s).len(),
    ensures
        vstd::utf8::encode_utf8(words(s)[k]).len() <= vstd::utf8::encode_utf8(s).len(),
{
    lemma_split_state_encoded(s);
    let st = split_state(s);
    if st.1.len() > 0 {
        assert(st.0.push(st.1).drop_last() == st.0);
        lemma_encoded_total_part(st.0.push(st.1), k);
    } else {
        lemma_encoded_total_part(st.0, k);
    }
}

/// Appends `c` to `s`, by `String::push`. Claimed: the text gains `c` at its end and
/// nothing else changes.
#[verifier::external_body]
pub(crate) fn push_char(s: &mut String, c: char)
    ensures
        final(s)@ == old(s)@.push(c),
{
    s.push(c);
}

fn digit_str(d: u64) -> (r: &'static str)
    requires
        d < 10,
    ensures
        r@ == seq![digit_char(d as nat)],
{
    proof {
        reveal_strlit("0");
        reveal_strlit("1");
        reveal_strlit("2");
        reveal_strlit("3");
        reveal_strlit("4");
        reveal_strlit("5");
        reveal_strlit("6");
        reveal_strlit("7");
        reveal_strlit("8");
        reveal_strlit("9");
    }
    match d {
        0 => "0",
        1 => "1",
        2 => "2",
        3 => "3",
        4 => "4",
        5 => "5",
        6 => "6",
        7 => "7",
        8 => "8",
        _ => "9",
    }
}

/// Appends the decimal rendering of `n` (`{}` on an unsigned integer).
pub fn push_decimal(out: &mut String, n: u64)
    ensures
        final(out)@ == old(out)@ + decimal(n as nat),
    decreases n,
{
    if n < 10 {
        out.append(digit_str(n));
    } else {
        push_decimal(out, n / 10);
        out.append(digit_str(n % 10));
    }
}

/// Appends `n` with at least two digits (`{:02}`).
pub fn push_two_digits(out: &mut String, n: u64)
    ensures
        final(out)@ == old(out)@ + decimal_two_digits(n as nat),
{
    if n < 10 {
        out.append("0");
        proof { reveal_strlit("0"); }
    }
    push_decimal(out, n);
}

/// Appends `s` left-aligned in a field of `width` characters.
pub fn push_padded(out: &mut String, s: &str, width: usize)
    ensures
        final(out)@ == old(out)@ + pad_right(s@, width as nat),
{
    let ghost start = out@;
    out.append(s);
    let mut n: usize = 0;
    for c in it: s.chars()
        invariant
            it.seq() == s@,
            n <= width,
            n == if it.index@ < width { it.index@ } else { width as int },
    {
        if n < width {
            n = n + 1;
        }
    }
    if n < width {
        let mut k: usize = n;
        while k < width
            invariant
                n <= k <= width,
                out@ == start + s@ + spaces((k - n) as nat),
            decreases width - k,
        {
            out.append(" ");
            proof { reveal_strlit(" "); }
            k = k + 1;
        }
    }
}

/// Appends `n` copies of the one-character text `c`.
pub fn push_repeated(out: &mut String, c: &str, n: usize)
    requires
        c@.len() == 1,
    ensures
        final(out)@ == old(out)@ + repeat_char(c@[0], n as nat),
{
    let ghost start = out@;
    let mut k: usize = 0;
    while k < n
        invariant
            k <= n,
            c@.len() == 1,
            out@ == start + repeat_char(c@[0], k as nat),
        decreases n - k,
    {
        out.append(c);
        k = k + 1;
    }
}

/// Whether `c` is Unicode whitespace (`char::is_whitespace`).
pub fn is_whitespace_char(c: char) -> (b: bool)
    ensures
        b == is_ws(c),
{
    let v = c as u32;
    (0x09 <= v && v <= 0x0D) || v == 0x20 || v == 0x85 || v == 0xA0 || v == 0x1680
        || (0x2000 <= v && v <= 0x200A) || v == 0x2028 || v == 0x2029 || v == 0x202F
        || v == 0x205F || v == 0x3000
}

/// The whitespace-separated words of `s` (`str::split_whitespace`).
pub fn split_whitespace(s: &str) -> (r: Vec<String>)
    ensures
        r@.len() == words(s@).len(),
        forall|i: int| 0 <= i < r@.len() ==> #[trigger] r@[i]@ == words(s@)[i],
{
    let mut done: Vec<String> = Vec::new();
    let mut cur = String::new();
    for c in it: s.chars()
        invariant
            it.seq() == s@,
            done@.len() == split_state(s@.take(it.index@ as int)).0.len(),
            forall|i: int| 0 <= i < done@.len() ==> #[trigger] done@[i]@ == split_state(s@.take(it.index@ as int)).0[i],
            cur@ == split_state(s@.take(it.index@ as int)).1,
    {
        let ghost i = it.index@ as int;
        assert(s@.take(i + 1).drop_last() == s@.take(i));
        if is_whitespace_char(c) {
            if !cur.as_str().is_empty() {
                let w = cur;
                done.push(w);
                cur = String::new();
            }
        } else {
            push_char(&mut cur, c);
        }
    }
    assert(s@.take(s@.len() as int) == s@);
    if !cur.as_str().is_empty() {
        done.push(cur);
    }
    done
}

/// The texts joined with `sep` between consecutive texts (`[String]::join`).
pub fn join_strings(parts: &Vec<String>, sep: &str) -> (r: String)
    ensures
        r@ == join(parts@.map_values(|p: String| p@), sep@),
{
    let ghost views = parts@.map_values(|p: String| p@);
    let mut out = String::new();
    let mut i: usize = 0;
    while i < parts.len()
        invariant
            i <= parts@.len(),
            views == parts@.map_values(|p: String| p@),
            out@ == join(views.take(i as int), sep@),
        decreases parts@.len() - i,
    {
        assert(views.take(i + 1).drop_last() == views.take(i as int));
        if i > 0 {
            out.append(sep);
        }
        out.append(parts[i].as_str());
        i = i + 1;
    }
    assert(views.take(parts@.len() as int) == views);
    out
}

} // verus!
