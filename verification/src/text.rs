//! Text handling shared by the modules: string lists, character-level comparisons,
//! decimal numbers and path joining.

use vstd::prelude::*;

verus! {

/// Appends a character to a string.
pub assume_specification[ String::push ](s: &mut String, ch: char)
    ensures
        final(s)@ == old(s)@.push(ch),
;

/// Appends a string slice to a string.
pub assume_specification[ String::push_str ](s: &mut String, other: &str)
    ensures
        final(s)@ == old(s)@ + other@,
;

/// A string holding the characters of `s`.
pub fn owned(s: &str) -> (r: String)
    ensures
        r@ == s@,
{
    let r = s.to_string();
    proof {
        vstd::string::to_string_from_display_ensures_for_str(s, r);
    }
    r
}

/// `prefix` followed by `rest`.
pub fn concat(prefix: &str, rest: &str) -> (r: String)
    ensures
        r@ == prefix@ + rest@,
{
    let mut r = owned(prefix);
    r.push_str(rest);
    r
}

/// The text of each string of a list.
pub open spec fn views(v: Seq<String>) -> Seq<Seq<char>> {
    v.map_values(|s: String| s@)
}

/// Index of the first entry of `v` equal to `s`, if there is one.
pub fn position_of(v: &Vec<String>, s: &str) -> (r: Option<usize>)
    ensures
        match r {
            Some(i) => i < v.len() && v@[i as int]@ == s@ && forall|j: int|
                0 <= j < i ==> v@[j]@ != s@,
            None => !views(v@).contains(s@),
        },
{
    let mut i: usize = 0;
    while i < v.len()
        invariant
            i <= v.len(),
            forall|j: int| 0 <= j < i ==> v@[j]@ != s@,
        decreases v.len() - i,
    {
        if str_eq(v[i].as_str(), s) {
            return Some(i);
        }
        i = i + 1;
    }
    proof {
        if views(v@).contains(s@) {
            let k = choose|k: int| 0 <= k < views(v@).len() && views(v@)[k] == s@;
            assert(v@[k]@ == s@);
        }
    }
    None
}

/// Whether the ids in `v` are pairwise distinct.
pub open spec fn distinct_ids(v: Seq<String>) -> bool {
    views(v).no_duplicates()
}

/// A list of distinct texts has as many entries as its set.
pub proof fn lemma_distinct_len(v: Seq<String>)
    requires
        distinct_ids(v),
    ensures
        views(v).to_set().len() == v.len(),
        views(v).to_set().finite(),
{
    views(v).unique_seq_to_set();
    vstd::seq_lib::seq_to_set_is_finite(views(v));
}

/// Adds `id` to the list unless it is there already.
pub fn id_insert(v: &mut Vec<String>, id: &String)
    requires
        distinct_ids(old(v)@),
    ensures
        distinct_ids(final(v)@),
        views(final(v)@).to_set() == views(old(v)@).to_set().insert(id@),
{
    match position_of(v, id.as_str()) {
        Some(i) => {
            assert(views(v@)[i as int] == id@);
            assert(views(v@).to_set() =~= views(v@).to_set().insert(id@));
        },
        None => {
            let ghost before = v@;
            v.push(id.clone());
            assert(views(v@) =~= views(before).push(id@));
            assert(views(v@).to_set() =~= views(before).to_set().insert(id@)) by {
                assert forall|s: Seq<char>| views(v@).contains(s) <==> views(
                    before,
                ).to_set().insert(id@).contains(s) by {
                    if views(v@).contains(s) {
                        let k = choose|k: int| 0 <= k < views(v@).len() && views(v@)[k] == s;
                        if k < before.len() {
                            assert(views(before)[k] == s);
                        }
                    }
                    if views(before).contains(s) {
                        let k = choose|k: int|
                            0 <= k < views(before).len() && views(before)[k] == s;
                        assert(views(v@)[k] == s);
                    }
                    if s == id@ {
                        assert(views(v@)[before.len() as int] == s);
                    }
                }
            }
        },
    }
}

/// Removes `id` from the list when it is there.
pub fn id_remove(v: &mut Vec<String>, id: &String)
    requires
        distinct_ids(old(v)@),
    ensures
        distinct_ids(final(v)@),
        views(final(v)@).to_set() == views(old(v)@).to_set().remove(id@),
{
    match position_of(v, id.as_str()) {
        None => {
            assert(views(v@).to_set() =~= views(v@).to_set().remove(id@));
        },
        Some(i) => {
            let ghost before = v@;
            v.remove(i);
            assert(views(v@) =~= views(before).remove(i as int));
            assert forall|a: int, b: int|
                0 <= a < views(v@).len() && 0 <= b < views(v@).len() && a != b implies views(
                v@,
            )[a] != views(v@)[b] by {
                let a0 = if a < i { a } else { a + 1 };
                let b0 = if b < i { b } else { b + 1 };
                assert(views(v@)[a] == views(before)[a0]);
                assert(views(v@)[b] == views(before)[b0]);
            }
            assert(views(v@).to_set() =~= views(before).to_set().remove(id@)) by {
                assert forall|s: Seq<char>| views(v@).contains(s) <==> views(
                    before,
                ).to_set().remove(id@).contains(s) by {
                    if views(v@).contains(s) {
                        let k = choose|k: int| 0 <= k < views(v@).len() && views(v@)[k] == s;
                        let k0 = if k < i { k } else { k + 1 };
                        assert(views(before)[k0] == s);
                        assert(k0 != i);
                        assert(views(before)[i as int] == id@);
                        assert(views(before)[k0] != views(before)[i as int]);
                    }
                    if views(before).contains(s) && s != id@ {
                        let k = choose|k: int|
                            0 <= k < views(before).len() && views(before)[k] == s;
                        assert(k != i);
                        if k < i {
                            assert(views(v@)[k] == s);
                        } else {
                            assert(views(v@)[k - 1] == s);
                        }
                    }
                }
            }
        },
    }
}

/// The characters of a string slice, in order.
pub fn chars_of(s: &str) -> (v: Vec<char>)
    ensures
        v@ == s@,
{
    let n = s.unicode_len();
    let mut v: Vec<char> = Vec::new();
    let mut i: usize = 0;
    while i < n
        invariant
            n == s@.len(),
            i <= n,
            v@ == s@.subrange(0, i as int),
        decreases n - i,
    {
        v.push(s.get_char(i));
        i = i + 1;
        assert(v@ =~= s@.subrange(0, i as int));
    }
    assert(v@ =~= s@);
    v
}

/// A string holding the given characters.
pub fn string_of(v: &Vec<char>) -> (s: String)
    ensures
        s@ == v@,
{
    let mut s = String::new();
    let mut i: usize = 0;
    while i < v.len()
        invariant
            i <= v.len(),
            s@ == v@.subrange(0, i as int),
        decreases v.len() - i,
    {
        s.push(v[i]);
        i = i + 1;
        assert(s@ =~= v@.subrange(0, i as int));
    }
    assert(s@ =~= v@);
    s
}

/// Whether two string slices hold the same characters.
pub fn str_eq(a: &str, b: &str) -> (r: bool)
    ensures
        r == (a@ == b@),
{
    let n = a.unicode_len();
    if n != b.unicode_len() {
        return false;
    }
    let mut i: usize = 0;
    while i < n
        invariant
            n == a@.len(),
            n == b@.len(),
            i <= n,
            forall|j: int| 0 <= j < i ==> a@[j] == b@[j],
        decreases n - i,
    {
        if a.get_char(i) != b.get_char(i) {
            return false;
        }
        i = i + 1;
    }
    assert(a@ =~= b@);
    true
}

/// Whether `p` occurs in `s` at position `i`.
pub open spec fn occurs_at(s: Seq<char>, p: Seq<char>, i: int) -> bool {
    0 <= i && i + p.len() <= s.len() && s.subrange(i, i + p.len()) == p
}

/// Whether `p` occurs anywhere in `s`.
pub open spec fn contains_seq(s: Seq<char>, p: Seq<char>) -> bool {
    exists|i: int| occurs_at(s, p, i)
}

/// Whether `s` begins with `p`.
pub open spec fn starts_with_seq(s: Seq<char>, p: Seq<char>) -> bool {
    occurs_at(s, p, 0)
}

fn matches_at(s: &Vec<char>, p: &Vec<char>, i: usize) -> (r: bool)
    requires
        i + p.len() <= s.len(),
    ensures
        r == occurs_at(s@, p@, i as int),
{
    let mut k: usize = 0;
    while k < p.len()
        invariant
            i + p.len() <= s.len(),
            k <= p.len(),
            forall|j: int| 0 <= j < k ==> s@[i + j] == p@[j],
        decreases p.len() - k,
    {
        if s[i + k] != p[k] {
            assert(s@.subrange(i as int, i + p.len())[k as int] != p@[k as int]);
            return false;
        }
        k = k + 1;
    }
    assert(s@.subrange(i as int, i + p.len()) =~= p@);
    true
}

/// Whether `pattern` occurs in `s`.
pub fn str_contains(s: &str, pattern: &str) -> (r: bool)
    ensures
        r == contains_seq(s@, pattern@),
{
    let sv = chars_of(s);
    let pv = chars_of(pattern);
    if pv.len() > sv.len() {
        return false;
    }
    let last = sv.len() - pv.len();
    let mut i: usize = 0;
    loop
        invariant
            i <= last,
            last == sv.len() - pv.len(),
            pv.len() <= sv.len(),
            sv@ == s@,
            pv@ == pattern@,
            forall|j: int| 0 <= j < i ==> !occurs_at(s@, pattern@, j),
        decreases last - i,
    {
        if matches_at(&sv, &pv, i) {
            return true;
        }
        if i == last {
            assert forall|j: int| !occurs_at(s@, pattern@, j) by {
                if occurs_at(s@, pattern@, j) {
                    assert(j <= last);
                }
            }
            return false;
        }
        i = i + 1;
    }
}

/// Whether `s` begins with `prefix`.
pub fn str_starts_with(s: &str, prefix: &str) -> (r: bool)
    ensures
        r == starts_with_seq(s@, prefix@),
{
    let sv = chars_of(s);
    let pv = chars_of(prefix);
    if pv.len() > sv.len() {
        return false;
    }
    matches_at(&sv, &pv, 0)
}

/// The ASCII digit for `d`.
pub open spec fn digit_char(d: nat) -> char {
    (('0' as u8) + d) as char
}

/// The decimal representation of `n`, without leading zeros.
pub open spec fn decimal(n: nat) -> Seq<char>
    decreases n,
{
    if n < 10 {
        seq![digit_char(n)]
    } else {
        decimal(n / 10).push(digit_char(n % 10))
    }
}

/// Appends the decimal representation of `n` to `s`.
pub fn push_decimal(s: &mut String, n: u64)
    ensures
        final(s)@ == old(s)@ + decimal(n as nat),
    decreases n,
{
    if n >= 10 {
        push_decimal(s, n / 10);
    }
    let d: u8 = (n % 10) as u8;
    let c: char = (48u8 + d) as char;
    s.push(c);
    proof {
        assert(c == digit_char((n % 10) as nat));
        if n >= 10 {
            assert(decimal(n as nat) == decimal((n / 10) as nat).push(digit_char((n % 10) as nat)));
        }
    }
}

/// The decimal representation of a signed number, with a leading `-` when negative.
pub open spec fn signed_decimal(n: int) -> Seq<char> {
    if n < 0 {
        seq!['-'] + decimal((-n) as nat)
    } else {
        decimal(n as nat)
    }
}

/// Appends the decimal representation of `n` to `s`.
pub fn push_signed_decimal(s: &mut String, n: i64)
    ensures
        final(s)@ == old(s)@ + signed_decimal(n as int),
{
    if n < 0 {
        s.push('-');
        let m: u64 = if n == i64::MIN {
            9223372036854775808u64
        } else {
            (-n) as u64
        };
        let ghost mid = s@;
        push_decimal(s, m);
        assert(s@ =~= old(s)@ + signed_decimal(n as int));
    } else {
        push_decimal(s, n as u64);
    }
}

/// `comp` appended to `base` as one more path component: a separator goes between them
/// unless `base` is empty or already ends in one. `comp` is meant to be relative.
pub open spec fn join_path(base: Seq<char>, comp: Seq<char>) -> Seq<char> {
    if base.len() == 0 || base.last() == '/' {
        base + comp
    } else {
        base + seq!['/'] + comp
    }
}

/// Appends a relative path component to a path, as `Path::join` does on Unix.
pub fn join_relative(base: &str, comp: &str) -> (r: String)
    ensures
        r@ == join_path(base@, comp@),
{
    let n = base.unicode_len();
    let mut r = base.to_string();
    proof {
        vstd::string::to_string_from_display_ensures_for_str(base, r);
    }
    if n > 0 && base.get_char(n - 1) != '/' {
        r.push('/');
    }
    r.push_str(comp);
    r
}

/// The ASCII lowercase form of a character; other characters are kept.
pub open spec fn ascii_lower(c: char) -> char {
    if 'A' <= c && c <= 'Z' {
        ((c as u32) + 32) as char
    } else {
        c
    }
}

/// Whether two texts are equal once ASCII letters are folded to lowercase.
pub open spec fn eq_ignore_ascii_case_seq(a: Seq<char>, b: Seq<char>) -> bool {
    a.len() == b.len() && forall|i: int| 0 <= i < a.len() ==> ascii_lower(a[i]) == ascii_lower(b[i])
}

fn lower_char(c: char) -> (r: char)
    ensures
        r == ascii_lower(c),
{
    if 'A' <= c && c <= 'Z' {
        let b: u8 = (c as u32) as u8;
        (b + 32) as char
    } else {
        c
    }
}

/// Whether two strings are equal once ASCII letters are folded to lowercase.
pub fn eq_ignore_ascii_case(a: &str, b: &str) -> (r: bool)
    ensures
        r == eq_ignore_ascii_case_seq(a@, b@),
{
    let n = a.unicode_len();
    if n != b.unicode_len() {
        return false;
    }
    let mut i: usize = 0;
    while i < n
        invariant
            n == a@.len(),
            n == b@.len(),
            i <= n,
            forall|j: int| 0 <= j < i ==> ascii_lower(a@[j]) == ascii_lower(b@[j]),
        decreases n - i,
    {
        if lower_char(a.get_char(i)) != lower_char(b.get_char(i)) {
            return false;
        }
        i = i + 1;
    }
    true
}

/// The characters that Unicode marks White_Space, which `str::trim` removes.
pub open spec fn is_whitespace(c: char) -> bool {
    let u = c as u32;
    ||| 0x09 <= u <= 0x0d
    ||| u == 0x20
    ||| u == 0x85
    ||| u == 0xa0
    ||| u == 0x1680
    ||| 0x2000 <= u <= 0x200a
    ||| u == 0x2028
    ||| u == 0x2029
    ||| u == 0x202f
    ||| u == 0x205f
    ||| u == 0x3000
}

fn whitespace(c: char) -> (r: bool)
    ensures
        r == is_whitespace(c),
{
    let u = c as u32;
    (0x09 <= u && u <= 0x0d) || u == 0x20 || u == 0x85 || u == 0xa0 || u == 0x1680 || (0x2000
        <= u && u <= 0x200a) || u == 0x2028 || u == 0x2029 || u == 0x202f || u == 0x205f || u
        == 0x3000
}

/// The index of the first character of `s` that is not whitespace, or `s.len()`.
pub open spec fn trim_start_index(s: Seq<char>) -> int
    decreases s.len(),
{
    if s.len() == 0 || !is_whitespace(s[0]) {
        0
    } else {
        1 + trim_start_index(s.drop_first())
    }
}

/// The index just after the last character of `s` that is not whitespace, or 0.
pub open spec fn trim_end_index(s: Seq<char>) -> int
    decreases s.len(),
{
    if s.len() == 0 || !is_whitespace(s.last()) {
        s.len() as int
    } else {
        trim_end_index(s.drop_last())
    }
}

/// `s` without leading and trailing whitespace.
pub open spec fn trimmed(s: Seq<char>) -> Seq<char> {
    let a = trim_start_index(s);
    let b = trim_end_index(s);
    if a < b {
        s.subrange(a, b)
    } else {
        Seq::empty()
    }
}

proof fn lemma_trim_start(s: Seq<char>, i: int)
    requires
        0 <= i <= s.len(),
        forall|j: int| 0 <= j < i ==> is_whitespace(s[j]),
        i == s.len() || !is_whitespace(s[i]),
    ensures
        trim_start_index(s) == i,
    decreases s.len(),
{
    if s.len() > 0 && i > 0 {
        lemma_trim_start(s.drop_first(), i - 1);
    }
}

proof fn lemma_trim_end(s: Seq<char>, i: int)
    requires
        0 <= i <= s.len(),
        forall|j: int| i <= j < s.len() ==> is_whitespace(s[j]),
        i == 0 || !is_whitespace(s[i - 1]),
    ensures
        trim_end_index(s) == i,
    decreases s.len(),
{
    if s.len() > 0 && i < s.len() {
        lemma_trim_end(s.drop_last(), i);
    }
}

/// The characters of `s` without leading and trailing whitespace, as `str::trim` leaves them.
pub fn trim_chars(s: &str) -> (r: Vec<char>)
    ensures
        r@ == trimmed(s@),
{
    let v = chars_of(s);
    trim_vec(&v)
}

/// `v` without leading and trailing whitespace.
pub fn trim_vec(v: &Vec<char>) -> (r: Vec<char>)
    ensures
        r@ == trimmed(v@),
{
    let n = v.len();
    let mut a: usize = 0;
    while a < n && whitespace(v[a])
        invariant
            a <= n,
            n == v@.len(),
            forall|j: int| 0 <= j < a ==> is_whitespace(v@[j]),
        decreases n - a,
    {
        a = a + 1;
    }
    proof {
        lemma_trim_start(v@, a as int);
    }
    let mut b: usize = n;
    while b > 0 && whitespace(v[b - 1])
        invariant
            b <= n,
            n == v@.len(),
            forall|j: int| b <= j < n ==> is_whitespace(v@[j]),
        decreases b,
    {
        b = b - 1;
    }
    proof {
        lemma_trim_end(v@, b as int);
    }
    let mut r: Vec<char> = Vec::new();
    if a < b {
        let mut i: usize = a;
        while i < b
            invariant
                a <= i <= b,
                b <= n,
                n == v@.len(),
                r@ == v@.subrange(a as int, i as int),
            decreases b - i,
        {
            r.push(v[i]);
            i = i + 1;
            assert(r@ =~= v@.subrange(a as int, i as int));
        }
    } else {
        assert(r@ =~= Seq::<char>::empty());
    }
    r
}

/// The pieces of `s` between occurrences of `sep`, as `str::split(sep)` yields them.
pub open spec fn split_on(s: Seq<char>, sep: char) -> Seq<Seq<char>>
    decreases s.len(),
{
    if s.len() == 0 {
        seq![Seq::empty()]
    } else {
        let rest = split_on(s.drop_last(), sep);
        if s.last() == sep {
            rest.push(Seq::empty())
        } else {
            rest.update(rest.len() - 1, rest.last().push(s.last()))
        }
    }
}

/// The texts of a list of character vectors.
pub open spec fn piece_views(v: Seq<Vec<char>>) -> Seq<Seq<char>> {
    v.map_values(|p: Vec<char>| p@)
}

/// Splits `chars` at each `sep`, as `str::split(sep)` does.
pub fn split_chars(chars: &Vec<char>, sep: char) -> (pieces: Vec<Vec<char>>)
    ensures
        piece_views(pieces@) == split_on(chars@, sep),
{
    let n = chars.len();
    let mut pieces: Vec<Vec<char>> = Vec::new();
    let mut current: Vec<char> = Vec::new();
    let mut i: usize = 0;
    assert(chars@.subrange(0, 0) =~= Seq::<char>::empty());
    assert(piece_views(pieces@).push(current@) =~= split_on(chars@.subrange(0, 0), sep));
    while i < n
        invariant
            i <= n,
            n == chars@.len(),
            piece_views(pieces@).push(current@) == split_on(chars@.subrange(0, i as int), sep),
        decreases n - i,
    {
        let ghost pre = chars@.subrange(0, i as int);
        let ghost post = chars@.subrange(0, i + 1);
        assert(post.drop_last() =~= pre);
        assert(post.last() == chars@[i as int]);
        let c = chars[i];
        let ghost old_pieces = piece_views(pieces@);
        if c == sep {
            let done = current;
            pieces.push(done);
            current = Vec::new();
            assert(piece_views(pieces@) =~= old_pieces.push(done@));
            assert(piece_views(pieces@).push(current@) =~= split_on(pre, sep).push(Seq::empty()));
        } else {
            current.push(c);
            assert(piece_views(pieces@) =~= old_pieces);
            let ghost sp = split_on(pre, sep);
            assert(sp.update(sp.len() - 1, sp.last().push(c)) =~= old_pieces.push(current@));
        }
        i = i + 1;
    }
    assert(chars@.subrange(0, n as int) =~= chars@);
    let ghost before = piece_views(pieces@);
    pieces.push(current);
    assert(piece_views(pieces@) =~= before.push(current@));
    pieces
}

/// The Unicode lowercase form of a text, as `str::to_lowercase` computes it.
pub uninterp spec fn lowercase(s: Seq<char>) -> Seq<char>;

/// Calls `str::to_lowercase`, which maps each character to its Unicode lowercase form.
/// The contract names its result, a function of the text alone.
#[verifier::external_body]
pub fn to_lowercase(s: &str) -> (r: String)
    ensures
        r@ == lowercase(s@),
{
    s.to_lowercase()
}

} // verus!
